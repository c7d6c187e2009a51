use std::io::Write;

use holochain_runtime::archive::{is_safe_entry_name, ui_replacement_plan, UiAction};
use holochain_runtime::filesystem::FileSystem;
use holochain_runtime::ports::allocate_port_pair;

fn ui_zip() -> Vec<u8> {
    let mut writer = zip::ZipWriter::new(std::io::Cursor::new(Vec::new()));
    let options = zip::write::SimpleFileOptions::default()
        .compression_method(zip::CompressionMethod::Stored);
    writer.add_directory("assets", options).unwrap();
    writer.start_file("index.html", options).unwrap();
    writer.write_all(b"<html></html>").unwrap();
    writer.start_file("assets/app.js", options).unwrap();
    writer.write_all(b"console.log(1)").unwrap();
    writer.finish().unwrap().into_inner()
}

#[test]
fn replacement_plan_deletes_then_recreates_then_extracts() {
    let (fs, _dirs) = FileSystem::new(String::from("/data"), String::from("/config"));
    let store = fs.ui_store();
    let bytes = ui_zip();
    let plan = ui_replacement_plan(&store, &String::from("forum"), &bytes).unwrap();

    // The asset directory is fully replaced before anything is written.
    assert!(matches!(&plan[0], UiAction::RemoveDirAll(p) if p == "/data/uis/forum"));
    assert!(matches!(&plan[1], UiAction::CreateDirAll(p) if p == "/data/uis/forum"));

    // Every entry of the archive is extracted under the asset directory,
    // in central-directory order.
    assert_eq!(plan.len(), 5);
    assert!(matches!(&plan[2], UiAction::MakeDir(p) if p == "/data/uis/forum/assets/"));
    assert!(
        matches!(&plan[3], UiAction::WriteFile { dest, entry }
            if dest == "/data/uis/forum/index.html" && entry == "index.html")
    );
    assert!(
        matches!(&plan[4], UiAction::WriteFile { dest, entry }
            if dest == "/data/uis/forum/assets/app.js" && entry == "assets/app.js")
    );
}

#[test]
fn unreadable_archive_is_rejected() {
    let (fs, _dirs) = FileSystem::new(String::from("/data"), String::from("/config"));
    let store = fs.ui_store();
    let bytes = b"this is not a zip archive".to_vec();
    assert!(ui_replacement_plan(&store, &String::from("forum"), &bytes).is_err());
}

#[test]
fn escaping_entry_names_are_skipped() {
    assert!(!is_safe_entry_name(&String::from("../evil")));
    assert!(!is_safe_entry_name(&String::from("a/../b")));
    assert!(!is_safe_entry_name(&String::from("a/..")));
    assert!(!is_safe_entry_name(&String::from("..")));
    assert!(!is_safe_entry_name(&String::from("/absolute")));
    assert!(!is_safe_entry_name(&String::from("")));
    assert!(is_safe_entry_name(&String::from("ok/path.js")));
    assert!(is_safe_entry_name(&String::from("dots..inside")));
    assert!(is_safe_entry_name(&String::from("trailing./x")));
}

#[test]
fn allocated_port_pair_is_distinct() {
    if let Some((admin, app)) = allocate_port_pair() {
        assert_ne!(admin, app);
    }
}
