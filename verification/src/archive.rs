//! Unpacking a web-application bundle's UI archive.
//!
//! The UI ships as a zip archive inside the bundle. Its central directory is
//! read through the `zip` crate from the archive's bytes held in memory; the
//! planning logic here is verified: entry names that could escape the target
//! directory are skipped, directory entries become directory creations, file
//! entries become file writes, and the whole extraction replaces the
//! application's asset directory — deleted first, recreated, then filled —
//! so that no mixed version is ever served. Executing the plan against the
//! disk is I/O and lives outside this crate.

use vstd::prelude::*;
use vstd::utf8::encode_utf8;

use crate::filesystem::{path_join, UiStore};

verus! {

/// The names in the archive's central directory, in order, as a function of
/// the archive's bytes; `None` when the bytes are not a readable archive.
pub uninterp spec fn zip_entry_names(bytes: Seq<u8>) -> Option<Seq<Seq<char>>>;

/// Relies on zip::ZipArchive::new and zip::ZipArchive::file_names: parsing
/// the central directory of an archive held in memory, and listing the entry
/// names in its order, is a function of the archive's bytes alone.
#[verifier::external_body]
fn zip_file_names(bytes: &Vec<u8>) -> (r: Result<Vec<String>, String>)
    ensures
        r is Ok <==> zip_entry_names(bytes@) is Some,
        r matches Ok(v) ==> Some(v.deep_view()) == zip_entry_names(bytes@),
{
    match zip::ZipArchive::new(std::io::Cursor::new(bytes.as_slice())) {
        Ok(archive) => Ok(archive.file_names().map(|s| s.to_string()).collect()),
        Err(e) => Err(format!("{}", e)),
    }
}

/// Whether the bytes contain `..` as a full path segment.
pub open spec fn has_parent_segment(s: Seq<u8>) -> bool {
    exists|i: int|
        0 <= i && i + 2 <= s.len() && #[trigger] s[i] == 0x2eu8 && s[i + 1] == 0x2eu8 && (i == 0
            || s[i - 1] == 0x2fu8) && (i + 2 == s.len() || s[i + 2] == 0x2fu8)
}

/// Whether an entry name stays inside the extraction directory: nonempty,
/// not absolute, and without a `..` segment.
pub open spec fn safe_entry_name(s: Seq<u8>) -> bool {
    s.len() > 0 && s[0] != 0x2fu8 && !has_parent_segment(s)
}

/// Checks whether an entry name stays inside the extraction directory.
pub fn is_safe_entry_name(name: &String) -> (r: bool)
    ensures
        r == safe_entry_name(encode_utf8(name@)),
{
    let bytes: &[u8] = name.as_str().as_bytes();
    let n = bytes.len();
    if n == 0 {
        return false;
    }
    if bytes[0] == 0x2f {
        return false;
    }
    if n >= 2 {
        let m = n - 2;
        let mut i: usize = 0;
        while i <= m
            invariant
                n == bytes@.len(),
                bytes@ == encode_utf8(name@),
                2 <= n,
                m == n - 2,
                i <= m + 1,
                forall|k: int|
                    0 <= k < i ==> !(k + 2 <= n && #[trigger] bytes@[k] == 0x2eu8 && bytes@[k + 1]
                        == 0x2eu8 && (k == 0 || bytes@[k - 1] == 0x2fu8) && (k + 2 == n || bytes@[k
                        + 2] == 0x2fu8)),
            decreases m + 1 - i,
        {
            if bytes[i] == 0x2e && bytes[i + 1] == 0x2e && (i == 0 || bytes[i - 1] == 0x2f) && (i
                + 2 == n || bytes[i + 2] == 0x2f) {
                proof {
                    let w = i as int;
                    assert(0 <= w && w + 2 <= bytes@.len() && bytes@[w] == 0x2eu8 && bytes@[w + 1]
                        == 0x2eu8 && (w == 0 || bytes@[w - 1] == 0x2fu8) && (w + 2 == bytes@.len()
                        || bytes@[w + 2] == 0x2fu8));
                    assert(has_parent_segment(bytes@));
                }
                return false;
            }
            i = i + 1;
        }
        proof {
            assert forall|k: int|
                !(0 <= k && k + 2 <= bytes@.len() && #[trigger] bytes@[k] == 0x2eu8 && bytes@[k + 1]
                    == 0x2eu8 && (k == 0 || bytes@[k - 1] == 0x2fu8) && (k + 2 == bytes@.len()
                    || bytes@[k + 2] == 0x2fu8)) by {
                if 0 <= k && k + 2 <= bytes@.len() {
                    assert(k < i);
                }
            }
            assert(!has_parent_segment(bytes@));
        }
    } else {
        proof {
            assert(!has_parent_segment(bytes@));
        }
    }
    true
}

/// One step of replacing an application's unpacked UI.
#[derive(Debug)]
pub enum UiAction {
    /// Delete the directory tree, where it exists.
    RemoveDirAll(String),
    /// Create the directory and its missing parents.
    CreateDirAll(String),
    /// Create the directory (an archive directory entry) and its missing
    /// parents.
    MakeDir(String),
    /// Create the destination's missing parent directories, then write the
    /// named archive entry's bytes to it.
    WriteFile {
        /// Where the entry's bytes go.
        dest: String,
        /// The archive entry to read.
        entry: String,
    },
}

/// The entry names that are safe to extract, in archive order.
pub open spec fn safe_names(names: Seq<Seq<char>>) -> Seq<Seq<char>> {
    names.filter(|nm: Seq<char>| safe_entry_name(encode_utf8(nm)))
}

/// Whether an entry name names a directory: it ends in `/`.
pub open spec fn is_dir_name(nm: Seq<char>) -> bool {
    encode_utf8(nm).len() > 0 && encode_utf8(nm).last() == 0x2fu8
}

/// What the plan does for one safe entry name: a directory entry becomes a
/// directory creation, any other entry a file write, both under `ui_path`.
pub open spec fn plan_step_matches(a: UiAction, ui_path: Seq<char>, nm: Seq<char>) -> bool {
    if is_dir_name(nm) {
        a matches UiAction::MakeDir(p) && p@ == ui_path + "/"@ + nm
    } else {
        a matches UiAction::WriteFile { dest, entry } && entry@ == nm && dest@ == ui_path + "/"@
            + nm
    }
}

/// Plans the replacement of one application's unpacked UI from the UI
/// archive's bytes.
///
/// The plan starts by deleting the application's asset directory and
/// recreating it empty — never patching in place — and then handles exactly
/// the safe archive entries, in order: an entry whose name could escape the
/// directory is skipped, a name ending in `/` becomes a directory creation,
/// and any other name becomes a file write under the asset directory. Fails
/// exactly when the bytes are not a readable archive.
pub fn ui_replacement_plan(ui_store: &UiStore, app_id: &String, ui_zip_bytes: &Vec<u8>) -> (r:
    Result<Vec<UiAction>, String>)
    ensures
        r is Ok <==> zip_entry_names(ui_zip_bytes@) is Some,
        r matches Ok(plan) ==> (zip_entry_names(ui_zip_bytes@) matches Some(names) && {
            let ui_path = ui_store.path@ + "/"@ + app_id@;
            &&& plan@.len() == 2 + safe_names(names).len()
            &&& (plan@[0] matches UiAction::RemoveDirAll(p) && p@ == ui_path)
            &&& (plan@[1] matches UiAction::CreateDirAll(p) && p@ == ui_path)
            &&& forall|k: int|
                0 <= k < safe_names(names).len() ==> plan_step_matches(
                    #[trigger] plan@[k + 2],
                    ui_path,
                    safe_names(names)[k],
                )
        }),
{
    let names = match zip_file_names(ui_zip_bytes) {
        Ok(v) => v,
        Err(e) => {
            return Err(e);
        },
    };
    let ui_path = ui_store.ui_path(app_id);
    let mut plan: Vec<UiAction> = Vec::new();
    plan.push(UiAction::RemoveDirAll(ui_path.clone()));
    plan.push(UiAction::CreateDirAll(ui_path.clone()));
    let ghost ui_path_spec = ui_store.path@ + "/"@ + app_id@;
    let ghost names_spec = names.deep_view();
    let n = names.len();
    let mut i: usize = 0;
    while i < n
        invariant
            n == names@.len(),
            names_spec == names.deep_view(),
            names_spec.len() == n,
            forall|j: int| 0 <= j < n ==> #[trigger] names@[j]@ == names_spec[j],
            ui_path@ == ui_path_spec,
            i <= n,
            plan@.len() == 2 + safe_names(names_spec.take(i as int)).len(),
            plan@[0] matches UiAction::RemoveDirAll(p) && p@ == ui_path_spec,
            plan@[1] matches UiAction::CreateDirAll(p) && p@ == ui_path_spec,
            forall|k: int|
                0 <= k < safe_names(names_spec.take(i as int)).len() ==> plan_step_matches(
                    #[trigger] plan@[k + 2],
                    ui_path_spec,
                    safe_names(names_spec.take(i as int))[k],
                ),
        decreases n - i,
    {
        let ghost prev_safe = safe_names(names_spec.take(i as int));
        let name = &names[i];
        let safe = is_safe_entry_name(name);
        if safe {
            let name_bytes: &[u8] = name.as_str().as_bytes();
            let dest = path_join(&ui_path, name.as_str());
            let is_dir = name_bytes[name_bytes.len() - 1] == 0x2f;
            if is_dir {
                plan.push(UiAction::MakeDir(dest));
            } else {
                plan.push(UiAction::WriteFile { dest, entry: name.clone() });
            }
        }
        i = i + 1;
        proof {
            reveal_with_fuel(Seq::<Seq<char>>::filter, 2);
            let taken = names_spec.take(i as int);
            assert(taken.drop_last() =~= names_spec.take(i - 1));
            assert(taken.last() == names_spec[i - 1]);
            assert(safe == safe_entry_name(encode_utf8(names_spec[i - 1])));
            if safe {
                assert(safe_names(taken) =~= prev_safe.push(names_spec[i - 1]));
            } else {
                assert(safe_names(taken) =~= prev_safe);
            }
        }
    }
    proof {
        assert(names_spec.take(n as int) =~= names_spec);
    }
    Ok(plan)
}

} // verus!
