//! Opening a window onto an installed application's UI.
//!
//! A window is described by the application id plus optional overrides: the
//! window label defaults to the application id, the title to the label, the
//! URL path to the application's default document, and the webview URL to
//! `happ://<app_id>/<url_path>`. The window also receives the launcher
//! environment: the data-plane port, the application id, and the session
//! token rendered as comma-separated decimal bytes. Creating the actual
//! window is the host toolkit's job outside this crate; [`resolve`] fixes
//! every value that goes into it.
//!
//! [`resolve`]: WebHappWindowBuilder::resolve

use vstd::prelude::*;
use vstd::string::StringExecFns;

use crate::session::AppWebsocketAuth;

verus! {

/// The `happ://` origin of an application's UI.
pub fn happ_origin(app_id: &String) -> (r: String)
    ensures
        r@ == "happ://"@ + app_id@,
{
    "happ://".to_owned().concat(app_id.as_str())
}

/// The decimal digit character for `d`.
pub open spec fn digit_char(d: u8) -> char
    recommends
        d < 10,
{
    ((0x30u8 + d) as u8) as char
}

/// The decimal rendering of a byte, without leading zeros.
pub open spec fn u8_decimal(n: u8) -> Seq<char> {
    if n < 10 {
        seq![digit_char(n)]
    } else if n < 100 {
        seq![digit_char(n / 10), digit_char(n % 10)]
    } else {
        seq![digit_char(n / 100), digit_char((n / 10) % 10), digit_char(n % 10)]
    }
}

/// The decimal rendering of a 64-bit integer, without leading zeros.
pub open spec fn u64_decimal(n: u64) -> Seq<char>
    decreases n,
{
    if n < 10 {
        seq![digit_char(n as u8)]
    } else {
        u64_decimal(n / 10) + seq![digit_char((n % 10) as u8)]
    }
}

/// Renders a 64-bit integer in decimal.
pub fn u64_decimal_string(n: u64) -> (r: String)
    ensures
        r@ == u64_decimal(n),
    decreases n,
{
    if n < 10 {
        digit_str(n as u8).to_owned()
    } else {
        let mut s = u64_decimal_string(n / 10);
        s.append(digit_str((n % 10) as u8));
        s
    }
}

/// The bytes of a token, rendered as comma-separated decimals.
pub open spec fn token_decimals(t: Seq<u8>) -> Seq<char>
    decreases t.len(),
{
    if t.len() == 0 {
        Seq::empty()
    } else if t.len() == 1 {
        u8_decimal(t[0])
    } else {
        token_decimals(t.drop_last()) + seq![','] + u8_decimal(t.last())
    }
}

/// The str holding one decimal digit.
fn digit_str(d: u8) -> (r: &'static str)
    requires
        d < 10,
    ensures
        r@ == seq![digit_char(d)],
{
    proof {
        reveal_strlit("0");
        reveal_strlit("1");
        reveal_strlit("2");
        reveal_strlit("3");
        reveal_strlit("4");
        reveal_strlit("5");
        reveal_strlit("6");
        reveal_strlit("7");
        reveal_strlit("8");
        reveal_strlit("9");
    }
    match d {
        0 => "0",
        1 => "1",
        2 => "2",
        3 => "3",
        4 => "4",
        5 => "5",
        6 => "6",
        7 => "7",
        8 => "8",
        _ => "9",
    }
}

/// Appends the decimal rendering of `n` to `s`.
fn append_u8_decimal(s: &mut String, n: u8)
    ensures
        final(s)@ == old(s)@ + u8_decimal(n),
{
    if n < 10 {
        s.append(digit_str(n));
    } else if n < 100 {
        s.append(digit_str(n / 10));
        s.append(digit_str(n % 10));
    } else {
        s.append(digit_str(n / 100));
        s.append(digit_str((n / 10) % 10));
        s.append(digit_str(n % 10));
    }
}

/// Renders a session token as comma-separated decimal bytes, the form the
/// window's launcher environment carries it in.
pub fn join_token_decimals(token: &Vec<u8>) -> (r: String)
    ensures
        r@ == token_decimals(token@),
{
    let mut s = String::new();
    let n = token.len();
    let mut i: usize = 0;
    while i < n
        invariant
            n == token@.len(),
            i <= n,
            s@ == token_decimals(token@.take(i as int)),
        decreases n - i,
    {
        if i > 0 {
            proof {
                reveal_strlit(",");
            }
            s.append(",");
        }
        append_u8_decimal(&mut s, token[i]);
        i = i + 1;
        proof {
            assert(token@.take(i as int).drop_last() =~= token@.take(i - 1));
            assert(token@.take(i as int).last() == token@[i - 1]);
        }
    }
    proof {
        assert(token@.take(n as int) =~= token@);
    }
    s
}

/// The values injected into a UI window's execution context.
pub struct LauncherEnv {
    /// Port of the application's data-plane interface.
    pub app_interface_port: u16,
    /// The application id.
    pub installed_app_id: String,
    /// The session token, as comma-separated decimal bytes.
    pub token_joined: String,
}

/// Composes the launcher environment for one application's window from its
/// session credential.
pub fn launcher_env(app_id: &String, auth: &AppWebsocketAuth) -> (r: LauncherEnv)
    ensures
        r.app_interface_port == auth.app_websocket_port,
        r.installed_app_id@ == app_id@,
        r.token_joined@ == token_decimals(auth.token@),
{
    LauncherEnv {
        app_interface_port: auth.app_websocket_port,
        installed_app_id: app_id.clone(),
        token_joined: join_token_decimals(&auth.token),
    }
}

/// The URL a main (non-`happ://`) window opens: the host UI's entry document
/// plus the requested path.
pub fn main_window_url(url_path: Option<String>) -> (r: String)
    ensures
        r@ == "index.html/"@ + (match url_path {
            Some(p) => p@,
            None => Seq::<char>::empty(),
        }),
{
    let path: String = match url_path {
        Some(p) => p,
        None => String::new(),
    };
    "index.html/".to_owned().concat(path.as_str())
}

/// A window onto an installed application's UI, under construction.
pub struct WebHappWindowBuilder {
    /// The application whose UI the window will show.
    pub app_id: String,
    /// Window label override; defaults to the application id.
    pub label: Option<String>,
    /// Window title override; defaults to the label.
    pub title: Option<String>,
    /// URL path override; defaults to the application's default document.
    pub url_path: Option<String>,
    /// Webview URL override; defaults to the `happ://` URL of the
    /// application and path.
    pub webview_url: Option<String>,
}

/// The resolved description of a window: every defaulting rule applied.
pub struct ResolvedWindow {
    /// The window's label.
    pub label: String,
    /// The window's title.
    pub title: String,
    /// The URL the webview opens.
    pub url: String,
}

impl WebHappWindowBuilder {
    /// Starts a window description for the given application, with no
    /// overrides.
    pub fn new(app_id: String) -> (r: WebHappWindowBuilder)
        ensures
            r.app_id@ == app_id@,
            r.label is None,
            r.title is None,
            r.url_path is None,
            r.webview_url is None,
    {
        WebHappWindowBuilder { app_id, label: None, title: None, url_path: None, webview_url: None }
    }

    /// Overrides the window label.
    pub fn label(self, label: String) -> (r: Self)
        ensures
            r.label matches Some(l) && l@ == label@,
            r.app_id == self.app_id,
            r.title == self.title,
            r.url_path == self.url_path,
            r.webview_url == self.webview_url,
    {
        WebHappWindowBuilder { label: Some(label), ..self }
    }

    /// Overrides the window title.
    pub fn title(self, title: String) -> (r: Self)
        ensures
            r.title matches Some(t) && t@ == title@,
            r.app_id == self.app_id,
            r.label == self.label,
            r.url_path == self.url_path,
            r.webview_url == self.webview_url,
    {
        WebHappWindowBuilder { title: Some(title), ..self }
    }

    /// Overrides the URL path.
    pub fn url_path(self, url_path: String) -> (r: Self)
        ensures
            r.url_path matches Some(p) && p@ == url_path@,
            r.app_id == self.app_id,
            r.label == self.label,
            r.title == self.title,
            r.webview_url == self.webview_url,
    {
        WebHappWindowBuilder { url_path: Some(url_path), ..self }
    }

    /// Overrides the webview URL.
    pub fn webview_url(self, webview_url: String) -> (r: Self)
        ensures
            r.webview_url matches Some(u) && u@ == webview_url@,
            r.app_id == self.app_id,
            r.label == self.label,
            r.title == self.title,
            r.url_path == self.url_path,
    {
        WebHappWindowBuilder { webview_url: Some(webview_url), ..self }
    }

    /// Applies the defaulting rules: the label defaults to the application
    /// id, the title to the label, the URL path to empty (the default
    /// document), and the URL to `happ://<app_id>/<url_path>`.
    pub fn resolve(self) -> (r: ResolvedWindow)
        ensures
            r.label@ == match self.label {
                Some(l) => l@,
                None => self.app_id@,
            },
            r.title@ == match self.title {
                Some(t) => t@,
                None => match self.label {
                    Some(l) => l@,
                    None => self.app_id@,
                },
            },
            r.url@ == match self.webview_url {
                Some(u) => u@,
                None => "happ://"@ + self.app_id@ + "/"@ + (match self.url_path {
                    Some(p) => p@,
                    None => Seq::<char>::empty(),
                }),
            },
    {
        let label = match self.label {
            Some(l) => l,
            None => self.app_id.clone(),
        };
        let title = match self.title {
            Some(t) => t,
            None => label.clone(),
        };
        let url = match self.webview_url {
            Some(u) => u,
            None => {
                let origin = happ_origin(&self.app_id);
                let path: String = match self.url_path {
                    Some(p) => p,
                    None => String::new(),
                };
                origin.concat("/").concat(path.as_str())
            },
        };
        ResolvedWindow { label, title, url }
    }
}

} // verus!
