//! What each of the two windows is opened with: its label and title, the
//! address it shows, its size, and the script that runs in its page.

use vstd::prelude::*;
use crate::encoding::percent_encode;
use crate::encoding::percent_encoded;
use crate::script::cookie_script;
use crate::script::cookie_script_text;
use crate::script::LOGIN_SCRIPT;

verus! {

/// The label of the login window.
pub const LOGIN_LABEL: &'static str = "login";

/// The title of the login window.
pub const LOGIN_TITLE: &'static str = "Login";

/// The width of the login window, in logical pixels.
pub const LOGIN_WIDTH: u32 = 1040;

/// The height of the login window, in logical pixels.
pub const LOGIN_HEIGHT: u32 = 960;

/// The page of the host that forwards to the address given after it.
pub const REDIRECT_PATH: &'static str = "/redirect?url=";

/// The label of the window with the embedded page.
pub const SPLATNET_LABEL: &'static str = "splatnet3";

/// The title of the window with the embedded page.
pub const SPLATNET_TITLE: &'static str = "Splatnet3";

/// The width of the window with the embedded page, in logical pixels.
pub const SPLATNET_WIDTH: u32 = 400;

/// The height of the window with the embedded page, in logical pixels.
pub const SPLATNET_HEIGHT: u32 = 700;

/// The address of the embedded page, up to the language tag.
pub const SPLATNET_ADDRESS: &'static str = "https://api.lp1.av5ja.srv.nintendo.net/?lang=";

/// The language of the embedded page where the caller names none.
pub const DEFAULT_LANG: &'static str = "en-US";

/// All that the host needs to open one window.
#[derive(Debug, PartialEq, Eq)]
pub struct WindowPlan {
    /// The name by which the host knows the window.
    pub label: String,
    /// The text in the title bar.
    pub title: String,
    /// The address that the window shows.
    pub url: String,
    /// The inner width, in logical pixels.
    pub width: u32,
    /// The inner height, in logical pixels.
    pub height: u32,
    /// Whether the window is placed in the middle of the screen.
    pub centered: bool,
    /// The script that runs in the page before the page's own.
    pub init_script: String,
}

/// A window plan as plain values.
pub struct WindowPlanView {
    pub label: Seq<char>,
    pub title: Seq<char>,
    pub url: Seq<char>,
    pub width: nat,
    pub height: nat,
    pub centered: bool,
    pub init_script: Seq<char>,
}

impl View for WindowPlan {
    type V = WindowPlanView;

    open spec fn view(&self) -> WindowPlanView {
        WindowPlanView {
            label: self.label@,
            title: self.title@,
            url: self.url@,
            width: self.width as nat,
            height: self.height as nat,
            centered: self.centered,
            init_script: self.init_script@,
        }
    }
}

/// The address of the login window for the login page `target`: the redirect
/// page of the host, with `target` percent-encoded as its parameter.
pub open spec fn login_url_text(target: Seq<char>) -> Seq<char> {
    REDIRECT_PATH@ + percent_encoded(target)
}

/// The plan of the login window for the login page `target`.
pub open spec fn login_plan(target: Seq<char>) -> WindowPlanView {
    WindowPlanView {
        label: LOGIN_LABEL@,
        title: LOGIN_TITLE@,
        url: login_url_text(target),
        width: 1040,
        height: 960,
        centered: true,
        init_script: LOGIN_SCRIPT@,
    }
}

/// The language tag of the embedded page: the one asked for, or the default.
pub open spec fn lang_or_default(lang: Option<Seq<char>>) -> Seq<char> {
    match lang {
        Some(tag) => tag,
        None => DEFAULT_LANG@,
    }
}

/// The address of the embedded page in the language `lang`.
pub open spec fn splatnet_url_text(lang: Option<Seq<char>>) -> Seq<char> {
    SPLATNET_ADDRESS@ + lang_or_default(lang)
}

/// The plan of the window with the embedded page, for the session token
/// `gtoken` and the language `lang`.
pub open spec fn splatnet_plan(gtoken: Seq<char>, lang: Option<Seq<char>>) -> WindowPlanView {
    WindowPlanView {
        label: SPLATNET_LABEL@,
        title: SPLATNET_TITLE@,
        url: splatnet_url_text(lang),
        width: 400,
        height: 700,
        centered: true,
        init_script: cookie_script_text(gtoken),
    }
}

/// Builds the address of the login window. The login page `target` is
/// percent-encoded, so that it stays one parameter whatever it holds.
pub fn login_url(target: &str) -> (url: String)
    ensures
        url@ == login_url_text(target@),
{
    let encoded = percent_encode(target);
    let mut url = String::from_str(REDIRECT_PATH);
    url.append(encoded.as_str());
    url
}

/// Plans the login window for the login page `target`.
pub fn login_window(target: &str) -> (plan: WindowPlan)
    ensures
        plan@ == login_plan(target@),
{
    WindowPlan {
        label: String::from_str(LOGIN_LABEL),
        title: String::from_str(LOGIN_TITLE),
        url: login_url(target),
        width: LOGIN_WIDTH,
        height: LOGIN_HEIGHT,
        centered: true,
        init_script: String::from_str(LOGIN_SCRIPT),
    }
}

/// Builds the address of the embedded page. The language tag is put in as it
/// is; without one the page is asked for in the default language.
pub fn splatnet_url(lang: Option<String>) -> (url: String)
    ensures
        url@ == splatnet_url_text(lang.deep_view()),
{
    let mut url = String::from_str(SPLATNET_ADDRESS);
    match lang {
        Some(tag) => url.append(tag.as_str()),
        None => url.append(DEFAULT_LANG),
    }
    url
}

/// Plans the window with the embedded page for the session token `gtoken`
/// and the language `lang`.
pub fn splatnet_window(gtoken: &str, lang: Option<String>) -> (plan: WindowPlan)
    ensures
        plan@ == splatnet_plan(gtoken@, lang.deep_view()),
{
    WindowPlan {
        label: String::from_str(SPLATNET_LABEL),
        title: String::from_str(SPLATNET_TITLE),
        url: splatnet_url(lang),
        width: SPLATNET_WIDTH,
        height: SPLATNET_HEIGHT,
        centered: true,
        init_script: cookie_script(gtoken),
    }
}

} // verus!
