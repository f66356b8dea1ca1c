use splatnet_gui::script::cookie_script;
use splatnet_gui::script::COOKIE_SCRIPT_HEAD;
use splatnet_gui::script::COOKIE_SCRIPT_TAIL;
use splatnet_gui::script::LOGIN_SCRIPT;
use splatnet_gui::window::login_url;
use splatnet_gui::window::login_window;
use splatnet_gui::window::splatnet_url;
use splatnet_gui::window::splatnet_window;
use splatnet_gui::window::WindowPlan;

const EXPECTED_LOGIN_SCRIPT: &str = r#"
function onSelectUserClick(e) {
  const element = document.getElementById('authorize-switch-approval-link');
  if (!element) {
      return;
  }
  e.preventDefault();

  // very hacky way...
  window.ipc.postMessage(JSON.stringify({
    "cmd":"tauri",
    "callback":0,
    "error":0,
    "__tauriModule":"Event",
    "message":{"cmd":"emit","event":"login","payload":{"url":element.href}}
  }))
}
function detectAndInject() {
  const element = document.getElementById('authorize-switch-approval-link');
  if (!element) {
      window.setTimeout(detectAndInject, 100);
      return;
  }
  element.addEventListener('click', onSelectUserClick);
}
detectAndInject();
"#;

fn expected_cookie_script(gtoken: &str) -> String {
    format!(
        r##"
const gtoken = "_gtoken={gtoken}";
if (!document.cookie.includes(gtoken)) {{
    document.cookie = gtoken;
    window.location.reload();
}}
document.addEventListener("DOMContentLoaded", () => {{
    // insert css
    const style = document.createElement('style');
    style.innerHTML = `
        [class^="App_App_"] , [class^="InAppContent_children_"] , [class^="SwipableView_swipableViewItem_"] ,
        [class^="MainWrapper_wrapper_"] , [class^="FriendList_wrapper_"] {{
            overflow: auto;
        }}
    `;
    document.head.appendChild(style);
}});
    "##
    )
}

#[test]
fn login_url_escapes_the_target() {
    assert_eq!(
        login_url("https://accounts.nintendo.com/connect/1.0.0/authorize?state=abc&scope=openid user"),
        "/redirect?url=https%3A%2F%2Faccounts.nintendo.com%2Fconnect%2F1.0.0%2Fauthorize%3Fstate%3Dabc%26scope%3Dopenid%20user"
    );
}

#[test]
fn login_url_of_empty_target() {
    assert_eq!(login_url(""), "/redirect?url=");
}

#[test]
fn login_url_keeps_unreserved_characters() {
    assert_eq!(
        login_url("AZaz09-._~"),
        "/redirect?url=AZaz09-._~"
    );
}

#[test]
fn login_url_escapes_the_neighbours_of_unreserved_ranges() {
    assert_eq!(login_url("/:@[`{"), "/redirect?url=%2F%3A%40%5B%60%7B");
}

#[test]
fn login_url_escapes_percent_and_plus() {
    assert_eq!(login_url("100%+1"), "/redirect?url=100%25%2B1");
}

#[test]
fn login_url_uses_upper_case_digits() {
    assert_eq!(login_url("\u{7f}\n\u{0}"), "/redirect?url=%7F%0A%00");
}

#[test]
fn login_url_escapes_each_byte_of_a_character() {
    assert_eq!(login_url("\u{203d}"), "/redirect?url=%E2%80%BD");
    assert_eq!(login_url("\u{e9}"), "/redirect?url=%C3%A9");
    assert_eq!(login_url("\u{1f47e} x"), "/redirect?url=%F0%9F%91%BE%20x");
}

#[test]
fn login_window_plan() {
    let plan = login_window("https://example.com/a b");
    assert_eq!(
        plan,
        WindowPlan {
            label: "login".to_string(),
            title: "Login".to_string(),
            url: "/redirect?url=https%3A%2F%2Fexample.com%2Fa%20b".to_string(),
            width: 1040,
            height: 960,
            centered: true,
            init_script: EXPECTED_LOGIN_SCRIPT.to_string(),
        }
    );
}

#[test]
fn login_script_text() {
    assert_eq!(LOGIN_SCRIPT, EXPECTED_LOGIN_SCRIPT);
    assert!(LOGIN_SCRIPT.contains("authorize-switch-approval-link"));
    assert!(LOGIN_SCRIPT.contains("\"event\":\"login\""));
}

#[test]
fn splatnet_url_defaults_to_english() {
    assert_eq!(
        splatnet_url(None),
        "https://api.lp1.av5ja.srv.nintendo.net/?lang=en-US"
    );
}

#[test]
fn splatnet_url_takes_the_language() {
    assert_eq!(
        splatnet_url(Some("ja-JP".to_string())),
        "https://api.lp1.av5ja.srv.nintendo.net/?lang=ja-JP"
    );
}

#[test]
fn splatnet_url_puts_the_language_in_unescaped() {
    assert_eq!(
        splatnet_url(Some("a b&c".to_string())),
        "https://api.lp1.av5ja.srv.nintendo.net/?lang=a b&c"
    );
    assert_eq!(
        splatnet_url(Some(String::new())),
        "https://api.lp1.av5ja.srv.nintendo.net/?lang="
    );
}

#[test]
fn cookie_script_holds_the_token() {
    let gtoken = "session-token-123";
    assert_eq!(cookie_script(gtoken), expected_cookie_script(gtoken));
    assert!(cookie_script(gtoken).starts_with("\nconst gtoken = \"_gtoken=session-token-123\";\n"));
}

#[test]
fn cookie_script_of_empty_token() {
    assert_eq!(cookie_script(""), expected_cookie_script(""));
    assert_eq!(
        cookie_script(""),
        format!("{}{}", COOKIE_SCRIPT_HEAD, COOKIE_SCRIPT_TAIL)
    );
}

#[test]
fn cookie_script_puts_the_token_in_unescaped() {
    let gtoken = "a\"b{c}";
    assert_eq!(cookie_script(gtoken), expected_cookie_script(gtoken));
    assert!(cookie_script(gtoken).contains("_gtoken=a\"b{c}\";"));
}

#[test]
fn cookie_script_parts() {
    assert_eq!(COOKIE_SCRIPT_HEAD, "\nconst gtoken = \"_gtoken=");
    assert!(COOKIE_SCRIPT_TAIL.starts_with("\";\nif (!document.cookie.includes(gtoken)) {\n"));
    assert!(COOKIE_SCRIPT_TAIL.ends_with("document.head.appendChild(style);\n});\n    "));
    assert!(COOKIE_SCRIPT_TAIL.contains("overflow: auto;"));
}

#[test]
fn splatnet_window_plan() {
    let plan = splatnet_window("tok", Some("fr-FR".to_string()));
    assert_eq!(
        plan,
        WindowPlan {
            label: "splatnet3".to_string(),
            title: "Splatnet3".to_string(),
            url: "https://api.lp1.av5ja.srv.nintendo.net/?lang=fr-FR".to_string(),
            width: 400,
            height: 700,
            centered: true,
            init_script: expected_cookie_script("tok"),
        }
    );
}

#[test]
fn splatnet_window_plan_without_language() {
    let plan = splatnet_window("tok", None);
    assert_eq!(plan.url, "https://api.lp1.av5ja.srv.nintendo.net/?lang=en-US");
    assert_eq!(plan.label, "splatnet3");
    assert_eq!(plan.title, "Splatnet3");
    assert_eq!((plan.width, plan.height), (400, 700));
    assert!(plan.centered);
    assert_eq!(plan.init_script, expected_cookie_script("tok"));
}
