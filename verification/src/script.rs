//! The scripts that run in the page of each window before the page's own.

use vstd::prelude::*;

verus! {

/// Runs in the login window. It waits until the page shows the link that
/// approves the account, takes over the click on that link, and raises the
/// `login` event with the link's address as payload in place of following it.
pub const LOGIN_SCRIPT: &'static str = r#"
function onSelectUserClick(e) {
  const element = document.getElementById('authorize-switch-approval-link');
  if (!element) {
      return;
  }
  e.preventDefault();

  // very hacky way...
  window.ipc.postMessage(JSON.stringify({
    "cmd":"tauri",
    "callback":0,
    "error":0,
    "__tauriModule":"Event",
    "message":{"cmd":"emit","event":"login","payload":{"url":element.href}}
  }))
}
function detectAndInject() {
  const element = document.getElementById('authorize-switch-approval-link');
  if (!element) {
      window.setTimeout(detectAndInject, 100);
      return;
  }
  element.addEventListener('click', onSelectUserClick);
}
detectAndInject();
"#;

/// What stands before the session token in the script of the embedded page.
pub const COOKIE_SCRIPT_HEAD: &'static str = r#"
const gtoken = "_gtoken="#;

/// What stands after the session token in the script of the embedded page.
pub const COOKIE_SCRIPT_TAIL: &'static str = r#"";
if (!document.cookie.includes(gtoken)) {
    document.cookie = gtoken;
    window.location.reload();
}
document.addEventListener("DOMContentLoaded", () => {
    // insert css
    const style = document.createElement('style');
    style.innerHTML = `
        [class^="App_App_"] , [class^="InAppContent_children_"] , [class^="SwipableView_swipableViewItem_"] ,
        [class^="MainWrapper_wrapper_"] , [class^="FriendList_wrapper_"] {
            overflow: auto;
        }
    `;
    document.head.appendChild(style);
});
    "#;

/// The script of the embedded page for the session token `gtoken`.
pub open spec fn cookie_script_text(gtoken: Seq<char>) -> Seq<char> {
    COOKIE_SCRIPT_HEAD@ + gtoken + COOKIE_SCRIPT_TAIL@
}

/// Builds the script that runs in the embedded page. It stores `gtoken` as the
/// session cookie, reloads the page once if the cookie was not there yet, and
/// lets the page's panels scroll. The token is put in as it is.
pub fn cookie_script(gtoken: &str) -> (script: String)
    ensures
        script@ == cookie_script_text(gtoken@),
{
    let mut script = String::from_str(COOKIE_SCRIPT_HEAD);
    script.append(gtoken);
    script.append(COOKIE_SCRIPT_TAIL);
    script
}

} // verus!
