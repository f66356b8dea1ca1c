//! Logic behind two secondary windows of a desktop shell: a login window that
//! hands one captured redirect address back to the host, and an embedded page
//! that is shown with a session cookie.
//!
//! The host toolkit does the window work. This crate decides what each window
//! looks like and what the wait for the login result returns.

pub mod encoding;
pub mod script;
pub mod wait;
pub mod window;
