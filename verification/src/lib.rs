//! The verified core of a Windows sandbox: application profiles and their
//! validation, the state kept by the broker services and the user
//! interface, the decisions taken while a child process is launched and
//! injected, and the path redirection applied by the in-process hooks.

use vstd::prelude::*;

pub mod broker;
pub mod client;
pub mod hooks;
pub mod inject;
pub mod ioctl;
pub mod ipc;
pub mod launch;
pub mod managed;
pub mod profile;
pub mod redirect;
pub mod sample;
pub mod server;
pub mod status;
pub mod text;
pub mod wide;

pub use profile::Profile;
pub use status::Status;

verus! {

/// Name under which the user interface presents the application.
pub const APP_NAME: &'static str = "The Box";

} // verus!
