//! Core logic of a small chat bot: a closed enumeration of browsers with
//! installation guides, the interactive guide-selector state machine, reply
//! formatting, and the owner-only authorization decision. All network I/O
//! (sending, editing and acknowledging messages, awaiting events) lives
//! outside this crate; the functions here decide what those calls should do.
use vstd::prelude::*;

pub mod admin;
pub mod browser;
pub mod guide;
pub mod registry;
pub mod replies;
pub mod session;

pub use admin::BotErrorKind;
pub use admin::ErrorDisposition;
pub use admin::RegisterDecision;
pub use admin::error_disposition;
pub use admin::register_decision;
pub use admin::register_rejection_message;
pub use browser::Browser;
pub use browser::parse_browser;
pub use registry::CommandDef;
pub use registry::CommandKind;
pub use registry::command_registry;
pub use guide::Embed;
pub use guide::Selector;
pub use guide::SelectorOption;
pub use replies::ping_reply;
pub use session::Action;
pub use session::SELECT_TIMEOUT_SECS;
pub use session::InstallError;
pub use session::install_init;
pub use session::session_step;
pub use session::InstallMessage;
pub use session::SelectionEvent;
pub use session::Session;
pub use session::SessionEvent;

verus! {

/// Shared context handed to every command invocation. It carries no state in
/// this bot; it is the designated extension point for shared resources.
pub struct Data {}

/// Reply text of the `hello` command.
pub fn hello_reply() -> (r: String)
    ensures
        r@ == "world!"@,
{
    "world!".to_owned()
}

} // verus!
