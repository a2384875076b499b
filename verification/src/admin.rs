//! The privileged command-registration decision, and the taxonomy of errors
//! the bot recovers from. Registration is owner-only and fails closed: a
//! caller who is not in the owner set is rejected with an explicit message
//! and no registration call is to be made for them.
use vstd::prelude::*;

verus! {

/// The outcome of the authorization check of the `register` command.
#[derive(Clone, Copy, PartialEq, Eq, Structural, Debug)]
pub enum RegisterDecision {
    /// The caller is an owner: present the registration buttons and issue
    /// the registration calls they choose.
    Proceed,
    /// The caller is not an owner: reply with the rejection message and
    /// issue no registration call.
    Reject,
}

/// Whether a user is in the owner set.
pub open spec fn is_authorized_spec(user_id: u64, owners: Seq<u64>) -> bool {
    owners.contains(user_id)
}

/// What `register` does for a caller: proceed exactly when the caller is in
/// the owner set.
pub open spec fn register_decision_spec(user_id: u64, owners: Seq<u64>) -> RegisterDecision {
    if is_authorized_spec(user_id, owners) {
        RegisterDecision::Proceed
    } else {
        RegisterDecision::Reject
    }
}

/// Decides whether a caller may register commands. The decision is a pure
/// function of the caller and the owner set; nothing else grants access.
pub fn register_decision(user_id: u64, owners: &Vec<u64>) -> (d: RegisterDecision)
    ensures
        d == register_decision_spec(user_id, owners@),
        d == RegisterDecision::Proceed <==> is_authorized_spec(user_id, owners@),
{
    let mut i: usize = 0;
    while i < owners.len()
        invariant
            i <= owners@.len(),
            forall|j: int| 0 <= j < i ==> owners@[j] != user_id,
        decreases owners@.len() - i,
    {
        if owners[i] == user_id {
            return RegisterDecision::Proceed;
        }
        i += 1;
    }
    assert(!owners@.contains(user_id));
    RegisterDecision::Reject
}

/// The user-facing text of the rejection.
pub fn register_rejection_message() -> (r: String)
    ensures
        r@ == "Only bot owners can call this command"@,
{
    "Only bot owners can call this command".to_owned()
}

/// Authorization fails closed: a caller outside the owner set is rejected,
/// and only owners ever proceed.
pub proof fn lemma_register_fails_closed(user_id: u64, owners: Seq<u64>)
    ensures
        register_decision_spec(user_id, owners) == RegisterDecision::Reject <==> !owners.contains(
            user_id,
        ),
        register_decision_spec(user_id, owners) == RegisterDecision::Proceed <==> owners.contains(
            user_id,
        ),
{
}

/// Where an error surfaced, which decides how it is handled.
#[derive(Clone, Copy, PartialEq, Eq, Structural, Debug)]
pub enum BotErrorKind {
    /// Startup failed (missing token, failed registration): nothing can run.
    Setup,
    /// One command invocation failed: that invocation is over, the bot
    /// keeps serving.
    Command,
    /// Anything else the framework reports.
    Other,
}

/// How an error of each kind is handled.
#[derive(Clone, Copy, PartialEq, Eq, Structural, Debug)]
pub enum ErrorDisposition {
    /// Abort the process: a bot that failed to start cannot serve.
    AbortStartup,
    /// Log the failure with its command and cause, do not retry, keep
    /// serving other commands.
    LogAndContinue,
    /// Hand the error to the framework's default handler.
    Delegate,
}

/// Classifies an error: setup errors are fatal, command errors are logged
/// and recovered per invocation, everything else is delegated.
pub fn error_disposition(kind: &BotErrorKind) -> (d: ErrorDisposition)
    ensures
        d == ErrorDisposition::AbortStartup <==> *kind == BotErrorKind::Setup,
        d == ErrorDisposition::LogAndContinue <==> *kind == BotErrorKind::Command,
        d == ErrorDisposition::Delegate <==> *kind == BotErrorKind::Other,
{
    match kind {
        BotErrorKind::Setup => ErrorDisposition::AbortStartup,
        BotErrorKind::Command => ErrorDisposition::LogAndContinue,
        BotErrorKind::Other => ErrorDisposition::Delegate,
    }
}

} // verus!
