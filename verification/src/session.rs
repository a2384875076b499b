//! The interactive guide-selector workflow: one session per `install`
//! invocation. The session holds the displayed message; each incoming event
//! is turned into the next display state and the action the caller must
//! perform (edit, acknowledge, ignore, or stop). The caller performs the
//! network calls and feeds events back; everything decided here is verified.
use vstd::prelude::*;

use crate::browser::Browser;
use crate::browser::parse_browser;
use crate::browser::parse_browser_spec;
use crate::guide::Embed;
use crate::guide::Selector;
use crate::guide::embed_for;
use crate::guide::embed_matches;
use crate::guide::selector_new;
use crate::guide::selector_tag_spec;
use crate::guide::selector_wf;

verus! {

/// The message an `install` invocation displays: the guide of one browser,
/// with the selector attached.
pub struct InstallMessage {
    /// The browser whose guide the message currently shows.
    pub displayed: Browser,
    pub embed: Embed,
    pub selector: Selector,
}

impl InstallMessage {
    /// The embed is exactly the displayed browser's guide, and the selector
    /// is the full browser selector.
    pub open spec fn wf(self) -> bool {
        &&& embed_matches(self.embed, self.displayed)
        &&& selector_wf(self.selector)
    }
}

/// One `install` invocation's state: who invoked it, where, and what its
/// message currently shows. Created when the message is sent; it ends with
/// the timeout or the end of the invocation.
pub struct Session {
    /// The invoking user: only this user's selections are honored.
    pub user_id: u64,
    /// The channel the message was sent to.
    pub channel_id: u64,
    pub message: InstallMessage,
}

impl Session {
    pub open spec fn wf(self) -> bool {
        self.message.wf()
    }
}

/// A component-selection event as delivered by the gateway: who selected,
/// in which channel, on which control, and the selected values.
pub struct SelectionEvent {
    pub user_id: u64,
    pub channel_id: u64,
    /// The tag of the control the selection was made on.
    pub tag: String,
    /// The selected values; for a single-select control, at most one.
    pub values: Vec<String>,
}

/// How long one wait for a selection lasts, in seconds. Each wait is armed
/// with the full window from its own start, so a selection re-arms the
/// loop; only a full window with no matching selection ends the session.
pub const SELECT_TIMEOUT_SECS: u64 = 120;

/// What a waiting session can observe: a selection event, or the end of the
/// wait window.
pub enum SessionEvent {
    Selection(SelectionEvent),
    Timeout,
}

/// What the caller must do after a step.
#[derive(Clone, Copy, PartialEq, Eq, Structural, Debug)]
pub enum Action {
    /// The event was not addressed to this session: no response at all.
    Ignore,
    /// A matching selection carried no recognized browser: acknowledge the
    /// interaction, change nothing.
    Acknowledge,
    /// A matching selection chose this browser: edit the message to its
    /// guide, then acknowledge the interaction.
    Edit(Browser),
    /// The wait timed out: stop collecting; the message stays as displayed.
    Terminate,
}

/// Whether a selection event is addressed to this session: same user, same
/// channel, and the selector's tag.
pub open spec fn event_matches_spec(user_id: u64, channel_id: u64, e: SelectionEvent) -> bool {
    &&& e.user_id == user_id
    &&& e.channel_id == channel_id
    &&& e.tag@ == selector_tag_spec()
}

/// The browser a selection event chose, if its first value is recognized.
pub open spec fn selected_browser_spec(e: SelectionEvent) -> Option<Browser> {
    if e.values@.len() == 0 {
        None
    } else {
        parse_browser_spec(e.values@[0]@)
    }
}

/// The action one event gives rise to.
pub open spec fn step_action_spec(s: Session, ev: SessionEvent) -> Action {
    match ev {
        SessionEvent::Timeout => Action::Terminate,
        SessionEvent::Selection(e) => if !event_matches_spec(s.user_id, s.channel_id, e) {
            Action::Ignore
        } else {
            match selected_browser_spec(e) {
                Some(b) => Action::Edit(b),
                None => Action::Acknowledge,
            }
        },
    }
}

/// The browser displayed after one event: it changes only on an edit.
pub open spec fn step_displayed_spec(s: Session, ev: SessionEvent) -> Browser {
    match step_action_spec(s, ev) {
        Action::Edit(b) => b,
        _ => s.message.displayed,
    }
}

/// Whether a selection event is addressed to this session.
pub fn event_matches(session: &Session, e: &SelectionEvent) -> (r: bool)
    ensures
        r == event_matches_spec(session.user_id, session.channel_id, *e),
{
    session.user_id == e.user_id && session.channel_id == e.channel_id
        && crate::browser::str_eq(e.tag.as_str(), "browsers")
}

/// The browser a selection event chose, if any.
pub fn selected_browser(e: &SelectionEvent) -> (r: Option<Browser>)
    ensures
        r == selected_browser_spec(*e),
{
    if e.values.len() == 0 {
        None
    } else {
        parse_browser(e.values[0].as_str())
    }
}

/// Advances a session by one observed event and says what the caller must
/// do. The message changes exactly on a matching selection of a recognized
/// browser, and then only its embed: the selector stays attached, so the
/// user may select again. Events from another user, another channel or
/// another control never change the message and get no response; a timeout
/// leaves the message in its last-displayed state.
pub fn session_step(session: &mut Session, ev: &SessionEvent) -> (a: Action)
    requires
        old(session).wf(),
    ensures
        final(session).wf(),
        a == step_action_spec(*old(session), *ev),
        final(session).message.displayed == step_displayed_spec(*old(session), *ev),
        final(session).user_id == old(session).user_id,
        final(session).channel_id == old(session).channel_id,
        final(session).message.selector == old(session).message.selector,
        !(a is Edit) ==> *final(session) == *old(session),
        forall|b: Browser| a == Action::Edit(b) ==> embed_matches(final(session).message.embed, b),
{
    match ev {
        SessionEvent::Timeout => Action::Terminate,
        SessionEvent::Selection(e) => {
            if !event_matches(session, e) {
                Action::Ignore
            } else {
                match selected_browser(e) {
                    Some(b) => {
                        session.message.embed = embed_for(b);
                        session.message.displayed = b;
                        Action::Edit(b)
                    },
                    None => Action::Acknowledge,
                }
            }
        },
    }
}

/// Why an `install` invocation was rejected before any message was sent.
#[derive(Clone, Copy, PartialEq, Eq, Structural, Debug)]
pub enum InstallError {
    /// The requested browser name is not in the closed enumeration.
    UnknownBrowser,
}

impl InstallError {
    /// The user-facing text of the rejection.
    pub fn message(&self) -> (r: String)
        ensures
            r@ == "Invalid browser name"@,
    {
        "Invalid browser name".to_owned()
    }
}

/// The browser an `install` invocation starts with: the first of the
/// enumeration when none was requested, the requested one when its name is
/// recognized, and nothing — a rejection — otherwise.
pub open spec fn initial_browser_spec(requested: Option<String>) -> Option<Browser> {
    match requested {
        None => Some(Browser::Chromium),
        Some(s) => parse_browser_spec(s@),
    }
}

/// Begins an `install` invocation: validates the requested browser name and
/// builds the session whose single initial message shows that browser's
/// guide with the selector attached. An unrecognized name is rejected before
/// any message exists; no selection is honored for it.
pub fn install_init(user_id: u64, channel_id: u64, requested: &Option<String>) -> (r: Result<
    Session,
    InstallError,
>)
    ensures
        r is Ok <==> initial_browser_spec(*requested) is Some,
        r matches Ok(s) ==> {
            &&& s.wf()
            &&& s.user_id == user_id
            &&& s.channel_id == channel_id
            &&& Some(s.message.displayed) == initial_browser_spec(*requested)
        },
        r matches Err(e) ==> e == InstallError::UnknownBrowser,
{
    let b: Browser = match requested {
        None => Browser::Chromium,
        Some(name) => match parse_browser(name.as_str()) {
            Some(b) => b,
            None => {
                return Err(InstallError::UnknownBrowser);
            },
        },
    };
    Ok(
        Session {
            user_id,
            channel_id,
            message: InstallMessage { displayed: b, embed: embed_for(b), selector: selector_new() },
        },
    )
}

/// The browser displayed after a whole wait loop: events are taken in
/// order, each matching recognized selection replaces the display, and the
/// first timeout ends the loop — nothing after it is observed.
pub open spec fn run_displayed_spec(
    user_id: u64,
    channel_id: u64,
    cur: Browser,
    evs: Seq<SessionEvent>,
) -> Browser
    decreases evs.len(),
{
    if evs.len() == 0 {
        cur
    } else {
        match evs[0] {
            SessionEvent::Timeout => cur,
            SessionEvent::Selection(e) => {
                let next = if event_matches_spec(user_id, channel_id, e)
                    && selected_browser_spec(e) is Some {
                    selected_browser_spec(e).unwrap()
                } else {
                    cur
                };
                run_displayed_spec(user_id, channel_id, next, evs.drop_first())
            },
        }
    }
}

/// A wait loop over a single event displays exactly what one step of the
/// session displays: the fold agrees with the step function.
pub proof fn lemma_run_agrees_with_step(s: Session, ev: SessionEvent)
    ensures
        run_displayed_spec(s.user_id, s.channel_id, s.message.displayed, seq![ev])
            == step_displayed_spec(s, ev),
{
    let evs = seq![ev];
    assert(evs.drop_first() =~= Seq::<SessionEvent>::empty());
    assert(evs[0] == ev);
    match ev {
        SessionEvent::Timeout => {},
        SessionEvent::Selection(e) => {
            let next = if event_matches_spec(s.user_id, s.channel_id, e)
                && selected_browser_spec(e) is Some {
                selected_browser_spec(e).unwrap()
            } else {
                s.message.displayed
            };
            assert(run_displayed_spec(s.user_id, s.channel_id, next, evs.drop_first()) == next);
        },
    }
}

/// Events of another user, another channel or another control never edit
/// the message: however many of them arrive, the displayed guide is the one
/// the session last showed.
pub proof fn lemma_foreign_events_never_edit(
    user_id: u64,
    channel_id: u64,
    cur: Browser,
    evs: Seq<SessionEvent>,
)
    requires
        forall|i: int|
            0 <= i < evs.len() ==> match #[trigger] evs[i] {
                SessionEvent::Selection(e) => !event_matches_spec(user_id, channel_id, e),
                SessionEvent::Timeout => true,
            },
    ensures
        run_displayed_spec(user_id, channel_id, cur, evs) == cur,
    decreases evs.len(),
{
    if evs.len() > 0 {
        match evs[0] {
            SessionEvent::Timeout => {},
            SessionEvent::Selection(e) => {
                lemma_foreign_events_never_edit(user_id, channel_id, cur, evs.drop_first());
            },
        }
    }
}

/// After the timeout nothing is observed: the message remains in its
/// last-displayed state whatever might arrive later.
pub proof fn lemma_timeout_is_final(
    user_id: u64,
    channel_id: u64,
    cur: Browser,
    evs: Seq<SessionEvent>,
)
    requires
        evs.len() > 0,
        evs[0] is Timeout,
    ensures
        run_displayed_spec(user_id, channel_id, cur, evs) == cur,
{
}

/// A well-formed session's message shows exactly the guide of the browser
/// it displays — the body and title are that browser's static text — with
/// the selector attached. This holds of the one initial message and is
/// preserved by every step.
pub proof fn lemma_message_shows_displayed_guide(s: Session)
    requires
        s.wf(),
    ensures
        s.message.embed.body@ == crate::guide::guide_body_spec(s.message.displayed),
        s.message.embed.title@ == crate::guide::guide_title_spec(s.message.displayed),
        selector_wf(s.message.selector),
{
}

/// A matching selection of a recognized browser edits the display to that
/// browser — and to nothing else.
pub proof fn lemma_recognized_selection_edits(s: Session, e: SelectionEvent, b: Browser)
    requires
        event_matches_spec(s.user_id, s.channel_id, e),
        selected_browser_spec(e) == Some(b),
    ensures
        step_action_spec(s, SessionEvent::Selection(e)) == Action::Edit(b),
        step_displayed_spec(s, SessionEvent::Selection(e)) == b,
{
}

/// A matching selection whose value is unrecognized is acknowledged and
/// changes nothing.
pub proof fn lemma_unrecognized_selection_keeps_display(s: Session, e: SelectionEvent)
    requires
        event_matches_spec(s.user_id, s.channel_id, e),
        selected_browser_spec(e) is None,
    ensures
        step_action_spec(s, SessionEvent::Selection(e)) == Action::Acknowledge,
        step_displayed_spec(s, SessionEvent::Selection(e)) == s.message.displayed,
{
}

} // verus!
