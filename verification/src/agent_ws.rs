//! The side of the server on the connection over which an agent is told what to do.
//!
//! The agent checks in, and is told what to do. From then on it is told again whenever that
//! changes: each event that concerns the machine has it worked out anew.

use vstd::prelude::*;

use crate::checkin::{AgentAction, CheckInResponse, CheckInView};
use crate::ids::{hyphenated, hyphenated_is_trimmed, parse_uuid, uuid_reading};
use crate::json::{Json, JsonView};
use crate::text::{cut, cut_at_first, cut_is_at_the_first, same, split_once, trim, trimmed};

verus! {

/// What an agent was told last: the action, and the workflow that goes with it.
pub type PushedView = (AgentAction, Option<Seq<char>>);

/// What an agent was told, as a mathematical value.
pub open spec fn pushed_view(key: (AgentAction, Option<String>)) -> PushedView {
    (key.0, key.1.deep_view())
}

/// What an agent is told by an answer.
pub open spec fn told(response: CheckInView) -> PushedView {
    (response.action, response.workflow_id)
}

/// The answer is to be pushed: it tells to wait or to execute, and something else than the last.
pub open spec fn is_news(last: Option<PushedView>, new: CheckInView) -> bool {
    new.action != AgentAction::Reboot && new.action != AgentAction::LocalBoot && last != Some(
        told(new),
    )
}

fn same_workflow(a: &Option<String>, b: &Option<String>) -> (r: bool)
    ensures
        r == (a.deep_view() == b.deep_view()),
{
    match (a, b) {
        (Some(x), Some(y)) => same(x.as_str(), y.as_str()),
        (None, None) => true,
        _ => false,
    }
}

/// Whether a freshly computed answer is to be pushed to the agent.
///
/// Only waiting and executing are: what an agent does about a restart or a boot, it does on its
/// first answer. An answer that tells the same as the last is not pushed again.
pub fn should_push(last: Option<&(AgentAction, Option<String>)>, new: &CheckInResponse) -> (r: bool)
    ensures
        r == is_news(
            match last {
                Some(key) => Some(pushed_view(*key)),
                None => None,
            },
            new.deep_view(),
        ),
{
    if new.action == AgentAction::Reboot || new.action == AgentAction::LocalBoot {
        return false;
    }
    match last {
        Some(key) => !(key.0 == new.action && same_workflow(&key.1, &new.workflow_id)),
        None => true,
    }
}

/// The event is one about a machine with a number: that it was updated, or deleted.
pub open spec fn concerns(event: Seq<char>, machine_id: u128) -> bool {
    match cut(event, ':') {
        Some((kind, id)) => (kind == "machine_updated"@ || kind == "machine_deleted"@)
            && uuid_reading(trimmed(id)) == Some(machine_id),
        None => false,
    }
}

/// Whether an event concerns a machine. The events of a machine do, as the server writes them.
pub fn event_concerns_machine(event: &str, machine_id: u128) -> (r: bool)
    ensures
        r == concerns(event@, machine_id),
        event@ == "machine_updated"@ + ":"@ + hyphenated(machine_id) ==> r,
        event@ == "machine_deleted"@ + ":"@ + hyphenated(machine_id) ==> r,
{
    proof {
        reveal_strlit("machine_updated");
        reveal_strlit("machine_deleted");
        cut_at_first(event@, "machine_updated"@, hyphenated(machine_id));
        cut_at_first(event@, "machine_deleted"@, hyphenated(machine_id));
        hyphenated_is_trimmed(machine_id);
    }
    match split_once(event, ':') {
        Some((kind, id)) => {
            let parsed = parse_uuid(trim(id.as_str()).as_str());
            let kind_match = same(kind.as_str(), "machine_updated") || same(
                kind.as_str(),
                "machine_deleted",
            );
            let id_match = match parsed {
                Some(p) => p == machine_id,
                None => false,
            };
            kind_match && id_match
        },
        None => false,
    }
}

/// The event that says that a machine was updated.
pub open spec fn updated_event(machine_id: Seq<char>) -> Seq<char> {
    "machine_updated:"@ + machine_id
}

// ---------------------------------------------------------------------------------------------
// A session
// ---------------------------------------------------------------------------------------------

/// What happens in a session.
#[derive(Debug, PartialEq, Eq)]
pub enum SessionEvent {
    /// The agent sent a text: the answer to the check-in that it holds, or none where it holds no
    /// check-in or none could be worked out.
    CheckedIn(Option<CheckInResponse>),
    /// The agent sent a ping.
    Ping,
    /// The agent closed the connection, or it broke.
    Gone,
    /// The agent sent something else.
    Other,
    /// The server announced something.
    Announced(String),
    /// Announcements were missed.
    Lagged,
    /// There will be no more announcements.
    Silent,
    /// It is time for a ping.
    Tick,
    /// What the agent is to do was worked out anew.
    Intent(Intent),
    /// The last thing was sent, or could not be.
    Sent(bool),
}

/// What an agent is to do, as worked out anew.
#[derive(Debug, PartialEq, Eq)]
pub enum Intent {
    /// This.
    Known(CheckInResponse),
    /// There is no such machine any more.
    NoMachine,
    /// It could not be worked out.
    Unknown,
}

/// What the server does in a session.
#[derive(Debug, PartialEq, Eq)]
pub enum SessionAction {
    /// Nothing.
    Wait,
    /// Send this answer.
    Push(CheckInResponse),
    /// Answer a ping.
    Pong,
    /// Send a ping.
    SendPing,
    /// Work out anew what the agent is to do.
    AskIntent,
    /// Close the connection.
    Close,
}

/// What was sent last, and whose success is still open.
#[derive(Debug, PartialEq, Eq)]
pub enum Sending {
    /// Nothing that matters.
    Nothing,
    /// A ping.
    Ping,
    /// An answer that tells this.
    Answer(AgentAction, Option<String>),
}

/// A session with an agent.
#[derive(Debug, PartialEq, Eq)]
pub struct Session {
    pub machine_id: u128,
    pub last: Option<(AgentAction, Option<String>)>,
    pub sending: Sending,
    /// Announcements were missed before the question that is open.
    pub missed: bool,
}

/// `SessionEvent` as a mathematical value.
pub enum SessionEventView {
    CheckedIn(Option<CheckInView>),
    Ping,
    Gone,
    Other,
    Announced(Seq<char>),
    Lagged,
    Silent,
    Tick,
    Known(CheckInView),
    NoMachine,
    Unknown,
    Sent(bool),
}

impl DeepView for SessionEvent {
    type V = SessionEventView;

    open spec fn deep_view(&self) -> SessionEventView {
        match self {
            SessionEvent::CheckedIn(r) => SessionEventView::CheckedIn(r.deep_view()),
            SessionEvent::Ping => SessionEventView::Ping,
            SessionEvent::Gone => SessionEventView::Gone,
            SessionEvent::Other => SessionEventView::Other,
            SessionEvent::Announced(s) => SessionEventView::Announced(s@),
            SessionEvent::Lagged => SessionEventView::Lagged,
            SessionEvent::Silent => SessionEventView::Silent,
            SessionEvent::Tick => SessionEventView::Tick,
            SessionEvent::Intent(Intent::Known(r)) => SessionEventView::Known(r.deep_view()),
            SessionEvent::Intent(Intent::NoMachine) => SessionEventView::NoMachine,
            SessionEvent::Intent(Intent::Unknown) => SessionEventView::Unknown,
            SessionEvent::Sent(ok) => SessionEventView::Sent(*ok),
        }
    }
}

/// `SessionAction` as a mathematical value.
pub enum SessionActionView {
    Wait,
    Push(CheckInView),
    Pong,
    SendPing,
    AskIntent,
    Close,
}

impl DeepView for SessionAction {
    type V = SessionActionView;

    open spec fn deep_view(&self) -> SessionActionView {
        match self {
            SessionAction::Wait => SessionActionView::Wait,
            SessionAction::Push(r) => SessionActionView::Push(r.deep_view()),
            SessionAction::Pong => SessionActionView::Pong,
            SessionAction::SendPing => SessionActionView::SendPing,
            SessionAction::AskIntent => SessionActionView::AskIntent,
            SessionAction::Close => SessionActionView::Close,
        }
    }
}

/// `Sending` as a mathematical value.
pub enum SendingView {
    Nothing,
    Ping,
    Answer(PushedView),
}

/// A session as a mathematical value.
pub struct SessionView {
    pub machine_id: u128,
    pub last: Option<PushedView>,
    pub sending: SendingView,
    pub missed: bool,
}

impl DeepView for Session {
    type V = SessionView;

    open spec fn deep_view(&self) -> SessionView {
        SessionView {
            machine_id: self.machine_id,
            last: match self.last {
                Some(key) => Some(pushed_view(key)),
                None => None,
            },
            sending: match self.sending {
                Sending::Nothing => SendingView::Nothing,
                Sending::Ping => SendingView::Ping,
                Sending::Answer(action, workflow) => SendingView::Answer(
                    (action, workflow.deep_view()),
                ),
            },
            missed: self.missed,
        }
    }
}

/// A session with an answer offered to the agent: pushed if it is news.
pub open spec fn offered(s: SessionView, response: CheckInView) -> (SessionView, SessionActionView) {
    if is_news(s.last, response) {
        (
            SessionView { sending: SendingView::Answer(told(response)), ..s },
            SessionActionView::Push(response),
        )
    } else {
        (s, SessionActionView::Wait)
    }
}

/// What follows an event in a session.
pub open spec fn session_next(s: SessionView, event: SessionEventView) -> (
    SessionView,
    SessionActionView,
) {
    match event {
        SessionEventView::CheckedIn(Some(response)) => offered(s, response),
        SessionEventView::CheckedIn(None) | SessionEventView::Other => (
            s,
            SessionActionView::Wait,
        ),
        SessionEventView::Ping => (
            SessionView { sending: SendingView::Nothing, ..s },
            SessionActionView::Pong,
        ),
        SessionEventView::Gone | SessionEventView::Silent => (s, SessionActionView::Close),
        SessionEventView::Announced(text) => if concerns(text, s.machine_id) {
            (SessionView { missed: false, ..s }, SessionActionView::AskIntent)
        } else {
            (s, SessionActionView::Wait)
        },
        SessionEventView::Lagged => (
            SessionView { missed: true, ..s },
            SessionActionView::AskIntent,
        ),
        SessionEventView::Tick => (
            SessionView { sending: SendingView::Ping, ..s },
            SessionActionView::SendPing,
        ),
        SessionEventView::Known(response) => offered(s, response),
        SessionEventView::NoMachine => (
            s,
            if s.missed {
                SessionActionView::Wait
            } else {
                SessionActionView::Close
            },
        ),
        SessionEventView::Unknown => (s, SessionActionView::Wait),
        SessionEventView::Sent(ok) => match s.sending {
            SendingView::Nothing => (s, SessionActionView::Wait),
            SendingView::Ping => (
                SessionView { sending: SendingView::Nothing, ..s },
                if ok {
                    SessionActionView::Wait
                } else {
                    SessionActionView::Close
                },
            ),
            SendingView::Answer(key) => if ok {
                (
                    SessionView { last: Some(key), sending: SendingView::Nothing, ..s },
                    SessionActionView::Wait,
                )
            } else {
                (
                    SessionView { sending: SendingView::Nothing, ..s },
                    SessionActionView::Close,
                )
            },
        },
    }
}

fn copy_workflow(w: &Option<String>) -> (r: Option<String>)
    ensures
        r.deep_view() == w.deep_view(),
{
    match w {
        Some(s) => Some(s.clone()),
        None => None,
    }
}

/// What is answered to an agent where machines are not provisioned: the status and the body.
pub fn unavailable() -> (r: (u16, Json))
    ensures
        r.0 == 503,
        r.1.deep_view() == JsonView::nothing().with(
            "error"@,
            JsonView::Text("Provisioning service not available"@),
        ),
{
    (503, Json::nothing().with("error", Json::text("Provisioning service not available")))
}

/// The announcement that follows a check-in.
pub fn announcement(machine_id: &str) -> (r: String)
    ensures
        r@ == updated_event(machine_id@),
{
    "machine_updated:".to_owned().concat(machine_id)
}

impl Session {
    /// Opens a session on the first answer, which is then sent; none where the answer names no
    /// machine.
    pub fn open(response: &CheckInResponse) -> (r: Option<Session>)
        ensures
            r.deep_view() == (match uuid_reading(response.machine_id@) {
                Some(machine_id) => Some(
                    SessionView {
                        machine_id,
                        last: Some(told(response.deep_view())),
                        sending: SendingView::Nothing,
                        missed: false,
                    },
                ),
                None => None,
            }),
    {
        match parse_uuid(response.machine_id.as_str()) {
            Some(machine_id) => Some(
                Session {
                    machine_id,
                    last: Some((response.action, copy_workflow(&response.workflow_id))),
                    sending: Sending::Nothing,
                    missed: false,
                },
            ),
            None => None,
        }
    }

    fn offer(&mut self, response: CheckInResponse) -> (r: SessionAction)
        ensures
            (final(self).deep_view(), r.deep_view()) == offered(
                old(self).deep_view(),
                response.deep_view(),
            ),
    {
        let news = match &self.last {
            Some(key) => should_push(Some(key), &response),
            None => should_push(None, &response),
        };
        if news {
            self.sending = Sending::Answer(response.action, copy_workflow(&response.workflow_id));
            SessionAction::Push(response)
        } else {
            SessionAction::Wait
        }
    }

    /// Goes on from an event.
    pub fn next(&mut self, event: SessionEvent) -> (r: SessionAction)
        ensures
            (final(self).deep_view(), r.deep_view()) == session_next(
                old(self).deep_view(),
                event.deep_view(),
            ),
    {
        match event {
            SessionEvent::CheckedIn(Some(response)) => self.offer(response),
            SessionEvent::CheckedIn(None) | SessionEvent::Other => SessionAction::Wait,
            SessionEvent::Ping => {
                self.sending = Sending::Nothing;
                SessionAction::Pong
            },
            SessionEvent::Gone | SessionEvent::Silent => SessionAction::Close,
            SessionEvent::Announced(text) => {
                if event_concerns_machine(text.as_str(), self.machine_id) {
                    self.missed = false;
                    SessionAction::AskIntent
                } else {
                    SessionAction::Wait
                }
            },
            SessionEvent::Lagged => {
                self.missed = true;
                SessionAction::AskIntent
            },
            SessionEvent::Tick => {
                self.sending = Sending::Ping;
                SessionAction::SendPing
            },
            SessionEvent::Intent(Intent::Known(response)) => self.offer(response),
            SessionEvent::Intent(Intent::NoMachine) => {
                if self.missed {
                    SessionAction::Wait
                } else {
                    SessionAction::Close
                }
            },
            SessionEvent::Intent(Intent::Unknown) => SessionAction::Wait,
            SessionEvent::Sent(ok) => {
                let mut sent = Sending::Nothing;
                core::mem::swap(&mut self.sending, &mut sent);
                match sent {
                    Sending::Nothing => SessionAction::Wait,
                    Sending::Ping => if ok {
                        SessionAction::Wait
                    } else {
                        SessionAction::Close
                    },
                    Sending::Answer(action, workflow) => if ok {
                        self.last = Some((action, workflow));
                        SessionAction::Wait
                    } else {
                        SessionAction::Close
                    },
                }
            },
        }
    }
}

/// An agent is never pushed a restart or a boot, and never the same twice in a row: once an answer
/// has been sent, another that tells the same is not.
pub proof fn nothing_is_pushed_twice(s: SessionView, event: SessionEventView)
    ensures
        session_next(s, event).1 matches SessionActionView::Push(response) ==> {
            let sent = session_next(
                session_next(s, event).0,
                SessionEventView::Sent(true),
            ).0;
            &&& response.action == AgentAction::Wait || response.action == AgentAction::Execute
            &&& s.last != Some(told(response))
            &&& sent.last == Some(told(response))
            &&& session_next(sent, event).1 == SessionActionView::Wait
        },
{
}

/// An event about another machine, or of another kind, changes nothing.
pub proof fn other_events_change_nothing(s: SessionView, text: Seq<char>)
    requires
        !concerns(text, s.machine_id),
    ensures
        session_next(s, SessionEventView::Announced(text)) == (s, SessionActionView::Wait),
{
}

/// An agent hears of what its machine is to do as soon as that changes: the announcement has it
/// worked out, and what is new, to wait or to execute something, is pushed and then known as told.
pub proof fn changed_intent_is_pushed(s: SessionView, event: Seq<char>, response: CheckInView)
    requires
        concerns(event, s.machine_id),
        response.action == AgentAction::Wait || response.action == AgentAction::Execute,
        s.last != Some(told(response)),
    ensures
        ({
            let (asking, asked) = session_next(s, SessionEventView::Announced(event));
            let (pushing, pushed) = session_next(asking, SessionEventView::Known(response));
            let (after, _) = session_next(pushing, SessionEventView::Sent(true));
            &&& asked == SessionActionView::AskIntent
            &&& pushed == SessionActionView::Push(response)
            &&& after.last == Some(told(response))
        }),
{
}

/// What is pushed is what to wait for or to carry out, if the agent was not told exactly that last.
pub proof fn news_is_pushed(last: Option<PushedView>, new: CheckInView)
    ensures
        is_news(last, new) <==> (new.action == AgentAction::Wait || new.action
            == AgentAction::Execute) && (last matches Some(key) ==> key.0 != new.action || key.1
            != new.workflow_id),
{
}

/// The events of a machine are those that say that it was updated or deleted, under its own number.
pub proof fn events_of_the_machine(kind: Seq<char>, id: Seq<char>, machine_id: u128)
    requires
        !kind.contains(':'),
    ensures
        concerns(kind + seq![':'] + id, machine_id) <==> (kind == "machine_updated"@ || kind
            == "machine_deleted"@) && uuid_reading(trimmed(id)) == Some(machine_id),
        !concerns(kind, machine_id),
{
    cut_is_at_the_first(kind, ':', id);
}

/// How a session goes on: a ping is answered, and pings are sent on time. It closes when the agent has
/// gone, when there is nothing more to hear, when the machine is no more, or when something could not
/// be sent. After announcements were missed it asks what the machine is to do.
pub proof fn session_goes_on(s: SessionView, event: SessionEventView)
    ensures
        event is Ping ==> session_next(s, event).1 is Pong,
        event is Tick ==> session_next(s, event).1 is SendPing && session_next(
            s,
            event,
        ).0.sending is Ping,
        event is Gone || event is Silent ==> session_next(s, event).1 is Close,
        event is Lagged ==> session_next(s, event).1 is AskIntent && session_next(s, event).0.missed,
        event is NoMachine && !s.missed ==> session_next(s, event).1 is Close,
        event is NoMachine && s.missed ==> session_next(s, event).1 is Wait,
        event == SessionEventView::Sent(false) && !(s.sending is Nothing) ==> session_next(
            s,
            event,
        ).1 is Close,
        event == SessionEventView::Sent(true) ==> session_next(s, event).1 is Wait,
        event is Other || event is Unknown ==> session_next(s, event) == (
            s,
            SessionActionView::Wait,
        ),
        session_next(s, event).0.machine_id == s.machine_id,
        !(event is Sent) ==> session_next(s, event).0.last == s.last,
        session_next(s, event).1 is Push ==> event is Known || event is CheckedIn,
        event matches SessionEventView::Announced(text) ==> (concerns(text, s.machine_id)
            ==> session_next(s, event).1 is AskIntent && !session_next(s, event).0.missed),
{
}

/// The event that a machine was updated names it.
pub proof fn update_names_the_machine(machine_id: u128)
    ensures
        updated_event(hyphenated(machine_id)) == "machine_updated"@ + seq![':'] + hyphenated(
            machine_id,
        ),
{
    reveal_strlit("machine_updated:");
    reveal_strlit("machine_updated");
    assert("machine_updated:"@ =~= "machine_updated"@ + seq![':']);
    assert(updated_event(hyphenated(machine_id)) =~= "machine_updated"@ + seq![':'] + hyphenated(
        machine_id,
    ));
}

} // verus!
