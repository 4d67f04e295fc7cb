//! Events: what is announced, and how it is told to those who listen.

use vstd::prelude::*;

use crate::json::{Json, JsonView, json_of_text, parse_json};
use crate::seqs::somes;
use crate::text::{cut, cut_at_first, cut_is_at_the_first, same, split_once};

verus! {

/// Something that happened to a machine.
#[derive(Clone, Debug, PartialEq, Eq)]
pub enum Event {
    MachineDiscovered(String),
    MachineUpdated(String),
    MachineDeleted(String),
}

/// An event taken apart: its kind, before the first colon, and what it is about.
pub open spec fn event_parts(event: Seq<char>) -> (Seq<char>, Seq<char>) {
    match cut(event, ':') {
        Some(parts) => parts,
        None => (event, ""@),
    }
}

/// The kind is one whose events carry JSON.
pub open spec fn carries_json(kind: Seq<char>) -> bool {
    kind == "ip_download_progress"@ || kind == "workflow_progress"@ || kind == "cluster"@
}

/// What an event is about, as a JSON value; `parsed` is what its text reads as.
pub open spec fn payload_value(
    kind: Seq<char>,
    payload: Seq<char>,
    parsed: Option<JsonView>,
) -> JsonView {
    match parsed {
        Some(value) if carries_json(kind) => value,
        _ => JsonView::Text(payload),
    }
}

/// The message about an event: its kind, and what it is about. An event that carries JSON, but has
/// none, is not told.
pub open spec fn envelope(
    kind: Seq<char>,
    payload: Seq<char>,
    parsed: Option<JsonView>,
) -> Option<JsonView> {
    if carries_json(kind) && payload.len() == 0 {
        None
    } else {
        Some(
            JsonView::nothing().with("type"@, JsonView::Text(kind)).with(
                "payload"@,
                payload_value(kind, payload, parsed),
            ),
        )
    }
}

fn is_json_kind(kind: &str) -> (r: bool)
    ensures
        r == carries_json(kind@),
{
    same(kind, "ip_download_progress") || same(kind, "workflow_progress") || same(kind, "cluster")
}

/// Takes an event apart.
pub fn split_event(event_string: &str) -> (r: (String, String))
    ensures
        (r.0@, r.1@) == event_parts(event_string@),
{
    match split_once(event_string, ':') {
        Some(parts) => parts,
        None => (event_string.to_owned(), "".to_owned()),
    }
}

/// The message about an event, given what its text reads as.
pub fn make_envelope(kind: &str, payload: &str, parsed: Option<Json>) -> (r: Option<Json>)
    ensures
        r.deep_view() == envelope(kind@, payload@, parsed.deep_view()),
{
    let json_kind = is_json_kind(kind);
    if json_kind && payload.is_empty() {
        return None;
    }
    let value: Json = match parsed {
        Some(value) => if json_kind {
            value
        } else {
            Json::text(payload)
        },
        None => Json::text(payload),
    };
    Some(Json::nothing().with("type", Json::text(kind)).with("payload", value))
}

/// The message about an event such as `machine_updated:<id>`: an object with the fields `type` and
/// `payload`. What it is about is a text, or the JSON value that it carries.
pub fn event_envelope(event_string: &str) -> (r: Option<Json>)
    ensures
        r.deep_view() == envelope(
            event_parts(event_string@).0,
            event_parts(event_string@).1,
            json_of_text(event_parts(event_string@).1),
        ),
{
    let (kind, payload) = split_event(event_string);
    let parsed = parse_json(payload.as_str().as_bytes());
    make_envelope(kind.as_str(), payload.as_str(), parsed)
}

/// The message with which a stream of events begins.
pub open spec fn ready_message() -> JsonView {
    JsonView::nothing().with("type"@, JsonView::Text("stream_ready"@))
}

/// The message with which a stream of events begins.
pub fn stream_ready() -> (r: Json)
    ensures
        r.deep_view() == ready_message(),
{
    Json::nothing().with("type", Json::text("stream_ready"))
}

/// Nothing of an event is lost in its message, unless it carries JSON: the kind and what it is
/// about are its fields.
pub proof fn envelope_keeps_both_parts(event: Seq<char>, parsed: Option<JsonView>)
    requires
        !carries_json(event_parts(event).0),
    ensures
        envelope(event_parts(event).0, event_parts(event).1, parsed) matches Some(v) && v.text_at(
            "type"@,
        ) == Some(event_parts(event).0) && v.text_at("payload"@) == Some(event_parts(event).1),
{
    reveal_strlit("type");
    reveal_strlit("payload");
    assert("type"@.len() != "payload"@.len());
    reveal_with_fuel(crate::json::field_place, 3);
}

/// An event that is put together from a kind and what it is about is taken apart into them.
pub proof fn event_is_taken_apart(kind: Seq<char>, payload: Seq<char>)
    requires
        !kind.contains(':'),
    ensures
        event_parts(kind + ":"@ + payload) == (kind, payload),
{
    cut_at_first(kind + ":"@ + payload, kind, payload);
}

// ---------------------------------------------------------------------------------------------
// Sending
// ---------------------------------------------------------------------------------------------

/// How sending an event ends: with the number of those who got it, or with the event itself where
/// nobody listens or the channel refuses it. `sent` is what the channel says.
pub fn conclude_send(message: String, receivers: usize, sent: Option<usize>) -> (r: Result<
    usize,
    String,
>)
    ensures
        (match r {
            Ok(n) => Ok(n),
            Err(m) => Err(m@),
        }) == (match sent {
            Some(n) if receivers > 0 => Ok(n),
            _ => Err(message@),
        }),
{
    match sent {
        Some(n) => if receivers > 0 {
            Ok(n)
        } else {
            Err(message)
        },
        None => Err(message),
    }
}

/// What happens on a connection over which events are told.
#[derive(Debug, PartialEq, Eq)]
pub enum StreamEvent {
    /// An event was announced.
    Announced(String),
    /// Announcements were missed.
    Lagged,
    /// There will be no more.
    Silent,
    /// The listener sent a ping.
    Ping,
    /// The listener has gone.
    Gone,
    /// The listener sent something else.
    Other,
    /// It is time for a ping.
    Tick,
}

/// What the server does on a connection over which events are told.
#[derive(Debug, PartialEq, Eq)]
pub enum StreamAction {
    /// Send this message; where that fails, close the connection.
    Tell(Json),
    /// Answer a ping.
    Pong,
    /// Send a ping; where that fails, close the connection.
    SendPing,
    /// Close the connection.
    Close,
    /// Nothing.
    Wait,
}

/// `StreamAction` as a mathematical value.
pub enum StreamActionView {
    Tell(JsonView),
    Pong,
    SendPing,
    Close,
    Wait,
}

impl DeepView for StreamAction {
    type V = StreamActionView;

    open spec fn deep_view(&self) -> StreamActionView {
        match self {
            StreamAction::Tell(v) => StreamActionView::Tell(v.deep_view()),
            StreamAction::Pong => StreamActionView::Pong,
            StreamAction::SendPing => StreamActionView::SendPing,
            StreamAction::Close => StreamActionView::Close,
            StreamAction::Wait => StreamActionView::Wait,
        }
    }
}

/// What the server does about something that happens on a connection over which events are told.
pub open spec fn stream_action(event: StreamEvent) -> StreamActionView {
    match event {
        StreamEvent::Announced(text) => match envelope(
            event_parts(text@).0,
            event_parts(text@).1,
            json_of_text(event_parts(text@).1),
        ) {
            Some(v) => StreamActionView::Tell(v),
            None => StreamActionView::Wait,
        },
        StreamEvent::Lagged | StreamEvent::Other => StreamActionView::Wait,
        StreamEvent::Silent | StreamEvent::Gone => StreamActionView::Close,
        StreamEvent::Ping => StreamActionView::Pong,
        StreamEvent::Tick => StreamActionView::SendPing,
    }
}

/// Decides what the server does on a connection over which events are told.
pub fn on_stream_event(event: StreamEvent) -> (r: StreamAction)
    ensures
        r.deep_view() == stream_action(event),
{
    match event {
        StreamEvent::Announced(text) => match event_envelope(text.as_str()) {
            Some(v) => StreamAction::Tell(v),
            None => StreamAction::Wait,
        },
        StreamEvent::Lagged | StreamEvent::Other => StreamAction::Wait,
        StreamEvent::Silent | StreamEvent::Gone => StreamAction::Close,
        StreamEvent::Ping => StreamAction::Pong,
        StreamEvent::Tick => StreamAction::SendPing,
    }
}

/// The message that is sent on an event, if one is.
pub open spec fn message_on(event: StreamEvent) -> Option<JsonView> {
    match stream_action(event) {
        StreamActionView::Tell(v) => Some(v),
        _ => None,
    }
}

/// One of the events closes the connection.
pub open spec fn is_closed(events: Seq<StreamEvent>) -> bool {
    exists|i: int| 0 <= i < events.len() && stream_action(#[trigger] events[i]) is Close
}

/// The messages that are sent over a connection: the first says that it is ready, and the others
/// are sent on the events, until one of them closes it.
pub open spec fn messages(events: Seq<StreamEvent>) -> Seq<JsonView>
    decreases events.len(),
{
    if events.len() == 0 {
        seq![ready_message()]
    } else {
        let before = messages(events.drop_last());
        if is_closed(events.drop_last()) {
            before
        } else {
            match message_on(events.last()) {
                Some(v) => before.push(v),
                None => before,
            }
        }
    }
}

/// Events are told in the order in which they come, after the message that says that the stream is
/// ready: nothing comes before that one, and no message is left out, sent twice or moved.
pub proof fn events_are_told_in_order(events: Seq<StreamEvent>)
    requires
        !is_closed(events),
    ensures
        messages(events) == seq![ready_message()] + somes(
            events.map_values(|e: StreamEvent| message_on(e)),
        ),
    decreases events.len(),
{
    let all = events.map_values(|e: StreamEvent| message_on(e));
    if events.len() > 0 {
        let front = events.drop_last();
        assert forall|i: int| 0 <= i < front.len() implies !(stream_action(
            #[trigger] front[i],
        ) is Close) by {
            assert(front[i] == events[i]);
        }
        events_are_told_in_order(front);
        assert(front.map_values(|e: StreamEvent| message_on(e)) =~= all.drop_last());
        assert(all.last() == message_on(events.last()));
        assert(messages(events) =~= seq![ready_message()] + somes(all));
    } else {
        assert(messages(events) =~= seq![ready_message()] + somes(all));
    }
}

/// Announcements that carry no JSON are all told: each has its own message, at its own place
/// behind the first, with its kind and what it is about.
pub proof fn every_announcement_is_told(events: Seq<StreamEvent>)
    requires
        forall|i: int|
            0 <= i < events.len() ==> (#[trigger] events[i]) is Announced && !carries_json(
                event_parts(events[i]->Announced_0@).0,
            ),
    ensures
        messages(events).len() == events.len() + 1,
        messages(events)[0] == ready_message(),
        forall|i: int|
            0 <= i < events.len() ==> {
                let parts = event_parts((#[trigger] events[i])->Announced_0@);
                let told = messages(events)[i + 1];
                told.text_at("type"@) == Some(parts.0) && told.text_at("payload"@) == Some(parts.1)
            },
    decreases events.len(),
{
    if events.len() > 0 {
        let front = events.drop_last();
        assert forall|i: int| 0 <= i < front.len() implies (#[trigger] front[i]) is Announced
            && !carries_json(event_parts(front[i]->Announced_0@).0) by {
            assert(front[i] == events[i]);
        }
        every_announcement_is_told(front);
        assert(!is_closed(front));
        let last = events[events.len() - 1];
        let text = last->Announced_0@;
        envelope_keeps_both_parts(text, json_of_text(event_parts(text).1));
        assert forall|i: int| 0 <= i < events.len() implies ({
            let parts = event_parts((#[trigger] events[i])->Announced_0@);
            let told = messages(events)[i + 1];
            told.text_at("type"@) == Some(parts.0) && told.text_at("payload"@) == Some(parts.1)
        }) by {
            if i < front.len() {
                assert(front[i] == events[i]);
            }
        }
    }
}

/// Once a connection was closed nothing more is sent over it.
pub proof fn nothing_is_told_after_closing(events: Seq<StreamEvent>, more: Seq<StreamEvent>)
    requires
        is_closed(events),
    ensures
        messages(events + more) == messages(events),
    decreases more.len(),
{
    if more.len() == 0 {
        assert(events + more =~= events);
    } else {
        let less = more.drop_last();
        nothing_is_told_after_closing(events, less);
        assert((events + more).drop_last() =~= events + less);
        let i = choose|i: int|
            0 <= i < events.len() && stream_action(#[trigger] events[i]) is Close;
        assert((events + less)[i] == events[i]);
    }
}

// ---------------------------------------------------------------------------------------------
// What is told
// ---------------------------------------------------------------------------------------------

/// The message about an event names its kind; what it is about is the JSON value where its kind carries
/// one, and the text otherwise. Only an event that should carry JSON and has nothing is not told.
pub proof fn messages_carry_their_event(
    kind: Seq<char>,
    payload: Seq<char>,
    value: JsonView,
)
    ensures
        ({
            let carrier = kind == "ip_download_progress"@ || kind == "workflow_progress"@ || kind
                == "cluster"@;
            &&& envelope(kind, payload, None) is None <==> carrier && payload.len() == 0
            &&& envelope(kind, payload, Some(value)) is None <==> carrier && payload.len() == 0
            &&& envelope(kind, payload, Some(value)) matches Some(m) ==> m.text_at("type"@) == Some(
                kind,
            ) && m.field("payload"@) == Some(
                if carrier {
                    value
                } else {
                    JsonView::Text(payload)
                },
            )
            &&& envelope(kind, payload, None) matches Some(m) ==> m.text_at("type"@) == Some(kind)
                && m.text_at("payload"@) == Some(payload)
        }),
{
    reveal_strlit("type");
    reveal_strlit("payload");
    assert("type"@.len() != "payload"@.len());    reveal_with_fuel(crate::json::field_place, 8);
}

/// An event without anything behind its kind is about nothing.
pub proof fn bare_events_are_about_nothing(kind: Seq<char>, payload: Seq<char>)
    requires
        !kind.contains(':'),
    ensures
        event_parts(kind) == (kind, Seq::<char>::empty()),
        event_parts(kind + seq![':'] + payload) == (kind, payload),
{
    reveal_strlit("");
    assert(""@ =~= Seq::empty());
    cut_is_at_the_first(kind, ':', payload);
}

/// A connection is closed exactly where the other side is silent or gone; it is answered when it asks,
/// and asked when it is time.
pub proof fn connections_are_kept(event: StreamEvent)
    ensures
        stream_action(event) is Close <==> event is Silent || event is Gone,
        stream_action(event) is Pong <==> event is Ping,
        stream_action(event) is SendPing <==> event is Tick,
        stream_action(event) is Tell ==> event is Announced,
        ready_message().text_at("type"@) == Some("stream_ready"@),
{
    reveal_with_fuel(crate::json::field_place, 3);
}

} // verus!
