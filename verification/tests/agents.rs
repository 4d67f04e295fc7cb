//! The connection between agent and server, and the names of machines.

use dragonfly::agent_ws::{
    announcement, event_concerns_machine, should_push, unavailable, Intent, Sending, Session,
    SessionAction, SessionEvent,
};
use dragonfly::checkin::{AgentAction, CheckInResponse};
use dragonfly::ids::machine_id_for;
use dragonfly::link::{
    backoff_with_jitter, backoff_with_nanos, endpoint, fraction_of, on_message, Backoff,
    LinkMessage, LinkOutcome, LinkReaction, BACKOFF_MAX_MS, BACKOFF_MIN_MS,
};
use dragonfly::mac_to_words::{capitalize, mac_to_words, mac_to_words_safe};
use dragonfly::text::NumberError;
use uuid::Uuid;

#[test]
fn jitter_stays_within_plus_minus_3ms_of_backoff() {
    for _ in 0..1000 {
        let jittered = backoff_with_jitter(5_000);
        let delta = jittered as i64 - 5_000;
        assert!(
            (-3..=3).contains(&delta),
            "jittered backoff {jittered:?} deviates {delta}ms from 5s"
        );
    }
}

#[test]
fn jitter_never_goes_negative_for_tiny_backoff() {
    let jittered = backoff_with_jitter(0);
    assert!(jittered <= 3);
}

#[test]
fn jitter_follows_the_clock() {
    assert_eq!(backoff_with_nanos(5_000, 0), 4_997);
    assert_eq!(backoff_with_nanos(5_000, 6), 5_003);
    assert_eq!(backoff_with_nanos(5_000, 10), 5_000);
    assert_eq!(backoff_with_nanos(1, 0), 0);
    assert_eq!(fraction_of(Some(1_700_000_000_123_456_789)), 123_456_789);
    assert_eq!(fraction_of(Some(5_000_000_000)), 0);
    assert_eq!(fraction_of(None), 0);
}

#[test]
fn broken_connections_are_waited_for_longer() {
    let mut backoff = Backoff::new();
    let mut waits = Vec::new();
    for _ in 0..7 {
        waits.push(backoff.after(LinkOutcome::Lost).unwrap());
    }
    assert_eq!(waits, vec![1_000, 2_000, 4_000, 8_000, 16_000, 30_000, 30_000]);
    assert_eq!(backoff.ms, BACKOFF_MAX_MS);
    assert_eq!(backoff.after(LinkOutcome::Disconnected), Some(BACKOFF_MIN_MS));
    assert_eq!(backoff.ms, 2_000);
    assert_eq!(backoff.after(LinkOutcome::Terminal), None);
    assert_eq!(backoff.ms, 2_000);
}

#[test]
fn agent_connects_to_the_server() {
    assert_eq!(endpoint("ws://host:3000"), "ws://host:3000/api/agent/ws");
}

#[test]
fn messages_are_acted_on() {
    let wait = LinkMessage::Text(Some(resp(AgentAction::Wait, None)));
    assert_eq!(
        on_message(&wait),
        LinkReaction::Act { action: AgentAction::Wait, last: false }
    );
    let reboot = LinkMessage::Text(Some(resp(AgentAction::Reboot, None)));
    assert_eq!(
        on_message(&reboot),
        LinkReaction::Act { action: AgentAction::Reboot, last: true }
    );
    assert_eq!(on_message(&LinkMessage::Text(None)), LinkReaction::Ignore);
    assert_eq!(on_message(&LinkMessage::Other), LinkReaction::Ignore);
    assert_eq!(on_message(&LinkMessage::Closed), LinkReaction::End(LinkOutcome::Disconnected));
    assert_eq!(on_message(&LinkMessage::Failed), LinkReaction::End(LinkOutcome::Lost));
}

#[test]
fn test_mac_to_words() {
    let mac = "04:7c:16:eb:74:ed";
    let result = mac_to_words(mac).unwrap();
    let word_count = result.chars().filter(|c| c.is_uppercase()).count();
    assert_eq!(word_count, 4);
    println!("MAC {} converted to: {}", mac, result);

    let mac2 = "04:7c:16:eb:74:ee";
    let result2 = mac_to_words(mac2).unwrap();
    assert_ne!(result, result2);
    println!("MAC {} converted to: {}", mac2, result2);

    let mac3 = "ae:bc:16:eb:74:ed";
    let result3 = mac_to_words(mac3).unwrap();
    assert_eq!(result, result3);
    println!("MAC {} (modified OUI) converted to: {}", mac3, result3);

    let mac4 = "04:7c:16:eb:75:ed";
    let result4 = mac_to_words(mac4).unwrap();
    assert_ne!(result, result4);
    println!("MAC {} (different device ID) converted to: {}", mac4, result4);
}

#[test]
fn test_mac_to_words_safe() {
    let mac = "04:7c:16:eb:74:ed";
    let result = mac_to_words_safe(mac);
    assert!(result.len() > 0);
    println!("MAC {} safely converted to: {}", mac, result);

    let invalid_mac = "invalid";
    let fallback = mac_to_words_safe(invalid_mac);
    assert!(fallback.starts_with("Machine-"));
}

#[test]
fn names_are_made_of_numbered_words() {
    // The first and the last words of the list, by their numbers.
    assert_eq!(mac_to_words("00:00:00:00:00:00").unwrap(), "AbandonAbandonAbandonAbandon");
    assert_eq!(mac_to_words("00:00:00:00:07:ff").unwrap(), "AbandonAbandonAbandonZoo");
    assert_eq!(mac_to_words("00:00:00:3f:ff:ff").unwrap(), "AbandonAbandonZooZoo");
    assert_eq!(mac_to_words("00:00:00:40:00:01").unwrap(), "AbandonAbilityAbandonAbility");
    assert_eq!(mac_to_words("00:00:00:c0:00:00").unwrap(), "AbandonAboutAbandonAbandon");
}

#[test]
fn what_is_no_address_has_no_words() {
    assert_eq!(mac_to_words("invalid"), Err(NumberError::InvalidDigit));
    assert_eq!(mac_to_words(""), Err(NumberError::Empty));
    assert_eq!(mac_to_words("ffffffffffffffffff"), Err(NumberError::TooLarge));
    assert_eq!(mac_to_words_safe("invalid:address"), "Machine-invalida");
    assert_eq!(mac_to_words_safe(""), "Machine-");
}

#[test]
fn capitals_stand_at_the_head() {
    assert_eq!(capitalize("zebra"), "Zebra");
    assert_eq!(capitalize(""), "");
    assert_eq!(capitalize("Zoo"), "Zoo");
    assert_eq!(capitalize("élan"), "Élan");
    assert_eq!(capitalize("ßtraße"), "SStraße");
}

fn resp(action: AgentAction, wf: Option<&str>) -> CheckInResponse {
    CheckInResponse {
        machine_id: Uuid::now_v7().to_string(),
        memorable_name: "m".to_string(),
        is_new: false,
        action,
        workflow_id: wf.map(str::to_string),
    }
}

#[test]
fn event_concerns_machine_matches_our_machine() {
    let id = Uuid::now_v7();
    assert!(event_concerns_machine(&format!("machine_updated:{id}"), id.as_u128()));
    assert!(event_concerns_machine(&format!("machine_deleted:{id}"), id.as_u128()));
}

#[test]
fn event_concerns_machine_ignores_other_machines_and_types() {
    let id = Uuid::now_v7();
    let other = Uuid::now_v7();
    assert!(!event_concerns_machine(&format!("machine_updated:{other}"), id.as_u128()));
    assert!(!event_concerns_machine(&format!("workflow_progress:{id}"), id.as_u128()));
    assert!(!event_concerns_machine("templates_ready", id.as_u128()));
}

#[test]
fn should_push_only_wait_or_execute_and_only_on_change() {
    let wait = resp(AgentAction::Wait, None);
    let exec1 = resp(AgentAction::Execute, Some("wf-1"));
    let exec2 = resp(AgentAction::Execute, Some("wf-2"));
    let localboot = resp(AgentAction::LocalBoot, None);
    let reboot = resp(AgentAction::Reboot, None);

    assert!(should_push(None, &wait));
    assert!(should_push(None, &exec1));
    assert!(!should_push(None, &localboot));
    assert!(!should_push(None, &reboot));

    let last = (AgentAction::Execute, Some("wf-1".to_string()));
    assert!(!should_push(Some(&last), &exec1));
    assert!(should_push(Some(&last), &exec2));
    assert!(should_push(Some(&last), &wait));
    assert!(!should_push(Some(&last), &localboot));
}

#[test]
fn agents_are_not_told_the_same_thing_twice() {
    let first = resp(AgentAction::Wait, None);
    let id = Uuid::parse_str(&first.machine_id).unwrap();
    let mut session = Session::open(&first).unwrap();
    assert_eq!(session.machine_id, id.as_u128());

    // An event about another machine is of no concern; one about this machine is.
    let other = Uuid::now_v7();
    assert!(matches!(
        session.next(SessionEvent::Announced(format!("machine_updated:{other}"))),
        SessionAction::Wait
    ));
    assert!(matches!(
        session.next(SessionEvent::Announced(format!("machine_updated:{id}"))),
        SessionAction::AskIntent
    ));
    // Nothing new is not told.
    let same = CheckInResponse {
        machine_id: first.machine_id.clone(),
        memorable_name: "m".to_string(),
        is_new: false,
        action: AgentAction::Wait,
        workflow_id: None,
    };
    assert!(matches!(session.next(SessionEvent::Intent(Intent::Known(same))), SessionAction::Wait));
    // Something new is.
    let new = resp(AgentAction::Execute, Some("wf-1"));
    match session.next(SessionEvent::Intent(Intent::Known(new))) {
        SessionAction::Push(told) => assert_eq!(told.workflow_id.as_deref(), Some("wf-1")),
        other => panic!("expected a push, got {other:?}"),
    }
    let _ = session.next(SessionEvent::Sent(true));
    assert_eq!(session.last, Some((AgentAction::Execute, Some("wf-1".to_string()))));
    assert!(matches!(session.sending, Sending::Nothing));
}

#[test]
fn sessions_need_a_machine() {
    let mut answer = resp(AgentAction::Wait, None);
    answer.machine_id = "nobody".to_string();
    assert!(Session::open(&answer).is_none());
    let mut session = Session::open(&resp(AgentAction::Wait, None)).unwrap();
    assert!(matches!(session.next(SessionEvent::Ping), SessionAction::Pong));
    assert!(matches!(session.next(SessionEvent::Gone), SessionAction::Close));
}

#[test]
fn changes_are_announced_by_number() {
    assert_eq!(announcement("abc"), "machine_updated:abc");
    let (status, body) = unavailable();
    assert_eq!(status, 503);
    assert_eq!(body.text_at("error"), Some("Provisioning service not available"));
}

#[test]
fn machines_are_numbered_by_their_address() {
    let expected = Uuid::new_v5(&Uuid::NAMESPACE_DNS, b"04:7c:16:eb:74:ed");
    assert_eq!(machine_id_for("04:7c:16:eb:74:ed"), expected.as_u128());
    assert_ne!(machine_id_for("04:7c:16:eb:74:ee"), expected.as_u128());
}
