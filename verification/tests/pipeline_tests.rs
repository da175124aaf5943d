use weatherbot::dispatcher::classify;
use weatherbot::dispatcher::Command;
use weatherbot::dispatcher::RelayEvent;
use weatherbot::dispatcher::SenderPrefix;
use weatherbot::memory::UserLocationMemory;
use weatherbot::pipeline::build_error_reply;
use weatherbot::pipeline::build_success_reply;
use weatherbot::pipeline::plan_reply;

fn channel_message(prefix: Option<SenderPrefix>, text: &str) -> RelayEvent {
    RelayEvent::ChannelMessage {
        prefix,
        channel: "#weather".to_string(),
        text: text.to_string(),
    }
}

fn user(nick: &str) -> Option<SenderPrefix> {
    Some(SenderPrefix::Nickname(nick.to_string(), "user".to_string(), "host".to_string()))
}

#[test]
fn channel_message_from_a_user_becomes_a_reply_command() {
    let cmd = classify(channel_message(user("alice"), "!w 94040"));
    match cmd {
        Command::Reply { requester, channel, text } => {
            assert_eq!(requester, "alice");
            assert_eq!(channel, "#weather");
            assert_eq!(text, "!w 94040");
        }
        Command::Ignored => panic!("expected a reply command"),
    }
}

#[test]
fn events_without_a_user_origin_are_ignored() {
    assert!(matches!(classify(RelayEvent::Other), Command::Ignored));
    assert!(matches!(classify(channel_message(None, "!w 94040")), Command::Ignored));
    let server = Some(SenderPrefix::ServerName("irc.example.net".to_string()));
    assert!(matches!(classify(channel_message(server, "!w 94040")), Command::Ignored));
}

#[test]
fn end_to_end_zip_command_to_chunked_reply() {
    let mut mem = UserLocationMemory::new();
    let job = plan_reply(channel_message(user("alice"), "!w 94040"), &mut mem)
        .expect("a resolvable command plans a job");
    assert_eq!(job.requester, "alice");
    assert_eq!(job.channel, "#weather");
    assert_eq!(job.query, "94040,+USA");

    // a mock rendered forecast, long enough to need three messages
    let rendered = "Mountain View: Conditions: clear. ".repeat(30);
    let chunks = build_success_reply(&job.requester, &rendered);
    let full = format!("alice's weather: {}", rendered);
    assert!(chunks[0].starts_with("alice's weather: "));
    assert_eq!(chunks.concat(), full);
    assert!(chunks.iter().all(|c| c.chars().count() <= 400));
    assert!(chunks.len() == (full.chars().count() + 399) / 400);
}

#[test]
fn ignored_and_unresolvable_events_plan_nothing() {
    let mut mem = UserLocationMemory::new();
    assert!(plan_reply(RelayEvent::Other, &mut mem).is_none());
    assert!(plan_reply(channel_message(user("alice"), "just chatting"), &mut mem).is_none());
    // the bare trigger with nothing stored resolves to nothing
    assert!(plan_reply(channel_message(user("alice"), "!w"), &mut mem).is_none());
}

#[test]
fn planning_updates_the_requesters_memory() {
    let mut mem = UserLocationMemory::new();
    plan_reply(channel_message(user("alice"), "!w 94040"), &mut mem).unwrap();
    let job = plan_reply(channel_message(user("alice"), "!w"), &mut mem)
        .expect("the stored query is repeated");
    assert_eq!(job.query, "94040,+USA");
}

#[test]
fn failed_fetch_reports_query_and_cause() {
    let msg = build_error_reply("94040,+USA", "connection refused");
    assert_eq!(
        msg,
        "Error: Could not get weather data for 94040,+USA. connection refused"
    );
}
