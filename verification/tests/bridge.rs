use discord_spice::discord::{
    DiscordError, DiscordState, LifecyclePhase, PlayerProfile, RelayOutcome, RelayQueue,
    SendMessageInfo, TransportHandle,
};
use discord_spice::minecraft::{ChannelTable, Config, DiscordConfig, LibSQL};

fn config_with(token: &str, template: &str, routes: &[(&str, u64)]) -> Config {
    let mut table = ChannelTable::new();
    for (scope, channel) in routes {
        table.add_channel((*scope).to_owned(), *channel);
    }
    Config {
        discord: DiscordConfig {
            token: token.to_owned(),
            chat_format: template.to_owned(),
            chat_channels: table,
        },
        lib_sql: LibSQL {
            remote: false,
            token: String::new(),
        },
    }
}

fn ready_bridge(template: &str, routes: &[(&str, u64)]) -> DiscordState {
    let config = config_with("a-real-token", template, routes);
    let mut state = DiscordState::init(config).expect("startup should accept the token");
    state
        .complete_handshake(Ok(TransportHandle { connection: 1 }))
        .expect("handshake grant should succeed");
    state
}

fn alice() -> PlayerProfile {
    PlayerProfile {
        uuid: "11111111-0000-0000-0000-000000000001".to_owned(),
        name: "Alice".to_owned(),
    }
}

fn bob() -> PlayerProfile {
    PlayerProfile {
        uuid: "11111111-0000-0000-0000-000000000002".to_owned(),
        name: "Bob".to_owned(),
    }
}

#[test]
fn startup_rejects_empty_token() {
    let r = DiscordState::init(config_with("", "{message}", &[]));
    assert!(matches!(r, Err(DiscordError::DefaultToken)));
}

#[test]
fn startup_rejects_whitespace_token() {
    let r = DiscordState::init(config_with(" \t  \n ", "{message}", &[]));
    assert!(matches!(r, Err(DiscordError::DefaultToken)));
}

#[test]
fn startup_rejects_placeholder_token() {
    let r = DiscordState::init(config_with("BOT_TOKEN", "{message}", &[]));
    assert!(matches!(r, Err(DiscordError::DefaultToken)));
}

#[test]
fn startup_accepts_real_token() {
    let state = DiscordState::init(config_with("a-real-token", "{message}", &[]))
        .expect("a real token must be accepted");
    assert!(matches!(state.phase, LifecyclePhase::Handshaking));
    assert!(state.transport.is_none());
    assert_eq!(state.queue.len(), 0);
}

#[test]
fn handshake_grant_reaches_ready() {
    let mut state =
        DiscordState::init(config_with("a-real-token", "{message}", &[])).expect("accepted");
    let r = state.complete_handshake(Ok(TransportHandle { connection: 9 }));
    assert!(r.is_ok());
    assert!(matches!(state.phase, LifecyclePhase::Ready));
    assert!(matches!(
        state.transport,
        Some(TransportHandle { connection: 9 })
    ));
}

#[test]
fn handshake_failure_is_terminal() {
    let mut state =
        DiscordState::init(config_with("a-real-token", "{message}", &[])).expect("accepted");
    let r = state.complete_handshake(Err("gateway unreachable".to_owned()));
    match r {
        Err(DiscordError::Serenity(msg)) => assert_eq!(msg, "gateway unreachable"),
        other => panic!("expected a transport error, got {:?}", other.is_ok()),
    }
    assert!(matches!(state.phase, LifecyclePhase::Failed));
    assert!(state.transport.is_none());
}

#[test]
fn routing_missing_scope_drops_event() {
    let mut state = ready_bridge("{message}", &[]);
    let out = state.handle_chat_event(false, alice(), "hi".to_owned());
    assert!(matches!(out, RelayOutcome::Unrouted));
    assert_eq!(state.queue.len(), 0);
}

#[test]
fn routing_sentinel_drops_event() {
    let mut state = ready_bridge("{message}", &[("global", 0)]);
    let out = state.handle_chat_event(false, alice(), "hi".to_owned());
    assert!(matches!(out, RelayOutcome::Unconfigured));
    assert_eq!(state.queue.len(), 0);
}

#[test]
fn routing_configured_enqueues_one_request() {
    let mut state = ready_bridge("{message}", &[("global", 42)]);
    let out = state.handle_chat_event(false, alice(), "hi".to_owned());
    assert!(matches!(out, RelayOutcome::Enqueued(42)));
    assert_eq!(state.queue.len(), 1);
    let delivered = state
        .process_next()
        .expect("one request is queued")
        .expect("the plain template renders");
    assert_eq!(delivered.channel, 42);
    assert_eq!(delivered.content, "hi");
}

#[test]
fn cancelled_event_enqueues_nothing() {
    let mut state = ready_bridge("{message}", &[("global", 42)]);
    let out = state.handle_chat_event(true, alice(), "hi".to_owned());
    assert!(matches!(out, RelayOutcome::Cancelled));
    assert_eq!(state.queue.len(), 0);
}

#[test]
fn consumer_drains_in_fifo_order() {
    let mut state = ready_bridge("{message}", &[("global", 5)]);
    state.handle_chat_event(false, alice(), "first".to_owned());
    state.handle_chat_event(false, bob(), "second".to_owned());
    state.handle_chat_event(false, alice(), "third".to_owned());
    let mut contents: Vec<String> = Vec::new();
    while let Some(result) = state.process_next() {
        contents.push(result.expect("the plain template renders").content);
    }
    assert_eq!(contents, vec!["first", "second", "third"]);
    assert_eq!(state.queue.len(), 0);
}

#[test]
fn failed_delivery_is_isolated() {
    let mut state = ready_bridge("{missing}", &[("global", 5)]);
    state.handle_chat_event(false, alice(), "first".to_owned());
    state.handle_chat_event(false, bob(), "second".to_owned());
    let first = state.process_next().expect("first request is queued");
    assert!(matches!(first, Err(DiscordError::Format(_))));
    let mut repaired = config_with("a-real-token", "{message}", &[("global", 5)]);
    repaired.discord.chat_channels = ChannelTable::new();
    state.config.swap(repaired);
    let second = state
        .process_next()
        .expect("the failure did not stop the consumer")
        .expect("the repaired template renders");
    assert_eq!(second.content, "second");
    assert_eq!(state.queue.len(), 0);
}

#[test]
fn hot_swap_changes_later_renders_only() {
    let mut state = ready_bridge("[{name}] {message}", &[("global", 8)]);
    state.handle_chat_event(false, alice(), "hi".to_owned());
    state.handle_chat_event(false, alice(), "yo".to_owned());
    let before = state
        .process_next()
        .expect("queued")
        .expect("template renders");
    assert_eq!(before.content, "[Alice] hi");
    state
        .config
        .swap(config_with("a-real-token", "{name}: {message}", &[("global", 8)]));
    assert_eq!(state.config.load().discord.chat_format, "{name}: {message}");
    let after = state
        .process_next()
        .expect("still queued")
        .expect("template renders");
    assert_eq!(after.content, "Alice: yo");
}

#[test]
fn relay_queue_is_fifo() {
    let mut queue = RelayQueue::new();
    assert!(queue.dequeue().is_none());
    queue.enqueue(SendMessageInfo::new(alice(), 1, "a".to_owned()));
    queue.enqueue(SendMessageInfo::new(bob(), 2, "b".to_owned()));
    let first = queue.dequeue().expect("two queued");
    let second = queue.dequeue().expect("one left");
    assert_eq!(first.message, "a");
    assert_eq!(first.channel, 1);
    assert_eq!(second.message, "b");
    assert_eq!(second.channel, 2);
    assert!(queue.dequeue().is_none());
    assert_eq!(queue.len(), 0);
}

#[test]
fn drain_attempts_every_request_in_order() {
    let mut state = ready_bridge("{message}", &[("global", 3)]);
    state.handle_chat_event(false, alice(), "one".to_owned());
    state.handle_chat_event(false, bob(), "two".to_owned());
    state.handle_chat_event(false, alice(), "three".to_owned());
    let results = state.drain();
    let contents: Vec<String> = results
        .into_iter()
        .map(|r| r.expect("the plain template renders").content)
        .collect();
    assert_eq!(contents, vec!["one", "two", "three"]);
    assert_eq!(state.queue.len(), 0);
}

#[test]
fn send_message_targets_given_channel() {
    let state = ready_bridge("{name} says {message}", &[]);
    let sent = state
        .send_message(alice(), 77, "hello there".to_owned())
        .expect("template renders");
    assert_eq!(sent.channel, 77);
    assert_eq!(sent.content, "Alice says hello there");
}
