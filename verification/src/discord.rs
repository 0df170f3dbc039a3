//! The bridge itself: its configuration store, its write-once transport
//! handle, its FIFO relay queue, and the lifecycle that ties them
//! together — credential check, handshake, then delivery.

use vstd::prelude::*;
use crate::format::{message_vars, render_chat_message, rendered};
use crate::minecraft::{spec_route, Config};
use crate::text::{token_is_rejected, token_rejected};

verus! {

/// Why the bridge refused to start or to deliver one message.
#[derive(Debug)]
pub enum DiscordError {
    /// The transport layer failed; its description is kept.
    Serenity(String),
    /// The message template could not be rendered; the message was
    /// dropped, never sent garbled.
    Format(String),
    /// The configured credential token is blank or still the
    /// placeholder, so the bridge must not start.
    DefaultToken,
}

/// The part of a player identity that the relay reads: the stable
/// unique id in string form, and the display name.
pub struct PlayerProfile {
    pub uuid: String,
    pub name: String,
}

/// One outbound request: a message a player sent, queued for delivery
/// to a channel of the chat platform.
pub struct SendMessageInfo {
    pub player: PlayerProfile,
    pub channel: u64,
    pub message: String,
}

impl SendMessageInfo {
    pub fn new(player: PlayerProfile, channel: u64, message: String) -> (r: SendMessageInfo)
        ensures
            r == (SendMessageInfo { player, channel, message }),
    {
        SendMessageInfo { player, channel, message }
    }
}

/// The opaque send capability one live connection grants after its
/// handshake; the relay never looks inside it.
pub struct TransportHandle {
    pub connection: u64,
}

/// What one delivery hands to the transport: the destination channel
/// and the fully rendered content.
pub struct OutboundSend {
    pub channel: u64,
    pub content: String,
}

/// The FIFO hand-off buffer between chat-event producers and the single
/// delivery consumer: enqueue returns at once, and requests leave in
/// exactly the order they entered.
pub struct RelayQueue {
    items: Vec<SendMessageInfo>,
}

impl View for RelayQueue {
    type V = Seq<SendMessageInfo>;

    closed spec fn view(&self) -> Seq<SendMessageInfo> {
        self.items@
    }
}

impl RelayQueue {
    pub fn new() -> (q: RelayQueue)
        ensures
            q@ == Seq::<SendMessageInfo>::empty(),
    {
        RelayQueue { items: Vec::new() }
    }

    pub fn len(&self) -> (n: usize)
        ensures
            n == self@.len(),
    {
        self.items.len()
    }

    /// Producer side: append and return immediately.
    pub fn enqueue(&mut self, m: SendMessageInfo)
        ensures
            final(self)@ == old(self)@.push(m),
    {
        self.items.push(m);
    }

    /// Consumer side: take the oldest request, if any.
    pub fn dequeue(&mut self) -> (r: Option<SendMessageInfo>)
        ensures
            old(self)@.len() == 0 ==> r is None && final(self)@ == old(self)@,
            old(self)@.len() > 0 ==> r == Some(old(self)@[0]) && final(self)@ == old(
                self,
            )@.drop_first(),
    {
        if self.items.len() == 0 {
            None
        } else {
            let m = self.items.remove(0);
            proof {
                assert(self.items@ =~= old(self).items@.drop_first());
            }
            Some(m)
        }
    }
}

/// Holds the configuration snapshot that every relay operation reads.
/// `swap` replaces the visible snapshot wholesale — never field by
/// field — and a snapshot already loaded stays the value it was.
pub struct ConfigStore {
    current: Config,
}

impl ConfigStore {
    /// The snapshot currently visible to readers.
    pub closed spec fn snapshot(self) -> Config {
        self.current
    }

    /// What a swap does: the new snapshot becomes visible entire.
    pub open spec fn swap_post(pre: ConfigStore, post: ConfigStore, new_config: Config) -> bool {
        post.snapshot() == new_config
    }

    pub fn new(c: Config) -> (s: ConfigStore)
        ensures
            s.snapshot() == c,
    {
        ConfigStore { current: c }
    }

    /// Read the current snapshot.
    pub fn load(&self) -> (c: &Config)
        ensures
            *c == self.snapshot(),
    {
        &self.current
    }

    /// Replace the visible snapshot wholesale.
    pub fn swap(&mut self, new_config: Config)
        ensures
            ConfigStore::swap_post(*old(self), *final(self), new_config),
    {
        self.current = new_config;
    }
}

/// The lifecycle of one bridge instance. The credential check runs
/// inside [`DiscordState::init`], which either refuses to construct any
/// state or hands one back already handshaking; `Ready` is the only
/// usable phase and `Failed` is terminal.
pub enum LifecyclePhase {
    Handshaking,
    Ready,
    Failed,
}

/// What the bridge decided to do with one chat event.
pub enum RelayOutcome {
    /// The event was cancelled upstream; nothing may be enqueued.
    Cancelled,
    /// No channel is mapped for the global chat scope; the event is
    /// dropped with a warning.
    Unrouted,
    /// The mapped channel is the sentinel `0`, meaning not configured;
    /// the event is dropped with a warning.
    Unconfigured,
    /// One request was enqueued for the given channel.
    Enqueued(u64),
}

/// The channel the global chat scope routes to under a snapshot.
pub open spec fn chat_route(c: Config) -> Option<u64> {
    spec_route(c.discord.chat_channels@, "global"@)
}

/// The outcome `send_message` owes: the rendered content for the
/// destination channel, or a format error and no send at all.
pub open spec fn send_result(
    c: Config,
    uuid: Seq<char>,
    name: Seq<char>,
    text: Seq<char>,
    channel: u64,
    r: Result<OutboundSend, DiscordError>,
) -> bool {
    match rendered(c.discord.chat_format@, message_vars(uuid, name, text)) {
        Some(content) => r matches Ok(o) && o.channel == channel && o.content@ == content,
        None => r matches Err(e) && e is Format,
    }
}

/// State for the bridge: the live configuration store, the write-once
/// transport cell, the relay queue, and the lifecycle phase.
pub struct DiscordState {
    pub config: ConfigStore,
    pub transport: Option<TransportHandle>,
    pub queue: RelayQueue,
    pub phase: LifecyclePhase,
}

impl DiscordState {
    /// The bridge invariant: the transport cell is written exactly when
    /// the lifecycle has reached `Ready`, and the snapshot is well
    /// formed.
    pub open spec fn wf(self) -> bool {
        &&& (self.phase is Ready <==> self.transport is Some)
        &&& self.config.snapshot().wf()
    }

    /// Startup accepts a configuration exactly when its token is
    /// neither blank nor the placeholder.
    pub open spec fn init_accepts(c: Config) -> bool {
        !token_rejected(c.discord.token@)
    }

    /// Requests can be consumed only once the lifecycle is `Ready`.
    pub open spec fn can_dequeue(self) -> bool {
        self.phase is Ready
    }

    /// What completing the handshake does: a grant publishes the
    /// transport handle — the single write of the write-once cell — and
    /// reaches `Ready`; a refusal reaches terminal `Failed` and
    /// publishes nothing. The store and the queue are untouched.
    pub open spec fn handshake_post(
        pre: DiscordState,
        post: DiscordState,
        outcome: Result<TransportHandle, String>,
        r: Result<(), DiscordError>,
    ) -> bool {
        &&& post.config == pre.config
        &&& post.queue == pre.queue
        &&& match outcome {
            Ok(h) => post.phase is Ready && post.transport == Some(h) && r is Ok,
            Err(msg) => post.phase is Failed && post.transport is None && r == Err::<
                (),
                DiscordError,
            >(DiscordError::Serenity(msg)),
        }
    }

    /// Startup: check the credential, then construct the bridge with an
    /// empty queue and an unset transport cell, already handshaking. A
    /// blank or placeholder token yields the terminal failure instead,
    /// and no state — no queue, no consumer — is ever built.
    pub fn init(config: Config) -> (r: Result<DiscordState, DiscordError>)
        requires
            config.wf(),
        ensures
            match r {
                Ok(s) => Self::init_accepts(config) && s.wf() && s.phase is Handshaking
                    && s.transport is None && s.queue@ == Seq::<SendMessageInfo>::empty()
                    && s.config.snapshot() == config,
                Err(e) => !Self::init_accepts(config) && e is DefaultToken,
            },
    {
        if token_is_rejected(config.discord.token.as_str()) {
            return Err(DiscordError::DefaultToken);
        }
        Ok(
            DiscordState {
                config: ConfigStore::new(config),
                transport: None,
                queue: RelayQueue::new(),
                phase: LifecyclePhase::Handshaking,
            },
        )
    }

    /// Apply the handshake outcome: `Handshaking → Ready` with the
    /// granted transport handle published once, or `Handshaking →
    /// Failed` with the transport error reported and nothing published.
    pub fn complete_handshake(&mut self, outcome: Result<TransportHandle, String>) -> (r: Result<
        (),
        DiscordError,
    >)
        requires
            old(self).wf(),
            old(self).phase is Handshaking,
        ensures
            final(self).wf(),
            Self::handshake_post(*old(self), *final(self), outcome, r),
    {
        match outcome {
            Ok(h) => {
                self.transport = Some(h);
                self.phase = LifecyclePhase::Ready;
                Ok(())
            },
            Err(msg) => {
                self.phase = LifecyclePhase::Failed;
                Err(DiscordError::Serenity(msg))
            },
        }
    }

    /// Producer path, one chat event: a cancelled event enqueues
    /// nothing; an unrouted or sentinel-routed scope drops the event;
    /// otherwise exactly one request joins the queue. The producer
    /// never waits on delivery.
    pub fn handle_chat_event(&mut self, cancelled: bool, player: PlayerProfile, message: String)
        -> (r: RelayOutcome)
        requires
            old(self).wf(),
        ensures
            final(self).wf(),
            final(self).config == old(self).config,
            final(self).transport == old(self).transport,
            final(self).phase == old(self).phase,
            ({
                let route = chat_route(old(self).config.snapshot());
                if cancelled {
                    r is Cancelled && final(self).queue@ == old(self).queue@
                } else {
                    match route {
                        None => r is Unrouted && final(self).queue@ == old(self).queue@,
                        Some(ch) => if ch == 0 {
                            r is Unconfigured && final(self).queue@ == old(self).queue@
                        } else {
                            r == RelayOutcome::Enqueued(ch) && final(self).queue@ == old(
                                self,
                            ).queue@.push((SendMessageInfo { player, channel: ch, message }))
                        },
                    }
                }
            }),
    {
        if cancelled {
            return RelayOutcome::Cancelled;
        }
        let route = self.config.load().discord.chat_channels.get("global");
        match route {
            None => RelayOutcome::Unrouted,
            Some(ch) => {
                if ch == 0 {
                    RelayOutcome::Unconfigured
                } else {
                    self.queue.enqueue(SendMessageInfo::new(player, ch, message));
                    RelayOutcome::Enqueued(ch)
                }
            },
        }
    }

    /// Render the live template for one message and produce the send
    /// for the transport: exactly one send per call, or none — and a
    /// format error — when rendering fails. Callable only once the
    /// transport handle is set.
    pub fn send_message(&self, player: PlayerProfile, channel: u64, message: String) -> (r: Result<
        OutboundSend,
        DiscordError,
    >)
        requires
            self.wf(),
            self.transport is Some,
        ensures
            send_result(self.config.snapshot(), player.uuid@, player.name@, message@, channel, r),
    {
        let c = self.config.load();
        match render_chat_message(
            c.discord.chat_format.as_str(),
            player.uuid.as_str(),
            player.name.as_str(),
            message.as_str(),
        ) {
            Ok(content) => Ok(OutboundSend { channel, content }),
            Err(e) => Err(DiscordError::Format(e)),
        }
    }

    /// One consumer step: take the oldest request and attempt its
    /// delivery under the live snapshot. The request is consumed
    /// whatever the outcome, so one failure never stalls the queue.
    pub fn process_next(&mut self) -> (r: Option<Result<OutboundSend, DiscordError>>)
        requires
            old(self).wf(),
            old(self).can_dequeue(),
        ensures
            final(self).wf(),
            final(self).config == old(self).config,
            final(self).transport == old(self).transport,
            final(self).phase == old(self).phase,
            old(self).queue@.len() == 0 ==> r is None && final(self).queue@ == old(self).queue@,
            old(self).queue@.len() > 0 ==> {
                &&& final(self).queue@ == old(self).queue@.drop_first()
                &&& r matches Some(res) && send_result(
                    old(self).config.snapshot(),
                    old(self).queue@[0].player.uuid@,
                    old(self).queue@[0].player.name@,
                    old(self).queue@[0].message@,
                    old(self).queue@[0].channel,
                    res,
                )
            },
    {
        match self.queue.dequeue() {
            None => None,
            Some(m) => Some(self.send_message(m.player, m.channel, m.message)),
        }
    }

    /// The consumer loop over everything queued so far: every request
    /// is attempted exactly once, in enqueue order, and a failed
    /// delivery never stops the loop — the outcome at each position is
    /// the one its own request and the live snapshot determine.
    pub fn drain(&mut self) -> (results: Vec<Result<OutboundSend, DiscordError>>)
        requires
            old(self).wf(),
            old(self).can_dequeue(),
        ensures
            final(self).wf(),
            final(self).config == old(self).config,
            final(self).transport == old(self).transport,
            final(self).phase == old(self).phase,
            final(self).queue@ == Seq::<SendMessageInfo>::empty(),
            results@.len() == old(self).queue@.len(),
            forall|i: int|
                0 <= i < results@.len() ==> send_result(
                    old(self).config.snapshot(),
                    old(self).queue@[i].player.uuid@,
                    old(self).queue@[i].player.name@,
                    old(self).queue@[i].message@,
                    old(self).queue@[i].channel,
                    results@[i],
                ),
    {
        let mut results: Vec<Result<OutboundSend, DiscordError>> = Vec::new();
        proof {
            assert(old(self).queue@.skip(0) =~= old(self).queue@);
        }
        while self.queue.len() != 0
            invariant
                self.wf(),
                self.config == old(self).config,
                self.transport == old(self).transport,
                self.phase == old(self).phase,
                self.phase is Ready,
                results@.len() + self.queue@.len() == old(self).queue@.len(),
                self.queue@ == old(self).queue@.skip(results@.len() as int),
                forall|i: int|
                    0 <= i < results@.len() ==> send_result(
                        old(self).config.snapshot(),
                        old(self).queue@[i].player.uuid@,
                        old(self).queue@[i].player.name@,
                        old(self).queue@[i].message@,
                        old(self).queue@[i].channel,
                        results@[i],
                    ),
            decreases self.queue@.len(),
        {
            let ghost done = results@.len() as int;
            proof {
                assert(self.queue@[0] == old(self).queue@[done]);
                assert(self.queue@.drop_first() =~= old(self).queue@.skip(done + 1));
            }
            match self.process_next() {
                Some(res) => {
                    results.push(res);
                },
                None => {
                    proof {
                        assert(false);
                    }
                },
            }
        }
        results
    }
}

} // verus!
