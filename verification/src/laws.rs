//! The laws the bridge keeps, stated over the same specifications its
//! contracts use: startup refusal, the single transport write, FIFO
//! delivery order, per-message isolation, and hot-swap behaviour.

use vstd::prelude::*;
use crate::discord::{ConfigStore, DiscordError, DiscordState, SendMessageInfo, TransportHandle};
use crate::format::{message_vars, rendered};
use crate::minecraft::Config;
use crate::text::token_rejected;

verus! {

/// A configuration whose token is blank or still the placeholder never
/// starts a bridge: startup refuses it before any state, queue, or
/// consumer exists, as `DiscordState::init`'s contract demands.
pub proof fn lemma_rejected_token_never_starts(c: Config)
    requires
        token_rejected(c.discord.token@),
    ensures
        !DiscordState::init_accepts(c),
{
}

/// The transport cell is written exactly once: only handshake
/// completion writes it, it demands the `Handshaking` phase, and every
/// state it can produce has left that phase for good — so no second
/// write is ever possible.
pub proof fn lemma_transport_written_once(
    pre: DiscordState,
    post: DiscordState,
    outcome: Result<TransportHandle, String>,
    r: Result<(), DiscordError>,
)
    requires
        DiscordState::handshake_post(pre, post, outcome, r),
    ensures
        !(post.phase is Handshaking),
        outcome is Err ==> post.transport is None,
{
}

/// Nothing is dequeued before `Ready`: startup hands the bridge back
/// still handshaking, and the consumer step demands `Ready`, which only
/// a granted handshake reaches.
pub proof fn lemma_no_dequeue_before_ready(s: DiscordState)
    requires
        s.phase is Handshaking || s.phase is Failed,
    ensures
        !s.can_dequeue(),
{
}

/// The queue contents after `n` consumer steps: each step removes the
/// oldest remaining request — and nothing else — whatever its delivery
/// outcome was.
pub open spec fn queue_after(q: Seq<SendMessageInfo>, n: nat) -> Seq<SendMessageInfo>
    decreases n,
{
    if n == 0 {
        q
    } else {
        let prev = queue_after(q, (n - 1) as nat);
        if prev.len() == 0 {
            prev
        } else {
            prev.drop_first()
        }
    }
}

/// The request the consumer takes at step `n`, counting from zero.
pub open spec fn dequeued_at(q: Seq<SendMessageInfo>, n: nat) -> Option<SendMessageInfo> {
    let now = queue_after(q, n);
    if now.len() == 0 {
        None
    } else {
        Some(now[0])
    }
}

/// After `n` steps the queue is exactly the original minus its first
/// `n` requests.
pub proof fn lemma_queue_after_is_skip(q: Seq<SendMessageInfo>, n: nat)
    requires
        n <= q.len(),
    ensures
        queue_after(q, n) == q.skip(n as int),
    decreases n,
{
    if n == 0 {
        assert(q.skip(0) =~= q);
    } else {
        lemma_queue_after_is_skip(q, (n - 1) as nat);
        assert(q.skip((n - 1) as int).drop_first() =~= q.skip(n as int));
    }
}

/// FIFO: the consumer handles requests in exactly the order they were
/// enqueued — step `n` takes the `n`-th enqueued request, across all
/// producers, with no reordering and no duplication.
pub proof fn lemma_fifo(q: Seq<SendMessageInfo>, n: nat)
    requires
        n < q.len(),
    ensures
        dequeued_at(q, n) == Some(q[n as int]),
{
    lemma_queue_after_is_skip(q, n);
}

/// The delivery outcome owed for one request under one snapshot: the
/// rendered content, or nothing when the template refuses the request's
/// variables.
pub open spec fn delivery_outcome(c: Config, m: SendMessageInfo) -> Option<Seq<char>> {
    rendered(c.discord.chat_format@, message_vars(m.player.uuid@, m.player.name@, m.message@))
}

/// Isolation: the queue the consumer walks takes no notice of delivery
/// outcomes, so even if the delivery at step `k` fails, every later
/// step still occurs and still takes its own request.
pub proof fn lemma_isolation(q: Seq<SendMessageInfo>, k: nat, j: nat)
    requires
        k < j < q.len(),
    ensures
        dequeued_at(q, j) == Some(q[j as int]),
{
    lemma_fifo(q, j);
}

/// A render reads exactly one snapshot: its outcome is fixed by the
/// template of the snapshot it was handed, so two snapshots agreeing on
/// the template agree on every outcome — no render mixes fields of an
/// old and a new snapshot.
pub proof fn lemma_render_reads_one_snapshot(c1: Config, c2: Config, m: SendMessageInfo)
    requires
        c1.discord.chat_format@ == c2.discord.chat_format@,
    ensures
        delivery_outcome(c1, m) == delivery_outcome(c2, m),
{
}

/// A swap takes effect wholesale: afterwards the store's snapshot is
/// the new configuration entire, so the outcome owed for any request
/// delivered after the swap is the one the new template determines.
pub proof fn lemma_swap_takes_effect(
    pre: ConfigStore,
    post: ConfigStore,
    new_config: Config,
    m: SendMessageInfo,
)
    requires
        ConfigStore::swap_post(pre, post, new_config),
    ensures
        post.snapshot() == new_config,
        delivery_outcome(post.snapshot(), m) == delivery_outcome(new_config, m),
{
}

} // verus!
