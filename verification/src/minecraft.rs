//! The configuration that the bridge reads: the bot credential token,
//! the message template, and the routing table from chat scope to
//! channel identifier.

use vstd::prelude::*;
use crate::text::str_eq;

verus! {

/// The channel a scope routes to: the first entry whose key equals the
/// scope, if any.
pub open spec fn spec_route(entries: Seq<(String, u64)>, scope: Seq<char>) -> Option<u64>
    decreases entries.len(),
{
    if entries.len() == 0 {
        None
    } else if entries[0].0@ == scope {
        Some(entries[0].1)
    } else {
        spec_route(entries.drop_first(), scope)
    }
}

/// A scope routes to nothing exactly when no entry carries its key.
pub proof fn lemma_route_none(entries: Seq<(String, u64)>, scope: Seq<char>)
    ensures
        spec_route(entries, scope) is None <==> (forall|i: int|
            0 <= i < entries.len() ==> entries[i].0@ != scope),
    decreases entries.len(),
{
    if entries.len() > 0 {
        let rest = entries.drop_first();
        lemma_route_none(rest, scope);
        assert(forall|i: int| 0 <= i < rest.len() ==> rest[i] == entries[i + 1]);
        if spec_route(entries, scope) is None {
            assert forall|i: int| 0 <= i < entries.len() implies entries[i].0@ != scope by {
                if i > 0 {
                    assert(entries[i] == rest[i - 1]);
                }
            }
        }
        if forall|i: int| 0 <= i < entries.len() ==> entries[i].0@ != scope {
            assert forall|i: int| 0 <= i < rest.len() implies rest[i].0@ != scope by {
                assert(rest[i] == entries[i + 1]);
            }
            assert(entries[0].0@ != scope);
        }
    }
}

/// The routing table: chat-scope names mapped to numeric channel
/// identifiers, keys unique.
pub struct ChannelTable {
    entries: Vec<(String, u64)>,
}

impl View for ChannelTable {
    type V = Seq<(String, u64)>;

    closed spec fn view(&self) -> Seq<(String, u64)> {
        self.entries@
    }
}

impl ChannelTable {
    /// Keys are unique: no two entries name the same scope.
    pub open spec fn wf(self) -> bool {
        forall|i: int, j: int| 0 <= i < j < self@.len() ==> self@[i].0@ != self@[j].0@
    }

    /// An empty table: every scope is unrouted.
    pub fn new() -> (t: ChannelTable)
        ensures
            t@ == Seq::<(String, u64)>::empty(),
            t.wf(),
    {
        ChannelTable { entries: Vec::new() }
    }

    pub fn len(&self) -> (n: usize)
        ensures
            n == self@.len(),
    {
        self.entries.len()
    }

    /// Look the scope up; `None` when no entry names it.
    pub fn get(&self, scope: &str) -> (r: Option<u64>)
        ensures
            r == spec_route(self@, scope@),
    {
        let n = self.entries.len();
        proof {
            assert(self@.skip(0) =~= self@);
        }
        let mut i: usize = 0;
        while i < n
            invariant
                n == self@.len(),
                i <= n,
                spec_route(self@, scope@) == spec_route(self@.skip(i as int), scope@),
            decreases n - i,
        {
            let hit = str_eq(self.entries[i].0.as_str(), scope);
            proof {
                assert(self@.skip(i as int)[0] == self@[i as int]);
            }
            if hit {
                return Some(self.entries[i].1);
            }
            proof {
                assert(self@.skip(i as int).drop_first() =~= self@.skip(i as int + 1));
            }
            i += 1;
        }
        proof {
            assert(self@.skip(n as int).len() == 0);
        }
        None
    }

    /// Add a route for a scope that has none yet.
    pub fn add_channel(&mut self, scope: String, channel: u64)
        requires
            old(self).wf(),
            spec_route(old(self)@, scope@) is None,
        ensures
            final(self)@ == old(self)@.push((scope, channel)),
            final(self).wf(),
    {
        proof {
            lemma_route_none(old(self)@, scope@);
        }
        self.entries.push((scope, channel));
    }
}

/// Credentials for an external data store; the bridge itself never reads
/// it beyond carrying it in the snapshot.
pub struct LibSQL {
    pub remote: bool,
    pub token: String,
}

/// The chat-platform side of the configuration.
pub struct DiscordConfig {
    /// The bot credential token; a blank or placeholder token forbids startup.
    pub token: String,
    /// The message template, with named placeholders such as `{name}`.
    pub chat_format: String,
    /// The routing table from chat scope to channel identifier.
    pub chat_channels: ChannelTable,
}

/// One immutable configuration snapshot, replaced wholesale on reload.
pub struct Config {
    pub discord: DiscordConfig,
    pub lib_sql: LibSQL,
}

impl Config {
    /// A snapshot is well formed when its routing table is.
    pub open spec fn wf(self) -> bool {
        self.discord.chat_channels.wf()
    }
}

} // verus!
