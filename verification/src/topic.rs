use vstd::prelude::*;

use crate::dto::DataConnectionResponse;
use crate::entity::DataConnectionId;

verus! {

/// The topic-naming rule: every `-` of a connection or data identifier
/// becomes `_`, because the topic transport does not allow `-`.
pub open spec fn spec_topic_name(s: Seq<char>) -> Seq<char> {
    s.map(|i: int, c: char| if c == '-' { '_' } else { c })
}

/// Topic-name derivation is pure and total, and its result never
/// contains a `-`, whatever identifier it is applied to.
pub proof fn lemma_topic_name_has_no_dash(s: Seq<char>)
    ensures
        spec_topic_name(s).len() == s.len(),
        forall|i: int| 0 <= i < spec_topic_name(s).len() ==> spec_topic_name(s)[i] != '-',
{
    assert forall|i: int| 0 <= i < spec_topic_name(s).len() implies spec_topic_name(s)[i]
        != '-' by {
        assert(spec_topic_name(s)[i] == (if s[i] == '-' {
            '_'
        } else {
            s[i]
        }));
    }
}

/// Derives the topic name of an identifier per the naming rule.
pub fn topic_name_from(id: &str) -> (r: String)
    ensures
        r@ == spec_topic_name(id@),
{
    let n = id.unicode_len();
    let mut r = String::new();
    let mut i: usize = 0;
    while i < n
        invariant
            n == id@.len(),
            i <= n,
            r@ == spec_topic_name(id@).take(i as int),
        decreases n - i,
    {
        let c = id.get_char(i);
        if c == '-' {
            r.append("_");
            proof {
                reveal_strlit("_");
                assert(r@ =~= spec_topic_name(id@).take(i + 1));
            }
        } else {
            r.append(id.substring_char(i, i + 1));
            proof {
                assert(id@.subrange(i as int, i + 1) =~= seq![id@[i as int]]);
                assert(r@ =~= spec_topic_name(id@).take(i + 1));
            }
        }
        i = i + 1;
    }
    proof {
        assert(spec_topic_name(id@).take(n as int) =~= spec_topic_name(id@));
    }
    r
}

/// First-match lookup of a connection id in a row of registry entries.
pub open spec fn spec_lookup(s: Seq<DataConnectionResponse>, key: Seq<char>) -> Option<
    DataConnectionResponse,
>
    decreases s.len(),
{
    if s.len() == 0 {
        None
    } else if s[0].data_connection_id@ == key {
        Some(s[0])
    } else {
        spec_lookup(s.subrange(1, s.len() as int), key)
    }
}

/// Appending an entry changes only the lookup of its own key, and that
/// only where the key was absent.
pub proof fn lemma_lookup_push(
    s: Seq<DataConnectionResponse>,
    x: DataConnectionResponse,
    key: Seq<char>,
)
    ensures
        spec_lookup(s.push(x), key) == (if spec_lookup(s, key) is Some {
            spec_lookup(s, key)
        } else if x.data_connection_id@ == key {
            Some(x)
        } else {
            None::<DataConnectionResponse>
        }),
    decreases s.len(),
{
    if s.len() == 0 {
        assert(s.push(x)[0] == x);
        assert(s.push(x).subrange(1, 1) =~= Seq::<DataConnectionResponse>::empty());
        assert(spec_lookup(s.push(x).subrange(1, 1), key) is None);
    } else {
        let tail = s.subrange(1, s.len() as int);
        assert(s.push(x)[0] == s[0]);
        assert(s.push(x).subrange(1, (s.len() + 1) as int) =~= tail.push(x));
        lemma_lookup_push(tail, x, key);
        assert(spec_lookup(s.push(x), key) == (if s[0].data_connection_id@ == key {
            Some(s.push(x)[0])
        } else {
            spec_lookup(tail.push(x), key)
        }));
        assert(spec_lookup(s, key) == (if s[0].data_connection_id@ == key {
            Some(s[0])
        } else {
            spec_lookup(tail, key)
        }));
    }
}

/// A match found within a prefix is the match of the whole row.
pub proof fn lemma_lookup_take_extends(s: Seq<DataConnectionResponse>, j: int, key: Seq<char>)
    requires
        0 <= j <= s.len(),
        spec_lookup(s.take(j), key) is Some,
    ensures
        spec_lookup(s, key) == spec_lookup(s.take(j), key),
    decreases j,
{
    assert(j > 0);
    assert(s.take(j)[0] == s[0]);
    if s[0].data_connection_id@ == key {
    } else {
        assert(s.take(j).subrange(1, j) =~= s.subrange(1, s.len() as int).take(j - 1));
        lemma_lookup_take_extends(s.subrange(1, s.len() as int), j - 1, key);
    }
}

/// The shared store that binds each redirected data connection to its
/// topic/address/port forwarding configuration. An entry is written when
/// a redirect commits and removed when the connection's CLOSE event is
/// processed.
pub struct TopicRegistry {
    entries: Vec<DataConnectionResponse>,
}

impl TopicRegistry {
    /// The row of entries, oldest first.
    pub closed spec fn entries_view(self) -> Seq<DataConnectionResponse> {
        self.entries@
    }

    /// The entry registered for `key`, if any.
    pub open spec fn lookup(self, key: Seq<char>) -> Option<DataConnectionResponse> {
        spec_lookup(self.entries_view(), key)
    }

    /// An empty registry: no connection id has an entry.
    pub fn new() -> (r: TopicRegistry)
        ensures
            forall|k: Seq<char>| r.lookup(k) is None,
    {
        let r = TopicRegistry { entries: Vec::new() };
        proof {
            assert(forall|k: Seq<char>| r.lookup(k) is None);
        }
        r
    }

    /// Registers `entry` under its connection id, replacing any entry
    /// that id had; every other id keeps its binding.
    pub fn store_topic(&mut self, entry: DataConnectionResponse)
        ensures
            final(self).lookup(entry.data_connection_id@) == Some(entry),
            forall|k: Seq<char>|
                k != entry.data_connection_id@ ==> final(self).lookup(k) == old(self).lookup(k),
    {
        self.remove_topic(&entry.data_connection_id);
        proof {
            lemma_lookup_push(self.entries@, entry, entry.data_connection_id@);
            assert forall|k: Seq<char>| k != entry.data_connection_id@ implies spec_lookup(
                self.entries@.push(entry),
                k,
            ) == spec_lookup(self.entries@, k) by {
                lemma_lookup_push(self.entries@, entry, k);
            }
        }
        self.entries.push(entry);
    }

    /// The entry registered for `key`, if any.
    pub fn find_topic(&self, key: &DataConnectionId) -> (r: Option<&DataConnectionResponse>)
        ensures
            (match self.lookup(key@) {
                Some(e) => r matches Some(x) && *x == e,
                None => r is None,
            }),
    {
        let n = self.entries.len();
        let mut i: usize = 0;
        while i < n
            invariant
                n == self.entries@.len(),
                i <= n,
                spec_lookup(self.entries@.take(i as int), key@) is None,
            decreases n - i,
        {
            proof {
                assert(self.entries@.take(i + 1) =~= self.entries@.take(i as int).push(
                    self.entries@[i as int],
                ));
                lemma_lookup_push(self.entries@.take(i as int), self.entries@[i as int], key@);
            }
            if self.entries[i].data_connection_id.id == key.id {
                proof {
                    lemma_lookup_take_extends(self.entries@, i + 1, key@);
                }
                return Some(&self.entries[i]);
            }
            i = i + 1;
        }
        proof {
            assert(self.entries@.take(n as int) =~= self.entries@);
        }
        None
    }

    /// Removes the entry of `key`; removing an absent key changes
    /// nothing. Every other id keeps its binding.
    pub fn remove_topic(&mut self, key: &DataConnectionId)
        ensures
            final(self).lookup(key@) is None,
            forall|k: Seq<char>| k != key@ ==> final(self).lookup(k) == old(self).lookup(k),
    {
        let n = self.entries.len();
        let mut kept: Vec<DataConnectionResponse> = Vec::new();
        let mut i: usize = 0;
        while i < n
            invariant
                n == self.entries@.len(),
                i <= n,
                spec_lookup(kept@, key@) is None,
                forall|k: Seq<char>|
                    k != key@ ==> spec_lookup(kept@, k) == spec_lookup(
                        self.entries@.take(i as int),
                        k,
                    ),
            decreases n - i,
        {
            let ghost prev = kept@;
            let e = &self.entries[i];
            if !(e.data_connection_id.id == key.id) {
                kept.push(e.duplicate());
            }
            proof {
                let x = self.entries@[i as int];
                assert(self.entries@.take(i + 1) =~= self.entries@.take(i as int).push(x));
                lemma_lookup_push(prev, x, key@);
                assert forall|k: Seq<char>| k != key@ implies spec_lookup(kept@, k) == spec_lookup(
                    self.entries@.take(i + 1),
                    k,
                ) by {
                    lemma_lookup_push(prev, x, k);
                    lemma_lookup_push(self.entries@.take(i as int), x, k);
                }
            }
            i = i + 1;
        }
        proof {
            assert(self.entries@.take(n as int) =~= self.entries@);
        }
        self.entries = kept;
    }
}

/// One step of the registry's life: a redirect that completed
/// successfully writes its entry; a processed CLOSE event (or an
/// explicit disconnect) removes the entry of its connection id.
pub enum RegistryAction {
    Commit(DataConnectionResponse),
    Close(Seq<char>),
}

/// What a registry that started empty holds for `c` after a history of
/// commits and closes: the entry of the last commit for `c` not
/// followed by a close for `c`.
pub open spec fn spec_lookup_after(h: Seq<RegistryAction>, c: Seq<char>) -> Option<
    DataConnectionResponse,
>
    decreases h.len(),
{
    if h.len() == 0 {
        None
    } else {
        match h.last() {
            RegistryAction::Commit(e) => if e.data_connection_id@ == c {
                Some(e)
            } else {
                spec_lookup_after(h.drop_last(), c)
            },
            RegistryAction::Close(k) => if k == c {
                None
            } else {
                spec_lookup_after(h.drop_last(), c)
            },
        }
    }
}

/// Whether a redirect for `c` has completed and no close for `c` has
/// been processed since.
pub open spec fn spec_redirected_and_not_closed(h: Seq<RegistryAction>, c: Seq<char>) -> bool
    decreases h.len(),
{
    if h.len() == 0 {
        false
    } else {
        match h.last() {
            RegistryAction::Commit(e) => e.data_connection_id@ == c
                || spec_redirected_and_not_closed(h.drop_last(), c),
            RegistryAction::Close(k) => k != c && spec_redirected_and_not_closed(
                h.drop_last(),
                c,
            ),
        }
    }
}

/// The registry invariant: for every connection id `c` and every
/// history of committed redirects and processed closes, a registry
/// entry for `c` exists if and only if a redirect for `c` completed
/// successfully and no close for `c` has since been processed.
pub proof fn lemma_registry_invariant(h: Seq<RegistryAction>, c: Seq<char>)
    ensures
        spec_lookup_after(h, c) is Some <==> spec_redirected_and_not_closed(h, c),
    decreases h.len(),
{
    if h.len() > 0 {
        lemma_registry_invariant(h.drop_last(), c);
    }
}

/// `store_topic` is the history's commit step: a registry that holds
/// exactly what a history yields keeps doing so when a completed
/// redirect stores its entry.
pub proof fn lemma_store_extends_history(
    pre: TopicRegistry,
    post: TopicRegistry,
    h: Seq<RegistryAction>,
    entry: DataConnectionResponse,
)
    requires
        forall|k: Seq<char>| pre.lookup(k) == spec_lookup_after(h, k),
        post.lookup(entry.data_connection_id@) == Some(entry),
        forall|k: Seq<char>|
            k != entry.data_connection_id@ ==> post.lookup(k) == pre.lookup(k),
    ensures
        forall|k: Seq<char>|
            post.lookup(k) == spec_lookup_after(h.push(RegistryAction::Commit(entry)), k),
{
    let h2 = h.push(RegistryAction::Commit(entry));
    assert(h2.drop_last() =~= h);
    assert(h2.last() == RegistryAction::Commit(entry));
    assert forall|k: Seq<char>| post.lookup(k) == spec_lookup_after(h2, k) by {
        if k != entry.data_connection_id@ {
            assert(post.lookup(k) == pre.lookup(k));
        }
    }
}

/// `remove_topic` is the history's close step: a registry that holds
/// exactly what a history yields keeps doing so when a CLOSE event
/// removes an entry.
pub proof fn lemma_close_extends_history(
    pre: TopicRegistry,
    post: TopicRegistry,
    h: Seq<RegistryAction>,
    c: Seq<char>,
)
    requires
        forall|k: Seq<char>| pre.lookup(k) == spec_lookup_after(h, k),
        post.lookup(c) is None,
        forall|k: Seq<char>| k != c ==> post.lookup(k) == pre.lookup(k),
    ensures
        forall|k: Seq<char>|
            post.lookup(k) == spec_lookup_after(h.push(RegistryAction::Close(c)), k),
{
    let h2 = h.push(RegistryAction::Close(c));
    assert(h2.drop_last() =~= h);
    assert(h2.last() == RegistryAction::Close(c));
    assert forall|k: Seq<char>| post.lookup(k) == spec_lookup_after(h2, k) by {
        if k != c {
            assert(post.lookup(k) == pre.lookup(k));
        }
    }
}

/// Closing the same connection twice is, the second time, a no-op: the
/// registry after the second close holds exactly what it held after the
/// first. (Each close still asks for the host's delete notification;
/// that is stated by the close reaction itself.)
pub proof fn lemma_close_idempotent(
    r0: TopicRegistry,
    r1: TopicRegistry,
    r2: TopicRegistry,
    c: Seq<char>,
)
    requires
        r1.lookup(c) is None,
        forall|k: Seq<char>| k != c ==> r1.lookup(k) == r0.lookup(k),
        r2.lookup(c) is None,
        forall|k: Seq<char>| k != c ==> r2.lookup(k) == r1.lookup(k),
    ensures
        forall|k: Seq<char>| r2.lookup(k) == r1.lookup(k),
{
    assert forall|k: Seq<char>| r2.lookup(k) == r1.lookup(k) by {
        if k == c {
            assert(r2.lookup(k) is None && r1.lookup(k) is None);
        }
    }
}

} // verus!
