//! The channel state store: two counters for each channel identifier.
use vstd::prelude::*;

verus! {

/// What a counter map reads at `key`: the stored value, and zero where nothing is stored.
pub open spec fn count_at(counts: Map<Seq<char>, nat>, key: Seq<char>) -> nat {
    if counts.contains_key(key) {
        counts[key]
    } else {
        0
    }
}

/// A map from channel identifiers to counters, held as a list in which no
/// identifier occurs twice.
pub struct Counters {
    entries: Vec<(String, u32)>,
}

/// Whether `entries` holds `key` at `i`.
spec fn holds_at(entries: Seq<(String, u32)>, key: Seq<char>, i: int) -> bool {
    0 <= i < entries.len() && entries[i].0@ == key
}

/// Whether no identifier occurs twice in `entries`.
spec fn distinct(entries: Seq<(String, u32)>) -> bool {
    forall|i: int, j: int|
        0 <= i < entries.len() && 0 <= j < entries.len() && i != j ==> entries[i].0@
            != entries[j].0@
}

/// The map that `entries` stands for.
spec fn as_map(entries: Seq<(String, u32)>) -> Map<Seq<char>, nat> {
    Map::new(
        |key: Seq<char>| exists|i: int| holds_at(entries, key, i),
        |key: Seq<char>| entries[choose|i: int| holds_at(entries, key, i)].1 as nat,
    )
}

/// In a list without repetitions, each entry is what the map holds at its identifier.
proof fn lemma_entry(entries: Seq<(String, u32)>, i: int)
    requires
        distinct(entries),
        0 <= i < entries.len(),
    ensures
        as_map(entries).contains_key(entries[i].0@),
        as_map(entries)[entries[i].0@] == entries[i].1 as nat,
{
    let key = entries[i].0@;
    assert(holds_at(entries, key, i));
    let j = choose|j: int| holds_at(entries, key, j);
    assert(j == i);
}

/// An identifier that occurs nowhere in the list is not in the map.
proof fn lemma_absent(entries: Seq<(String, u32)>, key: Seq<char>)
    requires
        forall|i: int| 0 <= i < entries.len() ==> entries[i].0@ != key,
    ensures
        !as_map(entries).contains_key(key),
{
    assert forall|i: int| !holds_at(entries, key, i) by {}
}

impl View for Counters {
    type V = Map<Seq<char>, nat>;

    closed spec fn view(&self) -> Map<Seq<char>, nat> {
        as_map(self.entries@)
    }
}

impl Counters {
    #[verifier::type_invariant]
    spec fn well_formed(self) -> bool {
        distinct(self.entries@)
    }

    /// A map with no counter in it.
    pub fn new() -> (counters: Self)
        ensures
            counters@ == Map::<Seq<char>, nat>::empty(),
    {
        let counters = Counters { entries: Vec::new() };
        proof {
            assert forall|key: Seq<char>| !as_map(counters.entries@).contains_key(key) by {
                lemma_absent(counters.entries@, key);
            }
            assert(counters@ =~= Map::<Seq<char>, nat>::empty());
        }
        counters
    }

    /// Where `key` stands in the list, if it does.
    fn position(&self, key: &String) -> (found: Option<usize>)
        ensures
            match found {
                Some(i) => holds_at(self.entries@, key@, i as int),
                None => forall|i: int| 0 <= i < self.entries@.len() ==> self.entries@[i].0@ != key@,
            },
    {
        let mut i: usize = 0;
        while i < self.entries.len()
            invariant
                i <= self.entries@.len(),
                forall|j: int| 0 <= j < i ==> self.entries@[j].0@ != key@,
            decreases self.entries@.len() - i,
        {
            if self.entries[i].0 == *key {
                return Some(i);
            }
            i += 1;
        }
        None
    }

    /// The counter stored for `key`, if there is one.
    pub fn may_load(&self, key: &str) -> (stored: Option<u32>)
        ensures
            match stored {
                Some(value) => self@.contains_key(key@) && self@[key@] == value as nat,
                None => !self@.contains_key(key@),
            },
    {
        proof {
            use_type_invariant(self);
        }
        let owned = key.to_owned();
        match self.position(&owned) {
            Some(i) => {
                proof {
                    lemma_entry(self.entries@, i as int);
                }
                Some(self.entries[i].1)
            },
            None => {
                proof {
                    lemma_absent(self.entries@, key@);
                }
                None
            },
        }
    }

    /// The counter of `key`, zero where none is stored.
    pub fn read(&self, key: &str) -> (value: u32)
        ensures
            value as nat == count_at(self@, key@),
    {
        match self.may_load(key) {
            Some(value) => value,
            None => 0,
        }
    }

    /// Stores `value` as the counter of `key`, in place of what was there.
    pub fn save(&mut self, key: String, value: u32)
        ensures
            final(self)@ == old(self)@.insert(key@, value as nat),
    {
        proof {
            use_type_invariant(&*self);
        }
        let found = self.position(&key);
        let mut entries: Vec<(String, u32)> = Vec::new();
        std::mem::swap(&mut entries, &mut self.entries);
        let ghost before = entries@;
        match found {
            Some(i) => {
                entries[i].1 = value;
                assert(replaced(before, entries@, i as int, value));
            },
            None => {
                proof {
                    lemma_absent(before, key@);
                }
                entries.push((key, value));
                assert(appended(before, entries@, key@, value));
            },
        }
        proof {
            lemma_saved(before, entries@, key@, value);
        }
        self.entries = entries;
    }

    /// Deletes the counter of `key`; nothing changes where none is stored.
    pub fn remove(&mut self, key: &str)
        ensures
            final(self)@ == old(self)@.remove(key@),
    {
        proof {
            use_type_invariant(&*self);
        }
        let owned = key.to_owned();
        let found = self.position(&owned);
        let mut entries: Vec<(String, u32)> = Vec::new();
        std::mem::swap(&mut entries, &mut self.entries);
        let ghost before = entries@;
        match found {
            Some(i) => {
                entries.remove(i);
            },
            None => {},
        }
        proof {
            lemma_removed(before, entries@, key@);
        }
        self.entries = entries;
    }

    /// Adds one to the counter of `key`, counting from zero where none is
    /// stored, and returns the new value.
    pub fn increment(&mut self, key: String) -> (value: u32)
        requires
            count_at(old(self)@, key@) < u32::MAX,
        ensures
            value as nat == count_at(old(self)@, key@) + 1,
            final(self)@ == old(self)@.insert(key@, value as nat),
    {
        let value = self.read(key.as_str()) + 1;
        self.save(key, value);
        value
    }
}

/// The counters of all channels as a mathematical value.
pub struct ChannelModel {
    /// For each connected channel, the number of packets processed on it.
    pub connection_counts: Map<Seq<char>, nat>,
    /// For each channel, the number of packets sent on it that timed out.
    pub timeout_counts: Map<Seq<char>, nat>,
}

impl ChannelModel {
    /// The state in which no channel has a counter.
    pub open spec fn empty() -> ChannelModel {
        ChannelModel { connection_counts: Map::empty(), timeout_counts: Map::empty() }
    }

    /// The number of packets processed on `channel`.
    pub open spec fn connection_count(self, channel: Seq<char>) -> nat {
        count_at(self.connection_counts, channel)
    }

    /// The number of timeouts on `channel`.
    pub open spec fn timeout_count(self, channel: Seq<char>) -> nat {
        count_at(self.timeout_counts, channel)
    }

    /// The state after `channel` has completed its handshake.
    pub open spec fn connect(self, channel: Seq<char>) -> ChannelModel {
        ChannelModel {
            connection_counts: self.connection_counts.insert(channel, 0),
            timeout_counts: self.timeout_counts,
        }
    }

    /// The state after `channel` was closed.
    pub open spec fn close(self, channel: Seq<char>) -> ChannelModel {
        ChannelModel {
            connection_counts: self.connection_counts.remove(channel),
            timeout_counts: self.timeout_counts,
        }
    }

    /// The state after a packet was processed on `channel`.
    pub open spec fn receive(self, channel: Seq<char>) -> ChannelModel {
        ChannelModel {
            connection_counts: self.connection_counts.insert(
                channel,
                self.connection_count(channel) + 1,
            ),
            timeout_counts: self.timeout_counts,
        }
    }

    /// The state after a packet sent on `channel` timed out.
    pub open spec fn time_out(self, channel: Seq<char>) -> ChannelModel {
        ChannelModel {
            connection_counts: self.connection_counts,
            timeout_counts: self.timeout_counts.insert(channel, self.timeout_count(channel) + 1),
        }
    }
}

/// The counters of all channels.
pub struct ChannelState {
    pub connection_counts: Counters,
    pub timeout_counts: Counters,
}

impl View for ChannelState {
    type V = ChannelModel;

    open spec fn view(&self) -> ChannelModel {
        ChannelModel {
            connection_counts: self.connection_counts@,
            timeout_counts: self.timeout_counts@,
        }
    }
}

impl ChannelState {
    /// The state in which no channel has a counter.
    pub fn new() -> (state: Self)
        ensures
            state@ == ChannelModel::empty(),
    {
        ChannelState { connection_counts: Counters::new(), timeout_counts: Counters::new() }
    }
}

/// Whether `after` is `before` with the counter at `i` set to `value`.
spec fn replaced(
    before: Seq<(String, u32)>,
    after: Seq<(String, u32)>,
    i: int,
    value: u32,
) -> bool {
    &&& 0 <= i < before.len()
    &&& after.len() == before.len()
    &&& after[i].0 == before[i].0
    &&& after[i].1 == value
    &&& forall|j: int| 0 <= j < before.len() && j != i ==> after[j] == before[j]
}

/// Whether `after` is `before` with one more entry, of `key` and `value`.
spec fn appended(
    before: Seq<(String, u32)>,
    after: Seq<(String, u32)>,
    key: Seq<char>,
    value: u32,
) -> bool {
    &&& after.len() == before.len() + 1
    &&& after.last().0@ == key
    &&& after.last().1 == value
    &&& forall|j: int| 0 <= j < before.len() ==> after[j] == before[j]
}

/// Replacing the counter of `key` where the list holds it, and appending it
/// where the list does not, is an insertion into the map.
proof fn lemma_saved(
    before: Seq<(String, u32)>,
    after: Seq<(String, u32)>,
    key: Seq<char>,
    value: u32,
)
    requires
        distinct(before),
        (exists|i: int| holds_at(before, key, i) && replaced(before, after, i, value)) || (
        !as_map(before).contains_key(key) && appended(before, after, key, value)),
    ensures
        distinct(after),
        as_map(after) == as_map(before).insert(key, value as nat),
{
    let inserted = as_map(before).insert(key, value as nat);
    let at = if as_map(before).contains_key(key) {
        choose|i: int| holds_at(before, key, i) && replaced(before, after, i, value)
    } else {
        before.len() as int
    };
    assert(holds_at(after, key, at));
    assert forall|i: int| 0 <= i < before.len() && i != at implies after[i] == before[i] by {}
    assert forall|i: int, j: int|
        0 <= i < after.len() && 0 <= j < after.len() && i != j implies after[i].0@
        != after[j].0@ by {
        if i < before.len() && j < before.len() {
            assert(after[i].0@ == before[i].0@);
            assert(after[j].0@ == before[j].0@);
        } else if i < before.len() {
            assert(holds_at(before, after[i].0@, i));
        } else {
            assert(holds_at(before, after[j].0@, j));
        }
    }
    assert forall|k: Seq<char>| as_map(after).contains_key(k) <==> inserted.contains_key(k) by {
        if as_map(after).contains_key(k) && k != key {
            let i = choose|i: int| holds_at(after, k, i);
            assert(holds_at(before, k, i));
        }
        if inserted.contains_key(k) && k != key {
            let i = choose|i: int| holds_at(before, k, i);
            assert(holds_at(after, k, i));
        }
    }
    assert forall|k: Seq<char>| as_map(after).contains_key(k) implies as_map(after)[k]
        == inserted[k] by {
        let i = choose|i: int| holds_at(after, k, i);
        lemma_entry(after, i);
        if k != key {
            assert(holds_at(before, k, i));
            lemma_entry(before, i);
        }
    }
    assert(as_map(after) =~= inserted);
}

/// What `remove` does to the list is a removal from the map.
proof fn lemma_removed(before: Seq<(String, u32)>, after: Seq<(String, u32)>, key: Seq<char>)
    requires
        distinct(before),
        (exists|i: int| holds_at(before, key, i) && after == before.remove(i)) || ((forall|i: int|
            0 <= i < before.len() ==> before[i].0@ != key) && after == before),
    ensures
        distinct(after),
        as_map(after) == as_map(before).remove(key),
{
    if exists|i: int| holds_at(before, key, i) && after == before.remove(i) {
        let i = choose|i: int| holds_at(before, key, i) && after == before.remove(i);
        assert forall|a: int, b: int|
            0 <= a < after.len() && 0 <= b < after.len() && a != b implies after[a].0@
            != after[b].0@ by {
            let a0 = if a < i { a } else { a + 1 };
            let b0 = if b < i { b } else { b + 1 };
            assert(after[a] == before[a0]);
            assert(after[b] == before[b0]);
        }
        assert forall|k: Seq<char>|
            as_map(after).contains_key(k) <==> #[trigger] as_map(before).remove(key).contains_key(
                k,
            ) by {
            if as_map(after).contains_key(k) {
                let a = choose|a: int| holds_at(after, k, a);
                let a0 = if a < i { a } else { a + 1 };
                assert(after[a] == before[a0]);
                assert(holds_at(before, k, a0));
                assert(a0 != i);
            }
            if as_map(before).remove(key).contains_key(k) {
                let b = choose|b: int| holds_at(before, k, b);
                assert(b != i);
                let b1 = if b < i { b } else { b - 1 };
                assert(after[b1] == before[b]);
                assert(holds_at(after, k, b1));
            }
        }
        assert forall|k: Seq<char>| as_map(after).contains_key(k) implies as_map(after)[k]
            == as_map(before).remove(key)[k] by {
            let a = choose|a: int| holds_at(after, k, a);
            let a0 = if a < i { a } else { a + 1 };
            assert(after[a] == before[a0]);
            assert(holds_at(before, k, a0));
            lemma_entry(after, a);
            lemma_entry(before, a0);
        }
        assert(as_map(after) =~= as_map(before).remove(key));
    } else {
        lemma_absent(before, key);
        assert(as_map(after) =~= as_map(before).remove(key));
    }
}

} // verus!
