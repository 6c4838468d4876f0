//! The capability that query handlers use to keep and replay answers.
use vstd::prelude::*;

verus! {

/// What a recorder holds: key text to answer text.
pub type Entries = Map<Seq<char>, Seq<char>>;

/// Why a recorder could not complete an operation.
#[derive(Clone, Debug)]
pub enum RecorderError {
    /// The backing store failed to read, write or encode its data.
    Storage(String),
    /// Something is stored under this key that is not an answer.
    Undecodable(String),
}

/// `found` is what `entries` holds under `key`.
pub open spec fn read_spec(entries: Entries, key: Seq<char>, found: Option<String>) -> bool {
    match found {
        Some(v) => entries.contains_key(key) && entries[key] == v@,
        None => !entries.contains_key(key),
    }
}

/// The entries after applying `writes` in order, each a (key, value) pair.
pub open spec fn apply_writes(entries: Entries, writes: Seq<(Seq<char>, Seq<char>)>) -> Entries
    decreases writes.len(),
{
    if writes.len() == 0 {
        entries
    } else {
        apply_writes(entries.insert(writes[0].0, writes[0].1), writes.drop_first())
    }
}

/// The (key, value) texts of a list of string pairs.
pub open spec fn entry_views(entries: Seq<(String, String)>) -> Seq<(Seq<char>, Seq<char>)> {
    entries.map_values(|e: (String, String)| (e.0@, e.1@))
}

/// Applying one more write inserts it last.
pub proof fn lemma_apply_writes_push(
    entries: Entries,
    writes: Seq<(Seq<char>, Seq<char>)>,
    w: (Seq<char>, Seq<char>),
)
    ensures
        apply_writes(entries, writes.push(w)) == apply_writes(entries, writes).insert(w.0, w.1),
    decreases writes.len(),
{
    if writes.len() == 0 {
        assert(writes.push(w).drop_first() =~= Seq::<(Seq<char>, Seq<char>)>::empty());
        assert(writes.push(w)[0] == w);
        assert(apply_writes(entries.insert(w.0, w.1), writes.push(w).drop_first()) == entries.insert(w.0, w.1));
        assert(apply_writes(entries, writes) == entries);
    } else {
        assert(writes.push(w).drop_first() =~= writes.drop_first().push(w));
        assert(writes.push(w)[0] == writes[0]);
        lemma_apply_writes_push(entries.insert(writes[0].0, writes[0].1), writes.drop_first(), w);
        assert(apply_writes(entries, writes.push(w)) == apply_writes(
            entries.insert(writes[0].0, writes[0].1),
            writes.drop_first().push(w),
        ));
    }
}

/// A recorded value is read back unchanged for as long as no later write
/// uses the same key.
pub proof fn lemma_record_then_read(
    entries: Entries,
    key: Seq<char>,
    value: Seq<char>,
    later: Seq<(Seq<char>, Seq<char>)>,
)
    requires
        forall|i: int| 0 <= i < later.len() ==> #[trigger] later[i].0 != key,
    ensures
        apply_writes(entries.insert(key, value), later).contains_key(key),
        apply_writes(entries.insert(key, value), later)[key] == value,
    decreases later.len(),
{
    if later.len() > 0 {
        let (k2, v2) = later[0];
        assert(later[0].0 != key);
        let next = entries.insert(key, value).insert(k2, v2);
        assert(next =~= entries.insert(k2, v2).insert(key, value));
        assert forall|i: int| 0 <= i < later.drop_first().len() implies #[trigger] later.drop_first()[
            i
        ].0 != key by {
            assert(later.drop_first()[i] == later[i + 1]);
        }
        lemma_record_then_read(entries.insert(k2, v2), key, value, later.drop_first());
    }
}

/// Reads of one key against the same entries agree: any number of readers
/// that see no write in between get the same answer.
pub proof fn lemma_reads_agree(entries: Entries, key: Seq<char>, a: Option<String>, b: Option<String>)
    requires
        read_spec(entries, key, a),
        read_spec(entries, key, b),
    ensures
        a is Some <==> b is Some,
        a matches Some(x) ==> b matches Some(y) && x@ == y@,
{
}

/// Any number of reads of one key against the same entries agree.
pub proof fn lemma_many_reads_agree(entries: Entries, key: Seq<char>, reads: Seq<Option<String>>)
    requires
        forall|i: int| 0 <= i < reads.len() ==> read_spec(entries, key, #[trigger] reads[i]),
    ensures
        forall|i: int, j: int|
            0 <= i < reads.len() && 0 <= j < reads.len() ==> (#[trigger] reads[i] is Some <==> #[trigger] reads[j] is Some),
        forall|i: int, j: int|
            0 <= i < reads.len() && 0 <= j < reads.len() ==> (#[trigger] reads[i] matches Some(x) ==> #[trigger] reads[j] matches Some(y) && x@ == y@),
{
}

/// A key-value store of answers, keyed by cache key text, holding JSON text.
///
/// Writes are visible to reads at once; `save` makes them durable.
pub trait Recorder {
    /// What the recorder holds: key text to answer text.
    spec fn entries(&self) -> Entries;

    /// The recorder's own well-formedness.
    spec fn inv(&self) -> bool;

    /// Whether reading `key` succeeds: whatever is stored there, if
    /// anything, decodes as an answer.
    spec fn readable(&self, key: Seq<char>) -> bool;

    /// Whether writes succeed.
    spec fn writable(&self) -> bool;

    /// Stores `value` under `key`, replacing what was there.
    fn record(&mut self, key: &str, value: &String) -> (r: Result<(), RecorderError>)
        requires
            old(self).inv(),
        ensures
            final(self).inv(),
            final(self).writable() == old(self).writable(),
            old(self).writable() ==> r is Ok,
            r is Ok ==> final(self).entries() == old(self).entries().insert(key@, value@),
            r is Ok ==> final(self).readable(key@),
            r is Err ==> final(self).entries() == old(self).entries(),
    ;

    /// The answer stored under `key`, or `None` when there is none. Fails
    /// exactly when something is stored there that does not decode.
    fn get(&self, key: &str) -> (r: Result<Option<String>, RecorderError>)
        requires
            self.inv(),
        ensures
            r is Ok <==> self.readable(key@),
            r matches Ok(found) ==> read_spec(self.entries(), key@, found),
    ;

    /// Writes a full snapshot of the entries to durable storage.
    fn save(&mut self) -> (r: Result<(), RecorderError>)
        requires
            old(self).inv(),
        ensures
            final(self).inv(),
            final(self).writable() == old(self).writable(),
            final(self).entries() == old(self).entries(),
    ;
}

} // verus!
