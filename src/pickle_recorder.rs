//! A recorder backed by a pickledb file, written only on request.
use crate::recorder::{
    apply_writes, entry_views, lemma_apply_writes_push, read_spec, Entries, Recorder, RecorderError,
};
use pickledb::error::Error as PickleError;
use pickledb::{PickleDb, PickleDbDumpPolicy, SerializationMethod};
use vstd::prelude::*;

verus! {

#[verifier::external_type_specification]
#[verifier::external_body]
pub struct ExPickleDb(PickleDb);

#[verifier::external_type_specification]
#[verifier::external_body]
pub struct ExPickleError(PickleError);

/// The string values of a pickledb database: for each key, the `String`
/// that `PickleDb::get::<String>` decodes from the JSON stored there.
pub uninterp spec fn pickle_strings(db: PickleDb) -> Entries;

/// Every key of a pickledb database, whatever is stored under it.
pub uninterp spec fn pickle_keys(db: PickleDb) -> Set<Seq<char>>;

/// The path the database file is written to.
pub uninterp spec fn pickle_path(db: PickleDb) -> Seq<char>;

/// Whether the database was opened with `PickleDbDumpPolicy::DumpUponRequest`.
pub uninterp spec fn pickle_dumps_on_request(db: PickleDb) -> bool;

/// Relies on `PickleDb::new`: a database with an empty map, nothing read
/// from disk, using the dump policy it is given.
#[verifier::external_body]
fn create_db(path: &str) -> (r: PickleDb)
    ensures
        pickle_strings(r) == Entries::empty(),
        pickle_keys(r) == Set::<Seq<char>>::empty(),
        pickle_path(r) == path@,
        pickle_dumps_on_request(r),
{
    PickleDb::new(path, PickleDbDumpPolicy::DumpUponRequest, SerializationMethod::Json)
}

/// Relies on `PickleDb::set`: JSON-encodes the value and inserts it under
/// the key. Encoding a `String` cannot fail, and with `DumpUponRequest`
/// nothing is written to disk, so the call then succeeds. On failure the
/// previous value is restored.
#[verifier::external_body]
fn db_set(db: &mut PickleDb, key: &str, value: &String) -> (r: Result<(), PickleError>)
    ensures
        pickle_dumps_on_request(*final(db)) == pickle_dumps_on_request(*old(db)),
        pickle_path(*final(db)) == pickle_path(*old(db)),
        pickle_dumps_on_request(*old(db)) ==> r is Ok,
        r is Ok ==> pickle_strings(*final(db)) == pickle_strings(*old(db)).insert(key@, value@),
        r is Ok ==> pickle_keys(*final(db)) == pickle_keys(*old(db)).insert(key@),
        r is Err ==> pickle_strings(*final(db)) == pickle_strings(*old(db)),
{
    db.set(key, value)
}

/// Relies on `PickleDb::get::<String>`: the decoded value under the key,
/// or `None`.
#[verifier::external_body]
fn db_get(db: &PickleDb, key: &str) -> (r: Option<String>)
    ensures
        read_spec(pickle_strings(*db), key@, r),
{
    db.get::<String>(key)
}

/// Relies on `PickleDb::exists`: whether anything is stored under the key.
#[verifier::external_body]
fn db_exists(db: &PickleDb, key: &str) -> (r: bool)
    ensures
        r == pickle_keys(*db).contains(key@),
        pickle_strings(*db).contains_key(key@) ==> r,
{
    db.exists(key)
}

/// Relies on `PickleDb::dump`: writes the whole map to the file at the
/// database's path and leaves the map, the path and the policy as they were.
#[verifier::external_body]
fn db_dump(db: &mut PickleDb) -> (r: Result<(), PickleError>)
    ensures
        pickle_strings(*final(db)) == pickle_strings(*old(db)),
        pickle_keys(*final(db)) == pickle_keys(*old(db)),
        pickle_path(*final(db)) == pickle_path(*old(db)),
        pickle_dumps_on_request(*final(db)) == pickle_dumps_on_request(*old(db)),
{
    db.dump()
}

/// Relies on pickledb's `Display` for its error: a readable message.
#[verifier::external_body]
fn error_message(e: &PickleError) -> (r: String) {
    e.to_string()
}

/// A recorder that keeps its entries in a pickledb database and writes the
/// database file only when saved.
pub struct PickleRecorder {
    db: PickleDb,
}

impl PickleRecorder {
    /// What the recorder holds.
    pub closed spec fn contents(&self) -> Entries {
        pickle_strings(self.db)
    }

    pub closed spec fn well_formed(&self) -> bool {
        pickle_dumps_on_request(self.db)
    }

    /// Where [`PickleRecorder::save`] writes the snapshot.
    pub closed spec fn path(&self) -> Seq<char> {
        pickle_path(self.db)
    }

    /// Whatever is stored under `key`, if anything, is a string.
    pub closed spec fn decodes(&self, key: Seq<char>) -> bool {
        pickle_strings(self.db).contains_key(key) || !pickle_keys(self.db).contains(key)
    }

    /// An empty recorder whose snapshots go to `db_path`.
    pub fn new(db_path: String) -> (r: PickleRecorder)
        ensures
            r.contents() == Entries::empty(),
            r.well_formed(),
            r.path() == db_path@,
            forall|k: Seq<char>| #[trigger] r.decodes(k),
    {
        PickleRecorder { db: create_db(db_path.as_str()) }
    }

    /// A recorder whose snapshots go to `db_path`, holding `entries`
    /// recorded in order (a later pair wins over an earlier one of the
    /// same key).
    pub fn from_entries(db_path: String, entries: Vec<(String, String)>) -> (r: PickleRecorder)
        ensures
            r.contents() == apply_writes(Entries::empty(), entry_views(entries@)),
            r.well_formed(),
            r.path() == db_path@,
            forall|k: Seq<char>| #[trigger] r.decodes(k),
    {
        let mut rec = PickleRecorder::new(db_path);
        let ghost views = entry_views(entries@);
        let mut i: usize = 0;
        while i < entries.len()
            invariant
                i <= entries.len(),
                views == entry_views(entries@),
                rec.well_formed(),
                rec.path() == db_path@,
                forall|k: Seq<char>| #[trigger] rec.decodes(k),
                rec.contents() == apply_writes(Entries::empty(), views.take(i as int)),
            decreases entries.len() - i,
        {
            let _ = rec.record(entries[i].0.as_str(), &entries[i].1);
            proof {
                assert(views.take(i + 1) =~= views.take(i as int).push(views[i as int]));
                lemma_apply_writes_push(Entries::empty(), views.take(i as int), views[i as int]);
            }
            i = i + 1;
        }
        proof {
            assert(views.take(i as int) =~= views);
        }
        rec
    }

    /// Stores `value` under `key`; this never fails.
    pub fn record(&mut self, key: &str, value: &String) -> (r: Result<(), RecorderError>)
        requires
            old(self).well_formed(),
        ensures
            r is Ok,
            final(self).well_formed(),
            final(self).contents() == old(self).contents().insert(key@, value@),
            final(self).decodes(key@),
            final(self).path() == old(self).path(),
            forall|k: Seq<char>| old(self).decodes(k) ==> #[trigger] final(self).decodes(k),
    {
        match db_set(&mut self.db, key, value) {
            Ok(()) => Ok(()),
            Err(e) => Err(RecorderError::Storage(error_message(&e))),
        }
    }

    /// The value stored under `key`, or `None` when there is none. Fails
    /// when what is stored there is not a string.
    pub fn get(&self, key: &str) -> (r: Result<Option<String>, RecorderError>)
        ensures
            r is Ok <==> self.decodes(key@),
            r matches Ok(found) ==> read_spec(self.contents(), key@, found),
    {
        match db_get(&self.db, key) {
            Some(v) => Ok(Some(v)),
            None => {
                if db_exists(&self.db, key) {
                    Err(RecorderError::Undecodable(key.to_string()))
                } else {
                    Ok(None)
                }
            },
        }
    }

    /// Writes every entry to the database file, replacing its content.
    pub fn save(&mut self) -> (r: Result<(), RecorderError>)
        requires
            old(self).well_formed(),
        ensures
            final(self).well_formed(),
            final(self).contents() == old(self).contents(),
            final(self).path() == old(self).path(),
            forall|k: Seq<char>| #[trigger] final(self).decodes(k) == old(self).decodes(k),
    {
        match db_dump(&mut self.db) {
            Ok(()) => Ok(()),
            Err(e) => Err(RecorderError::Storage(error_message(&e))),
        }
    }
}

impl Recorder for PickleRecorder {
    open spec fn entries(&self) -> Entries {
        self.contents()
    }

    open spec fn inv(&self) -> bool {
        self.well_formed()
    }

    open spec fn readable(&self, key: Seq<char>) -> bool {
        self.decodes(key)
    }

    open spec fn writable(&self) -> bool {
        self.well_formed()
    }

    fn record(&mut self, key: &str, value: &String) -> (r: Result<(), RecorderError>) {
        PickleRecorder::record(self, key, value)
    }

    fn get(&self, key: &str) -> (r: Result<Option<String>, RecorderError>) {
        PickleRecorder::get(self, key)
    }

    fn save(&mut self) -> (r: Result<(), RecorderError>) {
        PickleRecorder::save(self)
    }
}

} // verus!
