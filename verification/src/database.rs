//! The registry of installed packages: a file-backed store of records, keyed
//! by package name.

use vstd::prelude::*;
use vstd::bytes::*;
use vstd::string::*;
use vstd::utf8::*;

verus! {

/// The namespace of the store that holds the package records.
pub const BUCKET_NAME: &'static str = "PACKAGES";

/// An installed package, as the registry keeps it.
#[derive(PartialEq, Eq, Debug)]
pub struct Package {
    pub name: String,
    pub version: String,
    pub binary: String,
    pub path: String,
}

/// What a `Package` says, as plain text.
pub struct PackageView {
    pub name: Seq<char>,
    pub version: Seq<char>,
    pub binary: Seq<char>,
    pub path: Seq<char>,
}

impl View for Package {
    type V = PackageView;

    open spec fn view(&self) -> PackageView {
        PackageView {
            name: self.name@,
            version: self.version@,
            binary: self.binary@,
            path: self.path@,
        }
    }
}

impl Clone for Package {
    fn clone(&self) -> (copy: Package)
        ensures
            copy@ == self@,
    {
        Package {
            name: self.name.clone(),
            version: self.version.clone(),
            binary: self.binary.clone(),
            path: self.path.clone(),
        }
    }
}

/// One text of a record on disk: its length in bytes as eight little-endian
/// bytes, then its UTF-8 bytes.
pub open spec fn field_bytes(text: Seq<char>) -> Seq<u8> {
    spec_u64_to_le_bytes(encode_utf8(text).len() as u64) + encode_utf8(text)
}

/// A record on disk: name, version, binary and path, one after the other.
pub open spec fn record_bytes(package: PackageView) -> Seq<u8> {
    field_bytes(package.name) + field_bytes(package.version) + field_bytes(package.binary)
        + field_bytes(package.path)
}

impl PackageView {
    /// Each text is short enough for its length to be written in eight bytes.
    /// This holds of the view of every `Package`.
    pub open spec fn fits(self) -> bool {
        &&& encode_utf8(self.name).len() <= u64::MAX
        &&& encode_utf8(self.version).len() <= u64::MAX
        &&& encode_utf8(self.binary).len() <= u64::MAX
        &&& encode_utf8(self.path).len() <= u64::MAX
    }
}

#[verifier::external_type_specification]
#[verifier::external_body]
pub struct ExCodecErrorKind(bincode::ErrorKind);

/// `bincode::serialize`, applied to the four texts of the record as a tuple.
/// With that function's configuration (fixed-width integers, little endian) a
/// text is written as its byte length in eight bytes followed by its bytes, and
/// a tuple as its members in order: the bytes are `record_bytes` of the
/// record. The call cannot fail on texts: the configuration sets no limit on
/// the size, and the bytes are written into a vector.
#[verifier::external_body]
fn encode_record(package: &Package) -> (r: Result<Vec<u8>, Box<bincode::ErrorKind>>)
    ensures
        r is Ok,
        r matches Ok(bytes) ==> bytes@ == record_bytes(package@),
{
    bincode::serialize(&(&package.name, &package.version, &package.binary, &package.path))
}

/// `bincode::deserialize`, reading four texts as a tuple. It reads from the
/// front and accepts trailing bytes: it succeeds with the record whose bytes
/// the input starts with, and fails when the input starts with no record's
/// bytes (too short for a length or for the text it announces, or a text that
/// is not UTF-8).
#[verifier::external_body]
fn decode_record(bytes: &[u8]) -> (r: Result<Package, Box<bincode::ErrorKind>>)
    ensures
        match r {
            Ok(package) => record_bytes(package@).is_prefix_of(bytes@),
            Err(_) => forall|p: PackageView| !(#[trigger] record_bytes(p)).is_prefix_of(bytes@),
        },
{
    let (name, version, binary, path) =
        bincode::deserialize::<(String, String, String, String)>(bytes)?;
    Ok(Package { name, version, binary, path })
}

/// The record that stored bytes start with, if they start with one.
pub open spec fn decoded(bytes: Seq<u8>) -> Option<PackageView> {
    if exists|p: PackageView| p.fits() && (#[trigger] record_bytes(p)).is_prefix_of(bytes) {
        Some(choose|p: PackageView| p.fits() && (#[trigger] record_bytes(p)).is_prefix_of(bytes))
    } else {
        None
    }
}

/// Two texts whose fields both open the same bytes are the same text, and
/// what follows each field opens the same rest.
proof fn lemma_field_unique(
    a: Seq<char>,
    b: Seq<char>,
    after_a: Seq<u8>,
    after_b: Seq<u8>,
    bytes: Seq<u8>,
)
    requires
        encode_utf8(a).len() <= u64::MAX,
        encode_utf8(b).len() <= u64::MAX,
        (field_bytes(a) + after_a).is_prefix_of(bytes),
        (field_bytes(b) + after_b).is_prefix_of(bytes),
    ensures
        a == b,
        after_a.is_prefix_of(bytes.skip(field_bytes(a).len() as int)),
        after_b.is_prefix_of(bytes.skip(field_bytes(a).len() as int)),
{
    lemma_auto_spec_u64_to_from_le_bytes();
    let len_a = encode_utf8(a).len() as u64;
    let len_b = encode_utf8(b).len() as u64;
    let whole_a = field_bytes(a) + after_a;
    let whole_b = field_bytes(b) + after_b;
    assert(spec_u64_to_le_bytes(len_a) =~= bytes.subrange(0, 8)) by {
        assert forall|i: int| 0 <= i < 8 implies spec_u64_to_le_bytes(len_a)[i] == bytes[i] by {
            assert(whole_a[i] == bytes.subrange(0, whole_a.len() as int)[i]);
        }
    }
    assert(spec_u64_to_le_bytes(len_b) =~= bytes.subrange(0, 8)) by {
        assert forall|i: int| 0 <= i < 8 implies spec_u64_to_le_bytes(len_b)[i] == bytes[i] by {
            assert(whole_b[i] == bytes.subrange(0, whole_b.len() as int)[i]);
        }
    }
    assert(len_a == len_b) by {
        assert(spec_u64_from_le_bytes(spec_u64_to_le_bytes(len_a)) == len_a);
        assert(spec_u64_from_le_bytes(spec_u64_to_le_bytes(len_b)) == len_b);
    }
    assert(encode_utf8(a) =~= encode_utf8(b)) by {
        assert forall|i: int| 0 <= i < len_a implies encode_utf8(a)[i] == encode_utf8(b)[i] by {
            assert(whole_a[8 + i] == bytes.subrange(0, whole_a.len() as int)[8 + i]);
            assert(whole_b[8 + i] == bytes.subrange(0, whole_b.len() as int)[8 + i]);
        }
    }
    encode_utf8_decode_utf8(a);
    encode_utf8_decode_utf8(b);
    let cut = field_bytes(a).len() as int;
    assert(after_a =~= bytes.skip(cut).subrange(0, after_a.len() as int)) by {
        assert forall|i: int| 0 <= i < after_a.len() implies after_a[i] == bytes[cut + i] by {
            assert(whole_a[cut + i] == bytes.subrange(0, whole_a.len() as int)[cut + i]);
        }
    }
    assert(after_b =~= bytes.skip(cut).subrange(0, after_b.len() as int)) by {
        assert forall|i: int| 0 <= i < after_b.len() implies after_b[i] == bytes[cut + i] by {
            assert(whole_b[cut + i] == bytes.subrange(0, whole_b.len() as int)[cut + i]);
        }
    }
}

/// Bytes start with the bytes of at most one record.
pub proof fn lemma_record_unique(p: PackageView, q: PackageView, bytes: Seq<u8>)
    requires
        p.fits(),
        q.fits(),
        record_bytes(p).is_prefix_of(bytes),
        record_bytes(q).is_prefix_of(bytes),
    ensures
        p == q,
{
    let empty = Seq::<u8>::empty();
    let p_path = field_bytes(p.path) + empty;
    let q_path = field_bytes(q.path) + empty;
    let p_binary = field_bytes(p.binary) + p_path;
    let q_binary = field_bytes(q.binary) + q_path;
    let p_version = field_bytes(p.version) + p_binary;
    let q_version = field_bytes(q.version) + q_binary;
    assert(record_bytes(p) =~= field_bytes(p.name) + p_version);
    assert(record_bytes(q) =~= field_bytes(q.name) + q_version);
    lemma_field_unique(p.name, q.name, p_version, q_version, bytes);
    let after_name = bytes.skip(field_bytes(p.name).len() as int);
    lemma_field_unique(p.version, q.version, p_binary, q_binary, after_name);
    let after_version = after_name.skip(field_bytes(p.version).len() as int);
    lemma_field_unique(p.binary, q.binary, p_path, q_path, after_version);
    let after_binary = after_version.skip(field_bytes(p.binary).len() as int);
    lemma_field_unique(p.path, q.path, empty, empty, after_binary);
}

/// What was written as a record is read back as that record, whatever
/// follows it.
pub proof fn lemma_decoded_reads_record(p: PackageView, bytes: Seq<u8>)
    requires
        p.fits(),
        record_bytes(p).is_prefix_of(bytes),
    ensures
        decoded(bytes) == Some(p),
{
    let q = choose|q: PackageView| q.fits() && (#[trigger] record_bytes(q)).is_prefix_of(bytes);
    lemma_record_unique(p, q, bytes);
}

/// Reads stored bytes as a record.
fn read_record(bytes: &[u8]) -> (r: Result<Package, Box<bincode::ErrorKind>>)
    ensures
        match r {
            Ok(package) => package@.fits() && decoded(bytes@) == Some(package@),
            Err(_) => decoded(bytes@) is None,
        },
{
    let r = decode_record(bytes);
    proof {
        if let Ok(package) = &r {
            assert(bytes@.len() == bytes.len());
            lemma_prefix_fits(package@, bytes@);
            lemma_decoded_reads_record(package@, bytes@);
        }
    }
    r
}

/// A record's bytes that open stored bytes tell a record whose texts fit.
proof fn lemma_prefix_fits(p: PackageView, bytes: Seq<u8>)
    requires
        record_bytes(p).is_prefix_of(bytes),
        bytes.len() <= usize::MAX,
    ensures
        p.fits(),
{
    lemma_auto_spec_u64_to_from_le_bytes();
}

#[verifier::external_type_specification]
#[verifier::external_body]
pub struct ExStore(jammdb::DB);

#[verifier::external_type_specification]
#[verifier::external_body]
pub struct ExStoreError(jammdb::Error);

/// The key / value pairs that a store holds in its namespace `bucket`; none
/// where it has no such namespace.
pub uninterp spec fn stored_pairs(store: jammdb::DB, bucket: Seq<char>) -> Map<Seq<u8>, Seq<u8>>;

/// Whether a store has the namespace `bucket`.
pub uninterp spec fn holds_bucket(store: jammdb::DB, bucket: Seq<char>) -> bool;

/// One writing transaction that calls `Tx::get_or_create_bucket` and commits.
/// The call gets the namespace where the store has it and creates it where it
/// has not, so once the transaction is committed the store has the namespace;
/// a namespace that was there is never taken away. One that is created holds
/// nothing, so the pairs under `bucket` are the same before and after, whether
/// or not the transaction succeeds. A store is a file, so it holds finitely
/// many pairs.
#[verifier::external_body]
fn prepare_bucket(store: &mut jammdb::DB, bucket: &str) -> (r: Result<(), jammdb::Error>)
    ensures
        stored_pairs(*final(store), bucket@) == stored_pairs(*old(store), bucket@),
        stored_pairs(*final(store), bucket@).dom().finite(),
        r is Ok ==> holds_bucket(*final(store), bucket@),
        holds_bucket(*old(store), bucket@) ==> holds_bucket(*final(store), bucket@),
{
    let tx = store.tx(true)?;
    tx.get_or_create_bucket(bucket)?;
    tx.commit()
}

/// One writing transaction that calls `Bucket::put` and commits. `put` adds
/// the pair or replaces the value of a key that is there. A transaction that
/// commits is applied whole. One that fails before its last page is written
/// leaves the store as it was; one that fails after that (while syncing the
/// file) has been applied: either way no part of it is seen alone. `put`
/// works in a namespace that `Tx::get_bucket` found, and neither makes nor
/// removes one.
#[verifier::external_body]
fn write_pair(store: &mut jammdb::DB, bucket: &str, key: &[u8], value: &[u8]) -> (r: Result<
    (),
    jammdb::Error,
>)
    ensures
        r is Ok ==> stored_pairs(*final(store), bucket@) == stored_pairs(
            *old(store),
            bucket@,
        ).insert(key@, value@),
        r is Err ==> stored_pairs(*final(store), bucket@) == stored_pairs(*old(store), bucket@)
            || stored_pairs(*final(store), bucket@) == stored_pairs(*old(store), bucket@).insert(
            key@,
            value@,
        ),
        holds_bucket(*final(store), bucket@) == holds_bucket(*old(store), bucket@),
{
    let tx = store.tx(true)?;
    tx.get_bucket(bucket)?.put(key, value)?;
    tx.commit()
}

/// One reading transaction that calls `Bucket::get_kv`: the value under
/// `key`, or nothing where the namespace holds no pair with that key.
#[verifier::external_body]
fn read_pair(store: &jammdb::DB, bucket: &str, key: &[u8]) -> (r: Result<
    Option<Vec<u8>>,
    jammdb::Error,
>)
    ensures
        match r {
            Ok(Some(value)) => stored_pairs(*store, bucket@).contains_key(key@) && stored_pairs(
                *store,
                bucket@,
            )[key@] == value@,
            Ok(None) => !stored_pairs(*store, bucket@).contains_key(key@),
            Err(_) => true,
        },
{
    let tx = store.tx(false)?;
    let bucket = tx.get_bucket(bucket)?;
    let found = bucket.get_kv(key).map(|pair| pair.value().to_vec());
    Ok(found)
}

/// One writing transaction that calls `Bucket::delete` and, where that
/// removed a pair, commits. `delete` removes the pair under `key`, and fails
/// with `Error::KeyValueMissing` where the namespace holds nothing under it:
/// the result tells whether there was such a pair, and nothing is written
/// where there was none. Like `put`, `delete` neither makes nor removes a
/// namespace. Success and failure of the transaction are as for `write_pair`.
#[verifier::external_body]
fn delete_pair(store: &mut jammdb::DB, bucket: &str, key: &[u8]) -> (r: Result<bool, jammdb::Error>)
    ensures
        r matches Ok(found) ==> found == stored_pairs(*old(store), bucket@).contains_key(key@)
            && stored_pairs(*final(store), bucket@) == stored_pairs(*old(store), bucket@).remove(
            key@,
        ),
        r is Err ==> stored_pairs(*final(store), bucket@) == stored_pairs(*old(store), bucket@)
            || stored_pairs(*final(store), bucket@) == stored_pairs(*old(store), bucket@).remove(
            key@,
        ),
        holds_bucket(*final(store), bucket@) == holds_bucket(*old(store), bucket@),
{
    let tx = store.tx(true)?;
    match tx.get_bucket(bucket)?.delete(key) {
        Ok(_) => {},
        Err(jammdb::Error::KeyValueMissing) => return Ok(false),
        Err(e) => return Err(e),
    }
    tx.commit()?;
    Ok(true)
}

/// Whether the key `a` comes before the key `b` in the order in which a store
/// keeps its keys: byte by byte, and a key before every longer key that it
/// begins.
pub open spec fn key_before(a: Seq<u8>, b: Seq<u8>) -> bool
    decreases a.len(),
{
    if b.len() == 0 {
        false
    } else if a.len() == 0 {
        true
    } else if a[0] != b[0] {
        a[0] < b[0]
    } else {
        key_before(a.drop_first(), b.drop_first())
    }
}

/// Whether keys stand in the store's order, each before all that follow it.
pub open spec fn ascending(keys: Seq<Seq<u8>>) -> bool {
    forall|i: int, j: int| 0 <= i < j < keys.len() ==> key_before(keys[i], keys[j])
}

/// No key comes before itself.
pub proof fn lemma_key_before_irreflexive(a: Seq<u8>)
    ensures
        !key_before(a, a),
    decreases a.len(),
{
    if a.len() > 0 {
        lemma_key_before_irreflexive(a.drop_first());
    }
}

/// A key that comes before a second comes before every key that the second
/// comes before.
pub proof fn lemma_key_before_transitive(a: Seq<u8>, b: Seq<u8>, c: Seq<u8>)
    requires
        key_before(a, b),
        key_before(b, c),
    ensures
        key_before(a, c),
    decreases a.len(),
{
    if a.len() > 0 && a[0] == b[0] && b[0] == c[0] {
        lemma_key_before_transitive(a.drop_first(), b.drop_first(), c.drop_first());
    }
}

/// Keys in the store's order are all different.
pub proof fn lemma_ascending_keys_differ(keys: Seq<Seq<u8>>)
    requires
        ascending(keys),
    ensures
        keys.no_duplicates(),
{
    assert forall|i: int, j: int| 0 <= i < keys.len() && 0 <= j < keys.len() && i != j implies keys[i]
        != keys[j] by {
        lemma_key_before_irreflexive(keys[i]);
        if i < j {
            assert(key_before(keys[i], keys[j]));
        } else {
            assert(key_before(keys[j], keys[i]));
        }
    }
}

/// The same keys can stand in the store's order in one way only.
pub proof fn lemma_ascending_is_one_order(first: Seq<Seq<u8>>, second: Seq<Seq<u8>>)
    requires
        ascending(first),
        ascending(second),
        forall|key: Seq<u8>| first.contains(key) <==> second.contains(key),
    ensures
        first == second,
    decreases first.len(),
{
    lemma_ascending_keys_differ(first);
    lemma_ascending_keys_differ(second);
    assert(first.to_set() =~= second.to_set());
    first.unique_seq_to_set();
    second.unique_seq_to_set();
    if first.len() == 0 {
        assert(first =~= second);
    } else {
        let a = first.last();
        let b = second.last();
        assert(first.contains(a));
        assert(second.contains(b));
        let i = choose|i: int| 0 <= i < second.len() && second[i] == a;
        let j = choose|j: int| 0 <= j < first.len() && first[j] == b;
        if a != b {
            assert(key_before(second[i], second[second.len() - 1]));
            assert(key_before(first[j], first[first.len() - 1]));
            lemma_key_before_transitive(a, b, a);
            lemma_key_before_irreflexive(a);
        }
        let head = first.drop_last();
        let other = second.drop_last();
        assert forall|key: Seq<u8>| head.contains(key) <==> other.contains(key) by {
            lemma_key_before_irreflexive(a);
            if head.contains(key) {
                let m = choose|m: int| 0 <= m < head.len() && head[m] == key;
                assert(key_before(first[m], first[first.len() - 1]));
                assert(first.contains(key));
                let n = choose|n: int| 0 <= n < second.len() && second[n] == key;
                assert(other[n] == key);
            }
            if other.contains(key) {
                let m = choose|m: int| 0 <= m < other.len() && other[m] == key;
                assert(key_before(second[m], second[second.len() - 1]));
                assert(second.contains(key));
                let n = choose|n: int| 0 <= n < first.len() && first[n] == key;
                assert(head[n] == key);
            }
        }
        lemma_ascending_is_one_order(head, other);
        assert(first =~= head.push(a));
        assert(second =~= other.push(b));
    }
}

/// `pairs` names every pair of `records` once, in the order of their keys.
pub open spec fn enumerates(pairs: Seq<(Vec<u8>, Vec<u8>)>, records: Map<Seq<u8>, Seq<u8>>) -> bool {
    &&& forall|i: int|
        0 <= i < pairs.len() ==> records.contains_key(#[trigger] pairs[i].0@) && records[pairs[i].0@]
            == pairs[i].1@
    &&& forall|i: int, j: int|
        0 <= i < j < pairs.len() ==> key_before(
            (#[trigger] pairs[i]).0@,
            (#[trigger] pairs[j]).0@,
        )
    &&& forall|key: Seq<u8>| #[trigger]
        records.contains_key(key) ==> exists|i: int|
            0 <= i < pairs.len() && (#[trigger] pairs[i]).0@ == key
}

/// One reading transaction that walks `Bucket::kv_pairs`, which yields each
/// key / value pair of the namespace once, and copies each key and value. A
/// bucket keeps its data sorted by key, compared as byte slices, and the walk
/// goes from the first key to the last.
#[verifier::external_body]
fn all_pairs(store: &jammdb::DB, bucket: &str) -> (r: Result<
    Vec<(Vec<u8>, Vec<u8>)>,
    jammdb::Error,
>)
    ensures
        r matches Ok(pairs) ==> enumerates(pairs@, stored_pairs(*store, bucket@)),
{
    let tx = store.tx(false)?;
    let bucket = tx.get_bucket(bucket)?;
    let pairs = bucket.kv_pairs().map(|pair| (pair.key().to_vec(), pair.value().to_vec())).collect();
    Ok(pairs)
}

/// Why the registry could not do what was asked.
#[derive(Debug)]
pub enum StorageError {
    /// The store failed or refused a transaction.
    Store(jammdb::Error),
    /// A record could not be written as bytes. Texts can always be written,
    /// so no function of the registry ends with this.
    Encoding(Box<bincode::ErrorKind>),
    /// The stored bytes are no record.
    Corrupt(Box<bincode::ErrorKind>),
}

/// What the registry holds under a name.
pub enum Lookup {
    /// No record under that name.
    Absent,
    /// This record.
    Found(PackageView),
    /// Bytes that are no record.
    Unreadable,
}

/// What `records` holds under `key`.
pub open spec fn lookup(records: Map<Seq<u8>, Seq<u8>>, key: Seq<char>) -> Lookup {
    if !records.contains_key(encode_utf8(key)) {
        Lookup::Absent
    } else {
        match decoded(records[encode_utf8(key)]) {
            Some(package) => Lookup::Found(package),
            None => Lookup::Unreadable,
        }
    }
}

/// `records` after `package` was put under `key`.
pub open spec fn with_record(
    records: Map<Seq<u8>, Seq<u8>>,
    key: Seq<char>,
    package: PackageView,
) -> Map<Seq<u8>, Seq<u8>> {
    records.insert(encode_utf8(key), record_bytes(package))
}

/// `records` after whatever stood under `key` was removed.
pub open spec fn without_record(records: Map<Seq<u8>, Seq<u8>>, key: Seq<char>) -> Map<
    Seq<u8>,
    Seq<u8>,
> {
    records.remove(encode_utf8(key))
}

/// The views of some packages, in order.
pub open spec fn views(packages: Seq<Package>) -> Seq<PackageView> {
    packages.map_values(|p: Package| p@)
}

/// `listed` holds the record of every key of `records`, each key once, in
/// the order of the keys.
pub open spec fn lists(records: Map<Seq<u8>, Seq<u8>>, listed: Seq<PackageView>) -> bool {
    exists|keys: Seq<Seq<u8>>|
        {
            &&& keys.len() == listed.len()
            &&& ascending(keys)
            &&& forall|key: Seq<u8>| records.contains_key(key) <==> #[trigger] keys.contains(key)
            &&& forall|i: int|
                0 <= i < keys.len() ==> decoded(records[#[trigger] keys[i]]) == Some(listed[i])
        }
}

/// The registry: package records in a file-backed store, keyed by name.
pub struct Database {
    database: jammdb::DB,
}

impl View for Database {
    type V = Map<Seq<u8>, Seq<u8>>;

    /// The stored bytes of each record, by the bytes of its key.
    closed spec fn view(&self) -> Map<Seq<u8>, Seq<u8>> {
        stored_pairs(self.database, BUCKET_NAME@)
    }
}

impl Database {
    /// Whether the store has the namespace that holds the package records.
    pub closed spec fn has_namespace(&self) -> bool {
        holds_bucket(self.database, BUCKET_NAME@)
    }

    /// Makes a store that was opened the registry: its namespace for
    /// packages is created where the store does not have it yet. The records
    /// that the store holds there are the registry's, none is lost.
    pub fn new(store: jammdb::DB) -> (r: Result<Database, StorageError>)
        ensures
            match r {
                Ok(registry) => registry.has_namespace() && registry@ == stored_pairs(
                    store,
                    BUCKET_NAME@,
                ) && registry@.dom().finite(),
                Err(e) => e is Store,
            },
    {
        let mut database = store;
        match prepare_bucket(&mut database, BUCKET_NAME) {
            Err(e) => Err(StorageError::Store(e)),
            Ok(()) => Ok(Database { database }),
        }
    }

    /// Puts `package` under `key`, in place of whatever stood there.
    pub fn put(&mut self, key: &str, package: &Package) -> (r: Result<(), StorageError>)
        ensures
            match r {
                Ok(()) => package@.fits() && final(self)@ == with_record(
                    old(self)@,
                    key@,
                    package@,
                ),
                Err(StorageError::Store(_)) => final(self)@ == old(self)@ || final(self)@
                    == with_record(old(self)@, key@, package@),
                Err(_) => false,
            },
            final(self).has_namespace() == old(self).has_namespace(),
            old(self)@.dom().finite() ==> final(self)@.dom().finite(),
    {
        match encode_record(package) {
            Err(e) => Err(StorageError::Encoding(e)),
            Ok(value) => {
                proof {
                    assert(value@.len() == value.len());
                    lemma_prefix_fits(package@, value@);
                }
                match write_pair(&mut self.database, BUCKET_NAME, key.as_bytes(), value.as_slice()) {
                    Err(e) => Err(StorageError::Store(e)),
                    Ok(()) => Ok(()),
                }
            },
        }
    }

    /// Removes the record under `key`. Where there is none, nothing changes
    /// and that is no error.
    pub fn remove(&mut self, key: &str) -> (r: Result<(), StorageError>)
        ensures
            match r {
                Ok(()) => final(self)@ == without_record(old(self)@, key@),
                Err(StorageError::Store(_)) => final(self)@ == old(self)@ || final(self)@
                    == without_record(old(self)@, key@),
                Err(_) => false,
            },
            final(self).has_namespace() == old(self).has_namespace(),
            old(self)@.dom().finite() ==> final(self)@.dom().finite(),
    {
        match delete_pair(&mut self.database, BUCKET_NAME, key.as_bytes()) {
            Err(e) => Err(StorageError::Store(e)),
            Ok(_) => Ok(()),
        }
    }

    /// The record under `key`, if there is one.
    pub fn get(&self, key: &str) -> (r: Result<Option<Package>, StorageError>)
        ensures
            match r {
                Ok(Some(package)) => package@.fits() && lookup(self@, key@) == Lookup::Found(
                    package@,
                ),
                Ok(None) => lookup(self@, key@) == Lookup::Absent,
                Err(StorageError::Corrupt(_)) => lookup(self@, key@) == Lookup::Unreadable,
                Err(StorageError::Store(_)) => true,
                Err(StorageError::Encoding(_)) => false,
            },
    {
        match read_pair(&self.database, BUCKET_NAME, key.as_bytes()) {
            Err(e) => Err(StorageError::Store(e)),
            Ok(None) => Ok(None),
            Ok(Some(value)) => {
                match read_record(value.as_slice()) {
                    Err(e) => Err(StorageError::Corrupt(e)),
                    Ok(package) => Ok(Some(package)),
                }
            },
        }
    }

    /// Every record of the registry, each once, in the order in which the
    /// store walks its keys.
    pub fn get_all(&self) -> (r: Result<Vec<Package>, StorageError>)
        ensures
            match r {
                Ok(packages) => lists(self@, views(packages@)),
                Err(StorageError::Corrupt(_)) => exists|key: Seq<u8>|
                    self@.contains_key(key) && decoded(#[trigger] self@[key]) is None,
                Err(StorageError::Store(_)) => true,
                Err(StorageError::Encoding(_)) => false,
            },
    {
        let pairs = match all_pairs(&self.database, BUCKET_NAME) {
            Err(e) => { return Err(StorageError::Store(e)); },
            Ok(pairs) => pairs,
        };
        let mut packages: Vec<Package> = Vec::new();
        let mut at: usize = 0;
        while at < pairs.len()
            invariant
                at <= pairs.len(),
                packages.len() == at,
                enumerates(pairs@, self@),
                forall|i: int| 0 <= i < at ==> decoded(pairs[i].1@) == Some(#[trigger] packages[i]@),
            decreases pairs.len() - at,
        {
            match read_record(pairs[at].1.as_slice()) {
                Err(e) => {
                    assert(self@.contains_key(pairs[at as int].0@));
                    assert(decoded(self@[pairs[at as int].0@]) is None);
                    return Err(StorageError::Corrupt(e));
                },
                Ok(package) => {
                    packages.push(package);
                },
            }
            at += 1;
        }
        proof {
            let keys = Seq::new(pairs.len() as nat, |i: int| pairs[i].0@);
            assert forall|key: Seq<u8>| self@.contains_key(key) <==> #[trigger] keys.contains(
                key,
            ) by {
                if self@.contains_key(key) {
                    let i = choose|i: int| 0 <= i < pairs.len() && (#[trigger] pairs[i]).0@ == key;
                    assert(keys[i] == key);
                }
                if keys.contains(key) {
                    let i = choose|i: int| 0 <= i < keys.len() && keys[i] == key;
                    assert(self@.contains_key(pairs[i].0@));
                }
            }
            assert forall|i: int| 0 <= i < keys.len() implies decoded(self@[#[trigger] keys[i]])
                == Some(views(packages@)[i]) by {
                assert(self@[pairs[i].0@] == pairs[i].1@);
                assert(decoded(pairs[i].1@) == Some(packages[i]@));
            }
            assert(ascending(keys));
            assert(keys.len() == views(packages@).len());
        }
        Ok(packages)
    }
}

/// A record that was put under a key is found under that key, equal in every
/// text, whatever the registry held before.
pub proof fn lemma_put_then_get(records: Map<Seq<u8>, Seq<u8>>, key: Seq<char>, package: PackageView)
    requires
        package.fits(),
    ensures
        lookup(with_record(records, key, package), key) == Lookup::Found(package),
{
    lemma_decoded_reads_record(package, record_bytes(package));
}

/// A put under one key leaves what is found under every other key as it was.
pub proof fn lemma_put_keeps_others(
    records: Map<Seq<u8>, Seq<u8>>,
    key: Seq<char>,
    package: PackageView,
    other: Seq<char>,
)
    requires
        other != key,
    ensures
        lookup(with_record(records, key, package), other) == lookup(records, other),
{
    encode_utf8_decode_utf8(key);
    encode_utf8_decode_utf8(other);
}

/// After a key was removed nothing is found under it, and removing a key
/// that is absent changes nothing.
pub proof fn lemma_remove_then_get(records: Map<Seq<u8>, Seq<u8>>, key: Seq<char>)
    ensures
        lookup(without_record(records, key), key) == Lookup::Absent,
        lookup(records, key) == Lookup::Absent ==> without_record(records, key) == records,
{
    if lookup(records, key) == Lookup::Absent {
        assert(without_record(records, key) =~= records);
    }
}

/// A put under a key that is there replaces its record: the registry holds
/// as many records as before. A put under a new key adds one.
pub proof fn lemma_put_counts(records: Map<Seq<u8>, Seq<u8>>, key: Seq<char>, package: PackageView)
    requires
        records.dom().finite(),
    ensures
        with_record(records, key, package).dom().finite(),
        with_record(records, key, package).dom().len() == records.dom().len() + (if lookup(
            records,
            key,
        ) == Lookup::Absent {
            1int
        } else {
            0int
        }),
{
}

/// A remove of a key that is there takes one record away; a remove of a key
/// that is absent leaves the count as it is.
pub proof fn lemma_remove_counts(records: Map<Seq<u8>, Seq<u8>>, key: Seq<char>)
    requires
        records.dom().finite(),
    ensures
        without_record(records, key).dom().finite(),
        without_record(records, key).dom().len() == records.dom().len() - (if lookup(
            records,
            key,
        ) == Lookup::Absent {
            0int
        } else {
            1int
        }),
{
}

/// A listing of the registry holds exactly as many records as the registry
/// has keys.
pub proof fn lemma_listing_counts_keys(records: Map<Seq<u8>, Seq<u8>>, listed: Seq<PackageView>)
    requires
        lists(records, listed),
    ensures
        records.dom().finite(),
        listed.len() == records.dom().len(),
{
    let keys = choose|keys: Seq<Seq<u8>>|
        {
            &&& keys.len() == listed.len()
            &&& ascending(keys)
            &&& forall|key: Seq<u8>| records.contains_key(key) <==> #[trigger] keys.contains(key)
            &&& forall|i: int|
                0 <= i < keys.len() ==> decoded(records[#[trigger] keys[i]]) == Some(listed[i])
        };
    lemma_ascending_keys_differ(keys);
    assert(keys.to_set() =~= records.dom());
    vstd::seq_lib::seq_to_set_is_finite(keys);
    keys.unique_seq_to_set();
}

/// Two listings of the same registry are the same: while nothing is written,
/// a second listing gives what the first gave, record for record.
pub proof fn lemma_listing_is_determined(
    records: Map<Seq<u8>, Seq<u8>>,
    first: Seq<PackageView>,
    second: Seq<PackageView>,
)
    requires
        lists(records, first),
        lists(records, second),
    ensures
        first == second,
{
    let first_keys = choose|keys: Seq<Seq<u8>>|
        {
            &&& keys.len() == first.len()
            &&& ascending(keys)
            &&& forall|key: Seq<u8>| records.contains_key(key) <==> #[trigger] keys.contains(key)
            &&& forall|i: int|
                0 <= i < keys.len() ==> decoded(records[#[trigger] keys[i]]) == Some(first[i])
        };
    let second_keys = choose|keys: Seq<Seq<u8>>|
        {
            &&& keys.len() == second.len()
            &&& ascending(keys)
            &&& forall|key: Seq<u8>| records.contains_key(key) <==> #[trigger] keys.contains(key)
            &&& forall|i: int|
                0 <= i < keys.len() ==> decoded(records[#[trigger] keys[i]]) == Some(second[i])
        };
    lemma_ascending_is_one_order(first_keys, second_keys);
    assert forall|i: int| 0 <= i < first.len() implies first[i] == second[i] by {
        assert(decoded(records[first_keys[i]]) == Some(first[i]));
        assert(decoded(records[second_keys[i]]) == Some(second[i]));
    }
    assert(first =~= second);
}

/// The registry after one put for each key of `keys`, in order, each with the
/// package at the same place in `packages`.
pub open spec fn after_puts(
    records: Map<Seq<u8>, Seq<u8>>,
    keys: Seq<Seq<char>>,
    packages: Seq<PackageView>,
) -> Map<Seq<u8>, Seq<u8>>
    decreases keys.len(),
{
    if keys.len() == 0 || packages.len() == 0 {
        records
    } else {
        with_record(
            after_puts(records, keys.drop_last(), packages.drop_last()),
            keys.last(),
            packages.last(),
        )
    }
}

/// An empty registry after puts under `keys` has the bytes of exactly those
/// keys as its keys, and every value in it is the bytes of a record.
proof fn lemma_after_puts_keys(keys: Seq<Seq<char>>, packages: Seq<PackageView>)
    requires
        keys.len() == packages.len(),
        forall|i: int| 0 <= i < packages.len() ==> (#[trigger] packages[i]).fits(),
    ensures
        after_puts(Map::empty(), keys, packages).dom() == keys.map_values(
            |key: Seq<char>| encode_utf8(key),
        ).to_set(),
        forall|key: Seq<u8>| #[trigger]
            after_puts(Map::empty(), keys, packages).contains_key(key) ==> decoded(
                after_puts(Map::empty(), keys, packages)[key],
            ) is Some,
    decreases keys.len(),
{
    let as_bytes = |key: Seq<char>| encode_utf8(key);
    if keys.len() == 0 {
        assert(after_puts(Map::empty(), keys, packages).dom() =~= keys.map_values(
            as_bytes,
        ).to_set());
    } else {
        lemma_after_puts_keys(keys.drop_last(), packages.drop_last());
        let before = after_puts(Map::<Seq<u8>, Seq<u8>>::empty(), keys.drop_last(), packages.drop_last());
        let after = after_puts(Map::<Seq<u8>, Seq<u8>>::empty(), keys, packages);
        assert(after == with_record(before, keys.last(), packages.last()));
        assert(keys.map_values(as_bytes).drop_last() =~= keys.drop_last().map_values(as_bytes));
        assert(keys.map_values(as_bytes).to_set() =~= keys.drop_last().map_values(
            as_bytes,
        ).to_set().insert(encode_utf8(keys.last()))) by {
            let mapped = keys.map_values(as_bytes);
            assert forall|b: Seq<u8>| mapped.to_set().contains(b) implies mapped.drop_last().to_set().insert(
                encode_utf8(keys.last()),
            ).contains(b) by {
                let i = choose|i: int| 0 <= i < mapped.len() && mapped[i] == b;
                if i < mapped.len() - 1 {
                    assert(mapped.drop_last()[i] == b);
                }
            }
            assert forall|b: Seq<u8>|
                mapped.drop_last().to_set().insert(encode_utf8(keys.last())).contains(
                    b,
                ) implies mapped.to_set().contains(b) by {
                if b == encode_utf8(keys.last()) {
                    assert(mapped[mapped.len() - 1] == b);
                } else {
                    let i = choose|i: int| 0 <= i < mapped.drop_last().len() && mapped.drop_last()[i] == b;
                    assert(mapped[i] == b);
                }
            }
        }
        assert(after.dom() =~= keys.map_values(as_bytes).to_set());
        lemma_decoded_reads_record(packages.last(), record_bytes(packages.last()));
    }
}

/// After any puts into a registry that was empty, the registry has finitely
/// many keys and every value in it can be read as a record: no listing of it
/// and no lookup in it can meet bytes that are no record.
pub proof fn lemma_puts_can_all_be_read(keys: Seq<Seq<char>>, packages: Seq<PackageView>)
    requires
        keys.len() == packages.len(),
        forall|i: int| 0 <= i < packages.len() ==> (#[trigger] packages[i]).fits(),
    ensures
        after_puts(Map::empty(), keys, packages).dom().finite(),
        forall|key: Seq<u8>| #[trigger]
            after_puts(Map::empty(), keys, packages).contains_key(key) ==> decoded(
                after_puts(Map::empty(), keys, packages)[key],
            ) is Some,
{
    lemma_after_puts_keys(keys, packages);
    vstd::seq_lib::seq_to_set_is_finite(keys.map_values(|key: Seq<char>| encode_utf8(key)));
}

/// After puts under keys that are all different, into a registry that was
/// empty, every listing of the registry holds exactly one record for each
/// put.
pub proof fn lemma_distinct_puts_are_all_listed(
    keys: Seq<Seq<char>>,
    packages: Seq<PackageView>,
    listed: Seq<PackageView>,
)
    requires
        keys.len() == packages.len(),
        keys.no_duplicates(),
        forall|i: int| 0 <= i < packages.len() ==> (#[trigger] packages[i]).fits(),
        lists(after_puts(Map::empty(), keys, packages), listed),
    ensures
        listed.len() == keys.len(),
{
    let as_bytes = |key: Seq<char>| encode_utf8(key);
    let mapped = keys.map_values(as_bytes);
    lemma_after_puts_keys(keys, packages);
    lemma_listing_counts_keys(after_puts(Map::empty(), keys, packages), listed);
    assert(mapped.no_duplicates()) by {
        assert forall|i: int, j: int| 0 <= i < mapped.len() && 0 <= j < mapped.len() && i != j implies mapped[i]
            != mapped[j] by {
            encode_utf8_decode_utf8(keys[i]);
            encode_utf8_decode_utf8(keys[j]);
        }
    }
    mapped.unique_seq_to_set();
}

} // verus!
