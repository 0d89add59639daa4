//! The storage backend capability: durable byte transfer addressed by a
//! namespace and an object key, behind an interchangeable interface.

use vstd::prelude::*;
use vstd::string::StringExecFns;

verus! {

/// Why a backend operation failed.
#[derive(Debug, Clone, Copy, PartialEq, Eq, Structural)]
pub enum StorageError {
    /// No object exists under the requested key.
    NotFound,
    /// The bytes could not be read or written.
    IoError,
}

/// The object key under which a model artifact is stored: the id names the
/// directory, the version names the file, and the `.model` extension is the
/// one convention a serving process discovers artifacts by.
pub open spec fn object_key_spec(id: Seq<char>, version: Seq<char>) -> Seq<char> {
    "models/"@ + id + "/"@ + version + ".model"@
}

/// Derives the storage object key for `(id, version)`.
pub fn object_key(id: &String, version: &String) -> (r: String)
    ensures
        r@ == object_key_spec(id@, version@),
{
    let mut r = "models/".to_owned();
    r.append(id.as_str());
    r.append("/");
    r.append(version.as_str());
    r.append(".model");
    r
}

/// The storage key is a function of the id and version alone: equal inputs
/// always give the same key.
pub proof fn lemma_object_key_deterministic(
    id1: Seq<char>,
    v1: Seq<char>,
    id2: Seq<char>,
    v2: Seq<char>,
)
    requires
        id1 == id2,
        v1 == v2,
    ensures
        object_key_spec(id1, v1) == object_key_spec(id2, v2),
{
}

/// Every key other than `key` maps to the same object in `post` as in
/// `pre`: the frame of a write that may only have touched `key`.
pub open spec fn objects_unchanged_except(
    pre: Map<(Seq<char>, Seq<char>), Seq<u8>>,
    post: Map<(Seq<char>, Seq<char>), Seq<u8>>,
    key: (Seq<char>, Seq<char>),
) -> bool {
    forall|p: (Seq<char>, Seq<char>)|
        p != key ==> {
            &&& post.contains_key(p) == pre.contains_key(p)
            &&& (pre.contains_key(p) ==> post[p] == pre[p])
        }
}

/// A storage backend: it owns durable objects addressed by a namespace and
/// an object key, and moves whole byte blobs in and out. Metadata stays with
/// the registry; the backend holds bytes only.
pub trait FileStorage: Sized {
    /// The durable objects the backend holds, by `(namespace, object key)`.
    spec fn objects(&self) -> Map<(Seq<char>, Seq<char>), Seq<u8>>;

    /// The location descriptor the backend reports for a stored object.
    spec fn location(&self, namespace: Seq<char>, object_name: Seq<char>) -> Seq<char>;

    /// Writes the full contents of `source` durably under
    /// `(namespace, object_name)` and returns the location descriptor. On
    /// failure nothing is promised of the object under that one key, but
    /// every other key is left untouched, and no location changes.
    fn upload_file(&mut self, source: &Vec<u8>, namespace: &String, object_name: &String) -> (r:
        Result<String, StorageError>)
        ensures
            forall|ns: Seq<char>, k: Seq<char>|
                final(self).location(ns, k) == old(self).location(ns, k),
            match r {
                Ok(uri) => {
                    &&& final(self).objects() == old(self).objects().insert(
                        (namespace@, object_name@),
                        source@,
                    )
                    &&& uri@ == old(self).location(namespace@, object_name@)
                },
                Err(_) => objects_unchanged_except(
                    old(self).objects(),
                    final(self).objects(),
                    (namespace@, object_name@),
                ),
            },
    ;

    /// Reads back the bytes stored under `(namespace, object_name)`;
    /// reports `NotFound` exactly when no object exists there.
    fn download_file(&self, namespace: &String, object_name: &String) -> (r: Result<
        Vec<u8>,
        StorageError,
    >)
        ensures
            match r {
                Ok(bytes) => {
                    &&& self.objects().contains_key((namespace@, object_name@))
                    &&& bytes@ == self.objects()[(namespace@, object_name@)]
                },
                Err(e) => e == StorageError::NotFound && !self.objects().contains_key(
                    (namespace@, object_name@),
                ),
            },
    ;
}

/// Storing bytes under a key makes exactly those bytes the object under that
/// key, so the download that follows an upload yields bytes identical to the
/// source.
pub proof fn lemma_upload_download_round_trip(
    pre: Map<(Seq<char>, Seq<char>), Seq<u8>>,
    post: Map<(Seq<char>, Seq<char>), Seq<u8>>,
    p: (Seq<char>, Seq<char>),
    bytes: Seq<u8>,
)
    requires
        post == pre.insert(p, bytes),
    ensures
        post.contains_key(p),
        post[p] == bytes,
{
}

/// Re-uploading under the same key overwrites the same object: only the last
/// write remains, whatever was stored before.
pub proof fn lemma_reupload_overwrites(
    m: Map<(Seq<char>, Seq<char>), Seq<u8>>,
    p: (Seq<char>, Seq<char>),
    b1: Seq<u8>,
    b2: Seq<u8>,
)
    ensures
        m.insert(p, b1).insert(p, b2) == m.insert(p, b2),
{
    assert(m.insert(p, b1).insert(p, b2) =~= m.insert(p, b2));
}

/// The location the in-memory variant reports for a model artifact is
/// exactly `mem://{namespace}/models/{id}/{version}.model`: the scheme on
/// the namespace and the deterministic object key.
pub proof fn lemma_mem_upload_location(
    store: &MemStorage,
    namespace: Seq<char>,
    id: Seq<char>,
    version: Seq<char>,
)
    ensures
        store.location(namespace, object_key_spec(id, version)) == "mem://"@ + namespace + "/"@
            + object_key_spec(id, version),
{
}

/// The record of one stored object: namespace, object key, bytes.
type MemEntry = (String, String, Vec<u8>);

/// The key of a stored entry.
pub open spec fn entry_key(e: MemEntry) -> (Seq<char>, Seq<char>) {
    (e.0@, e.1@)
}

/// The objects an append-only journal of writes describes: a later write to
/// a key overwrites an earlier one.
pub open spec fn journal_objects(s: Seq<MemEntry>) -> Map<(Seq<char>, Seq<char>), Seq<u8>>
    decreases s.len(),
{
    if s.len() == 0 {
        Map::empty()
    } else {
        journal_objects(s.drop_last()).insert(entry_key(s.last()), s.last().2@)
    }
}

/// A key is present in the journal's objects exactly when some entry wrote
/// it, and the object under it is what the latest such entry wrote.
proof fn lemma_journal_lookup(s: Seq<MemEntry>, p: (Seq<char>, Seq<char>))
    ensures
        journal_objects(s).contains_key(p) <==> exists|j: int|
            0 <= j < s.len() && entry_key(s[j]) == p,
        forall|i: int|
            0 <= i < s.len() && entry_key(s[i]) == p && (forall|j: int|
                i < j < s.len() ==> entry_key(s[j]) != p) ==> journal_objects(s)[p] == s[i].2@,
    decreases s.len(),
{
    if s.len() == 0 {
    } else {
        let butlast = s.drop_last();
        let e = s.last();
        lemma_journal_lookup(butlast, p);
        if entry_key(e) == p {
            assert(entry_key(s[s.len() - 1]) == p);
            assert(journal_objects(s)[p] == e.2@);
            assert forall|i: int|
                0 <= i < s.len() && entry_key(s[i]) == p && (forall|j: int|
                    i < j < s.len() ==> entry_key(s[j]) != p) implies journal_objects(s)[p]
                == s[i].2@ by {
                assert(i == s.len() - 1);
            }
        } else {
            assert(journal_objects(s)[p] == journal_objects(butlast)[p]);
            assert forall|j: int| 0 <= j < s.len() && entry_key(s[j]) == p implies 0 <= j
                < butlast.len() && entry_key(butlast[j]) == p by {
                assert(j != s.len() - 1);
            }
            assert forall|i: int|
                0 <= i < s.len() && entry_key(s[i]) == p && (forall|j: int|
                    i < j < s.len() ==> entry_key(s[j]) != p) implies journal_objects(s)[p]
                == s[i].2@ by {
                assert(i < butlast.len());
                assert(entry_key(butlast[i]) == p);
                assert forall|j: int| i < j < butlast.len() implies entry_key(butlast[j]) != p by {
                    assert(butlast[j] == s[j]);
                }
            }
        }
    }
}

/// An in-memory storage backend: it keeps every write in a journal and
/// serves the latest one per key. It lives entirely inside the process — no
/// byte of it is durable beyond the process lifetime — which makes it the
/// variant a test rig swaps in for the real backends.
#[derive(Debug)]
pub struct MemStorage {
    entries: Vec<MemEntry>,
}

impl MemStorage {
    /// A fresh backend holding no objects.
    pub fn new() -> (r: MemStorage)
        ensures
            r.objects() == Map::<(Seq<char>, Seq<char>), Seq<u8>>::empty(),
    {
        MemStorage { entries: Vec::new() }
    }
}

/// Builds the `mem://{namespace}/{object_name}` location descriptor.
fn mem_location(namespace: &String, object_name: &String) -> (r: String)
    ensures
        r@ == "mem://"@ + namespace@ + "/"@ + object_name@,
{
    let mut r = "mem://".to_owned();
    r.append(namespace.as_str());
    r.append("/");
    r.append(object_name.as_str());
    r
}

/// Copies a byte vector.
fn copy_bytes(source: &Vec<u8>) -> (r: Vec<u8>)
    ensures
        r@ == source@,
{
    let mut out: Vec<u8> = Vec::new();
    let mut i: usize = 0;
    while i < source.len()
        invariant
            i <= source.len(),
            out@ =~= source@.subrange(0, i as int),
        decreases source.len() - i,
    {
        out.push(source[i]);
        proof {
            assert(out@ =~= source@.subrange(0, i + 1 as int));
        }
        i += 1;
    }
    proof {
        assert(out@ =~= source@);
    }
    out
}

impl FileStorage for MemStorage {
    closed spec fn objects(&self) -> Map<(Seq<char>, Seq<char>), Seq<u8>> {
        journal_objects(self.entries@)
    }

    open spec fn location(&self, namespace: Seq<char>, object_name: Seq<char>) -> Seq<char> {
        "mem://"@ + namespace + "/"@ + object_name
    }

    // The in-memory variant makes no outside call and cannot fail, so here
    // success is owed outright, beyond what the trait asks of a backend.
    fn upload_file(&mut self, source: &Vec<u8>, namespace: &String, object_name: &String) -> (r:
        Result<String, StorageError>)
        ensures
            r is Ok,
    {
        let uri = mem_location(namespace, object_name);
        let entry = (namespace.clone(), object_name.clone(), copy_bytes(source));
        self.entries.push(entry);
        proof {
            let s1 = self.entries@;
            assert(s1.drop_last() =~= old(self).entries@);
            assert(s1.last() == entry);
        }
        Ok(uri)
    }

    fn download_file(&self, namespace: &String, object_name: &String) -> (r: Result<
        Vec<u8>,
        StorageError,
    >) {
        let ghost p = (namespace@, object_name@);
        let mut i: usize = self.entries.len();
        while i > 0
            invariant
                i <= self.entries.len(),
                forall|j: int| i <= j < self.entries@.len() ==> entry_key(self.entries@[j]) != p,
                p == (namespace@, object_name@),
            decreases i,
        {
            i -= 1;
            if self.entries[i].0 == *namespace && self.entries[i].1 == *object_name {
                let bytes = copy_bytes(&self.entries[i].2);
                proof {
                    lemma_journal_lookup(self.entries@, p);
                    assert(entry_key(self.entries@[i as int]) == p);
                }
                return Ok(bytes);
            }
        }
        proof {
            lemma_journal_lookup(self.entries@, p);
        }
        Err(StorageError::NotFound)
    }
}

} // verus!
