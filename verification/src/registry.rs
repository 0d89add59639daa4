//! The registry: an owned table of model records with unique ids.
//!
//! All access in a running service is serialized through one lock around the
//! whole table; that lock lives with the embedding process, so every
//! operation here acts on an exclusively borrowed table, which is exactly
//! what the lock hands out.

use vstd::prelude::*;
use vstd::pervasive::VecAdditionalExecFns;
use crate::models::{clamp_timestamp, refreshed, CreateModelRequest, Model, ModelStatus};
use crate::models::{lemma_refresh_monotonic, MAX_TIMESTAMP_MILLIS};
use crate::storage::{object_key_spec, objects_unchanged_except, FileStorage};

verus! {

/// Why a registry operation was refused.
#[derive(Debug, Clone, Copy, PartialEq, Eq, Structural)]
pub enum RegistryError {
    /// No record carries the requested id.
    NotFound,
    /// A record with the same id is already in the table.
    DuplicateId,
    /// The storage backend failed to move the artifact bytes.
    IoError,
}

/// Some position of `t` holds a record with id `id`.
pub open spec fn contains_id(t: Seq<Model>, id: Seq<char>) -> bool {
    exists|i: int| 0 <= i < t.len() && t[i].id@ == id
}

/// Distinct positions of `t` hold records with distinct ids.
pub open spec fn unique_ids(t: Seq<Model>) -> bool {
    forall|i: int, j: int| 0 <= i < j < t.len() ==> t[i].id@ != t[j].id@
}

/// Every record of `t` is well formed.
pub open spec fn wf_records(t: Seq<Model>) -> bool {
    forall|i: int| 0 <= i < t.len() ==> t[i].wf()
}

/// How a table changes when record `m` is created: `m`'s id is new, and `m`
/// is appended; nothing else moves.
pub open spec fn create_transition(pre: Seq<Model>, post: Seq<Model>, m: Model) -> bool {
    &&& !contains_id(pre, m.id@)
    &&& post == pre.push(m)
}

/// How a table changes when id `id` is deleted: the one record with that id
/// leaves, if present, and `removed` reports whether one did.
pub open spec fn delete_transition(pre: Seq<Model>, post: Seq<Model>, id: Seq<char>, removed: bool) -> bool {
    &&& removed == contains_id(pre, id)
    &&& !contains_id(post, id)
    &&& (removed ==> exists|i: int| 0 <= i < pre.len() && pre[i].id@ == id && post == pre.remove(i))
    &&& (!removed ==> post == pre)
}

/// The store frame a failed upload against the record with id `id` leaves:
/// under every key other than that record's own object key, the store holds
/// exactly what it held before.
pub open spec fn failed_upload_store_frame(
    table: Seq<Model>,
    pre: Map<(Seq<char>, Seq<char>), Seq<u8>>,
    post: Map<(Seq<char>, Seq<char>), Seq<u8>>,
    id: Seq<char>,
    namespace: Seq<char>,
) -> bool {
    exists|i: int|
        {
            &&& 0 <= i < table.len()
            &&& table[i].id@ == id
            &&& objects_unchanged_except(
                pre,
                post,
                (namespace, object_key_spec(id, table[i].version@)),
            )
        }
}

/// Record `m` with its status flipped to `Active` and its `updated_at`
/// refreshed to `t`.
pub open spec fn activated(m: Model, t: i64) -> Model {
    Model { status: ModelStatus::Active, updated_at: t, ..m }
}

/// The registry's table of records. It is empty when the process starts and
/// owned by the registry for the process lifetime; records leave only
/// through an explicit delete.
#[derive(Debug)]
pub struct ModelStorage {
    records: Vec<Model>,
}

impl View for ModelStorage {
    type V = Seq<Model>;

    closed spec fn view(&self) -> Seq<Model> {
        self.records@
    }
}

impl ModelStorage {
    /// The table invariant: ids are unique and every record is well formed.
    pub open spec fn wf(self) -> bool {
        &&& unique_ids(self@)
        &&& wf_records(self@)
    }

    /// A fresh, empty registry.
    pub fn new() -> (r: ModelStorage)
        ensures
            r.wf(),
            r@ == Seq::<Model>::empty(),
    {
        ModelStorage { records: Vec::new() }
    }

    /// The position of the record with id `id`, if one is present.
    fn find_index(&self, id: &String) -> (r: Option<usize>)
        ensures
            match r {
                Some(i) => i < self@.len() && self@[i as int].id@ == id@,
                None => !contains_id(self@, id@),
            },
    {
        let mut i: usize = 0;
        while i < self.records.len()
            invariant
                i <= self.records.len(),
                forall|k: int| 0 <= k < i ==> self.records@[k].id@ != id@,
            decreases self.records.len() - i,
        {
            if self.records[i].id == *id {
                return Some(i);
            }
            i += 1;
        }
        None
    }

    /// Inserts a record the caller built, rejecting a duplicate id without
    /// side effects.
    pub fn insert_model(&mut self, model: Model) -> (r: Result<Model, RegistryError>)
        requires
            old(self).wf(),
            model.wf(),
        ensures
            final(self).wf(),
            match r {
                Ok(m) => m == model && create_transition(old(self)@, final(self)@, model),
                Err(e) => {
                    &&& e == RegistryError::DuplicateId
                    &&& contains_id(old(self)@, model.id@)
                    &&& final(self)@ == old(self)@
                },
            },
    {
        match self.find_index(&model.id) {
            Some(_) => Err(RegistryError::DuplicateId),
            None => {
                let returned = model.clone();
                self.records.push(model);
                Ok(returned)
            },
        }
    }

    /// Creates a record from caller-supplied metadata: the registry itself
    /// picks a fresh id and stamps both timestamps with the clock reading,
    /// and the new record starts in status `Created`. A collision of the
    /// generated id with a present one is rejected as `DuplicateId` without
    /// side effects.
    pub fn create_model(&mut self, req: CreateModelRequest) -> (r: Result<Model, RegistryError>)
        requires
            old(self).wf(),
        ensures
            final(self).wf(),
            match r {
                Ok(m) => {
                    &&& create_transition(old(self)@, final(self)@, m)
                    &&& m.status is Created
                    &&& m.name@ == req.name@
                    &&& m.version@ == req.version@
                    &&& m.created_at == m.updated_at
                    &&& m.wf()
                },
                Err(e) => e == RegistryError::DuplicateId && final(self)@ == old(self)@,
            },
            // Success is owed wherever the drawn id cannot collide: an empty
            // table holds nothing to collide with, and only a table already
            // holding a 36-character id can collide with a generated one.
            old(self)@.len() == 0 ==> r is Ok,
            r is Err ==> exists|i: int| 0 <= i < old(self)@.len() && old(self)@[i].id@.len() == 36,
    {
        let id = crate::ids::fresh_id();
        let now = crate::clock::now_millis();
        let stamp = crate::models::clamp_timestamp_exec(now);
        let model = Model {
            id,
            name: req.name,
            version: req.version,
            status: ModelStatus::Created,
            created_at: stamp,
            updated_at: stamp,
        };
        let r = self.insert_model(model);
        proof {
            if r is Err {
                let i = choose|i: int|
                    0 <= i < old(self)@.len() && old(self)@[i].id@ == model.id@;
                assert(old(self)@[i].id@.len() == 36);
            }
        }
        r
    }

    /// A snapshot of the record with id `id`, if one is present.
    pub fn get_model(&self, id: &String) -> (r: Option<Model>)
        requires
            self.wf(),
        ensures
            match r {
                Some(m) => {
                    &&& contains_id(self@, id@)
                    &&& m.id@ == id@
                    &&& m.wf()
                    &&& exists|i: int| 0 <= i < self@.len() && self@[i] == m
                    &&& forall|j: int| 0 <= j < self@.len() && self@[j].id@ == id@ ==> self@[j] == m
                },
                None => !contains_id(self@, id@),
            },
    {
        match self.find_index(id) {
            Some(i) => {
                let m = self.records[i].clone();
                proof {
                    assert forall|j: int|
                        0 <= j < self@.len() && self@[j].id@ == id@ implies self@[j] == m by {
                        if j != i as int {
                            assert(self@[j].id@ != self@[i as int].id@);
                        }
                    }
                }
                Some(m)
            },
            None => None,
        }
    }

    /// Removes the record with id `id` and reports whether one was present.
    pub fn delete_model(&mut self, id: &String) -> (r: bool)
        requires
            old(self).wf(),
        ensures
            final(self).wf(),
            delete_transition(old(self)@, final(self)@, id@, r),
    {
        match self.find_index(id) {
            Some(i) => {
                self.records.remove(i);
                proof {
                    let pre = old(self)@;
                    let post = self@;
                    assert forall|k: int| 0 <= k < post.len() implies post[k].id@ != id@ by {
                        if k < i {
                            assert(post[k] == pre[k]);
                        } else {
                            assert(post[k] == pre[k + 1]);
                        }
                    }
                    assert forall|a: int, b: int| 0 <= a < b < post.len() implies post[a].id@
                        != post[b].id@ by {
                        let a0 = if a < i { a } else { a + 1 };
                        let b0 = if b < i { b } else { b + 1 };
                        assert(post[a] == pre[a0]);
                        assert(post[b] == pre[b0]);
                    }
                    assert forall|k: int| 0 <= k < post.len() implies post[k].wf() by {
                        if k < i {
                            assert(post[k] == pre[k]);
                        } else {
                            assert(post[k] == pre[k + 1]);
                        }
                    }
                }
                true
            },
            None => false,
        }
    }

    /// A snapshot of all current records, in table order.
    pub fn list_models(&self) -> (r: Vec<Model>)
        ensures
            r@ == self@,
    {
        let mut out: Vec<Model> = Vec::new();
        let mut i: usize = 0;
        while i < self.records.len()
            invariant
                i <= self.records.len(),
                out@ =~= self.records@.subrange(0, i as int),
            decreases self.records.len() - i,
        {
            out.push(self.records[i].clone());
            proof {
                assert(out@ =~= self.records@.subrange(0, i + 1 as int));
            }
            i += 1;
        }
        proof {
            assert(out@ =~= self@);
        }
        out
    }
    /// Flips the record with id `id` to `Active` and refreshes its
    /// `updated_at` against the clock reading `now`; the commit step of an
    /// artifact upload, taken once the backend has reported success.
    pub fn activate_model_at(&mut self, id: &String, now: i64) -> (r: Result<Model, RegistryError>)
        requires
            old(self).wf(),
        ensures
            final(self).wf(),
            match r {
                Ok(m) => exists|i: int|
                    {
                        &&& 0 <= i < old(self)@.len()
                        &&& old(self)@[i].id@ == id@
                        &&& m == activated(
                            old(self)@[i],
                            refreshed(old(self)@[i].updated_at, clamp_timestamp(now)),
                        )
                        &&& final(self)@ == old(self)@.update(i, m)
                    },
                Err(e) => {
                    &&& e == RegistryError::NotFound
                    &&& !contains_id(old(self)@, id@)
                    &&& final(self)@ == old(self)@
                },
            },
    {
        match self.find_index(id) {
            None => Err(RegistryError::NotFound),
            Some(i) => {
                let prev = self.records[i].clone();
                proof {
                    assert(old(self)@[i as int].wf());
                }
                let stamp = crate::models::refresh_timestamp(
                    prev.updated_at,
                    crate::models::clamp_timestamp_exec(now),
                );
                let m = Model {
                    id: prev.id,
                    name: prev.name,
                    version: prev.version,
                    status: ModelStatus::Active,
                    created_at: prev.created_at,
                    updated_at: stamp,
                };
                let returned = m.clone();
                self.records.set(i, m);
                proof {
                    let pre = old(self)@;
                    let post = self@;
                    lemma_refresh_monotonic(pre[i as int].updated_at, clamp_timestamp(now));
                    assert forall|k: int| 0 <= k < post.len() implies post[k].id@
                        == pre[k].id@ by {}
                    assert(unique_ids(post));
                    assert forall|k: int| 0 <= k < post.len() implies post[k].wf() by {
                        assert(pre[k].wf());
                    }
                    assert(pre[i as int].id@ == id@);
                    assert(returned == activated(
                        pre[i as int],
                        refreshed(pre[i as int].updated_at, clamp_timestamp(now)),
                    ));
                    assert(post == pre.update(i as int, returned));
                }
                Ok(returned)
            },
        }
    }

    /// Flips the record with id `id` to `Active` against the clock's own
    /// reading. Whatever the clock said, the refreshed `updated_at` never
    /// moves backwards, and moves strictly forward below the cap.
    pub fn activate_model(&mut self, id: &String) -> (r: Result<Model, RegistryError>)
        requires
            old(self).wf(),
        ensures
            final(self).wf(),
            match r {
                Ok(m) => exists|i: int|
                    {
                        &&& 0 <= i < old(self)@.len()
                        &&& old(self)@[i].id@ == id@
                        &&& m == activated(old(self)@[i], m.updated_at)
                        &&& m.updated_at >= old(self)@[i].updated_at
                        &&& (old(self)@[i].updated_at < MAX_TIMESTAMP_MILLIS
                            ==> m.updated_at > old(self)@[i].updated_at)
                        &&& m.wf()
                        &&& final(self)@ == old(self)@.update(i, m)
                    },
                Err(e) => {
                    &&& e == RegistryError::NotFound
                    &&& !contains_id(old(self)@, id@)
                    &&& final(self)@ == old(self)@
                },
            },
    {
        let now = crate::clock::now_millis();
        let r = self.activate_model_at(id, now);
        proof {
            if r is Ok {
                let pre = old(self)@;
                let m = r->Ok_0;
                let i = choose|i: int|
                    {
                        &&& 0 <= i < pre.len()
                        &&& pre[i].id@ == id@
                        &&& m == activated(pre[i], refreshed(pre[i].updated_at, clamp_timestamp(now)))
                        &&& self@ == pre.update(i, m)
                    };
                assert(pre[i].wf());
                lemma_refresh_monotonic(pre[i].updated_at, clamp_timestamp(now));
            }
        }
        r
    }

    /// The composite upload operation: resolves the record with id `id`,
    /// derives its storage object key from the id and the record's version,
    /// delegates the byte transfer to the backend, and — only on backend
    /// success — flips the record to `Active` with a refreshed `updated_at`.
    /// A backend failure leaves the table exactly as it was.
    pub fn upload_model_at<B: FileStorage>(
        &mut self,
        store: &mut B,
        id: &String,
        namespace: &String,
        bytes: &Vec<u8>,
        now: i64,
    ) -> (r: Result<String, RegistryError>)
        requires
            old(self).wf(),
        ensures
            final(self).wf(),
            match r {
                Ok(uri) => exists|i: int|
                    {
                        &&& 0 <= i < old(self)@.len()
                        &&& old(self)@[i].id@ == id@
                        &&& final(self)@ == old(self)@.update(
                            i,
                            activated(
                                old(self)@[i],
                                refreshed(old(self)@[i].updated_at, clamp_timestamp(now)),
                            ),
                        )
                        &&& final(store).objects() == old(store).objects().insert(
                            (namespace@, object_key_spec(id@, old(self)@[i].version@)),
                            bytes@,
                        )
                        &&& uri@ == old(store).location(
                            namespace@,
                            object_key_spec(id@, old(self)@[i].version@),
                        )
                    },
                Err(e) => {
                    &&& final(self)@ == old(self)@
                    &&& (e == RegistryError::NotFound <==> !contains_id(old(self)@, id@))
                    &&& (e == RegistryError::NotFound
                        ==> final(store).objects() == old(store).objects())
                    &&& (e != RegistryError::NotFound ==> e == RegistryError::IoError)
                    &&& (e == RegistryError::IoError
                        ==> failed_upload_store_frame(old(self)@, old(store).objects(),
                            final(store).objects(), id@, namespace@))
                },
            },
    {
        match self.find_index(id) {
            None => Err(RegistryError::NotFound),
            Some(i) => {
                let version = self.records[i].version.clone();
                let key = crate::storage::object_key(id, &version);
                match store.upload_file(bytes, namespace, &key) {
                    Err(_) => {
                        proof {
                            assert(old(self)@[i as int].id@ == id@);
                            assert(key@ == object_key_spec(id@, old(self)@[i as int].version@));
                        }
                        Err(RegistryError::IoError)
                    },
                    Ok(uri) => {
                        let activate_result = self.activate_model_at(id, now);
                        proof {
                            let pre = old(self)@;
                            assert(contains_id(pre, id@));
                            if activate_result is Err {
                                assert(false);
                            }
                            let m = activate_result->Ok_0;
                            let j = choose|j: int|
                                {
                                    &&& 0 <= j < pre.len()
                                    &&& pre[j].id@ == id@
                                    &&& m == activated(
                                        pre[j],
                                        refreshed(pre[j].updated_at, clamp_timestamp(now)),
                                    )
                                    &&& self@ == pre.update(j, m)
                                };
                            assert(j == i as int);
                        }
                        match activate_result {
                            Ok(_) => Ok(uri),
                            Err(_) => Err(RegistryError::IoError),
                        }
                    },
                }
            },
        }
    }

    /// The composite upload operation against the clock's own reading; see
    /// `upload_model_at` for the shape of the commit.
    pub fn upload_model_file<B: FileStorage>(
        &mut self,
        store: &mut B,
        id: &String,
        namespace: &String,
        bytes: &Vec<u8>,
    ) -> (r: Result<String, RegistryError>)
        requires
            old(self).wf(),
        ensures
            final(self).wf(),
            match r {
                Ok(uri) => exists|i: int|
                    {
                        &&& 0 <= i < old(self)@.len()
                        &&& old(self)@[i].id@ == id@
                        &&& final(self)@ == old(self)@.update(
                            i,
                            activated(old(self)@[i], final(self)@[i].updated_at),
                        )
                        &&& final(self)@[i].updated_at >= old(self)@[i].updated_at
                        &&& (old(self)@[i].updated_at < MAX_TIMESTAMP_MILLIS
                            ==> final(self)@[i].updated_at > old(self)@[i].updated_at)
                        &&& final(self)@[i].wf()
                        &&& final(store).objects() == old(store).objects().insert(
                            (namespace@, object_key_spec(id@, old(self)@[i].version@)),
                            bytes@,
                        )
                        &&& uri@ == old(store).location(
                            namespace@,
                            object_key_spec(id@, old(self)@[i].version@),
                        )
                    },
                Err(e) => {
                    &&& final(self)@ == old(self)@
                    &&& (e == RegistryError::NotFound <==> !contains_id(old(self)@, id@))
                    &&& (e == RegistryError::NotFound
                        ==> final(store).objects() == old(store).objects())
                    &&& (e != RegistryError::NotFound ==> e == RegistryError::IoError)
                    &&& (e == RegistryError::IoError
                        ==> failed_upload_store_frame(old(self)@, old(store).objects(),
                            final(store).objects(), id@, namespace@))
                },
            },
    {
        let now = crate::clock::now_millis();
        let r = self.upload_model_at(store, id, namespace, bytes, now);
        proof {
            if r is Ok {
                let pre = old(self)@;
                let i = choose|i: int|
                    {
                        &&& 0 <= i < pre.len()
                        &&& pre[i].id@ == id@
                        &&& self@ == pre.update(
                            i,
                            activated(pre[i], refreshed(pre[i].updated_at, clamp_timestamp(now))),
                        )
                        &&& final(store).objects() == old(store).objects().insert(
                            (namespace@, object_key_spec(id@, pre[i].version@)),
                            bytes@,
                        )
                        &&& r->Ok_0@ == old(store).location(
                            namespace@,
                            object_key_spec(id@, pre[i].version@),
                        )
                    };
                assert(pre[i].wf());
                lemma_refresh_monotonic(pre[i].updated_at, clamp_timestamp(now));
                assert(self@[i] == activated(
                    pre[i],
                    refreshed(pre[i].updated_at, clamp_timestamp(now)),
                ));
                assert(self@ == pre.update(i, activated(pre[i], self@[i].updated_at)));
            }
        }
        r
    }
}

/// No two records in a well-formed table ever share an id: distinct
/// positions carry distinct ids.
pub proof fn lemma_ids_unique(s: &ModelStorage, i: int, j: int)
    requires
        s.wf(),
        0 <= i < s@.len(),
        0 <= j < s@.len(),
        i != j,
    ensures
        s@[i].id@ != s@[j].id@,
{
}

/// Creation preserves uniqueness: however many create operations run, a
/// table whose ids were all distinct still has all ids distinct after one
/// more record is created.
pub proof fn lemma_create_preserves_unique(pre: Seq<Model>, post: Seq<Model>, m: Model)
    requires
        unique_ids(pre),
        create_transition(pre, post, m),
    ensures
        unique_ids(post),
{
    assert forall|i: int, j: int| 0 <= i < j < post.len() implies post[i].id@ != post[j].id@ by {
        if j == pre.len() as int {
            assert(post[i] == pre[i]);
        }
    }
}

/// Two create operations in a row — the order the table lock forces on two
/// concurrent creates — yield records with distinct ids, and both records
/// stand in the resulting table, each at exactly one position.
pub proof fn lemma_serialized_creates_distinct(
    t0: Seq<Model>,
    t1: Seq<Model>,
    t2: Seq<Model>,
    m1: Model,
    m2: Model,
)
    requires
        unique_ids(t0),
        create_transition(t0, t1, m1),
        create_transition(t1, t2, m2),
    ensures
        m1.id@ != m2.id@,
        contains_id(t2, m1.id@),
        contains_id(t2, m2.id@),
        unique_ids(t2),
        forall|j: int, k: int|
            0 <= j < t2.len() && 0 <= k < t2.len() && t2[j].id@ == t2[k].id@ ==> j == k,
{
    assert(t1[t0.len() as int] == m1);
    assert(contains_id(t1, m1.id@));
    assert(t2[t0.len() as int] == m1);
    assert(t2[t1.len() as int] == m2);
    lemma_create_preserves_unique(t0, t1, m1);
    lemma_create_preserves_unique(t1, t2, m2);
}

/// Deleting a present id reports a removal and leaves the table without it;
/// deleting the same id again reports nothing and changes nothing.
pub proof fn lemma_delete_idempotence_signal(
    t0: Seq<Model>,
    t1: Seq<Model>,
    t2: Seq<Model>,
    id: Seq<char>,
    r1: bool,
    r2: bool,
)
    requires
        contains_id(t0, id),
        delete_transition(t0, t1, id, r1),
        delete_transition(t1, t2, id, r2),
    ensures
        r1,
        !r2,
        t2 == t1,
{
}

/// Lifecycle monotonicity at the activation step: committing an upload flips
/// exactly the activated record to `Active`, never touches its `created_at`,
/// and strictly increases its `updated_at` whenever the old value lies below
/// the representable cap — whatever the clock said. (A fresh record starts
/// in `Created` by the create contract, and a failed upload leaves the table
/// unchanged by the upload contract's error clause.)
pub proof fn lemma_lifecycle_monotonic(t0: Seq<Model>, t1: Seq<Model>, i: int, now: i64)
    requires
        wf_records(t0),
        0 <= i < t0.len(),
        t1 == t0.update(i, activated(t0[i], refreshed(t0[i].updated_at, clamp_timestamp(now)))),
    ensures
        t1[i].status is Active,
        t1[i].created_at == t0[i].created_at,
        t1[i].updated_at >= t0[i].updated_at,
        t0[i].updated_at < MAX_TIMESTAMP_MILLIS ==> t1[i].updated_at > t0[i].updated_at,
        forall|k: int| 0 <= k < t0.len() && k != i ==> t1[k] == t0[k],
{
    assert(t0[i].wf());
    lemma_refresh_monotonic(t0[i].updated_at, clamp_timestamp(now));
}

} // verus!
