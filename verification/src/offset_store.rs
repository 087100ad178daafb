//! Durable, idempotent bookkeeping of per-projection, per-partition-key
//! progress through the event stream, and an in-memory store that implements
//! the repository contract: insert-only creation, overwrite-in-place update
//! that never creates, and point lookup by composite key.

use vstd::prelude::*;
use vstd::string::StringExecFns;
use crate::str_eq;
use crate::dup_opt_string;

verus! {

/// The durable record of how far one projection has processed one partition
/// key: the last committed offset (an opaque string encoding), an optional
/// offset-format version tag, whether concurrent partial offsets for this key
/// must be merged rather than overwritten, and the last-updated timestamp in
/// milliseconds since the epoch.
#[derive(Debug, Clone, PartialEq)]
pub struct ProjectionOffsetStore {
    pub projection_name: String,
    pub projection_key: String,
    pub current_offset: String,
    pub manifest: Option<String>,
    pub mergeable: bool,
    pub last_updated: i64,
}

/// Failures of the in-memory repository. Inserting a key that already has a
/// record is the only way this store can fail.
#[derive(Debug, PartialEq)]
pub enum OffsetStoreError {
    AlreadyExists { error_message: String, error_code: u32 },
}

/// Whether `record` is filed under the given projection name and key.
pub open spec fn key_matches(record: ProjectionOffsetStore, name: Seq<char>, key: Seq<char>) -> bool {
    record.projection_name@ == name && record.projection_key@ == key
}

/// Index of the first record filed under (`name`, `key`), or `records.len()`
/// if there is none.
pub open spec fn idx_of(records: Seq<ProjectionOffsetStore>, name: Seq<char>, key: Seq<char>) -> int
    decreases records.len(),
{
    if records.len() == 0 {
        0
    } else if key_matches(records[0], name, key) {
        0
    } else {
        1 + idx_of(records.drop_first(), name, key)
    }
}

/// Whether some record is filed under (`name`, `key`).
pub open spec fn contains_key(
    records: Seq<ProjectionOffsetStore>,
    name: Seq<char>,
    key: Seq<char>,
) -> bool {
    idx_of(records, name, key) < records.len()
}

/// At most one record per (projection name, projection key) pair.
pub open spec fn unique_keys(records: Seq<ProjectionOffsetStore>) -> bool {
    forall|i: int, j: int|
        0 <= i < j < records.len() ==> !key_matches(
            #[trigger] records[j],
            (#[trigger] records[i]).projection_name@,
            records[i].projection_key@,
        )
}

proof fn lemma_idx_of(records: Seq<ProjectionOffsetStore>, name: Seq<char>, key: Seq<char>)
    ensures
        0 <= idx_of(records, name, key) <= records.len(),
        idx_of(records, name, key) < records.len() ==> key_matches(
            records[idx_of(records, name, key)],
            name,
            key,
        ),
        forall|k: int| 0 <= k < idx_of(records, name, key) ==> !key_matches(records[k], name, key),
    decreases records.len(),
{
    if records.len() != 0 && !key_matches(records[0], name, key) {
        lemma_idx_of(records.drop_first(), name, key);
        assert forall|k: int| 0 <= k < idx_of(records, name, key) implies !key_matches(
            records[k],
            name,
            key,
        ) by {
            if k > 0 {
                assert(!key_matches(records.drop_first()[k - 1], name, key));
            }
        }
    }
}

/// `idx_of` is pinned down by being a position whose record matches and that
/// no matching record precedes.
proof fn lemma_idx_of_unique(
    records: Seq<ProjectionOffsetStore>,
    name: Seq<char>,
    key: Seq<char>,
    j: int,
)
    requires
        0 <= j <= records.len(),
        j < records.len() ==> key_matches(records[j], name, key),
        forall|k: int| 0 <= k < j ==> !key_matches(records[k], name, key),
        j == records.len() ==> forall|k: int|
            0 <= k < records.len() ==> !key_matches(records[k], name, key),
    ensures
        idx_of(records, name, key) == j,
{
    lemma_idx_of(records, name, key);
    let b = idx_of(records, name, key);
    if b < j {
        assert(key_matches(records[b], name, key));
    } else if j < b {
        assert(!key_matches(records[j], name, key));
    }
}

/// An in-memory projection offset store: one record per (projection name,
/// projection key) pair.
pub struct InMemoryOffsetStore {
    records: Vec<ProjectionOffsetStore>,
}

/// Read-your-writes on cold start: after inserting the first record for a
/// (projection name, projection key) pair, a lookup for that pair finds
/// exactly the inserted record.
pub proof fn lemma_insert_then_read(
    records: Seq<ProjectionOffsetStore>,
    record: ProjectionOffsetStore,
    name: Seq<char>,
    key: Seq<char>,
)
    requires
        !contains_key(records, name, key),
        key_matches(record, name, key),
    ensures
        contains_key(records.push(record), name, key),
        records.push(record)[idx_of(records.push(record), name, key)] == record,
{
    let pushed = records.push(record);
    lemma_idx_of(records, name, key);
    lemma_idx_of_unique(pushed, name, key, records.len() as int);
}

/// Read-your-writes in steady state: after an update overwrites the offset
/// of a stored (projection name, projection key) pair, a lookup for that
/// pair finds the same record slot, now carrying the new offset and nothing
/// else changed.
pub proof fn lemma_update_then_read(
    records: Seq<ProjectionOffsetStore>,
    updated: Seq<ProjectionOffsetStore>,
    name: Seq<char>,
    key: Seq<char>,
    offset: Seq<char>,
)
    requires
        contains_key(records, name, key),
        updated.len() == records.len(),
        ({
            let i = idx_of(records, name, key);
            &&& updated[i].projection_name == records[i].projection_name
            &&& updated[i].projection_key == records[i].projection_key
            &&& updated[i].current_offset@ == offset
            &&& forall|j: int| 0 <= j < records.len() && j != i ==> updated[j] == records[j]
        }),
    ensures
        contains_key(updated, name, key),
        idx_of(updated, name, key) == idx_of(records, name, key),
        updated[idx_of(updated, name, key)].current_offset@ == offset,
{
    let i = idx_of(records, name, key);
    lemma_idx_of(records, name, key);
    assert(key_matches(updated[i], name, key));
    assert forall|k: int| 0 <= k < i implies !key_matches(updated[k], name, key) by {
        assert(updated[k] == records[k]);
        assert(!key_matches(records[k], name, key));
    }
    lemma_idx_of_unique(updated, name, key, i);
}

impl ProjectionOffsetStore {
    /// An exact copy of the record.
    pub fn duplicate(&self) -> (r: Self)
        ensures
            r == *self,
    {
        ProjectionOffsetStore {
            projection_name: self.projection_name.clone(),
            projection_key: self.projection_key.clone(),
            current_offset: self.current_offset.clone(),
            manifest: dup_opt_string(&self.manifest),
            mergeable: self.mergeable,
            last_updated: self.last_updated,
        }
    }
}

impl InMemoryOffsetStore {
    /// The records currently stored, in insertion order.
    pub closed spec fn records_view(&self) -> Seq<ProjectionOffsetStore> {
        self.records@
    }

    /// Well-formedness: the store enforces uniqueness per composite key.
    pub closed spec fn inv(&self) -> bool {
        unique_keys(self.records@)
    }

    /// An empty store: no projection has ever committed progress.
    pub fn new() -> (r: Self)
        ensures
            r.inv(),
            r.records_view().len() == 0,
    {
        InMemoryOffsetStore { records: Vec::new() }
    }

    fn find_index(&self, projection_name: &str, projection_key: &str) -> (r: usize)
        ensures
            r as int == idx_of(self.records@, projection_name@, projection_key@),
    {
        let n = self.records.len();
        let mut i: usize = 0;
        while i < n
            invariant
                0 <= i <= n,
                n == self.records@.len(),
                forall|k: int|
                    0 <= k < i ==> !key_matches(self.records@[k], projection_name@, projection_key@),
            decreases n - i,
        {
            let rec = &self.records[i];
            let name_eq = str_eq(rec.projection_name.as_str(), projection_name);
            let key_eq = str_eq(rec.projection_key.as_str(), projection_key);
            if name_eq && key_eq {
                proof {
                    lemma_idx_of_unique(self.records@, projection_name@, projection_key@, i as int);
                }
                return i;
            }
            i = i + 1;
        }
        proof {
            lemma_idx_of_unique(self.records@, projection_name@, projection_key@, n as int);
        }
        n
    }

    /// Appends a new offset record for a pair that has none yet; fails with
    /// `AlreadyExists`, changing nothing, if the store already holds a record
    /// for the pair. Progress on an existing pair goes through
    /// `update_record` instead.
    pub fn insert_record(&mut self, record: ProjectionOffsetStore) -> (r: Result<
        (),
        OffsetStoreError,
    >)
        requires
            old(self).inv(),
        ensures
            final(self).inv(),
            r is Ok <==> !contains_key(
                old(self).records_view(),
                record.projection_name@,
                record.projection_key@,
            ),
            r is Ok ==> final(self).records_view() == old(self).records_view().push(record),
            r is Err ==> final(self).records_view() == old(self).records_view(),
            r matches Err(e) ==> e matches OffsetStoreError::AlreadyExists { error_code, .. }
                && error_code == 400,
    {
        let idx = self.find_index(record.projection_name.as_str(), record.projection_key.as_str());
        proof {
            lemma_idx_of(self.records@, record.projection_name@, record.projection_key@);
        }
        if idx < self.records.len() {
            return Err(
                OffsetStoreError::AlreadyExists {
                    error_message: String::from_str(
                        "an offset record for this projection name and key already exists",
                    ),
                    error_code: 400,
                },
            );
        }
        proof {
            let old_records = self.records@;
            let pushed = old_records.push(record);
            assert forall|i: int, j: int| 0 <= i < j < pushed.len() implies !key_matches(
                #[trigger] pushed[j],
                (#[trigger] pushed[i]).projection_name@,
                pushed[i].projection_key@,
            ) by {
                if j < old_records.len() {
                    assert(!key_matches(
                        old_records[j],
                        old_records[i].projection_name@,
                        old_records[i].projection_key@,
                    ));
                } else {
                    assert(!key_matches(
                        old_records[i],
                        record.projection_name@,
                        record.projection_key@,
                    ));
                }
            }
        }
        self.records.push(record);
        Ok(())
    }

    /// Point lookup of the record for a (projection name, projection key)
    /// pair: the committed record if the pair has one, nothing if the
    /// projection has never run for that key. Reading never fails.
    pub fn read_record(&self, projection_name: &str, projection_key: &str) -> (r: Result<
        Option<ProjectionOffsetStore>,
        OffsetStoreError,
    >)
        ensures
            r matches Ok(found),
            ({
                let records = self.records_view();
                let i = idx_of(records, projection_name@, projection_key@);
                if contains_key(records, projection_name@, projection_key@) {
                    r == Ok::<Option<ProjectionOffsetStore>, OffsetStoreError>(Some(records[i]))
                } else {
                    r == Ok::<Option<ProjectionOffsetStore>, OffsetStoreError>(None)
                }
            }),
    {
        let idx = self.find_index(projection_name, projection_key);
        proof {
            lemma_idx_of(self.records@, projection_name@, projection_key@);
        }
        if idx < self.records.len() {
            Ok(Some(self.records[idx].duplicate()))
        } else {
            Ok(None)
        }
    }

    /// Overwrites the committed offset for an existing (projection name,
    /// projection key) pair, leaving every other field and record unchanged.
    /// If no record exists for the pair this is a no-op that reports success
    /// without creating one: callers insert first, so steady-state updates
    /// stay cheap and idempotent.
    pub fn update_record(&mut self, projection_name: &str, projection_key: &str, current_offset:
        &str) -> (r: Result<(), OffsetStoreError>)
        requires
            old(self).inv(),
        ensures
            final(self).inv(),
            r is Ok,
            ({
                let records = old(self).records_view();
                let updated = final(self).records_view();
                let i = idx_of(records, projection_name@, projection_key@);
                if contains_key(records, projection_name@, projection_key@) {
                    &&& updated.len() == records.len()
                    &&& updated[i].projection_name == records[i].projection_name
                    &&& updated[i].projection_key == records[i].projection_key
                    &&& updated[i].current_offset@ == current_offset@
                    &&& updated[i].manifest == records[i].manifest
                    &&& updated[i].mergeable == records[i].mergeable
                    &&& updated[i].last_updated == records[i].last_updated
                    &&& forall|j: int| 0 <= j < records.len() && j != i ==> updated[j] == records[j]
                } else {
                    updated == records
                }
            }),
    {
        let idx = self.find_index(projection_name, projection_key);
        proof {
            lemma_idx_of(self.records@, projection_name@, projection_key@);
        }
        if idx < self.records.len() {
            self.records[idx].current_offset = String::from_str(current_offset);
            proof {
                let old_records = old(self).records@;
                let updated = self.records@;
                assert forall|i: int, j: int| 0 <= i < j < updated.len() implies !key_matches(
                    #[trigger] updated[j],
                    (#[trigger] updated[i]).projection_name@,
                    updated[i].projection_key@,
                ) by {
                    assert(updated[i].projection_name@ == old_records[i].projection_name@);
                    assert(updated[i].projection_key@ == old_records[i].projection_key@);
                    assert(updated[j].projection_name@ == old_records[j].projection_name@);
                    assert(updated[j].projection_key@ == old_records[j].projection_key@);
                    assert(!key_matches(
                        old_records[j],
                        old_records[i].projection_name@,
                        old_records[i].projection_key@,
                    ));
                }
            }
        }
        Ok(())
    }
}

} // verus!
