//! The content store: file records by identifier, with no knowledge of the
//! hierarchy.

use crate::clock::Timestamp;
use crate::error::VfsError;
use crate::path::text_of;
use vstd::prelude::*;
use vstd::string::*;

verus! {

/// The mathematical value of a file record.
pub struct FileSpec {
    pub id: Seq<char>,
    pub name: Seq<char>,
    pub content: Seq<char>,
    pub language: Option<Seq<char>>,
    pub created_at: Timestamp,
    pub modified_at: Timestamp,
}

/// A file record: its identifier, its base name at creation, its whole text,
/// the language told from its extension at creation, and when it was created
/// and last written.
#[derive(Debug)]
pub struct VirtualFile {
    pub id: String,
    pub name: String,
    pub content: String,
    pub language: Option<String>,
    pub created_at: Timestamp,
    pub modified_at: Timestamp,
}

impl View for VirtualFile {
    type V = FileSpec;

    open spec fn view(&self) -> FileSpec {
        FileSpec {
            id: self.id@,
            name: self.name@,
            content: self.content@,
            language: text_of(self.language),
            created_at: self.created_at,
            modified_at: self.modified_at,
        }
    }
}

impl Clone for VirtualFile {
    /// A copy of this record.
    fn clone(&self) -> (c: Self)
        ensures
            c@ == self@,
    {
        let language = match &self.language {
            Some(l) => Some(l.clone()),
            None => None,
        };
        VirtualFile {
            id: self.id.clone(),
            name: self.name.clone(),
            content: self.content.clone(),
            language,
            created_at: self.created_at,
            modified_at: self.modified_at,
        }
    }
}

/// The values of a sequence of records, in order.
pub open spec fn record_views(records: Seq<VirtualFile>) -> Seq<FileSpec> {
    records.map_values(|r: VirtualFile| r@)
}

/// The map that a sequence of records stands for: each identifier with the
/// last record that carries it.
pub open spec fn records_map(records: Seq<FileSpec>) -> Map<Seq<char>, FileSpec>
    decreases records.len(),
{
    if records.len() == 0 {
        Map::empty()
    } else {
        records_map(records.drop_last()).insert(records.last().id, records.last())
    }
}

/// `records` without those that carry `id`, the others in their order.
pub open spec fn without_id(records: Seq<FileSpec>, id: Seq<char>) -> Seq<FileSpec>
    decreases records.len(),
{
    if records.len() == 0 {
        Seq::empty()
    } else {
        let before = without_id(records.drop_last(), id);
        if records.last().id == id {
            before
        } else {
            before.push(records.last())
        }
    }
}

/// `i` is the position of the last of `records` that carries `id`.
pub open spec fn is_last_with(records: Seq<FileSpec>, id: Seq<char>, i: int) -> bool {
    &&& 0 <= i < records.len()
    &&& records[i].id == id
    &&& forall|j: int| i < j < records.len() ==> (#[trigger] records[j]).id != id
}

proof fn lemma_map_absent(records: Seq<FileSpec>, id: Seq<char>)
    requires
        forall|j: int| 0 <= j < records.len() ==> (#[trigger] records[j]).id != id,
    ensures
        !records_map(records).contains_key(id),
    decreases records.len(),
{
    if records.len() > 0 {
        assert(records.last() == records[records.len() - 1]);
        lemma_map_absent(records.drop_last(), id);
    }
}

proof fn lemma_map_last(records: Seq<FileSpec>, id: Seq<char>, i: int)
    requires
        is_last_with(records, id, i),
    ensures
        records_map(records).contains_key(id),
        records_map(records)[id] == records[i],
    decreases records.len(),
{
    if i < records.len() - 1 {
        assert(records.last() == records[records.len() - 1]);
        lemma_map_last(records.drop_last(), id, i);
    }
}

proof fn lemma_map_update_last(records: Seq<FileSpec>, id: Seq<char>, i: int, r: FileSpec)
    requires
        is_last_with(records, id, i),
        r.id == id,
    ensures
        records_map(records.update(i, r)) == records_map(records).insert(id, r),
    decreases records.len(),
{
    let changed = records.update(i, r);
    if i < records.len() - 1 {
        assert(records.last() == records[records.len() - 1]);
        assert(changed.drop_last() =~= records.drop_last().update(i, r));
        lemma_map_update_last(records.drop_last(), id, i, r);
        assert(records_map(changed) =~= records_map(records).insert(id, r));
    } else {
        assert(changed.drop_last() =~= records.drop_last());
        assert(records_map(changed) =~= records_map(records).insert(id, r));
    }
}

proof fn lemma_map_without(records: Seq<FileSpec>, id: Seq<char>)
    ensures
        records_map(without_id(records, id)) == records_map(records).remove(id),
    decreases records.len(),
{
    if records.len() == 0 {
        assert(records_map(without_id(records, id)) =~= records_map(records).remove(id));
    } else {
        lemma_map_without(records.drop_last(), id);
        let kept = without_id(records.drop_last(), id);
        if records.last().id != id {
            assert(kept.push(records.last()).drop_last() =~= kept);
        }
        assert(records_map(without_id(records, id)) =~= records_map(records).remove(id));
    }
}

/// File records by identifier.
pub struct ContentStore {
    records: Vec<VirtualFile>,
}

impl View for ContentStore {
    type V = Map<Seq<char>, FileSpec>;

    closed spec fn view(&self) -> Map<Seq<char>, FileSpec> {
        records_map(record_views(self.records@))
    }
}

/// The value of an optional record reference.
pub open spec fn record_of(r: Option<&VirtualFile>) -> Option<FileSpec> {
    match r {
        Some(f) => Some(f@),
        None => None,
    }
}

/// What a map holds under a key, if anything.
pub open spec fn lookup(m: Map<Seq<char>, FileSpec>, id: Seq<char>) -> Option<FileSpec> {
    if m.contains_key(id) {
        Some(m[id])
    } else {
        None
    }
}

impl ContentStore {
    /// A store without records.
    pub fn new() -> (s: Self)
        ensures
            s@ == Map::<Seq<char>, FileSpec>::empty(),
    {
        ContentStore { records: Vec::new() }
    }

    /// The position of the last record that carries `id`.
    fn position(&self, id: &String) -> (r: Option<usize>)
        ensures
            r matches Some(i) ==> is_last_with(record_views(self.records@), id@, i as int),
            r is None ==> !self@.contains_key(id@),
    {
        let mut i: usize = self.records.len();
        while i > 0
            invariant
                i <= self.records.len(),
                forall|j: int|
                    i <= j < self.records.len() ==> (#[trigger] record_views(
                        self.records@,
                    )[j]).id != id@,
            decreases i,
        {
            if self.records[i - 1].id == *id {
                return Some(i - 1);
            }
            i = i - 1;
        }
        proof {
            lemma_map_absent(record_views(self.records@), id@);
        }
        None
    }

    /// The record stored under `id`, if there is one.
    pub fn get(&self, id: &str) -> (r: Option<&VirtualFile>)
        ensures
            record_of(r) == lookup(self@, id@),
    {
        let key = String::from_str(id);
        match self.position(&key) {
            Some(i) => {
                proof {
                    lemma_map_last(record_views(self.records@), id@, i as int);
                }
                Some(&self.records[i])
            },
            None => None,
        }
    }

    /// Whether a record is stored under `id`.
    pub fn contains(&self, id: &str) -> (b: bool)
        ensures
            b == self@.contains_key(id@),
    {
        let key = String::from_str(id);
        match self.position(&key) {
            Some(i) => {
                proof {
                    lemma_map_last(record_views(self.records@), id@, i as int);
                }
                true
            },
            None => false,
        }
    }

    /// Takes out every record that carries `id`.
    fn discard(&mut self, id: &String)
        ensures
            final(self)@ == old(self)@.remove(id@),
    {
        let ghost orig = record_views(self.records@);
        let ghost done: int = 0;
        let mut i: usize = 0;
        proof {
            assert(record_views(self.records@).subrange(0, 0) =~= without_id(
                orig.subrange(0, 0),
                id@,
            ));
            assert(record_views(self.records@).subrange(0, orig.len() as int) =~= orig);
        }
        while i < self.records.len()
            invariant
                orig == record_views(old(self).records@),
                0 <= done <= orig.len(),
                i <= self.records.len(),
                self.records.len() - i == orig.len() - done,
                record_views(self.records@).subrange(0, i as int) == without_id(
                    orig.subrange(0, done),
                    id@,
                ),
                record_views(self.records@).subrange(i as int, self.records.len() as int)
                    == orig.subrange(done, orig.len() as int),
            decreases orig.len() - done,
        {
            let ghost before = record_views(self.records@);
            let ghost len = self.records.len() as int;
            proof {
                assert(before[i as int] == before.subrange(i as int, len)[0]);
                assert(before[i as int] == orig[done]);
                assert(orig.subrange(0, done + 1).drop_last() =~= orig.subrange(0, done));
                assert(orig.subrange(0, done + 1).last() == orig[done]);
            }
            if self.records[i].id == *id {
                self.records.remove(i);
                proof {
                    let now = record_views(self.records@);
                    assert(now.subrange(0, i as int) =~= before.subrange(0, i as int));
                    let tail = now.subrange(i as int, len - 1);
                    let want = orig.subrange(done + 1, orig.len() as int);
                    assert forall|x: int| 0 <= x < tail.len() implies #[trigger] tail[x]
                        == want[x] by {
                        assert(before.subrange(i as int, len)[x + 1] == orig.subrange(
                            done,
                            orig.len() as int,
                        )[x + 1]);
                    }
                    assert(tail =~= want);
                    done = done + 1;
                }
            } else {
                proof {
                    let now = record_views(self.records@);
                    assert(now.subrange(0, i + 1) =~= before.subrange(0, i as int).push(
                        orig[done],
                    ));
                    let tail = now.subrange(i + 1, len);
                    let want = orig.subrange(done + 1, orig.len() as int);
                    assert forall|x: int| 0 <= x < tail.len() implies #[trigger] tail[x]
                        == want[x] by {
                        assert(before.subrange(i as int, len)[x + 1] == orig.subrange(
                            done,
                            orig.len() as int,
                        )[x + 1]);
                    }
                    assert(tail =~= want);
                    done = done + 1;
                }
                i = i + 1;
            }
        }
        proof {
            assert(orig.subrange(0, orig.len() as int) =~= orig);
            assert(record_views(self.records@).subrange(0, i as int) =~= record_views(
                self.records@,
            ));
            lemma_map_without(orig, id@);
        }
    }

    /// Stores `record` under its identifier, in place of any record that was
    /// stored under it.
    pub fn put(&mut self, record: VirtualFile)
        ensures
            final(self)@ == old(self)@.insert(record@.id, record@),
    {
        self.discard(&record.id);
        let ghost before = record_views(self.records@);
        let ghost value = record@;
        self.records.push(record);
        proof {
            assert(record_views(self.records@) =~= before.push(value));
            assert(record_views(self.records@).drop_last() =~= before);
            assert(final(self)@ =~= old(self)@.insert(value.id, value));
        }
    }

    /// Replaces the content of the record stored under `id` and sets the time
    /// of its last write to `now`. Fails where no record is stored under `id`.
    pub fn update(&mut self, id: &str, content: String, now: Timestamp) -> (r: Result<
        (),
        VfsError,
    >)
        ensures
            old(self)@.contains_key(id@) ==> r == Ok::<(), VfsError>(()) && final(self)@ == old(
                self,
            )@.insert(
                id@,
                FileSpec { content: content@, modified_at: now, ..old(self)@[id@] },
            ),
            !old(self)@.contains_key(id@) ==> r == Err::<(), VfsError>(VfsError::NotFound)
                && final(self)@ == old(self)@,
    {
        let key = String::from_str(id);
        match self.position(&key) {
            Some(i) => {
                let ghost before = record_views(self.records@);
                proof {
                    lemma_map_last(before, id@, i as int);
                }
                self.records[i].content = content;
                self.records[i].modified_at = now;
                proof {
                    let changed = FileSpec {
                        content: content@,
                        modified_at: now,
                        ..before[i as int]
                    };
                    assert(record_views(self.records@) =~= before.update(i as int, changed));
                    lemma_map_update_last(before, id@, i as int, changed);
                }
                Ok(())
            },
            None => Err(VfsError::NotFound),
        }
    }

    /// Takes out the record stored under `id`. Fails where there is none.
    pub fn remove(&mut self, id: &str) -> (r: Result<(), VfsError>)
        ensures
            old(self)@.contains_key(id@) ==> r == Ok::<(), VfsError>(()) && final(self)@ == old(
                self,
            )@.remove(id@),
            !old(self)@.contains_key(id@) ==> r == Err::<(), VfsError>(VfsError::NotFound)
                && final(self)@ == old(self)@,
    {
        if !self.contains(id) {
            return Err(VfsError::NotFound);
        }
        let key = String::from_str(id);
        self.discard(&key);
        Ok(())
    }
}

} // verus!
