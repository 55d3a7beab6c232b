//! The sync store: creators and their published sets as two tables of rows,
//! with the keys each table keeps unique.
//!
//! The store is a value. Reading it from disk and writing it back is the
//! caller's work; what a write does to the rows is decided here.

use vstd::prelude::*;
use crate::data::{CloudcastSummary, CloudcastSummaryView, summary_views};
use crate::error::StoreError;
use crate::instant::Timestamp;
use crate::migrate::{Migration, migration_views, migrations, plan_migrations, planned};
use crate::migrate::schema_statements;

verus! {

/// A creator row: the store's own id, the platform's id, and the username.
#[derive(Debug)]
pub struct Dj {
    pub id: i64,
    pub mixcloud_id: String,
    pub username: String,
}

pub struct DjView {
    pub id: int,
    pub mixcloud_id: Seq<char>,
    pub username: Seq<char>,
}

impl View for Dj {
    type V = DjView;

    open spec fn view(&self) -> DjView {
        DjView { id: self.id as int, mixcloud_id: self.mixcloud_id@, username: self.username@ }
    }
}

/// A row of the table of sets: the store's own id, the id of the creator's
/// row, and what the platform says of the set.
#[derive(Debug)]
pub struct StoredSet {
    pub id: i64,
    pub dj_id: i64,
    pub url: String,
    pub cover_url: String,
    pub publish_date: Timestamp,
    pub updated_date: Timestamp,
}

pub struct SetView {
    pub id: int,
    pub dj_id: int,
    pub url: Seq<char>,
    pub cover_url: Seq<char>,
    pub publish_date: Timestamp,
    pub updated_date: Timestamp,
}

impl View for StoredSet {
    type V = SetView;

    open spec fn view(&self) -> SetView {
        SetView {
            id: self.id as int,
            dj_id: self.dj_id as int,
            url: self.url@,
            cover_url: self.cover_url@,
            publish_date: self.publish_date,
            updated_date: self.updated_date,
        }
    }
}

/// The views of a list of creator rows, in order.
pub open spec fn dj_views(djs: Seq<Dj>) -> Seq<DjView> {
    Seq::new(djs.len(), |i: int| djs[i]@)
}

/// The views of a list of set rows, in order.
pub open spec fn set_views(sets: Seq<StoredSet>) -> Seq<SetView> {
    Seq::new(sets.len(), |i: int| sets[i]@)
}

/// The ids of a table of creators, in row order.
pub open spec fn dj_ids(djs: Seq<DjView>) -> Seq<int> {
    Seq::new(djs.len(), |i: int| djs[i].id)
}

/// The ids of a table of sets, in row order.
pub open spec fn set_ids(sets: Seq<SetView>) -> Seq<int> {
    Seq::new(sets.len(), |i: int| sets[i].id)
}

/// The largest of a non-empty list of ids.
pub open spec fn max_id(ids: Seq<int>) -> int
    recommends
        ids.len() > 0,
    decreases ids.len(),
{
    if ids.len() <= 1 {
        ids[0]
    } else {
        let rest = max_id(ids.drop_last());
        if ids.last() > rest {
            ids.last()
        } else {
            rest
        }
    }
}

/// The id that a table gives its next new row: 1 in an empty table, and one
/// above the largest id in use otherwise.
pub open spec fn next_id(ids: Seq<int>) -> int {
    if ids.len() == 0 {
        1
    } else {
        max_id(ids) + 1
    }
}

/// No two creators share an id or a platform id.
pub open spec fn unique_djs(djs: Seq<DjView>) -> bool {
    forall|i: int, j: int|
        0 <= i < j < djs.len() ==> (#[trigger] djs[i]).id != (#[trigger] djs[j]).id
            && djs[i].mixcloud_id != djs[j].mixcloud_id
}

/// No two sets share an id or an external address.
pub open spec fn unique_sets(sets: Seq<SetView>) -> bool {
    forall|i: int, j: int|
        0 <= i < j < sets.len() ==> (#[trigger] sets[i]).id != (#[trigger] sets[j]).id
            && sets[i].url != sets[j].url
}

pub struct StoreView {
    pub djs: Seq<DjView>,
    pub sets: Seq<SetView>,
}

/// What every store keeps true of its two tables.
pub open spec fn consistent(s: StoreView) -> bool {
    unique_djs(s.djs) && unique_sets(s.sets)
}

/// Whether a table of creators has a row for a platform id.
pub open spec fn has_dj(djs: Seq<DjView>, mixcloud_id: Seq<char>) -> bool {
    exists|i: int| 0 <= i < djs.len() && (#[trigger] djs[i]).mixcloud_id == mixcloud_id
}

/// The place of the row for a platform id, in a table that has one.
pub open spec fn dj_position(djs: Seq<DjView>, mixcloud_id: Seq<char>) -> int
    recommends
        has_dj(djs, mixcloud_id),
{
    choose|i: int| 0 <= i < djs.len() && (#[trigger] djs[i]).mixcloud_id == mixcloud_id
}

/// The id under which an upsert leaves the creator: the id of the row it
/// replaces, or the table's next id where there is none.
pub open spec fn upserted_id(djs: Seq<DjView>, mixcloud_id: Seq<char>) -> int {
    if has_dj(djs, mixcloud_id) {
        djs[dj_position(djs, mixcloud_id)].id
    } else {
        next_id(dj_ids(djs))
    }
}

/// The table of creators after an upsert: the row for the platform id is
/// replaced in place, keeping its id and taking the new username; where there
/// is no such row, a new one is added at the end.
pub open spec fn upserted(djs: Seq<DjView>, username: Seq<char>, mixcloud_id: Seq<char>) -> Seq<
    DjView,
> {
    let row = DjView { id: upserted_id(djs, mixcloud_id), mixcloud_id, username };
    if has_dj(djs, mixcloud_id) {
        djs.update(dj_position(djs, mixcloud_id), row)
    } else {
        djs.push(row)
    }
}

/// Whether a table of sets has a row for an external address.
pub open spec fn has_url(sets: Seq<SetView>, url: Seq<char>) -> bool {
    exists|i: int| 0 <= i < sets.len() && (#[trigger] sets[i]).url == url
}

/// The row that a summary is stored as.
pub open spec fn stored_row(id: int, dj_id: int, c: CloudcastSummaryView) -> SetView {
    SetView {
        id,
        dj_id,
        url: c.url,
        cover_url: c.cover_url,
        publish_date: c.created_time,
        updated_date: c.updated_time,
    }
}

/// The table of sets after one insertion: unchanged where the address is
/// already stored, and one row longer otherwise.
pub open spec fn inserted(sets: Seq<SetView>, dj_id: int, c: CloudcastSummaryView) -> Seq<
    SetView,
> {
    if has_url(sets, c.url) {
        sets
    } else {
        sets.push(stored_row(next_id(set_ids(sets)), dj_id, c))
    }
}

/// The table of sets after a batch of insertions, one after the other.
pub open spec fn inserted_all(
    sets: Seq<SetView>,
    dj_id: int,
    batch: Seq<CloudcastSummaryView>,
) -> Seq<SetView>
    decreases batch.len(),
{
    if batch.len() == 0 {
        sets
    } else {
        inserted(inserted_all(sets, dj_id, batch.drop_last()), dj_id, batch.last())
    }
}

/// Every row's id is one that a row can hold.
pub open spec fn ids_fit(sets: Seq<SetView>) -> bool {
    forall|i: int| 0 <= i < sets.len() ==> (#[trigger] sets[i]).id <= i64::MAX
}

/// The largest id is one of the ids and none is above it.
pub proof fn lemma_max_id(ids: Seq<int>)
    requires
        ids.len() > 0,
    ensures
        forall|i: int| 0 <= i < ids.len() ==> ids[i] <= max_id(ids),
        exists|i: int| 0 <= i < ids.len() && ids[i] == max_id(ids),
    decreases ids.len(),
{
    if ids.len() > 1 {
        let rest = ids.drop_last();
        lemma_max_id(rest);
        let w = choose|i: int| 0 <= i < rest.len() && rest[i] == max_id(rest);
        assert(ids[w] == rest[w]);
        assert forall|i: int| 0 <= i < ids.len() implies ids[i] <= max_id(ids) by {
            if i < rest.len() {
                assert(ids[i] == rest[i]);
            }
        }
        if ids.last() > max_id(rest) {
            assert(ids[ids.len() - 1] == max_id(ids));
        } else {
            assert(ids[w] == max_id(ids));
        }
    } else {
        assert(ids[0] == max_id(ids));
    }
}

/// The id for the next creator row, or `None` where no id is left.
fn next_dj_id(djs: &Vec<Dj>) -> (r: Option<i64>)
    ensures
        match r {
            Some(id) => id == next_id(dj_ids(dj_views(djs@))),
            None => next_id(dj_ids(dj_views(djs@))) > i64::MAX,
        },
{
    let n = djs.len();
    if n == 0 {
        return Some(1);
    }
    let ghost ids = dj_ids(dj_views(djs@));
    let mut max = djs[0].id;
    let mut i: usize = 1;
    assert(ids.take(1).len() == 1);
    while i < n
        invariant
            1 <= i <= n,
            n == djs@.len(),
            ids == dj_ids(dj_views(djs@)),
            max == max_id(ids.take(i as int)),
        decreases n - i,
    {
        assert(ids.take(i + 1).drop_last() =~= ids.take(i as int));
        assert(ids.take(i + 1).last() == djs@[i as int].id);
        if djs[i].id > max {
            max = djs[i].id;
        }
        i += 1;
    }
    assert(ids.take(n as int) =~= ids);
    if max == i64::MAX {
        None
    } else {
        Some(max + 1)
    }
}

/// The id for the next set row, or `None` where no id is left.
fn next_set_id(sets: &Vec<StoredSet>) -> (r: Option<i64>)
    ensures
        match r {
            Some(id) => id == next_id(set_ids(set_views(sets@))),
            None => next_id(set_ids(set_views(sets@))) > i64::MAX,
        },
{
    let n = sets.len();
    if n == 0 {
        return Some(1);
    }
    let ghost ids = set_ids(set_views(sets@));
    let mut max = sets[0].id;
    let mut i: usize = 1;
    assert(ids.take(1).len() == 1);
    while i < n
        invariant
            1 <= i <= n,
            n == sets@.len(),
            ids == set_ids(set_views(sets@)),
            max == max_id(ids.take(i as int)),
        decreases n - i,
    {
        assert(ids.take(i + 1).drop_last() =~= ids.take(i as int));
        assert(ids.take(i + 1).last() == sets@[i as int].id);
        if sets[i].id > max {
            max = sets[i].id;
        }
        i += 1;
    }
    assert(ids.take(n as int) =~= ids);
    if max == i64::MAX {
        None
    } else {
        Some(max + 1)
    }
}

/// The place of the creator row for a platform id, if the table has one.
fn find_dj(djs: &Vec<Dj>, mixcloud_id: &String) -> (r: Option<usize>)
    ensures
        match r {
            Some(i) => i < djs@.len() && djs@[i as int].mixcloud_id@ == mixcloud_id@,
            None => !has_dj(dj_views(djs@), mixcloud_id@),
        },
{
    let n = djs.len();
    let mut i: usize = 0;
    while i < n
        invariant
            i <= n,
            n == djs@.len(),
            forall|j: int| 0 <= j < i ==> (#[trigger] dj_views(djs@)[j]).mixcloud_id != mixcloud_id@,
        decreases n - i,
    {
        if djs[i].mixcloud_id == *mixcloud_id {
            return Some(i);
        }
        i += 1;
    }
    None
}

/// The place of the set row for an external address, if the table has one.
fn find_url(sets: &Vec<StoredSet>, url: &String) -> (r: Option<usize>)
    ensures
        match r {
            Some(i) => i < sets@.len() && sets@[i as int].url@ == url@,
            None => !has_url(set_views(sets@), url@),
        },
{
    let n = sets.len();
    let mut i: usize = 0;
    while i < n
        invariant
            i <= n,
            n == sets@.len(),
            forall|j: int| 0 <= j < i ==> (#[trigger] set_views(sets@)[j]).url != url@,
        decreases n - i,
    {
        if sets[i].url == *url {
            return Some(i);
        }
        i += 1;
    }
    None
}

/// The two tables. Every store is consistent: its constructors check or
/// establish that, and every change keeps it.
#[derive(Debug)]
pub struct Store {
    djs: Vec<Dj>,
    sets: Vec<StoredSet>,
}

impl View for Store {
    type V = StoreView;

    closed spec fn view(&self) -> StoreView {
        StoreView { djs: dj_views(self.djs@), sets: set_views(self.sets@) }
    }
}

/// Whether no two of the rows share an id or a platform id.
fn djs_are_unique(djs: &Vec<Dj>) -> (ok: bool)
    ensures
        ok == unique_djs(dj_views(djs@)),
{
    let n = djs.len();
    let ghost rows = dj_views(djs@);
    let mut j: usize = 0;
    while j < n
        invariant
            j <= n,
            n == djs@.len(),
            rows == dj_views(djs@),
            forall|a: int, b: int|
                0 <= a < b < j ==> (#[trigger] rows[a]).id != (#[trigger] rows[b]).id
                    && rows[a].mixcloud_id != rows[b].mixcloud_id,
        decreases n - j,
    {
        let mut i: usize = 0;
        while i < j
            invariant
                i <= j < n,
                n == djs@.len(),
                rows == dj_views(djs@),
                forall|a: int|
                    0 <= a < i ==> (#[trigger] rows[a]).id != rows[j as int].id
                        && rows[a].mixcloud_id != rows[j as int].mixcloud_id,
            decreases j - i,
        {
            if djs[i].id == djs[j].id || djs[i].mixcloud_id == djs[j].mixcloud_id {
                assert(rows[i as int].id == rows[j as int].id || rows[i as int].mixcloud_id
                    == rows[j as int].mixcloud_id);
                return false;
            }
            i += 1;
        }
        j += 1;
    }
    true
}

/// Whether no two of the rows share an id or an external address.
fn sets_are_unique(sets: &Vec<StoredSet>) -> (ok: bool)
    ensures
        ok == unique_sets(set_views(sets@)),
{
    let n = sets.len();
    let ghost rows = set_views(sets@);
    let mut j: usize = 0;
    while j < n
        invariant
            j <= n,
            n == sets@.len(),
            rows == set_views(sets@),
            forall|a: int, b: int|
                0 <= a < b < j ==> (#[trigger] rows[a]).id != (#[trigger] rows[b]).id
                    && rows[a].url != rows[b].url,
        decreases n - j,
    {
        let mut i: usize = 0;
        while i < j
            invariant
                i <= j < n,
                n == sets@.len(),
                rows == set_views(sets@),
                forall|a: int|
                    0 <= a < i ==> (#[trigger] rows[a]).id != rows[j as int].id && rows[a].url
                        != rows[j as int].url,
            decreases j - i,
        {
            if sets[i].id == sets[j].id || sets[i].url == sets[j].url {
                assert(rows[i as int].id == rows[j as int].id || rows[i as int].url
                    == rows[j as int].url);
                return false;
            }
            i += 1;
        }
        j += 1;
    }
    true
}

impl Store {
    #[verifier::type_invariant]
    spec fn keeps_keys_unique(self) -> bool {
        consistent(self@)
    }

    /// A store with two empty tables.
    pub fn new() -> (s: Store)
        ensures
            s@.djs.len() == 0,
            s@.sets.len() == 0,
            consistent(s@),
    {
        Store { djs: Vec::new(), sets: Vec::new() }
    }

    /// Makes a store of rows that were read from elsewhere. Rows that break
    /// a table's uniqueness are refused.
    pub fn open(djs: Vec<Dj>, sets: Vec<StoredSet>) -> (r: Result<Store, StoreError>)
        ensures
            match r {
                Ok(s) => s@.djs == dj_views(djs@) && s@.sets == set_views(sets@) && consistent(
                    s@,
                ),
                Err(e) => e == StoreError::Corrupt && !consistent(
                    StoreView { djs: dj_views(djs@), sets: set_views(sets@) },
                ),
            },
    {
        if djs_are_unique(&djs) && sets_are_unique(&sets) {
            Ok(Store { djs, sets })
        } else {
            Err(StoreError::Corrupt)
        }
    }

    /// The creator rows, in table order.
    pub fn djs(&self) -> (r: &Vec<Dj>)
        ensures
            dj_views(r@) == self@.djs,
            consistent(self@),
    {
        proof {
            use_type_invariant(self);
        }
        &self.djs
    }

    /// The set rows, in table order.
    pub fn sets(&self) -> (r: &Vec<StoredSet>)
        ensures
            set_views(r@) == self@.sets,
            consistent(self@),
    {
        proof {
            use_type_invariant(self);
        }
        &self.sets
    }
}

/// Plans the migrations that a store at `stored_version` still needs to reach
/// this library's schema. A freshly created store is at version 0. The
/// caller runs each step's statement in a transaction of its own and, once
/// that has committed, records the step's version; it stops at the first
/// step that fails, which leaves the store at the last version recorded.
pub fn init(stored_version: i64) -> (plan: Vec<Migration>)
    ensures
        migration_views(plan@) == planned(stored_version as int, schema_statements()),
{
    let statements = migrations();
    plan_migrations(stored_version, &statements)
}

/// Inserts the creator, or replaces the row that has the same platform id,
/// and returns the store's own id of the row. A replaced row keeps its id and
/// its place; the username is overwritten. Fails, changing nothing, only
/// where a new row is due and no id is left for it.
pub fn upsert_dj(store: &mut Store, username: &str, mixcloud_id: &str) -> (r: Result<
    i64,
    StoreError,
>)
    ensures
        final(store)@.sets == old(store)@.sets,
        consistent(final(store)@),
        r is Ok <==> upserted_id(old(store)@.djs, mixcloud_id@) <= i64::MAX,
        match r {
            Ok(id) => id == upserted_id(old(store)@.djs, mixcloud_id@) && final(store)@.djs
                == upserted(old(store)@.djs, username@, mixcloud_id@),
            Err(e) => e == StoreError::Full && final(store)@ == old(store)@,
        },
{
    proof {
        use_type_invariant(&*store);
    }
    let key = mixcloud_id.to_owned();
    let ghost rows = store@.djs;
    let mut djs: Vec<Dj> = Vec::new();
    core::mem::swap(&mut store.djs, &mut djs);
    let found = find_dj(&djs, &key);
    let r = match found {
        Some(i) => {
            let id = djs[i].id;
            proof {
                assert(rows[i as int].mixcloud_id == key@);
                let p = dj_position(rows, key@);
                assert(rows[p].mixcloud_id == rows[i as int].mixcloud_id);
                assert(p == i);
            }
            let row = Dj { id, mixcloud_id: key, username: username.to_owned() };
            let ghost row_view = row@;
            djs.set(i, row);
            proof {
                let after = rows.update(i as int, row_view);
                assert(dj_views(djs@) =~= after);
                assert forall|a: int, b: int| 0 <= a < b < after.len() implies (#[trigger] after[a]).id
                    != (#[trigger] after[b]).id && after[a].mixcloud_id != after[b].mixcloud_id by {
                    assert(rows[a].id != rows[b].id && rows[a].mixcloud_id != rows[b].mixcloud_id);
                }
            }
            Ok(id)
        },
        None => {
            match next_dj_id(&djs) {
                Some(id) => {
                    let row = Dj { id, mixcloud_id: key, username: username.to_owned() };
                    let ghost row_view = row@;
                    proof {
                        if rows.len() > 0 {
                            lemma_max_id(dj_ids(rows));
                        }
                        assert forall|a: int| 0 <= a < rows.len() implies (#[trigger] rows[a]).id
                            != id && rows[a].mixcloud_id != key@ by {
                            assert(dj_ids(rows)[a] == rows[a].id);
                        }
                    }
                    djs.push(row);
                    proof {
                        assert(dj_views(djs@) =~= rows.push(row_view));
                    }
                    Ok(id)
                },
                None => Err(StoreError::Full),
            }
        },
    };
    store.djs = djs;
    r
}

/// A batch of insertions only ever adds rows at the end: the table after a
/// part of the batch is the beginning of the table after the whole batch.
pub proof fn lemma_inserted_all_extends(
    sets: Seq<SetView>,
    dj_id: int,
    batch: Seq<CloudcastSummaryView>,
    k: int,
)
    requires
        0 <= k <= batch.len(),
    ensures
        inserted_all(sets, dj_id, batch.take(k)).len() <= inserted_all(sets, dj_id, batch).len(),
        inserted_all(sets, dj_id, batch).take(
            inserted_all(sets, dj_id, batch.take(k)).len() as int,
        ) == inserted_all(sets, dj_id, batch.take(k)),
    decreases batch.len(),
{
    let part = inserted_all(sets, dj_id, batch.take(k));
    let whole = inserted_all(sets, dj_id, batch);
    if k == batch.len() {
        assert(batch.take(k) =~= batch);
        assert(whole.take(whole.len() as int) =~= whole);
    } else {
        let shorter = batch.drop_last();
        assert(shorter.take(k) =~= batch.take(k));
        lemma_inserted_all_extends(sets, dj_id, shorter, k);
        let most = inserted_all(sets, dj_id, shorter);
        assert(most.take(part.len() as int) == part);
        assert(whole.take(most.len() as int) =~= most);
        assert(whole.take(part.len() as int) =~= most.take(part.len() as int));
    }
}

/// Inserts a batch of sets for one creator. A set whose external address is
/// already stored, or came earlier in the batch, is skipped; every other set
/// becomes a new row at the end of the table. Fails, changing nothing, only
/// where some new row finds no id left.
pub fn insert_api_cloudcasts(store: &mut Store, dj_id: i64, sets: &[CloudcastSummary]) -> (r:
    Result<(), StoreError>)
    ensures
        final(store)@.djs == old(store)@.djs,
        consistent(final(store)@),
        r is Ok <==> ids_fit(inserted_all(old(store)@.sets, dj_id as int, summary_views(sets@))),
        match r {
            Ok(_) => final(store)@.sets == inserted_all(
                old(store)@.sets,
                dj_id as int,
                summary_views(sets@),
            ),
            Err(e) => e == StoreError::Full && final(store)@ == old(store)@,
        },
{
    proof {
        use_type_invariant(&*store);
    }
    let ghost before = store@.sets;
    let ghost batch = summary_views(sets@);
    let mut rows: Vec<StoredSet> = Vec::new();
    core::mem::swap(&mut store.sets, &mut rows);
    let kept = rows.len();
    let n = sets.len();
    let mut i: usize = 0;
    let mut full = false;
    assert(batch.take(0) =~= Seq::empty());
    assert(set_views(rows@).take(kept as int) =~= before);
    while i < n && !full
        invariant
            i <= n,
            n == sets@.len(),
            batch == summary_views(sets@),
            kept == before.len(),
            kept <= rows@.len(),
            set_views(rows@).take(kept as int) == before,
            unique_sets(set_views(rows@)),
            !full ==> set_views(rows@) == inserted_all(before, dj_id as int, batch.take(i as int)),
            full ==> !ids_fit(inserted_all(before, dj_id as int, batch)),
        decreases (n - i) + if full { 0int } else { 1int },
    {
        let c = &sets[i];
        let ghost cur = set_views(rows@);
        proof {
            assert(batch.take(i + 1).drop_last() =~= batch.take(i as int));
            assert(batch.take(i + 1).last() == c@);
        }
        let found = find_url(&rows, &c.url);
        proof {
            if let Some(j) = found {
                assert(cur[j as int].url == c@.url);
            }
            assert(inserted_all(before, dj_id as int, batch.take(i + 1)) == inserted(
                cur,
                dj_id as int,
                c@,
            ));
        }
        if found.is_none() {
            match next_set_id(&rows) {
                Some(id) => {
                    let row = StoredSet {
                        id,
                        dj_id,
                        url: c.url.clone(),
                        cover_url: c.pictures.extra_large.clone(),
                        publish_date: c.created_time,
                        updated_date: c.updated_time,
                    };
                    let ghost row_view = row@;
                    proof {
                        if cur.len() > 0 {
                            lemma_max_id(set_ids(cur));
                        }
                        assert forall|a: int| 0 <= a < cur.len() implies (#[trigger] cur[a]).id
                            != id && cur[a].url != c@.url by {
                            assert(set_ids(cur)[a] == cur[a].id);
                        }
                    }
                    rows.push(row);
                    proof {
                        assert(row_view == stored_row(id as int, dj_id as int, c@));
                        assert(set_views(rows@) =~= cur.push(row_view));
                        assert(cur.push(row_view).take(kept as int) =~= cur.take(kept as int));
                    }
                    i += 1;
                },
                None => {
                    proof {
                        let part = inserted_all(before, dj_id as int, batch.take(i + 1));
                        let whole = inserted_all(before, dj_id as int, batch);
                        lemma_inserted_all_extends(before, dj_id as int, batch, i + 1);
                        assert(part[cur.len() as int].id > i64::MAX);
                        assert(whole[cur.len() as int] == whole.take(part.len() as int)[cur.len() as int]);
                    }
                    full = true;
                },
            }
        } else {
            i += 1;
        }
    }
    if full {
        rows.truncate(kept);
        assert(set_views(rows@) =~= before);
        store.sets = rows;
        Err(StoreError::Full)
    } else {
        assert(batch.take(n as int) =~= batch);
        store.sets = rows;
        Ok(())
    }
}

/// What writing a creator and a batch of its sets as one change comes to: the
/// creator's id and the store after both writes, or the refusal where either
/// write finds no id left.
pub open spec fn persisted(
    s: StoreView,
    username: Seq<char>,
    mixcloud_id: Seq<char>,
    sets: Seq<CloudcastSummaryView>,
) -> Result<(int, StoreView), StoreError> {
    let id = upserted_id(s.djs, mixcloud_id);
    let rows = inserted_all(s.sets, id, sets);
    if id <= i64::MAX && ids_fit(rows) {
        Ok((id, StoreView { djs: upserted(s.djs, username, mixcloud_id), sets: rows }))
    } else {
        Err(StoreError::Full)
    }
}

/// Writes a creator and a batch of its sets as one change: either both are
/// stored, the sets under the creator's id, or the store is left as it was.
pub fn persist(store: &mut Store, username: &str, mixcloud_id: &str, sets: &[CloudcastSummary]) -> (r:
    Result<i64, StoreError>)
    ensures
        consistent(final(store)@),
        match persisted(old(store)@, username@, mixcloud_id@, summary_views(sets@)) {
            Ok((id, after)) => r == Ok::<i64, StoreError>(id as i64) && final(store)@ == after,
            Err(e) => r == Err::<i64, StoreError>(e) && final(store)@ == old(store)@,
        },
{
    let key = mixcloud_id.to_owned();
    let found = find_dj(store.djs(), &key);
    let planned_id = match found {
        Some(i) => {
            proof {
                let rows = store@.djs;
                assert(rows[i as int].mixcloud_id == key@);
                let p = dj_position(rows, key@);
                assert(rows[p].mixcloud_id == rows[i as int].mixcloud_id);
                assert(p == i);
            }
            Some(store.djs()[i].id)
        },
        None => next_dj_id(store.djs()),
    };
    match planned_id {
        None => Err(StoreError::Full),
        Some(id) => {
            match insert_api_cloudcasts(store, id, sets) {
                Err(e) => Err(e),
                Ok(_) => upsert_dj(store, username, mixcloud_id),
            }
        },
    }
}

} // verus!
