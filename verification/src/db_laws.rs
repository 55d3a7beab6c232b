//! What holds of the store's tables across several writes.

use vstd::prelude::*;
use crate::data::CloudcastSummaryView;
use crate::db::{DjView, SetView, StoreView};
use crate::db::{dj_ids, dj_position, has_dj, has_url, inserted, inserted_all, lemma_max_id};
use crate::db::{consistent, next_id, persisted, set_ids, unique_djs, unique_sets, upserted};
use crate::db::upserted_id;

verus! {

/// One insertion keeps every address that was stored, and afterwards the
/// inserted set's address is stored too.
pub proof fn lemma_inserted_keeps_urls(
    sets: Seq<SetView>,
    dj_id: int,
    c: CloudcastSummaryView,
    url: Seq<char>,
)
    ensures
        has_url(sets, url) ==> has_url(inserted(sets, dj_id, c), url),
        has_url(inserted(sets, dj_id, c), c.url),
{
    let after = inserted(sets, dj_id, c);
    if has_url(sets, url) {
        let w = choose|i: int| 0 <= i < sets.len() && (#[trigger] sets[i]).url == url;
        assert(after[w].url == url);
    }
    if !has_url(sets, c.url) {
        assert(after[sets.len() as int].url == c.url);
    }
}

/// After a batch, the address of every set of the batch is stored.
pub proof fn lemma_inserted_all_stores_every_url(
    sets: Seq<SetView>,
    dj_id: int,
    batch: Seq<CloudcastSummaryView>,
)
    ensures
        forall|i: int|
            0 <= i < batch.len() ==> has_url(
                inserted_all(sets, dj_id, batch),
                (#[trigger] batch[i]).url,
            ),
    decreases batch.len(),
{
    if batch.len() > 0 {
        let shorter = batch.drop_last();
        let most = inserted_all(sets, dj_id, shorter);
        lemma_inserted_all_stores_every_url(sets, dj_id, shorter);
        assert forall|i: int| 0 <= i < batch.len() implies has_url(
            inserted_all(sets, dj_id, batch),
            (#[trigger] batch[i]).url,
        ) by {
            if i < batch.len() - 1 {
                assert(shorter[i] == batch[i]);
            }
            lemma_inserted_keeps_urls(most, dj_id, batch.last(), batch[i].url);
        }
    }
}

/// A batch whose addresses are all stored already changes nothing.
pub proof fn lemma_known_batch_changes_nothing(
    sets: Seq<SetView>,
    dj_id: int,
    batch: Seq<CloudcastSummaryView>,
)
    requires
        forall|i: int| 0 <= i < batch.len() ==> has_url(sets, (#[trigger] batch[i]).url),
    ensures
        inserted_all(sets, dj_id, batch) == sets,
    decreases batch.len(),
{
    if batch.len() > 0 {
        let shorter = batch.drop_last();
        assert forall|i: int| 0 <= i < shorter.len() implies has_url(
            sets,
            (#[trigger] shorter[i]).url,
        ) by {
            assert(shorter[i] == batch[i]);
        }
        lemma_known_batch_changes_nothing(sets, dj_id, shorter);
        assert(has_url(sets, batch[batch.len() - 1].url));
    }
}

/// Crawling again is safe: inserting a batch a second time, under whatever
/// creator id, leaves the table of sets exactly as the first insertion left
/// it, and so with the same number of rows.
pub proof fn lemma_second_insert_changes_nothing(
    sets: Seq<SetView>,
    dj_id: int,
    later_dj_id: int,
    batch: Seq<CloudcastSummaryView>,
)
    ensures
        inserted_all(inserted_all(sets, dj_id, batch), later_dj_id, batch) == inserted_all(
            sets,
            dj_id,
            batch,
        ),
        inserted_all(inserted_all(sets, dj_id, batch), later_dj_id, batch).len() == inserted_all(
            sets,
            dj_id,
            batch,
        ).len(),
{
    lemma_inserted_all_stores_every_url(sets, dj_id, batch);
    lemma_known_batch_changes_nothing(inserted_all(sets, dj_id, batch), later_dj_id, batch);
}

/// One insertion keeps the table's ids and addresses unique.
pub proof fn lemma_inserted_stays_unique(sets: Seq<SetView>, dj_id: int, c: CloudcastSummaryView)
    requires
        unique_sets(sets),
    ensures
        unique_sets(inserted(sets, dj_id, c)),
{
    if !has_url(sets, c.url) {
        let after = inserted(sets, dj_id, c);
        if sets.len() > 0 {
            lemma_max_id(set_ids(sets));
        }
        assert forall|i: int, j: int| 0 <= i < j < after.len() implies (#[trigger] after[i]).id != (
        #[trigger] after[j]).id && after[i].url != after[j].url by {
            assert(after[i] == sets[i]);
            if j < sets.len() {
                assert(after[j] == sets[j]);
            } else {
                assert(set_ids(sets)[i] == sets[i].id);
            }
        }
    }
}

/// A batch of insertions keeps the table's ids and addresses unique, also
/// where the batch itself names an address more than once.
pub proof fn lemma_inserted_all_stays_unique(
    sets: Seq<SetView>,
    dj_id: int,
    batch: Seq<CloudcastSummaryView>,
)
    requires
        unique_sets(sets),
    ensures
        unique_sets(inserted_all(sets, dj_id, batch)),
    decreases batch.len(),
{
    if batch.len() > 0 {
        lemma_inserted_all_stays_unique(sets, dj_id, batch.drop_last());
        lemma_inserted_stays_unique(
            inserted_all(sets, dj_id, batch.drop_last()),
            dj_id,
            batch.last(),
        );
    }
}

/// After an upsert the table has exactly one row for the platform id: it
/// holds the username and the id that the upsert gave, the table's keys are
/// still unique, and every other row is as it was.
pub proof fn lemma_upserted_row(djs: Seq<DjView>, username: Seq<char>, mixcloud_id: Seq<char>)
    requires
        unique_djs(djs),
    ensures
        unique_djs(upserted(djs, username, mixcloud_id)),
        has_dj(upserted(djs, username, mixcloud_id), mixcloud_id),
        upserted(djs, username, mixcloud_id)[dj_position(
            upserted(djs, username, mixcloud_id),
            mixcloud_id,
        )] == (DjView { id: upserted_id(djs, mixcloud_id), mixcloud_id, username }),
        has_dj(djs, mixcloud_id) ==> upserted(djs, username, mixcloud_id).len() == djs.len(),
        !has_dj(djs, mixcloud_id) ==> upserted(djs, username, mixcloud_id).len() == djs.len() + 1,
        forall|i: int|
            0 <= i < djs.len() && (#[trigger] djs[i]).mixcloud_id != mixcloud_id ==> upserted(
                djs,
                username,
                mixcloud_id,
            )[i] == djs[i],
{
    let after = upserted(djs, username, mixcloud_id);
    let row = DjView { id: upserted_id(djs, mixcloud_id), mixcloud_id, username };
    let place = if has_dj(djs, mixcloud_id) {
        dj_position(djs, mixcloud_id)
    } else {
        djs.len() as int
    };
    assert(after[place] == row);
    if !has_dj(djs, mixcloud_id) && djs.len() > 0 {
        lemma_max_id(dj_ids(djs));
    }
    assert forall|i: int, j: int| 0 <= i < j < after.len() implies (#[trigger] after[i]).id != (
    #[trigger] after[j]).id && after[i].mixcloud_id != after[j].mixcloud_id by {
        if has_dj(djs, mixcloud_id) {
            assert(djs[i].id != djs[j].id && djs[i].mixcloud_id != djs[j].mixcloud_id);
            assert(djs[place].mixcloud_id == mixcloud_id);
        } else {
            assert(after[i] == djs[i]);
            if j < djs.len() {
                assert(after[j] == djs[j]);
            } else {
                assert(dj_ids(djs)[i] == djs[i].id);
            }
        }
    }
    let found = dj_position(after, mixcloud_id);
    assert(after[found].mixcloud_id == after[place].mixcloud_id);
    assert(found == place);
}

/// The last writer wins: a second upsert for the same platform id adds no
/// row, returns the id that the first one returned, and leaves the second
/// username in the row.
pub proof fn lemma_second_upsert_overwrites(
    djs: Seq<DjView>,
    first_username: Seq<char>,
    second_username: Seq<char>,
    mixcloud_id: Seq<char>,
)
    requires
        unique_djs(djs),
    ensures
        ({
            let once = upserted(djs, first_username, mixcloud_id);
            let twice = upserted(once, second_username, mixcloud_id);
            &&& twice.len() == once.len()
            &&& upserted_id(once, mixcloud_id) == upserted_id(djs, mixcloud_id)
            &&& twice == upserted(djs, second_username, mixcloud_id)
            &&& twice[dj_position(twice, mixcloud_id)].username == second_username
        }),
{
    let once = upserted(djs, first_username, mixcloud_id);
    let twice = upserted(once, second_username, mixcloud_id);
    lemma_upserted_row(djs, first_username, mixcloud_id);
    lemma_upserted_row(once, second_username, mixcloud_id);
    lemma_upserted_row(djs, second_username, mixcloud_id);
    assert(twice =~= upserted(djs, second_username, mixcloud_id));
}

/// Persisting the same creator and the same sets a second time succeeds
/// wherever the first time did, gives the same creator id, and leaves both
/// tables with the rows and the row counts that the first time left; only
/// the username follows the second write.
pub proof fn lemma_second_persist_keeps_rows(
    s: StoreView,
    first_username: Seq<char>,
    second_username: Seq<char>,
    mixcloud_id: Seq<char>,
    sets: Seq<CloudcastSummaryView>,
)
    requires
        consistent(s),
        persisted(s, first_username, mixcloud_id, sets) is Ok,
    ensures
        ({
            let (id, once) = persisted(s, first_username, mixcloud_id, sets)->Ok_0;
            &&& persisted(once, second_username, mixcloud_id, sets) matches Ok((again, twice))
            &&& again == id
            &&& twice.sets == once.sets
            &&& twice.djs.len() == once.djs.len()
            &&& twice.djs == upserted(s.djs, second_username, mixcloud_id)
            &&& consistent(once)
            &&& consistent(twice)
        }),
{
    let (id, once) = persisted(s, first_username, mixcloud_id, sets)->Ok_0;
    lemma_upserted_row(s.djs, first_username, mixcloud_id);
    lemma_second_upsert_overwrites(s.djs, first_username, second_username, mixcloud_id);
    lemma_second_insert_changes_nothing(s.sets, id, id, sets);
    lemma_inserted_all_stays_unique(s.sets, id, sets);
    lemma_upserted_row(once.djs, second_username, mixcloud_id);
}

} // verus!
