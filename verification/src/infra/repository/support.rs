//! What the laws rest on: how the tag registry, the extension tables and the
//! associations behave under the steps of an update.

use crate::common::selection::{
    first_match, lemma_filter_map_push, lemma_first_match, lemma_first_match_at,
    lemma_first_match_none, lemma_found_after_push,
};
use crate::domain::prompt_manager::ActionType;
use crate::infra::repository::laws::occurrences;
use crate::infra::repository::outcome::{
    after_attach, after_detach, after_write, link_row, linked, resolve_all, resolve_or_create,
    stored_action, updated,
};
use crate::infra::repository::update::PromptManagerUpdateView;
use crate::infra::storage::integrity::{
    keys_handed_out, keys_in_order, lemma_tables_execute_wf, tag_id,
};
use crate::infra::storage::rows::{PromptManagerRowView, PromptManagerTagRow, TagRowView};
use crate::infra::storage::statement::StatementView;
use crate::infra::storage::tables::{
    manager_with_id, other_than, same_as, Tables, tag_linked_to, tag_with_id, tag_with_value,
};
use vstd::prelude::*;

verus! {

/// In a table whose keys are in order, a record is what its key finds.
pub proof fn lemma_found_by_key<T>(
    rows: Seq<T>,
    key_of: spec_fn(T) -> i32,
    p: spec_fn(T) -> bool,
    last: i32,
    i: int,
)
    requires
        keys_in_order(rows.map_values(key_of), last),
        0 <= i < rows.len(),
        forall|x: T| #[trigger] p(x) == (key_of(x) == key_of(rows[i])),
    ensures
        first_match(rows, p) == Some(rows[i]),
{
    let keys = rows.map_values(key_of);
    assert forall|j: int| 0 <= j < i implies !p(#[trigger] rows[j]) by {
        assert(keys[j] < keys[i]);
    }
    lemma_first_match_at(rows, p, i);
}

/// A key that exceeds the greatest key handed out finds nothing.
pub proof fn lemma_fresh_key<T>(
    rows: Seq<T>,
    key_of: spec_fn(T) -> i32,
    p: spec_fn(T) -> bool,
    last: i32,
    key: i32,
)
    requires
        keys_handed_out(rows.map_values(key_of), last),
        last < key,
        forall|x: T| #[trigger] p(x) == (key_of(x) == key),
    ensures
        first_match(rows, p) is None,
{
    let keys = rows.map_values(key_of);
    assert forall|j: int| 0 <= j < rows.len() implies !p(#[trigger] rows[j]) by {
        assert(keys[j] <= last);
    }
    lemma_first_match_none(rows, p);
}

/// The value of the tag with this id, if there is one.
pub open spec fn value_under(t: Tables, id: i32) -> Option<Seq<char>> {
    match t.find_tag(id) {
        Some(row) => Some(row.value),
        None => None,
    }
}

/// What resolving a list of tag values leaves: the tables differ from those
/// before in their tags alone, every tag that was there is still found, no
/// id is given twice, every id that is given finds a tag whose value is in
/// the list, and every value of the list is the value of a tag that one of
/// the ids finds.
pub open spec fn resolved(
    t: Tables,
    values: Seq<Seq<char>>,
    after: Tables,
    ids: Seq<i32>,
) -> bool {
    &&& after.wf()
    &&& after == (Tables { tags: after.tags, last_tag_id: after.last_tag_id, ..t })
    &&& forall|id: i32| #[trigger]
        t.find_tag(id) is Some ==> after.find_tag(id) == t.find_tag(id)
    &&& t.last_tag_id <= after.last_tag_id
    &&& forall|id: i32| id <= t.last_tag_id ==> #[trigger] after.find_tag(id) == t.find_tag(id)
    &&& ids.no_duplicates()
    &&& forall|k: int|
        0 <= k < ids.len() ==> (#[trigger] value_under(after, ids[k])) is Some && values.contains(
            value_under(after, ids[k])->Some_0,
        )
    &&& forall|j: int|
        #![trigger values[j]]
        0 <= j < values.len() ==> exists|k: int|
            0 <= k < ids.len() && #[trigger] value_under(after, ids[k]) == Some(values[j])
}

/// Resolving one value on tables that have their integrity.
pub proof fn lemma_resolve_or_create(t: Tables, value: Seq<char>)
    requires
        t.wf(),
        resolve_or_create(t, value).1 is Some,
    ensures
        ({
            let (after, id) = resolve_or_create(t, value);
            &&& after.wf()
            &&& after == (Tables { tags: after.tags, last_tag_id: after.last_tag_id, ..t })
            &&& value_under(after, id->Some_0) == Some(value)
            &&& forall|other: i32| #[trigger]
                t.find_tag(other) is Some ==> after.find_tag(other) == t.find_tag(other)
            &&& t.last_tag_id <= after.last_tag_id
            &&& forall|other: i32|
                other <= t.last_tag_id ==> #[trigger] after.find_tag(other) == t.find_tag(other)
        }),
{
    let (after, id) = resolve_or_create(t, value);
    let id = id->Some_0;
    lemma_first_match(t.tags, tag_with_value(value));
    match t.find_tag_by_value(value) {
        Some(row) => {
            let i = choose|i: int| 0 <= i < t.tags.len() && t.tags[i] == row;
            lemma_found_by_key(t.tags, tag_id(), tag_with_id(row.id), t.last_tag_id, i);
        },
        None => {
            let row = TagRowView { id, value };
            lemma_tables_execute_wf(
                t,
                StatementView::InsertTag { value },
            );
            lemma_fresh_key(t.tags, tag_id(), tag_with_id(id), t.last_tag_id, id);
            lemma_first_match(t.tags, tag_with_id(id));
            lemma_first_match_at(t.tags.push(row), tag_with_id(id), t.tags.len() as int);
            assert forall|other: i32| #[trigger] t.find_tag(other) is Some implies after.find_tag(
                other,
            ) == t.find_tag(other) by {
                lemma_found_after_push(t.tags, tag_with_id(other), row);
            }
            assert forall|other: i32| other <= t.last_tag_id implies #[trigger] after.find_tag(
                other,
            ) == t.find_tag(other) by {
                t.tags.lemma_filter_push(row, tag_with_id(other));
            }
        },
    }
}

/// Resolving a list of values on tables that have their integrity.
pub proof fn lemma_resolve_all(t: Tables, values: Seq<Seq<char>>)
    requires
        t.wf(),
        resolve_all(t, values).1 is Some,
    ensures
        resolved(t, values, resolve_all(t, values).0, resolve_all(t, values).1->Some_0),
    decreases values.len(),
{
    let (after, ids) = resolve_all(t, values);
    let ids = ids->Some_0;
    if values.len() > 0 {
        let front = values.drop_last();
        let (before, front_ids) = resolve_all(t, front);
        let front_ids = front_ids->Some_0;
        lemma_resolve_all(t, front);
        lemma_resolve_or_create(before, values.last());
        let id = resolve_or_create(before, values.last()).1->Some_0;
        assert forall|k: int| 0 <= k < ids.len() implies (#[trigger] value_under(
            after,
            ids[k],
        )) is Some && values.contains(value_under(after, ids[k])->Some_0) by {
            if k < front_ids.len() {
                assert(value_under(before, front_ids[k]) is Some);
                let value = value_under(before, front_ids[k])->Some_0;
                let j = choose|j: int| 0 <= j < front.len() && front[j] == value;
                assert(values[j] == value);
            } else {
                assert(values[values.len() - 1] == values.last());
            }
        }
        assert forall|j: int|
            #![trigger values[j]]
            0 <= j < values.len() implies exists|k: int|
            0 <= k < ids.len() && #[trigger] value_under(after, ids[k]) == Some(values[j]) by {
            if j < front.len() {
                assert(front[j] == values[j]);
                let k = choose|k: int|
                    0 <= k < front_ids.len() && #[trigger] value_under(before, front_ids[k])
                        == Some(front[j]);
                assert(ids[k] == front_ids[k]);
                assert(value_under(after, ids[k]) == value_under(before, front_ids[k]));
            } else {
                if front_ids.contains(id) {
                    let k = choose|k: int| 0 <= k < front_ids.len() && front_ids[k] == id;
                    assert(value_under(after, ids[k]) == Some(values[j]));
                } else {
                    assert(ids[ids.len() - 1] == id);
                    assert(value_under(after, ids[ids.len() - 1]) == Some(values[j]));
                }
            }
        }
    }
}

/// Associations of other managers give no tag of this one.
pub proof fn lemma_no_tags_of(links: Seq<PromptManagerTagRow>, tags: Seq<TagRowView>, m: i32)
    requires
        forall|i: int| 0 <= i < links.len() ==> (#[trigger] links[i]).prompt_manager_id != m,
    ensures
        links.filter_map(tag_linked_to(tags, m)) == Seq::<TagRowView>::empty(),
    decreases links.len(),
{
    if links.len() > 0 {
        lemma_no_tags_of(links.drop_last(), tags, m);
    }
}

/// The tag that the id at `k` finds.
pub open spec fn tag_at(t: Tables, ids: Seq<i32>) -> spec_fn(int) -> TagRowView {
    |k: int| t.find_tag(ids[k])->Some_0
}

/// After the first `n` associations are inserted, the manager's tags are
/// the tags that the first `n` ids find.
pub proof fn lemma_tags_of_linked(cleared: Tables, m: i32, ids: Seq<i32>, n: int)
    requires
        0 <= n <= ids.len(),
        forall|i: int|
            0 <= i < cleared.prompt_manager_tags.len() ==> (
            #[trigger] cleared.prompt_manager_tags[i]).prompt_manager_id != m,
        forall|k: int| 0 <= k < ids.len() ==> cleared.find_tag(#[trigger] ids[k]) is Some,
    ensures
        linked(cleared, m, ids.take(n)).tags_of(m) == Seq::new(n as nat, tag_at(cleared, ids)),
    decreases n,
{
    let pick = tag_linked_to(cleared.tags, m);
    if n == 0 {
        lemma_no_tags_of(cleared.prompt_manager_tags, cleared.tags, m);
    } else {
        lemma_tags_of_linked(cleared, m, ids, n - 1);
        let before = linked(cleared, m, ids.take(n - 1));
        let after = linked(cleared, m, ids.take(n));
        let row = link_row(cleared, m, ids.take(n), n - 1);
        assert(after.prompt_manager_tags =~= before.prompt_manager_tags.push(row));
        lemma_filter_map_push(before.prompt_manager_tags, pick, row);
    }
}

/// Deleting a manager from an extension table leaves none of it and all of
/// the others.
pub proof fn lemma_occurrences_without(rows: Seq<i32>, gone: i32, manager_id: i32)
    ensures
        occurrences(rows.filter(other_than(gone)), manager_id) == if manager_id == gone {
            0
        } else {
            occurrences(rows, manager_id)
        },
    decreases rows.len(),
{
    reveal(Seq::filter);
    if rows.len() > 0 {
        let front = rows.drop_last();
        lemma_occurrences_without(front, gone, manager_id);
        front.filter(other_than(gone)).lemma_filter_push(rows.last(), same_as(manager_id));
    }
}

/// Inserting a manager into an extension table adds one of it.
pub proof fn lemma_occurrences_push(rows: Seq<i32>, added: i32, manager_id: i32)
    ensures
        occurrences(rows.push(added), manager_id) == occurrences(rows, manager_id) + if manager_id
            == added {
            1nat
        } else {
            0nat
        },
{
    rows.lemma_filter_push(added, same_as(manager_id));
}

/// A manager whose id was not handed out yet stands in no extension table.
pub proof fn lemma_absent_from_extension(rows: Seq<i32>, last: i32, manager_id: i32)
    requires
        keys_handed_out(rows, last),
        last < manager_id,
    ensures
        occurrences(rows, manager_id) == 0,
{
    lemma_first_match_none(rows, same_as(manager_id));
}

/// What an update that succeeds does to the extension tables: a table loses
/// the manager where it is the table of the old action, and gains the
/// manager where it is the table of the new one.
pub proof fn lemma_updated_extensions(t: Tables, u: PromptManagerUpdateView, action: ActionType)
    requires
        t.wf(),
        updated(t, u) is Ok,
    ensures
        ({
            let after = updated(t, u)->Ok_0;
            let old = stored_action(t, u.id)->Ok_0;
            &&& after.prompt_managers == t.prompt_managers.map_values(Tables::replaced_by(u.row()))
            &&& u.action_type == Some(action) ==> occurrences(after.extension(action), u.id) == 1
            &&& old == Some(action) && u.action_type != Some(action) ==> occurrences(
                after.extension(action),
                u.id,
            ) == 0
            &&& old != Some(action) && u.action_type != Some(action) ==> occurrences(
                after.extension(action),
                u.id,
            ) == occurrences(t.extension(action), u.id)
            &&& forall|m: i32|
                m != u.id ==> #[trigger] occurrences(after.extension(action), m) == occurrences(
                    t.extension(action),
                    m,
                )
        }),
{
    let after = updated(t, u)->Ok_0;
    let old = stored_action(t, u.id)->Ok_0;
    let detached = after_detach(t, u)->Ok_0;
    let written = after_write(t, u)->Ok_0;
    let attached = after_attach(t, u)->Ok_0;
    assert(u.tags.take(u.tags.len() as int) == u.tags);
    if let Some(o) = old {
        lemma_tables_execute_wf(
            t,
            StatementView::DeleteExtension {
                action_type: o,
                manager_id: u.id,
            },
        );
    }
    lemma_tables_execute_wf(
        detached,
        StatementView::UpdateManager { row: u.row() },
    );
    if let Some(n) = u.action_type {
        lemma_tables_execute_wf(
            written,
            StatementView::InsertExtension {
                action_type: n,
                manager_id: u.id,
            },
        );
    }
    lemma_resolve_all(attached, u.tags);
    assert forall|m: i32| #![trigger occurrences(after.extension(action), m)]
        occurrences(detached.extension(action), m) == if old == Some(action) && m == u.id {
            0nat
        } else {
            occurrences(t.extension(action), m)
        } by {
        lemma_occurrences_without(t.extension(action), u.id, m);
    }
    assert forall|m: i32| #![trigger occurrences(after.extension(action), m)]
        occurrences(attached.extension(action), m) == occurrences(written.extension(action), m)
            + if u.action_type == Some(action) && m == u.id {
            1nat
        } else {
            0nat
        } by {
        lemma_occurrences_push(written.extension(action), u.id, m);
    }
}

/// Writing a manager's row leaves the search for every other manager as
/// it was.
pub proof fn lemma_replace_keeps_others(
    rows: Seq<PromptManagerRowView>,
    row: PromptManagerRowView,
    id: i32,
)
    requires
        id != row.id,
    ensures
        rows.map_values(Tables::replaced_by(row)).filter(manager_with_id(id)) == rows.filter(
            manager_with_id(id),
        ),
    decreases rows.len(),
{
    reveal(Seq::filter);
    if rows.len() > 0 {
        lemma_replace_keeps_others(rows.drop_last(), row, id);
        assert(rows.map_values(Tables::replaced_by(row)).drop_last()
            =~= rows.drop_last().map_values(Tables::replaced_by(row)));
    }
}

} // verus!
