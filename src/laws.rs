use crate::errors::AppError;
use crate::store::StoreView;
use crate::task::is_blank;
use vstd::prelude::*;

verus! {

/// The store after one insert for each (title, details) pair, in order.
pub open spec fn insert_all(s: StoreView, requests: Seq<(Seq<char>, Seq<char>)>) -> StoreView
    decreases requests.len(),
{
    if requests.len() == 0 {
        s
    } else {
        let last = requests.last();
        insert_all(s, requests.drop_last()).after_insert(last.0, last.1)
    }
}

/// An insert keeps the store well formed.
pub proof fn lemma_insert_keeps_wf(s: StoreView, title: Seq<char>, details: Seq<char>)
    requires
        s.wf(),
    ensures
        s.after_insert(title, details).wf(),
{
    let t = s.after_insert(title, details);
    if s.insert_result(title, details) is Ok {
        assert forall|i: int| 0 <= i < t.tasks.len() implies #[trigger] t.tasks[i].id < t.next_id by {
            if i < s.tasks.len() {
                assert(t.tasks[i] == s.tasks[i]);
            }
        }
        assert forall|i: int, j: int|
            0 <= i < t.tasks.len() && 0 <= j < t.tasks.len() && i != j implies #[trigger] t.tasks[i].id
            != #[trigger] t.tasks[j].id by {
            if i < s.tasks.len() {
                assert(t.tasks[i] == s.tasks[i]);
            }
            if j < s.tasks.len() {
                assert(t.tasks[j] == s.tasks[j]);
            }
        }
        assert forall|i: int| 0 <= i < t.tasks.len() implies !is_blank(#[trigger] t.tasks[i].title) by {
            if i < s.tasks.len() {
                assert(t.tasks[i] == s.tasks[i]);
            }
        }
    }
}

/// Finding a task by the identifier that a successful insert returned gives
/// back exactly the task that the insert returned.
pub proof fn lemma_insert_then_find(s: StoreView, title: Seq<char>, details: Seq<char>)
    requires
        s.wf(),
        s.insert_result(title, details) is Ok,
    ensures
        s.after_insert(title, details).find_result(s.insert_result(title, details)->Ok_0.id)
            == s.insert_result(title, details),
{
    lemma_insert_keeps_wf(s, title, details);
    let t = s.after_insert(title, details);
    let task = s.insert_result(title, details)->Ok_0;
    let last = s.tasks.len() as int;
    assert(t.tasks[last] == task);
    assert(t.holds_id(task.id));
    let k = t.index_of(task.id);
    assert(t.tasks[k].id == task.id);
}

/// Two inserts in a row that both succeed hand out different identifiers.
/// Each operation on a shared store runs alone under the one lock that guards
/// it, so concurrent inserts take effect as such a sequence.
pub proof fn lemma_two_inserts_distinct(
    s: StoreView,
    title1: Seq<char>,
    details1: Seq<char>,
    title2: Seq<char>,
    details2: Seq<char>,
)
    requires
        s.wf(),
        s.insert_result(title1, details1) is Ok,
        s.after_insert(title1, details1).insert_result(title2, details2) is Ok,
    ensures
        s.insert_result(title1, details1)->Ok_0.id != s.after_insert(title1, details1).insert_result(
            title2,
            details2,
        )->Ok_0.id,
        s.after_insert(title1, details1).after_insert(title2, details2).tasks.len() == s.tasks.len()
            + 2,
{
}

/// After `n` inserts that each have a non-blank title, and room left in the
/// counter, the store holds `n` more tasks, numbered on from the counter, and
/// stays well formed (so all identifiers differ). From the empty store, the
/// listing then has exactly `n` tasks.
pub proof fn lemma_inserts_count(s: StoreView, requests: Seq<(Seq<char>, Seq<char>)>)
    requires
        s.wf(),
        forall|k: int| 0 <= k < requests.len() ==> !is_blank(#[trigger] requests[k].0),
        s.next_id + requests.len() <= u64::MAX,
    ensures
        insert_all(s, requests).wf(),
        insert_all(s, requests).tasks.len() == s.tasks.len() + requests.len(),
        insert_all(s, requests).next_id == s.next_id + requests.len(),
        forall|k: int|
            0 <= k < requests.len() ==> #[trigger] insert_all(s, requests).tasks[s.tasks.len() + k]
                == (crate::task::TaskView {
                id: (s.next_id + k) as u64,
                title: requests[k].0,
                details: requests[k].1,
            }),
    decreases requests.len(),
{
    if requests.len() > 0 {
        let front = requests.drop_last();
        assert forall|k: int| 0 <= k < front.len() implies !is_blank(#[trigger] front[k].0) by {
            assert(front[k] == requests[k]);
        }
        lemma_inserts_count(s, front);
        let m = insert_all(s, front);
        let last = requests.last();
        lemma_insert_keeps_wf(m, last.0, last.1);
        assert(!is_blank(requests[requests.len() - 1].0));
        let t = insert_all(s, requests);
        assert forall|k: int| 0 <= k < requests.len() implies #[trigger] t.tasks[s.tasks.len() + k]
            == (crate::task::TaskView {
            id: (s.next_id + k) as u64,
            title: requests[k].0,
            details: requests[k].1,
        }) by {
            if k < front.len() {
                assert(front[k] == requests[k]);
                assert(m.tasks[s.tasks.len() + k] == t.tasks[s.tasks.len() + k]);
            }
        }
    }
}

/// After a delete of `id`, finding `id` fails with `IdNotFound(id)`.
pub proof fn lemma_delete_then_find(s: StoreView, id: u64)
    requires
        s.wf(),
    ensures
        s.after_delete(id).find_result(id) == Err::<crate::task::TaskView, AppError>(
            AppError::IdNotFound(id),
        ),
{
    if s.holds_id(id) {
        let k = s.index_of(id);
        let t = s.after_delete(id);
        assert(s.tasks[k].id == id);
        assert forall|j: int| 0 <= j < t.tasks.len() implies #[trigger] t.tasks[j].id != id by {
            if j < k {
                assert(t.tasks[j] == s.tasks[j]);
            } else {
                assert(t.tasks[j] == s.tasks[j + 1]);
            }
        }
    }
}

/// An update of an identifier that no task carries changes nothing; with a
/// non-blank title it fails with `IdNotFound`, with a blank one the title is
/// refused first.
pub proof fn lemma_update_missing(s: StoreView, id: u64, title: Seq<char>, details: Seq<char>)
    requires
        !s.holds_id(id),
    ensures
        s.after_update(id, title, details) == s,
        !is_blank(title) ==> s.update_result(id, title, details) == Err::<
            crate::task::TaskView,
            AppError,
        >(AppError::IdNotFound(id)),
        is_blank(title) ==> s.update_result(id, title, details) == Err::<
            crate::task::TaskView,
            AppError,
        >(AppError::EmptyTitle),
{
}

/// An insert with a blank title fails with `EmptyTitle`, creates no task and
/// leaves the counter where it was.
pub proof fn lemma_blank_insert(s: StoreView, title: Seq<char>, details: Seq<char>)
    requires
        is_blank(title),
    ensures
        s.insert_result(title, details) == Err::<crate::task::TaskView, AppError>(
            AppError::EmptyTitle,
        ),
        s.after_insert(title, details) == s,
{
}

} // verus!
