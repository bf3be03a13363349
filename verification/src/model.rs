use vstd::prelude::*;

verus! {

/// A row of the task table as the contracts see it: the name's
/// characters and whether the task is complete.
pub type TaskRec = (Seq<char>, bool);

/// The rows left after deleting every row whose name matches exactly;
/// the others keep their relative order.
pub open spec fn removed(ts: Seq<TaskRec>, name: Seq<char>) -> Seq<TaskRec>
    decreases ts.len(),
{
    if ts.len() == 0 {
        Seq::empty()
    } else if ts.last().0 == name {
        removed(ts.drop_last(), name)
    } else {
        removed(ts.drop_last(), name).push(ts.last())
    }
}

/// The rows after marking every row whose name matches exactly as
/// complete; no other row changes.
pub open spec fn completed(ts: Seq<TaskRec>, name: Seq<char>) -> Seq<TaskRec> {
    ts.map_values(|t: TaskRec| if t.0 == name { (t.0, true) } else { t })
}

/// Adding a task and then listing yields that task, with status open;
/// the rows already in the store are untouched.
pub proof fn lemma_add_then_list(ts: Seq<TaskRec>, name: Seq<char>)
    ensures
        ts.push((name, false)).last() == (name, false),
        ts.push((name, false)).contains((name, false)),
        forall|i: int| 0 <= i < ts.len() ==> ts.push((name, false))[i] == ts[i],
{
    assert(ts.push((name, false))[ts.len() as int] == (name, false));
}

/// Marking a name complete sets exactly the matching rows to complete,
/// leaves the others unchanged, and never turns a complete row open.
pub proof fn lemma_complete_then_list(ts: Seq<TaskRec>, name: Seq<char>)
    ensures
        completed(ts, name).len() == ts.len(),
        forall|i: int|
            0 <= i < ts.len() ==> (#[trigger] completed(ts, name)[i]).0 == ts[i].0,
        forall|i: int|
            0 <= i < ts.len() ==> (#[trigger] completed(ts, name)[i]).1 == (ts[i].1 || ts[i].0
                == name),
{
}

/// Removing a name leaves no row with that name, and every surviving
/// row was already in the store unchanged.
pub proof fn lemma_remove_then_list(ts: Seq<TaskRec>, name: Seq<char>)
    ensures
        forall|j: int|
            0 <= j < removed(ts, name).len() ==> (#[trigger] removed(ts, name)[j]).0 != name,
        forall|j: int|
            0 <= j < removed(ts, name).len() ==> ts.contains(#[trigger] removed(ts, name)[j]),
    decreases ts.len(),
{
    if ts.len() == 0 {
    } else {
        let head = ts.drop_last();
        lemma_remove_then_list(head, name);
        assert forall|j: int|
            0 <= j < removed(ts, name).len() implies ts.contains(
            #[trigger] removed(ts, name)[j],
        ) by {
            let r = removed(ts, name);
            if ts.last().0 == name {
                assert(head.contains(r[j]));
                let k = choose|k: int| 0 <= k < head.len() && head[k] == r[j];
                assert(ts[k] == r[j]);
            } else {
                if j < removed(head, name).len() {
                    assert(head.contains(r[j]));
                    let k = choose|k: int| 0 <= k < head.len() && head[k] == r[j];
                    assert(ts[k] == r[j]);
                } else {
                    assert(r[j] == ts.last());
                    assert(ts[ts.len() - 1] == r[j]);
                }
            }
        }
    }
}

/// Removing or completing a name that no row carries leaves the store
/// unchanged.
pub proof fn lemma_missing_name_is_noop(ts: Seq<TaskRec>, name: Seq<char>)
    requires
        forall|i: int| 0 <= i < ts.len() ==> (#[trigger] ts[i]).0 != name,
    ensures
        removed(ts, name) == ts,
        completed(ts, name) == ts,
    decreases ts.len(),
{
    assert(completed(ts, name) =~= ts);
    if ts.len() == 0 {
        assert(removed(ts, name) =~= ts);
    } else {
        let head = ts.drop_last();
        assert(forall|i: int| 0 <= i < head.len() ==> (#[trigger] head[i]).0 != name);
        lemma_missing_name_is_noop(head, name);
        assert(ts[ts.len() - 1].0 != name);
        assert(removed(ts, name) =~= ts);
    }
}

/// Marking a name complete twice has the same effect as marking it once.
pub proof fn lemma_complete_idempotent(ts: Seq<TaskRec>, name: Seq<char>)
    ensures
        completed(completed(ts, name), name) == completed(ts, name),
{
    assert(completed(completed(ts, name), name) =~= completed(ts, name));
}

} // verus!
