use vstd::prelude::*;

verus! {

/// The observable state of one store type's entry in a registry table.
pub enum EntryPhase {
    /// No entry: the type was never requested from this registry.
    Absent,
    /// Entry present but empty: the pending marker. The type was requested
    /// and its constructor has not yet delivered a context.
    Pending,
    /// Entry present and holding the fully constructed context.
    Ready,
}

/// One store type's part of a registry's run: the phase of its entry,
/// whether its constructor is running at this moment, and how many times the
/// constructor has ever been started. The steps below are the ways
/// `Registry::get_or_init` touches the entry of the requested type; calls it
/// makes for other types touch only those types' entries and are invisible
/// here. A request for a type whose own constructor is still running (a store
/// constructing itself) is unsupported and has no step.
pub struct EntryRun {
    pub phase: EntryPhase,
    pub constructing: bool,
    pub started: nat,
}

/// Before any request: no entry, no constructor run.
pub open spec fn entry_init(r: EntryRun) -> bool {
    &&& r.phase is Absent
    &&& !r.constructing
    &&& r.started == 0
}

/// The single short-lived table access of a first request materializes the
/// missing entry as the pending marker. The caller observed no context, so it
/// will construct.
pub open spec fn step_mark_pending(pre: EntryRun, post: EntryRun) -> bool {
    &&& pre.phase is Absent
    &&& post.phase is Pending
    &&& post.constructing == pre.constructing
    &&& post.started == pre.started
}

/// A request that finds the entry ready takes a clone of the stored context
/// and changes nothing. This is every call after the first completes,
/// including reentrant ones made from inside another store's constructor.
pub open spec fn step_observe_ready(pre: EntryRun, post: EntryRun) -> bool {
    &&& pre.phase is Ready
    &&& post == pre
}

/// Having observed the pending marker it just inserted, the call starts the
/// store's constructor — outside of any table access, so the constructor may
/// request other stores. No step of this entry is enabled again until the
/// construction finishes: the one request that could reach it meanwhile would
/// be a store requesting its own type, which is unsupported.
pub open spec fn step_begin_construct(pre: EntryRun, post: EntryRun) -> bool {
    &&& pre.phase is Pending
    &&& !pre.constructing
    &&& post.phase is Pending
    &&& post.constructing
    &&& post.started == pre.started + 1
}

/// The constructed context is stored: the entry goes from pending to ready,
/// and never changes again.
pub open spec fn step_store_context(pre: EntryRun, post: EntryRun) -> bool {
    &&& pre.phase is Pending
    &&& pre.constructing
    &&& post.phase is Ready
    &&& !post.constructing
    &&& post.started == pre.started
}

/// Any one step of the get-or-create algorithm on this type's entry.
pub open spec fn entry_step(pre: EntryRun, post: EntryRun) -> bool {
    ||| step_mark_pending(pre, post)
    ||| step_observe_ready(pre, post)
    ||| step_begin_construct(pre, post)
    ||| step_store_context(pre, post)
}

/// What always holds of an entry, however many requests have run: the
/// constructor was started at most once, it runs only under the pending
/// marker, and a ready entry is one whose single construction completed.
pub open spec fn entry_inv(r: EntryRun) -> bool {
    &&& (r.phase is Absent ==> !r.constructing && r.started == 0)
    &&& (r.phase is Pending && !r.constructing ==> r.started == 0)
    &&& (r.constructing ==> r.phase is Pending && r.started == 1)
    &&& (r.phase is Ready ==> !r.constructing && r.started == 1)
}

/// A fresh entry satisfies the invariant.
pub proof fn lemma_entry_init_inv(r: EntryRun)
    requires
        entry_init(r),
    ensures
        entry_inv(r),
{
}

/// Every step of the algorithm preserves the invariant.
pub proof fn lemma_entry_step_inv(pre: EntryRun, post: EntryRun)
    requires
        entry_inv(pre),
        entry_step(pre, post),
    ensures
        entry_inv(post),
{
}

/// Single construction: across any number of requests for one store type —
/// a run is any step sequence from the fresh entry — the store's constructor
/// is started at most once, and a ready entry stays ready as it is.
pub proof fn lemma_single_construction(run: Seq<EntryRun>)
    requires
        run.len() > 0,
        entry_init(run[0]),
        forall|i: int| 0 <= i < run.len() - 1 ==> entry_step(#[trigger] run[i], run[i + 1]),
    ensures
        forall|i: int| 0 <= i < run.len() ==> (#[trigger] run[i]).started <= 1,
        forall|i: int|
            0 <= i < run.len() - 1 && (#[trigger] run[i]).phase is Ready ==> run[i + 1] == run[i],
{
    lemma_entry_run_inv(run);
    assert forall|i: int| 0 <= i < run.len() implies (#[trigger] run[i]).started <= 1 by {
        assert(entry_inv(run[i]));
    }
}

/// The run of a first request — the entry is materialized as the pending
/// marker, construction begins, the built context is stored — is admitted by
/// the step relation and ends ready: the hypotheses of the run lemmas are
/// satisfiable, so their conclusions are not vacuous.
pub proof fn lemma_first_request_run() -> (run: Seq<EntryRun>)
    ensures
        run.len() == 4,
        entry_init(run[0]),
        forall|i: int| 0 <= i < run.len() - 1 ==> entry_step(#[trigger] run[i], run[i + 1]),
        run[3].phase is Ready,
{
    let absent = EntryRun { phase: EntryPhase::Absent, constructing: false, started: 0 };
    let marked = EntryRun { phase: EntryPhase::Pending, constructing: false, started: 0 };
    let building = EntryRun { phase: EntryPhase::Pending, constructing: true, started: 1 };
    let ready = EntryRun { phase: EntryPhase::Ready, constructing: false, started: 1 };
    let run = seq![absent, marked, building, ready];
    assert forall|i: int| 0 <= i < run.len() - 1 implies entry_step(
        #[trigger] run[i],
        run[i + 1],
    ) by {
        assert(step_mark_pending(absent, marked));
        assert(step_begin_construct(marked, building));
        assert(step_store_context(building, ready));
    }
    run
}

/// A whole registry table: one entry run per type identity. A table step is
/// one atomic step of the algorithm, and it touches exactly one type's entry:
/// that is how a constructor can request other stores while its own entry
/// waits under the pending marker.
pub open spec fn table_step(pre: Map<int, EntryRun>, post: Map<int, EntryRun>, k: int) -> bool {
    &&& pre.dom() == post.dom()
    &&& pre.dom().contains(k)
    &&& entry_step(pre[k], post[k])
    &&& forall|j: int| pre.dom().contains(j) && j != k ==> post[j] == pre[j]
}

/// Some algorithm step on some one type.
pub open spec fn table_step_some(pre: Map<int, EntryRun>, post: Map<int, EntryRun>) -> bool {
    exists|k: int| table_step(pre, post, k)
}

/// Reentrant construction stays single: in any run of a whole table from the
/// empty state — every step an algorithm step on some one type, however the
/// requests nest, a dependency's construction inside another store's
/// constructor included — every type's constructor is started at most once.
pub proof fn lemma_table_single_construction(run: Seq<Map<int, EntryRun>>)
    requires
        run.len() > 0,
        forall|k: int| run[0].dom().contains(k) ==> entry_init(#[trigger] run[0][k]),
        forall|i: int|
            0 <= i < run.len() - 1 ==> table_step_some(#[trigger] run[i], run[i + 1]),
    ensures
        forall|i: int, k: int|
            0 <= i < run.len() && run[i].dom().contains(k) ==> (#[trigger] run[i][k]).started
                <= 1,
{
    assert forall|i: int, k: int|
        0 <= i < run.len() && run[i].dom().contains(k) implies (#[trigger] run[i][k]).started
        <= 1 by {
        lemma_table_dom_fixed(run);
        assert(run[0].dom().contains(k));
        lemma_table_entry_inv(run, k);
        assert(entry_inv(run[i][k]));
    }
}

/// Each type's column of a table run satisfies the entry invariant at every
/// point: a step on the type is an algorithm step, and a step on any other
/// type leaves the column as it is.
pub proof fn lemma_table_entry_inv(run: Seq<Map<int, EntryRun>>, k: int)
    requires
        run.len() > 0,
        forall|j: int| run[0].dom().contains(j) ==> entry_init(#[trigger] run[0][j]),
        forall|i: int|
            0 <= i < run.len() - 1 ==> table_step_some(#[trigger] run[i], run[i + 1]),
        run[0].dom().contains(k),
    ensures
        forall|i: int| 0 <= i < run.len() ==> entry_inv((#[trigger] run[i])[k]),
    decreases run.len(),
{
    if run.len() == 1 {
        lemma_entry_init_inv(run[0][k]);
    } else {
        let prefix = run.drop_last();
        assert(forall|i: int| 0 <= i < prefix.len() ==> prefix[i] == run[i]);
        lemma_table_entry_inv(prefix, k);
        let last = run.len() - 1;
        let j = choose|j: int| #[trigger] table_step(run[last - 1], run[last], j);
        assert(entry_inv(prefix[last - 1][k]));
        if j == k {
            lemma_entry_step_inv(run[last - 1][k], run[last][k]);
        } else {
            assert(run[last - 1].dom() == run[0].dom()) by {
                lemma_table_dom_fixed(run);
            }
            assert(run[last][k] == run[last - 1][k]);
        }
        assert forall|i: int| 0 <= i < run.len() implies entry_inv((#[trigger] run[i])[k]) by {
            if i < run.len() - 1 {
                assert(entry_inv(prefix[i][k]));
            }
        }
    }
}

/// A table run never gains or loses types' entries; only phases change.
pub proof fn lemma_table_dom_fixed(run: Seq<Map<int, EntryRun>>)
    requires
        run.len() > 0,
        forall|i: int|
            0 <= i < run.len() - 1 ==> table_step_some(#[trigger] run[i], run[i + 1]),
    ensures
        forall|i: int| 0 <= i < run.len() ==> (#[trigger] run[i]).dom() == run[0].dom(),
    decreases run.len(),
{
    if run.len() > 1 {
        let prefix = run.drop_last();
        assert(forall|i: int| 0 <= i < prefix.len() ==> prefix[i] == run[i]);
        lemma_table_dom_fixed(prefix);
        let last = run.len() - 1;
        let j = choose|j: int| #[trigger] table_step(run[last - 1], run[last], j);
        assert(prefix[last - 1].dom() == run[0].dom());
    }
}

/// The run of a reentrant request — one store's constructor, already running,
/// requests a dependency that was never requested before; the dependency is
/// built and stored while the first entry waits under its pending marker —
/// is admitted by the table step relation and ends with both entries ready.
/// So the hypotheses of the table lemma are satisfiable by the very nesting
/// they are meant to cover.
pub proof fn lemma_nested_request_run() -> (run: Seq<Map<int, EntryRun>>)
    ensures
        run.len() == 7,
        forall|k: int| run[0].dom().contains(k) ==> entry_init(#[trigger] run[0][k]),
        forall|i: int|
            0 <= i < run.len() - 1 ==> table_step_some(#[trigger] run[i], run[i + 1]),
        forall|k: int| run[6].dom().contains(k) ==> (#[trigger] run[6][k]).phase is Ready,
{
    let absent = EntryRun { phase: EntryPhase::Absent, constructing: false, started: 0 };
    let marked = EntryRun { phase: EntryPhase::Pending, constructing: false, started: 0 };
    let building = EntryRun { phase: EntryPhase::Pending, constructing: true, started: 1 };
    let ready = EntryRun { phase: EntryPhase::Ready, constructing: false, started: 1 };
    let run = seq![
        map![0int => absent, 1int => absent],
        map![0int => marked, 1int => absent],
        map![0int => building, 1int => absent],
        map![0int => building, 1int => marked],
        map![0int => building, 1int => building],
        map![0int => building, 1int => ready],
        map![0int => ready, 1int => ready],
    ];
    assert forall|i: int| 0 <= i < run.len() - 1 implies table_step_some(
        #[trigger] run[i],
        run[i + 1],
    ) by {
        assert(run[i].dom() =~= run[i + 1].dom());
        if i == 0 {
            assert(table_step(run[0], run[1], 0));
        } else if i == 1 {
            assert(table_step(run[1], run[2], 0));
        } else if i == 2 {
            assert(table_step(run[2], run[3], 1));
        } else if i == 3 {
            assert(table_step(run[3], run[4], 1));
        } else if i == 4 {
            assert(table_step(run[4], run[5], 1));
        } else {
            assert(table_step(run[5], run[6], 0));
        }
    }
    run
}

/// The invariant holds at every point of a run.
pub proof fn lemma_entry_run_inv(run: Seq<EntryRun>)
    requires
        run.len() > 0,
        entry_init(run[0]),
        forall|i: int| 0 <= i < run.len() - 1 ==> entry_step(#[trigger] run[i], run[i + 1]),
    ensures
        forall|i: int| 0 <= i < run.len() ==> entry_inv(#[trigger] run[i]),
    decreases run.len(),
{
    if run.len() == 1 {
        lemma_entry_init_inv(run[0]);
    } else {
        let prefix = run.drop_last();
        assert(forall|i: int| 0 <= i < prefix.len() ==> prefix[i] == run[i]);
        lemma_entry_run_inv(prefix);
        lemma_entry_step_inv(run[run.len() - 2], run[run.len() - 1]);
        assert forall|i: int| 0 <= i < run.len() implies entry_inv(#[trigger] run[i]) by {
            if i < run.len() - 1 {
                assert(entry_inv(prefix[i]));
            }
        }
    }
}

} // verus!
