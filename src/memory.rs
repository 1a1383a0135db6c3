//! Periodic removal of the persisted records of agents that are gone.
use vstd::prelude::*;

verus! {

/// Ticks between two sweeps.
pub const SWEEP_PERIOD: u32 = 32;

/// Tick within the period on which the sweep runs.
pub const SWEEP_PHASE: u32 = 3;

pub open spec fn is_sweep_tick(tick: u32) -> bool {
    tick % SWEEP_PERIOD == SWEEP_PHASE
}

/// Some name among `names` reads `n`.
pub open spec fn names_hold(names: Seq<String>, n: Seq<char>) -> bool {
    exists|i: int| 0 <= i < names.len() && #[trigger] names[i]@ == n
}

/// Names among `recorded` that no live agent carries, in their order.
pub open spec fn stale_names(recorded: Seq<String>, live: Seq<String>) -> Seq<Seq<char>>
    decreases recorded.len(),
{
    if recorded.len() == 0 {
        Seq::empty()
    } else if names_hold(live, recorded.last()@) {
        stale_names(recorded.drop_last(), live)
    } else {
        stale_names(recorded.drop_last(), live).push(recorded.last()@)
    }
}

/// Whether the sweep runs at `tick`.
pub fn sweep_due(tick: u32) -> (r: bool)
    ensures
        r == is_sweep_tick(tick),
{
    tick % SWEEP_PERIOD == SWEEP_PHASE
}

/// Whether some name among `names` reads `n`.
pub fn contains_name(names: &Vec<String>, n: &String) -> (r: bool)
    ensures
        r == names_hold(names@, n@),
{
    let mut i: usize = 0;
    while i < names.len()
        invariant
            i <= names@.len(),
            forall|k: int| 0 <= k < i ==> names@[k]@ != n@,
        decreases names@.len() - i,
    {
        if names[i] == *n {
            return true;
        }
        i = i + 1;
    }
    false
}

/// The records to delete at `tick`: on a sweep tick, those of `recorded`
/// whose agent is not among `live`; on any other tick, none.
pub fn cleanup_memory(tick: u32, recorded: &Vec<String>, live: &Vec<String>) -> (r: Vec<String>)
    ensures
        r@.len() == (if is_sweep_tick(tick) { stale_names(recorded@, live@).len() } else { 0 }),
        is_sweep_tick(tick) ==> forall|i: int| 0 <= i < r@.len() ==> #[trigger] r@[i]@ == stale_names(recorded@, live@)[i],
{
    let mut out: Vec<String> = Vec::new();
    if !sweep_due(tick) {
        return out;
    }
    let mut i: usize = 0;
    while i < recorded.len()
        invariant
            i <= recorded@.len(),
            out@.len() == stale_names(recorded@.subrange(0, i as int), live@).len(),
            forall|k: int| 0 <= k < out@.len() ==> #[trigger] out@[k]@ == stale_names(recorded@.subrange(0, i as int), live@)[k],
        decreases recorded@.len() - i,
    {
        assert(recorded@.subrange(0, i + 1).drop_last() =~= recorded@.subrange(0, i as int));
        if !contains_name(live, &recorded[i]) {
            out.push(recorded[i].clone());
        }
        i = i + 1;
    }
    assert(recorded@.subrange(0, i as int) =~= recorded@);
    out
}

/// The sweep deletes exactly the records of agents that are gone: a
/// recorded name is among those deleted if and only if no live agent
/// carries it, so the records of live agents stay.
pub proof fn lemma_sweep_deletes_exactly_dead(recorded: Seq<String>, live: Seq<String>, n: Seq<char>)
    ensures
        stale_names(recorded, live).contains(n) <==> (names_hold(recorded, n) && !names_hold(live, n)),
    decreases recorded.len(),
{
    if recorded.len() > 0 {
        let init = recorded.drop_last();
        lemma_sweep_deletes_exactly_dead(init, live, n);
        let prev = stale_names(init, live);
        if names_hold(recorded, n) {
            let i = choose|i: int| 0 <= i < recorded.len() && #[trigger] recorded[i]@ == n;
            if i < recorded.len() - 1 {
                assert(init[i]@ == n);
            }
        }
        if names_hold(init, n) {
            let i = choose|i: int| 0 <= i < init.len() && #[trigger] init[i]@ == n;
            assert(recorded[i]@ == n);
        }
        if !names_hold(live, recorded.last()@) {
            assert(prev.push(recorded.last()@).contains(recorded.last()@)) by {
                assert(prev.push(recorded.last()@)[prev.len() as int] == recorded.last()@);
            }
            if prev.push(recorded.last()@).contains(n) && n != recorded.last()@ {
                let k = choose|k: int| 0 <= k < prev.len() + 1 && prev.push(recorded.last()@)[k] == n;
                assert(prev[k] == n);
            }
            if prev.contains(n) {
                let k = choose|k: int| 0 <= k < prev.len() && prev[k] == n;
                assert(prev.push(recorded.last()@)[k] == n);
            }
        }
    }
}

/// Per-agent and process-wide values of a target key after migration: a
/// value only the process-wide key holds moves to the agent and leaves the
/// process-wide key; otherwise nothing changes.
pub open spec fn migrated(agent: Option<Seq<char>>, legacy: Option<Seq<char>>) -> (Option<Seq<char>>, Option<Seq<char>>) {
    if agent is None && legacy is Some {
        (legacy, None)
    } else {
        (agent, legacy)
    }
}

pub open spec fn text_view(t: Option<String>) -> Option<Seq<char>> {
    match t {
        Some(s) => Some(s@),
        None => None,
    }
}

/// Moves a target that only the process-wide key holds to the agent's own
/// key, and clears the process-wide key. Returns the new agent value and
/// the new process-wide value.
pub fn migrate_legacy_target(agent: Option<String>, legacy: Option<String>) -> (r: (Option<String>, Option<String>))
    ensures
        (text_view(r.0), text_view(r.1)) == migrated(text_view(agent), text_view(legacy)),
{
    match agent {
        Some(a) => (Some(a), legacy),
        None => match legacy {
            Some(l) => (Some(l), None),
            None => (None, None),
        },
    }
}

/// Migrating twice is migrating once, so the step may run on every tick.
pub proof fn lemma_migration_idempotent(agent: Option<Seq<char>>, legacy: Option<Seq<char>>)
    ensures
        migrated(migrated(agent, legacy).0, migrated(agent, legacy).1) == migrated(agent, legacy),
{
}

} // verus!
