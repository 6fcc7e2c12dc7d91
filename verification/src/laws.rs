//! The coordinator's global guarantees, stated and proved over the models:
//! what a job's worker snapshot is, how the counters move over whole runs of
//! worker events, and why no batch number is ever assigned twice.

use vstd::prelude::*;
use crate::poll::{ActionModel, EventModel, deliver, step_action, step_state};
use crate::state::{Model, add_worker_m, start_job_m};

verus! {

/// The registry after appending each host of `hosts` in turn.
pub open spec fn add_workers_m(m: Model, hosts: Seq<Seq<char>>) -> Model
    decreases hosts.len(),
{
    if hosts.len() == 0 {
        m
    } else {
        add_workers_m(add_worker_m(m, hosts[0]), hosts.drop_first())
    }
}

/// Adding a worker touches the registry alone: every job field and the
/// accumulated results are exactly as before, so a job already running —
/// driven by the snapshot its start took — is unaffected.
pub proof fn lemma_add_worker_preserves_job(m: Model, host: Seq<char>)
    ensures
        add_worker_m(m, host) == (Model { hosts: m.hosts.push(host), ..m }),
{
}

/// Any sequence of added workers lands at the end of the registry, in
/// order, and changes nothing else of the state.
pub proof fn lemma_registry_after_adds(m: Model, hosts: Seq<Seq<char>>)
    ensures
        add_workers_m(m, hosts) == (Model { hosts: m.hosts + hosts, ..m }),
    decreases hosts.len(),
{
    if hosts.len() == 0 {
        assert(m.hosts + hosts =~= m.hosts);
        assert(add_workers_m(m, hosts) =~~= Model { hosts: m.hosts + hosts, ..m });
    } else {
        lemma_registry_after_adds(add_worker_m(m, hosts[0]), hosts.drop_first());
        assert(m.hosts.push(hosts[0]) + hosts.drop_first() =~= m.hosts + hosts);
        assert(add_workers_m(m, hosts) =~~= Model { hosts: m.hosts + hosts, ..m });
    }
}

/// The workers a job drives are exactly the registry at start time: after
/// any adds, a job started then is handed the initial registry plus the
/// added hosts, and nothing added later reaches it.
pub proof fn lemma_job_snapshot(
    m: Model,
    hosts: Seq<Seq<char>>,
    name: Seq<char>,
    batch_size: nat,
    batches: nat,
)
    ensures
        add_workers_m(m, hosts).hosts == m.hosts + hosts,
        start_job_m(add_workers_m(m, hosts), name, batch_size, batches).hosts == m.hosts + hosts,
{
    lemma_registry_after_adds(m, hosts);
}

/// One handled event never decreases `completed`, keeps both counters
/// within the job's total, leaves the total itself alone, and never raises
/// the running flag: once down, it stays down until a new job start.
pub proof fn lemma_step_monotone(m: Model, ev: EventModel)
    ensures
        step_state(m, ev).completed >= m.completed,
        m.wf() ==> step_state(m, ev).wf(),
        step_state(m, ev).batches == m.batches,
        step_state(m, ev).running ==> m.running,
{
}

/// The state after a whole run of worker events, handled in order.
pub open spec fn run_m(m: Model, evs: Seq<EventModel>) -> Model
    decreases evs.len(),
{
    if evs.len() == 0 {
        m
    } else {
        run_m(step_state(m, evs[0]), evs.drop_first())
    }
}

/// Over any run of worker events, `completed` never decreases, the
/// counters stay within the job's total, and the total is unchanged.
pub proof fn lemma_run_monotone(m: Model, evs: Seq<EventModel>)
    ensures
        run_m(m, evs).completed >= m.completed,
        m.wf() ==> run_m(m, evs).wf(),
        run_m(m, evs).batches == m.batches,
        run_m(m, evs).running ==> m.running,
    decreases evs.len(),
{
    if evs.len() > 0 {
        lemma_step_monotone(m, evs[0]);
        lemma_run_monotone(step_state(m, evs[0]), evs.drop_first());
    }
}

/// The running flag falls on a step only when `completed` stands exactly at
/// the job's total — a job whose counters are in bounds is never declared
/// over early — and any `Init` or `BatchComplete` handled at the total does
/// declare it over. (An `InProgress` report changes nothing, whatever the
/// counters say.)
pub proof fn lemma_flip_exactly_at_total(m: Model, ev: EventModel)
    requires
        m.wf(),
        m.running,
    ensures
        !step_state(m, ev).running ==> step_state(m, ev).completed == m.batches,
        step_state(m, ev).completed == m.batches && !(ev matches EventModel::InProgress { .. })
            ==> !step_state(m, ev).running,
{
}

/// The batch number a ready worker would be handed, if any: `None` once the
/// job is over or every batch is already reserved.
pub open spec fn dispatch_assigns(m: Model) -> Option<nat> {
    if m.completed >= m.batches {
        None
    } else if m.assigned < m.batches {
        Some(m.assigned)
    } else {
        None
    }
}

/// The batch number one handled event hands out, if any.
pub open spec fn step_assigns(m: Model, ev: EventModel) -> Option<nat> {
    match ev {
        EventModel::InProgress { .. } => None,
        EventModel::Init => dispatch_assigns(m),
        EventModel::BatchComplete { keyboards } => dispatch_assigns(deliver(m, keyboards)),
    }
}

/// A step answers an assignment exactly when the spec hands a number out,
/// and the assignment carries that number.
pub proof fn lemma_step_assigns_action(m: Model, host: Seq<char>, ev: EventModel)
    ensures
        match step_assigns(m, ev) {
            Some(b) => ({
                &&& step_action(m, host, ev) matches ActionModel::Assign { assignment }
                &&& step_action(m, host, ev)->Assign_assignment.batch_number == b
            }),
            None => !(step_action(m, host, ev) matches ActionModel::Assign { .. }),
        },
{
}

/// Each assignment reserves the current counter value and bumps it past
/// that value; the counter itself never moves backwards, and every number
/// handed out lies below the job's total.
pub proof fn lemma_step_assigns_bounds(m: Model, ev: EventModel)
    ensures
        step_state(m, ev).assigned >= m.assigned,
        step_assigns(m, ev) matches Some(b) ==> ({
            &&& b == m.assigned
            &&& step_state(m, ev).assigned == m.assigned + 1
            &&& b < m.batches
        }),
{
}

/// The batch numbers a run hands out, in the order of the assignments.
pub open spec fn run_assigns(m: Model, evs: Seq<EventModel>) -> Seq<nat>
    decreases evs.len(),
{
    if evs.len() == 0 {
        Seq::empty()
    } else {
        let rest = run_assigns(step_state(m, evs[0]), evs.drop_first());
        match step_assigns(m, evs[0]) {
            Some(b) => seq![b] + rest,
            None => rest,
        }
    }
}

/// Every batch number a run hands out is at least the reservation counter
/// the run started from.
pub proof fn lemma_run_assigns_low_bound(m: Model, evs: Seq<EventModel>)
    ensures
        forall|k: int| 0 <= k < run_assigns(m, evs).len() ==> run_assigns(m, evs)[k] >= m.assigned,
    decreases evs.len(),
{
    if evs.len() > 0 {
        let m1 = step_state(m, evs[0]);
        let rest = run_assigns(m1, evs.drop_first());
        let all = run_assigns(m, evs);
        lemma_step_assigns_bounds(m, evs[0]);
        lemma_run_assigns_low_bound(m1, evs.drop_first());
        assert forall|k: int| 0 <= k < all.len() implies all[k] >= m.assigned by {
            match step_assigns(m, evs[0]) {
                Some(b) => {
                    assert(all == seq![b] + rest);
                    if k > 0 {
                        assert(all[k] == rest[k - 1]);
                    }
                },
                None => {
                    assert(all == rest);
                },
            }
        }
    }
}

/// Each unit of work is assigned at most once: over any run of worker
/// events, the handed-out batch numbers strictly increase — so no two
/// assignments, to whatever workers, ever carry the same number — and each
/// lies below the job's total.
pub proof fn lemma_assignments_distinct(m: Model, evs: Seq<EventModel>)
    ensures
        forall|k1: int, k2: int| 0 <= k1 < k2 < run_assigns(m, evs).len()
            ==> run_assigns(m, evs)[k1] < run_assigns(m, evs)[k2],
        forall|k: int| 0 <= k < run_assigns(m, evs).len() ==> run_assigns(m, evs)[k] < m.batches,
    decreases evs.len(),
{
    if evs.len() > 0 {
        let m1 = step_state(m, evs[0]);
        let rest = run_assigns(m1, evs.drop_first());
        let all = run_assigns(m, evs);
        lemma_step_assigns_bounds(m, evs[0]);
        lemma_step_monotone(m, evs[0]);
        lemma_run_assigns_low_bound(m1, evs.drop_first());
        lemma_assignments_distinct(m1, evs.drop_first());
        assert forall|k1: int, k2: int| 0 <= k1 < k2 < all.len() implies all[k1] < all[k2] by {
            match step_assigns(m, evs[0]) {
                Some(b) => {
                    assert(all == seq![b] + rest);
                    assert(all[k2] == rest[k2 - 1]);
                    if k1 == 0 {
                        assert(all[k1] == b);
                        assert(rest[k2 - 1] >= m1.assigned);
                    } else {
                        assert(all[k1] == rest[k1 - 1]);
                    }
                },
                None => {
                    assert(all == rest);
                },
            }
        }
        assert forall|k: int| 0 <= k < all.len() implies all[k] < m.batches by {
            match step_assigns(m, evs[0]) {
                Some(b) => {
                    assert(all == seq![b] + rest);
                    if k > 0 {
                        assert(all[k] == rest[k - 1]);
                    }
                },
                None => {
                    assert(all == rest);
                },
            }
        }
    }
}

} // verus!
