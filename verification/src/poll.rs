//! The per-worker poll loop's decision rule.
//!
//! One loop runs per worker for the lifetime of a job. Each turn it fetches
//! the worker's status and hands it to [`AppState::poll_step`], which
//! updates the shared state and answers with the action the loop must
//! perform next: sleep and re-query, push a batch assignment to the worker,
//! or terminate. The loop itself, with its network calls and sleeps, lives
//! outside the library; no lock is held across either.

use vstd::prelude::*;
use crate::data::{Keyboard, KeyboardModel, views_of};
use crate::state::{AppState, Model};

verus! {

/// Status a worker reports when polled.
#[derive(Debug)]
pub enum WorkerStatus {
    /// No outstanding batch.
    Init,
    /// Still computing its current batch.
    InProgress { batch_size: usize, completed: usize },
    /// Finished a batch; the scored layouts it produced.
    BatchComplete { keyboards: Vec<Keyboard> },
}

/// Mathematical model of a [`WorkerStatus`].
pub ghost enum EventModel {
    Init,
    InProgress { batch_size: nat, completed: nat },
    BatchComplete { keyboards: Seq<KeyboardModel> },
}

impl View for WorkerStatus {
    type V = EventModel;

    open spec fn view(&self) -> EventModel {
        match self {
            WorkerStatus::Init => EventModel::Init,
            WorkerStatus::InProgress { batch_size, completed } => EventModel::InProgress {
                batch_size: *batch_size as nat,
                completed: *completed as nat,
            },
            WorkerStatus::BatchComplete { keyboards } => EventModel::BatchComplete {
                keyboards: views_of(keyboards@),
            },
        }
    }
}

/// Outbound message assigning one numbered batch to one worker.
#[derive(Debug)]
pub struct BatchAssignment {
    pub job_name: String,
    pub device_name: String,
    pub batch_size: usize,
    pub batch_number: usize,
}

/// Mathematical model of a [`BatchAssignment`].
#[verifier::ext_equal]
pub ghost struct AssignmentModel {
    pub job_name: Seq<char>,
    pub device_name: Seq<char>,
    pub batch_size: nat,
    pub batch_number: nat,
}

impl View for BatchAssignment {
    type V = AssignmentModel;

    open spec fn view(&self) -> AssignmentModel {
        AssignmentModel {
            job_name: self.job_name@,
            device_name: self.device_name@,
            batch_size: self.batch_size as nat,
            batch_number: self.batch_number as nat,
        }
    }
}

/// What a poll loop must do after one status report is handled.
#[derive(Debug)]
pub enum PollAction {
    /// Wait out the poll interval, then query again.
    Sleep,
    /// Push this assignment to the worker, then query again.
    Assign { assignment: BatchAssignment },
    /// The job is over for this loop; stop polling this worker.
    Terminate,
}

/// Mathematical model of a [`PollAction`].
pub ghost enum ActionModel {
    Sleep,
    Assign { assignment: AssignmentModel },
    Terminate,
}

impl View for PollAction {
    type V = ActionModel;

    open spec fn view(&self) -> ActionModel {
        match self {
            PollAction::Sleep => ActionModel::Sleep,
            PollAction::Assign { assignment } => ActionModel::Assign { assignment: assignment@ },
            PollAction::Terminate => ActionModel::Terminate,
        }
    }
}

/// State change when a worker is ready for work: once every batch is done
/// the job is declared over; while unreserved batches remain the next one
/// is reserved by bumping `assigned`; otherwise nothing changes.
pub open spec fn dispatch_state(m: Model) -> Model {
    if m.completed >= m.batches {
        Model { running: false, ..m }
    } else if m.assigned < m.batches {
        Model { assigned: (m.assigned + 1) as nat, ..m }
    } else {
        m
    }
}

/// Action when a worker is ready for work: terminate once every batch is
/// done, assign the reserved batch number while any remains, else let the
/// worker idle. The assignment carries the job's name and batch size, the
/// worker's own address, and the batch number reserved for it.
pub open spec fn dispatch_action(m: Model, host: Seq<char>) -> ActionModel {
    if m.completed >= m.batches {
        ActionModel::Terminate
    } else if m.assigned < m.batches {
        ActionModel::Assign {
            assignment: AssignmentModel {
                job_name: m.job_name,
                device_name: host,
                batch_size: m.batch_size,
                batch_number: m.assigned,
            },
        }
    } else {
        ActionModel::Sleep
    }
}

/// State change when a worker delivers a finished batch: the completion
/// counter advances (never past the job's total) and the reported layouts
/// are appended to the accumulated results.
pub open spec fn deliver(m: Model, keyboards: Seq<KeyboardModel>) -> Model {
    Model {
        completed: if m.completed < m.batches {
            (m.completed + 1) as nat
        } else {
            m.completed
        },
        keyboards: m.keyboards + keyboards,
        ..m
    }
}

/// The state after one worker event is handled.
pub open spec fn step_state(m: Model, ev: EventModel) -> Model {
    match ev {
        EventModel::InProgress { .. } => m,
        EventModel::Init => dispatch_state(m),
        EventModel::BatchComplete { keyboards } => dispatch_state(deliver(m, keyboards)),
    }
}

/// The action answered for one worker event.
pub open spec fn step_action(m: Model, host: Seq<char>, ev: EventModel) -> ActionModel {
    match ev {
        EventModel::InProgress { .. } => ActionModel::Sleep,
        EventModel::Init => dispatch_action(m, host),
        EventModel::BatchComplete { keyboards } => dispatch_action(deliver(m, keyboards), host),
    }
}

impl AppState {
    /// Handle one status report from the poll loop of `host`.
    ///
    /// `InProgress` changes nothing and asks the loop to sleep. `Init` and
    /// `BatchComplete` run the dispatch rule, `BatchComplete` after first
    /// recording the delivered batch. Each assignment handed out reserves a
    /// fresh batch number, so no number is ever assigned twice.
    pub fn poll_step(&mut self, host: &String, status: WorkerStatus) -> (action: PollAction)
        ensures
            final(self)@ == step_state(old(self)@, status@),
            action@ == step_action(old(self)@, host@, status@),
    {
        match status {
            WorkerStatus::InProgress { .. } => PollAction::Sleep,
            WorkerStatus::Init => self.dispatch(host),
            WorkerStatus::BatchComplete { keyboards } => {
                let ghost delivered_kbs = views_of(keyboards@);
                let mut ks = keyboards;
                if self.completed < self.batches {
                    self.completed = self.completed + 1;
                }
                self.keyboards.append(&mut ks);
                proof {
                    assert(views_of(self.keyboards@) =~= old(self)@.keyboards + delivered_kbs);
                    assert(self@ =~~= deliver(old(self)@, delivered_kbs));
                }
                self.dispatch(host)
            },
        }
    }

    /// The dispatch rule shared by the `Init` and `BatchComplete` branches.
    fn dispatch(&mut self, host: &String) -> (action: PollAction)
        ensures
            final(self)@ == dispatch_state(old(self)@),
            action@ == dispatch_action(old(self)@, host@),
    {
        if self.completed >= self.batches {
            self.running = false;
            proof {
                assert(self@ =~~= dispatch_state(old(self)@));
            }
            PollAction::Terminate
        } else if self.assigned < self.batches {
            let number = self.assigned;
            self.assigned = number + 1;
            let assignment = BatchAssignment {
                job_name: self.job_name.clone(),
                device_name: host.clone(),
                batch_size: self.batch_size,
                batch_number: number,
            };
            proof {
                assert(self@ =~~= dispatch_state(old(self)@));
                assert(assignment@ =~= dispatch_action(old(self)@, host@)->Assign_assignment);
            }
            PollAction::Assign { assignment }
        } else {
            PollAction::Sleep
        }
    }
}

} // verus!
