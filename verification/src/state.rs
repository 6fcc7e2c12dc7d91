//! The coordinator's shared state: worker registry and active-job fields.

use vstd::prelude::*;
use crate::data::{Keyboard, KeyboardModel, views_of};

verus! {

/// Everything the coordinator tracks: the worker registry and the fields of
/// the current (or most recent) job.
///
/// Two counters drive the assignment protocol. `assigned` is the number of
/// batches handed out so far; it is bumped at assignment time, so each batch
/// number is reserved exactly once. `completed` is the number of batches
/// workers have finished. `running` is set by a job start and cleared by the
/// poll loop that first observes the job complete.
pub struct AppState {
    pub hosts: Vec<String>,
    pub job_name: String,
    pub running: bool,
    pub batches: usize,
    pub batch_size: usize,
    pub assigned: usize,
    pub completed: usize,
    pub keyboards: Vec<Keyboard>,
}

/// Mathematical model of [`AppState`].
#[verifier::ext_equal]
pub ghost struct Model {
    pub hosts: Seq<Seq<char>>,
    pub job_name: Seq<char>,
    pub running: bool,
    pub batches: nat,
    pub batch_size: nat,
    pub assigned: nat,
    pub completed: nat,
    pub keyboards: Seq<KeyboardModel>,
}

impl View for AppState {
    type V = Model;

    open spec fn view(&self) -> Model {
        Model {
            hosts: self.hosts.deep_view(),
            job_name: self.job_name@,
            running: self.running,
            batches: self.batches as nat,
            batch_size: self.batch_size as nat,
            assigned: self.assigned as nat,
            completed: self.completed as nat,
            keyboards: views_of(self.keyboards@),
        }
    }
}

impl Model {
    /// Both counters stay within the job's total.
    pub open spec fn wf(self) -> bool {
        self.completed <= self.batches && self.assigned <= self.batches
    }
}

/// The state a fresh coordinator starts in.
pub open spec fn init_model() -> Model {
    Model {
        hosts: Seq::empty(),
        job_name: Seq::empty(),
        running: false,
        batches: 0,
        batch_size: 0,
        assigned: 0,
        completed: 0,
        keyboards: Seq::empty(),
    }
}

/// The state after appending one worker endpoint to the registry.
pub open spec fn add_worker_m(m: Model, host: Seq<char>) -> Model {
    Model { hosts: m.hosts.push(host), ..m }
}

/// The state after a successful job start: the job fields are replaced, the
/// two counters restart at zero, and the registry and the accumulated
/// results are kept as they are.
pub open spec fn start_job_m(m: Model, name: Seq<char>, batch_size: nat, batches: nat) -> Model {
    Model {
        job_name: name,
        running: true,
        batches: batches,
        batch_size: batch_size,
        assigned: 0,
        completed: 0,
        ..m
    }
}

/// Rejection of a job start while another job is active.
#[derive(Clone, Copy, PartialEq, Eq, Structural, Debug)]
pub enum StartJobError {
    JobAlreadyRunning,
}

/// Caller-facing status of the coordinator.
#[derive(PartialEq, Eq, Debug)]
pub enum JobStatus {
    Init,
    Running { name: String },
    Complete { name: String },
}

/// Mathematical model of a [`JobStatus`].
pub ghost enum StatusModel {
    Init,
    Running { name: Seq<char> },
    Complete { name: Seq<char> },
}

impl View for JobStatus {
    type V = StatusModel;

    open spec fn view(&self) -> StatusModel {
        match self {
            JobStatus::Init => StatusModel::Init,
            JobStatus::Running { name } => StatusModel::Running { name: name@ },
            JobStatus::Complete { name } => StatusModel::Complete { name: name@ },
        }
    }
}

/// The status a state presents: a running job, a finished job whose results
/// are in, or nothing yet.
pub open spec fn status_of(m: Model) -> StatusModel {
    if m.running {
        StatusModel::Running { name: m.job_name }
    } else if m.keyboards.len() > 0 {
        StatusModel::Complete { name: m.job_name }
    } else {
        StatusModel::Init
    }
}

impl Default for AppState {
    /// A fresh coordinator: no workers, no job, no results.
    fn default() -> (r: Self)
        ensures
            r@ == init_model(),
    {
        let r = AppState {
            hosts: Vec::new(),
            job_name: String::new(),
            running: false,
            batches: 0,
            batch_size: 0,
            assigned: 0,
            completed: 0,
            keyboards: Vec::new(),
        };
        proof {
            assert(r@ =~~= init_model());
        }
        r
    }
}

impl AppState {
    /// Append a worker endpoint to the registry: no validation, no
    /// deduplication, and no effect on a job already in progress. The new
    /// worker joins only jobs started afterwards.
    pub fn add_worker(&mut self, host: String)
        ensures
            final(self)@ == add_worker_m(old(self)@, host@),
    {
        self.hosts.push(host);
        proof {
            assert(self@ =~~= add_worker_m(old(self)@, host@));
        }
    }

    /// Start a job, unless one is already running.
    ///
    /// On success the job fields are set, both counters restart at zero, and
    /// the returned snapshot holds exactly the registry contents at this
    /// moment: those are the workers that will drive the job, whatever is
    /// added to the registry later. While a job is running the request is
    /// rejected and the state is left untouched.
    pub fn start_job(&mut self, name: String, batch_size: usize, batches: usize) -> (r: Result<
        Vec<String>,
        StartJobError,
    >)
        ensures
            old(self)@.running ==> ({
                &&& r matches Err(e) && e == StartJobError::JobAlreadyRunning
                &&& final(self)@ == old(self)@
            }),
            !old(self)@.running ==> ({
                &&& r matches Ok(snapshot) && snapshot.deep_view() == old(self)@.hosts
                &&& final(self)@ == start_job_m(
                    old(self)@,
                    name@,
                    batch_size as nat,
                    batches as nat,
                )
            }),
    {
        if self.running {
            return Err(StartJobError::JobAlreadyRunning);
        }
        self.job_name = name;
        self.batches = batches;
        self.batch_size = batch_size;
        self.assigned = 0;
        self.completed = 0;
        self.running = true;
        let snapshot = self.hosts.clone();
        proof {
            assert forall|i: int| 0 <= i < self.hosts@.len() implies snapshot@[i]
                == self.hosts@[i] by {
            }
            assert(snapshot@ =~= self.hosts@);
            assert(snapshot.deep_view() =~~= old(self)@.hosts);
            assert(self@ =~~= start_job_m(old(self)@, name@, batch_size as nat, batches as nat));
        }
        Ok(snapshot)
    }

    /// Best-effort status snapshot; a pure function of the state, so
    /// repeated queries without intervening mutation answer alike.
    pub fn get_status(&self) -> (r: JobStatus)
        ensures
            r@ == status_of(self@),
    {
        if self.running {
            JobStatus::Running { name: self.job_name.clone() }
        } else if self.keyboards.len() > 0 {
            JobStatus::Complete { name: self.job_name.clone() }
        } else {
            JobStatus::Init
        }
    }
}

} // verus!
