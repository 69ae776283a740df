//! The orchestrator: an ordered list of stages, the run's lifecycle, and the
//! run-level error accumulator that decides the outcome.
use vstd::prelude::*;
use crate::stage::{StageError, ErrView, errs_view};

verus! {

/// How a stage calls its capability.
#[derive(Clone, Debug)]
pub enum StageForm {
    /// One call per node, with up to `concurrency` calls in flight.
    Unit { concurrency: usize },
    /// One call per consecutive window of up to `size` nodes.
    Batch { size: usize },
    /// A cache lookup per node; seen nodes are dropped.
    Filter,
    /// Persistence, one node per call or in windows of `batch_size`.
    Store { batch_size: Option<usize> },
}

/// One step of a pipeline.
#[derive(Clone, Debug)]
pub struct Stage {
    pub name: String,
    pub form: StageForm,
}

/// A configuration that a pipeline refuses.
#[derive(Clone, Debug)]
pub enum ConfigError {
    /// A batch-form stage was given a batch size of zero.
    ZeroBatchSize,
}

/// Where a pipeline is in its single run.
#[derive(PartialEq, Eq, Structural, Clone, Copy, Debug)]
pub enum Phase {
    Built,
    Running,
    Completed,
}

/// How a run without node-level errors ended.
#[derive(PartialEq, Eq, Structural, Clone, Copy, Debug)]
pub enum RunStatus {
    Finished,
    Cancelled,
}

/// Why a run did not succeed.
#[derive(Clone, Debug)]
pub enum RunError {
    /// The pipeline has already been started; a run happens once.
    AlreadyStarted,
    /// The loader failed: the run was aborted before any stage ran.
    Load(String),
    /// At least one node failed somewhere in the chain; all failures, in the order
    /// they were recorded.
    Nodes { errors: Vec<StageError>, cancelled: bool },
}

/// The concurrency bound of a unit-form stage for a transformer's hint: at least one.
pub open spec fn bound_of(hint: Option<usize>) -> usize {
    match hint {
        Some(c) if c >= 1 => c,
        _ => 1,
    }
}

/// The storage batching for a storage's preferred batch size: none for zero.
pub open spec fn store_batching(pref: Option<usize>) -> Option<usize> {
    match pref {
        Some(b) if b >= 1 => Some(b),
        _ => None,
    }
}

/// The stages of a pipeline and the state of its one run.
pub struct Pipeline {
    stages: Vec<Stage>,
    phase: Phase,
    errors: Vec<StageError>,
    cancelled: bool,
}

impl Pipeline {
    pub closed spec fn stages_spec(&self) -> Seq<Stage> {
        self.stages@
    }

    pub closed spec fn phase_spec(&self) -> Phase {
        self.phase
    }

    /// The node-level errors recorded so far.
    pub closed spec fn errors_spec(&self) -> Seq<ErrView> {
        errs_view(self.errors@)
    }

    pub closed spec fn cancelled_spec(&self) -> bool {
        self.cancelled
    }

    /// A freshly built pipeline in a state that `then`, `then_in_batch`,
    /// `filter_cached` and `then_store_with` keep.
    pub open spec fn is_fresh(&self) -> bool {
        &&& self.phase_spec() == Phase::Built
        &&& self.errors_spec().len() == 0
        &&& !self.cancelled_spec()
    }

    /// A pipeline with no stages, not yet run.
    pub fn new() -> (r: Pipeline)
        ensures
            r.is_fresh(),
            r.stages_spec().len() == 0,
    {
        Pipeline { stages: Vec::new(), phase: Phase::Built, errors: Vec::new(), cancelled: false }
    }

    fn with_stage(self, stage: Stage) -> (r: Pipeline)
        ensures
            r.stages_spec() == self.stages_spec().push(stage),
            r.phase_spec() == self.phase_spec(),
            r.errors_spec() == self.errors_spec(),
            r.cancelled_spec() == self.cancelled_spec(),
    {
        let mut p = self;
        p.stages.push(stage);
        p
    }

    /// Appends a unit-form stage; `concurrency` is the transformer's hint, and
    /// none or zero runs it one node at a time.
    pub fn then(self, name: String, concurrency: Option<usize>) -> (r: Pipeline)
        ensures
            r.stages_spec().len() == self.stages_spec().len() + 1,
            r.stages_spec().drop_last() == self.stages_spec(),
            r.stages_spec().last().name@ == name@,
            r.stages_spec().last().form == (StageForm::Unit { concurrency: bound_of(concurrency) }),
            r.phase_spec() == self.phase_spec(),
            r.errors_spec() == self.errors_spec(),
            r.cancelled_spec() == self.cancelled_spec(),
    {
        let c: usize = match concurrency {
            Some(c) => if c >= 1 {
                c
            } else {
                1
            },
            None => 1,
        };
        let r = self.with_stage(Stage { name, form: StageForm::Unit { concurrency: c } });
        assert(r.stages_spec().drop_last() =~= self.stages_spec());
        r
    }

    /// Appends a batch-form stage with windows of `size`; a size of zero is a
    /// configuration error.
    pub fn then_in_batch(self, name: String, size: usize) -> (r: Result<Pipeline, ConfigError>)
        ensures
            r is Err <==> size == 0,
            r matches Ok(p) ==> {
                &&& p.stages_spec().len() == self.stages_spec().len() + 1
                &&& p.stages_spec().drop_last() == self.stages_spec()
                &&& p.stages_spec().last().name@ == name@
                &&& p.stages_spec().last().form == (StageForm::Batch { size })
                &&& p.phase_spec() == self.phase_spec()
                &&& p.errors_spec() == self.errors_spec()
                &&& p.cancelled_spec() == self.cancelled_spec()
            },
    {
        if size == 0 {
            return Err(ConfigError::ZeroBatchSize);
        }
        let r = self.with_stage(Stage { name, form: StageForm::Batch { size } });
        assert(r.stages_spec().drop_last() =~= self.stages_spec());
        Ok(r)
    }

    /// Appends a cache filter stage.
    pub fn filter_cached(self, name: String) -> (r: Pipeline)
        ensures
            r.stages_spec().len() == self.stages_spec().len() + 1,
            r.stages_spec().drop_last() == self.stages_spec(),
            r.stages_spec().last().name@ == name@,
            r.stages_spec().last().form == StageForm::Filter,
            r.phase_spec() == self.phase_spec(),
            r.errors_spec() == self.errors_spec(),
            r.cancelled_spec() == self.cancelled_spec(),
    {
        let r = self.with_stage(Stage { name, form: StageForm::Filter });
        assert(r.stages_spec().drop_last() =~= self.stages_spec());
        r
    }

    /// Appends a storage stage; `batch_size` is the storage's preference, and
    /// none or zero stores one node per call.
    pub fn then_store_with(self, name: String, batch_size: Option<usize>) -> (r: Pipeline)
        ensures
            r.stages_spec().len() == self.stages_spec().len() + 1,
            r.stages_spec().drop_last() == self.stages_spec(),
            r.stages_spec().last().name@ == name@,
            r.stages_spec().last().form == (StageForm::Store {
                batch_size: store_batching(batch_size),
            }),
            r.phase_spec() == self.phase_spec(),
            r.errors_spec() == self.errors_spec(),
            r.cancelled_spec() == self.cancelled_spec(),
    {
        let b: Option<usize> = match batch_size {
            Some(b) => if b >= 1 {
                Some(b)
            } else {
                None
            },
            None => None,
        };
        let r = self.with_stage(Stage { name, form: StageForm::Store { batch_size: b } });
        assert(r.stages_spec().drop_last() =~= self.stages_spec());
        r
    }

    /// The stages, in order.
    pub fn stages(&self) -> (r: &Vec<Stage>)
        ensures
            r@ == self.stages_spec(),
    {
        &self.stages
    }

    pub fn phase(&self) -> (r: Phase)
        ensures
            r == self.phase_spec(),
    {
        self.phase
    }

    /// Begins the run: only a pipeline that has not run yet may start.
    pub fn start(&mut self) -> (r: Result<(), RunError>)
        ensures
            r is Ok <==> old(self).phase_spec() == Phase::Built,
            r is Err ==> (r matches Err(RunError::AlreadyStarted)) && *final(self) == *old(self),
            r is Ok ==> final(self).phase_spec() == Phase::Running,
            final(self).stages_spec() == old(self).stages_spec(),
            final(self).errors_spec() == old(self).errors_spec(),
            final(self).cancelled_spec() == old(self).cancelled_spec(),
    {
        if self.phase != Phase::Built {
            return Err(RunError::AlreadyStarted);
        }
        self.phase = Phase::Running;
        Ok(())
    }

    /// Whether stages may take new work: the run is going and was not cancelled.
    pub fn accepts_work(&self) -> (r: bool)
        ensures
            r == (self.phase_spec() == Phase::Running && !self.cancelled_spec()),
    {
        self.phase == Phase::Running && !self.cancelled
    }

    /// Appends node-level errors to the run's record.
    pub fn record(&mut self, errors: Vec<StageError>)
        ensures
            final(self).errors_spec() == old(self).errors_spec() + errs_view(errors@),
            final(self).stages_spec() == old(self).stages_spec(),
            final(self).phase_spec() == old(self).phase_spec(),
            final(self).cancelled_spec() == old(self).cancelled_spec(),
    {
        let ghost e0 = self.errors@;
        let mut errors = errors;
        let ghost added = errors@;
        self.errors.append(&mut errors);
        assert(errs_view(self.errors@) =~= errs_view(e0) + errs_view(added));
    }

    /// Signals cancellation: no new work is taken; what was recorded is kept.
    pub fn cancel(&mut self)
        ensures
            final(self).cancelled_spec(),
            final(self).stages_spec() == old(self).stages_spec(),
            final(self).phase_spec() == old(self).phase_spec(),
            final(self).errors_spec() == old(self).errors_spec(),
    {
        self.cancelled = true;
    }

    /// Aborts a run whose loader failed; the run is over.
    pub fn abort(&mut self, message: String) -> (r: RunError)
        ensures
            r matches RunError::Load(m) && m@ == message@,
            final(self).phase_spec() == Phase::Completed,
            final(self).stages_spec() == old(self).stages_spec(),
            final(self).errors_spec() == old(self).errors_spec(),
            final(self).cancelled_spec() == old(self).cancelled_spec(),
    {
        self.phase = Phase::Completed;
        RunError::Load(message)
    }

    /// Completes a running pipeline: an error exactly when some node failed,
    /// carrying every recorded failure; otherwise whether the run was cancelled.
    pub fn finish(&mut self) -> (r: Result<RunStatus, RunError>)
        requires
            old(self).phase_spec() == Phase::Running,
        ensures
            final(self).phase_spec() == Phase::Completed,
            final(self).stages_spec() == old(self).stages_spec(),
            r is Ok <==> run_succeeds(old(self).errors_spec()),
            r matches Ok(s) ==> (s == RunStatus::Cancelled <==> old(self).cancelled_spec()),
            r matches Err(e) ==> (e matches RunError::Nodes { errors, cancelled } && errs_view(
                errors@,
            ) == old(self).errors_spec() && cancelled == old(self).cancelled_spec()),
    {
        self.phase = Phase::Completed;
        let mut errors: Vec<StageError> = Vec::new();
        std::mem::swap(&mut errors, &mut self.errors);
        if errors.len() == 0 {
            if self.cancelled {
                Ok(RunStatus::Cancelled)
            } else {
                Ok(RunStatus::Finished)
            }
        } else {
            Err(RunError::Nodes { errors, cancelled: self.cancelled })
        }
    }
}

/// A run succeeds exactly when no node-level error was recorded.
pub open spec fn run_succeeds(errors: Seq<ErrView>) -> bool {
    errors.len() == 0
}

} // verus!
