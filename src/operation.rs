use vstd::prelude::*;
use crate::gate::Token;

verus! {

/// Why a render request failed. Each is final for that request.
#[derive(Clone, Copy, Debug, PartialEq, Eq, Structural)]
pub enum RenderError {
    /// No backend handle is published.
    BackendUnavailable,
    /// The per-request surface could not be created.
    SurfaceCreationFailed,
    /// The markup could not be loaded into the surface.
    ContentSubmissionFailed,
    /// The rendered output could not be captured.
    CaptureFailed,
    /// The operation was handed back before its steps were done.
    Abandoned,
}

/// The step a render operation asks its driver to perform next.
#[derive(Clone, Copy, Debug, PartialEq, Eq, Structural)]
pub enum OpStage {
    /// Open an ephemeral surface on the operation's handle.
    CreateSurface,
    /// Load the markup into the surface.
    SubmitContent,
    /// Wait the fixed settle time.
    SettleWait,
    /// Poll the readiness predicate for a bounded time; failure is tolerated.
    AwaitReady,
    /// Capture the rendered output as image bytes.
    Capture,
    /// Close the surface; failure is tolerated.
    CloseSurface,
    /// Nothing left to do: hand the operation back to the pool.
    Complete,
}

/// What the driver reports after performing a step.
pub enum StepReport {
    /// The step succeeded.
    Done,
    /// The step failed.
    Failed,
    /// The capture succeeded with these bytes.
    Image(Vec<u8>),
}

/// Abstract state of a render operation.
pub struct OpView {
    /// Gate slot held by the operation.
    pub slot: usize,
    /// Identity of the handle the operation runs against.
    pub handle: u64,
    pub stage: OpStage,
    /// The result decided so far.
    pub outcome: Option<Result<Seq<u8>, RenderError>>,
}

pub open spec fn step_ok(r: StepReport) -> bool {
    !(r is Failed)
}

pub open spec fn stage_after(stage: OpStage, r: StepReport) -> OpStage {
    match stage {
        OpStage::CreateSurface => if step_ok(r) { OpStage::SubmitContent } else { OpStage::Complete },
        OpStage::SubmitContent => if step_ok(r) { OpStage::SettleWait } else { OpStage::CloseSurface },
        OpStage::SettleWait => OpStage::AwaitReady,
        OpStage::AwaitReady => OpStage::Capture,
        OpStage::Capture => OpStage::CloseSurface,
        OpStage::CloseSurface => OpStage::Complete,
        OpStage::Complete => OpStage::Complete,
    }
}

pub open spec fn outcome_after(
    stage: OpStage,
    outcome: Option<Result<Seq<u8>, RenderError>>,
    r: StepReport,
) -> Option<Result<Seq<u8>, RenderError>> {
    match stage {
        OpStage::CreateSurface => if step_ok(r) { outcome } else { Some(Err(RenderError::SurfaceCreationFailed)) },
        OpStage::SubmitContent => if step_ok(r) { outcome } else { Some(Err(RenderError::ContentSubmissionFailed)) },
        OpStage::Capture => match r {
            StepReport::Image(b) => Some(Ok(b@)),
            _ => Some(Err(RenderError::CaptureFailed)),
        },
        _ => outcome,
    }
}

/// One admitted render request. It owns its gate permit, runs against the
/// handle that was published when it was admitted, and walks the steps of a
/// render; the pool takes it back to release the permit.
pub struct RenderOperation {
    token: Token,
    stage: OpStage,
    outcome: Option<Result<Vec<u8>, RenderError>>,
}

pub open spec fn outcome_view(o: Option<Result<Vec<u8>, RenderError>>) -> Option<Result<Seq<u8>, RenderError>> {
    match o {
        Some(Ok(b)) => Some(Ok(b@)),
        Some(Err(e)) => Some(Err(e)),
        None => None,
    }
}

impl RenderOperation {
    pub closed spec fn view(&self) -> OpView {
        OpView {
            slot: self.token.slot_of(),
            handle: self.token.tag_of(),
            stage: self.stage,
            outcome: outcome_view(self.outcome),
        }
    }

    pub(crate) fn start(token: Token) -> (r: RenderOperation)
        ensures
            r.view() == (OpView { slot: token.slot_of(), handle: token.tag_of(), stage: OpStage::CreateSurface, outcome: None }),
    {
        RenderOperation { token, stage: OpStage::CreateSurface, outcome: None }
    }

    /// The step to perform next.
    pub fn stage(&self) -> (r: OpStage)
        ensures
            r == self.view().stage,
    {
        self.stage
    }

    /// Identity of the handle this operation runs against.
    pub fn handle(&self) -> (r: u64)
        ensures
            r == self.view().handle,
    {
        self.token.tag()
    }

    /// Moves past the current step given how it went. Readiness and surface
    /// teardown never fail the operation; the other steps end it with their
    /// own error, and a failure after the surface exists still closes it.
    pub fn advance(&mut self, report: StepReport)
        ensures
            final(self).view().slot == old(self).view().slot,
            final(self).view().handle == old(self).view().handle,
            final(self).view().stage == stage_after(old(self).view().stage, report),
            final(self).view().outcome == outcome_after(old(self).view().stage, old(self).view().outcome, report),
    {
        let ok = !matches!(report, StepReport::Failed);
        match self.stage {
            OpStage::CreateSurface => {
                if ok {
                    self.stage = OpStage::SubmitContent;
                } else {
                    self.stage = OpStage::Complete;
                    self.outcome = Some(Err(RenderError::SurfaceCreationFailed));
                }
            },
            OpStage::SubmitContent => {
                if ok {
                    self.stage = OpStage::SettleWait;
                } else {
                    self.stage = OpStage::CloseSurface;
                    self.outcome = Some(Err(RenderError::ContentSubmissionFailed));
                }
            },
            OpStage::SettleWait => {
                self.stage = OpStage::AwaitReady;
            },
            OpStage::AwaitReady => {
                self.stage = OpStage::Capture;
            },
            OpStage::Capture => {
                self.stage = OpStage::CloseSurface;
                match report {
                    StepReport::Image(b) => {
                        self.outcome = Some(Ok(b));
                    },
                    _ => {
                        self.outcome = Some(Err(RenderError::CaptureFailed));
                    },
                }
            },
            OpStage::CloseSurface => {
                self.stage = OpStage::Complete;
            },
            OpStage::Complete => {},
        }
    }

    /// Splits the operation into its permit and its result; an operation
    /// that did not decide a result yields `Abandoned`.
    pub(crate) fn into_parts(self) -> (r: (Token, Result<Vec<u8>, RenderError>))
        ensures
            r.0.slot_of() == self.view().slot,
            r.0.tag_of() == self.view().handle,
            outcome_view(Some(r.1)) == finished_result(self.view()),
    {
        match self.outcome {
            Some(res) => (self.token, res),
            None => (self.token, Err(RenderError::Abandoned)),
        }
    }
}

/// The result an operation hands back to its caller.
pub open spec fn finished_result(o: OpView) -> Option<Result<Seq<u8>, RenderError>> {
    match o.outcome {
        Some(r) => Some(r),
        None => Some(Err(RenderError::Abandoned)),
    }
}

} // verus!
