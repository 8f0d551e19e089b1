use crate::errors::Error;
use vstd::prelude::*;
use vstd::string::StringExecFns;

verus! {

/// The phases of one `set_lockscreen` run. The platform's lock-screen
/// interface is a two-step asynchronous sequence — resolve the path to a
/// file reference, then hand that reference to the image service — and
/// the caller blocks on each step in order: the image-set step begins
/// only after the resolution has completed successfully.
#[derive(Clone, Copy)]
pub enum LockScreenPhase {
    /// Resolve the path to a platform file reference and report the
    /// outcome.
    ResolvingFile,
    /// Hand the resolved file to the lock-screen image service and report
    /// the outcome.
    SettingImage,
    /// The run ended with this result.
    Done(Result<(), Error>),
}

/// One `set_lockscreen` run: a failed resolution ends the run with
/// `FileResolutionFailed` before the image service is ever asked for
/// anything; a failure of the image-set step itself is
/// `LockScreenUpdateFailed`.
pub struct LockScreenRun {
    path: String,
    phase: LockScreenPhase,
    image_set_requested: bool,
}

impl LockScreenRun {
    /// The path this run was started on.
    pub closed spec fn path_spec(&self) -> Seq<char> {
        self.path@
    }

    /// The run's current phase.
    pub closed spec fn phase_spec(&self) -> LockScreenPhase {
        self.phase
    }

    /// Whether the image-set step has been requested during this run.
    pub closed spec fn image_set_requested_spec(&self) -> bool {
        self.image_set_requested
    }

    /// The run's bookkeeping is consistent: the image-set step has been
    /// requested exactly on the paths that pass resolution, and each
    /// result matches how the run got there.
    pub closed spec fn wf(&self) -> bool {
        match self.phase {
            LockScreenPhase::ResolvingFile => !self.image_set_requested,
            LockScreenPhase::SettingImage => self.image_set_requested,
            LockScreenPhase::Done(res) => match res {
                Ok(u) => self.image_set_requested,
                Err(e) => (e == Error::FileResolutionFailed && !self.image_set_requested) || (e
                    == Error::LockScreenUpdateFailed && self.image_set_requested),
            },
        }
    }

    /// Starts a run for the given image path: the file resolution comes
    /// first.
    pub fn begin(path: &str) -> (s: LockScreenRun)
        ensures
            s.wf(),
            s.path_spec() == path@,
            s.phase_spec() == LockScreenPhase::ResolvingFile,
            !s.image_set_requested_spec(),
    {
        LockScreenRun {
            path: String::from_str(path),
            phase: LockScreenPhase::ResolvingFile,
            image_set_requested: false,
        }
    }

    /// The run's current phase, naming the platform step to perform.
    pub fn phase(&self) -> (p: &LockScreenPhase)
        ensures
            *p == self.phase_spec(),
    {
        &self.phase
    }

    /// The path to resolve, as handed to `begin`.
    pub fn path(&self) -> (p: &String)
        ensures
            p@ == self.path_spec(),
    {
        &self.path
    }

    /// Reports the outcome of the current phase's step and advances the
    /// run: a failed resolution ends it with `FileResolutionFailed` and
    /// the image-set step is never requested; a successful resolution
    /// moves on to the image-set step, whose own failure is
    /// `LockScreenUpdateFailed`.
    pub fn report(&mut self, ok: bool)
        requires
            old(self).wf(),
            !(old(self).phase_spec() is Done),
        ensures
            final(self).wf(),
            final(self).path_spec() == old(self).path_spec(),
            old(self).phase_spec() == LockScreenPhase::ResolvingFile && !ok
                ==> final(self).phase_spec() == LockScreenPhase::Done(
                Err(Error::FileResolutionFailed),
            ) && !final(self).image_set_requested_spec(),
            old(self).phase_spec() == LockScreenPhase::ResolvingFile && ok
                ==> final(self).phase_spec() == LockScreenPhase::SettingImage,
            old(self).phase_spec() == LockScreenPhase::SettingImage && ok
                ==> final(self).phase_spec() == LockScreenPhase::Done(Ok(())),
            old(self).phase_spec() == LockScreenPhase::SettingImage && !ok
                ==> final(self).phase_spec() == LockScreenPhase::Done(
                Err(Error::LockScreenUpdateFailed),
            ),
    {
        let phase: LockScreenPhase = self.phase;
        match phase {
            LockScreenPhase::ResolvingFile => {
                if ok {
                    self.image_set_requested = true;
                    self.phase = LockScreenPhase::SettingImage;
                } else {
                    self.phase = LockScreenPhase::Done(Err(Error::FileResolutionFailed));
                }
            },
            LockScreenPhase::SettingImage => {
                if ok {
                    self.phase = LockScreenPhase::Done(Ok(()));
                } else {
                    self.phase = LockScreenPhase::Done(Err(Error::LockScreenUpdateFailed));
                }
            },
            LockScreenPhase::Done(_) => {
            },
        }
    }

    /// The run's result once it is done.
    pub fn outcome(&self) -> (r: Option<Result<(), Error>>)
        ensures
            match self.phase_spec() {
                LockScreenPhase::Done(res) => r == Some(res),
                _ => r is None,
            },
    {
        match self.phase {
            LockScreenPhase::Done(res) => Some(res),
            _ => None,
        }
    }
}

/// A run that ended with `FileResolutionFailed` never requested the
/// image-set step: the resolution failure is surfaced before the image
/// service is touched.
pub proof fn lemma_resolution_failure_no_image_set(s: LockScreenRun)
    requires
        s.wf(),
        s.phase_spec() == LockScreenPhase::Done(
            Result::<(), Error>::Err(Error::FileResolutionFailed),
        ),
    ensures
        !s.image_set_requested_spec(),
{
}

} // verus!
