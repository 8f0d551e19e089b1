use crate::errors::{Error, ThemeValueName};
use vstd::prelude::*;

verus! {

/// The numeric convention of the personalization registry values:
/// 0 selects dark appearance, 1 light — inverted relative to the flag.
pub open spec fn theme_value_spec(enable_dark: bool) -> u32 {
    if enable_dark {
        0u32
    } else {
        1u32
    }
}

/// The value written to both theme registry values for the desired
/// appearance.
pub fn theme_registry_value(enable_dark: bool) -> (v: u32)
    ensures
        v == theme_value_spec(enable_dark),
{
    if enable_dark {
        0
    } else {
        1
    }
}

/// One registry write the theme protocol asks the caller to perform.
#[derive(Clone, Copy, Debug, PartialEq, Eq, Structural)]
pub struct ThemeWrite {
    /// The registry value to write.
    pub name: ThemeValueName,
    /// The DWORD value to store.
    pub value: u32,
}

/// The phases of one `set_dark_mode` run, in the order the caller drives
/// them. The personalization key is open from a successful open until the
/// run is done; the caller releases it exactly once on every path to
/// `Done`.
#[derive(Clone, Copy)]
pub enum ThemePhase {
    /// Open the personalization key for read and write access and report
    /// the outcome.
    OpeningKey,
    /// Perform this registry write under the open key and report the
    /// outcome.
    Writing(ThemeWrite),
    /// Broadcast the settings-changed notification; its outcome is
    /// deliberately not surfaced.
    Broadcasting,
    /// The run ended with this result; an open key has been released.
    Done(Result<(), Error>),
}

/// One `set_dark_mode` run: both personalization values are written in a
/// fixed order with the same value, every failure is surfaced with the
/// step it came from, and the closing broadcast cannot fail the run.
pub struct ThemeRun {
    enable_dark: bool,
    phase: ThemePhase,
    writes: Vec<ThemeWrite>,
}

impl ThemeRun {
    /// The appearance this run was started for: true selects dark.
    pub closed spec fn dark_spec(&self) -> bool {
        self.enable_dark
    }

    /// The run's current phase.
    pub closed spec fn phase_spec(&self) -> ThemePhase {
        self.phase
    }

    /// The registry writes the caller has been asked to perform so far, in
    /// order.
    pub closed spec fn writes_spec(&self) -> Seq<ThemeWrite> {
        self.writes@
    }

    /// The write of the "apps use light theme" value for this run.
    pub open spec fn apps_write(&self) -> ThemeWrite {
        ThemeWrite {
            name: ThemeValueName::AppsUseLightTheme,
            value: theme_value_spec(self.dark_spec()),
        }
    }

    /// The write of the "system uses light theme" value for this run.
    pub open spec fn system_write(&self) -> ThemeWrite {
        ThemeWrite {
            name: ThemeValueName::SystemUsesLightTheme,
            value: theme_value_spec(self.dark_spec()),
        }
    }

    /// The run's bookkeeping is consistent: the requested writes are the
    /// fixed pair in order, cut off where a step failed, and each result
    /// matches how the run got there.
    pub closed spec fn wf(&self) -> bool {
        match self.phase {
            ThemePhase::OpeningKey => self.writes@ =~= Seq::<ThemeWrite>::empty(),
            ThemePhase::Writing(w) => (w == self.apps_write() && self.writes@ =~= seq![
                self.apps_write(),
            ]) || (w == self.system_write() && self.writes@ =~= seq![
                self.apps_write(),
                self.system_write(),
            ]),
            ThemePhase::Broadcasting => self.writes@ =~= seq![
                self.apps_write(),
                self.system_write(),
            ],
            ThemePhase::Done(res) => match res {
                Ok(u) => self.writes@ =~= seq![self.apps_write(), self.system_write()],
                Err(e) => (e == Error::RegistryOpenFailed && self.writes@
                    =~= Seq::<ThemeWrite>::empty()) || (e == Error::RegistryWriteFailed(
                    ThemeValueName::AppsUseLightTheme,
                ) && self.writes@ =~= seq![self.apps_write()]) || (e == Error::RegistryWriteFailed(
                    ThemeValueName::SystemUsesLightTheme,
                ) && self.writes@ =~= seq![self.apps_write(), self.system_write()]),
            },
        }
    }

    /// Starts a run: the personalization key must be opened first; no
    /// write has been requested yet.
    pub fn begin(enable_dark: bool) -> (s: ThemeRun)
        ensures
            s.wf(),
            s.dark_spec() == enable_dark,
            s.phase_spec() == ThemePhase::OpeningKey,
            s.writes_spec() =~= Seq::<ThemeWrite>::empty(),
    {
        ThemeRun { enable_dark, phase: ThemePhase::OpeningKey, writes: Vec::new() }
    }

    /// The run's current phase, naming the platform action to perform.
    pub fn phase(&self) -> (p: &ThemePhase)
        ensures
            *p == self.phase_spec(),
    {
        &self.phase
    }

    /// The registry writes requested so far, in order.
    pub fn writes(&self) -> (w: &Vec<ThemeWrite>)
        ensures
            w@ == self.writes_spec(),
    {
        &self.writes
    }

    /// Reports the outcome of the current phase's action and advances the
    /// run: a failed open ends it with `RegistryOpenFailed` before any
    /// write is requested; a failed write ends it with
    /// `RegistryWriteFailed` naming that value; the broadcast's outcome is
    /// discarded and the run ends successfully.
    pub fn report(&mut self, ok: bool)
        requires
            old(self).wf(),
            !(old(self).phase_spec() is Done),
        ensures
            final(self).wf(),
            final(self).dark_spec() == old(self).dark_spec(),
            old(self).phase_spec() == ThemePhase::OpeningKey && !ok ==> final(self).phase_spec()
                == ThemePhase::Done(Err(Error::RegistryOpenFailed)) && final(self).writes_spec()
                =~= Seq::<ThemeWrite>::empty(),
            old(self).phase_spec() == ThemePhase::OpeningKey && ok ==> final(self).phase_spec()
                == ThemePhase::Writing(old(self).apps_write()) && final(self).writes_spec() =~= seq![
                old(self).apps_write(),
            ],
            old(self).phase_spec() == ThemePhase::Writing(old(self).apps_write()) && ok
                ==> final(self).phase_spec() == ThemePhase::Writing(old(self).system_write())
                && final(self).writes_spec() =~= seq![
                old(self).apps_write(),
                old(self).system_write(),
            ],
            old(self).phase_spec() == ThemePhase::Writing(old(self).apps_write()) && !ok
                ==> final(self).phase_spec() == ThemePhase::Done(
                Err(Error::RegistryWriteFailed(ThemeValueName::AppsUseLightTheme)),
            ) && final(self).writes_spec() =~= seq![old(self).apps_write()],
            old(self).phase_spec() == ThemePhase::Writing(old(self).system_write()) && ok
                ==> final(self).phase_spec() == ThemePhase::Broadcasting,
            old(self).phase_spec() == ThemePhase::Writing(old(self).system_write()) && !ok
                ==> final(self).phase_spec() == ThemePhase::Done(
                Err(Error::RegistryWriteFailed(ThemeValueName::SystemUsesLightTheme)),
            ),
            old(self).phase_spec() == ThemePhase::Broadcasting ==> final(self).phase_spec()
                == ThemePhase::Done(Ok(())),
            final(self).writes_spec().len() >= old(self).writes_spec().len(),
    {
        let value: u32 = theme_registry_value(self.enable_dark);
        let phase: ThemePhase = self.phase;
        match phase {
            ThemePhase::OpeningKey => {
                if ok {
                    let w = ThemeWrite { name: ThemeValueName::AppsUseLightTheme, value };
                    self.writes.push(w);
                    self.phase = ThemePhase::Writing(w);
                } else {
                    self.phase = ThemePhase::Done(Err(Error::RegistryOpenFailed));
                }
            },
            ThemePhase::Writing(w) => {
                let name = w.name;
                match name {
                    ThemeValueName::AppsUseLightTheme => {
                        if ok {
                            let next = ThemeWrite {
                                name: ThemeValueName::SystemUsesLightTheme,
                                value,
                            };
                            self.writes.push(next);
                            self.phase = ThemePhase::Writing(next);
                        } else {
                            self.phase = ThemePhase::Done(
                                Err(
                                    Error::RegistryWriteFailed(
                                        ThemeValueName::AppsUseLightTheme,
                                    ),
                                ),
                            );
                        }
                    },
                    ThemeValueName::SystemUsesLightTheme => {
                        if ok {
                            self.phase = ThemePhase::Broadcasting;
                        } else {
                            self.phase = ThemePhase::Done(
                                Err(
                                    Error::RegistryWriteFailed(
                                        ThemeValueName::SystemUsesLightTheme,
                                    ),
                                ),
                            );
                        }
                    },
                }
            },
            ThemePhase::Broadcasting => {
                self.phase = ThemePhase::Done(Ok(()));
            },
            ThemePhase::Done(_) => {
            },
        }
    }

    /// The run's result once it is done.
    pub fn outcome(&self) -> (r: Option<Result<(), Error>>)
        ensures
            match self.phase_spec() {
                ThemePhase::Done(res) => r == Some(res),
                _ => r is None,
            },
    {
        match self.phase {
            ThemePhase::Done(res) => Some(res),
            _ => None,
        }
    }
}

/// Every write a theme run ever requests carries the same value, the one
/// the desired appearance maps to: the pair of personalization values is
/// never asked to diverge.
pub proof fn lemma_theme_writes_consistent(s: ThemeRun)
    requires
        s.wf(),
    ensures
        forall|i: int|
            0 <= i < s.writes_spec().len() ==> (#[trigger] s.writes_spec()[i]).value
                == theme_value_spec(s.dark_spec()),
{
}

/// A run that ended successfully has requested exactly the two writes, in
/// order: first "apps use light theme", then "system uses light theme",
/// both with the value of the desired appearance.
pub proof fn lemma_theme_success_writes_pair(s: ThemeRun)
    requires
        s.wf(),
        s.phase_spec() == ThemePhase::Done(Result::<(), Error>::Ok(())),
    ensures
        s.writes_spec() =~= seq![s.apps_write(), s.system_write()],
        s.writes_spec()[0].value == s.writes_spec()[1].value,
        s.writes_spec()[0].value == theme_value_spec(s.dark_spec()),
{
}

/// A run whose key open failed ends with `RegistryOpenFailed` and has
/// requested no write at all: both theme values are left unchanged.
pub proof fn lemma_theme_open_failure_writes_nothing(s: ThemeRun)
    requires
        s.wf(),
        s.phase_spec() == ThemePhase::Done(
            Result::<(), Error>::Err(Error::RegistryOpenFailed),
        ),
    ensures
        s.writes_spec() =~= Seq::<ThemeWrite>::empty(),
{
}

} // verus!
