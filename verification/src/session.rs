use crate::job::{
    after_finish, after_pick, start_allowed, JobError, JobPhase, JobRequest, JobState, ToolOutcome,
    MAX_DPI, MIN_DPI,
};
use crate::paths::{derive_output_path, has_stem, output_path_of};
use crate::preset::CompressionPreset;
use vstd::prelude::*;

verus! {

/// `d` forced into the DPI bound the slider exposes.
pub open spec fn clamp_dpi(d: u16) -> u16 {
    if d < MIN_DPI {
        MIN_DPI
    } else if d > MAX_DPI {
        MAX_DPI
    } else {
        d
    }
}

/// One thing that happened outside the model and needs a decision.
pub enum AppEvent {
    /// The user picked this input file in the dialog.
    FilePicked(String),
    /// The user pressed the compress trigger.
    CompressTriggered,
    /// The worker thread reports how the child process ended.
    JobFinished(ToolOutcome),
}

/// What the surrounding binary must do after an event was handled.
pub enum AppAction {
    /// Nothing beyond repainting.
    Stay,
    /// Spawn the external tool for this request on a worker thread and
    /// hand the outcome back as a `JobFinished` event.
    Spawn(JobRequest),
    /// Tell the user the event was rejected for this reason; the prior
    /// state is kept.
    Reject(JobError),
}

/// The whole front-end model: the live settings, the picked input path
/// with its derived output path, and the job state machine.
pub struct Session {
    picked_path: Option<String>,
    output_path: Option<String>,
    preset: CompressionPreset,
    dpi: u16,
    state: JobState,
}

impl Session {
    /// The picked input path, as an abstract value for contracts.
    pub closed spec fn picked(self) -> Option<Seq<char>> {
        match self.picked_path {
            Some(p) => Some(p@),
            None => None,
        }
    }

    /// The derived output path.
    pub closed spec fn output(self) -> Option<Seq<char>> {
        match self.output_path {
            Some(p) => Some(p@),
            None => None,
        }
    }

    /// The selected compression preset.
    pub closed spec fn chosen_preset(self) -> CompressionPreset {
        self.preset
    }

    /// The selected image DPI.
    pub closed spec fn chosen_dpi(self) -> u16 {
        self.dpi
    }

    /// The job state machine's phase.
    pub closed spec fn phase(self) -> JobPhase {
        self.state.phase()
    }

    /// Well-formedness, established by `new` and preserved by every
    /// method: the DPI stays within the slider's bound, input and output
    /// path exist together, the output path is the one derived from the
    /// input, and a job only ever runs with a picked file.
    pub open spec fn wf(self) -> bool {
        &&& MIN_DPI <= self.chosen_dpi() <= MAX_DPI
        &&& (self.picked() is Some <==> self.output() is Some)
        &&& (self.picked() matches Some(p) ==> has_stem(p) && self.output() == Some(
            output_path_of(p),
        ))
        &&& (self.phase() is Running ==> self.picked() is Some)
    }

    /// A fresh session: nothing picked, the Ebook preset, 150 DPI, and an
    /// idle job state.
    pub fn new() -> (s: Session)
        ensures
            s.wf(),
            s.picked() is None,
            s.output() is None,
            s.chosen_preset() == CompressionPreset::Ebook,
            s.chosen_dpi() == 150,
            s.phase() == JobPhase::Idle,
    {
        Session {
            picked_path: None,
            output_path: None,
            preset: CompressionPreset::Ebook,
            dpi: 150,
            state: JobState::new(),
        }
    }

    /// Updates the DPI from the slider, clamped to the exposed bound;
    /// nothing else changes.
    pub fn set_dpi(&mut self, dpi: u16)
        requires
            old(self).wf(),
        ensures
            final(self).wf(),
            final(self).chosen_dpi() == clamp_dpi(dpi),
            final(self).picked() == old(self).picked(),
            final(self).output() == old(self).output(),
            final(self).chosen_preset() == old(self).chosen_preset(),
            final(self).phase() == old(self).phase(),
    {
        self.dpi = if dpi < MIN_DPI {
            MIN_DPI
        } else if dpi > MAX_DPI {
            MAX_DPI
        } else {
            dpi
        };
    }

    /// Selects a compression preset; nothing else changes.
    pub fn set_preset(&mut self, preset: CompressionPreset)
        requires
            old(self).wf(),
        ensures
            final(self).wf(),
            final(self).chosen_preset() == preset,
            final(self).picked() == old(self).picked(),
            final(self).output() == old(self).output(),
            final(self).chosen_dpi() == old(self).chosen_dpi(),
            final(self).phase() == old(self).phase(),
    {
        self.preset = preset;
    }

    /// Decides what one outside event means for the model.
    ///
    /// A picked file with a derivable stem replaces the current pair of
    /// paths and clears any shown result; one without a stem is rejected
    /// and the prior state kept.  The compress trigger takes a snapshot of
    /// the settings and starts the one job — while a job is already
    /// running, or before any file is picked, it changes nothing, so a
    /// second trigger can never spawn a second process.  A finished job
    /// moves the job state to done or failed; a completion report without a
    /// running job changes nothing.
    pub fn handle(&mut self, event: AppEvent) -> (action: AppAction)
        requires
            old(self).wf(),
        ensures
            final(self).wf(),
            final(self).chosen_preset() == old(self).chosen_preset(),
            final(self).chosen_dpi() == old(self).chosen_dpi(),
            match event {
                AppEvent::FilePicked(p) => if has_stem(p@) {
                    &&& final(self).picked() == Some(p@)
                    &&& final(self).output() == Some(output_path_of(p@))
                    &&& final(self).phase() == after_pick(old(self).phase())
                    &&& action is Stay
                } else {
                    &&& *final(self) == *old(self)
                    &&& action == AppAction::Reject(JobError::InvalidInputPath)
                },
                AppEvent::CompressTriggered => if old(self).picked() is Some && start_allowed(
                    old(self).phase(),
                ) {
                    &&& final(self).picked() == old(self).picked()
                    &&& final(self).output() == old(self).output()
                    &&& final(self).phase() == JobPhase::Running
                    &&& (action matches AppAction::Spawn(req) && req.valid() && Some(
                        req.input_path@,
                    ) == old(self).picked() && Some(req.output_path@) == old(self).output()
                        && req.preset == old(self).chosen_preset() && req.dpi == old(
                        self,
                    ).chosen_dpi())
                } else {
                    &&& *final(self) == *old(self)
                    &&& action is Stay
                },
                AppEvent::JobFinished(out) => if old(self).phase() is Running {
                    &&& final(self).picked() == old(self).picked()
                    &&& final(self).output() == old(self).output()
                    &&& final(self).phase() == after_finish(out)
                    &&& action is Stay
                } else {
                    &&& *final(self) == *old(self)
                    &&& action is Stay
                },
            },
    {
        match event {
            AppEvent::FilePicked(p) => {
                match derive_output_path(p.as_str()) {
                    Ok(out) => {
                        self.picked_path = Some(p);
                        self.output_path = Some(out);
                        self.state.pick_file();
                        AppAction::Stay
                    },
                    Err(e) => AppAction::Reject(e),
                }
            },
            AppEvent::CompressTriggered => {
                match (&self.picked_path, &self.output_path) {
                    (Some(input_path), Some(output_path)) => {
                        let request = JobRequest {
                            input_path: input_path.clone(),
                            output_path: output_path.clone(),
                            preset: self.preset,
                            dpi: self.dpi,
                        };
                        if self.state.try_start() {
                            AppAction::Spawn(request)
                        } else {
                            AppAction::Stay
                        }
                    },
                    _ => AppAction::Stay,
                }
            },
            AppEvent::JobFinished(out) => {
                if self.state.is_running() {
                    self.state.finish(out);
                }
                AppAction::Stay
            },
        }
    }

    /// Reads the picked input path.
    pub fn picked_path(&self) -> (r: &Option<String>)
        ensures
            match r {
                Some(p) => self.picked() == Some(p@),
                None => self.picked() is None,
            },
    {
        &self.picked_path
    }

    /// Reads the derived output path.
    pub fn output_path(&self) -> (r: &Option<String>)
        ensures
            match r {
                Some(p) => self.output() == Some(p@),
                None => self.output() is None,
            },
    {
        &self.output_path
    }

    /// Reads the selected preset.
    pub fn current_preset(&self) -> (r: CompressionPreset)
        ensures
            r == self.chosen_preset(),
    {
        self.preset
    }

    /// Reads the selected DPI.
    pub fn current_dpi(&self) -> (r: u16)
        ensures
            r == self.chosen_dpi(),
    {
        self.dpi
    }

    /// Reads the job state machine's phase.
    pub fn current_phase(&self) -> (p: JobPhase)
        ensures
            p == self.phase(),
    {
        self.state.current()
    }
}

} // verus!
