//! The order of the boot: which step comes next, what a failure means, and
//! when to try again.
//!
//! The sequencer makes no firmware call itself. It names the step to take;
//! its driver takes the step and reports what came of it; the sequencer then
//! names the next. Steps are only ever taken in the one order below, and the
//! boot only ever moves forward.

use vstd::prelude::*;
use crate::error::BootError;

verus! {

/// How often leaving boot services is tried again after the firmware turned
/// the key down.
pub const EXIT_RETRY_LIMIT: u32 = 1;

/// Where a kernel image can come from. The sources are tried in this order.
#[derive(Clone, Copy, Debug, PartialEq, Eq, Structural)]
pub enum ImageSource {
    /// A file at a fixed path on a filesystem that the firmware can read.
    NativeFile,
    /// A file of the fallback filesystem on the boot partition.
    FallbackFilesystem,
}

/// The steps of the boot, in their order.
#[derive(Clone, Copy, Debug, PartialEq, Eq, Structural)]
pub enum BootStep {
    /// Find the kernel image at the given source.
    LocateImage(ImageSource),
    /// Read the kernel image, and with it the environment string.
    LoadImage(ImageSource),
    /// Copy the kernel image to its load address and note its entry point.
    PlaceKernel,
    /// Copy the environment string to its place.
    PlaceEnvironment,
    /// Capture the ACPI root pointer.
    DiscoverAcpi,
    /// Write the display mode down for the kernel.
    CaptureDisplay,
    /// Capture the memory map and its key.
    CaptureMemoryMap,
    /// Leave boot services with the key of the latest map.
    ExitBootServices,
    /// Turn interrupts off.
    DisableInterrupts,
    /// Build the page tables and switch to them.
    EnablePaging,
    /// Move the stack pointer to the boot stack.
    SwitchStack,
    /// Jump to the kernel's entry point.
    EnterKernel,
}

/// How far the boot has come.
#[derive(Clone, Copy, Debug, PartialEq, Eq, Structural)]
pub enum BootState {
    /// Nothing has been done.
    Init,
    /// A source holds a kernel image.
    ImageLocated,
    /// The kernel image has been read.
    ImageLoaded,
    /// The kernel image, the environment string and the ACPI capture are
    /// in place, and the display mode is written down.
    DisplayPrepared,
    /// A memory map and its key have been captured.
    MemoryMapCaptured,
    /// Boot services are gone.
    BootServicesExited,
    /// The new page tables are live.
    PagingEnabled,
    /// Control is with the kernel.
    Entered,
}

/// Whether the boot is still under way.
#[derive(Clone, Copy, Debug, PartialEq, Eq, Structural)]
pub enum Run {
    /// The step of the sequencer is to be taken.
    Running,
    /// The boot has ended at the step of the sequencer, with this error.
    Halted(BootError),
    /// Control is with the kernel.
    Entered,
}

/// What the driver reports of the step it was told to take.
#[derive(Clone, Copy, Debug, PartialEq, Eq, Structural)]
pub enum StepReport {
    /// The step is done. Does not fit [`BootStep::CaptureMemoryMap`], which
    /// must bring a key.
    Done,
    /// The memory map is captured and this is its key. Fits only
    /// [`BootStep::CaptureMemoryMap`].
    MapCaptured(usize),
    /// The step failed.
    Failed(BootError),
}

/// What the driver is to do.
#[derive(Clone, Copy, Debug, PartialEq, Eq, Structural)]
pub enum BootAction {
    /// Take this step and report.
    Perform(BootStep),
    /// Leave boot services with this key and report.
    ExitBootServices { key: usize },
    /// The boot has failed while the firmware can still be used: tell the
    /// user, then reset the platform.
    Abort(BootError),
    /// The boot has failed and the firmware may be gone: reset the platform
    /// at once.
    Reset(BootError),
    /// Nothing is left to do.
    Finished,
}

/// The sequencer's state.
#[derive(Clone, Copy, Debug, PartialEq, Eq, Structural)]
pub struct BootSequencer {
    /// The step to take, or the step at which the boot ended.
    pub step: BootStep,
    /// Whether the boot is still under way.
    pub run: Run,
    /// The key of the latest memory map, once one has been captured.
    pub map_key: Option<usize>,
    /// How often leaving boot services may still be tried again.
    pub retries_left: u32,
}

impl BootStep {
    /// The position of the step in the order of the boot, from 0.
    pub open spec fn index(self) -> int {
        match self {
            BootStep::LocateImage(_) => 0,
            BootStep::LoadImage(_) => 1,
            BootStep::PlaceKernel => 2,
            BootStep::PlaceEnvironment => 3,
            BootStep::DiscoverAcpi => 4,
            BootStep::CaptureDisplay => 5,
            BootStep::CaptureMemoryMap => 6,
            BootStep::ExitBootServices => 7,
            BootStep::DisableInterrupts => 8,
            BootStep::EnablePaging => 9,
            BootStep::SwitchStack => 10,
            BootStep::EnterKernel => 11,
        }
    }

    /// The step that follows this one; the last step follows itself.
    pub open spec fn spec_successor(self) -> BootStep {
        match self {
            BootStep::LocateImage(source) => BootStep::LoadImage(source),
            BootStep::LoadImage(_) => BootStep::PlaceKernel,
            BootStep::PlaceKernel => BootStep::PlaceEnvironment,
            BootStep::PlaceEnvironment => BootStep::DiscoverAcpi,
            BootStep::DiscoverAcpi => BootStep::CaptureDisplay,
            BootStep::CaptureDisplay => BootStep::CaptureMemoryMap,
            BootStep::CaptureMemoryMap => BootStep::ExitBootServices,
            BootStep::ExitBootServices => BootStep::DisableInterrupts,
            BootStep::DisableInterrupts => BootStep::EnablePaging,
            BootStep::EnablePaging => BootStep::SwitchStack,
            BootStep::SwitchStack => BootStep::EnterKernel,
            BootStep::EnterKernel => BootStep::EnterKernel,
        }
    }

    /// The step that follows this one; the last step follows itself.
    #[verifier::when_used_as_spec(spec_successor)]
    pub fn successor(self) -> (next: BootStep)
        ensures
            next == self.spec_successor(),
    {
        match self {
            BootStep::LocateImage(source) => BootStep::LoadImage(source),
            BootStep::LoadImage(_) => BootStep::PlaceKernel,
            BootStep::PlaceKernel => BootStep::PlaceEnvironment,
            BootStep::PlaceEnvironment => BootStep::DiscoverAcpi,
            BootStep::DiscoverAcpi => BootStep::CaptureDisplay,
            BootStep::CaptureDisplay => BootStep::CaptureMemoryMap,
            BootStep::CaptureMemoryMap => BootStep::ExitBootServices,
            BootStep::ExitBootServices => BootStep::DisableInterrupts,
            BootStep::DisableInterrupts => BootStep::EnablePaging,
            BootStep::EnablePaging => BootStep::SwitchStack,
            BootStep::SwitchStack => BootStep::EnterKernel,
            BootStep::EnterKernel => BootStep::EnterKernel,
        }
    }

    /// Whether boot services are still there when this step is due.
    pub open spec fn spec_before_exit(self) -> bool {
        self.index() < BootStep::ExitBootServices.index()
    }

    /// Whether boot services are still there when this step is due.
    #[verifier::when_used_as_spec(spec_before_exit)]
    pub fn before_exit(self) -> (before: bool)
        ensures
            before == self.spec_before_exit(),
    {
        match self {
            BootStep::LocateImage(_) => true,
            BootStep::LoadImage(_) => true,
            BootStep::PlaceKernel => true,
            BootStep::PlaceEnvironment => true,
            BootStep::DiscoverAcpi => true,
            BootStep::CaptureDisplay => true,
            BootStep::CaptureMemoryMap => true,
            _ => false,
        }
    }
}

impl BootState {
    /// The position of the state in the course of the boot, from 0.
    pub open spec fn rank(self) -> int {
        match self {
            BootState::Init => 0,
            BootState::ImageLocated => 1,
            BootState::ImageLoaded => 2,
            BootState::DisplayPrepared => 3,
            BootState::MemoryMapCaptured => 4,
            BootState::BootServicesExited => 5,
            BootState::PagingEnabled => 6,
            BootState::Entered => 7,
        }
    }
}

impl BootSequencer {
    /// A key is at hand from the step that leaves boot services on, and
    /// none is before the memory map is due.
    pub open spec fn wf(self) -> bool {
        &&& self.step.index() >= BootStep::ExitBootServices.index() ==> self.map_key is Some
        &&& self.map_key is Some ==> self.step.index() >= BootStep::CaptureMemoryMap.index()
    }

    /// How far the boot has come.
    pub open spec fn spec_state(&self) -> BootState {
        if self.run == Run::Entered {
            BootState::Entered
        } else {
            match self.step {
                BootStep::LocateImage(_) => BootState::Init,
                BootStep::LoadImage(_) => BootState::ImageLocated,
                BootStep::PlaceKernel => BootState::ImageLoaded,
                BootStep::PlaceEnvironment => BootState::ImageLoaded,
                BootStep::DiscoverAcpi => BootState::ImageLoaded,
                BootStep::CaptureDisplay => BootState::ImageLoaded,
                BootStep::CaptureMemoryMap => if self.map_key is Some {
                    BootState::MemoryMapCaptured
                } else {
                    BootState::DisplayPrepared
                },
                BootStep::ExitBootServices => BootState::MemoryMapCaptured,
                BootStep::DisableInterrupts => BootState::BootServicesExited,
                BootStep::EnablePaging => BootState::BootServicesExited,
                BootStep::SwitchStack => BootState::PagingEnabled,
                BootStep::EnterKernel => BootState::PagingEnabled,
            }
        }
    }

    /// What the driver is to do in this state.
    pub open spec fn spec_action(&self) -> BootAction {
        match self.run {
            Run::Running => match (self.step, self.map_key) {
                (BootStep::ExitBootServices, Some(key)) => BootAction::ExitBootServices { key },
                _ => BootAction::Perform(self.step),
            },
            Run::Halted(error) => if self.step.spec_before_exit() {
                BootAction::Abort(error)
            } else {
                BootAction::Reset(error)
            },
            Run::Entered => BootAction::Finished,
        }
    }

    /// The state that follows when the driver reports `report`.
    ///
    /// - Nothing follows once the boot has ended.
    /// - A report that does not fit the step changes nothing.
    /// - A captured map brings its key, and leaving boot services is due.
    /// - If the first source has no image, the second is tried.
    /// - If the firmware turns the key down, the map is captured again, as
    ///   long as a retry is left.
    /// - Any other fatal failure ends the boot; any other failure that is not
    ///   fatal changes nothing.
    /// - Otherwise the next step is due, and after the last step control is
    ///   with the kernel.
    pub open spec fn next(self, report: StepReport) -> BootSequencer {
        if self.run != Run::Running {
            self
        } else {
            match report {
                StepReport::MapCaptured(key) => if self.step == BootStep::CaptureMemoryMap {
                    BootSequencer {
                        step: BootStep::ExitBootServices,
                        map_key: Some(key),
                        ..self
                    }
                } else {
                    self
                },
                StepReport::Done => if self.step == BootStep::CaptureMemoryMap {
                    self
                } else if self.step == BootStep::EnterKernel {
                    BootSequencer { run: Run::Entered, ..self }
                } else {
                    BootSequencer { step: self.step.spec_successor(), ..self }
                },
                StepReport::Failed(error) => if self.step == BootStep::LocateImage(
                    ImageSource::NativeFile,
                ) {
                    BootSequencer {
                        step: BootStep::LocateImage(ImageSource::FallbackFilesystem),
                        ..self
                    }
                } else if self.step == BootStep::ExitBootServices && error
                    == BootError::MapKeyStale {
                    if self.retries_left > 0 {
                        BootSequencer {
                            step: BootStep::CaptureMemoryMap,
                            retries_left: (self.retries_left - 1) as u32,
                            ..self
                        }
                    } else {
                        BootSequencer { run: Run::Halted(error), ..self }
                    }
                } else if error.spec_is_fatal() {
                    BootSequencer { run: Run::Halted(error), ..self }
                } else {
                    self
                },
            }
        }
    }

    /// A sequencer at the start of the boot, which tries leaving boot
    /// services again up to `retry_limit` times.
    pub open spec fn spec_new(retry_limit: u32) -> BootSequencer {
        BootSequencer {
            step: BootStep::LocateImage(ImageSource::NativeFile),
            run: Run::Running,
            map_key: None,
            retries_left: retry_limit,
        }
    }

    /// A sequencer at the start of the boot, which tries leaving boot
    /// services again up to `retry_limit` times.
    #[verifier::when_used_as_spec(spec_new)]
    pub fn new(retry_limit: u32) -> (sequencer: BootSequencer)
        ensures
            sequencer.wf(),
            sequencer == BootSequencer::spec_new(retry_limit),
    {
        BootSequencer {
            step: BootStep::LocateImage(ImageSource::NativeFile),
            run: Run::Running,
            map_key: None,
            retries_left: retry_limit,
        }
    }

    /// How far the boot has come.
    #[verifier::when_used_as_spec(spec_state)]
    pub fn state(&self) -> (state: BootState)
        ensures
            state == self.spec_state(),
    {
        match self.run {
            Run::Entered => BootState::Entered,
            _ => match self.step {
                BootStep::LocateImage(_) => BootState::Init,
                BootStep::LoadImage(_) => BootState::ImageLocated,
                BootStep::PlaceKernel => BootState::ImageLoaded,
                BootStep::PlaceEnvironment => BootState::ImageLoaded,
                BootStep::DiscoverAcpi => BootState::ImageLoaded,
                BootStep::CaptureDisplay => BootState::ImageLoaded,
                BootStep::CaptureMemoryMap => match self.map_key {
                    Some(_) => BootState::MemoryMapCaptured,
                    None => BootState::DisplayPrepared,
                },
                BootStep::ExitBootServices => BootState::MemoryMapCaptured,
                BootStep::DisableInterrupts => BootState::BootServicesExited,
                BootStep::EnablePaging => BootState::BootServicesExited,
                BootStep::SwitchStack => BootState::PagingEnabled,
                BootStep::EnterKernel => BootState::PagingEnabled,
            },
        }
    }

    /// What the driver is to do now.
    #[verifier::when_used_as_spec(spec_action)]
    pub fn action(&self) -> (action: BootAction)
        ensures
            action == self.spec_action(),
    {
        match self.run {
            Run::Running => match (self.step, self.map_key) {
                (BootStep::ExitBootServices, Some(key)) => BootAction::ExitBootServices { key },
                _ => BootAction::Perform(self.step),
            },
            Run::Halted(error) => {
                if self.step.before_exit() {
                    BootAction::Abort(error)
                } else {
                    BootAction::Reset(error)
                }
            },
            Run::Entered => BootAction::Finished,
        }
    }

    /// Takes the driver's report of the step it was told to take, and tells
    /// it what to do next; see [`BootSequencer::next`].
    pub fn advance(&mut self, report: StepReport) -> (action: BootAction)
        ensures
            *final(self) == old(self).next(report),
            old(self).wf() ==> final(self).wf(),
            action == final(self).spec_action(),
    {
        match self.run {
            Run::Running => {
                match report {
                    StepReport::MapCaptured(key) => {
                        if self.step == BootStep::CaptureMemoryMap {
                            self.step = BootStep::ExitBootServices;
                            self.map_key = Some(key);
                        }
                    },
                    StepReport::Done => {
                        if self.step == BootStep::CaptureMemoryMap {
                        } else if self.step == BootStep::EnterKernel {
                            self.run = Run::Entered;
                        } else {
                            self.step = self.step.successor();
                        }
                    },
                    StepReport::Failed(error) => {
                        if self.step == BootStep::LocateImage(ImageSource::NativeFile) {
                            self.step = BootStep::LocateImage(ImageSource::FallbackFilesystem);
                        } else if self.step == BootStep::ExitBootServices && error
                            == BootError::MapKeyStale {
                            if self.retries_left > 0 {
                                self.step = BootStep::CaptureMemoryMap;
                                self.retries_left = self.retries_left - 1;
                            } else {
                                self.run = Run::Halted(error);
                            }
                        } else if error.is_fatal() {
                            self.run = Run::Halted(error);
                        }
                    },
                }
            },
            _ => {},
        }
        self.action()
    }
}

/// The boot only moves forward: no report takes the sequencer to an earlier
/// state, and a report never skips a step.
pub proof fn lemma_boot_moves_forward(sequencer: BootSequencer, report: StepReport)
    requires
        sequencer.wf(),
    ensures
        sequencer.next(report).wf(),
        sequencer.next(report).spec_state().rank() >= sequencer.spec_state().rank(),
        sequencer.next(report).spec_state().rank() <= sequencer.spec_state().rank() + 1,
        sequencer.next(report).step.index() <= sequencer.step.index() + 1,
        sequencer.next(report).retries_left <= sequencer.retries_left,
{
}

/// Leaving boot services is only ever asked for with the key of the map
/// that was captured last.
pub proof fn lemma_exit_takes_latest_key(sequencer: BootSequencer, key: usize)
    requires
        sequencer.wf(),
        sequencer.run == Run::Running,
        sequencer.step == BootStep::CaptureMemoryMap,
    ensures
        sequencer.next(StepReport::MapCaptured(key)).spec_action() == (BootAction::ExitBootServices {
            key,
        }),
        forall|other: BootSequencer, any: usize|
            other.wf() && other.spec_action() == (BootAction::ExitBootServices { key: any })
                ==> other.map_key == Some(any),
{
}

/// A key that the firmware turns down brings exactly one more capture of the
/// map and one more try with the new key, as long as a retry is left; with
/// none left the boot ends in a reset.
pub proof fn lemma_stale_key_is_retried(sequencer: BootSequencer, fresh: usize)
    requires
        sequencer.wf(),
        sequencer.run == Run::Running,
        sequencer.step == BootStep::ExitBootServices,
    ensures
        sequencer.retries_left > 0 ==> {
            let again = sequencer.next(StepReport::Failed(BootError::MapKeyStale));
            &&& again.spec_action() == BootAction::Perform(BootStep::CaptureMemoryMap)
            &&& again.retries_left == sequencer.retries_left - 1
            &&& again.next(StepReport::MapCaptured(fresh)).spec_action() == (
            BootAction::ExitBootServices { key: fresh })
        },
        sequencer.retries_left == 0 ==> sequencer.next(
            StepReport::Failed(BootError::MapKeyStale),
        ).spec_action() == BootAction::Reset(BootError::MapKeyStale),
{
}

/// The state after a run of reports, taken one after the other.
pub open spec fn after(sequencer: BootSequencer, reports: Seq<StepReport>) -> BootSequencer
    decreases reports.len(),
{
    if reports.len() == 0 {
        sequencer
    } else {
        after(sequencer, reports.drop_last()).next(reports.last())
    }
}

/// How often a run of reports makes the sequencer ask to leave boot
/// services: once for every memory map that is captured when one is due.
pub open spec fn exits_asked(sequencer: BootSequencer, reports: Seq<StepReport>) -> nat
    decreases reports.len(),
{
    if reports.len() == 0 {
        0
    } else {
        let before = after(sequencer, reports.drop_last());
        let asked: nat = if before.run == Run::Running && before.step == BootStep::CaptureMemoryMap
            && reports.last() is MapCaptured {
            1
        } else {
            0
        };
        exits_asked(sequencer, reports.drop_last()) + asked
    }
}

proof fn lemma_exits_and_retries(limit: u32, reports: Seq<StepReport>)
    ensures
        after(BootSequencer::new(limit), reports).wf(),
        after(BootSequencer::new(limit), reports).step.index() >= BootStep::ExitBootServices.index()
            ==> exits_asked(BootSequencer::new(limit), reports) >= 1,
        exits_asked(BootSequencer::new(limit), reports) + after(
            BootSequencer::new(limit),
            reports,
        ).retries_left + (if after(BootSequencer::new(limit), reports).step.index()
            < BootStep::ExitBootServices.index() {
            1int
        } else {
            0int
        }) == limit + 1,
    decreases reports.len(),
{
    if reports.len() > 0 {
        lemma_exits_and_retries(limit, reports.drop_last());
    }
}

/// Whatever is reported, a boot from the start asks to leave boot services
/// at most once more than its retry limit, and control only passes to the
/// kernel after boot services were left with the key of a captured map.
pub proof fn lemma_exit_attempts_are_bounded(limit: u32, reports: Seq<StepReport>)
    ensures
        exits_asked(BootSequencer::new(limit), reports) <= limit + 1,
        after(BootSequencer::new(limit), reports).run == Run::Entered ==> {
            &&& exits_asked(BootSequencer::new(limit), reports) >= 1
            &&& after(BootSequencer::new(limit), reports).map_key is Some
        },
{
    lemma_exits_and_retries(limit, reports);
    lemma_entered_at_the_end(limit, reports);
}

proof fn lemma_entered_at_the_end(limit: u32, reports: Seq<StepReport>)
    ensures
        after(BootSequencer::new(limit), reports).run == Run::Entered ==> after(
            BootSequencer::new(limit),
            reports,
        ).step == BootStep::EnterKernel,
    decreases reports.len(),
{
    if reports.len() > 0 {
        lemma_entered_at_the_end(limit, reports.drop_last());
    }
}

} // verus!
