//! A stage: a named bundle of a startup, a process and a destroy unit, with
//! the pulse timer that gates its process unit.

use crate::ecs::{execute, store, unit_operations, OperationKind};
use crate::text::write_name_and_frequency;
use crate::timer::{PulseTimer, TimerState};
use legion::{Resources, Schedule, World};
use vstd::prelude::*;

verus! {

/// What a stage is: its name, the state of its timer and its three units.
pub struct StageView {
    pub name: Seq<char>,
    pub timer: TimerState,
    pub startup: Schedule,
    pub process: Schedule,
    pub destroy: Schedule,
}

impl StageView {
    /// The target number of process ticks in each second.
    pub open spec fn frequency(self) -> nat {
        self.timer.ticks_per_second
    }

    /// The operations of the startup unit, in the order they were added.
    pub open spec fn startup_operations(self) -> Seq<OperationKind> {
        unit_operations(self.startup)
    }

    /// The operations of the process unit, in the order they were added.
    pub open spec fn process_operations(self) -> Seq<OperationKind> {
        unit_operations(self.process)
    }

    /// The operations of the destroy unit, in the order they were added.
    pub open spec fn destroy_operations(self) -> Seq<OperationKind> {
        unit_operations(self.destroy)
    }

    /// The stage with its frequency replaced and its timer started again.
    pub open spec fn with_frequency(self, frequency: nat) -> StageView {
        StageView {
            timer: TimerState { ticks_per_second: frequency, accumulated: 0 },
            ..self
        }
    }
}

/// What is on show of a busy stage: its name and its frequency.
pub struct StageInfoView {
    pub name: Seq<char>,
    pub frequency: nat,
}

impl StageView {
    /// What is on show of the stage while it is busy.
    pub open spec fn info(self) -> StageInfoView {
        StageInfoView { name: self.name, frequency: self.frequency() }
    }
}

/// What is on show of each stage of a list, in list order.
pub open spec fn snapshot(stages: Seq<StageView>) -> Seq<StageInfoView> {
    stages.map_values(|stage: StageView| stage.info())
}

/// The names in a list of stage records, in list order.
pub open spec fn info_names(infos: Seq<StageInfoView>) -> Seq<Seq<char>> {
    infos.map_values(|info: StageInfoView| info.name)
}

/// The views of a list of stages, in list order.
pub open spec fn stage_views(stages: Seq<AppStage>) -> Seq<StageView> {
    stages.map_values(|stage: AppStage| stage@)
}

/// The views of a list of stage records, in list order.
pub open spec fn info_views(infos: Seq<StageInfo>) -> Seq<StageInfoView> {
    infos.map_values(|info: StageInfo| info@)
}

/// A record of a busy stage, as the settings show it: the run loop owns the
/// stage itself.
#[derive(Debug)]
pub struct StageInfo {
    name: String,
    frequency: u32,
}

impl View for StageInfo {
    type V = StageInfoView;

    closed spec fn view(&self) -> StageInfoView {
        StageInfoView { name: self.name@, frequency: self.frequency as nat }
    }
}

impl StageInfo {
    /// The name that identifies the stage.
    pub fn name(&self) -> (name: &str)
        ensures
            name@ == self@.name,
    {
        self.name.as_str()
    }

    /// The target number of process ticks in each second.
    pub fn frequency(&self) -> (frequency: u32)
        ensures
            frequency == self@.frequency,
    {
        self.frequency
    }
}

/// A named, independently clocked bundle of three executable units.
pub struct AppStage {
    name: String,
    timer: PulseTimer,
    startup: Schedule,
    process: Schedule,
    destroy: Schedule,
}

impl View for AppStage {
    type V = StageView;

    closed spec fn view(&self) -> StageView {
        StageView {
            name: self.name@,
            timer: self.timer@,
            startup: self.startup,
            process: self.process,
            destroy: self.destroy,
        }
    }
}

impl AppStage {
    /// Bundles a name, a timer and three compiled units into a stage.
    pub(crate) fn new(
        name: String,
        timer: PulseTimer,
        startup: Schedule,
        process: Schedule,
        destroy: Schedule,
    ) -> (stage: Self)
        ensures
            stage@ == (StageView { name: name@, timer: timer@, startup, process, destroy }),
    {
        AppStage { name, timer, startup, process, destroy }
    }

    /// The name that identifies the stage.
    pub fn name(&self) -> (name: &str)
        ensures
            name@ == self@.name,
    {
        self.name.as_str()
    }

    /// The target number of process ticks in each second.
    pub fn frequency(&self) -> (frequency: u32)
        ensures
            frequency == self@.frequency(),
    {
        self.timer.ticks_per_second()
    }

    /// The timer that gates the process unit.
    pub fn timer(&self) -> (timer: PulseTimer)
        ensures
            timer@ == self@.timer,
    {
        self.timer
    }

    /// A record of the stage's name and frequency.
    pub fn info(&self) -> (info: StageInfo)
        ensures
            info@ == self@.info(),
    {
        StageInfo { name: self.name.clone(), frequency: self.timer.ticks_per_second() }
    }

    /// Replaces the frequency; the timer starts again with nothing
    /// accumulated. The name and the units stay as they are.
    pub fn set_frequency(&mut self, frequency: u32)
        ensures
            final(self)@ == old(self)@.with_frequency(frequency as nat),
    {
        self.timer.set_ticks_per_second(frequency);
    }

    /// Executes the startup unit. The stage keeps its name, its timer and its
    /// other units, and the startup unit keeps its operations.
    pub(crate) fn init(&mut self, world: &mut World, resources: &mut Resources)
        ensures
            final(self)@.name == old(self)@.name,
            final(self)@.timer == old(self)@.timer,
            final(self)@.process == old(self)@.process,
            final(self)@.destroy == old(self)@.destroy,
            final(self)@.startup_operations() == old(self)@.startup_operations(),
    {
        execute(&mut self.startup, world, resources);
    }

    /// Updates the timer by the frame's elapsed time, in flicks, and reports
    /// whether it ticked. On a tick the timer's new state is published in
    /// the resources and the process unit is executed; without one the
    /// process unit is left alone.
    pub(crate) fn play(
        &mut self,
        delta: u64,
        world: &mut World,
        resources: &mut Resources,
    ) -> (ticked: bool)
        ensures
            ticked == old(self)@.timer.capped_fires(delta as nat),
            final(self)@.timer == old(self)@.timer.capped_after(delta as nat),
            final(self)@.name == old(self)@.name,
            final(self)@.startup == old(self)@.startup,
            final(self)@.destroy == old(self)@.destroy,
            final(self)@.process_operations() == old(self)@.process_operations(),
            !ticked ==> final(self)@.process == old(self)@.process,
    {
        let ticked = self.timer.update(delta);
        if ticked {
            store(resources, self.timer);
            execute(&mut self.process, world, resources);
        }
        ticked
    }

    /// Executes the destroy unit. The stage keeps its name, its timer and its
    /// other units, and the destroy unit keeps its operations.
    pub(crate) fn free(&mut self, world: &mut World, resources: &mut Resources)
        ensures
            final(self)@.name == old(self)@.name,
            final(self)@.timer == old(self)@.timer,
            final(self)@.startup == old(self)@.startup,
            final(self)@.process == old(self)@.process,
            final(self)@.destroy_operations() == old(self)@.destroy_operations(),
    {
        execute(&mut self.destroy, world, resources);
    }
}

impl core::fmt::Debug for AppStage {
    /// Writes the name and the frequency of the stage.
    fn fmt(&self, f: &mut core::fmt::Formatter<'_>) -> (result: core::fmt::Result) {
        write_name_and_frequency(f, "AppStage", self.name(), self.frequency())
    }
}

} // verus!
