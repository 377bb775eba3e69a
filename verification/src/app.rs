//! The application: the owner of the busy stages, and the run loop that
//! starts them, plays them iteration by iteration and frees them.

use crate::clock::FrameClock;
use crate::ecs::{empty_resources, empty_world, store, withdraw_settings};
use crate::roster::Roster;
use crate::stage::{stage_views, StageView};
use legion::{Resources, World};
use vstd::prelude::*;

pub use crate::builder::{AppBuildError, AppBuilder, AppStageBuilder};
pub use crate::settings::{AppCommand, AppFault, AppSettings, AppSettingsError};
pub use crate::stage::{AppStage, StageInfo};
pub use crate::timer::PulseTimer;

verus! {

/// Where an application stands in its life.
#[derive(Clone, Copy, Debug, PartialEq, Eq, Structural)]
pub enum AppPhase {
    /// Built; the startup pass is due.
    Init,
    /// Started; iterations follow one another.
    Running,
    /// A quit was applied; only the destroy pass is due.
    Shutdown,
    /// The destroy pass is done.
    Finished,
}

/// Whether `after` is `before` once its startup unit has been executed.
pub open spec fn started(before: StageView, after: StageView) -> bool {
    &&& after.name == before.name
    &&& after.timer == before.timer
    &&& after.process == before.process
    &&& after.destroy == before.destroy
    &&& after.startup_operations() == before.startup_operations()
}

/// Whether `after` is `before` once it has played a frame of `delta` flicks:
/// its timer is updated, and only a tick lets the process unit run.
pub open spec fn played(before: StageView, after: StageView, delta: nat) -> bool {
    &&& after.name == before.name
    &&& after.timer == before.timer.capped_after(delta)
    &&& after.startup == before.startup
    &&& after.destroy == before.destroy
    &&& after.process_operations() == before.process_operations()
    &&& !before.timer.capped_fires(delta) ==> after.process == before.process
}

/// Whether `after` is `before` once its destroy unit has been executed.
pub open spec fn freed(before: StageView, after: StageView) -> bool {
    &&& after.name == before.name
    &&& after.timer == before.timer
    &&& after.startup == before.startup
    &&& after.process == before.process
    &&& after.destroy_operations() == before.destroy_operations()
}

/// Whether every stage of the list was started: none joined or left.
pub open spec fn all_started(before: Seq<StageView>, after: Seq<StageView>) -> bool {
    &&& after.len() == before.len()
    &&& forall|i: int| 0 <= i < before.len() ==> started(before[i], #[trigger] after[i])
}

/// Whether every stage of the list played a frame of `delta` flicks: none
/// joined or left.
pub open spec fn all_played(before: Seq<StageView>, after: Seq<StageView>, delta: nat) -> bool {
    &&& after.len() == before.len()
    &&& forall|i: int| 0 <= i < before.len() ==> played(before[i], #[trigger] after[i], delta)
}

/// Whether every stage of the list was freed: none joined or left.
pub open spec fn all_freed(before: Seq<StageView>, after: Seq<StageView>) -> bool {
    &&& after.len() == before.len()
    &&& forall|i: int| 0 <= i < before.len() ==> freed(before[i], #[trigger] after[i])
}

/// An entry of the journal of an application: a unit of the stage of that
/// name was executed.
pub enum StageEvent {
    /// The startup unit was executed.
    Started(Seq<char>),
    /// The timer ticked and the process unit was executed.
    Played(Seq<char>),
    /// The destroy unit was executed.
    Freed(Seq<char>),
}

/// The journal of a startup pass over `stages`: every stage, in list order.
pub open spec fn start_events(stages: Seq<StageView>) -> Seq<StageEvent> {
    stages.map_values(|stage: StageView| StageEvent::Started(stage.name))
}

/// The journal of a play pass over `stages` for a frame of `delta` flicks:
/// the stages whose timers tick, in list order.
pub open spec fn play_events(stages: Seq<StageView>, delta: nat) -> Seq<StageEvent>
    decreases stages.len(),
{
    if stages.len() == 0 {
        Seq::<StageEvent>::empty()
    } else {
        let earlier = play_events(stages.drop_last(), delta);
        if stages.last().timer.capped_fires(delta) {
            earlier.push(StageEvent::Played(stages.last().name))
        } else {
            earlier
        }
    }
}

/// The journal of a destroy pass over `stages`: every stage, in list order.
pub open spec fn free_events(stages: Seq<StageView>) -> Seq<StageEvent> {
    stages.map_values(|stage: StageView| StageEvent::Freed(stage.name))
}

/// Whether every entry tells of a process unit.
pub open spec fn only_plays(events: Seq<StageEvent>) -> bool {
    forall|i: int| 0 <= i < events.len() ==> (#[trigger] events[i]) is Played
}

/// An application: its busy stages, in running order. In proofs it also
/// keeps a journal of the units that it executed, oldest first.
pub struct App {
    busy_stages: Vec<AppStage>,
    phase: AppPhase,
    journal: Ghost<Seq<StageEvent>>,
}

impl App {
    /// The busy stages, in running order.
    pub closed spec fn stages(&self) -> Seq<StageView> {
        stage_views(self.busy_stages@)
    }

    /// Where the application stands in its life.
    pub closed spec fn phase(&self) -> AppPhase {
        self.phase
    }

    /// The units executed so far, oldest first.
    pub closed spec fn journal(&self) -> Seq<StageEvent> {
        self.journal@
    }

    /// An application without stages.
    pub fn new() -> (app: Self)
        ensures
            app.stages() == Seq::<StageView>::empty(),
            app.phase() == AppPhase::Init,
            app.journal() == Seq::<StageEvent>::empty(),
    {
        let app = App {
            busy_stages: Vec::new(),
            phase: AppPhase::Init,
            journal: Ghost(Seq::empty()),
        };
        assert(app.stages() =~= Seq::<StageView>::empty());
        app
    }

    /// An application that runs `stages`, in that order.
    pub fn from_stages(stages: Vec<AppStage>) -> (app: Self)
        ensures
            app.stages() == stage_views(stages@),
            app.phase() == AppPhase::Init,
            app.journal() == Seq::<StageEvent>::empty(),
    {
        App { busy_stages: stages, phase: AppPhase::Init, journal: Ghost(Seq::empty()) }
    }

    /// Where the application stands in its life.
    pub fn current_phase(&self) -> (phase: AppPhase)
        ensures
            phase == self.phase(),
    {
        self.phase
    }

    /// The number of busy stages.
    pub fn stage_count(&self) -> (count: usize)
        ensures
            count == self.stages().len(),
    {
        self.busy_stages.len()
    }

    /// The busy stages, in running order.
    pub fn busy_stages<'a>(&'a self) -> (stages: &'a [AppStage])
        ensures
            stage_views(stages@) == self.stages(),
    {
        self.busy_stages.as_slice()
    }

    /// The startup phase. Settings that record the busy stages are put into
    /// the resources, and then every stage is started, in running order. It
    /// is due once, before the first iteration; at any other time nothing
    /// happens and the fault is reported.
    pub fn start(&mut self, world: &mut World, resources: &mut Resources) -> (result: Result<
        (),
        AppFault,
    >)
        ensures
            if old(self).phase() == AppPhase::Init {
                &&& result is Ok
                &&& final(self).phase() == AppPhase::Running
                &&& all_started(old(self).stages(), final(self).stages())
                &&& final(self).journal() == old(self).journal() + start_events(
                    old(self).stages(),
                )
            } else {
                &&& result == Err::<(), AppFault>(AppFault::OutOfPhase)
                &&& final(self).phase() == old(self).phase()
                &&& final(self).stages() == old(self).stages()
                &&& final(self).journal() == old(self).journal()
            },
    {
        if self.phase != AppPhase::Init {
            return Err(AppFault::OutOfPhase);
        }
        store(resources, AppSettings::new(&self.busy_stages));
        let ghost first = self.stages();
        let mut index: usize = 0;
        assert(first.take(0) =~= Seq::<StageView>::empty());
        assert(self.journal() =~= old(self).journal() + start_events(first.take(0)));
        while index < self.busy_stages.len()
            invariant
                index <= self.busy_stages.len(),
                self.phase == old(self).phase,
                first == old(self).stages(),
                self.stages().len() == first.len(),
                forall|i: int| 0 <= i < index ==> started(first[i], #[trigger] self.stages()[i]),
                forall|i: int|
                    index <= i < self.stages().len() ==> #[trigger] self.stages()[i] == first[i],
                self.journal() == old(self).journal() + start_events(first.take(index as int)),
            decreases self.busy_stages.len() - index,
        {
            let ghost prior = self.stages();
            let stage = &mut self.busy_stages[index];
            stage.init(world, resources);
            proof {
                self.journal@ = self.journal@.push(StageEvent::Started(first[index as int].name));
            }
            assert(self.stages().len() == prior.len());
            assert(started(prior[index as int], self.stages()[index as int]));
            assert forall|i: int| 0 <= i < prior.len() && i != index implies (
            #[trigger] self.stages()[i]) == prior[i] by {}
            assert(first.take(index as int + 1) =~= first.take(index as int).push(
                first[index as int],
            ));
            assert(start_events(first.take(index as int + 1)) =~= start_events(
                first.take(index as int),
            ).push(StageEvent::Started(first[index as int].name)));
            index += 1;
        }
        assert(first.take(index as int) =~= first);
        self.phase = AppPhase::Running;
        Ok(())
    }

    /// One iteration, on the settings that the resources hand back. What it
    /// does with them is told of [`App::advance_with`]; told here is what
    /// holds whatever they are.
    pub fn advance(
        &mut self,
        delta: u64,
        world: &mut World,
        resources: &mut Resources,
    ) -> (result: Result<bool, AppFault>)
        ensures
            old(self).phase() != AppPhase::Running <==> result == Err::<bool, AppFault>(
                AppFault::OutOfPhase,
            ),
            old(self).phase() != AppPhase::Running ==> final(self).stages() == old(self).stages(),
            result is Ok ==> final(self).phase() == if result == Ok::<bool, AppFault>(true) {
                AppPhase::Shutdown
            } else {
                AppPhase::Running
            },
            result is Err ==> final(self).phase() == old(self).phase(),
            result is Err ==> final(self).journal() == old(self).journal(),
            result == Err::<bool, AppFault>(AppFault::SettingsMissing) ==> final(self).stages()
                == old(self).stages(),
            exists|plays: Seq<StageEvent>|
                only_plays(plays) && final(self).journal() == old(self).journal() + plays,
    {
        if self.phase != AppPhase::Running {
            assert(only_plays(Seq::<StageEvent>::empty()));
            assert(self.journal() =~= old(self).journal() + Seq::<StageEvent>::empty());
            return Err(AppFault::OutOfPhase);
        }
        let settings = withdraw_settings(resources);
        let ghost batch = if settings is Some {
            Roster { busy: self.stages(), spare: settings->0.spare() }.apply_batch(
                settings->0.pending(),
            ).roster.busy
        } else {
            self.stages()
        };
        let result = self.advance_with(settings, delta, world, resources);
        proof {
            if result is Ok {
                lemma_play_events_are_plays(batch, delta as nat);
            } else {
                assert(only_plays(Seq::<StageEvent>::empty()));
                assert(self.journal() =~= old(self).journal() + Seq::<StageEvent>::empty());
            }
        }
        result
    }

    /// One iteration of the running phase, `settings` being what the
    /// resources held and `delta` the flicks since the iteration before.
    ///
    /// The queued commands are applied as one batch, and the settings go
    /// back into the resources. Then every busy stage plays, in running
    /// order, those included that the batch brought in. The result tells
    /// whether the batch held a quit: the iteration is played all the
    /// same, and it is the last, for the application leaves the running
    /// phase.
    ///
    /// Outside the running phase nothing happens. Without settings nothing
    /// happens either. Where a command no longer fits the lists, the batch
    /// stops in front of it and no stage plays. Each of these is reported as
    /// a fault.
    pub fn advance_with(
        &mut self,
        settings: Option<AppSettings>,
        delta: u64,
        world: &mut World,
        resources: &mut Resources,
    ) -> (result: Result<bool, AppFault>)
        ensures
            old(self).phase() != AppPhase::Running ==> {
                &&& result == Err::<bool, AppFault>(AppFault::OutOfPhase)
                &&& final(self).phase() == old(self).phase()
                &&& final(self).stages() == old(self).stages()
                &&& final(self).journal() == old(self).journal()
            },
            old(self).phase() == AppPhase::Running && settings is None ==> {
                &&& result == Err::<bool, AppFault>(AppFault::SettingsMissing)
                &&& final(self).phase() == AppPhase::Running
                &&& final(self).stages() == old(self).stages()
                &&& final(self).journal() == old(self).journal()
            },
            old(self).phase() == AppPhase::Running && settings is Some ==> ({
                let outcome = Roster {
                    busy: old(self).stages(),
                    spare: settings->0.spare(),
                }.apply_batch(settings->0.pending());
                if outcome.rest.len() > 0 {
                    &&& result == Err::<bool, AppFault>(AppFault::StaleCommand)
                    &&& final(self).phase() == AppPhase::Running
                    &&& final(self).stages() == outcome.roster.busy
                    &&& final(self).journal() == old(self).journal()
                } else {
                    &&& result == Ok::<bool, AppFault>(outcome.quit)
                    &&& final(self).phase() == if outcome.quit {
                        AppPhase::Shutdown
                    } else {
                        AppPhase::Running
                    }
                    &&& all_played(outcome.roster.busy, final(self).stages(), delta as nat)
                    &&& final(self).journal() == old(self).journal() + play_events(
                        outcome.roster.busy,
                        delta as nat,
                    )
                }
            }),
    {
        if self.phase != AppPhase::Running {
            if let Some(settings) = settings {
                store(resources, settings);
            }
            return Err(AppFault::OutOfPhase);
        }
        let mut settings = match settings {
            Some(settings) => settings,
            None => {
                return Err(AppFault::SettingsMissing);
            },
        };
        let applied = settings.apply(&mut self.busy_stages);
        store(resources, settings);
        let quit = match applied {
            Ok(quit) => quit,
            Err(fault) => {
                return Err(fault);
            },
        };
        let ghost batch = self.stages();
        let mut index: usize = 0;
        assert(batch.take(0) =~= Seq::<StageView>::empty());
        assert(self.journal() =~= old(self).journal() + play_events(batch.take(0), delta as nat));
        while index < self.busy_stages.len()
            invariant
                index <= self.busy_stages.len(),
                self.phase == AppPhase::Running,
                self.stages().len() == batch.len(),
                forall|i: int|
                    0 <= i < index ==> played(batch[i], #[trigger] self.stages()[i], delta as nat),
                forall|i: int|
                    index <= i < self.stages().len() ==> #[trigger] self.stages()[i] == batch[i],
                self.journal() == old(self).journal() + play_events(
                    batch.take(index as int),
                    delta as nat,
                ),
            decreases self.busy_stages.len() - index,
        {
            let ghost prior = self.stages();
            let stage = &mut self.busy_stages[index];
            let ticked = stage.play(delta, world, resources);
            proof {
                if ticked {
                    let name = batch[index as int].name;
                    self.journal@ = self.journal@.push(StageEvent::Played(name));
                }
            }
            assert(self.stages().len() == prior.len());
            assert(played(prior[index as int], self.stages()[index as int], delta as nat));
            assert forall|i: int| 0 <= i < prior.len() && i != index implies (
            #[trigger] self.stages()[i]) == prior[i] by {}
            assert(batch.take(index as int + 1).drop_last() =~= batch.take(index as int));
            assert(batch.take(index as int + 1).last() == batch[index as int]);
            index += 1;
        }
        assert(batch.take(index as int) =~= batch);
        if quit {
            self.phase = AppPhase::Shutdown;
        }
        Ok(quit)
    }

    /// The shutdown phase: every busy stage is freed, in running order.
    /// Spare stages are not. It is due once the application was started;
    /// before that, or a second time, nothing happens and the fault is
    /// reported.
    pub fn finish(&mut self, world: &mut World, resources: &mut Resources) -> (result: Result<
        (),
        AppFault,
    >)
        ensures
            if old(self).phase() == AppPhase::Running || old(self).phase() == AppPhase::Shutdown {
                &&& result is Ok
                &&& final(self).phase() == AppPhase::Finished
                &&& all_freed(old(self).stages(), final(self).stages())
                &&& final(self).journal() == old(self).journal() + free_events(old(self).stages())
            } else {
                &&& result == Err::<(), AppFault>(AppFault::OutOfPhase)
                &&& final(self).phase() == old(self).phase()
                &&& final(self).stages() == old(self).stages()
                &&& final(self).journal() == old(self).journal()
            },
    {
        if self.phase != AppPhase::Running && self.phase != AppPhase::Shutdown {
            return Err(AppFault::OutOfPhase);
        }
        let ghost first = self.stages();
        let mut index: usize = 0;
        assert(first.take(0) =~= Seq::<StageView>::empty());
        assert(self.journal() =~= old(self).journal() + free_events(first.take(0)));
        while index < self.busy_stages.len()
            invariant
                index <= self.busy_stages.len(),
                self.phase == old(self).phase,
                first == old(self).stages(),
                self.stages().len() == first.len(),
                forall|i: int| 0 <= i < index ==> freed(first[i], #[trigger] self.stages()[i]),
                forall|i: int|
                    index <= i < self.stages().len() ==> #[trigger] self.stages()[i] == first[i],
                self.journal() == old(self).journal() + free_events(first.take(index as int)),
            decreases self.busy_stages.len() - index,
        {
            let ghost prior = self.stages();
            let stage = &mut self.busy_stages[index];
            stage.free(world, resources);
            proof {
                self.journal@ = self.journal@.push(StageEvent::Freed(first[index as int].name));
            }
            assert(self.stages().len() == prior.len());
            assert(freed(prior[index as int], self.stages()[index as int]));
            assert forall|i: int| 0 <= i < prior.len() && i != index implies (
            #[trigger] self.stages()[i]) == prior[i] by {}
            assert(first.take(index as int + 1) =~= first.take(index as int).push(
                first[index as int],
            ));
            assert(free_events(first.take(index as int + 1)) =~= free_events(
                first.take(index as int),
            ).push(StageEvent::Freed(first[index as int].name)));
            index += 1;
        }
        assert(first.take(index as int) =~= first);
        self.phase = AppPhase::Finished;
        Ok(())
    }

    /// Runs the application over the given world and resources: the startup
    /// phase, then iterations timed by the machine's clock until one applies
    /// a quit, then the shutdown phase. A fault ends the run where it
    /// occurs and is returned. An application that was started before is
    /// left as it is.
    ///
    /// A run that comes to its end has started every stage, in running
    /// order, then played stages, then freed every stage that was busy at
    /// the end, in running order. The loop gives up waiting for a quit after
    /// `u64::MAX` iterations.
    pub fn run_with(&mut self, world: &mut World, resources: &mut Resources) -> (result: Result<
        (),
        AppFault,
    >)
        ensures
            old(self).phase() != AppPhase::Init ==> {
                &&& result == Err::<(), AppFault>(AppFault::OutOfPhase)
                &&& final(self).phase() == old(self).phase()
                &&& final(self).stages() == old(self).stages()
                &&& final(self).journal() == old(self).journal()
            },
            old(self).phase() == AppPhase::Init ==> match result {
                Ok(()) => {
                    &&& final(self).phase() == AppPhase::Finished
                    &&& exists|plays: Seq<StageEvent>|
                        {
                            &&& only_plays(plays)
                            &&& final(self).journal() == old(self).journal() + start_events(
                                old(self).stages(),
                            ) + plays + free_events(final(self).stages())
                        }
                },
                Err(fault) => {
                    &&& fault != AppFault::OutOfPhase
                    &&& final(self).phase() == AppPhase::Running
                },
            },
    {
        match self.start(world, resources) {
            Ok(()) => {},
            Err(fault) => {
                return Err(fault);
            },
        }
        let ghost opening = self.journal();
        let ghost mut plays = Seq::<StageEvent>::empty();
        assert(self.journal() =~= opening + plays);
        let mut clock = FrameClock::start();
        let mut frames_left: u64 = u64::MAX;
        while self.phase == AppPhase::Running && frames_left > 0
            invariant
                old(self).phase() == AppPhase::Init,
                self.phase() == AppPhase::Running || self.phase() == AppPhase::Shutdown,
                only_plays(plays),
                self.journal() == opening + plays,
            decreases frames_left,
        {
            let delta = clock.frame();
            let ghost before = self.journal();
            match self.advance(delta, world, resources) {
                Ok(_) => {},
                Err(fault) => {
                    return Err(fault);
                },
            }
            proof {
                let more = choose|more: Seq<StageEvent>|
                    only_plays(more) && self.journal() == before + more;
                assert(opening + (plays + more) =~= (opening + plays) + more);
                plays = plays + more;
            }
            frames_left -= 1;
        }
        let ghost last = self.stages();
        let result = self.finish(world, resources);
        proof {
            assert(free_events(last) =~= free_events(self.stages())) by {
                assert forall|i: int| 0 <= i < last.len() implies free_events(last)[i]
                    == free_events(self.stages())[i] by {
                    assert(freed(last[i], self.stages()[i]));
                }
            }
        }
        result
    }

    /// Runs the application over a world and resources of its own, as
    /// [`App::run_with`] does.
    pub fn run(self) -> (result: Result<(), AppFault>)
        ensures
            self.phase() != AppPhase::Init <==> result == Err::<(), AppFault>(
                AppFault::OutOfPhase,
            ),
    {
        let mut app = self;
        let mut world = empty_world();
        let mut resources = empty_resources();
        app.run_with(&mut world, &mut resources)
    }
}

/// A play pass executes process units only.
pub proof fn lemma_play_events_are_plays(stages: Seq<StageView>, delta: nat)
    ensures
        only_plays(play_events(stages, delta)),
    decreases stages.len(),
{
    if stages.len() > 0 {
        lemma_play_events_are_plays(stages.drop_last(), delta);
    }
}

/// `core::fmt::Formatter::debug_struct`, for an application: writes the
/// struct's name, the busy stages and the phase.
#[verifier::external_body]
fn write_app(
    f: &mut core::fmt::Formatter<'_>,
    busy_stages: &Vec<AppStage>,
    phase: &AppPhase,
) -> (result: core::fmt::Result) {
    f.debug_struct("App").field("busy_stages", busy_stages).field("phase", phase).finish()
}

impl core::fmt::Debug for App {
    /// Writes the busy stages and the phase.
    fn fmt(&self, f: &mut core::fmt::Formatter<'_>) -> (result: core::fmt::Result) {
        write_app(f, &self.busy_stages, &self.phase)
    }
}

impl Default for App {
    /// An application without stages.
    fn default() -> (app: Self)
        ensures
            app.stages() == Seq::<StageView>::empty(),
            app.phase() == AppPhase::Init,
            app.journal() == Seq::<StageEvent>::empty(),
    {
        App::new()
    }
}

} // verus!
