//! The builders: a stage builder gathers the operations of the three phases
//! of one stage, and the application builder gathers stage builders under
//! distinct names.

use crate::app::App;
use crate::ecs::{
    add_exclusive, add_exclusive_fn, add_parallel, builder_operations, compile, empty_builder,
    OperationKind,
};
use crate::roster::{distinct, stage_names};
use crate::stage::{stage_views, AppStage, StageView};
use crate::text::{same_text, write_name_and_frequency};
use crate::timer::PulseTimer;
use legion::systems::{Builder, ParallelRunnable, Runnable};
use legion::{Resources, World};
use vstd::prelude::*;

verus! {

/// What a stage builder holds: the name and the frequency of the stage to
/// build, and a builder for each of its three units.
pub struct StageBuilderView {
    pub name: Seq<char>,
    pub frequency: nat,
    pub startup: Builder,
    pub process: Builder,
    pub destroy: Builder,
}

impl StageBuilderView {
    /// The operations added to the startup phase so far, in order.
    pub open spec fn startup_operations(self) -> Seq<OperationKind> {
        builder_operations(self.startup)
    }

    /// The operations added to the process phase so far, in order.
    pub open spec fn process_operations(self) -> Seq<OperationKind> {
        builder_operations(self.process)
    }

    /// The operations added to the destroy phase so far, in order.
    pub open spec fn destroy_operations(self) -> Seq<OperationKind> {
        builder_operations(self.destroy)
    }

    /// Whether `stage` is what this builder builds: a stage of the same name
    /// and frequency, with nothing accumulated in its timer, whose units
    /// hold the operations that were added to the three phases.
    pub open spec fn builds(self, stage: StageView) -> bool {
        &&& stage.name == self.name
        &&& stage.timer.ticks_per_second == self.frequency
        &&& stage.timer.accumulated == 0
        &&& stage.startup_operations() == self.startup_operations()
        &&& stage.process_operations() == self.process_operations()
        &&& stage.destroy_operations() == self.destroy_operations()
    }
}

/// The names of a list of stage builders, in list order.
pub open spec fn builder_names(builders: Seq<StageBuilderView>) -> Seq<Seq<char>> {
    builders.map_values(|builder: StageBuilderView| builder.name)
}

/// The views of a list of stage builders, in list order.
pub open spec fn builder_views(builders: Seq<AppStageBuilder>) -> Seq<StageBuilderView> {
    builders.map_values(|builder: AppStageBuilder| builder@)
}

/// Gathers stage builders. No two of them have the same name.
pub struct AppBuilder {
    stage_builders: Vec<AppStageBuilder>,
}

/// Gathers the operations of one stage. A stage builder that was created by
/// an application builder carries it along, so that `into_app_builder` can
/// hand the stage over to it; the name of the stage is then none of that
/// builder's.
pub struct AppStageBuilder {
    name: String,
    frequency: u32,
    builder_startup: Builder,
    builder_process: Builder,
    builder_destroy: Builder,
    app_builder: Option<AppBuilder>,
}

/// Why a stage builder was turned down. It comes back inside the error.
#[derive(Debug)]
pub enum AppBuildError {
    /// The application builder already holds a stage builder of that name.
    DuplicateName(AppStageBuilder),
}

impl View for AppStageBuilder {
    type V = StageBuilderView;

    closed spec fn view(&self) -> StageBuilderView {
        StageBuilderView {
            name: self.name@,
            frequency: self.frequency as nat,
            startup: self.builder_startup,
            process: self.builder_process,
            destroy: self.builder_destroy,
        }
    }
}

impl AppBuilder {
    #[verifier::type_invariant]
    spec fn names_are_distinct(self) -> bool {
        distinct(builder_names(builder_views(self.stage_builders@)))
    }

    /// The stage builders gathered so far, in the order they were added.
    pub closed spec fn stages(&self) -> Seq<StageBuilderView> {
        builder_views(self.stage_builders@)
    }

    /// The names of the stage builders gathered so far.
    pub open spec fn names(&self) -> Seq<Seq<char>> {
        builder_names(self.stages())
    }

    /// An application builder without stage builders.
    pub fn new() -> (builder: Self)
        ensures
            builder.stages() == Seq::<StageBuilderView>::empty(),
    {
        let builder = AppBuilder { stage_builders: Vec::new() };
        assert(builder.stages() =~= Seq::<StageBuilderView>::empty());
        builder
    }

    /// Adds a stage builder behind those gathered so far, unless one of them
    /// has its name: then the stage builder comes back in the error.
    pub fn add_stage_builder(self, stage_builder: AppStageBuilder) -> (result: Result<
        Self,
        AppBuildError,
    >)
        ensures
            match result {
                Ok(builder) => {
                    &&& !self.names().contains(stage_builder@.name)
                    &&& builder.stages() == self.stages().push(stage_builder@)
                },
                Err(AppBuildError::DuplicateName(returned)) => {
                    &&& self.names().contains(stage_builder@.name)
                    &&& returned == stage_builder
                },
            },
    {
        if self.has_stage(stage_builder.name()) {
            Err(AppBuildError::DuplicateName(stage_builder))
        } else {
            proof {
                use_type_invariant(&self);
            }
            let ghost before = self.stages();
            let mut stage_builders = self.stage_builders;
            stage_builders.push(stage_builder);
            proof {
                let after = builder_views(stage_builders@);
                assert(after =~= before.push(stage_builder@));
                assert forall|i: int, j: int| 0 <= i < j < after.len() implies builder_names(
                    after,
                )[i] != builder_names(after)[j] by {
                    if j == before.len() {
                        assert(builder_names(before).contains(builder_names(before)[i]));
                    } else {
                        assert(builder_names(before)[i] != builder_names(before)[j]);
                    }
                }
            }
            Ok(AppBuilder { stage_builders })
        }
    }

    /// Creates a stage builder of that name and frequency that carries this
    /// application builder along, unless a stage builder gathered so far has
    /// the name: then a stage builder of that name and frequency, which
    /// carries nothing along, comes back in the error.
    pub fn create_stage_builder(self, stage_name: String, frequency: u32) -> (result: Result<
        AppStageBuilder,
        AppBuildError,
    >)
        ensures
            match result {
                Ok(stage_builder) => {
                    &&& !self.names().contains(stage_name@)
                    &&& stage_builder.is_fresh(stage_name@, frequency as nat)
                    &&& stage_builder.carried() == self.stages()
                },
                Err(AppBuildError::DuplicateName(returned)) => {
                    &&& self.names().contains(stage_name@)
                    &&& returned.is_fresh(stage_name@, frequency as nat)
                    &&& returned.carried() == Seq::<StageBuilderView>::empty()
                },
            },
    {
        let stage_builder = AppStageBuilder::new(stage_name, frequency);
        if self.has_stage(stage_builder.name()) {
            Err(AppBuildError::DuplicateName(stage_builder))
        } else {
            Ok(
                AppStageBuilder {
                    name: stage_builder.name,
                    frequency: stage_builder.frequency,
                    builder_startup: stage_builder.builder_startup,
                    builder_process: stage_builder.builder_process,
                    builder_destroy: stage_builder.builder_destroy,
                    app_builder: Some(self),
                },
            )
        }
    }

    /// Builds every stage, in the order the stage builders were added, into
    /// an application.
    pub fn build(self) -> (app: App)
        ensures
            app.phase() == crate::app::AppPhase::Init,
            app.stages().len() == self.stages().len(),
            forall|i: int|
                0 <= i < self.stages().len() ==> (#[trigger] self.stages()[i]).builds(
                    app.stages()[i],
                ),
            distinct(stage_names(app.stages())),
    {
        let ghost plans = self.stages();
        proof {
            use_type_invariant(&self);
        }
        let stage_builders = self.stage_builders;
        let mut stages: Vec<AppStage> = Vec::new();
        for stage_builder in remaining: stage_builders
            invariant
                plans == builder_views(remaining.seq()),
                stages.len() == remaining.index(),
                forall|i: int|
                    0 <= i < stages.len() ==> (#[trigger] plans[i]).builds(stage_views(stages@)[i]),
        {
            let stage = stage_builder.build();
            stages.push(stage);
        }
        proof {
            let built = stage_names(stage_views(stages@));
            assert forall|i: int, j: int| 0 <= i < j < built.len() implies built[i] != built[j] by {
                assert(plans[i].builds(stage_views(stages@)[i]));
                assert(plans[j].builds(stage_views(stages@)[j]));
                assert(builder_names(plans)[i] != builder_names(plans)[j]);
            }
        }
        App::from_stages(stages)
    }

    /// Whether a stage builder gathered so far has that name.
    fn has_stage(&self, stage_name: &str) -> (present: bool)
        ensures
            present == self.names().contains(stage_name@),
    {
        let ghost names = self.names();
        let mut index: usize = 0;
        while index < self.stage_builders.len()
            invariant
                index <= self.stage_builders.len(),
                names == self.names(),
                forall|earlier: int| 0 <= earlier < index ==> names[earlier] != stage_name@,
            decreases self.stage_builders.len() - index,
        {
            if same_text(self.stage_builders[index].name(), stage_name) {
                assert(names[index as int] == stage_name@);
                return true;
            }
            index += 1;
        }
        false
    }
}

impl AppStageBuilder {
    #[verifier::type_invariant]
    spec fn name_is_new(self) -> bool {
        match self.app_builder {
            Some(app_builder) => !builder_names(
                builder_views(app_builder.stage_builders@),
            ).contains(self.name@),
            None => true,
        }
    }

    /// The stage builders of the application builder that this one carries
    /// along; none if it carries no application builder.
    pub closed spec fn carried(&self) -> Seq<StageBuilderView> {
        match self.app_builder {
            Some(app_builder) => app_builder.stages(),
            None => Seq::<StageBuilderView>::empty(),
        }
    }

    /// Whether this is a stage builder of that name and frequency to which
    /// no operation was added.
    pub open spec fn is_fresh(&self, name: Seq<char>, frequency: nat) -> bool {
        &&& self@.name == name
        &&& self@.frequency == frequency
        &&& self@.startup_operations() == Seq::<OperationKind>::empty()
        &&& self@.process_operations() == Seq::<OperationKind>::empty()
        &&& self@.destroy_operations() == Seq::<OperationKind>::empty()
    }

    /// Whether this builder is for the same stage as `before`: the name, the
    /// frequency and the application builder carried along are the same.
    pub open spec fn same_stage(&self, before: AppStageBuilder) -> bool {
        &&& self@.name == before@.name
        &&& self@.frequency == before@.frequency
        &&& self.carried() == before.carried()
    }

    /// A stage builder of that name and frequency, without operations, that
    /// carries no application builder.
    pub fn new(name: String, frequency: u32) -> (builder: Self)
        ensures
            builder.is_fresh(name@, frequency as nat),
            builder.carried() == Seq::<StageBuilderView>::empty(),
    {
        AppStageBuilder {
            name,
            frequency,
            builder_startup: empty_builder(),
            builder_process: empty_builder(),
            builder_destroy: empty_builder(),
            app_builder: None,
        }
    }

    /// The name of the stage to build.
    pub fn name(&self) -> (name: &str)
        ensures
            name@ == self@.name,
    {
        self.name.as_str()
    }

    /// The frequency of the stage to build.
    pub fn frequency(&self) -> (frequency: u32)
        ensures
            frequency == self@.frequency,
    {
        self.frequency
    }

    /// Builds the stage: its timer has the frequency and nothing
    /// accumulated, and each unit holds the operations of its phase.
    pub fn build(self) -> (stage: AppStage)
        ensures
            self@.builds(stage@),
    {
        AppStage::new(
            self.name,
            PulseTimer::new(self.frequency),
            compile(self.builder_startup),
            compile(self.builder_process),
            compile(self.builder_destroy),
        )
    }

    /// Adds a system that may run on any worker to the end of the startup
    /// phase.
    pub fn add_system_startup<T: ParallelRunnable + 'static>(
        self,
        system: T,
    ) -> (builder: Self)
        ensures
            builder.same_stage(self),
            builder@.startup_operations() == self@.startup_operations().push(
                OperationKind::Parallel,
            ),
            builder@.process == self@.process,
            builder@.destroy == self@.destroy,
    {
        proof {
            use_type_invariant(&self);
        }
        let AppStageBuilder {
            name,
            frequency,
            mut builder_startup,
            builder_process,
            builder_destroy,
            app_builder,
        } = self;
        add_parallel(&mut builder_startup, system);
        AppStageBuilder {
            name,
            frequency,
            builder_startup,
            builder_process,
            builder_destroy,
            app_builder,
        }
    }

    /// Adds a system that may run on any worker to the end of the process
    /// phase.
    pub fn add_system_process<T: ParallelRunnable + 'static>(
        self,
        system: T,
    ) -> (builder: Self)
        ensures
            builder.same_stage(self),
            builder@.process_operations() == self@.process_operations().push(
                OperationKind::Parallel,
            ),
            builder@.startup == self@.startup,
            builder@.destroy == self@.destroy,
    {
        proof {
            use_type_invariant(&self);
        }
        let AppStageBuilder {
            name,
            frequency,
            builder_startup,
            mut builder_process,
            builder_destroy,
            app_builder,
        } = self;
        add_parallel(&mut builder_process, system);
        AppStageBuilder {
            name,
            frequency,
            builder_startup,
            builder_process,
            builder_destroy,
            app_builder,
        }
    }

    /// Adds a system that may run on any worker to the end of the destroy
    /// phase.
    pub fn add_system_destroy<T: ParallelRunnable + 'static>(
        self,
        system: T,
    ) -> (builder: Self)
        ensures
            builder.same_stage(self),
            builder@.destroy_operations() == self@.destroy_operations().push(
                OperationKind::Parallel,
            ),
            builder@.startup == self@.startup,
            builder@.process == self@.process,
    {
        proof {
            use_type_invariant(&self);
        }
        let AppStageBuilder {
            name,
            frequency,
            builder_startup,
            builder_process,
            mut builder_destroy,
            app_builder,
        } = self;
        add_parallel(&mut builder_destroy, system);
        AppStageBuilder {
            name,
            frequency,
            builder_startup,
            builder_process,
            builder_destroy,
            app_builder,
        }
    }

    /// Adds a system confined to the control thread to the end of the
    /// startup phase.
    pub fn add_thread_local_system_startup<T: Runnable + 'static>(
        self,
        system: T,
    ) -> (builder: Self)
        ensures
            builder.same_stage(self),
            builder@.startup_operations() == self@.startup_operations().push(
                OperationKind::Exclusive,
            ),
            builder@.process == self@.process,
            builder@.destroy == self@.destroy,
    {
        proof {
            use_type_invariant(&self);
        }
        let AppStageBuilder {
            name,
            frequency,
            mut builder_startup,
            builder_process,
            builder_destroy,
            app_builder,
        } = self;
        add_exclusive(&mut builder_startup, system);
        AppStageBuilder {
            name,
            frequency,
            builder_startup,
            builder_process,
            builder_destroy,
            app_builder,
        }
    }

    /// Adds a system confined to the control thread to the end of the
    /// process phase.
    pub fn add_thread_local_system_process<T: Runnable + 'static>(
        self,
        system: T,
    ) -> (builder: Self)
        ensures
            builder.same_stage(self),
            builder@.process_operations() == self@.process_operations().push(
                OperationKind::Exclusive,
            ),
            builder@.startup == self@.startup,
            builder@.destroy == self@.destroy,
    {
        proof {
            use_type_invariant(&self);
        }
        let AppStageBuilder {
            name,
            frequency,
            builder_startup,
            mut builder_process,
            builder_destroy,
            app_builder,
        } = self;
        add_exclusive(&mut builder_process, system);
        AppStageBuilder {
            name,
            frequency,
            builder_startup,
            builder_process,
            builder_destroy,
            app_builder,
        }
    }

    /// Adds a system confined to the control thread to the end of the
    /// destroy phase.
    pub fn add_thread_local_system_destroy<T: Runnable + 'static>(
        self,
        system: T,
    ) -> (builder: Self)
        ensures
            builder.same_stage(self),
            builder@.destroy_operations() == self@.destroy_operations().push(
                OperationKind::Exclusive,
            ),
            builder@.startup == self@.startup,
            builder@.process == self@.process,
    {
        proof {
            use_type_invariant(&self);
        }
        let AppStageBuilder {
            name,
            frequency,
            builder_startup,
            builder_process,
            mut builder_destroy,
            app_builder,
        } = self;
        add_exclusive(&mut builder_destroy, system);
        AppStageBuilder {
            name,
            frequency,
            builder_startup,
            builder_process,
            builder_destroy,
            app_builder,
        }
    }

    /// Adds a closure confined to the control thread to the end of the
    /// startup phase.
    pub fn add_thread_local_fn_startup<F: FnMut(&mut World, &mut Resources) + 'static>(
        self,
        f: F,
    ) -> (builder: Self)
        ensures
            builder.same_stage(self),
            builder@.startup_operations() == self@.startup_operations().push(
                OperationKind::ExclusiveFn,
            ),
            builder@.process == self@.process,
            builder@.destroy == self@.destroy,
    {
        proof {
            use_type_invariant(&self);
        }
        let AppStageBuilder {
            name,
            frequency,
            mut builder_startup,
            builder_process,
            builder_destroy,
            app_builder,
        } = self;
        add_exclusive_fn(&mut builder_startup, f);
        AppStageBuilder {
            name,
            frequency,
            builder_startup,
            builder_process,
            builder_destroy,
            app_builder,
        }
    }

    /// Adds a closure confined to the control thread to the end of the
    /// process phase.
    pub fn add_thread_local_fn_process<F: FnMut(&mut World, &mut Resources) + 'static>(
        self,
        f: F,
    ) -> (builder: Self)
        ensures
            builder.same_stage(self),
            builder@.process_operations() == self@.process_operations().push(
                OperationKind::ExclusiveFn,
            ),
            builder@.startup == self@.startup,
            builder@.destroy == self@.destroy,
    {
        proof {
            use_type_invariant(&self);
        }
        let AppStageBuilder {
            name,
            frequency,
            builder_startup,
            mut builder_process,
            builder_destroy,
            app_builder,
        } = self;
        add_exclusive_fn(&mut builder_process, f);
        AppStageBuilder {
            name,
            frequency,
            builder_startup,
            builder_process,
            builder_destroy,
            app_builder,
        }
    }

    /// Adds a closure confined to the control thread to the end of the
    /// destroy phase.
    pub fn add_thread_local_fn_destroy<F: FnMut(&mut World, &mut Resources) + 'static>(
        self,
        f: F,
    ) -> (builder: Self)
        ensures
            builder.same_stage(self),
            builder@.destroy_operations() == self@.destroy_operations().push(
                OperationKind::ExclusiveFn,
            ),
            builder@.startup == self@.startup,
            builder@.process == self@.process,
    {
        proof {
            use_type_invariant(&self);
        }
        let AppStageBuilder {
            name,
            frequency,
            builder_startup,
            builder_process,
            mut builder_destroy,
            app_builder,
        } = self;
        add_exclusive_fn(&mut builder_destroy, f);
        AppStageBuilder {
            name,
            frequency,
            builder_startup,
            builder_process,
            builder_destroy,
            app_builder,
        }
    }

    /// Hands the stage builder over to the application builder that it
    /// carries along, or to a new one if it carries none: the result holds
    /// the carried stage builders and this one behind them.
    pub fn into_app_builder(self) -> (app_builder: AppBuilder)
        ensures
            app_builder.stages() == self.carried().push(self@),
    {
        proof {
            use_type_invariant(&self);
        }
        let AppStageBuilder {
            name,
            frequency,
            builder_startup,
            builder_process,
            builder_destroy,
            app_builder,
        } = self;
        let stage_builder = AppStageBuilder {
            name,
            frequency,
            builder_startup,
            builder_process,
            builder_destroy,
            app_builder: None,
        };
        let app_builder = match app_builder {
            Some(app_builder) => app_builder,
            None => AppBuilder::new(),
        };
        app_builder.add_stage_builder(stage_builder).ok().unwrap()
    }
}

impl core::fmt::Debug for AppStageBuilder {
    /// Writes the name and the frequency of the stage to build.
    fn fmt(&self, f: &mut core::fmt::Formatter<'_>) -> (result: core::fmt::Result) {
        write_name_and_frequency(f, "AppStageBuilder", self.name(), self.frequency())
    }
}

impl Default for AppBuilder {
    /// An application builder without stage builders.
    fn default() -> (builder: Self)
        ensures
            builder.stages() == Seq::<StageBuilderView>::empty(),
    {
        AppBuilder::new()
    }
}

} // verus!
