//! The executable units of a stage, and the world and resource store they run
//! over. All of these belong to `legion`; this module declares them and states
//! what the scheduler relies on.

use crate::settings::AppSettings;
use legion::systems::{Builder, ParallelRunnable, Runnable};
use legion::{Resources, Schedule, World};
use vstd::prelude::*;

verus! {

/// How an operation of a phase may be scheduled.
#[derive(Clone, Copy, Debug, PartialEq, Eq, Structural)]
pub enum OperationKind {
    /// A system that may run on any worker.
    Parallel,
    /// A system confined to the control thread.
    Exclusive,
    /// A closure confined to the control thread.
    ExclusiveFn,
}

#[verifier::external_type_specification]
#[verifier::external_body]
pub struct ExWorld(legion::World);

#[verifier::external_type_specification]
#[verifier::external_body]
pub struct ExResources(legion::Resources);

#[verifier::external_type_specification]
#[verifier::external_body]
pub struct ExSchedule(legion::Schedule);

#[verifier::external_type_specification]
#[verifier::external_body]
pub struct ExBuilder(legion::systems::Builder);

/// The operations added to a `legion::systems::Builder` so far, in the
/// order in which they were added.
pub uninterp spec fn builder_operations(builder: Builder) -> Seq<OperationKind>;

/// The operations that a `legion::Schedule` executes, in the order in which
/// they were added to the builder it was built from.
pub uninterp spec fn unit_operations(unit: Schedule) -> Seq<OperationKind>;

/// `legion::systems::Builder::default`: a builder that holds no operation.
#[verifier::external_body]
pub(crate) fn empty_builder() -> (builder: Builder)
    ensures
        builder_operations(builder) == Seq::<OperationKind>::empty(),
{
    Builder::default()
}

/// `legion::systems::Builder::add_system`: the system is added behind the
/// operations that the builder already holds, to run on any worker.
#[verifier::external_body]
pub(crate) fn add_parallel<T: ParallelRunnable + 'static>(builder: &mut Builder, system: T)
    ensures
        builder_operations(*final(builder)) == builder_operations(*old(builder)).push(
            OperationKind::Parallel,
        ),
{
    builder.add_system(system);
}

/// `legion::systems::Builder::add_thread_local`: the system is added behind
/// the operations that the builder already holds, to run on the control
/// thread.
#[verifier::external_body]
pub(crate) fn add_exclusive<T: Runnable + 'static>(builder: &mut Builder, system: T)
    ensures
        builder_operations(*final(builder)) == builder_operations(*old(builder)).push(
            OperationKind::Exclusive,
        ),
{
    builder.add_thread_local(system);
}

/// `legion::systems::Builder::add_thread_local_fn`: the closure is added
/// behind the operations that the builder already holds, to run on the
/// control thread.
#[verifier::external_body]
pub(crate) fn add_exclusive_fn<F: FnMut(&mut World, &mut Resources) + 'static>(
    builder: &mut Builder,
    f: F,
)
    ensures
        builder_operations(*final(builder)) == builder_operations(*old(builder)).push(
            OperationKind::ExclusiveFn,
        ),
{
    builder.add_thread_local_fn(f);
}

/// `legion::systems::Builder::build`: the schedule executes the operations
/// that were added to the builder, in that order.
#[verifier::external_body]
pub(crate) fn compile(builder: Builder) -> (unit: Schedule)
    ensures
        unit_operations(unit) == builder_operations(builder),
{
    let mut builder = builder;
    builder.build()
}

/// `legion::Schedule::execute`: runs every operation of the unit over the
/// world and the resources, and returns when the last has finished. The unit
/// keeps its operations. Nothing is claimed of the world or of the resources
/// afterwards: the operations may change both at will. An operation that
/// panics or never ends takes this call with it; no contract here can tell
/// such a unit from another.
#[verifier::external_body]
pub(crate) fn execute(unit: &mut Schedule, world: &mut World, resources: &mut Resources)
    ensures
        unit_operations(*final(unit)) == unit_operations(*old(unit)),
{
    unit.execute(world, resources);
}

/// `legion::Resources::insert`: the store holds this value from now on, in
/// place of one of the same type that it held before.
#[verifier::external_body]
pub(crate) fn store<T: 'static>(resources: &mut Resources, value: T) {
    resources.insert(value);
}

/// `legion::Resources::remove`, for the settings: takes the settings out of
/// the store, if it holds any. Nothing is claimed of them: the operations that
/// ran since they were put in may have changed them at will.
#[verifier::external_body]
pub(crate) fn withdraw_settings(resources: &mut Resources) -> (settings: Option<AppSettings>) {
    resources.remove::<AppSettings>()
}

/// `legion::World::default`: a world without entities.
#[verifier::external_body]
pub(crate) fn empty_world() -> (world: World) {
    World::default()
}

/// `legion::Resources::default`: a store without resources.
#[verifier::external_body]
pub(crate) fn empty_resources() -> (resources: Resources) {
    Resources::default()
}

} // verus!
