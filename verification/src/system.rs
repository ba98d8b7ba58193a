//! Systems and the scheduler that runs them.
//!
//! A system is a callback that works on the window and the set of mesh
//! renderers. The scheduler keeps, for each phase of the frame, the systems
//! registered for it, and runs a phase's systems in the order they were
//! registered.

use vstd::prelude::*;
use crate::mesh_renderer::MeshRenderer;
use crate::window::Window;

verus! {

/// The phases systems can be registered for.
#[derive(Clone, Copy, Debug, Hash, PartialEq, Eq, Structural)]
pub enum SystemType {
    /// Run once, before the first frame.
    Startup,
    /// Run every frame.
    Update,
    /// Run on key input.
    Key,
}

/// What systems work on.
pub ghost struct World {
    pub window: Window,
    pub renders: Seq<MeshRenderer>,
}

/// A callback the scheduler can run.
pub trait System: Sized {
    /// Whether one run of this system can take the world from `before` to
    /// `after` and leave the system as `next`. A system that says nothing
    /// about itself allows everything.
    open spec fn runs(&self, before: World, next: Self, after: World) -> bool {
        true
    }

    /// Runs the system once. It may change the window and the renderers
    /// freely, add renderers and remove them.
    fn run(&mut self, window: &mut Window, renders: &mut Vec<MeshRenderer>)
        ensures
            old(self).runs(
                World { window: *old(window), renders: old(renders)@ },
                *final(self),
                World { window: *final(window), renders: final(renders)@ },
            ),
    ;
}

/// `worlds` is a run of the systems `before`, one after the other, first to
/// last: system `i` starts in world `i`, leaves world `i + 1`, and is
/// `after[i]` when it is done.
pub open spec fn ran_in_order<S: System>(before: Seq<S>, after: Seq<S>, worlds: Seq<World>) -> bool {
    &&& after.len() == before.len()
    &&& worlds.len() == before.len() + 1
    &&& forall|i: int|
        0 <= i < before.len() ==> (#[trigger] before[i]).runs(worlds[i], after[i], worlds[i + 1])
}

/// Registration order is running order: of two systems registered one after
/// the other for a phase, the second starts in the very world the first
/// left, whenever the phase is run.
pub proof fn lemma_registered_first_runs_first<S: System>(
    before: Scheduler<S>,
    system_type: SystemType,
    first: S,
    second: S,
    registered: Scheduler<S>,
    after: Scheduler<S>,
    worlds: Seq<World>,
)
    requires
        registered.systems(system_type) == before.systems(system_type).push(first).push(second),
        ran_in_order(registered.systems(system_type), after.systems(system_type), worlds),
    ensures
        ({
            let n = before.systems(system_type).len() as int;
            &&& first.runs(worlds[n], after.systems(system_type)[n], worlds[n + 1])
            &&& second.runs(worlds[n + 1], after.systems(system_type)[n + 1], worlds[n + 2])
        }),
{
    let n = before.systems(system_type).len() as int;
    let list = registered.systems(system_type);
    assert(list[n] == first);
    assert(list[n + 1] == second);
}

/// The systems registered for each phase, in registration order.
pub struct Scheduler<S> {
    startup: Vec<S>,
    update: Vec<S>,
    key: Vec<S>,
}

impl<S: System> Scheduler<S> {
    /// The systems registered for a phase, first registered first.
    pub closed spec fn systems(&self, system_type: SystemType) -> Seq<S> {
        match system_type {
            SystemType::Startup => self.startup@,
            SystemType::Update => self.update@,
            SystemType::Key => self.key@,
        }
    }

    /// A scheduler with no systems.
    pub fn new() -> (scheduler: Scheduler<S>)
        ensures
            forall|t: SystemType| scheduler.systems(t) == Seq::<S>::empty(),
    {
        Scheduler { startup: Vec::new(), update: Vec::new(), key: Vec::new() }
    }

    /// Registers `system` for a phase, after the systems already registered
    /// for it.
    pub fn insert(&mut self, system_type: SystemType, system: S)
        ensures
            final(self).systems(system_type) == old(self).systems(system_type).push(system),
            forall|t: SystemType|
                t != system_type ==> final(self).systems(t) == old(self).systems(t),
    {
        match system_type {
            SystemType::Startup => self.startup.push(system),
            SystemType::Update => self.update.push(system),
            SystemType::Key => self.key.push(system),
        }
    }

    /// How many systems are registered for a phase.
    pub fn count(&self, system_type: SystemType) -> (count: usize)
        ensures
            count == self.systems(system_type).len(),
    {
        match system_type {
            SystemType::Startup => self.startup.len(),
            SystemType::Update => self.update.len(),
            SystemType::Key => self.key.len(),
        }
    }

    /// Runs the systems of a phase, each once, in the order they were
    /// registered; each system works on what the one before it left. A phase
    /// without systems changes nothing. The systems of the other phases are
    /// not touched. A system has no way to the scheduler that runs it, so no
    /// phase is ever run from within a phase.
    pub fn invoke(
        &mut self,
        system_type: SystemType,
        window: &mut Window,
        renders: &mut Vec<MeshRenderer>,
    )
        ensures
            forall|t: SystemType|
                t != system_type ==> final(self).systems(t) == old(self).systems(t),
            exists|worlds: Seq<World>|
                {
                    &&& #[trigger] ran_in_order(
                        old(self).systems(system_type),
                        final(self).systems(system_type),
                        worlds,
                    )
                    &&& worlds.first() == (World { window: *old(window), renders: old(renders)@ })
                    &&& worlds.last() == (World { window: *final(window), renders: final(renders)@ })
                },
            old(self).systems(system_type).len() == 0 ==> {
                &&& *final(window) == *old(window)
                &&& *final(renders) == *old(renders)
                &&& *final(self) == *old(self)
            },
    {
        match system_type {
            SystemType::Startup => run_all(&mut self.startup, window, renders),
            SystemType::Update => run_all(&mut self.update, window, renders),
            SystemType::Key => run_all(&mut self.key, window, renders),
        }
        proof {
            let before = old(self).systems(system_type);
            let after = self.systems(system_type);
            let first = World { window: *old(window), renders: old(renders)@ };
            let last = World { window: *window, renders: renders@ };
            let worlds = choose|worlds: Seq<World>|
                {
                    &&& #[trigger] ran_in_order(before, after, worlds)
                    &&& worlds.first() == first
                    &&& worlds.last() == last
                };
            assert(ran_in_order(before, after, worlds));
        }
    }
}

impl<S: System> Default for Scheduler<S> {
    /// A scheduler with no systems.
    fn default() -> (scheduler: Scheduler<S>)
        ensures
            forall|t: SystemType| scheduler.systems(t) == Seq::<S>::empty(),
    {
        Scheduler::new()
    }
}

/// Runs `systems`, each once, first to last.
fn run_all<S: System>(systems: &mut Vec<S>, window: &mut Window, renders: &mut Vec<MeshRenderer>)
    ensures
        exists|worlds: Seq<World>|
            {
                &&& #[trigger] ran_in_order(old(systems)@, final(systems)@, worlds)
                &&& worlds.first() == (World { window: *old(window), renders: old(renders)@ })
                &&& worlds.last() == (World { window: *final(window), renders: final(renders)@ })
            },
        old(systems)@.len() == 0 ==> {
            &&& *final(window) == *old(window)
            &&& *final(renders) == *old(renders)
            &&& *final(systems) == *old(systems)
        },
{
    let n = systems.len();
    let ghost worlds: Seq<World> = seq![World { window: *window, renders: renders@ }];
    let mut i: usize = 0;
    while i < n
        invariant
            i <= n,
            n == old(systems)@.len(),
            systems@.len() == n,
            worlds.len() == i + 1,
            worlds[0] == (World { window: *old(window), renders: old(renders)@ }),
            worlds[i as int] == (World { window: *window, renders: renders@ }),
            forall|j: int|
                0 <= j < i ==> (#[trigger] old(systems)@[j]).runs(
                    worlds[j],
                    systems@[j],
                    worlds[j + 1],
                ),
            forall|j: int| i <= j < n ==> systems@[j] == old(systems)@[j],
            n == 0 ==> {
                &&& *window == *old(window)
                &&& *renders == *old(renders)
                &&& *systems == *old(systems)
            },
        decreases n - i,
    {
        let ghost before = systems@;
        systems[i].run(window, renders);
        proof {
            assert(forall|j: int| 0 <= j < n && j != i ==> systems@[j] == before[j]);
            worlds = worlds.push(World { window: *window, renders: renders@ });
        }
        i += 1;
    }
    assert(ran_in_order(old(systems)@, systems@, worlds));
}

} // verus!
