//! The engine loop, one step at a time.
//!
//! The engine decides; the host acts. [`Engine::run`] takes a clock reading,
//! does the engine's part of the loop up to the next thing only the host can
//! do, and says what that is: carry out the pending commands, sleep, or
//! stop. The host does it and calls `run` again.

use vstd::prelude::*;
use crate::device::{Call, Device};
use crate::mesh_renderer::MeshRenderer;
use crate::pacing::FramePacer;
use crate::system::{ran_in_order, Scheduler, System, SystemType, World};
use crate::text::{frame_title, frame_title_text};
use crate::window::Window;

verus! {

/// The engine's name: the window's first title, and the head of every
/// frame-rate report.
pub const ENGINE_NAME: &'static str = "Foux Engine";

/// The window's width in pixels.
pub const WINDOW_WIDTH: u32 = 800;

/// The window's height in pixels.
pub const WINDOW_HEIGHT: u32 = 480;

/// The red, green, blue and alpha of the colour every frame is cleared to:
/// the bit patterns of 0.07, 0.17, 0.07 and 1.0.
pub const CLEAR_RED: u32 = 0x3d8f_5c29;

pub const CLEAR_GREEN: u32 = 0x3e2e_147b;

pub const CLEAR_BLUE: u32 = 0x3d8f_5c29;

pub const CLEAR_ALPHA: u32 = 0x3f80_0000;

/// Where the engine loop stands.
#[derive(Clone, Copy, Debug, PartialEq, Eq, Structural)]
pub enum EngineState {
    /// Nothing has run yet.
    Uninitialized,
    /// Running, at the top of an iteration.
    Ready,
    /// Running, with a frame issued whose end has not been timed yet.
    Presenting,
    /// The window was asked to close; the loop is over.
    Closed,
}

/// What the host is to do before it calls [`Engine::run`] again.
#[derive(Clone, Copy, Debug, PartialEq, Eq, Structural)]
pub enum Step {
    /// Carry out the window's pending commands, and tell the window whether
    /// the native window has been asked to close.
    Execute,
    /// Carry out the window's pending commands, then sleep this many
    /// nanoseconds.
    Sleep(u64),
    /// Carry out the window's pending commands, then stop: the loop is over.
    Stop,
}

/// The calls that draw `renders`, first to last.
pub open spec fn draw_calls_of(renders: Seq<MeshRenderer>) -> Seq<Call>
    decreases renders.len(),
{
    if renders.len() == 0 {
        Seq::empty()
    } else {
        draw_calls_of(renders.drop_last()) + renders.last().draw_calls()
    }
}

/// The calls that release `renders`, last to first.
pub open spec fn release_calls_of(renders: Seq<MeshRenderer>) -> Seq<Call>
    decreases renders.len(),
{
    if renders.len() == 0 {
        Seq::empty()
    } else {
        renders.last().release_calls() + release_calls_of(renders.drop_last())
    }
}

/// The engine: a window, the systems to run, and the meshes to draw.
pub struct Engine<S> {
    scheduler: Scheduler<S>,
    renders: Vec<MeshRenderer>,
    window: Window,
    pacer: FramePacer,
    state: EngineState,
}

impl<S: System> Engine<S> {
    /// Where the loop stands.
    pub closed spec fn spec_state(&self) -> EngineState {
        self.state
    }

    /// The systems.
    pub closed spec fn scheduler(&self) -> Scheduler<S> {
        self.scheduler
    }

    /// The meshes drawn every frame, in drawing order.
    pub closed spec fn renders(&self) -> Seq<MeshRenderer> {
        self.renders@
    }

    /// The window.
    pub closed spec fn spec_window(&self) -> Window {
        self.window
    }

    /// The clockwork.
    pub closed spec fn pacer(&self) -> FramePacer {
        self.pacer
    }

    /// `next` is this engine after its loop ended: every renderer has been
    /// released, and none is left.
    pub open spec fn closed(&self, next: Engine<S>) -> bool {
        &&& next.spec_state() == EngineState::Closed
        &&& next.scheduler() == self.scheduler()
        &&& next.pacer() == self.pacer()
        &&& next.renders() == Seq::<MeshRenderer>::empty()
        &&& self.spec_window().issues(next.spec_window(), release_calls_of(self.renders()))
    }

    /// `next` is this engine after its start at `now`: the startup systems
    /// have run, once each and in order, on the window and the renderers,
    /// and the clock runs from `now`.
    pub open spec fn started(&self, now: u64, next: Engine<S>) -> bool {
        &&& next.spec_state() == EngineState::Ready
        &&& next.pacer().target() == self.pacer().target()
        &&& next.pacer().frame_start() == now
        &&& next.pacer().window_start() == now
        &&& next.pacer().frames() == 0
        &&& next.pacer().frame_time() == 0
        &&& forall|t: SystemType|
            t != SystemType::Startup ==> next.scheduler().systems(t) == self.scheduler().systems(t)
        &&& exists|worlds: Seq<World>|
            {
                &&& #[trigger] ran_in_order(
                    self.scheduler().systems(SystemType::Startup),
                    next.scheduler().systems(SystemType::Startup),
                    worlds,
                )
                &&& worlds.first() == (World { window: self.spec_window(), renders: self.renders() })
                &&& worlds.last() == (World { window: next.spec_window(), renders: next.renders() })
            }
    }

    /// `next` is this engine after it issued a frame that began at `now`:
    /// the surface was cleared, the update systems ran, once each and in
    /// order, every renderer they left was drawn, in order, and the frame was
    /// shown and input collected.
    pub open spec fn drew(&self, now: u64, next: Engine<S>) -> bool {
        &&& next.spec_state() == EngineState::Presenting
        &&& self.pacer().begun(now, next.pacer())
        &&& forall|t: SystemType|
            t != SystemType::Update ==> next.scheduler().systems(t) == self.scheduler().systems(t)
        &&& exists|cleared: Window, worlds: Seq<World>|
            {
                &&& #[trigger] ran_in_order(
                    self.scheduler().systems(SystemType::Update),
                    next.scheduler().systems(SystemType::Update),
                    worlds,
                )
                &&& #[trigger] self.spec_window().issues(
                    cleared,
                    Window::clear_calls(CLEAR_RED, CLEAR_GREEN, CLEAR_BLUE, CLEAR_ALPHA),
                )
                &&& worlds.first() == (World { window: cleared, renders: self.renders() })
                &&& worlds.last().renders == next.renders()
                &&& worlds.last().window.issues(
                    next.spec_window(),
                    draw_calls_of(next.renders()) + Window::update_calls(),
                )
            }
    }

    /// `next` is this engine after it timed the end of its frame at `now`:
    /// the clockwork has moved on, and where the frame ended a reporting
    /// window the window's title is the report.
    pub open spec fn paced(&self, now: u64, next: Engine<S>) -> bool {
        &&& next.spec_state() == EngineState::Ready
        &&& self.pacer().ended(now, next.pacer())
        &&& next.scheduler() == self.scheduler()
        &&& next.renders() == self.renders()
        &&& match self.pacer().pace(now).report {
            Some(report) => {
                let title = frame_title(ENGINE_NAME@, report.fps, report.frame_time);
                &&& next.spec_window().spec_title() == title
                &&& next.spec_window().spec_should_close() == self.spec_window().spec_should_close()
                &&& next.spec_window().spec_width() == self.spec_window().spec_width()
                &&& next.spec_window().spec_height() == self.spec_window().spec_height()
                &&& self.spec_window().spec_device().issues(
                    next.spec_window().spec_device(),
                    seq![Call::SetTitle { title }],
                )
                &&& next.spec_window().spec_device().next_id()
                    == self.spec_window().spec_device().next_id()
            },
            None => next.spec_window() == self.spec_window(),
        }
    }

    /// A frame of an engine without update systems is the clear, the draws
    /// of its renderers, and the presentation, and nothing else: the
    /// renderers are the ones it had, and so is the rest of the window.
    pub proof fn lemma_frame_without_systems(&self, now: u64, next: Engine<S>)
        requires
            self.drew(now, next),
            self.scheduler().systems(SystemType::Update).len() == 0,
        ensures
            next.renders() == self.renders(),
            self.spec_window().issues(
                next.spec_window(),
                Window::clear_calls(CLEAR_RED, CLEAR_GREEN, CLEAR_BLUE, CLEAR_ALPHA)
                    + draw_calls_of(self.renders()) + Window::update_calls(),
            ),
    {
        let clear = Window::clear_calls(CLEAR_RED, CLEAR_GREEN, CLEAR_BLUE, CLEAR_ALPHA);
        let rest = draw_calls_of(next.renders()) + Window::update_calls();
        let (cleared, worlds) = choose|cleared: Window, worlds: Seq<World>|
            {
                &&& #[trigger] ran_in_order(
                    self.scheduler().systems(SystemType::Update),
                    next.scheduler().systems(SystemType::Update),
                    worlds,
                )
                &&& #[trigger] self.spec_window().issues(cleared, clear)
                &&& worlds.first() == (World { window: cleared, renders: self.renders() })
                &&& worlds.last().renders == next.renders()
                &&& worlds.last().window.issues(next.spec_window(), rest)
            };
        assert(worlds.first() == worlds.last());
        self.spec_window().lemma_issues_more(cleared, next.spec_window(), clear, rest);
        assert(clear + rest =~= clear + draw_calls_of(self.renders()) + Window::update_calls());
    }

    /// An engine that has not started, for frames of `target_frame_time`
    /// nanoseconds. It has no systems and no renderers, and its window bears
    /// the engine's name. A frame must get some time: there is no engine for
    /// a frame time of 0.
    pub fn new(target_frame_time: u64) -> (engine: Option<Engine<S>>)
        ensures
            engine is Some <==> target_frame_time > 0,
            engine matches Some(e) ==> {
                &&& e.spec_state() == EngineState::Uninitialized
                &&& e.pacer().target() == target_frame_time
                &&& e.renders() == Seq::<MeshRenderer>::empty()
                &&& forall|t: SystemType| e.scheduler().systems(t) == Seq::<S>::empty()
                &&& e.spec_window().spec_title() == ENGINE_NAME@
                &&& e.spec_window().spec_width() == WINDOW_WIDTH
                &&& e.spec_window().spec_height() == WINDOW_HEIGHT
                &&& !e.spec_window().spec_should_close()
                &&& e.spec_window().spec_device().issued() == Seq::<Call>::empty()
            },
    {
        match FramePacer::new(target_frame_time, 0) {
            None => None,
            Some(pacer) => Some(
                Engine {
                    scheduler: Scheduler::new(),
                    renders: Vec::new(),
                    window: Window::new(ENGINE_NAME, WINDOW_WIDTH, WINDOW_HEIGHT),
                    pacer,
                    state: EngineState::Uninitialized,
                },
            ),
        }
    }

    /// Registers `system` for a phase, after the systems already registered
    /// for it.
    pub fn add_system(&mut self, system_type: SystemType, system: S)
        ensures
            final(self).scheduler().systems(system_type)
                == old(self).scheduler().systems(system_type).push(system),
            forall|t: SystemType|
                t != system_type
                    ==> final(self).scheduler().systems(t) == old(self).scheduler().systems(t),
            final(self).spec_state() == old(self).spec_state(),
            final(self).renders() == old(self).renders(),
            final(self).spec_window() == old(self).spec_window(),
            final(self).pacer() == old(self).pacer(),
    {
        self.scheduler.insert(system_type, system);
    }

    /// Where the loop stands.
    #[verifier::when_used_as_spec(spec_state)]
    pub fn state(&self) -> (state: EngineState)
        ensures
            state == self.spec_state(),
    {
        self.state
    }

    /// The window.
    pub fn window(&self) -> (window: &Window)
        ensures
            *window == self.spec_window(),
    {
        &self.window
    }

    /// The window, for the host to take commands from and to report to.
    pub fn window_mut(&mut self) -> (window: &mut Window)
        ensures
            *window == old(self).spec_window(),
            final(self).spec_window() == *final(window),
            final(self).spec_state() == old(self).spec_state(),
            final(self).scheduler() == old(self).scheduler(),
            final(self).renders() == old(self).renders(),
            final(self).pacer() == old(self).pacer(),
    {
        &mut self.window
    }

    /// Takes the loop one step on at clock reading `now`.
    ///
    /// Before the first frame the startup systems run. At the top of an
    /// iteration a window that has been asked to close ends the loop, and
    /// the renderers are released; otherwise a frame is issued. After a
    /// frame its end is timed: the engine says how long to sleep, and reports
    /// the frame rate whenever a reporting window has ended. A loop that is
    /// over stays over.
    pub fn run(&mut self, now: u64) -> (step: Step)
        ensures
            match old(self).spec_state() {
                EngineState::Uninitialized => {
                    &&& step == Step::Execute
                    &&& old(self).started(now, *final(self))
                },
                EngineState::Ready => if old(self).spec_window().spec_should_close() {
                    &&& step == Step::Stop
                    &&& old(self).closed(*final(self))
                } else {
                    &&& step == Step::Execute
                    &&& old(self).drew(now, *final(self))
                },
                EngineState::Presenting => {
                    &&& step == Step::Sleep(old(self).pacer().pace(now).sleep)
                    &&& old(self).paced(now, *final(self))
                },
                EngineState::Closed => {
                    &&& step == Step::Stop
                    &&& *final(self) == *old(self)
                },
            },
    {
        match self.state {
            EngineState::Uninitialized => {
                self.start(now);
                Step::Execute
            },
            EngineState::Ready => {
                if self.window.should_close() {
                    self.close();
                    Step::Stop
                } else {
                    self.draw_frame(now);
                    Step::Execute
                }
            },
            EngineState::Presenting => {
                let sleep = self.pace_frame(now);
                Step::Sleep(sleep)
            },
            EngineState::Closed => Step::Stop,
        }
    }

    /// Ends the loop: releases every renderer.
    fn close(&mut self)
        ensures
            old(self).closed(*final(self)),
    {
        let ghost before = self.window.spec_device();
        let ghost all = release_calls_of(self.renders@);
        let ghost mut released = Seq::<Call>::empty();
        proof {
            before.lemma_issues_none(all);
            assert(all.take(0) =~= released);
        }
        while self.renders.len() > 0
            invariant
                self.scheduler == old(self).scheduler,
                self.pacer == old(self).pacer,
                self.state == old(self).state,
                old(self).window.issues(self.window, released),
                before == old(self).window.spec_device(),
                released + release_calls_of(self.renders@) == all,
                all == release_calls_of(old(self).renders@),
            decreases self.renders@.len(),
        {
            let ghost mid = self.window.spec_device();
            let ghost left = self.renders@;
            match self.renders.pop() {
                Some(renderer) => {
                    renderer.destroy(self.window.device_mut());
                    proof {
                        before.lemma_issues_more(
                            mid,
                            self.window.spec_device(),
                            released,
                            renderer.release_calls(),
                        );
                        assert(left.drop_last() =~= self.renders@);
                        assert(left.last() == renderer);
                        assert((released + renderer.release_calls()) + release_calls_of(
                            self.renders@,
                        ) =~= released + release_calls_of(left));
                        released = released + renderer.release_calls();
                    }
                },
                None => {},
            }
        }
        proof {
            assert(released + release_calls_of(self.renders@) =~= released);
            assert(self.renders@ =~= Seq::<MeshRenderer>::empty());
        }
        self.state = EngineState::Closed;
    }

    /// Runs the startup systems and starts the clock.
    fn start(&mut self, now: u64)
        ensures
            old(self).started(now, *final(self)),
    {
        self.scheduler.invoke(SystemType::Startup, &mut self.window, &mut self.renders);
        self.pacer.restart(now);
        self.state = EngineState::Ready;
        proof {
            let first = World { window: old(self).spec_window(), renders: old(self).renders() };
            let last = World { window: self.spec_window(), renders: self.renders() };
            let worlds = choose|worlds: Seq<World>|
                {
                    &&& #[trigger] ran_in_order(
                        old(self).scheduler().systems(SystemType::Startup),
                        self.scheduler().systems(SystemType::Startup),
                        worlds,
                    )
                    &&& worlds.first() == first
                    &&& worlds.last() == last
                };
            assert(ran_in_order(
                old(self).scheduler().systems(SystemType::Startup),
                self.scheduler().systems(SystemType::Startup),
                worlds,
            ));
        }
    }

    /// Issues one frame.
    fn draw_frame(&mut self, now: u64)
        ensures
            old(self).drew(now, *final(self)),
    {
        self.pacer.begin_frame(now);
        self.window.clear(CLEAR_RED, CLEAR_GREEN, CLEAR_BLUE, CLEAR_ALPHA);
        let ghost cleared = self.window;
        self.scheduler.invoke(SystemType::Update, &mut self.window, &mut self.renders);
        let ghost updated = self.window;
        let ghost worlds = choose|worlds: Seq<World>|
            {
                &&& #[trigger] ran_in_order(
                    old(self).scheduler().systems(SystemType::Update),
                    self.scheduler().systems(SystemType::Update),
                    worlds,
                )
                &&& worlds.first() == (World { window: cleared, renders: old(self).renders() })
                &&& worlds.last() == (World { window: updated, renders: self.renders() })
            };
        draw_all(&self.renders, self.window.device_mut());
        let ghost drawn = self.window;
        self.window.update();
        self.state = EngineState::Presenting;
        proof {
            let draws = draw_calls_of(self.renders());
            updated.spec_device().lemma_issues_more(
                drawn.spec_device(),
                self.window.spec_device(),
                draws,
                Window::update_calls(),
            );
            assert(ran_in_order(
                old(self).scheduler().systems(SystemType::Update),
                self.scheduler().systems(SystemType::Update),
                worlds,
            ));
            assert(old(self).spec_window().issues(
                cleared,
                Window::clear_calls(CLEAR_RED, CLEAR_GREEN, CLEAR_BLUE, CLEAR_ALPHA),
            ));
        }
    }

    /// Times the end of the frame, and reports the frame rate when the
    /// frame ended a reporting window.
    fn pace_frame(&mut self, now: u64) -> (sleep: u64)
        ensures
            sleep == old(self).pacer().pace(now).sleep,
            old(self).paced(now, *final(self)),
    {
        let pace = self.pacer.end_frame(now);
        match pace.report {
            Some(report) => {
                let title = frame_title_text(ENGINE_NAME, report.fps, report.frame_time);
                self.window.set_title(title.as_str());
            },
            None => {},
        }
        self.state = EngineState::Ready;
        pace.sleep
    }
}

/// Draws `renders`, first to last.
fn draw_all(renders: &Vec<MeshRenderer>, device: &mut Device)
    ensures
        old(device).issues(*final(device), draw_calls_of(renders@)),
        final(device).next_id() == old(device).next_id(),
{
    let n = renders.len();
    let mut i: usize = 0;
    proof {
        old(device).lemma_issues_none(draw_calls_of(renders@));
        assert(draw_calls_of(renders@.take(0)) =~= draw_calls_of(renders@).take(0));
    }
    while i < n
        invariant
            i <= n,
            n == renders@.len(),
            old(device).issues(*device, draw_calls_of(renders@.take(i as int))),
            device.next_id() == old(device).next_id(),
        decreases n - i,
    {
        let ghost before = *device;
        renders[i].render(device);
        proof {
            let prefix = renders@.take(i as int);
            let longer = renders@.take(i + 1);
            assert(longer.drop_last() =~= prefix);
            assert(longer.last() == renders@[i as int]);
            old(device).lemma_issues_more(
                before,
                *device,
                draw_calls_of(prefix),
                renders@[i as int].draw_calls(),
            );
        }
        i += 1;
    }
    assert(renders@.take(n as int) =~= renders@);
}

} // verus!
