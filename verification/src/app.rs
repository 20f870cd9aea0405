//! The top-level orchestrator: single authority over the action queue and
//! the run/suspend/quit state.
//!
//! The caller owns the terminal surface and the timers; each loop iteration
//! it hands the next terminal event to [`App::handle_event`], enqueues the
//! actions that come back, dequeues actions one at a time in arrival order
//! through [`App::handle_action`], performs the effects each outcome names
//! (the draw pass, and session teardown to completion before the drain goes
//! on), and finally asks [`App::after_drain`] whether to suspend, stop, or
//! continue. Actions a component emits during a drain become visible only in
//! the next drain pass, never the current one.

use vstd::prelude::*;

use crate::action::{Action, ActionView, actions_view};
use crate::component::{
    Component, ComponentModel, component_wf, spec_component_update, spec_component_update_all,
    spec_splash_lines, spec_progress_num, lines_view,
};
use crate::events::TerminalEvent;
use crate::keys::{KeyBindings, KeyChordResolver, KeyPress, Mode, spec_resolve_step};
use crate::session::{SessionManager, SessionState, SessionView, TeardownPlan, spec_teardown};

verus! {

/// The overall state of the loop.
#[derive(Clone, Copy, Debug, PartialEq, Eq, Structural)]
pub enum RunState {
    /// The loop owns the terminal surface and processes events.
    Running,
    /// The surface is released until a `Resume` action arrives.
    Suspended,
    /// The loop has exited; terminal, reached only after teardown.
    Stopped,
}

/// What the caller must do once a drain pass has completed.
#[derive(Clone, Copy, Debug, PartialEq, Eq, Structural)]
pub enum LoopDirective {
    /// Block for the next terminal event and go around again.
    Continue,
    /// Release the terminal surface, enqueue `Resume`, and re-acquire a
    /// surface on the next iteration.
    SuspendThenResume,
    /// Stop the timers and exit the loop.
    Stop,
}

/// The mathematical value of an [`App`].
#[verifier::ext_equal]
pub ghost struct AppModel {
    pub config: Seq<(Mode, Seq<KeyPress>, ActionView)>,
    pub mode: Mode,
    /// The pending key sequence accumulated since the last reset.
    pub pending: Seq<KeyPress>,
    pub should_quit: bool,
    pub should_suspend: bool,
    pub run_state: RunState,
    pub session: SessionView,
    pub components: Seq<ComponentModel>,
    pub fivver_username: Seq<char>,
    pub fivver_password: Seq<char>,
}

/// Well-formedness of the orchestrator: every component is well-formed.
pub open spec fn app_wf(m: AppModel) -> bool {
    forall|i: int| 0 <= i < m.components.len() ==> component_wf(#[trigger] m.components[i])
}

/// The action a terminal event maps to directly; a key event instead goes
/// through the chord resolver, and other events reach components only.
pub open spec fn spec_event_action(e: TerminalEvent) -> Option<ActionView> {
    match e {
        TerminalEvent::Quit => Some(ActionView::Quit),
        TerminalEvent::Tick => Some(ActionView::Tick),
        TerminalEvent::Render => Some(ActionView::Render),
        TerminalEvent::Resize(w, h) => Some(ActionView::Resize(w, h)),
        TerminalEvent::Key(_) => None,
        TerminalEvent::Other => None,
    }
}

/// What dispatching one action does: the new orchestrator state, the
/// teardown the caller must run to completion before going on, and the draw
/// pass or surface resize it must perform.
#[verifier::ext_equal]
pub ghost struct DispatchModel {
    pub app: AppModel,
    pub plan: Option<TeardownPlan>,
    pub draw: bool,
    pub resize: Option<(u16, u16)>,
}

/// Dispatching one dequeued action: the built-in handling (`Tick` clears the
/// pending key sequence; `Quit` marks the loop for shutdown and tears the
/// session down; `Suspend`/`Resume` set the suspension flag; `Resize` and
/// `Render` trigger a draw pass), and then the action reaches every
/// component's `update`, in registration order.
pub open spec fn spec_dispatch(m: AppModel, a: ActionView) -> DispatchModel {
    let comps = Seq::new(m.components.len(), |i: int| spec_component_update(m.components[i], a));
    let base = AppModel { components: comps, ..m };
    match a {
        ActionView::Tick => DispatchModel {
            app: AppModel { pending: Seq::<KeyPress>::empty(), ..base },
            plan: None,
            draw: false,
            resize: None,
        },
        ActionView::Quit => DispatchModel {
            app: AppModel { should_quit: true, session: spec_teardown(m.session).0, ..base },
            plan: Some(spec_teardown(m.session).1),
            draw: false,
            resize: None,
        },
        ActionView::Suspend => DispatchModel {
            app: AppModel { should_suspend: true, ..base },
            plan: None,
            draw: false,
            resize: None,
        },
        ActionView::Resume => DispatchModel {
            app: AppModel { should_suspend: false, run_state: RunState::Running, ..base },
            plan: None,
            draw: false,
            resize: None,
        },
        ActionView::Resize(w, h) => DispatchModel {
            app: base,
            plan: None,
            draw: true,
            resize: Some((w, h)),
        },
        ActionView::Render => DispatchModel { app: base, plan: None, draw: true, resize: None },
        _ => DispatchModel { app: base, plan: None, draw: false, resize: None },
    }
}

/// What a whole drain pass does: the state after every queued action has
/// been dispatched in arrival order, the teardown plans issued in order, and
/// how many draw passes were triggered.
#[verifier::ext_equal]
pub ghost struct DrainModel {
    pub app: AppModel,
    pub plans: Seq<TeardownPlan>,
    pub draws: nat,
}

/// Folds [`spec_dispatch`] over a queue, front to back.
pub open spec fn spec_drain(m: AppModel, queue: Seq<ActionView>) -> DrainModel
    decreases queue.len(),
{
    if queue.len() == 0 {
        DrainModel { app: m, plans: Seq::empty(), draws: 0 }
    } else {
        let d = spec_dispatch(m, queue[0]);
        let rest = spec_drain(d.app, queue.drop_first());
        DrainModel {
            app: rest.app,
            plans: (match d.plan {
                Some(p) => seq![p],
                None => Seq::empty(),
            }) + rest.plans,
            draws: (if d.draw {
                1nat
            } else {
                0
            }) + rest.draws,
        }
    }
}

/// How many `Quit` actions a queue holds.
pub open spec fn count_quits(queue: Seq<ActionView>) -> nat
    decreases queue.len(),
{
    if queue.len() == 0 {
        0
    } else {
        (if queue[0] is Quit {
            1nat
        } else {
            0
        }) + count_quits(queue.drop_first())
    }
}

/// Every registered component receives every queued action, in arrival
/// order: a drain pass leaves each component exactly as folding the whole
/// queue over it does.
pub proof fn lemma_drain_components(m: AppModel, queue: Seq<ActionView>)
    ensures
        spec_drain(m, queue).app.components.len() == m.components.len(),
        forall|i: int|
            0 <= i < m.components.len() ==> spec_drain(m, queue).app.components[i]
                == spec_component_update_all(#[trigger] m.components[i], queue),
    decreases queue.len(),
{
    if queue.len() == 0 {
    } else {
        let d = spec_dispatch(m, queue[0]);
        lemma_drain_components(d.app, queue.drop_first());
        assert forall|i: int| 0 <= i < m.components.len() implies spec_drain(
            m,
            queue,
        ).app.components[i] == spec_component_update_all(#[trigger] m.components[i], queue) by {
            assert(d.app.components[i] == spec_component_update(m.components[i], queue[0]));
        }
    }
}

/// Teardown runs exactly once per dispatched `Quit`, and only the first ever
/// teardown can request effects: a drain pass issues one plan per `Quit` in
/// the queue, leaves the loop marked for shutdown and the session `Closed`
/// exactly when a `Quit` was drained (or it already was), and every plan
/// after the first — and every plan at all, once the session is already
/// `Closed` — requests neither a close nor a process kill.
pub proof fn lemma_drain_teardown(m: AppModel, queue: Seq<ActionView>)
    ensures
        spec_drain(m, queue).plans.len() == count_quits(queue),
        spec_drain(m, queue).app.should_quit == (m.should_quit || count_quits(queue) > 0),
        spec_drain(m, queue).app.session.state is Closed <==> (m.session.state is Closed
            || count_quits(queue) > 0),
        m.session.state is Closed ==> forall|j: int|
            0 <= j < spec_drain(m, queue).plans.len() ==> !(#[trigger] spec_drain(
                m,
                queue,
            ).plans[j]).close_handle && !spec_drain(m, queue).plans[j].kill_process,
        forall|j: int|
            1 <= j < spec_drain(m, queue).plans.len() ==> !(#[trigger] spec_drain(
                m,
                queue,
            ).plans[j]).close_handle && !spec_drain(m, queue).plans[j].kill_process,
    decreases queue.len(),
{
    if queue.len() == 0 {
    } else {
        let d = spec_dispatch(m, queue[0]);
        let rest = spec_drain(d.app, queue.drop_first());
        lemma_drain_teardown(d.app, queue.drop_first());
        if queue[0] is Quit {
            let p0 = spec_teardown(m.session).1;
            assert(d.app.session.state is Closed);
            assert(spec_drain(m, queue).plans =~= seq![p0] + rest.plans);
            assert forall|j: int| 1 <= j < spec_drain(m, queue).plans.len() implies !(
            #[trigger] spec_drain(m, queue).plans[j]).close_handle && !spec_drain(
                m,
                queue,
            ).plans[j].kill_process by {
                assert(spec_drain(m, queue).plans[j] == rest.plans[j - 1]);
            }
            if m.session.state is Closed {
                assert(!p0.close_handle && !p0.kill_process);
            }
        } else {
            assert(d.app.session == m.session);
            assert(d.app.should_quit == m.should_quit);
            assert(spec_drain(m, queue).plans =~= rest.plans);
        }
    }
}

/// The top-level orchestrator; owns the component list, the session
/// manager, the chord resolver, and the run/suspend/quit state.
pub struct App {
    config: KeyBindings,
    mode: Mode,
    resolver: KeyChordResolver,
    should_quit: bool,
    should_suspend: bool,
    run_state: RunState,
    /// The session lifecycle manager; the single point of truth for the
    /// external driver session.
    pub session: SessionManager,
    components: Vec<Component>,
    fivver_username: String,
    fivver_password: String,
}

impl View for App {
    type V = AppModel;

    closed spec fn view(&self) -> AppModel {
        AppModel {
            config: self.config@,
            mode: self.mode,
            pending: self.resolver@,
            should_quit: self.should_quit,
            should_suspend: self.should_suspend,
            run_state: self.run_state,
            session: self.session@,
            components: Seq::new(self.components@.len(), |i: int| self.components@[i]@),
            fivver_username: self.fivver_username@,
            fivver_password: self.fivver_password@,
        }
    }
}

impl App {
    /// An orchestrator in mode `Home`, running, not suspended, with an
    /// absent session, no pending keys, and the login view as its one
    /// registered component.
    pub fn new(config: KeyBindings, fivver_username: String, fivver_password: String) -> (r: App)
        ensures
            r@.config == config@,
            r@.mode == Mode::Home,
            r@.pending == Seq::<KeyPress>::empty(),
            !r@.should_quit,
            !r@.should_suspend,
            r@.run_state == RunState::Running,
            r@.session == (SessionView {
                state: SessionState::Absent,
                launch_attempts: 0,
                connect_attempts: 0,
            }),
            r@.fivver_username == fivver_username@,
            r@.fivver_password == fivver_password@,
            r@.components.len() == 1,
            r@.components[0].frames.len() == 7,
            r@.components[0].animated,
            r@.components[0].counter == 0,
            r@.components[0].messages == Seq::<Seq<char>>::empty(),
            r@.components[0].expected_messages == 3,
            app_wf(r@),
    {
        let login = crate::views::LoginComponent::new();
        let mut components: Vec<Component> = Vec::new();
        components.push(login.component());
        App {
            config,
            mode: Mode::Home,
            resolver: KeyChordResolver::new(),
            should_quit: false,
            should_suspend: false,
            run_state: RunState::Running,
            session: SessionManager::new(),
            components,
            fivver_username,
            fivver_password,
        }
    }

    /// Registers one more component at the end of the list.
    pub fn register_component(&mut self, component: Component)
        requires
            component_wf(component@),
        ensures
            final(self)@ == (AppModel {
                components: old(self)@.components.push(component@),
                ..old(self)@
            }),
            app_wf(old(self)@) ==> app_wf(final(self)@),
    {
        let ghost target = old(self)@.components.push(component@);
        self.components.push(component);
        proof {
            assert(self@.components =~= target);
            assert(self@ =~= (AppModel { components: target, ..old(self)@ }));
        }
    }

    /// How many components are registered.
    pub fn component_count(&self) -> (r: usize)
        ensures
            r == self@.components.len(),
    {
        self.components.len()
    }

    /// The current run state of the loop.
    pub fn run_state(&self) -> (r: RunState)
        ensures
            r == self@.run_state,
    {
        self.run_state
    }

    /// Whether shutdown has been requested.
    pub fn should_quit(&self) -> (r: bool)
        ensures
            r == self@.should_quit,
    {
        self.should_quit
    }

    /// Whether the loop is marked for suspension.
    pub fn should_suspend(&self) -> (r: bool)
        ensures
            r == self@.should_suspend,
    {
        self.should_suspend
    }

    /// The active mode.
    pub fn mode(&self) -> (r: Mode)
        ensures
            r == self@.mode,
    {
        self.mode
    }

    /// The text lines component `idx` shows on a draw pass.
    pub fn splash_lines_of(&self, idx: usize, height: u16) -> (r: Vec<String>)
        requires
            app_wf(self@),
            idx < self@.components.len(),
        ensures
            lines_view(r@) == spec_splash_lines(self@.components[idx as int], height as int),
    {
        proof {
            assert(component_wf(self@.components[idx as int]));
            assert(self@.components[idx as int] == self.components@[idx as int]@);
        }
        self.components[idx].splash_lines(height)
    }

    /// The progress ratio of component `idx`, as numerator over denominator.
    pub fn progress_of(&self, idx: usize) -> (r: (usize, usize))
        requires
            app_wf(self@),
            idx < self@.components.len(),
        ensures
            r.0 == spec_progress_num(self@.components[idx as int]),
            r.1 == self@.components[idx as int].expected_messages,
            r.0 <= r.1,
    {
        proof {
            assert(component_wf(self@.components[idx as int]));
            assert(self@.components[idx as int] == self.components@[idx as int]@);
        }
        self.components[idx].progress()
    }

    /// Hands every component a snapshot of the keybinding table.
    pub fn register_config_handlers(&mut self)
        requires
            app_wf(old(self)@),
        ensures
            app_wf(final(self)@),
            final(self)@ == (AppModel {
                components: Seq::new(
                    old(self)@.components.len(),
                    |i: int|
                        ComponentModel { config: old(self)@.config, ..old(self)@.components[i] },
                ),
                ..old(self)@
            }),
    {
        let ghost pre = *self;
        let n: usize = self.components.len();
        let mut i: usize = 0;
        while i < n
            invariant
                n == self.components@.len(),
                i <= n,
                app_wf(old(self)@),
                self.config == pre.config,
                self.mode == pre.mode,
                self.resolver == pre.resolver,
                self.should_quit == pre.should_quit,
                self.should_suspend == pre.should_suspend,
                self.run_state == pre.run_state,
                self.session == pre.session,
                self.fivver_username == pre.fivver_username,
                self.fivver_password == pre.fivver_password,
                pre.components@.len() == n,
                pre.components@ == old(self).components@,
                forall|l: int| i <= l < n ==> self.components@[l] == pre.components@[l],
                forall|l: int|
                    0 <= l < i ==> (#[trigger] self.components@[l])@ == (ComponentModel {
                        config: pre.config@,
                        ..pre.components@[l]@
                    }),
            decreases n - i,
        {
            let snapshot = self.config.duplicate();
            let mut comp = self.components.remove(i);
            comp.register_config_handler(snapshot);
            self.components.insert(i, comp);
            i = i + 1;
        }
        proof {
            assert forall|l: int| 0 <= l < n implies component_wf(
                #[trigger] final(self)@.components[l],
            ) by {
                assert(component_wf(old(self)@.components[l]));
            }
            assert(final(self)@.components =~= Seq::new(
                old(self)@.components.len(),
                |i: int| ComponentModel { config: old(self)@.config, ..old(self)@.components[i] },
            ));
            assert(final(self)@ =~= (AppModel {
                components: final(self)@.components,
                ..old(self)@
            }));
        }
    }

    /// Runs every component's `init` hook with the initial surface size.
    pub fn init_components(&mut self, width: u16, height: u16)
        ensures
            final(self)@ == old(self)@,
    {
        let ghost pre = *self;
        let n: usize = self.components.len();
        let mut i: usize = 0;
        while i < n
            invariant
                n == self.components@.len(),
                i <= n,
                self.config == pre.config,
                self.mode == pre.mode,
                self.resolver == pre.resolver,
                self.should_quit == pre.should_quit,
                self.should_suspend == pre.should_suspend,
                self.run_state == pre.run_state,
                self.session == pre.session,
                self.fivver_username == pre.fivver_username,
                self.fivver_password == pre.fivver_password,
                pre.components@.len() == n,
                pre.components@ == old(self).components@,
                forall|l: int| 0 <= l < n ==> (#[trigger] self.components@[l])@ == pre.components@[l]@,
            decreases n - i,
        {
            let mut comp = self.components.remove(i);
            comp.init(width, height);
            self.components.insert(i, comp);
            i = i + 1;
        }
        proof {
            assert(final(self)@.components =~= old(self)@.components);
            assert(final(self)@ =~= old(self)@);
        }
    }

    /// Classifies one terminal event and forwards the raw event to every
    /// component: `Quit`, `Tick`, `Render` and `Resize` map directly to the
    /// corresponding action; a key event goes through the chord resolver;
    /// anything a component returns would be enqueued too. The returned
    /// actions are enqueued in order.
    pub fn handle_event(&mut self, event: &TerminalEvent) -> (r: Vec<Action>)
        requires
            app_wf(old(self)@),
        ensures
            app_wf(final(self)@),
            (match event {
                TerminalEvent::Key(k) => {
                    let step = spec_resolve_step(
                        old(self)@.config,
                        old(self)@.mode,
                        old(self)@.pending,
                        *k,
                    );
                    &&& final(self)@ == (AppModel { pending: step.0, ..old(self)@ })
                    &&& actions_view(r@) == (match step.1 {
                        Some(a) => seq![a],
                        None => Seq::<ActionView>::empty(),
                    })
                },
                _ => {
                    &&& final(self)@ == old(self)@
                    &&& actions_view(r@) == (match spec_event_action(*event) {
                        Some(a) => seq![a],
                        None => Seq::<ActionView>::empty(),
                    })
                },
            }),
    {
        let mut out: Vec<Action> = Vec::new();
        match event {
            TerminalEvent::Quit => out.push(Action::Quit),
            TerminalEvent::Tick => out.push(Action::Tick),
            TerminalEvent::Render => out.push(Action::Render),
            TerminalEvent::Resize(w, h) => out.push(Action::Resize(*w, *h)),
            TerminalEvent::Key(k) => {
                match self.resolver.resolve_key(&self.config, self.mode, *k) {
                    Some(a) => out.push(a),
                    None => {},
                }
            },
            TerminalEvent::Other => {},
        }

        let ghost pre = *self;
        let ghost out_snapshot = out@;
        let n: usize = self.components.len();
        let mut i: usize = 0;
        while i < n
            invariant
                n == self.components@.len(),
                i <= n,
                out@ == out_snapshot,
                self.config == pre.config,
                self.mode == pre.mode,
                self.resolver == pre.resolver,
                self.should_quit == pre.should_quit,
                self.should_suspend == pre.should_suspend,
                self.run_state == pre.run_state,
                self.session == pre.session,
                self.fivver_username == pre.fivver_username,
                self.fivver_password == pre.fivver_password,
                pre.components@.len() == n,
                forall|l: int| 0 <= l < n ==> (#[trigger] self.components@[l])@ == pre.components@[l]@,
            decreases n - i,
        {
            let mut comp = self.components.remove(i);
            let reaction = comp.handle_terminal_event(event);
            self.components.insert(i, comp);
            match reaction {
                Some(a) => out.push(a),
                None => {},
            }
            i = i + 1;
        }
        proof {
            assert(self@.components =~= pre@.components);
            match event {
                TerminalEvent::Key(k) => {
                    assert(actions_view(out@) =~= (match spec_resolve_step(
                        old(self)@.config,
                        old(self)@.mode,
                        old(self)@.pending,
                        *k,
                    ).1 {
                        Some(a) => seq![a],
                        None => Seq::<ActionView>::empty(),
                    }));
                    assert(final(self)@ =~= (AppModel {
                        pending: spec_resolve_step(
                            old(self)@.config,
                            old(self)@.mode,
                            old(self)@.pending,
                            *k,
                        ).0,
                        ..old(self)@
                    }));
                },
                _ => {
                    assert(actions_view(out@) =~= (match spec_event_action(*event) {
                        Some(a) => seq![a],
                        None => Seq::<ActionView>::empty(),
                    }));
                    assert(final(self)@ =~= old(self)@);
                },
            }
        }
        out
    }

    /// Dispatches one dequeued action; see [`spec_dispatch`]. The caller
    /// must run any returned teardown plan to completion, and perform any
    /// resize and draw pass, before dispatching the next action; follow-up
    /// actions belong at the back of the queue for the next drain pass.
    pub fn handle_action(&mut self, action: &Action) -> (r: (
        Option<TeardownPlan>,
        bool,
        Option<(u16, u16)>,
        Vec<Action>,
    ))
        requires
            app_wf(old(self)@),
        ensures
            app_wf(final(self)@),
            final(self)@ == spec_dispatch(old(self)@, action@).app,
            r.0 == spec_dispatch(old(self)@, action@).plan,
            r.1 == spec_dispatch(old(self)@, action@).draw,
            r.2 == spec_dispatch(old(self)@, action@).resize,
            r.3@.len() == 0,
    {
        let mut plan: Option<TeardownPlan> = None;
        let mut draw: bool = false;
        let mut resize: Option<(u16, u16)> = None;
        match action {
            Action::Tick => {
                self.resolver.clear();
            },
            Action::Quit => {
                self.should_quit = true;
                plan = Some(self.session.teardown());
            },
            Action::Suspend => {
                self.should_suspend = true;
            },
            Action::Resume => {
                self.should_suspend = false;
                self.run_state = RunState::Running;
            },
            Action::Resize(w, h) => {
                draw = true;
                resize = Some((*w, *h));
            },
            Action::Render => {
                draw = true;
            },
            _ => {},
        }

        let ghost pre = *self;
        let mut followups: Vec<Action> = Vec::new();
        let n: usize = self.components.len();
        let mut i: usize = 0;
        while i < n
            invariant
                n == self.components@.len(),
                i <= n,
                app_wf(old(self)@),
                followups@.len() == 0,
                self.config == pre.config,
                self.mode == pre.mode,
                self.resolver == pre.resolver,
                self.should_quit == pre.should_quit,
                self.should_suspend == pre.should_suspend,
                self.run_state == pre.run_state,
                self.session == pre.session,
                self.fivver_username == pre.fivver_username,
                self.fivver_password == pre.fivver_password,
                pre.components@.len() == n,
                pre.components@ == old(self).components@,
                forall|l: int| i <= l < n ==> self.components@[l] == pre.components@[l],
                forall|l: int|
                    0 <= l < i ==> (#[trigger] self.components@[l])@ == spec_component_update(
                        pre.components@[l]@,
                        action@,
                    ) && component_wf(self.components@[l]@),
            decreases n - i,
        {
            proof {
                assert(old(self)@.components[i as int] == pre.components@[i as int]@);
                assert(component_wf(pre.components@[i as int]@));
            }
            let mut comp = self.components.remove(i);
            let reaction = comp.update(action);
            self.components.insert(i, comp);
            match reaction {
                Some(a) => followups.push(a),
                None => {},
            }
            i = i + 1;
        }
        proof {
            assert(final(self)@.components =~= spec_dispatch(old(self)@, action@).app.components);
            assert(final(self)@ =~= spec_dispatch(old(self)@, action@).app);
        }
        (plan, draw, resize, followups)
    }

    /// Decides how the loop goes on once the queue is drained: suspension
    /// wins over shutdown, shutdown stops the loop, otherwise it blocks for
    /// the next event.
    pub fn after_drain(&mut self) -> (r: LoopDirective)
        ensures
            old(self)@.should_suspend ==> r == LoopDirective::SuspendThenResume && final(self)@
                == (AppModel { run_state: RunState::Suspended, ..old(self)@ }),
            !old(self)@.should_suspend && old(self)@.should_quit ==> r == LoopDirective::Stop
                && final(self)@ == (AppModel { run_state: RunState::Stopped, ..old(self)@ }),
            !old(self)@.should_suspend && !old(self)@.should_quit ==> r == LoopDirective::Continue
                && final(self)@ == old(self)@,
    {
        if self.should_suspend {
            self.run_state = RunState::Suspended;
            LoopDirective::SuspendThenResume
        } else if self.should_quit {
            self.run_state = RunState::Stopped;
            LoopDirective::Stop
        } else {
            LoopDirective::Continue
        }
    }

    /// The startup progress message announcing the driver launch, sent
    /// before the session is first ensured.
    pub fn startup_message() -> (r: Action)
        ensures
            r@ == ActionView::Message(seq![("startup"@, "Starting Geckodriver..."@)]),
    {
        let mut map = crate::action::MessageMap::new();
        map.insert(String::from_str("startup"), String::from_str("Starting Geckodriver..."));
        proof {
            assert(map@ =~= seq![("startup"@, "Starting Geckodriver..."@)]);
        }
        Action::Message(map)
    }
}

} // verus!
