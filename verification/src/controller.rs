//! The dashboard's event-driven state machine.
//!
//! The controller owns the application state: the active view, the catalog
//! selection cursor, the last operation result, the telemetry history and
//! the tick counter. Discrete input events map to state transitions here;
//! nothing else mutates the state. Executing an operation is split so the
//! render loop never blocks: the `Execute` event only asks the host to
//! start the invocation, and the finished result comes back later through
//! the single message-delivery point, `deliver_result`.

use vstd::arithmetic::div_mod::lemma_div_of0;
use vstd::arithmetic::div_mod::lemma_fundamental_div_mod;
use vstd::arithmetic::div_mod::lemma_fundamental_div_mod_converse;
use vstd::arithmetic::div_mod::lemma_mod_bound;
use vstd::prelude::*;

use crate::catalog::catalog_len;
use crate::catalog::default_catalog;
use crate::catalog::is_default_catalog;
use crate::catalog::operation_args;
use crate::catalog::operation_program;
use crate::detector::simulated_stdout;
use crate::detector::SystemDetector;
use crate::telemetry::push_model;
use crate::telemetry::DashboardState;
use crate::types::CommandResult;

verus! {

/// Which of the two screens is shown.
#[derive(Clone, Copy, Debug, PartialEq, Eq, Structural)]
pub enum ActiveView {
    Dashboard,
    Operations,
}

/// The other screen.
pub open spec fn toggled(v: ActiveView) -> ActiveView {
    match v {
        ActiveView::Dashboard => ActiveView::Operations,
        ActiveView::Operations => ActiveView::Dashboard,
    }
}

/// A discrete input event, as the host's input loop hands them over.
/// Anything else the host reads is malformed input and never reaches the
/// controller: ignoring it is a no-op, not an error.
#[derive(Clone, Copy, Debug, PartialEq, Eq, Structural)]
pub enum InputEvent {
    SwitchView,
    MoveUp,
    MoveDown,
    Execute,
    Tick,
    Quit,
}

/// What the host must do after an event is applied: nothing beyond
/// redrawing, start the catalog entry at the given position, take one
/// telemetry sample and hand it to `record_sample`, or leave the loop.
#[derive(Clone, Copy, Debug, PartialEq, Eq, Structural)]
pub enum ControlAction {
    Idle,
    Invoke(usize),
    SampleTelemetry,
    QuitRequested,
}

/// The controller state as mathematics: what the transition relation and
/// the laws below speak of.
#[verifier::ext_equal]
pub struct ControllerModel {
    pub active_view: ActiveView,
    pub selected_index: int,
    pub catalog_len: int,
    pub has_result: bool,
    pub history: Seq<u16>,
    pub capacity: int,
    pub tick_count: int,
    pub sample_every: int,
}

impl ControllerModel {
    pub open spec fn wf(self) -> bool {
        &&& 1 <= self.catalog_len
        &&& 0 <= self.selected_index < self.catalog_len
        &&& 1 <= self.capacity
        &&& self.history.len() <= self.capacity
        &&& 1 <= self.sample_every
        &&& 0 <= self.tick_count
    }
}

/// The transition relation of the state machine, one event at a time.
///
/// Switching views toggles; the move events act only in the operations
/// view and stop at the catalog bounds, as no-ops rather than errors; a
/// tick counts; execute and quit change no state, they only demand an
/// action of the host.
pub open spec fn step_model(m: ControllerModel, ev: InputEvent) -> ControllerModel {
    match ev {
        InputEvent::SwitchView => ControllerModel { active_view: toggled(m.active_view), ..m },
        InputEvent::MoveUp => if m.active_view is Operations && m.selected_index > 0 {
            ControllerModel { selected_index: m.selected_index - 1, ..m }
        } else {
            m
        },
        InputEvent::MoveDown => if m.active_view is Operations && m.selected_index
            < m.catalog_len - 1 {
            ControllerModel { selected_index: m.selected_index + 1, ..m }
        } else {
            m
        },
        InputEvent::Execute => m,
        InputEvent::Tick => ControllerModel { tick_count: m.tick_count + 1, ..m },
        InputEvent::Quit => m,
    }
}

/// The transition relation folded over a whole sequence of events.
pub open spec fn step_all_model(m: ControllerModel, evs: Seq<InputEvent>) -> ControllerModel
    decreases evs.len(),
{
    if evs.len() == 0 {
        m
    } else {
        step_all_model(step_model(m, evs[0]), evs.skip(1))
    }
}

/// Law: under every sequence of input events — in particular any mix of
/// move-up and move-down — the selection cursor stays within the catalog
/// bounds, and the state stays well-formed with its catalog unchanged in
/// size.
pub proof fn lemma_selection_stays_in_bounds(m: ControllerModel, evs: Seq<InputEvent>)
    requires
        m.wf(),
    ensures
        step_all_model(m, evs).wf(),
        step_all_model(m, evs).catalog_len == m.catalog_len,
        0 <= step_all_model(m, evs).selected_index < m.catalog_len,
    decreases evs.len(),
{
    if evs.len() > 0 {
        lemma_selection_stays_in_bounds(step_model(m, evs[0]), evs.skip(1));
    }
}

/// Law: no input event touches the result slot — a stored result persists
/// across navigation until the next delivered execution overwrites it.
pub proof fn lemma_result_persists(m: ControllerModel, evs: Seq<InputEvent>)
    ensures
        step_all_model(m, evs).has_result == m.has_result,
    decreases evs.len(),
{
    if evs.len() > 0 {
        lemma_result_persists(step_model(m, evs[0]), evs.skip(1));
    }
}

/// Law: switching the view is an involution — applying Switch-view twice
/// returns the state to exactly where it was.
pub proof fn lemma_switch_view_twice(m: ControllerModel)
    ensures
        step_model(step_model(m, InputEvent::SwitchView), InputEvent::SwitchView) == m,
{
    assert(step_model(step_model(m, InputEvent::SwitchView), InputEvent::SwitchView) =~= m);
}

/// How many telemetry samples `handle_event` demands over the `n` ticks
/// that follow a tick counter of `tick0`: one for each tick that lands on a
/// multiple of the sub-sampling factor `every`.
pub open spec fn samples_demanded(tick0: int, every: int, n: nat) -> int
    decreases n,
{
    if n == 0 {
        0
    } else {
        samples_demanded(tick0, every, (n - 1) as nat) + if (tick0 + n) % every == 0 {
            1int
        } else {
            0int
        }
    }
}

/// Crossing from `n - 1` to `n` raises the quotient exactly when `n` is a
/// multiple of the divisor.
proof fn lemma_div_step(n: int, e: int)
    requires
        1 <= n,
        1 <= e,
    ensures
        n % e == 0 ==> n / e == (n - 1) / e + 1,
        n % e != 0 ==> n / e == (n - 1) / e,
{
    lemma_fundamental_div_mod(n, e);
    lemma_mod_bound(n, e);
    let q = n / e;
    let r = n % e;
    if r == 0 {
        assert(n - 1 == (q - 1) * e + (e - 1)) by (nonlinear_arith)
            requires
                n == e * q + r,
                r == 0,
        ;
        lemma_fundamental_div_mod_converse(n - 1, e, q - 1, e - 1);
    } else {
        assert(n - 1 == q * e + (r - 1)) by (nonlinear_arith)
            requires
                n == e * q + r,
        ;
        lemma_fundamental_div_mod_converse(n - 1, e, q, r - 1);
    }
}

/// Law: from a fresh tick counter, `n` consecutive ticks demand exactly
/// `n / every` telemetry samples — a sample occurs only when the tick
/// count reaches a multiple of the sub-sampling factor.
pub proof fn lemma_subsampling_count(every: int, n: nat)
    requires
        1 <= every,
    ensures
        samples_demanded(0, every, n) == n as int / every,
    decreases n,
{
    if n == 0 {
        lemma_div_of0(every);
    } else {
        lemma_subsampling_count(every, (n - 1) as nat);
        lemma_div_step(n as int, every);
    }
}

/// Selection cursor and fixed catalog of the operations view, plus the
/// result slot of the most recent execution.
pub struct OperationsState {
    pub selected_index: usize,
    pub tasks: Vec<(String, String)>,
    pub last_result: Option<CommandResult>,
}

impl OperationsState {
    /// The cursor always points at a catalog entry.
    pub open spec fn wf(self) -> bool {
        1 <= self.tasks@.len() && (self.selected_index as int) < self.tasks@.len()
    }

    /// The cursor after one move down: clamped at the last entry.
    pub open spec fn down_index(self) -> int {
        if (self.selected_index as int) < self.tasks@.len() - 1 {
            self.selected_index as int + 1
        } else {
            self.selected_index as int
        }
    }

    /// The cursor after one move up: clamped at the first entry.
    pub open spec fn up_index(self) -> int {
        if self.selected_index > 0 {
            self.selected_index as int - 1
        } else {
            0
        }
    }

    /// The fixed catalog with the cursor on its first entry and no result
    /// yet.
    pub fn new() -> (s: Self)
        ensures
            s.wf(),
            s.selected_index == 0,
            s.tasks@.len() == catalog_len(),
            is_default_catalog(s.tasks@),
            s.last_result is None,
    {
        OperationsState { selected_index: 0, tasks: default_catalog(), last_result: None }
    }

    /// Moves the cursor one entry down; at the last entry this is a no-op.
    pub fn next(&mut self)
        requires
            old(self).wf(),
        ensures
            final(self).wf(),
            final(self).selected_index as int == old(self).down_index(),
            final(self).tasks == old(self).tasks,
            final(self).last_result == old(self).last_result,
    {
        if self.selected_index < self.tasks.len() - 1 {
            self.selected_index = self.selected_index + 1;
        }
    }

    /// Moves the cursor one entry up; at the first entry this is a no-op.
    pub fn previous(&mut self)
        requires
            old(self).wf(),
        ensures
            final(self).wf(),
            final(self).selected_index as int == old(self).up_index(),
            final(self).tasks == old(self).tasks,
            final(self).last_result == old(self).last_result,
    {
        if self.selected_index > 0 {
            self.selected_index = self.selected_index - 1;
        }
    }

    /// Invokes the selected catalog entry synchronously on the simulation
    /// backend and stores its result; the result persists until the next
    /// execution overwrites it.
    pub fn execute_selected(&mut self, detector: &SystemDetector)
        requires
            old(self).wf(),
            old(self).tasks@.len() == catalog_len(),
            detector.simulation_mode,
        ensures
            final(self).wf(),
            final(self).selected_index == old(self).selected_index,
            final(self).tasks == old(self).tasks,
            final(self).last_result matches Some(r) && r.success && r.stdout@
                == simulated_stdout(
                operation_program(old(self).selected_index as int),
                operation_args(old(self).selected_index as int, true),
            ),
    {
        let result = detector.run_operation(self.selected_index);
        self.last_result = Some(result);
    }
}

/// The controller: owns all dashboard state and maps input events to
/// transitions and host actions.
pub struct DashboardController {
    pub active_view: ActiveView,
    pub operations: OperationsState,
    pub dashboard: DashboardState,
    pub tick_count: u64,
    pub sample_every: u64,
}

impl DashboardController {
    /// The state as the transition relation sees it.
    pub open spec fn model(self) -> ControllerModel {
        ControllerModel {
            active_view: self.active_view,
            selected_index: self.operations.selected_index as int,
            catalog_len: self.operations.tasks@.len() as int,
            has_result: self.operations.last_result is Some,
            history: self.dashboard.cpu_history@,
            capacity: self.dashboard.cpu_history.spec_capacity(),
            tick_count: self.tick_count as int,
            sample_every: self.sample_every as int,
        }
    }

    pub open spec fn wf(self) -> bool {
        &&& self.model().wf()
        &&& self.operations.tasks@.len() == catalog_len()
    }

    /// Starts on the dashboard view, cursor on the first entry, no result,
    /// a flat-zero two-minute history, and telemetry sampled every tenth
    /// tick.
    pub fn new() -> (c: Self)
        ensures
            c.wf(),
            c.active_view is Dashboard,
            c.model().selected_index == 0,
            !c.model().has_result,
            c.model().history == Seq::new(120, |i: int| 0u16),
            c.model().capacity == 120,
            c.model().tick_count == 0,
            c.model().sample_every == 10,
            is_default_catalog(c.operations.tasks@),
    {
        DashboardController {
            active_view: ActiveView::Dashboard,
            operations: OperationsState::new(),
            dashboard: DashboardState::new(),
            tick_count: 0,
            sample_every: 10,
        }
    }

    /// Applies one input event and answers with what the host must do.
    ///
    /// The state moves exactly as the transition relation says. An
    /// invocation is demanded precisely for `Execute` in the operations
    /// view, and names the selected entry; a telemetry sample is demanded
    /// precisely on every `sample_every`-th tick; quitting is demanded
    /// precisely for `Quit`.
    pub fn handle_event(&mut self, ev: InputEvent) -> (act: ControlAction)
        requires
            old(self).wf(),
            old(self).tick_count < u64::MAX,
        ensures
            final(self).wf(),
            final(self).model() == step_model(old(self).model(), ev),
            final(self).operations.tasks == old(self).operations.tasks,
            final(self).operations.last_result == old(self).operations.last_result,
            final(self).dashboard.cpu_history@ == old(self).dashboard.cpu_history@,
            (act is Invoke) <==> (ev is Execute && old(self).active_view is Operations),
            act is Invoke ==> act->0 == old(self).selected_index(),
            (act is SampleTelemetry) <==> (ev is Tick && (old(self).tick_count + 1) % (
            old(self).sample_every as int) == 0),
            (act is QuitRequested) <==> (ev is Quit),
    {
        match ev {
            InputEvent::SwitchView => {
                self.active_view = if self.active_view == ActiveView::Dashboard {
                    ActiveView::Operations
                } else {
                    ActiveView::Dashboard
                };
                proof {
                    assert(self.model() =~= step_model(old(self).model(), ev));
                }
                ControlAction::Idle
            },
            InputEvent::MoveUp => {
                if self.active_view == ActiveView::Operations {
                    self.operations.previous();
                }
                proof {
                    assert(self.model() =~= step_model(old(self).model(), ev));
                }
                ControlAction::Idle
            },
            InputEvent::MoveDown => {
                if self.active_view == ActiveView::Operations {
                    self.operations.next();
                }
                proof {
                    assert(self.model() =~= step_model(old(self).model(), ev));
                }
                ControlAction::Idle
            },
            InputEvent::Execute => {
                if self.active_view == ActiveView::Operations {
                    ControlAction::Invoke(self.operations.selected_index)
                } else {
                    ControlAction::Idle
                }
            },
            InputEvent::Tick => {
                self.tick_count = self.tick_count + 1;
                proof {
                    assert(self.model() =~= step_model(old(self).model(), ev));
                }
                if self.tick_count % self.sample_every == 0 {
                    ControlAction::SampleTelemetry
                } else {
                    ControlAction::Idle
                }
            },
            InputEvent::Quit => ControlAction::QuitRequested,
        }
    }

    /// The selected catalog position.
    pub open spec fn selected_index(self) -> int {
        self.operations.selected_index as int
    }

    /// Stores one telemetry sample, demanded by a `SampleTelemetry`
    /// action; this is the history's only mutation path.
    pub fn record_sample(&mut self, cpu_usage_bp: u16)
        requires
            old(self).wf(),
        ensures
            final(self).wf(),
            final(self).dashboard.cpu_history@ == push_model(
                old(self).dashboard.cpu_history@,
                old(self).model().capacity,
                cpu_usage_bp,
            ),
            final(self).model().capacity == old(self).model().capacity,
            final(self).active_view == old(self).active_view,
            final(self).operations == old(self).operations,
            final(self).tick_count == old(self).tick_count,
            final(self).sample_every == old(self).sample_every,
    {
        self.dashboard.on_tick(cpu_usage_bp);
    }

    /// The message-delivery point: a finished operation's result arrives
    /// and becomes the last result, overwriting the previous one. Nothing
    /// else changes, so navigation never clears a result.
    pub fn deliver_result(&mut self, result: CommandResult)
        requires
            old(self).wf(),
        ensures
            final(self).wf(),
            final(self).operations.last_result matches Some(r) && r == result,
            final(self).active_view == old(self).active_view,
            final(self).operations.selected_index == old(self).operations.selected_index,
            final(self).operations.tasks == old(self).operations.tasks,
            final(self).dashboard.cpu_history@ == old(self).dashboard.cpu_history@,
            final(self).tick_count == old(self).tick_count,
            final(self).sample_every == old(self).sample_every,
    {
        self.operations.last_result = Some(result);
    }
}

} // verus!
