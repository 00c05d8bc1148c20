//! Capturing local mouse motion and buttons while the peer has control:
//! one tick of the polling loop, and its bookkeeping.
use vstd::prelude::*;
use crate::actions::Action;
use crate::config::Config;
use crate::cursor_switch::{
    edge_named, edge_of, lock_point, lock_point_fits, lock_point_in_range, lock_point_of, lock_point_wide,
};
use crate::protocol::{Message, MouseButton};
use crate::timer::{clock_ordered, lemma_timer_start_after, timer_start, NANOS_PER_MS};

verus! {

/// Milliseconds between two ticks while capturing.
pub const CAPTURE_TICK_MS: u64 = 8;

/// What the capture loop remembers between ticks.
#[derive(Debug, Clone, Copy, PartialEq, Eq, Structural)]
pub struct CaptureState {
    /// The previous tick was already capturing.
    pub was_remote: bool,
    /// The next cursor position is the echo of our own warp.
    pub ignore_next_warp: bool,
    /// Last reported state of the left button.
    pub last_left: bool,
    /// Last reported state of the right button.
    pub last_right: bool,
    /// Last reported state of the middle button.
    pub last_middle: bool,
}

/// The state with nothing captured and every button reported up.
pub open spec fn idle_capture() -> CaptureState {
    CaptureState {
        was_remote: false,
        ignore_next_warp: false,
        last_left: false,
        last_right: false,
        last_middle: false,
    }
}

impl CaptureState {
    /// The state before the first tick.
    pub fn new() -> (r: CaptureState)
        ensures
            r == idle_capture(),
    {
        CaptureState {
            was_remote: false,
            ignore_next_warp: false,
            last_left: false,
            last_right: false,
            last_middle: false,
        }
    }
}

/// Forgets the capture: not capturing, no warp to ignore, every button up.
pub fn reset_mouse_state(
    was_remote: &mut bool,
    ignore_next_warp: &mut bool,
    last_left: &mut bool,
    last_right: &mut bool,
    last_middle: &mut bool,
)
    ensures
        !*final(was_remote),
        !*final(ignore_next_warp),
        !*final(last_left),
        !*final(last_right),
        !*final(last_middle),
{
    *was_remote = false;
    *ignore_next_warp = false;
    *last_left = false;
    *last_right = false;
    *last_middle = false;
}

/// The message that reports `button` in state `current`, if that differs
/// from what was reported before.
pub open spec fn button_report(button: MouseButton, current: bool, previous: bool) -> Option<Message> {
    if current != previous {
        Some(Message::MouseButton { button, down: current })
    } else {
        None
    }
}

/// Reports `button` if its state changed: returns the message to send, and
/// records `current` as the reported state.
pub fn send_button_if_changed(button: MouseButton, current: bool, previous: &mut bool) -> (r: Option<Message>)
    ensures
        r == button_report(button, current, *old(previous)),
        *final(previous) == current,
{
    if current != *previous {
        *previous = current;
        Some(Message::MouseButton { button, down: current })
    } else {
        None
    }
}

/// Whether motion may be sent again, `elapsed_ns` nanoseconds after it was
/// last sent: at least `CAPTURE_TICK_MS` milliseconds.
pub fn send_due(elapsed_ns: u64) -> (r: bool)
    ensures
        r == (elapsed_ns >= CAPTURE_TICK_MS * NANOS_PER_MS),
{
    elapsed_ns >= CAPTURE_TICK_MS * NANOS_PER_MS
}

/// What one tick of the capture loop observed.
#[derive(Debug, Clone, Copy, PartialEq, Eq)]
pub struct CaptureInput {
    /// The peer answers.
    pub connected: bool,
    /// The peer has control.
    pub remote_mode: bool,
    /// Screen width.
    pub width: i32,
    /// Screen height.
    pub height: i32,
    /// The cursor position, if it could be read.
    pub cursor: Option<(i32, i32)>,
    /// The left button is down.
    pub left: bool,
    /// The right button is down.
    pub right: bool,
    /// The middle button is down.
    pub middle: bool,
    /// A tick's time has passed since motion was last sent, as `send_due`
    /// tells.
    pub send_due: bool,
}

/// What one tick of the capture loop decided.
#[derive(Debug, Clone, PartialEq, Eq)]
pub struct CaptureStep {
    /// Effects to carry out, in order.
    pub actions: Vec<Action>,
    /// Whether the motion timer starts again now.
    pub restart_send_timer: bool,
    /// Milliseconds to wait before the next tick.
    pub pause_ms: u64,
}

/// The action that reports a button, if it changed.
pub open spec fn button_actions(button: MouseButton, current: bool, previous: bool) -> Seq<Action> {
    match button_report(button, current, previous) {
        Some(m) => seq![Action::SendUdp(m)],
        None => Seq::empty(),
    }
}

/// Whether a motion by `(dx, dy)` is too small to report.
pub open spec fn within_deadzone(dx: int, dy: int) -> bool {
    -1 <= dx <= 1 && -1 <= dy <= 1
}

/// One tick of the capture loop: the new state, the effects, whether the
/// motion timer restarts, and the pause before the next tick.
pub open spec fn capture_plan(cfg: Config, s: CaptureState, i: CaptureInput) -> (
    CaptureState,
    Seq<Action>,
    bool,
    u64,
) {
    let p = lock_point_of(edge_named(cfg.switch_edge@), i.width as int, i.height as int);
    if !i.connected {
        (idle_capture(), Seq::empty(), false, 100)
    } else if !i.remote_mode {
        (idle_capture(), Seq::empty(), false, CAPTURE_TICK_MS)
    } else if !s.was_remote {
        (
            CaptureState { was_remote: true, ignore_next_warp: true, ..s },
            seq![Action::SetCursor(p.0 as i32, p.1 as i32)],
            false,
            24,
        )
    } else {
        match i.cursor {
            None => (s, Seq::empty(), false, CAPTURE_TICK_MS),
            Some((x, y)) => {
                let dx = x - p.0;
                let dy = y - p.1;
                let reports = button_actions(MouseButton::Left, i.left, s.last_left) + button_actions(
                    MouseButton::Right,
                    i.right,
                    s.last_right,
                ) + button_actions(MouseButton::Middle, i.middle, s.last_middle);
                let s1 = CaptureState {
                    last_left: i.left,
                    last_right: i.right,
                    last_middle: i.middle,
                    ..s
                };
                if s.ignore_next_warp {
                    (CaptureState { ignore_next_warp: false, ..s1 }, reports, false, CAPTURE_TICK_MS)
                } else if within_deadzone(dx, dy) {
                    (s1, reports, false, CAPTURE_TICK_MS)
                } else if i.send_due {
                    (
                        CaptureState { ignore_next_warp: true, ..s1 },
                        reports + seq![
                            Action::SendUdp(Message::MouseMove { dx: dx as i32, dy: dy as i32 }),
                            Action::SetCursor(p.0 as i32, p.1 as i32),
                        ],
                        true,
                        CAPTURE_TICK_MS,
                    )
                } else {
                    (s1, reports, false, CAPTURE_TICK_MS)
                }
            },
        }
    }
}

/// The tick computes the lock point and the motion without overflow, and
/// takes no absolute value of `i32::MIN`.
pub open spec fn capture_fits(cfg: Config, s: CaptureState, i: CaptureInput) -> bool {
    let edge = edge_named(cfg.switch_edge@);
    let p = lock_point_of(edge, i.width as int, i.height as int);
    if !i.connected || !i.remote_mode {
        true
    } else {
        &&& lock_point_fits(edge, i.width as int, i.height as int)
        &&& s.was_remote ==> match i.cursor {
            None => true,
            Some((x, y)) => {
                let dx = x - p.0;
                let dy = y - p.1;
                &&& i32::MIN <= dx <= i32::MAX
                &&& i32::MIN <= dy <= i32::MAX
                &&& !s.ignore_next_warp ==> dx != i32::MIN
                &&& !s.ignore_next_warp && -1 <= dx <= 1 ==> dy != i32::MIN
            },
        }
    }
}

/// Whether `capture_step` computes the lock point and the motion without
/// overflow on this input (its precondition).
pub fn capture_step_in_range(cfg: &Config, state: &CaptureState, input: &CaptureInput) -> (r: bool)
    ensures
        r == capture_fits(*cfg, *state, *input),
{
    if !input.connected || !input.remote_mode {
        return true;
    }
    let edge = edge_of(cfg.switch_edge.as_str());
    if !lock_point_in_range(edge, input.width, input.height) {
        return false;
    }
    if !state.was_remote {
        return true;
    }
    match input.cursor {
        None => true,
        Some((x, y)) => {
            let (px, py) = lock_point_wide(edge, input.width, input.height);
            let dx = x as i64 - px;
            let dy = y as i64 - py;
            let lo = i32::MIN as i64;
            let hi = i32::MAX as i64;
            lo <= dx && dx <= hi && lo <= dy && dy <= hi && (state.ignore_next_warp || dx != lo) && (
            state.ignore_next_warp || !(-1 <= dx && dx <= 1) || dy != lo)
        },
    }
}

/// One tick of the loop that turns local mouse activity into messages for
/// the peer while it has control. The cursor is parked at the lock point;
/// each tick reports changed buttons, then, unless the position is the echo
/// of our own parking or within one pixel of it, reports the motion and
/// parks the cursor again.
pub fn capture_step(cfg: &Config, state: &mut CaptureState, input: &CaptureInput) -> (r: CaptureStep)
    requires
        capture_fits(*cfg, *old(state), *input),
    ensures
        (*final(state), r.actions@, r.restart_send_timer, r.pause_ms) == capture_plan(
            *cfg,
            *old(state),
            *input,
        ),
{
    if !input.connected || !input.remote_mode {
        reset_mouse_state(
            &mut state.was_remote,
            &mut state.ignore_next_warp,
            &mut state.last_left,
            &mut state.last_right,
            &mut state.last_middle,
        );
        let actions: Vec<Action> = Vec::new();
        assert(actions@ =~= Seq::<Action>::empty());
        let pause_ms = if !input.connected { 100 } else { CAPTURE_TICK_MS };
        return CaptureStep { actions, restart_send_timer: false, pause_ms };
    }
    let (lock_x, lock_y) = lock_point(cfg, input.width, input.height);
    let mut actions: Vec<Action> = Vec::new();
    if !state.was_remote {
        actions.push(Action::SetCursor(lock_x, lock_y));
        state.was_remote = true;
        state.ignore_next_warp = true;
        assert(actions@ =~= seq![Action::SetCursor(lock_x, lock_y)]);
        return CaptureStep { actions, restart_send_timer: false, pause_ms: 24 };
    }
    let (x, y) = match input.cursor {
        None => {
            assert(actions@ =~= Seq::<Action>::empty());
            return CaptureStep { actions, restart_send_timer: false, pause_ms: CAPTURE_TICK_MS };
        },
        Some(p) => p,
    };
    let dx = x - lock_x;
    let dy = y - lock_y;
    let ghost s0 = *state;
    match send_button_if_changed(MouseButton::Left, input.left, &mut state.last_left) {
        Some(m) => actions.push(Action::SendUdp(m)),
        None => {},
    }
    match send_button_if_changed(MouseButton::Right, input.right, &mut state.last_right) {
        Some(m) => actions.push(Action::SendUdp(m)),
        None => {},
    }
    match send_button_if_changed(MouseButton::Middle, input.middle, &mut state.last_middle) {
        Some(m) => actions.push(Action::SendUdp(m)),
        None => {},
    }
    let ghost reports = actions@;
    assert(reports =~= button_actions(MouseButton::Left, input.left, s0.last_left) + button_actions(
        MouseButton::Right,
        input.right,
        s0.last_right,
    ) + button_actions(MouseButton::Middle, input.middle, s0.last_middle));
    if state.ignore_next_warp {
        state.ignore_next_warp = false;
        return CaptureStep { actions, restart_send_timer: false, pause_ms: CAPTURE_TICK_MS };
    }
    if -1 <= dx && dx <= 1 && -1 <= dy && dy <= 1 {
        return CaptureStep { actions, restart_send_timer: false, pause_ms: CAPTURE_TICK_MS };
    }
    if input.send_due {
        actions.push(Action::SendUdp(Message::MouseMove { dx, dy }));
        actions.push(Action::SetCursor(lock_x, lock_y));
        state.ignore_next_warp = true;
        assert(actions@ =~= reports + seq![
            Action::SendUdp(Message::MouseMove { dx, dy }),
            Action::SetCursor(lock_x, lock_y),
        ]);
        return CaptureStep { actions, restart_send_timer: true, pause_ms: CAPTURE_TICK_MS };
    }
    CaptureStep { actions, restart_send_timer: false, pause_ms: CAPTURE_TICK_MS }
}

/// Once capturing and the cursor is readable, each tick leaves the recorded
/// button states equal to the buttons as they are, so every press and
/// release is reported exactly once.
pub proof fn capture_tracks_buttons(cfg: Config, s: CaptureState, i: CaptureInput)
    requires
        i.connected,
        i.remote_mode,
        s.was_remote,
        i.cursor is Some,
    ensures
        capture_plan(cfg, s, i).0.last_left == i.left,
        capture_plan(cfg, s, i).0.last_right == i.right,
        capture_plan(cfg, s, i).0.last_middle == i.middle,
{
}

/// Leaving remote mode or losing the link forgets the capture, so the next
/// capture starts by parking the cursor and reporting buttons afresh.
pub proof fn capture_resets_when_idle(cfg: Config, s: CaptureState, i: CaptureInput)
    requires
        !i.connected || !i.remote_mode,
    ensures
        capture_plan(cfg, s, i).0 == idle_capture(),
        capture_plan(cfg, s, i).1 == Seq::<Action>::empty(),
{
}

/// The last reported state of `button`.
pub open spec fn button_of(s: CaptureState, button: MouseButton) -> bool {
    match button {
        MouseButton::Left => s.last_left,
        MouseButton::Right => s.last_right,
        MouseButton::Middle => s.last_middle,
    }
}

/// Ticks of the capture loop one after the other: the final state and all
/// effects, in order.
pub open spec fn run_capture(cfg: Config, s: CaptureState, ins: Seq<CaptureInput>) -> (
    CaptureState,
    Seq<Action>,
)
    decreases ins.len(),
{
    if ins.len() == 0 {
        (s, Seq::empty())
    } else {
        let (s1, a1) = run_capture(cfg, s, ins.drop_last());
        let p = capture_plan(cfg, s1, ins.last());
        (p.0, a1 + p.1)
    }
}

/// What one action reports of `button`: its new state, if it is a report
/// of that button.
pub open spec fn down_of(a: Action, button: MouseButton) -> Seq<bool> {
    match a {
        Action::SendUdp(Message::MouseButton { button: b, down }) => if b == button {
            seq![down]
        } else {
            Seq::empty()
        },
        _ => Seq::empty(),
    }
}

/// The states of `button` that the effects report, in order.
pub open spec fn downs_reported(acts: Seq<Action>, button: MouseButton) -> Seq<bool>
    decreases acts.len(),
{
    if acts.len() == 0 {
        Seq::empty()
    } else {
        downs_reported(acts.drop_last(), button) + down_of(acts.last(), button)
    }
}

/// Whether no effect is a report of motion.
pub open spec fn no_motion(acts: Seq<Action>) -> bool {
    forall|j: int| 0 <= j < acts.len() ==> !(#[trigger] acts[j] matches Action::SendUdp(Message::MouseMove { .. }))
}

proof fn lemma_downs_concat(a: Seq<Action>, c: Seq<Action>, button: MouseButton)
    ensures
        downs_reported(a + c, button) == downs_reported(a, button) + downs_reported(c, button),
    decreases c.len(),
{
    if c.len() == 0 {
        assert(a + c =~= a);
        assert(downs_reported(a, button) + Seq::<bool>::empty() =~= downs_reported(a, button));
    } else {
        lemma_downs_concat(a, c.drop_last(), button);
        assert((a + c).drop_last() =~= a + c.drop_last());
        assert((a + c).last() == c.last());
        assert(downs_reported(a, button) + downs_reported(c.drop_last(), button) + down_of(c.last(), button)
            =~= downs_reported(a, button) + (downs_reported(c.drop_last(), button) + down_of(c.last(), button)));
    }
}

proof fn lemma_downs_single(a: Action, button: MouseButton)
    ensures
        downs_reported(seq![a], button) == down_of(a, button),
{
    assert(seq![a].drop_last() =~= Seq::<Action>::empty());
    assert(seq![a].last() == a);
    assert(downs_reported(Seq::<Action>::empty(), button) == Seq::<bool>::empty());
    assert(downs_reported(seq![a].drop_last(), button) == Seq::<bool>::empty());
    assert(Seq::<bool>::empty() + down_of(a, button) =~= down_of(a, button));
}

proof fn lemma_button_downs(x: MouseButton, cur: bool, prev: bool, button: MouseButton)
    ensures
        downs_reported(button_actions(x, cur, prev), button) == (if x == button && cur != prev {
            seq![cur]
        } else {
            Seq::<bool>::empty()
        }),
        no_motion(button_actions(x, cur, prev)),
{
    if cur != prev {
        lemma_downs_single(Action::SendUdp(Message::MouseButton { button: x, down: cur }), button);
    }
}

proof fn lemma_no_motion_concat(a: Seq<Action>, c: Seq<Action>)
    requires
        no_motion(a),
        no_motion(c),
    ensures
        no_motion(a + c),
{
    assert forall|j: int| 0 <= j < (a + c).len() implies !(#[trigger] (a + c)[j] matches Action::SendUdp(
        Message::MouseMove { .. },
    )) by {
        if j < a.len() {
            assert((a + c)[j] == a[j]);
        } else {
            assert((a + c)[j] == c[j - a.len()]);
        }
    }
}

proof fn lemma_reports(s: CaptureState, i: CaptureInput, button: MouseButton)
    ensures
        ({
            let reports = button_actions(MouseButton::Left, i.left, s.last_left) + button_actions(
                MouseButton::Right,
                i.right,
                s.last_right,
            ) + button_actions(MouseButton::Middle, i.middle, s.last_middle);
            let cur = match button {
                MouseButton::Left => i.left,
                MouseButton::Right => i.right,
                MouseButton::Middle => i.middle,
            };
            &&& downs_reported(reports, button) == (if cur != button_of(s, button) {
                seq![cur]
            } else {
                Seq::<bool>::empty()
            })
            &&& no_motion(reports)
        }),
{
    let l = button_actions(MouseButton::Left, i.left, s.last_left);
    let r = button_actions(MouseButton::Right, i.right, s.last_right);
    let m = button_actions(MouseButton::Middle, i.middle, s.last_middle);
    lemma_button_downs(MouseButton::Left, i.left, s.last_left, button);
    lemma_button_downs(MouseButton::Right, i.right, s.last_right, button);
    lemma_button_downs(MouseButton::Middle, i.middle, s.last_middle, button);
    lemma_downs_concat(l, r, button);
    lemma_downs_concat(l + r, m, button);
    lemma_no_motion_concat(l, r);
    lemma_no_motion_concat(l + r, m);
    assert(Seq::<bool>::empty() + Seq::<bool>::empty() =~= Seq::<bool>::empty());
    match button {
        MouseButton::Left => {
            assert(seq![i.left] + Seq::<bool>::empty() =~= seq![i.left]);
            assert(Seq::<bool>::empty() + Seq::<bool>::empty() + Seq::<bool>::empty() =~= Seq::<bool>::empty());
            assert(seq![i.left] + Seq::<bool>::empty() + Seq::<bool>::empty() =~= seq![i.left]);
        },
        MouseButton::Right => {
            assert(Seq::<bool>::empty() + seq![i.right] + Seq::<bool>::empty() =~= seq![i.right]);
            assert(Seq::<bool>::empty() + Seq::<bool>::empty() + Seq::<bool>::empty() =~= Seq::<bool>::empty());
        },
        MouseButton::Middle => {
            assert(Seq::<bool>::empty() + Seq::<bool>::empty() + seq![i.middle] =~= seq![i.middle]);
            assert(Seq::<bool>::empty() + Seq::<bool>::empty() + Seq::<bool>::empty() =~= Seq::<bool>::empty());
        },
    }
}

proof fn lemma_tick_downs(cfg: Config, s: CaptureState, i: CaptureInput, button: MouseButton)
    requires
        i.connected,
        i.remote_mode,
    ensures
        ({
            let p = capture_plan(cfg, s, i);
            let d = downs_reported(p.1, button);
            ||| d.len() == 0 && button_of(p.0, button) == button_of(s, button)
            ||| d == seq![!button_of(s, button)] && button_of(p.0, button) == !button_of(s, button)
        }),
{
    let p = lock_point_of(edge_named(cfg.switch_edge@), i.width as int, i.height as int);
    if !s.was_remote {
        lemma_downs_single(Action::SetCursor(p.0 as i32, p.1 as i32), button);
    } else {
        match i.cursor {
            None => {},
            Some((x, y)) => {
                lemma_reports(s, i, button);
                let reports = button_actions(MouseButton::Left, i.left, s.last_left) + button_actions(
                    MouseButton::Right,
                    i.right,
                    s.last_right,
                ) + button_actions(MouseButton::Middle, i.middle, s.last_middle);
                let extra = seq![
                    Action::SendUdp(Message::MouseMove { dx: (x - p.0) as i32, dy: (y - p.1) as i32 }),
                    Action::SetCursor(p.0 as i32, p.1 as i32),
                ];
                lemma_downs_concat(reports, extra, button);
                lemma_downs_concat(
                    seq![Action::SendUdp(Message::MouseMove { dx: (x - p.0) as i32, dy: (y - p.1) as i32 })],
                    seq![Action::SetCursor(p.0 as i32, p.1 as i32)],
                    button,
                );
                assert(extra =~= seq![Action::SendUdp(Message::MouseMove { dx: (x - p.0) as i32, dy: (y - p.1) as i32 })] + seq![Action::SetCursor(p.0 as i32, p.1 as i32)]);
                lemma_downs_single(Action::SendUdp(Message::MouseMove { dx: (x - p.0) as i32, dy: (y - p.1) as i32 }), button);
                lemma_downs_single(Action::SetCursor(p.0 as i32, p.1 as i32), button);
                assert(downs_reported(extra, button) =~= Seq::<bool>::empty());
                assert(downs_reported(reports, button) + Seq::<bool>::empty() =~= downs_reported(reports, button));
            },
        }
    }
}

/// Over any stretch of ticks in which the peer has control, the reports of
/// each button alternate: starting from the last reported state, each
/// report is the opposite of the one before, and the recorded state is
/// the last one reported. From the idle state the first report of a button
/// is always a press.
pub proof fn capture_buttons_alternate(
    cfg: Config,
    s: CaptureState,
    ins: Seq<CaptureInput>,
    button: MouseButton,
)
    requires
        forall|j: int| 0 <= j < ins.len() ==> (#[trigger] ins[j]).connected && ins[j].remote_mode,
    ensures
        ({
            let (last, acts) = run_capture(cfg, s, ins);
            let ds = downs_reported(acts, button);
            &&& forall|k: int|
                0 <= k < ds.len() ==> #[trigger] ds[k] == (if k % 2 == 0 {
                    !button_of(s, button)
                } else {
                    button_of(s, button)
                })
            &&& button_of(last, button) == (if ds.len() % 2 == 0 {
                button_of(s, button)
            } else {
                !button_of(s, button)
            })
        }),
    decreases ins.len(),
{
    if ins.len() > 0 {
        let prev = ins.drop_last();
        assert forall|j: int| 0 <= j < prev.len() implies (#[trigger] prev[j]).connected && prev[j].remote_mode by {
            assert(prev[j] == ins[j]);
        }
        capture_buttons_alternate(cfg, s, prev, button);
        let (s1, a1) = run_capture(cfg, s, prev);
        assert(ins.last() == ins[ins.len() - 1]);
        lemma_tick_downs(cfg, s1, ins.last(), button);
        let p = capture_plan(cfg, s1, ins.last());
        lemma_downs_concat(a1, p.1, button);
        let d1 = downs_reported(a1, button);
        let d = downs_reported(p.1, button);
        let ds = d1 + d;
        assert forall|k: int| 0 <= k < ds.len() implies #[trigger] ds[k] == (if k % 2 == 0 {
            !button_of(s, button)
        } else {
            button_of(s, button)
        }) by {
            if k < d1.len() {
                assert(ds[k] == d1[k]);
            } else {
                assert(ds[k] == d[0]);
            }
        }
    }
}

/// The first tick after the peer takes control only parks the cursor at
/// the lock point: nothing is reported, and the echo of that warp is to be
/// ignored.
pub proof fn capture_first_tick_parks(cfg: Config, s: CaptureState, i: CaptureInput)
    requires
        i.connected,
        i.remote_mode,
        !s.was_remote,
    ensures
        ({
            let p = lock_point_of(edge_named(cfg.switch_edge@), i.width as int, i.height as int);
            let plan = capture_plan(cfg, s, i);
            &&& plan.1 == seq![Action::SetCursor(p.0 as i32, p.1 as i32)]
            &&& plan.0.was_remote
            &&& plan.0.ignore_next_warp
            &&& !plan.2
        }),
{
}

/// A reported motion is the cursor's offset from the lock point, outside
/// the one-pixel dead zone; the cursor is parked again right after, and the
/// next tick reports no motion, whatever it observes.
pub proof fn capture_motion_then_echo(cfg: Config, s: CaptureState, i: CaptureInput, next: CaptureInput, x: i32, y: i32)
    requires
        i.connected,
        i.remote_mode,
        s.was_remote,
        !s.ignore_next_warp,
        i.cursor == Some((x, y)),
        i.send_due,
        !within_deadzone(
            x - lock_point_of(edge_named(cfg.switch_edge@), i.width as int, i.height as int).0,
            y - lock_point_of(edge_named(cfg.switch_edge@), i.width as int, i.height as int).1,
        ),
    ensures
        ({
            let p = lock_point_of(edge_named(cfg.switch_edge@), i.width as int, i.height as int);
            let plan = capture_plan(cfg, s, i);
            &&& plan.1.len() >= 2
            &&& plan.1[plan.1.len() - 2] == Action::SendUdp(Message::MouseMove { dx: (x - p.0) as i32, dy: (y - p.1) as i32 })
            &&& plan.1[plan.1.len() - 1] == Action::SetCursor(p.0 as i32, p.1 as i32)
            &&& plan.2
            &&& plan.0.ignore_next_warp
            &&& no_motion(capture_plan(cfg, plan.0, next).1)
        }),
{
    let s1 = capture_plan(cfg, s, i).0;
    if next.connected && next.remote_mode && s1.was_remote {
        match next.cursor {
            Some(_) => {
                lemma_reports(s1, next, MouseButton::Left);
            },
            None => {},
        }
    }
}

/// A tick that reports motion is one that restarts the motion timer, and
/// it does so only when a send is due.
proof fn lemma_motion_restarts_timer(cfg: Config, s: CaptureState, i: CaptureInput)
    ensures
        !no_motion(capture_plan(cfg, s, i).1) ==> capture_plan(cfg, s, i).2,
        capture_plan(cfg, s, i).2 ==> i.send_due,
{
    let p = lock_point_of(edge_named(cfg.switch_edge@), i.width as int, i.height as int);
    if i.connected && i.remote_mode {
        if !s.was_remote {
            assert(no_motion(seq![Action::SetCursor(p.0 as i32, p.1 as i32)])) by {
                assert forall|j: int| 0 <= j < 1 implies !(#[trigger] seq![Action::SetCursor(p.0 as i32, p.1 as i32)][j] matches Action::SendUdp(Message::MouseMove { .. })) by {
                    assert(seq![Action::SetCursor(p.0 as i32, p.1 as i32)][j] == Action::SetCursor(p.0 as i32, p.1 as i32));
                }
            }
        } else if i.cursor is Some {
            lemma_reports(s, i, MouseButton::Left);
        }
    }
}

/// The capture state before tick `k` of a run that starts idle.
pub open spec fn capture_state_before(cfg: Config, ins: Seq<CaptureInput>, k: int) -> CaptureState {
    run_capture(cfg, idle_capture(), ins.take(k)).0
}

/// Which ticks of a run of the capture loop, started idle, restart the
/// motion timer.
pub open spec fn capture_restarts(cfg: Config, ins: Seq<CaptureInput>) -> Seq<bool> {
    Seq::new(ins.len(), |k: int| capture_plan(cfg, capture_state_before(cfg, ins, k), ins[k]).2)
}

/// A run of the capture loop with its clock: it starts idle, tick `k`
/// observed `ins[k]`, read the clock at `reads[k]` and, if it sent motion,
/// restarted the motion timer at `restarts[k]`; each tick's `send_due` is
/// what `send_due` makes of the time since the timer last restarted, the
/// loop's start counting as a restart.
pub open spec fn timed_capture_run(cfg: Config, ins: Seq<CaptureInput>, reads: Seq<int>, restarts: Seq<int>) -> bool {
    &&& reads.len() == ins.len()
    &&& clock_ordered(reads, restarts)
    &&& forall|k: int|
        0 <= k < ins.len() ==> (#[trigger] ins[k]).send_due == (reads[k] - timer_start(
            capture_restarts(cfg, ins),
            restarts,
            k,
        ) >= CAPTURE_TICK_MS * NANOS_PER_MS)
}

/// Motion is sent at most once per tick time: a tick that reports motion
/// reads the clock at least `CAPTURE_TICK_MS` after the loop started and at
/// least that long after every earlier tick that reported motion.
pub proof fn motion_reports_are_tick_apart(
    cfg: Config,
    ins: Seq<CaptureInput>,
    reads: Seq<int>,
    restarts: Seq<int>,
    k: int,
)
    requires
        timed_capture_run(cfg, ins, reads, restarts),
        0 <= k < ins.len(),
        !no_motion(capture_plan(cfg, capture_state_before(cfg, ins, k), ins[k]).1),
    ensures
        reads[k] >= CAPTURE_TICK_MS * NANOS_PER_MS,
        forall|j: int|
            0 <= j < k && !no_motion(#[trigger] capture_plan(cfg, capture_state_before(cfg, ins, j), ins[j]).1)
                ==> reads[k] - reads[j] >= CAPTURE_TICK_MS * NANOS_PER_MS,
{
    let fired = capture_restarts(cfg, ins);
    lemma_motion_restarts_timer(cfg, capture_state_before(cfg, ins, k), ins[k]);
    assert(ins[k].send_due);
    lemma_timer_start_after(fired, reads, restarts, 0, k);
    assert forall|j: int|
        0 <= j < k && !no_motion(#[trigger] capture_plan(cfg, capture_state_before(cfg, ins, j), ins[j]).1)
            implies reads[k] - reads[j] >= CAPTURE_TICK_MS * NANOS_PER_MS by {
        lemma_motion_restarts_timer(cfg, capture_state_before(cfg, ins, j), ins[j]);
        assert(fired[j]);
        lemma_timer_start_after(fired, reads, restarts, j, k);
    }
}

proof fn lemma_state_before_step(cfg: Config, ins: Seq<CaptureInput>, k: int)
    requires
        1 <= k <= ins.len(),
    ensures
        capture_state_before(cfg, ins, k) == capture_plan(cfg, capture_state_before(cfg, ins, k - 1), ins[k - 1]).0,
{
    assert(ins.take(k).drop_last() =~= ins.take(k - 1));
    assert(ins.take(k).last() == ins[k - 1]);
}

/// Over a run of the capture loop from its start, a tick does anything
/// only when it finds the link up and the peer in control; and the first
/// such tick after the start, or after a tick that did not find both, only
/// parks the cursor at the lock point, reporting nothing.
pub proof fn capture_acts_only_while_remote(cfg: Config, ins: Seq<CaptureInput>, k: int)
    requires
        0 <= k < ins.len(),
    ensures
        ({
            let i = ins[k];
            let plan = capture_plan(cfg, capture_state_before(cfg, ins, k), i);
            let p = lock_point_of(edge_named(cfg.switch_edge@), i.width as int, i.height as int);
            &&& !(i.connected && i.remote_mode) ==> plan.1 == Seq::<Action>::empty() && !plan.2
            &&& i.connected && i.remote_mode && (k == 0 || !(ins[k - 1].connected && ins[k - 1].remote_mode))
                ==> plan.1 == seq![Action::SetCursor(p.0 as i32, p.1 as i32)] && !plan.2
        }),
{
    if k == 0 {
        assert(ins.take(0) =~= Seq::<CaptureInput>::empty());
    } else {
        lemma_state_before_step(cfg, ins, k);
    }
}

/// Whether an action parks the cursor somewhere.
pub open spec fn parks(a: Action) -> bool {
    a is SetCursor
}

/// The warp filter is armed only by parking the cursor: a tick that finds
/// it off turns it on only when its last effect moves the cursor to the
/// lock point. A tick that parks nothing, such as one whose cursor sits
/// within one pixel of the lock point, leaves it off.
pub proof fn warp_filter_armed_only_by_parking(cfg: Config, s: CaptureState, i: CaptureInput)
    requires
        !s.ignore_next_warp,
    ensures
        ({
            let p = lock_point_of(edge_named(cfg.switch_edge@), i.width as int, i.height as int);
            let plan = capture_plan(cfg, s, i);
            &&& plan.0.ignore_next_warp ==> plan.1.len() > 0 && plan.1.last() == Action::SetCursor(
                p.0 as i32,
                p.1 as i32,
            )
            &&& (forall|j: int| 0 <= j < plan.1.len() ==> !parks(#[trigger] plan.1[j])) ==> !plan.0.ignore_next_warp
        }),
{
    let p = lock_point_of(edge_named(cfg.switch_edge@), i.width as int, i.height as int);
    let plan = capture_plan(cfg, s, i);
    if plan.0.ignore_next_warp {
        assert(parks(plan.1[plan.1.len() - 1]));
    }
}

/// While the peer has control and the previous tick neither parked the
/// cursor nor started capturing, a readable cursor at least 2 pixels from
/// the lock point along either axis is reported as exactly that offset when
/// a send is due, and the cursor is parked again; a cursor within one pixel
/// of the lock point along both axes reports no motion and parks nothing.
pub proof fn capture_reports_motion_beyond_one_pixel(cfg: Config, s: CaptureState, i: CaptureInput, x: i32, y: i32)
    requires
        i.connected,
        i.remote_mode,
        s.was_remote,
        !s.ignore_next_warp,
        i.cursor == Some((x, y)),
    ensures
        ({
            let p = lock_point_of(edge_named(cfg.switch_edge@), i.width as int, i.height as int);
            let dx = x - p.0;
            let dy = y - p.1;
            let plan = capture_plan(cfg, s, i);
            &&& (dx >= 2 || dx <= -2 || dy >= 2 || dy <= -2) && i.send_due ==> plan.1.len() >= 2 && plan.1[plan.1.len()
                - 2] == Action::SendUdp(Message::MouseMove { dx: dx as i32, dy: dy as i32 }) && plan.1.last()
                == Action::SetCursor(p.0 as i32, p.1 as i32) && plan.2
            &&& (-1 <= dx <= 1 && -1 <= dy <= 1) ==> no_motion(plan.1) && !plan.0.ignore_next_warp && !plan.2
                && forall|j: int| 0 <= j < plan.1.len() ==> !parks(#[trigger] plan.1[j])
        }),
{
    lemma_reports(s, i, MouseButton::Left);
    let reports = button_actions(MouseButton::Left, i.left, s.last_left) + button_actions(
        MouseButton::Right,
        i.right,
        s.last_right,
    ) + button_actions(MouseButton::Middle, i.middle, s.last_middle);
    assert forall|j: int| 0 <= j < reports.len() implies !parks(#[trigger] reports[j]) by {
        let l = button_actions(MouseButton::Left, i.left, s.last_left);
        let r = button_actions(MouseButton::Right, i.right, s.last_right);
        let m = button_actions(MouseButton::Middle, i.middle, s.last_middle);
        if j < l.len() {
            assert(reports[j] == l[j]);
        } else if j < l.len() + r.len() {
            assert(reports[j] == r[j - l.len()]);
        } else {
            assert(reports[j] == m[j - l.len() - r.len()]);
        }
    }
}

} // verus!
