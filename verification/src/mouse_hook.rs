//! The low-level mouse hook that swallows local mouse input while the peer
//! has control and forwards it: one call of the hook, and its bookkeeping.
use vstd::prelude::*;
use crate::actions::{Action, ClipRect};
use crate::config::Config;
use crate::cursor_switch::{
    edge_named, edge_of, lock_point, lock_point_fits, lock_point_in_range, lock_point_of, lock_point_wide,
};
use crate::input_capture::within_deadzone;
use crate::protocol::{Message, MouseButton};

verus! {

/// The largest motion reported in one event, per axis.
pub const MAX_MOUSE_DELTA: i32 = 160;
/// Half the side of the square the cursor is confined to.
pub const CLIP_SIZE: i32 = 2;

/// Window message: the mouse moved.
pub const WM_MOUSEMOVE: u32 = 0x0200;
/// Window message: left button down.
pub const WM_LBUTTONDOWN: u32 = 0x0201;
/// Window message: left button up.
pub const WM_LBUTTONUP: u32 = 0x0202;
/// Window message: right button down.
pub const WM_RBUTTONDOWN: u32 = 0x0204;
/// Window message: right button up.
pub const WM_RBUTTONUP: u32 = 0x0205;
/// Window message: middle button down.
pub const WM_MBUTTONDOWN: u32 = 0x0207;
/// Window message: middle button up.
pub const WM_MBUTTONUP: u32 = 0x0208;
/// Window message: the wheel turned.
pub const WM_MOUSEWHEEL: u32 = 0x020A;

/// What the hook remembers between calls.
#[derive(Debug, Clone, Copy, PartialEq, Eq, Structural)]
pub struct HookFlags {
    /// The next move event is the echo of our own warp.
    pub suppress_next_move: bool,
    /// The cursor is confined to the lock point.
    pub cursor_clipped: bool,
}

impl HookFlags {
    /// The flags before the first call.
    pub fn new() -> (r: HookFlags)
        ensures
            !r.suppress_next_move,
            !r.cursor_clipped,
    {
        HookFlags { suppress_next_move: false, cursor_clipped: false }
    }
}

/// The effects of leaving remote control: the cursor is freed if it was
/// confined.
pub open spec fn reset_actions(s: HookFlags) -> Seq<Action> {
    if s.cursor_clipped {
        seq![Action::ReleaseClip]
    } else {
        Seq::empty()
    }
}

/// Leaves remote control: no move to suppress, and the cursor freed if it
/// was confined. Returns the effects to carry out.
pub fn reset_remote_state(state: &mut HookFlags) -> (r: Vec<Action>)
    ensures
        r@ == reset_actions(*old(state)),
        !final(state).suppress_next_move,
        !final(state).cursor_clipped,
{
    state.suppress_next_move = false;
    let mut r: Vec<Action> = Vec::new();
    if state.cursor_clipped {
        r.push(Action::ReleaseClip);
        state.cursor_clipped = false;
    }
    assert(r@ =~= reset_actions(*old(state)));
    r
}

/// The message that reports a button event.
pub fn send_mouse_button(button: MouseButton, down: bool) -> (r: Message)
    ensures
        r == (Message::MouseButton { button, down }),
{
    Message::MouseButton { button, down }
}

/// The square around `(x, y)` that the cursor is confined to.
pub open spec fn clip_rect_of(x: int, y: int) -> ClipRect {
    ClipRect {
        left: (x - CLIP_SIZE) as i32,
        top: (y - CLIP_SIZE) as i32,
        right: (x + CLIP_SIZE) as i32,
        bottom: (y + CLIP_SIZE) as i32,
    }
}

/// The square around `(x, y)` fits the coordinate range.
pub open spec fn clip_fits(x: int, y: int) -> bool {
    i32::MIN <= x - CLIP_SIZE && x + CLIP_SIZE <= i32::MAX && i32::MIN <= y - CLIP_SIZE && y
        + CLIP_SIZE <= i32::MAX
}

/// The square around `(x, y)` that the cursor is confined to.
pub fn clip_cursor_to_point(x: i32, y: i32) -> (r: ClipRect)
    requires
        clip_fits(x as int, y as int),
    ensures
        r == clip_rect_of(x as int, y as int),
{
    ClipRect { left: x - CLIP_SIZE, top: y - CLIP_SIZE, right: x + CLIP_SIZE, bottom: y + CLIP_SIZE }
}

/// `v` limited to `[lo, hi]`.
pub open spec fn clamped(v: int, lo: int, hi: int) -> int {
    if v < lo {
        lo
    } else if v > hi {
        hi
    } else {
        v
    }
}

fn clamp_i32(v: i32, lo: i32, hi: i32) -> (r: i32)
    requires
        lo <= hi,
    ensures
        r == clamped(v as int, lo as int, hi as int),
{
    if v < lo {
        lo
    } else if v > hi {
        hi
    } else {
        v
    }
}

/// The wheel rotation carried in the high word of a hook event's data,
/// read as a signed 16-bit number.
pub open spec fn wheel_delta_of(mouse_data: u32) -> int {
    let hi = mouse_data / 0x10000;
    if hi >= 0x8000 {
        hi - 0x10000
    } else {
        hi as int
    }
}

/// The wheel rotation carried in a hook event's data.
pub fn wheel_delta(mouse_data: u32) -> (r: i32)
    ensures
        r == wheel_delta_of(mouse_data),
{
    let hi = (mouse_data >> 16) & 0xffff;
    assert(hi == mouse_data / 0x10000) by (bit_vector)
        requires
            hi == (mouse_data >> 16) & 0xffff,
    ;
    if hi >= 0x8000 {
        hi as i32 - 0x10000
    } else {
        hi as i32
    }
}

/// What the hook was called with.
#[derive(Debug, Clone, Copy, PartialEq, Eq, Structural)]
pub struct HookInput {
    /// The hook code; negative codes must be passed on untouched.
    pub n_code: i32,
    /// The peer answers and has control.
    pub active: bool,
    /// The window message of the event.
    pub event: u32,
    /// The cursor position the event reports.
    pub x: i32,
    /// The cursor position the event reports.
    pub y: i32,
    /// The event's extra data (wheel rotation in the high word).
    pub mouse_data: u32,
    /// Screen width.
    pub width: i32,
    /// Screen height.
    pub height: i32,
}

/// What one call of the hook decided.
#[derive(Debug, Clone, PartialEq, Eq)]
pub struct HookStep {
    /// Effects to carry out, in order.
    pub actions: Vec<Action>,
    /// Whether the event is swallowed; otherwise it goes on to the next hook.
    pub swallow: bool,
}

/// The button and direction of a button event, if it is one.
pub open spec fn button_event(event: u32) -> Option<(MouseButton, bool)> {
    if event == WM_LBUTTONDOWN {
        Some((MouseButton::Left, true))
    } else if event == WM_LBUTTONUP {
        Some((MouseButton::Left, false))
    } else if event == WM_RBUTTONDOWN {
        Some((MouseButton::Right, true))
    } else if event == WM_RBUTTONUP {
        Some((MouseButton::Right, false))
    } else if event == WM_MBUTTONDOWN {
        Some((MouseButton::Middle, true))
    } else if event == WM_MBUTTONUP {
        Some((MouseButton::Middle, false))
    } else {
        None
    }
}

/// One call of the hook: the new flags, the effects, and whether the event
/// is swallowed. `cfg` is `None` when the configuration could not be read.
pub open spec fn hook_plan(cfg: Option<Config>, s: HookFlags, i: HookInput) -> (
    HookFlags,
    Seq<Action>,
    bool,
) {
    if i.n_code < 0 {
        (s, Seq::empty(), false)
    } else if !i.active || cfg is None {
        (HookFlags { suppress_next_move: false, cursor_clipped: false }, reset_actions(s), false)
    } else {
        let c = cfg->0;
        let p = lock_point_of(edge_named(c.switch_edge@), i.width as int, i.height as int);
        let park = seq![
            Action::SetCursor(p.0 as i32, p.1 as i32),
            Action::ClipCursor(clip_rect_of(p.0, p.1)),
        ];
        let (s0, pre) = if !s.cursor_clipped {
            (HookFlags { cursor_clipped: true, suppress_next_move: true }, park)
        } else {
            (s, Seq::empty())
        };
        if i.event == WM_MOUSEMOVE {
            let dx = clamped(i.x - p.0, -MAX_MOUSE_DELTA, MAX_MOUSE_DELTA as int);
            let dy = clamped(i.y - p.1, -MAX_MOUSE_DELTA, MAX_MOUSE_DELTA as int);
            if s0.suppress_next_move {
                (HookFlags { suppress_next_move: false, ..s0 }, pre, true)
            } else if within_deadzone(dx, dy) {
                (s0, pre, true)
            } else {
                (
                    HookFlags { suppress_next_move: true, ..s0 },
                    pre + seq![Action::SendUdp(Message::MouseMove { dx: dx as i32, dy: dy as i32 })]
                        + park,
                    true,
                )
            }
        } else if button_event(i.event) is Some {
            let (button, down) = button_event(i.event)->0;
            (s0, pre.push(Action::SendUdp(Message::MouseButton { button, down })), true)
        } else if i.event == WM_MOUSEWHEEL {
            (
                s0,
                pre.push(
                    Action::SendUdp(Message::MouseWheel { delta: wheel_delta_of(i.mouse_data) as i32 }),
                ),
                true,
            )
        } else {
            (s0, pre, false)
        }
    }
}

/// The call computes the lock point, the confinement square and the motion
/// without overflow.
pub open spec fn hook_fits(cfg: Option<Config>, s: HookFlags, i: HookInput) -> bool {
    if i.n_code < 0 || !i.active || cfg is None {
        true
    } else {
        let c = cfg->0;
        let edge = edge_named(c.switch_edge@);
        let p = lock_point_of(edge, i.width as int, i.height as int);
        &&& lock_point_fits(edge, i.width as int, i.height as int)
        &&& !s.cursor_clipped ==> clip_fits(p.0, p.1)
        &&& i.event == WM_MOUSEMOVE ==> {
            &&& i32::MIN <= i.x - p.0 <= i32::MAX
            &&& i32::MIN <= i.y - p.1 <= i32::MAX
            &&& s.cursor_clipped && !s.suppress_next_move && !within_deadzone(
                clamped(i.x - p.0, -MAX_MOUSE_DELTA, MAX_MOUSE_DELTA as int),
                clamped(i.y - p.1, -MAX_MOUSE_DELTA, MAX_MOUSE_DELTA as int),
            ) ==> clip_fits(p.0, p.1)
        }
    }
}

/// Whether the square around `(x, y)` fits the coordinate range.
fn clip_in_range(x: i64, y: i64) -> (r: bool)
    requires
        -0x1_0000_0000 <= x <= 0x1_0000_0000,
        -0x1_0000_0000 <= y <= 0x1_0000_0000,
    ensures
        r == clip_fits(x as int, y as int),
{
    let lo = i32::MIN as i64;
    let hi = i32::MAX as i64;
    lo <= x - 2 && x + 2 <= hi && lo <= y - 2 && y + 2 <= hi
}

/// Whether `mouse_hook_step` computes the lock point, the confinement
/// square and the motion without overflow on this input (its
/// precondition).
pub fn hook_step_in_range(cfg: Option<&Config>, state: &HookFlags, input: &HookInput) -> (r: bool)
    ensures
        r == hook_fits(
            match cfg {
                Some(c) => Some(*c),
                None => None,
            },
            *state,
            *input,
        ),
{
    let c = match cfg {
        Some(c) => c,
        None => {
            return true;
        },
    };
    if input.n_code < 0 || !input.active {
        return true;
    }
    let edge = edge_of(c.switch_edge.as_str());
    if !lock_point_in_range(edge, input.width, input.height) {
        return false;
    }
    let (px, py) = lock_point_wide(edge, input.width, input.height);
    if !state.cursor_clipped && !clip_in_range(px, py) {
        return false;
    }
    if input.event != WM_MOUSEMOVE {
        return true;
    }
    let dx = input.x as i64 - px;
    let dy = input.y as i64 - py;
    let lo = i32::MIN as i64;
    let hi = i32::MAX as i64;
    if !(lo <= dx && dx <= hi && lo <= dy && dy <= hi) {
        return false;
    }
    let cdx = if dx < -160 {
        -160
    } else if dx > 160 {
        160
    } else {
        dx
    };
    let cdy = if dy < -160 {
        -160
    } else if dy > 160 {
        160
    } else {
        dy
    };
    let moving = state.cursor_clipped && !state.suppress_next_move && !(-1 <= cdx && cdx <= 1 && -1
        <= cdy && cdy <= 1);
    !moving || clip_in_range(px, py)
}

/// Confines the cursor to its lock point: moves it there, then clips it.
fn park_at(actions: &mut Vec<Action>, x: i32, y: i32)
    requires
        clip_fits(x as int, y as int),
    ensures
        final(actions)@ == old(actions)@ + seq![
            Action::SetCursor(x, y),
            Action::ClipCursor(clip_rect_of(x as int, y as int)),
        ],
{
    actions.push(Action::SetCursor(x, y));
    actions.push(Action::ClipCursor(clip_cursor_to_point(x, y)));
    assert(final(actions)@ =~= old(actions)@ + seq![
        Action::SetCursor(x, y),
        Action::ClipCursor(clip_rect_of(x as int, y as int)),
    ]);
}

/// One call of the low-level mouse hook. While the peer has control the
/// cursor is confined to the lock point, motion beyond one pixel is clamped
/// to `MAX_MOUSE_DELTA` per axis and forwarded, buttons and wheel are
/// forwarded, and these events are swallowed; the echo of our own warp is
/// swallowed silently. Otherwise the confinement is lifted and every event
/// passes on.
pub fn mouse_hook_step(cfg: Option<&Config>, state: &mut HookFlags, input: &HookInput) -> (r: HookStep)
    requires
        hook_fits(
            match cfg {
                Some(c) => Some(*c),
                None => None,
            },
            *old(state),
            *input,
        ),
    ensures
        (*final(state), r.actions@, r.swallow) == hook_plan(
            match cfg {
                Some(c) => Some(*c),
                None => None,
            },
            *old(state),
            *input,
        ),
{
    if input.n_code < 0 {
        let actions: Vec<Action> = Vec::new();
        assert(actions@ =~= Seq::<Action>::empty());
        return HookStep { actions, swallow: false };
    }
    let c = match cfg {
        Some(c) if input.active => c,
        _ => {
            let actions = reset_remote_state(state);
            return HookStep { actions, swallow: false };
        },
    };
    let (lock_x, lock_y) = lock_point(c, input.width, input.height);
    let mut actions: Vec<Action> = Vec::new();
    if !state.cursor_clipped {
        park_at(&mut actions, lock_x, lock_y);
        state.cursor_clipped = true;
        state.suppress_next_move = true;
    }
    let ghost pre = actions@;
    assert(pre =~= (if !old(state).cursor_clipped {
        seq![
            Action::SetCursor(lock_x, lock_y),
            Action::ClipCursor(clip_rect_of(lock_x as int, lock_y as int)),
        ]
    } else {
        Seq::<Action>::empty()
    }));
    let event = input.event;
    if event == WM_MOUSEMOVE {
        let dx = clamp_i32(input.x - lock_x, -MAX_MOUSE_DELTA, MAX_MOUSE_DELTA);
        let dy = clamp_i32(input.y - lock_y, -MAX_MOUSE_DELTA, MAX_MOUSE_DELTA);
        if state.suppress_next_move {
            state.suppress_next_move = false;
            return HookStep { actions, swallow: true };
        }
        if -1 <= dx && dx <= 1 && -1 <= dy && dy <= 1 {
            return HookStep { actions, swallow: true };
        }
        actions.push(Action::SendUdp(Message::MouseMove { dx, dy }));
        park_at(&mut actions, lock_x, lock_y);
        state.suppress_next_move = true;
        assert(actions@ =~= pre + seq![Action::SendUdp(Message::MouseMove { dx, dy })] + seq![
            Action::SetCursor(lock_x, lock_y),
            Action::ClipCursor(clip_rect_of(lock_x as int, lock_y as int)),
        ]);
        return HookStep { actions, swallow: true };
    }
    let button = if event == WM_LBUTTONDOWN {
        Some((MouseButton::Left, true))
    } else if event == WM_LBUTTONUP {
        Some((MouseButton::Left, false))
    } else if event == WM_RBUTTONDOWN {
        Some((MouseButton::Right, true))
    } else if event == WM_RBUTTONUP {
        Some((MouseButton::Right, false))
    } else if event == WM_MBUTTONDOWN {
        Some((MouseButton::Middle, true))
    } else if event == WM_MBUTTONUP {
        Some((MouseButton::Middle, false))
    } else {
        None
    };
    match button {
        Some((b, down)) => {
            actions.push(Action::SendUdp(send_mouse_button(b, down)));
            return HookStep { actions, swallow: true };
        },
        None => {},
    }
    if event == WM_MOUSEWHEEL {
        let delta = wheel_delta(input.mouse_data);
        actions.push(Action::SendUdp(Message::MouseWheel { delta }));
        return HookStep { actions, swallow: true };
    }
    HookStep { actions, swallow: false }
}

/// Every motion the hook forwards is clamped to `MAX_MOUSE_DELTA` per axis
/// and lies outside the one-pixel dead zone.
pub proof fn forwarded_motion_is_bounded(cfg: Option<Config>, s: HookFlags, i: HookInput, k: int)
    requires
        0 <= k < hook_plan(cfg, s, i).1.len(),
        hook_plan(cfg, s, i).1[k] matches Action::SendUdp(Message::MouseMove { .. }),
    ensures
        hook_plan(cfg, s, i).1[k] matches Action::SendUdp(Message::MouseMove { dx, dy }) && -MAX_MOUSE_DELTA
            <= dx <= MAX_MOUSE_DELTA && -MAX_MOUSE_DELTA <= dy <= MAX_MOUSE_DELTA
            && !within_deadzone(dx as int, dy as int),
{
    let c = cfg->0;
    let p = lock_point_of(edge_named(c.switch_edge@), i.width as int, i.height as int);
    let dx = clamped(i.x - p.0, -MAX_MOUSE_DELTA, MAX_MOUSE_DELTA as int);
    let dy = clamped(i.y - p.1, -MAX_MOUSE_DELTA, MAX_MOUSE_DELTA as int);
    assert(-160 <= dx <= 160 && -160 <= dy <= 160);
}

/// After the hook forwards a motion and warps the cursor back, the move
/// event that this warp causes is swallowed without being forwarded.
pub proof fn warp_echo_is_swallowed(cfg: Config, s: HookFlags, first: HookInput, echo: HookInput)
    requires
        s.cursor_clipped,
        !s.suppress_next_move,
        first.n_code >= 0,
        first.active,
        first.event == WM_MOUSEMOVE,
        !within_deadzone(
            clamped(
                first.x - lock_point_of(edge_named(cfg.switch_edge@), first.width as int, first.height as int).0,
                -MAX_MOUSE_DELTA,
                MAX_MOUSE_DELTA as int,
            ),
            clamped(
                first.y - lock_point_of(edge_named(cfg.switch_edge@), first.width as int, first.height as int).1,
                -MAX_MOUSE_DELTA,
                MAX_MOUSE_DELTA as int,
            ),
        ),
        echo.n_code >= 0,
        echo.active,
        echo.event == WM_MOUSEMOVE,
    ensures
        hook_plan(Some(cfg), s, first).1[0] matches Action::SendUdp(Message::MouseMove { .. }),
        hook_plan(Some(cfg), hook_plan(Some(cfg), s, first).0, echo).1 == Seq::<Action>::empty(),
        hook_plan(Some(cfg), hook_plan(Some(cfg), s, first).0, echo).2,
{
}

/// Whenever the peer does not have control, the hook leaves the cursor
/// unconfined and passes every event on.
pub proof fn inactive_hook_frees_cursor(cfg: Option<Config>, s: HookFlags, i: HookInput)
    requires
        i.n_code >= 0,
        !i.active,
    ensures
        !hook_plan(cfg, s, i).0.cursor_clipped,
        !hook_plan(cfg, s, i).2,
        s.cursor_clipped ==> hook_plan(cfg, s, i).1 == seq![Action::ReleaseClip],
{
}

/// While the peer has control and the cursor is confined, a move event
/// that is not the echo of our own warp is forwarded exactly when its
/// clamped offset from the lock point leaves the one-pixel square, that is
/// when it is at least 2 pixels along either axis: then the hook sends
/// that offset and parks the cursor again; otherwise it sends nothing.
/// Either way the event is swallowed.
pub proof fn hook_forwards_motion_beyond_one_pixel(cfg: Config, s: HookFlags, i: HookInput)
    requires
        i.n_code >= 0,
        i.active,
        s.cursor_clipped,
        !s.suppress_next_move,
        i.event == WM_MOUSEMOVE,
    ensures
        ({
            let p = lock_point_of(edge_named(cfg.switch_edge@), i.width as int, i.height as int);
            let dx = clamped(i.x - p.0, -160, 160);
            let dy = clamped(i.y - p.1, -160, 160);
            let plan = hook_plan(Some(cfg), s, i);
            &&& (dx >= 2 || dx <= -2 || dy >= 2 || dy <= -2) ==> plan.1 == seq![
                Action::SendUdp(Message::MouseMove { dx: dx as i32, dy: dy as i32 }),
                Action::SetCursor(p.0 as i32, p.1 as i32),
                Action::ClipCursor(clip_rect_of(p.0, p.1)),
            ] && plan.0.suppress_next_move
            &&& (-1 <= dx <= 1 && -1 <= dy <= 1) ==> plan.1 == Seq::<Action>::empty() && plan.0 == s
            &&& plan.2
        }),
{
    let p = lock_point_of(edge_named(cfg.switch_edge@), i.width as int, i.height as int);
    let dx = clamped(i.x - p.0, -160, 160);
    let dy = clamped(i.y - p.1, -160, 160);
    let park = seq![Action::SetCursor(p.0 as i32, p.1 as i32), Action::ClipCursor(clip_rect_of(p.0, p.1))];
    let mv = seq![Action::SendUdp(Message::MouseMove { dx: dx as i32, dy: dy as i32 })];
    assert(Seq::<Action>::empty() + mv + park =~= seq![
        Action::SendUdp(Message::MouseMove { dx: dx as i32, dy: dy as i32 }),
        Action::SetCursor(p.0 as i32, p.1 as i32),
        Action::ClipCursor(clip_rect_of(p.0, p.1)),
    ]);
}

} // verus!
