//! Replaying the peer's mouse activity on this machine: the synthetic
//! input records to inject and where the cursor is put.
use vstd::prelude::*;
use crate::cursor_switch::{edge_named, edge_of, half, Edge};
use crate::actions::Action;
use crate::config::Config;
use crate::mouse_hook::{
    button_event, hook_plan, HookFlags, HookInput, WM_LBUTTONDOWN, WM_LBUTTONUP, WM_MBUTTONDOWN,
    WM_MBUTTONUP, WM_RBUTTONDOWN, WM_RBUTTONUP,
};
use crate::protocol::{Message, MouseButton};

verus! {

/// Input flag: left button down.
pub const MOUSEEVENTF_LEFTDOWN: u32 = 0x0002;
/// Input flag: left button up.
pub const MOUSEEVENTF_LEFTUP: u32 = 0x0004;
/// Input flag: right button down.
pub const MOUSEEVENTF_RIGHTDOWN: u32 = 0x0008;
/// Input flag: right button up.
pub const MOUSEEVENTF_RIGHTUP: u32 = 0x0010;
/// Input flag: middle button down.
pub const MOUSEEVENTF_MIDDLEDOWN: u32 = 0x0020;
/// Input flag: middle button up.
pub const MOUSEEVENTF_MIDDLEUP: u32 = 0x0040;
/// Input flag: wheel rotation, amount in `mouse_data`.
pub const MOUSEEVENTF_WHEEL: u32 = 0x0800;

/// How far inside the screen a cursor arriving from the peer appears.
pub const ARRIVAL_INSET: i32 = 40;

/// One synthetic mouse input record.
#[derive(Debug, Clone, Copy, PartialEq, Eq, Structural)]
pub struct MouseInput {
    pub dx: i32,
    pub dy: i32,
    pub mouse_data: u32,
    pub flags: u32,
}

/// `v` as the unsigned 32-bit word with the same bits.
pub open spec fn as_word(v: int) -> u32 {
    if v >= 0 {
        v as u32
    } else {
        (v + 0x1_0000_0000) as u32
    }
}

/// The record that turns the wheel by `delta`.
pub fn wheel_input(delta: i32) -> (r: MouseInput)
    ensures
        r == (MouseInput { dx: 0, dy: 0, mouse_data: as_word(delta as int), flags: MOUSEEVENTF_WHEEL }),
{
    let mouse_data: u32 = if delta >= 0 {
        delta as u32
    } else {
        (delta as i64 + 0x1_0000_0000i64) as u32
    };
    MouseInput { dx: 0, dy: 0, mouse_data, flags: MOUSEEVENTF_WHEEL }
}

/// The input flag for pressing or releasing `button`.
pub open spec fn button_flag(button: MouseButton, down: bool) -> u32 {
    match (button, down) {
        (MouseButton::Left, true) => MOUSEEVENTF_LEFTDOWN,
        (MouseButton::Left, false) => MOUSEEVENTF_LEFTUP,
        (MouseButton::Right, true) => MOUSEEVENTF_RIGHTDOWN,
        (MouseButton::Right, false) => MOUSEEVENTF_RIGHTUP,
        (MouseButton::Middle, true) => MOUSEEVENTF_MIDDLEDOWN,
        (MouseButton::Middle, false) => MOUSEEVENTF_MIDDLEUP,
    }
}

/// The record that presses (`down`) or releases `button`.
pub fn button_input(button: MouseButton, down: bool) -> (r: MouseInput)
    ensures
        r == (MouseInput { dx: 0, dy: 0, mouse_data: 0, flags: button_flag(button, down) }),
{
    let flags = match (button, down) {
        (MouseButton::Left, true) => MOUSEEVENTF_LEFTDOWN,
        (MouseButton::Left, false) => MOUSEEVENTF_LEFTUP,
        (MouseButton::Right, true) => MOUSEEVENTF_RIGHTDOWN,
        (MouseButton::Right, false) => MOUSEEVENTF_RIGHTUP,
        (MouseButton::Middle, true) => MOUSEEVENTF_MIDDLEDOWN,
        (MouseButton::Middle, false) => MOUSEEVENTF_MIDDLEUP,
    };
    MouseInput { dx: 0, dy: 0, mouse_data: 0, flags }
}

/// Where a cursor handed over at the peer's `edge` appears here: just inside
/// the opposite side of this screen, half way along; the center for an
/// unknown edge.
pub open spec fn arrival_point_of(edge: Edge, w: int, h: int) -> (int, int) {
    match edge {
        Edge::Right => (ARRIVAL_INSET as int, half(h)),
        Edge::Left => (w - ARRIVAL_INSET, half(h)),
        Edge::Top => (half(w), h - ARRIVAL_INSET),
        Edge::Bottom => (half(w), ARRIVAL_INSET as int),
        Edge::Other => (half(w), half(h)),
    }
}

/// The arrival point is computed without overflow.
pub open spec fn arrival_fits(edge: Edge, w: int, h: int) -> bool {
    match edge {
        Edge::Left => w - ARRIVAL_INSET >= i32::MIN,
        Edge::Top => h - ARRIVAL_INSET >= i32::MIN,
        _ => true,
    }
}

/// Whether `arrival_point` computes its point without overflow (its
/// precondition).
pub fn arrival_in_range(edge: &str, w: i32, h: i32) -> (r: bool)
    ensures
        r == arrival_fits(edge_named(edge@), w as int, h as int),
{
    match edge_of(edge) {
        Edge::Left => (w as i64) - 40 >= i32::MIN as i64,
        Edge::Top => (h as i64) - 40 >= i32::MIN as i64,
        _ => true,
    }
}

/// Where the cursor goes when the peer hands it over at its `edge`.
pub fn arrival_point(edge: &str, w: i32, h: i32) -> (r: (i32, i32))
    requires
        arrival_fits(edge_named(edge@), w as int, h as int),
    ensures
        (r.0 as int, r.1 as int) == arrival_point_of(edge_named(edge@), w as int, h as int),
{
    match edge_of(edge) {
        Edge::Right => (ARRIVAL_INSET, h / 2),
        Edge::Left => (w - ARRIVAL_INSET, h / 2),
        Edge::Top => (w / 2, h - ARRIVAL_INSET),
        Edge::Bottom => (w / 2, ARRIVAL_INSET),
        Edge::Other => (w / 2, h / 2),
    }
}

/// Where the cursor at `(x, y)` goes when the peer moves it by `(dx, dy)`.
pub fn moved_cursor(x: i32, y: i32, dx: i32, dy: i32) -> (r: (i32, i32))
    requires
        i32::MIN <= x + dx <= i32::MAX,
        i32::MIN <= y + dy <= i32::MAX,
    ensures
        r.0 == x + dx,
        r.1 == y + dy,
{
    (x + dx, y + dy)
}

/// The edge across which a cursor handed over at `edge` came in here.
pub open spec fn opposite(edge: Edge) -> Edge {
    match edge {
        Edge::Right => Edge::Left,
        Edge::Left => Edge::Right,
        Edge::Top => Edge::Bottom,
        Edge::Bottom => Edge::Top,
        Edge::Other => Edge::Other,
    }
}

/// A cursor that arrives from the peer is not at the edge it came in
/// through, so a machine switching at that edge does not send it straight
/// back.
pub proof fn arrival_is_off_return_edge(edge: Edge, w: int, h: int)
    ensures
        !crate::cursor_switch::edge_reached(
            opposite(edge),
            arrival_point_of(edge, w, h).0,
            arrival_point_of(edge, w, h).1,
            w,
            h,
        ),
{
}

/// The input flag that replays the local button event `event` on the
/// other machine, if it is a button event.
pub open spec fn replay_flag(event: u32) -> Option<u32> {
    if event == WM_LBUTTONDOWN {
        Some(MOUSEEVENTF_LEFTDOWN)
    } else if event == WM_LBUTTONUP {
        Some(MOUSEEVENTF_LEFTUP)
    } else if event == WM_RBUTTONDOWN {
        Some(MOUSEEVENTF_RIGHTDOWN)
    } else if event == WM_RBUTTONUP {
        Some(MOUSEEVENTF_RIGHTUP)
    } else if event == WM_MBUTTONDOWN {
        Some(MOUSEEVENTF_MIDDLEDOWN)
    } else if event == WM_MBUTTONUP {
        Some(MOUSEEVENTF_MIDDLEUP)
    } else {
        None
    }
}

/// A button event that the hook forwards is replayed on the other machine
/// as the same button going the same way: the message the hook sends for
/// it, given to `button_input`, carries the input flag of that event.
pub proof fn hook_button_replays_as_same_input(cfg: Config, s: HookFlags, i: HookInput)
    requires
        i.n_code >= 0,
        i.active,
        button_event(i.event) is Some,
    ensures
        hook_plan(Some(cfg), s, i).2,
        hook_plan(Some(cfg), s, i).1.len() > 0,
        hook_plan(Some(cfg), s, i).1.last() matches Action::SendUdp(Message::MouseButton { button, down })
            && Some(button_flag(button, down)) == replay_flag(i.event),
{
}

} // verus!
