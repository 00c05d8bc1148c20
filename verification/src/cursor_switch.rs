//! Handing the cursor to the peer and taking it back: where the cursor is
//! parked, which screen edge triggers a switch, and one tick of the loop
//! that watches hotkeys and the cursor.
use vstd::prelude::*;
use crate::actions::Action;
use crate::config::Config;
use crate::protocol::Message;
use crate::timer::{clock_ordered, lemma_timer_start_after, timer_start, NANOS_PER_MS};

verus! {

/// How close (in pixels) the cursor must come to the left or right edge.
pub const HORIZONTAL_EDGE: i32 = 10;
/// How close the cursor must come to the top edge.
pub const TOP_EDGE: i32 = 6;
/// How close the cursor must come to the bottom edge.
pub const BOTTOM_EDGE: i32 = 14;
/// The motion sent to the peer right after the cursor is handed over.
pub const INITIAL_PUSH: i32 = 36;
/// Milliseconds that must pass between two switches.
pub const SWITCH_COOLDOWN_MS: u64 = 260;

/// The screen edge that a configuration names.
#[derive(Debug, Clone, Copy, PartialEq, Eq, Structural)]
pub enum Edge {
    Right,
    Left,
    Top,
    Bottom,
    /// Any other name: no edge switches.
    Other,
}

/// The edge that the text `s` names.
pub open spec fn edge_named(s: Seq<char>) -> Edge {
    if s == "right"@ {
        Edge::Right
    } else if s == "left"@ {
        Edge::Left
    } else if s == "top"@ {
        Edge::Top
    } else if s == "bottom"@ {
        Edge::Bottom
    } else {
        Edge::Other
    }
}

/// Half of `x`, rounded towards zero as integer division does.
pub open spec fn half(x: int) -> int {
    if x >= 0 {
        x / 2
    } else {
        -((-x) / 2)
    }
}

/// The edge that the text `s` names.
pub fn edge_of(s: &str) -> (e: Edge)
    ensures
        e == edge_named(s@),
{
    let v = crate::text::chars_of(s);
    if crate::text::spells(&v, "right") {
        Edge::Right
    } else if crate::text::spells(&v, "left") {
        Edge::Left
    } else if crate::text::spells(&v, "top") {
        Edge::Top
    } else if crate::text::spells(&v, "bottom") {
        Edge::Bottom
    } else {
        Edge::Other
    }
}

/// Where the cursor is held while the peer has control: near the chosen
/// edge, half way along it; the screen's center for an unknown edge.
pub open spec fn lock_point_of(edge: Edge, w: int, h: int) -> (int, int) {
    match edge {
        Edge::Right => (w - 80, half(h)),
        Edge::Left => (80, half(h)),
        Edge::Top => (half(w), 32),
        Edge::Bottom => (half(w), h - 32),
        Edge::Other => (half(w), half(h)),
    }
}

/// The lock point is computed without overflow.
pub open spec fn lock_point_fits(edge: Edge, w: int, h: int) -> bool {
    match edge {
        Edge::Right => w - 80 >= i32::MIN,
        Edge::Bottom => h - 32 >= i32::MIN,
        _ => true,
    }
}

/// Where the cursor goes when control comes back: further inside the
/// screen than the lock point.
pub open spec fn safe_point_of(edge: Edge, w: int, h: int) -> (int, int) {
    match edge {
        Edge::Right => (w - 220, half(h)),
        Edge::Left => (220, half(h)),
        Edge::Top => (half(w), 180),
        Edge::Bottom => (half(w), h - 180),
        Edge::Other => (half(w), half(h)),
    }
}

/// The safe point is computed without overflow.
pub open spec fn safe_point_fits(edge: Edge, w: int, h: int) -> bool {
    match edge {
        Edge::Right => w - 220 >= i32::MIN,
        Edge::Bottom => h - 180 >= i32::MIN,
        _ => true,
    }
}

/// Whether a cursor at `(x, y)` has reached the chosen edge.
pub open spec fn edge_reached(edge: Edge, x: int, y: int, w: int, h: int) -> bool {
    match edge {
        Edge::Right => x >= w - HORIZONTAL_EDGE,
        Edge::Left => x <= HORIZONTAL_EDGE,
        Edge::Top => y <= TOP_EDGE,
        Edge::Bottom => y >= h - BOTTOM_EDGE,
        Edge::Other => false,
    }
}

/// The edge test is computed without overflow.
pub open spec fn edge_test_fits(edge: Edge, w: int, h: int) -> bool {
    match edge {
        Edge::Right => w - HORIZONTAL_EDGE >= i32::MIN,
        Edge::Bottom => h - BOTTOM_EDGE >= i32::MIN,
        _ => true,
    }
}

/// The motion that continues the cursor's travel across the edge.
pub open spec fn initial_push_of(edge: Edge) -> (i32, i32) {
    match edge {
        Edge::Right => (INITIAL_PUSH, 0),
        Edge::Left => ((-INITIAL_PUSH) as i32, 0),
        Edge::Top => (0, (-INITIAL_PUSH) as i32),
        Edge::Bottom => (0, INITIAL_PUSH),
        Edge::Other => (0, 0),
    }
}

/// The point where the cursor is held while the peer has control.
pub fn lock_point(cfg: &Config, w: i32, h: i32) -> (r: (i32, i32))
    requires
        lock_point_fits(edge_named(cfg.switch_edge@), w as int, h as int),
    ensures
        (r.0 as int, r.1 as int) == lock_point_of(edge_named(cfg.switch_edge@), w as int, h as int),
{
    match edge_of(cfg.switch_edge.as_str()) {
        Edge::Right => (w - 80, h / 2),
        Edge::Left => (80, h / 2),
        Edge::Top => (w / 2, 32),
        Edge::Bottom => (w / 2, h - 32),
        Edge::Other => (w / 2, h / 2),
    }
}

/// The point where the cursor is put when control comes back.
pub fn safe_point(cfg: &Config, w: i32, h: i32) -> (r: (i32, i32))
    requires
        safe_point_fits(edge_named(cfg.switch_edge@), w as int, h as int),
    ensures
        (r.0 as int, r.1 as int) == safe_point_of(edge_named(cfg.switch_edge@), w as int, h as int),
{
    match edge_of(cfg.switch_edge.as_str()) {
        Edge::Right => (w - 220, h / 2),
        Edge::Left => (220, h / 2),
        Edge::Top => (w / 2, 180),
        Edge::Bottom => (w / 2, h - 180),
        Edge::Other => (w / 2, h / 2),
    }
}

/// Whether a cursor at `(x, y)` on a `w` by `h` screen has reached the
/// configured edge.
pub fn edge_triggered(cfg: &Config, x: i32, y: i32, w: i32, h: i32) -> (r: bool)
    requires
        edge_test_fits(edge_named(cfg.switch_edge@), w as int, h as int),
    ensures
        r == edge_reached(edge_named(cfg.switch_edge@), x as int, y as int, w as int, h as int),
{
    match edge_of(cfg.switch_edge.as_str()) {
        Edge::Right => x >= w - HORIZONTAL_EDGE,
        Edge::Left => x <= HORIZONTAL_EDGE,
        Edge::Top => y <= TOP_EDGE,
        Edge::Bottom => y >= h - BOTTOM_EDGE,
        Edge::Other => false,
    }
}

/// The motion message sent right after the cursor is handed over, if any:
/// none for an unknown edge.
pub open spec fn initial_push_message(edge: Edge) -> Option<Message> {
    let (dx, dy) = initial_push_of(edge);
    if dx != 0 || dy != 0 {
        Some(Message::MouseMove { dx, dy })
    } else {
        None
    }
}

/// The motion message that follows a handover, if the edge calls for one.
pub fn send_initial_push(cfg: &Config) -> (r: Option<Message>)
    ensures
        r == initial_push_message(edge_named(cfg.switch_edge@)),
{
    let (dx, dy) = match edge_of(cfg.switch_edge.as_str()) {
        Edge::Right => (INITIAL_PUSH, 0),
        Edge::Left => (-INITIAL_PUSH, 0),
        Edge::Top => (0, -INITIAL_PUSH),
        Edge::Bottom => (0, INITIAL_PUSH),
        Edge::Other => (0, 0),
    };
    if dx != 0 || dy != 0 {
        Some(Message::MouseMove { dx, dy })
    } else {
        None
    }
}

/// The effects of handing the cursor to the peer: remote mode on, the
/// peer told at which edge, the cursor parked at the lock point, then the
/// initial push, if any.
pub open spec fn enter_actions(cfg: Config, w: int, h: int) -> Seq<Action> {
    let edge = edge_named(cfg.switch_edge@);
    let p = lock_point_of(edge, w, h);
    let head = seq![
        Action::SetRemoteMode(true),
        Action::SendUdp(Message::EnterControl { edge: cfg.switch_edge }),
        Action::SetCursor(p.0 as i32, p.1 as i32),
    ];
    match initial_push_message(edge) {
        Some(m) => head.push(Action::SendUdp(m)),
        None => head,
    }
}

/// The effects of taking control back: remote mode off, the cursor freed,
/// the peer told, the cursor put at the safe point.
pub open spec fn return_actions(cfg: Config, w: int, h: int) -> Seq<Action> {
    let p = safe_point_of(edge_named(cfg.switch_edge@), w, h);
    seq![
        Action::SetRemoteMode(false),
        Action::ReleaseClip,
        Action::SendUdp(Message::ReturnControl),
        Action::SetCursor(p.0 as i32, p.1 as i32),
    ]
}

/// The effects of handing the cursor to the peer, in order.
pub fn enter_remote_mode(cfg: &Config, w: i32, h: i32) -> (r: Vec<Action>)
    requires
        lock_point_fits(edge_named(cfg.switch_edge@), w as int, h as int),
    ensures
        r@ == enter_actions(*cfg, w as int, h as int),
{
    let mut r: Vec<Action> = Vec::new();
    r.push(Action::SetRemoteMode(true));
    r.push(Action::SendUdp(Message::EnterControl { edge: cfg.switch_edge.clone() }));
    let (x, y) = lock_point(cfg, w, h);
    r.push(Action::SetCursor(x, y));
    match send_initial_push(cfg) {
        Some(m) => r.push(Action::SendUdp(m)),
        None => {},
    }
    assert(r@ =~= enter_actions(*cfg, w as int, h as int));
    r
}

/// The effects of taking control back, in order.
pub fn return_control(cfg: &Config, w: i32, h: i32) -> (r: Vec<Action>)
    requires
        safe_point_fits(edge_named(cfg.switch_edge@), w as int, h as int),
    ensures
        r@ == return_actions(*cfg, w as int, h as int),
{
    let mut r: Vec<Action> = Vec::new();
    r.push(Action::SetRemoteMode(false));
    r.push(Action::ReleaseClip);
    r.push(Action::SendUdp(Message::ReturnControl));
    let (x, y) = safe_point(cfg, w, h);
    r.push(Action::SetCursor(x, y));
    assert(r@ =~= return_actions(*cfg, w as int, h as int));
    r
}

/// Whether the switch cooldown has passed, `elapsed_ns` nanoseconds after
/// the last switch: strictly more than `SWITCH_COOLDOWN_MS` milliseconds.
pub fn cooldown_elapsed(elapsed_ns: u64) -> (r: bool)
    ensures
        r == (elapsed_ns > SWITCH_COOLDOWN_MS * NANOS_PER_MS),
{
    elapsed_ns > SWITCH_COOLDOWN_MS * NANOS_PER_MS
}

/// What one tick of the switch loop observed.
#[derive(Debug, Clone, Copy, PartialEq, Eq)]
pub struct SwitchInput {
    /// The peer answers.
    pub connected: bool,
    /// The peer has control now.
    pub already_remote: bool,
    /// The disconnect hotkey is held.
    pub disconnect_pressed: bool,
    /// The switch hotkey is held.
    pub switch_pressed: bool,
    /// More than `SWITCH_COOLDOWN_MS` passed since the last switch, as
    /// `cooldown_elapsed` tells.
    pub cooldown_elapsed: bool,
    /// The cursor position, if it could be read.
    pub cursor: Option<(i32, i32)>,
    /// Screen width.
    pub width: i32,
    /// Screen height.
    pub height: i32,
}

/// What one tick of the switch loop decided.
#[derive(Debug, Clone, PartialEq, Eq)]
pub struct SwitchStep {
    /// Effects to carry out, in order.
    pub actions: Vec<Action>,
    /// Whether the cooldown starts again now.
    pub restart_cooldown: bool,
    /// Milliseconds to wait before the next tick.
    pub pause_ms: u64,
}

/// Whether the switch loop's tick hands the cursor over because it reached
/// the edge.
pub open spec fn edge_switch(cfg: Config, i: SwitchInput) -> bool {
    &&& !i.already_remote
    &&& i.cooldown_elapsed
    &&& match i.cursor {
        Some((x, y)) => edge_reached(
            edge_named(cfg.switch_edge@),
            x as int,
            y as int,
            i.width as int,
            i.height as int,
        ),
        None => false,
    }
}

/// One tick of the switch loop: the effects, whether the cooldown restarts,
/// and the pause before the next tick.
pub open spec fn switch_plan(cfg: Config, i: SwitchInput) -> (Seq<Action>, bool, u64) {
    let (w, h) = (i.width as int, i.height as int);
    if !i.connected {
        (seq![Action::ReleaseClip], false, 80)
    } else if i.disconnect_pressed && i.cooldown_elapsed {
        (return_actions(cfg, w, h), true, 70)
    } else if i.switch_pressed && i.cooldown_elapsed {
        if i.already_remote {
            (return_actions(cfg, w, h), true, 70)
        } else {
            (enter_actions(cfg, w, h), true, 70)
        }
    } else if edge_switch(cfg, i) {
        (enter_actions(cfg, w, h), true, 70)
    } else {
        (Seq::empty(), false, 6)
    }
}

/// The tick computes its points and edge test without overflow.
pub open spec fn switch_fits(cfg: Config, i: SwitchInput) -> bool {
    let edge = edge_named(cfg.switch_edge@);
    let (w, h) = (i.width as int, i.height as int);
    if !i.connected {
        true
    } else if i.disconnect_pressed && i.cooldown_elapsed {
        safe_point_fits(edge, w, h)
    } else if i.switch_pressed && i.cooldown_elapsed {
        if i.already_remote {
            safe_point_fits(edge, w, h)
        } else {
            lock_point_fits(edge, w, h)
        }
    } else if !i.already_remote && i.cooldown_elapsed && i.cursor is Some {
        edge_test_fits(edge, w, h) && (edge_switch(cfg, i) ==> lock_point_fits(edge, w, h))
    } else {
        true
    }
}

/// The lock point, computed in a wider type that cannot overflow.
pub fn lock_point_wide(edge: Edge, w: i32, h: i32) -> (r: (i64, i64))
    ensures
        (r.0 as int, r.1 as int) == lock_point_of(edge, w as int, h as int),
{
    let w = w as i64;
    let h = h as i64;
    match edge {
        Edge::Right => (w - 80, h / 2),
        Edge::Left => (80, h / 2),
        Edge::Top => (w / 2, 32),
        Edge::Bottom => (w / 2, h - 32),
        Edge::Other => (w / 2, h / 2),
    }
}

/// Whether the lock point can be computed without overflow.
pub fn lock_point_in_range(edge: Edge, w: i32, h: i32) -> (r: bool)
    ensures
        r == lock_point_fits(edge, w as int, h as int),
{
    match edge {
        Edge::Right => (w as i64) - 80 >= i32::MIN as i64,
        Edge::Bottom => (h as i64) - 32 >= i32::MIN as i64,
        _ => true,
    }
}

/// Whether the safe point can be computed without overflow.
fn safe_point_in_range(edge: Edge, w: i32, h: i32) -> (r: bool)
    ensures
        r == safe_point_fits(edge, w as int, h as int),
{
    match edge {
        Edge::Right => (w as i64) - 220 >= i32::MIN as i64,
        Edge::Bottom => (h as i64) - 180 >= i32::MIN as i64,
        _ => true,
    }
}

/// Whether a cursor at `(x, y)` has reached the edge, computed in a wider
/// type that cannot overflow.
fn edge_reached_wide(edge: Edge, x: i32, y: i32, w: i32, h: i32) -> (r: bool)
    ensures
        r == edge_reached(edge, x as int, y as int, w as int, h as int),
{
    match edge {
        Edge::Right => (x as i64) >= (w as i64) - 10,
        Edge::Left => x <= HORIZONTAL_EDGE,
        Edge::Top => y <= TOP_EDGE,
        Edge::Bottom => (y as i64) >= (h as i64) - 14,
        Edge::Other => false,
    }
}

/// Whether `cursor_switch_step` computes its points and edge test without
/// overflow on this input (its precondition).
pub fn switch_step_in_range(cfg: &Config, input: &SwitchInput) -> (r: bool)
    ensures
        r == switch_fits(*cfg, *input),
{
    let edge = edge_of(cfg.switch_edge.as_str());
    let w = input.width;
    let h = input.height;
    if !input.connected {
        true
    } else if input.disconnect_pressed && input.cooldown_elapsed {
        safe_point_in_range(edge, w, h)
    } else if input.switch_pressed && input.cooldown_elapsed {
        if input.already_remote {
            safe_point_in_range(edge, w, h)
        } else {
            lock_point_in_range(edge, w, h)
        }
    } else if !input.already_remote && input.cooldown_elapsed {
        match input.cursor {
            Some((x, y)) => {
                let test_ok = match edge {
                    Edge::Right => (w as i64) - 10 >= i32::MIN as i64,
                    Edge::Bottom => (h as i64) - 14 >= i32::MIN as i64,
                    _ => true,
                };
                test_ok && (!edge_reached_wide(edge, x, y, w, h) || lock_point_in_range(edge, w, h))
            },
            None => true,
        }
    } else {
        true
    }
}

/// One tick of the loop that hands the cursor to the peer and takes it
/// back. The disconnect hotkey wins over the switch hotkey; both, and the
/// edge, act only once the cooldown has passed; the edge only while this
/// machine has control.
pub fn cursor_switch_step(cfg: &Config, input: &SwitchInput) -> (r: SwitchStep)
    requires
        switch_fits(*cfg, *input),
    ensures
        (r.actions@, r.restart_cooldown, r.pause_ms) == switch_plan(*cfg, *input),
{
    let w = input.width;
    let h = input.height;
    if !input.connected {
        let mut actions: Vec<Action> = Vec::new();
        actions.push(Action::ReleaseClip);
        assert(actions@ =~= seq![Action::ReleaseClip]);
        return SwitchStep { actions, restart_cooldown: false, pause_ms: 80 };
    }
    if input.disconnect_pressed && input.cooldown_elapsed {
        return SwitchStep { actions: return_control(cfg, w, h), restart_cooldown: true, pause_ms: 70 };
    }
    if input.switch_pressed && input.cooldown_elapsed {
        let actions = if input.already_remote {
            return_control(cfg, w, h)
        } else {
            enter_remote_mode(cfg, w, h)
        };
        return SwitchStep { actions, restart_cooldown: true, pause_ms: 70 };
    }
    if !input.already_remote && input.cooldown_elapsed {
        match input.cursor {
            Some((x, y)) => {
                if edge_triggered(cfg, x, y, w, h) {
                    return SwitchStep {
                        actions: enter_remote_mode(cfg, w, h),
                        restart_cooldown: true,
                        pause_ms: 70,
                    };
                }
            },
            None => {},
        }
    }
    let actions: Vec<Action> = Vec::new();
    assert(actions@ =~= Seq::<Action>::empty());
    SwitchStep { actions, restart_cooldown: false, pause_ms: 6 }
}

/// Before the cooldown has passed the loop neither hands the cursor over
/// nor takes it back: it at most frees the cursor of a lost link.
pub proof fn switch_respects_cooldown(cfg: Config, i: SwitchInput)
    requires
        !i.cooldown_elapsed,
    ensures
        !switch_plan(cfg, i).1,
        switch_plan(cfg, i).0 == Seq::<Action>::empty() || switch_plan(cfg, i).0 == seq![
            Action::ReleaseClip,
        ],
{
}

/// The disconnect hotkey, once the cooldown has passed, always takes
/// control back, whatever else is held and wherever the cursor is.
pub proof fn disconnect_hotkey_returns_control(cfg: Config, i: SwitchInput)
    requires
        i.connected,
        i.disconnect_pressed,
        i.cooldown_elapsed,
    ensures
        switch_plan(cfg, i).0 == return_actions(cfg, i.width as int, i.height as int),
        switch_plan(cfg, i).0[0] == Action::SetRemoteMode(false),
{
}

/// With the link up and the disconnect hotkey not acting, the switch
/// hotkey toggles control once the cooldown has passed: it takes control
/// back while the peer has it and hands it over otherwise.
pub proof fn switch_hotkey_toggles_control(cfg: Config, i: SwitchInput)
    requires
        i.connected,
        !i.disconnect_pressed,
        i.switch_pressed,
        i.cooldown_elapsed,
    ensures
        switch_plan(cfg, i).0 == (if i.already_remote {
            return_actions(cfg, i.width as int, i.height as int)
        } else {
            enter_actions(cfg, i.width as int, i.height as int)
        }),
        switch_plan(cfg, i).1,
        i.already_remote ==> switch_plan(cfg, i).0[0] == Action::SetRemoteMode(false),
        !i.already_remote ==> switch_plan(cfg, i).0[0] == Action::SetRemoteMode(true) && switch_plan(
            cfg,
            i,
        ).0[1] == Action::SendUdp(Message::EnterControl { edge: cfg.switch_edge }),
{
}

/// Without a hotkey acting, control is handed over only by the edge, only
/// while this machine has control and the cooldown has passed; otherwise
/// the tick does nothing.
pub proof fn edge_hands_over_only_while_local(cfg: Config, i: SwitchInput)
    requires
        i.connected,
        !(i.disconnect_pressed && i.cooldown_elapsed),
        !(i.switch_pressed && i.cooldown_elapsed),
    ensures
        edge_switch(cfg, i) ==> !i.already_remote && i.cooldown_elapsed && switch_plan(cfg, i).0
            == enter_actions(cfg, i.width as int, i.height as int),
        !edge_switch(cfg, i) ==> switch_plan(cfg, i).0 == Seq::<Action>::empty() && !switch_plan(
            cfg,
            i,
        ).1,
{
}

/// The point where the cursor is parked never triggers a switch itself,
/// so parking it does not bounce control straight back.
pub proof fn lock_point_is_off_edge(edge: Edge, w: int, h: int)
    ensures
        !edge_reached(edge, lock_point_of(edge, w, h).0, lock_point_of(edge, w, h).1, w, h),
{
}

/// The point the cursor returns to never triggers a switch either.
pub proof fn safe_point_is_off_edge(edge: Edge, w: int, h: int)
    ensures
        !edge_reached(edge, safe_point_of(edge, w, h).0, safe_point_of(edge, w, h).1, w, h),
{
}

/// Which ticks of a run of the switch loop switch control, restarting the
/// cooldown: tick `k` used configuration `cfgs[k]` and observed `ins[k]`.
pub open spec fn switch_restarts(cfgs: Seq<Config>, ins: Seq<SwitchInput>) -> Seq<bool> {
    Seq::new(ins.len(), |k: int| switch_plan(cfgs[k], ins[k]).1)
}

/// A run of the switch loop with its clock: tick `k` used `cfgs[k]`,
/// observed `ins[k]`, read the clock at `reads[k]` and, if it switched,
/// restarted the cooldown at `restarts[k]`; each tick's cooldown flag is
/// `cooldown_elapsed` of the time since the cooldown last restarted, the
/// loop's start counting as a restart.
pub open spec fn timed_switch_run(
    cfgs: Seq<Config>,
    ins: Seq<SwitchInput>,
    reads: Seq<int>,
    restarts: Seq<int>,
) -> bool {
    &&& cfgs.len() == ins.len()
    &&& reads.len() == ins.len()
    &&& clock_ordered(reads, restarts)
    &&& forall|k: int|
        0 <= k < ins.len() ==> (#[trigger] ins[k]).cooldown_elapsed == (reads[k] - timer_start(
            switch_restarts(cfgs, ins),
            restarts,
            k,
        ) > SWITCH_COOLDOWN_MS * NANOS_PER_MS)
}

/// Switches of control are spaced by the cooldown: a tick that hands the
/// cursor over or takes it back reads the clock more than
/// `SWITCH_COOLDOWN_MS` after the loop started and more than that after
/// every earlier tick that switched.
pub proof fn switches_are_cooldown_apart(
    cfgs: Seq<Config>,
    ins: Seq<SwitchInput>,
    reads: Seq<int>,
    restarts: Seq<int>,
    k: int,
)
    requires
        timed_switch_run(cfgs, ins, reads, restarts),
        0 <= k < ins.len(),
        switch_plan(cfgs[k], ins[k]).1,
    ensures
        reads[k] > SWITCH_COOLDOWN_MS * NANOS_PER_MS,
        forall|j: int|
            0 <= j < k && #[trigger] switch_plan(cfgs[j], ins[j]).1 ==> reads[k] - reads[j]
                > SWITCH_COOLDOWN_MS * NANOS_PER_MS,
{
    let fired = switch_restarts(cfgs, ins);
    assert(ins[k].cooldown_elapsed);
    lemma_timer_start_after(fired, reads, restarts, 0, k);
    assert forall|j: int|
        0 <= j < k && #[trigger] switch_plan(cfgs[j], ins[j]).1 implies reads[k] - reads[j]
            > SWITCH_COOLDOWN_MS * NANOS_PER_MS by {
        assert(fired[j]);
        lemma_timer_start_after(fired, reads, restarts, j, k);
    }
}

/// Each edge test reads one coordinate only: the right edge is reached at
/// 10 pixels or less from the right side whatever the height, the left edge
/// at x of 10 or less, the top edge at y of 6 or less whatever the width,
/// the bottom edge at 14 pixels or less from the bottom; an unknown edge is
/// never reached. So moving the cursor along an edge never changes whether
/// it is reached.
pub proof fn edge_test_reads_one_coordinate(x: int, y: int, x2: int, y2: int, w: int, h: int)
    ensures
        edge_reached(Edge::Right, x, y, w, h) == (x >= w - 10),
        edge_reached(Edge::Left, x, y, w, h) == (x <= 10),
        edge_reached(Edge::Top, x, y, w, h) == (y <= 6),
        edge_reached(Edge::Bottom, x, y, w, h) == (y >= h - 14),
        !edge_reached(Edge::Other, x, y, w, h),
        edge_reached(Edge::Right, x, y, w, h) == edge_reached(Edge::Right, x, y2, w, h),
        edge_reached(Edge::Left, x, y, w, h) == edge_reached(Edge::Left, x, y2, w, h),
        edge_reached(Edge::Top, x, y, w, h) == edge_reached(Edge::Top, x2, y, w, h),
        edge_reached(Edge::Bottom, x, y, w, h) == edge_reached(Edge::Bottom, x2, y, w, h),
{
}

/// Edge names: "right", "left", "top" and "bottom" name their edges, and
/// every other text names none.
pub proof fn edge_names(s: Seq<char>)
    ensures
        edge_named("right"@) == Edge::Right,
        edge_named("left"@) == Edge::Left,
        edge_named("top"@) == Edge::Top,
        edge_named("bottom"@) == Edge::Bottom,
        edge_named(s) == Edge::Right <==> s == "right"@,
        edge_named(s) == Edge::Left <==> s == "left"@,
        edge_named(s) == Edge::Top <==> s == "top"@,
        edge_named(s) == Edge::Bottom <==> s == "bottom"@,
{
    reveal_strlit("right");
    reveal_strlit("left");
    reveal_strlit("top");
    reveal_strlit("bottom");
    assert("right"@.len() == 5 && "left"@.len() == 4 && "top"@.len() == 3 && "bottom"@.len() == 6);
    assert("right"@ != "left"@ && "right"@ != "top"@ && "right"@ != "bottom"@ && "left"@ != "top"@
        && "left"@ != "bottom"@ && "top"@ != "bottom"@);
}

/// With the link up, no hotkey acting, this machine in control and the
/// cooldown passed, a cursor that has reached the configured edge hands
/// control over at once, wherever along the edge it is: the tick enters
/// remote mode and restarts the cooldown.
pub proof fn edge_contact_hands_over(cfg: Config, i: SwitchInput, x: i32, y: i32)
    requires
        i.connected,
        !i.disconnect_pressed,
        !i.switch_pressed,
        !i.already_remote,
        i.cooldown_elapsed,
        i.cursor == Some((x, y)),
        edge_named(cfg.switch_edge@) == Edge::Right && x >= i.width - 10 || edge_named(cfg.switch_edge@)
            == Edge::Left && x <= 10 || edge_named(cfg.switch_edge@) == Edge::Top && y <= 6 || edge_named(
            cfg.switch_edge@,
        ) == Edge::Bottom && y >= i.height - 14,
    ensures
        switch_plan(cfg, i).0 == enter_actions(cfg, i.width as int, i.height as int),
        switch_plan(cfg, i).0[0] == Action::SetRemoteMode(true),
        switch_plan(cfg, i).1,
{
}

} // verus!
