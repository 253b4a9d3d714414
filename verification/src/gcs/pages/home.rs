//! The home page: a menu of three modes, walked round in a circle.
use vstd::prelude::*;
use crate::gcs::program::NavigationMessage;
use crate::keys::{KeyCode, KeyEvent};

verus! {

#[derive(Debug)]
pub struct Model {
    pub selected_mode: ModeSelection,
}

#[derive(Debug, Clone, Copy, PartialEq, Eq)]
pub enum ModeSelection {
    MissionSelect,
    MissionPlan,
    ManualControl,
}

/// The position of a mode in the menu, from the top.
pub open spec fn mode_index(m: ModeSelection) -> int {
    match m {
        ModeSelection::MissionSelect => 0,
        ModeSelection::MissionPlan => 1,
        ModeSelection::ManualControl => 2,
    }
}

/// The mode below `m`, the last wrapping round to the first.
pub open spec fn next_mode(m: ModeSelection) -> ModeSelection {
    match m {
        ModeSelection::MissionSelect => ModeSelection::MissionPlan,
        ModeSelection::MissionPlan => ModeSelection::ManualControl,
        ModeSelection::ManualControl => ModeSelection::MissionSelect,
    }
}

/// The mode above `m`, the first wrapping round to the last.
pub open spec fn prev_mode(m: ModeSelection) -> ModeSelection {
    match m {
        ModeSelection::MissionSelect => ModeSelection::ManualControl,
        ModeSelection::MissionPlan => ModeSelection::MissionSelect,
        ModeSelection::ManualControl => ModeSelection::MissionPlan,
    }
}

impl ModeSelection {
    /// The mode below this one, the last wrapping round to the first.
    pub fn next(&self) -> (n: Self)
        ensures
            n == next_mode(*self),
            mode_index(n) == (mode_index(*self) + 1) % 3,
    {
        match self {
            ModeSelection::MissionSelect => ModeSelection::MissionPlan,
            ModeSelection::MissionPlan => ModeSelection::ManualControl,
            ModeSelection::ManualControl => ModeSelection::MissionSelect,
        }
    }

    /// The mode above this one, the first wrapping round to the last.
    pub fn prev(&self) -> (p: Self)
        ensures
            p == prev_mode(*self),
            mode_index(p) == (mode_index(*self) + 2) % 3,
    {
        match self {
            ModeSelection::MissionSelect => ModeSelection::ManualControl,
            ModeSelection::MissionPlan => ModeSelection::MissionSelect,
            ModeSelection::ManualControl => ModeSelection::MissionPlan,
        }
    }
}

/// The menu position determines the mode.
pub proof fn lemma_mode_index_injective(a: ModeSelection, b: ModeSelection)
    ensures
        mode_index(a) == mode_index(b) <==> a == b,
        0 <= mode_index(a) < 3,
{
}

/// Going down then up, or up then down, comes back to the same mode; three steps the
/// same way come round to it too.
pub proof fn lemma_next_prev_inverse(m: ModeSelection)
    ensures
        prev_mode(next_mode(m)) == m,
        next_mode(prev_mode(m)) == m,
        next_mode(next_mode(next_mode(m))) == m,
        prev_mode(prev_mode(prev_mode(m))) == m,
{
}

#[derive(Debug, Clone, Copy, PartialEq, Eq)]
pub enum Msg {
    Nav(NavigationMessage),
}

/// The mode after one navigation message: up and down move round the menu, a choice
/// leaves the page to the caller and the mode as it is.
pub open spec fn nav_step(m: ModeSelection, msg: Msg) -> ModeSelection {
    match msg {
        Msg::Nav(NavigationMessage::Up) => prev_mode(m),
        Msg::Nav(NavigationMessage::Down) => next_mode(m),
        Msg::Nav(NavigationMessage::Select) => m,
    }
}

/// Handles a message; the page never asks for follow-up work.
pub fn update(model: &mut Model, msg: Msg) -> (cmd: Option<Msg>)
    ensures
        final(model).selected_mode == nav_step(old(model).selected_mode, msg),
        cmd is None,
{
    match msg {
        Msg::Nav(NavigationMessage::Up) => {
            model.selected_mode = model.selected_mode.prev();
            None
        },
        Msg::Nav(NavigationMessage::Down) => {
            model.selected_mode = model.selected_mode.next();
            None
        },
        Msg::Nav(NavigationMessage::Select) => None,
    }
}

/// The mode after a run of messages.
pub open spec fn nav_run(m: ModeSelection, msgs: Seq<Msg>) -> ModeSelection
    decreases msgs.len(),
{
    if msgs.len() == 0 {
        m
    } else {
        nav_step(nav_run(m, msgs.drop_last()), msgs.last())
    }
}

/// Downs minus ups in a run of messages.
pub open spec fn net_moves(msgs: Seq<Msg>) -> int
    decreases msgs.len(),
{
    if msgs.len() == 0 {
        0
    } else {
        net_moves(msgs.drop_last()) + match msgs.last() {
            Msg::Nav(NavigationMessage::Up) => -1int,
            Msg::Nav(NavigationMessage::Down) => 1int,
            Msg::Nav(NavigationMessage::Select) => 0int,
        }
    }
}

/// After any run of messages the menu position is the start position plus the downs
/// minus the ups, counted round the three modes.
pub proof fn lemma_nav_run(m: ModeSelection, msgs: Seq<Msg>)
    ensures
        mode_index(nav_run(m, msgs)) == (mode_index(m) + net_moves(msgs)) % 3,
    decreases msgs.len(),
{
    if msgs.len() > 0 {
        lemma_nav_run(m, msgs.drop_last());
        let before = nav_run(m, msgs.drop_last());
        let k = mode_index(m) + net_moves(msgs.drop_last());
        assert(mode_index(before) == k % 3);
        match msgs.last() {
            Msg::Nav(NavigationMessage::Up) => {
                assert((k % 3 + 2) % 3 == (k - 1) % 3) by (nonlinear_arith);
            },
            Msg::Nav(NavigationMessage::Down) => {
                assert((k % 3 + 1) % 3 == (k + 1) % 3) by (nonlinear_arith);
            },
            Msg::Nav(NavigationMessage::Select) => {},
        }
    }
}

/// What a pressed key asks of the menu: down arrow or `j` moves down, up arrow or `k`
/// moves up, enter chooses.
pub open spec fn key_message(k: KeyEvent) -> Option<Msg> {
    if k.kind != crate::keys::KeyEventKind::Press {
        None
    } else {
        match k.code {
            KeyCode::Char('j') | KeyCode::Down => Some(Msg::Nav(NavigationMessage::Down)),
            KeyCode::Char('k') | KeyCode::Up => Some(Msg::Nav(NavigationMessage::Up)),
            KeyCode::Enter => Some(Msg::Nav(NavigationMessage::Select)),
            _ => None,
        }
    }
}

/// The message a key sends to the menu, as `key_message` says.
pub fn map_key_evt(k: KeyEvent, _s: &Model) -> (cmd: Option<Msg>)
    ensures
        cmd == key_message(k),
{
    if !k.is_press() {
        return None;
    }
    match k.code {
        KeyCode::Char('j') | KeyCode::Down => Some(Msg::Nav(NavigationMessage::Down)),
        KeyCode::Char('k') | KeyCode::Up => Some(Msg::Nav(NavigationMessage::Up)),
        KeyCode::Enter => Some(Msg::Nav(NavigationMessage::Select)),
        _ => None,
    }
}

} // verus!
