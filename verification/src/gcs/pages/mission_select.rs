//! The mission library page: saved missions, then recorded flights, browsed with one
//! selection that runs across both lists.
use vstd::prelude::*;
use crate::gcs::program::NavigationMessage;
use crate::keys::{KeyCode, KeyEvent, KeyEventKind};

verus! {

/// Both lists, named missions of type `M`, and the position of the highlighted entry
/// in the saved missions followed by the recordings.
#[derive(Debug)]
pub struct Model<M> {
    pub missions: Vec<(String, M)>,
    pub recorded_missions: Vec<(String, M)>,
    pub selection: usize,
}

impl<M> Model<M> {
    /// An empty library with the first entry highlighted.
    pub fn new() -> (m: Self)
        ensures
            m.missions@.len() == 0,
            m.recorded_missions@.len() == 0,
            m.selection == 0,
    {
        Model { missions: Vec::new(), recorded_missions: Vec::new(), selection: 0 }
    }

    /// The saved missions followed by the recordings.
    pub open spec fn entries(&self) -> Seq<(String, M)> {
        self.missions@ + self.recorded_missions@
    }

    /// Entry `index` of the saved missions followed by the recordings.
    pub fn entry(&self, index: usize) -> (e: &(String, M))
        requires
            index < self.entries().len(),
        ensures
            *e == self.entries()[index as int],
    {
        if index < self.missions.len() {
            &self.missions[index]
        } else {
            &self.recorded_missions[index - self.missions.len()]
        }
    }
}

#[derive(Debug)]
pub enum Msg<M> {
    LoadMissions,
    MissionsLoaded(Vec<(String, M)>, Vec<(String, M)>),
    Nav(NavigationMessage),
    ExitSelected(M, String),
    ExitPage,
}

/// What the page asks for after a message.
#[derive(Debug, Clone, Copy, PartialEq, Eq)]
pub enum Cmd {
    Nothing,
    /// Leave with entry `i` of the saved missions followed by the recordings.
    Select(usize),
    /// Fetch both lists from the mission store.
    LoadMissions,
}

/// A choice is only made on an entry that exists (and the entries can be counted).
pub open spec fn update_allowed<M>(model: &Model<M>, msg: &Msg<M>) -> bool {
    &&& model.entries().len() <= usize::MAX
    &&& (msg matches Msg::Nav(NavigationMessage::Select) && model.entries().len() > 0)
        ==> model.selection < model.entries().len()
}

/// The page after `msg`, and what it asks for: down moves the highlight one entry down
/// but not past the last, up one entry up but not above the first; a choice leaves with
/// the highlighted entry; with no entries, navigation does nothing. Loaded lists replace
/// the old ones; loading is asked of the caller.
pub open spec fn select_update<M>(old: Model<M>, msg: Msg<M>, new: Model<M>, cmd: Cmd) -> bool {
    let total = old.entries().len();
    let sel = old.selection as int;
    match msg {
        Msg::MissionsLoaded(missions, recorded) => {
            &&& new.missions@ == missions@
            &&& new.recorded_missions@ == recorded@
            &&& new.selection == old.selection
            &&& cmd == Cmd::Nothing
        },
        _ => {
            &&& new.missions@ == old.missions@
            &&& new.recorded_missions@ == old.recorded_missions@
            &&& match msg {
                Msg::Nav(NavigationMessage::Down) => {
                    &&& new.selection == if total > 0 {
                        if sel + 1 <= total - 1 { sel + 1 } else { total - 1 }
                    } else {
                        sel
                    }
                    &&& cmd == Cmd::Nothing
                },
                Msg::Nav(NavigationMessage::Up) => {
                    &&& new.selection == if total > 0 && sel > 0 { sel - 1 } else { sel }
                    &&& cmd == Cmd::Nothing
                },
                Msg::Nav(NavigationMessage::Select) => {
                    &&& new.selection == old.selection
                    &&& cmd == if total > 0 { Cmd::Select(old.selection) } else { Cmd::Nothing }
                },
                Msg::LoadMissions => new.selection == old.selection && cmd == Cmd::LoadMissions,
                _ => new.selection == old.selection && cmd == Cmd::Nothing,
            }
        },
    }
}

/// Handles a message, as `select_update` says.
pub fn update<M>(model: &mut Model<M>, msg: Msg<M>) -> (cmd: Cmd)
    requires
        update_allowed(&*old(model), &msg),
    ensures
        select_update(*old(model), msg, *final(model), cmd),
        // navigation never moves the highlight off the entries
        msg is Nav && old(model).selection < old(model).entries().len() ==> final(model).selection < final(model).entries().len(),
{
    let total_missions = model.missions.len() + model.recorded_missions.len();
    match msg {
        Msg::Nav(NavigationMessage::Down) => {
            if total_missions > 0 {
                model.selection = if model.selection < total_missions - 1 {
                    model.selection + 1
                } else {
                    total_missions - 1
                };
            }
            Cmd::Nothing
        },
        Msg::Nav(NavigationMessage::Up) => {
            if total_missions > 0 && model.selection > 0 {
                model.selection = model.selection - 1;
            }
            Cmd::Nothing
        },
        Msg::Nav(NavigationMessage::Select) => {
            if total_missions > 0 {
                Cmd::Select(model.selection)
            } else {
                Cmd::Nothing
            }
        },
        Msg::MissionsLoaded(missions, recorded_m) => {
            model.missions = missions;
            model.recorded_missions = recorded_m;
            Cmd::Nothing
        },
        Msg::LoadMissions => Cmd::LoadMissions,
        Msg::ExitSelected(_, _) => Cmd::Nothing,
        Msg::ExitPage => Cmd::Nothing,
    }
}

/// What a key asks of the page: `j`/down and `k`/up move, enter chooses, `b` leaves.
pub open spec fn key_message(k: KeyEvent) -> Option<NavOrExit> {
    if k.kind != KeyEventKind::Press {
        None
    } else {
        match k.code {
            KeyCode::Char('j') | KeyCode::Down => Some(NavOrExit::Nav(NavigationMessage::Down)),
            KeyCode::Char('k') | KeyCode::Up => Some(NavOrExit::Nav(NavigationMessage::Up)),
            KeyCode::Enter => Some(NavOrExit::Nav(NavigationMessage::Select)),
            KeyCode::Char('b') => Some(NavOrExit::ExitPage),
            _ => None,
        }
    }
}

/// The messages a key can produce on this page.
#[derive(Debug, Clone, Copy, PartialEq, Eq)]
pub enum NavOrExit {
    Nav(NavigationMessage),
    ExitPage,
}

/// The page message `n` stands for.
pub open spec fn page_msg<M>(n: NavOrExit) -> Msg<M> {
    match n {
        NavOrExit::Nav(nav) => Msg::Nav(nav),
        NavOrExit::ExitPage => Msg::ExitPage,
    }
}

impl NavOrExit {
    /// The page message this stands for.
    pub fn to_msg<M>(self) -> (m: Msg<M>)
        ensures
            m == page_msg::<M>(self),
    {
        match self {
            NavOrExit::Nav(n) => Msg::Nav(n),
            NavOrExit::ExitPage => Msg::ExitPage,
        }
    }
}

pub fn map_key_evt<M>(k: KeyEvent, _s: &Model<M>) -> (cmd: Option<NavOrExit>)
    ensures
        cmd == key_message(k),
{
    if !k.is_press() {
        return None;
    }
    match k.code {
        KeyCode::Char('j') | KeyCode::Down => Some(NavOrExit::Nav(NavigationMessage::Down)),
        KeyCode::Char('k') | KeyCode::Up => Some(NavOrExit::Nav(NavigationMessage::Up)),
        KeyCode::Enter => Some(NavOrExit::Nav(NavigationMessage::Select)),
        KeyCode::Char('b') => Some(NavOrExit::ExitPage),
        _ => None,
    }
}

} // verus!
