//! Page routing of the ground-control station: which page is shown, and where each
//! message and key goes.
use vstd::prelude::*;
use crate::datalink::domain_types::{BatteryLevel, Cell, MissionItem, Telemetry, VehicleHealth};
use crate::drone_commander::model::SetpointRecording;
use crate::gcs::pages::{home, mission_monitor, mission_select};
use crate::keys::{KeyCode, KeyEvent, KeyEventKind};

verus! {

/// Moving through a list of choices, or choosing the highlighted one.
#[derive(Debug, Clone, Copy, PartialEq, Eq)]
pub enum NavigationMessage {
    Up,
    Down,
    Select,
}

/// What the station shows and remembers: the latest telemetry, health and occupancy
/// map, whether the terminal reports key releases, whether to quit, and the page.
#[derive(Debug)]
pub struct Model<F> {
    pub telemetry: Telemetry<F>,
    pub health: VehicleHealth,
    pub grid: Vec<Vec<Cell<F>>>,
    pub terminal_supports_enhancements: bool,
    pub exit: bool,
    pub state: State<F>,
}

/// The page shown.
#[derive(Debug)]
pub enum State<F> {
    Home(home::Model),
    /// Watching one mission.
    MissionExecution(mission_monitor::Model<F>),
    /// The mission library.
    MissionSelect(mission_select::Model<Vec<MissionItem<F>>>),
    /// Flying by hand.
    ManualControl(ManualControlState<F>),
}

/// What the station keeps of the manual-control page: whether it records the flight,
/// and the positions recorded so far.
#[derive(Debug)]
pub struct ManualControlState<F> {
    pub is_recording: bool,
    pub recording: Vec<SetpointRecording<F>>,
}

impl<F> ManualControlState<F> {
    /// A page that has recorded nothing and is not recording.
    pub fn new() -> (s: Self)
        ensures
            !s.is_recording,
            s.recording@.len() == 0,
    {
        ManualControlState { is_recording: false, recording: Vec::new() }
    }
}

/// The messages of the manual-control page that the station itself handles or routes.
#[derive(Debug, Clone, Copy, PartialEq, Eq)]
pub enum ManualControlMsg {
    /// Manual flight has ended, or a command was handed to it.
    CommandSet,
    /// Leave the page.
    ExitPage,
}

/// The position recorded from a telemetry sample.
pub open spec fn recorded_position<F>(t: Telemetry<F>) -> SetpointRecording<F> {
    SetpointRecording { x: t.x, y: t.y, z: t.z, yaw_degrees: t.yaw_degrees }
}

/// The home page, with the first mode highlighted.
pub open spec fn home_state<F>() -> State<F> {
    State::Home(home::Model { selected_mode: home::ModeSelection::MissionSelect })
}

impl<F> State<F> {
    pub fn home() -> (s: Self)
        ensures
            s == home_state::<F>(),
    {
        State::Home(home::Model { selected_mode: home::ModeSelection::MissionSelect })
    }
}

impl<F> Model<F> {
    /// The start of the program: on the home page, battery reported high, an empty map,
    /// not leaving.
    pub fn new(telemetry: Telemetry<F>, terminal_supports_enhancements: bool) -> (m: Self)
        ensures
            m.telemetry == telemetry,
            m.health == (VehicleHealth { battery_level: BatteryLevel::High }),
            m.grid@.len() == 1,
            m.grid@[0]@.len() == 0,
            m.terminal_supports_enhancements == terminal_supports_enhancements,
            !m.exit,
            m.state == home_state::<F>(),
    {
        let mut grid: Vec<Vec<Cell<F>>> = Vec::new();
        grid.push(Vec::new());
        Model {
            telemetry,
            health: VehicleHealth { battery_level: BatteryLevel::High },
            grid,
            terminal_supports_enhancements,
            exit: false,
            state: State::home(),
        }
    }
}

#[derive(Debug)]
pub enum Msg<F> {
    TelemetryUpdate(Telemetry<F>),
    HealthUpdate(VehicleHealth),
    GridUpdate(Vec<Vec<Cell<F>>>),
    Key(KeyEvent),
    Resize,
    Quit,
    Home(home::Msg),
    MissionSelect(mission_select::Msg<Vec<MissionItem<F>>>),
    MissionExecution(mission_monitor::Msg<F>),
    ManualControl(ManualControlMsg),
}

/// The work an update asks for: a message to feed back in, or the work a page asked for.
#[derive(Debug)]
pub enum Cmd<F> {
    Nothing,
    Dispatch(Msg<F>),
    MissionSelect(mission_select::Cmd),
    MissionExecution(mission_monitor::Cmd),
    /// Open a fresh channel of motion commands for the manual-control page and fly by hand
    /// with it; answer `ManualControl(CommandSet)` when the flight ends.
    ManualControl,
}

/// What a key asks for on the page shown: escape or `q` quit, so does Control-`c`;
/// any other key goes to the page (the manual-control page maps none of its own here).
pub open spec fn key_cmd<F>(k: KeyEvent, state: State<F>) -> Cmd<F> {
    let press = k.kind == KeyEventKind::Press;
    if press && (k.code == KeyCode::Esc || k.code == KeyCode::Char('q')) {
        Cmd::Dispatch(Msg::Quit)
    } else if press && k.control_only && (k.code == KeyCode::Char('c') || k.code == KeyCode::Char('C')) {
        Cmd::Dispatch(Msg::Quit)
    } else {
        match state {
            State::MissionSelect(_) => match mission_select::key_message(k) {
                Some(n) => Cmd::Dispatch(Msg::MissionSelect(mission_select::page_msg(n))),
                None => Cmd::Nothing,
            },
            State::Home(_) => match home::key_message(k) {
                Some(h) => Cmd::Dispatch(Msg::Home(h)),
                None => Cmd::Nothing,
            },
            State::MissionExecution(s) => match mission_monitor::key_message::<F>(k, s.mission_status) {
                Some(me) => Cmd::Dispatch(Msg::MissionExecution(me)),
                None => Cmd::Nothing,
            },
            State::ManualControl(_) => Cmd::Nothing,
        }
    }
}

/// The work a key asks for on the page shown, as `key_cmd` says.
pub fn update_key_evt<F>(key_event: KeyEvent, model: &Model<F>) -> (cmd: Cmd<F>)
    ensures
        cmd == key_cmd(key_event, model.state),
        // escape and `q` quit from every page
        key_event.kind == KeyEventKind::Press && (key_event.code == KeyCode::Esc || key_event.code == KeyCode::Char('q'))
            ==> cmd matches Cmd::Dispatch(Msg::Quit),
{
    let press = key_event.is_press();
    if press && matches!(key_event.code, KeyCode::Esc | KeyCode::Char('q')) {
        return Cmd::Dispatch(Msg::Quit);
    }
    if press && key_event.control_only && matches!(key_event.code, KeyCode::Char('c') | KeyCode::Char('C')) {
        return Cmd::Dispatch(Msg::Quit);
    }
    match &model.state {
        State::MissionSelect(s) => match mission_select::map_key_evt(key_event, s) {
            Some(n) => Cmd::Dispatch(Msg::MissionSelect(n.to_msg())),
            None => Cmd::Nothing,
        },
        State::Home(s) => match home::map_key_evt(key_event, s) {
            Some(h) => Cmd::Dispatch(Msg::Home(h)),
            None => Cmd::Nothing,
        },
        State::MissionExecution(s) => match mission_monitor::map_key_evt(key_event, s) {
            Some(me) => Cmd::Dispatch(Msg::MissionExecution(me)),
            None => Cmd::Nothing,
        },
        State::ManualControl(_) => Cmd::Nothing,
    }
}

/// Everything but the page is as it was.
pub open spec fn same_frame<F>(old: Model<F>, new: Model<F>) -> bool {
    &&& new.telemetry == old.telemetry
    &&& new.health == old.health
    &&& new.grid == old.grid
    &&& new.terminal_supports_enhancements == old.terminal_supports_enhancements
    &&& new.exit == old.exit
}

/// The message can be taken: a choice in the mission library only on an entry that
/// exists.
pub open spec fn update_allowed<F>(msg: Msg<F>, m: Model<F>) -> bool {
    match (msg, m.state) {
        (Msg::MissionSelect(mm), State::MissionSelect(s)) => mm is ExitSelected || mm is ExitPage
            || mission_select::update_allowed(&s, &mm),
        _ => true,
    }
}

/// Handles one message of the station. The latest telemetry, health and map are kept,
/// and telemetry is recorded while the manual-control page records; keys become work by
/// `key_cmd`; quitting sets the exit flag. Choosing on the home page opens the mission
/// library (and asks it to load) or, when the terminal reports key releases, opens the
/// manual-control page and asks to fly; leaving the library with a mission opens its
/// page; leaving a page goes home. Any other message goes to the page it is for, if
/// that page is shown, and is dropped otherwise.
pub fn update<F: Copy>(msg: Msg<F>, m: Model<F>) -> (r: (Model<F>, Cmd<F>))
    requires
        update_allowed(msg, m),
    ensures
        ({
            let new = r.0;
            let cmd = r.1;
            match msg {
                Msg::TelemetryUpdate(t) => {
                    &&& new.telemetry == t
                    &&& new.health == m.health && new.grid == m.grid
                    &&& new.exit == m.exit && new.terminal_supports_enhancements == m.terminal_supports_enhancements
                    &&& cmd is Nothing
                    &&& match m.state {
                        State::ManualControl(ms) => new.state matches State::ManualControl(ns) && {
                            &&& ns.is_recording == ms.is_recording
                            &&& ns.recording@ == if ms.is_recording {
                                ms.recording@.push(recorded_position(t))
                            } else {
                                ms.recording@
                            }
                        },
                        _ => new.state == m.state,
                    }
                },
                Msg::HealthUpdate(h) => {
                    &&& new.health == h
                    &&& new.telemetry == m.telemetry && new.grid == m.grid && new.state == m.state
                    &&& new.exit == m.exit && new.terminal_supports_enhancements == m.terminal_supports_enhancements
                    &&& cmd is Nothing
                },
                Msg::GridUpdate(g) => {
                    &&& new.grid == g
                    &&& new.telemetry == m.telemetry && new.health == m.health && new.state == m.state
                    &&& new.exit == m.exit && new.terminal_supports_enhancements == m.terminal_supports_enhancements
                    &&& cmd is Nothing
                },
                Msg::Key(k) => new == m && cmd == key_cmd(k, m.state),
                Msg::Resize => new == m && cmd is Nothing,
                Msg::Quit => {
                    &&& new.exit
                    &&& new.telemetry == m.telemetry && new.health == m.health && new.grid == m.grid
                    &&& new.terminal_supports_enhancements == m.terminal_supports_enhancements
                    &&& new.state == m.state
                    &&& cmd is Nothing
                },
                Msg::Home(hm) => same_frame(m, new) && match m.state {
                    State::Home(h) => if hm == home::Msg::Nav(NavigationMessage::Select) {
                        match h.selected_mode {
                            home::ModeSelection::MissionSelect => {
                                &&& new.state matches State::MissionSelect(s) && s.missions@.len() == 0
                                    && s.recorded_missions@.len() == 0 && s.selection == 0
                                &&& cmd matches Cmd::Dispatch(Msg::MissionSelect(mission_select::Msg::LoadMissions))
                            },
                            home::ModeSelection::ManualControl => if m.terminal_supports_enhancements {
                                &&& new.state matches State::ManualControl(ns) && !ns.is_recording
                                    && ns.recording@.len() == 0
                                &&& cmd is ManualControl
                            } else {
                                new.state == m.state && cmd is Nothing
                            },
                            home::ModeSelection::MissionPlan => new.state == m.state && cmd is Nothing,
                        }
                    } else {
                        &&& new.state matches State::Home(nh) && nh.selected_mode == home::nav_step(h.selected_mode, hm)
                        &&& cmd is Nothing
                    },
                    _ => new.state == m.state && cmd is Nothing,
                },
                Msg::MissionSelect(mission_select::Msg::ExitSelected(mission, name)) => {
                    &&& same_frame(m, new)
                    &&& new.state matches State::MissionExecution(s) && s.mission@ == mission@ && s.name@ == name@
                        && s.mission_status is Idle && s.link_mode == mission_monitor::ExecutionMode::Online
                    &&& cmd is Nothing
                },
                Msg::MissionSelect(mission_select::Msg::ExitPage)
                | Msg::MissionExecution(mission_monitor::Msg::ExitPage)
                | Msg::ManualControl(ManualControlMsg::ExitPage) => {
                    &&& same_frame(m, new)
                    &&& new.state == home_state::<F>()
                    &&& cmd is Nothing
                },
                Msg::MissionSelect(mm) => same_frame(m, new) && match m.state {
                    State::MissionSelect(s) => new.state matches State::MissionSelect(ns)
                        && cmd matches Cmd::MissionSelect(c) && mission_select::select_update(s, mm, ns, c),
                    _ => new.state == m.state && cmd is Nothing,
                },
                Msg::MissionExecution(me) => same_frame(m, new) && match m.state {
                    State::MissionExecution(s) => new.state matches State::MissionExecution(ns)
                        && cmd matches Cmd::MissionExecution(c) && mission_monitor::monitor_update(s, me, ns, c),
                    _ => new.state == m.state && cmd is Nothing,
                },
                Msg::ManualControl(_) => same_frame(m, new) && new.state == m.state && cmd is Nothing,
            }
        }),
        // once asked to quit, the station stays asked to
        m.exit ==> r.0.exit,
        // manual control is only asked for where the terminal reports key releases
        r.1 is ManualControl ==> m.terminal_supports_enhancements,
{
    let mut model = m;
    match msg {
        Msg::GridUpdate(grid) => {
            model.grid = grid;
            (model, Cmd::Nothing)
        },
        Msg::TelemetryUpdate(tele) => {
            match &mut model.state {
                State::ManualControl(flight_state) => {
                    if flight_state.is_recording {
                        flight_state.recording.push(
                            SetpointRecording { x: tele.x, y: tele.y, z: tele.z, yaw_degrees: tele.yaw_degrees },
                        );
                    }
                },
                _ => {},
            }
            model.telemetry = tele;
            (model, Cmd::Nothing)
        },
        Msg::HealthUpdate(health) => {
            model.health = health;
            (model, Cmd::Nothing)
        },
        Msg::Key(key_event) => {
            let key_cmd = update_key_evt(key_event, &model);
            (model, key_cmd)
        },
        Msg::Quit => {
            model.exit = true;
            (model, Cmd::Nothing)
        },
        Msg::Resize => (model, Cmd::Nothing),
        Msg::Home(home::Msg::Nav(NavigationMessage::Select)) => {
            let mode = match &model.state {
                State::Home(h) => Some(h.selected_mode),
                _ => None,
            };
            match mode {
                Some(home::ModeSelection::MissionSelect) => {
                    model.state = State::MissionSelect(mission_select::Model::new());
                    (model, Cmd::Dispatch(Msg::MissionSelect(mission_select::Msg::LoadMissions)))
                },
                Some(home::ModeSelection::ManualControl) => {
                    if model.terminal_supports_enhancements {
                        model.state = State::ManualControl(ManualControlState::new());
                        (model, Cmd::ManualControl)
                    } else {
                        (model, Cmd::Nothing)
                    }
                },
                _ => (model, Cmd::Nothing),
            }
        },
        Msg::Home(home_msg) => {
            let cmd = match &mut model.state {
                State::Home(home_state) => match home::update(home_state, home_msg) {
                    Some(h) => Cmd::Dispatch(Msg::Home(h)),
                    None => Cmd::Nothing,
                },
                _ => Cmd::Nothing,
            };
            (model, cmd)
        },
        Msg::MissionSelect(mission_select::Msg::ExitSelected(mission, name)) => {
            model.state = State::MissionExecution(mission_monitor::Model::new(mission, name));
            (model, Cmd::Nothing)
        },
        Msg::MissionSelect(mission_select::Msg::ExitPage)
        | Msg::MissionExecution(mission_monitor::Msg::ExitPage)
        | Msg::ManualControl(ManualControlMsg::ExitPage) => {
            model.state = State::home();
            (model, Cmd::Nothing)
        },
        Msg::ManualControl(ManualControlMsg::CommandSet) => (model, Cmd::Nothing),
        Msg::MissionSelect(select_msg) => {
            let cmd = match &mut model.state {
                State::MissionSelect(select_state) => Cmd::MissionSelect(mission_select::update(select_state, select_msg)),
                _ => Cmd::Nothing,
            };
            (model, cmd)
        },
        Msg::MissionExecution(monitor_msg) => {
            let cmd = match &mut model.state {
                State::MissionExecution(state) => Cmd::MissionExecution(mission_monitor::update(state, monitor_msg)),
                _ => Cmd::Nothing,
            };
            (model, cmd)
        },
    }
}

/// Escape and `q`, pressed, quit the station from every page, and so does Control-`c`;
/// nothing else asks to quit.
pub proof fn lemma_quit_keys<F>(k: KeyEvent, state: State<F>)
    ensures
        k.kind == KeyEventKind::Press && (k.code == KeyCode::Esc || k.code == KeyCode::Char('q'))
            ==> key_cmd(k, state) matches Cmd::Dispatch(Msg::Quit),
        k.kind == KeyEventKind::Press && k.control_only && (k.code == KeyCode::Char('c') || k.code == KeyCode::Char('C'))
            ==> key_cmd(k, state) matches Cmd::Dispatch(Msg::Quit),
        key_cmd(k, state) matches Cmd::Dispatch(Msg::Quit) ==> k.kind == KeyEventKind::Press && (k.code == KeyCode::Esc
            || k.code == KeyCode::Char('q') || (k.control_only && (k.code == KeyCode::Char('c') || k.code == KeyCode::Char('C')))),
{
}

} // verus!
