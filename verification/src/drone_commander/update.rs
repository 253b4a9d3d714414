//! The commander's update: how each message changes the model, and what work it asks
//! for next. The work itself (talking to the drone, reading and writing files) is done
//! by the caller, which feeds the answers back in as messages.
use vstd::prelude::*;
use crate::drone_commander::messages::{
    FreeFlightMessage, MissionExecutionMessage, MissionSelectMessage, Msg, NavigationMessage,
};
use crate::drone_commander::model::{
    home_state, next_mode, prev_mode, FreeFlightState, HomeState, MissionExecutionState,
    MissionSelectState, ModeSelection, Model, Movement, SetpointRecording, State,
};
use crate::drone_control::command_unit::{
    Abort, Meters, MetersPerSecond, MissionStatus, MotionCommand, Reason, SetpointHover,
};
use crate::keys::{KeyCode, KeyEvent, KeyEventKind};

verus! {

/// The fixed values manual flight works with, in the caller's number type.
#[derive(Debug, Clone, Copy)]
pub struct FlightTuning<F> {
    /// A speed of zero.
    pub zero_speed: MetersPerSecond<F>,
    /// A turn rate of zero.
    pub zero_yaw_rate: F,
    /// The height asked for on the ground.
    pub ground: Meters<F>,
    /// The height to take off to.
    pub takeoff_height: Meters<F>,
    /// The speed the movement keys ask for at first.
    pub initial_speed: MetersPerSecond<F>,
    /// The turn rate the arrow keys ask for at first.
    pub initial_yaw_rate: F,
}

/// Which way the speed the movement keys ask for changes.
#[derive(Debug, Clone, Copy, PartialEq, Eq)]
pub enum SpeedChange {
    Up,
    Down,
}

/// The work an update asks for. Where work is answered, the answer comes back as the
/// message named.
#[derive(Debug)]
pub enum Cmd<F> {
    Nothing,
    /// Feed this message back in.
    Dispatch(Msg<F>),
    /// Read the saved and the recorded missions; answer `MissionsLoaded`.
    LoadMissions,
    /// Open a channel of motion commands and fly by hand with it; answer `CommandSet`.
    Fly,
    /// Answer `Selected` with a copy of this entry of the saved missions followed by the
    /// recordings.
    SelectMission(usize),
    /// Run the page's mission with a fresh abort channel; answer `MissionResult`.
    RunMission,
    /// Send this abort on the running mission's abort channel; answer `MissionResult`.
    SendAbort(Abort),
    /// Send this motion command to the manual flight; answer this message.
    SendMotion(MotionCommand<F>, FreeFlightMessage<F>),
    /// Change the speed and turn rate the movement keys ask for by one step.
    AdjustSpeedSettings(SpeedChange),
    /// Store this recording as a mission to replay; answer `CommandSet`.
    StoreRecording(Vec<SetpointRecording<F>>),
    /// Turn this movement key into a movement of the manual flight, by the flight's speeds.
    MovementKey(KeyEvent),
}

// ------------------------------------------------------------------ home

pub open spec fn home_update(old: HomeState, msg: NavigationMessage, new: HomeState) -> bool {
    new.selected_mode == match msg {
        NavigationMessage::Up => prev_mode(old.selected_mode),
        NavigationMessage::Down => next_mode(old.selected_mode),
        NavigationMessage::Select => old.selected_mode,
    }
}

/// Up and down move round the menu; a choice is taken by the caller.
pub fn update_home<F>(model: &mut HomeState, msg: NavigationMessage) -> (cmd: Cmd<F>)
    ensures
        home_update(*old(model), msg, *final(model)),
        cmd is Nothing,
{
    match msg {
        NavigationMessage::Up => {
            model.selected_mode = model.selected_mode.prev();
            Cmd::Nothing
        },
        NavigationMessage::Down => {
            model.selected_mode = model.selected_mode.next();
            Cmd::Nothing
        },
        NavigationMessage::Select => Cmd::Nothing,
    }
}

// ------------------------------------------------------------------ mission library

/// The library can take this message: the entries can be counted, and a choice is only
/// made on an entry that exists.
pub open spec fn mission_select_allowed<F>(model: MissionSelectState<F>, msg: MissionSelectMessage<F>) -> bool {
    &&& model.entries().len() <= usize::MAX
    &&& (msg matches MissionSelectMessage::Nav(NavigationMessage::Select) && model.entries().len() > 0)
        ==> model.selection < model.entries().len()
}

pub open spec fn mission_select_update<F>(
    old: MissionSelectState<F>,
    msg: MissionSelectMessage<F>,
    new: MissionSelectState<F>,
    cmd: Cmd<F>,
) -> bool {
    let total = old.entries().len();
    let sel = old.selection as int;
    match msg {
        MissionSelectMessage::MissionsLoaded(missions, recorded) => {
            &&& new.missions@ == missions@
            &&& new.recorded_missions@ == recorded@
            &&& new.selection == old.selection
            &&& cmd is Nothing
        },
        _ => {
            &&& new.missions@ == old.missions@
            &&& new.recorded_missions@ == old.recorded_missions@
            &&& match msg {
                MissionSelectMessage::Nav(NavigationMessage::Down) => {
                    &&& new.selection == if total > 0 {
                        if sel + 1 <= total - 1 { sel + 1 } else { total - 1 }
                    } else {
                        sel
                    }
                    &&& cmd is Nothing
                },
                MissionSelectMessage::Nav(NavigationMessage::Up) => {
                    &&& new.selection == if total > 0 && sel > 0 { sel - 1 } else { sel }
                    &&& cmd is Nothing
                },
                MissionSelectMessage::Nav(NavigationMessage::Select) => {
                    &&& new.selection == old.selection
                    &&& if total > 0 { cmd == Cmd::<F>::SelectMission(old.selection) } else { cmd is Nothing }
                },
                _ => new.selection == old.selection && cmd is Nothing,
            }
        },
    }
}

/// Down moves the highlight one entry down but not past the last, up one entry up but
/// not above the first; a choice asks for the highlighted entry; with no entries,
/// navigation does nothing. Loaded lists replace the old ones.
pub fn update_mission_select<F>(model: &mut MissionSelectState<F>, msg: MissionSelectMessage<F>) -> (cmd: Cmd<F>)
    requires
        mission_select_allowed(*old(model), msg),
    ensures
        mission_select_update(*old(model), msg, *final(model), cmd),
        // navigation never moves the highlight off the entries
        msg is Nav && old(model).selection < old(model).entries().len()
            ==> final(model).selection < final(model).entries().len(),
{
    let total_missions = model.missions.len() + model.recorded_missions.len();
    match msg {
        MissionSelectMessage::Nav(NavigationMessage::Down) => {
            if total_missions > 0 {
                model.selection = if model.selection < total_missions - 1 {
                    model.selection + 1
                } else {
                    total_missions - 1
                };
            }
            Cmd::Nothing
        },
        MissionSelectMessage::Nav(NavigationMessage::Up) => {
            if total_missions > 0 && model.selection > 0 {
                model.selection = model.selection - 1;
            }
            Cmd::Nothing
        },
        MissionSelectMessage::Nav(NavigationMessage::Select) => {
            if total_missions > 0 {
                Cmd::SelectMission(model.selection)
            } else {
                Cmd::Nothing
            }
        },
        MissionSelectMessage::Selected(_, _) => Cmd::Nothing,
        MissionSelectMessage::MissionsLoaded(missions, recorded_m) => {
            model.missions = missions;
            model.recorded_missions = recorded_m;
            Cmd::Nothing
        },
    }
}

// ------------------------------------------------------------------ mission execution

pub open spec fn mission_execution_update<F>(
    old: MissionExecutionState<F>,
    msg: MissionExecutionMessage<F>,
    new: MissionExecutionState<F>,
    cmd: Cmd<F>,
) -> bool {
    &&& new.mission@ == old.mission@
    &&& new.name == old.name
    &&& match msg {
        MissionExecutionMessage::StartMission => {
            &&& new.abort_armed
            &&& new.mission_status == old.mission_status
            &&& cmd is RunMission
        },
        MissionExecutionMessage::SafeLand => {
            &&& !new.abort_armed
            &&& new.mission_status == old.mission_status
            &&& if old.abort_armed { cmd == Cmd::<F>::SendAbort(Abort::Land) } else { cmd is Nothing }
        },
        MissionExecutionMessage::EmergencyAbort => {
            &&& !new.abort_armed
            &&& new.mission_status == old.mission_status
            &&& if old.abort_armed { cmd == Cmd::<F>::SendAbort(Abort::HardStop) } else { cmd is Nothing }
        },
        MissionExecutionMessage::MissionUpdate(s) => {
            &&& new.abort_armed == old.abort_armed
            &&& new.mission_status == s
            &&& cmd is Nothing
        },
        MissionExecutionMessage::MissionResult => {
            &&& new.abort_armed == old.abort_armed
            &&& new.mission_status == old.mission_status
            &&& cmd is Nothing
        },
    }
}

/// Starting runs the mission and arms its abort; landing and emergency stop each send
/// their abort once, while one is armed; status updates are kept.
pub fn update_mission_execution<F>(model: &mut MissionExecutionState<F>, msg: MissionExecutionMessage<F>) -> (cmd: Cmd<F>)
    ensures
        mission_execution_update(*old(model), msg, *final(model), cmd),
{
    match msg {
        MissionExecutionMessage::StartMission => {
            model.abort_armed = true;
            Cmd::RunMission
        },
        MissionExecutionMessage::MissionResult => Cmd::Nothing,
        MissionExecutionMessage::SafeLand => abort_mission(model, Abort::Land),
        MissionExecutionMessage::EmergencyAbort => abort_mission(model, Abort::HardStop),
        MissionExecutionMessage::MissionUpdate(update) => {
            model.mission_status = update;
            Cmd::Nothing
        },
    }
}

fn abort_mission<F>(model: &mut MissionExecutionState<F>, signal: Abort) -> (cmd: Cmd<F>)
    ensures
        final(model).mission@ == old(model).mission@,
        final(model).name == old(model).name,
        final(model).mission_status == old(model).mission_status,
        !final(model).abort_armed,
        if old(model).abort_armed { cmd == Cmd::<F>::SendAbort(signal) } else { cmd is Nothing },
{
    if model.abort_armed {
        model.abort_armed = false;
        Cmd::SendAbort(signal)
    } else {
        Cmd::Nothing
    }
}

// ------------------------------------------------------------------ free flight

/// The flight is told to stand still (speeds zero, height `z`).
pub open spec fn at_rest<F>(s: FreeFlightState<F>, tuning: FlightTuning<F>, z: Meters<F>) -> bool {
    &&& s.vx == tuning.zero_speed
    &&& s.vy == tuning.zero_speed
    &&& s.z == z
}

/// Fields of the flight that a message leaves alone.
pub open spec fn same_settings<F>(old: FreeFlightState<F>, new: FreeFlightState<F>) -> bool {
    &&& new.speed_setting == old.speed_setting
    &&& new.yaw_rate_setting == old.yaw_rate_setting
    &&& new.is_recording == old.is_recording
    &&& new.recording@ == old.recording@
}

pub open spec fn same_motion<F>(old: FreeFlightState<F>, new: FreeFlightState<F>) -> bool {
    &&& new.vx == old.vx
    &&& new.vy == old.vy
    &&& new.yaw_rate == old.yaw_rate
    &&& new.z == old.z
}

pub open spec fn free_flight_update<F>(
    old: FreeFlightState<F>,
    msg: FreeFlightMessage<F>,
    tuning: FlightTuning<F>,
    new: FreeFlightState<F>,
    cmd: Cmd<F>,
) -> bool {
    match msg {
        FreeFlightMessage::Move(Movement::Vx(v)) => {
            &&& new.vx == v && new.vy == old.vy && new.yaw_rate == old.yaw_rate && new.z == old.z
            &&& new.is_airborne == old.is_airborne && same_settings(old, new)
            &&& cmd == Cmd::Dispatch(Msg::FreeFlight(FreeFlightMessage::<F>::SendNextMove))
        },
        FreeFlightMessage::Move(Movement::Vy(v)) => {
            &&& new.vy == v && new.vx == old.vx && new.yaw_rate == old.yaw_rate && new.z == old.z
            &&& new.is_airborne == old.is_airborne && same_settings(old, new)
            &&& cmd == Cmd::Dispatch(Msg::FreeFlight(FreeFlightMessage::<F>::SendNextMove))
        },
        FreeFlightMessage::Move(Movement::YawRate(r)) => {
            &&& new.yaw_rate == r && new.vx == old.vx && new.vy == old.vy && new.z == old.z
            &&& new.is_airborne == old.is_airborne && same_settings(old, new)
            &&& cmd == Cmd::Dispatch(Msg::FreeFlight(FreeFlightMessage::<F>::SendNextMove))
        },
        FreeFlightMessage::Move(Movement::Land) => {
            &&& at_rest(new, tuning, tuning.ground) && new.yaw_rate == old.yaw_rate
            &&& !new.is_airborne && same_settings(old, new)
            &&& cmd == Cmd::SendMotion(MotionCommand::<F>::Land, FreeFlightMessage::CommandSet)
        },
        FreeFlightMessage::Move(Movement::GoHome) => {
            &&& at_rest(new, tuning, tuning.ground) && new.yaw_rate == old.yaw_rate
            &&& !new.is_airborne && same_settings(old, new)
            &&& cmd == Cmd::SendMotion(MotionCommand::<F>::GoHome, FreeFlightMessage::CommandSet)
        },
        FreeFlightMessage::Move(Movement::Start) => {
            &&& at_rest(new, tuning, tuning.takeoff_height) && new.yaw_rate == old.yaw_rate
            &&& new.is_airborne == old.is_airborne && same_settings(old, new)
            &&& cmd == Cmd::SendMotion(MotionCommand::TakeOff(tuning.takeoff_height), FreeFlightMessage::TakeOffDone)
        },
        FreeFlightMessage::Move(Movement::SpeedUp) => {
            &&& same_motion(old, new) && new.is_airborne == old.is_airborne && same_settings(old, new)
            &&& cmd == Cmd::<F>::AdjustSpeedSettings(SpeedChange::Up)
        },
        FreeFlightMessage::Move(Movement::SpeedDown) => {
            &&& same_motion(old, new) && new.is_airborne == old.is_airborne && same_settings(old, new)
            &&& cmd == Cmd::<F>::AdjustSpeedSettings(SpeedChange::Down)
        },
        FreeFlightMessage::SendNextMove => {
            &&& same_motion(old, new) && new.is_airborne == old.is_airborne && same_settings(old, new)
            &&& cmd == if old.is_airborne {
                Cmd::SendMotion(
                    MotionCommand::Move(SetpointHover { vx: old.vx, vy: old.vy, z: old.z, yaw_rate: old.yaw_rate }),
                    FreeFlightMessage::CommandSet,
                )
            } else {
                Cmd::Nothing
            }
        },
        FreeFlightMessage::Abort => {
            &&& at_rest(new, tuning, tuning.ground) && new.yaw_rate == old.yaw_rate
            &&& new.is_airborne == old.is_airborne && same_settings(old, new)
            &&& cmd == Cmd::SendMotion(MotionCommand::<F>::Stop, FreeFlightMessage::CommandSet)
        },
        FreeFlightMessage::TakeOffDone => {
            &&& same_motion(old, new) && new.is_airborne && same_settings(old, new)
            &&& cmd is Nothing
        },
        FreeFlightMessage::StartRecording => {
            &&& same_motion(old, new) && new.is_airborne == old.is_airborne
            &&& new.is_recording
            &&& new.recording@ == old.recording@
            &&& new.speed_setting == old.speed_setting && new.yaw_rate_setting == old.yaw_rate_setting
            &&& cmd is Nothing
        },
        FreeFlightMessage::StopRecording => {
            &&& same_motion(old, new) && new.is_airborne == old.is_airborne
            &&& !new.is_recording
            &&& new.recording@.len() == 0
            &&& new.speed_setting == old.speed_setting && new.yaw_rate_setting == old.yaw_rate_setting
            &&& cmd matches Cmd::StoreRecording(r) && r@ == old.recording@
        },
        FreeFlightMessage::CommandSet => {
            &&& same_motion(old, new) && new.is_airborne == old.is_airborne && same_settings(old, new)
            &&& cmd is Nothing
        },
    }
}

/// Manual flight: movement keys set the motion and send it on; landing, going home and
/// the emergency stop bring the motion to rest (land and going home also mark the drone
/// as down); takeoff rests at takeoff height and marks the drone up once done; the
/// motion is only sent while the drone is up; recording starts, or stops and is stored.
pub fn update_free_flight<F: Copy>(
    model: &mut FreeFlightState<F>,
    msg: FreeFlightMessage<F>,
    tuning: &FlightTuning<F>,
) -> (cmd: Cmd<F>)
    ensures
        free_flight_update(*old(model), msg, *tuning, *final(model), cmd),
        // while up, the next move sent is the flight's own motion, turn rate included
        msg is SendNextMove && old(model).is_airborne ==> (cmd matches Cmd::SendMotion(MotionCommand::Move(sp), _)
            && sp.vx == old(model).vx && sp.vy == old(model).vy && sp.z == old(model).z
            && sp.yaw_rate == old(model).yaw_rate),
{
    match msg {
        FreeFlightMessage::Move(Movement::Vx(new_x)) => {
            model.vx = new_x;
            Cmd::Dispatch(Msg::FreeFlight(FreeFlightMessage::SendNextMove))
        },
        FreeFlightMessage::Move(Movement::Vy(new_y)) => {
            model.vy = new_y;
            Cmd::Dispatch(Msg::FreeFlight(FreeFlightMessage::SendNextMove))
        },
        FreeFlightMessage::Move(Movement::YawRate(yaw_rate)) => {
            model.yaw_rate = yaw_rate;
            Cmd::Dispatch(Msg::FreeFlight(FreeFlightMessage::SendNextMove))
        },
        FreeFlightMessage::Move(Movement::Land) => {
            model.vx = tuning.zero_speed;
            model.vy = tuning.zero_speed;
            model.z = tuning.ground;
            model.is_airborne = false;
            Cmd::SendMotion(MotionCommand::Land, FreeFlightMessage::CommandSet)
        },
        FreeFlightMessage::Move(Movement::GoHome) => {
            model.vx = tuning.zero_speed;
            model.vy = tuning.zero_speed;
            model.z = tuning.ground;
            model.is_airborne = false;
            Cmd::SendMotion(MotionCommand::GoHome, FreeFlightMessage::CommandSet)
        },
        FreeFlightMessage::Move(Movement::Start) => {
            model.vx = tuning.zero_speed;
            model.vy = tuning.zero_speed;
            model.z = tuning.takeoff_height;
            Cmd::SendMotion(MotionCommand::TakeOff(tuning.takeoff_height), FreeFlightMessage::TakeOffDone)
        },
        FreeFlightMessage::SendNextMove => {
            if model.is_airborne {
                Cmd::SendMotion(
                    MotionCommand::Move(SetpointHover { vx: model.vx, vy: model.vy, z: model.z, yaw_rate: model.yaw_rate }),
                    FreeFlightMessage::CommandSet,
                )
            } else {
                Cmd::Nothing
            }
        },
        FreeFlightMessage::CommandSet => Cmd::Nothing,
        FreeFlightMessage::Abort => {
            model.vx = tuning.zero_speed;
            model.vy = tuning.zero_speed;
            model.z = tuning.ground;
            Cmd::SendMotion(MotionCommand::Stop, FreeFlightMessage::CommandSet)
        },
        FreeFlightMessage::TakeOffDone => {
            model.is_airborne = true;
            Cmd::Nothing
        },
        FreeFlightMessage::Move(Movement::SpeedUp) => Cmd::AdjustSpeedSettings(SpeedChange::Up),
        FreeFlightMessage::Move(Movement::SpeedDown) => Cmd::AdjustSpeedSettings(SpeedChange::Down),
        FreeFlightMessage::StartRecording => {
            model.is_recording = true;
            Cmd::Nothing
        },
        FreeFlightMessage::StopRecording => {
            let mut recording: Vec<SetpointRecording<F>> = Vec::new();
            std::mem::swap(&mut recording, &mut model.recording);
            model.is_recording = false;
            Cmd::StoreRecording(recording)
        },
    }
}


// ------------------------------------------------------------------ keys

/// The keys that fly by hand: `w`, `a`, `s`, `d`, `h` and the four arrows.
pub open spec fn is_movement_key(code: KeyCode) -> bool {
    match code {
        KeyCode::Char(c) => c == 'w' || c == 'a' || c == 's' || c == 'd' || c == 'h',
        KeyCode::Left | KeyCode::Right | KeyCode::Down | KeyCode::Up => true,
        _ => false,
    }
}

/// Navigation goes to the page that has a list: the home menu or the mission library.
pub open spec fn navigation_cmd_spec<F>(state: State<F>, nav: NavigationMessage) -> Cmd<F> {
    match state {
        State::Home(_) => Cmd::Dispatch(Msg::Home(nav)),
        State::MissionSelect(_) => Cmd::Dispatch(Msg::MissionSelect(MissionSelectMessage::Nav(nav))),
        _ => Cmd::Nothing,
    }
}

fn navigation_cmd<F>(state: &State<F>, nav: NavigationMessage) -> (cmd: Cmd<F>)
    ensures
        cmd == navigation_cmd_spec(*state, nav),
{
    match state {
        State::Home(_) => Cmd::Dispatch(Msg::Home(nav)),
        State::MissionSelect(_) => Cmd::Dispatch(Msg::MissionSelect(MissionSelectMessage::Nav(nav))),
        _ => Cmd::Nothing,
    }
}

/// What a key asks for on the page shown. Movement keys are read by manual flight (and
/// come first, so the arrow keys never navigate); on a mission page `h` among them
/// brings the drone back to the takeoff point. The other keys count when pressed: `q`,
/// escape or Control-`c` quit, `j`/`k` navigate, enter chooses, `l` lands (a mission
/// lands back at the takeoff point), `x` stops at once, `b` goes back home when nothing
/// flies, `r` starts and stops recording, `t` starts a mission (on the ground) or takes
/// off.
pub open spec fn key_cmd<F>(k: KeyEvent, state: State<F>) -> Cmd<F> {
    let press = k.kind == KeyEventKind::Press;
    if is_movement_key(k.code) {
        match state {
            State::FreeFlight(_) => Cmd::MovementKey(k),
            State::MissionExecution(_) => if press && k.code == KeyCode::Char('h') {
                Cmd::Dispatch(Msg::MissionExecution(MissionExecutionMessage::SafeLand))
            } else {
                Cmd::Nothing
            },
            _ => Cmd::Nothing,
        }
    } else if !press {
        Cmd::Nothing
    } else {
        match k.code {
            KeyCode::Esc | KeyCode::Char('q') => Cmd::Dispatch(Msg::Quit),
            KeyCode::Char('c') | KeyCode::Char('C') => if k.control_only { Cmd::Dispatch(Msg::Quit) } else { Cmd::Nothing },
            KeyCode::Char('j') => navigation_cmd_spec(state, NavigationMessage::Down),
            KeyCode::Char('k') => navigation_cmd_spec(state, NavigationMessage::Up),
            KeyCode::Char('l') => match state {
                State::MissionExecution(_) => Cmd::Dispatch(Msg::MissionExecution(MissionExecutionMessage::SafeLand)),
                State::FreeFlight(_) => Cmd::Dispatch(Msg::FreeFlight(FreeFlightMessage::Move(Movement::Land))),
                _ => Cmd::Nothing,
            },
            KeyCode::Char('b') => match state {
                State::MissionExecution(s) => if s.mission_status is Idle || s.mission_status is Aborted {
                    Cmd::Dispatch(Msg::ToHomeScreen)
                } else {
                    Cmd::Nothing
                },
                State::FreeFlight(s) => if !s.is_airborne { Cmd::Dispatch(Msg::ToHomeScreen) } else { Cmd::Nothing },
                State::MissionSelect(_) => Cmd::Dispatch(Msg::ToHomeScreen),
                _ => Cmd::Nothing,
            },
            KeyCode::Char('x') => match state {
                State::MissionExecution(_) => Cmd::Dispatch(Msg::MissionExecution(MissionExecutionMessage::EmergencyAbort)),
                State::FreeFlight(_) => Cmd::Dispatch(Msg::FreeFlight(FreeFlightMessage::Abort)),
                _ => Cmd::Nothing,
            },
            KeyCode::Char('r') => match state {
                State::FreeFlight(s) => if s.is_recording {
                    Cmd::Dispatch(Msg::FreeFlight(FreeFlightMessage::StopRecording))
                } else {
                    Cmd::Dispatch(Msg::FreeFlight(FreeFlightMessage::StartRecording))
                },
                _ => Cmd::Nothing,
            },
            KeyCode::Char('t') => match state {
                State::MissionExecution(s) => if s.mission_status is Idle || s.mission_status == MissionStatus::<F>::Aborted(Reason::Landing) {
                    Cmd::Dispatch(Msg::MissionExecution(MissionExecutionMessage::StartMission))
                } else {
                    Cmd::Nothing
                },
                State::FreeFlight(_) => Cmd::Dispatch(Msg::FreeFlight(FreeFlightMessage::Move(Movement::Start))),
                _ => Cmd::Nothing,
            },
            KeyCode::Enter => navigation_cmd_spec(state, NavigationMessage::Select),
            _ => Cmd::Nothing,
        }
    }
}

fn is_movement_code(code: KeyCode) -> (b: bool)
    ensures
        b == is_movement_key(code),
{
    match code {
        KeyCode::Char(c) => c == 'w' || c == 'a' || c == 's' || c == 'd' || c == 'h',
        KeyCode::Left | KeyCode::Right | KeyCode::Down | KeyCode::Up => true,
        _ => false,
    }
}

/// The work a key asks for on the page shown.
pub fn update_key_evt<F>(key_event: KeyEvent, model: &Model<F>) -> (cmd: Cmd<F>)
    ensures
        cmd == key_cmd(key_event, model.state),
        // escape and `q` quit from every page
        pressed(key_event, KeyCode::Esc) || pressed(key_event, KeyCode::Char('q')) ==> cmd matches Cmd::Dispatch(Msg::Quit),
        // `l` lands: a manual flight by the land movement, a mission by a safe landing
        pressed(key_event, KeyCode::Char('l')) && model.state is FreeFlight
            ==> cmd matches Cmd::Dispatch(Msg::FreeFlight(FreeFlightMessage::Move(Movement::Land))),
        pressed(key_event, KeyCode::Char('l')) && model.state is MissionExecution
            ==> cmd matches Cmd::Dispatch(Msg::MissionExecution(MissionExecutionMessage::SafeLand)),
        // only `x` stops at once
        emergency_stop(cmd) ==> pressed(key_event, KeyCode::Char('x')),
{
    if is_movement_code(key_event.code) {
        return match &model.state {
            State::FreeFlight(_) => Cmd::MovementKey(key_event),
            State::MissionExecution(_) => if key_event.is_press() && key_event.code.is_char('h') {
                Cmd::Dispatch(Msg::MissionExecution(MissionExecutionMessage::SafeLand))
            } else {
                Cmd::Nothing
            },
            _ => Cmd::Nothing,
        };
    }
    if !key_event.is_press() {
        return Cmd::Nothing;
    }
    match key_event.code {
        KeyCode::Esc | KeyCode::Char('q') => Cmd::Dispatch(Msg::Quit),
        KeyCode::Char('c') | KeyCode::Char('C') => if key_event.control_only {
            Cmd::Dispatch(Msg::Quit)
        } else {
            Cmd::Nothing
        },
        KeyCode::Char('j') => navigation_cmd(&model.state, NavigationMessage::Down),
        KeyCode::Char('k') => navigation_cmd(&model.state, NavigationMessage::Up),
        KeyCode::Char('l') => match &model.state {
            State::MissionExecution(_) => Cmd::Dispatch(Msg::MissionExecution(MissionExecutionMessage::SafeLand)),
            State::FreeFlight(_) => Cmd::Dispatch(Msg::FreeFlight(FreeFlightMessage::Move(Movement::Land))),
            _ => Cmd::Nothing,
        },
        KeyCode::Char('b') => match &model.state {
            State::MissionExecution(s) => if matches!(s.mission_status, MissionStatus::Idle | MissionStatus::Aborted(_)) {
                Cmd::Dispatch(Msg::ToHomeScreen)
            } else {
                Cmd::Nothing
            },
            State::FreeFlight(s) => if !s.is_airborne { Cmd::Dispatch(Msg::ToHomeScreen) } else { Cmd::Nothing },
            State::MissionSelect(_) => Cmd::Dispatch(Msg::ToHomeScreen),
            _ => Cmd::Nothing,
        },
        KeyCode::Char('x') => match &model.state {
            State::MissionExecution(_) => Cmd::Dispatch(Msg::MissionExecution(MissionExecutionMessage::EmergencyAbort)),
            State::FreeFlight(_) => Cmd::Dispatch(Msg::FreeFlight(FreeFlightMessage::Abort)),
            _ => Cmd::Nothing,
        },
        KeyCode::Char('r') => match &model.state {
            State::FreeFlight(s) => if s.is_recording {
                Cmd::Dispatch(Msg::FreeFlight(FreeFlightMessage::StopRecording))
            } else {
                Cmd::Dispatch(Msg::FreeFlight(FreeFlightMessage::StartRecording))
            },
            _ => Cmd::Nothing,
        },
        KeyCode::Char('t') => match &model.state {
            State::MissionExecution(s) => if matches!(s.mission_status, MissionStatus::Idle | MissionStatus::Aborted(Reason::Landing)) {
                Cmd::Dispatch(Msg::MissionExecution(MissionExecutionMessage::StartMission))
            } else {
                Cmd::Nothing
            },
            State::FreeFlight(_) => Cmd::Dispatch(Msg::FreeFlight(FreeFlightMessage::Move(Movement::Start))),
            _ => Cmd::Nothing,
        },
        KeyCode::Enter => navigation_cmd(&model.state, NavigationMessage::Select),
        _ => Cmd::Nothing,
    }
}


/// What the movement keys read of a manual flight beyond its settings: the signs of its
/// speeds, and the settings reversed, worked out by the caller in its number type.
#[derive(Debug, Clone, Copy)]
pub struct KeyGauge<F> {
    /// The forward speed is at most zero.
    pub vx_at_most_zero: bool,
    /// The forward speed is at least zero.
    pub vx_at_least_zero: bool,
    /// The sideways speed is at most zero.
    pub vy_at_most_zero: bool,
    /// The sideways speed is at least zero.
    pub vy_at_least_zero: bool,
    /// The speed setting, pointing the other way.
    pub reverse_speed: MetersPerSecond<F>,
    /// The turn-rate setting, turning the other way.
    pub reverse_yaw_rate: F,
}

/// The movement a key asks of a manual flight. Pressing `w`, `a`, `s` or `d` sets the
/// forward or sideways speed to the speed setting (forward, left, back, right), unless
/// the flight already moves that way; letting go of it stops that axis. `h` goes home,
/// the left and right arrows turn at the turn-rate setting until let go, and the up and
/// down arrows change the settings.
pub open spec fn key_movement<F>(k: KeyEvent, s: FreeFlightState<F>, g: KeyGauge<F>, tuning: FlightTuning<F>) -> Option<Movement<F>> {
    let press = k.kind == KeyEventKind::Press;
    let release = k.kind == KeyEventKind::Release;
    match k.code {
        KeyCode::Char('w') => if press && g.vx_at_most_zero {
            Some(Movement::Vx(s.speed_setting))
        } else if release {
            Some(Movement::Vx(tuning.zero_speed))
        } else {
            None
        },
        KeyCode::Char('a') => if press && g.vy_at_most_zero {
            Some(Movement::Vy(s.speed_setting))
        } else if release {
            Some(Movement::Vy(tuning.zero_speed))
        } else {
            None
        },
        KeyCode::Char('s') => if press && g.vx_at_least_zero {
            Some(Movement::Vx(g.reverse_speed))
        } else if release {
            Some(Movement::Vx(tuning.zero_speed))
        } else {
            None
        },
        KeyCode::Char('d') => if press && g.vy_at_least_zero {
            Some(Movement::Vy(g.reverse_speed))
        } else if release {
            Some(Movement::Vy(tuning.zero_speed))
        } else {
            None
        },
        KeyCode::Char('h') => if press { Some(Movement::GoHome) } else { None },
        KeyCode::Left => if press {
            Some(Movement::YawRate(s.yaw_rate_setting))
        } else if release {
            Some(Movement::YawRate(tuning.zero_yaw_rate))
        } else {
            None
        },
        KeyCode::Right => if press {
            Some(Movement::YawRate(g.reverse_yaw_rate))
        } else if release {
            Some(Movement::YawRate(tuning.zero_yaw_rate))
        } else {
            None
        },
        KeyCode::Up => if press { Some(Movement::SpeedUp) } else { None },
        KeyCode::Down => if press { Some(Movement::SpeedDown) } else { None },
        _ => None,
    }
}

/// The movement a key asks of the manual flight `s`, as `key_movement` says.
pub fn movement_from_key<F: Copy>(
    k: KeyEvent,
    s: &FreeFlightState<F>,
    g: &KeyGauge<F>,
    tuning: &FlightTuning<F>,
) -> (m: Option<Movement<F>>)
    ensures
        m == key_movement(k, *s, *g, *tuning),
{
    let press = k.is_press();
    let release = matches!(k.kind, KeyEventKind::Release);
    match k.code {
        KeyCode::Char('w') => if press && g.vx_at_most_zero {
            Some(Movement::Vx(s.speed_setting))
        } else if release {
            Some(Movement::Vx(tuning.zero_speed))
        } else {
            None
        },
        KeyCode::Char('a') => if press && g.vy_at_most_zero {
            Some(Movement::Vy(s.speed_setting))
        } else if release {
            Some(Movement::Vy(tuning.zero_speed))
        } else {
            None
        },
        KeyCode::Char('s') => if press && g.vx_at_least_zero {
            Some(Movement::Vx(g.reverse_speed))
        } else if release {
            Some(Movement::Vx(tuning.zero_speed))
        } else {
            None
        },
        KeyCode::Char('d') => if press && g.vy_at_least_zero {
            Some(Movement::Vy(g.reverse_speed))
        } else if release {
            Some(Movement::Vy(tuning.zero_speed))
        } else {
            None
        },
        KeyCode::Char('h') => if press { Some(Movement::GoHome) } else { None },
        KeyCode::Left => if press {
            Some(Movement::YawRate(s.yaw_rate_setting))
        } else if release {
            Some(Movement::YawRate(tuning.zero_yaw_rate))
        } else {
            None
        },
        KeyCode::Right => if press {
            Some(Movement::YawRate(g.reverse_yaw_rate))
        } else if release {
            Some(Movement::YawRate(tuning.zero_yaw_rate))
        } else {
            None
        },
        KeyCode::Up => if press { Some(Movement::SpeedUp) } else { None },
        KeyCode::Down => if press { Some(Movement::SpeedDown) } else { None },
        _ => None,
    }
}

/// Every key that asks a movement of a manual flight is a movement key: the keys that
/// `key_cmd` hands to the flight are the only ones `key_movement` answers.
pub proof fn lemma_movements_come_from_movement_keys<F>(
    k: KeyEvent,
    s: FreeFlightState<F>,
    g: KeyGauge<F>,
    tuning: FlightTuning<F>,
)
    ensures
        key_movement(k, s, g, tuning) is Some ==> is_movement_key(k.code),
{
}

// ------------------------------------------------------------------ the whole program

/// The position recorded from a telemetry sample.
pub open spec fn recorded<F>(t: crate::drone_control::command_unit::Telemetry<F>) -> SetpointRecording<F> {
    SetpointRecording { x: t.x, y: t.y, z: t.z, yaw_degrees: t.yaw_degrees }
}

/// A fresh manual flight: at rest on the ground, not recording, with the first speeds.
pub open spec fn fresh_flight<F>(s: FreeFlightState<F>, tuning: FlightTuning<F>) -> bool {
    &&& s.vx == tuning.zero_speed
    &&& s.vy == tuning.zero_speed
    &&& s.yaw_rate == tuning.zero_yaw_rate
    &&& s.z == tuning.ground
    &&& !s.is_airborne
    &&& !s.is_recording
    &&& s.recording@.len() == 0
    &&& s.speed_setting == tuning.initial_speed
    &&& s.yaw_rate_setting == tuning.initial_yaw_rate
}

/// Everything but the page is as it was.
pub open spec fn same_frame<F>(old: Model<F>, new: Model<F>) -> bool {
    &&& new.telemetry == old.telemetry
    &&& new.terminal_supports_enhancements == old.terminal_supports_enhancements
    &&& new.exit == old.exit
}

/// The message can be taken: a message for the mission library only when it fits it.
pub open spec fn update_all_allowed<F>(msg: Msg<F>, m: Model<F>) -> bool {
    match (msg, m.state) {
        (Msg::MissionSelect(mm), State::MissionSelect(s)) => (mm is Selected) || mission_select_allowed(s, mm),
        _ => true,
    }
}

/// The program after one message, and the work it asks for. Telemetry is kept (and recorded while a manual
/// flight records); keys become work by `key_cmd`; quitting sets the exit flag; the
/// home screen can be gone back to from anywhere. Choosing on the home page opens the
/// mission library (and loads it) or, when the terminal reports key releases, a manual
/// flight (and starts flying); choosing a mission opens its page. Any other message
/// goes to the page it is for, if that page is shown, and is dropped otherwise.
pub open spec fn commander_update<F>(msg: Msg<F>, m: Model<F>, tuning: FlightTuning<F>, new: Model<F>, cmd: Cmd<F>) -> bool {
    match msg {
        Msg::TelemetryUpdate(t) => {
            &&& new.telemetry == t
            &&& new.terminal_supports_enhancements == m.terminal_supports_enhancements
            &&& new.exit == m.exit
            &&& cmd is Nothing
            &&& match m.state {
                State::FreeFlight(fs) => new.state matches State::FreeFlight(nfs) && {
                    &&& same_motion(fs, nfs)
                    &&& nfs.is_airborne == fs.is_airborne
                    &&& nfs.is_recording == fs.is_recording
                    &&& nfs.speed_setting == fs.speed_setting
                    &&& nfs.yaw_rate_setting == fs.yaw_rate_setting
                    &&& nfs.recording@ == if fs.is_recording { fs.recording@.push(recorded(t)) } else { fs.recording@ }
                },
                _ => new.state == m.state,
            }
        },
        Msg::Key(k) => new == m && cmd == key_cmd(k, m.state),
        Msg::Quit => {
            &&& new.exit
            &&& new.telemetry == m.telemetry
            &&& new.terminal_supports_enhancements == m.terminal_supports_enhancements
            &&& new.state == m.state
            &&& cmd is Nothing
        },
        Msg::ToHomeScreen => same_frame(m, new) && new.state == home_state::<F>() && cmd is Nothing,
        Msg::Home(nav) => same_frame(m, new) && match m.state {
            State::Home(h) => if nav == NavigationMessage::Select {
                match h.selected_mode {
                    ModeSelection::MissionSelectItem => {
                        &&& new.state matches State::MissionSelect(s) && s.missions@.len() == 0
                            && s.recorded_missions@.len() == 0 && s.selection == 0
                        &&& cmd is LoadMissions
                    },
                    ModeSelection::FreeFlightItem => if m.terminal_supports_enhancements {
                        &&& new.state matches State::FreeFlight(s) && fresh_flight(s, tuning)
                        &&& cmd is Fly
                    } else {
                        new.state == m.state && cmd is Nothing
                    },
                    ModeSelection::MissionPlanItem => new.state == m.state && cmd is Nothing,
                }
            } else {
                new.state matches State::Home(nh) && home_update(h, nav, nh) && cmd is Nothing
            },
            _ => new.state == m.state && cmd is Nothing,
        },
        Msg::MissionSelect(MissionSelectMessage::Selected(mission, name)) => {
            &&& same_frame(m, new)
            &&& new.state matches State::MissionExecution(s) && s.mission == mission && s.name == name
                && !s.abort_armed && s.mission_status is Idle
            &&& cmd is Nothing
        },
        Msg::MissionSelect(mm) => same_frame(m, new) && match m.state {
            State::MissionSelect(s) => new.state matches State::MissionSelect(ns) && mission_select_update(s, mm, ns, cmd),
            _ => new.state == m.state && cmd is Nothing,
        },
        Msg::MissionExecution(me) => same_frame(m, new) && match m.state {
            State::MissionExecution(s) => new.state matches State::MissionExecution(ns) && mission_execution_update(s, me, ns, cmd),
            _ => new.state == m.state && cmd is Nothing,
        },
        Msg::FreeFlight(ff) => same_frame(m, new) && match m.state {
            State::FreeFlight(s) => new.state matches State::FreeFlight(ns) && free_flight_update(s, ff, tuning, ns, cmd),
            _ => new.state == m.state && cmd is Nothing,
        },
        Msg::Resize => new == m && cmd is Nothing,
    }
}

/// Handles one message of the program, as `commander_update` says.
pub fn update_all<F: Copy>(msg: Msg<F>, m: Model<F>, tuning: &FlightTuning<F>) -> (r: (Model<F>, Cmd<F>))
    requires
        update_all_allowed(msg, m),
    ensures
        commander_update(msg, m, *tuning, r.0, r.1),
        // once asked to quit, the program stays asked to
        m.exit ==> r.0.exit,
{
    let mut model = m;
    match msg {
        Msg::TelemetryUpdate(tele) => {
            match &mut model.state {
                State::FreeFlight(flight_state) => {
                    if flight_state.is_recording {
                        flight_state.recording.push(
                            SetpointRecording { x: tele.x, y: tele.y, z: tele.z, yaw_degrees: tele.yaw_degrees },
                        );
                    }
                },
                _ => {},
            }
            model.telemetry = tele;
            (model, Cmd::Nothing)
        },
        Msg::Key(key_event) => {
            let key_cmd = update_key_evt(key_event, &model);
            (model, key_cmd)
        },
        Msg::Quit => {
            model.exit = true;
            (model, Cmd::Nothing)
        },
        Msg::ToHomeScreen => {
            model.state = State::home();
            (model, Cmd::Nothing)
        },
        Msg::Home(NavigationMessage::Select) => {
            let mode = match &model.state {
                State::Home(h) => Some(h.selected_mode),
                _ => None,
            };
            match mode {
                Some(ModeSelection::MissionSelectItem) => {
                    model.state = State::MissionSelect(MissionSelectState::new());
                    (model, Cmd::LoadMissions)
                },
                Some(ModeSelection::FreeFlightItem) => {
                    if model.terminal_supports_enhancements {
                        model.state = State::FreeFlight(FreeFlightState {
                            vx: tuning.zero_speed,
                            vy: tuning.zero_speed,
                            yaw_rate: tuning.zero_yaw_rate,
                            z: tuning.ground,
                            is_airborne: false,
                            is_recording: false,
                            recording: Vec::new(),
                            speed_setting: tuning.initial_speed,
                            yaw_rate_setting: tuning.initial_yaw_rate,
                        });
                        (model, Cmd::Fly)
                    } else {
                        (model, Cmd::Nothing)
                    }
                },
                _ => (model, Cmd::Nothing),
            }
        },
        Msg::Home(nav) => {
            let cmd = match &mut model.state {
                State::Home(home_state) => update_home(home_state, nav),
                _ => Cmd::Nothing,
            };
            (model, cmd)
        },
        Msg::MissionSelect(MissionSelectMessage::Selected(mission, name)) => {
            model.state = State::MissionExecution(MissionExecutionState {
                mission,
                name,
                abort_armed: false,
                mission_status: MissionStatus::Idle,
            });
            (model, Cmd::Nothing)
        },
        Msg::MissionSelect(select_msg) => {
            let cmd = match &mut model.state {
                State::MissionSelect(select_state) => update_mission_select(select_state, select_msg),
                _ => Cmd::Nothing,
            };
            (model, cmd)
        },
        Msg::MissionExecution(execution_msg) => {
            let cmd = match &mut model.state {
                State::MissionExecution(state) => update_mission_execution(state, execution_msg),
                _ => Cmd::Nothing,
            };
            (model, cmd)
        },
        Msg::FreeFlight(flight_msg) => {
            let cmd = match &mut model.state {
                State::FreeFlight(state) => update_free_flight(state, flight_msg, tuning),
                _ => Cmd::Nothing,
            };
            (model, cmd)
        },
        Msg::Resize => (model, Cmd::Nothing),
    }
}


/// An abort is sent at most once for a started mission: right after landing or an
/// emergency stop was asked for, asking again sends nothing.
pub proof fn lemma_abort_sent_once<F>(
    s0: MissionExecutionState<F>,
    first: MissionExecutionMessage<F>,
    s1: MissionExecutionState<F>,
    c1: Cmd<F>,
    second: MissionExecutionMessage<F>,
    s2: MissionExecutionState<F>,
    c2: Cmd<F>,
)
    requires
        first is SafeLand || first is EmergencyAbort,
        second is SafeLand || second is EmergencyAbort,
        mission_execution_update(s0, first, s1, c1),
        mission_execution_update(s1, second, s2, c2),
    ensures
        c2 is Nothing,
{
}

/// A manual flight that is not recording holds no recorded samples, and every message
/// keeps it so: samples only come in while recording, and stopping hands them all over.
pub proof fn lemma_idle_recording_is_empty<F>(
    s: FreeFlightState<F>,
    msg: FreeFlightMessage<F>,
    tuning: FlightTuning<F>,
    ns: FreeFlightState<F>,
    cmd: Cmd<F>,
)
    requires
        !s.is_recording ==> s.recording@.len() == 0,
        free_flight_update(s, msg, tuning, ns, cmd),
    ensures
        !ns.is_recording ==> ns.recording@.len() == 0,
{
}

/// What stopping a recording stores is exactly the samples taken since it started:
/// starting on a flight that is not recording, then taking samples `t`, then stopping,
/// stores the recorded positions of `t` in order.
pub proof fn lemma_recording_round<F>(
    s: FreeFlightState<F>,
    tuning: FlightTuning<F>,
    started: FreeFlightState<F>,
    c1: Cmd<F>,
    sampled: FreeFlightState<F>,
    t: Seq<crate::drone_control::command_unit::Telemetry<F>>,
    stopped: FreeFlightState<F>,
    c2: Cmd<F>,
)
    requires
        !s.is_recording,
        s.recording@.len() == 0,
        free_flight_update(s, FreeFlightMessage::StartRecording, tuning, started, c1),
        sampled.is_recording == started.is_recording,
        sampled.recording@ == started.recording@ + t.map_values(|x: crate::drone_control::command_unit::Telemetry<F>| recorded(x)),
        free_flight_update(sampled, FreeFlightMessage::StopRecording, tuning, stopped, c2),
    ensures
        c2 matches Cmd::StoreRecording(r) && r@ == t.map_values(|x: crate::drone_control::command_unit::Telemetry<F>| recorded(x)),
        !stopped.is_recording,
{
    assert(started.recording@ + t.map_values(|x: crate::drone_control::command_unit::Telemetry<F>| recorded(x))
        =~= t.map_values(|x: crate::drone_control::command_unit::Telemetry<F>| recorded(x)));
}

/// The key `code` went down.
pub open spec fn pressed(k: KeyEvent, code: KeyCode) -> bool {
    k.kind == KeyEventKind::Press && k.code == code
}

/// The work asks to stop at once: a manual flight's emergency stop, or a mission's.
pub open spec fn emergency_stop<F>(cmd: Cmd<F>) -> bool {
    ||| cmd matches Cmd::Dispatch(Msg::FreeFlight(FreeFlightMessage::Abort))
    ||| cmd matches Cmd::Dispatch(Msg::MissionExecution(MissionExecutionMessage::EmergencyAbort))
}

/// Keys on every page: escape and `q` quit; `l` lands a manual flight with the land
/// movement and a mission with a safe landing; only `x` asks for an emergency stop, and
/// on either flying page it does.
pub proof fn lemma_quit_land_and_stop_keys<F>(k: KeyEvent, state: State<F>)
    ensures
        pressed(k, KeyCode::Esc) || pressed(k, KeyCode::Char('q')) ==> key_cmd(k, state) matches Cmd::Dispatch(Msg::Quit),
        pressed(k, KeyCode::Char('l')) && state is FreeFlight
            ==> key_cmd(k, state) matches Cmd::Dispatch(Msg::FreeFlight(FreeFlightMessage::Move(Movement::Land))),
        pressed(k, KeyCode::Char('l')) && state is MissionExecution
            ==> key_cmd(k, state) matches Cmd::Dispatch(Msg::MissionExecution(MissionExecutionMessage::SafeLand)),
        emergency_stop(key_cmd(k, state)) ==> pressed(k, KeyCode::Char('x')),
        pressed(k, KeyCode::Char('x')) && (state is FreeFlight || state is MissionExecution)
            ==> emergency_stop(key_cmd(k, state)),
{
}

/// While the drone is up, the next move sent is the flight's own motion: its speeds,
/// height and turn rate as they stand; on the ground nothing is sent.
pub proof fn lemma_next_move_carries_the_motion<F>(
    old: FreeFlightState<F>,
    tuning: FlightTuning<F>,
    new: FreeFlightState<F>,
    cmd: Cmd<F>,
)
    requires
        free_flight_update(old, FreeFlightMessage::SendNextMove, tuning, new, cmd),
    ensures
        old.is_airborne ==> (cmd matches Cmd::SendMotion(MotionCommand::Move(sp), FreeFlightMessage::CommandSet)
            && sp.vx == old.vx && sp.vy == old.vy && sp.z == old.z && sp.yaw_rate == old.yaw_rate),
        !old.is_airborne ==> cmd is Nothing,
{
}

/// A turn asked for is the turn sent: after `YawRate(r)` the next move sent, while the
/// drone is up, turns at `r`; likewise for the forward and sideways speeds.
pub proof fn lemma_movement_is_sent<F>(
    s0: FreeFlightState<F>,
    m: Movement<F>,
    tuning: FlightTuning<F>,
    s1: FreeFlightState<F>,
    c1: Cmd<F>,
    s2: FreeFlightState<F>,
    c2: Cmd<F>,
)
    requires
        s0.is_airborne,
        free_flight_update(s0, FreeFlightMessage::Move(m), tuning, s1, c1),
        free_flight_update(s1, FreeFlightMessage::SendNextMove, tuning, s2, c2),
    ensures
        m matches Movement::YawRate(r) ==> (c2 matches Cmd::SendMotion(MotionCommand::Move(sp), _) && sp.yaw_rate == r
            && sp.vx == s0.vx && sp.vy == s0.vy),
        m matches Movement::Vx(v) ==> (c2 matches Cmd::SendMotion(MotionCommand::Move(sp), _) && sp.vx == v
            && sp.yaw_rate == s0.yaw_rate),
        m matches Movement::Vy(v) ==> (c2 matches Cmd::SendMotion(MotionCommand::Move(sp), _) && sp.vy == v
            && sp.yaw_rate == s0.yaw_rate),
{
}

/// Without a terminal that reports key releases, manual flight is never opened: from a
/// page other than a manual flight, no message leads to one or asks to fly, and the
/// terminal's report stays as it is.
pub proof fn lemma_free_flight_needs_enhancements<F>(
    msg: Msg<F>,
    m: Model<F>,
    tuning: FlightTuning<F>,
    new: Model<F>,
    cmd: Cmd<F>,
)
    requires
        !m.terminal_supports_enhancements,
        !(m.state is FreeFlight),
        commander_update(msg, m, tuning, new, cmd),
    ensures
        !new.terminal_supports_enhancements,
        !(new.state is FreeFlight),
        !(cmd is Fly),
{
}

/// `r` starts recording and `r` again stops it: on a manual flight, a press of `r` asks
/// for the message that flips whether the flight records.
pub proof fn lemma_r_toggles_recording<F>(
    k: KeyEvent,
    m0: Model<F>,
    tuning: FlightTuning<F>,
    m1: Model<F>,
    c1: Cmd<F>,
    m2: Model<F>,
    c2: Cmd<F>,
)
    requires
        k.code == KeyCode::Char('r'),
        k.kind == KeyEventKind::Press,
        m0.state is FreeFlight,
        commander_update(Msg::Key(k), m0, tuning, m1, c1),
        c1 matches Cmd::Dispatch(d) && commander_update(d, m1, tuning, m2, c2),
    ensures
        m0.state matches State::FreeFlight(s0) && m2.state matches State::FreeFlight(s2)
            && s2.is_recording == !s0.is_recording,
{
}

} // verus!
