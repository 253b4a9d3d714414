use std::time::Duration;

use crazyflie_commander::drone_commander::dev_unit::DevUnit;
use crazyflie_commander::drone_commander::messages::{
    FreeFlightMessage, MissionExecutionMessage, MissionSelectMessage, Msg, NavigationMessage,
};
use crazyflie_commander::drone_commander::model::{
    FreeFlightState, MissionExecutionState, MissionSelectState, ModeSelection, Model, Movement, SetpointRecording,
    State,
};
use crazyflie_commander::drone_commander::recording::{recorded_flight, replay_mission};
use crazyflie_commander::drone_commander::update::{
    movement_from_key, update_all, update_free_flight, update_key_evt, update_mission_execution,
    update_mission_select, Cmd, FlightTuning, KeyGauge, SpeedChange,
};
use crazyflie_commander::drone_control::command_unit::{
    Abort, Command, Meters, MetersPerSecond, MissionStatus, MotionCommand, Progress, Reason, Setpoint,
    SetpointHover, Telemetry,
};
use crazyflie_commander::keys::{KeyCode, KeyEvent, KeyEventKind};

fn tuning() -> FlightTuning<f32> {
    FlightTuning {
        zero_speed: MetersPerSecond(0.0),
        zero_yaw_rate: 0.0,
        ground: Meters(0.0),
        takeoff_height: Meters(0.5),
        initial_speed: MetersPerSecond(1.0),
        initial_yaw_rate: 45.0,
    }
}

fn press(code: KeyCode) -> KeyEvent {
    KeyEvent { code, kind: KeyEventKind::Press, control_only: false }
}

fn release(code: KeyCode) -> KeyEvent {
    KeyEvent { code, kind: KeyEventKind::Release, control_only: false }
}

fn flight() -> FreeFlightState<f32> {
    FreeFlightState {
        vx: MetersPerSecond(0.0),
        vy: MetersPerSecond(0.0),
        yaw_rate: 0.0,
        z: Meters(0.0),
        is_airborne: false,
        is_recording: false,
        recording: vec![],
        speed_setting: MetersPerSecond(1.0),
        yaw_rate_setting: 45.0,
    }
}

fn hover(d: u64) -> Command<f32> {
    Command::Hover { duration: Duration::from_secs(d) }
}

fn sample(x: f32) -> Telemetry<f32> {
    Telemetry { x: Meters(x), y: Meters(2.0), z: Meters(1.0), yaw_degrees: 10.0, ..Telemetry::default() }
}

#[test]
fn choosing_the_library_loads_it() {
    let model: Model<f32> = Model::new(Telemetry::default(), true);
    let (model, cmd) = update_all(Msg::Home(NavigationMessage::Select), model, &tuning());
    assert!(matches!(cmd, Cmd::LoadMissions));
    match &model.state {
        State::MissionSelect(s) => {
            assert!(s.missions.is_empty() && s.recorded_missions.is_empty());
            assert_eq!(s.selection, 0);
        }
        other => panic!("unexpected page {other:?}"),
    }
}

#[test]
fn manual_flight_needs_key_releases() {
    let model: Model<f32> = Model::new(Telemetry::default(), false);
    let (model, _) = update_all(Msg::Home(NavigationMessage::Up), model, &tuning());
    assert!(matches!(&model.state, State::Home(h) if h.selected_mode == ModeSelection::FreeFlightItem));
    let (model, cmd) = update_all(Msg::Home(NavigationMessage::Select), model, &tuning());
    assert!(matches!(cmd, Cmd::Nothing));
    assert!(matches!(&model.state, State::Home(_)));

    let model: Model<f32> = Model::new(Telemetry::default(), true);
    let (model, _) = update_all(Msg::Home(NavigationMessage::Up), model, &tuning());
    let (model, cmd) = update_all(Msg::Home(NavigationMessage::Select), model, &tuning());
    assert!(matches!(cmd, Cmd::Fly));
    match &model.state {
        State::FreeFlight(s) => {
            assert_eq!((s.vx, s.vy, s.z), (MetersPerSecond(0.0), MetersPerSecond(0.0), Meters(0.0)));
            assert!(!s.is_airborne && !s.is_recording && s.recording.is_empty());
            assert_eq!((s.speed_setting, s.yaw_rate_setting), (MetersPerSecond(1.0), 45.0));
        }
        other => panic!("unexpected page {other:?}"),
    }
}

#[test]
fn quit_and_go_home() {
    let mut model: Model<f32> = Model::new(Telemetry::default(), true);
    model.state = State::MissionSelect(MissionSelectState::new());
    let (model, cmd) = update_all(Msg::Quit, model, &tuning());
    assert!(model.exit && matches!(cmd, Cmd::Nothing));
    let (model, _) = update_all(Msg::ToHomeScreen, model, &tuning());
    assert!(matches!(&model.state, State::Home(h) if h.selected_mode == ModeSelection::MissionSelectItem));
    assert!(model.exit);
}

#[test]
fn selecting_a_mission_opens_its_page() {
    let model: Model<f32> = Model::new(Telemetry::default(), true);
    let (model, _) = update_all(
        Msg::MissionSelect(MissionSelectMessage::Selected(vec![hover(1)], "one".into())),
        model,
        &tuning(),
    );
    match &model.state {
        State::MissionExecution(s) => {
            assert_eq!(s.mission, vec![hover(1)]);
            assert_eq!(s.name, "one");
            assert!(!s.abort_armed);
            assert_eq!(s.mission_status, MissionStatus::Idle);
        }
        other => panic!("unexpected page {other:?}"),
    }
}

#[test]
fn library_highlight_stays_on_the_entries() {
    let mut lib: MissionSelectState<f32> = MissionSelectState::new();
    assert!(matches!(update_mission_select(&mut lib, MissionSelectMessage::Nav(NavigationMessage::Down)), Cmd::Nothing));
    assert_eq!(lib.selection, 0);
    assert!(matches!(update_mission_select(&mut lib, MissionSelectMessage::Nav(NavigationMessage::Select)), Cmd::Nothing));
    update_mission_select(
        &mut lib,
        MissionSelectMessage::MissionsLoaded(vec![("a".into(), vec![hover(1)])], vec![("r".into(), vec![hover(2)])]),
    );
    update_mission_select(&mut lib, MissionSelectMessage::Nav(NavigationMessage::Down));
    update_mission_select(&mut lib, MissionSelectMessage::Nav(NavigationMessage::Down));
    assert_eq!(lib.selection, 1);
    assert!(matches!(update_mission_select(&mut lib, MissionSelectMessage::Nav(NavigationMessage::Select)), Cmd::SelectMission(1)));
    assert_eq!(lib.entry(1).0, "r");
    update_mission_select(&mut lib, MissionSelectMessage::Nav(NavigationMessage::Up));
    update_mission_select(&mut lib, MissionSelectMessage::Nav(NavigationMessage::Up));
    assert_eq!(lib.selection, 0);
    assert_eq!(lib.entry(0).0, "a");
}

#[test]
fn an_abort_is_sent_once_per_start() {
    let mut page = MissionExecutionState::<f32> {
        mission: vec![hover(1)],
        name: "m".into(),
        abort_armed: false,
        mission_status: MissionStatus::Idle,
    };
    assert!(matches!(update_mission_execution(&mut page, MissionExecutionMessage::SafeLand), Cmd::Nothing));
    assert!(matches!(update_mission_execution(&mut page, MissionExecutionMessage::StartMission), Cmd::RunMission));
    assert!(matches!(
        update_mission_execution(&mut page, MissionExecutionMessage::EmergencyAbort),
        Cmd::SendAbort(Abort::HardStop)
    ));
    assert!(matches!(update_mission_execution(&mut page, MissionExecutionMessage::SafeLand), Cmd::Nothing));
    update_mission_execution(&mut page, MissionExecutionMessage::StartMission);
    assert!(matches!(update_mission_execution(&mut page, MissionExecutionMessage::SafeLand), Cmd::SendAbort(Abort::Land)));
    update_mission_execution(&mut page, MissionExecutionMessage::MissionUpdate(MissionStatus::Aborted(Reason::Landing)));
    assert_eq!(page.mission_status, MissionStatus::Aborted(Reason::Landing));
}

#[test]
fn manual_flight_takes_off_moves_and_lands() {
    let t = tuning();
    let mut s = flight();
    let cmd = update_free_flight(&mut s, FreeFlightMessage::Move(Movement::Start), &t);
    assert!(matches!(cmd, Cmd::SendMotion(MotionCommand::TakeOff(Meters(h)), FreeFlightMessage::TakeOffDone) if h == 0.5));
    assert_eq!(s.z, Meters(0.5));
    assert!(matches!(update_free_flight(&mut s, FreeFlightMessage::SendNextMove, &t), Cmd::Nothing));
    update_free_flight(&mut s, FreeFlightMessage::TakeOffDone, &t);
    assert!(s.is_airborne);
    let cmd = update_free_flight(&mut s, FreeFlightMessage::Move(Movement::Vx(MetersPerSecond(1.0))), &t);
    assert!(matches!(cmd, Cmd::Dispatch(Msg::FreeFlight(FreeFlightMessage::SendNextMove))));
    let cmd = update_free_flight(&mut s, FreeFlightMessage::SendNextMove, &t);
    let expected = SetpointHover { vx: MetersPerSecond(1.0), vy: MetersPerSecond(0.0), z: Meters(0.5), yaw_rate: 0.0 };
    assert!(matches!(cmd, Cmd::SendMotion(MotionCommand::Move(m), FreeFlightMessage::CommandSet) if m == expected));
    let cmd = update_free_flight(&mut s, FreeFlightMessage::Move(Movement::Land), &t);
    assert!(matches!(cmd, Cmd::SendMotion(MotionCommand::Land, FreeFlightMessage::CommandSet)));
    assert!(!s.is_airborne);
    assert_eq!((s.vx, s.z), (MetersPerSecond(0.0), Meters(0.0)));
    assert!(matches!(
        update_free_flight(&mut s, FreeFlightMessage::Move(Movement::SpeedUp), &t),
        Cmd::AdjustSpeedSettings(SpeedChange::Up)
    ));
    assert!(matches!(
        update_free_flight(&mut s, FreeFlightMessage::Abort, &t),
        Cmd::SendMotion(MotionCommand::Stop, FreeFlightMessage::CommandSet)
    ));
}

#[test]
fn recording_keeps_telemetry_until_stopped() {
    let t = tuning();
    let mut model: Model<f32> = Model::new(Telemetry::default(), true);
    model.state = State::FreeFlight(flight());
    let (model, _) = update_all(Msg::TelemetryUpdate(sample(1.0)), model, &t);
    let (model, _) = update_all(Msg::FreeFlight(FreeFlightMessage::StartRecording), model, &t);
    let (model, _) = update_all(Msg::TelemetryUpdate(sample(2.0)), model, &t);
    let (model, _) = update_all(Msg::TelemetryUpdate(sample(3.0)), model, &t);
    assert_eq!(model.telemetry, sample(3.0));
    let (model, cmd) = update_all(Msg::FreeFlight(FreeFlightMessage::StopRecording), model, &t);
    match cmd {
        Cmd::StoreRecording(r) => {
            assert_eq!(r.len(), 2);
            assert_eq!(r[0], SetpointRecording { x: Meters(2.0), y: Meters(2.0), z: Meters(1.0), yaw_degrees: 10.0 });
            assert_eq!(r[1].x, Meters(3.0));
        }
        other => panic!("unexpected work {other:?}"),
    }
    match &model.state {
        State::FreeFlight(s) => assert!(!s.is_recording && s.recording.is_empty()),
        other => panic!("unexpected page {other:?}"),
    }
}

#[test]
fn keys_by_page() {
    let mut model: Model<f32> = Model::new(Telemetry::default(), true);
    assert!(matches!(update_key_evt(press(KeyCode::Char('q')), &model), Cmd::Dispatch(Msg::Quit)));
    assert!(matches!(update_key_evt(press(KeyCode::Char('c')), &model), Cmd::Nothing));
    let ctrl_c = KeyEvent { code: KeyCode::Char('c'), kind: KeyEventKind::Press, control_only: true };
    assert!(matches!(update_key_evt(ctrl_c, &model), Cmd::Dispatch(Msg::Quit)));
    assert!(matches!(update_key_evt(press(KeyCode::Char('j')), &model), Cmd::Dispatch(Msg::Home(NavigationMessage::Down))));
    assert!(matches!(update_key_evt(press(KeyCode::Down), &model), Cmd::Nothing));
    assert!(matches!(update_key_evt(release(KeyCode::Char('q')), &model), Cmd::Nothing));

    model.state = State::MissionExecution(MissionExecutionState {
        mission: vec![],
        name: "m".into(),
        abort_armed: false,
        mission_status: MissionStatus::Running(None),
    });
    assert!(matches!(update_key_evt(press(KeyCode::Char('b')), &model), Cmd::Nothing));
    assert!(matches!(update_key_evt(press(KeyCode::Char('t')), &model), Cmd::Nothing));
    assert!(matches!(
        update_key_evt(press(KeyCode::Char('x')), &model),
        Cmd::Dispatch(Msg::MissionExecution(MissionExecutionMessage::EmergencyAbort))
    ));
    assert!(matches!(
        update_key_evt(press(KeyCode::Char('l')), &model),
        Cmd::Dispatch(Msg::MissionExecution(MissionExecutionMessage::SafeLand))
    ));
    assert!(matches!(
        update_key_evt(press(KeyCode::Char('h')), &model),
        Cmd::Dispatch(Msg::MissionExecution(MissionExecutionMessage::SafeLand))
    ));
    assert!(matches!(update_key_evt(release(KeyCode::Char('h')), &model), Cmd::Nothing));
    assert!(matches!(update_key_evt(press(KeyCode::Char('w')), &model), Cmd::Nothing));
    if let State::MissionExecution(s) = &mut model.state {
        s.mission_status = MissionStatus::Aborted(Reason::Landing);
    }
    assert!(matches!(
        update_key_evt(press(KeyCode::Char('t')), &model),
        Cmd::Dispatch(Msg::MissionExecution(MissionExecutionMessage::StartMission))
    ));
    assert!(matches!(update_key_evt(press(KeyCode::Char('b')), &model), Cmd::Dispatch(Msg::ToHomeScreen)));

    model.state = State::FreeFlight(flight());
    assert!(matches!(update_key_evt(press(KeyCode::Up), &model), Cmd::MovementKey(_)));
    assert!(matches!(update_key_evt(release(KeyCode::Char('w')), &model), Cmd::MovementKey(_)));
    assert!(matches!(
        update_key_evt(press(KeyCode::Char('r')), &model),
        Cmd::Dispatch(Msg::FreeFlight(FreeFlightMessage::StartRecording))
    ));
    assert!(matches!(
        update_key_evt(press(KeyCode::Char('t')), &model),
        Cmd::Dispatch(Msg::FreeFlight(FreeFlightMessage::Move(Movement::Start)))
    ));
    let (model, cmd) = update_all(Msg::Key(press(KeyCode::Char('b'))), model, &tuning());
    assert!(matches!(cmd, Cmd::Dispatch(Msg::ToHomeScreen)));
    assert!(matches!(model.state, State::FreeFlight(_)));
}

#[test]
fn movement_keys_follow_the_settings() {
    let t = tuning();
    let s = flight();
    let still = KeyGauge {
        vx_at_most_zero: true,
        vx_at_least_zero: true,
        vy_at_most_zero: true,
        vy_at_least_zero: true,
        reverse_speed: MetersPerSecond(-1.0),
        reverse_yaw_rate: -45.0,
    };
    assert_eq!(movement_from_key(press(KeyCode::Char('w')), &s, &still, &t), Some(Movement::Vx(MetersPerSecond(1.0))));
    assert_eq!(movement_from_key(press(KeyCode::Char('s')), &s, &still, &t), Some(Movement::Vx(MetersPerSecond(-1.0))));
    assert_eq!(movement_from_key(press(KeyCode::Char('a')), &s, &still, &t), Some(Movement::Vy(MetersPerSecond(1.0))));
    assert_eq!(movement_from_key(press(KeyCode::Char('d')), &s, &still, &t), Some(Movement::Vy(MetersPerSecond(-1.0))));
    assert_eq!(movement_from_key(release(KeyCode::Char('d')), &s, &still, &t), Some(Movement::Vy(MetersPerSecond(0.0))));
    assert_eq!(movement_from_key(press(KeyCode::Left), &s, &still, &t), Some(Movement::YawRate(45.0)));
    assert_eq!(movement_from_key(press(KeyCode::Right), &s, &still, &t), Some(Movement::YawRate(-45.0)));
    assert_eq!(movement_from_key(release(KeyCode::Right), &s, &still, &t), Some(Movement::YawRate(0.0)));
    assert_eq!(movement_from_key(press(KeyCode::Char('h')), &s, &still, &t), Some(Movement::GoHome));
    assert_eq!(movement_from_key(press(KeyCode::Up), &s, &still, &t), Some(Movement::SpeedUp));
    assert_eq!(movement_from_key(press(KeyCode::Down), &s, &still, &t), Some(Movement::SpeedDown));
    assert_eq!(movement_from_key(release(KeyCode::Up), &s, &still, &t), None);
    let forward = KeyGauge { vx_at_most_zero: false, ..still };
    assert_eq!(movement_from_key(press(KeyCode::Char('w')), &s, &forward, &t), None);
    let repeat = KeyEvent { code: KeyCode::Char('w'), kind: KeyEventKind::Repeat, control_only: false };
    assert_eq!(movement_from_key(repeat, &s, &still, &t), None);
}

#[test]
fn a_recording_replays_as_a_mission() {
    let recording = vec![
        SetpointRecording { x: Meters(1.0f32), y: Meters(2.0), z: Meters(0.8), yaw_degrees: 5.0 },
        SetpointRecording { x: Meters(1.5), y: Meters(2.0), z: Meters(1.2), yaw_degrees: 0.0 },
    ];
    let land = Duration::from_millis(1200);
    let mission = replay_mission(&recording, Meters(0.5), land).unwrap();
    assert_eq!(
        mission,
        vec![
            Command::Takeoff { height: Meters(0.5), duration: Duration::from_secs(1) },
            Command::MoveToWaypoint { x: Meters(1.0), y: Meters(2.0), z: Meters(0.8), duration: Duration::from_secs(2) },
            Command::Setpoints {
                points: vec![
                    Setpoint::PositionPoint { x: Meters(1.0), y: Meters(2.0), z: Meters(0.8), yaw_degrees: 5.0 },
                    Setpoint::PositionPoint { x: Meters(1.5), y: Meters(2.0), z: Meters(1.2), yaw_degrees: 0.0 },
                ],
            },
            Command::Land { duration: land },
        ]
    );
    assert_eq!(replay_mission::<f32>(&vec![], Meters(0.5), land), None);
    let (name, stored) = recorded_flight(&recording, Meters(0.5), land).unwrap();
    assert_eq!(stored, mission);
    assert_eq!(name.len(), "2024-01-31_23-59-59".len());
    assert!(recorded_flight::<f32>(&vec![], Meters(0.5), land).is_none());
}

#[test]
fn the_stand_in_drone_reports_each_command_then_idle() {
    let statuses = DevUnit::mission_statuses(vec![hover(1), hover(2)]);
    assert_eq!(
        statuses,
        vec![
            MissionStatus::Running(Some(Progress { current_command: hover(1), command_num: 0, total_commands: 2 })),
            MissionStatus::Running(Some(Progress { current_command: hover(2), command_num: 1, total_commands: 2 })),
            MissionStatus::Idle,
        ]
    );
    assert_eq!(DevUnit::mission_statuses::<f32>(vec![]), vec![MissionStatus::Idle]);
}
