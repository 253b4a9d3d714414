use std::time::Duration;

use crazyflie_commander::datalink::domain_types::{
    BatteryLevel, Cell, Meters, MissionItem, MissionStatus, Setpoint, Telemetry, VehicleHealth,
};
use crazyflie_commander::drone_commander::model::SetpointRecording;
use crazyflie_commander::gcs::external::mission_service::recording_to_mission;
use crazyflie_commander::gcs::pages::{home, mission_monitor, mission_select};
use crazyflie_commander::gcs::program::{
    update, update_key_evt, Cmd, ManualControlMsg, Model, Msg, NavigationMessage, State,
};
use crazyflie_commander::keys::{KeyCode, KeyEvent, KeyEventKind};

fn press(code: KeyCode) -> KeyEvent {
    KeyEvent { code, kind: KeyEventKind::Press, control_only: false }
}

fn land() -> MissionItem<f32> {
    MissionItem::Land { duration: Duration::from_secs(2) }
}

fn start(enhanced: bool) -> Model<f32> {
    Model::new(Telemetry::default(), enhanced)
}

#[test]
fn the_station_starts_at_home() {
    let model = start(true);
    assert!(matches!(&model.state, State::Home(h) if h.selected_mode == home::ModeSelection::MissionSelect));
    assert_eq!(model.health, VehicleHealth { battery_level: BatteryLevel::High });
    assert_eq!(model.grid, vec![Vec::<Cell<f32>>::new()]);
    assert!(!model.exit);
}

#[test]
fn vehicle_updates_are_kept() {
    let tele = Telemetry { x: Meters(1.0f32), ..Telemetry::default() };
    let (model, cmd) = update(Msg::TelemetryUpdate(tele), start(true));
    assert!(matches!(cmd, Cmd::Nothing));
    assert_eq!(model.telemetry.x(), 1.0);
    let low = VehicleHealth { battery_level: BatteryLevel::Low };
    let (model, _) = update(Msg::HealthUpdate(low), model);
    assert!(model.health.is_low_bat());
    let grid = vec![vec![Cell { ln_ods: 0.5f32 }, Cell { ln_ods: -0.5 }]];
    let (model, _) = update(Msg::GridUpdate(grid.clone()), model);
    assert_eq!(model.grid, grid);
    let (model, cmd) = update(Msg::Quit, model);
    assert!(model.exit && matches!(cmd, Cmd::Nothing));
}

#[test]
fn home_choices() {
    let (model, cmd) = update(Msg::Home(home::Msg::Nav(NavigationMessage::Select)), start(true));
    assert!(matches!(cmd, Cmd::Dispatch(Msg::MissionSelect(mission_select::Msg::LoadMissions))));
    assert!(matches!(&model.state, State::MissionSelect(s) if s.missions.is_empty() && s.selection == 0));

    let (model, _) = update(Msg::Home(home::Msg::Nav(NavigationMessage::Up)), start(true));
    assert!(matches!(&model.state, State::Home(h) if h.selected_mode == home::ModeSelection::ManualControl));
    let (model, cmd) = update(Msg::Home(home::Msg::Nav(NavigationMessage::Select)), model);
    assert!(matches!(cmd, Cmd::ManualControl));
    assert!(matches!(&model.state, State::ManualControl(s) if !s.is_recording && s.recording.is_empty()));

    let (model, _) = update(Msg::Home(home::Msg::Nav(NavigationMessage::Up)), start(false));
    let (_, cmd) = update(Msg::Home(home::Msg::Nav(NavigationMessage::Select)), model);
    assert!(matches!(cmd, Cmd::Nothing));

    let (model, _) = update(Msg::Home(home::Msg::Nav(NavigationMessage::Down)), start(true));
    let (model, cmd) = update(Msg::Home(home::Msg::Nav(NavigationMessage::Select)), model);
    assert!(matches!(cmd, Cmd::Nothing));
    assert!(matches!(&model.state, State::Home(h) if h.selected_mode == home::ModeSelection::MissionPlan));
}

#[test]
fn library_then_mission_page_then_home() {
    let (model, _) = update(Msg::Home(home::Msg::Nav(NavigationMessage::Select)), start(true));
    let loaded = mission_select::Msg::MissionsLoaded(vec![("a".into(), vec![land()])], vec![]);
    let (model, cmd) = update(Msg::MissionSelect(loaded), model);
    assert!(matches!(cmd, Cmd::MissionSelect(mission_select::Cmd::Nothing)));
    let (model, cmd) = update(Msg::MissionSelect(mission_select::Msg::Nav(NavigationMessage::Select)), model);
    assert!(matches!(cmd, Cmd::MissionSelect(mission_select::Cmd::Select(0))));
    let (model, _) = update(Msg::MissionSelect(mission_select::Msg::ExitSelected(vec![land()], "a".into())), model);
    match &model.state {
        State::MissionExecution(s) => {
            assert_eq!(s.mission, vec![land()]);
            assert_eq!(s.name, "a");
            assert_eq!(s.link_mode, mission_monitor::ExecutionMode::Online);
        }
        other => panic!("unexpected page {other:?}"),
    }
    let (model, cmd) = update(Msg::MissionExecution(mission_monitor::Msg::StartMission), model);
    assert!(matches!(cmd, Cmd::MissionExecution(mission_monitor::Cmd::SubmitMission)));
    let (model, _) = update(Msg::MissionExecution(mission_monitor::Msg::MissionUpdate(MissionStatus::Running(None))), model);
    assert!(matches!(&model.state, State::MissionExecution(s) if s.mission_status == MissionStatus::Running(None)));
    let (model, _) = update(Msg::MissionExecution(mission_monitor::Msg::ExitPage), model);
    assert!(matches!(&model.state, State::Home(h) if h.selected_mode == home::ModeSelection::MissionSelect));
}

#[test]
fn page_messages_for_other_pages_are_dropped() {
    let (model, cmd) = update(Msg::MissionExecution(mission_monitor::Msg::StartMission), start(true));
    assert!(matches!(cmd, Cmd::Nothing));
    assert!(matches!(&model.state, State::Home(_)));
}

#[test]
fn station_keys() {
    let model = start(true);
    assert!(matches!(update_key_evt(press(KeyCode::Esc), &model), Cmd::Dispatch(Msg::Quit)));
    let ctrl_c = KeyEvent { code: KeyCode::Char('C'), kind: KeyEventKind::Press, control_only: true };
    assert!(matches!(update_key_evt(ctrl_c, &model), Cmd::Dispatch(Msg::Quit)));
    assert!(matches!(update_key_evt(press(KeyCode::Char('c')), &model), Cmd::Nothing));
    assert!(matches!(
        update_key_evt(press(KeyCode::Down), &model),
        Cmd::Dispatch(Msg::Home(home::Msg::Nav(NavigationMessage::Down)))
    ));
    let (model, _) = update(Msg::Home(home::Msg::Nav(NavigationMessage::Select)), model);
    assert!(matches!(update_key_evt(press(KeyCode::Char('b')), &model), Cmd::Dispatch(Msg::MissionSelect(mission_select::Msg::ExitPage))));
    let (model, _) = update(Msg::MissionSelect(mission_select::Msg::ExitSelected(vec![land()], "l".into())), model);
    assert!(matches!(
        update_key_evt(press(KeyCode::Char('t')), &model),
        Cmd::Dispatch(Msg::MissionExecution(mission_monitor::Msg::StartMission))
    ));
    let (model, cmd) = update(Msg::Key(press(KeyCode::Char('x'))), model);
    assert!(matches!(cmd, Cmd::Dispatch(Msg::MissionExecution(mission_monitor::Msg::EmergencyAbort))));
    assert!(matches!(&model.state, State::MissionExecution(_)));
}

#[test]
fn recorded_flight_for_the_mission_store() {
    let recording = vec![SetpointRecording { x: Meters(0.5f32), y: Meters(0.0), z: Meters(1.0), yaw_degrees: 0.0 }];
    let (name, mission) = recording_to_mission(&recording, Meters(0.5), Duration::from_secs(2)).unwrap();
    assert_eq!(name.len(), "2024-01-31_23-59-59".len());
    assert_eq!(
        mission,
        vec![
            MissionItem::Takeoff { height: Meters(0.5), duration: Duration::from_secs(1) },
            MissionItem::MoveToWaypoint { x: Meters(0.5), y: Meters(0.0), z: Meters(1.0), duration: Duration::from_secs(2) },
            MissionItem::Setpoints {
                points: vec![Setpoint::PositionPoint { x: Meters(0.5), y: Meters(0.0), z: Meters(1.0), yaw_degrees: 0.0 }],
            },
            MissionItem::Land { duration: Duration::from_secs(2) },
        ]
    );
    assert!(recording_to_mission::<f32>(&vec![], Meters(0.5), Duration::from_secs(2)).is_none());
}

#[test]
fn manual_control_records_telemetry_and_leaves_home() {
    let (model, _) = update(Msg::Home(home::Msg::Nav(NavigationMessage::Up)), start(true));
    let (mut model, _) = update(Msg::Home(home::Msg::Nav(NavigationMessage::Select)), model);
    let sample = Telemetry { x: Meters(1.0f32), y: Meters(2.0), z: Meters(0.5), yaw_degrees: 90.0, ..Telemetry::default() };
    let (next, _) = update(Msg::TelemetryUpdate(sample), model);
    model = next;
    assert!(matches!(&model.state, State::ManualControl(s) if s.recording.is_empty()));
    if let State::ManualControl(s) = &mut model.state {
        s.is_recording = true;
    }
    let (model, _) = update(Msg::TelemetryUpdate(sample), model);
    match &model.state {
        State::ManualControl(s) => {
            assert_eq!(s.recording, vec![SetpointRecording { x: Meters(1.0), y: Meters(2.0), z: Meters(0.5), yaw_degrees: 90.0 }]);
        }
        other => panic!("unexpected page {other:?}"),
    }
    assert!(matches!(update_key_evt(press(KeyCode::Char('w')), &model), Cmd::Nothing));
    let (model, cmd) = update(Msg::ManualControl(ManualControlMsg::CommandSet), model);
    assert!(matches!(cmd, Cmd::Nothing));
    assert!(matches!(&model.state, State::ManualControl(_)));
    let (model, _) = update(Msg::ManualControl(ManualControlMsg::ExitPage), model);
    assert!(matches!(&model.state, State::Home(h) if h.selected_mode == home::ModeSelection::MissionSelect));
}
