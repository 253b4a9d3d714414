use std::time::Duration;

use crazyflie_commander::datalink::domain_types::{
    Abort, FlightMode, Meters, MetersPerSecond, MissionItem, MissionStatus, Reason, TrajectoryId,
};
use crazyflie_commander::gcs::config::{ConfFile, LocalStoreSettings, UnknownLocation};
use crazyflie_commander::gcs::pages::mission_monitor::{
    self, map_key_evt, with_stored_trajectories, Cmd as MonitorCmd, ExecutionMode, Msg as MonitorMsg,
};
use crazyflie_commander::gcs::pages::mission_select::{self, Cmd, NavOrExit};
use crazyflie_commander::gcs::program::NavigationMessage::{Down, Select, Up};
use crazyflie_commander::keys::{KeyCode, KeyEvent, KeyEventKind};

fn library(n: usize, m: usize) -> mission_select::Model<u32> {
    let mut model = mission_select::Model::new();
    model.missions = (0..n).map(|i| (format!("m{i}"), i as u32)).collect();
    model.recorded_missions = (0..m).map(|i| (format!("r{i}"), 100 + i as u32)).collect();
    model
}

#[test]
fn selection_moves_within_both_lists() {
    let mut model = library(2, 1);
    assert_eq!(mission_select::update(&mut model, mission_select::Msg::Nav(Down)), Cmd::Nothing);
    assert_eq!(model.selection, 1);
    mission_select::update(&mut model, mission_select::Msg::Nav(Down));
    mission_select::update(&mut model, mission_select::Msg::Nav(Down));
    assert_eq!(model.selection, 2);
    assert_eq!(mission_select::update(&mut model, mission_select::Msg::Nav(Select)), Cmd::Select(2));
    assert_eq!(model.entry(2), &("r0".to_string(), 100));
    for _ in 0..5 {
        mission_select::update(&mut model, mission_select::Msg::Nav(Up));
    }
    assert_eq!(model.selection, 0);
}

#[test]
fn empty_library_ignores_navigation() {
    let mut model = library(0, 0);
    assert_eq!(mission_select::update(&mut model, mission_select::Msg::Nav(Down)), Cmd::Nothing);
    assert_eq!(mission_select::update(&mut model, mission_select::Msg::Nav(Select)), Cmd::Nothing);
    assert_eq!(model.selection, 0);
    assert_eq!(mission_select::update(&mut model, mission_select::Msg::LoadMissions), Cmd::LoadMissions);
    mission_select::update(&mut model, mission_select::Msg::MissionsLoaded(vec![("a".into(), 1)], vec![]));
    assert_eq!(model.missions.len(), 1);
}

#[test]
fn library_keys() {
    let model = library(1, 0);
    let press = |c| KeyEvent { code: c, kind: KeyEventKind::Press, control_only: false };
    assert_eq!(mission_select::map_key_evt(press(KeyCode::Char('b')), &model), Some(NavOrExit::ExitPage));
    assert_eq!(mission_select::map_key_evt(press(KeyCode::Up), &model), Some(NavOrExit::Nav(Up)));
    assert_eq!(mission_select::map_key_evt(press(KeyCode::Char('q')), &model), None);
}

fn orbit() -> MissionItem<f32> {
    MissionItem::Orbit { radius: Meters(0.7), orbital_period: Duration::from_secs(4), orbits: 2, z: Meters(0.5) }
}

fn land() -> MissionItem<f32> {
    MissionItem::Land { duration: Duration::from_secs(2) }
}

#[test]
fn upload_needs_an_uploadable_item_on_the_ground() {
    let model = mission_monitor::Model::new(vec![land()], "l".into());
    assert!(!model.trajectory_upload_available());
    let mut model = mission_monitor::Model::new(vec![orbit(), land()], "o".into());
    assert!(model.trajectory_upload_available());
    mission_monitor::update(&mut model, MonitorMsg::MissionUpdate(MissionStatus::Aborted(Reason::Landing)));
    assert!(!model.trajectory_upload_available());
}

#[test]
fn toggling_uploads_then_goes_back_online() {
    let mut model = mission_monitor::Model::new(vec![orbit(), land()], "o".into());
    assert_eq!(mission_monitor::update(&mut model, MonitorMsg::ToggleLinkMode), MonitorCmd::UploadMission);
    let stored = with_stored_trajectories(
        vec![orbit(), land()],
        vec![Some((TrajectoryId(1), Duration::from_secs(6))), None],
    );
    assert_eq!(
        stored[0],
        MissionItem::OnVehicleTrajectory {
            id: TrajectoryId(1),
            duration: Duration::from_secs(6),
            original_command: Box::new(orbit()),
        }
    );
    assert_eq!(stored[1], land());
    assert_eq!(mission_monitor::update(&mut model, MonitorMsg::MissionUploaded(Ok(stored))), MonitorCmd::Nothing);
    assert_eq!(model.link_mode, ExecutionMode::Offline);
    // Once every uploadable item is stored, nothing is left to upload, so the toggle waits.
    assert_eq!(mission_monitor::update(&mut model, MonitorMsg::ToggleLinkMode), MonitorCmd::Nothing);
    assert_eq!(model.link_mode, ExecutionMode::Offline);
    model.convert_to_online_missions();
    assert_eq!(model.mission, vec![orbit(), land()]);
}

#[test]
fn toggling_back_online_after_failed_upload() {
    let mut model = mission_monitor::Model::new(vec![orbit(), land()], "o".into());
    mission_monitor::update(&mut model, MonitorMsg::MissionUploaded(Err("radio".into())));
    assert_eq!(mission_monitor::update(&mut model, MonitorMsg::ToggleLinkMode), MonitorCmd::Nothing);
    assert_eq!(model.link_mode, ExecutionMode::Online);
    assert_eq!(model.mission, vec![orbit(), land()]);
}

#[test]
fn failed_upload_is_recorded() {
    let mut model = mission_monitor::Model::new(vec![orbit()], "o".into());
    mission_monitor::update(&mut model, MonitorMsg::MissionUploaded(Err("radio".into())));
    assert_eq!(model.link_mode, ExecutionMode::FailedUpload);
    assert_eq!(model.mission, vec![orbit()]);
}

#[test]
fn monitor_aborts_and_starts() {
    let mut model = mission_monitor::Model::new(vec![land()], "l".into());
    assert_eq!(mission_monitor::update(&mut model, MonitorMsg::StartMission), MonitorCmd::SubmitMission);
    assert_eq!(mission_monitor::update(&mut model, MonitorMsg::SafeLand), MonitorCmd::AbortMission(Abort::Land));
    assert_eq!(
        mission_monitor::update(&mut model, MonitorMsg::EmergencyAbort),
        MonitorCmd::AbortMission(Abort::FlightTermination)
    );
}

#[test]
fn monitor_keys_depend_on_status() {
    let press = |c| KeyEvent { code: KeyCode::Char(c), kind: KeyEventKind::Press, control_only: false };
    let mut model = mission_monitor::Model::new(vec![land()], "l".into());
    assert!(matches!(map_key_evt(press('t'), &model), Some(MonitorMsg::StartMission)));
    assert!(matches!(map_key_evt(press('b'), &model), Some(MonitorMsg::ExitPage)));
    model.mission_status = MissionStatus::Running(None);
    assert!(map_key_evt(press('t'), &model).is_none());
    assert!(map_key_evt(press('u'), &model).is_none());
    assert!(map_key_evt(press('b'), &model).is_none());
    assert!(matches!(map_key_evt(press('x'), &model), Some(MonitorMsg::EmergencyAbort)));
    model.mission_status = MissionStatus::Aborted(Reason::HardStop);
    assert!(matches!(map_key_evt(press('b'), &model), Some(MonitorMsg::ExitPage)));
    assert!(map_key_evt(press('t'), &model).is_none());
}

#[test]
fn smooth_paths_count_as_uploadable() {
    let path = MissionItem::SmoothPath {
        waypoints: vec![],
        speed: MetersPerSecond(1.0f32),
        flight_mode: FlightMode::Strafe,
    };
    assert!(path.can_upload_trajectory());
    assert!(!land().can_upload_trajectory());
}

#[test]
fn conf_file_by_location() {
    assert_eq!(ConfFile::from_location("local".into()), Ok(ConfFile("local.toml".into())));
    assert_eq!(ConfFile::from_location("remote".into()), Ok(ConfFile("remote.toml".into())));
    assert_eq!(ConfFile::from_location("cloud".into()), Err(UnknownLocation("cloud".into())));
    let settings = LocalStoreSettings { file_path: "missions".into() };
    assert_eq!(settings.file_path, "missions");
}
