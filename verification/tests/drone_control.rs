use std::time::Duration;

use crazyflie_commander::drone_control::command_unit::{
    battery_level_of, Abort, MissionStatus, Progress, BatteryLevel, Command, LinkMode, Meters, MetersPerSecond, MotionCommand, Reason, SetpointHover, Telemetry,
    TrajectoryId, Waypoint, FlightMode,
};
use crazyflie_commander::drone_control::crazyflie::{
    end_mission, fly_decide, plan_command, progress_statuses, EndAction, FlyAction, FlyEvent, Hold, MissionEnd, VehicleAction,
};
use crazyflie_commander::drone_control::vehicle::TrajectoryState;

fn orbit() -> Command<f32> {
    Command::Orbit { radius: Meters(1.0), orbital_period: Duration::from_secs(4), orbits: 2, z: Meters(1.5) }
}

fn path() -> Command<f32> {
    Command::SmoothPath {
        waypoints: vec![Waypoint { x: Meters(0.0), y: Meters(0.0), z: Meters(1.0) }],
        speed: MetersPerSecond(0.5),
        flight_mode: FlightMode::BodyFrame,
    }
}

#[test]
fn moves_are_relative_and_waypoints_absolute() {
    let d = Duration::from_secs(2);
    assert_eq!(
        plan_command(Command::Move { x: Meters(1.0f32), y: Meters(0.0), z: Meters(0.5), duration: d }, LinkMode::OnVehicle),
        VehicleAction::GoTo { x: Meters(1.0), y: Meters(0.0), z: Meters(0.5), duration: d, relative: true }
    );
    assert_eq!(
        plan_command(Command::MoveToWaypoint { x: Meters(1.0f32), y: Meters(0.0), z: Meters(0.5), duration: d }, LinkMode::OnVehicle),
        VehicleAction::GoTo { x: Meters(1.0), y: Meters(0.0), z: Meters(0.5), duration: d, relative: false }
    );
    assert_eq!(plan_command(Command::<f32>::Hover { duration: d }, LinkMode::StreamToVehicle), VehicleAction::Sleep { duration: d });
    assert_eq!(plan_command(Command::<f32>::Land { duration: d }, LinkMode::StreamToVehicle), VehicleAction::Land { duration: d });
    assert_eq!(
        plan_command(Command::Takeoff { height: Meters(0.5f32), duration: d }, LinkMode::StreamToVehicle),
        VehicleAction::TakeOff { height: Meters(0.5), duration: d }
    );
}

#[test]
fn orbits_and_paths_follow_the_link_mode() {
    assert_eq!(
        plan_command(orbit(), LinkMode::OnVehicle),
        VehicleAction::UploadOrbit { radius: Meters(1.0), orbital_period: Duration::from_secs(4), orbits: 2, z: Meters(1.5) }
    );
    assert_eq!(
        plan_command(orbit(), LinkMode::StreamToVehicle),
        VehicleAction::StreamOrbit { radius: Meters(1.0), orbital_period: Duration::from_secs(4), orbits: 2, z: Meters(1.5) }
    );
    assert!(matches!(plan_command(path(), LinkMode::OnVehicle), VehicleAction::UploadSmoothPath { .. }));
    assert!(matches!(plan_command(path(), LinkMode::StreamToVehicle), VehicleAction::StreamSmoothPath { .. }));
    assert!(orbit().can_upload_trajectory());
    assert!(path().can_upload_trajectory());
    assert!(!Command::<f32>::Hover { duration: Duration::from_secs(1) }.can_upload_trajectory());
    assert_eq!(LinkMode::default(), LinkMode::StreamToVehicle);
}

#[test]
fn how_missions_end() {
    assert_eq!(end_mission(MissionEnd::Completed), (EndAction::Done, None));
    assert_eq!(end_mission(MissionEnd::AbortRequested(Abort::HardStop)), (EndAction::EmergencyStop, Some(Reason::HardStop)));
    assert_eq!(end_mission(MissionEnd::AbortRequested(Abort::Land)), (EndAction::ReturnHome, Some(Reason::Landing)));
    assert_eq!(end_mission(MissionEnd::LowBattery), (EndAction::ReturnHome, Some(Reason::Landing)));
}

#[test]
fn manual_flight_repeats_the_last_setpoint() {
    let mut hold: Hold<f32> = Hold::Nothing;
    assert_eq!(fly_decide(&mut hold, FlyEvent::Tick), (FlyAction::Nothing, true));
    assert_eq!(fly_decide(&mut hold, FlyEvent::Motion(MotionCommand::TakeOff(Meters(1.0)))), (FlyAction::TakeOff(Meters(1.0)), true));
    assert_eq!(hold, Hold::HoverAt(Meters(1.0)));
    assert_eq!(fly_decide(&mut hold, FlyEvent::Tick), (FlyAction::SendHover(Meters(1.0)), true));
    let s = SetpointHover { vx: MetersPerSecond(0.3), vy: MetersPerSecond(0.0), z: Meters(1.0), yaw_rate: 0.0 };
    assert_eq!(fly_decide(&mut hold, FlyEvent::Motion(MotionCommand::Move(s))), (FlyAction::SendRelativeSpeed(s), true));
    assert_eq!(fly_decide(&mut hold, FlyEvent::Tick), (FlyAction::SendRelativeSpeed(s), true));
    assert_eq!(fly_decide(&mut hold, FlyEvent::Motion(MotionCommand::Land)), (FlyAction::StopSetpointsAndLand, true));
    assert_eq!(hold, Hold::Nothing);
    assert_eq!(fly_decide(&mut hold, FlyEvent::Tick), (FlyAction::Nothing, true));
}

#[test]
fn manual_flight_ends_on_low_battery_stop_or_end_of_commands() {
    let mut hold: Hold<f32> = Hold::HoverAt(Meters(1.0));
    assert_eq!(fly_decide(&mut hold, FlyEvent::LowBattery), (FlyAction::ReturnHome, false));
    assert_eq!(fly_decide(&mut hold, FlyEvent::Motion(MotionCommand::Stop)), (FlyAction::EmergencyStop, false));
    assert_eq!(fly_decide(&mut hold, FlyEvent::CommandsEnded), (FlyAction::ReturnHome, false));
    let mut idle: Hold<f32> = Hold::Nothing;
    assert_eq!(fly_decide(&mut idle, FlyEvent::CommandsEnded), (FlyAction::Nothing, false));
    assert_eq!(fly_decide(&mut hold, FlyEvent::Motion(MotionCommand::GoHome)), (FlyAction::ReturnHome, true));
    assert_eq!(hold, Hold::Nothing);
}

#[test]
fn trajectories_are_numbered_and_packed() {
    let mut memory = TrajectoryState::new();
    assert_eq!(memory.current_id, TrajectoryId(0));
    let first = memory.reservation();
    assert_eq!(first, TrajectoryState { current_id: TrajectoryId(1), offset_bytes: 0 });
    memory.commit(first, 120);
    let second = memory.reservation();
    assert_eq!(second, TrajectoryState { current_id: TrajectoryId(2), offset_bytes: 120 });
    memory.commit(second, 30);
    assert_eq!(memory, TrajectoryState { current_id: TrajectoryId(2), offset_bytes: 150 });
}

#[test]
fn telemetry_reads_back_its_fields() {
    let t = Telemetry {
        x: Meters(1.0f32),
        y: Meters(2.0),
        z: Meters(3.0),
        x_v: MetersPerSecond(0.1),
        y_v: MetersPerSecond(0.2),
        yaw_degrees: 90.0,
        battery_level: BatteryLevel::Low,
    };
    assert_eq!((t.x(), t.y(), t.z(), t.vx(), t.vy(), t.yaw()), (1.0, 2.0, 3.0, 0.1, 0.2, 90.0));
    assert!(t.is_low_bat());
    assert!(!Telemetry::<f32>::default().is_low_bat());
}

#[test]
fn low_power_states_read_as_a_low_battery() {
    assert_eq!(battery_level_of(0), BatteryLevel::High);
    assert_eq!(battery_level_of(2), BatteryLevel::High);
    assert_eq!(battery_level_of(3), BatteryLevel::Low);
    assert_eq!(battery_level_of(4), BatteryLevel::Low);
}

#[test]
fn a_mission_reports_each_command_before_flying_it() {
    let mission = vec![orbit(), Command::Land { duration: Duration::from_secs(2) }];
    let statuses = progress_statuses(mission.clone());
    assert_eq!(
        statuses,
        vec![
            MissionStatus::Running(Some(Progress { current_command: orbit(), command_num: 0, total_commands: 2 })),
            MissionStatus::Running(Some(Progress {
                current_command: Command::Land { duration: Duration::from_secs(2) },
                command_num: 1,
                total_commands: 2,
            })),
        ]
    );
    assert!(progress_statuses::<f32>(vec![]).is_empty());
}
