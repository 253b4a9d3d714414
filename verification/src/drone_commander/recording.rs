//! A recorded manual flight, turned into a mission that flies it again.
use vstd::prelude::*;
use crate::clock::local_timestamp;
use crate::datalink::domain_types::duration_from_secs;
use crate::drone_commander::model::{setpoint_of, SetpointRecording};
use crate::drone_commander::update::recorded;
use crate::drone_control::command_unit::{Command, Meters, Setpoint, Telemetry};

verus! {

/// `mission` flies `recording` again: take off to `takeoff_height` in a second, fly in
/// two seconds to the first recorded position, pass every recorded position in order,
/// and land in `land_duration`.
pub open spec fn replays<F>(
    mission: Seq<Command<F>>,
    recording: Seq<SetpointRecording<F>>,
    takeoff_height: Meters<F>,
    land_duration: std::time::Duration,
) -> bool {
    &&& mission.len() == 4
    &&& mission[0] == Command::<F>::Takeoff { height: takeoff_height, duration: duration_from_secs(1) }
    &&& mission[1] == Command::<F>::MoveToWaypoint {
        x: recording[0].x,
        y: recording[0].y,
        z: recording[0].z,
        duration: duration_from_secs(2),
    }
    &&& mission[2] matches Command::Setpoints { points }
        && points@ == recording.map_values(|p: SetpointRecording<F>| setpoint_of(p))
    &&& mission[3] == Command::<F>::Land { duration: land_duration }
}

/// The mission that flies `recording` again, landing in `land_duration`; nothing for an
/// empty recording.
pub fn replay_mission<F: Copy>(
    recording: &Vec<SetpointRecording<F>>,
    takeoff_height: Meters<F>,
    land_duration: std::time::Duration,
) -> (mission: Option<Vec<Command<F>>>)
    ensures
        mission is None <==> recording@.len() == 0,
        mission matches Some(m) ==> replays(m@, recording@, takeoff_height, land_duration),
        // the approach leg flies to where the recording began, which is where the replay starts
        mission matches Some(m) ==> starts_where_recorded(m@, recording@),
{
    if recording.len() == 0 {
        return None;
    }
    let first = recording[0];
    let mut points: Vec<Setpoint<F>> = Vec::new();
    let mut i: usize = 0;
    while i < recording.len()
        invariant
            i <= recording@.len(),
            points@ == recording@.take(i as int).map_values(|p: SetpointRecording<F>| setpoint_of(p)),
        decreases recording.len() - i,
    {
        points.push(recording[i].to_setpoint());
        i = i + 1;
        assert(points@ =~= recording@.take(i as int).map_values(|p: SetpointRecording<F>| setpoint_of(p)));
    }
    assert(recording@.take(recording@.len() as int) =~= recording@);
    let mut mission: Vec<Command<F>> = Vec::new();
    mission.push(Command::Takeoff { height: takeoff_height, duration: std::time::Duration::from_secs(1) });
    mission.push(Command::MoveToWaypoint {
        x: first.x,
        y: first.y,
        z: first.z,
        duration: std::time::Duration::from_secs(2),
    });
    mission.push(Command::Setpoints { points });
    mission.push(Command::Land { duration: land_duration });
    Some(mission)
}

/// A recorded flight ready to be stored: named after the local time now, with the
/// mission that flies it again; nothing for an empty recording. The name depends on the
/// clock, so only the mission is stated.
pub fn recorded_flight<F: Copy>(
    recording: &Vec<SetpointRecording<F>>,
    takeoff_height: Meters<F>,
    land_duration: std::time::Duration,
) -> (flight: Option<(String, Vec<Command<F>>)>)
    ensures
        flight is None <==> recording@.len() == 0,
        flight matches Some((_, m)) ==> replays(m@, recording@, takeoff_height, land_duration),
        // the approach leg flies to where the recording began, which is where the replay starts
        flight matches Some((_, m)) ==> starts_where_recorded(m@, recording@),
{
    match replay_mission(recording, takeoff_height, land_duration) {
        None => None,
        Some(mission) => Some((local_timestamp(), mission)),
    }
}

/// The setpoint that flies back to where telemetry sample `x` was taken, facing the same way.
pub open spec fn position_setpoint<F>(x: Telemetry<F>) -> Setpoint<F> {
    Setpoint::PositionPoint { x: x.x, y: x.y, z: x.z, yaw_degrees: x.yaw_degrees }
}

/// A flight recorded from telemetry `t` is flown again position by position: the replay
/// first goes to where the recording began, then passes the position and heading of
/// every sample in order.
pub proof fn lemma_replay_flies_recorded_positions<F>(
    t: Seq<Telemetry<F>>,
    mission: Seq<Command<F>>,
    takeoff_height: Meters<F>,
    land_duration: std::time::Duration,
)
    requires
        t.len() > 0,
        replays(mission, t.map_values(|x: Telemetry<F>| recorded(x)), takeoff_height, land_duration),
    ensures
        mission[1] == (Command::<F>::MoveToWaypoint { x: t[0].x, y: t[0].y, z: t[0].z, duration: duration_from_secs(2) }),
        mission[2] matches Command::Setpoints { points } && points@ == t.map_values(|x: Telemetry<F>| position_setpoint(x)),
{
    let r = t.map_values(|x: Telemetry<F>| recorded(x));
    assert(r.map_values(|p: SetpointRecording<F>| setpoint_of(p)) =~= t.map_values(|x: Telemetry<F>| position_setpoint(x)));
}

/// The replay's approach leg goes to the first recorded position, which is also the
/// position of its first setpoint, and the setpoints pass the recorded positions in
/// order, one each.
pub open spec fn starts_where_recorded<F>(mission: Seq<Command<F>>, recording: Seq<SetpointRecording<F>>) -> bool {
    &&& mission.len() >= 3
    &&& mission[1] matches Command::MoveToWaypoint { x, y, z, .. }
        && x == recording[0].x && y == recording[0].y && z == recording[0].z
    &&& mission[2] matches Command::Setpoints { points } && points@.len() == recording.len()
        && (forall|k: int| 0 <= k < recording.len() ==> (#[trigger] points@[k] matches Setpoint::PositionPoint { x, y, z, yaw_degrees }
            && x == recording[k].x && y == recording[k].y && z == recording[k].z
            && yaw_degrees == recording[k].yaw_degrees))
        && (points@[0] matches Setpoint::PositionPoint { x, y, z, .. }
            && mission[1] matches Command::MoveToWaypoint { x: ax, y: ay, z: az, .. }
            && ax == x && ay == y && az == z)
}

/// A replay of a non-empty recording starts where the recording began: its approach leg
/// flies to the first recorded position, the first setpoint it streams, and then it
/// passes every recorded position in order.
pub proof fn lemma_replay_starts_where_recorded<F>(
    mission: Seq<Command<F>>,
    recording: Seq<SetpointRecording<F>>,
    takeoff_height: Meters<F>,
    land_duration: std::time::Duration,
)
    requires
        recording.len() > 0,
        replays(mission, recording, takeoff_height, land_duration),
    ensures
        starts_where_recorded(mission, recording),
{
}

} // verus!
