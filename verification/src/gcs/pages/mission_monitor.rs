//! The mission page: start, stop and watch one mission, and move the parts that can run
//! on the vehicle onto it before takeoff.
use vstd::prelude::*;
use crate::datalink::domain_types::{Abort, MissionItem, MissionStatus, TrajectoryId};
use crate::keys::{KeyCode, KeyEvent, KeyEventKind};

verus! {

#[derive(Debug)]
pub struct Model<F> {
    pub mission: Vec<MissionItem<F>>,
    pub name: String,
    pub mission_status: MissionStatus,
    pub link_mode: ExecutionMode,
}

/// Where the mission's trajectories run: streamed from the ground, stored on the
/// vehicle, or streamed after storing them failed.
#[derive(Debug, Clone, Copy, PartialEq, Eq)]
pub enum ExecutionMode {
    Offline,
    Online,
    FailedUpload,
}

/// The item streamed from the ground for `c`: a trajectory stored on the vehicle stands
/// for the item it was made from.
pub open spec fn online_item<F>(c: MissionItem<F>) -> MissionItem<F> {
    match c {
        MissionItem::OnVehicleTrajectory { original_command, .. } => *original_command,
        _ => c,
    }
}

/// The vehicle is on the ground and waiting.
pub open spec fn grounded(s: MissionStatus) -> bool {
    s is Idle
}

/// Some item could be stored on the vehicle, and the vehicle is on the ground.
pub open spec fn upload_available<F>(mission: Seq<MissionItem<F>>, s: MissionStatus) -> bool {
    grounded(s) && exists|i: int| 0 <= i < mission.len() && (#[trigger] mission[i] is Orbit || mission[i] is SmoothPath)
}

impl<F> Model<F> {
    /// A page for `mission` called `name`, idle and streaming from the ground.
    pub fn new(mission: Vec<MissionItem<F>>, name: String) -> (m: Self)
        ensures
            m.mission@ == mission@,
            m.name@ == name@,
            m.mission_status == MissionStatus::Idle,
            m.link_mode == ExecutionMode::Online,
    {
        Model { mission, name, mission_status: MissionStatus::Idle, link_mode: ExecutionMode::Online }
    }

    /// Whether some item could be stored on the vehicle now.
    pub fn trajectory_upload_available(&self) -> (b: bool)
        ensures
            b == upload_available(self.mission@, self.mission_status),
    {
        let grounded = matches!(self.mission_status, MissionStatus::Idle);
        let mut any = false;
        let mut i: usize = 0;
        while i < self.mission.len()
            invariant
                i <= self.mission@.len(),
                any == exists|k: int| 0 <= k < i && (#[trigger] self.mission@[k] is Orbit || self.mission@[k] is SmoothPath),
            decreases self.mission.len() - i,
        {
            if self.mission[i].can_upload_trajectory() {
                any = true;
            }
            i = i + 1;
        }
        any && grounded
    }

    /// Puts every stored trajectory back as the item it was made from.
    pub fn convert_to_online_missions(&mut self)
        ensures
            final(self).mission@ == old(self).mission@.map_values(|c: MissionItem<F>| online_item(c)),
            final(self).name == old(self).name,
            final(self).mission_status == old(self).mission_status,
            final(self).link_mode == old(self).link_mode,
    {
        let mut items: Vec<MissionItem<F>> = Vec::new();
        std::mem::swap(&mut items, &mut self.mission);
        let ghost input = items@;
        let mut online: Vec<MissionItem<F>> = Vec::new();
        for c in it: items
            invariant
                it.seq() == input,
                online@ == input.take(it.index() as int).map_values(|c: MissionItem<F>| online_item(c)),
        {
            let item = match c {
                MissionItem::OnVehicleTrajectory { original_command, .. } => *original_command,
                other => other,
            };
            online.push(item);
            assert(online@ =~= input.take(it.index() + 1).map_values(|c: MissionItem<F>| online_item(c)));
        }
        assert(input.take(input.len() as int) =~= input);
        self.mission = online;
    }
}


#[derive(Debug)]
pub enum Msg<F> {
    StartMission,
    MissionResult(Result<(), String>),
    SafeLand,
    EmergencyAbort,
    MissionUpdate(MissionStatus),
    ExitPage,
    ToggleLinkMode,
    MissionUploaded(Result<Vec<MissionItem<F>>, String>),
}

/// What the page asks for after a message.
#[derive(Debug, Clone, Copy, PartialEq, Eq)]
pub enum Cmd {
    Nothing,
    /// Send the page's mission to the vehicle to run.
    SubmitMission,
    /// Tell the vehicle to stop the mission this way.
    AbortMission(Abort),
    /// Store the page's mission on the vehicle, item by item.
    UploadMission,
}

/// The page after `msg`, and what it asks for. Starting sends the mission; landing and
/// emergency stop abort it; status updates are kept; switching the link mode, while
/// some item could be stored and the vehicle is on the ground, either goes back to
/// streaming (after storing, or after storing failed) or stores the mission; an
/// upload's outcome switches to the stored mission, or records the failure.
pub open spec fn monitor_update<F>(old: Model<F>, msg: Msg<F>, new: Model<F>, cmd: Cmd) -> bool {
    &&& new.name == old.name
    &&& {
        let available = upload_available(old.mission@, old.mission_status);
        match msg {
            Msg::StartMission => cmd == Cmd::SubmitMission && unchanged_page(old, new),
            Msg::SafeLand => cmd == Cmd::AbortMission(Abort::Land) && unchanged_page(old, new),
            Msg::EmergencyAbort => cmd == Cmd::AbortMission(Abort::FlightTermination) && unchanged_page(old, new),
            Msg::MissionUpdate(s) => {
                &&& cmd == Cmd::Nothing
                &&& new.mission_status == s
                &&& new.mission@ == old.mission@
                &&& new.link_mode == old.link_mode
            },
            Msg::ToggleLinkMode => if available && (old.link_mode is Offline || old.link_mode is FailedUpload) {
                &&& cmd == Cmd::Nothing
                &&& new.link_mode == ExecutionMode::Online
                &&& new.mission@ == old.mission@.map_values(|c: MissionItem<F>| online_item(c))
                &&& new.mission_status == old.mission_status
            } else if available && old.link_mode is Online {
                cmd == Cmd::UploadMission && unchanged_page(old, new)
            } else {
                cmd == Cmd::Nothing && unchanged_page(old, new)
            },
            Msg::MissionUploaded(Ok(m)) => {
                &&& cmd == Cmd::Nothing
                &&& new.link_mode == ExecutionMode::Offline
                &&& new.mission@ == m@
                &&& new.mission_status == old.mission_status
            },
            Msg::MissionUploaded(Err(_)) => {
                &&& cmd == Cmd::Nothing
                &&& new.link_mode == ExecutionMode::FailedUpload
                &&& new.mission@ == old.mission@
                &&& new.mission_status == old.mission_status
            },
            _ => cmd == Cmd::Nothing && unchanged_page(old, new),
        }
    }
}

/// Handles a message, as `monitor_update` says.
pub fn update<F>(model: &mut Model<F>, msg: Msg<F>) -> (cmd: Cmd)
    ensures
        monitor_update(*old(model), msg, *final(model), cmd),
{
    match msg {
        Msg::StartMission => Cmd::SubmitMission,
        Msg::MissionResult(_) => Cmd::Nothing,
        Msg::SafeLand => Cmd::AbortMission(Abort::Land),
        Msg::EmergencyAbort => Cmd::AbortMission(Abort::FlightTermination),
        Msg::MissionUpdate(update) => {
            model.mission_status = update;
            Cmd::Nothing
        },
        Msg::ExitPage => Cmd::Nothing,
        Msg::ToggleLinkMode => {
            let available = model.trajectory_upload_available();
            if available && matches!(model.link_mode, ExecutionMode::Offline | ExecutionMode::FailedUpload) {
                model.link_mode = ExecutionMode::Online;
                model.convert_to_online_missions();
                Cmd::Nothing
            } else if available && matches!(model.link_mode, ExecutionMode::Online) {
                Cmd::UploadMission
            } else {
                Cmd::Nothing
            }
        },
        Msg::MissionUploaded(Ok(m)) => {
            model.link_mode = ExecutionMode::Offline;
            model.mission = m;
            Cmd::Nothing
        },
        Msg::MissionUploaded(Err(_)) => {
            model.link_mode = ExecutionMode::FailedUpload;
            Cmd::Nothing
        },
    }
}

/// The page's mission, status and link mode are as they were.
pub open spec fn unchanged_page<F>(a: Model<F>, b: Model<F>) -> bool {
    &&& a.mission@ == b.mission@
    &&& a.mission_status == b.mission_status
    &&& a.link_mode == b.link_mode
}

/// What a key asks of the page: `l` lands, `x` stops at once, and on the ground `u`
/// switches the link mode and `t` starts; `b` leaves once no mission runs.
pub open spec fn key_message<F>(k: KeyEvent, s: MissionStatus) -> Option<Msg<F>> {
    if k.kind != KeyEventKind::Press {
        None
    } else {
        match k.code {
            KeyCode::Char('l') => Some(Msg::SafeLand),
            KeyCode::Char('u') => if grounded(s) { Some(Msg::ToggleLinkMode) } else { None },
            KeyCode::Char('x') => Some(Msg::EmergencyAbort),
            KeyCode::Char('t') => if grounded(s) { Some(Msg::StartMission) } else { None },
            KeyCode::Char('b') => if s is Idle || s is Aborted { Some(Msg::ExitPage) } else { None },
            _ => None,
        }
    }
}

pub fn map_key_evt<F>(k: KeyEvent, s: &Model<F>) -> (cmd: Option<Msg<F>>)
    ensures
        cmd == key_message::<F>(k, s.mission_status),
        // `l` lands safely whatever the status; only `x` terminates the flight
        k.kind == KeyEventKind::Press && k.code == KeyCode::Char('l') ==> cmd matches Some(Msg::SafeLand),
        cmd matches Some(Msg::EmergencyAbort) ==> k.kind == KeyEventKind::Press && k.code == KeyCode::Char('x'),
        k.kind == KeyEventKind::Press && k.code == KeyCode::Char('x') ==> cmd matches Some(Msg::EmergencyAbort),
{
    let grounded = matches!(s.mission_status, MissionStatus::Idle);
    if !k.is_press() {
        return None;
    }
    match k.code {
        KeyCode::Char('l') => Some(Msg::SafeLand),
        KeyCode::Char('u') => if grounded { Some(Msg::ToggleLinkMode) } else { None },
        KeyCode::Char('x') => Some(Msg::EmergencyAbort),
        KeyCode::Char('t') => if grounded { Some(Msg::StartMission) } else { None },
        KeyCode::Char('b') => if matches!(s.mission_status, MissionStatus::Idle | MissionStatus::Aborted(_)) {
            Some(Msg::ExitPage)
        } else {
            None
        },
        _ => None,
    }
}

/// Item `c` after the vehicle answered its upload: unchanged when nothing was stored,
/// else the stored trajectory standing for `c`.
pub open spec fn uploaded_item<F>(c: MissionItem<F>, stored: Option<(TrajectoryId, std::time::Duration)>) -> MissionItem<F> {
    match stored {
        None => c,
        Some((id, duration)) => MissionItem::OnVehicleTrajectory { id, duration, original_command: Box::new(c) },
    }
}

/// The mission after uploading each item, given what the vehicle answered for each
/// item in turn: the trajectory it stored for it and how long that takes, or nothing.
pub fn with_stored_trajectories<F>(
    mission: Vec<MissionItem<F>>,
    stored: Vec<Option<(TrajectoryId, std::time::Duration)>>,
) -> (uploaded: Vec<MissionItem<F>>)
    requires
        stored@.len() == mission@.len(),
    ensures
        uploaded@.len() == mission@.len(),
        forall|i: int| 0 <= i < mission@.len() ==> #[trigger] uploaded@[i] == uploaded_item(mission@[i], stored@[i]),
{
    let ghost input = mission@;
    let mut uploaded: Vec<MissionItem<F>> = Vec::new();
    for c in it: mission
        invariant
            it.seq() == input,
            stored@.len() == input.len(),
            uploaded@.len() == it.index(),
            forall|i: int| 0 <= i < it.index() ==> #[trigger] uploaded@[i] == uploaded_item(input[i], stored@[i]),
    {
        let k = uploaded.len();
        let item = match stored[k] {
            None => c,
            Some((id, duration)) => MissionItem::OnVehicleTrajectory { id, duration, original_command: Box::new(c) },
        };
        uploaded.push(item);
    }
    uploaded
}

/// Going back to streaming after an upload gives back the mission as it was before
/// the upload, when none of its items was a stored trajectory to begin with.
pub proof fn lemma_upload_then_online<F>(
    mission: Seq<MissionItem<F>>,
    stored: Seq<Option<(TrajectoryId, std::time::Duration)>>,
    uploaded: Seq<MissionItem<F>>,
)
    requires
        stored.len() == mission.len(),
        uploaded.len() == mission.len(),
        forall|i: int| 0 <= i < mission.len() ==> #[trigger] uploaded[i] == uploaded_item(mission[i], stored[i]),
        forall|i: int| 0 <= i < mission.len() ==> !(#[trigger] mission[i] is OnVehicleTrajectory),
    ensures
        uploaded.map_values(|c: MissionItem<F>| online_item(c)) == mission,
{
    assert(uploaded.map_values(|c: MissionItem<F>| online_item(c)) =~= mission);
}

/// On the mission page a press of `l` asks for a safe landing whatever the mission's
/// status, and the page answers it with a landing abort; only a press of `x` asks to
/// terminate the flight, and it always does.
pub proof fn lemma_land_and_terminate_keys<F>(k: KeyEvent, s: MissionStatus, m: Model<F>, new: Model<F>, cmd: Cmd)
    ensures
        k.kind == KeyEventKind::Press && k.code == KeyCode::Char('l') ==> key_message::<F>(k, s) matches Some(Msg::SafeLand),
        key_message::<F>(k, s) matches Some(Msg::EmergencyAbort) ==> k.kind == KeyEventKind::Press && k.code == KeyCode::Char('x'),
        k.kind == KeyEventKind::Press && k.code == KeyCode::Char('x') ==> key_message::<F>(k, s) matches Some(Msg::EmergencyAbort),
        monitor_update(m, Msg::SafeLand, new, cmd) ==> cmd == Cmd::AbortMission(Abort::Land),
        monitor_update(m, Msg::EmergencyAbort, new, cmd) ==> cmd == Cmd::AbortMission(Abort::FlightTermination),
{
}

} // verus!
