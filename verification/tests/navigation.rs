use crazyflie_commander::gcs::pages::home::{map_key_evt, update, ModeSelection, Model, Msg};
use crazyflie_commander::gcs::program::NavigationMessage::{Down, Select, Up};
use crazyflie_commander::keys::{KeyCode, KeyEvent, KeyEventKind};
use crazyflie_commander::drone_commander::model::ModeSelection as CommanderMode;
use crazyflie_commander::drone_commander::pages::home::ModeSelection as PageMode;

fn index(m: ModeSelection) -> i32 {
    match m {
        ModeSelection::MissionSelect => 0,
        ModeSelection::MissionPlan => 1,
        ModeSelection::ManualControl => 2,
    }
}

#[test]
fn next_and_prev_walk_round_the_menu() {
    assert_eq!(ModeSelection::MissionSelect.next(), ModeSelection::MissionPlan);
    assert_eq!(ModeSelection::MissionPlan.next(), ModeSelection::ManualControl);
    assert_eq!(ModeSelection::ManualControl.next(), ModeSelection::MissionSelect);
    assert_eq!(ModeSelection::MissionSelect.prev(), ModeSelection::ManualControl);
    for m in [ModeSelection::MissionSelect, ModeSelection::MissionPlan, ModeSelection::ManualControl] {
        assert_eq!(m.next().prev(), m);
        assert_eq!(m.prev().next(), m);
        assert_eq!(m.next().next().next(), m);
    }
}

#[test]
fn commander_modes_walk_round_the_menu() {
    assert_eq!(CommanderMode::MissionSelectItem.next(), CommanderMode::MissionPlanItem);
    assert_eq!(CommanderMode::FreeFlightItem.next(), CommanderMode::MissionSelectItem);
    assert_eq!(CommanderMode::MissionSelectItem.prev(), CommanderMode::FreeFlightItem);
    assert_eq!(PageMode::FreeFlight.next(), PageMode::MissionSelect);
    assert_eq!(PageMode::MissionPlan.prev(), PageMode::MissionSelect);
}

#[test]
fn a_run_of_moves_lands_on_the_net_count_round_three() {
    let msgs = [Down, Down, Up, Select, Down, Down, Down, Up, Up, Up, Up, Up, Down];
    let mut model = Model { selected_mode: ModeSelection::MissionSelect };
    let mut net: i32 = 0;
    for nav in msgs {
        let cmd = update(&mut model, Msg::Nav(nav));
        assert!(cmd.is_none());
        net += match nav {
            Up => -1,
            Down => 1,
            Select => 0,
        };
        assert_eq!(index(model.selected_mode), net.rem_euclid(3));
    }
}

#[test]
fn home_keys() {
    let press = |code| KeyEvent { code, kind: KeyEventKind::Press, control_only: false };
    let model = Model { selected_mode: ModeSelection::MissionSelect };
    assert_eq!(map_key_evt(press(KeyCode::Char('j')), &model), Some(Msg::Nav(Down)));
    assert_eq!(map_key_evt(press(KeyCode::Down), &model), Some(Msg::Nav(Down)));
    assert_eq!(map_key_evt(press(KeyCode::Char('k')), &model), Some(Msg::Nav(Up)));
    assert_eq!(map_key_evt(press(KeyCode::Enter), &model), Some(Msg::Nav(Select)));
    assert_eq!(map_key_evt(press(KeyCode::Char('x')), &model), None);
    let release = KeyEvent { code: KeyCode::Enter, kind: KeyEventKind::Release, control_only: false };
    assert_eq!(map_key_evt(release, &model), None);
}
