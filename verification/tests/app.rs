use crazyflie_commander::drone_commander::app::App;

#[test]
fn test_app_increment_counter() {
    let mut app = App::default();
    app.increment();
    assert_eq!(app.counter, 1);
}

#[test]
fn test_app_decrement_counter() {
    let mut app = App::default();
    app.decrement();
    assert_eq!(app.counter, 0);
}

#[test]
fn app_decrement_counts_down_from_positive() {
    let mut app = App::default();
    app.increment();
    app.increment();
    app.decrement();
    assert_eq!(app.counter, 1);
    assert!(!app.exit);
}

#[test]
fn app_exit_sets_flag_and_keeps_counter() {
    let mut app = App::default();
    app.increment();
    app.exit();
    assert!(app.exit);
    assert_eq!(app.counter, 1);
}

#[test]
fn app_decrement_goes_on_below_zero_once_negative() {
    let mut app = App { exit: false, counter: -2 };
    app.decrement();
    assert_eq!(app.counter, -3);
}
