use nclicker::NClickerApp;

#[test]
fn zero_interval_floors_to_100ms() {
    assert_eq!(nclicker::merge_interval_ms(0, 0, 0, 0), 100);
}

#[test]
fn zero_interval_floor_via_app() {
    let mut app = NClickerApp::default();
    app.hours = 0;
    app.minutes = 0;
    app.seconds = 0;
    app.milliseconds = 0;
    assert_eq!(app.calculate_interval_ms(), 100);
}

#[test]
fn default_interval_is_one_second() {
    let app = NClickerApp::default();
    assert_eq!(app.calculate_interval_ms(), 1000);
}

#[test]
fn interval_fields_merge_exactly() {
    assert_eq!(
        nclicker::merge_interval_ms(1, 2, 3, 4),
        (3600 + 2 * 60 + 3) * 1000 + 4
    );
}

#[test]
fn milliseconds_only_interval() {
    assert_eq!(nclicker::merge_interval_ms(0, 0, 0, 250), 250);
}

#[test]
fn largest_form_interval() {
    let mut app = NClickerApp::default();
    app.hours = 23;
    app.minutes = 59;
    app.seconds = 59;
    app.milliseconds = 999;
    assert_eq!(app.calculate_interval_ms(), 86_399_999);
}
