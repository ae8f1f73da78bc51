use dashboard_core::controller::{App, Event, Key, Tab};

fn port_names() -> Vec<String> {
    vec![String::from("ttyUSB0"), String::from("ttyUSB1")]
}

#[test]
fn tab_titles_match_display_names() {
    assert_eq!(Tab::Welcome.title(), "Welcome");
    assert_eq!(Tab::Monitor.title(), "Monitor");
    assert_eq!(Tab::Console.title(), "Console");
    assert_eq!(Tab::Settings.title(), "Settings");
}

#[test]
fn right_right_left_quit_scenario() {
    let mut app = App::new(port_names());
    assert_eq!(app.tabs.current, Tab::Welcome);

    assert!(!app.handle_event(Event::Input(Key::Right)));
    assert_eq!(app.tabs.current, Tab::Monitor);

    assert!(!app.handle_event(Event::Input(Key::Right)));
    assert_eq!(app.tabs.current, Tab::Console);

    assert!(!app.handle_event(Event::Input(Key::Left)));
    assert_eq!(app.tabs.current, Tab::Monitor);

    assert!(app.handle_event(Event::Input(Key::Char('q'))));
    assert_eq!(app.tabs.current, Tab::Monitor);
}

#[test]
fn down_moves_list_on_welcome_tab() {
    let mut app = App::new(port_names());
    assert!(!app.handle_event(Event::Input(Key::Down)));
    assert_eq!(app.serial_ports.state.selected(), Some(0));
    assert!(!app.handle_event(Event::Input(Key::Down)));
    assert_eq!(app.serial_ports.state.selected(), Some(1));
    assert!(!app.handle_event(Event::Input(Key::Down)));
    assert_eq!(app.serial_ports.state.selected(), Some(0));
}

#[test]
fn up_moves_list_on_welcome_tab() {
    let mut app = App::new(port_names());
    assert!(!app.handle_event(Event::Input(Key::Up)));
    assert_eq!(app.serial_ports.state.selected(), Some(0));
    assert!(!app.handle_event(Event::Input(Key::Up)));
    assert_eq!(app.serial_ports.state.selected(), Some(1));
}

#[test]
fn down_is_ignored_off_the_welcome_tab() {
    let mut app = App::new(port_names());
    assert!(!app.handle_event(Event::Input(Key::Right)));
    assert_eq!(app.tabs.current, Tab::Monitor);
    assert!(!app.handle_event(Event::Input(Key::Down)));
    assert_eq!(app.serial_ports.state.selected(), None);
    assert!(!app.handle_event(Event::Input(Key::Up)));
    assert_eq!(app.serial_ports.state.selected(), None);
}

#[test]
fn tick_and_unmapped_keys_change_nothing() {
    let mut app = App::new(port_names());
    assert!(!app.handle_event(Event::Tick));
    assert!(!app.handle_event(Event::Input(Key::Other)));
    assert!(!app.handle_event(Event::Input(Key::Char('x'))));
    assert_eq!(app.tabs.index, 0);
    assert_eq!(app.tabs.current, Tab::Welcome);
    assert_eq!(app.serial_ports.state.selected(), None);
}

#[test]
fn quit_leaves_state_untouched() {
    let mut app = App::new(port_names());
    assert!(app.handle_event(Event::Input(Key::Char('q'))));
    assert_eq!(app.tabs.index, 0);
    assert_eq!(app.tabs.current, Tab::Welcome);
    assert_eq!(app.serial_ports.state.selected(), None);
}

#[test]
fn left_from_welcome_wraps_to_settings() {
    let mut app = App::new(port_names());
    assert!(!app.handle_event(Event::Input(Key::Left)));
    assert_eq!(app.tabs.current, Tab::Settings);
    assert_eq!(app.tabs.index, 3);
}

#[test]
fn app_over_empty_port_list_never_selects() {
    let mut app: App<String> = App::new(Vec::new());
    assert!(!app.handle_event(Event::Input(Key::Down)));
    assert_eq!(app.serial_ports.state.selected(), None);
    assert!(!app.handle_event(Event::Input(Key::Up)));
    assert_eq!(app.serial_ports.state.selected(), None);
}
