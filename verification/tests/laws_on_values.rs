use cyber_tui::app::{App, Screen};
use cyber_tui::session::Session;

fn app() -> App {
    App::new(Session { id_token: Some("I".to_string()), refresh_token: None, username: None })
}

#[test]
fn status_and_error_exclude_each_other() {
    let mut a = app();
    a.set_error("e".to_string());
    assert_eq!(a.error_message, Some("e".to_string()));
    assert_eq!(a.status_message, None);
    a.set_status("s".to_string());
    assert_eq!(a.status_message, Some("s".to_string()));
    assert_eq!(a.error_message, None);
}

#[test]
fn toggling_the_sidebar_twice_restores_it() {
    let mut a = app();
    let before = a.sidebar_visible;
    a.toggle_sidebar();
    a.toggle_sidebar();
    assert_eq!(a.sidebar_visible, before);
}

#[test]
fn selection_down_then_up_restores_it() {
    let mut a = app();
    a.screen = Screen::Topics;
    a.topics = (0..4)
        .map(|i| cyber_tui::models::Topic { slug: format!("s{i}"), name: format!("t{i}"), post_count: None })
        .collect();
    a.topic_selected = 1;
    a.move_selection_down();
    assert_eq!(a.topic_selected, 2);
    a.move_selection_up();
    assert_eq!(a.topic_selected, 1);
    assert_eq!(a.current_selection(), 1);
    assert_eq!(a.active_list_len(), 4);
}

#[test]
fn sidebar_entry_opens_its_screen() {
    let mut a = app();
    a.toggle_sidebar();
    for _ in 0..7 {
        a.move_sidebar_down();
    }
    a.select_sidebar_item();
    assert_eq!(a.screen, Screen::Journal);
    assert!(!a.sidebar_visible);
}
