use cyber_tui::api::ApiCall;
use cyber_tui::app::{App, CreatePostFocus, InputMode, Screen};
use cyber_tui::flow::{Command, KeyCode, KeyEvent, Response, TaskError};
use cyber_tui::input::Edit;
use cyber_tui::models::{ApiList, CircMessage, CircRoom, LoginData, Post, Reply};
use cyber_tui::session::Session;

fn key(code: KeyCode) -> KeyEvent {
    KeyEvent { code, ctrl: false, press: true, edit: None }
}

fn typed(c: char) -> KeyEvent {
    KeyEvent { code: KeyCode::Char(c), ctrl: false, press: true, edit: Some(Edit::Insert(c)) }
}

fn ctrl(c: char) -> KeyEvent {
    KeyEvent { code: KeyCode::Char(c), ctrl: true, press: true, edit: None }
}

fn post(id: &str) -> Post {
    Post {
        post_id: id.to_string(),
        author_username: "alice".to_string(),
        content: format!("content {id}"),
        title: None,
        replies_count: 0,
        bookmarks_count: 0,
    }
}

fn logged_in() -> App {
    App::new(Session {
        id_token: Some("ID".to_string()),
        refresh_token: Some("RT".to_string()),
        username: Some("me".to_string()),
    })
}

fn with_feed(n: usize, cursor: Option<&str>) -> App {
    let mut app = logged_in();
    let _ = app.load_initial_data();
    let data = (0..n).map(|i| post(&format!("p{i}"))).collect();
    let _ = app.resume(Ok(Response::Posts(ApiList { data, cursor: cursor.map(|c| c.to_string()) })));
    app
}

#[test]
fn new_app_starts_on_login_without_session() {
    let app = App::new(Session::default());
    assert_eq!(app.screen, Screen::Login);
    assert_eq!(app.api.id_token, None);
    assert!(app.login_field_email_active);
    let app = logged_in();
    assert_eq!(app.screen, Screen::Feed);
    assert_eq!(app.api.id_token, Some("ID".to_string()));
    assert_eq!(app.api.refresh_token, Some("RT".to_string()));
}

#[test]
fn login_with_empty_fields_is_refused() {
    let mut app = App::new(Session::default());
    let cmds = app.handle_key(key(KeyCode::Enter));
    assert!(cmds.is_empty());
    assert_eq!(app.login_error, Some("Inserisci email e password".to_string()));
}

#[test]
fn login_flow() {
    let mut app = App::new(Session::default());
    for c in "a@b.c".chars() {
        let cmds = app.handle_key(typed(c));
        assert!(cmds.is_empty());
    }
    let _ = app.handle_key(key(KeyCode::Tab));
    assert!(!app.login_field_email_active);
    for c in "pw".chars() {
        let _ = app.handle_key(typed(c));
    }
    assert_eq!(app.login_email.value(), "a@b.c");
    assert_eq!(app.login_password.value(), "pw");
    let cmds = app.handle_key(key(KeyCode::Enter));
    assert_eq!(cmds.len(), 1);
    assert!(matches!(&cmds[0], Command::Call(ApiCall::Login { email, password }) if email == "a@b.c" && password == "pw"));
    let cmds = app.resume(Ok(Response::Tokens(LoginData { id_token: "I1".to_string(), refresh_token: "R1".to_string() })));
    assert_eq!(cmds.len(), 2);
    assert!(matches!(cmds[0], Command::SaveSession));
    assert!(matches!(&cmds[1], Command::Call(ApiCall::GetPosts { cursor: None })));
    assert_eq!(app.screen, Screen::Feed);
    assert_eq!(app.session.id_token, Some("I1".to_string()));
    assert_eq!(app.session.refresh_token, Some("R1".to_string()));
    assert_eq!(app.session.username, Some("a@b.c".to_string()));
    assert_eq!(app.api.id_token, Some("I1".to_string()));
    let cmds = app.resume(Ok(Response::Posts(ApiList { data: vec![post("p0")], cursor: Some("c1".to_string()) })));
    assert!(cmds.is_empty());
    assert_eq!(app.feed.len(), 1);
    assert_eq!(app.feed_cursor, Some("c1".to_string()));
    assert_eq!(app.status_message, Some("Login ok".to_string()));
}

#[test]
fn failed_login_shows_the_error() {
    let mut app = App::new(Session::default());
    let _ = app.handle_key(typed('a'));
    let _ = app.handle_key(key(KeyCode::Tab));
    let _ = app.handle_key(typed('b'));
    let _ = app.handle_key(key(KeyCode::Enter));
    let cmds = app.resume(Err("HTTP 403 Forbidden".to_string()));
    assert!(cmds.is_empty());
    assert_eq!(app.login_error, Some("Errore login: HTTP 403 Forbidden".to_string()));
    assert_eq!(app.screen, Screen::Login);
}

#[test]
fn esc_on_login_quits() {
    let mut app = App::new(Session::default());
    let _ = app.handle_key(key(KeyCode::Esc));
    assert!(app.should_quit);
}

#[test]
fn released_keys_are_ignored() {
    let mut app = with_feed(3, None);
    let before = app.selected_index;
    let cmds = app.handle_key(KeyEvent { code: KeyCode::Char('j'), ctrl: false, press: false, edit: None });
    assert!(cmds.is_empty());
    assert_eq!(app.selected_index, before);
}

#[test]
fn selection_moves_and_stops_at_the_ends() {
    let mut app = with_feed(5, None);
    assert_eq!(app.selected_index, 0);
    let _ = app.handle_key(key(KeyCode::Up));
    assert_eq!(app.selected_index, 0);
    for _ in 0..10 {
        let _ = app.handle_key(typed('j'));
    }
    assert_eq!(app.selected_index, 4);
    let _ = app.handle_key(typed('k'));
    assert_eq!(app.selected_index, 3);
}

#[test]
fn next_page_is_asked_once_near_the_end() {
    let mut app = with_feed(5, Some("c1"));
    let cmds = app.handle_key(key(KeyCode::Down));
    assert!(cmds.is_empty());
    let cmds = app.handle_key(key(KeyCode::Down));
    assert_eq!(cmds.len(), 1);
    assert!(matches!(&cmds[0], Command::LoadFeedPage { cursor } if cursor == "c1"));
    assert!(app.feed_loading);
    let cmds = app.handle_key(key(KeyCode::Down));
    assert!(cmds.is_empty());
    app.on_feed_page(Ok(ApiList { data: vec![post("p5"), post("p6")], cursor: Some("c2".to_string()) }));
    assert_eq!(app.feed.len(), 7);
    assert_eq!(app.feed[5].post_id, "p5");
    assert_eq!(app.feed_cursor, Some("c2".to_string()));
    assert!(!app.feed_loading);
    let again = app.start_next_feed_page_load();
    assert_eq!(again.len(), 1);
    let none = app.start_next_feed_page_load();
    assert!(none.is_empty());
}

#[test]
fn failed_page_load_shows_the_error() {
    let mut app = with_feed(5, Some("c1"));
    let _ = app.start_next_feed_page_load();
    app.on_feed_page(Err(TaskError::Failed("boom".to_string())));
    assert!(!app.feed_loading);
    assert_eq!(app.error_message, Some("Errore caricamento altri post: boom".to_string()));
    assert_eq!(app.feed.len(), 5);
}

#[test]
fn opening_a_post_loads_its_replies() {
    let mut app = with_feed(2, None);
    let _ = app.handle_key(typed('j'));
    let cmds = app.handle_key(key(KeyCode::Enter));
    assert_eq!(cmds.len(), 1);
    assert!(matches!(&cmds[0], Command::LoadReplies { post_id } if post_id == "p1"));
    assert!(app.show_post_modal);
    assert!(app.replies_loading);
    assert_eq!(app.current_post.as_ref().map(|p| p.post_id.clone()), Some("p1".to_string()));
    app.on_replies(Ok(ApiList { data: vec![Reply { author_username: Some("bob".to_string()), content: "hi".to_string() }], cursor: None }));
    assert!(!app.replies_loading);
    assert_eq!(app.current_replies.len(), 1);
    let _ = app.handle_key(key(KeyCode::Esc));
    assert!(!app.show_post_modal);
}

#[test]
fn reply_modal_sends_a_trimmed_reply() {
    let mut app = with_feed(1, None);
    let _ = app.handle_key(key(KeyCode::Enter));
    let _ = app.handle_key(typed('r'));
    assert!(app.show_reply_modal);
    for c in " ok ".chars() {
        let _ = app.handle_key(typed(c));
    }
    assert_eq!(app.reply_content, " ok ");
    let cmds = app.handle_key(ctrl('s'));
    assert_eq!(cmds.len(), 1);
    assert!(matches!(&cmds[0], Command::Call(ApiCall::CreateReply { post_id, content }) if post_id == "p0" && content == "ok"));
    let cmds = app.resume(Ok(Response::Done));
    assert_eq!(cmds.len(), 1);
    assert!(matches!(&cmds[0], Command::LoadReplies { post_id } if post_id == "p0"));
    assert!(!app.show_reply_modal);
    assert_eq!(app.reply_content, "");
    assert_eq!(app.status_message, Some("Reply inviata".to_string()));
}

#[test]
fn blank_reply_is_not_sent() {
    let mut app = with_feed(1, None);
    let _ = app.handle_key(key(KeyCode::Enter));
    let _ = app.handle_key(typed('r'));
    let _ = app.handle_key(typed(' '));
    let cmds = app.handle_key(key(KeyCode::Enter));
    assert!(cmds.is_empty());
    assert!(app.show_reply_modal);
}

#[test]
fn new_post_modal() {
    let mut app = with_feed(1, None);
    let _ = app.handle_key(typed('c'));
    assert!(app.show_create_post_modal);
    assert_eq!(app.create_post_focus, CreatePostFocus::Content);
    let cmds = app.handle_key(ctrl('s'));
    assert!(cmds.is_empty());
    assert_eq!(app.error_message, Some("Il contenuto non può essere vuoto".to_string()));
    for c in "body".chars() {
        let _ = app.handle_key(typed(c));
    }
    let _ = app.handle_key(key(KeyCode::Backspace));
    assert_eq!(app.create_post_content, "bod");
    let _ = app.handle_key(key(KeyCode::Tab));
    assert_eq!(app.create_post_focus, CreatePostFocus::Title);
    for c in "  T  ".chars() {
        let _ = app.handle_key(typed(c));
    }
    let cmds = app.handle_key(ctrl('s'));
    assert_eq!(cmds.len(), 1);
    assert!(matches!(&cmds[0], Command::Call(ApiCall::CreatePost { content, title: Some(t) }) if content == "bod" && t == "T"));
    let cmds = app.resume(Ok(Response::Done));
    assert_eq!(cmds.len(), 1);
    assert!(matches!(&cmds[0], Command::Call(ApiCall::GetPosts { cursor: None })));
    assert!(!app.show_create_post_modal);
    assert_eq!(app.create_post_title, "");
    assert_eq!(app.status_message, Some("Post pubblicato".to_string()));
}

#[test]
fn sidebar_opens_screens() {
    let mut app = with_feed(1, None);
    let _ = app.handle_key(typed('s'));
    assert!(app.sidebar_visible);
    let _ = app.handle_key(typed('j'));
    assert_eq!(app.sidebar_selected, 1);
    let cmds = app.handle_key(key(KeyCode::Enter));
    assert_eq!(app.screen, Screen::Notifications);
    assert!(!app.sidebar_visible);
    assert_eq!(cmds.len(), 1);
    assert!(matches!(&cmds[0], Command::Call(ApiCall::GetNotifications)));
    let cmds = app.resume(Ok(Response::Notifications(ApiList { data: vec![], cursor: None })));
    assert!(matches!(&cmds[0], Command::Call(ApiCall::MarkAllRead)));
    let cmds = app.resume(Ok(Response::Done));
    assert!(matches!(&cmds[0], Command::Call(ApiCall::UnreadCount)));
    let cmds = app.resume(Ok(Response::Count(7)));
    assert!(cmds.is_empty());
    assert_eq!(app.unread_count, 7);
}

#[test]
fn sidebar_wraps_nowhere() {
    let mut app = with_feed(0, None);
    app.toggle_sidebar();
    for _ in 0..20 {
        app.move_sidebar_down();
    }
    assert_eq!(app.sidebar_selected, 9);
    app.move_sidebar_up();
    assert_eq!(app.sidebar_selected, 8);
    app.toggle_sidebar();
    assert!(!app.sidebar_visible);
}

#[test]
fn circ_room_compose_and_send() {
    let mut app = with_feed(0, None);
    app.screen = Screen::CircList;
    app.circ_rooms = vec![CircRoom { id: "r1".to_string(), name: Some("lobby".to_string()) }];
    let cmds = app.handle_key(key(KeyCode::Enter));
    assert!(matches!(&cmds[0], Command::Call(ApiCall::CircMessages { rid }) if rid == "r1"));
    let msg = CircMessage { content: "yo".to_string(), sender_username: Some("bob".to_string()), is_action: false, deleted: false };
    let cmds = app.resume(Ok(Response::CircMessages(ApiList { data: vec![msg], cursor: None })));
    assert!(matches!(&cmds[0], Command::Call(ApiCall::CircPresenceHeartbeat { rid }) if rid == "r1"));
    let cmds = app.resume(Ok(Response::Done));
    assert!(cmds.is_empty());
    assert_eq!(app.screen, Screen::CircRoom);
    assert_eq!(app.circ_messages.len(), 1);
    let _ = app.handle_key(typed('i'));
    assert_eq!(app.input_mode, InputMode::Compose);
    for c in "hey".chars() {
        let _ = app.handle_key(typed(c));
    }
    let cmds = app.handle_key(key(KeyCode::Enter));
    assert!(matches!(&cmds[0], Command::Call(ApiCall::CircSend { rid, content }) if rid == "r1" && content == "hey"));
    let cmds = app.resume(Ok(Response::Done));
    assert!(matches!(&cmds[0], Command::Call(ApiCall::CircMessages { rid }) if rid == "r1"));
    let _ = app.resume(Ok(Response::CircMessages(ApiList { data: vec![], cursor: None })));
    let _ = app.resume(Ok(Response::Done));
    assert_eq!(app.input_mode, InputMode::Normal);
    assert_eq!(app.compose_input.value(), "");
    let _ = app.handle_key(key(KeyCode::Esc));
    assert_eq!(app.screen, Screen::CircList);
}

#[test]
fn refused_token_is_renewed_and_the_feed_asked_again() {
    let mut app = with_feed(1, None);
    let cmds = app.auto_refresh();
    assert!(matches!(&cmds[0], Command::Call(ApiCall::GetPosts { cursor: None })));
    let cmds = app.resume(Err("UNAUTHORIZED (401 Unauthorized): expired".to_string()));
    assert!(matches!(&cmds[0], Command::Call(ApiCall::Refresh)));
    let cmds = app.resume(Ok(Response::Tokens(LoginData { id_token: "I2".to_string(), refresh_token: "R2".to_string() })));
    assert!(matches!(cmds[0], Command::SaveSession));
    assert!(matches!(&cmds[1], Command::Call(ApiCall::GetPosts { cursor: None })));
    assert_eq!(app.session.id_token, Some("I2".to_string()));
    assert_eq!(app.status_message, Some("Sessione rinnovata".to_string()));
    let cmds = app.resume(Err("HTTP 401 Unauthorized".to_string()));
    assert!(!cmds.iter().any(|c| matches!(c, Command::Call(ApiCall::Refresh))));
    assert_eq!(app.error_message, Some("Errore feed: HTTP 401 Unauthorized".to_string()));
}

#[test]
fn failed_refresh_logs_out() {
    let mut app = with_feed(1, None);
    let _ = app.auto_refresh();
    let _ = app.resume(Err("HTTP 401 Unauthorized".to_string()));
    let cmds = app.resume(Err("HTTP 400 Bad Request".to_string()));
    assert!(matches!(cmds[0], Command::ClearSession));
    assert_eq!(app.screen, Screen::Login);
    assert_eq!(app.session.id_token, None);
    assert_eq!(app.status_message, Some("Sessione scaduta, effettua di nuovo il login".to_string()));
}

#[test]
fn answer_with_nothing_waiting_changes_nothing() {
    let mut app = with_feed(2, None);
    let cmds = app.resume(Ok(Response::Posts(ApiList { data: vec![], cursor: None })));
    assert!(cmds.is_empty());
    assert_eq!(app.feed.len(), 2);
}

#[test]
fn logout_forgets_everything() {
    let mut app = with_feed(3, Some("c"));
    let cmds = app.logout();
    assert_eq!(cmds.len(), 2);
    assert!(matches!(cmds[0], Command::ClearSession));
    assert!(matches!(cmds[1], Command::AbortReplies));
    assert_eq!(app.screen, Screen::Login);
    assert_eq!(app.api.id_token, None);
    assert_eq!(app.api.refresh_token, None);
    assert_eq!(app.session.id_token, None);
    assert!(app.feed.is_empty());
}

#[test]
fn refresh_timers() {
    let mut app = with_feed(1, None);
    assert!(!app.should_refresh_feed(9_000));
    app.screen = Screen::Notifications;
    assert!(app.should_refresh_feed(8_000));
    assert!(!app.should_refresh_feed(7_999));
    app.screen = Screen::CircRoom;
    assert!(app.should_refresh_circ(2_000));
    assert!(!app.should_refresh_circ(1_999));
    app.input_mode = InputMode::Compose;
    assert!(!app.should_refresh_circ(5_000));
    app.input_mode = InputMode::Normal;
    app.current_room = Some(CircRoom { id: "r9".to_string(), name: None });
    let cmds = app.refresh_circ();
    assert!(matches!(&cmds[0], Command::Call(ApiCall::CircMessages { rid }) if rid == "r9"));
}

#[test]
fn watch_and_bookmark_the_selected_post() {
    let mut app = with_feed(2, None);
    let cmds = app.handle_key(typed('w'));
    assert!(matches!(&cmds[0], Command::Call(ApiCall::Watch { post_id }) if post_id == "p0"));
    let _ = app.resume(Ok(Response::Done));
    assert_eq!(app.status_message, Some("Watch aggiunto".to_string()));
    let cmds = app.handle_key(typed('x'));
    assert!(matches!(&cmds[0], Command::Call(ApiCall::AddBookmarkPost { post_id }) if post_id == "p0"));
    let _ = app.resume(Err("HTTP 500".to_string()));
    assert_eq!(app.error_message, Some("Errore: HTTP 500".to_string()));
    assert_eq!(app.status_message, None);
}

#[test]
fn persisting_tokens_copies_them_to_the_session() {
    let mut app = App::new(Session::default());
    app.api.id_token = Some("X".to_string());
    app.api.refresh_token = Some("Y".to_string());
    let cmds = app.persist_tokens();
    assert!(matches!(cmds[0], Command::SaveSession));
    assert_eq!(app.session.id_token, Some("X".to_string()));
    assert_eq!(app.session.refresh_token, Some("Y".to_string()));
}

#[test]
fn backspace_and_other_edits_in_a_field() {
    let mut app = App::new(Session::default());
    for c in "abc".chars() {
        let _ = app.handle_key(typed(c));
    }
    let _ = app.handle_key(KeyEvent { code: KeyCode::Backspace, ctrl: false, press: true, edit: Some(Edit::DeleteBack) });
    assert_eq!(app.login_email.value(), "ab");
    let _ = app.handle_key(KeyEvent { code: KeyCode::Other, ctrl: false, press: true, edit: Some(Edit::Start) });
    let _ = app.handle_key(typed('x'));
    assert_eq!(app.login_email.value(), "xab");
    let _ = app.handle_key(KeyEvent { code: KeyCode::Other, ctrl: false, press: true, edit: Some(Edit::DeleteLine) });
    assert_eq!(app.login_email.value(), "");
}

#[test]
fn crashed_background_loads_show_the_error() {
    let mut app = with_feed(5, Some("c1"));
    let _ = app.start_next_feed_page_load();
    app.on_feed_page(Err(TaskError::Crashed("panic".to_string())));
    assert_eq!(app.error_message, Some("Errore task feed: panic".to_string()));
    let _ = app.start_replies_load("p0".to_string());
    assert!(app.replies_loading);
    app.on_replies(Err(TaskError::Crashed("cancelled".to_string())));
    assert!(!app.replies_loading);
    assert_eq!(app.error_message, Some("Errore task replies: cancelled".to_string()));
    let _ = app.start_replies_load("p0".to_string());
    app.on_replies(Err(TaskError::Failed("HTTP 500".to_string())));
    assert_eq!(app.error_message, Some("Errore risposte: HTTP 500".to_string()));
}

#[test]
fn blank_compose_text_only_closes_the_field() {
    let mut app = with_feed(0, None);
    app.screen = Screen::CircRoom;
    app.current_room = Some(CircRoom { id: "r".to_string(), name: None });
    let _ = app.handle_key(typed('i'));
    let _ = app.handle_key(typed(' '));
    let cmds = app.handle_key(key(KeyCode::Enter));
    assert!(cmds.is_empty());
    assert_eq!(app.input_mode, InputMode::Normal);
    assert_eq!(app.compose_input.value(), " ");
}

#[test]
fn compose_escape_empties_the_field() {
    let mut app = with_feed(0, None);
    app.screen = Screen::CircRoom;
    let _ = app.handle_key(typed('i'));
    let _ = app.handle_key(typed('z'));
    let _ = app.handle_key(key(KeyCode::Esc));
    assert_eq!(app.input_mode, InputMode::Normal);
    assert_eq!(app.compose_input.value(), "");
}

#[test]
fn failed_room_load_still_sends_the_heartbeat() {
    let mut app = with_feed(0, None);
    app.screen = Screen::CircList;
    app.circ_rooms = vec![CircRoom { id: "r1".to_string(), name: None }];
    let _ = app.handle_key(key(KeyCode::Enter));
    let cmds = app.resume(Err("HTTP 500".to_string()));
    assert!(matches!(&cmds[0], Command::Call(ApiCall::CircPresenceHeartbeat { rid }) if rid == "r1"));
    assert_eq!(app.error_message, Some("Errore messaggi: HTTP 500".to_string()));
    let _ = app.resume(Err("HTTP 500".to_string()));
    assert_eq!(app.screen, Screen::CircRoom);
}

#[test]
fn unread_count_without_refresh_token_ends_the_session() {
    let mut app = App::new(Session { id_token: Some("ID".to_string()), refresh_token: None, username: None });
    let _ = app.handle_key(typed('s'));
    let _ = app.handle_key(typed('j'));
    let _ = app.handle_key(key(KeyCode::Enter));
    let _ = app.resume(Ok(Response::Notifications(ApiList { data: vec![], cursor: None })));
    let _ = app.resume(Ok(Response::Done));
    let cmds = app.resume(Err("HTTP 401 Unauthorized".to_string()));
    assert_eq!(cmds.len(), 1);
    assert!(matches!(cmds[0], Command::ClearSession));
    assert_eq!(app.screen, Screen::Login);
}

fn edit(e: Edit) -> KeyEvent {
    KeyEvent { code: KeyCode::Other, ctrl: false, press: true, edit: Some(e) }
}

#[test]
fn cursor_moves_and_word_edits_in_a_field() {
    let mut app = App::new(Session::default());
    for c in "foo bar, baz".chars() {
        let _ = app.handle_key(typed(c));
    }
    assert_eq!(app.login_email.cursor(), 12);
    let _ = app.handle_key(edit(Edit::PrevWord));
    assert_eq!(app.login_email.cursor(), 9);
    let _ = app.handle_key(edit(Edit::PrevWord));
    assert_eq!(app.login_email.cursor(), 4);
    let _ = app.handle_key(edit(Edit::NextWord));
    assert_eq!(app.login_email.cursor(), 9);
    let _ = app.handle_key(edit(Edit::DeletePrevWord));
    assert_eq!(app.login_email.value(), "foo baz");
    assert_eq!(app.login_email.cursor(), 4);
    let _ = app.handle_key(edit(Edit::DeleteNextWord));
    assert_eq!(app.login_email.value(), "foo ");
    let _ = app.handle_key(edit(Edit::Start));
    let _ = app.handle_key(edit(Edit::NextChar));
    let _ = app.handle_key(edit(Edit::DeleteNext));
    assert_eq!(app.login_email.value(), "fo ");
    let _ = app.handle_key(edit(Edit::DeleteTillEnd));
    assert_eq!(app.login_email.value(), "f");
    let _ = app.handle_key(edit(Edit::End));
    let _ = app.handle_key(edit(Edit::PrevChar));
    assert_eq!(app.login_email.cursor(), 0);
    let _ = app.handle_key(edit(Edit::SetCursor(99)));
    assert_eq!(app.login_email.cursor(), 1);
    assert_eq!(app.login_password.value(), "");
}
