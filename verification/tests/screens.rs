use cyber_tui::view::{overlay, Overlay};
use cyber_tui::app::{App, InputMode, Screen};
use cyber_tui::flow::{KeyCode, KeyEvent, Response};
use cyber_tui::models::{ApiList, CircMessage, CircRoom, Guild, Notification, Post, Reply, Topic, User};
use cyber_tui::input::Edit;
use cyber_tui::session::Session;
use cyber_tui::view::{
    bookmark_entries, decimal_text, feed_entries, first_chars, guild_entries, guild_panel,
    login_screen, notification_entries, post_entry_lines, post_view, profile_panel, room_input,
    room_panel, sidebar_entries, star_text, status_line, topic_entries, Look, Tone,
};

fn post(id: &str, title: Option<&str>, content: &str) -> Post {
    Post {
        post_id: id.to_string(),
        author_username: "alice".to_string(),
        content: content.to_string(),
        title: title.map(|t| t.to_string()),
        replies_count: 3,
        bookmarks_count: 12,
    }
}

fn app_on_feed() -> App {
    App::new(Session { id_token: Some("ID".to_string()), refresh_token: None, username: None })
}

#[test]
fn numbers_in_decimal() {
    assert_eq!(decimal_text(0), "0");
    assert_eq!(decimal_text(7), "7");
    assert_eq!(decimal_text(10), "10");
    assert_eq!(decimal_text(1234567890), "1234567890");
    assert_eq!(decimal_text(u64::MAX), u64::MAX.to_string());
}

#[test]
fn previews_count_characters() {
    assert_eq!(first_chars("abcdef", 3), "abc");
    assert_eq!(first_chars("ab", 3), "ab");
    assert_eq!(first_chars("èàù€x", 4), "èàù€");
    assert_eq!(first_chars("", 0), "");
}

#[test]
fn feed_post_lines() {
    let long: String = "x".repeat(130);
    let lines = post_entry_lines(&post("p", Some("Titolo"), &long));
    assert_eq!(lines.len(), 4);
    assert_eq!(lines[0].text, "@alice");
    assert_eq!(lines[0].tone, Tone::Heading);
    assert_eq!(lines[1].text, "Titolo");
    assert_eq!(lines[1].tone, Tone::Emphasis);
    assert_eq!(lines[2].text, "x".repeat(120));
    assert_eq!(lines[3].text, "3 replies · 12 bookmarks");
    assert_eq!(lines[3].tone, Tone::Muted);
    let untitled = post_entry_lines(&post("p", Some(""), "hi"));
    assert_eq!(untitled.len(), 3);
    assert_eq!(untitled[1].text, "hi");
}

#[test]
fn feed_highlights_the_selection() {
    let mut app = app_on_feed();
    app.feed = vec![post("a", None, "1"), post("b", None, "2")];
    app.selected_index = 1;
    let entries = feed_entries(&app);
    assert_eq!(entries.len(), 2);
    assert_eq!(entries[0].look, Look::Plain);
    assert_eq!(entries[1].look, Look::Highlighted);
}

#[test]
fn post_view_with_replies() {
    let mut app = app_on_feed();
    assert!(post_view(&app).is_none());
    app.current_post = Some(post("p", Some("T"), "body"));
    app.replies_loading = true;
    let lines = post_view(&app).unwrap();
    let texts: Vec<&str> = lines.iter().map(|l| l.text.as_str()).collect();
    assert_eq!(texts, vec!["@alice", "T", "", "body", "", "Caricamento replies..."]);
    app.replies_loading = false;
    let lines = post_view(&app).unwrap();
    let texts: Vec<&str> = lines.iter().map(|l| l.text.as_str()).collect();
    assert_eq!(texts, vec!["@alice", "T", "", "body", "", "0 replies", "", "Nessuna reply."]);
    app.current_replies = vec![
        Reply { author_username: Some("bob".to_string()), content: "ciao".to_string() },
        Reply { author_username: None, content: "anon".to_string() },
    ];
    let lines = post_view(&app).unwrap();
    let texts: Vec<&str> = lines.iter().map(|l| l.text.as_str()).collect();
    assert_eq!(
        texts,
        vec!["@alice", "T", "", "body", "", "2 replies", "", "> @bob", "ciao", "", "> @", "anon", ""]
    );
    assert_eq!(lines[7].tone, Tone::Accent);
}

#[test]
fn status_line_shows_keys_and_status() {
    let mut app = app_on_feed();
    assert_eq!(
        status_line(&app),
        "j/k: naviga | Enter: apri | c: nuovo post | w: watch | x: bookmark | s: menu | q: esci"
    );
    app.set_status("Login ok".to_string());
    assert_eq!(
        status_line(&app),
        "j/k: naviga | Enter: apri | c: nuovo post | w: watch | x: bookmark | s: menu | q: esci | Login ok"
    );
    app.show_post_modal = true;
    assert_eq!(status_line(&app), "r: reply | Esc: chiudi | Login ok");
    app.show_reply_modal = true;
    assert_eq!(status_line(&app), "Ctrl+S: invia reply | Esc: annulla | Login ok");
    app.show_create_post_modal = true;
    app.status_message = Some(String::new());
    assert_eq!(status_line(&app), "Tab: cambia campo | Ctrl+S: pubblica | Esc: annulla");
    let mut other = app_on_feed();
    other.screen = Screen::Jukebox;
    assert_eq!(status_line(&other), "s: menu | q: esci");
    other.input_mode = InputMode::Compose;
    assert_eq!(status_line(&other), "Enter: invia | Esc: annulla");
}

#[test]
fn login_screen_masks_the_password() {
    let mut app = App::new(Session::default());
    for c in ['a', 'b'] {
        let _ = app.handle_key(KeyEvent { code: KeyCode::Char(c), ctrl: false, press: true, edit: Some(Edit::Insert(c)) });
    }
    let _ = app.handle_key(KeyEvent { code: KeyCode::Tab, ctrl: false, press: true, edit: None });
    for c in ['è', 'x'] {
        let _ = app.handle_key(KeyEvent { code: KeyCode::Char(c), ctrl: false, press: true, edit: Some(Edit::Insert(c)) });
    }
    let v = login_screen(&app);
    assert_eq!(v.email.value.text, "ab");
    assert_eq!(v.email.value.tone, Tone::Muted);
    assert_eq!(v.password.value.text, "***");
    assert_eq!(v.password.value.tone, Tone::Accent);
    assert_eq!(v.hint.text, "Tab: cambia campo · Enter: login · Esc: esci");
    app.login_error = Some("Errore login: x".to_string());
    let v = login_screen(&app);
    assert_eq!(v.hint.text, "Errore login: x");
    assert_eq!(v.hint.tone, Tone::Alert);
    assert_eq!(star_text(0), "");
}

#[test]
fn room_panel_lines() {
    let mut app = app_on_feed();
    app.circ_messages = vec![
        CircMessage { content: "ciao".to_string(), sender_username: Some("bob".to_string()), is_action: false, deleted: false },
        CircMessage { content: "balla".to_string(), sender_username: Some("eve".to_string()), is_action: true, deleted: false },
        CircMessage { content: "x".to_string(), sender_username: None, is_action: true, deleted: true },
    ];
    let p = room_panel(&app);
    assert_eq!(p.title, "cIRC: cIRC room");
    assert_eq!(p.lines[0].text, "@bob: ciao");
    assert_eq!(p.lines[1].text, "* eve balla");
    assert_eq!(p.lines[1].tone, Tone::Action);
    assert_eq!(p.lines[2].text, "[eliminato]");
    assert_eq!(p.lines[2].tone, Tone::Muted);
    app.current_room = Some(CircRoom { id: "r".to_string(), name: Some("lobby".to_string()) });
    assert_eq!(room_panel(&app).title, "cIRC: lobby");
    let idle = room_input(&app);
    assert_eq!(idle.title, "Premi i per scrivere un messaggio");
    assert_eq!(idle.value.text, "");
    app.input_mode = InputMode::Compose;
    assert_eq!(room_input(&app).title, "Messaggio cIRC (Enter: invia, Esc: annulla)");
}

#[test]
fn list_entries() {
    let mut app = app_on_feed();
    app.notifications = vec![
        Notification { id: "1".to_string(), kind: "reply".to_string(), actor_username: Some("bob".to_string()), read: true },
        Notification { id: "2".to_string(), kind: "like".to_string(), actor_username: None, read: false },
    ];
    let n = notification_entries(&app);
    assert_eq!(n[0].lines[0].text, "reply  @bob");
    assert_eq!(n[0].look, Look::Dim);
    assert_eq!(n[1].lines[0].text, "like  @");
    assert_eq!(n[1].look, Look::Bright);
    app.topics = vec![Topic { slug: "r".to_string(), name: "rust".to_string(), post_count: Some(42) }, Topic { slug: "g".to_string(), name: "go".to_string(), post_count: None }];
    app.topic_selected = 1;
    let t = topic_entries(&app);
    assert_eq!(t[0].lines[0].text, "#rust  [42]");
    assert_eq!(t[1].lines[0].text, "#go  [0]");
    assert_eq!(t[1].look, Look::Highlighted);
    app.guilds = vec![Guild {
        id: "g".to_string(),
        name: "hackers".to_string(),
        slug: "h".to_string(),
        founder_username: Some("neo".to_string()),
        icon: Some("#".to_string()),
        bio: None,
        member_count: Some(5),
    }];
    assert_eq!(guild_entries(&app)[0].lines[0].text, "#  @hackers  [5]");
    app.current_guild = Some(app.guilds[0].clone());
    let g = guild_panel(&app);
    let texts: Vec<&str> = g.lines.iter().map(|l| l.text.as_str()).collect();
    assert_eq!(texts, vec!["# hackers", "@neo", "", "Membri: 5"]);
    assert_eq!(g.title, "Guild Detail");
    app.bookmarks = vec![];
    assert!(bookmark_entries(&app).is_empty());
}

#[test]
fn profile_and_sidebar() {
    let mut app = app_on_feed();
    let p = profile_panel(&app);
    assert_eq!(p.lines[0].text, "Nessun profilo");
    app.current_profile = Some(User { username: "me".to_string(), display_name: Some("Me".to_string()), bio: None });
    let p = profile_panel(&app);
    assert_eq!(p.title, "Profile");
    assert_eq!(p.lines[0].text, "@me");
    assert_eq!(p.lines[1].text, "Me");
    assert_eq!(p.lines[2].text, "");
    app.sidebar_selected = 3;
    let s = sidebar_entries(&app);
    assert_eq!(s.len(), 10);
    assert_eq!(s[0].lines[0].text, "Feed");
    assert_eq!(s[3].lines[0].text, "cIRC");
    assert_eq!(s[3].look, Look::Highlighted);
    assert_eq!(s[9].lines[0].text, "Jukebox");
}

#[test]
fn feed_after_answer_is_shown() {
    let mut app = app_on_feed();
    let _ = app.load_initial_data();
    let _ = app.resume(Ok(Response::Posts(ApiList { data: vec![post("a", None, "uno")], cursor: None })));
    let e = feed_entries(&app);
    assert_eq!(e.len(), 1);
    assert_eq!(e[0].lines[1].text, "uno");
    assert_eq!(e[0].look, Look::Highlighted);
}

#[test]
fn overlays_in_order() {
    let mut app = app_on_feed();
    assert_eq!(overlay(&app), Overlay::Nothing);
    app.show_post_modal = true;
    assert_eq!(overlay(&app), Overlay::Post);
    app.show_reply_modal = true;
    assert_eq!(overlay(&app), Overlay::PostAndReply);
    app.show_create_post_modal = true;
    assert_eq!(overlay(&app), Overlay::NewPost);
}
