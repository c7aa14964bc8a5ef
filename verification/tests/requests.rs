use cyber_tui::api::{error_message, ApiCall, ApiClient, Method, RequestBody, BASE_URL, NO_REFRESH_TOKEN};
use cyber_tui::flow::is_unauthorized;
use cyber_tui::models::ApiErrorDetail;

fn client() -> ApiClient {
    ApiClient::with_tokens("ID".to_string(), Some("RT".to_string()))
}

#[test]
fn login_request_carries_no_token() {
    let r = client().login("a@b.c", "pw");
    assert_eq!(r.method, Method::Post);
    assert_eq!(r.url, format!("{BASE_URL}/v1/auth/login"));
    assert_eq!(r.bearer, None);
    assert!(r.strict_ok);
    match r.body {
        RequestBody::Login { email, password } => {
            assert_eq!(email, "a@b.c");
            assert_eq!(password, "pw");
        }
        _ => panic!("login body expected"),
    }
}

#[test]
fn refresh_needs_a_refresh_token() {
    let r = client().refresh().unwrap();
    assert_eq!(r.url, "https://api.cyberspace.online/v1/auth/refresh");
    assert_eq!(r.bearer, None);
    assert!(matches!(r.body, RequestBody::Refresh { ref refresh_token } if refresh_token == "RT"));
    let no_rt = ApiClient::with_tokens("ID".to_string(), None);
    assert_eq!(no_rt.refresh().unwrap_err(), NO_REFRESH_TOKEN);
    assert_eq!(ApiClient::new().refresh().unwrap_err(), "Nessun refresh token disponibile");
}

#[test]
fn feed_pages() {
    let c = client();
    let first = c.get_posts(None);
    assert_eq!(first.method, Method::Get);
    assert_eq!(first.url, "https://api.cyberspace.online/v1/posts?limit=20");
    assert_eq!(first.bearer, Some("ID".to_string()));
    assert!(!first.strict_ok);
    let next = c.get_posts(Some("abc"));
    assert_eq!(next.url, "https://api.cyberspace.online/v1/posts?limit=20&cursor=abc");
}

#[test]
fn requests_of_operations() {
    let c = client();
    let cases: Vec<(ApiCall, Method, &str)> = vec![
        (ApiCall::GetReplies { post_id: "p1".to_string() }, Method::Get, "/v1/posts/p1/replies?limit=20"),
        (ApiCall::Watch { post_id: "p1".to_string() }, Method::Post, "/v1/posts/p1/watch"),
        (ApiCall::AddBookmarkPost { post_id: "p1".to_string() }, Method::Post, "/v1/bookmarks"),
        (ApiCall::GetNotifications, Method::Get, "/v1/notifications?limit=20"),
        (ApiCall::UnreadCount, Method::Get, "/v1/notifications/unread-count"),
        (ApiCall::MarkAllRead, Method::Post, "/v1/notifications/read-all"),
        (ApiCall::CmailList, Method::Get, "/v1/cmail"),
        (ApiCall::CmailMessages { cid: "c9".to_string() }, Method::Get, "/v1/cmail/c9?limit=50"),
        (ApiCall::CmailMarkRead { cid: "c9".to_string() }, Method::Post, "/v1/cmail/c9/read"),
        (ApiCall::CircRooms, Method::Get, "/v1/circ"),
        (ApiCall::CircMessages { rid: "r2".to_string() }, Method::Get, "/v1/circ/r2?limit=50"),
        (ApiCall::CircPresenceHeartbeat { rid: "r2".to_string() }, Method::Post, "/v1/circ/r2/presence"),
        (ApiCall::GetMe, Method::Get, "/v1/users/me"),
        (ApiCall::GetUserPosts { username: "bob".to_string() }, Method::Get, "/v1/users/bob/posts?limit=20"),
        (ApiCall::GetBookmarks, Method::Get, "/v1/bookmarks?limit=20"),
        (ApiCall::GetTopics, Method::Get, "/v1/topics"),
        (ApiCall::GetTopicPosts { slug: "rust".to_string() }, Method::Get, "/v1/topics/rust/posts?limit=20"),
        (ApiCall::GetNotes, Method::Get, "/v1/notes?limit=20"),
        (ApiCall::GetGuilds, Method::Get, "/v1/guilds?limit=20"),
        (ApiCall::GetGuildPosts { slug: "g".to_string() }, Method::Get, "/v1/guilds/g/posts?limit=20"),
    ];
    for (call, method, path) in cases {
        let r = c.request_for(&call, 0).unwrap();
        assert_eq!(r.method, method);
        assert_eq!(r.url, format!("https://api.cyberspace.online{path}"));
        assert_eq!(r.bearer, Some("ID".to_string()));
        assert!(!r.strict_ok);
    }
}

#[test]
fn bodies_of_operations() {
    let c = client();
    let post = c.request_for(&ApiCall::CreatePost { content: "hi".to_string(), title: Some("T".to_string()) }, 0).unwrap();
    assert_eq!(post.url, "https://api.cyberspace.online/v1/posts");
    match post.body {
        RequestBody::NewPost(p) => {
            assert_eq!(p.content, "hi");
            assert_eq!(p.title, Some("T".to_string()));
            assert!(p.topics.is_empty());
            assert!(p.is_public);
            assert!(!p.is_nsfw);
        }
        _ => panic!("post body expected"),
    }
    let reply = c.request_for(&ApiCall::CreateReply { post_id: "p".to_string(), content: "ok".to_string() }, 0).unwrap();
    assert_eq!(reply.url, "https://api.cyberspace.online/v1/replies");
    match reply.body {
        RequestBody::NewReply(r) => {
            assert_eq!(r.post_id, "p");
            assert_eq!(r.content, "ok");
            assert_eq!(r.parent_reply_id, None);
        }
        _ => panic!("reply body expected"),
    }
    let bm = c.request_for(&ApiCall::AddBookmarkPost { post_id: "p".to_string() }, 0).unwrap();
    assert!(matches!(bm.body, RequestBody::Bookmark { ref post_id, ref kind } if post_id == "p" && kind == "post"));
    let send = c.request_for(&ApiCall::CircSend { rid: "r".to_string(), content: "yo".to_string() }, 0).unwrap();
    assert_eq!(send.url, "https://api.cyberspace.online/v1/circ/r");
    assert!(matches!(send.body, RequestBody::Content { ref content } if content == "yo"));
    let mail = c.request_for(&ApiCall::CmailSend { cid: "c".to_string(), content: "hey".to_string() }, 0).unwrap();
    assert_eq!(mail.method, Method::Post);
    assert_eq!(mail.url, "https://api.cyberspace.online/v1/cmail/c");
    let beat = c.request_for(&ApiCall::CircPresenceHeartbeat { rid: "r".to_string() }, 1_700_000_000_123).unwrap();
    assert_eq!(beat.url, "https://api.cyberspace.online/v1/circ/r/presence");
    assert!(matches!(beat.body, RequestBody::Presence { last_activity } if last_activity == 1_700_000_000_123));
}

#[test]
fn other_requests() {
    let c = client();
    let note = c.create_note("n", vec!["t1".to_string()]);
    assert_eq!(note.method, Method::Post);
    assert_eq!(note.url, "https://api.cyberspace.online/v1/notes");
    let upd = c.update_note("id1", "n2", vec![]);
    assert_eq!(upd.method, Method::Patch);
    assert_eq!(upd.url, "https://api.cyberspace.online/v1/notes/id1");
    let del = c.delete_note("id1");
    assert_eq!(del.method, Method::Delete);
    let join = c.join_guild("g");
    assert_eq!(join.url, "https://api.cyberspace.online/v1/guilds/g/join");
    let leave = c.leave_guild("g");
    assert_eq!(leave.url, "https://api.cyberspace.online/v1/guilds/g/leave");
    let prof = c.update_profile(Some("bio"), None, None, None);
    assert_eq!(prof.method, Method::Patch);
    assert!(matches!(prof.body, RequestBody::Profile { ref bio, ref display_name, .. } if bio.as_deref() == Some("bio") && display_name.is_none()));
    let anon = ApiClient::new().get_me();
    assert_eq!(anon.bearer, None);
}

#[test]
fn refresh_without_token_is_an_error() {
    let c = ApiClient::new();
    assert_eq!(c.request_for(&ApiCall::Refresh, 0).unwrap_err(), NO_REFRESH_TOKEN);
}

#[test]
fn accepted_statuses() {
    let c = client();
    let login = c.login("a", "b");
    assert!(login.accepts_status(200));
    assert!(!login.accepts_status(201));
    let get = c.get_me();
    assert!(get.accepts_status(200));
    assert!(get.accepts_status(204));
    assert!(get.accepts_status(299));
    assert!(!get.accepts_status(300));
    assert!(!get.accepts_status(199));
    assert!(!get.accepts_status(401));
}

#[test]
fn error_texts() {
    let detail = ApiErrorDetail { code: "UNAUTHORIZED".to_string(), message: "token scaduto".to_string() };
    assert_eq!(
        error_message("401 Unauthorized", Some(detail)),
        "UNAUTHORIZED (401 Unauthorized): token scaduto"
    );
    assert_eq!(error_message("500 Internal Server Error", None), "HTTP 500 Internal Server Error");
}

#[test]
fn unauthorized_errors() {
    assert!(is_unauthorized("HTTP 401 Unauthorized"));
    assert!(is_unauthorized("UNAUTHORIZED (x): y"));
    assert!(!is_unauthorized("HTTP 500 Internal Server Error"));
    assert!(!is_unauthorized("unauthorized"));
    assert!(is_unauthorized(&error_message("401 Unauthorized", None)));
}
