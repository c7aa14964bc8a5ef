//! Properties that hold across the operations of the library.
use crate::api::{call_request, error_text, CallView, ClientView};
use crate::app::{list_len, logged_out, min_index, selection, with_selection, selection_down, selection_up, sidebar_down, sidebar_toggled, sidebar_up, with_error, with_status, AppView, Screen, SIDEBAR_LEN};
use crate::flow::{call, on_feed, on_login, refresh_failed, resume_step, stay, tokens_of, AfterFeed, AfterInitial, CommandView, FlowView, RefreshForView, Response, unauthorized, UNAUTHORIZED_STATUS};
use crate::keys::{create_focus_switched, create_modal_key, key_step, main_key, next_page};
use crate::flow::KeyCode;
use crate::input::Edit;
use crate::app::{sidebar_screen, sidebar_select, CreatePostFocus, InputMode};
use crate::api::{BodyView, Method, BASE_URL};
use crate::models::ApiList;
use crate::models::Post;
use crate::flow::KeyEvent;
use crate::models::LoginData;
use crate::session::empty_session;
use crate::text::{contains, join_path, occurs_at, trim, trim_end, trim_start, is_white_space};
use crate::layout::{error_box_of, Area, ERROR_BOX_MAX_WIDTH};
use crate::view::{room_entries_of, sidebar_names, byte_len, feed_entries_of, login_screen_of, status_hint_of, status_line_of, Look};
use vstd::prelude::*;

verus! {

/// Showing a status message hides the error, and showing an error hides the
/// status message: the two are never shown together after either.
pub proof fn law_status_and_error_exclusive(s: AppView, msg: Seq<char>)
    ensures
        with_status(s, msg).error_message is None,
        with_status(s, msg).status_message == Some(msg),
        with_error(s, msg).status_message is None,
        with_error(s, msg).error_message == Some(msg),
{
}

/// Toggling the sidebar twice leaves the state as it was.
pub proof fn law_sidebar_toggle_twice(s: AppView)
    ensures
        sidebar_toggled(sidebar_toggled(s)) == s,
{
}

/// Moving in the sidebar keeps the selection on one of its entries, and a
/// move down undone by a move up (away from the last entry) restores it.
pub proof fn law_sidebar_moves(s: AppView)
    requires
        s.sidebar_selected < SIDEBAR_LEN,
    ensures
        sidebar_down(s).sidebar_selected < SIDEBAR_LEN,
        sidebar_up(s).sidebar_selected < SIDEBAR_LEN,
        s.sidebar_selected + 1 < SIDEBAR_LEN ==> sidebar_up(sidebar_down(s)) == s,
        0 < s.sidebar_selected ==> sidebar_down(sidebar_up(s)) == s,
{
}

/// Moving the selection down on a non-empty list leaves it on an entry of the
/// list; away from the last entry a move up undoes it.
pub proof fn law_selection_moves(s: AppView)
    requires
        0 < list_len(s) <= usize::MAX,
    ensures
        selection(selection_down(s)) < list_len(selection_down(s)),
        selection(s) + 1 < list_len(s) ==> selection_up(selection_down(s)) == s,
{
    let n = list_len(s);
    let k = min_index(selection(s) + 1, n - 1) as usize;
    lemma_with_selection(s, k);
    assert(selection_down(s) == with_selection(s, k));
    if selection(s) + 1 < n {
        let d = with_selection(s, k);
        assert(k == selection(s) + 1);
        lemma_with_selection(d, selection(s));
        assert(selection_up(d) == with_selection(d, selection(s)));
        lemma_with_selection_twice(s, k, selection(s));
        lemma_with_own_selection(s);
    }
}

proof fn lemma_with_selection(s: AppView, i: usize)
    ensures
        selection(with_selection(s, i)) == i,
        list_len(with_selection(s, i)) == list_len(s),
        with_selection(s, i).screen == s.screen,
{
}

proof fn lemma_with_selection_twice(s: AppView, i: usize, j: usize)
    ensures
        with_selection(with_selection(s, i), j) == with_selection(s, j),
{
}

proof fn lemma_with_own_selection(s: AppView)
    ensures
        with_selection(s, selection(s)) == s,
{
    match s.screen {
        Screen::CmailList => {},
        Screen::CircList => {},
        Screen::Topics => {},
        Screen::Journal => {},
        Screen::Guilds => {},
        _ => {},
    }
}

/// A feed page is asked for at most once in a row: when a step asks for the
/// page after a cursor, that cursor was the feed's and not the last one asked
/// for, and asking again right away asks for nothing.
pub proof fn law_feed_page_asked_once(s: AppView)
    ensures
        next_page(s).cmds.len() <= 1,
        next_page(s).cmds.len() == 1 ==> {
            &&& s.feed_cursor is Some
            &&& s.feed_last_requested_cursor != s.feed_cursor
            &&& next_page(s).cmds[0] == CommandView::LoadFeedPage { cursor: s.feed_cursor->0 }
            &&& next_page(s).app.feed_last_requested_cursor == s.feed_cursor
            &&& next_page(next_page(s).app).cmds.len() == 0
        },
{
    reveal(next_page);
}

/// After a logout nobody is logged in: the session and the client hold no
/// token and the login screen is shown.
pub proof fn law_logout_forgets_tokens(s: AppView)
    ensures
        logged_out(s).session == empty_session(),
        logged_out(s).api.id_token is None,
        logged_out(s).api.refresh_token is None,
        logged_out(s).screen == Screen::Login,
{
}

/// A successful login keeps the tokens in the client and in the session,
/// with the e-mail as user name, saves the session, and then loads the feed.
pub proof fn law_login_keeps_tokens(s: AppView, email: Seq<char>, d: LoginData)
    ensures
        on_login(s, email, Ok(Response::Tokens(d))).app.api == tokens_of(d),
        on_login(s, email, Ok(Response::Tokens(d))).app.session.id_token == Some(d.id_token@),
        on_login(s, email, Ok(Response::Tokens(d))).app.session.refresh_token == Some(
            d.refresh_token@,
        ),
        on_login(s, email, Ok(Response::Tokens(d))).app.session.username == Some(email),
        on_login(s, email, Ok(Response::Tokens(d))).cmds == seq![
            CommandView::SaveSession,
            CommandView::Call(CallView::GetPosts { cursor: None }),
        ],
        on_login(s, email, Ok(Response::Tokens(d))).app.flow == FlowView::InitialFeed(
            AfterInitial::LoginDone,
        ),
{
    reveal(on_login);
    reveal(call);
}

/// A failed refresh always ends the session: whichever operation asked for
/// it, the session file is deleted first, the session is emptied and the
/// login screen shown.
pub proof fn law_failed_refresh_ends_session(s: AppView, waiting: RefreshForView)
    ensures
        refresh_failed(s, waiting).cmds.len() >= 1,
        refresh_failed(s, waiting).cmds[0] == CommandView::ClearSession,
        refresh_failed(s, waiting).app.session == empty_session(),
        refresh_failed(s, waiting).app.screen == Screen::Login,
{
    reveal(refresh_failed);
    reveal(crate::flow::finish_feed);
    reveal(call);
    match waiting {
        RefreshForView::Feed(t) => {
            match t {
                AfterFeed::Nothing => {},
                AfterFeed::FinishCompose => {},
                AfterFeed::RefreshUnread => {},
            }
        },
        _ => {},
    }
}

/// A refused token is renewed at most once per feed load: when the feed was
/// already asked for again after a refresh, its answer never asks for
/// another refresh.
pub proof fn law_feed_retries_once(s: AppView, then: AfterFeed, o: Result<Response, String>)
    requires
        s.flow == (FlowView::Feed { then, retry: true }),
    ensures
        !(resume_step(s, o).app.flow is Refresh),
{
    reveal(resume_step);
    reveal(on_feed);
    reveal(crate::flow::finish_feed);
    reveal(call);
    match then {
        AfterFeed::Nothing => {},
        AfterFeed::FinishCompose => {},
        AfterFeed::RefreshUnread => {},
    }
}

/// With no operation waiting, an answer changes nothing.
pub proof fn law_answer_without_waiting(s: AppView, o: Result<Response, String>)
    requires
        s.flow == FlowView::Idle,
    ensures
        resume_step(s, o) == stay(s),
{
    reveal(resume_step);
}

/// A key that is not a press changes nothing.
pub proof fn law_release_ignored(s: AppView, k: KeyEvent)
    requires
        !k.press,
    ensures
        key_step(s, k) == stay(s),
{
    reveal(key_step);
}

/// Every request but the login and the refresh carries the client's id
/// token and accepts any 2xx status; the login and the refresh carry none and
/// accept only 200.
pub proof fn law_requests_carry_token(c: ClientView, call_v: CallView, now: i64)
    ensures
        call_request(c, call_v, now) matches Some(r) ==> (if call_v is Login || call_v is Refresh {
            r.bearer is None && r.strict_ok
        } else {
            r.bearer == c.id_token && !r.strict_ok
        }),
{
}

/// Trimming twice is trimming once.
pub proof fn law_trim_idempotent(s: Seq<char>)
    ensures
        trim(trim(s)) == trim(s),
{
    lemma_trim_start_result(s);
    let a = trim_start(s);
    lemma_trim_end_keeps_start(a);
    lemma_trim_end_result(a);
    lemma_trim_start_noop(trim_end(a));
    lemma_trim_end_noop(trim_end(a));
}

proof fn lemma_trim_start_result(s: Seq<char>)
    ensures
        trim_start(s).len() > 0 ==> !is_white_space(trim_start(s)[0]),
    decreases s.len(),
{
    if s.len() > 0 && is_white_space(s[0]) {
        lemma_trim_start_result(s.drop_first());
    }
}

proof fn lemma_trim_end_result(s: Seq<char>)
    ensures
        trim_end(s).len() > 0 ==> !is_white_space(trim_end(s).last()),
    decreases s.len(),
{
    if s.len() > 0 && is_white_space(s.last()) {
        lemma_trim_end_result(s.drop_last());
    }
}

proof fn lemma_trim_end_keeps_start(s: Seq<char>)
    requires
        s.len() > 0 ==> !is_white_space(s[0]),
    ensures
        trim_end(s).len() > 0 ==> !is_white_space(trim_end(s)[0]),
        trim_end(s).len() <= s.len(),
        trim_end(s) =~= s.subrange(0, trim_end(s).len() as int),
    decreases s.len(),
{
    if s.len() > 0 && is_white_space(s.last()) {
        lemma_trim_end_keeps_start(s.drop_last());
        assert(s.drop_last().subrange(0, trim_end(s).len() as int) =~= s.subrange(
            0,
            trim_end(s).len() as int,
        ));
    }
}

proof fn lemma_trim_start_noop(s: Seq<char>)
    requires
        s.len() > 0 ==> !is_white_space(s[0]),
    ensures
        trim_start(s) == s,
{
}

proof fn lemma_trim_end_noop(s: Seq<char>)
    requires
        s.len() > 0 ==> !is_white_space(s.last()),
    ensures
        trim_end(s) == s,
{
}

/// An error answer whose status text holds "401" is seen as a refused token,
/// whatever error body came with it; so such an answer leads to a refresh.
pub proof fn law_status_401_is_unauthorized(
    status: Seq<char>,
    detail: Option<(Seq<char>, Seq<char>)>,
)
    requires
        contains(status, UNAUTHORIZED_STATUS@),
    ensures
        unauthorized(error_text(status, detail)),
{
    let i = choose|i: int| occurs_at(status, UNAUTHORIZED_STATUS@, i);
    let n = UNAUTHORIZED_STATUS@.len();
    match detail {
        Some((code, message)) => {
            let e = error_text(status, detail);
            let off = code.len() + " ("@.len();
            assert(e == code + " ("@ + status + "): "@ + message);
            assert(e.subrange(off + i, off + i + n) =~= status.subrange(i, i + n));
            assert(occurs_at(e, UNAUTHORIZED_STATUS@, off + i));
        },
        None => {
            let e = error_text(status, detail);
            let off = "HTTP "@.len();
            assert(e.subrange(off + i, off + i + n) =~= status.subrange(i, i + n));
            assert(occurs_at(e, UNAUTHORIZED_STATUS@, off + i));
        },
    }
}

/// A joined path ends with the component joined onto it.
pub proof fn law_joined_path_ends_with_component(base: Seq<char>, component: Seq<char>)
    ensures
        join_path(base, component).len() >= component.len(),
        join_path(base, component).subrange(
            join_path(base, component).len() - component.len(),
            join_path(base, component).len() as int,
        ) == component,
{
    let p = join_path(base, component);
    assert(p.subrange(p.len() - component.len(), p.len() as int) =~= component);
}

/// The error box stays inside the screen from left to right, is at most 90
/// cells wide, leaves at least two cells free on each side, and starts below
/// the screen's top row.
pub proof fn law_error_box_inside(has_error: bool, a: Area)
    requires
        a.x + a.width <= u16::MAX,
        a.y + a.height <= u16::MAX,
    ensures
        error_box_of(has_error, a) matches Some(b) ==> {
            &&& a.x + 2 <= b.x
            &&& b.x + b.width + 2 <= a.x + a.width
            &&& b.width <= ERROR_BOX_MAX_WIDTH
            &&& b.y == a.y + 1
            &&& b.height == 3
        },
{
}

/// The password is never shown: its field holds only stars, one per byte of
/// the password.
pub proof fn law_password_never_shown(s: AppView)
    ensures
        login_screen_of(s).password.value.text.len() == byte_len(s.login_password),
        forall|i: int|
            0 <= i < login_screen_of(s).password.value.text.len() ==> login_screen_of(
                s,
            ).password.value.text[i] == '*',
{
}

/// The feed shows one entry per post, and exactly the selected one is
/// highlighted.
pub proof fn law_one_entry_per_post(s: AppView)
    ensures
        feed_entries_of(s).len() == s.feed.len(),
        forall|i: int|
            0 <= i < s.feed.len() ==> (#[trigger] feed_entries_of(s)[i].look == Look::Highlighted
                <==> i == s.selected_index),
{
}

/// The status line always begins with the keys of what is shown.
pub proof fn law_status_line_starts_with_keys(s: AppView)
    ensures
        status_line_of(s).len() >= status_hint_of(s).len(),
        status_line_of(s).subrange(0, status_hint_of(s).len() as int) == status_hint_of(s),
{
    let h = status_hint_of(s);
    assert(status_line_of(s).subrange(0, h.len() as int) =~= h);
}

/// After a successful login every request of the client carries the id token
/// handed out by the login (the login and refresh requests carry none).
pub proof fn law_requests_after_login_carry_new_token(
    s: AppView,
    email: Seq<char>,
    d: LoginData,
    call_v: CallView,
    now: i64,
)
    ensures
        !(call_v is Login || call_v is Refresh) ==> (call_request(
            on_login(s, email, Ok(Response::Tokens(d))).app.api,
            call_v,
            now,
        ) matches Some(r) && r.bearer == Some(d.id_token@)),
{
    law_login_keeps_tokens(s, email, d);
    law_requests_carry_token(on_login(s, email, Ok(Response::Tokens(d))).app.api, call_v, now);
}

/// After a logout no request carries a token, and a refresh cannot even be
/// asked for.
pub proof fn law_no_token_after_logout(s: AppView, call_v: CallView, now: i64)
    ensures
        call_request(logged_out(s).api, call_v, now) matches Some(r) ==> r.bearer is None,
        call_v is Refresh ==> call_request(logged_out(s).api, call_v, now) is None,
{
    law_logout_forgets_tokens(s);
    law_requests_carry_token(logged_out(s).api, call_v, now);
}

/// While the new-post modal is open (away from the login screen and the
/// compose field), every key press is the modal's: the other modals, the
/// sidebar and the screen do not see it.
pub proof fn law_new_post_modal_takes_keys(s: AppView, k: KeyEvent)
    requires
        k.press,
        s.screen != Screen::Login,
        s.input_mode == InputMode::Normal,
        s.show_create_post_modal,
    ensures
        key_step(s, k) == create_modal_key(s, k),
{
    reveal(key_step);
    reveal(main_key);
}

/// In the new-post modal, Tab moves the focus to the other field and
/// changes nothing else, so two Tabs give back the state.
pub proof fn law_two_tabs_restore_the_modal(s: AppView, k: KeyEvent)
    requires
        k.press,
        k.code == KeyCode::Tab,
        s.screen != Screen::Login,
        s.input_mode == InputMode::Normal,
        s.show_create_post_modal,
    ensures
        key_step(s, k).cmds.len() == 0,
        key_step(s, k).app == create_focus_switched(s),
        key_step(key_step(s, k).app, k).app == s,
{
    reveal(key_step);
    reveal(main_key);
    reveal(create_modal_key);
    reveal(create_focus_switched);
    let t = create_focus_switched(s);
    assert(key_step(t, k).app == create_focus_switched(t));
    match s.create_post_focus {
        CreatePostFocus::Title => {},
        CreatePostFocus::Content => {},
    }
}

/// Typing a character on the login screen with the cursor at the end of the
/// active field appends it there and leaves the cursor after it; the other
/// field is unchanged.
pub proof fn law_typing_appends(s: AppView, k: KeyEvent, c: char)
    requires
        k.press,
        s.screen == Screen::Login,
        k.code == KeyCode::Char(c),
        k.edit == Some(Edit::Insert(c)),
        s.login_field_email_active,
        s.login_email_cursor == s.login_email.len(),
    ensures
        key_step(s, k).app.login_email == s.login_email.push(c),
        key_step(s, k).app.login_email_cursor == s.login_email.len() + 1,
        key_step(s, k).app.login_password == s.login_password,
        key_step(s, k).cmds.len() == 0,
{
    reveal(key_step);
    reveal(crate::keys::login_key);
    reveal(crate::keys::login_edited);
}

/// Enter on the topics list, with nothing over it, asks for the posts of the
/// selected topic by its slug, and for nothing else.
pub proof fn law_open_topic_asks_for_its_slug(s: AppView, k: KeyEvent)
    requires
        k.press,
        k.code == KeyCode::Enter,
        s.screen == Screen::Topics,
        s.input_mode == InputMode::Normal,
        !s.sidebar_visible,
        !s.show_create_post_modal,
        !s.show_reply_modal,
        !s.show_post_modal,
        s.topic_selected < s.topics.len(),
    ensures
        key_step(s, k).cmds == seq![
            CommandView::Call(
                CallView::GetTopicPosts { slug: s.topics[s.topic_selected as int].slug@ },
            ),
        ],
{
    reveal(key_step);
    reveal(main_key);
    reveal(crate::keys::plain_key);
    reveal(crate::keys::enter_key);
    reveal(crate::keys::open_item);
    reveal(crate::keys::open_topic);
    reveal(call);
}

/// A successful load of the feed leaves exactly the posts of the answer and
/// its cursor, whatever the feed held before: a reload replaces the feed, it
/// never adds to it.
pub proof fn law_feed_load_replaces_the_feed(
    s: AppView,
    then: AfterFeed,
    retry: bool,
    l: ApiList<Post>,
)
    requires
        s.flow == (FlowView::Feed { then, retry }),
    ensures
        resume_step(s, Ok(Response::Posts(l))).app.feed == l.data@,
        resume_step(s, Ok(Response::Posts(l))).app.feed_cursor == crate::models::opt_text(l.cursor),
{
    reveal(resume_step);
    reveal(on_feed);
    reveal(crate::flow::finish_feed);
    reveal(call);
    match then {
        AfterFeed::Nothing => {},
        AfterFeed::FinishCompose => {},
        AfterFeed::RefreshUnread => {},
    }
}

/// The first load of the feed, too, leaves exactly the posts of the answer.
pub proof fn law_first_feed_load_replaces_the_feed(
    s: AppView,
    then: AfterInitial,
    l: ApiList<Post>,
)
    requires
        s.flow == FlowView::InitialFeed(then),
    ensures
        resume_step(s, Ok(Response::Posts(l))).app.feed == l.data@,
        resume_step(s, Ok(Response::Posts(l))).app.feed_cursor == crate::models::opt_text(l.cursor),
{
    reveal(resume_step);
    reveal(crate::flow::on_initial);
    reveal(crate::flow::finish_initial);
    match then {
        AfterInitial::Nothing => {},
        AfterInitial::LoginDone => {},
    }
}

/// The refresh request is a POST to the refresh endpoint that carries the
/// client's refresh token (never its id token) and no bearer; without a
/// refresh token there is no request.
pub proof fn law_refresh_sends_the_refresh_token(c: ClientView, now: i64)
    ensures
        c.refresh_token matches Some(t) ==> call_request(c, CallView::Refresh, now) matches Some(r)
            && r.method == Method::Post && r.url == BASE_URL@ + "/v1/auth/refresh"@
            && r.bearer is None && r.body == (BodyView::Refresh { refresh_token: t }),
        c.refresh_token is None ==> call_request(c, CallView::Refresh, now) is None,
{
}

/// A room of the cIRC list is shown by its name, and by its id only when it
/// has none.
pub proof fn law_rooms_listed_by_name(s: AppView, i: int)
    requires
        0 <= i < s.circ_rooms.len(),
    ensures
        room_entries_of(s).len() == s.circ_rooms.len(),
        room_entries_of(s)[i].lines.len() == 1,
        s.circ_rooms[i].name matches Some(n) ==> room_entries_of(s)[i].lines[0].text == n@,
        s.circ_rooms[i].name is None ==> room_entries_of(s)[i].lines[0].text == s.circ_rooms[i].id@,
{
}

/// Each sidebar entry opens the screen its label names, and choosing an
/// entry shows that screen and hides the sidebar.
pub proof fn law_sidebar_entries_open_their_screens(s: AppView, i: usize)
    requires
        i < SIDEBAR_LEN,
    ensures
        sidebar_names()[i as int] == "Feed"@ ==> sidebar_screen(i) == Some(Screen::Feed),
        sidebar_names()[i as int] == "Notifications"@ ==> sidebar_screen(i) == Some(
            Screen::Notifications,
        ),
        sidebar_names()[i as int] == "c-Mail"@ ==> sidebar_screen(i) == Some(Screen::CmailList),
        sidebar_names()[i as int] == "cIRC"@ ==> sidebar_screen(i) == Some(Screen::CircList),
        sidebar_names()[i as int] == "Bookmarks"@ ==> sidebar_screen(i) == Some(Screen::Bookmarks),
        sidebar_names()[i as int] == "Topics"@ ==> sidebar_screen(i) == Some(Screen::Topics),
        sidebar_names()[i as int] == "Profile"@ ==> sidebar_screen(i) == Some(Screen::Profile),
        sidebar_names()[i as int] == "Journal"@ ==> sidebar_screen(i) == Some(Screen::Journal),
        sidebar_names()[i as int] == "Guilds"@ ==> sidebar_screen(i) == Some(Screen::Guilds),
        sidebar_names()[i as int] == "Jukebox"@ ==> sidebar_screen(i) == Some(Screen::Jukebox),
        s.sidebar_selected == i ==> sidebar_select(s).screen == sidebar_screen(i)->0
            && !sidebar_select(s).sidebar_visible,
{
    reveal_strlit("Feed");
    reveal_strlit("Notifications");
    reveal_strlit("c-Mail");
    reveal_strlit("cIRC");
    reveal_strlit("Bookmarks");
    reveal_strlit("Topics");
    reveal_strlit("Profile");
    reveal_strlit("Journal");
    reveal_strlit("Guilds");
    reveal_strlit("Jukebox");
    assert("Feed"@[0] != "cIRC"@[0]);
    assert("Topics"@[0] != "Guilds"@[0]);
    assert("Profile"@[0] != "Journal"@[0]);
    assert("Profile"@[0] != "Jukebox"@[0]);
    assert("Journal"@[1] != "Jukebox"@[1]);
    assert(sidebar_names()[0] == "Feed"@);
    assert(sidebar_names()[1] == "Notifications"@);
    assert(sidebar_names()[2] == "c-Mail"@);
    assert(sidebar_names()[3] == "cIRC"@);
    assert(sidebar_names()[4] == "Bookmarks"@);
    assert(sidebar_names()[5] == "Topics"@);
    assert(sidebar_names()[6] == "Profile"@);
    assert(sidebar_names()[7] == "Journal"@);
    assert(sidebar_names()[8] == "Guilds"@);
    assert(sidebar_names()[9] == "Jukebox"@);
}

} // verus!
