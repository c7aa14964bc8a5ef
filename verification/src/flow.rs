//! How the client reacts to keys and to the answers of the service: each
//! reaction changes the state and yields the commands that the shell carries
//! out (requests, session writes, background loads). An operation that waits
//! for an answer is kept in `App::flow` until `App::resume` receives it.
use crate::api::{ApiCall, CallView};
use crate::app::{logged_out, tokens_persisted, with_error, with_status, App, AppView, CreatePostFocus, InputMode, Screen, LOGGED_OUT};
use crate::input::{empty_input, Edit};
use crate::models::{opt_text, ApiList, Bookmark, CircMessage, CircRoom, CmailConversationRef, CmailMessage, Guild, LoginData, Note, Notification, Post, Reply, Topic, User};
use crate::session::{empty_session, Session};
use crate::text::{concat2, contains, contains_text};
use vstd::prelude::*;

verus! {

/// What follows a reload of the feed.
#[derive(Debug, Clone, Copy, PartialEq, Eq, Structural)]
pub enum AfterFeed {
    Nothing,
    FinishCompose,
    RefreshUnread,
}

/// What follows the first load of the feed.
#[derive(Debug, Clone, Copy, PartialEq, Eq, Structural)]
pub enum AfterInitial {
    Nothing,
    LoginDone,
}

/// What follows a load of the messages of a cIRC room.
#[derive(Debug, Clone, Copy, PartialEq, Eq, Structural)]
pub enum AfterCirc {
    Nothing,
    FinishCompose,
    ShowRoom,
}

/// What follows a load of the messages of a c-Mail conversation.
#[derive(Debug, Clone, Copy, PartialEq, Eq, Structural)]
pub enum AfterCmail {
    FinishCompose,
    ShowConversation,
}

/// The lists loaded by a single request.
#[derive(Debug, Clone, Copy, PartialEq, Eq, Structural)]
pub enum ListKind {
    CmailList,
    CircList,
    Bookmarks,
    Topics,
    TopicPosts,
    Journal,
    Guilds,
    GuildPosts,
}

/// The operation that asked for a refresh of the tokens.
#[derive(Debug, Clone)]
pub enum RefreshFor {
    Feed(AfterFeed),
    Circ { rid: String, then: AfterCirc },
    Unread,
}

/// The operation that asked for a refresh, as values.
pub enum RefreshForView {
    Feed(AfterFeed),
    Circ { rid: Seq<char>, then: AfterCirc },
    Unread,
}

impl View for RefreshFor {
    type V = RefreshForView;

    open spec fn view(&self) -> RefreshForView {
        match self {
            RefreshFor::Feed(t) => RefreshForView::Feed(*t),
            RefreshFor::Circ { rid, then } => RefreshForView::Circ { rid: rid@, then: *then },
            RefreshFor::Unread => RefreshForView::Unread,
        }
    }
}

/// The operation that waits for the answer of the request in flight.
#[derive(Debug, Clone)]
pub enum Flow {
    Idle,
    Login { email: String },
    InitialFeed(AfterInitial),
    Feed { then: AfterFeed, retry: bool },
    Refresh(RefreshFor),
    Unread,
    Notifications,
    MarkAllRead,
    CmailMessages { cid: String, then: AfterCmail },
    CmailMarkRead(AfterCmail),
    CircMessages { rid: String, then: AfterCirc, retry: bool },
    CircHeartbeat(AfterCirc),
    List(ListKind),
    Profile,
    ProfilePosts,
    ComposePost,
    ComposeCirc { rid: String },
    ComposeCmail { cid: String },
    ModalPost,
    Reply { post_id: String },
    Watch,
    Bookmark,
}

/// The waiting operation as values.
pub enum FlowView {
    Idle,
    Login { email: Seq<char> },
    InitialFeed(AfterInitial),
    Feed { then: AfterFeed, retry: bool },
    Refresh(RefreshForView),
    Unread,
    Notifications,
    MarkAllRead,
    CmailMessages { cid: Seq<char>, then: AfterCmail },
    CmailMarkRead(AfterCmail),
    CircMessages { rid: Seq<char>, then: AfterCirc, retry: bool },
    CircHeartbeat(AfterCirc),
    List(ListKind),
    Profile,
    ProfilePosts,
    ComposePost,
    ComposeCirc { rid: Seq<char> },
    ComposeCmail { cid: Seq<char> },
    ModalPost,
    Reply { post_id: Seq<char> },
    Watch,
    Bookmark,
}

impl View for Flow {
    type V = FlowView;

    open spec fn view(&self) -> FlowView {
        flow_view(*self)
    }
}

/// The view of a waiting operation.
#[verifier::opaque]
pub open spec fn flow_view(f: Flow) -> FlowView {
        match f {
            Flow::Idle => FlowView::Idle,
            Flow::Login { email } => FlowView::Login { email: email@ },
            Flow::InitialFeed(t) => FlowView::InitialFeed(t),
            Flow::Feed { then, retry } => FlowView::Feed { then: then, retry: retry },
            Flow::Refresh(r) => FlowView::Refresh(r@),
            Flow::Unread => FlowView::Unread,
            Flow::Notifications => FlowView::Notifications,
            Flow::MarkAllRead => FlowView::MarkAllRead,
            Flow::CmailMessages { cid, then } => FlowView::CmailMessages { cid: cid@, then: then },
            Flow::CmailMarkRead(t) => FlowView::CmailMarkRead(t),
            Flow::CircMessages { rid, then, retry } => FlowView::CircMessages {
                rid: rid@,
                then: then,
                retry: retry,
            },
            Flow::CircHeartbeat(t) => FlowView::CircHeartbeat(t),
            Flow::List(k) => FlowView::List(k),
            Flow::Profile => FlowView::Profile,
            Flow::ProfilePosts => FlowView::ProfilePosts,
            Flow::ComposePost => FlowView::ComposePost,
            Flow::ComposeCirc { rid } => FlowView::ComposeCirc { rid: rid@ },
            Flow::ComposeCmail { cid } => FlowView::ComposeCmail { cid: cid@ },
            Flow::ModalPost => FlowView::ModalPost,
            Flow::Reply { post_id } => FlowView::Reply { post_id: post_id@ },
            Flow::Watch => FlowView::Watch,
            Flow::Bookmark => FlowView::Bookmark,
        }
}

/// What the shell is to do.
#[derive(Debug, Clone)]
pub enum Command {
    /// Send the request of an operation and hand its answer to `App::resume`.
    Call(ApiCall),
    /// Write the session to its file.
    SaveSession,
    /// Delete the session file.
    ClearSession,
    /// Stop any load of replies and load the replies of a post in the
    /// background; the result goes to `App::on_replies`.
    LoadReplies { post_id: String },
    /// Load the feed page after a cursor in the background; the result goes
    /// to `App::on_feed_page`.
    LoadFeedPage { cursor: String },
    /// Stop any load of replies.
    AbortReplies,
}

/// A command as values.
pub enum CommandView {
    Call(CallView),
    SaveSession,
    ClearSession,
    LoadReplies { post_id: Seq<char> },
    LoadFeedPage { cursor: Seq<char> },
    AbortReplies,
}

impl View for Command {
    type V = CommandView;

    open spec fn view(&self) -> CommandView {
        match self {
            Command::Call(c) => CommandView::Call(c@),
            Command::SaveSession => CommandView::SaveSession,
            Command::ClearSession => CommandView::ClearSession,
            Command::LoadReplies { post_id } => CommandView::LoadReplies { post_id: post_id@ },
            Command::LoadFeedPage { cursor } => CommandView::LoadFeedPage { cursor: cursor@ },
            Command::AbortReplies => CommandView::AbortReplies,
        }
    }
}

/// The views of a list of commands.
pub open spec fn cmd_views(v: Seq<Command>) -> Seq<CommandView> {
    v.map_values(|c: Command| c@)
}

/// A key, as far as the client tells keys apart.
#[derive(Debug, Clone, Copy, PartialEq, Eq, Structural)]
pub enum KeyCode {
    Char(char),
    Enter,
    Esc,
    Tab,
    Backspace,
    Up,
    Down,
    Other,
}

/// A key event: the key, whether Ctrl was held, whether it is a press (not a
/// release or a repeat), and the edit that a text field makes of it, if any.
#[derive(Clone, Copy)]
pub struct KeyEvent {
    pub code: KeyCode,
    pub ctrl: bool,
    pub press: bool,
    pub edit: Option<Edit>,
}

/// The answer of the service to a request.
#[derive(Debug, Clone)]
pub enum Response {
    /// An answer whose body is not read.
    Done,
    Tokens(LoginData),
    Posts(ApiList<Post>),
    Notifications(ApiList<Notification>),
    Count(u32),
    Conversations(ApiList<CmailConversationRef>),
    CmailMessages(ApiList<CmailMessage>),
    Rooms(ApiList<CircRoom>),
    CircMessages(ApiList<CircMessage>),
    Bookmarks(ApiList<Bookmark>),
    Topics(ApiList<Topic>),
    Notes(ApiList<Note>),
    Guilds(ApiList<Guild>),
    Profile(User),
}

/// Why a background load gave no result.
#[derive(Debug, Clone)]
pub enum TaskError {
    /// The request failed, with this error.
    Failed(String),
    /// The task itself failed, with this error.
    Crashed(String),
}

/// A change of state together with the commands it yields.
pub struct Step {
    pub app: AppView,
    pub cmds: Seq<CommandView>,
}

/// No command.
pub open spec fn stay(s: AppView) -> Step {
    Step { app: s, cmds: Seq::empty() }
}

/// A command before the commands of a step.
pub open spec fn preceded(c: CommandView, st: Step) -> Step {
    Step { app: st.app, cmds: seq![c] + st.cmds }
}

/// Waits in `f` for the answer to `c`.
#[verifier::opaque]
pub open spec fn call(s: AppView, f: FlowView, c: CallView) -> Step {
    Step { app: AppView { flow: f, ..s }, cmds: seq![CommandView::Call(c)] }
}

/// The state with no operation waiting.
pub open spec fn idle(s: AppView) -> AppView {
    AppView { flow: FlowView::Idle, ..s }
}

pub(crate) fn no_cmds() -> (v: Vec<Command>)
    ensures
        cmd_views(v@) == Seq::<CommandView>::empty(),
{
    let v: Vec<Command> = Vec::new();
    assert(cmd_views(v@) =~= Seq::<CommandView>::empty());
    v
}

pub(crate) fn one_cmd(c: Command) -> (v: Vec<Command>)
    ensures
        cmd_views(v@) == seq![c@],
{
    let v = vec![c];
    assert(cmd_views(v@) =~= seq![c@]);
    v
}

pub(crate) fn prepend_cmd(c: Command, rest: Vec<Command>) -> (v: Vec<Command>)
    ensures
        cmd_views(v@) == seq![c@] + cmd_views(rest@),
{
    let mut v = vec![c];
    let mut r = rest;
    let ghost r0 = r@;
    v.append(&mut r);
    assert(cmd_views(v@) =~= seq![c@] + cmd_views(r0));
    v
}

/// Shown when the login form is sent with a field left empty.
pub const MISSING_CREDENTIALS: &'static str = "Inserisci email e password";
/// Put before the error of a failed login.
pub const LOGIN_FAILED: &'static str = "Errore login: ";
/// Shown after a successful login.
pub const LOGIN_OK: &'static str = "Login ok";
/// Put before the error of a failed feed load.
pub const FEED_FAILED: &'static str = "Errore feed: ";
/// Shown after the tokens were renewed.
pub const SESSION_RENEWED: &'static str = "Sessione rinnovata";
/// Shown when the tokens could not be renewed.
pub const SESSION_EXPIRED: &'static str = "Sessione scaduta, effettua di nuovo il login";
/// Put before the error of a failed notifications load.
pub const NOTIFICATIONS_FAILED: &'static str = "Errore notifiche: ";
/// Put before the error of a failed c-Mail list load.
pub const CMAIL_FAILED: &'static str = "Errore cmail: ";
/// Put before the error of a failed messages load or send.
pub const MESSAGES_FAILED: &'static str = "Errore messaggi: ";
/// Put before the error of a failed cIRC rooms load.
pub const CIRC_FAILED: &'static str = "Errore circ: ";
/// Put before the error of a failed bookmarks load.
pub const BOOKMARKS_FAILED: &'static str = "Errore bookmarks: ";
/// Put before the error of a failed topics load.
pub const TOPICS_FAILED: &'static str = "Errore topics: ";
/// Put before the error of a failed load of a topic's posts.
pub const TOPIC_POSTS_FAILED: &'static str = "Errore post topic: ";
/// Put before the error of a failed profile load.
pub const PROFILE_FAILED: &'static str = "Errore profilo: ";
/// Put before the error of a failed load of the user's posts.
pub const ENTRIES_FAILED: &'static str = "Errore entry: ";
/// Put before the error of a failed journal load.
pub const JOURNAL_FAILED: &'static str = "Errore journal: ";
/// Put before the error of a failed guilds load.
pub const GUILDS_FAILED: &'static str = "Errore guilds: ";
/// Put before the error of a failed load of a guild's posts.
pub const GUILD_POSTS_FAILED: &'static str = "Errore post guild: ";
/// Shown after a post was published.
pub const POST_PUBLISHED: &'static str = "Post pubblicato";
/// Put before the error of a failed publication.
pub const PUBLISH_FAILED: &'static str = "Errore pubblicazione: ";
/// Put before the error of a message that could not be sent.
pub const SEND_FAILED: &'static str = "Errore nel messaggio: ";
/// Shown when a post is to be published without content.
pub const EMPTY_CONTENT: &'static str = "Il contenuto non può essere vuoto";
/// Shown after a reply was sent.
pub const REPLY_SENT: &'static str = "Reply inviata";
/// Put before the error of a reply that could not be sent.
pub const REPLY_FAILED: &'static str = "Errore reply: ";
/// Shown when the reply modal opens.
pub const REPLY_HINT: &'static str = "Scrivi reply (Ctrl+s: invia, Esc: annulla)";
/// Shown when the new-post modal opens.
pub const NEW_POST: &'static str = "Nuovo post";
/// Shown when the cIRC compose field opens.
pub const CIRC_HINT: &'static str = "Scrivi messaggio cIRC (Enter: invia, Esc: annulla)";
/// Shown after a post was watched.
pub const WATCH_ADDED: &'static str = "Watch aggiunto";
/// Shown after a post was bookmarked.
pub const BOOKMARK_ADDED: &'static str = "Bookmark aggiunto";
/// Put before the error of a failed watch or bookmark.
pub const ACTION_FAILED: &'static str = "Errore: ";
/// Put before the error of a failed load of replies.
pub const REPLIES_FAILED: &'static str = "Errore risposte: ";
/// Put before the error of a failed task loading replies.
pub const REPLIES_TASK_FAILED: &'static str = "Errore task replies: ";
/// Put before the error of a failed load of a further feed page.
pub const PAGE_FAILED: &'static str = "Errore caricamento altri post: ";
/// Put before the error of a failed task loading a feed page.
pub const PAGE_TASK_FAILED: &'static str = "Errore task feed: ";
/// The marks of an error that asks for a new login.
pub const UNAUTHORIZED_CODE: &'static str = "UNAUTHORIZED";
/// The status of an error that asks for a new login.
pub const UNAUTHORIZED_STATUS: &'static str = "401";

/// An error text that tells the id token was refused.
pub open spec fn unauthorized(e: Seq<char>) -> bool {
    contains(e, UNAUTHORIZED_CODE@) || contains(e, UNAUTHORIZED_STATUS@)
}

/// Whether an error tells that the id token was refused: it holds
/// "UNAUTHORIZED" or "401".
pub fn is_unauthorized(e: &str) -> (res: bool)
    ensures
        res == unauthorized(e@),
{
    contains_text(e, UNAUTHORIZED_CODE) || contains_text(e, UNAUTHORIZED_STATUS)
}

/// The compose field closed and emptied.
pub open spec fn compose_finished(s: AppView) -> AppView {
    AppView { input_mode: InputMode::Normal, compose_input: Seq::empty(), compose_cursor: 0, ..s }
}

/// The feed back at its first page: selection at the top, no cursor.
pub open spec fn feed_reset(s: AppView) -> AppView {
    AppView { selected_index: 0, feed_loading: false, feed_cursor: None, ..s }
}

/// The new-post modal closed and emptied.
pub open spec fn create_modal_closed(s: AppView) -> AppView {
    AppView {
        show_create_post_modal: false,
        create_post_title: Seq::empty(),
        create_post_content: Seq::empty(),
        create_post_focus: CreatePostFocus::Content,
        ..s
    }
}

/// Reloads the feed, then does `then`.
pub open spec fn start_feed(s: AppView, then: AfterFeed) -> Step {
    call(
        feed_reset(s),
        FlowView::Feed { then, retry: false },
        CallView::GetPosts { cursor: None },
    )
}

/// Loads the feed for the first time, then does `then`.
pub open spec fn start_initial(s: AppView, then: AfterInitial) -> Step {
    call(feed_reset(s), FlowView::InitialFeed(then), CallView::GetPosts { cursor: None })
}

/// Loads the messages of a cIRC room, then does `then`.
pub open spec fn start_circ(s: AppView, rid: Seq<char>, then: AfterCirc) -> Step {
    call(s, FlowView::CircMessages { rid, then, retry: false }, CallView::CircMessages { rid })
}

/// Sends the presence heartbeat of a cIRC room, then does `then`.
pub open spec fn heartbeat(s: AppView, rid: Seq<char>, then: AfterCirc) -> Step {
    call(s, FlowView::CircHeartbeat(then), CallView::CircPresenceHeartbeat { rid })
}

/// Loads the messages of a c-Mail conversation, then does `then`.
pub open spec fn start_cmail(s: AppView, cid: Seq<char>, then: AfterCmail) -> Step {
    call(s, FlowView::CmailMessages { cid, then }, CallView::CmailMessages { cid })
}

/// Loads the number of unread notifications.
pub open spec fn start_unread(s: AppView) -> Step {
    call(s, FlowView::Unread, CallView::UnreadCount)
}

/// Starts loading the replies of a post in the background.
pub open spec fn replies_load(s: AppView, post_id: Seq<char>) -> Step {
    Step {
        app: AppView {
            replies_loading: true,
            current_replies: Seq::empty(),
            reply_load_pending: true,
            ..s
        },
        cmds: seq![CommandView::LoadReplies { post_id }],
    }
}

/// What follows a reload of the feed.
#[verifier::opaque]
pub open spec fn finish_feed(s: AppView, then: AfterFeed) -> Step {
    match then {
        AfterFeed::Nothing => stay(s),
        AfterFeed::FinishCompose => stay(compose_finished(s)),
        AfterFeed::RefreshUnread => start_unread(s),
    }
}

/// What follows the first load of the feed.
#[verifier::opaque]
pub open spec fn finish_initial(s: AppView, then: AfterInitial) -> Step {
    match then {
        AfterInitial::Nothing => stay(s),
        AfterInitial::LoginDone => stay(with_status(s, LOGIN_OK@)),
    }
}

/// What follows a load of the messages of a cIRC room.
#[verifier::opaque]
pub open spec fn finish_circ(s: AppView, then: AfterCirc) -> Step {
    match then {
        AfterCirc::Nothing => stay(s),
        AfterCirc::FinishCompose => stay(compose_finished(s)),
        AfterCirc::ShowRoom => stay(AppView { screen: Screen::CircRoom, ..s }),
    }
}

/// What follows a load of the messages of a c-Mail conversation.
#[verifier::opaque]
pub open spec fn finish_cmail(s: AppView, then: AfterCmail) -> Step {
    match then {
        AfterCmail::FinishCompose => stay(compose_finished(s)),
        AfterCmail::ShowConversation => stay(AppView { screen: Screen::CmailConversation, ..s }),
    }
}

/// The tokens of a login or refresh.
pub open spec fn tokens_of(d: LoginData) -> crate::api::ClientView {
    crate::api::ClientView { id_token: Some(d.id_token@), refresh_token: Some(d.refresh_token@) }
}

/// A failed refresh: the session is dropped and the login screen shown; then
/// the operation that asked for the refresh goes on without it.
#[verifier::opaque]
pub open spec fn refresh_failed(s: AppView, waiting: RefreshForView) -> Step {
    let s1 = with_status(
        AppView { session: empty_session(), screen: Screen::Login, ..s },
        SESSION_EXPIRED@,
    );
    preceded(
        CommandView::ClearSession,
        match waiting {
            RefreshForView::Feed(t) => finish_feed(s1, t),
            RefreshForView::Circ { rid, then } => heartbeat(s1, rid, then),
            RefreshForView::Unread => stay(s1),
        },
    )
}

/// A successful refresh: the new tokens are kept and saved; then the
/// operation that asked for the refresh tries again.
#[verifier::opaque]
pub open spec fn refresh_succeeded(s: AppView, waiting: RefreshForView, d: LoginData) -> Step {
    let s1 = with_status(tokens_persisted(AppView { api: tokens_of(d), ..s }), SESSION_RENEWED@);
    preceded(
        CommandView::SaveSession,
        match waiting {
            RefreshForView::Feed(t) => call(
                s1,
                FlowView::Feed { then: t, retry: true },
                CallView::GetPosts { cursor: None },
            ),
            RefreshForView::Circ { rid, then } => call(
                s1,
                FlowView::CircMessages { rid, then, retry: true },
                CallView::CircMessages { rid },
            ),
            RefreshForView::Unread => stay(s1),
        },
    )
}

/// Renews the tokens for the operation `waiting`; without a refresh token
/// this fails at once.
#[verifier::opaque]
pub open spec fn start_refresh(s: AppView, waiting: RefreshForView) -> Step {
    if s.api.refresh_token is None {
        refresh_failed(s, waiting)
    } else {
        call(s, FlowView::Refresh(waiting), CallView::Refresh)
    }
}

/// A prefixed error text.
pub open spec fn prefixed(prefix: &str, e: String) -> Seq<char> {
    prefix@ + e@
}

/// The answer to a login.
#[verifier::opaque]
pub open spec fn on_login(s: AppView, email: Seq<char>, o: Result<Response, String>) -> Step {
    match o {
        Ok(Response::Tokens(d)) => preceded(
            CommandView::SaveSession,
            start_initial(
                AppView {
                    api: tokens_of(d),
                    session: crate::session::SessionView {
                        id_token: Some(d.id_token@),
                        refresh_token: Some(d.refresh_token@),
                        username: Some(email),
                    },
                    screen: Screen::Feed,
                    ..s
                },
                AfterInitial::LoginDone,
            ),
        ),
        Ok(_) => stay(s),
        Err(e) => stay(AppView { login_error: Some(prefixed(LOGIN_FAILED, e)), ..s }),
    }
}

/// The answer to the first load of the feed.
#[verifier::opaque]
pub open spec fn on_initial(s: AppView, then: AfterInitial, o: Result<Response, String>) -> Step {
    match o {
        Ok(Response::Posts(l)) => finish_initial(
            AppView { feed: l.data@, feed_cursor: opt_text(l.cursor), ..s },
            then,
        ),
        Ok(_) => finish_initial(s, then),
        Err(e) => finish_initial(with_error(s, prefixed(FEED_FAILED, e)), then),
    }
}

/// The answer to a reload of the feed; a refused token is renewed once.
#[verifier::opaque]
pub open spec fn on_feed(s: AppView, then: AfterFeed, retry: bool, o: Result<Response, String>) -> Step {
    match o {
        Ok(Response::Posts(l)) => finish_feed(
            AppView { feed: l.data@, feed_cursor: opt_text(l.cursor), ..s },
            then,
        ),
        Ok(_) => finish_feed(s, then),
        Err(e) => if !retry && unauthorized(e@) {
            start_refresh(s, RefreshForView::Feed(then))
        } else {
            finish_feed(with_error(s, prefixed(FEED_FAILED, e)), then)
        },
    }
}

/// The answer to a refresh.
#[verifier::opaque]
pub open spec fn on_refresh(s: AppView, waiting: RefreshForView, o: Result<Response, String>) -> Step {
    match o {
        Ok(Response::Tokens(d)) => refresh_succeeded(s, waiting, d),
        _ => refresh_failed(s, waiting),
    }
}

/// The answer to the unread count.
#[verifier::opaque]
pub open spec fn on_unread(s: AppView, o: Result<Response, String>) -> Step {
    match o {
        Ok(Response::Count(c)) => stay(AppView { unread_count: c, ..s }),
        Ok(_) => stay(s),
        Err(e) => if unauthorized(e@) {
            start_refresh(s, RefreshForView::Unread)
        } else {
            stay(s)
        },
    }
}

/// The answer to the notifications: then all are marked read.
#[verifier::opaque]
pub open spec fn on_notifications(s: AppView, o: Result<Response, String>) -> Step {
    let s1 = match o {
        Ok(Response::Notifications(l)) => AppView { notifications: l.data@, ..s },
        Ok(_) => s,
        Err(e) => with_error(s, prefixed(NOTIFICATIONS_FAILED, e)),
    };
    call(s1, FlowView::MarkAllRead, CallView::MarkAllRead)
}

/// The answer to the messages of a c-Mail conversation: then it is marked
/// read.
#[verifier::opaque]
pub open spec fn on_cmail(s: AppView, cid: Seq<char>, then: AfterCmail, o: Result<Response, String>) -> Step {
    let s1 = match o {
        Ok(Response::CmailMessages(l)) => AppView { cmail_messages: l.data@, ..s },
        Ok(_) => s,
        Err(e) => with_error(s, prefixed(MESSAGES_FAILED, e)),
    };
    call(s1, FlowView::CmailMarkRead(then), CallView::CmailMarkRead { cid })
}

/// The answer to the messages of a cIRC room; a refused token is renewed
/// once; then the presence heartbeat is sent.
#[verifier::opaque]
pub open spec fn on_circ(
    s: AppView,
    rid: Seq<char>,
    then: AfterCirc,
    retry: bool,
    o: Result<Response, String>,
) -> Step {
    match o {
        Ok(Response::CircMessages(l)) => heartbeat(AppView { circ_messages: l.data@, ..s }, rid, then),
        Ok(_) => heartbeat(s, rid, then),
        Err(e) => if retry {
            heartbeat(s, rid, then)
        } else if unauthorized(e@) {
            start_refresh(s, RefreshForView::Circ { rid, then })
        } else {
            heartbeat(with_error(s, prefixed(MESSAGES_FAILED, e)), rid, then)
        },
    }
}

/// The answer to the c-Mail conversations.
#[verifier::opaque]
pub open spec fn on_cmail_list(s: AppView, o: Result<Response, String>) -> AppView {
    match o {
        Ok(Response::Conversations(l)) => AppView { cmail_conversations: l.data@, ..s },
        Ok(_) => s,
        Err(e) => with_error(s, prefixed(CMAIL_FAILED, e)),
    }
}

/// The answer to the cIRC rooms.
#[verifier::opaque]
pub open spec fn on_circ_list(s: AppView, o: Result<Response, String>) -> AppView {
    match o {
        Ok(Response::Rooms(l)) => AppView { circ_rooms: l.data@, ..s },
        Ok(_) => s,
        Err(e) => with_error(s, prefixed(CIRC_FAILED, e)),
    }
}

/// The answer to the bookmarks.
#[verifier::opaque]
pub open spec fn on_bookmarks(s: AppView, o: Result<Response, String>) -> AppView {
    match o {
        Ok(Response::Bookmarks(l)) => AppView { bookmarks: l.data@, ..s },
        Ok(_) => s,
        Err(e) => with_error(s, prefixed(BOOKMARKS_FAILED, e)),
    }
}

/// The answer to the topics.
#[verifier::opaque]
pub open spec fn on_topics(s: AppView, o: Result<Response, String>) -> AppView {
    match o {
        Ok(Response::Topics(l)) => AppView { topics: l.data@, ..s },
        Ok(_) => s,
        Err(e) => with_error(s, prefixed(TOPICS_FAILED, e)),
    }
}

/// The answer to the posts of a topic, which are then shown.
#[verifier::opaque]
pub open spec fn on_topic_posts(s: AppView, o: Result<Response, String>) -> AppView {
    let s1 = match o {
        Ok(Response::Posts(l)) => AppView { current_topic_posts: l.data@, ..s },
        Ok(_) => s,
        Err(e) => with_error(s, prefixed(TOPIC_POSTS_FAILED, e)),
    };
    AppView { screen: Screen::TopicPosts, ..s1 }
}

/// The answer to the journal notes.
#[verifier::opaque]
pub open spec fn on_journal(s: AppView, o: Result<Response, String>) -> AppView {
    match o {
        Ok(Response::Notes(l)) => AppView { journal_notes: crate::app::note_views(l.data@), ..s },
        Ok(_) => s,
        Err(e) => with_error(s, prefixed(JOURNAL_FAILED, e)),
    }
}

/// The answer to the guilds.
#[verifier::opaque]
pub open spec fn on_guilds(s: AppView, o: Result<Response, String>) -> AppView {
    match o {
        Ok(Response::Guilds(l)) => AppView { guilds: l.data@, ..s },
        Ok(_) => s,
        Err(e) => with_error(s, prefixed(GUILDS_FAILED, e)),
    }
}

/// The answer to the posts of a guild, which is then shown.
#[verifier::opaque]
pub open spec fn on_guild_posts(s: AppView, o: Result<Response, String>) -> AppView {
    let s1 = match o {
        Ok(Response::Posts(l)) => AppView { current_guild_posts: l.data@, ..s },
        Ok(_) => s,
        Err(e) => with_error(s, prefixed(GUILD_POSTS_FAILED, e)),
    };
    AppView { screen: Screen::GuildDetail, ..s1 }
}

/// The answer to a list load.
#[verifier::opaque]
pub open spec fn on_list(s: AppView, kind: ListKind, o: Result<Response, String>) -> Step {
    stay(
        match kind {
            ListKind::CmailList => on_cmail_list(s, o),
            ListKind::CircList => on_circ_list(s, o),
            ListKind::Bookmarks => on_bookmarks(s, o),
            ListKind::Topics => on_topics(s, o),
            ListKind::TopicPosts => on_topic_posts(s, o),
            ListKind::Journal => on_journal(s, o),
            ListKind::Guilds => on_guilds(s, o),
            ListKind::GuildPosts => on_guild_posts(s, o),
        },
    )
}

/// The answer to the profile: then the user's posts are loaded.
#[verifier::opaque]
pub open spec fn on_profile(s: AppView, o: Result<Response, String>) -> Step {
    match o {
        Ok(Response::Profile(u)) => call(
            AppView { current_profile: Some(u), ..s },
            FlowView::ProfilePosts,
            CallView::GetUserPosts { username: u.username@ },
        ),
        Ok(_) => stay(s),
        Err(e) => stay(with_error(s, prefixed(PROFILE_FAILED, e))),
    }
}

/// The answer to the user's posts.
#[verifier::opaque]
pub open spec fn on_profile_posts(s: AppView, o: Result<Response, String>) -> Step {
    match o {
        Ok(Response::Posts(l)) => stay(AppView { current_profile_posts: l.data@, ..s }),
        Ok(_) => stay(s),
        Err(e) => stay(with_error(s, prefixed(ENTRIES_FAILED, e))),
    }
}

/// The answer to a post published from the compose field.
#[verifier::opaque]
pub open spec fn on_compose_post(s: AppView, o: Result<Response, String>) -> Step {
    match o {
        Ok(_) => start_feed(with_status(s, POST_PUBLISHED@), AfterFeed::FinishCompose),
        Err(e) => stay(compose_finished(with_error(s, prefixed(PUBLISH_FAILED, e)))),
    }
}

/// The answer to a cIRC message sent from the compose field.
#[verifier::opaque]
pub open spec fn on_compose_circ(s: AppView, rid: Seq<char>, o: Result<Response, String>) -> Step {
    match o {
        Ok(_) => start_circ(s, rid, AfterCirc::FinishCompose),
        Err(e) => stay(compose_finished(with_error(s, prefixed(SEND_FAILED, e)))),
    }
}

/// The answer to a c-Mail message sent from the compose field; its error is
/// shown as a status message.
#[verifier::opaque]
pub open spec fn on_compose_cmail(s: AppView, cid: Seq<char>, o: Result<Response, String>) -> Step {
    match o {
        Ok(_) => start_cmail(s, cid, AfterCmail::FinishCompose),
        Err(e) => stay(compose_finished(with_status(s, prefixed(SEND_FAILED, e)))),
    }
}

/// The answer to a post published from the new-post modal.
#[verifier::opaque]
pub open spec fn on_modal_post(s: AppView, o: Result<Response, String>) -> Step {
    match o {
        Ok(_) => start_feed(with_status(create_modal_closed(s), POST_PUBLISHED@), AfterFeed::Nothing),
        Err(e) => stay(with_error(s, prefixed(PUBLISH_FAILED, e))),
    }
}

/// The answer to a reply: then the replies of the post are reloaded.
#[verifier::opaque]
pub open spec fn on_reply(s: AppView, post_id: Seq<char>, o: Result<Response, String>) -> Step {
    match o {
        Ok(_) => replies_load(
            with_status(
                AppView { show_reply_modal: false, reply_content: Seq::empty(), ..s },
                REPLY_SENT@,
            ),
            post_id,
        ),
        Err(e) => stay(with_error(s, prefixed(REPLY_FAILED, e))),
    }
}

/// The answer to a watch or a bookmark.
#[verifier::opaque]
pub open spec fn on_action(s: AppView, done: &str, o: Result<Response, String>) -> Step {
    match o {
        Ok(_) => stay(with_status(s, done@)),
        Err(e) => stay(with_error(s, prefixed(ACTION_FAILED, e))),
    }
}

/// The answer to the request in flight, handed to the operation that waits
/// for it; with no operation waiting nothing changes.
#[verifier::opaque]
pub open spec fn resume_step(s: AppView, o: Result<Response, String>) -> Step {
    let s0 = idle(s);
    match s.flow {
        FlowView::Idle => stay(s0),
        FlowView::Login { email } => on_login(s0, email, o),
        FlowView::InitialFeed(then) => on_initial(s0, then, o),
        FlowView::Feed { then, retry } => on_feed(s0, then, retry, o),
        FlowView::Refresh(r) => on_refresh(s0, r, o),
        FlowView::Unread => on_unread(s0, o),
        FlowView::Notifications => on_notifications(s0, o),
        FlowView::MarkAllRead => start_unread(s0),
        FlowView::CmailMessages { cid, then } => on_cmail(s0, cid, then, o),
        FlowView::CmailMarkRead(then) => finish_cmail(s0, then),
        FlowView::CircMessages { rid, then, retry } => on_circ(s0, rid, then, retry, o),
        FlowView::CircHeartbeat(then) => finish_circ(s0, then),
        FlowView::List(kind) => on_list(s0, kind, o),
        FlowView::Profile => on_profile(s0, o),
        FlowView::ProfilePosts => on_profile_posts(s0, o),
        FlowView::ComposePost => on_compose_post(s0, o),
        FlowView::ComposeCirc { rid } => on_compose_circ(s0, rid, o),
        FlowView::ComposeCmail { cid } => on_compose_cmail(s0, cid, o),
        FlowView::ModalPost => on_modal_post(s0, o),
        FlowView::Reply { post_id } => on_reply(s0, post_id, o),
        FlowView::Watch => on_action(s0, WATCH_ADDED, o),
        FlowView::Bookmark => on_action(s0, BOOKMARK_ADDED, o),
    }
}

proof fn lemma_resume_idle(s: AppView, o: Result<Response, String>)
    requires
        s.flow == flow_view(Flow::Idle),
    ensures
        resume_step(s, o) == stay(idle(s)),
{
    reveal(resume_step);
    reveal(flow_view);
}

proof fn lemma_resume_login(s: AppView, email: String, o: Result<Response, String>)
    requires
        s.flow == flow_view(Flow::Login { email }),
    ensures
        resume_step(s, o) == on_login(idle(s), email@, o),
{
    reveal(resume_step);
    reveal(flow_view);
}

proof fn lemma_resume_initial_feed(s: AppView, then: AfterInitial, o: Result<Response, String>)
    requires
        s.flow == flow_view(Flow::InitialFeed(then)),
    ensures
        resume_step(s, o) == on_initial(idle(s), then, o),
{
    reveal(resume_step);
    reveal(flow_view);
}

proof fn lemma_resume_feed(s: AppView, then: AfterFeed, retry: bool, o: Result<Response, String>)
    requires
        s.flow == flow_view(Flow::Feed { then, retry }),
    ensures
        resume_step(s, o) == on_feed(idle(s), then, retry, o),
{
    reveal(resume_step);
    reveal(flow_view);
}

proof fn lemma_resume_refresh(s: AppView, r: RefreshFor, o: Result<Response, String>)
    requires
        s.flow == flow_view(Flow::Refresh(r)),
    ensures
        resume_step(s, o) == on_refresh(idle(s), r@, o),
{
    reveal(resume_step);
    reveal(flow_view);
}

proof fn lemma_resume_unread(s: AppView, o: Result<Response, String>)
    requires
        s.flow == flow_view(Flow::Unread),
    ensures
        resume_step(s, o) == on_unread(idle(s), o),
{
    reveal(resume_step);
    reveal(flow_view);
}

proof fn lemma_resume_notifications(s: AppView, o: Result<Response, String>)
    requires
        s.flow == flow_view(Flow::Notifications),
    ensures
        resume_step(s, o) == on_notifications(idle(s), o),
{
    reveal(resume_step);
    reveal(flow_view);
}

proof fn lemma_resume_mark_all_read(s: AppView, o: Result<Response, String>)
    requires
        s.flow == flow_view(Flow::MarkAllRead),
    ensures
        resume_step(s, o) == start_unread(idle(s)),
{
    reveal(resume_step);
    reveal(flow_view);
}

proof fn lemma_resume_cmail_messages(s: AppView, cid: String, then: AfterCmail, o: Result<Response, String>)
    requires
        s.flow == flow_view(Flow::CmailMessages { cid, then }),
    ensures
        resume_step(s, o) == on_cmail(idle(s), cid@, then, o),
{
    reveal(resume_step);
    reveal(flow_view);
}

proof fn lemma_resume_cmail_mark_read(s: AppView, then: AfterCmail, o: Result<Response, String>)
    requires
        s.flow == flow_view(Flow::CmailMarkRead(then)),
    ensures
        resume_step(s, o) == finish_cmail(idle(s), then),
{
    reveal(resume_step);
    reveal(flow_view);
}

proof fn lemma_resume_circ_messages(s: AppView, rid: String, then: AfterCirc, retry: bool, o: Result<Response, String>)
    requires
        s.flow == flow_view(Flow::CircMessages { rid, then, retry }),
    ensures
        resume_step(s, o) == on_circ(idle(s), rid@, then, retry, o),
{
    reveal(resume_step);
    reveal(flow_view);
}

proof fn lemma_resume_circ_heartbeat(s: AppView, then: AfterCirc, o: Result<Response, String>)
    requires
        s.flow == flow_view(Flow::CircHeartbeat(then)),
    ensures
        resume_step(s, o) == finish_circ(idle(s), then),
{
    reveal(resume_step);
    reveal(flow_view);
}

proof fn lemma_resume_list(s: AppView, kind: ListKind, o: Result<Response, String>)
    requires
        s.flow == flow_view(Flow::List(kind)),
    ensures
        resume_step(s, o) == on_list(idle(s), kind, o),
{
    reveal(resume_step);
    reveal(flow_view);
}

proof fn lemma_resume_profile(s: AppView, o: Result<Response, String>)
    requires
        s.flow == flow_view(Flow::Profile),
    ensures
        resume_step(s, o) == on_profile(idle(s), o),
{
    reveal(resume_step);
    reveal(flow_view);
}

proof fn lemma_resume_profile_posts(s: AppView, o: Result<Response, String>)
    requires
        s.flow == flow_view(Flow::ProfilePosts),
    ensures
        resume_step(s, o) == on_profile_posts(idle(s), o),
{
    reveal(resume_step);
    reveal(flow_view);
}

proof fn lemma_resume_compose_post(s: AppView, o: Result<Response, String>)
    requires
        s.flow == flow_view(Flow::ComposePost),
    ensures
        resume_step(s, o) == on_compose_post(idle(s), o),
{
    reveal(resume_step);
    reveal(flow_view);
}

proof fn lemma_resume_compose_circ(s: AppView, rid: String, o: Result<Response, String>)
    requires
        s.flow == flow_view(Flow::ComposeCirc { rid }),
    ensures
        resume_step(s, o) == on_compose_circ(idle(s), rid@, o),
{
    reveal(resume_step);
    reveal(flow_view);
}

proof fn lemma_resume_compose_cmail(s: AppView, cid: String, o: Result<Response, String>)
    requires
        s.flow == flow_view(Flow::ComposeCmail { cid }),
    ensures
        resume_step(s, o) == on_compose_cmail(idle(s), cid@, o),
{
    reveal(resume_step);
    reveal(flow_view);
}

proof fn lemma_resume_modal_post(s: AppView, o: Result<Response, String>)
    requires
        s.flow == flow_view(Flow::ModalPost),
    ensures
        resume_step(s, o) == on_modal_post(idle(s), o),
{
    reveal(resume_step);
    reveal(flow_view);
}

proof fn lemma_resume_reply(s: AppView, post_id: String, o: Result<Response, String>)
    requires
        s.flow == flow_view(Flow::Reply { post_id }),
    ensures
        resume_step(s, o) == on_reply(idle(s), post_id@, o),
{
    reveal(resume_step);
    reveal(flow_view);
}

proof fn lemma_resume_watch(s: AppView, o: Result<Response, String>)
    requires
        s.flow == flow_view(Flow::Watch),
    ensures
        resume_step(s, o) == on_action(idle(s), WATCH_ADDED, o),
{
    reveal(resume_step);
    reveal(flow_view);
}

proof fn lemma_resume_bookmark(s: AppView, o: Result<Response, String>)
    requires
        s.flow == flow_view(Flow::Bookmark),
    ensures
        resume_step(s, o) == on_action(idle(s), BOOKMARK_ADDED, o),
{
    reveal(resume_step);
    reveal(flow_view);
}

proof fn lemma_flow_idle()
    ensures
        flow_view(Flow::Idle) == FlowView::Idle,
{
    reveal(flow_view);
}

impl App {
    /// Waits in `f` for the answer to `c`.
    pub(crate) fn begin(&mut self, f: Flow, c: ApiCall) -> (cmds: Vec<Command>)
        ensures
            final(self)@ == call(old(self)@, f@, c@).app,
            cmd_views(cmds@) == call(old(self)@, f@, c@).cmds,
    {
        proof {
            reveal(call);
        }
        self.flow = f;
        one_cmd(Command::Call(c))
    }

    /// Closes and empties the compose field.
    pub(crate) fn finish_compose(&mut self)
        ensures
            final(self)@ == compose_finished(old(self)@),
    {
        self.input_mode = InputMode::Normal;
        self.compose_input = empty_input();
    }

    /// Reloads the feed, then does `then`.
    pub(crate) fn start_feed(&mut self, then: AfterFeed) -> (cmds: Vec<Command>)
        ensures
            final(self)@ == start_feed(old(self)@, then).app,
            cmd_views(cmds@) == start_feed(old(self)@, then).cmds,
    {
        proof {
            reveal(flow_view);
        }
        self.selected_index = 0;
        self.feed_loading = false;
        self.feed_cursor = None;
        self.begin(Flow::Feed { then, retry: false }, ApiCall::GetPosts { cursor: None })
    }

    /// Loads the feed for the first time, then does `then`.
    fn start_initial_feed(&mut self, then: AfterInitial) -> (cmds: Vec<Command>)
        ensures
            final(self)@ == start_initial(old(self)@, then).app,
            cmd_views(cmds@) == start_initial(old(self)@, then).cmds,
    {
        proof {
            reveal(flow_view);
        }
        self.selected_index = 0;
        self.feed_loading = false;
        self.feed_cursor = None;
        self.begin(Flow::InitialFeed(then), ApiCall::GetPosts { cursor: None })
    }

    /// The first load of the feed at start-up.
    pub fn load_initial_data(&mut self) -> (cmds: Vec<Command>)
        ensures
            final(self)@ == start_initial(old(self)@, AfterInitial::Nothing).app,
            cmd_views(cmds@) == start_initial(old(self)@, AfterInitial::Nothing).cmds,
    {
        self.start_initial_feed(AfterInitial::Nothing)
    }

    /// Loads the messages of a cIRC room, then does `then`.
    pub(crate) fn start_circ(&mut self, rid: String, then: AfterCirc) -> (cmds: Vec<Command>)
        ensures
            final(self)@ == start_circ(old(self)@, rid@, then).app,
            cmd_views(cmds@) == start_circ(old(self)@, rid@, then).cmds,
    {
        proof {
            reveal(flow_view);
        }
        let r = rid.clone();
        self.begin(Flow::CircMessages { rid, then, retry: false }, ApiCall::CircMessages { rid: r })
    }

    /// Sends the presence heartbeat of a cIRC room, then does `then`.
    pub(crate) fn heartbeat(&mut self, rid: String, then: AfterCirc) -> (cmds: Vec<Command>)
        ensures
            final(self)@ == heartbeat(old(self)@, rid@, then).app,
            cmd_views(cmds@) == heartbeat(old(self)@, rid@, then).cmds,
    {
        proof {
            reveal(flow_view);
        }
        self.begin(Flow::CircHeartbeat(then), ApiCall::CircPresenceHeartbeat { rid })
    }


    /// Loads the messages of a c-Mail conversation, then does `then`.
    pub(crate) fn start_cmail(&mut self, cid: String, then: AfterCmail) -> (cmds: Vec<Command>)
        ensures
            final(self)@ == start_cmail(old(self)@, cid@, then).app,
            cmd_views(cmds@) == start_cmail(old(self)@, cid@, then).cmds,
    {
        proof {
            reveal(flow_view);
        }
        let c = cid.clone();
        self.begin(Flow::CmailMessages { cid, then }, ApiCall::CmailMessages { cid: c })
    }

    /// Loads the number of unread notifications.
    pub(crate) fn start_unread(&mut self) -> (cmds: Vec<Command>)
        ensures
            final(self)@ == start_unread(old(self)@).app,
            cmd_views(cmds@) == start_unread(old(self)@).cmds,
    {
        proof {
            reveal(flow_view);
        }
        self.begin(Flow::Unread, ApiCall::UnreadCount)
    }

    /// Starts loading the replies of a post in the background, dropping the
    /// replies shown.
    pub fn start_replies_load(&mut self, post_id: String) -> (cmds: Vec<Command>)
        ensures
            final(self)@ == replies_load(old(self)@, post_id@).app,
            cmd_views(cmds@) == replies_load(old(self)@, post_id@).cmds,
    {
        self.replies_loading = true;
        self.current_replies = Vec::new();
        self.reply_load_pending = true;
        one_cmd(Command::LoadReplies { post_id })
    }

    /// What follows a reload of the feed.
    fn finish_feed(&mut self, then: AfterFeed) -> (cmds: Vec<Command>)
        ensures
            final(self)@ == finish_feed(old(self)@, then).app,
            cmd_views(cmds@) == finish_feed(old(self)@, then).cmds,
    {
        proof {
            reveal(finish_feed);
        }
        match then {
            AfterFeed::Nothing => no_cmds(),
            AfterFeed::FinishCompose => {
                self.finish_compose();
                no_cmds()
            },
            AfterFeed::RefreshUnread => self.start_unread(),
        }
    }


    /// What follows the first load of the feed.
    fn finish_initial(&mut self, then: AfterInitial) -> (cmds: Vec<Command>)
        ensures
            final(self)@ == finish_initial(old(self)@, then).app,
            cmd_views(cmds@) == finish_initial(old(self)@, then).cmds,
    {
        proof {
            reveal(finish_initial);
        }
        match then {
            AfterInitial::Nothing => no_cmds(),
            AfterInitial::LoginDone => {
                self.set_status(String::from_str(LOGIN_OK));
                no_cmds()
            },
        }
    }

    /// What follows a load of the messages of a cIRC room.
    fn finish_circ(&mut self, then: AfterCirc) -> (cmds: Vec<Command>)
        ensures
            final(self)@ == finish_circ(old(self)@, then).app,
            cmd_views(cmds@) == finish_circ(old(self)@, then).cmds,
    {
        proof {
            reveal(finish_circ);
        }
        match then {
            AfterCirc::Nothing => {},
            AfterCirc::FinishCompose => self.finish_compose(),
            AfterCirc::ShowRoom => {
                self.screen = Screen::CircRoom;
            },
        }
        no_cmds()
    }

    /// What follows a load of the messages of a c-Mail conversation.
    fn finish_cmail(&mut self, then: AfterCmail) -> (cmds: Vec<Command>)
        ensures
            final(self)@ == finish_cmail(old(self)@, then).app,
            cmd_views(cmds@) == finish_cmail(old(self)@, then).cmds,
    {
        proof {
            reveal(finish_cmail);
        }
        match then {
            AfterCmail::FinishCompose => self.finish_compose(),
            AfterCmail::ShowConversation => {
                self.screen = Screen::CmailConversation;
            },
        }
        no_cmds()
    }

    /// Copies the client's tokens into the session.
    fn copy_tokens_to_session(&mut self)
        ensures
            final(self)@ == tokens_persisted(old(self)@),
    {
        let (id, rt) = self.api.snapshot_tokens();
        self.session.id_token = id;
        self.session.refresh_token = rt;
    }

    /// Copies the client's tokens into the session and has it saved.
    pub fn persist_tokens(&mut self) -> (cmds: Vec<Command>)
        ensures
            final(self)@ == tokens_persisted(old(self)@),
            cmd_views(cmds@) == seq![CommandView::SaveSession],
    {
        self.copy_tokens_to_session();
        one_cmd(Command::SaveSession)
    }

    /// Drops the session after a failed refresh.
    fn drop_session(&mut self)
        ensures
            final(self)@ == with_status(
                AppView { session: empty_session(), screen: Screen::Login, ..old(self)@ },
                SESSION_EXPIRED@,
            ),
    {
        self.session = Session::default();
        self.screen = Screen::Login;
        self.set_status(String::from_str(SESSION_EXPIRED));
    }

    fn refresh_failed_feed(&mut self, t: AfterFeed) -> (cmds: Vec<Command>)
        ensures
            final(self)@ == refresh_failed(old(self)@, RefreshForView::Feed(t)).app,
            cmd_views(cmds@) == refresh_failed(old(self)@, RefreshForView::Feed(t)).cmds,
    {
        proof {
            reveal(refresh_failed);
        }
        self.drop_session();
        let rest = self.finish_feed(t);
        prepend_cmd(Command::ClearSession, rest)
    }

    fn refresh_failed_circ(&mut self, rid: String, then: AfterCirc) -> (cmds: Vec<Command>)
        ensures
            final(self)@ == refresh_failed(old(self)@, RefreshForView::Circ { rid: rid@, then }).app,
            cmd_views(cmds@) == refresh_failed(
                old(self)@,
                RefreshForView::Circ { rid: rid@, then },
            ).cmds,
    {
        proof {
            reveal(refresh_failed);
        }
        self.drop_session();
        let rest = self.heartbeat(rid, then);
        prepend_cmd(Command::ClearSession, rest)
    }

    fn refresh_failed_unread(&mut self) -> (cmds: Vec<Command>)
        ensures
            final(self)@ == refresh_failed(old(self)@, RefreshForView::Unread).app,
            cmd_views(cmds@) == refresh_failed(old(self)@, RefreshForView::Unread).cmds,
    {
        proof {
            reveal(refresh_failed);
        }
        self.drop_session();
        one_cmd(Command::ClearSession)
    }

    /// A failed refresh.
    fn refresh_failed(&mut self, waiting: RefreshFor) -> (cmds: Vec<Command>)
        ensures
            final(self)@ == refresh_failed(old(self)@, waiting@).app,
            cmd_views(cmds@) == refresh_failed(old(self)@, waiting@).cmds,
    {
        match waiting {
            RefreshFor::Feed(t) => self.refresh_failed_feed(t),
            RefreshFor::Circ { rid, then } => self.refresh_failed_circ(rid, then),
            RefreshFor::Unread => self.refresh_failed_unread(),
        }
    }

    /// Keeps and saves the tokens of a successful refresh.
    fn keep_tokens(&mut self, d: LoginData)
        ensures
            final(self)@ == with_status(
                tokens_persisted(AppView { api: tokens_of(d), ..old(self)@ }),
                SESSION_RENEWED@,
            ),
    {
        self.api.store_tokens(d);
        self.copy_tokens_to_session();
        self.set_status(String::from_str(SESSION_RENEWED));
    }

    fn refresh_succeeded_feed(&mut self, t: AfterFeed, d: LoginData) -> (cmds: Vec<Command>)
        ensures
            final(self)@ == refresh_succeeded(old(self)@, RefreshForView::Feed(t), d).app,
            cmd_views(cmds@) == refresh_succeeded(old(self)@, RefreshForView::Feed(t), d).cmds,
    {
        proof {
            reveal(refresh_succeeded);
            reveal(flow_view);
        }
        self.keep_tokens(d);
        let rest = self.begin(Flow::Feed { then: t, retry: true }, ApiCall::GetPosts { cursor: None });
        prepend_cmd(Command::SaveSession, rest)
    }

    fn refresh_succeeded_circ(&mut self, rid: String, then: AfterCirc, d: LoginData) -> (cmds: Vec<Command>)
        ensures
            final(self)@ == refresh_succeeded(
                old(self)@,
                RefreshForView::Circ { rid: rid@, then },
                d,
            ).app,
            cmd_views(cmds@) == refresh_succeeded(
                old(self)@,
                RefreshForView::Circ { rid: rid@, then },
                d,
            ).cmds,
    {
        proof {
            reveal(refresh_succeeded);
            reveal(flow_view);
        }
        self.keep_tokens(d);
        let r = rid.clone();
        let rest = self.begin(
            Flow::CircMessages { rid, then, retry: true },
            ApiCall::CircMessages { rid: r },
        );
        prepend_cmd(Command::SaveSession, rest)
    }

    fn refresh_succeeded_unread(&mut self, d: LoginData) -> (cmds: Vec<Command>)
        ensures
            final(self)@ == refresh_succeeded(old(self)@, RefreshForView::Unread, d).app,
            cmd_views(cmds@) == refresh_succeeded(old(self)@, RefreshForView::Unread, d).cmds,
    {
        proof {
            reveal(refresh_succeeded);
        }
        self.keep_tokens(d);
        one_cmd(Command::SaveSession)
    }

    /// A successful refresh.
    fn refresh_succeeded(&mut self, waiting: RefreshFor, d: LoginData) -> (cmds: Vec<Command>)
        ensures
            final(self)@ == refresh_succeeded(old(self)@, waiting@, d).app,
            cmd_views(cmds@) == refresh_succeeded(old(self)@, waiting@, d).cmds,
    {
        match waiting {
            RefreshFor::Feed(t) => self.refresh_succeeded_feed(t, d),
            RefreshFor::Circ { rid, then } => self.refresh_succeeded_circ(rid, then, d),
            RefreshFor::Unread => self.refresh_succeeded_unread(d),
        }
    }

    /// Renews the tokens for the operation `waiting`.
    fn start_refresh(&mut self, waiting: RefreshFor) -> (cmds: Vec<Command>)
        ensures
            final(self)@ == start_refresh(old(self)@, waiting@).app,
            cmd_views(cmds@) == start_refresh(old(self)@, waiting@).cmds,
    {
        proof {
            reveal(start_refresh);
            reveal(flow_view);
        }
        if self.api.refresh_token.is_none() {
            self.refresh_failed(waiting)
        } else {
            self.begin(Flow::Refresh(waiting), ApiCall::Refresh)
        }
    }

    fn on_login(&mut self, email: String, o: Result<Response, String>) -> (cmds: Vec<Command>)
        ensures
            final(self)@ == on_login(old(self)@, email@, o).app,
            cmd_views(cmds@) == on_login(old(self)@, email@, o).cmds,
    {
        proof {
            reveal(on_login);
        }
        match o {
            Ok(Response::Tokens(d)) => {
                self.api.store_tokens(d);
                self.copy_tokens_to_session();
                self.session.username = Some(email);
                self.screen = Screen::Feed;
                let rest = self.start_initial_feed(AfterInitial::LoginDone);
                prepend_cmd(Command::SaveSession, rest)
            },
            Ok(_) => no_cmds(),
            Err(e) => {
                self.login_error = Some(concat2(LOGIN_FAILED, e.as_str()));
                no_cmds()
            },
        }
    }

    fn on_initial(&mut self, then: AfterInitial, o: Result<Response, String>) -> (cmds: Vec<Command>)
        ensures
            final(self)@ == on_initial(old(self)@, then, o).app,
            cmd_views(cmds@) == on_initial(old(self)@, then, o).cmds,
    {
        proof {
            reveal(on_initial);
        }
        match o {
            Ok(Response::Posts(l)) => {
                self.feed = l.data;
                self.feed_cursor = l.cursor;
            },
            Ok(_) => {},
            Err(e) => self.set_error(concat2(FEED_FAILED, e.as_str())),
        }
        self.finish_initial(then)
    }

    fn on_feed(&mut self, then: AfterFeed, retry: bool, o: Result<Response, String>) -> (cmds: Vec<Command>)
        ensures
            final(self)@ == on_feed(old(self)@, then, retry, o).app,
            cmd_views(cmds@) == on_feed(old(self)@, then, retry, o).cmds,
    {
        proof {
            reveal(on_feed);
            reveal(flow_view);
        }
        match o {
            Ok(Response::Posts(l)) => {
                self.feed = l.data;
                self.feed_cursor = l.cursor;
                self.finish_feed(then)
            },
            Ok(_) => self.finish_feed(then),
            Err(e) => {
                if !retry && is_unauthorized(e.as_str()) {
                    self.start_refresh(RefreshFor::Feed(then))
                } else {
                    self.set_error(concat2(FEED_FAILED, e.as_str()));
                    self.finish_feed(then)
                }
            },
        }
    }

    fn on_refresh(&mut self, waiting: RefreshFor, o: Result<Response, String>) -> (cmds: Vec<Command>)
        ensures
            final(self)@ == on_refresh(old(self)@, waiting@, o).app,
            cmd_views(cmds@) == on_refresh(old(self)@, waiting@, o).cmds,
    {
        proof {
            reveal(on_refresh);
        }
        match o {
            Ok(Response::Tokens(d)) => self.refresh_succeeded(waiting, d),
            _ => self.refresh_failed(waiting),
        }
    }

    fn on_unread(&mut self, o: Result<Response, String>) -> (cmds: Vec<Command>)
        ensures
            final(self)@ == on_unread(old(self)@, o).app,
            cmd_views(cmds@) == on_unread(old(self)@, o).cmds,
    {
        proof {
            reveal(on_unread);
            reveal(flow_view);
        }
        match o {
            Ok(Response::Count(c)) => {
                self.unread_count = c;
                no_cmds()
            },
            Ok(_) => no_cmds(),
            Err(e) => {
                if is_unauthorized(e.as_str()) {
                    self.start_refresh(RefreshFor::Unread)
                } else {
                    no_cmds()
                }
            },
        }
    }

    fn on_notifications(&mut self, o: Result<Response, String>) -> (cmds: Vec<Command>)
        ensures
            final(self)@ == on_notifications(old(self)@, o).app,
            cmd_views(cmds@) == on_notifications(old(self)@, o).cmds,
    {
        proof {
            reveal(on_notifications);
            reveal(flow_view);
        }
        match o {
            Ok(Response::Notifications(l)) => {
                self.notifications = l.data;
            },
            Ok(_) => {},
            Err(e) => self.set_error(concat2(NOTIFICATIONS_FAILED, e.as_str())),
        }
        self.begin(Flow::MarkAllRead, ApiCall::MarkAllRead)
    }

    fn on_cmail(&mut self, cid: String, then: AfterCmail, o: Result<Response, String>) -> (cmds: Vec<Command>)
        ensures
            final(self)@ == on_cmail(old(self)@, cid@, then, o).app,
            cmd_views(cmds@) == on_cmail(old(self)@, cid@, then, o).cmds,
    {
        proof {
            reveal(on_cmail);
            reveal(flow_view);
        }
        match o {
            Ok(Response::CmailMessages(l)) => {
                self.cmail_messages = l.data;
            },
            Ok(_) => {},
            Err(e) => self.set_error(concat2(MESSAGES_FAILED, e.as_str())),
        }
        self.begin(Flow::CmailMarkRead(then), ApiCall::CmailMarkRead { cid })
    }

    fn on_circ(&mut self, rid: String, then: AfterCirc, retry: bool, o: Result<Response, String>) -> (cmds: Vec<Command>)
        ensures
            final(self)@ == on_circ(old(self)@, rid@, then, retry, o).app,
            cmd_views(cmds@) == on_circ(old(self)@, rid@, then, retry, o).cmds,
    {
        proof {
            reveal(on_circ);
            reveal(flow_view);
        }
        match o {
            Ok(Response::CircMessages(l)) => {
                self.circ_messages = l.data;
                self.heartbeat(rid, then)
            },
            Ok(_) => self.heartbeat(rid, then),
            Err(e) => {
                if retry {
                    self.heartbeat(rid, then)
                } else if is_unauthorized(e.as_str()) {
                    self.start_refresh(RefreshFor::Circ { rid, then })
                } else {
                    self.set_error(concat2(MESSAGES_FAILED, e.as_str()));
                    self.heartbeat(rid, then)
                }
            },
        }
    }

    fn on_cmail_list(&mut self, o: Result<Response, String>)
        ensures
            final(self)@ == on_cmail_list(old(self)@, o),
    {
        proof {
            reveal(on_cmail_list);
        }
        match o {
            Ok(Response::Conversations(l)) => {
                self.cmail_conversations = l.data;
            },
            Ok(_) => {},
            Err(e) => self.set_error(concat2(CMAIL_FAILED, e.as_str())),
        }
    }

    fn on_circ_list(&mut self, o: Result<Response, String>)
        ensures
            final(self)@ == on_circ_list(old(self)@, o),
    {
        proof {
            reveal(on_circ_list);
        }
        match o {
            Ok(Response::Rooms(l)) => {
                self.circ_rooms = l.data;
            },
            Ok(_) => {},
            Err(e) => self.set_error(concat2(CIRC_FAILED, e.as_str())),
        }
    }

    fn on_bookmarks(&mut self, o: Result<Response, String>)
        ensures
            final(self)@ == on_bookmarks(old(self)@, o),
    {
        proof {
            reveal(on_bookmarks);
        }
        match o {
            Ok(Response::Bookmarks(l)) => {
                self.bookmarks = l.data;
            },
            Ok(_) => {},
            Err(e) => self.set_error(concat2(BOOKMARKS_FAILED, e.as_str())),
        }
    }

    fn on_topics(&mut self, o: Result<Response, String>)
        ensures
            final(self)@ == on_topics(old(self)@, o),
    {
        proof {
            reveal(on_topics);
        }
        match o {
            Ok(Response::Topics(l)) => {
                self.topics = l.data;
            },
            Ok(_) => {},
            Err(e) => self.set_error(concat2(TOPICS_FAILED, e.as_str())),
        }
    }

    fn on_topic_posts(&mut self, o: Result<Response, String>)
        ensures
            final(self)@ == on_topic_posts(old(self)@, o),
    {
        proof {
            reveal(on_topic_posts);
        }
        match o {
            Ok(Response::Posts(l)) => {
                self.current_topic_posts = l.data;
            },
            Ok(_) => {},
            Err(e) => self.set_error(concat2(TOPIC_POSTS_FAILED, e.as_str())),
        }
        self.screen = Screen::TopicPosts;
    }

    fn on_journal(&mut self, o: Result<Response, String>)
        ensures
            final(self)@ == on_journal(old(self)@, o),
    {
        proof {
            reveal(on_journal);
        }
        match o {
            Ok(Response::Notes(l)) => {
                self.journal_notes = l.data;
            },
            Ok(_) => {},
            Err(e) => self.set_error(concat2(JOURNAL_FAILED, e.as_str())),
        }
    }

    fn on_guilds(&mut self, o: Result<Response, String>)
        ensures
            final(self)@ == on_guilds(old(self)@, o),
    {
        proof {
            reveal(on_guilds);
        }
        match o {
            Ok(Response::Guilds(l)) => {
                self.guilds = l.data;
            },
            Ok(_) => {},
            Err(e) => self.set_error(concat2(GUILDS_FAILED, e.as_str())),
        }
    }

    fn on_guild_posts(&mut self, o: Result<Response, String>)
        ensures
            final(self)@ == on_guild_posts(old(self)@, o),
    {
        proof {
            reveal(on_guild_posts);
        }
        match o {
            Ok(Response::Posts(l)) => {
                self.current_guild_posts = l.data;
            },
            Ok(_) => {},
            Err(e) => self.set_error(concat2(GUILD_POSTS_FAILED, e.as_str())),
        }
        self.screen = Screen::GuildDetail;
    }

    fn on_list(&mut self, kind: ListKind, o: Result<Response, String>) -> (cmds: Vec<Command>)
        ensures
            final(self)@ == on_list(old(self)@, kind, o).app,
            cmd_views(cmds@) == on_list(old(self)@, kind, o).cmds,
    {
        proof {
            reveal(on_list);
        }
        match kind {
            ListKind::CmailList => self.on_cmail_list(o),
            ListKind::CircList => self.on_circ_list(o),
            ListKind::Bookmarks => self.on_bookmarks(o),
            ListKind::Topics => self.on_topics(o),
            ListKind::TopicPosts => self.on_topic_posts(o),
            ListKind::Journal => self.on_journal(o),
            ListKind::Guilds => self.on_guilds(o),
            ListKind::GuildPosts => self.on_guild_posts(o),
        }
        no_cmds()
    }

    fn on_profile(&mut self, o: Result<Response, String>) -> (cmds: Vec<Command>)
        ensures
            final(self)@ == on_profile(old(self)@, o).app,
            cmd_views(cmds@) == on_profile(old(self)@, o).cmds,
    {
        proof {
            reveal(on_profile);
            reveal(flow_view);
        }
        match o {
            Ok(Response::Profile(u)) => {
                let name = u.username.clone();
                self.current_profile = Some(u);
                self.begin(Flow::ProfilePosts, ApiCall::GetUserPosts { username: name })
            },
            Ok(_) => no_cmds(),
            Err(e) => {
                self.set_error(concat2(PROFILE_FAILED, e.as_str()));
                no_cmds()
            },
        }
    }

    fn on_profile_posts(&mut self, o: Result<Response, String>) -> (cmds: Vec<Command>)
        ensures
            final(self)@ == on_profile_posts(old(self)@, o).app,
            cmd_views(cmds@) == on_profile_posts(old(self)@, o).cmds,
    {
        proof {
            reveal(on_profile_posts);
        }
        match o {
            Ok(Response::Posts(l)) => {
                self.current_profile_posts = l.data;
            },
            Ok(_) => {},
            Err(e) => self.set_error(concat2(ENTRIES_FAILED, e.as_str())),
        }
        no_cmds()
    }

    fn on_compose_post(&mut self, o: Result<Response, String>) -> (cmds: Vec<Command>)
        ensures
            final(self)@ == on_compose_post(old(self)@, o).app,
            cmd_views(cmds@) == on_compose_post(old(self)@, o).cmds,
    {
        proof {
            reveal(on_compose_post);
        }
        match o {
            Ok(_) => {
                self.set_status(String::from_str(POST_PUBLISHED));
                self.start_feed(AfterFeed::FinishCompose)
            },
            Err(e) => {
                self.set_error(concat2(PUBLISH_FAILED, e.as_str()));
                self.finish_compose();
                no_cmds()
            },
        }
    }

    fn on_compose_circ(&mut self, rid: String, o: Result<Response, String>) -> (cmds: Vec<Command>)
        ensures
            final(self)@ == on_compose_circ(old(self)@, rid@, o).app,
            cmd_views(cmds@) == on_compose_circ(old(self)@, rid@, o).cmds,
    {
        proof {
            reveal(on_compose_circ);
        }
        match o {
            Ok(_) => self.start_circ(rid, AfterCirc::FinishCompose),
            Err(e) => {
                self.set_error(concat2(SEND_FAILED, e.as_str()));
                self.finish_compose();
                no_cmds()
            },
        }
    }

    fn on_compose_cmail(&mut self, cid: String, o: Result<Response, String>) -> (cmds: Vec<Command>)
        ensures
            final(self)@ == on_compose_cmail(old(self)@, cid@, o).app,
            cmd_views(cmds@) == on_compose_cmail(old(self)@, cid@, o).cmds,
    {
        proof {
            reveal(on_compose_cmail);
        }
        match o {
            Ok(_) => self.start_cmail(cid, AfterCmail::FinishCompose),
            Err(e) => {
                self.set_status(concat2(SEND_FAILED, e.as_str()));
                self.finish_compose();
                no_cmds()
            },
        }
    }

    /// Closes and empties the new-post modal.
    pub(crate) fn close_create_modal(&mut self)
        ensures
            final(self)@ == create_modal_closed(old(self)@),
    {
        self.show_create_post_modal = false;
        self.create_post_title = String::new();
        self.create_post_content = String::new();
        self.create_post_focus = CreatePostFocus::Content;
    }

    fn on_modal_post(&mut self, o: Result<Response, String>) -> (cmds: Vec<Command>)
        ensures
            final(self)@ == on_modal_post(old(self)@, o).app,
            cmd_views(cmds@) == on_modal_post(old(self)@, o).cmds,
    {
        proof {
            reveal(on_modal_post);
        }
        match o {
            Ok(_) => {
                self.close_create_modal();
                self.set_status(String::from_str(POST_PUBLISHED));
                self.start_feed(AfterFeed::Nothing)
            },
            Err(e) => {
                self.set_error(concat2(PUBLISH_FAILED, e.as_str()));
                no_cmds()
            },
        }
    }

    fn on_reply(&mut self, post_id: String, o: Result<Response, String>) -> (cmds: Vec<Command>)
        ensures
            final(self)@ == on_reply(old(self)@, post_id@, o).app,
            cmd_views(cmds@) == on_reply(old(self)@, post_id@, o).cmds,
    {
        proof {
            reveal(on_reply);
        }
        match o {
            Ok(_) => {
                self.show_reply_modal = false;
                self.reply_content = String::new();
                self.set_status(String::from_str(REPLY_SENT));
                self.start_replies_load(post_id)
            },
            Err(e) => {
                self.set_error(concat2(REPLY_FAILED, e.as_str()));
                no_cmds()
            },
        }
    }

    fn on_action(&mut self, done: &str, o: Result<Response, String>) -> (cmds: Vec<Command>)
        ensures
            final(self)@ == on_action(old(self)@, done, o).app,
            cmd_views(cmds@) == on_action(old(self)@, done, o).cmds,
    {
        proof {
            reveal(on_action);
        }
        match o {
            Ok(_) => self.set_status(String::from_str(done)),
            Err(e) => self.set_error(concat2(ACTION_FAILED, e.as_str())),
        }
        no_cmds()
    }

    fn dispatch_0(
        &mut self,
        Ghost(s): Ghost<AppView>,
        f: Flow,
        outcome: Result<Response, String>,
    ) -> (cmds: Vec<Command>)
        requires
            old(self)@ == idle(s),
            s.flow == flow_view(f),
        ensures
            final(self)@ == resume_step(s, outcome).app,
            cmd_views(cmds@) == resume_step(s, outcome).cmds,
    {
        match f {
            Flow::Idle => {
                proof {
                    lemma_resume_idle(s, outcome);
                }
                no_cmds()
            },
            Flow::Login { email } => {
                proof {
                    lemma_resume_login(s, email, outcome);
                }
                self.on_login(email, outcome)
            },
            Flow::InitialFeed(then) => {
                proof {
                    lemma_resume_initial_feed(s, then, outcome);
                }
                self.on_initial(then, outcome)
            },
            Flow::Feed { then, retry } => {
                proof {
                    lemma_resume_feed(s, then, retry, outcome);
                }
                self.on_feed(then, retry, outcome)
            },
            Flow::Refresh(r) => {
                proof {
                    lemma_resume_refresh(s, r, outcome);
                }
                self.on_refresh(r, outcome)
            },
            Flow::Unread => {
                proof {
                    lemma_resume_unread(s, outcome);
                }
                self.on_unread(outcome)
            },
            Flow::Notifications => {
                proof {
                    lemma_resume_notifications(s, outcome);
                }
                self.on_notifications(outcome)
            },
            Flow::MarkAllRead => {
                proof {
                    lemma_resume_mark_all_read(s, outcome);
                }
                self.start_unread()
            },
            _ => self.dispatch_1(Ghost(s), f, outcome),
        }
    }

    fn dispatch_1(
        &mut self,
        Ghost(s): Ghost<AppView>,
        f: Flow,
        outcome: Result<Response, String>,
    ) -> (cmds: Vec<Command>)
        requires
            old(self)@ == idle(s),
            s.flow == flow_view(f),
            !(f is Idle),
            !(f is Login),
            !(f is InitialFeed),
            !(f is Feed),
            !(f is Refresh),
            !(f is Unread),
            !(f is Notifications),
            !(f is MarkAllRead),
        ensures
            final(self)@ == resume_step(s, outcome).app,
            cmd_views(cmds@) == resume_step(s, outcome).cmds,
    {
        match f {
            Flow::CmailMessages { cid, then } => {
                proof {
                    lemma_resume_cmail_messages(s, cid, then, outcome);
                }
                self.on_cmail(cid, then, outcome)
            },
            Flow::CmailMarkRead(then) => {
                proof {
                    lemma_resume_cmail_mark_read(s, then, outcome);
                }
                self.finish_cmail(then)
            },
            Flow::CircMessages { rid, then, retry } => {
                proof {
                    lemma_resume_circ_messages(s, rid, then, retry, outcome);
                }
                self.on_circ(rid, then, retry, outcome)
            },
            Flow::CircHeartbeat(then) => {
                proof {
                    lemma_resume_circ_heartbeat(s, then, outcome);
                }
                self.finish_circ(then)
            },
            Flow::List(kind) => {
                proof {
                    lemma_resume_list(s, kind, outcome);
                }
                self.on_list(kind, outcome)
            },
            Flow::Profile => {
                proof {
                    lemma_resume_profile(s, outcome);
                }
                self.on_profile(outcome)
            },
            Flow::ProfilePosts => {
                proof {
                    lemma_resume_profile_posts(s, outcome);
                }
                self.on_profile_posts(outcome)
            },
            _ => self.dispatch_2(Ghost(s), f, outcome),
        }
    }

    fn dispatch_2(
        &mut self,
        Ghost(s): Ghost<AppView>,
        f: Flow,
        outcome: Result<Response, String>,
    ) -> (cmds: Vec<Command>)
        requires
            old(self)@ == idle(s),
            s.flow == flow_view(f),
            !(f is Idle),
            !(f is Login),
            !(f is InitialFeed),
            !(f is Feed),
            !(f is Refresh),
            !(f is Unread),
            !(f is Notifications),
            !(f is MarkAllRead),
            !(f is CmailMessages),
            !(f is CmailMarkRead),
            !(f is CircMessages),
            !(f is CircHeartbeat),
            !(f is List),
            !(f is Profile),
            !(f is ProfilePosts),
        ensures
            final(self)@ == resume_step(s, outcome).app,
            cmd_views(cmds@) == resume_step(s, outcome).cmds,
    {
        match f {
            Flow::ComposePost => {
                proof {
                    lemma_resume_compose_post(s, outcome);
                }
                self.on_compose_post(outcome)
            },
            Flow::ComposeCirc { rid } => {
                proof {
                    lemma_resume_compose_circ(s, rid, outcome);
                }
                self.on_compose_circ(rid, outcome)
            },
            Flow::ComposeCmail { cid } => {
                proof {
                    lemma_resume_compose_cmail(s, cid, outcome);
                }
                self.on_compose_cmail(cid, outcome)
            },
            Flow::ModalPost => {
                proof {
                    lemma_resume_modal_post(s, outcome);
                }
                self.on_modal_post(outcome)
            },
            Flow::Reply { post_id } => {
                proof {
                    lemma_resume_reply(s, post_id, outcome);
                }
                self.on_reply(post_id, outcome)
            },
            Flow::Watch => {
                proof {
                    lemma_resume_watch(s, outcome);
                }
                self.on_action(WATCH_ADDED, outcome)
            },
            Flow::Bookmark => {
                proof {
                    lemma_resume_bookmark(s, outcome);
                }
                self.on_action(BOOKMARK_ADDED, outcome)
            },
            _ => {
                proof {
                    assert(false);
                }
                no_cmds()
            },
        }
    }

    /// Hands the answer of the request in flight to the operation waiting for
    /// it, which changes the state and yields the next commands.
    pub fn resume(&mut self, outcome: Result<Response, String>) -> (cmds: Vec<Command>)
        ensures
            final(self)@ == resume_step(old(self)@, outcome).app,
            cmd_views(cmds@) == resume_step(old(self)@, outcome).cmds,
    {
        proof {
            lemma_flow_idle();
        }
        let ghost s = old(self)@;
        let mut f = Flow::Idle;
        core::mem::swap(&mut f, &mut self.flow);
        assert(self@ == idle(s));
        self.dispatch_0(Ghost(s), f, outcome)
    }
}

/// A further feed page that arrived: its posts go after those shown.
#[verifier::opaque]
pub open spec fn feed_page_arrived(s: AppView, r: Result<ApiList<Post>, TaskError>) -> AppView {
    let s1 = AppView { feed_loading: false, feed_load_pending: false, ..s };
    match r {
        Ok(l) => AppView { feed: s.feed + l.data@, feed_cursor: opt_text(l.cursor), ..s1 },
        Err(TaskError::Failed(e)) => with_error(s1, prefixed(PAGE_FAILED, e)),
        Err(TaskError::Crashed(e)) => with_error(s1, prefixed(PAGE_TASK_FAILED, e)),
    }
}

/// The replies of a post that arrived.
#[verifier::opaque]
pub open spec fn replies_arrived(s: AppView, r: Result<ApiList<Reply>, TaskError>) -> AppView {
    let s1 = AppView { replies_loading: false, reply_load_pending: false, ..s };
    match r {
        Ok(l) => AppView { current_replies: l.data@, ..s1 },
        Err(TaskError::Failed(e)) => with_error(s1, prefixed(REPLIES_FAILED, e)),
        Err(TaskError::Crashed(e)) => with_error(s1, prefixed(REPLIES_TASK_FAILED, e)),
    }
}

/// The time between reloads of the feed made on their own, in milliseconds.
pub const FEED_REFRESH_MS: u64 = 8000;

/// The time between reloads of a cIRC room's messages, in milliseconds.
pub const CIRC_REFRESH_MS: u64 = 2000;

/// Whether the feed is due to be reloaded on its own, `elapsed` milliseconds
/// after the last such reload: away from the login screen and the feed, with
/// no modal and no field open and no page being loaded.
pub open spec fn feed_refresh_due(s: AppView, elapsed: u64) -> bool {
    &&& s.screen != Screen::Login
    &&& s.screen != Screen::Feed
    &&& s.input_mode == InputMode::Normal
    &&& !s.show_post_modal
    &&& !s.show_create_post_modal
    &&& !s.show_reply_modal
    &&& !s.feed_load_pending
    &&& (s.screen != Screen::Feed || s.selected_index <= 2)
    &&& elapsed >= FEED_REFRESH_MS
}

/// Whether a cIRC room's messages are due to be reloaded, `elapsed`
/// milliseconds after the last such reload.
pub open spec fn circ_refresh_due(s: AppView, elapsed: u64) -> bool {
    s.screen == Screen::CircRoom && s.input_mode == InputMode::Normal && elapsed >= CIRC_REFRESH_MS
}

/// The reload of the shown cIRC room's messages, if a room is shown.
pub open spec fn circ_refresh(s: AppView) -> Step {
    match s.current_room {
        Some(r) => start_circ(s, r.id@, AfterCirc::Nothing),
        None => stay(s),
    }
}

impl App {
    fn feed_page_ok(&mut self, l: ApiList<Post>)
        ensures
            final(self)@ == feed_page_arrived(old(self)@, Ok(l)),
    {
        proof {
            reveal(feed_page_arrived);
        }
        self.feed_loading = false;
        self.feed_load_pending = false;
        let mut data = l.data;
        self.feed.append(&mut data);
        self.feed_cursor = l.cursor;
    }

    fn feed_page_failed(&mut self, e: TaskError)
        ensures
            final(self)@ == feed_page_arrived(old(self)@, Err(e)),
    {
        proof {
            reveal(feed_page_arrived);
        }
        self.feed_loading = false;
        self.feed_load_pending = false;
        match e {
            TaskError::Failed(m) => {
                self.set_error(concat2(PAGE_FAILED, m.as_str()));
            },
            TaskError::Crashed(m) => {
                self.set_error(concat2(PAGE_TASK_FAILED, m.as_str()));
            },
        }
    }

    /// A further feed page that a background load brought, or its failure.
    pub fn on_feed_page(&mut self, result: Result<ApiList<Post>, TaskError>)
        ensures
            final(self)@ == feed_page_arrived(old(self)@, result),
    {
        match result {
            Ok(l) => self.feed_page_ok(l),
            Err(e) => self.feed_page_failed(e),
        }
    }

    fn replies_ok(&mut self, l: ApiList<Reply>)
        ensures
            final(self)@ == replies_arrived(old(self)@, Ok(l)),
    {
        proof {
            reveal(replies_arrived);
        }
        self.replies_loading = false;
        self.reply_load_pending = false;
        self.current_replies = l.data;
    }

    fn replies_failed(&mut self, e: TaskError)
        ensures
            final(self)@ == replies_arrived(old(self)@, Err(e)),
    {
        proof {
            reveal(replies_arrived);
        }
        self.replies_loading = false;
        self.reply_load_pending = false;
        match e {
            TaskError::Failed(m) => {
                self.set_error(concat2(REPLIES_FAILED, m.as_str()));
            },
            TaskError::Crashed(m) => {
                self.set_error(concat2(REPLIES_TASK_FAILED, m.as_str()));
            },
        }
    }

    /// The replies that a background load brought, or its failure.
    pub fn on_replies(&mut self, result: Result<ApiList<Reply>, TaskError>)
        ensures
            final(self)@ == replies_arrived(old(self)@, result),
    {
        match result {
            Ok(l) => self.replies_ok(l),
            Err(e) => self.replies_failed(e),
        }
    }

    /// Whether the feed is due to be reloaded on its own.
    pub fn should_refresh_feed(&self, elapsed_ms: u64) -> (res: bool)
        ensures
            res == feed_refresh_due(self@, elapsed_ms),
    {
        self.screen != Screen::Login && self.screen != Screen::Feed && self.input_mode
            == InputMode::Normal && !self.show_post_modal && !self.show_create_post_modal
            && !self.show_reply_modal && !self.feed_load_pending && (self.screen != Screen::Feed
            || self.selected_index <= 2) && elapsed_ms >= FEED_REFRESH_MS
    }

    /// Reloads the feed, then the unread count.
    pub fn auto_refresh(&mut self) -> (cmds: Vec<Command>)
        ensures
            final(self)@ == start_feed(old(self)@, AfterFeed::RefreshUnread).app,
            cmd_views(cmds@) == start_feed(old(self)@, AfterFeed::RefreshUnread).cmds,
    {
        self.start_feed(AfterFeed::RefreshUnread)
    }

    /// Whether the shown cIRC room is due to be reloaded.
    pub fn should_refresh_circ(&self, elapsed_ms: u64) -> (res: bool)
        ensures
            res == circ_refresh_due(self@, elapsed_ms),
    {
        self.screen == Screen::CircRoom && self.input_mode == InputMode::Normal && elapsed_ms
            >= CIRC_REFRESH_MS
    }

    /// Reloads the messages of the shown cIRC room, if a room is shown.
    pub fn refresh_circ(&mut self) -> (cmds: Vec<Command>)
        ensures
            final(self)@ == circ_refresh(old(self)@).app,
            cmd_views(cmds@) == circ_refresh(old(self)@).cmds,
    {
        match &self.current_room {
            Some(r) => {
                let rid = r.id.clone();
                self.start_circ(rid, AfterCirc::Nothing)
            },
            None => no_cmds(),
        }
    }

    /// Logs out: the session is dropped and its file deleted, the client
    /// forgets its tokens, the loaded lists and the open post are cleared, and
    /// the login screen is shown.
    pub fn logout(&mut self) -> (cmds: Vec<Command>)
        ensures
            final(self)@ == logged_out(old(self)@),
            cmd_views(cmds@) == seq![CommandView::ClearSession, CommandView::AbortReplies],
    {
        self.reply_load_pending = false;
        self.feed_loading_cursor = None;
        self.feed_loading = false;
        self.feed = Vec::new();
        self.session = Session::default();
        self.api = crate::api::ApiClient::new();
        self.screen = Screen::Login;
        self.notifications = Vec::new();
        self.cmail_conversations = Vec::new();
        self.circ_rooms = Vec::new();
        self.bookmarks = Vec::new();
        self.topics = Vec::new();
        self.journal_notes = Vec::new();
        self.guilds = Vec::new();
        self.current_post = None;
        self.current_replies = Vec::new();
        self.replies_loading = false;
        self.show_post_modal = false;
        self.show_reply_modal = false;
        self.reply_content = String::new();
        self.set_status(String::from_str(LOGGED_OUT));
        proof {
            assert(crate::app::note_views(Seq::<Note>::empty()) =~= Seq::<crate::models::NoteView>::empty());
        }
        let rest = one_cmd(Command::AbortReplies);
        prepend_cmd(Command::ClearSession, rest)
    }
}

} // verus!
