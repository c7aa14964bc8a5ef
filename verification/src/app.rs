//! The state of the client: the screen shown, the navigation, the loaded
//! lists, the modals, the messages, and what is in flight.
use crate::api::{ApiClient, ClientView};
use crate::flow::{Flow, FlowView};
use crate::input::{empty_input, input_cursor, input_text};
use crate::models::{
    opt_text, Bookmark, CircMessage, CircRoom, CmailConversationRef, CmailMessage, Guild, Note,
    NoteView, Notification, Post, Reply, Topic, User,
};
use crate::session::{empty_session, Session, SessionView};
use tui_input::Input;
use vstd::prelude::*;

verus! {

/// The screens of the client.
#[derive(Debug, Clone, Copy, PartialEq, Eq, Structural)]
pub enum Screen {
    Login,
    Feed,
    Notifications,
    CmailList,
    CmailConversation,
    CircList,
    CircRoom,
    Bookmarks,
    Topics,
    TopicPosts,
    Profile,
    Journal,
    JournalNote,
    Guilds,
    GuildDetail,
    Jukebox,
}

/// Whether keys navigate or go into the compose field.
#[derive(Debug, Clone, Copy, PartialEq, Eq, Structural)]
pub enum InputMode {
    Normal,
    Compose,
}

/// The field of the new-post modal that receives typing.
#[derive(Debug, Clone, Copy, PartialEq, Eq, Structural)]
pub enum CreatePostFocus {
    Title,
    Content,
}

/// The number of entries of the sidebar menu.
pub const SIDEBAR_LEN: usize = 10;

/// The state of the client.
pub struct App {
    pub screen: Screen,
    pub sidebar_visible: bool,
    pub sidebar_selected: usize,
    pub api: ApiClient,
    pub session: Session,
    pub login_email: Input,
    pub login_password: Input,
    pub login_error: Option<String>,
    pub login_field_email_active: bool,
    pub feed: Vec<Post>,
    pub selected_index: usize,
    pub current_post: Option<Post>,
    pub current_replies: Vec<Reply>,
    pub feed_cursor: Option<String>,
    pub feed_loading: bool,
    /// A further feed page is being fetched in the background.
    pub feed_load_pending: bool,
    pub notifications: Vec<Notification>,
    pub unread_count: u32,
    pub cmail_conversations: Vec<CmailConversationRef>,
    pub cmail_selected: usize,
    pub current_conversation: Option<CmailConversationRef>,
    pub cmail_messages: Vec<CmailMessage>,
    pub circ_rooms: Vec<CircRoom>,
    pub circ_selected: usize,
    pub current_room: Option<CircRoom>,
    pub circ_messages: Vec<CircMessage>,
    pub bookmarks: Vec<Bookmark>,
    pub topics: Vec<Topic>,
    pub topic_selected: usize,
    pub current_topic_posts: Vec<Post>,
    pub current_profile: Option<User>,
    pub current_profile_posts: Vec<Post>,
    pub journal_notes: Vec<Note>,
    pub journal_selected: usize,
    pub current_note: Option<Note>,
    pub guilds: Vec<Guild>,
    pub guild_selected: usize,
    pub current_guild: Option<Guild>,
    pub current_guild_posts: Vec<Post>,
    pub input_mode: InputMode,
    pub compose_input: Input,
    pub status_message: Option<String>,
    pub error_message: Option<String>,
    pub should_quit: bool,
    pub show_post_modal: bool,
    pub show_create_post_modal: bool,
    pub create_post_title: String,
    pub create_post_content: String,
    pub create_post_focus: CreatePostFocus,
    pub show_reply_modal: bool,
    pub reply_content: String,
    pub replies_loading: bool,
    /// The replies of a post are being fetched in the background.
    pub reply_load_pending: bool,
    pub feed_loading_cursor: Option<String>,
    pub feed_last_requested_cursor: Option<String>,
    /// The operation waiting for the answer of a request, if any.
    pub flow: Flow,
}

/// The state of the client as values; a text field is seen by its text.
pub struct AppView {
    pub screen: Screen,
    pub sidebar_visible: bool,
    pub sidebar_selected: usize,
    pub api: ClientView,
    pub session: SessionView,
    pub login_email: Seq<char>,
    /// Where the cursor of the e-mail field stands.
    pub login_email_cursor: nat,
    pub login_password: Seq<char>,
    /// Where the cursor of the password field stands.
    pub login_password_cursor: nat,
    pub login_error: Option<Seq<char>>,
    pub login_field_email_active: bool,
    pub feed: Seq<Post>,
    pub selected_index: usize,
    pub current_post: Option<Post>,
    pub current_replies: Seq<Reply>,
    pub feed_cursor: Option<Seq<char>>,
    pub feed_loading: bool,
    pub feed_load_pending: bool,
    pub notifications: Seq<Notification>,
    pub unread_count: u32,
    pub cmail_conversations: Seq<CmailConversationRef>,
    pub cmail_selected: usize,
    pub current_conversation: Option<CmailConversationRef>,
    pub cmail_messages: Seq<CmailMessage>,
    pub circ_rooms: Seq<CircRoom>,
    pub circ_selected: usize,
    pub current_room: Option<CircRoom>,
    pub circ_messages: Seq<CircMessage>,
    pub bookmarks: Seq<Bookmark>,
    pub topics: Seq<Topic>,
    pub topic_selected: usize,
    pub current_topic_posts: Seq<Post>,
    pub current_profile: Option<User>,
    pub current_profile_posts: Seq<Post>,
    pub journal_notes: Seq<NoteView>,
    pub journal_selected: usize,
    pub current_note: Option<NoteView>,
    pub guilds: Seq<Guild>,
    pub guild_selected: usize,
    pub current_guild: Option<Guild>,
    pub current_guild_posts: Seq<Post>,
    pub input_mode: InputMode,
    pub compose_input: Seq<char>,
    /// Where the cursor of the compose field stands.
    pub compose_cursor: nat,
    pub status_message: Option<Seq<char>>,
    pub error_message: Option<Seq<char>>,
    pub should_quit: bool,
    pub show_post_modal: bool,
    pub show_create_post_modal: bool,
    pub create_post_title: Seq<char>,
    pub create_post_content: Seq<char>,
    pub create_post_focus: CreatePostFocus,
    pub show_reply_modal: bool,
    pub reply_content: Seq<char>,
    pub replies_loading: bool,
    pub reply_load_pending: bool,
    pub feed_loading_cursor: Option<Seq<char>>,
    pub feed_last_requested_cursor: Option<Seq<char>>,
    pub flow: FlowView,
}

/// The views of a list of notes.
pub open spec fn note_views(v: Seq<Note>) -> Seq<NoteView> {
    v.map_values(|n: Note| n@)
}

/// The view of an optional note.
pub open spec fn opt_note(o: Option<Note>) -> Option<NoteView> {
    match o {
        Some(n) => Some(n@),
        None => None,
    }
}

impl View for App {
    type V = AppView;

    open spec fn view(&self) -> AppView {
        AppView {
            screen: self.screen,
            sidebar_visible: self.sidebar_visible,
            sidebar_selected: self.sidebar_selected,
            api: self.api@,
            session: self.session@,
            login_email: input_text(self.login_email),
            login_email_cursor: input_cursor(self.login_email) as nat,
            login_password: input_text(self.login_password),
            login_password_cursor: input_cursor(self.login_password) as nat,
            login_error: opt_text(self.login_error),
            login_field_email_active: self.login_field_email_active,
            feed: self.feed@,
            selected_index: self.selected_index,
            current_post: self.current_post,
            current_replies: self.current_replies@,
            feed_cursor: opt_text(self.feed_cursor),
            feed_loading: self.feed_loading,
            feed_load_pending: self.feed_load_pending,
            notifications: self.notifications@,
            unread_count: self.unread_count,
            cmail_conversations: self.cmail_conversations@,
            cmail_selected: self.cmail_selected,
            current_conversation: self.current_conversation,
            cmail_messages: self.cmail_messages@,
            circ_rooms: self.circ_rooms@,
            circ_selected: self.circ_selected,
            current_room: self.current_room,
            circ_messages: self.circ_messages@,
            bookmarks: self.bookmarks@,
            topics: self.topics@,
            topic_selected: self.topic_selected,
            current_topic_posts: self.current_topic_posts@,
            current_profile: self.current_profile,
            current_profile_posts: self.current_profile_posts@,
            journal_notes: note_views(self.journal_notes@),
            journal_selected: self.journal_selected,
            current_note: opt_note(self.current_note),
            guilds: self.guilds@,
            guild_selected: self.guild_selected,
            current_guild: self.current_guild,
            current_guild_posts: self.current_guild_posts@,
            input_mode: self.input_mode,
            compose_input: input_text(self.compose_input),
            compose_cursor: input_cursor(self.compose_input) as nat,
            status_message: opt_text(self.status_message),
            error_message: opt_text(self.error_message),
            should_quit: self.should_quit,
            show_post_modal: self.show_post_modal,
            show_create_post_modal: self.show_create_post_modal,
            create_post_title: self.create_post_title@,
            create_post_content: self.create_post_content@,
            create_post_focus: self.create_post_focus,
            show_reply_modal: self.show_reply_modal,
            reply_content: self.reply_content@,
            replies_loading: self.replies_loading,
            reply_load_pending: self.reply_load_pending,
            feed_loading_cursor: opt_text(self.feed_loading_cursor),
            feed_last_requested_cursor: opt_text(self.feed_last_requested_cursor),
            flow: self.flow@,
        }
    }
}

/// Shows a status message and hides the error.
pub open spec fn with_status(s: AppView, msg: Seq<char>) -> AppView {
    AppView { error_message: None, status_message: Some(msg), ..s }
}

/// Shows an error and hides the status message.
pub open spec fn with_error(s: AppView, msg: Seq<char>) -> AppView {
    AppView { error_message: Some(msg), status_message: None, ..s }
}

/// The number of entries of the list the screen shows; zero on screens
/// without a navigable list.
pub open spec fn list_len(s: AppView) -> nat {
    match s.screen {
        Screen::Feed => s.feed.len(),
        Screen::Notifications => s.notifications.len(),
        Screen::CmailList => s.cmail_conversations.len(),
        Screen::CircList => s.circ_rooms.len(),
        Screen::Bookmarks => s.bookmarks.len(),
        Screen::Topics => s.topics.len(),
        Screen::Profile => s.current_profile_posts.len(),
        Screen::Journal => s.journal_notes.len(),
        Screen::Guilds => s.guilds.len(),
        _ => 0,
    }
}

/// The selection index that the screen moves.
pub open spec fn selection(s: AppView) -> usize {
    match s.screen {
        Screen::CmailList => s.cmail_selected,
        Screen::CircList => s.circ_selected,
        Screen::Topics => s.topic_selected,
        Screen::Journal => s.journal_selected,
        Screen::Guilds => s.guild_selected,
        _ => s.selected_index,
    }
}

/// The state with the screen's selection index set to `i`.
pub open spec fn with_selection(s: AppView, i: usize) -> AppView {
    AppView {
        cmail_selected: if s.screen == Screen::CmailList { i } else { s.cmail_selected },
        circ_selected: if s.screen == Screen::CircList { i } else { s.circ_selected },
        topic_selected: if s.screen == Screen::Topics { i } else { s.topic_selected },
        journal_selected: if s.screen == Screen::Journal { i } else { s.journal_selected },
        guild_selected: if s.screen == Screen::Guilds { i } else { s.guild_selected },
        selected_index: if s.screen != Screen::CmailList && s.screen != Screen::CircList
            && s.screen != Screen::Topics && s.screen != Screen::Journal && s.screen
            != Screen::Guilds {
            i
        } else {
            s.selected_index
        },
        ..s
    }
}

/// The smaller of two indices.
pub open spec fn min_index(a: int, b: int) -> int {
    if a <= b {
        a
    } else {
        b
    }
}

/// The selection one entry down, held at the last entry; nothing moves when
/// the list is empty.
pub open spec fn selection_down(s: AppView) -> AppView {
    let n = list_len(s);
    if n == 0 {
        s
    } else {
        with_selection(s, min_index(selection(s) + 1, n - 1) as usize)
    }
}

/// The selection one entry up, held at the first entry.
pub open spec fn selection_up(s: AppView) -> AppView {
    if selection(s) > 0 {
        with_selection(s, (selection(s) - 1) as usize)
    } else {
        s
    }
}

/// The sidebar shown if it was hidden, hidden if it was shown.
pub open spec fn sidebar_toggled(s: AppView) -> AppView {
    AppView { sidebar_visible: !s.sidebar_visible, ..s }
}

/// The sidebar entry one down, held at the last entry.
pub open spec fn sidebar_down(s: AppView) -> AppView {
    AppView {
        sidebar_selected: min_index(s.sidebar_selected + 1, SIDEBAR_LEN - 1) as usize,
        ..s
    }
}

/// The sidebar entry one up, held at the first entry.
pub open spec fn sidebar_up(s: AppView) -> AppView {
    if s.sidebar_selected > 0 {
        AppView { sidebar_selected: (s.sidebar_selected - 1) as usize, ..s }
    } else {
        s
    }
}

/// The screen that a sidebar entry opens.
pub open spec fn sidebar_screen(i: usize) -> Option<Screen> {
    if i == 0 {
        Some(Screen::Feed)
    } else if i == 1 {
        Some(Screen::Notifications)
    } else if i == 2 {
        Some(Screen::CmailList)
    } else if i == 3 {
        Some(Screen::CircList)
    } else if i == 4 {
        Some(Screen::Bookmarks)
    } else if i == 5 {
        Some(Screen::Topics)
    } else if i == 6 {
        Some(Screen::Profile)
    } else if i == 7 {
        Some(Screen::Journal)
    } else if i == 8 {
        Some(Screen::Guilds)
    } else if i == 9 {
        Some(Screen::Jukebox)
    } else {
        None
    }
}

/// The screen that a sidebar entry opens.
pub fn sidebar_target(i: usize) -> (res: Option<Screen>)
    ensures
        res == sidebar_screen(i),
{
    if i == 0 {
        Some(Screen::Feed)
    } else if i == 1 {
        Some(Screen::Notifications)
    } else if i == 2 {
        Some(Screen::CmailList)
    } else if i == 3 {
        Some(Screen::CircList)
    } else if i == 4 {
        Some(Screen::Bookmarks)
    } else if i == 5 {
        Some(Screen::Topics)
    } else if i == 6 {
        Some(Screen::Profile)
    } else if i == 7 {
        Some(Screen::Journal)
    } else if i == 8 {
        Some(Screen::Guilds)
    } else if i == 9 {
        Some(Screen::Jukebox)
    } else {
        None
    }
}

/// Opens the selected sidebar entry and hides the sidebar.
pub open spec fn sidebar_select(s: AppView) -> AppView {
    AppView {
        screen: match sidebar_screen(s.sidebar_selected) {
            Some(sc) => sc,
            None => s.screen,
        },
        sidebar_visible: false,
        ..s
    }
}

/// The selected post of the feed, if the selection is on one.
pub open spec fn selected_post_of(s: AppView) -> Option<Post> {
    if s.selected_index < s.feed.len() {
        Some(s.feed[s.selected_index as int])
    } else {
        None
    }
}

/// The message shown after a logout.
pub const LOGGED_OUT: &'static str = "Disconnesso";

/// The state after a logout: no session, no tokens, the login screen, the
/// lists and the open post cleared.
pub open spec fn logged_out(s: AppView) -> AppView {
    with_status(
        AppView {
            feed_loading_cursor: None,
            feed_loading: false,
            feed: Seq::empty(),
            session: empty_session(),
            api: ClientView { id_token: None, refresh_token: None },
            screen: Screen::Login,
            notifications: Seq::empty(),
            cmail_conversations: Seq::empty(),
            circ_rooms: Seq::empty(),
            bookmarks: Seq::empty(),
            topics: Seq::empty(),
            journal_notes: Seq::empty(),
            guilds: Seq::empty(),
            current_post: None,
            current_replies: Seq::empty(),
            replies_loading: false,
            reply_load_pending: false,
            show_post_modal: false,
            show_reply_modal: false,
            reply_content: Seq::empty(),
            ..s
        },
        LOGGED_OUT@,
    )
}

/// The session holding the client's current tokens.
pub open spec fn tokens_persisted(s: AppView) -> AppView {
    AppView {
        session: SessionView {
            id_token: s.api.id_token,
            refresh_token: s.api.refresh_token,
            username: s.session.username,
        },
        ..s
    }
}

impl App {
    /// The client as it starts with a loaded session: on the feed when the
    /// session is authenticated, on the login screen otherwise; the client
    /// takes the session's tokens when it has an id token.
    pub fn new(session: Session) -> (res: App)
        ensures
            res.session == session,
            res.screen == (if session.id_token is Some {
                Screen::Feed
            } else {
                Screen::Login
            }),
            session.id_token is Some ==> res.api.id_token == session.id_token
                && res.api.refresh_token == session.refresh_token,
            session.id_token is None ==> res.api.id_token is None && res.api.refresh_token is None,
            !res.sidebar_visible,
            res.sidebar_selected == 0,
            input_text(res.login_email) == Seq::<char>::empty(),
            input_text(res.login_password) == Seq::<char>::empty(),
            input_text(res.compose_input) == Seq::<char>::empty(),
            input_cursor(res.login_email) == 0,
            input_cursor(res.login_password) == 0,
            input_cursor(res.compose_input) == 0,
            res.login_error is None,
            res.login_field_email_active,
            res.feed@.len() == 0,
            res.selected_index == 0,
            res.current_post is None,
            res.current_replies@.len() == 0,
            res.feed_cursor is None,
            !res.feed_loading,
            !res.feed_load_pending,
            res.notifications@.len() == 0,
            res.unread_count == 0,
            res.cmail_conversations@.len() == 0,
            res.cmail_selected == 0,
            res.current_conversation is None,
            res.cmail_messages@.len() == 0,
            res.circ_rooms@.len() == 0,
            res.circ_selected == 0,
            res.current_room is None,
            res.circ_messages@.len() == 0,
            res.bookmarks@.len() == 0,
            res.topics@.len() == 0,
            res.topic_selected == 0,
            res.current_topic_posts@.len() == 0,
            res.current_profile is None,
            res.current_profile_posts@.len() == 0,
            res.journal_notes@.len() == 0,
            res.journal_selected == 0,
            res.current_note is None,
            res.guilds@.len() == 0,
            res.guild_selected == 0,
            res.current_guild is None,
            res.current_guild_posts@.len() == 0,
            res.input_mode == InputMode::Normal,
            res.status_message is None,
            res.error_message is None,
            !res.should_quit,
            !res.show_post_modal,
            !res.show_create_post_modal,
            res.create_post_title@.len() == 0,
            res.create_post_content@.len() == 0,
            res.create_post_focus == CreatePostFocus::Content,
            !res.show_reply_modal,
            res.reply_content@.len() == 0,
            !res.replies_loading,
            !res.reply_load_pending,
            res.feed_loading_cursor is None,
            res.feed_last_requested_cursor is None,
            res.flow is Idle,
    {
        let api = match &session.id_token {
            Some(id) => ApiClient::with_tokens(id.clone(), crate::models::copy_opt(&session.refresh_token)),
            None => ApiClient::new(),
        };
        let initial_screen = if session.is_authenticated() {
            Screen::Feed
        } else {
            Screen::Login
        };
        App {
            screen: initial_screen,
            sidebar_visible: false,
            sidebar_selected: 0,
            api,
            session,
            login_email: empty_input(),
            login_password: empty_input(),
            login_error: None,
            login_field_email_active: true,
            feed: Vec::new(),
            selected_index: 0,
            current_post: None,
            current_replies: Vec::new(),
            feed_cursor: None,
            feed_loading: false,
            feed_load_pending: false,
            notifications: Vec::new(),
            unread_count: 0,
            cmail_conversations: Vec::new(),
            cmail_selected: 0,
            current_conversation: None,
            cmail_messages: Vec::new(),
            circ_rooms: Vec::new(),
            circ_selected: 0,
            current_room: None,
            circ_messages: Vec::new(),
            bookmarks: Vec::new(),
            topics: Vec::new(),
            topic_selected: 0,
            current_topic_posts: Vec::new(),
            current_profile: None,
            current_profile_posts: Vec::new(),
            journal_notes: Vec::new(),
            journal_selected: 0,
            current_note: None,
            guilds: Vec::new(),
            guild_selected: 0,
            current_guild: None,
            current_guild_posts: Vec::new(),
            input_mode: InputMode::Normal,
            compose_input: empty_input(),
            status_message: None,
            error_message: None,
            should_quit: false,
            show_post_modal: false,
            show_create_post_modal: false,
            create_post_title: String::new(),
            create_post_content: String::new(),
            create_post_focus: CreatePostFocus::Content,
            show_reply_modal: false,
            reply_content: String::new(),
            replies_loading: false,
            reply_load_pending: false,
            feed_loading_cursor: None,
            feed_last_requested_cursor: None,
            flow: Flow::Idle,
        }
    }

    /// Shows a status message and hides the error.
    pub fn set_status(&mut self, msg: String)
        ensures
            final(self)@ == with_status(old(self)@, msg@),
    {
        self.error_message = None;
        self.status_message = Some(msg);
    }

    /// Shows an error and hides the status message.
    pub fn set_error(&mut self, msg: String)
        ensures
            final(self)@ == with_error(old(self)@, msg@),
    {
        self.error_message = Some(msg);
        self.status_message = None;
    }

    /// Shows or hides the sidebar.
    pub fn toggle_sidebar(&mut self)
        ensures
            final(self)@ == sidebar_toggled(old(self)@),
    {
        self.sidebar_visible = !self.sidebar_visible;
    }

    /// Moves the sidebar selection one entry down, holding at the last.
    pub fn move_sidebar_down(&mut self)
        ensures
            final(self)@ == sidebar_down(old(self)@),
    {
        if self.sidebar_selected >= SIDEBAR_LEN - 1 {
            self.sidebar_selected = SIDEBAR_LEN - 1;
        } else {
            self.sidebar_selected = self.sidebar_selected + 1;
        }
    }

    /// Moves the sidebar selection one entry up, holding at the first.
    pub fn move_sidebar_up(&mut self)
        ensures
            final(self)@ == sidebar_up(old(self)@),
    {
        if self.sidebar_selected > 0 {
            self.sidebar_selected = self.sidebar_selected - 1;
        }
    }

    /// Opens the screen of the selected sidebar entry and hides the sidebar.
    pub fn select_sidebar_item(&mut self)
        ensures
            final(self)@ == sidebar_select(old(self)@),
    {
        match sidebar_target(self.sidebar_selected) {
            Some(sc) => {
                self.screen = sc;
            },
            None => {},
        }
        self.sidebar_visible = false;
    }

    /// The index that the screen's selection holds.
    pub fn current_selection(&self) -> (res: usize)
        ensures
            res == selection(self@),
    {
        match self.screen {
            Screen::CmailList => self.cmail_selected,
            Screen::CircList => self.circ_selected,
            Screen::Topics => self.topic_selected,
            Screen::Journal => self.journal_selected,
            Screen::Guilds => self.guild_selected,
            _ => self.selected_index,
        }
    }

    /// Sets the index that the screen's selection holds.
    pub fn set_selection(&mut self, i: usize)
        ensures
            final(self)@ == with_selection(old(self)@, i),
    {
        match self.screen {
            Screen::CmailList => {
                self.cmail_selected = i;
            },
            Screen::CircList => {
                self.circ_selected = i;
            },
            Screen::Topics => {
                self.topic_selected = i;
            },
            Screen::Journal => {
                self.journal_selected = i;
            },
            Screen::Guilds => {
                self.guild_selected = i;
            },
            _ => {
                self.selected_index = i;
            },
        }
    }

    /// The number of entries of the list the screen shows.
    pub fn active_list_len(&self) -> (res: usize)
        ensures
            res == list_len(self@),
    {
        match self.screen {
            Screen::Feed => self.feed.len(),
            Screen::Notifications => self.notifications.len(),
            Screen::CmailList => self.cmail_conversations.len(),
            Screen::CircList => self.circ_rooms.len(),
            Screen::Bookmarks => self.bookmarks.len(),
            Screen::Topics => self.topics.len(),
            Screen::Profile => self.current_profile_posts.len(),
            Screen::Journal => self.journal_notes.len(),
            Screen::Guilds => self.guilds.len(),
            _ => 0,
        }
    }

    /// Moves the screen's selection one entry down, holding at the last.
    pub fn move_selection_down(&mut self)
        ensures
            final(self)@ == selection_down(old(self)@),
    {
        let len = self.active_list_len();
        if len == 0 {
            return;
        }
        let cur = self.current_selection();
        let next = if cur >= len - 1 {
            len - 1
        } else {
            cur + 1
        };
        self.set_selection(next);
    }

    /// Moves the screen's selection one entry up, holding at the first.
    pub fn move_selection_up(&mut self)
        ensures
            final(self)@ == selection_up(old(self)@),
    {
        let cur = self.current_selection();
        if cur > 0 {
            self.set_selection(cur - 1);
        }
    }

    /// The feed post under the selection, if any.
    pub fn selected_post(&self) -> (res: Option<&Post>)
        ensures
            match res {
                Some(p) => selected_post_of(self@) == Some(*p),
                None => selected_post_of(self@) is None,
            },
    {
        if self.selected_index < self.feed.len() {
            Some(&self.feed[self.selected_index])
        } else {
            None
        }
    }
}

} // verus!
