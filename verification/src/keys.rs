//! How the client reacts to a key: on the login screen, in the compose field,
//! in the modals, and while navigating.
use crate::api::{ApiCall, CallView};
use crate::app::{
    selected_post_of, selection_down, selection_up, sidebar_down, sidebar_select,
    sidebar_toggled, sidebar_up, with_error, with_status, App, AppView, CreatePostFocus,
    InputMode, Screen,
};
use crate::flow::{
    call, cmd_views, compose_finished, create_modal_closed, flow_view, no_cmds, one_cmd,
    replies_load, start_circ, start_cmail, start_feed, stay, AfterCirc, AfterCmail, AfterFeed,
    Command, CommandView, Flow, FlowView, KeyCode, KeyEvent, ListKind, Step, CIRC_HINT,
    EMPTY_CONTENT, MISSING_CREDENTIALS, NEW_POST, REPLY_HINT,
};
use crate::input::{apply_edit, edit_result, empty_input, input_value};
use crate::text::{pop_char, push_char, trim, trimmed};
use vstd::prelude::*;

verus! {

/// The client asked to quit.
#[verifier::opaque]
pub open spec fn quitting(s: AppView) -> AppView {
    AppView { should_quit: true, ..s }
}

/// The other login field receives typing.
#[verifier::opaque]
pub open spec fn login_field_switched(s: AppView) -> AppView {
    AppView { login_field_email_active: !s.login_field_email_active, ..s }
}

/// The active login field after the edit that the key makes, if any.
#[verifier::opaque]
pub open spec fn login_edited(s: AppView, k: KeyEvent) -> AppView {
    match k.edit {
        Some(e) => if s.login_field_email_active {
            let r = edit_result(s.login_email, s.login_email_cursor as int, e);
            AppView { login_email: r.0, login_email_cursor: r.1 as nat, ..s }
        } else {
            let r = edit_result(s.login_password, s.login_password_cursor as int, e);
            AppView { login_password: r.0, login_password_cursor: r.1 as nat, ..s }
        },
        None => s,
    }
}

/// The login form sent: both fields must hold text.
#[verifier::opaque]
pub open spec fn submit_login(s: AppView) -> Step {
    if s.login_email.len() == 0 || s.login_password.len() == 0 {
        stay(AppView { login_error: Some(MISSING_CREDENTIALS@), ..s })
    } else {
        call(
            AppView { login_error: None, ..s },
            FlowView::Login { email: s.login_email },
            CallView::Login { email: s.login_email, password: s.login_password },
        )
    }
}

/// A key on the login screen; any other key goes to the active field.
#[verifier::opaque]
pub open spec fn login_key(s: AppView, k: KeyEvent) -> Step {
    match k.code {
        KeyCode::Esc => stay(quitting(s)),
        KeyCode::Tab => stay(login_field_switched(s)),
        KeyCode::Enter => submit_login(s),
        _ => stay(login_edited(s, k)),
    }
}

/// The compose field after the edit that the key makes, if any.
#[verifier::opaque]
pub open spec fn compose_edited(s: AppView, k: KeyEvent) -> AppView {
    match k.edit {
        Some(e) => {
            let r = edit_result(s.compose_input, s.compose_cursor as int, e);
            AppView { compose_input: r.0, compose_cursor: r.1 as nat, ..s }
        },
        None => s,
    }
}

/// The compose field left without sending: its text stays.
#[verifier::opaque]
pub open spec fn compose_dismissed(s: AppView) -> AppView {
    AppView { input_mode: InputMode::Normal, ..s }
}

/// The compose text sent to the cIRC room shown.
#[verifier::opaque]
pub open spec fn send_to_room(s: AppView, txt: Seq<char>) -> Step {
    match s.current_room {
        Some(r) => call(
            s,
            FlowView::ComposeCirc { rid: r.id@ },
            CallView::CircSend { rid: r.id@, content: txt },
        ),
        None => stay(compose_finished(s)),
    }
}

/// The compose text sent to the c-Mail conversation shown.
#[verifier::opaque]
pub open spec fn send_to_conversation(s: AppView, txt: Seq<char>) -> Step {
    match s.current_conversation {
        Some(c) => call(
            s,
            FlowView::ComposeCmail { cid: c.conversation_id@ },
            CallView::CmailSend { cid: c.conversation_id@, content: txt },
        ),
        None => stay(compose_finished(s)),
    }
}

/// The compose text sent where the screen sends it: a post from the feed, a
/// message in a cIRC room or a c-Mail conversation.
#[verifier::opaque]
pub open spec fn send_compose(s: AppView, txt: Seq<char>) -> Step {
    if s.screen == Screen::Feed {
        call(s, FlowView::ComposePost, CallView::CreatePost { content: txt, title: None })
    } else if s.screen == Screen::CircRoom {
        send_to_room(s, txt)
    } else if s.screen == Screen::CmailConversation {
        send_to_conversation(s, txt)
    } else {
        stay(compose_finished(s))
    }
}

/// The compose field sent: blank text only closes it.
#[verifier::opaque]
pub open spec fn submit_compose(s: AppView) -> Step {
    if trim(s.compose_input).len() == 0 {
        stay(compose_dismissed(s))
    } else {
        send_compose(s, s.compose_input)
    }
}

/// A key while the compose field is open.
#[verifier::opaque]
pub open spec fn compose_key(s: AppView, k: KeyEvent) -> Step {
    match k.code {
        KeyCode::Esc => stay(compose_finished(s)),
        KeyCode::Enter => submit_compose(s),
        _ => stay(compose_edited(s, k)),
    }
}

/// The post modal closed.
#[verifier::opaque]
pub open spec fn post_modal_closed(s: AppView) -> AppView {
    AppView { show_post_modal: false, ..s }
}

/// The reply modal opened, empty.
#[verifier::opaque]
pub open spec fn reply_modal_opened(s: AppView) -> AppView {
    with_status(AppView { show_reply_modal: true, reply_content: Seq::empty(), ..s }, REPLY_HINT@)
}

/// A key while a post is open.
#[verifier::opaque]
pub open spec fn post_modal_key(s: AppView, k: KeyEvent) -> Step {
    if k.code == KeyCode::Esc {
        stay(post_modal_closed(s))
    } else if k.code == KeyCode::Char('r') {
        stay(reply_modal_opened(s))
    } else {
        stay(s)
    }
}

/// The other field of the new-post modal receives typing.
#[verifier::opaque]
pub open spec fn create_focus_switched(s: AppView) -> AppView {
    AppView {
        create_post_focus: if s.create_post_focus == CreatePostFocus::Title {
            CreatePostFocus::Content
        } else {
            CreatePostFocus::Title
        },
        ..s
    }
}

/// A text without its last character, if it has one.
pub open spec fn backspaced(t: Seq<char>) -> Seq<char> {
    if t.len() > 0 {
        t.drop_last()
    } else {
        t
    }
}

/// The focused field of the new-post modal loses its last character.
#[verifier::opaque]
pub open spec fn create_backspace(s: AppView) -> AppView {
    AppView {
        create_post_title: if s.create_post_focus == CreatePostFocus::Title {
            backspaced(s.create_post_title)
        } else {
            s.create_post_title
        },
        create_post_content: if s.create_post_focus == CreatePostFocus::Content {
            backspaced(s.create_post_content)
        } else {
            s.create_post_content
        },
        ..s
    }
}

/// A character typed into the focused field of the new-post modal.
#[verifier::opaque]
pub open spec fn create_typed(s: AppView, c: char) -> AppView {
    AppView {
        create_post_title: if s.create_post_focus == CreatePostFocus::Title {
            s.create_post_title.push(c)
        } else {
            s.create_post_title
        },
        create_post_content: if s.create_post_focus == CreatePostFocus::Content {
            s.create_post_content.push(c)
        } else {
            s.create_post_content
        },
        ..s
    }
}

/// The title a post is published with: none when it is blank.
pub open spec fn post_title(title: Seq<char>) -> Option<Seq<char>> {
    if trim(title).len() == 0 {
        None
    } else {
        Some(trim(title))
    }
}

/// The new-post modal published: its trimmed content must not be empty.
#[verifier::opaque]
pub open spec fn publish_modal(s: AppView) -> Step {
    if trim(s.create_post_content).len() == 0 {
        stay(with_error(s, EMPTY_CONTENT@))
    } else {
        call(
            s,
            FlowView::ModalPost,
            CallView::CreatePost {
                content: trim(s.create_post_content),
                title: post_title(s.create_post_title),
            },
        )
    }
}

/// A key while the new-post modal is open.
#[verifier::opaque]
pub open spec fn create_modal_key(s: AppView, k: KeyEvent) -> Step {
    match k.code {
        KeyCode::Esc => stay(create_modal_closed(s)),
        KeyCode::Tab => stay(create_focus_switched(s)),
        KeyCode::Backspace => stay(create_backspace(s)),
        KeyCode::Char(c) => if c == 's' && k.ctrl {
            publish_modal(s)
        } else {
            stay(create_typed(s, c))
        },
        _ => stay(s),
    }
}

/// The reply modal closed and emptied.
#[verifier::opaque]
pub open spec fn reply_modal_closed(s: AppView) -> AppView {
    AppView { show_reply_modal: false, reply_content: Seq::empty(), ..s }
}

/// A character typed into the reply.
#[verifier::opaque]
pub open spec fn reply_typed(s: AppView, c: char) -> AppView {
    AppView { reply_content: s.reply_content.push(c), ..s }
}

/// The reply loses its last character.
#[verifier::opaque]
pub open spec fn reply_backspace(s: AppView) -> AppView {
    AppView { reply_content: backspaced(s.reply_content), ..s }
}

/// The reply sent: its trimmed text must not be empty and a post must be
/// open.
#[verifier::opaque]
pub open spec fn submit_reply(s: AppView) -> Step {
    if trim(s.reply_content).len() == 0 {
        stay(s)
    } else {
        match s.current_post {
            None => stay(s),
            Some(p) => call(
                s,
                FlowView::Reply { post_id: p.post_id@ },
                CallView::CreateReply { post_id: p.post_id@, content: trim(s.reply_content) },
            ),
        }
    }
}

/// Whether a key sends the reply: Enter, or Ctrl+s.
pub open spec fn sends_reply(k: KeyEvent) -> bool {
    k.code == KeyCode::Enter || (k.code == KeyCode::Char('s') && k.ctrl)
}

/// A key while the reply modal is open.
#[verifier::opaque]
pub open spec fn reply_modal_key(s: AppView, k: KeyEvent) -> Step {
    if k.code == KeyCode::Esc {
        stay(reply_modal_closed(s))
    } else if sends_reply(k) {
        submit_reply(s)
    } else {
        match k.code {
            KeyCode::Char(c) => stay(reply_typed(s, c)),
            KeyCode::Backspace => stay(reply_backspace(s)),
            _ => stay(s),
        }
    }
}

/// The next feed page loaded in the background, unless one is loading, there
/// is no cursor, or its page was the last one asked for.
#[verifier::opaque]
pub open spec fn next_page(s: AppView) -> Step {
    if s.feed_loading {
        stay(s)
    } else {
        match s.feed_cursor {
            None => stay(s),
            Some(c) => if s.feed_last_requested_cursor == Some(c) {
                stay(s)
            } else {
                Step {
                    app: AppView {
                        feed_loading: true,
                        feed_last_requested_cursor: Some(c),
                        feed_load_pending: true,
                        ..s
                    },
                    cmds: seq![CommandView::LoadFeedPage { cursor: c }],
                }
            },
        }
    }
}

/// Whether the feed selection is within three posts of the end with more
/// posts to load.
pub open spec fn near_feed_end(s: AppView) -> bool {
    s.screen == Screen::Feed && s.selected_index + 3 >= s.feed.len() && !s.feed_loading
        && s.feed_cursor is Some
}

/// The selection moved down; near the end of the feed the next page is
/// loaded.
#[verifier::opaque]
pub open spec fn selection_down_step(s: AppView) -> Step {
    let s1 = selection_down(s);
    if near_feed_end(s1) {
        next_page(s1)
    } else {
        stay(s1)
    }
}

/// Down (or j): the sidebar or the selection moves down.
#[verifier::opaque]
pub open spec fn down_key(s: AppView) -> Step {
    if s.sidebar_visible {
        stay(sidebar_down(s))
    } else {
        selection_down_step(s)
    }
}

/// Up (or k): the sidebar or the selection moves up.
#[verifier::opaque]
pub open spec fn up_key(s: AppView) -> Step {
    if s.sidebar_visible {
        stay(sidebar_up(s))
    } else {
        stay(selection_up(s))
    }
}

/// The new-post modal opened, empty.
#[verifier::opaque]
pub open spec fn create_modal_opened(s: AppView) -> AppView {
    with_status(
        AppView {
            show_create_post_modal: true,
            create_post_title: Seq::empty(),
            create_post_content: Seq::empty(),
            create_post_focus: CreatePostFocus::Content,
            ..s
        },
        NEW_POST@,
    )
}

/// The compose field opened, empty.
#[verifier::opaque]
pub open spec fn compose_opened(s: AppView) -> AppView {
    with_status(
        AppView { input_mode: InputMode::Compose, compose_input: Seq::empty(), compose_cursor: 0, ..s },
        CIRC_HINT@,
    )
}

/// The selected feed post watched.
#[verifier::opaque]
pub open spec fn watch_selected(s: AppView) -> Step {
    match selected_post_of(s) {
        Some(p) => call(s, FlowView::Watch, CallView::Watch { post_id: p.post_id@ }),
        None => stay(s),
    }
}

/// The selected feed post bookmarked.
#[verifier::opaque]
pub open spec fn bookmark_selected(s: AppView) -> Step {
    match selected_post_of(s) {
        Some(p) => call(s, FlowView::Bookmark, CallView::AddBookmarkPost { post_id: p.post_id@ }),
        None => stay(s),
    }
}

/// A character key while navigating.
#[verifier::opaque]
pub open spec fn char_key(s: AppView, c: char) -> Step {
    if c == 'q' {
        stay(quitting(s))
    } else if c == 's' {
        stay(sidebar_toggled(s))
    } else if c == 'j' {
        down_key(s)
    } else if c == 'k' {
        up_key(s)
    } else if c == 'c' && s.screen == Screen::Feed {
        stay(create_modal_opened(s))
    } else if c == 'i' && s.screen == Screen::CircRoom {
        stay(compose_opened(s))
    } else if c == 'w' && s.screen == Screen::Feed {
        watch_selected(s)
    } else if c == 'x' && s.screen == Screen::Feed {
        bookmark_selected(s)
    } else {
        stay(s)
    }
}

/// The loading of the screen that the sidebar opened.
#[verifier::opaque]
pub open spec fn open_screen(s: AppView) -> Step {
    match s.screen {
        Screen::Feed => start_feed(s, AfterFeed::Nothing),
        Screen::Notifications => call(s, FlowView::Notifications, CallView::GetNotifications),
        Screen::CmailList => call(s, FlowView::List(ListKind::CmailList), CallView::CmailList),
        Screen::CircList => call(s, FlowView::List(ListKind::CircList), CallView::CircRooms),
        Screen::Bookmarks => call(s, FlowView::List(ListKind::Bookmarks), CallView::GetBookmarks),
        Screen::Topics => call(s, FlowView::List(ListKind::Topics), CallView::GetTopics),
        Screen::Profile => call(s, FlowView::Profile, CallView::GetMe),
        Screen::Journal => call(s, FlowView::List(ListKind::Journal), CallView::GetNotes),
        Screen::Guilds => call(s, FlowView::List(ListKind::Guilds), CallView::GetGuilds),
        Screen::Jukebox => start_feed(s, AfterFeed::Nothing),
        _ => stay(s),
    }
}

/// The selected feed post opened, its replies loading.
#[verifier::opaque]
pub open spec fn open_post(s: AppView) -> Step {
    match selected_post_of(s) {
        Some(p) => replies_load(
            AppView {
                current_post: Some(p),
                current_replies: Seq::empty(),
                replies_loading: true,
                show_post_modal: true,
                ..s
            },
            p.post_id@,
        ),
        None => stay(s),
    }
}

/// The selected c-Mail conversation opened, its messages loading.
#[verifier::opaque]
pub open spec fn open_conversation(s: AppView) -> Step {
    if s.cmail_selected < s.cmail_conversations.len() {
        let c = s.cmail_conversations[s.cmail_selected as int];
        start_cmail(
            AppView { current_conversation: Some(c), ..s },
            c.conversation_id@,
            AfterCmail::ShowConversation,
        )
    } else {
        stay(s)
    }
}

/// The selected cIRC room opened, its messages loading.
#[verifier::opaque]
pub open spec fn open_room(s: AppView) -> Step {
    if s.circ_selected < s.circ_rooms.len() {
        let r = s.circ_rooms[s.circ_selected as int];
        start_circ(AppView { current_room: Some(r), ..s }, r.id@, AfterCirc::ShowRoom)
    } else {
        stay(s)
    }
}

/// The posts of the selected topic loading.
#[verifier::opaque]
pub open spec fn open_topic(s: AppView) -> Step {
    if s.topic_selected < s.topics.len() {
        let t = s.topics[s.topic_selected as int];
        call(
            s,
            FlowView::List(ListKind::TopicPosts),
            CallView::GetTopicPosts { slug: t.slug@ },
        )
    } else {
        stay(s)
    }
}

/// The selected guild opened, its posts loading.
#[verifier::opaque]
pub open spec fn open_guild(s: AppView) -> Step {
    if s.guild_selected < s.guilds.len() {
        let g = s.guilds[s.guild_selected as int];
        call(
            AppView { current_guild: Some(g), ..s },
            FlowView::List(ListKind::GuildPosts),
            CallView::GetGuildPosts { slug: g.slug@ },
        )
    } else {
        stay(s)
    }
}

/// The selected journal note shown.
#[verifier::opaque]
pub open spec fn open_note(s: AppView) -> Step {
    if s.journal_selected < s.journal_notes.len() {
        stay(
            AppView {
                current_note: Some(s.journal_notes[s.journal_selected as int]),
                screen: Screen::JournalNote,
                ..s
            },
        )
    } else {
        stay(s)
    }
}

/// Enter on the selected entry of the screen's list.
#[verifier::opaque]
pub open spec fn open_item(s: AppView) -> Step {
    match s.screen {
        Screen::Feed => open_post(s),
        Screen::CmailList => open_conversation(s),
        Screen::CircList => open_room(s),
        Screen::Topics => open_topic(s),
        Screen::Guilds => open_guild(s),
        Screen::Journal => open_note(s),
        _ => stay(s),
    }
}

/// Enter while navigating: the sidebar entry or the list entry opens.
#[verifier::opaque]
pub open spec fn enter_key(s: AppView) -> Step {
    if s.sidebar_visible {
        open_screen(sidebar_select(s))
    } else {
        open_item(s)
    }
}

/// The screen that Esc goes back to.
pub open spec fn back_screen(sc: Screen) -> Screen {
    match sc {
        Screen::Profile | Screen::TopicPosts | Screen::JournalNote | Screen::GuildDetail =>
            Screen::Feed,
        Screen::CmailConversation => Screen::CmailList,
        Screen::CircRoom => Screen::CircList,
        _ => sc,
    }
}

/// Esc while navigating: the sidebar or the post closes, or the screen goes
/// back.
#[verifier::opaque]
pub open spec fn escape_key(s: AppView) -> Step {
    if s.sidebar_visible {
        stay(AppView { sidebar_visible: false, ..s })
    } else if s.show_post_modal {
        stay(post_modal_closed(s))
    } else {
        stay(AppView { screen: back_screen(s.screen), ..s })
    }
}

/// A key while navigating with no modal open.
#[verifier::opaque]
pub open spec fn plain_key(s: AppView, k: KeyEvent) -> Step {
    match k.code {
        KeyCode::Char(c) => char_key(s, c),
        KeyCode::Down => down_key(s),
        KeyCode::Up => up_key(s),
        KeyCode::Enter => enter_key(s),
        KeyCode::Esc => escape_key(s),
        _ => stay(s),
    }
}

/// A key away from the login screen and the compose field: an open modal
/// takes it first.
#[verifier::opaque]
pub open spec fn main_key(s: AppView, k: KeyEvent) -> Step {
    if s.show_create_post_modal {
        create_modal_key(s, k)
    } else if s.show_reply_modal {
        reply_modal_key(s, k)
    } else if s.show_post_modal {
        post_modal_key(s, k)
    } else {
        plain_key(s, k)
    }
}

/// A key event; only presses count. On the login screen and in the compose
/// field an editing key goes to the field.
#[verifier::opaque]
pub open spec fn key_step(s: AppView, k: KeyEvent) -> Step {
    if !k.press {
        stay(s)
    } else if s.screen == Screen::Login {
        login_key(s, k)
    } else if s.input_mode == InputMode::Compose {
        compose_key(s, k)
    } else {
        main_key(s, k)
    }
}

impl App {
    fn quit(&mut self)
        ensures
            final(self)@ == quitting(old(self)@),
    {
        proof {
            reveal(quitting);
        }
        self.should_quit = true;
    }

    fn switch_login_field(&mut self)
        ensures
            final(self)@ == login_field_switched(old(self)@),
    {
        proof {
            reveal(login_field_switched);
        }
        self.login_field_email_active = !self.login_field_email_active;
    }

    fn edit_login_field(&mut self, key: KeyEvent)
        ensures
            final(self)@ == login_edited(old(self)@, key),
    {
        proof {
            reveal(login_edited);
        }
        match key.edit {
            Some(e) => {
                if self.login_field_email_active {
                    apply_edit(&mut self.login_email, e);
                } else {
                    apply_edit(&mut self.login_password, e);
                }
            },
            None => {},
        }
    }

    fn submit_login(&mut self) -> (cmds: Vec<Command>)
        ensures
            final(self)@ == submit_login(old(self)@).app,
            cmd_views(cmds@) == submit_login(old(self)@).cmds,
    {
        proof {
            reveal(submit_login);
            reveal(flow_view);
        }
        let email = input_value(&self.login_email);
        let password = input_value(&self.login_password);
        if email.as_str().is_empty() || password.as_str().is_empty() {
            self.login_error = Some(String::from_str(MISSING_CREDENTIALS));
            return no_cmds();
        }
        self.login_error = None;
        let e = email.clone();
        self.begin(Flow::Login { email: e }, ApiCall::Login { email, password })
    }

    fn handle_login(&mut self, key: KeyEvent) -> (cmds: Vec<Command>)
        ensures
            final(self)@ == login_key(old(self)@, key).app,
            cmd_views(cmds@) == login_key(old(self)@, key).cmds,
    {
        proof {
            reveal(login_key);
        }
        match key.code {
            KeyCode::Esc => {
                self.quit();
                no_cmds()
            },
            KeyCode::Tab => {
                self.switch_login_field();
                no_cmds()
            },
            KeyCode::Enter => self.submit_login(),
            _ => {
                self.edit_login_field(key);
                no_cmds()
            },
        }
    }

    fn edit_compose_field(&mut self, key: KeyEvent)
        ensures
            final(self)@ == compose_edited(old(self)@, key),
    {
        proof {
            reveal(compose_edited);
        }
        match key.edit {
            Some(e) => apply_edit(&mut self.compose_input, e),
            None => {},
        }
    }

    fn dismiss_compose(&mut self)
        ensures
            final(self)@ == compose_dismissed(old(self)@),
    {
        proof {
            reveal(compose_dismissed);
        }
        self.input_mode = InputMode::Normal;
    }

    fn send_to_room(&mut self, txt: String) -> (cmds: Vec<Command>)
        ensures
            final(self)@ == send_to_room(old(self)@, txt@).app,
            cmd_views(cmds@) == send_to_room(old(self)@, txt@).cmds,
    {
        proof {
            reveal(send_to_room);
            reveal(flow_view);
        }
        match &self.current_room {
            Some(r) => {
                let rid = r.id.clone();
                let rid2 = r.id.clone();
                self.begin(Flow::ComposeCirc { rid }, ApiCall::CircSend { rid: rid2, content: txt })
            },
            None => {
                self.finish_compose();
                no_cmds()
            },
        }
    }

    fn send_to_conversation(&mut self, txt: String) -> (cmds: Vec<Command>)
        ensures
            final(self)@ == send_to_conversation(old(self)@, txt@).app,
            cmd_views(cmds@) == send_to_conversation(old(self)@, txt@).cmds,
    {
        proof {
            reveal(send_to_conversation);
            reveal(flow_view);
        }
        match &self.current_conversation {
            Some(c) => {
                let cid = c.conversation_id.clone();
                let cid2 = c.conversation_id.clone();
                self.begin(
                    Flow::ComposeCmail { cid },
                    ApiCall::CmailSend { cid: cid2, content: txt },
                )
            },
            None => {
                self.finish_compose();
                no_cmds()
            },
        }
    }

    fn send_compose(&mut self, txt: String) -> (cmds: Vec<Command>)
        ensures
            final(self)@ == send_compose(old(self)@, txt@).app,
            cmd_views(cmds@) == send_compose(old(self)@, txt@).cmds,
    {
        proof {
            reveal(send_compose);
            reveal(flow_view);
        }
        if self.screen == Screen::Feed {
            self.begin(Flow::ComposePost, ApiCall::CreatePost { content: txt, title: None })
        } else if self.screen == Screen::CircRoom {
            self.send_to_room(txt)
        } else if self.screen == Screen::CmailConversation {
            self.send_to_conversation(txt)
        } else {
            self.finish_compose();
            no_cmds()
        }
    }

    fn submit_compose(&mut self) -> (cmds: Vec<Command>)
        ensures
            final(self)@ == submit_compose(old(self)@).app,
            cmd_views(cmds@) == submit_compose(old(self)@).cmds,
    {
        proof {
            reveal(submit_compose);
        }
        let txt = input_value(&self.compose_input);
        let t = trimmed(txt.as_str());
        if t.as_str().is_empty() {
            self.dismiss_compose();
            no_cmds()
        } else {
            self.send_compose(txt)
        }
    }

    fn handle_compose(&mut self, key: KeyEvent) -> (cmds: Vec<Command>)
        ensures
            final(self)@ == compose_key(old(self)@, key).app,
            cmd_views(cmds@) == compose_key(old(self)@, key).cmds,
    {
        proof {
            reveal(compose_key);
        }
        match key.code {
            KeyCode::Esc => {
                self.finish_compose();
                no_cmds()
            },
            KeyCode::Enter => self.submit_compose(),
            _ => {
                self.edit_compose_field(key);
                no_cmds()
            },
        }
    }

    fn close_post_modal(&mut self)
        ensures
            final(self)@ == post_modal_closed(old(self)@),
    {
        proof {
            reveal(post_modal_closed);
        }
        self.show_post_modal = false;
    }

    fn open_reply_modal(&mut self)
        ensures
            final(self)@ == reply_modal_opened(old(self)@),
    {
        proof {
            reveal(reply_modal_opened);
        }
        self.show_reply_modal = true;
        self.reply_content = String::new();
        self.set_status(String::from_str(REPLY_HINT));
    }

    fn handle_post_modal(&mut self, key: KeyEvent) -> (cmds: Vec<Command>)
        ensures
            final(self)@ == post_modal_key(old(self)@, key).app,
            cmd_views(cmds@) == post_modal_key(old(self)@, key).cmds,
    {
        proof {
            reveal(post_modal_key);
        }
        if key.code == KeyCode::Esc {
            self.close_post_modal();
        } else if key.code == KeyCode::Char('r') {
            self.open_reply_modal();
        }
        no_cmds()
    }

    fn switch_create_focus(&mut self)
        ensures
            final(self)@ == create_focus_switched(old(self)@),
    {
        proof {
            reveal(create_focus_switched);
        }
        self.create_post_focus = match self.create_post_focus {
            CreatePostFocus::Title => CreatePostFocus::Content,
            CreatePostFocus::Content => CreatePostFocus::Title,
        };
    }

    fn backspace_create(&mut self)
        ensures
            final(self)@ == create_backspace(old(self)@),
    {
        proof {
            reveal(create_backspace);
        }
        match self.create_post_focus {
            CreatePostFocus::Title => {
                let _ = pop_char(&mut self.create_post_title);
            },
            CreatePostFocus::Content => {
                let _ = pop_char(&mut self.create_post_content);
            },
        }
    }

    fn type_create(&mut self, c: char)
        ensures
            final(self)@ == create_typed(old(self)@, c),
    {
        proof {
            reveal(create_typed);
        }
        match self.create_post_focus {
            CreatePostFocus::Title => push_char(&mut self.create_post_title, c),
            CreatePostFocus::Content => push_char(&mut self.create_post_content, c),
        }
    }

    fn publish_modal(&mut self) -> (cmds: Vec<Command>)
        ensures
            final(self)@ == publish_modal(old(self)@).app,
            cmd_views(cmds@) == publish_modal(old(self)@).cmds,
    {
        proof {
            reveal(publish_modal);
            reveal(flow_view);
        }
        let content = trimmed(self.create_post_content.as_str());
        if content.as_str().is_empty() {
            self.set_error(String::from_str(EMPTY_CONTENT));
            return no_cmds();
        }
        let title_value = trimmed(self.create_post_title.as_str());
        let title = if title_value.as_str().is_empty() {
            None
        } else {
            Some(title_value)
        };
        self.begin(Flow::ModalPost, ApiCall::CreatePost { content, title })
    }

    fn handle_create_post_modal(&mut self, key: KeyEvent) -> (cmds: Vec<Command>)
        ensures
            final(self)@ == create_modal_key(old(self)@, key).app,
            cmd_views(cmds@) == create_modal_key(old(self)@, key).cmds,
    {
        proof {
            reveal(create_modal_key);
        }
        match key.code {
            KeyCode::Esc => {
                self.close_create_modal();
                no_cmds()
            },
            KeyCode::Tab => {
                self.switch_create_focus();
                no_cmds()
            },
            KeyCode::Backspace => {
                self.backspace_create();
                no_cmds()
            },
            KeyCode::Char(c) => {
                if c == 's' && key.ctrl {
                    self.publish_modal()
                } else {
                    self.type_create(c);
                    no_cmds()
                }
            },
            _ => no_cmds(),
        }
    }

    fn close_reply_modal(&mut self)
        ensures
            final(self)@ == reply_modal_closed(old(self)@),
    {
        proof {
            reveal(reply_modal_closed);
        }
        self.show_reply_modal = false;
        self.reply_content = String::new();
    }

    fn type_reply(&mut self, c: char)
        ensures
            final(self)@ == reply_typed(old(self)@, c),
    {
        proof {
            reveal(reply_typed);
        }
        push_char(&mut self.reply_content, c);
    }

    fn backspace_reply(&mut self)
        ensures
            final(self)@ == reply_backspace(old(self)@),
    {
        proof {
            reveal(reply_backspace);
        }
        let _ = pop_char(&mut self.reply_content);
    }

    fn submit_reply(&mut self) -> (cmds: Vec<Command>)
        ensures
            final(self)@ == submit_reply(old(self)@).app,
            cmd_views(cmds@) == submit_reply(old(self)@).cmds,
    {
        proof {
            reveal(submit_reply);
            reveal(flow_view);
        }
        let content = trimmed(self.reply_content.as_str());
        if content.as_str().is_empty() {
            return no_cmds();
        }
        match &self.current_post {
            None => no_cmds(),
            Some(p) => {
                let pid = p.post_id.clone();
                let pid2 = p.post_id.clone();
                self.begin(Flow::Reply { post_id: pid }, ApiCall::CreateReply { post_id: pid2, content })
            },
        }
    }

    fn handle_reply_modal(&mut self, key: KeyEvent) -> (cmds: Vec<Command>)
        ensures
            final(self)@ == reply_modal_key(old(self)@, key).app,
            cmd_views(cmds@) == reply_modal_key(old(self)@, key).cmds,
    {
        proof {
            reveal(reply_modal_key);
        }
        if key.code == KeyCode::Esc {
            self.close_reply_modal();
            return no_cmds();
        }
        let submit = key.code == KeyCode::Enter || (key.code == KeyCode::Char('s') && key.ctrl);
        if submit {
            return self.submit_reply();
        }
        match key.code {
            KeyCode::Char(c) => self.type_reply(c),
            KeyCode::Backspace => self.backspace_reply(),
            _ => {},
        }
        no_cmds()
    }

    /// Starts loading the next feed page in the background, unless one is
    /// loading, there is no cursor, or its page was the last one asked for.
    pub fn start_next_feed_page_load(&mut self) -> (cmds: Vec<Command>)
        ensures
            final(self)@ == next_page(old(self)@).app,
            cmd_views(cmds@) == next_page(old(self)@).cmds,
    {
        proof {
            reveal(next_page);
        }
        if self.feed_loading {
            return no_cmds();
        }
        let cursor = crate::models::copy_opt(&self.feed_cursor);
        match cursor {
            None => no_cmds(),
            Some(c) => {
                let same = match &self.feed_last_requested_cursor {
                    Some(l) => *l == c,
                    None => false,
                };
                if same {
                    no_cmds()
                } else {
                    let c2 = c.clone();
                    self.feed_loading = true;
                    self.feed_last_requested_cursor = Some(c2);
                    self.feed_load_pending = true;
                    one_cmd(Command::LoadFeedPage { cursor: c })
                }
            },
        }
    }

    fn selection_down_step(&mut self) -> (cmds: Vec<Command>)
        ensures
            final(self)@ == selection_down_step(old(self)@).app,
            cmd_views(cmds@) == selection_down_step(old(self)@).cmds,
    {
        proof {
            reveal(selection_down_step);
        }
        self.move_selection_down();
        let n = self.feed.len();
        let near = self.screen == Screen::Feed && (n <= 3 || self.selected_index >= n - 3)
            && !self.feed_loading && self.feed_cursor.is_some();
        if near {
            self.start_next_feed_page_load()
        } else {
            no_cmds()
        }
    }

    fn down_key(&mut self) -> (cmds: Vec<Command>)
        ensures
            final(self)@ == down_key(old(self)@).app,
            cmd_views(cmds@) == down_key(old(self)@).cmds,
    {
        proof {
            reveal(down_key);
        }
        if self.sidebar_visible {
            self.move_sidebar_down();
            no_cmds()
        } else {
            self.selection_down_step()
        }
    }

    fn up_key(&mut self) -> (cmds: Vec<Command>)
        ensures
            final(self)@ == up_key(old(self)@).app,
            cmd_views(cmds@) == up_key(old(self)@).cmds,
    {
        proof {
            reveal(up_key);
        }
        if self.sidebar_visible {
            self.move_sidebar_up();
        } else {
            self.move_selection_up();
        }
        no_cmds()
    }

    fn open_create_modal(&mut self)
        ensures
            final(self)@ == create_modal_opened(old(self)@),
    {
        proof {
            reveal(create_modal_opened);
        }
        self.show_create_post_modal = true;
        self.create_post_title = String::new();
        self.create_post_content = String::new();
        self.create_post_focus = CreatePostFocus::Content;
        self.set_status(String::from_str(NEW_POST));
    }

    fn open_compose(&mut self)
        ensures
            final(self)@ == compose_opened(old(self)@),
    {
        proof {
            reveal(compose_opened);
        }
        self.input_mode = InputMode::Compose;
        self.compose_input = empty_input();
        self.set_status(String::from_str(CIRC_HINT));
    }

    fn watch_selected(&mut self) -> (cmds: Vec<Command>)
        ensures
            final(self)@ == watch_selected(old(self)@).app,
            cmd_views(cmds@) == watch_selected(old(self)@).cmds,
    {
        proof {
            reveal(watch_selected);
            reveal(flow_view);
        }
        match self.selected_post() {
            Some(p) => {
                let pid = p.post_id.clone();
                self.begin(Flow::Watch, ApiCall::Watch { post_id: pid })
            },
            None => no_cmds(),
        }
    }

    fn bookmark_selected(&mut self) -> (cmds: Vec<Command>)
        ensures
            final(self)@ == bookmark_selected(old(self)@).app,
            cmd_views(cmds@) == bookmark_selected(old(self)@).cmds,
    {
        proof {
            reveal(bookmark_selected);
            reveal(flow_view);
        }
        match self.selected_post() {
            Some(p) => {
                let pid = p.post_id.clone();
                self.begin(Flow::Bookmark, ApiCall::AddBookmarkPost { post_id: pid })
            },
            None => no_cmds(),
        }
    }

    fn char_key(&mut self, c: char) -> (cmds: Vec<Command>)
        ensures
            final(self)@ == char_key(old(self)@, c).app,
            cmd_views(cmds@) == char_key(old(self)@, c).cmds,
    {
        proof {
            reveal(char_key);
        }
        if c == 'q' {
            self.quit();
            no_cmds()
        } else if c == 's' {
            self.toggle_sidebar();
            no_cmds()
        } else if c == 'j' {
            self.down_key()
        } else if c == 'k' {
            self.up_key()
        } else if c == 'c' && self.screen == Screen::Feed {
            self.open_create_modal();
            no_cmds()
        } else if c == 'i' && self.screen == Screen::CircRoom {
            self.open_compose();
            no_cmds()
        } else if c == 'w' && self.screen == Screen::Feed {
            self.watch_selected()
        } else if c == 'x' && self.screen == Screen::Feed {
            self.bookmark_selected()
        } else {
            no_cmds()
        }
    }

    fn open_list(&mut self, kind: ListKind, c: ApiCall) -> (cmds: Vec<Command>)
        ensures
            final(self)@ == call(old(self)@, FlowView::List(kind), c@).app,
            cmd_views(cmds@) == call(old(self)@, FlowView::List(kind), c@).cmds,
    {
        proof {
            reveal(flow_view);
        }
        self.begin(Flow::List(kind), c)
    }

    fn open_screen(&mut self) -> (cmds: Vec<Command>)
        ensures
            final(self)@ == open_screen(old(self)@).app,
            cmd_views(cmds@) == open_screen(old(self)@).cmds,
    {
        proof {
            reveal(open_screen);
            reveal(flow_view);
        }
        match self.screen {
            Screen::Feed => self.start_feed(AfterFeed::Nothing),
            Screen::Notifications => self.begin(Flow::Notifications, ApiCall::GetNotifications),
            Screen::CmailList => self.open_list(ListKind::CmailList, ApiCall::CmailList),
            Screen::CircList => self.open_list(ListKind::CircList, ApiCall::CircRooms),
            Screen::Bookmarks => self.open_list(ListKind::Bookmarks, ApiCall::GetBookmarks),
            Screen::Topics => self.open_list(ListKind::Topics, ApiCall::GetTopics),
            Screen::Profile => self.begin(Flow::Profile, ApiCall::GetMe),
            Screen::Journal => self.open_list(ListKind::Journal, ApiCall::GetNotes),
            Screen::Guilds => self.open_list(ListKind::Guilds, ApiCall::GetGuilds),
            Screen::Jukebox => self.start_feed(AfterFeed::Nothing),
            _ => no_cmds(),
        }
    }

    fn open_post(&mut self) -> (cmds: Vec<Command>)
        ensures
            final(self)@ == open_post(old(self)@).app,
            cmd_views(cmds@) == open_post(old(self)@).cmds,
    {
        proof {
            reveal(open_post);
        }
        match self.selected_post() {
            Some(p) => {
                let post = p.duplicate();
                let pid = post.post_id.clone();
                self.current_post = Some(post);
                self.current_replies = Vec::new();
                self.replies_loading = true;
                self.show_post_modal = true;
                self.start_replies_load(pid)
            },
            None => no_cmds(),
        }
    }

    fn open_conversation(&mut self) -> (cmds: Vec<Command>)
        ensures
            final(self)@ == open_conversation(old(self)@).app,
            cmd_views(cmds@) == open_conversation(old(self)@).cmds,
    {
        proof {
            reveal(open_conversation);
        }
        if self.cmail_selected < self.cmail_conversations.len() {
            let c = self.cmail_conversations[self.cmail_selected].duplicate();
            let cid = c.conversation_id.clone();
            self.current_conversation = Some(c);
            self.start_cmail(cid, AfterCmail::ShowConversation)
        } else {
            no_cmds()
        }
    }

    fn open_room(&mut self) -> (cmds: Vec<Command>)
        ensures
            final(self)@ == open_room(old(self)@).app,
            cmd_views(cmds@) == open_room(old(self)@).cmds,
    {
        proof {
            reveal(open_room);
        }
        if self.circ_selected < self.circ_rooms.len() {
            let r = self.circ_rooms[self.circ_selected].duplicate();
            let rid = r.id.clone();
            self.current_room = Some(r);
            self.start_circ(rid, AfterCirc::ShowRoom)
        } else {
            no_cmds()
        }
    }

    fn open_topic(&mut self) -> (cmds: Vec<Command>)
        ensures
            final(self)@ == open_topic(old(self)@).app,
            cmd_views(cmds@) == open_topic(old(self)@).cmds,
    {
        proof {
            reveal(open_topic);
        }
        if self.topic_selected < self.topics.len() {
            let slug = self.topics[self.topic_selected].slug.clone();
            self.open_list(ListKind::TopicPosts, ApiCall::GetTopicPosts { slug })
        } else {
            no_cmds()
        }
    }

    fn open_guild(&mut self) -> (cmds: Vec<Command>)
        ensures
            final(self)@ == open_guild(old(self)@).app,
            cmd_views(cmds@) == open_guild(old(self)@).cmds,
    {
        proof {
            reveal(open_guild);
        }
        if self.guild_selected < self.guilds.len() {
            let g = self.guilds[self.guild_selected].duplicate();
            let slug = g.slug.clone();
            self.current_guild = Some(g);
            self.open_list(ListKind::GuildPosts, ApiCall::GetGuildPosts { slug })
        } else {
            no_cmds()
        }
    }

    fn open_note(&mut self) -> (cmds: Vec<Command>)
        ensures
            final(self)@ == open_note(old(self)@).app,
            cmd_views(cmds@) == open_note(old(self)@).cmds,
    {
        proof {
            reveal(open_note);
        }
        if self.journal_selected < self.journal_notes.len() {
            let n = self.journal_notes[self.journal_selected].duplicate();
            self.current_note = Some(n);
            self.screen = Screen::JournalNote;
        }
        no_cmds()
    }

    fn open_item(&mut self) -> (cmds: Vec<Command>)
        ensures
            final(self)@ == open_item(old(self)@).app,
            cmd_views(cmds@) == open_item(old(self)@).cmds,
    {
        proof {
            reveal(open_item);
        }
        match self.screen {
            Screen::Feed => self.open_post(),
            Screen::CmailList => self.open_conversation(),
            Screen::CircList => self.open_room(),
            Screen::Topics => self.open_topic(),
            Screen::Guilds => self.open_guild(),
            Screen::Journal => self.open_note(),
            _ => no_cmds(),
        }
    }

    fn enter_key(&mut self) -> (cmds: Vec<Command>)
        ensures
            final(self)@ == enter_key(old(self)@).app,
            cmd_views(cmds@) == enter_key(old(self)@).cmds,
    {
        proof {
            reveal(enter_key);
        }
        if self.sidebar_visible {
            self.select_sidebar_item();
            self.open_screen()
        } else {
            self.open_item()
        }
    }

    fn escape_key(&mut self) -> (cmds: Vec<Command>)
        ensures
            final(self)@ == escape_key(old(self)@).app,
            cmd_views(cmds@) == escape_key(old(self)@).cmds,
    {
        proof {
            reveal(escape_key);
        }
        if self.sidebar_visible {
            self.sidebar_visible = false;
        } else if self.show_post_modal {
            self.close_post_modal();
        } else {
            self.screen = match self.screen {
                Screen::Profile | Screen::TopicPosts | Screen::JournalNote | Screen::GuildDetail =>
                    Screen::Feed,
                Screen::CmailConversation => Screen::CmailList,
                Screen::CircRoom => Screen::CircList,
                other => other,
            };
        }
        no_cmds()
    }

    fn plain_key(&mut self, key: KeyEvent) -> (cmds: Vec<Command>)
        ensures
            final(self)@ == plain_key(old(self)@, key).app,
            cmd_views(cmds@) == plain_key(old(self)@, key).cmds,
    {
        proof {
            reveal(plain_key);
        }
        match key.code {
            KeyCode::Char(c) => self.char_key(c),
            KeyCode::Down => self.down_key(),
            KeyCode::Up => self.up_key(),
            KeyCode::Enter => self.enter_key(),
            KeyCode::Esc => self.escape_key(),
            _ => no_cmds(),
        }
    }

    fn handle_main(&mut self, key: KeyEvent) -> (cmds: Vec<Command>)
        ensures
            final(self)@ == main_key(old(self)@, key).app,
            cmd_views(cmds@) == main_key(old(self)@, key).cmds,
    {
        proof {
            reveal(main_key);
        }
        if self.show_create_post_modal {
            self.handle_create_post_modal(key)
        } else if self.show_reply_modal {
            self.handle_reply_modal(key)
        } else if self.show_post_modal {
            self.handle_post_modal(key)
        } else {
            self.plain_key(key)
        }
    }

    /// Reacts to a key: the state changes as `key_step` says, and the
    /// commands it yields are returned. An editing key leaves in its field
    /// the text and cursor that the field's editor makes of it.
    pub fn handle_key(&mut self, key: KeyEvent) -> (cmds: Vec<Command>)
        ensures
            final(self)@ == key_step(old(self)@, key).app,
            cmd_views(cmds@) == key_step(old(self)@, key).cmds,
    {
        proof {
            reveal(key_step);
        }
        if !key.press {
            return no_cmds();
        }
        if self.screen == Screen::Login {
            self.handle_login(key)
        } else if self.input_mode == InputMode::Compose {
            self.handle_compose(key)
        } else {
            self.handle_main(key)
        }
    }
}

} // verus!
