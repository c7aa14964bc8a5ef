//! What each screen shows: its lines of text, how each is toned, which
//! entry of a list is highlighted, and the hints of the status line. The
//! terminal drawing itself only paints these values.
use crate::app::{App, AppView, CreatePostFocus, InputMode, Screen};
use crate::input::input_value;
use crate::models::{CircMessage, CmailMessage, Guild, Notification, Post, Reply, Topic};
use crate::text::{concat2, concat3, push_char};
use vstd::prelude::*;
use vstd::string::StrSliceExecFns;
use vstd::string::StringExecFns;

verus! {

/// How a line of text is coloured.
#[derive(Debug, Clone, Copy, PartialEq, Eq, Structural)]
pub enum Tone {
    /// The terminal's own colours.
    Plain,
    /// Accent colour, bold: user names and headings.
    Heading,
    /// Accent colour.
    Accent,
    /// Dimmed.
    Muted,
    /// White, italic: post titles.
    Emphasis,
    /// White.
    Bright,
    /// Magenta: cIRC actions.
    Action,
    /// Red: errors.
    Alert,
}

/// How an entry of a list is shown as a whole.
#[derive(Debug, Clone, Copy, PartialEq, Eq, Structural)]
pub enum Look {
    /// As its lines say.
    Plain,
    /// The selected entry: dark text on the accent colour.
    Highlighted,
    /// Dimmed (a notification already read).
    Dim,
    /// In the accent colour (a notification not read yet).
    Bright,
}

/// A line of text with its tone.
#[derive(Debug, Clone)]
pub struct TextLine {
    pub text: String,
    pub tone: Tone,
}

/// A line as a value.
pub struct LineView {
    pub text: Seq<char>,
    pub tone: Tone,
}

impl View for TextLine {
    type V = LineView;

    open spec fn view(&self) -> LineView {
        LineView { text: self.text@, tone: self.tone }
    }
}

/// An entry of a list: its lines and how it is shown.
#[derive(Debug, Clone)]
pub struct Entry {
    pub lines: Vec<TextLine>,
    pub look: Look,
}

/// An entry as a value.
pub struct EntryView {
    pub lines: Seq<LineView>,
    pub look: Look,
}

/// The values of a sequence of lines.
pub open spec fn lines_view(v: Seq<TextLine>) -> Seq<LineView> {
    v.map_values(|l: TextLine| l@)
}

impl View for Entry {
    type V = EntryView;

    open spec fn view(&self) -> EntryView {
        EntryView { lines: lines_view(self.lines@), look: self.look }
    }
}

/// The values of a sequence of entries.
pub open spec fn entries_view(v: Seq<Entry>) -> Seq<EntryView> {
    v.map_values(|e: Entry| e@)
}

/// A line of the given text and tone.
pub open spec fn line(text: Seq<char>, tone: Tone) -> LineView {
    LineView { text, tone }
}

/// An entry of one line.
pub open spec fn single(text: Seq<char>, look: Look) -> EntryView {
    EntryView { lines: seq![line(text, Tone::Plain)], look }
}

/// Highlighted when it is the selected entry.
pub open spec fn look_at(i: int, selected: usize) -> Look {
    if i == selected {
        Look::Highlighted
    } else {
        Look::Plain
    }
}

/// The decimal digits.
pub open spec fn digits() -> Seq<char> {
    seq!['0', '1', '2', '3', '4', '5', '6', '7', '8', '9']
}

/// The decimal form of a number, without leading zeros.
pub open spec fn decimal(n: nat) -> Seq<char>
    decreases n,
{
    if n < 10 {
        seq![digits()[n as int]]
    } else {
        decimal(n / 10).push(digits()[(n % 10) as int])
    }
}

/// The first `n` characters of a text, or all of it when it is shorter.
pub open spec fn take_chars(s: Seq<char>, n: nat) -> Seq<char> {
    if s.len() <= n {
        s
    } else {
        s.subrange(0, n as int)
    }
}

/// The text of an optional string, empty when there is none.
pub open spec fn or_empty(o: Option<String>) -> Seq<char> {
    match o {
        Some(s) => s@,
        None => Seq::empty(),
    }
}

/// The number, zero when there is none.
pub open spec fn or_zero(o: Option<u32>) -> nat {
    match o {
        Some(n) => n as nat,
        None => 0,
    }
}

fn digit(d: u64) -> (c: char)
    requires
        d < 10,
    ensures
        c == digits()[d as int],
{
    match d {
        0 => '0',
        1 => '1',
        2 => '2',
        3 => '3',
        4 => '4',
        5 => '5',
        6 => '6',
        7 => '7',
        8 => '8',
        _ => '9',
    }
}

/// The decimal form of a number.
pub fn decimal_text(n: u64) -> (res: String)
    ensures
        res@ == decimal(n as nat),
    decreases n,
{
    if n < 10 {
        let mut s = String::new();
        push_char(&mut s, digit(n));
        s
    } else {
        let mut s = decimal_text(n / 10);
        push_char(&mut s, digit(n % 10));
        s
    }
}

/// The first `n` characters of a text.
pub fn first_chars(s: &str, n: usize) -> (res: String)
    ensures
        res@ == take_chars(s@, n as nat),
{
    let len = s.unicode_len();
    if len <= n {
        assert(s@.subrange(0, len as int) =~= s@);
        String::from_str(s.substring_char(0, len))
    } else {
        String::from_str(s.substring_char(0, n))
    }
}

/// A copy of an optional string, empty when there is none.
pub fn text_or_empty(o: &Option<String>) -> (res: String)
    ensures
        res@ == or_empty(*o),
{
    match o {
        Some(s) => s.clone(),
        None => String::new(),
    }
}

fn text_line(text: String, tone: Tone) -> (res: TextLine)
    ensures
        res@ == line(text@, tone),
{
    TextLine { text, tone }
}

fn look_for(i: usize, selected: usize) -> (res: Look)
    ensures
        res == look_at(i as int, selected),
{
    if i == selected {
        Look::Highlighted
    } else {
        Look::Plain
    }
}

fn single_entry(text: String, look: Look) -> (res: Entry)
    ensures
        res@ == single(text@, look),
{
    let lines = vec![text_line(text, Tone::Plain)];
    assert(lines_view(lines@) =~= seq![line(text@, Tone::Plain)]);
    Entry { lines, look }
}


/// The lines of a post in the feed: author, title when it is not empty, the
/// first 120 characters of the text, and the counts of replies and bookmarks.
pub open spec fn post_lines(p: Post) -> Seq<LineView> {
    let title = or_empty(p.title);
    seq![line("@"@ + p.author_username@, Tone::Heading)] + (if title.len() > 0 {
        seq![line(title, Tone::Emphasis)]
    } else {
        Seq::empty()
    }) + seq![
        line(take_chars(p.content@, 120), Tone::Plain),
        line(
            decimal(p.replies_count as nat) + " replies · "@ + decimal(p.bookmarks_count as nat)
                + " bookmarks"@,
            Tone::Muted,
        ),
    ]
}

/// The entries of the feed, the selected post highlighted.
pub open spec fn feed_entries_of(s: AppView) -> Seq<EntryView> {
    Seq::new(
        s.feed.len(),
        |i: int| EntryView { lines: post_lines(s.feed[i]), look: look_at(i, s.selected_index) },
    )
}

/// The lines of a post in the feed.
pub fn post_entry_lines(p: &Post) -> (res: Vec<TextLine>)
    ensures
        lines_view(res@) == post_lines(*p),
{
    let mut v: Vec<TextLine> = Vec::new();
    v.push(text_line(concat2("@", p.author_username.as_str()), Tone::Heading));
    let title = text_or_empty(&p.title);
    let ghost before = lines_view(v@);
    if title.unicode_len() > 0 {
        v.push(text_line(title, Tone::Emphasis));
    }
    v.push(text_line(first_chars(p.content.as_str(), 120), Tone::Plain));
    let counts = concat3(
        decimal_text(p.replies_count as u64).as_str(),
        " replies · ",
        concat2(decimal_text(p.bookmarks_count as u64).as_str(), " bookmarks").as_str(),
    );
    assert(counts@ =~= decimal(p.replies_count as nat) + " replies · "@ + decimal(
        p.bookmarks_count as nat,
    ) + " bookmarks"@);
    v.push(text_line(counts, Tone::Muted));
    assert(lines_view(v@) =~~= post_lines(*p));
    v
}

/// The entries of the feed.
pub fn feed_entries(app: &App) -> (res: Vec<Entry>)
    ensures
        entries_view(res@) == feed_entries_of(app@),
{
    let mut out: Vec<Entry> = Vec::new();
    let mut i: usize = 0;
    while i < app.feed.len()
        invariant
            i <= app.feed.len(),
            entries_view(out@) =~= feed_entries_of(app@).take(i as int),
        decreases app.feed.len() - i,
    {
        let e = Entry { lines: post_entry_lines(&app.feed[i]), look: look_for(i, app.selected_index) };
        assert(e@ == feed_entries_of(app@)[i as int]);
        let ghost prev = out@;
        out.push(e);
        assert(entries_view(out@) =~= entries_view(prev).push(e@));
        i = i + 1;
    }
    out
}


/// Shown in the post view while its replies load.
pub const LOADING_REPLIES: &'static str = "Caricamento replies...";

/// Shown in the post view of a post without replies.
pub const NO_REPLIES: &'static str = "Nessuna reply.";

/// The lines of a run of replies: each author, text, and an empty line.
pub open spec fn reply_lines(rs: Seq<Reply>) -> Seq<LineView>
    decreases rs.len(),
{
    if rs.len() == 0 {
        Seq::empty()
    } else {
        reply_lines(rs.drop_last()) + seq![
            line("> @"@ + or_empty(rs.last().author_username), Tone::Accent),
            line(rs.last().content@, Tone::Plain),
            line(Seq::empty(), Tone::Plain),
        ]
    }
}

/// The lines of the post view: author, title when there is one, the text
/// between empty lines, then either a loading note or the count of replies
/// and the replies (or a note that there are none).
pub open spec fn post_view_lines(p: Post, loading: bool, replies: Seq<Reply>) -> Seq<LineView> {
    seq![line("@"@ + p.author_username@, Tone::Heading)] + (match p.title {
        Some(t) => seq![line(t@, Tone::Emphasis)],
        None => Seq::empty(),
    }) + seq![
        line(Seq::empty(), Tone::Plain),
        line(p.content@, Tone::Plain),
        line(Seq::empty(), Tone::Plain),
    ] + (if loading {
        seq![line(LOADING_REPLIES@, Tone::Muted)]
    } else {
        seq![
            line(decimal(replies.len()) + " replies"@, Tone::Muted),
            line(Seq::empty(), Tone::Plain),
        ] + (if replies.len() == 0 {
            seq![line(NO_REPLIES@, Tone::Muted)]
        } else {
            reply_lines(replies)
        })
    })
}

/// The post view of the state: nothing when no post is open.
pub open spec fn post_view_of(s: AppView) -> Option<Seq<LineView>> {
    match s.current_post {
        Some(p) => Some(post_view_lines(p, s.replies_loading, s.current_replies)),
        None => None,
    }
}

proof fn lemma_reply_lines_step(rs: Seq<Reply>, i: int)
    requires
        0 <= i < rs.len(),
    ensures
        reply_lines(rs.take(i + 1)) == reply_lines(rs.take(i)) + seq![
            line("> @"@ + or_empty(rs[i].author_username), Tone::Accent),
            line(rs[i].content@, Tone::Plain),
            line(Seq::empty(), Tone::Plain),
        ],
{
    assert(rs.take(i + 1).drop_last() =~= rs.take(i));
}

fn empty_line() -> (res: TextLine)
    ensures
        res@ == line(Seq::empty(), Tone::Plain),
{
    text_line(String::new(), Tone::Plain)
}

fn push_reply_lines(v: &mut Vec<TextLine>, replies: &Vec<Reply>)
    ensures
        lines_view(final(v)@) == lines_view(old(v)@) + reply_lines(replies@),
{
    let ghost start = lines_view(v@);
    let mut i: usize = 0;
    assert(replies@.take(0) =~= Seq::<Reply>::empty());
    assert(lines_view(v@) =~= start + reply_lines(replies@.take(0)));
    while i < replies.len()
        invariant
            i <= replies.len(),
            lines_view(v@) == start + reply_lines(replies@.take(i as int)),
        decreases replies.len() - i,
    {
        let r = &replies[i];
        let ghost before = lines_view(v@);
        v.push(text_line(concat2("> @", text_or_empty(&r.author_username).as_str()), Tone::Accent));
        v.push(text_line(r.content.clone(), Tone::Plain));
        v.push(empty_line());
        proof {
            lemma_reply_lines_step(replies@, i as int);
            assert(lines_view(v@) =~= before + seq![
                line("> @"@ + or_empty(r.author_username), Tone::Accent),
                line(r.content@, Tone::Plain),
                line(Seq::empty(), Tone::Plain),
            ]);
        }
        i = i + 1;
    }
    assert(replies@.take(replies.len() as int) =~= replies@);
}

/// The lines of the open post and its replies; nothing when no post is
/// open.
pub fn post_view(app: &App) -> (res: Option<Vec<TextLine>>)
    ensures
        match res {
            Some(v) => post_view_of(app@) == Some(lines_view(v@)),
            None => post_view_of(app@) is None,
        },
{
    let p = match &app.current_post {
        Some(p) => p,
        None => {
            return None;
        },
    };
    let mut v: Vec<TextLine> = Vec::new();
    v.push(text_line(concat2("@", p.author_username.as_str()), Tone::Heading));
    match &p.title {
        Some(t) => v.push(text_line(t.clone(), Tone::Emphasis)),
        None => {},
    }
    v.push(empty_line());
    v.push(text_line(p.content.clone(), Tone::Plain));
    v.push(empty_line());
    let ghost head = lines_view(v@);
    if app.replies_loading {
        v.push(text_line(String::from_str(LOADING_REPLIES), Tone::Muted));
        assert(lines_view(v@) =~= head + seq![line(LOADING_REPLIES@, Tone::Muted)]);
    } else {
        let n = decimal_text(app.current_replies.len() as u64);
        v.push(text_line(concat2(n.as_str(), " replies"), Tone::Muted));
        v.push(empty_line());
        let ghost mid = lines_view(v@);
        if app.current_replies.len() == 0 {
            v.push(text_line(String::from_str(NO_REPLIES), Tone::Muted));
            assert(lines_view(v@) =~= mid + seq![line(NO_REPLIES@, Tone::Muted)]);
        } else {
            push_reply_lines(&mut v, &app.current_replies);
        }
        assert(lines_view(v@) =~~= head + (seq![
            line(decimal(app@.current_replies.len()) + " replies"@, Tone::Muted),
            line(Seq::empty(), Tone::Plain),
        ] + (if app@.current_replies.len() == 0 {
            seq![line(NO_REPLIES@, Tone::Muted)]
        } else {
            reply_lines(app@.current_replies)
        })));
    }
    assert(lines_view(v@) =~~= post_view_lines(*p, app.replies_loading, app@.current_replies));
    Some(v)
}


/// Keys of the new-post modal.
pub const HINT_CREATE: &'static str = "Tab: cambia campo | Ctrl+S: pubblica | Esc: annulla";

/// Keys of the reply modal.
pub const HINT_REPLY: &'static str = "Ctrl+S: invia reply | Esc: annulla";

/// Keys of the post view.
pub const HINT_POST: &'static str = "r: reply | Esc: chiudi";

/// Keys while composing.
pub const HINT_COMPOSE: &'static str = "Enter: invia | Esc: annulla";

/// Keys of the feed.
pub const HINT_FEED: &'static str =
    "j/k: naviga | Enter: apri | c: nuovo post | w: watch | x: bookmark | s: menu | q: esci";

/// Keys of a list that opens nothing.
pub const HINT_PLAIN_LIST: &'static str = "j/k: naviga | s: menu | Esc: indietro | q: esci";

/// Keys of a list whose entries open, with a way back.
pub const HINT_LIST_BACK: &'static str =
    "j/k: naviga | Enter: apri | s: menu | Esc: indietro | q: esci";

/// Keys of a conversation or room.
pub const HINT_CHAT: &'static str = "i: scrivi | Esc: indietro | s: menu | q: esci";

/// Keys of a list whose entries open.
pub const HINT_LIST: &'static str = "j/k: naviga | Enter: apri | s: menu | q: esci";

/// Keys of a list reached from another screen.
pub const HINT_SUBLIST: &'static str = "j/k: naviga | Enter: apri | Esc: indietro | q: esci";

/// Keys of a detail screen.
pub const HINT_DETAIL: &'static str = "Esc: indietro | s: menu | q: esci";

/// Keys of the jukebox.
pub const HINT_JUKEBOX: &'static str = "s: menu | q: esci";

/// Keys of the login screen.
pub const HINT_LOGIN: &'static str = "Tab: cambia campo | Enter: login | Esc: esci";

/// The keys of a screen.
pub open spec fn screen_hint_of(screen: Screen) -> Seq<char> {
    match screen {
        Screen::Feed => HINT_FEED@,
        Screen::Notifications => HINT_PLAIN_LIST@,
        Screen::CmailList => HINT_LIST_BACK@,
        Screen::CmailConversation => HINT_CHAT@,
        Screen::CircList => HINT_LIST_BACK@,
        Screen::CircRoom => HINT_CHAT@,
        Screen::Bookmarks => HINT_PLAIN_LIST@,
        Screen::Topics => HINT_LIST@,
        Screen::TopicPosts => HINT_SUBLIST@,
        Screen::Profile => HINT_SUBLIST@,
        Screen::Journal => HINT_LIST@,
        Screen::JournalNote => HINT_DETAIL@,
        Screen::Guilds => HINT_LIST@,
        Screen::GuildDetail => HINT_DETAIL@,
        Screen::Jukebox => HINT_JUKEBOX@,
        Screen::Login => HINT_LOGIN@,
    }
}

/// The keys the status line shows: those of the open modal, of the compose
/// field, or of the screen.
pub open spec fn status_hint_of(s: AppView) -> Seq<char> {
    if s.show_create_post_modal {
        HINT_CREATE@
    } else if s.show_reply_modal {
        HINT_REPLY@
    } else if s.show_post_modal {
        HINT_POST@
    } else if s.input_mode == InputMode::Compose {
        HINT_COMPOSE@
    } else {
        screen_hint_of(s.screen)
    }
}

/// The status line: the keys, then the status message when there is one.
pub open spec fn status_line_of(s: AppView) -> Seq<char> {
    let status = match s.status_message {
        Some(m) => m,
        None => Seq::empty(),
    };
    if status.len() == 0 {
        status_hint_of(s)
    } else {
        status_hint_of(s) + " | "@ + status
    }
}

/// The keys of a screen.
pub fn screen_hint(screen: Screen) -> (res: &'static str)
    ensures
        res@ == screen_hint_of(screen),
{
    match screen {
        Screen::Feed => HINT_FEED,
        Screen::Notifications => HINT_PLAIN_LIST,
        Screen::CmailList => HINT_LIST_BACK,
        Screen::CmailConversation => HINT_CHAT,
        Screen::CircList => HINT_LIST_BACK,
        Screen::CircRoom => HINT_CHAT,
        Screen::Bookmarks => HINT_PLAIN_LIST,
        Screen::Topics => HINT_LIST,
        Screen::TopicPosts => HINT_SUBLIST,
        Screen::Profile => HINT_SUBLIST,
        Screen::Journal => HINT_LIST,
        Screen::JournalNote => HINT_DETAIL,
        Screen::Guilds => HINT_LIST,
        Screen::GuildDetail => HINT_DETAIL,
        Screen::Jukebox => HINT_JUKEBOX,
        Screen::Login => HINT_LOGIN,
    }
}

/// The keys the status line shows.
pub fn status_hint(app: &App) -> (res: &'static str)
    ensures
        res@ == status_hint_of(app@),
{
    if app.show_create_post_modal {
        HINT_CREATE
    } else if app.show_reply_modal {
        HINT_REPLY
    } else if app.show_post_modal {
        HINT_POST
    } else if app.input_mode == InputMode::Compose {
        HINT_COMPOSE
    } else {
        screen_hint(app.screen)
    }
}

/// The text of the status line.
pub fn status_line(app: &App) -> (res: String)
    ensures
        res@ == status_line_of(app@),
{
    let hint = status_hint(app);
    match &app.status_message {
        Some(m) => {
            if m.unicode_len() == 0 {
                String::from_str(hint)
            } else {
                concat3(hint, " | ", m.as_str())
            }
        },
        None => String::from_str(hint),
    }
}


/// A titled panel of lines.
#[derive(Debug, Clone)]
pub struct Panel {
    pub title: String,
    pub lines: Vec<TextLine>,
}

/// A panel as a value.
pub struct PanelView {
    pub title: Seq<char>,
    pub lines: Seq<LineView>,
}

impl View for Panel {
    type V = PanelView;

    open spec fn view(&self) -> PanelView {
        PanelView { title: self.title@, lines: lines_view(self.lines@) }
    }
}

/// A titled one-line field.
#[derive(Debug, Clone)]
pub struct Field {
    pub title: String,
    pub value: TextLine,
}

/// A field as a value.
pub struct FieldView {
    pub title: Seq<char>,
    pub value: LineView,
}

impl View for Field {
    type V = FieldView;

    open spec fn view(&self) -> FieldView {
        FieldView { title: self.title@, value: self.value@ }
    }
}

/// The name shown for a room without one.
pub const ROOM_DEFAULT_NAME: &'static str = "cIRC room";

/// Shown in place of a deleted cIRC message.
pub const DELETED_MESSAGE: &'static str = "[eliminato]";

/// The title of the cIRC input while composing.
pub const ROOM_COMPOSE_TITLE: &'static str = "Messaggio cIRC (Enter: invia, Esc: annulla)";

/// The title of the cIRC input otherwise.
pub const ROOM_IDLE_TITLE: &'static str = "Premi i per scrivere un messaggio";

/// A cIRC message as a line: a note for a deleted one, `* user text` for an
/// action, `@user: text` otherwise.
pub open spec fn room_line(m: CircMessage) -> LineView {
    if m.deleted {
        line(DELETED_MESSAGE@, Tone::Muted)
    } else if m.is_action {
        line("* "@ + or_empty(m.sender_username) + " "@ + m.content@, Tone::Action)
    } else {
        line("@"@ + or_empty(m.sender_username) + ": "@ + m.content@, Tone::Plain)
    }
}

/// The name of the open room.
pub open spec fn room_name_of(s: AppView) -> Seq<char> {
    match s.current_room {
        Some(r) => match r.name {
            Some(n) => n@,
            None => ROOM_DEFAULT_NAME@,
        },
        None => ROOM_DEFAULT_NAME@,
    }
}

/// The messages panel of the open room.
pub open spec fn room_panel_of(s: AppView) -> PanelView {
    PanelView {
        title: "cIRC: "@ + room_name_of(s),
        lines: Seq::new(s.circ_messages.len(), |i: int| room_line(s.circ_messages[i])),
    }
}

/// The input field of the room: the text being composed, or an invitation
/// to start.
pub open spec fn room_input_of(s: AppView) -> FieldView {
    if s.input_mode == InputMode::Compose {
        FieldView { title: ROOM_COMPOSE_TITLE@, value: line(s.compose_input, Tone::Accent) }
    } else {
        FieldView { title: ROOM_IDLE_TITLE@, value: line(Seq::empty(), Tone::Muted) }
    }
}

fn room_message_line(m: &CircMessage) -> (res: TextLine)
    ensures
        res@ == room_line(*m),
{
    if m.deleted {
        text_line(String::from_str(DELETED_MESSAGE), Tone::Muted)
    } else if m.is_action {
        let sender = text_or_empty(&m.sender_username);
        let t = concat3("* ", sender.as_str(), concat2(" ", m.content.as_str()).as_str());
        assert(t@ =~= "* "@ + sender@ + " "@ + m.content@);
        text_line(t, Tone::Action)
    } else {
        let sender = text_or_empty(&m.sender_username);
        let t = concat3("@", sender.as_str(), concat2(": ", m.content.as_str()).as_str());
        assert(t@ =~= "@"@ + sender@ + ": "@ + m.content@);
        text_line(t, Tone::Plain)
    }
}

/// The messages panel of the open cIRC room.
pub fn room_panel(app: &App) -> (res: Panel)
    ensures
        res@ == room_panel_of(app@),
{
    let name = match &app.current_room {
        Some(r) => match &r.name {
            Some(n) => n.clone(),
            None => String::from_str(ROOM_DEFAULT_NAME),
        },
        None => String::from_str(ROOM_DEFAULT_NAME),
    };
    let title = concat2("cIRC: ", name.as_str());
    let mut lines: Vec<TextLine> = Vec::new();
    let mut i: usize = 0;
    while i < app.circ_messages.len()
        invariant
            i <= app.circ_messages.len(),
            lines_view(lines@) =~= room_panel_of(app@).lines.take(i as int),
        decreases app.circ_messages.len() - i,
    {
        let l = room_message_line(&app.circ_messages[i]);
        let ghost prev = lines@;
        lines.push(l);
        assert(lines_view(lines@) =~= lines_view(prev).push(l@));
        i = i + 1;
    }
    let res = Panel { title, lines };
    assert(res@.lines =~= room_panel_of(app@).lines);
    res
}

/// The input field of the open cIRC room.
pub fn room_input(app: &App) -> (res: Field)
    ensures
        res@ == room_input_of(app@),
{
    if app.input_mode == InputMode::Compose {
        Field {
            title: String::from_str(ROOM_COMPOSE_TITLE),
            value: text_line(input_value(&app.compose_input), Tone::Accent),
        }
    } else {
        Field { title: String::from_str(ROOM_IDLE_TITLE), value: text_line(String::new(), Tone::Muted) }
    }
}

/// A c-Mail message as a line.
pub open spec fn mail_line(m: CmailMessage) -> LineView {
    line("@"@ + or_empty(m.sender_username) + ": "@ + m.content@, Tone::Plain)
}

/// The panel of the open c-Mail conversation: titled with the other party.
pub open spec fn conversation_panel_of(s: AppView) -> PanelView {
    let name = match s.current_conversation {
        Some(c) => c.other_user.username@,
        None => Seq::empty(),
    };
    PanelView {
        title: "c-Mail: @"@ + name,
        lines: Seq::new(s.cmail_messages.len(), |i: int| mail_line(s.cmail_messages[i])),
    }
}

/// The panel of the open c-Mail conversation.
pub fn conversation_panel(app: &App) -> (res: Panel)
    ensures
        res@ == conversation_panel_of(app@),
{
    let name = match &app.current_conversation {
        Some(c) => c.other_user.username.clone(),
        None => String::new(),
    };
    let title = concat2("c-Mail: @", name.as_str());
    let mut lines: Vec<TextLine> = Vec::new();
    let mut i: usize = 0;
    while i < app.cmail_messages.len()
        invariant
            i <= app.cmail_messages.len(),
            lines_view(lines@) =~= conversation_panel_of(app@).lines.take(i as int),
        decreases app.cmail_messages.len() - i,
    {
        let m = &app.cmail_messages[i];
        let sender = text_or_empty(&m.sender_username);
        let t = concat3("@", sender.as_str(), concat2(": ", m.content.as_str()).as_str());
        assert(t@ =~= "@"@ + sender@ + ": "@ + m.content@);
        let l = text_line(t, Tone::Plain);
        let ghost prev = lines@;
        lines.push(l);
        assert(lines_view(lines@) =~= lines_view(prev).push(l@));
        i = i + 1;
    }
    let res = Panel { title, lines };
    assert(res@.lines =~= conversation_panel_of(app@).lines);
    res
}


/// The name of the client, atop the login screen.
pub const APP_TITLE: &'static str = "CYBER-TUI";

/// The line under the name on the login screen.
pub const LOGIN_SUBTITLE: &'static str = "Login a cyberspace.online";

/// The keys of the login screen, shown when there is no error.
pub const LOGIN_KEYS: &'static str = "Tab: cambia campo · Enter: login · Esc: esci";

/// The login screen: the two fields and the line under them.
#[derive(Debug, Clone)]
pub struct LoginScreen {
    pub email: Field,
    pub password: Field,
    pub hint: TextLine,
}

/// The login screen as values.
pub struct LoginScreenView {
    pub email: FieldView,
    pub password: FieldView,
    pub hint: LineView,
}

impl View for LoginScreen {
    type V = LoginScreenView;

    open spec fn view(&self) -> LoginScreenView {
        LoginScreenView { email: self.email@, password: self.password@, hint: self.hint@ }
    }
}

/// As many stars as `n`.
pub open spec fn stars(n: nat) -> Seq<char> {
    Seq::new(n, |i: int| '*')
}

/// The length in bytes of a text in UTF-8, as `str::len` gives it.
pub open spec fn byte_len(t: Seq<char>) -> nat {
    (vstd::utf8::encode_utf8(t).len() as usize) as nat
}

/// The accent colour for the active field, dimmed for the other.
pub open spec fn field_tone(active: bool) -> Tone {
    if active {
        Tone::Accent
    } else {
        Tone::Muted
    }
}

/// The login screen: the e-mail as typed, the password as one star per
/// byte, the active field in the accent colour, and under them the login
/// error, or the keys when there is none.
pub open spec fn login_screen_of(s: AppView) -> LoginScreenView {
    LoginScreenView {
        email: FieldView {
            title: "Email"@,
            value: line(s.login_email, field_tone(s.login_field_email_active)),
        },
        password: FieldView {
            title: "Password"@,
            value: line(stars(byte_len(s.login_password)), field_tone(!s.login_field_email_active)),
        },
        hint: match s.login_error {
            Some(e) => line(e, Tone::Alert),
            None => line(LOGIN_KEYS@, Tone::Muted),
        },
    }
}

/// A string of `n` stars.
pub fn star_text(n: usize) -> (res: String)
    ensures
        res@ == stars(n as nat),
{
    let mut s = String::new();
    let mut i: usize = 0;
    while i < n
        invariant
            i <= n,
            s@ =~= stars(i as nat),
        decreases n - i,
    {
        push_char(&mut s, '*');
        i = i + 1;
    }
    s
}

fn tone_for(active: bool) -> (res: Tone)
    ensures
        res == field_tone(active),
{
    if active {
        Tone::Accent
    } else {
        Tone::Muted
    }
}

/// The login screen.
pub fn login_screen(app: &App) -> (res: LoginScreen)
    ensures
        res@ == login_screen_of(app@),
{
    let email = Field {
        title: String::from_str("Email"),
        value: text_line(input_value(&app.login_email), tone_for(app.login_field_email_active)),
    };
    let password_text = input_value(&app.login_password);
    let masked = star_text(password_text.as_str().len());
    let password = Field {
        title: String::from_str("Password"),
        value: text_line(masked, tone_for(!app.login_field_email_active)),
    };
    let hint = match &app.login_error {
        Some(e) => text_line(e.clone(), Tone::Alert),
        None => text_line(String::from_str(LOGIN_KEYS), Tone::Muted),
    };
    LoginScreen { email, password, hint }
}


fn count_or_zero(o: Option<u32>) -> (res: u64)
    ensures
        res as nat == or_zero(o),
{
    match o {
        Some(n) => n as u64,
        None => 0,
    }
}

/// The notifications: kind and actor, dimmed once read.
pub open spec fn notification_entries_of(s: AppView) -> Seq<EntryView> {
    Seq::new(s.notifications.len(), |i: int| single(s.notifications[i].kind@ + "  @"@ + or_empty(s.notifications[i].actor_username), if s.notifications[i].read { Look::Dim } else { Look::Bright }))
}

/// The entries of the notifications list.
pub fn notification_entries(app: &App) -> (res: Vec<Entry>)
    ensures
        entries_view(res@) == notification_entries_of(app@),
{
    let mut out: Vec<Entry> = Vec::new();
    let mut i: usize = 0;
    while i < app.notifications.len()
        invariant
            i <= app.notifications.len(),
            entries_view(out@) =~= notification_entries_of(app@).take(i as int),
        decreases app.notifications.len() - i,
    {
        let item: &Notification = &app.notifications[i];
        let t = concat3(item.kind.as_str(), "  @", text_or_empty(&item.actor_username).as_str());
        let look = if item.read { Look::Dim } else { Look::Bright };
        let e = single_entry(t, look);
        let ghost prev = out@;
        out.push(e);
        assert(entries_view(out@) =~= entries_view(prev).push(e@));
        i = i + 1;
    }
    out
}

/// The c-Mail conversations by the other party, the selected one highlighted.
pub open spec fn conversation_entries_of(s: AppView) -> Seq<EntryView> {
    Seq::new(s.cmail_conversations.len(), |i: int| single("@"@ + s.cmail_conversations[i].other_user.username@, look_at(i, s.cmail_selected)))
}

/// The entries of the c-Mail list.
pub fn conversation_entries(app: &App) -> (res: Vec<Entry>)
    ensures
        entries_view(res@) == conversation_entries_of(app@),
{
    let mut out: Vec<Entry> = Vec::new();
    let mut i: usize = 0;
    while i < app.cmail_conversations.len()
        invariant
            i <= app.cmail_conversations.len(),
            entries_view(out@) =~= conversation_entries_of(app@).take(i as int),
        decreases app.cmail_conversations.len() - i,
    {
        let item: &crate::models::CmailConversationRef = &app.cmail_conversations[i];
        let t = concat2("@", item.other_user.username.as_str());
        let e = single_entry(t, look_for(i, app.cmail_selected));
        let ghost prev = out@;
        out.push(e);
        assert(entries_view(out@) =~= entries_view(prev).push(e@));
        i = i + 1;
    }
    out
}

/// The cIRC rooms by name, or by id when unnamed, the selected one highlighted.
pub open spec fn room_entries_of(s: AppView) -> Seq<EntryView> {
    Seq::new(s.circ_rooms.len(), |i: int| single((match s.circ_rooms[i].name { Some(n) => n@, None => s.circ_rooms[i].id@ }), look_at(i, s.circ_selected)))
}

/// The entries of the cIRC list.
pub fn room_entries(app: &App) -> (res: Vec<Entry>)
    ensures
        entries_view(res@) == room_entries_of(app@),
{
    let mut out: Vec<Entry> = Vec::new();
    let mut i: usize = 0;
    while i < app.circ_rooms.len()
        invariant
            i <= app.circ_rooms.len(),
            entries_view(out@) =~= room_entries_of(app@).take(i as int),
        decreases app.circ_rooms.len() - i,
    {
        let item: &crate::models::CircRoom = &app.circ_rooms[i];
        let t = match &item.name {
            Some(n) => n.clone(),
            None => item.id.clone(),
        };
        let e = single_entry(t, look_for(i, app.circ_selected));
        let ghost prev = out@;
        out.push(e);
        assert(entries_view(out@) =~= entries_view(prev).push(e@));
        i = i + 1;
    }
    out
}

/// The bookmarks by the post they keep.
pub open spec fn bookmark_entries_of(s: AppView) -> Seq<EntryView> {
    Seq::new(s.bookmarks.len(), |i: int| single(or_empty(s.bookmarks[i].post_id), Look::Plain))
}

/// The entries of the bookmarks list.
pub fn bookmark_entries(app: &App) -> (res: Vec<Entry>)
    ensures
        entries_view(res@) == bookmark_entries_of(app@),
{
    let mut out: Vec<Entry> = Vec::new();
    let mut i: usize = 0;
    while i < app.bookmarks.len()
        invariant
            i <= app.bookmarks.len(),
            entries_view(out@) =~= bookmark_entries_of(app@).take(i as int),
        decreases app.bookmarks.len() - i,
    {
        let item: &crate::models::Bookmark = &app.bookmarks[i];
        let e = single_entry(text_or_empty(&item.post_id), Look::Plain);
        let ghost prev = out@;
        out.push(e);
        assert(entries_view(out@) =~= entries_view(prev).push(e@));
        i = i + 1;
    }
    out
}

/// The topics with their post counts, the selected one highlighted.
pub open spec fn topic_entries_of(s: AppView) -> Seq<EntryView> {
    Seq::new(s.topics.len(), |i: int| single("#"@ + s.topics[i].name@ + "  ["@ + decimal(or_zero(s.topics[i].post_count)) + "]"@, look_at(i, s.topic_selected)))
}

/// The entries of the topics list.
pub fn topic_entries(app: &App) -> (res: Vec<Entry>)
    ensures
        entries_view(res@) == topic_entries_of(app@),
{
    let mut out: Vec<Entry> = Vec::new();
    let mut i: usize = 0;
    while i < app.topics.len()
        invariant
            i <= app.topics.len(),
            entries_view(out@) =~= topic_entries_of(app@).take(i as int),
        decreases app.topics.len() - i,
    {
        let item: &Topic = &app.topics[i];
        let count = decimal_text(count_or_zero(item.post_count));
        let t = concat3("#", item.name.as_str(), concat3("  [", count.as_str(), "]").as_str());
        assert(t@ =~= "#"@ + item.name@ + "  ["@ + decimal(or_zero(item.post_count)) + "]"@);
        let e = single_entry(t, look_for(i, app.topic_selected));
        let ghost prev = out@;
        out.push(e);
        assert(entries_view(out@) =~= entries_view(prev).push(e@));
        i = i + 1;
    }
    out
}

/// The journal notes by their first 60 characters, the selected one highlighted.
pub open spec fn note_entries_of(s: AppView) -> Seq<EntryView> {
    Seq::new(s.journal_notes.len(), |i: int| single(take_chars(s.journal_notes[i].content@, 60) + " …"@, look_at(i, s.journal_selected)))
}

/// The entries of the journal.
pub fn note_entries(app: &App) -> (res: Vec<Entry>)
    ensures
        entries_view(res@) == note_entries_of(app@),
{
    let mut out: Vec<Entry> = Vec::new();
    let mut i: usize = 0;
    while i < app.journal_notes.len()
        invariant
            i <= app.journal_notes.len(),
            entries_view(out@) =~= note_entries_of(app@).take(i as int),
        decreases app.journal_notes.len() - i,
    {
        let item: &crate::models::Note = &app.journal_notes[i];
        let t = concat2(first_chars(item.content.as_str(), 60).as_str(), " …");
        let e = single_entry(t, look_for(i, app.journal_selected));
        let ghost prev = out@;
        out.push(e);
        assert(entries_view(out@) =~= entries_view(prev).push(e@));
        i = i + 1;
    }
    out
}

/// The guilds with icon, name and member count, the selected one highlighted.
pub open spec fn guild_entries_of(s: AppView) -> Seq<EntryView> {
    Seq::new(s.guilds.len(), |i: int| single(or_empty(s.guilds[i].icon) + "  @"@ + s.guilds[i].name@ + "  ["@ + decimal(or_zero(s.guilds[i].member_count)) + "]"@, look_at(i, s.guild_selected)))
}

/// The entries of the guilds list.
pub fn guild_entries(app: &App) -> (res: Vec<Entry>)
    ensures
        entries_view(res@) == guild_entries_of(app@),
{
    let mut out: Vec<Entry> = Vec::new();
    let mut i: usize = 0;
    while i < app.guilds.len()
        invariant
            i <= app.guilds.len(),
            entries_view(out@) =~= guild_entries_of(app@).take(i as int),
        decreases app.guilds.len() - i,
    {
        let item: &Guild = &app.guilds[i];
        let count = decimal_text(count_or_zero(item.member_count));
        let icon = text_or_empty(&item.icon);
        let t = concat3(icon.as_str(), "  @", concat3(item.name.as_str(), "  [", concat2(count.as_str(), "]").as_str()).as_str());
        assert(t@ =~= or_empty(item.icon) + "  @"@ + item.name@ + "  ["@ + decimal(or_zero(item.member_count)) + "]"@);
        let e = single_entry(t, look_for(i, app.guild_selected));
        let ghost prev = out@;
        out.push(e);
        assert(entries_view(out@) =~= entries_view(prev).push(e@));
        i = i + 1;
    }
    out
}

/// The posts of a topic by their first 70 characters, the selected one highlighted.
pub open spec fn topic_post_entries_of(s: AppView) -> Seq<EntryView> {
    Seq::new(s.current_topic_posts.len(), |i: int| single(take_chars(s.current_topic_posts[i].content@, 70), look_at(i, s.selected_index)))
}

/// The entries of the posts of a topic.
pub fn topic_post_entries(app: &App) -> (res: Vec<Entry>)
    ensures
        entries_view(res@) == topic_post_entries_of(app@),
{
    let mut out: Vec<Entry> = Vec::new();
    let mut i: usize = 0;
    while i < app.current_topic_posts.len()
        invariant
            i <= app.current_topic_posts.len(),
            entries_view(out@) =~= topic_post_entries_of(app@).take(i as int),
        decreases app.current_topic_posts.len() - i,
    {
        let item: &Post = &app.current_topic_posts[i];
        let e = single_entry(first_chars(item.content.as_str(), 70), look_for(i, app.selected_index));
        let ghost prev = out@;
        out.push(e);
        assert(entries_view(out@) =~= entries_view(prev).push(e@));
        i = i + 1;
    }
    out
}


/// The entries of the sidebar menu, in order.
pub open spec fn sidebar_names() -> Seq<Seq<char>> {
    seq![
        "Feed"@,
        "Notifications"@,
        "c-Mail"@,
        "cIRC"@,
        "Bookmarks"@,
        "Topics"@,
        "Profile"@,
        "Journal"@,
        "Guilds"@,
        "Jukebox"@,
    ]
}

/// The sidebar menu, the selected entry highlighted.
pub open spec fn sidebar_entries_of(s: AppView) -> Seq<EntryView> {
    Seq::new(
        sidebar_names().len(),
        |i: int| single(sidebar_names()[i], look_at(i, s.sidebar_selected)),
    )
}

fn sidebar_name(i: usize) -> (res: &'static str)
    requires
        i < sidebar_names().len(),
    ensures
        res@ == sidebar_names()[i as int],
{
    match i {
        0 => "Feed",
        1 => "Notifications",
        2 => "c-Mail",
        3 => "cIRC",
        4 => "Bookmarks",
        5 => "Topics",
        6 => "Profile",
        7 => "Journal",
        8 => "Guilds",
        _ => "Jukebox",
    }
}

/// The entries of the sidebar menu.
pub fn sidebar_entries(app: &App) -> (res: Vec<Entry>)
    ensures
        entries_view(res@) == sidebar_entries_of(app@),
{
    let mut out: Vec<Entry> = Vec::new();
    let mut i: usize = 0;
    while i < 10
        invariant
            i <= 10,
            sidebar_names().len() == 10,
            entries_view(out@) =~= sidebar_entries_of(app@).take(i as int),
        decreases 10 - i,
    {
        let e = single_entry(String::from_str(sidebar_name(i)), look_for(i, app.sidebar_selected));
        let ghost prev = out@;
        out.push(e);
        assert(entries_view(out@) =~= entries_view(prev).push(e@));
        i = i + 1;
    }
    out
}

/// Shown when no profile is loaded.
pub const NO_PROFILE: &'static str = "Nessun profilo";

/// Shown when no note is open.
pub const NO_NOTE: &'static str = "Nessuna nota";

/// Shown when no guild is open.
pub const NO_GUILD: &'static str = "Nessuna guild";

/// The jukebox screen, which has nothing to play yet.
pub const JUKEBOX_TEXT: &'static str =
    "Jukebox: visualizza post con audioAttachment\n(placeholder — da implementare)";

/// An untitled panel of one note.
pub open spec fn notice(text: Seq<char>) -> PanelView {
    PanelView { title: Seq::empty(), lines: seq![line(text, Tone::Plain)] }
}

/// The profile panel: user name, display name and bio, or a note that no
/// profile is loaded.
pub open spec fn profile_panel_of(s: AppView) -> PanelView {
    match s.current_profile {
        Some(u) => PanelView {
            title: "Profile"@,
            lines: seq![
                line("@"@ + u.username@, Tone::Heading),
                line(or_empty(u.display_name), Tone::Plain),
                line(or_empty(u.bio), Tone::Plain),
            ],
        },
        None => notice(NO_PROFILE@),
    }
}

/// The panel of the open journal note, or a note that none is open.
pub open spec fn note_panel_of(s: AppView) -> PanelView {
    match s.current_note {
        Some(n) => PanelView { title: "Journal Note"@, lines: seq![line(n.content@, Tone::Plain)] },
        None => notice(NO_NOTE@),
    }
}

/// The panel of the open guild: icon and name, founder, bio and member
/// count, or a note that none is open.
pub open spec fn guild_panel_of(s: AppView) -> PanelView {
    match s.current_guild {
        Some(g) => PanelView {
            title: "Guild Detail"@,
            lines: seq![
                line(or_empty(g.icon) + " "@ + g.name@, Tone::Heading),
                line("@"@ + or_empty(g.founder_username), Tone::Plain),
                line(or_empty(g.bio), Tone::Plain),
                line("Membri: "@ + decimal(or_zero(g.member_count)), Tone::Plain),
            ],
        },
        None => notice(NO_GUILD@),
    }
}

fn notice_panel(text: &str) -> (res: Panel)
    ensures
        res@ == notice(text@),
{
    let lines = vec![text_line(String::from_str(text), Tone::Plain)];
    let res = Panel { title: String::new(), lines };
    assert(res@.lines =~= notice(text@).lines);
    res
}

/// The profile panel.
pub fn profile_panel(app: &App) -> (res: Panel)
    ensures
        res@ == profile_panel_of(app@),
{
    match &app.current_profile {
        Some(u) => {
            let lines = vec![
                text_line(concat2("@", u.username.as_str()), Tone::Heading),
                text_line(text_or_empty(&u.display_name), Tone::Plain),
                text_line(text_or_empty(&u.bio), Tone::Plain),
            ];
            let res = Panel { title: String::from_str("Profile"), lines };
            assert(res@.lines =~= profile_panel_of(app@).lines);
            res
        },
        None => notice_panel(NO_PROFILE),
    }
}

/// The panel of the open journal note.
pub fn note_panel(app: &App) -> (res: Panel)
    ensures
        res@ == note_panel_of(app@),
{
    match &app.current_note {
        Some(n) => {
            let lines = vec![text_line(n.content.clone(), Tone::Plain)];
            let res = Panel { title: String::from_str("Journal Note"), lines };
            assert(res@.lines =~= note_panel_of(app@).lines);
            res
        },
        None => notice_panel(NO_NOTE),
    }
}

/// The panel of the open guild.
pub fn guild_panel(app: &App) -> (res: Panel)
    ensures
        res@ == guild_panel_of(app@),
{
    match &app.current_guild {
        Some(g) => {
            let count = decimal_text(count_or_zero(g.member_count));
            let lines = vec![
                text_line(concat3(text_or_empty(&g.icon).as_str(), " ", g.name.as_str()), Tone::Heading),
                text_line(concat2("@", text_or_empty(&g.founder_username).as_str()), Tone::Plain),
                text_line(text_or_empty(&g.bio), Tone::Plain),
                text_line(concat2("Membri: ", count.as_str()), Tone::Plain),
            ];
            let res = Panel { title: String::from_str("Guild Detail"), lines };
            assert(res@.lines =~= guild_panel_of(app@).lines);
            res
        },
        None => notice_panel(NO_GUILD),
    }
}

/// The fields of the new-post modal, the focused one in the accent colour.
pub open spec fn create_fields_of(s: AppView) -> (FieldView, FieldView) {
    (
        FieldView {
            title: "Title"@,
            value: line(
                s.create_post_title,
                if s.create_post_focus == CreatePostFocus::Title {
                    Tone::Accent
                } else {
                    Tone::Bright
                },
            ),
        },
        FieldView {
            title: "Content"@,
            value: line(
                s.create_post_content,
                if s.create_post_focus == CreatePostFocus::Content {
                    Tone::Accent
                } else {
                    Tone::Bright
                },
            ),
        },
    )
}

/// The fields of the new-post modal: title, then content.
pub fn create_fields(app: &App) -> (res: (Field, Field))
    ensures
        (res.0@, res.1@) == create_fields_of(app@),
{
    let title_tone = if app.create_post_focus == CreatePostFocus::Title {
        Tone::Accent
    } else {
        Tone::Bright
    };
    let content_tone = if app.create_post_focus == CreatePostFocus::Content {
        Tone::Accent
    } else {
        Tone::Bright
    };
    (
        Field {
            title: String::from_str("Title"),
            value: text_line(app.create_post_title.clone(), title_tone),
        },
        Field {
            title: String::from_str("Content"),
            value: text_line(app.create_post_content.clone(), content_tone),
        },
    )
}

/// The field of the reply modal.
pub open spec fn reply_field_of(s: AppView) -> FieldView {
    FieldView { title: "Message"@, value: line(s.reply_content, Tone::Accent) }
}

/// The field of the reply modal.
pub fn reply_field(app: &App) -> (res: Field)
    ensures
        res@ == reply_field_of(app@),
{
    Field {
        title: String::from_str("Message"),
        value: text_line(app.reply_content.clone(), Tone::Accent),
    }
}

/// What is shown over the screen.
#[derive(Debug, Clone, Copy, PartialEq, Eq, Structural)]
pub enum Overlay {
    /// Nothing.
    Nothing,
    /// The new-post modal.
    NewPost,
    /// The open post.
    Post,
    /// The open post with the reply modal over it.
    PostAndReply,
}

/// What is shown over the screen: the new-post modal before all else, then
/// the open post, with the reply modal over it when that is open.
pub open spec fn overlay_of(s: AppView) -> Overlay {
    if s.show_create_post_modal {
        Overlay::NewPost
    } else if s.show_post_modal {
        if s.show_reply_modal {
            Overlay::PostAndReply
        } else {
            Overlay::Post
        }
    } else {
        Overlay::Nothing
    }
}

/// What is shown over the screen.
pub fn overlay(app: &App) -> (res: Overlay)
    ensures
        res == overlay_of(app@),
{
    if app.show_create_post_modal {
        Overlay::NewPost
    } else if app.show_post_modal {
        if app.show_reply_modal {
            Overlay::PostAndReply
        } else {
            Overlay::Post
        }
    } else {
        Overlay::Nothing
    }
}

} // verus!
