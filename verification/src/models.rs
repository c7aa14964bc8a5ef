//! The data exchanged with the service: what the client reads from responses
//! and what it sends in request bodies.
use vstd::prelude::*;

verus! {

/// A response whose payload sits under `data`.
#[derive(Debug, Clone)]
pub struct ApiWrap<T> {
    pub data: T,
}

/// A page of items, with the cursor of the next page when there is one.
#[derive(Debug, Clone)]
pub struct ApiList<T> {
    pub data: Vec<T>,
    pub cursor: Option<String>,
}

/// The body of an error response.
#[derive(Debug, Clone)]
pub struct ApiErrorBody {
    pub error: ApiErrorDetail,
}

/// The code and message of an error response.
#[derive(Debug, Clone)]
pub struct ApiErrorDetail {
    pub code: String,
    pub message: String,
}

/// The tokens handed out by a login or a refresh.
#[derive(Debug, Clone)]
pub struct LoginData {
    pub id_token: String,
    pub refresh_token: String,
}

/// A post of the feed.
#[derive(Debug, Clone)]
pub struct Post {
    pub post_id: String,
    pub author_username: String,
    pub content: String,
    pub title: Option<String>,
    pub replies_count: u32,
    pub bookmarks_count: u32,
}

/// A reply to a post.
#[derive(Debug, Clone)]
pub struct Reply {
    pub author_username: Option<String>,
    pub content: String,
}

/// A user profile.
#[derive(Debug, Clone)]
pub struct User {
    pub username: String,
    pub display_name: Option<String>,
    pub bio: Option<String>,
}

/// A watched post.
#[derive(Debug, Clone)]
pub struct Watch {
    pub id: String,
    pub post_id: String,
}

/// A bookmark.
#[derive(Debug, Clone)]
pub struct Bookmark {
    pub id: String,
    pub post_id: Option<String>,
}

/// A notification.
#[derive(Debug, Clone)]
pub struct Notification {
    pub id: String,
    pub kind: String,
    pub actor_username: Option<String>,
    pub read: bool,
}

/// A c-Mail conversation.
#[derive(Debug, Clone)]
pub struct CmailConversationRef {
    pub conversation_id: String,
    pub other_user: CmailUser,
}

/// The other party of a c-Mail conversation.
#[derive(Debug, Clone)]
pub struct CmailUser {
    pub username: String,
}

/// A c-Mail message.
#[derive(Debug, Clone)]
pub struct CmailMessage {
    pub content: String,
    pub sender_username: Option<String>,
}

/// A cIRC room.
#[derive(Debug, Clone)]
pub struct CircRoom {
    pub id: String,
    pub name: Option<String>,
}

/// A cIRC message.
#[derive(Debug, Clone)]
pub struct CircMessage {
    pub content: String,
    pub sender_username: Option<String>,
    pub is_action: bool,
    pub deleted: bool,
}

/// The body of a new post.
#[derive(Debug, Clone)]
pub struct NewPost {
    pub content: String,
    pub title: Option<String>,
    pub topics: Vec<String>,
    pub is_public: bool,
    pub is_nsfw: bool,
}

/// The body of a new reply.
#[derive(Debug, Clone)]
pub struct NewReply {
    pub post_id: String,
    pub content: String,
    pub parent_reply_id: Option<String>,
}

/// A topic.
#[derive(Debug, Clone)]
pub struct Topic {
    pub slug: String,
    pub name: String,
    pub post_count: Option<u32>,
}

/// A journal note.
#[derive(Debug, Clone)]
pub struct Note {
    pub id: String,
    pub content: String,
    pub topics: Vec<String>,
    pub created_at: Option<String>,
}

/// A guild.
#[derive(Debug, Clone)]
pub struct Guild {
    pub id: String,
    pub name: String,
    pub slug: String,
    pub founder_username: Option<String>,
    pub icon: Option<String>,
    pub bio: Option<String>,
    pub member_count: Option<u32>,
}

/// A note as a value: its topics as a sequence.
pub struct NoteView {
    pub id: String,
    pub content: String,
    pub topics: Seq<String>,
    pub created_at: Option<String>,
}

impl View for Note {
    type V = NoteView;

    open spec fn view(&self) -> NoteView {
        NoteView {
            id: self.id,
            content: self.content,
            topics: self.topics@,
            created_at: self.created_at,
        }
    }
}

/// The view of an optional string.
pub open spec fn opt_text(o: Option<String>) -> Option<Seq<char>> {
    match o {
        Some(s) => Some(s@),
        None => None,
    }
}

/// Copies an optional string.
pub fn copy_opt(o: &Option<String>) -> (res: Option<String>)
    ensures
        res == *o,
{
    match o {
        Some(s) => Some(s.clone()),
        None => None,
    }
}

impl Default for User {
    fn default() -> (res: User)
        ensures
            res.username@ == Seq::<char>::empty(),
            res.display_name is None,
            res.bio is None,
    {
        User { username: String::new(), display_name: None, bio: None }
    }
}

impl Post {
    /// An equal copy of the post.
    pub fn duplicate(&self) -> (res: Post)
        ensures
            res == *self,
    {
        Post {
            post_id: self.post_id.clone(),
            author_username: self.author_username.clone(),
            content: self.content.clone(),
            title: copy_opt(&self.title),
            replies_count: self.replies_count,
            bookmarks_count: self.bookmarks_count,
        }
    }
}

impl User {
    /// An equal copy of the user.
    pub fn duplicate(&self) -> (res: User)
        ensures
            res == *self,
    {
        User {
            username: self.username.clone(),
            display_name: copy_opt(&self.display_name),
            bio: copy_opt(&self.bio),
        }
    }
}

impl CmailConversationRef {
    /// An equal copy of the conversation.
    pub fn duplicate(&self) -> (res: CmailConversationRef)
        ensures
            res == *self,
    {
        CmailConversationRef {
            conversation_id: self.conversation_id.clone(),
            other_user: CmailUser { username: self.other_user.username.clone() },
        }
    }
}

impl CircRoom {
    /// An equal copy of the room.
    pub fn duplicate(&self) -> (res: CircRoom)
        ensures
            res == *self,
    {
        CircRoom { id: self.id.clone(), name: copy_opt(&self.name) }
    }
}

impl Guild {
    /// An equal copy of the guild.
    pub fn duplicate(&self) -> (res: Guild)
        ensures
            res == *self,
    {
        Guild {
            id: self.id.clone(),
            name: self.name.clone(),
            slug: self.slug.clone(),
            founder_username: copy_opt(&self.founder_username),
            icon: copy_opt(&self.icon),
            bio: copy_opt(&self.bio),
            member_count: self.member_count,
        }
    }
}

/// Copies a list of strings.
pub fn copy_texts(v: &Vec<String>) -> (res: Vec<String>)
    ensures
        res@ == v@,
{
    let mut out: Vec<String> = Vec::new();
    let mut i: usize = 0;
    while i < v.len()
        invariant
            i <= v.len(),
            out@ == v@.subrange(0, i as int),
        decreases v.len() - i,
    {
        out.push(v[i].clone());
        i = i + 1;
        assert(out@ =~= v@.subrange(0, i as int));
    }
    assert(v@.subrange(0, v.len() as int) =~= v@);
    out
}

impl Note {
    /// A copy of the note with the same view.
    pub fn duplicate(&self) -> (res: Note)
        ensures
            res@ == self@,
    {
        Note {
            id: self.id.clone(),
            content: self.content.clone(),
            topics: copy_texts(&self.topics),
            created_at: copy_opt(&self.created_at),
        }
    }
}

} // verus!
