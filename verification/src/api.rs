//! The requests the client sends: which method, which address, which token and
//! which body each operation of the service takes, and how a response's status
//! and error body are read.
use crate::models::{copy_opt, opt_text, ApiErrorDetail, LoginData, NewPost, NewReply};
use crate::text::{concat2, concat3};
use vstd::prelude::*;
use vstd::string::StringExecFns;

verus! {

/// The address of the service.
pub const BASE_URL: &'static str = "https://api.cyberspace.online";

/// The error given when a refresh is asked for without a refresh token.
pub const NO_REFRESH_TOKEN: &'static str = "Nessun refresh token disponibile";

/// An HTTP method.
#[derive(Debug, Clone, Copy, PartialEq, Eq, Structural)]
pub enum Method {
    Get,
    Post,
    Patch,
    Delete,
}

/// The JSON body of a request.
#[derive(Debug, Clone)]
pub enum RequestBody {
    Empty,
    Login { email: String, password: String },
    Refresh { refresh_token: String },
    NewPost(NewPost),
    NewReply(NewReply),
    Bookmark { post_id: String, kind: String },
    Content { content: String },
    Presence { last_activity: i64 },
    Note { content: String, topics: Vec<String> },
    Profile {
        bio: Option<String>,
        display_name: Option<String>,
        website_url: Option<String>,
        website_name: Option<String>,
    },
}

/// A request body as texts.
pub enum BodyView {
    Empty,
    Login { email: Seq<char>, password: Seq<char> },
    Refresh { refresh_token: Seq<char> },
    NewPost {
        content: Seq<char>,
        title: Option<Seq<char>>,
        topics: Seq<Seq<char>>,
        is_public: bool,
        is_nsfw: bool,
    },
    NewReply { post_id: Seq<char>, content: Seq<char>, parent_reply_id: Option<Seq<char>> },
    Bookmark { post_id: Seq<char>, kind: Seq<char> },
    Content { content: Seq<char> },
    Presence { last_activity: i64 },
    Note { content: Seq<char>, topics: Seq<Seq<char>> },
    Profile {
        bio: Option<Seq<char>>,
        display_name: Option<Seq<char>>,
        website_url: Option<Seq<char>>,
        website_name: Option<Seq<char>>,
    },
}

/// The texts of a list of strings.
pub open spec fn texts(v: Seq<String>) -> Seq<Seq<char>> {
    v.map_values(|s: String| s@)
}

impl View for RequestBody {
    type V = BodyView;

    open spec fn view(&self) -> BodyView {
        match self {
            RequestBody::Empty => BodyView::Empty,
            RequestBody::Login { email, password } => BodyView::Login {
                email: email@,
                password: password@,
            },
            RequestBody::Refresh { refresh_token } => BodyView::Refresh {
                refresh_token: refresh_token@,
            },
            RequestBody::NewPost(p) => BodyView::NewPost {
                content: p.content@,
                title: opt_text(p.title),
                topics: texts(p.topics@),
                is_public: p.is_public,
                is_nsfw: p.is_nsfw,
            },
            RequestBody::NewReply(r) => BodyView::NewReply {
                post_id: r.post_id@,
                content: r.content@,
                parent_reply_id: opt_text(r.parent_reply_id),
            },
            RequestBody::Bookmark { post_id, kind } => BodyView::Bookmark {
                post_id: post_id@,
                kind: kind@,
            },
            RequestBody::Content { content } => BodyView::Content { content: content@ },
            RequestBody::Presence { last_activity } => BodyView::Presence {
                last_activity: *last_activity,
            },
            RequestBody::Note { content, topics } => BodyView::Note {
                content: content@,
                topics: texts(topics@),
            },
            RequestBody::Profile { bio, display_name, website_url, website_name } =>
                BodyView::Profile {
                bio: opt_text(*bio),
                display_name: opt_text(*display_name),
                website_url: opt_text(*website_url),
                website_name: opt_text(*website_name),
            },
        }
    }
}

/// A request ready to be sent: `strict_ok` says that only status 200 counts
/// as success (any 2xx status does otherwise).
#[derive(Debug, Clone)]
pub struct ApiRequest {
    pub method: Method,
    pub url: String,
    pub bearer: Option<String>,
    pub body: RequestBody,
    pub strict_ok: bool,
}

/// A request as texts.
pub struct RequestView {
    pub method: Method,
    pub url: Seq<char>,
    pub bearer: Option<Seq<char>>,
    pub body: BodyView,
    pub strict_ok: bool,
}

impl View for ApiRequest {
    type V = RequestView;

    open spec fn view(&self) -> RequestView {
        RequestView {
            method: self.method,
            url: self.url@,
            bearer: opt_text(self.bearer),
            body: self.body@,
            strict_ok: self.strict_ok,
        }
    }
}

/// The client's tokens: the id token authorizes requests, the refresh token
/// renews it.
#[derive(Debug, Clone)]
pub struct ApiClient {
    pub id_token: Option<String>,
    pub refresh_token: Option<String>,
}

/// The client's tokens as texts.
pub struct ClientView {
    pub id_token: Option<Seq<char>>,
    pub refresh_token: Option<Seq<char>>,
}

impl View for ApiClient {
    type V = ClientView;

    open spec fn view(&self) -> ClientView {
        ClientView {
            id_token: opt_text(self.id_token),
            refresh_token: opt_text(self.refresh_token),
        }
    }
}

/// The full address of a path of the service.
pub open spec fn endpoint(path: Seq<char>) -> Seq<char> {
    BASE_URL@ + path
}

/// A request that carries the client's id token, if it has one.
pub open spec fn authed(c: ClientView, method: Method, path: Seq<char>, body: BodyView) -> RequestView {
    RequestView { method, url: endpoint(path), bearer: c.id_token, body, strict_ok: false }
}

/// A request without a token, answered successfully only by status 200.
pub open spec fn anonymous(path: Seq<char>, body: BodyView) -> RequestView {
    RequestView { method: Method::Post, url: endpoint(path), bearer: None, body, strict_ok: true }
}

/// The path of the first feed page, or of the page after `cursor`.
pub open spec fn posts_path(cursor: Option<Seq<char>>) -> Seq<char> {
    match cursor {
        Some(c) => "/v1/posts?limit=20&cursor="@ + c,
        None => "/v1/posts?limit=20"@,
    }
}

/// The body of a post with default options: no topics, public, not NSFW.
pub open spec fn plain_post_body(content: Seq<char>, title: Option<Seq<char>>) -> BodyView {
    BodyView::NewPost { content, title, topics: Seq::empty(), is_public: true, is_nsfw: false }
}

/// The body of a reply to a post, not to another reply.
pub open spec fn plain_reply_body(post_id: Seq<char>, content: Seq<char>) -> BodyView {
    BodyView::NewReply { post_id, content, parent_reply_id: None }
}

/// Whether a response status counts as success for a request.
pub open spec fn status_accepted(strict_ok: bool, status: u16) -> bool {
    if strict_ok {
        status == 200
    } else {
        200 <= status && status <= 299
    }
}

/// The error text of a failed response: the service's code and message when
/// its body gave them, the status otherwise.
pub open spec fn error_text(status: Seq<char>, detail: Option<(Seq<char>, Seq<char>)>) -> Seq<char> {
    match detail {
        Some((code, message)) => code + " ("@ + status + "): "@ + message,
        None => "HTTP "@ + status,
    }
}

impl ApiRequest {
    /// Whether the response status counts as success for this request.
    pub fn accepts_status(&self, status: u16) -> (res: bool)
        ensures
            res == status_accepted(self.strict_ok, status),
    {
        if self.strict_ok {
            status == 200
        } else {
            200 <= status && status <= 299
        }
    }
}

/// The error text of a failed response with the given status text and the
/// error body when one could be read.
pub fn error_message(status: &str, detail: Option<ApiErrorDetail>) -> (res: String)
    ensures
        res@ == error_text(
            status@,
            match detail {
                Some(d) => Some((d.code@, d.message@)),
                None => None,
            },
        ),
{
    match detail {
        Some(d) => {
            let mut s = concat3(d.code.as_str(), " (", status);
            s.append("): ");
            s.append(d.message.as_str());
            s
        },
        None => concat2("HTTP ", status),
    }
}

impl ApiClient {
    /// A client without tokens.
    pub fn new() -> (res: ApiClient)
        ensures
            res.id_token is None,
            res.refresh_token is None,
    {
        ApiClient { id_token: None, refresh_token: None }
    }

    /// A client with an id token and maybe a refresh token.
    pub fn with_tokens(id: String, rt: Option<String>) -> (res: ApiClient)
        ensures
            res.id_token == Some(id),
            res.refresh_token == rt,
    {
        ApiClient { id_token: Some(id), refresh_token: rt }
    }

    /// Copies of the id token and the refresh token.
    pub fn snapshot_tokens(&self) -> (res: (Option<String>, Option<String>))
        ensures
            res.0 == self.id_token,
            res.1 == self.refresh_token,
    {
        (copy_opt(&self.id_token), copy_opt(&self.refresh_token))
    }

    /// Keeps the tokens of a successful login or refresh.
    pub fn store_tokens(&mut self, data: LoginData)
        ensures
            final(self).id_token == Some(data.id_token),
            final(self).refresh_token == Some(data.refresh_token),
    {
        self.id_token = Some(data.id_token);
        self.refresh_token = Some(data.refresh_token);
    }

    /// A request to a path of the service with the id token, if any.
    pub fn req(&self, method: Method, path: &str, body: RequestBody) -> (res: ApiRequest)
        ensures
            res@ == authed(self@, method, path@, body@),
    {
        ApiRequest {
            method,
            url: concat2(BASE_URL, path),
            bearer: copy_opt(&self.id_token),
            body,
            strict_ok: false,
        }
    }

    /// The login request.
    pub fn login(&self, email: &str, pass: &str) -> (res: ApiRequest)
        ensures
            res@ == anonymous(
                "/v1/auth/login"@,
                BodyView::Login { email: email@, password: pass@ },
            ),
    {
        let body = RequestBody::Login {
            email: String::from_str(email),
            password: String::from_str(pass),
        };
        ApiRequest {
            method: Method::Post,
            url: concat2(BASE_URL, "/v1/auth/login"),
            bearer: None,
            body,
            strict_ok: true,
        }
    }

    /// The request renewing the tokens, or an error when there is no refresh
    /// token.
    pub fn refresh(&self) -> (res: Result<ApiRequest, String>)
        ensures
            self.refresh_token is None ==> res is Err && res->Err_0@ == NO_REFRESH_TOKEN@,
            self.refresh_token matches Some(t) ==> res is Ok && res->Ok_0@ == anonymous(
                "/v1/auth/refresh"@,
                BodyView::Refresh { refresh_token: t@ },
            ),
    {
        match &self.refresh_token {
            None => Err(String::from_str(NO_REFRESH_TOKEN)),
            Some(t) => Ok(
                ApiRequest {
                    method: Method::Post,
                    url: concat2(BASE_URL, "/v1/auth/refresh"),
                    bearer: None,
                    body: RequestBody::Refresh { refresh_token: t.clone() },
                    strict_ok: true,
                },
            ),
        }
    }

    /// The request for the first feed page, or for the page after `cursor`.
    pub fn get_posts(&self, cursor: Option<&str>) -> (res: ApiRequest)
        ensures
            res@ == authed(
                self@,
                Method::Get,
                posts_path(
                    match cursor {
                        Some(c) => Some(c@),
                        None => None,
                    },
                ),
                BodyView::Empty,
            ),
    {
        match cursor {
            Some(c) => {
                let p = concat2("/v1/posts?limit=20&cursor=", c);
                self.req(Method::Get, p.as_str(), RequestBody::Empty)
            },
            None => self.req(Method::Get, "/v1/posts?limit=20", RequestBody::Empty),
        }
    }

    /// The request for one post.
    pub fn get_post(&self, id: &str) -> (res: ApiRequest)
        ensures
            res@ == authed(self@, Method::Get, "/v1/posts/"@ + id@, BodyView::Empty),
    {
        let p = concat2("/v1/posts/", id);
        self.req(Method::Get, p.as_str(), RequestBody::Empty)
    }

    /// The request for the replies to a post.
    pub fn get_replies(&self, pid: &str) -> (res: ApiRequest)
        ensures
            res@ == authed(
                self@,
                Method::Get,
                "/v1/posts/"@ + pid@ + "/replies?limit=20"@,
                BodyView::Empty,
            ),
    {
        let p = concat3("/v1/posts/", pid, "/replies?limit=20");
        self.req(Method::Get, p.as_str(), RequestBody::Empty)
    }

    /// The request publishing a post.
    pub fn create_post(
        &self,
        content: &str,
        title: Option<&str>,
        topics: Vec<String>,
        is_public: bool,
        is_nsfw: bool,
    ) -> (res: ApiRequest)
        ensures
            res@ == authed(
                self@,
                Method::Post,
                "/v1/posts"@,
                BodyView::NewPost {
                    content: content@,
                    title: match title {
                        Some(t) => Some(t@),
                        None => None,
                    },
                    topics: texts(topics@),
                    is_public,
                    is_nsfw,
                },
            ),
    {
        let title = match title {
            Some(t) => Some(String::from_str(t)),
            None => None,
        };
        let body = NewPost { content: String::from_str(content), title, topics, is_public, is_nsfw };
        self.req(Method::Post, "/v1/posts", RequestBody::NewPost(body))
    }

    /// The request publishing a reply to a post, or to one of its replies.
    pub fn create_reply(&self, pid: &str, content: &str, parent: Option<&str>) -> (res: ApiRequest)
        ensures
            res@ == authed(
                self@,
                Method::Post,
                "/v1/replies"@,
                BodyView::NewReply {
                    post_id: pid@,
                    content: content@,
                    parent_reply_id: match parent {
                        Some(t) => Some(t@),
                        None => None,
                    },
                },
            ),
    {
        let parent_reply_id = match parent {
            Some(t) => Some(String::from_str(t)),
            None => None,
        };
        let body = NewReply {
            post_id: String::from_str(pid),
            content: String::from_str(content),
            parent_reply_id,
        };
        self.req(Method::Post, "/v1/replies", RequestBody::NewReply(body))
    }

    /// The request watching a post.
    pub fn watch(&self, pid: &str) -> (res: ApiRequest)
        ensures
            res@ == authed(self@, Method::Post, "/v1/posts/"@ + pid@ + "/watch"@, BodyView::Empty),
    {
        let p = concat3("/v1/posts/", pid, "/watch");
        self.req(Method::Post, p.as_str(), RequestBody::Empty)
    }

    /// The request for the watched posts.
    pub fn get_watches(&self) -> (res: ApiRequest)
        ensures
            res@ == authed(self@, Method::Get, "/v1/watches?limit=20"@, BodyView::Empty),
    {
        self.req(Method::Get, "/v1/watches?limit=20", RequestBody::Empty)
    }

    /// The request for the bookmarks.
    pub fn get_bookmarks(&self) -> (res: ApiRequest)
        ensures
            res@ == authed(self@, Method::Get, "/v1/bookmarks?limit=20"@, BodyView::Empty),
    {
        self.req(Method::Get, "/v1/bookmarks?limit=20", RequestBody::Empty)
    }

    /// The request bookmarking a post.
    pub fn add_bookmark_post(&self, pid: &str) -> (res: ApiRequest)
        ensures
            res@ == authed(
                self@,
                Method::Post,
                "/v1/bookmarks"@,
                BodyView::Bookmark { post_id: pid@, kind: "post"@ },
            ),
    {
        let body = RequestBody::Bookmark {
            post_id: String::from_str(pid),
            kind: String::from_str("post"),
        };
        self.req(Method::Post, "/v1/bookmarks", body)
    }

    /// The request for the notifications.
    pub fn get_notifications(&self) -> (res: ApiRequest)
        ensures
            res@ == authed(self@, Method::Get, "/v1/notifications?limit=20"@, BodyView::Empty),
    {
        self.req(Method::Get, "/v1/notifications?limit=20", RequestBody::Empty)
    }

    /// The request for the number of unread notifications.
    pub fn unread_count(&self) -> (res: ApiRequest)
        ensures
            res@ == authed(self@, Method::Get, "/v1/notifications/unread-count"@, BodyView::Empty),
    {
        self.req(Method::Get, "/v1/notifications/unread-count", RequestBody::Empty)
    }

    /// The request marking all notifications read.
    pub fn mark_all_read(&self) -> (res: ApiRequest)
        ensures
            res@ == authed(self@, Method::Post, "/v1/notifications/read-all"@, BodyView::Empty),
    {
        self.req(Method::Post, "/v1/notifications/read-all", RequestBody::Empty)
    }

    /// The request for the c-Mail conversations.
    pub fn cmail_list(&self) -> (res: ApiRequest)
        ensures
            res@ == authed(self@, Method::Get, "/v1/cmail"@, BodyView::Empty),
    {
        self.req(Method::Get, "/v1/cmail", RequestBody::Empty)
    }

    /// The request for the messages of a c-Mail conversation.
    pub fn cmail_messages(&self, cid: &str) -> (res: ApiRequest)
        ensures
            res@ == authed(self@, Method::Get, "/v1/cmail/"@ + cid@ + "?limit=50"@, BodyView::Empty),
    {
        let p = concat3("/v1/cmail/", cid, "?limit=50");
        self.req(Method::Get, p.as_str(), RequestBody::Empty)
    }

    /// The request sending a c-Mail message.
    pub fn cmail_send(&self, cid: &str, content: &str) -> (res: ApiRequest)
        ensures
            res@ == authed(
                self@,
                Method::Post,
                "/v1/cmail/"@ + cid@,
                BodyView::Content { content: content@ },
            ),
    {
        let p = concat2("/v1/cmail/", cid);
        self.req(Method::Post, p.as_str(), RequestBody::Content { content: String::from_str(content) })
    }

    /// The request marking a c-Mail conversation read.
    pub fn cmail_mark_read(&self, cid: &str) -> (res: ApiRequest)
        ensures
            res@ == authed(self@, Method::Post, "/v1/cmail/"@ + cid@ + "/read"@, BodyView::Empty),
    {
        let p = concat3("/v1/cmail/", cid, "/read");
        self.req(Method::Post, p.as_str(), RequestBody::Empty)
    }

    /// The request for the cIRC rooms.
    pub fn circ_rooms(&self) -> (res: ApiRequest)
        ensures
            res@ == authed(self@, Method::Get, "/v1/circ"@, BodyView::Empty),
    {
        self.req(Method::Get, "/v1/circ", RequestBody::Empty)
    }

    /// The request for the messages of a cIRC room.
    pub fn circ_messages(&self, rid: &str) -> (res: ApiRequest)
        ensures
            res@ == authed(self@, Method::Get, "/v1/circ/"@ + rid@ + "?limit=50"@, BodyView::Empty),
    {
        let p = concat3("/v1/circ/", rid, "?limit=50");
        self.req(Method::Get, p.as_str(), RequestBody::Empty)
    }

    /// The request sending a cIRC message.
    pub fn circ_send(&self, rid: &str, content: &str) -> (res: ApiRequest)
        ensures
            res@ == authed(
                self@,
                Method::Post,
                "/v1/circ/"@ + rid@,
                BodyView::Content { content: content@ },
            ),
    {
        let p = concat2("/v1/circ/", rid);
        self.req(Method::Post, p.as_str(), RequestBody::Content { content: String::from_str(content) })
    }

    /// The presence heartbeat of a cIRC room, stamped with `now`, the time of
    /// the last activity in milliseconds since the Unix epoch.
    pub fn circ_presence_heartbeat(&self, rid: &str, now: i64) -> (res: ApiRequest)
        ensures
            res@ == authed(
                self@,
                Method::Post,
                "/v1/circ/"@ + rid@ + "/presence"@,
                BodyView::Presence { last_activity: now },
            ),
    {
        let p = concat3("/v1/circ/", rid, "/presence");
        self.req(Method::Post, p.as_str(), RequestBody::Presence { last_activity: now })
    }

    /// The request for the logged-in user's profile.
    pub fn get_me(&self) -> (res: ApiRequest)
        ensures
            res@ == authed(self@, Method::Get, "/v1/users/me"@, BodyView::Empty),
    {
        self.req(Method::Get, "/v1/users/me", RequestBody::Empty)
    }

    /// The request for a user's posts.
    pub fn get_user_posts(&self, u: &str) -> (res: ApiRequest)
        ensures
            res@ == authed(self@, Method::Get, "/v1/users/"@ + u@ + "/posts?limit=20"@, BodyView::Empty),
    {
        let p = concat3("/v1/users/", u, "/posts?limit=20");
        self.req(Method::Get, p.as_str(), RequestBody::Empty)
    }

    /// The request for the topics.
    pub fn get_topics(&self) -> (res: ApiRequest)
        ensures
            res@ == authed(self@, Method::Get, "/v1/topics"@, BodyView::Empty),
    {
        self.req(Method::Get, "/v1/topics", RequestBody::Empty)
    }

    /// The request for the posts of a topic.
    pub fn get_topic_posts(&self, slug: &str) -> (res: ApiRequest)
        ensures
            res@ == authed(
                self@,
                Method::Get,
                "/v1/topics/"@ + slug@ + "/posts?limit=20"@,
                BodyView::Empty,
            ),
    {
        let p = concat3("/v1/topics/", slug, "/posts?limit=20");
        self.req(Method::Get, p.as_str(), RequestBody::Empty)
    }

    /// The request for the journal notes.
    pub fn get_notes(&self) -> (res: ApiRequest)
        ensures
            res@ == authed(self@, Method::Get, "/v1/notes?limit=20"@, BodyView::Empty),
    {
        self.req(Method::Get, "/v1/notes?limit=20", RequestBody::Empty)
    }

    /// The request for one journal note.
    pub fn get_note(&self, id: &str) -> (res: ApiRequest)
        ensures
            res@ == authed(self@, Method::Get, "/v1/notes/"@ + id@, BodyView::Empty),
    {
        let p = concat2("/v1/notes/", id);
        self.req(Method::Get, p.as_str(), RequestBody::Empty)
    }

    /// The request creating a journal note.
    pub fn create_note(&self, content: &str, topics: Vec<String>) -> (res: ApiRequest)
        ensures
            res@ == authed(
                self@,
                Method::Post,
                "/v1/notes"@,
                BodyView::Note { content: content@, topics: texts(topics@) },
            ),
    {
        self.req(
            Method::Post,
            "/v1/notes",
            RequestBody::Note { content: String::from_str(content), topics },
        )
    }

    /// The request changing a journal note.
    pub fn update_note(&self, id: &str, content: &str, topics: Vec<String>) -> (res: ApiRequest)
        ensures
            res@ == authed(
                self@,
                Method::Patch,
                "/v1/notes/"@ + id@,
                BodyView::Note { content: content@, topics: texts(topics@) },
            ),
    {
        let p = concat2("/v1/notes/", id);
        self.req(
            Method::Patch,
            p.as_str(),
            RequestBody::Note { content: String::from_str(content), topics },
        )
    }

    /// The request deleting a journal note.
    pub fn delete_note(&self, id: &str) -> (res: ApiRequest)
        ensures
            res@ == authed(self@, Method::Delete, "/v1/notes/"@ + id@, BodyView::Empty),
    {
        let p = concat2("/v1/notes/", id);
        self.req(Method::Delete, p.as_str(), RequestBody::Empty)
    }

    /// The request for the guilds.
    pub fn get_guilds(&self) -> (res: ApiRequest)
        ensures
            res@ == authed(self@, Method::Get, "/v1/guilds?limit=20"@, BodyView::Empty),
    {
        self.req(Method::Get, "/v1/guilds?limit=20", RequestBody::Empty)
    }

    /// The request for one guild.
    pub fn get_guild(&self, slug: &str) -> (res: ApiRequest)
        ensures
            res@ == authed(self@, Method::Get, "/v1/guilds/"@ + slug@, BodyView::Empty),
    {
        let p = concat2("/v1/guilds/", slug);
        self.req(Method::Get, p.as_str(), RequestBody::Empty)
    }

    /// The request for the posts of a guild.
    pub fn get_guild_posts(&self, slug: &str) -> (res: ApiRequest)
        ensures
            res@ == authed(
                self@,
                Method::Get,
                "/v1/guilds/"@ + slug@ + "/posts?limit=20"@,
                BodyView::Empty,
            ),
    {
        let p = concat3("/v1/guilds/", slug, "/posts?limit=20");
        self.req(Method::Get, p.as_str(), RequestBody::Empty)
    }

    /// The request joining a guild.
    pub fn join_guild(&self, slug: &str) -> (res: ApiRequest)
        ensures
            res@ == authed(self@, Method::Post, "/v1/guilds/"@ + slug@ + "/join"@, BodyView::Empty),
    {
        let p = concat3("/v1/guilds/", slug, "/join");
        self.req(Method::Post, p.as_str(), RequestBody::Empty)
    }

    /// The request leaving a guild.
    pub fn leave_guild(&self, slug: &str) -> (res: ApiRequest)
        ensures
            res@ == authed(self@, Method::Post, "/v1/guilds/"@ + slug@ + "/leave"@, BodyView::Empty),
    {
        let p = concat3("/v1/guilds/", slug, "/leave");
        self.req(Method::Post, p.as_str(), RequestBody::Empty)
    }

    /// The request changing the logged-in user's profile; absent fields are
    /// left out of the body.
    pub fn update_profile(
        &self,
        bio: Option<&str>,
        display_name: Option<&str>,
        website_url: Option<&str>,
        website_name: Option<&str>,
    ) -> (res: ApiRequest)
        ensures
            res@ == authed(
                self@,
                Method::Patch,
                "/v1/users/me"@,
                BodyView::Profile {
                    bio: opt_str(bio),
                    display_name: opt_str(display_name),
                    website_url: opt_str(website_url),
                    website_name: opt_str(website_name),
                },
            ),
    {
        let body = RequestBody::Profile {
            bio: owned_opt(bio),
            display_name: owned_opt(display_name),
            website_url: owned_opt(website_url),
            website_name: owned_opt(website_name),
        };
        self.req(Method::Patch, "/v1/users/me", body)
    }
}

/// The view of an optional string slice.
pub open spec fn opt_str(o: Option<&str>) -> Option<Seq<char>> {
    match o {
        Some(s) => Some(s@),
        None => None,
    }
}

/// An owned copy of an optional string slice.
pub fn owned_opt(o: Option<&str>) -> (res: Option<String>)
    ensures
        opt_text(res) == opt_str(o),
{
    match o {
        Some(s) => Some(String::from_str(s)),
        None => None,
    }
}

/// An operation of the service, with its arguments, before the client adds
/// its tokens.
#[derive(Debug, Clone)]
pub enum ApiCall {
    Login { email: String, password: String },
    Refresh,
    GetPosts { cursor: Option<String> },
    GetReplies { post_id: String },
    CreatePost { content: String, title: Option<String> },
    CreateReply { post_id: String, content: String },
    Watch { post_id: String },
    AddBookmarkPost { post_id: String },
    GetNotifications,
    UnreadCount,
    MarkAllRead,
    CmailList,
    CmailMessages { cid: String },
    CmailSend { cid: String, content: String },
    CmailMarkRead { cid: String },
    CircRooms,
    CircMessages { rid: String },
    CircSend { rid: String, content: String },
    CircPresenceHeartbeat { rid: String },
    GetMe,
    GetUserPosts { username: String },
    GetBookmarks,
    GetTopics,
    GetTopicPosts { slug: String },
    GetNotes,
    GetGuilds,
    GetGuildPosts { slug: String },
}

/// An operation of the service as texts.
pub enum CallView {
    Login { email: Seq<char>, password: Seq<char> },
    Refresh,
    GetPosts { cursor: Option<Seq<char>> },
    GetReplies { post_id: Seq<char> },
    CreatePost { content: Seq<char>, title: Option<Seq<char>> },
    CreateReply { post_id: Seq<char>, content: Seq<char> },
    Watch { post_id: Seq<char> },
    AddBookmarkPost { post_id: Seq<char> },
    GetNotifications,
    UnreadCount,
    MarkAllRead,
    CmailList,
    CmailMessages { cid: Seq<char> },
    CmailSend { cid: Seq<char>, content: Seq<char> },
    CmailMarkRead { cid: Seq<char> },
    CircRooms,
    CircMessages { rid: Seq<char> },
    CircSend { rid: Seq<char>, content: Seq<char> },
    CircPresenceHeartbeat { rid: Seq<char> },
    GetMe,
    GetUserPosts { username: Seq<char> },
    GetBookmarks,
    GetTopics,
    GetTopicPosts { slug: Seq<char> },
    GetNotes,
    GetGuilds,
    GetGuildPosts { slug: Seq<char> },
}

impl View for ApiCall {
    type V = CallView;

    open spec fn view(&self) -> CallView {
        match self {
            ApiCall::Login { email, password } => CallView::Login {
                email: email@,
                password: password@,
            },
            ApiCall::Refresh => CallView::Refresh,
            ApiCall::GetPosts { cursor } => CallView::GetPosts { cursor: opt_text(*cursor) },
            ApiCall::GetReplies { post_id } => CallView::GetReplies { post_id: post_id@ },
            ApiCall::CreatePost { content, title } => CallView::CreatePost {
                content: content@,
                title: opt_text(*title),
            },
            ApiCall::CreateReply { post_id, content } => CallView::CreateReply {
                post_id: post_id@,
                content: content@,
            },
            ApiCall::Watch { post_id } => CallView::Watch { post_id: post_id@ },
            ApiCall::AddBookmarkPost { post_id } => CallView::AddBookmarkPost { post_id: post_id@ },
            ApiCall::GetNotifications => CallView::GetNotifications,
            ApiCall::UnreadCount => CallView::UnreadCount,
            ApiCall::MarkAllRead => CallView::MarkAllRead,
            ApiCall::CmailList => CallView::CmailList,
            ApiCall::CmailMessages { cid } => CallView::CmailMessages { cid: cid@ },
            ApiCall::CmailSend { cid, content } => CallView::CmailSend {
                cid: cid@,
                content: content@,
            },
            ApiCall::CmailMarkRead { cid } => CallView::CmailMarkRead { cid: cid@ },
            ApiCall::CircRooms => CallView::CircRooms,
            ApiCall::CircMessages { rid } => CallView::CircMessages { rid: rid@ },
            ApiCall::CircSend { rid, content } => CallView::CircSend {
                rid: rid@,
                content: content@,
            },
            ApiCall::CircPresenceHeartbeat { rid } => CallView::CircPresenceHeartbeat { rid: rid@ },
            ApiCall::GetMe => CallView::GetMe,
            ApiCall::GetUserPosts { username } => CallView::GetUserPosts { username: username@ },
            ApiCall::GetBookmarks => CallView::GetBookmarks,
            ApiCall::GetTopics => CallView::GetTopics,
            ApiCall::GetTopicPosts { slug } => CallView::GetTopicPosts { slug: slug@ },
            ApiCall::GetNotes => CallView::GetNotes,
            ApiCall::GetGuilds => CallView::GetGuilds,
            ApiCall::GetGuildPosts { slug } => CallView::GetGuildPosts { slug: slug@ },
        }
    }
}

/// The request that carries out an operation for a client, `now` being the
/// time stamped on a presence heartbeat; none for a refresh without a refresh
/// token.
pub open spec fn call_request(c: ClientView, call: CallView, now: i64) -> Option<RequestView> {
    match call {
        CallView::Login { email, password } => Some(
            anonymous("/v1/auth/login"@, BodyView::Login { email, password }),
        ),
        CallView::Refresh => match c.refresh_token {
            Some(t) => Some(anonymous("/v1/auth/refresh"@, BodyView::Refresh { refresh_token: t })),
            None => None,
        },
        CallView::GetPosts { cursor } => Some(
            authed(c, Method::Get, posts_path(cursor), BodyView::Empty),
        ),
        CallView::GetReplies { post_id } => Some(
            authed(c, Method::Get, "/v1/posts/"@ + post_id + "/replies?limit=20"@, BodyView::Empty),
        ),
        CallView::CreatePost { content, title } => Some(
            authed(c, Method::Post, "/v1/posts"@, plain_post_body(content, title)),
        ),
        CallView::CreateReply { post_id, content } => Some(
            authed(c, Method::Post, "/v1/replies"@, plain_reply_body(post_id, content)),
        ),
        CallView::Watch { post_id } => Some(
            authed(c, Method::Post, "/v1/posts/"@ + post_id + "/watch"@, BodyView::Empty),
        ),
        CallView::AddBookmarkPost { post_id } => Some(
            authed(
                c,
                Method::Post,
                "/v1/bookmarks"@,
                BodyView::Bookmark { post_id, kind: "post"@ },
            ),
        ),
        CallView::GetNotifications => Some(
            authed(c, Method::Get, "/v1/notifications?limit=20"@, BodyView::Empty),
        ),
        CallView::UnreadCount => Some(
            authed(c, Method::Get, "/v1/notifications/unread-count"@, BodyView::Empty),
        ),
        CallView::MarkAllRead => Some(
            authed(c, Method::Post, "/v1/notifications/read-all"@, BodyView::Empty),
        ),
        CallView::CmailList => Some(authed(c, Method::Get, "/v1/cmail"@, BodyView::Empty)),
        CallView::CmailMessages { cid } => Some(
            authed(c, Method::Get, "/v1/cmail/"@ + cid + "?limit=50"@, BodyView::Empty),
        ),
        CallView::CmailSend { cid, content } => Some(
            authed(c, Method::Post, "/v1/cmail/"@ + cid, BodyView::Content { content }),
        ),
        CallView::CmailMarkRead { cid } => Some(
            authed(c, Method::Post, "/v1/cmail/"@ + cid + "/read"@, BodyView::Empty),
        ),
        CallView::CircRooms => Some(authed(c, Method::Get, "/v1/circ"@, BodyView::Empty)),
        CallView::CircMessages { rid } => Some(
            authed(c, Method::Get, "/v1/circ/"@ + rid + "?limit=50"@, BodyView::Empty),
        ),
        CallView::CircSend { rid, content } => Some(
            authed(c, Method::Post, "/v1/circ/"@ + rid, BodyView::Content { content }),
        ),
        CallView::CircPresenceHeartbeat { rid } => Some(
            authed(
                c,
                Method::Post,
                "/v1/circ/"@ + rid + "/presence"@,
                BodyView::Presence { last_activity: now },
            ),
        ),
        CallView::GetMe => Some(authed(c, Method::Get, "/v1/users/me"@, BodyView::Empty)),
        CallView::GetUserPosts { username } => Some(
            authed(c, Method::Get, "/v1/users/"@ + username + "/posts?limit=20"@, BodyView::Empty),
        ),
        CallView::GetBookmarks => Some(
            authed(c, Method::Get, "/v1/bookmarks?limit=20"@, BodyView::Empty),
        ),
        CallView::GetTopics => Some(authed(c, Method::Get, "/v1/topics"@, BodyView::Empty)),
        CallView::GetTopicPosts { slug } => Some(
            authed(c, Method::Get, "/v1/topics/"@ + slug + "/posts?limit=20"@, BodyView::Empty),
        ),
        CallView::GetNotes => Some(authed(c, Method::Get, "/v1/notes?limit=20"@, BodyView::Empty)),
        CallView::GetGuilds => Some(
            authed(c, Method::Get, "/v1/guilds?limit=20"@, BodyView::Empty),
        ),
        CallView::GetGuildPosts { slug } => Some(
            authed(c, Method::Get, "/v1/guilds/"@ + slug + "/posts?limit=20"@, BodyView::Empty),
        ),
    }
}

/// The view of an optional request.
pub open spec fn opt_request(r: Result<ApiRequest, String>) -> Option<RequestView> {
    match r {
        Ok(q) => Some(q@),
        Err(_) => None,
    }
}

impl ApiClient {
    /// The request that carries out an operation, a presence heartbeat being
    /// stamped with `now`; the error of `refresh` when a refresh is asked for
    /// without a refresh token.
    pub fn request_for(&self, call: &ApiCall, now: i64) -> (res: Result<ApiRequest, String>)
        ensures
            opt_request(res) == call_request(self@, call@, now),
            res matches Err(e) ==> e@ == NO_REFRESH_TOKEN@,
    {
        let res = match call {
            ApiCall::Login { email, password } => Ok(self.login(email.as_str(), password.as_str())),
            ApiCall::Refresh => self.refresh(),
            ApiCall::GetPosts { cursor } => match cursor {
                Some(c) => Ok(self.get_posts(Some(c.as_str()))),
                None => Ok(self.get_posts(None)),
            },
            ApiCall::GetReplies { post_id } => Ok(self.get_replies(post_id.as_str())),
            ApiCall::CreatePost { content, title } => {
                let t = match title {
                    Some(t) => Some(t.as_str()),
                    None => None,
                };
                let r = self.create_post(content.as_str(), t, Vec::new(), true, false);
                proof {
                    assert(texts(Seq::<String>::empty()) =~= Seq::<Seq<char>>::empty());
                }
                Ok(r)
            },
            ApiCall::CreateReply { post_id, content } => Ok(
                self.create_reply(post_id.as_str(), content.as_str(), None),
            ),
            ApiCall::Watch { post_id } => Ok(self.watch(post_id.as_str())),
            ApiCall::AddBookmarkPost { post_id } => Ok(self.add_bookmark_post(post_id.as_str())),
            ApiCall::GetNotifications => Ok(self.get_notifications()),
            ApiCall::UnreadCount => Ok(self.unread_count()),
            ApiCall::MarkAllRead => Ok(self.mark_all_read()),
            ApiCall::CmailList => Ok(self.cmail_list()),
            ApiCall::CmailMessages { cid } => Ok(self.cmail_messages(cid.as_str())),
            ApiCall::CmailSend { cid, content } => Ok(
                self.cmail_send(cid.as_str(), content.as_str()),
            ),
            ApiCall::CmailMarkRead { cid } => Ok(self.cmail_mark_read(cid.as_str())),
            ApiCall::CircRooms => Ok(self.circ_rooms()),
            ApiCall::CircMessages { rid } => Ok(self.circ_messages(rid.as_str())),
            ApiCall::CircSend { rid, content } => Ok(self.circ_send(rid.as_str(), content.as_str())),
            ApiCall::CircPresenceHeartbeat { rid } => Ok(self.circ_presence_heartbeat(rid.as_str(), now)),
            ApiCall::GetMe => Ok(self.get_me()),
            ApiCall::GetUserPosts { username } => Ok(self.get_user_posts(username.as_str())),
            ApiCall::GetBookmarks => Ok(self.get_bookmarks()),
            ApiCall::GetTopics => Ok(self.get_topics()),
            ApiCall::GetTopicPosts { slug } => Ok(self.get_topic_posts(slug.as_str())),
            ApiCall::GetNotes => Ok(self.get_notes()),
            ApiCall::GetGuilds => Ok(self.get_guilds()),
            ApiCall::GetGuildPosts { slug } => Ok(self.get_guild_posts(slug.as_str())),
        };
        assert(opt_request(res) == call_request(self@, call@, now));
        res
    }
}

} // verus!
