//! The persisted login session and where it is stored.
use crate::models::opt_text;
use crate::text::{join_path, join_path_text};
use vstd::prelude::*;

verus! {

/// The tokens and user name kept between runs.
#[derive(Debug, Clone)]
pub struct Session {
    pub id_token: Option<String>,
    pub refresh_token: Option<String>,
    pub username: Option<String>,
}

/// A session as texts.
pub struct SessionView {
    pub id_token: Option<Seq<char>>,
    pub refresh_token: Option<Seq<char>>,
    pub username: Option<Seq<char>>,
}

impl View for Session {
    type V = SessionView;

    open spec fn view(&self) -> SessionView {
        SessionView {
            id_token: opt_text(self.id_token),
            refresh_token: opt_text(self.refresh_token),
            username: opt_text(self.username),
        }
    }
}

/// The session of nobody logged in.
pub open spec fn empty_session() -> SessionView {
    SessionView { id_token: None, refresh_token: None, username: None }
}

impl Default for Session {
    fn default() -> (res: Session)
        ensures
            res@ == empty_session(),
    {
        Session { id_token: None, refresh_token: None, username: None }
    }
}

impl Session {
    /// Whether the session holds an id token.
    pub fn is_authenticated(&self) -> (res: bool)
        ensures
            res == self.id_token is Some,
    {
        self.id_token.is_some()
    }
}

/// The name of the application's directory under the configuration directory.
pub const APP_DIR_NAME: &'static str = "cyber-tui";

/// The name of the session file in the application's directory.
pub const SESSION_FILE_NAME: &'static str = "session.json";

/// The message given when no configuration directory is known.
pub const NO_CONFIG_DIR: &'static str = "Impossibile determinare la config dir";

/// The user's configuration directory, from `dirs::config_dir`.
///
/// What comes back depends on the platform and the environment, so nothing is
/// stated of it; a path that is not valid Unicode is converted lossily.
#[verifier::external_body]
fn user_config_dir() -> (res: Option<String>) {
    match dirs::config_dir() {
        Some(p) => Some(p.to_string_lossy().into_owned()),
        None => None,
    }
}

/// The application's directory under a given configuration directory, or the
/// error when there is none.
pub fn config_dir_in(base: Option<String>) -> (res: Result<String, String>)
    ensures
        base is None ==> res is Err && res->Err_0@ == NO_CONFIG_DIR@,
        base matches Some(b) ==> res is Ok && res->Ok_0@ == join_path(b@, APP_DIR_NAME@),
{
    match base {
        None => Err(String::from_str(NO_CONFIG_DIR)),
        Some(b) => Ok(join_path_text(b.as_str(), APP_DIR_NAME)),
    }
}

/// The application's directory under the user's configuration directory.
pub fn config_dir() -> (res: Result<String, String>)
    ensures
        res matches Ok(p) ==> exists|b: Seq<char>| p@ == join_path(b, APP_DIR_NAME@),
        res matches Err(e) ==> e@ == NO_CONFIG_DIR@,
{
    config_dir_in(user_config_dir())
}

/// The session file in a given application directory.
pub fn session_path_in(dir: &str) -> (res: String)
    ensures
        res@ == join_path(dir@, SESSION_FILE_NAME@),
{
    join_path_text(dir, SESSION_FILE_NAME)
}

/// The session file under the user's configuration directory.
pub fn session_path() -> (res: Result<String, String>)
    ensures
        res matches Ok(p) ==> exists|b: Seq<char>|
            p@ == join_path(join_path(b, APP_DIR_NAME@), SESSION_FILE_NAME@),
        res matches Err(e) ==> e@ == NO_CONFIG_DIR@,
{
    match config_dir() {
        Ok(dir) => {
            let p = session_path_in(dir.as_str());
            proof {
                let b = choose|b: Seq<char>| dir@ == join_path(b, APP_DIR_NAME@);
                assert(p@ == join_path(join_path(b, APP_DIR_NAME@), SESSION_FILE_NAME@));
            }
            Ok(p)
        },
        Err(e) => Err(e),
    }
}

} // verus!
