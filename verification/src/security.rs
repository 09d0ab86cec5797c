//! Process-wide session state and the layout of the data directory.

use crate::error::TrustError;
use vstd::prelude::*;
use vstd::string::StringExecFns;

verus! {

/// The state shared by all commands of one running process.
///
/// The admin channel has one outstanding challenge at most and a flag that
/// stays set once the admin has proved control of the admin key. The
/// consent slot holds the one pending consent request: the identity that
/// was asked and the nonce it has to sign.
#[derive(Debug)]
pub struct AppState {
    pub admin_unlocked: bool,
    pub admin_nonce: Option<String>,
    pub pending_user_consent: Option<(String, String)>,
    pub answer_style: String,
}

/// Mathematical value of an `AppState`.
pub struct AppStateView {
    pub admin_unlocked: bool,
    pub admin_nonce: Option<Seq<char>>,
    pub pending_user_consent: Option<(Seq<char>, Seq<char>)>,
    pub answer_style: Seq<char>,
}

impl View for AppState {
    type V = AppStateView;

    open spec fn view(&self) -> AppStateView {
        AppStateView {
            admin_unlocked: self.admin_unlocked,
            admin_nonce: match self.admin_nonce {
                Some(nonce) => Some(nonce@),
                None => None,
            },
            pending_user_consent: match self.pending_user_consent {
                Some((user_id, nonce)) => Some((user_id@, nonce@)),
                None => None,
            },
            answer_style: self.answer_style@,
        }
    }
}

/// The state of a process that has just started: locked, no challenge
/// outstanding, no consent pending, no answer style chosen.
pub open spec fn initial_state() -> AppStateView {
    AppStateView {
        admin_unlocked: false,
        admin_nonce: None,
        pending_user_consent: None,
        answer_style: Seq::empty(),
    }
}

impl Default for AppState {
    fn default() -> (state: AppState)
        ensures
            state@ == initial_state(),
    {
        AppState {
            admin_unlocked: false,
            admin_nonce: None,
            pending_user_consent: None,
            answer_style: String::new(),
        }
    }
}

/// Name of the application's directory below the platform's data
/// directory.
pub const APP_DIR: &'static str = "promptpilot";

/// The path of `name` below the directory `dir`, with `/` between them.
pub open spec fn path_below(dir: Seq<char>, name: Seq<char>) -> Seq<char> {
    dir + seq!['/'] + name
}

/// The application's data directory below the platform's data directory
/// `base`.
pub fn data_dir(base: &str) -> (path: String)
    ensures
        path@ == path_below(base@, APP_DIR@),
{
    db_path(base, APP_DIR)
}

/// The path of the file or directory `name` in the data directory
/// `data_dir`.
pub fn db_path(data_dir: &str, name: &str) -> (path: String)
    ensures
        path@ == path_below(data_dir@, name@),
{
    proof {
        reveal_strlit("/");
    }
    let mut path = data_dir.to_owned();
    path.append("/");
    path.append(name);
    path
}

/// Loads the configuration. There is none to load, so this succeeds.
pub fn load_config() -> (loaded: Result<(), TrustError>)
    ensures
        loaded is Ok,
{
    Ok(())
}

} // verus!
