//! What is kept between runs: the account, its session, and how far the journal has come.
use crate::ids::{has_user_form, is_user_id, refuses_user, InvalidId};
use vstd::prelude::*;

verus! {

/// The name of the program: of its data directory, and of the device it logs in as.
pub const APP_NAME: &'static str = "matrix-journal";

/// The file with the settings, in the data directory.
pub const SESSION_FILE: &'static str = "session.json";

/// The directory with the state of the client, in the data directory.
pub const STATE_DIRECTORY: &'static str = "state";

/// The extension added to the name of the settings file for the file that is to replace it.
pub const REPLACEMENT_EXTENSION: &'static str = "new";

/// What is said when there is no way to log in.
pub const NO_CREDENTIALS: &'static str =
    "No existing session, and no password set in the session file";

/// A session on the homeserver.
pub struct Session {
    /// The user who is logged in.
    pub user_id: String,
    /// The device that is logged in.
    pub device_id: String,
    /// The token that the session goes by.
    pub access_token: String,
    /// The token with which the access token can be renewed.
    pub refresh_token: Option<String>,
}

/// What is kept between runs.
pub struct Settings {
    /// The user to log in as.
    pub user: String,
    /// The password, which is not needed once there is a session.
    pub password: Option<String>,
    /// The homeserver of the user.
    pub homeserver: String,
    /// The key to the state of the client.
    pub db_key: String,
    /// The session, once there is one.
    pub session: Option<Session>,
    /// Where the last sync ended.
    pub sync_token: Option<String>,
}

/// How to log in.
pub enum LoginMethod<'a> {
    /// By resuming a session.
    Restore(&'a Session),
    /// By a password, which gives a new session.
    Password { user: &'a String, password: &'a String },
}

impl Settings {
    /// How to log in: with the session where there is one, else with the password, else not at
    /// all.
    pub open spec fn spec_login_method(&self) -> Option<LoginMethod<'_>> {
        match self.session {
            Some(session) => Some(LoginMethod::Restore(&session)),
            None => match self.password {
                Some(password) => Some(
                    LoginMethod::Password { user: &self.user, password: &password },
                ),
                None => None,
            },
        }
    }

    /// The identifier of the user to log in as.
    pub fn user_id(&self) -> (id: Result<String, InvalidId>)
        ensures
            match id {
                Ok(user) => is_user_id(self.user@) && has_user_form(self.user@) && user@
                    == self.user@,
                Err(error) => !is_user_id(self.user@) && error.given@ == self.user@
                    && refuses_user(self.user@, error.reason),
            },
    {
        crate::ids::user_id(self.user.as_str())
    }

    /// How to log in, if there is a way.
    pub fn login_method(&self) -> (method: Option<LoginMethod<'_>>)
        ensures
            method == self.spec_login_method(),
    {
        match &self.session {
            Some(session) => Some(LoginMethod::Restore(session)),
            None => match &self.password {
                Some(password) => Some(LoginMethod::Password { user: &self.user, password }),
                None => None,
            },
        }
    }

    /// Keeps the session that a login gave.
    pub fn record_session(&mut self, session: Session)
        ensures
            *final(self) == (Settings { session: Some(session), ..*old(self) }),
    {
        self.session = Some(session);
    }

    /// Keeps the place where a sync ended.
    pub fn update_sync_token(&mut self, token: String)
        ensures
            *final(self) == (Settings { sync_token: Some(token), ..*old(self) }),
    {
        self.sync_token = Some(token);
    }
}

/// What has to be done next to save the settings.
///
/// They are written to a file of their own, which takes the place of the old one only when it is
/// complete: whatever fails before leaves the old settings as they were.
#[derive(PartialEq, Eq, Structural, Clone, Copy)]
pub enum SaveStep {
    /// Create the replacement, empty.
    Create,
    /// Write the settings to the replacement.
    Write,
    /// Put the replacement in the place of the old file.
    Rename,
    /// Nothing: the settings are saved.
    Saved,
    /// Nothing: the settings are not saved.
    Failed,
}

/// What follows a step that succeeded or failed.
pub open spec fn step_after(step: SaveStep, succeeded: bool) -> SaveStep {
    match step {
        SaveStep::Create => if succeeded {
            SaveStep::Write
        } else {
            SaveStep::Failed
        },
        SaveStep::Write => if succeeded {
            SaveStep::Rename
        } else {
            SaveStep::Failed
        },
        SaveStep::Rename => if succeeded {
            SaveStep::Saved
        } else {
            SaveStep::Failed
        },
        SaveStep::Saved => SaveStep::Saved,
        SaveStep::Failed => SaveStep::Failed,
    }
}

/// What has to be done after the given outcomes of the first steps.
pub open spec fn step_after_all(outcomes: Seq<bool>) -> SaveStep
    decreases outcomes.len(),
{
    if outcomes.len() == 0 {
        SaveStep::Create
    } else {
        step_after(step_after_all(outcomes.drop_last()), outcomes.last())
    }
}

impl SaveStep {
    /// The first step.
    pub fn first() -> (step: SaveStep)
        ensures
            step == step_after_all(Seq::empty()),
    {
        SaveStep::Create
    }

    /// The step that follows, once this one has succeeded or failed.
    pub fn next(self, succeeded: bool) -> (step: SaveStep)
        ensures
            step == step_after(self, succeeded),
    {
        if succeeded {
            match self {
                SaveStep::Create => SaveStep::Write,
                SaveStep::Write => SaveStep::Rename,
                SaveStep::Rename => SaveStep::Saved,
                SaveStep::Saved => SaveStep::Saved,
                SaveStep::Failed => SaveStep::Failed,
            }
        } else {
            match self {
                SaveStep::Saved => SaveStep::Saved,
                _ => SaveStep::Failed,
            }
        }
    }
}

/// The old settings are replaced only by settings that were written completely, and they count as
/// saved only when every step has succeeded; after a failure nothing is replaced any more.
pub proof fn law_old_settings_survive_failure(outcomes: Seq<bool>)
    ensures
        step_after_all(outcomes) == SaveStep::Rename <==> outcomes.len() == 2 && outcomes[0]
            && outcomes[1],
        step_after_all(outcomes) == SaveStep::Saved <==> outcomes.len() >= 3 && outcomes[0]
            && outcomes[1] && outcomes[2],
        step_after_all(outcomes) == SaveStep::Failed <==> exists|i: int|
            0 <= i < outcomes.len() && i < 3 && !#[trigger] outcomes[i],
    decreases outcomes.len(),
{
    reveal_with_fuel(step_after_all, 4);
    if outcomes.len() > 3 {
        law_old_settings_survive_failure(outcomes.drop_last());
    }
}

/// Once there is a session, the password plays no part in logging in and can be removed.
pub proof fn law_session_replaces_password(settings: Settings, password: Option<String>)
    requires
        settings.session is Some,
    ensures
        settings.spec_login_method() == (Settings { password, ..settings }).spec_login_method(),
        settings.spec_login_method() == Some(LoginMethod::Restore(&settings.session->0)),
{
}

/// The session that a login gave is the one that the next login resumes.
pub proof fn law_recorded_session_is_restored(settings: Settings, session: Session)
    ensures
        (Settings { session: Some(session), ..settings }).spec_login_method() == Some(
            LoginMethod::Restore(&session),
        ),
{
}

/// There is no way to log in exactly if there is neither a session nor a password.
pub proof fn law_login_needs_session_or_password(settings: Settings)
    ensures
        settings.spec_login_method() is None <==> settings.session is None
            && settings.password is None,
{
}

/// Without a session the password is used, for the user of the settings.
pub proof fn law_password_serves_without_session(settings: Settings)
    requires
        settings.session is None,
    ensures
        match settings.password {
            Some(password) => settings.spec_login_method() matches Some(
                LoginMethod::Password { user, password: used },
            ) && *user == settings.user && *used == password,
            None => settings.spec_login_method() is None,
        },
{
}

/// Saving goes from creating the replacement to writing it to putting it in place. The first step
/// that fails is the last one, and an end is an end.
pub proof fn law_save_goes_step_by_step(outcomes: Seq<bool>, succeeded: bool)
    ensures
        step_after(SaveStep::Create, true) == SaveStep::Write,
        step_after(SaveStep::Write, true) == SaveStep::Rename,
        step_after(SaveStep::Rename, true) == SaveStep::Saved,
        step_after(SaveStep::Create, false) == SaveStep::Failed,
        step_after(SaveStep::Write, false) == SaveStep::Failed,
        step_after(SaveStep::Rename, false) == SaveStep::Failed,
        step_after(SaveStep::Saved, succeeded) == SaveStep::Saved,
        step_after(SaveStep::Failed, succeeded) == SaveStep::Failed,
        step_after_all(Seq::empty()) == SaveStep::Create,
        step_after_all(outcomes.push(succeeded)) == step_after(step_after_all(outcomes), succeeded),
{
    assert(outcomes.push(succeeded).drop_last() == outcomes);
}

} // verus!
