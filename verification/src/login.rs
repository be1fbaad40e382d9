//! The course of a login: what to do next, and what comes of it for the settings.
use crate::ids::{has_user_form, is_user_id, refuses_user, InvalidId};
use crate::settings::{LoginMethod, Session, Settings};
use vstd::prelude::*;

verus! {

/// What has to be done next to log in.
#[derive(PartialEq, Eq, Structural, Clone, Copy)]
pub enum LoginStep {
    /// Open the client for the homeserver.
    Connect,
    /// Resume the session that is kept.
    Restore,
    /// Log in with the password, which gives a new session.
    Authenticate,
    /// Save the settings with the new session.
    Save,
    /// Nothing: the user is logged in.
    LoggedIn,
    /// Nothing: there is neither a session nor a password.
    NoCredentials,
    /// Nothing: the last step failed.
    Failed,
}

/// What came of a step.
pub enum LoginOutcome {
    /// It succeeded.
    Done,
    /// It succeeded and gave a new session.
    NewSession(Session),
    /// It failed.
    Failed,
}

impl LoginStep {
    /// Whether nothing is left to do.
    pub open spec fn is_last(self) -> bool {
        self == LoginStep::LoggedIn || self == LoginStep::NoCredentials || self == LoginStep::Failed
    }

    /// The step that follows.
    pub open spec fn after(self, settings: Settings, outcome: LoginOutcome) -> LoginStep {
        match (self, outcome) {
            (LoginStep::LoggedIn, _) => self,
            (LoginStep::NoCredentials, _) => self,
            (_, LoginOutcome::Failed) => LoginStep::Failed,
            (LoginStep::Connect, LoginOutcome::Done) => match settings.spec_login_method() {
                Some(LoginMethod::Restore(_)) => LoginStep::Restore,
                Some(LoginMethod::Password { .. }) => LoginStep::Authenticate,
                None => LoginStep::NoCredentials,
            },
            (LoginStep::Restore, LoginOutcome::Done) => LoginStep::LoggedIn,
            (LoginStep::Authenticate, LoginOutcome::NewSession(_)) => LoginStep::Save,
            (LoginStep::Save, LoginOutcome::Done) => LoginStep::LoggedIn,
            _ => self,
        }
    }

    /// The settings that follow: a new session is kept, and nothing else changes.
    pub open spec fn settings_after(self, settings: Settings, outcome: LoginOutcome) -> Settings {
        match (self, outcome) {
            (LoginStep::Authenticate, LoginOutcome::NewSession(session)) => Settings {
                session: Some(session),
                ..settings
            },
            _ => settings,
        }
    }

    /// The step and the settings after the given outcomes of the first steps.
    pub open spec fn after_all(settings: Settings, outcomes: Seq<LoginOutcome>) -> (
        LoginStep,
        Settings,
    )
        decreases outcomes.len(),
    {
        if outcomes.len() == 0 {
            (LoginStep::Connect, settings)
        } else {
            let before = LoginStep::after_all(settings, outcomes.drop_last());
            (
                before.0.after(before.1, outcomes.last()),
                before.0.settings_after(before.1, outcomes.last()),
            )
        }
    }

    /// The first step, if the settings name a user.
    pub fn first(settings: &Settings) -> (step: Result<LoginStep, InvalidId>)
        ensures
            match step {
                Ok(first) => is_user_id(settings.user@) && has_user_form(settings.user@) && first
                    == LoginStep::Connect,
                Err(error) => !is_user_id(settings.user@) && error.given@ == settings.user@
                    && refuses_user(settings.user@, error.reason),
            },
    {
        match settings.user_id() {
            Ok(_) => Ok(LoginStep::Connect),
            Err(error) => Err(error),
        }
    }

    /// The step that follows, once this one came to its outcome. A new session is kept in the
    /// settings.
    pub fn next(self, settings: &mut Settings, outcome: LoginOutcome) -> (step: LoginStep)
        ensures
            step == self.after(*old(settings), outcome),
            *final(settings) == self.settings_after(*old(settings), outcome),
    {
        match self {
            LoginStep::Connect => match outcome {
                LoginOutcome::Done => match settings.login_method() {
                    Some(LoginMethod::Restore(_)) => LoginStep::Restore,
                    Some(LoginMethod::Password { .. }) => LoginStep::Authenticate,
                    None => LoginStep::NoCredentials,
                },
                LoginOutcome::NewSession(_) => self,
                LoginOutcome::Failed => LoginStep::Failed,
            },
            LoginStep::Restore => match outcome {
                LoginOutcome::Done => LoginStep::LoggedIn,
                LoginOutcome::NewSession(_) => self,
                LoginOutcome::Failed => LoginStep::Failed,
            },
            LoginStep::Authenticate => match outcome {
                LoginOutcome::Done => self,
                LoginOutcome::NewSession(session) => {
                    settings.record_session(session);
                    LoginStep::Save
                },
                LoginOutcome::Failed => LoginStep::Failed,
            },
            LoginStep::Save => match outcome {
                LoginOutcome::Done => LoginStep::LoggedIn,
                LoginOutcome::NewSession(_) => self,
                LoginOutcome::Failed => LoginStep::Failed,
            },
            LoginStep::LoggedIn => self,
            LoginStep::NoCredentials => self,
            LoginStep::Failed => self,
        }
    }
}

/// Whoever is logged in has a session in the settings: the one that was there before, left as it
/// was, or a new one that came from the password and was saved. Nothing else of the settings ever
/// changes.
pub proof fn law_login_ends_with_session(settings: Settings, outcomes: Seq<LoginOutcome>)
    ensures
        ({
            let (step, kept) = LoginStep::after_all(settings, outcomes);
            &&& kept == (Settings { session: kept.session, ..settings })
            &&& settings.session is Some ==> kept == settings
            &&& kept != settings ==> settings.password is Some && kept.session is Some
            &&& step == LoginStep::LoggedIn ==> kept.session is Some
            &&& step == LoginStep::Save ==> settings.session is None && kept.session is Some
            &&& step == LoginStep::Restore ==> settings.session is Some
            &&& step == LoginStep::Authenticate ==> settings.session is None
                && settings.password is Some && kept == settings
            &&& step == LoginStep::NoCredentials ==> settings.session is None
                && settings.password is None
            &&& step == LoginStep::Connect ==> kept == settings
        }),
    decreases outcomes.len(),
{
    if outcomes.len() > 0 {
        law_login_ends_with_session(settings, outcomes.drop_last());
    }
}

/// A login that has ended stays as it ended.
pub proof fn law_login_end_is_final(step: LoginStep, settings: Settings, outcome: LoginOutcome)
    requires
        step.is_last(),
    ensures
        step.after(settings, outcome) == step,
        step.settings_after(settings, outcome) == settings,
{
}

/// Once the client is open, the settings decide how to log in: a kept session is restored whether
/// or not there is a password, the password serves only where there is no session, and without
/// either there is no way.
pub proof fn law_settings_decide_the_login(settings: Settings)
    ensures
        ({
            let next = LoginStep::Connect.after(settings, LoginOutcome::Done);
            &&& next == LoginStep::Restore <==> settings.session is Some
            &&& next == LoginStep::Authenticate <==> settings.session is None
                && settings.password is Some
            &&& next == LoginStep::NoCredentials <==> settings.session is None
                && settings.password is None
        }),
{
}

/// Nobody is logged in but by a session that was restored, or by a new one that was saved.
pub proof fn law_login_needs_restored_or_saved_session(
    step: LoginStep,
    settings: Settings,
    outcome: LoginOutcome,
)
    ensures
        step.after(settings, outcome) == LoginStep::LoggedIn <==> {
            ||| step == LoginStep::LoggedIn
            ||| step == LoginStep::Restore && outcome is Done
            ||| step == LoginStep::Save && outcome is Done
        },
{
}

/// A login with the password goes on to save the session it gave, and the settings keep just that
/// session. No other step changes the settings.
pub proof fn law_new_session_is_kept_and_saved(
    step: LoginStep,
    settings: Settings,
    outcome: LoginOutcome,
    session: Session,
)
    ensures
        ({
            let kept = LoginStep::Authenticate.settings_after(
                settings,
                LoginOutcome::NewSession(session),
            );
            &&& LoginStep::Authenticate.after(settings, LoginOutcome::NewSession(session))
                == LoginStep::Save
            &&& kept.session == Some(session)
            &&& kept.user == settings.user
            &&& kept.password == settings.password
            &&& kept.homeserver == settings.homeserver
            &&& kept.db_key == settings.db_key
            &&& kept.sync_token == settings.sync_token
        }),
        step.after(settings, outcome) == LoginStep::Save <==> {
            ||| step == LoginStep::Authenticate && outcome is NewSession
            ||| step == LoginStep::Save && outcome is NewSession
        },
        !(step == LoginStep::Authenticate && outcome is NewSession) ==> step.settings_after(
            settings,
            outcome,
        ) == settings,
{
}

/// A step that fails ends the login, and nothing else makes it fail. What cannot come of a step
/// leaves it to be done.
pub proof fn law_failed_step_ends_the_login(
    step: LoginStep,
    settings: Settings,
    outcome: LoginOutcome,
)
    ensures
        step.is_last() <==> step == LoginStep::LoggedIn || step == LoginStep::NoCredentials || step
            == LoginStep::Failed,
        step.after(settings, outcome) == LoginStep::Failed <==> step == LoginStep::Failed || (
        outcome is Failed && !step.is_last()),
        step == LoginStep::Authenticate && outcome is Done ==> step.after(settings, outcome)
            == step,
        (step == LoginStep::Connect || step == LoginStep::Restore || step == LoginStep::Save)
            && outcome is NewSession ==> step.after(settings, outcome) == step,
{
}

/// A login begins by opening the client with the settings as they are, and takes one step after
/// another.
pub proof fn law_login_goes_step_by_step(
    settings: Settings,
    outcomes: Seq<LoginOutcome>,
    outcome: LoginOutcome,
)
    ensures
        LoginStep::after_all(settings, Seq::empty()) == (LoginStep::Connect, settings),
        ({
            let (step, kept) = LoginStep::after_all(settings, outcomes);
            LoginStep::after_all(settings, outcomes.push(outcome)) == (
                step.after(kept, outcome),
                step.settings_after(kept, outcome),
            )
        }),
{
    assert(outcomes.push(outcome).drop_last() == outcomes);
}

} // verus!
