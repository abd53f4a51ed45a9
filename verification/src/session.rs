//! Establishing a session, step by step.
//!
//! A session is usable once it holds a token that the controller accepts
//! and the controller runs a supported release. [`SessionSetup`] decides
//! what is to be done next; the caller does it and reports what came of
//! it:
//!
//! 1. the stored token is loaded and handed to
//!    [`SessionSetup::stored_token`];
//! 2. unless that token can be used, the authentication request is sent
//!    and its reply handed to [`SessionSetup::authenticated`];
//! 3. the fresh token is stored, and the outcome handed to
//!    [`SessionSetup::persisted`];
//! 4. the release summary is asked for and the reply handed to
//!    [`SessionSetup::release`].
//!
//! A failure at any step ends the setup; no session comes out of it.

use vstd::prelude::*;
use crate::dnac::DNAC;
use crate::dnac::DNACValue;
use crate::dnac::IncompatibleVersionError;
use crate::dnac::first_supported;
use crate::envelope::FromJson;
use crate::envelope::ToJson;
use crate::json::Json;
use crate::json::JsonValue;
use crate::platform::ReleaseSummary;
use crate::platform::RELEASE_PATH;
use crate::text::without_trailing_slash;
use crate::token::clock;
use crate::token::Token;
use crate::token::TokenError;
use crate::token::TokenValue;
use crate::transport::Reply;
use crate::transport::ReplyValue;
use crate::transport::Request;
use crate::transport::RequestValue;
use crate::transport::TransportError;
use crate::transport::TransportErrorValue;

verus! {

/// No usable token was stored, and none could be had.
#[derive(Debug, PartialEq)]
pub enum AuthError {
    /// The authentication call failed or gave no token.
    Rejected(TransportError),
    /// The fresh token's expiry could not be read.
    Unreadable(TokenError),
    /// The fresh token could not be stored.
    NotPersisted,
}

/// Why no session was established.
#[derive(Debug, PartialEq)]
pub enum SetupError {
    Auth(AuthError),
    IncompatibleVersion(IncompatibleVersionError),
    Transport(TransportError),
}

/// Where the setup stands.
#[derive(Clone, Copy, Debug, PartialEq, Eq)]
pub enum Phase {
    /// Waiting for the stored token.
    Loading,
    /// Waiting for the reply to the authentication request.
    Authenticating,
    /// Waiting for the fresh token to be stored.
    Persisting,
    /// Waiting for the release summary.
    Gating,
    /// The session is established.
    Ready,
    /// The setup has failed.
    Failed,
}

/// What the caller is to do next.
#[derive(Debug, PartialEq)]
pub enum SetupAction {
    /// Perform the request and report its reply.
    Send(Request),
    /// Write the document to the token file and report whether that worked.
    Persist(Json),
    /// Nothing more: the session is established, against the supported
    /// release that is named.
    Ready(String),
    /// Nothing more: the setup has failed.
    Abort(SetupError),
    /// The report did not belong to the step the setup was at; nothing has
    /// changed.
    Ignored,
}

/// The setup of one session.
#[derive(Debug)]
pub struct SessionSetup {
    session: DNAC,
    phase: Phase,
}

/// Model of [`AuthError`].
pub enum AuthErrorValue {
    Rejected(TransportErrorValue),
    Unreadable(TokenError),
    NotPersisted,
}

/// Model of [`SetupError`].
pub enum SetupErrorValue {
    Auth(AuthErrorValue),
    IncompatibleVersion(Seq<char>),
    Transport(TransportErrorValue),
}

/// Model of [`SetupAction`].
pub enum SetupActionValue {
    Send(RequestValue),
    Persist(JsonValue),
    Ready(Seq<char>),
    Abort(SetupErrorValue),
    Ignored,
}

/// Model of a [`SessionSetup`].
pub struct SetupValue {
    pub session: DNACValue,
    pub phase: Phase,
}

impl DeepView for AuthError {
    type V = AuthErrorValue;

    open spec fn deep_view(&self) -> AuthErrorValue {
        match self {
            AuthError::Rejected(e) => AuthErrorValue::Rejected(e.deep_view()),
            AuthError::Unreadable(e) => AuthErrorValue::Unreadable(*e),
            AuthError::NotPersisted => AuthErrorValue::NotPersisted,
        }
    }
}

impl DeepView for SetupError {
    type V = SetupErrorValue;

    open spec fn deep_view(&self) -> SetupErrorValue {
        match self {
            SetupError::Auth(e) => SetupErrorValue::Auth(e.deep_view()),
            SetupError::IncompatibleVersion(e) => SetupErrorValue::IncompatibleVersion(
                e.deep_view(),
            ),
            SetupError::Transport(e) => SetupErrorValue::Transport(e.deep_view()),
        }
    }
}

impl DeepView for SetupAction {
    type V = SetupActionValue;

    open spec fn deep_view(&self) -> SetupActionValue {
        match self {
            SetupAction::Send(r) => SetupActionValue::Send(r.deep_view()),
            SetupAction::Persist(j) => SetupActionValue::Persist(j.deep_view()),
            SetupAction::Ready(v) => SetupActionValue::Ready(v@),
            SetupAction::Abort(e) => SetupActionValue::Abort(e.deep_view()),
            SetupAction::Ignored => SetupActionValue::Ignored,
        }
    }
}

impl DeepView for SessionSetup {
    type V = SetupValue;

    closed spec fn deep_view(&self) -> SetupValue {
        SetupValue { session: self.session.deep_view(), phase: self.phase }
    }
}

/// The model of what the reading of a token's claims came to.
pub open spec fn read_view(read: Result<Token, TokenError>) -> Result<TokenValue, TokenError> {
    match read {
        Ok(token) => Ok(token.deep_view()),
        Err(e) => Err(e),
    }
}

/// The model of what the loading and reading of the stored token came to.
pub open spec fn stored_view(read: Option<Result<Token, TokenError>>) -> Option<
    Result<TokenValue, TokenError>,
> {
    match read {
        Some(r) => Some(read_view(r)),
        None => None,
    }
}

/// The model of what a call came to.
pub open spec fn outcome_view(reply: Result<Reply, TransportError>) -> Result<
    ReplyValue,
    TransportErrorValue,
> {
    match reply {
        Ok(r) => Ok(r.deep_view()),
        Err(e) => Err(e.deep_view()),
    }
}

impl SetupValue {
    /// The setup in another phase.
    pub open spec fn at(self, phase: Phase) -> SetupValue {
        SetupValue { session: self.session, phase }
    }

    /// The setup with `token` as the session's token, in another phase.
    pub open spec fn holding(self, token: TokenValue, phase: Phase) -> SetupValue {
        SetupValue {
            session: DNACValue {
                token,
                token_file: self.session.token_file,
                dnac: self.session.dnac,
                user: self.session.user,
                password: self.session.password,
            },
            phase,
        }
    }

    /// The setup failed with `error`.
    pub open spec fn failed(self, error: SetupErrorValue) -> (SetupValue, SetupActionValue) {
        (self.at(Phase::Failed), SetupActionValue::Abort(error))
    }

    /// The request for the release summary, with the session's token.
    pub open spec fn release_request(self) -> RequestValue {
        self.session.get_request(RELEASE_PATH@, None, None)
    }

    /// On to the version gate.
    pub open spec fn gate(self) -> (SetupValue, SetupActionValue) {
        (self.at(Phase::Gating), SetupActionValue::Send(self.release_request()))
    }

    /// After the stored token was loaded and its claims were read, at time
    /// `now`: `read` is `None` where there was no token to load, else the
    /// outcome of the reading. A token whose expiry could be read and that
    /// is usable at `now` becomes the session's token and the setup goes on
    /// to the version gate; any other is passed over and a fresh one is
    /// asked for.
    pub open spec fn on_stored_read(
        self,
        read: Option<Result<TokenValue, TokenError>>,
        now: u64,
    ) -> (SetupValue, SetupActionValue) {
        if self.phase != Phase::Loading {
            (self, SetupActionValue::Ignored)
        } else {
            match read {
                Some(Ok(parsed)) => if parsed.usable_at(now) {
                    self.holding(parsed, Phase::Loading).gate()
                } else {
                    self.authenticate()
                },
                _ => self.authenticate(),
            }
        }
    }

    /// After the stored token was loaded (`None` where there was none to
    /// load) at time `now`: its claims are read, and the setup goes on as
    /// [`Self::on_stored_read`] says.
    pub open spec fn on_stored(self, stored: Option<TokenValue>, now: u64) -> (
        SetupValue,
        SetupActionValue,
    ) {
        self.on_stored_read(
            match stored {
                Some(token) => Some(token.parsed()),
                None => None,
            },
            now,
        )
    }

    /// After a fresh token came back and its claims were read. With its
    /// expiry it becomes the session's token and is to be stored.
    pub open spec fn on_fresh(self, read: Result<TokenValue, TokenError>) -> (
        SetupValue,
        SetupActionValue,
    ) {
        if self.phase != Phase::Authenticating {
            (self, SetupActionValue::Ignored)
        } else {
            match read {
                Ok(parsed) => (
                    self.holding(parsed, Phase::Persisting),
                    SetupActionValue::Persist(Token::encoded(parsed)),
                ),
                Err(e) => self.failed(SetupErrorValue::Auth(AuthErrorValue::Unreadable(e))),
            }
        }
    }

    /// On to the authentication call.
    pub open spec fn authenticate(self) -> (SetupValue, SetupActionValue) {
        (self.at(Phase::Authenticating), SetupActionValue::Send(self.session.auth_request()))
    }

    /// After the authentication call. Its token, with the expiry read from
    /// its claims, becomes the session's token and is to be stored.
    pub open spec fn on_authenticated(self, outcome: Result<ReplyValue, TransportErrorValue>) -> (
        SetupValue,
        SetupActionValue,
    ) {
        if self.phase != Phase::Authenticating {
            (self, SetupActionValue::Ignored)
        } else {
            match outcome {
                Ok(reply) => match reply.read::<Token>() {
                    Ok(token) => self.on_fresh(token.parsed()),
                    Err(e) => self.failed(SetupErrorValue::Auth(AuthErrorValue::Rejected(e))),
                },
                Err(e) => self.failed(SetupErrorValue::Auth(AuthErrorValue::Rejected(e))),
            }
        }
    }

    /// After the attempt to store the fresh token.
    pub open spec fn on_persisted(self, stored: bool) -> (SetupValue, SetupActionValue) {
        if self.phase != Phase::Persisting {
            (self, SetupActionValue::Ignored)
        } else if stored {
            self.gate()
        } else {
            self.failed(SetupErrorValue::Auth(AuthErrorValue::NotPersisted))
        }
    }

    /// After the release summary was asked for: the version gate.
    pub open spec fn on_release(self, outcome: Result<ReplyValue, TransportErrorValue>) -> (
        SetupValue,
        SetupActionValue,
    ) {
        if self.phase != Phase::Gating {
            (self, SetupActionValue::Ignored)
        } else {
            match outcome {
                Ok(reply) => match ReleaseSummary::read_spec(reply) {
                    Ok(summary) => match first_supported(summary.installed_version) {
                        Some(version) => (self.at(Phase::Ready), SetupActionValue::Ready(version)),
                        None => self.failed(
                            SetupErrorValue::IncompatibleVersion(summary.installed_version),
                        ),
                    },
                    Err(e) => self.failed(SetupErrorValue::Transport(e)),
                },
                Err(e) => self.failed(SetupErrorValue::Transport(e)),
            }
        }
    }
}

impl SessionSetup {
    /// Begins the setup of a session with the controller at `dnac`. The
    /// first thing to do is to load the token stored in `token_file`.
    pub fn begin(token_file: String, dnac: String, user: String, password: String) -> (s: Self)
        ensures
            s.deep_view() == (SetupValue {
                session: DNACValue {
                    token: TokenValue { secret: Seq::empty(), expiry: None },
                    token_file: token_file@,
                    dnac: without_trailing_slash(dnac@),
                    user: user@,
                    password: password@,
                },
                phase: Phase::Loading,
            }),
    {
        SessionSetup { session: DNAC::new(token_file, dnac, user, password), phase: Phase::Loading }
    }

    /// Where the setup stands.
    pub fn phase(&self) -> (p: Phase)
        ensures
            p == self.deep_view().phase,
    {
        self.phase
    }

    /// The session as far as it has been set up.
    pub fn session(&self) -> (s: &DNAC)
        ensures
            s.deep_view() == self.deep_view().session,
    {
        &self.session
    }

    /// The established session; `None` unless the setup is `Ready`.
    pub fn into_session(self) -> (s: Option<DNAC>)
        ensures
            s.deep_view() == if self.deep_view().phase == Phase::Ready {
                Some(self.deep_view().session)
            } else {
                None
            },
    {
        match self.phase {
            Phase::Ready => Some(self.session),
            _ => None,
        }
    }

    fn fail(&mut self, error: SetupError) -> (a: SetupAction)
        ensures
            (final(self).deep_view(), a.deep_view()) == old(self).deep_view().failed(
                error.deep_view(),
            ),
    {
        self.phase = Phase::Failed;
        SetupAction::Abort(error)
    }

    fn gate(&mut self) -> (a: SetupAction)
        ensures
            (final(self).deep_view(), a.deep_view()) == old(self).deep_view().gate(),
    {
        self.phase = Phase::Gating;
        SetupAction::Send(ReleaseSummary::get_release_summary(&self.session))
    }

    fn authenticate(&mut self) -> (a: SetupAction)
        ensures
            (final(self).deep_view(), a.deep_view()) == old(self).deep_view().authenticate(),
    {
        self.phase = Phase::Authenticating;
        SetupAction::Send(self.session.get_token())
    }

    /// Takes the stored token after its claims were read, at time `now`
    /// (seconds since the epoch): `None` where there was none to load, the
    /// token with its expiry where the reading worked, the error where it
    /// did not.
    pub fn stored_token_read_at(
        &mut self,
        read: Option<Result<Token, TokenError>>,
        now: u64,
    ) -> (a: SetupAction)
        ensures
            (final(self).deep_view(), a.deep_view()) == old(self).deep_view().on_stored_read(
                stored_view(read),
                now,
            ),
    {
        match self.phase {
            Phase::Loading => {},
            _ => {
                return SetupAction::Ignored;
            },
        }
        match read {
            Some(Ok(token)) => {
                if token.usable_at(now) {
                    self.session.token = token;
                    self.gate()
                } else {
                    self.authenticate()
                }
            },
            _ => self.authenticate(),
        }
    }

    /// Takes the stored token, as it was loaded at time `now` (seconds
    /// since the epoch), and reads its claims.
    pub fn stored_token_at(&mut self, stored: Option<Token>, now: u64) -> (a: SetupAction)
        ensures
            (final(self).deep_view(), a.deep_view()) == old(self).deep_view().on_stored(
                stored.deep_view(),
                now,
            ),
    {
        let read = match stored {
            Some(token) => {
                let mut token = token;
                match token.parse() {
                    Ok(()) => Some(Ok(token)),
                    Err(e) => Some(Err(e)),
                }
            },
            None => None,
        };
        self.stored_token_read_at(read, now)
    }

    /// Takes the fresh token after its claims were read: the token with
    /// its expiry where the reading worked, the error where it did not.
    pub fn fresh_token(&mut self, read: Result<Token, TokenError>) -> (a: SetupAction)
        ensures
            (final(self).deep_view(), a.deep_view()) == old(self).deep_view().on_fresh(
                read_view(read),
            ),
    {
        match self.phase {
            Phase::Authenticating => {},
            _ => {
                return SetupAction::Ignored;
            },
        }
        match read {
            Ok(token) => {
                let document = token.save();
                self.session.token = token;
                self.phase = Phase::Persisting;
                SetupAction::Persist(document)
            },
            Err(e) => self.fail(SetupError::Auth(AuthError::Unreadable(e))),
        }
    }

    /// Takes the stored token and judges it by the system clock.
    pub fn stored_token(&mut self, stored: Option<Token>) -> (a: SetupAction)
        ensures
            exists|now: u64|
                (final(self).deep_view(), a.deep_view()) == #[trigger] old(
                    self,
                ).deep_view().on_stored(stored.deep_view(), now),
    {
        let now = clock();
        self.stored_token_at(stored, now)
    }

    /// Takes what the authentication call came to.
    pub fn authenticated(&mut self, outcome: Result<Reply, TransportError>) -> (a: SetupAction)
        ensures
            (final(self).deep_view(), a.deep_view()) == old(self).deep_view().on_authenticated(
                outcome_view(outcome),
            ),
    {
        match self.phase {
            Phase::Authenticating => {},
            _ => {
                return SetupAction::Ignored;
            },
        }
        match outcome {
            Ok(reply) => match reply.read::<Token>() {
                Ok(token) => {
                    let mut token = token;
                    let read = match token.parse() {
                        Ok(()) => Ok(token),
                        Err(e) => Err(e),
                    };
                    self.fresh_token(read)
                },
                Err(e) => self.fail(SetupError::Auth(AuthError::Rejected(e))),
            },
            Err(e) => self.fail(SetupError::Auth(AuthError::Rejected(e))),
        }
    }

    /// Takes whether the fresh token was stored.
    pub fn persisted(&mut self, stored: bool) -> (a: SetupAction)
        ensures
            (final(self).deep_view(), a.deep_view()) == old(self).deep_view().on_persisted(stored),
    {
        match self.phase {
            Phase::Persisting => {},
            _ => {
                return SetupAction::Ignored;
            },
        }
        if stored {
            self.gate()
        } else {
            self.fail(SetupError::Auth(AuthError::NotPersisted))
        }
    }

    /// Takes what the request for the release summary came to, and checks
    /// the installed release against the supported ones.
    pub fn release(&mut self, outcome: Result<Reply, TransportError>) -> (a: SetupAction)
        ensures
            (final(self).deep_view(), a.deep_view()) == old(self).deep_view().on_release(
                outcome_view(outcome),
            ),
    {
        match self.phase {
            Phase::Gating => {},
            _ => {
                return SetupAction::Ignored;
            },
        }
        match outcome {
            Ok(reply) => match ReleaseSummary::read(&reply) {
                Ok(summary) => match self.session.verify_version(
                    summary.installed_version.as_str(),
                ) {
                    Ok(version) => {
                        self.phase = Phase::Ready;
                        SetupAction::Ready(version.to_owned())
                    },
                    Err(e) => self.fail(SetupError::IncompatibleVersion(e)),
                },
                Err(e) => self.fail(SetupError::Transport(e)),
            },
            Err(e) => self.fail(SetupError::Transport(e)),
        }
    }
}

/// A setup that has ended, well or not, takes no further step: whatever is
/// reported to it, it stays as it is.
pub proof fn lemma_setup_ends(
    s: SetupValue,
    stored: Option<TokenValue>,
    now: u64,
    outcome: Result<ReplyValue, TransportErrorValue>,
    written: bool,
)
    requires
        s.phase == Phase::Ready || s.phase == Phase::Failed,
    ensures
        s.on_stored(stored, now) == (s, SetupActionValue::Ignored),
        s.on_authenticated(outcome) == (s, SetupActionValue::Ignored),
        s.on_persisted(written) == (s, SetupActionValue::Ignored),
        s.on_release(outcome) == (s, SetupActionValue::Ignored),
{
}

/// An authentication error needs a refresh that failed. From a stored token
/// that can be read and is usable at `now` the setup goes to the version
/// gate without asking for a fresh one, and no step from there ends in an
/// authentication error.
pub proof fn lemma_usable_token_needs_no_refresh(
    s: SetupValue,
    token: TokenValue,
    now: u64,
    outcome: Result<ReplyValue, TransportErrorValue>,
)
    requires
        s.phase == Phase::Loading,
        token.parsed() matches Ok(parsed) && parsed.usable_at(now),
    ensures
        s.on_stored(Some(token), now).0.phase == Phase::Gating,
        s.on_stored(Some(token), now).0.session.token == token.parsed()->Ok_0,
        s.on_stored(Some(token), now).1 is Send,
        !(s.on_stored(Some(token), now).0.on_release(outcome).1 matches SetupActionValue::Abort(
            SetupErrorValue::Auth(_),
        )),
{
}

/// The setup is `Ready` only through the version gate: a step that ends
/// in `Ready` is the reading of a release summary whose installed version
/// holds a supported release.
pub proof fn lemma_ready_through_gate(
    s: SetupValue,
    outcome: Result<ReplyValue, TransportErrorValue>,
)
    requires
        s.phase != Phase::Ready,
        s.on_release(outcome).0.phase == Phase::Ready,
    ensures
        s.phase == Phase::Gating,
        outcome matches Ok(reply) && ReleaseSummary::read_spec(reply) matches Ok(summary)
            && first_supported(summary.installed_version) is Some,
{
}

} // verus!
