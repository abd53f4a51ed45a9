//! The authentication token: a signed credential whose expiry is read
//! from the claims it carries. The signature is not checked here: the token
//! is trusted because of the channel it came over, and only its expiry
//! claim is used, to decide locally whether it can still be presented.

use vstd::prelude::*;
use crate::envelope::FromJson;
use crate::envelope::ToJson;
use crate::json::Json;
use crate::json::JsonValue;
use crate::json::Member;
use crate::json::MemberValue;

verus! {

/// Seconds of remaining lifetime that a stored token must exceed to be
/// used again. A token closer to its expiry than this is replaced.
pub const REFRESH_MARGIN: u64 = 600;

/// The error of the `jwt` crate, `jwt::Error`. It is carried from the call
/// to the place where it is turned into a [`TokenError`], and never looked
/// into.
#[verifier::external_type_specification]
#[verifier::external_body]
pub struct ExJwtError(jwt::Error);

/// What `jwt::Token::parse_unverified` makes of a token string when header
/// and claims are read as `jwt::Header` and `jwt::RegisteredClaims`: `None`
/// where it fails, else the `exp` claim, which may be missing.
pub uninterp spec fn jwt_expiration(token: Seq<char>) -> Option<Option<u64>>;

/// Calls `jwt::Token::parse_unverified` on `token` and picks the
/// expiration out of the registered claims. The call splits the string at
/// its dots, decodes header and claims from base64 and JSON, and leaves the
/// signature alone. The contract only names the outcome: it is the same for
/// the same string.
#[verifier::external_body]
fn unverified_expiration(token: &str) -> (r: Result<Option<u64>, jwt::Error>)
    ensures
        match r {
            Ok(exp) => jwt_expiration(token@) == Some(exp),
            Err(_) => jwt_expiration(token@) is None,
        },
{
    let parsed: jwt::Token<jwt::Header, jwt::RegisteredClaims, _> = jwt::Token::parse_unverified(
        token,
    )?;
    Ok(parsed.claims().expiration)
}

/// Calls `chrono::offset::Local::now().timestamp()`: the seconds since the
/// Unix epoch by the system clock, read in the local time zone. Nothing is
/// promised of the number, which differs from call to call.
#[verifier::external_body]
fn local_timestamp() -> i64 {
    chrono::offset::Local::now().timestamp()
}

/// The system clock in whole seconds since the epoch, as an unsigned
/// number.
pub(crate) fn clock() -> u64 {
    unsigned_seconds(local_timestamp())
}

/// A count of seconds since the epoch as the unsigned number it is compared
/// with: itself from the epoch on, and 2^64 more than itself before it.
pub open spec fn seconds_of(timestamp: i64) -> int {
    if timestamp >= 0 {
        timestamp as int
    } else {
        timestamp + 0x1_0000_0000_0000_0000
    }
}

/// Turns a count of seconds since the epoch into the unsigned number that
/// expiries are compared with. A time before the epoch wraps around, to a
/// number beyond every expiry that a clock of this age could meet.
pub fn unsigned_seconds(timestamp: i64) -> (r: u64)
    ensures
        r == seconds_of(timestamp),
{
    if timestamp >= 0 {
        timestamp as u64
    } else {
        let below: u64 = (-(timestamp + 1)) as u64;
        u64::MAX - below
    }
}

/// Why a token's expiry could not be read.
#[derive(Clone, Copy, Debug, PartialEq, Eq)]
pub enum TokenError {
    /// The secret is no well-formed token.
    Malformed,
    /// The token is well-formed and carries no expiry claim.
    MissingExpiry,
}

/// A token and the expiry read from it. `exp` is `None` until the token has
/// been parsed.
#[derive(Debug)]
pub struct Token {
    token: String,
    exp: Option<u64>,
}

/// Model of a [`Token`].
pub struct TokenValue {
    pub secret: Seq<char>,
    pub expiry: Option<u64>,
}

impl TokenValue {
    /// Valid at `now`: the expiry is known and lies in the future.
    pub open spec fn valid_at(self, now: u64) -> bool {
        self.expiry matches Some(e) && e > now
    }

    /// Seconds of life left at `now`; 0 for a token that is not valid.
    pub open spec fn remaining_at(self, now: u64) -> int {
        match self.expiry {
            Some(e) => if e > now {
                e - now
            } else {
                0
            },
            None => 0,
        }
    }

    /// Usable at `now` under the refresh policy: valid, with more than
    /// [`REFRESH_MARGIN`] seconds left.
    pub open spec fn usable_at(self, now: u64) -> bool {
        self.valid_at(now) && self.remaining_at(now) > REFRESH_MARGIN
    }

    /// The token after its claims were read, where `claim` is what the
    /// reading gave: `None` for a secret that is no token, `Some(None)` for a
    /// token without an expiry claim.
    pub open spec fn with_claim(self, claim: Option<Option<u64>>) -> Result<
        TokenValue,
        TokenError,
    > {
        match claim {
            Some(Some(e)) => Ok(TokenValue { secret: self.secret, expiry: Some(e) }),
            Some(None) => Err(TokenError::MissingExpiry),
            None => Err(TokenError::Malformed),
        }
    }

    /// Outcome of reading the expiry out of the secret.
    pub open spec fn parsed(self) -> Result<TokenValue, TokenError> {
        self.with_claim(jwt_expiration(self.secret))
    }
}

impl DeepView for Token {
    type V = TokenValue;

    closed spec fn deep_view(&self) -> TokenValue {
        TokenValue { secret: self.token@, expiry: self.exp }
    }
}

impl Default for Token {
    /// The empty token a session starts with.
    fn default() -> (t: Self)
        ensures
            t.deep_view() == (TokenValue { secret: Seq::empty(), expiry: None }),
    {
        Token { token: String::new(), exp: None }
    }
}

impl Clone for Token {
    fn clone(&self) -> (t: Self)
        ensures
            t.deep_view() == self.deep_view(),
    {
        Token { token: self.token.clone(), exp: self.exp }
    }
}

impl Token {
    /// A token that has not been parsed yet.
    pub fn new(secret: String) -> (t: Token)
        ensures
            t.deep_view() == (TokenValue { secret: secret@, expiry: None }),
    {
        Token { token: secret, exp: None }
    }

    /// The secret, as it is presented to the controller.
    pub fn secret(&self) -> (s: &String)
        ensures
            s@ == self.deep_view().secret,
    {
        &self.token
    }

    /// The expiry in seconds since the epoch, once parsed.
    pub fn expiry(&self) -> (e: Option<u64>)
        ensures
            e == self.deep_view().expiry,
    {
        self.exp
    }

    /// Takes what the reading of the claims gave (see
    /// [`TokenValue::with_claim`]): an expiry is stored, and anything else
    /// is reported and leaves the token as it was.
    pub fn adopt_claim(&mut self, claim: Option<Option<u64>>) -> (r: Result<(), TokenError>)
        ensures
            match r {
                Ok(()) => Ok::<TokenValue, TokenError>(final(self).deep_view()) == old(
                    self,
                ).deep_view().with_claim(claim),
                Err(e) => Err::<TokenValue, TokenError>(e) == old(self).deep_view().with_claim(
                    claim,
                ) && final(self).deep_view() == old(self).deep_view(),
            },
    {
        match claim {
            Some(Some(exp)) => {
                self.exp = Some(exp);
                Ok(())
            },
            Some(None) => Err(TokenError::MissingExpiry),
            None => Err(TokenError::Malformed),
        }
    }

    /// Reads the expiry claim out of the secret and stores it. A token that
    /// cannot be read, or that carries no expiry, is left as it was.
    pub fn parse(&mut self) -> (r: Result<(), TokenError>)
        ensures
            match r {
                Ok(()) => Ok::<TokenValue, TokenError>(final(self).deep_view()) == old(
                    self,
                ).deep_view().parsed(),
                Err(e) => Err::<TokenValue, TokenError>(e) == old(self).deep_view().parsed()
                    && final(self).deep_view() == old(self).deep_view(),
            },
    {
        let claim = match unverified_expiration(self.token.as_str()) {
            Ok(exp) => Some(exp),
            Err(_) => None,
        };
        self.adopt_claim(claim)
    }

    /// The document that stores the token: `{ "Token": .., "exp": .. }`, with
    /// `null` for an expiry that has not been read. The caller writes it to
    /// the token file.
    pub fn save(&self) -> (document: Json)
        ensures
            document.deep_view() == Token::encoded(self.deep_view()),
    {
        self.to_json()
    }

    /// Whether the token is valid at `now` (seconds since the epoch).
    pub fn valid_at(&self, now: u64) -> (r: bool)
        ensures
            r == self.deep_view().valid_at(now),
    {
        match self.exp {
            Some(exp) => exp > now,
            None => false,
        }
    }

    /// Seconds for which the token is still valid at `now`.
    pub fn valid_for_at(&self, now: u64) -> (r: u64)
        ensures
            r == self.deep_view().remaining_at(now),
    {
        match self.exp {
            Some(exp) => if exp > now {
                exp - now
            } else {
                0
            },
            None => 0,
        }
    }

    /// Whether the token may be used again at `now`, under the refresh
    /// policy of [`REFRESH_MARGIN`].
    pub fn usable_at(&self, now: u64) -> (r: bool)
        ensures
            r == self.deep_view().usable_at(now),
    {
        self.valid_at(now) && self.valid_for_at(now) > REFRESH_MARGIN
    }

    /// Whether the token is valid by the system clock. A token without a
    /// parsed expiry never is.
    pub fn valid(&self) -> (r: bool)
        ensures
            exists|now: u64| r == self.deep_view().valid_at(now),
    {
        let now = clock();
        self.valid_at(now)
    }

    /// Seconds for which the token is still valid by the system clock.
    pub fn valid_for(&self) -> (r: u64)
        ensures
            exists|now: u64| r == self.deep_view().remaining_at(now),
    {
        let now = clock();
        self.valid_for_at(now)
    }
}

impl FromJson for Token {
    /// The stored form `{ "Token": string, "exp": number | null }`; the
    /// reply of the authentication endpoint is the same without `exp`.
    open spec fn decoded(j: JsonValue) -> Option<TokenValue> {
        match (j.required_text("Token"@), j.optional_unsigned("exp"@)) {
            (Some(secret), Some(expiry)) => Some(TokenValue { secret, expiry }),
            _ => None,
        }
    }

    fn from_json(j: &Json) -> (r: Option<Token>) {
        let secret = j.required_text("Token");
        let expiry = j.optional_unsigned("exp");
        match (secret, expiry) {
            (Some(token), Some(exp)) => Some(Token { token, exp }),
            _ => None,
        }
    }
}

impl ToJson for Token {
    open spec fn encoded(v: TokenValue) -> JsonValue {
        JsonValue::Object(
            seq![
                MemberValue { name: "Token"@, value: JsonValue::Text(v.secret) },
                MemberValue {
                    name: "exp"@,
                    value: match v.expiry {
                        Some(e) => JsonValue::Unsigned(e),
                        None => JsonValue::Null,
                    },
                },
            ],
        )
    }

    fn to_json(&self) -> (r: Json) {
        let exp = match self.exp {
            Some(e) => Json::Unsigned(e),
            None => Json::Null,
        };
        let mut members: Vec<Member> = Vec::new();
        members.push(Member::new("Token", Json::text(self.token.as_str())));
        members.push(Member::new("exp", exp));
        assert(members.deep_view() =~= Self::encoded(self.deep_view())->Object_0);
        Json::object(members)
    }
}

/// A stored token is read back as it was written.
pub proof fn lemma_token_round_trip(t: TokenValue)
    ensures
        Token::decoded(Token::encoded(t)) == Some(t),
{
    reveal_strlit("Token");
    reveal_strlit("exp");
    let members = Token::encoded(t)->Object_0;
    assert(members[0].name == "Token"@);
    assert(members.drop_first()[0].name == "exp"@);
    assert("Token"@ != "exp"@) by {
        assert("Token"@.len() == 5);
        assert("exp"@.len() == 3);
    }
    reveal_with_fuel(crate::json::first_named, 3);
}

/// A token without a parsed expiry is valid at no time, and a token is
/// valid at `now` exactly if its expiry lies after `now`: one second later
/// is enough, the same second is not.
pub proof fn lemma_validity(t: TokenValue, now: u64)
    ensures
        t.expiry is None ==> !t.valid_at(now),
        t.expiry == Some(now) ==> !t.valid_at(now),
        now < u64::MAX && t.expiry == Some((now + 1) as u64) ==> t.valid_at(now),
        t.expiry matches Some(e) ==> (t.valid_at(now) <==> e > now),
        t.usable_at(now) ==> t.valid_at(now),
{
}

} // verus!
