//! The session with the controller: where it is, who asks, and the token
//! that is presented with every call. The session describes its calls as
//! [`Request`] values; it performs none of them.

use vstd::prelude::*;
pub use crate::envelope::Response;
pub use crate::envelope::ResponseType;
pub use crate::pagination::PaginationBuilder;
pub use crate::paging::FetchableType;
pub use crate::task::Task;
pub use crate::task::TaskInfo;
pub use crate::transport::ApiError;
pub use crate::transport::ApiErrorResponse;
use crate::envelope::FromJson;
use crate::envelope::ToJson;
use crate::json::Json;
use crate::pagination::Page;
pub use crate::pagination::Pagination;
use crate::pagination::page_of;
use crate::text::contains;
use crate::text::decimal;
use crate::text::decimal_string;
use crate::text::joined;
use crate::text::str_contains;
use crate::text::strip_trailing_slash;
use crate::text::without_trailing_slash;
pub use crate::token::Token;
use crate::token::TokenValue;
use crate::transport::Method;
use crate::transport::TOKEN_HEADER;
use crate::transport::Request;
use crate::transport::RequestValue;

verus! {

/// Path of the authentication endpoint.
pub const AUTH_PATH: &'static str = "/dna/system/api/v1/auth/token";

/// The session. `dnac` is the controller's base address, without a
/// trailing slash.
#[derive(Debug)]
pub struct DNAC {
    pub token: Token,
    pub token_file: String,
    pub dnac: String,
    pub user: String,
    pub password: String,
}

/// Model of [`DNAC`].
pub struct DNACValue {
    pub token: TokenValue,
    pub token_file: Seq<char>,
    pub dnac: Seq<char>,
    pub user: Seq<char>,
    pub password: Seq<char>,
}

/// The controller runs a release that this client was not written for.
#[derive(Debug, PartialEq)]
pub struct IncompatibleVersionError {
    pub installed_version: String,
}

impl DeepView for DNAC {
    type V = DNACValue;

    open spec fn deep_view(&self) -> DNACValue {
        DNACValue {
            token: self.token.deep_view(),
            token_file: self.token_file@,
            dnac: self.dnac@,
            user: self.user@,
            password: self.password@,
        }
    }
}

impl DeepView for IncompatibleVersionError {
    type V = Seq<char>;

    open spec fn deep_view(&self) -> Seq<char> {
        self.installed_version@
    }
}

/// The query parameters that ask for one page.
pub open spec fn page_query(p: Page) -> Seq<(Seq<char>, Seq<char>)> {
    seq![("offset"@, decimal(p.offset as nat)), ("limit"@, decimal(p.limit as nat))]
}

/// The query of a read: the page, where one is asked for, then the
/// caller's own parameters in their order.
pub open spec fn full_query(
    pagination: Option<Page>,
    input: Option<Seq<(Seq<char>, Seq<char>)>>,
) -> Seq<(Seq<char>, Seq<char>)> {
    (match pagination {
        Some(p) => page_query(p),
        None => Seq::empty(),
    }) + (match input {
        Some(q) => q,
        None => Seq::empty(),
    })
}

/// The first release of the supported ones, `2.3.7.5` and `2.3.7.6`, whose
/// number occurs in `installed`.
pub open spec fn first_supported(installed: Seq<char>) -> Option<Seq<char>> {
    if contains(installed, "2.3.7.5"@) {
        Some("2.3.7.5"@)
    } else if contains(installed, "2.3.7.6"@) {
        Some("2.3.7.6"@)
    } else {
        None
    }
}

impl DNACValue {
    /// The headers of a call within the session: the token, under its fixed
    /// name.
    pub open spec fn token_headers(self) -> Seq<(Seq<char>, Seq<char>)> {
        seq![(TOKEN_HEADER@, self.token.secret)]
    }

    /// The request for a fresh token: a POST with user and password.
    pub open spec fn auth_request(self) -> RequestValue {
        RequestValue {
            method: Method::Post,
            url: self.dnac + AUTH_PATH@,
            headers: Seq::empty(),
            basic_auth: Some((self.user, self.password)),
            query: Seq::empty(),
            body: None,
        }
    }

    /// A read of `path`.
    pub open spec fn get_request(
        self,
        path: Seq<char>,
        input: Option<Seq<(Seq<char>, Seq<char>)>>,
        pagination: Option<Page>,
    ) -> RequestValue {
        RequestValue {
            method: Method::Get,
            url: self.dnac + path,
            headers: self.token_headers(),
            basic_auth: None,
            query: full_query(pagination, input),
            body: None,
        }
    }

    /// A write of `body` to `path`.
    pub open spec fn post_request(self, path: Seq<char>, body: crate::json::JsonValue) -> RequestValue {
        RequestValue {
            method: Method::Post,
            url: self.dnac + path,
            headers: self.token_headers(),
            basic_auth: None,
            query: Seq::empty(),
            body: Some(body),
        }
    }
}

impl DNAC {
    /// A session that holds no token yet. One trailing slash of the
    /// controller's address is dropped, so that paths can be appended.
    pub fn new(token_file: String, dnac: String, user: String, password: String) -> (s: DNAC)
        ensures
            s.deep_view() == (DNACValue {
                token: TokenValue { secret: Seq::empty(), expiry: None },
                token_file: token_file@,
                dnac: without_trailing_slash(dnac@),
                user: user@,
                password: password@,
            }),
    {
        DNAC {
            token: Token::default(),
            token_file,
            dnac: strip_trailing_slash(dnac),
            user,
            password,
        }
    }

    /// Reads the stored token from the document that the token file held;
    /// `None` where there was no document, as on a first run, or where it
    /// has another shape. The token is as it was stored: its expiry is yet
    /// to be read from its claims.
    pub fn load_token(&self, stored: Option<&Json>) -> (r: Option<Token>)
        ensures
            r.deep_view() == match stored {
                Some(document) => Token::decoded(document.deep_view()),
                None => None,
            },
    {
        match stored {
            Some(document) => Token::from_json(document),
            None => None,
        }
    }

    /// The address of `path` on the controller.
    pub fn url(&self, path: &str) -> (u: String)
        ensures
            u@ == self.dnac@ + path@,
    {
        joined(self.dnac.as_str(), path)
    }

    /// Checks the installed release against the supported ones. The check
    /// looks for a supported number anywhere in the text; it does not
    /// compare versions.
    pub fn verify_version(&self, installed_version: &str) -> (r: Result<
        &'static str,
        IncompatibleVersionError,
    >)
        ensures
            match r {
                Ok(v) => first_supported(installed_version@) == Some(v@),
                Err(e) => first_supported(installed_version@) is None && e.installed_version@
                    == installed_version@,
            },
    {
        if str_contains(installed_version, "2.3.7.5") {
            Ok("2.3.7.5")
        } else if str_contains(installed_version, "2.3.7.6") {
            Ok("2.3.7.6")
        } else {
            Err(IncompatibleVersionError { installed_version: installed_version.to_owned() })
        }
    }

    /// The headers of a call within the session.
    fn token_headers(&self) -> (h: Vec<(String, String)>)
        ensures
            h.deep_view() == self.deep_view().token_headers(),
    {
        let mut h: Vec<(String, String)> = Vec::new();
        h.push((TOKEN_HEADER.to_owned(), self.token.secret().clone()));
        assert(h.deep_view() =~= self.deep_view().token_headers());
        h
    }

    /// The request that asks the authentication endpoint for a token. It
    /// is the one call that carries user and password, and no token.
    pub fn get_token(&self) -> (r: Request)
        ensures
            r.deep_view() == self.deep_view().auth_request(),
    {
        let headers: Vec<(String, String)> = Vec::new();
        let query: Vec<(String, String)> = Vec::new();
        assert(headers.deep_view() =~= Seq::empty());
        assert(query.deep_view() =~= Seq::empty());
        Request {
            method: Method::Post,
            url: self.url(AUTH_PATH),
            headers,
            basic_auth: Some((self.user.clone(), self.password.clone())),
            query,
            body: None,
        }
    }

    /// The request that reads `path`, with the session token. A page, where
    /// given, goes first into the query as `offset` and `limit`; the
    /// caller's parameters follow.
    pub fn get(
        &self,
        path: &str,
        input_query: Option<&Vec<(String, String)>>,
        pagination: Option<Pagination>,
    ) -> (r: Request)
        ensures
            r.deep_view() == self.deep_view().get_request(
                path@,
                input_query.deep_view(),
                page_of(pagination),
            ),
    {
        let mut query: Vec<(String, String)> = Vec::new();
        if let Some(p) = pagination {
            query.push(("offset".to_owned(), decimal_string(p.offset())));
            query.push(("limit".to_owned(), decimal_string(p.limit())));
            assert(query.deep_view() =~= page_query(p@));
        } else {
            assert(query.deep_view() =~= Seq::empty());
        }
        if let Some(input) = input_query {
            let ghost head = query.deep_view();
            let mut i: usize = 0;
            while i < input.len()
                invariant
                    i <= input.len(),
                    query.deep_view() == head + input.deep_view().take(i as int),
                decreases input.len() - i,
            {
                let ghost before = query.deep_view();
                let pair = &input[i];
                query.push((pair.0.clone(), pair.1.clone()));
                assert(query.deep_view() =~= before.push(input.deep_view()[i as int]));
                assert(input.deep_view().take(i + 1) =~= input.deep_view().take(i as int).push(
                    input.deep_view()[i as int],
                ));
                assert(head + input.deep_view().take(i + 1) =~= (head + input.deep_view().take(
                    i as int,
                )).push(input.deep_view()[i as int]));
                i += 1;
            }
            assert(input.deep_view().take(input.len() as int) =~= input.deep_view());
        } else {
            assert(query.deep_view() + Seq::empty() =~= query.deep_view());
        }
        Request {
            method: Method::Get,
            url: self.url(path),
            headers: self.token_headers(),
            basic_auth: None,
            query,
            body: None,
        }
    }

    /// The request that writes `data` to `path`, with the session token.
    pub fn post<T: ToJson>(&self, path: &str, data: &T) -> (r: Request)
        ensures
            r.deep_view() == self.deep_view().post_request(path@, T::encoded(data.deep_view())),
    {
        let query: Vec<(String, String)> = Vec::new();
        assert(query.deep_view() =~= Seq::empty());
        Request {
            method: Method::Post,
            url: self.url(path),
            headers: self.token_headers(),
            basic_auth: None,
            query,
            body: Some(data.to_json()),
        }
    }
}

impl IncompatibleVersionError {
    /// The one line this error is reported with.
    pub fn to_string(&self) -> (s: String)
        ensures
            s@ == "Version "@ + self.installed_version@ + " not supported"@,
    {
        let mut s = joined("Version ", self.installed_version.as_str());
        vstd::string::StringExecFns::append(&mut s, " not supported");
        s
    }
}

} // verus!
