//! The request model: methods, authentication and the details of a request.

use vstd::prelude::*;
use vstd::string::*;
use crate::encoding::{basic_authorization, basic_authorization_value};
use crate::string_map::StringMap;
use crate::text::{is_reserved_header, is_reserved_name, option_view};
use crate::ui_state::DetailField;

verus! {

/// The methods of a request, in the order in which they are cycled through.
#[derive(Clone, Copy, Debug, PartialEq, Eq, Structural)]
pub enum RequestType {
    GET,
    POST,
    PUT,
    DELETE,
    PATCH,
}

/// The authentication schemes. `NoAuth` is shown as "None".
#[derive(Clone, Copy, Debug, PartialEq, Eq, Structural)]
pub enum AuthType {
    NoAuth,
    Basic,
}

/// The credentials of the Basic scheme.
#[derive(Debug)]
pub struct BasicAuth {
    pub username: String,
    pub password: String,
}

/// The payload of the authentication scheme. `NoAuth` holds none.
#[derive(Debug)]
pub enum AuthDetails {
    NoAuth,
    Basic(BasicAuth),
}

/// What a request sends and how it authenticates. The `Authorization`
/// header is derived from the credentials and never set by hand.
#[derive(Debug)]
pub struct RequestDetails {
    pub url: String,
    pub body: String,
    pub params: StringMap,
    pub headers: StringMap,
    pub auth_type: AuthType,
    pub auth_details: AuthDetails,
}

/// One HTTP call: its name within its group, its method and its details.
#[derive(Debug)]
pub struct ApiRequest {
    pub name: String,
    pub request_type: RequestType,
    pub details: RequestDetails,
}

/// A user name and a password, as character sequences.
pub struct Credentials {
    pub username: Seq<char>,
    pub password: Seq<char>,
}

/// What a `RequestDetails` value stands for.
pub struct DetailsView {
    pub url: Seq<char>,
    pub body: Seq<char>,
    pub params: Map<Seq<char>, Seq<char>>,
    pub headers: Map<Seq<char>, Seq<char>>,
    pub auth_type: AuthType,
    pub auth_details: Option<Credentials>,
}

/// What an `ApiRequest` value stands for.
pub struct RequestView {
    pub name: Seq<char>,
    pub request_type: RequestType,
    pub details: DetailsView,
}

impl View for BasicAuth {
    type V = Credentials;

    open spec fn view(&self) -> Credentials {
        Credentials { username: self.username@, password: self.password@ }
    }
}

impl View for AuthDetails {
    type V = Option<Credentials>;

    open spec fn view(&self) -> Option<Credentials> {
        match self {
            AuthDetails::NoAuth => None,
            AuthDetails::Basic(basic) => Some(basic@),
        }
    }
}

impl View for RequestDetails {
    type V = DetailsView;

    open spec fn view(&self) -> DetailsView {
        DetailsView {
            url: self.url@,
            body: self.body@,
            params: self.params@,
            headers: self.headers@,
            auth_type: self.auth_type,
            auth_details: self.auth_details@,
        }
    }
}

impl View for ApiRequest {
    type V = RequestView;

    open spec fn view(&self) -> RequestView {
        RequestView { name: self.name@, request_type: self.request_type, details: self.details@ }
    }
}

/// The name of the header that carries the credentials.
pub open spec fn authorization_key() -> Seq<char> {
    "Authorization"@
}

/// The value of the `Authorization` header that the credentials call for:
/// none without credentials or with an empty user name.
pub open spec fn derived_authorization(auth: Option<Credentials>) -> Option<Seq<char>> {
    match auth {
        Some(c) => if c.username.len() > 0 {
            Some(basic_authorization(c.username, c.password))
        } else {
            None
        },
        None => None,
    }
}

/// `headers` with its `Authorization` entry set to `value`, or without that
/// entry where there is no value.
pub open spec fn with_authorization(
    headers: Map<Seq<char>, Seq<char>>,
    value: Option<Seq<char>>,
) -> Map<Seq<char>, Seq<char>> {
    match value {
        Some(v) => headers.insert(authorization_key(), v),
        None => headers.remove(authorization_key()),
    }
}

impl DetailsView {
    /// Details with nothing set.
    pub open spec fn empty() -> DetailsView {
        DetailsView {
            url: Seq::empty(),
            body: Seq::empty(),
            params: Map::empty(),
            headers: Map::empty(),
            auth_type: AuthType::NoAuth,
            auth_details: None,
        }
    }

    /// The payload is there exactly under the Basic scheme.
    pub open spec fn payload_matches_type(self) -> bool {
        (self.auth_type == AuthType::Basic) == (self.auth_details is Some)
    }

    /// The `Authorization` header is there exactly when the credentials
    /// call for one, and then holds the value they call for.
    pub open spec fn authorization_consistent(self) -> bool {
        match derived_authorization(self.auth_details) {
            Some(v) => self.headers.contains_key(authorization_key()) && self.headers[authorization_key()] == v,
            None => !self.headers.contains_key(authorization_key()),
        }
    }

    /// The details after the `Authorization` header has been derived anew.
    pub open spec fn rederived(self) -> DetailsView {
        DetailsView {
            headers: with_authorization(self.headers, derived_authorization(self.auth_details)),
            ..self
        }
    }

    /// The details after a switch to `auth_type`: a fresh payload, empty
    /// under Basic and absent otherwise, and no `Authorization` header.
    pub open spec fn with_auth_type(self, auth_type: AuthType) -> DetailsView {
        DetailsView {
            auth_type,
            auth_details: match auth_type {
                AuthType::Basic => Some(
                    Credentials { username: Seq::empty(), password: Seq::empty() },
                ),
                AuthType::NoAuth => None,
            },
            headers: self.headers.remove(authorization_key()),
            ..self
        }
    }

    /// The details after the four text buffers have been written back. The
    /// credentials are kept only where a payload exists.
    pub open spec fn with_buffers(
        self,
        url: Seq<char>,
        body: Seq<char>,
        username: Seq<char>,
        password: Seq<char>,
    ) -> DetailsView {
        DetailsView {
            url,
            body,
            auth_details: match self.auth_details {
                Some(_) => Some(Credentials { username, password }),
                None => None,
            },
            ..self
        }.rederived()
    }

    /// The details after one field has been given a new value. Only the
    /// four text fields can be set; a credential only where a payload exists.
    pub open spec fn with_field(self, field: DetailField, value: Seq<char>) -> DetailsView {
        match field {
            DetailField::Url => DetailsView { url: value, ..self },
            DetailField::Body => DetailsView { body: value, ..self },
            DetailField::AuthUsername => match self.auth_details {
                Some(c) => DetailsView {
                    auth_details: Some(Credentials { username: value, password: c.password }),
                    ..self
                }.rederived(),
                None => self,
            },
            DetailField::AuthPassword => match self.auth_details {
                Some(c) => DetailsView {
                    auth_details: Some(Credentials { username: c.username, password: value }),
                    ..self
                }.rederived(),
                None => self,
            },
            _ => self,
        }
    }

    /// The details after a header has been set by hand. The reserved name
    /// is refused in any spelling of its letters' case.
    pub open spec fn with_header(self, key: Seq<char>, value: Seq<char>) -> DetailsView {
        if is_reserved_header(key) {
            self
        } else {
            DetailsView { headers: self.headers.insert(key, value), ..self }
        }
    }

    /// The details after a query parameter has been set.
    pub open spec fn with_param(self, key: Seq<char>, value: Seq<char>) -> DetailsView {
        DetailsView { params: self.params.insert(key, value), ..self }
    }
}

impl RequestType {
    /// The method that follows in the cycle GET, POST, PUT, DELETE, PATCH.
    pub open spec fn successor(self) -> RequestType {
        match self {
            RequestType::GET => RequestType::POST,
            RequestType::POST => RequestType::PUT,
            RequestType::PUT => RequestType::DELETE,
            RequestType::DELETE => RequestType::PATCH,
            RequestType::PATCH => RequestType::GET,
        }
    }

    /// The method that precedes in the cycle.
    pub open spec fn predecessor(self) -> RequestType {
        match self {
            RequestType::GET => RequestType::PATCH,
            RequestType::POST => RequestType::GET,
            RequestType::PUT => RequestType::POST,
            RequestType::DELETE => RequestType::PUT,
            RequestType::PATCH => RequestType::DELETE,
        }
    }

    /// The method's name on the wire.
    pub open spec fn name(self) -> Seq<char> {
        match self {
            RequestType::GET => "GET"@,
            RequestType::POST => "POST"@,
            RequestType::PUT => "PUT"@,
            RequestType::DELETE => "DELETE"@,
            RequestType::PATCH => "PATCH"@,
        }
    }

    pub fn next(&self) -> (r: Self)
        ensures
            r == self.successor(),
    {
        match self {
            RequestType::GET => RequestType::POST,
            RequestType::POST => RequestType::PUT,
            RequestType::PUT => RequestType::DELETE,
            RequestType::DELETE => RequestType::PATCH,
            RequestType::PATCH => RequestType::GET,
        }
    }

    pub fn previous(&self) -> (r: Self)
        ensures
            r == self.predecessor(),
    {
        match self {
            RequestType::GET => RequestType::PATCH,
            RequestType::POST => RequestType::GET,
            RequestType::PUT => RequestType::POST,
            RequestType::DELETE => RequestType::PUT,
            RequestType::PATCH => RequestType::DELETE,
        }
    }

    pub fn as_str(&self) -> (r: &'static str)
        ensures
            r@ == self.name(),
    {
        match self {
            RequestType::GET => "GET",
            RequestType::POST => "POST",
            RequestType::PUT => "PUT",
            RequestType::DELETE => "DELETE",
            RequestType::PATCH => "PATCH",
        }
    }
}

impl AuthType {
    /// The other of the two schemes.
    pub open spec fn other(self) -> AuthType {
        match self {
            AuthType::NoAuth => AuthType::Basic,
            AuthType::Basic => AuthType::NoAuth,
        }
    }

    /// The scheme's name as it is shown and stored.
    pub open spec fn name(self) -> Seq<char> {
        match self {
            AuthType::NoAuth => "None"@,
            AuthType::Basic => "Basic"@,
        }
    }

    pub fn as_str(&self) -> (r: &'static str)
        ensures
            r@ == self.name(),
    {
        match self {
            AuthType::NoAuth => "None",
            AuthType::Basic => "Basic",
        }
    }

    pub fn next(&self) -> (r: Self)
        ensures
            r == self.other(),
    {
        match self {
            AuthType::NoAuth => AuthType::Basic,
            AuthType::Basic => AuthType::NoAuth,
        }
    }

    pub fn previous(&self) -> (r: Self)
        ensures
            r == self.other(),
    {
        match self {
            AuthType::NoAuth => AuthType::Basic,
            AuthType::Basic => AuthType::NoAuth,
        }
    }
}

impl Clone for BasicAuth {
    fn clone(&self) -> (r: Self)
        ensures
            r@ == self@,
    {
        BasicAuth { username: self.username.clone(), password: self.password.clone() }
    }
}

impl Clone for AuthDetails {
    fn clone(&self) -> (r: Self)
        ensures
            r@ == self@,
    {
        match self {
            AuthDetails::NoAuth => AuthDetails::NoAuth,
            AuthDetails::Basic(basic) => AuthDetails::Basic(basic.clone()),
        }
    }
}

impl Clone for RequestDetails {
    fn clone(&self) -> (r: Self)
        ensures
            r@ == self@,
            r.headers.pairs() == self.headers.pairs(),
            r.params.pairs() == self.params.pairs(),
    {
        RequestDetails {
            url: self.url.clone(),
            body: self.body.clone(),
            params: self.params.clone(),
            headers: self.headers.clone(),
            auth_type: self.auth_type,
            auth_details: self.auth_details.clone(),
        }
    }
}

impl Clone for ApiRequest {
    fn clone(&self) -> (r: Self)
        ensures
            r@ == self@,
            r.details.headers.pairs() == self.details.headers.pairs(),
            r.details.params.pairs() == self.details.params.pairs(),
    {
        ApiRequest {
            name: self.name.clone(),
            request_type: self.request_type,
            details: self.details.clone(),
        }
    }
}

impl RequestDetails {
    /// Details with nothing set.
    pub fn new() -> (r: Self)
        ensures
            r@ == DetailsView::empty(),
            r.headers.pairs().len() == 0,
            r.params.pairs().len() == 0,
    {
        RequestDetails {
            url: String::new(),
            body: String::new(),
            params: StringMap::new(),
            headers: StringMap::new(),
            auth_type: AuthType::NoAuth,
            auth_details: AuthDetails::NoAuth,
        }
    }

    /// The payload of the Basic scheme, where there is one.
    pub fn get_basic_auth(&self) -> (r: Option<&BasicAuth>)
        ensures
            match r {
                Some(basic) => self.auth_details == AuthDetails::Basic(*basic),
                None => self.auth_details is NoAuth,
            },
    {
        if let AuthDetails::Basic(basic) = &self.auth_details {
            Some(basic)
        } else {
            None
        }
    }

    /// Lends out the payload for editing. The `Authorization` header is not
    /// derived anew: that is `rederive_authorization`'s work.
    pub fn get_basic_auth_mut(&mut self) -> (r: Option<&mut BasicAuth>)
        ensures
            match r {
                Some(basic) => old(self).auth_details == AuthDetails::Basic(*basic) && *final(self)
                    == (RequestDetails {
                    auth_details: AuthDetails::Basic(*final(basic)),
                    ..*old(self)
                }),
                None => old(self).auth_details is NoAuth && *final(self) == *old(self),
            },
    {
        if let AuthDetails::Basic(basic) = &mut self.auth_details {
            Some(basic)
        } else {
            None
        }
    }

    /// Sets the `Authorization` header to `value`, or removes it.
    pub fn set_authorization(&mut self, value: Option<String>)
        ensures
            final(self)@ == (DetailsView {
                headers: with_authorization(old(self)@.headers, option_view(value)),
                ..old(self)@
            }),
    {
        match value {
            Some(v) => {
                self.headers.insert(String::from_str("Authorization"), v);
            },
            None => {
                self.headers.remove("Authorization");
            },
        }
    }

    /// Derives the `Authorization` header anew from the credentials.
    pub fn rederive_authorization(&mut self)
        ensures
            final(self)@ == old(self)@.rederived(),
            final(self)@.authorization_consistent(),
    {
        let value = match &self.auth_details {
            AuthDetails::Basic(basic) => {
                if basic.username.as_str().is_empty() {
                    None
                } else {
                    Some(
                        basic_authorization_value(
                            basic.username.as_str(),
                            basic.password.as_str(),
                        ),
                    )
                }
            },
            AuthDetails::NoAuth => None,
        };
        self.set_authorization(value);
    }

    /// Switches the scheme: the payload starts afresh and the
    /// `Authorization` header goes.
    pub fn set_auth_type(&mut self, auth_type: AuthType)
        ensures
            final(self)@ == old(self)@.with_auth_type(auth_type),
            final(self)@.payload_matches_type(),
            final(self)@.authorization_consistent(),
    {
        self.auth_type = auth_type;
        match auth_type {
            AuthType::Basic => {
                self.auth_details = AuthDetails::Basic(
                    BasicAuth { username: String::new(), password: String::new() },
                );
            },
            AuthType::NoAuth => {
                self.auth_details = AuthDetails::NoAuth;
            },
        }
        self.headers.remove("Authorization");
    }

    /// Writes the four text buffers back and derives the `Authorization`
    /// header anew.
    pub fn apply_buffers(&mut self, url: &str, body: &str, username: &str, password: &str)
        ensures
            final(self)@ == old(self)@.with_buffers(url@, body@, username@, password@),
            final(self)@.authorization_consistent(),
    {
        self.url = String::from_str(url);
        self.body = String::from_str(body);
        if let AuthDetails::Basic(basic) = &mut self.auth_details {
            basic.username = String::from_str(username);
            basic.password = String::from_str(password);
        }
        self.rederive_authorization();
    }

    /// Gives one of the four text fields a new value.
    pub fn set_field(&mut self, field: DetailField, value: &str)
        ensures
            final(self)@ == old(self)@.with_field(field, value@),
    {
        match field {
            DetailField::Url => {
                self.url = String::from_str(value);
            },
            DetailField::Body => {
                self.body = String::from_str(value);
            },
            DetailField::AuthUsername => {
                if let AuthDetails::Basic(basic) = &mut self.auth_details {
                    basic.username = String::from_str(value);
                    self.rederive_authorization();
                }
            },
            DetailField::AuthPassword => {
                if let AuthDetails::Basic(basic) = &mut self.auth_details {
                    basic.password = String::from_str(value);
                    self.rederive_authorization();
                }
            },
            _ => {},
        }
    }

    /// Sets a header by hand, unless its name is the reserved one. Returns
    /// whether the header was set.
    pub fn upsert_header(&mut self, key: String, value: String) -> (set: bool)
        ensures
            set == !is_reserved_header(key@),
            final(self)@ == old(self)@.with_header(key@, value@),
    {
        if is_reserved_name(key.as_str()) {
            false
        } else {
            self.headers.insert(key, value);
            true
        }
    }

    /// Sets a query parameter.
    pub fn upsert_param(&mut self, key: String, value: String)
        ensures
            final(self)@ == old(self)@.with_param(key@, value@),
    {
        self.params.insert(key, value);
    }
}

impl ApiRequest {
    /// What a new request stands for.
    pub open spec fn fresh(name: Seq<char>, request_type: RequestType) -> RequestView {
        RequestView { name, request_type, details: DetailsView::empty() }
    }

    /// A request with nothing set but its name and its method.
    pub fn new(name: String, request_type: RequestType) -> (r: Self)
        ensures
            r@ == Self::fresh(name@, request_type),
            r.name == name,
    {
        ApiRequest { name, request_type, details: RequestDetails::new() }
    }
}

impl Default for ApiRequest {
    fn default() -> (r: Self)
        ensures
            r@ == ApiRequest::fresh(Seq::empty(), RequestType::GET),
    {
        ApiRequest { name: String::new(), request_type: RequestType::GET, details: RequestDetails::new() }
    }
}

/// The methods form one cycle of five: five steps forward lead back to the
/// method they started from, and a step backward undoes a step forward, as a
/// step forward undoes a step backward.
pub proof fn lemma_method_cycle(method: RequestType)
    ensures
        method.successor().successor().successor().successor().successor() == method,
        method.predecessor().predecessor().predecessor().predecessor().predecessor() == method,
        method.successor().predecessor() == method,
        method.predecessor().successor() == method,
        method.successor() != method,
{
}

/// The two schemes alternate: a step forward and a step backward are the
/// same, and two steps lead back.
pub proof fn lemma_scheme_cycle(scheme: AuthType)
    ensures
        scheme.other().other() == scheme,
        scheme.other() != scheme,
{
}

/// However a request stands, switching its scheme to Basic and then to none
/// leaves it without an `Authorization` header and without a payload.
pub proof fn lemma_basic_then_none_drops_authorization(details: DetailsView)
    ensures
        !details.with_auth_type(AuthType::Basic).with_auth_type(
            AuthType::NoAuth,
        ).headers.contains_key(authorization_key()),
        details.with_auth_type(AuthType::Basic).with_auth_type(AuthType::NoAuth).auth_details
            is None,
        details.with_auth_type(AuthType::Basic).auth_details == Some(
            Credentials { username: Seq::empty(), password: Seq::empty() },
        ),
{
}

/// However a request stands, switching its scheme to Basic and then writing
/// back buffers with a user name that is not empty leaves the
/// `Authorization` header at the value that the Basic scheme gives the user
/// name and the password.
pub proof fn lemma_flush_derives_authorization(
    details: DetailsView,
    url: Seq<char>,
    body: Seq<char>,
    username: Seq<char>,
    password: Seq<char>,
)
    requires
        username.len() > 0,
    ensures
        details.with_auth_type(AuthType::Basic).with_buffers(
            url,
            body,
            username,
            password,
        ).headers.contains_key(authorization_key()),
        details.with_auth_type(AuthType::Basic).with_buffers(
            url,
            body,
            username,
            password,
        ).headers[authorization_key()] == basic_authorization(username, password),
{
}

/// Writing the same buffers back twice leaves what writing them back once
/// leaves.
pub proof fn lemma_flush_idempotent(
    details: DetailsView,
    url: Seq<char>,
    body: Seq<char>,
    username: Seq<char>,
    password: Seq<char>,
)
    ensures
        details.with_buffers(url, body, username, password).with_buffers(
            url,
            body,
            username,
            password,
        ) == details.with_buffers(url, body, username, password),
{
    let once = details.with_buffers(url, body, username, password);
    let twice = once.with_buffers(url, body, username, password);
    assert(twice.headers =~= once.headers);
}

/// After a switch of the scheme, after the buffers have been written back
/// and after a header or a parameter has been set by hand, the
/// `Authorization` header is there exactly when the credentials call for
/// one; the first two hold of every request, the last two of every request
/// of which it held before.
pub proof fn lemma_authorization_stays_derived(
    details: DetailsView,
    auth_type: AuthType,
    url: Seq<char>,
    body: Seq<char>,
    username: Seq<char>,
    password: Seq<char>,
    key: Seq<char>,
    value: Seq<char>,
)
    ensures
        details.with_auth_type(auth_type).authorization_consistent(),
        details.with_auth_type(auth_type).payload_matches_type(),
        details.with_buffers(url, body, username, password).authorization_consistent(),
        details.authorization_consistent() ==> details.with_header(
            key,
            value,
        ).authorization_consistent(),
        details.authorization_consistent() ==> details.with_param(
            key,
            value,
        ).authorization_consistent(),
{
    crate::text::lemma_authorization_is_reserved();
}

} // verus!
