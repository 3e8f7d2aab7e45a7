//! The authentication gate: from an `Authorization` header to an identity.

use crate::clock;
use crate::error::AuthError;
use crate::ident;
use crate::ident::uuid_parsed;
use crate::response::Rejection;
use crate::text::strip_prefix;
use crate::token;
use crate::token::verify_spec;
use vstd::prelude::*;

verus! {

/// What a token asserts: who the bearer is, and until when.
#[derive(Debug)]
pub struct Claims {
    /// The subject: the user's id, a UUID in text form.
    pub sub: String,
    pub email: String,
    pub role: String,
    /// Expiry, in seconds since the Unix epoch.
    pub exp: usize,
}

/// The mathematical content of [`Claims`].
pub struct ClaimsView {
    pub sub: Seq<char>,
    pub email: Seq<char>,
    pub role: Seq<char>,
    pub exp: nat,
}

impl View for Claims {
    type V = ClaimsView;

    open spec fn view(&self) -> ClaimsView {
        ClaimsView { sub: self.sub@, email: self.email@, role: self.role@, exp: self.exp as nat }
    }
}

/// The authenticated principal of one request: a snapshot of what the token
/// said when it was verified.
#[derive(Debug)]
pub struct AuthenticatedUser {
    /// The user's id: the value of the UUID.
    pub user_id: u128,
    pub email: String,
    pub role: String,
}

/// The mathematical content of [`AuthenticatedUser`].
pub struct IdentityView {
    pub user_id: u128,
    pub email: Seq<char>,
    pub role: Seq<char>,
}

impl View for AuthenticatedUser {
    type V = IdentityView;

    open spec fn view(&self) -> IdentityView {
        IdentityView { user_id: self.user_id, email: self.email@, role: self.role@ }
    }
}

impl Clone for AuthenticatedUser {
    fn clone(&self) -> (copy: Self)
        ensures
            copy@ == self@,
    {
        AuthenticatedUser {
            user_id: self.user_id,
            email: self.email.clone(),
            role: self.role.clone(),
        }
    }
}

/// The context of one request, handed from gate to gate and on to the
/// handler. It holds the identity once the authentication gate has run.
#[derive(Debug)]
pub struct RequestContext {
    pub identity: Option<AuthenticatedUser>,
}

impl RequestContext {
    /// The identity in the context, if there is one.
    pub open spec fn identity_view(&self) -> Option<IdentityView> {
        match self.identity {
            Some(user) => Some(user@),
            None => None,
        }
    }

    /// The context of a request that no gate has seen yet.
    pub fn new() -> (context: RequestContext)
        ensures
            context.identity is None,
    {
        RequestContext { identity: None }
    }
}

/// The token of an `Authorization` header: what follows the scheme
/// `Bearer` and one space. The scheme is matched letter for letter.
pub open spec fn bearer_token(header: Seq<char>) -> Option<Seq<char>> {
    if "Bearer "@.is_prefix_of(header) {
        Some(header.skip("Bearer "@.len() as int))
    } else {
        None
    }
}

/// The identity that `claims` name: the subject must denote a UUID.
pub open spec fn identity_of(claims: ClaimsView) -> Result<IdentityView, AuthError> {
    match uuid_parsed(claims.sub) {
        Some(id) => Ok(IdentityView { user_id: id, email: claims.email, role: claims.role }),
        None => Err(AuthError::SubjectNotParseable),
    }
}

/// What this gate decides on a request with the header `authorization` at
/// the time `now`, with `secret` as the server's key: the identity to
/// attach, or the reason to reject.
pub open spec fn authenticate_spec(
    secret: Seq<char>,
    authorization: Option<Seq<char>>,
    now: nat,
) -> Result<IdentityView, AuthError> {
    match authorization {
        None => Err(AuthError::MissingToken),
        Some(header) => match bearer_token(header) {
            None => Err(AuthError::MissingToken),
            Some(token) => match verify_spec(token, secret, now) {
                Err(e) => Err(e),
                Ok(claims) => identity_of(claims),
            },
        },
    }
}

/// The text of a header that may be absent.
pub open spec fn header_view(authorization: Option<&str>) -> Option<Seq<char>> {
    match authorization {
        Some(header) => Some(header@),
        None => None,
    }
}

/// The time that a clock reading of `t` seconds stands for: a clock set
/// before the epoch reads as the epoch.
pub open spec fn clock_seconds(t: i64) -> nat {
    if t < 0 {
        0
    } else {
        t as nat
    }
}

/// The authentication gate as configured for a route group.
pub struct AuthMiddleware {
    pub secret_key: String,
}

impl AuthMiddleware {
    /// A gate that verifies tokens under `secret_key`.
    pub fn new(secret_key: String) -> (gate: Self)
        ensures
            gate.secret_key == secret_key,
    {
        Self { secret_key }
    }

    /// This gate's service, as bound to a route group when it is registered.
    pub fn new_transform(&self) -> (service: AuthMiddlewareService)
        ensures
            service.secret() == self.secret_key@,
    {
        AuthMiddlewareService { secret_key: self.secret_key.clone() }
    }
}

/// The authentication gate at work on the requests of a route group.
pub struct AuthMiddlewareService {
    secret_key: String,
}

impl AuthMiddlewareService {
    /// The secret under which the service verifies tokens.
    pub closed spec fn secret(&self) -> Seq<char> {
        self.secret_key@
    }

    /// Whether `r` is this gate's answer to a request with the header
    /// `authorization` when the clock reads `t`: the context with the
    /// token's identity attached, or the one 401 answer.
    pub open spec fn answers_at(
        &self,
        authorization: Option<&str>,
        t: i64,
        r: Result<RequestContext, Rejection>,
    ) -> bool {
        let decided = authenticate_spec(self.secret(), header_view(authorization), clock_seconds(t));
        match r {
            Ok(context) => context.identity_view() is Some && decided == Ok::<
                IdentityView,
                AuthError,
            >(context.identity_view()->0),
            Err(rejection) => decided == Err::<IdentityView, AuthError>(rejection.reason)
                && rejection.is_gate_unauthorized(),
        }
    }

    /// Decides on a request with the header `authorization` at the time
    /// `now`, in seconds since the Unix epoch.
    pub fn authenticate(&self, authorization: Option<&str>, now: u64) -> (r: Result<
        AuthenticatedUser,
        AuthError,
    >)
        ensures
            match r {
                Ok(user) => authenticate_spec(self.secret(), header_view(authorization), now as nat)
                    == Ok::<IdentityView, AuthError>(user@),
                Err(e) => authenticate_spec(self.secret(), header_view(authorization), now as nat)
                    == Err::<IdentityView, AuthError>(e),
            },
    {
        let header = match authorization {
            Some(header) => header,
            None => {
                return Err(AuthError::MissingToken);
            },
        };
        let token = match strip_prefix(header, "Bearer ") {
            Some(token) => token,
            None => {
                return Err(AuthError::MissingToken);
            },
        };
        assert(token@ =~= header@.skip("Bearer "@.len() as int));
        assert("Bearer "@.is_prefix_of(header@));
        let claims = match token::verify(token, self.secret_key.as_str(), now) {
            Ok(claims) => claims,
            Err(e) => {
                return Err(e);
            },
        };
        match ident::parse(claims.sub.as_str()) {
            Some(user_id) => Ok(AuthenticatedUser { user_id, email: claims.email, role: claims.role }),
            None => Err(AuthError::SubjectNotParseable),
        }
    }

    /// This gate's answer to a request when the clock reads `t`: on success
    /// the identity is attached to `context`, which is handed on to the next
    /// stage; on any failure the request is answered with the one 401.
    pub fn call_at(&self, authorization: Option<&str>, context: RequestContext, t: i64) -> (r:
        Result<RequestContext, Rejection>)
        ensures
            self.answers_at(authorization, t, r),
    {
        let now: u64 = if t < 0 {
            0
        } else {
            t as u64
        };
        let mut context = context;
        match self.authenticate(authorization, now) {
            Ok(user) => {
                context.identity = Some(user);
                Ok(context)
            },
            Err(e) => Err(Rejection::unauthorized(e)),
        }
    }

    /// This gate's answer to a request now. The clock reads a time that is
    /// not before the epoch; whatever it reads, the answer is the one that
    /// `call_at` gives for that reading.
    pub fn call(&self, authorization: Option<&str>, context: RequestContext) -> (r: Result<
        RequestContext,
        Rejection,
    >)
        ensures
            exists|t: i64| 0 <= t && #[trigger] self.answers_at(authorization, t, r),
    {
        let t = clock::now().seconds;
        let r = self.call_at(authorization, context, t);
        assert(self.answers_at(authorization, t, r));
        r
    }
}

/// Rejections look alike: whatever the reasons for which the authentication
/// gate turns two requests away, a bad signature for one and an expired
/// token for the other, the two answers have the same status and the same
/// body.
pub proof fn lemma_rejections_look_alike(
    first: AuthMiddlewareService,
    first_header: Option<&str>,
    first_time: i64,
    first_answer: Result<RequestContext, Rejection>,
    second: AuthMiddlewareService,
    second_header: Option<&str>,
    second_time: i64,
    second_answer: Result<RequestContext, Rejection>,
)
    requires
        first.answers_at(first_header, first_time, first_answer),
        second.answers_at(second_header, second_time, second_answer),
        first_answer is Err,
        second_answer is Err,
    ensures
        first_answer->Err_0.status_spec() == 401,
        second_answer->Err_0.status_spec() == 401,
        first_answer->Err_0.body.json_text() == second_answer->Err_0.body.json_text(),
{
}

/// A sound token passes: presented as a bearer token at any time before
/// its expiry, the token that was issued for `claims` under the service's
/// secret gives the identity that the claims name, every claim unchanged.
pub proof fn lemma_issued_token_passes(
    secret: Seq<char>,
    claims: ClaimsView,
    token: Seq<char>,
    now: nat,
)
    requires
        crate::token::issued_soundly(token, claims, secret),
        now < claims.exp,
    ensures
        bearer_token("Bearer "@ + token) == Some(token),
        authenticate_spec(secret, Some("Bearer "@ + token), now) == identity_of(claims),
{
    let header = "Bearer "@ + token;
    assert("Bearer "@ =~= header.subrange(0, "Bearer "@.len() as int));
    assert(header.skip("Bearer "@.len() as int) =~= token);
}

/// A request is let through exactly where its token verifies and names a
/// UUID, and then the identity attached is the one that the token states.
pub proof fn lemma_identity_is_the_tokens(
    service: AuthMiddlewareService,
    header: Option<&str>,
    t: i64,
    answer: Result<RequestContext, Rejection>,
)
    requires
        service.answers_at(header, t, answer),
    ensures
        answer is Ok <==> {
            &&& header is Some
            &&& bearer_token(header->0@) is Some
            &&& verify_spec(bearer_token(header->0@)->0, service.secret(), clock_seconds(t)) is Ok
            &&& uuid_parsed(
                verify_spec(bearer_token(header->0@)->0, service.secret(), clock_seconds(t))->Ok_0.sub,
            ) is Some
        },
        answer is Ok ==> {
            let claims = verify_spec(
                bearer_token(header->0@)->0,
                service.secret(),
                clock_seconds(t),
            )->Ok_0;
            let user = answer->Ok_0.identity_view()->0;
            &&& Some(user.user_id) == uuid_parsed(claims.sub)
            &&& user.email == claims.email
            &&& user.role == claims.role
        },
{
}

/// The identity that the authentication gate attached to the request, if it
/// has run.
pub fn get_authenticated_user(context: &RequestContext) -> (user: Option<AuthenticatedUser>)
    ensures
        match user {
            Some(user) => context.identity_view() == Some(user@),
            None => context.identity is None,
        },
{
    match &context.identity {
        Some(user) => Some(user.clone()),
        None => None,
    }
}

/// The identity of the caller, for a handler: the one in the context, or
/// the handler's 401 answer where there is none.
pub fn get_current_user(context: &RequestContext) -> (r: Result<AuthenticatedUser, Rejection>)
    ensures
        match r {
            Ok(user) => context.identity_view() == Some(user@),
            Err(rejection) => {
                &&& context.identity is None
                &&& rejection.reason == AuthError::MissingIdentityContext
                &&& rejection.status_spec() == 401
                &&& rejection.body matches crate::response::Body::Message(m)
                &&& m@ == crate::response::handler_message()
            },
        },
{
    match &context.identity {
        Some(user) => Ok(user.clone()),
        None => Err(Rejection::not_authenticated()),
    }
}

} // verus!
