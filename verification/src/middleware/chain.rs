//! The gates of a route group, in the order in which a request meets them.

use crate::clock;
use crate::error::AuthError;
use crate::middleware::auth_middleware::{
    authenticate_spec,
    clock_seconds,
    header_view,
    AuthMiddlewareService,
    IdentityView,
    RequestContext,
};
use crate::middleware::authorization_middleware::{authorize_spec, AuthorizationMiddlewareService};
use crate::response::{Body, Rejection};
use vstd::prelude::*;

verus! {

/// One gate of a route group.
pub enum Gate {
    Authentication(AuthMiddlewareService),
    Authorization(AuthorizationMiddlewareService),
}

/// Why and where a request was stopped: the reason, and for a role that is
/// not permitted the roles that were asked for and the caller.
pub struct Stop {
    pub reason: AuthError,
    pub required: Seq<Seq<char>>,
    pub caller: Option<IdentityView>,
}

/// What the gates `gates`, met in order, decide on a request with the
/// header `header` at the time `now`, whose context holds `identity` so
/// far: the identity with which the handler runs, or where the first gate
/// that rejects stopped it. No gate after that one is met.
pub open spec fn chain_spec(
    gates: Seq<Gate>,
    header: Option<Seq<char>>,
    now: nat,
    identity: Option<IdentityView>,
) -> Result<Option<IdentityView>, Stop>
    decreases gates.len(),
{
    if gates.len() == 0 {
        Ok(identity)
    } else {
        match gates[0] {
            Gate::Authentication(service) => match authenticate_spec(service.secret(), header, now) {
                Ok(user) => chain_spec(gates.drop_first(), header, now, Some(user)),
                Err(e) => Err(Stop { reason: e, required: Seq::empty(), caller: None }),
            },
            Gate::Authorization(service) => match authorize_spec(service.allowed(), identity) {
                Ok(_) => chain_spec(gates.drop_first(), header, now, identity),
                Err(e) => Err(Stop { reason: e, required: service.allowed(), caller: identity }),
            },
        }
    }
}

/// Whether `rejection` is the answer to a request stopped at `stop`: a 403
/// with the detail where the role is not permitted, and the one 401
/// otherwise.
pub open spec fn answers_stop(rejection: Rejection, stop: Stop) -> bool {
    &&& rejection.reason == stop.reason
    &&& stop.reason != AuthError::RoleNotPermitted ==> rejection.is_gate_unauthorized()
    &&& stop.reason == AuthError::RoleNotPermitted ==> {
        &&& rejection.status_spec() == 403
        &&& stop.caller is Some
        &&& rejection.body matches Body::Denial(detail)
        &&& detail.describes(stop.required, stop.caller->0.role, stop.caller->0.user_id)
    }
}

/// Whether `r` is the answer of `gates` to a request with the header
/// `authorization` when the clock reads `t`: the context for the handler,
/// or the rejection of the first gate that rejects.
pub open spec fn chain_answers_at(
    gates: Seq<Gate>,
    authorization: Option<&str>,
    t: i64,
    r: Result<RequestContext, Rejection>,
) -> bool {
    let decided = chain_spec(gates, header_view(authorization), clock_seconds(t), None);
    match r {
        Ok(context) => decided == Ok::<Option<IdentityView>, Stop>(context.identity_view()),
        Err(rejection) => decided is Err && answers_stop(rejection, decided->Err_0),
    }
}

/// Takes a request through `gates` in order when the clock reads `t`.
pub fn pass_at(gates: &Vec<Gate>, authorization: Option<&str>, t: i64) -> (r: Result<
    RequestContext,
    Rejection,
>)
    ensures
        chain_answers_at(gates@, authorization, t, r),
{
    let mut context = RequestContext::new();
    let ghost header = header_view(authorization);
    let ghost now = clock_seconds(t);
    let mut i: usize = 0;
    assert(gates@.skip(0) =~= gates@);
    while i < gates.len()
        invariant
            i <= gates@.len(),
            header == header_view(authorization),
            now == clock_seconds(t),
            chain_spec(gates@, header, now, None) == chain_spec(
                gates@.skip(i as int),
                header,
                now,
                context.identity_view(),
            ),
        decreases gates@.len() - i,
    {
        let ghost rest = gates@.skip(i as int);
        assert(rest[0] == gates@[i as int]);
        assert(rest.drop_first() =~= gates@.skip(i + 1));
        match &gates[i] {
            Gate::Authentication(service) => {
                match service.call_at(authorization, context, t) {
                    Ok(next) => {
                        context = next;
                    },
                    Err(rejection) => {
                        return Err(rejection);
                    },
                }
            },
            Gate::Authorization(service) => {
                match service.call(&context) {
                    Ok(_) => {},
                    Err(rejection) => {
                        return Err(rejection);
                    },
                }
            },
        }
        i = i + 1;
    }
    assert(gates@.skip(i as int) =~= Seq::<Gate>::empty());
    Ok(context)
}

/// Takes a request through `gates` in order, now. The clock reads a time
/// that is not before the epoch; whatever it reads, the answer is the one
/// that `pass_at` gives for that reading.
pub fn pass(gates: &Vec<Gate>, authorization: Option<&str>) -> (r: Result<RequestContext, Rejection>)
    ensures
        exists|t: i64| 0 <= t && #[trigger] chain_answers_at(gates@, authorization, t, r),
{
    let t = clock::now().seconds;
    let r = pass_at(gates, authorization, t);
    assert(chain_answers_at(gates@, authorization, t, r));
    r
}

/// Authentication, then authorization: a request reaches the handler
/// exactly where its token gives an identity whose role is admitted, and
/// the handler runs with that identity.
pub proof fn lemma_guarded_route(
    authentication: AuthMiddlewareService,
    authorization: AuthorizationMiddlewareService,
    header: Option<Seq<char>>,
    now: nat,
)
    ensures
        chain_spec(
            seq![Gate::Authentication(authentication), Gate::Authorization(authorization)],
            header,
            now,
            None,
        ) == match authenticate_spec(authentication.secret(), header, now) {
            Err(e) => Err::<Option<IdentityView>, Stop>(
                Stop { reason: e, required: Seq::empty(), caller: None },
            ),
            Ok(user) => if authorization.allowed().contains(user.role) {
                Ok(Some(user))
            } else {
                Err(
                    Stop {
                        reason: AuthError::RoleNotPermitted,
                        required: authorization.allowed(),
                        caller: Some(user),
                    },
                )
            },
        },
{
    let gates = seq![Gate::Authentication(authentication), Gate::Authorization(authorization)];
    let rest = gates.drop_first();
    assert(rest =~= seq![Gate::Authorization(authorization)]);
    assert(rest.drop_first() =~= Seq::<Gate>::empty());
    reveal_with_fuel(chain_spec, 3);
}

/// The order matters: where authorization is met before any authentication,
/// no identity is attached yet and every request is rejected, whatever its
/// token.
pub proof fn lemma_authorization_first_rejects(
    gates: Seq<Gate>,
    header: Option<Seq<char>>,
    now: nat,
)
    requires
        gates.len() > 0,
        gates[0] is Authorization,
    ensures
        chain_spec(gates, header, now, None) is Err,
        chain_spec(gates, header, now, None)->Err_0.reason == AuthError::MissingIdentityContext,
{
}

} // verus!
