//! The authorization gate: a fixed set of roles in front of a route group.

use crate::error::AuthError;
use crate::middleware::auth_middleware::{IdentityView, RequestContext};
use crate::response::{copy_of, texts, Body, Rejection};
use vstd::prelude::*;
use vstd::string::*;

verus! {

/// What this gate decides for a request whose context holds `identity`, on a
/// route that admits the roles `allowed`.
pub open spec fn authorize_spec(allowed: Seq<Seq<char>>, identity: Option<IdentityView>) -> Result<
    (),
    AuthError,
> {
    match identity {
        None => Err(AuthError::MissingIdentityContext),
        Some(user) => if allowed.contains(user.role) {
            Ok(())
        } else {
            Err(AuthError::RoleNotPermitted)
        },
    }
}

/// Whether `role` is one of `allowed`.
pub fn permits(allowed: &Vec<String>, role: &String) -> (found: bool)
    ensures
        found == texts(allowed@).contains(role@),
{
    let mut i: usize = 0;
    while i < allowed.len()
        invariant
            i <= allowed@.len(),
            forall|j: int| 0 <= j < i ==> allowed@[j]@ != role@,
        decreases allowed@.len() - i,
    {
        if allowed[i] == *role {
            assert(texts(allowed@)[i as int] == role@);
            return true;
        }
        i = i + 1;
    }
    assert(!texts(allowed@).contains(role@)) by {
        if texts(allowed@).contains(role@) {
            let j = choose|j: int| 0 <= j < texts(allowed@).len() && texts(allowed@)[j] == role@;
            assert(allowed@[j]@ == role@);
        }
    }
    false
}

/// The authorization gate as configured for a route group: the roles that
/// may pass.
pub struct AuthorizationMiddleware {
    pub allowed_roles: Vec<String>,
}

impl AuthorizationMiddleware {
    /// A gate that admits the roles `allowed_roles`.
    pub fn new(allowed_roles: Vec<String>) -> (gate: Self)
        ensures
            gate.allowed_roles == allowed_roles,
    {
        Self { allowed_roles }
    }

    /// A gate that admits the roles `roles`, given as string slices.
    pub fn with_roles(roles: &[&str]) -> (gate: Self)
        ensures
            texts(gate.allowed_roles@) == Seq::new(roles@.len(), |i: int| roles@[i]@),
    {
        let mut allowed_roles: Vec<String> = Vec::new();
        let mut i: usize = 0;
        while i < roles.len()
            invariant
                i <= roles@.len(),
                allowed_roles@.len() == i,
                forall|j: int| 0 <= j < i ==> allowed_roles@[j]@ == roles@[j]@,
            decreases roles@.len() - i,
        {
            allowed_roles.push(String::from_str(roles[i]));
            i = i + 1;
        }
        assert(texts(allowed_roles@) =~= Seq::new(roles@.len(), |i: int| roles@[i]@));
        Self { allowed_roles }
    }

    /// A gate that admits administrators only.
    pub fn admin_only() -> (gate: Self)
        ensures
            texts(gate.allowed_roles@) == seq!["admin"@],
    {
        let gate = Self::with_roles(&["admin"]);
        assert(texts(gate.allowed_roles@) =~= seq!["admin"@]);
        gate
    }

    /// This gate's service, as bound to a route group when it is registered.
    pub fn new_transform(&self) -> (service: AuthorizationMiddlewareService)
        ensures
            service.allowed() == texts(self.allowed_roles@),
    {
        AuthorizationMiddlewareService { allowed_roles: copy_of(&self.allowed_roles) }
    }
}

/// The authorization gate at work on the requests of a route group.
pub struct AuthorizationMiddlewareService {
    allowed_roles: Vec<String>,
}

impl AuthorizationMiddlewareService {
    /// The roles that the service admits.
    pub closed spec fn allowed(&self) -> Seq<Seq<char>> {
        texts(self.allowed_roles@)
    }

    /// This gate's answer to a request with the context `context`: the
    /// request goes on where the caller's role is admitted; it is answered
    /// with 403 and the detail where it is not, and with the one 401 where
    /// no identity is attached.
    pub fn call(&self, context: &RequestContext) -> (r: Result<(), Rejection>)
        ensures
            match r {
                Ok(()) => authorize_spec(self.allowed(), context.identity_view()) is Ok,
                Err(rejection) => {
                    &&& authorize_spec(self.allowed(), context.identity_view()) == Err::<
                        (),
                        AuthError,
                    >(rejection.reason)
                    &&& rejection.reason == AuthError::MissingIdentityContext
                        ==> rejection.is_gate_unauthorized()
                    &&& rejection.reason == AuthError::RoleNotPermitted ==> {
                        &&& rejection.status_spec() == 403
                        &&& rejection.body matches Body::Denial(detail)
                        &&& detail.describes(
                            self.allowed(),
                            context.identity_view()->0.role,
                            context.identity_view()->0.user_id,
                        )
                    }
                },
            },
    {
        match &context.identity {
            Some(user) => {
                if permits(&self.allowed_roles, &user.role) {
                    Ok(())
                } else {
                    Err(Rejection::forbidden(&self.allowed_roles, user.role.as_str(), user.user_id))
                }
            },
            None => Err(Rejection::unauthorized(AuthError::MissingIdentityContext)),
        }
    }
}

} // verus!
