//! Scope enforcement for routes: a request passes only when the claims of its
//! validated user token hold the route's required scope.
use vstd::prelude::*;
use vstd::string::*;
use crate::error::join2;
use crate::jwt::{UserClaims, texts};
use crate::permission::{
    action_name, grants_action, law_normalized_scope_iff_granted, module_name, normalized_scopes,
    PermissionsView,
};
use crate::rbac::{
    law_scope_text_identifies_scope, lemma_scope_index, role_grants, role_scopes, scope_index,
    scope_permission, scope_str, Role, Scope,
};
use crate::text::str_equal;

verus! {

/// Requires a specific scope on a route.
#[derive(Debug, Clone)]
pub struct RequireScope {
    /// The scope that must be present in the user's JWT claims.
    pub required_scope: Scope,
}

/// The route service produced by [`RequireScope::layer`]: the wrapped inner
/// service together with the scope it requires.
#[derive(Debug, Clone)]
pub struct RequireScopeService<S> {
    inner: S,
    required_scope: Scope,
}

/// What the guard does with a request.
#[derive(Debug, Clone, PartialEq, Eq)]
pub enum GuardDecision {
    /// Hand the request to the inner service.
    Allow,
    /// Answer `403 Forbidden` with a JSON body `{"error": .., "message": ..}`.
    Forbidden {
        /// The `error` field of the body.
        error: String,
        /// The `message` field of the body.
        message: String,
    },
}

/// The answer to a request that carries no validated claims.
pub open spec fn missing_claims_message() -> Seq<char> {
    "Missing JWT claims in request extension"@
}

/// The answer to a request whose claims lack the required scope.
pub open spec fn missing_scope_message(s: Scope) -> Seq<char> {
    "Missing required scope: "@ + scope_str(s)
}

/// Whether a claims' scope list holds a scope's text.
pub open spec fn holds_scope(scopes: Seq<String>, s: Scope) -> bool {
    texts(scopes).contains(scope_str(s))
}

/// What the guard decides for a request requiring `s`, given the claims found
/// on it (if any).
pub open spec fn guard_outcome(claims: Option<UserClaims>, s: Scope) -> Option<Seq<char>> {
    match claims {
        None => Some(missing_claims_message()),
        Some(c) => if holds_scope(c.scopes@, s) {
            None
        } else {
            Some(missing_scope_message(s))
        },
    }
}

/// The guard's decision for a request requiring `required`.
///
/// A request without claims is refused with `Missing JWT claims in request
/// extension`; a request whose claims lack the scope's text is refused with
/// `Missing required scope: <scope>`; any other request is allowed. Every
/// refusal carries the error `forbidden`.
pub fn scope_decision(required: &Scope, claims: Option<&UserClaims>) -> (r: GuardDecision)
    ensures
        match guard_outcome(
            match claims {
                Some(c) => Some(*c),
                None => None,
            },
            *required,
        ) {
            None => r == GuardDecision::Allow,
            Some(m) => r matches GuardDecision::Forbidden { error, message } && error@
                == "forbidden"@ && message@ == m,
        },
{
    match claims {
        None => GuardDecision::Forbidden {
            error: String::from_str("forbidden"),
            message: String::from_str("Missing JWT claims in request extension"),
        },
        Some(c) => {
            let scope_string = required.to_string();
            let mut i: usize = 0;
            while i < c.scopes.len()
                invariant
                    i <= c.scopes@.len(),
                    claims == Some(c),
                    scope_string@ == scope_str(*required),
                    forall|j: int| 0 <= j < i ==> c.scopes@[j]@ != scope_string@,
                decreases c.scopes@.len() - i,
            {
                if str_equal(c.scopes[i].as_str(), scope_string.as_str()) {
                    proof {
                        assert(texts(c.scopes@)[i as int] == scope_str(*required));
                        assert(texts(c.scopes@).contains(scope_str(*required)));
                        assert(holds_scope(c.scopes@, *required));
                    }
                    return GuardDecision::Allow;
                }
                i = i + 1;
            }
            proof {
                assert forall|j: int| 0 <= j < texts(c.scopes@).len() implies texts(c.scopes@)[j]
                    != scope_str(*required) by {
                    assert(texts(c.scopes@)[j] == c.scopes@[j]@);
                }
            }
            GuardDecision::Forbidden {
                error: String::from_str("forbidden"),
                message: join2("Missing required scope: ", scope_string.as_str()),
            }
        },
    }
}

impl RequireScope {
    /// Creates a guard requiring the given scope.
    pub fn new(scope: Scope) -> (r: RequireScope)
        ensures
            r.required_scope == scope,
    {
        RequireScope { required_scope: scope }
    }

    /// Wraps an inner service with this guard.
    pub fn layer<S>(&self, inner: S) -> (r: RequireScopeService<S>)
        ensures
            r.inner() == inner,
            r.required_scope() == self.required_scope,
    {
        RequireScopeService { inner, required_scope: self.required_scope }
    }
}

impl<S> RequireScopeService<S> {
    /// The wrapped inner service.
    pub closed spec fn inner(&self) -> S {
        self.inner
    }

    /// The scope this service requires.
    pub closed spec fn required_scope(&self) -> Scope {
        self.required_scope
    }

    /// The wrapped inner service.
    pub fn inner_service(&self) -> (r: &S)
        ensures
            *r == self.inner(),
    {
        &self.inner
    }

    /// The scope this service requires.
    pub fn scope(&self) -> (r: Scope)
        ensures
            r == self.required_scope(),
    {
        self.required_scope
    }

    /// The decision for one request, given the claims found on it.
    pub fn check(&self, claims: Option<&UserClaims>) -> (r: GuardDecision)
        ensures
            match guard_outcome(
                match claims {
                    Some(c) => Some(*c),
                    None => None,
                },
                self.required_scope(),
            ) {
                None => r == GuardDecision::Allow,
                Some(m) => r matches GuardDecision::Forbidden { error, message } && error@
                    == "forbidden"@ && message@ == m,
            },
    {
        scope_decision(&self.required_scope, claims)
    }
}

/// The scope texts of a role's matrix entry, in matrix order.
pub open spec fn role_scope_texts(role: Role) -> Seq<Seq<char>> {
    role_scopes(role).map_values(|s: Scope| scope_str(s))
}

/// Law: a token whose scopes are exactly a role's matrix scopes passes the
/// guard of a route exactly when the role grants the route's scope. In
/// particular a viewer token is refused on every route that needs more than a
/// read.
pub proof fn law_guard_follows_role_matrix(role: Role, scopes: Seq<String>, s: Scope)
    requires
        texts(scopes) == role_scope_texts(role),
    ensures
        holds_scope(scopes, s) <==> role_grants(role, s),
{
    let q = role_scopes(role);
    let t = role_scope_texts(role);
    if holds_scope(scopes, s) {
        let j = choose|j: int| 0 <= j < t.len() && t[j] == scope_str(s);
        assert(t[j] == scope_str(q[j]));
        law_scope_text_identifies_scope(q[j], s);
        assert(q.contains(s));
    }
    if role_grants(role, s) {
        let j = choose|j: int| 0 <= j < q.len() && q[j] == s;
        assert(t[j] == scope_str(s));
        assert(texts(scopes).contains(scope_str(s)));
    }
}

/// Law: a user token whose scopes are the normalization of stored role
/// permissions passes the guard of a route exactly when those permissions
/// grant the route scope's action on the route scope's module.
pub proof fn law_guard_follows_permissions(p: PermissionsView, scopes: Seq<String>, s: Scope)
    requires
        texts(scopes) == normalized_scopes(p),
    ensures
        holds_scope(scopes, s) <==> grants_action(
            p,
            module_name(scope_permission(s).module),
            action_name(scope_permission(s).action),
        ),
{
    lemma_scope_index(s);
    law_normalized_scope_iff_granted(p, scope_index(s));
}

} // verus!
