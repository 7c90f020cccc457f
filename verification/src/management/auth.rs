//! Authentication and role-based authorization for management operations.

use vstd::prelude::*;
use vstd::string::StringExecFns;
use crate::error::RaftError;
use crate::text::{decimal, u64_to_string, push_decimal};
use super::{
    ManagementOperation, ManagementRole, operation_name, operation_to_string,
    operation_target_node, spec_is_read_only, spec_target_node,
};

verus! {

/// Authentication token for management operations.
#[derive(Debug)]
pub struct AuthToken {
    /// Node id of the authenticated entity
    pub node_id: u64,
    /// Peer id (public key) used for P2P authentication, in text form
    pub peer_id: String,
    /// Role assigned to this token
    pub role: ManagementRole,
    /// Expiration time, milliseconds since the Unix epoch
    pub expires_at_ms: u64,
    /// Node id of the issuer
    pub issued_by: u64,
    /// Token signature
    pub signature: String,
}

/// Time-based access restrictions.
#[derive(Debug, Clone, Copy)]
pub struct TimeRestriction {
    /// Valid from, milliseconds since the Unix epoch
    pub valid_from_ms: u64,
    /// Valid until, milliseconds since the Unix epoch
    pub valid_until_ms: u64,
    /// Maximum session duration in milliseconds
    pub max_session_duration_ms: u64,
}

/// Resource-based access restrictions.
#[derive(Debug)]
pub struct ResourceRestriction {
    /// Allowed node ids (empty means all)
    pub allowed_nodes: Vec<u64>,
    /// Denied node ids
    pub denied_nodes: Vec<u64>,
    /// Allowed operations by resource type, as (resource, limit) pairs
    pub operation_limits: Vec<(String, u32)>,
}

/// Permission set for a role.
#[derive(Debug)]
pub struct Permission {
    /// Names of the operations allowed; `*` allows every operation
    pub allowed_operations: Vec<String>,
    /// Time-based restrictions
    pub time_restrictions: Option<TimeRestriction>,
    /// Resource-based restrictions
    pub resource_restrictions: Option<ResourceRestriction>,
}

/// Result of a successful authentication: the token and the permissions
/// of its role.
#[derive(Debug)]
pub struct AuthResult {
    /// The token
    pub token: AuthToken,
    /// The permissions of the token's role
    pub permissions: Permission,
}

/// Authentication and authorization manager.
#[derive(Debug)]
pub struct AuthManager {
    role_permissions: Vec<(ManagementRole, Permission)>,
    active_tokens: Vec<AuthToken>,
    trusted_issuers: Vec<u64>,
    default_token_lifetime_ms: u64,
}

/// The numeric code of a role, as used in token signatures.
pub open spec fn role_code(role: ManagementRole) -> nat {
    match role {
        ManagementRole::Admin => 0,
        ManagementRole::Observer => 1,
        ManagementRole::MemberManager => 2,
        ManagementRole::Monitor => 3,
    }
}

/// The signature of a token: `sig_<node>_<role code>_<expiry seconds>_<issuer>`.
pub open spec fn token_signature(node_id: u64, role: ManagementRole, expires_at_ms: u64, issuer: u64) -> Seq<char> {
    "sig_"@ + decimal(node_id as nat) + "_"@ + decimal(role_code(role)) + "_"@
        + decimal((expires_at_ms / 1000) as nat) + "_"@ + decimal(issuer as nat)
}

/// The operation names allowed to a role by default.
pub open spec fn default_operations(role: ManagementRole) -> Seq<Seq<char>> {
    match role {
        ManagementRole::Admin => seq!["*"@],
        ManagementRole::Observer => seq![
            "get_cluster_status"@, "get_configuration"@, "get_metrics"@, "get_health_status"@,
            "get_log_info"@, "get_log_entries"@, "get_snapshot_info"@, "list_backups"@,
        ],
        ManagementRole::MemberManager => seq![
            "get_cluster_status"@, "get_configuration"@, "get_health_status"@,
            "add_member"@, "remove_member"@, "update_member_role"@,
        ],
        ManagementRole::Monitor => seq![
            "get_cluster_status"@, "get_metrics"@, "get_health_status"@,
        ],
    }
}

/// The text views of a list of strings.
pub open spec fn names(v: Seq<String>) -> Seq<Seq<char>> {
    v.map_values(|s: String| s@)
}

/// The tokens that have not expired at `now_ms`, in order.
pub open spec fn unexpired(tokens: Seq<AuthToken>, now_ms: u64) -> Seq<AuthToken> {
    tokens.filter(|t: AuthToken| t.expires_at_ms > now_ms)
}

/// Denial reported as (operation, peer) when a request is refused.
pub type Denial = (Seq<char>, Seq<char>);

impl Permission {
    /// The operation names of this permission.
    pub open spec fn allowed_names(&self) -> Seq<Seq<char>> {
        names(self.allowed_operations@)
    }

    /// Whether this permission names the operation, or allows every operation.
    pub open spec fn names_operation(&self, op: ManagementOperation) -> bool {
        self.allowed_names().contains("*"@) || self.allowed_names().contains(operation_name(op))
    }

    /// Whether the time restriction, if any, admits the instant `now_ms`.
    pub open spec fn time_admits(&self, now_ms: u64) -> bool {
        match self.time_restrictions {
            Some(t) => !(now_ms < t.valid_from_ms || now_ms > t.valid_until_ms),
            None => true,
        }
    }

    /// Whether the resource restriction, if any, admits the operation's target.
    pub open spec fn resources_admit(&self, op: ManagementOperation) -> bool {
        match self.resource_restrictions {
            Some(r) => match spec_target_node(op) {
                Some(t) => (r.allowed_nodes@.len() == 0 || r.allowed_nodes@.contains(t))
                    && !r.denied_nodes@.contains(t),
                None => true,
            },
            None => true,
        }
    }
}

/// The issuers after trusting one more: unchanged when it is already
/// trusted, otherwise with it added last.
pub open spec fn with_issuer(issuers: Seq<u64>, issuer: u64) -> Seq<u64> {
    if issuers.contains(issuer) { issuers } else { issuers.push(issuer) }
}

/// Trusting an issuer twice is trusting it once; afterwards it is listed
/// exactly once, and the issuers stay distinct.
pub proof fn lemma_add_issuer_twice(issuers: Seq<u64>, issuer: u64)
    requires
        issuers.no_duplicates(),
    ensures
        with_issuer(with_issuer(issuers, issuer), issuer) == with_issuer(issuers, issuer),
        with_issuer(issuers, issuer).no_duplicates(),
        exists|k: int| 0 <= k < with_issuer(issuers, issuer).len() && with_issuer(issuers, issuer)[k] == issuer
            && forall|j: int| 0 <= j < with_issuer(issuers, issuer).len() && #[trigger] with_issuer(issuers, issuer)[j] == issuer ==> j == k,
{
    let w = with_issuer(issuers, issuer);
    if !issuers.contains(issuer) {
        assert(w[issuers.len() as int] == issuer);
        assert forall|a: int, b: int| 0 <= a < w.len() && 0 <= b < w.len() && a != b implies w[a] != w[b] by {
            if a < issuers.len() && b < issuers.len() {
                assert(issuers[a] != issuers[b]);
            } else if a < issuers.len() {
                assert(issuers.contains(issuers[a]));
            } else {
                assert(issuers.contains(issuers[b]));
            }
        }
    }
    assert(w.contains(issuer));
    let k = choose|k: int| 0 <= k < w.len() && w[k] == issuer;
    assert forall|j: int| 0 <= j < w.len() && #[trigger] w[j] == issuer implies j == k by {
        if j != k {
            assert(w[j] != w[k]);
        }
    }
}

impl AuthManager {
    /// The permissions of the roles, as (role, permission) pairs.
    pub closed spec fn permissions(&self) -> Seq<(ManagementRole, Permission)> {
        self.role_permissions@
    }

    /// The trusted issuers, in the order they were added.
    pub closed spec fn issuers(&self) -> Seq<u64> {
        self.trusted_issuers@
    }

    /// The active tokens, in the order they were issued.
    pub closed spec fn tokens(&self) -> Seq<AuthToken> {
        self.active_tokens@
    }

    /// Default lifetime of issued tokens in milliseconds.
    pub closed spec fn default_lifetime_ms(&self) -> u64 {
        self.default_token_lifetime_ms
    }

    /// Well-formedness: one permission per role, one token per node and
    /// each trusted issuer listed once.
    pub closed spec fn wf(&self) -> bool {
        &&& forall|i: int, j: int| 0 <= i < j < self.role_permissions@.len()
            ==> self.role_permissions@[i].0 != self.role_permissions@[j].0
        &&& forall|i: int, j: int| 0 <= i < j < self.active_tokens@.len()
            ==> self.active_tokens@[i].node_id != self.active_tokens@[j].node_id
        &&& self.trusted_issuers@.no_duplicates()
    }

    /// The permission stored for a role.
    pub closed spec fn permission_of(&self, role: ManagementRole) -> Option<Permission> {
        if exists|i: int| 0 <= i < self.role_permissions@.len() && self.role_permissions@[i].0 == role {
            let i = choose|i: int| 0 <= i < self.role_permissions@.len() && self.role_permissions@[i].0 == role;
            Some(self.role_permissions@[i].1)
        } else {
            None
        }
    }

    /// The active token of a node.
    pub closed spec fn token_of(&self, node_id: u64) -> Option<AuthToken> {
        if exists|i: int| 0 <= i < self.active_tokens@.len() && self.active_tokens@[i].node_id == node_id {
            let i = choose|i: int| 0 <= i < self.active_tokens@.len() && self.active_tokens@[i].node_id == node_id;
            Some(self.active_tokens@[i])
        } else {
            None
        }
    }

    /// Why a token fails validation at `now_ms`, if it does: it has expired,
    /// its issuer is not trusted, or its signature does not match its fields.
    pub closed spec fn validation_denial(&self, token: AuthToken, now_ms: u64) -> Option<Denial> {
        if now_ms > token.expires_at_ms {
            Some(("validate_token"@, decimal(token.node_id as nat)))
        } else if !self.trusted_issuers@.contains(token.issued_by) {
            Some(("validate_token"@, decimal(token.issued_by as nat)))
        } else if token.signature@ != token_signature(token.node_id, token.role, token.expires_at_ms, token.issued_by) {
            Some(("validate_token"@, decimal(token.node_id as nat)))
        } else {
            None
        }
    }

    /// Why an operation is refused to a token at `now_ms`, if it is.
    pub closed spec fn permission_denial(&self, token: AuthToken, op: ManagementOperation, now_ms: u64) -> Option<Denial> {
        let peer = decimal(token.node_id as nat);
        if self.validation_denial(token, now_ms) is Some {
            self.validation_denial(token, now_ms)
        } else {
            match self.permission_of(token.role) {
                None => Some(("check_permission"@, peer)),
                Some(p) => if !p.names_operation(op) || !p.time_admits(now_ms) || !p.resources_admit(op) {
                    Some((operation_name(op), peer))
                } else {
                    None
                },
            }
        }
    }
}

/// The result of a check matches the denial: `Ok` when there is none, the
/// authorization error with the denial's operation and peer otherwise.
pub open spec fn reports(r: Result<(), RaftError>, d: Option<Denial>) -> bool {
    match d {
        None => r is Ok,
        Some(den) => r matches Err(RaftError::AuthorizationDenied { operation, peer_id })
            && operation@ == den.0 && peer_id@ == den.1,
    }
}

/// Build a list of strings from literals.
fn strings(lits: &[&str]) -> (r: Vec<String>)
    ensures
        r@.len() == lits@.len(),
        forall|i: int| 0 <= i < lits@.len() ==> #[trigger] r@[i]@ == lits@[i]@,
{
    let mut v: Vec<String> = Vec::new();
    let mut i: usize = 0;
    while i < lits.len()
        invariant
            i <= lits@.len(),
            v@.len() == i,
            forall|j: int| 0 <= j < i ==> #[trigger] v@[j]@ == lits@[j]@,
        decreases lits@.len() - i,
    {
        v.push(String::from_str(lits[i]));
        i = i + 1;
    }
    v
}

/// The default permission of a role.
fn default_permission(role: ManagementRole) -> (r: Permission)
    ensures
        r.allowed_names() =~= default_operations(role),
        r.time_restrictions is None,
        r.resource_restrictions is None,
{
    let ops = match role {
        ManagementRole::Admin => strings(&["*"]),
        ManagementRole::Observer => strings(&[
            "get_cluster_status", "get_configuration", "get_metrics", "get_health_status",
            "get_log_info", "get_log_entries", "get_snapshot_info", "list_backups",
        ]),
        ManagementRole::MemberManager => strings(&[
            "get_cluster_status", "get_configuration", "get_health_status",
            "add_member", "remove_member", "update_member_role",
        ]),
        ManagementRole::Monitor => strings(&[
            "get_cluster_status", "get_metrics", "get_health_status",
        ]),
    };
    Permission { allowed_operations: ops, time_restrictions: None, resource_restrictions: None }
}

/// Whether a list of strings holds a string with the given text.
fn contains_name(v: &Vec<String>, name: &String) -> (r: bool)
    ensures
        r == names(v@).contains(name@),
{
    let mut i: usize = 0;
    while i < v.len()
        invariant
            i <= v@.len(),
            forall|j: int| 0 <= j < i ==> v@[j]@ != name@,
        decreases v@.len() - i,
    {
        if v[i] == *name {
            assert(names(v@)[i as int] == name@);
            return true;
        }
        i = i + 1;
    }
    assert(!names(v@).contains(name@)) by {
        if names(v@).contains(name@) {
            let k = choose|k: int| 0 <= k < names(v@).len() && names(v@)[k] == name@;
            assert(v@[k]@ == name@);
        }
    }
    false
}

/// Whether a list of node ids holds an id.
fn contains_id(v: &Vec<u64>, id: u64) -> (r: bool)
    ensures
        r == v@.contains(id),
{
    let mut i: usize = 0;
    while i < v.len()
        invariant
            i <= v@.len(),
            forall|j: int| 0 <= j < i ==> v@[j] != id,
        decreases v@.len() - i,
    {
        if v[i] == id {
            return true;
        }
        i = i + 1;
    }
    false
}

/// The authorization error for an operation and peer.
fn denied(operation: &str, peer: String) -> (r: RaftError)
    ensures
        r matches RaftError::AuthorizationDenied { operation: o, peer_id: p } && o@ == operation@ && p == peer,
{
    RaftError::AuthorizationDenied { operation: String::from_str(operation), peer_id: peer }
}

/// Compute the signature of a token's fields.
fn make_signature(node_id: u64, role: ManagementRole, expires_at_ms: u64, issuer: u64) -> (r: String)
    ensures
        r@ == token_signature(node_id, role, expires_at_ms, issuer),
{
    let code: u64 = match role {
        ManagementRole::Admin => 0,
        ManagementRole::Observer => 1,
        ManagementRole::MemberManager => 2,
        ManagementRole::Monitor => 3,
    };
    let mut s = String::from_str("sig_");
    push_decimal(&mut s, node_id);
    s.append("_");
    push_decimal(&mut s, code);
    s.append("_");
    push_decimal(&mut s, expires_at_ms / 1000);
    s.append("_");
    push_decimal(&mut s, issuer);
    s
}

impl AuthToken {
    /// A copy of the token.
    pub fn duplicate(&self) -> (r: AuthToken)
        ensures
            r.node_id == self.node_id,
            r.peer_id@ == self.peer_id@,
            r.role == self.role,
            r.expires_at_ms == self.expires_at_ms,
            r.issued_by == self.issued_by,
            r.signature@ == self.signature@,
    {
        AuthToken {
            node_id: self.node_id,
            peer_id: self.peer_id.clone(),
            role: self.role,
            expires_at_ms: self.expires_at_ms,
            issued_by: self.issued_by,
            signature: self.signature.clone(),
        }
    }
}

impl AuthManager {
    /// Create a new authentication manager with the default role
    /// permissions, no tokens, no trusted issuers and an 8 hour token lifetime.
    pub fn new() -> (r: Self)
        ensures
            r.wf(),
            forall|role: ManagementRole| #[trigger] r.permission_of(role) matches Some(p)
                && p.allowed_names() == default_operations(role)
                && p.time_restrictions is None && p.resource_restrictions is None,
            r.tokens().len() == 0,
            r.issuers().len() == 0,
            r.default_lifetime_ms() == 8 * 60 * 60 * 1000,
    {
        let mut manager = AuthManager {
            role_permissions: Vec::new(),
            active_tokens: Vec::new(),
            trusted_issuers: Vec::new(),
            default_token_lifetime_ms: 8 * 60 * 60 * 1000,
        };
        manager.setup_default_permissions();
        assert forall|role: ManagementRole| #[trigger] manager.permission_of(role) matches Some(p)
            && p.allowed_names() == default_operations(role)
            && p.time_restrictions is None && p.resource_restrictions is None by {
            let k: int = match role {
                ManagementRole::Admin => 0,
                ManagementRole::Observer => 1,
                ManagementRole::MemberManager => 2,
                ManagementRole::Monitor => 3,
            };
            assert(manager.role_permissions@[k].0 == role);
        }
        manager
    }

    /// Install the default permissions of the four roles.
    fn setup_default_permissions(&mut self)
        requires
            old(self).role_permissions@.len() == 0,
        ensures
            final(self).role_permissions@.len() == 4,
            final(self).role_permissions@[0].0 == ManagementRole::Admin,
            final(self).role_permissions@[1].0 == ManagementRole::Observer,
            final(self).role_permissions@[2].0 == ManagementRole::MemberManager,
            final(self).role_permissions@[3].0 == ManagementRole::Monitor,
            forall|i: int| 0 <= i < 4 ==> {
                let p = #[trigger] final(self).role_permissions@[i];
                &&& p.1.allowed_names() == default_operations(p.0)
                &&& p.1.time_restrictions is None
                &&& p.1.resource_restrictions is None
            },
            final(self).active_tokens == old(self).active_tokens,
            final(self).trusted_issuers == old(self).trusted_issuers,
            final(self).default_token_lifetime_ms == old(self).default_token_lifetime_ms,
    {
        self.role_permissions.push((ManagementRole::Admin, default_permission(ManagementRole::Admin)));
        self.role_permissions.push((ManagementRole::Observer, default_permission(ManagementRole::Observer)));
        self.role_permissions.push((ManagementRole::MemberManager, default_permission(ManagementRole::MemberManager)));
        self.role_permissions.push((ManagementRole::Monitor, default_permission(ManagementRole::Monitor)));
    }

    /// Add a trusted issuer, unless it is already trusted.
    pub fn add_trusted_issuer(&mut self, issuer_node_id: u64)
        ensures
            final(self).issuers() == with_issuer(old(self).issuers(), issuer_node_id),
            old(self).wf() ==> final(self).wf(),
            forall|role: ManagementRole| #[trigger] final(self).permission_of(role) == old(self).permission_of(role),
            final(self).tokens() == old(self).tokens(),
            final(self).default_lifetime_ms() == old(self).default_lifetime_ms(),
    {
        if !contains_id(&self.trusted_issuers, issuer_node_id) {
            let ghost before = self.trusted_issuers@;
            self.trusted_issuers.push(issuer_node_id);
            proof {
                if before.no_duplicates() {
                    assert forall|a: int, b: int| 0 <= a < self.trusted_issuers@.len() && 0 <= b < self.trusted_issuers@.len() && a != b
                        implies self.trusted_issuers@[a] != self.trusted_issuers@[b] by {
                        if a < before.len() && b < before.len() {
                            assert(before[a] != before[b]);
                        } else if a < before.len() {
                            assert(before.contains(before[a]));
                        } else {
                            assert(before.contains(before[b]));
                        }
                    }
                }
            }
        }
        assert(self.role_permissions == old(self).role_permissions);
        assert(self.active_tokens == old(self).active_tokens);
    }

    /// Remove a trusted issuer.
    pub fn remove_trusted_issuer(&mut self, issuer_node_id: u64)
        ensures
            final(self).issuers() == old(self).issuers().filter(|id: u64| id != issuer_node_id),
            old(self).wf() ==> final(self).wf(),
            forall|role: ManagementRole| #[trigger] final(self).permission_of(role) == old(self).permission_of(role),
            final(self).tokens() == old(self).tokens(),
            final(self).default_lifetime_ms() == old(self).default_lifetime_ms(),
    {
        let ghost pred = |id: u64| id != issuer_node_id;
        let ghost orig = self.trusted_issuers@;
        let mut kept: Vec<u64> = Vec::new();
        let mut i: usize = 0;
        while i < self.trusted_issuers.len()
            invariant
                i <= orig.len(),
                *self == *old(self),
                orig == old(self).trusted_issuers@,
                pred == (|id: u64| id != issuer_node_id),
                kept@ == orig.take(i as int).filter(pred),
            decreases orig.len() - i,
        {
            let id = self.trusted_issuers[i];
            proof {
                crate::seqs::lemma_filter_take_step(orig, pred, i as int);
                assert(pred(orig[i as int]) == (id != issuer_node_id));
            }
            if id != issuer_node_id {
                kept.push(id);
            }
            i = i + 1;
        }
        proof {
            crate::seqs::lemma_take_all(orig);
            if orig.no_duplicates() {
                assert forall|a: int, b: int| 0 <= a < kept@.len() && 0 <= b < kept@.len() && a != b
                    implies kept@[a] != kept@[b] by {
                    if a < b {
                        crate::seqs::lemma_filter_order(orig, pred, a, b);
                    } else {
                        crate::seqs::lemma_filter_order(orig, pred, b, a);
                    }
                }
            }
        }
        self.trusted_issuers = kept;
        assert(self.role_permissions == old(self).role_permissions);
        assert(self.active_tokens == old(self).active_tokens);
    }

    /// A stored token is what `token_of` finds for its node.
    proof fn lemma_token_at(&self, i: int)
        requires
            self.wf(),
            0 <= i < self.active_tokens@.len(),
        ensures
            self.token_of(self.active_tokens@[i].node_id) == Some(self.active_tokens@[i]),
    {
        let k = self.active_tokens@[i].node_id;
        let j = choose|j: int| 0 <= j < self.active_tokens@.len() && self.active_tokens@[j].node_id == k;
        assert(j == i);
    }

    /// Well-formedness in terms of the stored permissions, tokens and
    /// issuers.
    pub proof fn lemma_wf_def(&self)
        ensures
            self.wf() == {
                &&& forall|i: int, j: int| 0 <= i < j < self.permissions().len()
                    ==> self.permissions()[i].0 != self.permissions()[j].0
                &&& forall|i: int, j: int| 0 <= i < j < self.tokens().len()
                    ==> self.tokens()[i].node_id != self.tokens()[j].node_id
                &&& self.issuers().no_duplicates()
            },
    {
        let p = self.permissions();
        let t = self.tokens();
        assert(p == self.role_permissions@);
        assert(t == self.active_tokens@);
        assert((forall|i: int, j: int| 0 <= i < j < p.len() ==> p[i].0 != p[j].0)
            == (forall|i: int, j: int| 0 <= i < j < self.role_permissions@.len()
                ==> self.role_permissions@[i].0 != self.role_permissions@[j].0));
        assert((forall|i: int, j: int| 0 <= i < j < t.len() ==> t[i].node_id != t[j].node_id)
            == (forall|i: int, j: int| 0 <= i < j < self.active_tokens@.len()
                ==> self.active_tokens@[i].node_id != self.active_tokens@[j].node_id));
    }

    /// The permission of a role is the one stored with it, if any.
    pub proof fn lemma_permission_of_def(&self, role: ManagementRole)
        requires
            self.wf(),
        ensures
            self.permission_of(role) == (if exists|i: int| 0 <= i < self.permissions().len() && self.permissions()[i].0 == role {
                Some(self.permissions()[choose|i: int| 0 <= i < self.permissions().len() && self.permissions()[i].0 == role].1)
            } else {
                None::<Permission>
            }),
    {
        if exists|i: int| 0 <= i < self.permissions().len() && self.permissions()[i].0 == role {
            let a = choose|i: int| 0 <= i < self.permissions().len() && self.permissions()[i].0 == role;
            let b = choose|i: int| 0 <= i < self.role_permissions@.len() && self.role_permissions@[i].0 == role;
            if a < b {
                assert(self.role_permissions@[a].0 != self.role_permissions@[b].0);
            } else if b < a {
                assert(self.role_permissions@[b].0 != self.role_permissions@[a].0);
            }
        }
    }

    /// The token of a node is the one stored for it, if any.
    pub proof fn lemma_token_of_def(&self, node_id: u64)
        requires
            self.wf(),
        ensures
            self.token_of(node_id) == (if exists|i: int| 0 <= i < self.tokens().len() && self.tokens()[i].node_id == node_id {
                Some(self.tokens()[choose|i: int| 0 <= i < self.tokens().len() && self.tokens()[i].node_id == node_id])
            } else {
                None::<AuthToken>
            }),
    {
        if exists|i: int| 0 <= i < self.tokens().len() && self.tokens()[i].node_id == node_id {
            let a = choose|i: int| 0 <= i < self.tokens().len() && self.tokens()[i].node_id == node_id;
            let b = choose|i: int| 0 <= i < self.active_tokens@.len() && self.active_tokens@[i].node_id == node_id;
            if a < b {
                assert(self.active_tokens@[a].node_id != self.active_tokens@[b].node_id);
            } else if b < a {
                assert(self.active_tokens@[b].node_id != self.active_tokens@[a].node_id);
            }
        }
    }

    /// Why a token fails validation: expired, untrusted issuer, or a
    /// signature that does not match its fields; nothing otherwise.
    pub proof fn lemma_validation_denial_def(&self, token: AuthToken, now_ms: u64)
        ensures
            self.validation_denial(token, now_ms) == (if now_ms > token.expires_at_ms {
                Some(("validate_token"@, decimal(token.node_id as nat)))
            } else if !self.issuers().contains(token.issued_by) {
                Some(("validate_token"@, decimal(token.issued_by as nat)))
            } else if token.signature@ != token_signature(token.node_id, token.role, token.expires_at_ms, token.issued_by) {
                Some(("validate_token"@, decimal(token.node_id as nat)))
            } else {
                None::<Denial>
            }),
    {
    }

    /// Why an operation is refused: the token's validation denial, a role
    /// without permission, or a permission that does not name the operation
    /// or does not admit the time or the target node; nothing otherwise.
    pub proof fn lemma_permission_denial_def(&self, token: AuthToken, op: ManagementOperation, now_ms: u64)
        ensures
            self.permission_denial(token, op, now_ms) == (if self.validation_denial(token, now_ms) is Some {
                self.validation_denial(token, now_ms)
            } else {
                match self.permission_of(token.role) {
                    None => Some(("check_permission"@, decimal(token.node_id as nat))),
                    Some(p) => if !p.names_operation(op) || !p.time_admits(now_ms) || !p.resources_admit(op) {
                        Some((operation_name(op), decimal(token.node_id as nat)))
                    } else {
                        None::<Denial>
                    },
                }
            }),
    {
    }

    /// A role whose permission has a time restriction is refused, whatever
    /// the operation, at any instant before the window opens or after it
    /// closes: the check reports a denial, never success.
    pub proof fn lemma_time_window_enforced(&self, token: AuthToken, op: ManagementOperation, now_ms: u64, p: Permission)
        requires
            self.permission_of(token.role) == Some(p),
            p.time_restrictions matches Some(t) && (now_ms < t.valid_from_ms || now_ms > t.valid_until_ms),
        ensures
            self.permission_denial(token, op, now_ms) is Some,
            forall|r: Result<(), RaftError>| reports(r, self.permission_denial(token, op, now_ms)) ==> r is Err,
            self.validation_denial(token, now_ms) is None
                ==> self.permission_denial(token, op, now_ms) == Some((operation_name(op), decimal(token.node_id as nat))),
    {
    }

    /// A check is refused when the token has expired, when it comes from an
    /// untrusted issuer, or when the token's role has no permission.
    pub proof fn lemma_invalid_token_or_role_denied(&self, token: AuthToken, op: ManagementOperation, now_ms: u64)
        ensures
            now_ms > token.expires_at_ms ==> self.permission_denial(token, op, now_ms) is Some,
            !self.issuers().contains(token.issued_by) ==> self.permission_denial(token, op, now_ms) is Some,
            self.permission_of(token.role) is None ==> self.permission_denial(token, op, now_ms) is Some,
    {
    }

    /// How the role's permission decides a check.  It is refused when the
    /// permission names neither the operation nor `*`, or when the
    /// operation's target node is denied or not among the allowed nodes.  It
    /// succeeds when the token is valid, the permission names the operation
    /// (or `*`), its time window (if any) holds the instant, and its node
    /// lists (if any) admit the target.
    pub proof fn lemma_permission_decided(&self, token: AuthToken, op: ManagementOperation, now_ms: u64, p: Permission)
        requires
            self.permission_of(token.role) == Some(p),
        ensures
            (!names(p.allowed_operations@).contains("*"@) && !names(p.allowed_operations@).contains(operation_name(op)))
                ==> self.permission_denial(token, op, now_ms) is Some,
            (p.resource_restrictions matches Some(r) && (spec_target_node(op) matches Some(t)
                && (r.denied_nodes@.contains(t) || (r.allowed_nodes@.len() > 0 && !r.allowed_nodes@.contains(t)))))
                ==> self.permission_denial(token, op, now_ms) is Some,
            (self.validation_denial(token, now_ms) is None
                && (names(p.allowed_operations@).contains("*"@) || names(p.allowed_operations@).contains(operation_name(op)))
                && (p.time_restrictions matches Some(w) ==> (w.valid_from_ms <= now_ms && now_ms <= w.valid_until_ms))
                && (p.resource_restrictions matches Some(r) ==> (spec_target_node(op) matches Some(t) ==>
                    (!r.denied_nodes@.contains(t) && (r.allowed_nodes@.len() == 0 || r.allowed_nodes@.contains(t))))))
                ==> self.permission_denial(token, op, now_ms) is None,
    {
    }

    /// A stored permission is what `permission_of` finds for its role.
    proof fn lemma_permission_at(&self, i: int)
        requires
            self.wf(),
            0 <= i < self.role_permissions@.len(),
        ensures
            self.permission_of(self.role_permissions@[i].0) == Some(self.role_permissions@[i].1),
    {
        let k = self.role_permissions@[i].0;
        let j = choose|j: int| 0 <= j < self.role_permissions@.len() && self.role_permissions@[j].0 == k;
        assert(j == i);
    }

    /// Find the position of the token of a node.
    fn find_token(&self, node_id: u64) -> (r: Option<usize>)
        requires
            self.wf(),
        ensures
            match r {
                Some(i) => i < self.active_tokens@.len() && self.active_tokens@[i as int].node_id == node_id,
                None => self.token_of(node_id) is None,
            },
    {
        let mut i: usize = 0;
        while i < self.active_tokens.len()
            invariant
                i <= self.active_tokens@.len(),
                forall|j: int| 0 <= j < i ==> self.active_tokens@[j].node_id != node_id,
            decreases self.active_tokens@.len() - i,
        {
            if self.active_tokens[i].node_id == node_id {
                return Some(i);
            }
            i = i + 1;
        }
        None
    }

    /// Find the position of the permission of a role.
    fn find_role(&self, role: ManagementRole) -> (r: Option<usize>)
        requires
            self.wf(),
        ensures
            match r {
                Some(i) => i < self.role_permissions@.len() && self.role_permissions@[i as int].0 == role,
                None => self.permission_of(role) is None,
            },
    {
        let mut i: usize = 0;
        while i < self.role_permissions.len()
            invariant
                i <= self.role_permissions@.len(),
                forall|j: int| 0 <= j < i ==> self.role_permissions@[j].0 != role,
            decreases self.role_permissions@.len() - i,
        {
            if self.role_permissions[i].0 == role {
                return Some(i);
            }
            i = i + 1;
        }
        None
    }

    /// Issue a token at the instant `now_ms`: the issuer must be trusted; the
    /// token expires after `duration_ms`, or the default lifetime, and
    /// replaces any token the node held.
    pub fn issue_token_at(
        &mut self,
        now_ms: u64,
        node_id: u64,
        peer_id: String,
        role: ManagementRole,
        issuer_node_id: u64,
        duration_ms: Option<u64>,
    ) -> (r: Result<AuthToken, RaftError>)
        requires
            old(self).wf(),
            now_ms + (match duration_ms { Some(d) => d, None => old(self).default_lifetime_ms() }) <= u64::MAX,
        ensures
            final(self).wf(),
            old(self).issuers().contains(issuer_node_id) <==> r is Ok,
            r matches Err(e) ==> (e matches RaftError::AuthorizationDenied { operation, peer_id: p }
                && operation@ == "issue_token"@ && p@ == decimal(issuer_node_id as nat)),
            r matches Err(_) ==> *final(self) == *old(self),
            r matches Ok(t) ==> {
                let expires = (now_ms + match duration_ms { Some(d) => d, None => old(self).default_lifetime_ms() }) as u64;
                &&& t.node_id == node_id
                &&& t.peer_id@ == peer_id@
                &&& t.role == role
                &&& t.expires_at_ms == expires
                &&& t.issued_by == issuer_node_id
                &&& t.signature@ == token_signature(node_id, role, expires, issuer_node_id)
                &&& final(self).token_of(node_id) matches Some(s) && s.node_id == node_id
                    && s.peer_id@ == peer_id@ && s.role == role && s.expires_at_ms == expires
                    && s.issued_by == issuer_node_id && s.signature@ == t.signature@
                &&& forall|n: u64| n != node_id ==> #[trigger] final(self).token_of(n) == old(self).token_of(n)
                &&& forall|role2: ManagementRole| #[trigger] final(self).permission_of(role2) == old(self).permission_of(role2)
                &&& final(self).issuers() == old(self).issuers()
                &&& final(self).default_lifetime_ms() == old(self).default_lifetime_ms()
            },
    {
        if !contains_id(&self.trusted_issuers, issuer_node_id) {
            return Err(denied("issue_token", u64_to_string(issuer_node_id)));
        }
        let lifetime = match duration_ms {
            Some(d) => d,
            None => self.default_token_lifetime_ms,
        };
        let expires_at_ms = now_ms + lifetime;
        let signature = make_signature(node_id, role, expires_at_ms, issuer_node_id);
        let token = AuthToken {
            node_id,
            peer_id,
            role,
            expires_at_ms,
            issued_by: issuer_node_id,
            signature,
        };
        let result = token.duplicate();
        let ghost before = *self;
        match self.find_token(node_id) {
            Some(i) => {
                self.active_tokens.set(i, token);
                assert(self.role_permissions == before.role_permissions);
                proof {
                    assert forall|a: int, b: int| 0 <= a < b < self.active_tokens@.len()
                        implies self.active_tokens@[a].node_id != self.active_tokens@[b].node_id by {
                        if a != i && b != i {
                            assert(self.active_tokens@[a] == before.active_tokens@[a]);
                            assert(self.active_tokens@[b] == before.active_tokens@[b]);
                        }
                    }
                    self.lemma_token_at(i as int);
                    assert forall|n: u64| n != node_id implies #[trigger] self.token_of(n) == before.token_of(n) by {
                        if exists|j: int| 0 <= j < before.active_tokens@.len() && before.active_tokens@[j].node_id == n {
                            let j = choose|j: int| 0 <= j < before.active_tokens@.len() && before.active_tokens@[j].node_id == n;
                            before.lemma_token_at(j);
                            assert(self.active_tokens@[j] == before.active_tokens@[j]);
                            self.lemma_token_at(j);
                        } else {
                            if exists|j: int| 0 <= j < self.active_tokens@.len() && self.active_tokens@[j].node_id == n {
                                let j = choose|j: int| 0 <= j < self.active_tokens@.len() && self.active_tokens@[j].node_id == n;
                                assert(self.active_tokens@[j] == before.active_tokens@[j]);
                            }
                        }
                    }
                }
            },
            None => {
                self.active_tokens.push(token);
                assert(self.role_permissions == before.role_permissions);
                proof {
                    let last = self.active_tokens@.len() - 1;
                    assert forall|a: int, b: int| 0 <= a < b < self.active_tokens@.len()
                        implies self.active_tokens@[a].node_id != self.active_tokens@[b].node_id by {
                        if b == last {
                            assert(before.active_tokens@[a].node_id != node_id) by {
                                if before.active_tokens@[a].node_id == node_id {
                                    assert(before.token_of(node_id) is Some);
                                }
                            }
                        }
                    }
                    self.lemma_token_at(last);
                    assert forall|n: u64| n != node_id implies #[trigger] self.token_of(n) == before.token_of(n) by {
                        if exists|j: int| 0 <= j < before.active_tokens@.len() && before.active_tokens@[j].node_id == n {
                            let j = choose|j: int| 0 <= j < before.active_tokens@.len() && before.active_tokens@[j].node_id == n;
                            before.lemma_token_at(j);
                            assert(self.active_tokens@[j] == before.active_tokens@[j]);
                            self.lemma_token_at(j);
                        } else {
                            if exists|j: int| 0 <= j < self.active_tokens@.len() && self.active_tokens@[j].node_id == n {
                                let j = choose|j: int| 0 <= j < self.active_tokens@.len() && self.active_tokens@[j].node_id == n;
                                assert(j != last);
                                assert(self.active_tokens@[j] == before.active_tokens@[j]);
                            }
                        }
                    }
                }
            },
        }
        Ok(result)
    }

    /// What issuing a token at the instant `now_ms` by a trusted issuer does:
    /// when the expiry would not fit in a millisecond timestamp the request
    /// is refused as invalid input and nothing changes; otherwise the token
    /// expires after the lifetime asked for (or the default one) and replaces
    /// any token the node held.
    pub open spec fn issued_at(
        old: AuthManager,
        new: AuthManager,
        now_ms: u64,
        node_id: u64,
        peer_id: Seq<char>,
        role: ManagementRole,
        issuer_node_id: u64,
        duration_ms: Option<u64>,
        r: Result<AuthToken, RaftError>,
    ) -> bool {
        let lifetime = match duration_ms { Some(d) => d, None => old.default_lifetime_ms() };
        if now_ms + lifetime > u64::MAX {
            &&& new == old
            &&& r matches Err(RaftError::InvalidInput { parameter, message })
            &&& parameter@ == "duration"@
            &&& message@ == "token expiry out of range"@
        } else {
            let expires = (now_ms + lifetime) as u64;
            &&& r matches Ok(t)
            &&& t.node_id == node_id
            &&& t.peer_id@ == peer_id
            &&& t.role == role
            &&& t.expires_at_ms == expires
            &&& t.issued_by == issuer_node_id
            &&& t.signature@ == token_signature(node_id, role, expires, issuer_node_id)
            &&& new.token_of(node_id) matches Some(s) && s.node_id == node_id
                && s.peer_id@ == peer_id && s.role == role && s.expires_at_ms == expires
                && s.issued_by == issuer_node_id && s.signature@ == t.signature@
            &&& forall|n: u64| n != node_id ==> #[trigger] new.token_of(n) == old.token_of(n)
            &&& forall|role2: ManagementRole| #[trigger] new.permission_of(role2) == old.permission_of(role2)
            &&& new.issuers() == old.issuers()
            &&& new.default_lifetime_ms() == old.default_lifetime_ms()
        }
    }

    /// Issue a token that starts at the current system time.  The issuer
    /// must be trusted; when the expiry would not fit in a millisecond
    /// timestamp the request is refused as invalid input.
    pub fn issue_token(
        &mut self,
        node_id: u64,
        peer_id: String,
        role: ManagementRole,
        issuer_node_id: u64,
        duration_ms: Option<u64>,
    ) -> (r: Result<AuthToken, RaftError>)
        requires
            old(self).wf(),
        ensures
            final(self).wf(),
            !old(self).issuers().contains(issuer_node_id) ==> (r matches Err(RaftError::AuthorizationDenied { operation, peer_id: p })
                && operation@ == "issue_token"@ && p@ == decimal(issuer_node_id as nat) && *final(self) == *old(self)),
            old(self).issuers().contains(issuer_node_id) ==> exists|now_ms: u64| #[trigger] AuthManager::issued_at(
                *old(self), *final(self), now_ms, node_id, peer_id@, role, issuer_node_id, duration_ms, r),
    {
        if !contains_id(&self.trusted_issuers, issuer_node_id) {
            return Err(denied("issue_token", u64_to_string(issuer_node_id)));
        }
        let now = crate::clock::system_now_ms();
        let lifetime = match duration_ms {
            Some(d) => d,
            None => self.default_token_lifetime_ms,
        };
        if lifetime > u64::MAX - now {
            let r = Err(RaftError::InvalidInput {
                parameter: String::from_str("duration"),
                message: String::from_str("token expiry out of range"),
            });
            assert(AuthManager::issued_at(*old(self), *self, now, node_id, peer_id@, role, issuer_node_id, duration_ms, r));
            return r;
        }
        let ghost p = peer_id@;
        let r = self.issue_token_at(now, node_id, peer_id, role, issuer_node_id, duration_ms);
        assert(AuthManager::issued_at(*old(self), *self, now, node_id, p, role, issuer_node_id, duration_ms, r));
        r
    }

    /// Validate a token at the instant `now_ms`.
    pub fn validate_token_at(&self, token: &AuthToken, now_ms: u64) -> (r: Result<(), RaftError>)
        ensures
            reports(r, self.validation_denial(*token, now_ms)),
    {
        if now_ms > token.expires_at_ms {
            return Err(denied("validate_token", u64_to_string(token.node_id)));
        }
        if !contains_id(&self.trusted_issuers, token.issued_by) {
            return Err(denied("validate_token", u64_to_string(token.issued_by)));
        }
        let expected = make_signature(token.node_id, token.role, token.expires_at_ms, token.issued_by);
        if token.signature != expected {
            return Err(denied("validate_token", u64_to_string(token.node_id)));
        }
        Ok(())
    }

    /// Validate a token against the current system time.
    pub fn validate_token(&self, token: &AuthToken) -> (r: Result<(), RaftError>)
        ensures
            exists|now: u64| reports(r, #[trigger] self.validation_denial(*token, now)),
    {
        let now = crate::clock::system_now_ms();
        self.validate_token_at(token, now)
    }

    /// Check, at the instant `now_ms`, whether a token may perform an operation.
    pub fn check_permission_at(&self, token: &AuthToken, operation: &ManagementOperation, now_ms: u64) -> (r: Result<(), RaftError>)
        requires
            self.wf(),
        ensures
            reports(r, self.permission_denial(*token, *operation, now_ms)),
    {
        self.validate_token_at(token, now_ms)?;
        let idx = self.find_role(token.role);
        let i = match idx {
            Some(i) => i,
            None => {
                return Err(denied("check_permission", u64_to_string(token.node_id)));
            },
        };
        proof { self.lemma_permission_at(i as int); }
        let permission = &self.role_permissions[i].1;
        let operation_name = operation_to_string(operation);
        let star = String::from_str("*");
        let is_allowed = contains_name(&permission.allowed_operations, &star)
            || contains_name(&permission.allowed_operations, &operation_name);
        if !is_allowed {
            return Err(RaftError::AuthorizationDenied { operation: operation_name, peer_id: u64_to_string(token.node_id) });
        }
        if let Some(t) = &permission.time_restrictions {
            if now_ms < t.valid_from_ms || now_ms > t.valid_until_ms {
                return Err(RaftError::AuthorizationDenied { operation: operation_name, peer_id: u64_to_string(token.node_id) });
            }
        }
        if let Some(rr) = &permission.resource_restrictions {
            if rr.allowed_nodes.len() > 0 {
                if let Some(target) = operation_target_node(operation) {
                    if !contains_id(&rr.allowed_nodes, target) {
                        return Err(RaftError::AuthorizationDenied { operation: operation_name, peer_id: u64_to_string(token.node_id) });
                    }
                }
            }
            if let Some(target) = operation_target_node(operation) {
                if contains_id(&rr.denied_nodes, target) {
                    return Err(RaftError::AuthorizationDenied { operation: operation_name, peer_id: u64_to_string(token.node_id) });
                }
            }
        }
        Ok(())
    }

    /// Check against the current system time whether a token may perform an operation.
    pub fn check_permission(&self, token: &AuthToken, operation: &ManagementOperation) -> (r: Result<(), RaftError>)
        requires
            self.wf(),
        ensures
            exists|now: u64| reports(r, #[trigger] self.permission_denial(*token, *operation, now)),
    {
        let now = crate::clock::system_now_ms();
        self.check_permission_at(token, operation, now)
    }

    /// Revoke the token of a node.
    pub fn revoke_token(&mut self, node_id: u64)
        requires
            old(self).wf(),
        ensures
            final(self).wf(),
            final(self).token_of(node_id) is None,
            forall|n: u64| n != node_id ==> #[trigger] final(self).token_of(n) == old(self).token_of(n),
            forall|role: ManagementRole| #[trigger] final(self).permission_of(role) == old(self).permission_of(role),
            final(self).issuers() == old(self).issuers(),
            final(self).default_lifetime_ms() == old(self).default_lifetime_ms(),
    {
        let ghost before = *self;
        match self.find_token(node_id) {
            Some(i) => {
                self.active_tokens.remove(i);
                assert(self.role_permissions == before.role_permissions);
                proof {
                    assert forall|j: int| 0 <= j < self.active_tokens@.len() implies
                        #[trigger] self.active_tokens@[j] == before.active_tokens@[if j < i { j } else { j + 1 }] by {}
                    assert forall|a: int, b: int| 0 <= a < b < self.active_tokens@.len()
                        implies self.active_tokens@[a].node_id != self.active_tokens@[b].node_id by {
                        assert(self.active_tokens@[a] == before.active_tokens@[if a < i { a } else { a + 1 }]);
                        assert(self.active_tokens@[b] == before.active_tokens@[if b < i { b } else { b + 1 }]);
                    }
                    assert(self.token_of(node_id) is None) by {
                        if exists|j: int| 0 <= j < self.active_tokens@.len() && self.active_tokens@[j].node_id == node_id {
                            let j = choose|j: int| 0 <= j < self.active_tokens@.len() && self.active_tokens@[j].node_id == node_id;
                            assert(self.active_tokens@[j] == before.active_tokens@[if j < i { j } else { j + 1 }]);
                        }
                    }
                    assert forall|n: u64| n != node_id implies #[trigger] self.token_of(n) == before.token_of(n) by {
                        if exists|j: int| 0 <= j < before.active_tokens@.len() && before.active_tokens@[j].node_id == n {
                            let j = choose|j: int| 0 <= j < before.active_tokens@.len() && before.active_tokens@[j].node_id == n;
                            before.lemma_token_at(j);
                            let k = if j < i { j } else { j - 1 };
                            assert(self.active_tokens@[k] == before.active_tokens@[j]);
                            self.lemma_token_at(k);
                        } else {
                            if exists|j: int| 0 <= j < self.active_tokens@.len() && self.active_tokens@[j].node_id == n {
                                let j = choose|j: int| 0 <= j < self.active_tokens@.len() && self.active_tokens@[j].node_id == n;
                                assert(self.active_tokens@[j] == before.active_tokens@[if j < i { j } else { j + 1 }]);
                            }
                        }
                    }
                }
            },
            None => {},
        }
    }

    /// Drop the tokens that have expired at the instant `now_ms`, keeping the
    /// others in order.
    pub fn cleanup_expired_tokens_at(&mut self, now_ms: u64)
        requires
            old(self).wf(),
        ensures
            final(self).wf(),
            final(self).tokens() == unexpired(old(self).tokens(), now_ms),
            forall|role: ManagementRole| #[trigger] final(self).permission_of(role) == old(self).permission_of(role),
            final(self).issuers() == old(self).issuers(),
            final(self).default_lifetime_ms() == old(self).default_lifetime_ms(),
    {
        let ghost pred = |t: AuthToken| t.expires_at_ms > now_ms;
        let ghost orig = self.active_tokens@;
        assert(orig.len() == self.active_tokens.len());
        let mut rest: Vec<AuthToken> = Vec::new();
        std::mem::swap(&mut rest, &mut self.active_tokens);
        let mut kept: Vec<AuthToken> = Vec::new();
        let mut k: usize = 0;
        while rest.len() > 0
            invariant
                k <= orig.len(),
                orig.len() <= usize::MAX,
                rest@ == orig.skip(k as int),
                kept@ == orig.take(k as int).filter(pred),
                pred == (|t: AuthToken| t.expires_at_ms > now_ms),
                self.role_permissions == old(self).role_permissions,
                self.trusted_issuers == old(self).trusted_issuers,
                self.default_token_lifetime_ms == old(self).default_token_lifetime_ms,
                orig == old(self).active_tokens@,
            decreases rest@.len(),
        {
            let t = rest.remove(0);
            proof {
                assert(orig.skip(k as int)[0] == orig[k as int]);
                crate::seqs::lemma_filter_take_step(orig, pred, k as int);
                assert(rest@ =~= orig.skip(k as int + 1));
            }
            if t.expires_at_ms > now_ms {
                kept.push(t);
            }
            k = k + 1;
        }
        proof {
            assert(k == orig.len());
            crate::seqs::lemma_take_all(orig);
            crate::seqs::lemma_filter_members(orig, pred);
            broadcast use vstd::seq_lib::group_filter_ensures;
        }
        self.active_tokens = kept;
        assert(self.role_permissions == old(self).role_permissions);
        proof {
            assert forall|a: int, b: int| 0 <= a < b < self.active_tokens@.len()
                implies self.active_tokens@[a].node_id != self.active_tokens@[b].node_id by {
                crate::seqs::lemma_filter_order(orig, pred, a, b);
            }
        }
    }

    /// Drop the tokens that have expired according to the system clock.
    pub fn cleanup_expired_tokens(&mut self)
        requires
            old(self).wf(),
        ensures
            final(self).wf(),
            exists|now: u64| final(self).tokens() == #[trigger] unexpired(old(self).tokens(), now),
            forall|role: ManagementRole| #[trigger] final(self).permission_of(role) == old(self).permission_of(role),
            final(self).issuers() == old(self).issuers(),
            final(self).default_lifetime_ms() == old(self).default_lifetime_ms(),
    {
        let now = crate::clock::system_now_ms();
        self.cleanup_expired_tokens_at(now);
    }

    /// The active token of a node.
    pub fn get_active_token(&self, node_id: u64) -> (r: Option<&AuthToken>)
        requires
            self.wf(),
        ensures
            match r {
                Some(t) => self.token_of(node_id) == Some(*t),
                None => self.token_of(node_id) is None,
            },
    {
        match self.find_token(node_id) {
            Some(i) => {
                proof { self.lemma_token_at(i as int); }
                Some(&self.active_tokens[i])
            },
            None => None,
        }
    }

    /// All active tokens, in the order they were issued.
    pub fn list_active_tokens(&self) -> (r: Vec<&AuthToken>)
        ensures
            r@.len() == self.tokens().len(),
            forall|i: int| 0 <= i < r@.len() ==> *#[trigger] r@[i] == self.tokens()[i],
    {
        let mut out: Vec<&AuthToken> = Vec::new();
        let mut i: usize = 0;
        while i < self.active_tokens.len()
            invariant
                i <= self.active_tokens@.len(),
                out@.len() == i,
                forall|j: int| 0 <= j < i ==> *#[trigger] out@[j] == self.active_tokens@[j],
            decreases self.active_tokens@.len() - i,
        {
            out.push(&self.active_tokens[i]);
            i = i + 1;
        }
        out
    }

    /// Set the permission of a role, replacing the previous one.
    pub fn update_role_permission(&mut self, role: ManagementRole, permission: Permission)
        requires
            old(self).wf(),
        ensures
            final(self).wf(),
            final(self).permission_of(role) == Some(permission),
            forall|r2: ManagementRole| r2 != role ==> #[trigger] final(self).permission_of(r2) == old(self).permission_of(r2),
            forall|n: u64| #[trigger] final(self).token_of(n) == old(self).token_of(n),
            final(self).issuers() == old(self).issuers(),
            final(self).default_lifetime_ms() == old(self).default_lifetime_ms(),
    {
        let ghost before = *self;
        match self.find_role(role) {
            Some(i) => {
                self.role_permissions.set(i, (role, permission));
                assert(self.active_tokens == before.active_tokens);
                proof {
                    assert forall|a: int, b: int| 0 <= a < b < self.role_permissions@.len()
                        implies self.role_permissions@[a].0 != self.role_permissions@[b].0 by {
                        if a != i && b != i {
                            assert(self.role_permissions@[a] == before.role_permissions@[a]);
                            assert(self.role_permissions@[b] == before.role_permissions@[b]);
                        }
                    }
                    self.lemma_permission_at(i as int);
                    assert forall|r2: ManagementRole| r2 != role implies #[trigger] self.permission_of(r2) == before.permission_of(r2) by {
                        if exists|j: int| 0 <= j < before.role_permissions@.len() && before.role_permissions@[j].0 == r2 {
                            let j = choose|j: int| 0 <= j < before.role_permissions@.len() && before.role_permissions@[j].0 == r2;
                            before.lemma_permission_at(j);
                            assert(self.role_permissions@[j] == before.role_permissions@[j]);
                            self.lemma_permission_at(j);
                        } else {
                            if exists|j: int| 0 <= j < self.role_permissions@.len() && self.role_permissions@[j].0 == r2 {
                                let j = choose|j: int| 0 <= j < self.role_permissions@.len() && self.role_permissions@[j].0 == r2;
                                assert(self.role_permissions@[j] == before.role_permissions@[j]);
                            }
                        }
                    }
                }
            },
            None => {
                self.role_permissions.push((role, permission));
                assert(self.active_tokens == before.active_tokens);
                proof {
                    let last = self.role_permissions@.len() - 1;
                    assert forall|a: int, b: int| 0 <= a < b < self.role_permissions@.len()
                        implies self.role_permissions@[a].0 != self.role_permissions@[b].0 by {
                        if b == last {
                            assert(before.role_permissions@[a].0 != role) by {
                                if before.role_permissions@[a].0 == role {
                                    assert(before.permission_of(role) is Some);
                                }
                            }
                        }
                    }
                    self.lemma_permission_at(last);
                    assert forall|r2: ManagementRole| r2 != role implies #[trigger] self.permission_of(r2) == before.permission_of(r2) by {
                        if exists|j: int| 0 <= j < before.role_permissions@.len() && before.role_permissions@[j].0 == r2 {
                            let j = choose|j: int| 0 <= j < before.role_permissions@.len() && before.role_permissions@[j].0 == r2;
                            before.lemma_permission_at(j);
                            assert(self.role_permissions@[j] == before.role_permissions@[j]);
                            self.lemma_permission_at(j);
                        } else {
                            if exists|j: int| 0 <= j < self.role_permissions@.len() && self.role_permissions@[j].0 == r2 {
                                let j = choose|j: int| 0 <= j < self.role_permissions@.len() && self.role_permissions@[j].0 == r2;
                                assert(j != last);
                                assert(self.role_permissions@[j] == before.role_permissions@[j]);
                            }
                        }
                    }
                }
            },
        }
    }

    /// The permission of a role.
    pub fn get_role_permission(&self, role: &ManagementRole) -> (r: Option<&Permission>)
        requires
            self.wf(),
        ensures
            match r {
                Some(p) => self.permission_of(*role) == Some(*p),
                None => self.permission_of(*role) is None,
            },
    {
        match self.find_role(*role) {
            Some(i) => {
                proof { self.lemma_permission_at(i as int); }
                Some(&self.role_permissions[i].1)
            },
            None => None,
        }
    }
}

impl Default for AuthManager {
    fn default() -> (r: Self)
        ensures
            r.wf(),
            r.tokens().len() == 0,
            r.issuers().len() == 0,
    {
        AuthManager::new()
    }
}

/// Authentication helper for P2P connections: a whitelist of peers and the
/// token store.
pub struct IrohAuth {
    auth_manager: AuthManager,
    node_whitelist: Vec<String>,
}

impl IrohAuth {
    /// The whitelisted peers.
    pub closed spec fn whitelist(&self) -> Seq<Seq<char>> {
        names(self.node_whitelist@)
    }

    /// The token store.
    pub closed spec fn manager(&self) -> AuthManager {
        self.auth_manager
    }

    /// Whether a peer may connect: every peer when the whitelist is empty,
    /// otherwise the whitelisted ones.
    pub open spec fn allows(&self, peer: Seq<char>) -> bool {
        self.whitelist().len() == 0 || self.whitelist().contains(peer)
    }

    /// Create a helper with an empty whitelist.
    pub fn new(auth_manager: AuthManager) -> (r: Self)
        ensures
            r.whitelist().len() == 0,
            r.manager() == auth_manager,
    {
        IrohAuth { auth_manager, node_whitelist: Vec::new() }
    }

    /// Add a peer to the whitelist, unless it is already there.
    pub fn add_to_whitelist(&mut self, node_id: String)
        ensures
            final(self).whitelist() == if old(self).whitelist().contains(node_id@) {
                old(self).whitelist()
            } else {
                old(self).whitelist().push(node_id@)
            },
            final(self).manager() == old(self).manager(),
    {
        if !contains_name(&self.node_whitelist, &node_id) {
            let ghost before = self.node_whitelist@;
            self.node_whitelist.push(node_id);
            assert(names(self.node_whitelist@) =~= names(before).push(node_id@));
        }
    }

    /// Remove a peer from the whitelist.
    pub fn remove_from_whitelist(&mut self, node_id: &String)
        ensures
            final(self).whitelist() == old(self).whitelist().filter(|id: Seq<char>| id != node_id@),
            final(self).manager() == old(self).manager(),
    {
        let ghost pred = |id: Seq<char>| id != node_id@;
        let ghost orig = names(self.node_whitelist@);
        assert(orig.len() == self.node_whitelist.len());
        let mut rest: Vec<String> = Vec::new();
        std::mem::swap(&mut rest, &mut self.node_whitelist);
        let mut kept: Vec<String> = Vec::new();
        let mut k: usize = 0;
        while rest.len() > 0
            invariant
                k <= orig.len(),
                orig.len() <= usize::MAX,
                orig.len() == k + rest@.len(),
                forall|j: int| 0 <= j < rest@.len() ==> #[trigger] rest@[j]@ == orig[k + j],
                names(kept@) == orig.take(k as int).filter(pred),
                pred == (|id: Seq<char>| id != node_id@),
                self.auth_manager == old(self).auth_manager,
                orig == names(old(self).node_whitelist@),
            decreases rest@.len(),
        {
            let ghost rest_before = rest@;
            let s = rest.remove(0);
            proof {
                assert(s@ == orig[k as int]);
                assert forall|j: int| 0 <= j < rest@.len() implies #[trigger] rest@[j]@ == orig[k + 1 + j] by {
                    assert(rest@[j] == rest_before[j + 1]);
                }
                crate::seqs::lemma_filter_take_step(orig, pred, k as int);
            }
            if s != *node_id {
                let ghost kb = kept@;
                kept.push(s);
                assert(names(kept@) =~= names(kb).push(orig[k as int]));
            }
            k = k + 1;
        }
        proof {
            crate::seqs::lemma_take_all(orig);
        }
        self.node_whitelist = kept;
    }

    /// Check whether a peer may connect.
    pub fn is_node_allowed(&self, node_id: &String) -> (r: bool)
        ensures
            r == self.allows(node_id@),
    {
        self.node_whitelist.len() == 0 || contains_name(&self.node_whitelist, node_id)
    }

    /// The answer to a connection of `peer_id` for `node_id` at `now_ms`: a
    /// refusal when the peer may not connect; otherwise the node's token
    /// when it belongs to that peer and validates (or the reason it does
    /// not), and nothing when the node holds no token of that peer.
    pub open spec fn authenticated_at(&self, peer_id: Seq<char>, node_id: u64, now_ms: u64, r: Result<Option<AuthToken>, RaftError>) -> bool {
        if !self.allows(peer_id) {
            r matches Err(RaftError::AuthorizationDenied { operation, peer_id: p })
                && operation@ == "authenticate_connection"@ && p@ == peer_id
        } else {
            match self.manager().token_of(node_id) {
                Some(t) => if t.peer_id@ == peer_id {
                    match self.manager().validation_denial(t, now_ms) {
                        None => r matches Ok(Some(c)) && c.node_id == t.node_id && c.peer_id@ == t.peer_id@
                            && c.role == t.role && c.expires_at_ms == t.expires_at_ms
                            && c.issued_by == t.issued_by && c.signature@ == t.signature@,
                        Some(d) => r matches Err(RaftError::AuthorizationDenied { operation, peer_id: p })
                            && operation@ == d.0 && p@ == d.1,
                    }
                } else {
                    r matches Ok(None)
                },
                None => r matches Ok(None),
            }
        }
    }

    /// Authenticate a connection at the instant `now_ms`: the peer must be
    /// allowed; the node's token is returned when it belongs to that peer and
    /// validates, and `None` when the node holds no token of that peer.
    pub fn authenticate_connection_at(&self, peer_id: &String, node_id: u64, now_ms: u64) -> (r: Result<Option<AuthToken>, RaftError>)
        requires
            self.manager().wf(),
        ensures
            self.authenticated_at(peer_id@, node_id, now_ms, r),
    {
        if !self.is_node_allowed(peer_id) {
            return Err(RaftError::AuthorizationDenied {
                operation: String::from_str("authenticate_connection"),
                peer_id: peer_id.clone(),
            });
        }
        if let Some(token) = self.auth_manager.get_active_token(node_id) {
            if token.peer_id == *peer_id {
                self.auth_manager.validate_token_at(token, now_ms)?;
                return Ok(Some(token.duplicate()));
            }
        }
        Ok(None)
    }

    /// Authenticate a connection against the current system time.
    pub fn authenticate_connection(&self, peer_id: &String, node_id: u64) -> (r: Result<Option<AuthToken>, RaftError>)
        requires
            self.manager().wf(),
        ensures
            exists|now_ms: u64| #[trigger] self.authenticated_at(peer_id@, node_id, now_ms, r),
    {
        let now = crate::clock::system_now_ms();
        self.authenticate_connection_at(peer_id, node_id, now)
    }
}


/// The operations an observer may perform by default are exactly the
/// read-only ones.
pub proof fn lemma_observer_defaults_are_read_only(op: ManagementOperation)
    ensures
        spec_is_read_only(op) <==> default_operations(ManagementRole::Observer).contains(operation_name(op)),
{
    reveal_strlit("get_cluster_status");
    reveal_strlit("get_configuration");
    reveal_strlit("get_metrics");
    reveal_strlit("get_health_status");
    reveal_strlit("get_log_info");
    reveal_strlit("get_log_entries");
    reveal_strlit("get_snapshot_info");
    reveal_strlit("list_backups");
    reveal_strlit("add_member");
    reveal_strlit("remove_member");
    reveal_strlit("update_member_role");
    reveal_strlit("transfer_leadership");
    reveal_strlit("step_down");
    reveal_strlit("update_configuration");
    reveal_strlit("compact_log");
    reveal_strlit("trigger_snapshot");
    reveal_strlit("create_backup");
    reveal_strlit("restore_backup");
    let d = default_operations(ManagementRole::Observer);
    if spec_is_read_only(op) {
        let k: int = match op {
            ManagementOperation::GetClusterStatus => 0,
            ManagementOperation::GetConfiguration => 1,
            ManagementOperation::GetMetrics { .. } => 2,
            ManagementOperation::GetHealthStatus => 3,
            ManagementOperation::GetLogInfo => 4,
            ManagementOperation::GetLogEntries { .. } => 5,
            ManagementOperation::GetSnapshotInfo => 6,
            _ => 7,
        };
        assert(d[k] == operation_name(op));
    } else {
        assert forall|k: int| 0 <= k < d.len() implies d[k] != operation_name(op) by {
            assert(d[k].len() != operation_name(op).len() || d[k][0] != operation_name(op)[0]
                || d[k][4] != operation_name(op)[4] || d[k] != operation_name(op));
        }
    }
}

} // verus!
