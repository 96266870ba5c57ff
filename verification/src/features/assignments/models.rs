//! Role and permission assignments of users and API keys: the requests, the rows
//! read back, and the response shapes.
use vstd::prelude::*;

verus! {

/// A request to assign roles, by public id, optionally until `expires_at` (microseconds since the epoch).
pub struct AssignRolesRequest {
    pub role_ids: Vec<String>,
    pub expires_at: Option<i64>,
}

/// A request to assign permissions, by public id, optionally until `expires_at`.
pub struct AssignPermissionsRequest {
    pub permission_ids: Vec<String>,
    pub expires_at: Option<i64>,
}

/// An assigned role as returned to callers.
pub struct AssignedRole {
    pub role_id: String,
    pub role_name: String,
    pub tenant_id: u128,
    pub expires_at: Option<i64>,
    pub created_at: i64,
}

/// An assigned role as read from the store.
pub struct AssignedRoleRow {
    pub role_public_id: String,
    pub role_name: String,
    pub tenant_id: u128,
    pub expires_at: Option<i64>,
    pub created_at: i64,
}

impl AssignedRole {
    pub fn from(r: AssignedRoleRow) -> (out: Self)
        ensures
            out.role_id == r.role_public_id,
            out.role_name == r.role_name,
            out.tenant_id == r.tenant_id,
            out.expires_at == r.expires_at,
            out.created_at == r.created_at,
    {
        AssignedRole {
            role_id: r.role_public_id,
            role_name: r.role_name,
            tenant_id: r.tenant_id,
            expires_at: r.expires_at,
            created_at: r.created_at,
        }
    }
}

pub struct ListAssignedRolesResponse {
    pub items: Vec<AssignedRole>,
}

/// The outcome of a bulk assignment: the public ids newly assigned and those
/// that were assigned already, each in request order.
pub struct BulkAssignResponse {
    pub assigned: Vec<String>,
    pub already_present: Vec<String>,
}

/// The public ids of `items` whose insert did (`inserted`) or did not add a row, in order.
pub open spec fn split_by_outcome(items: Seq<(String, bool)>, inserted: bool) -> Seq<String>
    decreases items.len(),
{
    if items.len() == 0 {
        Seq::empty()
    } else {
        let rest = split_by_outcome(items.drop_last(), inserted);
        if items.last().1 == inserted {
            rest.push(items.last().0)
        } else {
            rest
        }
    }
}

/// Every item of a bulk assignment lands in exactly one of the two lists: the
/// newly assigned and the already present together number the items.
pub proof fn law_bulk_assign_partition(items: Seq<(String, bool)>)
    ensures
        split_by_outcome(items, true).len() + split_by_outcome(items, false).len() == items.len(),
    decreases items.len(),
{
    if items.len() > 0 {
        law_bulk_assign_partition(items.drop_last());
    }
}

impl BulkAssignResponse {
    /// An outcome with nothing recorded yet.
    pub fn new() -> (r: Self)
        ensures
            r.assigned@.len() == 0,
            r.already_present@.len() == 0,
    {
        BulkAssignResponse { assigned: Vec::new(), already_present: Vec::new() }
    }

    /// Records the insert of one item: a new row puts it among the assigned, none among those already present.
    pub fn record(&mut self, public_id: String, inserted: bool)
        ensures
            inserted ==> final(self).assigned@ == old(self).assigned@.push(public_id),
            inserted ==> final(self).already_present@ == old(self).already_present@,
            !inserted ==> final(self).already_present@ == old(self).already_present@.push(public_id),
            !inserted ==> final(self).assigned@ == old(self).assigned@,
    {
        if inserted {
            self.assigned.push(public_id);
        } else {
            self.already_present.push(public_id);
        }
    }

    /// The outcome of inserting `items` in order, each with whether its insert added a row.
    pub fn from_outcomes(items: Vec<(String, bool)>) -> (r: Self)
        ensures
            r.assigned@ == split_by_outcome(items@, true),
            r.already_present@ == split_by_outcome(items@, false),
            r.assigned@.len() + r.already_present@.len() == items@.len(),
    {
        let mut out = BulkAssignResponse::new();
        let mut i: usize = 0;
        while i < items.len()
            invariant
                i <= items@.len(),
                out.assigned@ == split_by_outcome(items@.subrange(0, i as int), true),
                out.already_present@ == split_by_outcome(items@.subrange(0, i as int), false),
                out.assigned@.len() + out.already_present@.len() == i,
            decreases items@.len() - i,
        {
            let (id, inserted) = (items[i].0.clone(), items[i].1);
            proof {
                assert(items@.subrange(0, i + 1).drop_last() =~= items@.subrange(0, i as int));
            }
            out.record(id, inserted);
            i = i + 1;
        }
        proof {
            assert(items@.subrange(0, items@.len() as int) =~= items@);
        }
        out
    }
}

/// A directly assigned permission as returned to callers.
pub struct AssignedPermission {
    pub permission_id: String,
    pub permission_name: String,
    pub resource: String,
    pub action: String,
    pub expires_at: Option<i64>,
    pub created_at: i64,
}

/// A directly assigned permission as read from the store.
pub struct AssignedPermissionRow {
    pub perm_public_id: String,
    pub permission_name: String,
    pub resource: String,
    pub action: String,
    pub expires_at: Option<i64>,
    pub created_at: i64,
}

impl AssignedPermission {
    pub fn from(r: AssignedPermissionRow) -> (out: Self)
        ensures
            out.permission_id == r.perm_public_id,
            out.permission_name == r.permission_name,
            out.resource == r.resource,
            out.action == r.action,
            out.expires_at == r.expires_at,
            out.created_at == r.created_at,
    {
        AssignedPermission {
            permission_id: r.perm_public_id,
            permission_name: r.permission_name,
            resource: r.resource,
            action: r.action,
            expires_at: r.expires_at,
            created_at: r.created_at,
        }
    }
}

pub struct ListAssignedPermissionsResponse {
    pub items: Vec<AssignedPermission>,
}

/// A permission a subject holds, directly (`source` "direct") or through a role
/// (`source` "role", with the role in `from_role`).
pub struct EffectivePermission {
    pub permission_id: String,
    pub name: String,
    pub resource: String,
    pub action: String,
    pub source: String,
    pub from_role: Option<String>,
    pub expires_at: Option<i64>,
}

/// An effective permission as read from the store.
pub struct EffectivePermissionRow {
    pub perm_public_id: String,
    pub perm_name: String,
    pub resource: String,
    pub action: String,
    pub source: String,
    pub from_role: Option<String>,
    pub expires_at: Option<i64>,
}

/// Whether `p` is the effective permission the row `r` reads as: every field of
/// the row, with the permission's public id as its id.
pub open spec fn shows_permission_row(p: EffectivePermission, r: EffectivePermissionRow) -> bool {
    &&& p.permission_id == r.perm_public_id
    &&& p.name == r.perm_name
    &&& p.resource == r.resource
    &&& p.action == r.action
    &&& p.source == r.source
    &&& p.from_role == r.from_role
    &&& p.expires_at == r.expires_at
}

impl EffectivePermission {
    pub fn from(r: EffectivePermissionRow) -> (out: Self)
        ensures
            shows_permission_row(out, r),
            out.permission_id == r.perm_public_id,
            out.name == r.perm_name,
            out.resource == r.resource,
            out.action == r.action,
            out.source == r.source,
            out.from_role == r.from_role,
            out.expires_at == r.expires_at,
    {
        EffectivePermission {
            permission_id: r.perm_public_id,
            name: r.perm_name,
            resource: r.resource,
            action: r.action,
            source: r.source,
            from_role: r.from_role,
            expires_at: r.expires_at,
        }
    }
}

pub struct EffectivePermissionsResponse {
    pub subject_id: String,
    pub tenant_id: u128,
    pub permissions: Vec<EffectivePermission>,
}

} // verus!
