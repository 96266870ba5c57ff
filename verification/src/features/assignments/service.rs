//! The decisions of the assignment service: resolving the requested roles and
//! permissions, what a removal that found nothing answers, and the shape of an
//! effective permission listing.
use crate::common::text::concat2;
use crate::error::AppError;
use crate::features::assignments::repository::AssignmentRepository;
use crate::features::assignments::models::{
    shows_permission_row, EffectivePermission, EffectivePermissionRow, EffectivePermissionsResponse,
};
use vstd::prelude::*;

verus! {

/// The assignment service, over an assignment store `R`, a role store `RR` and
/// a permission store `PR`.
pub struct AssignmentService<R, RR, PR> {
    pub repo: R,
    pub role_repo: RR,
    pub perm_repo: PR,
}

/// The message of a removal that found no assignment: `<what> <item> not assigned to <subject> <subject_id>`.
pub open spec fn not_assigned_message(what: Seq<char>, item: Seq<char>, subject: Seq<char>, subject_id: Seq<char>) -> Seq<char> {
    what + " "@ + item + " not assigned to "@ + subject + " "@ + subject_id
}

/// The assignment service with its three stores on the database handle `db`.
pub fn make_svc<P: Clone>(db: P) -> (r: AssignmentService<AssignmentRepository<P>, P, P>)
    ensures
        r.repo.pool == db,
{
    let roles = db.clone();
    let perms = db.clone();
    AssignmentService::new(AssignmentRepository::new(db), roles, perms)
}

impl<R, RR, PR> AssignmentService<R, RR, PR> {
    pub fn new(repo: R, role_repo: RR, perm_repo: PR) -> (r: Self)
        ensures
            r.repo == repo,
            r.role_repo == role_repo,
            r.perm_repo == perm_repo,
    {
        AssignmentService { repo, role_repo, perm_repo }
    }

    /// A requested role: its internal id with the public id it was asked by, or
    /// `NotFound` when there is no such role.
    pub fn resolve_role(found: Option<u128>, role_public_id: &str) -> (r: Result<(u128, String), AppError>)
        ensures
            found matches Some(id) ==> (r matches Ok(p) && p.0 == id && p.1@ == role_public_id@),
            found is None ==> (r matches Err(AppError::NotFound(m)) && m@ == "role not found: "@ + role_public_id@),
    {
        match found {
            Some(id) => Ok((id, role_public_id.to_string())),
            None => Err(AppError::NotFound(concat2("role not found: ", role_public_id))),
        }
    }

    /// A requested permission: its internal and public ids as stored, or
    /// `NotFound` when there is no such permission.
    pub fn resolve_permission(found: Option<(u128, String)>, perm_public_id: &str) -> (r: Result<(u128, String), AppError>)
        ensures
            found matches Some(p) ==> r == Ok::<(u128, String), AppError>(p),
            found is None ==> (r matches Err(AppError::NotFound(m)) && m@ == "permission not found: "@ + perm_public_id@),
    {
        match found {
            Some(p) => Ok(p),
            None => Err(AppError::NotFound(concat2("permission not found: ", perm_public_id))),
        }
    }

    /// A removal that deleted nothing answers `NotFound`; `what` is "role" or
    /// "permission", `subject` is "user" or "api key".
    pub fn check_removed(removed: bool, what: &str, item: &str, subject: &str, subject_id: &str) -> (r: Result<(), AppError>)
        ensures
            removed ==> r is Ok,
            !removed ==> (r matches Err(AppError::NotFound(m)) && m@ == not_assigned_message(what@, item@, subject@, subject_id@)),
    {
        if removed {
            return Ok(());
        }
        let mut m = what.to_string();
        m.append(" ");
        m.append(item);
        m.append(" not assigned to ");
        m.append(subject);
        m.append(" ");
        m.append(subject_id);
        proof {
            reveal_strlit(" ");
        }
        Err(AppError::NotFound(m))
    }

    /// The effective permissions of a subject in a tenant, in the order read.
    pub fn effective_permissions(subject_id: &str, tenant_id: u128, rows: Vec<EffectivePermissionRow>) -> (r: EffectivePermissionsResponse)
        ensures
            r.subject_id@ == subject_id@,
            r.tenant_id == tenant_id,
            r.permissions@.len() == rows@.len(),
            forall|i: int| 0 <= i < rows@.len() ==> (#[trigger] r.permissions@[i]).permission_id == rows@[i].perm_public_id
                && r.permissions@[i].source == rows@[i].source && r.permissions@[i].from_role == rows@[i].from_role,
            forall|i: int| 0 <= i < rows@.len() ==> shows_permission_row(#[trigger] r.permissions@[i], rows@[i]),
    {
        let mut permissions: Vec<EffectivePermission> = Vec::new();
        let mut rest = rows;
        let ghost given = rest@;
        while rest.len() > 0
            invariant
                permissions@.len() + rest@.len() == given.len(),
                rest@ == given.subrange(permissions@.len() as int, given.len() as int),
                forall|i: int| 0 <= i < permissions@.len() ==> (#[trigger] permissions@[i]).permission_id == given[i].perm_public_id
                    && permissions@[i].source == given[i].source && permissions@[i].from_role == given[i].from_role,
                forall|i: int| 0 <= i < permissions@.len() ==> shows_permission_row(#[trigger] permissions@[i], given[i]),
            decreases rest@.len(),
        {
            let row = rest.remove(0);
            proof {
                assert(row == given[permissions@.len() as int]);
            }
            permissions.push(EffectivePermission::from(row));
        }
        EffectivePermissionsResponse { subject_id: subject_id.to_string(), tenant_id, permissions }
    }
}

/// A subject's effective permissions are the rows read, each at its own
/// position and as it is: its id, name, resource and action, where it comes
/// from, and when it expires (a time-limited grant is never reported as
/// lasting forever).
pub proof fn law_effective_permissions_show_each_row(
    subject_id: &str,
    tenant_id: u128,
    rows: Vec<EffectivePermissionRow>,
    r: EffectivePermissionsResponse,
)
    requires
        call_ensures(AssignmentService::<(), (), ()>::effective_permissions, (subject_id, tenant_id, rows), r),
    ensures
        r.subject_id@ == subject_id@,
        r.tenant_id == tenant_id,
        r.permissions@.len() == rows@.len(),
        forall|i: int| 0 <= i < rows@.len() ==> {
            let p = #[trigger] r.permissions@[i];
            let row = rows@[i];
            &&& p.permission_id == row.perm_public_id
            &&& p.name == row.perm_name
            &&& p.resource == row.resource
            &&& p.action == row.action
            &&& p.source == row.source
            &&& p.from_role == row.from_role
            &&& p.expires_at == row.expires_at
        },
{
    assert forall|i: int| 0 <= i < rows@.len() implies shows_permission_row(#[trigger] r.permissions@[i], rows@[i]) by {}
}

} // verus!
