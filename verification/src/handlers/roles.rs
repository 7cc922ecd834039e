//! The role list and the role table.

use vstd::prelude::*;

use crate::models::{
    text_of, Permission, Role, RoleModel, RoleTableView, RoleTableViewModel, RoleView,
    RoleViewModel,
};
use crate::services::permissions::{clone_text, permission_views, resolved_permissions};

verus! {

/// The name of the permission that reading the role table requires.
pub open spec fn role_table_permission() -> Seq<char> {
    "can_view_role_table"@
}

/// The permission that reading the role table requires.
pub fn view_role_table_permission() -> (r: &'static str)
    ensures
        r@ == role_table_permission(),
{
    "can_view_role_table"
}

/// The public projection of a role.
pub open spec fn role_view_of(role: RoleModel) -> RoleViewModel {
    RoleViewModel { name: role.name, description: role.description }
}

/// The table projection of a role, against the permission catalog.
pub open spec fn role_table_view_of(role: Role, permissions: Seq<Permission>) -> RoleTableViewModel {
    RoleTableViewModel {
        name: role.name@,
        description: text_of(role.description),
        permission: resolved_permissions(role.permission, permissions),
    }
}

/// Lists the roles for everyone: name and description of each, in catalog
/// order.
pub fn view_roles(roles: &Vec<Role>) -> (r: Vec<RoleView>)
    ensures
        r.len() == roles.len(),
        forall|i: int| 0 <= i < roles.len() ==> (#[trigger] r[i])@ == role_view_of(roles[i]@),
{
    let mut views: Vec<RoleView> = Vec::new();
    let mut i: usize = 0;
    while i < roles.len()
        invariant
            i <= roles.len(),
            views.len() == i,
            forall|j: int| 0 <= j < i ==> (#[trigger] views[j])@ == role_view_of(roles[j]@),
        decreases roles.len() - i,
    {
        let role = &roles[i];
        views.push(RoleView { name: role.name.clone(), description: clone_text(&role.description) });
        i = i + 1;
    }
    views
}

/// Lists the roles for the administrative table: each role, in catalog
/// order, with the permissions that its mask refers to, in ascending order
/// of id. A bit of the mask without an entry in the permission catalog is
/// dropped.
pub fn view_role_table(roles: &Vec<Role>, permissions: &Vec<Permission>) -> (r: Vec<RoleTableView>)
    ensures
        r.len() == roles.len(),
        forall|i: int|
            0 <= i < roles.len() ==> (#[trigger] r[i])@ == role_table_view_of(
                roles[i],
                permissions@,
            ),
{
    let mut views: Vec<RoleTableView> = Vec::new();
    let mut i: usize = 0;
    while i < roles.len()
        invariant
            i <= roles.len(),
            views.len() == i,
            forall|j: int|
                0 <= j < i ==> (#[trigger] views[j])@ == role_table_view_of(
                    roles[j],
                    permissions@,
                ),
        decreases roles.len() - i,
    {
        let role = &roles[i];
        views.push(
            RoleTableView {
                name: role.name.clone(),
                description: clone_text(&role.description),
                permission: permission_views(role.permission, permissions),
            },
        );
        i = i + 1;
    }
    views
}

} // verus!
