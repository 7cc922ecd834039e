//! Data contracts: the durable records, the catalog entries, the request
//! payloads and the read-only projections, each with its mathematical model.

use vstd::prelude::*;

use crate::bitmask::{PERMISSION_WIDTH, ROLE_WIDTH};

verus! {

/// A `String` or nothing, as text.
pub open spec fn text_of(value: Option<String>) -> Option<Seq<char>> {
    match value {
        Some(s) => Some(s@),
        None => None,
    }
}

/// An identity record.
///
/// `temp_id` is the public identifier: the 128-bit value of a UUID. `roles`
/// and `permissions` are bitmasks over the role and permission catalogs.
/// `created_at` and `updated_at` are microseconds since the Unix epoch.
#[derive(Debug, Clone, PartialEq, Eq)]
pub struct User {
    pub id: i32,
    pub temp_id: u128,
    pub email: String,
    pub username: String,
    pub password_hash: String,
    pub first_name: String,
    pub last_name: String,
    pub is_active: bool,
    pub roles: u16,
    pub permissions: u64,
    pub created_at: Option<i64>,
    pub updated_at: Option<i64>,
}

pub ghost struct UserModel {
    pub id: int,
    pub temp_id: u128,
    pub email: Seq<char>,
    pub username: Seq<char>,
    pub password_hash: Seq<char>,
    pub first_name: Seq<char>,
    pub last_name: Seq<char>,
    pub is_active: bool,
    pub roles: u16,
    pub permissions: u64,
    pub created_at: Option<i64>,
    pub updated_at: Option<i64>,
}

impl View for User {
    type V = UserModel;

    open spec fn view(&self) -> UserModel {
        UserModel {
            id: self.id as int,
            temp_id: self.temp_id,
            email: self.email@,
            username: self.username@,
            password_hash: self.password_hash@,
            first_name: self.first_name@,
            last_name: self.last_name@,
            is_active: self.is_active,
            roles: self.roles,
            permissions: self.permissions,
            created_at: self.created_at,
            updated_at: self.updated_at,
        }
    }
}

impl DeepView for User {
    type V = UserModel;

    open spec fn deep_view(&self) -> UserModel {
        self@
    }
}

/// The fields of a user that registration stores.
#[derive(Debug, Clone, PartialEq, Eq)]
pub struct NewUser {
    pub email: String,
    pub username: String,
    pub password_hash: String,
    pub first_name: String,
    pub last_name: String,
}

pub ghost struct NewUserModel {
    pub email: Seq<char>,
    pub username: Seq<char>,
    pub password_hash: Seq<char>,
    pub first_name: Seq<char>,
    pub last_name: Seq<char>,
}

impl View for NewUser {
    type V = NewUserModel;

    open spec fn view(&self) -> NewUserModel {
        NewUserModel {
            email: self.email@,
            username: self.username@,
            password_hash: self.password_hash@,
            first_name: self.first_name@,
            last_name: self.last_name@,
        }
    }
}

/// Why a catalog entry was refused.
#[derive(Debug, Clone, Copy, PartialEq, Eq, Structural)]
pub enum CatalogError {
    /// The id has no bit in the bitmask that refers to the catalog.
    IdOutOfRange { id: i32, width: i32 },
}

/// A role of the catalog: its id selects bit `id - 1` of a user's role mask,
/// and `permission` is the mask of permissions the role grants.
#[derive(Debug, Clone, PartialEq, Eq)]
pub struct Role {
    pub id: i32,
    pub name: String,
    pub description: Option<String>,
    pub permission: u64,
}

pub ghost struct RoleModel {
    pub id: int,
    pub name: Seq<char>,
    pub description: Option<Seq<char>>,
    pub permission: u64,
}

impl View for Role {
    type V = RoleModel;

    open spec fn view(&self) -> RoleModel {
        RoleModel {
            id: self.id as int,
            name: self.name@,
            description: text_of(self.description),
            permission: self.permission,
        }
    }
}

impl DeepView for Role {
    type V = RoleModel;

    open spec fn deep_view(&self) -> RoleModel {
        self@
    }
}

impl RoleModel {
    /// The id has a bit in the 16-bit role mask.
    pub open spec fn well_formed(self) -> bool {
        1 <= self.id <= 16
    }
}

/// A role before storage has given it an id.
#[derive(Debug, Clone, PartialEq, Eq)]
pub struct NewRole {
    pub name: String,
    pub description: Option<String>,
    pub permission: u64,
}

pub ghost struct NewRoleModel {
    pub name: Seq<char>,
    pub description: Option<Seq<char>>,
    pub permission: u64,
}

impl View for NewRole {
    type V = NewRoleModel;

    open spec fn view(&self) -> NewRoleModel {
        NewRoleModel {
            name: self.name@,
            description: text_of(self.description),
            permission: self.permission,
        }
    }
}

impl Role {
    /// Makes the catalog entry for `entry` under `id`, or refuses an id that
    /// has no bit in the 16-bit role mask.
    pub fn new(id: i32, entry: NewRole) -> (r: Result<Role, CatalogError>)
        ensures
            match r {
                Ok(role) => role@.well_formed() && role@ == (RoleModel {
                    id: id as int,
                    name: entry@.name,
                    description: entry@.description,
                    permission: entry@.permission,
                }),
                Err(e) => !(1 <= id <= 16) && e == (CatalogError::IdOutOfRange { id, width: 16 }),
            },
    {
        if 1 <= id && id <= ROLE_WIDTH {
            Ok(Role { id, name: entry.name, description: entry.description, permission: entry.permission })
        } else {
            Err(CatalogError::IdOutOfRange { id, width: ROLE_WIDTH })
        }
    }
}

/// A permission of the catalog: its id selects bit `id - 1` of a permission
/// mask.
#[derive(Debug, Clone, PartialEq, Eq)]
pub struct Permission {
    pub id: i32,
    pub name: String,
    pub description: Option<String>,
}

pub ghost struct PermissionModel {
    pub id: int,
    pub name: Seq<char>,
    pub description: Option<Seq<char>>,
}

impl View for Permission {
    type V = PermissionModel;

    open spec fn view(&self) -> PermissionModel {
        PermissionModel {
            id: self.id as int,
            name: self.name@,
            description: text_of(self.description),
        }
    }
}

impl DeepView for Permission {
    type V = PermissionModel;

    open spec fn deep_view(&self) -> PermissionModel {
        self@
    }
}

impl PermissionModel {
    /// The id has a bit in the 64-bit permission mask.
    pub open spec fn well_formed(self) -> bool {
        1 <= self.id <= 64
    }
}

/// A permission before storage has given it an id.
#[derive(Debug, Clone, PartialEq, Eq)]
pub struct NewPermission {
    pub name: String,
    pub description: Option<String>,
}

pub ghost struct NewPermissionModel {
    pub name: Seq<char>,
    pub description: Option<Seq<char>>,
}

impl View for NewPermission {
    type V = NewPermissionModel;

    open spec fn view(&self) -> NewPermissionModel {
        NewPermissionModel { name: self.name@, description: text_of(self.description) }
    }
}

impl Permission {
    /// Makes the catalog entry for `entry` under `id`, or refuses an id that
    /// has no bit in the 64-bit permission mask.
    pub fn new(id: i32, entry: NewPermission) -> (r: Result<Permission, CatalogError>)
        ensures
            match r {
                Ok(p) => p@.well_formed() && p@ == (PermissionModel {
                    id: id as int,
                    name: entry@.name,
                    description: entry@.description,
                }),
                Err(e) => !(1 <= id <= 64) && e == (CatalogError::IdOutOfRange { id, width: 64 }),
            },
    {
        if 1 <= id && id <= PERMISSION_WIDTH {
            Ok(Permission { id, name: entry.name, description: entry.description })
        } else {
            Err(CatalogError::IdOutOfRange { id, width: PERMISSION_WIDTH })
        }
    }
}

/// Credentials presented at login.
#[derive(Debug, Clone, PartialEq, Eq)]
pub struct Login {
    pub email: String,
    pub password: String,
}

pub ghost struct LoginModel {
    pub email: Seq<char>,
    pub password: Seq<char>,
}

impl View for Login {
    type V = LoginModel;

    open spec fn view(&self) -> LoginModel {
        LoginModel { email: self.email@, password: self.password@ }
    }
}

/// The registration payload.
#[derive(Debug, Clone, PartialEq, Eq)]
pub struct NewUserInput {
    pub email: String,
    pub username: String,
    pub password: String,
    pub first_name: String,
    pub last_name: String,
}

pub ghost struct NewUserInputModel {
    pub email: Seq<char>,
    pub username: Seq<char>,
    pub password: Seq<char>,
    pub first_name: Seq<char>,
    pub last_name: Seq<char>,
}

impl View for NewUserInput {
    type V = NewUserInputModel;

    open spec fn view(&self) -> NewUserInputModel {
        NewUserInputModel {
            email: self.email@,
            username: self.username@,
            password: self.password@,
            first_name: self.first_name@,
            last_name: self.last_name@,
        }
    }
}

/// The projection of a user for the administrative table: the record
/// without its password hash and public identifier.
#[derive(Debug, Clone, PartialEq, Eq)]
pub struct UserTableView {
    pub id: i32,
    pub email: String,
    pub username: String,
    pub first_name: String,
    pub last_name: String,
    pub is_active: bool,
    pub roles: u16,
    pub permissions: u64,
    pub created_at: Option<i64>,
    pub updated_at: Option<i64>,
}

pub ghost struct UserTableViewModel {
    pub id: int,
    pub email: Seq<char>,
    pub username: Seq<char>,
    pub first_name: Seq<char>,
    pub last_name: Seq<char>,
    pub is_active: bool,
    pub roles: u16,
    pub permissions: u64,
    pub created_at: Option<i64>,
    pub updated_at: Option<i64>,
}

impl View for UserTableView {
    type V = UserTableViewModel;

    open spec fn view(&self) -> UserTableViewModel {
        UserTableViewModel {
            id: self.id as int,
            email: self.email@,
            username: self.username@,
            first_name: self.first_name@,
            last_name: self.last_name@,
            is_active: self.is_active,
            roles: self.roles,
            permissions: self.permissions,
            created_at: self.created_at,
            updated_at: self.updated_at,
        }
    }
}

impl DeepView for UserTableView {
    type V = UserTableViewModel;

    open spec fn deep_view(&self) -> UserTableViewModel {
        self@
    }
}

/// The public projection of a user: role names in place of the role mask,
/// and the creation time as text.
#[derive(Debug, Clone, PartialEq, Eq)]
pub struct UserView {
    pub email: String,
    pub username: String,
    pub first_name: String,
    pub last_name: String,
    pub roles: Vec<String>,
    pub created_at: String,
}

pub ghost struct UserViewModel {
    pub email: Seq<char>,
    pub username: Seq<char>,
    pub first_name: Seq<char>,
    pub last_name: Seq<char>,
    pub roles: Seq<Seq<char>>,
    pub created_at: Seq<char>,
}

impl View for UserView {
    type V = UserViewModel;

    open spec fn view(&self) -> UserViewModel {
        UserViewModel {
            email: self.email@,
            username: self.username@,
            first_name: self.first_name@,
            last_name: self.last_name@,
            roles: self.roles.deep_view(),
            created_at: self.created_at@,
        }
    }
}

impl DeepView for UserView {
    type V = UserViewModel;

    open spec fn deep_view(&self) -> UserViewModel {
        self@
    }
}

/// The projection of a permission for display.
#[derive(Debug, Clone, PartialEq, Eq)]
pub struct PermissionView {
    pub name: String,
    pub description: Option<String>,
}

pub ghost struct PermissionViewModel {
    pub name: Seq<char>,
    pub description: Option<Seq<char>>,
}

impl View for PermissionView {
    type V = PermissionViewModel;

    open spec fn view(&self) -> PermissionViewModel {
        PermissionViewModel { name: self.name@, description: text_of(self.description) }
    }
}

impl DeepView for PermissionView {
    type V = PermissionViewModel;

    open spec fn deep_view(&self) -> PermissionViewModel {
        self@
    }
}

/// The projection of a role for the administrative table: the permissions
/// it grants, resolved against the permission catalog.
#[derive(Debug, Clone, PartialEq, Eq)]
pub struct RoleTableView {
    pub name: String,
    pub description: Option<String>,
    pub permission: Vec<PermissionView>,
}

pub ghost struct RoleTableViewModel {
    pub name: Seq<char>,
    pub description: Option<Seq<char>>,
    pub permission: Seq<PermissionViewModel>,
}

impl View for RoleTableView {
    type V = RoleTableViewModel;

    open spec fn view(&self) -> RoleTableViewModel {
        RoleTableViewModel {
            name: self.name@,
            description: text_of(self.description),
            permission: self.permission.deep_view(),
        }
    }
}

impl DeepView for RoleTableView {
    type V = RoleTableViewModel;

    open spec fn deep_view(&self) -> RoleTableViewModel {
        self@
    }
}

/// The public projection of a role.
#[derive(Debug, Clone, PartialEq, Eq)]
pub struct RoleView {
    pub name: String,
    pub description: Option<String>,
}

pub ghost struct RoleViewModel {
    pub name: Seq<char>,
    pub description: Option<Seq<char>>,
}

impl View for RoleView {
    type V = RoleViewModel;

    open spec fn view(&self) -> RoleViewModel {
        RoleViewModel { name: self.name@, description: text_of(self.description) }
    }
}

impl DeepView for RoleView {
    type V = RoleViewModel;

    open spec fn deep_view(&self) -> RoleViewModel {
        self@
    }
}

} // verus!
