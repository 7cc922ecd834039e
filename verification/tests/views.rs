use user_auth::handlers::permissions::view_permissions_table_permission;
use user_auth::handlers::roles::{view_role_table, view_role_table_permission, view_roles};
use user_auth::handlers::users::{
    local_user_view, own_user_id, user_view, view_own_user, view_user_table,
    view_user_table_permission, view_users,
};
use user_auth::models::{
    Permission, PermissionView, Role, RoleTableView, RoleView, User, UserTableView, UserView,
};
use user_auth::services::jwt::Claims;
use user_auth::utils::error::{AuthError, ErrorKind};

fn listed_user(email: &str, roles: u16, created_at: Option<i64>) -> User {
    User {
        id: 5,
        temp_id: 0xabc,
        email: String::from(email),
        username: String::from("name"),
        password_hash: String::from("$secret-hash"),
        first_name: String::from("First"),
        last_name: String::from("Last"),
        is_active: false,
        roles,
        permissions: 0b11,
        created_at,
        updated_at: Some(17),
    }
}

fn listed_roles() -> Vec<Role> {
    vec![
        Role {
            id: 2,
            name: String::from("editor"),
            description: Some(String::from("edits")),
            permission: 0b110,
        },
        Role { id: 1, name: String::from("reader"), description: None, permission: 0b001 },
        Role { id: 16, name: String::from("root"), description: None, permission: u64::MAX },
    ]
}

fn listed_permissions() -> Vec<Permission> {
    vec![
        Permission { id: 1, name: String::from("read"), description: Some(String::from("r")) },
        Permission { id: 2, name: String::from("write"), description: None },
        Permission { id: 3, name: String::from("delete"), description: Some(String::from("d")) },
    ]
}

#[test]
fn required_permissions_have_their_names() {
    assert_eq!(view_permissions_table_permission(), "can_view_permission_table");
    assert_eq!(view_role_table_permission(), "can_view_role_table");
    assert_eq!(view_user_table_permission(), "can_view_user_table");
}

#[test]
fn role_list_shows_name_and_description_in_catalog_order() {
    assert_eq!(
        view_roles(&listed_roles()),
        vec![
            RoleView { name: String::from("editor"), description: Some(String::from("edits")) },
            RoleView { name: String::from("reader"), description: None },
            RoleView { name: String::from("root"), description: None },
        ]
    );
    assert_eq!(view_roles(&Vec::new()), Vec::new());
}

#[test]
fn role_table_resolves_each_mask_against_the_permission_catalog() {
    let read = PermissionView { name: String::from("read"), description: Some(String::from("r")) };
    let write = PermissionView { name: String::from("write"), description: None };
    let delete =
        PermissionView { name: String::from("delete"), description: Some(String::from("d")) };
    assert_eq!(
        view_role_table(&listed_roles(), &listed_permissions()),
        vec![
            RoleTableView {
                name: String::from("editor"),
                description: Some(String::from("edits")),
                permission: vec![write.clone(), delete.clone()],
            },
            RoleTableView {
                name: String::from("reader"),
                description: None,
                permission: vec![read.clone()],
            },
            RoleTableView {
                name: String::from("root"),
                description: None,
                permission: vec![read, write, delete],
            },
        ]
    );
}

#[test]
fn role_table_with_an_empty_permission_catalog_lists_no_permissions() {
    let table = view_role_table(&listed_roles(), &Vec::new());
    assert_eq!(table.len(), 3);
    for row in table {
        assert!(row.permission.is_empty());
    }
}

#[test]
fn user_table_leaves_out_hash_and_public_id() {
    let users = vec![listed_user("u@x.com", 0b11, Some(1_000_000))];
    assert_eq!(
        view_user_table(&users),
        vec![UserTableView {
            id: 5,
            email: String::from("u@x.com"),
            username: String::from("name"),
            first_name: String::from("First"),
            last_name: String::from("Last"),
            is_active: false,
            roles: 0b11,
            permissions: 0b11,
            created_at: Some(1_000_000),
            updated_at: Some(17),
        }]
    );
    assert_eq!(view_user_table(&Vec::new()), Vec::new());
}

#[test]
fn user_view_names_the_roles_in_ascending_order_of_id() {
    let user = listed_user("u@x.com", 0b11, None);
    assert_eq!(
        user_view(&user, &listed_roles(), Some(String::from("2024-01-02 03:04:05"))),
        UserView {
            email: String::from("u@x.com"),
            username: String::from("name"),
            first_name: String::from("First"),
            last_name: String::from("Last"),
            roles: vec![String::from("reader"), String::from("editor")],
            created_at: String::from("2024-01-02 03:04:05"),
        }
    );
}

#[test]
fn user_view_without_creation_time_says_unknown() {
    let user = listed_user("u@x.com", 0x8000, None);
    let view = user_view(&user, &listed_roles(), None);
    assert_eq!(view.created_at, "Unknown");
    assert_eq!(view.roles, vec![String::from("root")]);
    assert_eq!(local_user_view(&user, &listed_roles()), view);
    assert_eq!(view_own_user(Some(&user), &listed_roles()), Ok(view));
}

#[test]
fn user_view_drops_roles_that_the_catalog_lacks() {
    let user = listed_user("u@x.com", 0b1111_1100, None);
    assert_eq!(local_user_view(&user, &listed_roles()).roles, Vec::<String>::new());
    let user = listed_user("u@x.com", u16::MAX, None);
    assert_eq!(
        local_user_view(&user, &listed_roles()).roles,
        vec![String::from("reader"), String::from("editor"), String::from("root")]
    );
}

#[test]
fn own_user_view_formats_the_creation_time() {
    let user = listed_user("u@x.com", 0, Some(1_700_000_000_000_000));
    let view = view_own_user(Some(&user), &listed_roles()).unwrap();
    let text = view.created_at.as_bytes();
    assert_eq!(text.len(), 19);
    for (i, byte) in text.iter().enumerate() {
        match i {
            4 | 7 => assert_eq!(*byte, b'-'),
            10 => assert_eq!(*byte, b' '),
            13 | 16 => assert_eq!(*byte, b':'),
            _ => assert!(byte.is_ascii_digit()),
        }
    }
    assert!(view.created_at.starts_with("2023-11-1"));
    assert_eq!(view.email, "u@x.com");
}

#[test]
fn own_user_view_of_a_time_out_of_range_says_unknown() {
    let user = listed_user("u@x.com", 0, Some(i64::MAX));
    assert_eq!(local_user_view(&user, &listed_roles()).created_at, "Unknown");
}

#[test]
fn user_list_views_each_user_in_order() {
    let users = vec![
        listed_user("first@x.com", 0b01, None),
        listed_user("second@x.com", 0b10, None),
        listed_user("third@x.com", 0, Some(0)),
    ];
    let views = view_users(&users, &listed_roles());
    assert_eq!(views.len(), 3);
    assert_eq!(views[0], local_user_view(&users[0], &listed_roles()));
    assert_eq!(views[0].roles, vec![String::from("reader")]);
    assert_eq!(views[0].created_at, "Unknown");
    assert_eq!(views[1].email, "second@x.com");
    assert_eq!(views[1].roles, vec![String::from("editor")]);
    assert_eq!(views[2].roles, Vec::<String>::new());
    assert_eq!(views[2].created_at.len(), 19);
    assert_eq!(view_users(&Vec::new(), &listed_roles()), Vec::new());
}

#[test]
fn own_user_id_reads_the_public_id_of_the_claims() {
    let claims = Claims {
        sub: String::from("u@x.com"),
        exp: 0,
        user_temp_id: String::from("00000000-0000-0000-0000-000000000abc"),
    };
    assert_eq!(own_user_id(&claims), Ok(0xabc));
    let claims = Claims { user_temp_id: String::from("nope"), ..claims };
    assert_eq!(
        own_user_id(&claims),
        Err(AuthError::new(ErrorKind::Unauthorized, "Invalid UUID in token"))
    );
}

#[test]
fn own_user_view_of_a_missing_user_is_unauthorized() {
    let refused = view_own_user(None, &listed_roles()).unwrap_err();
    assert_eq!(refused, AuthError::new(ErrorKind::Unauthorized, "User not found"));
    assert_eq!(refused.status(), 401);
}
