//! The permission resolver: from a user and the role catalog to the
//! effective permission mask, and from a mask back to catalog entries.

use std::collections::HashMap;
use vstd::prelude::*;

use crate::bitmask::{
    bit_of, has_id, has_role, holds, lemma_empty_mask, lemma_role_bit, lemma_role_range,
    lemma_single_bit, lemma_union, role_bit_of, PERMISSION_WIDTH, ROLE_WIDTH,
};
use crate::models::{
    text_of, Permission, PermissionModel, PermissionView, PermissionViewModel, Role, User,
};

verus! {

broadcast use vstd::std_specs::hash::group_hash_axioms;

/// Whether the role mask `roles` selects the role with catalog id `id`.
/// Ids outside `1..=16` are never selected.
pub fn role_selected(roles: u16, id: i32) -> (r: bool)
    ensures
        r == has_role(roles, id as int),
{
    proof {
        if has_role(roles, id as int) {
            lemma_role_range(roles, id as int);
        }
    }
    1 <= id && id <= ROLE_WIDTH && holds(roles as u64, id)
}

/// The OR of the permission masks of the roles of `all_roles` that `roles`
/// selects.
pub open spec fn granted_by_roles(roles: u16, all_roles: Seq<Role>) -> u64
    decreases all_roles.len(),
{
    if all_roles.len() == 0 {
        0
    } else {
        let before = granted_by_roles(roles, all_roles.drop_last());
        if has_role(roles, all_roles.last().id as int) {
            before | all_roles.last().permission
        } else {
            before
        }
    }
}

/// The effective permission mask: the direct mask OR the masks of every
/// selected role.
pub open spec fn effective_mask(direct: u64, roles: u16, all_roles: Seq<Role>) -> u64 {
    direct | granted_by_roles(roles, all_roles)
}

/// Whether some role of `all_roles` that `roles` selects grants permission
/// `id`.
pub open spec fn granted_through_role(roles: u16, all_roles: Seq<Role>, id: int) -> bool {
    exists|j: int|
        0 <= j < all_roles.len() && has_role(roles, (#[trigger] all_roles[j]).id as int) && has_id(
            all_roles[j].permission,
            id,
        )
}

/// The mask of the selected roles holds exactly the ids that a selected role
/// grants.
pub proof fn lemma_granted_by_roles(roles: u16, all_roles: Seq<Role>, id: int)
    ensures
        has_id(granted_by_roles(roles, all_roles), id) <==> granted_through_role(
            roles,
            all_roles,
            id,
        ),
    decreases all_roles.len(),
{
    if all_roles.len() == 0 {
        lemma_empty_mask(id);
    } else {
        let before = all_roles.drop_last();
        let last = all_roles.last();
        lemma_granted_by_roles(roles, before, id);
        lemma_union(granted_by_roles(roles, before), last.permission, id);
        if granted_through_role(roles, before, id) {
            let j = choose|j: int|
                0 <= j < before.len() && has_role(roles, (#[trigger] before[j]).id as int)
                    && has_id(before[j].permission, id);
            assert(all_roles[j] == before[j]);
        }
        if granted_through_role(roles, all_roles, id) {
            let j = choose|j: int|
                0 <= j < all_roles.len() && has_role(roles, (#[trigger] all_roles[j]).id as int)
                    && has_id(all_roles[j].permission, id);
            if j < before.len() {
                assert(before[j] == all_roles[j]);
            }
        }
    }
}

/// Union law of the effective permissions: with direct mask `direct`, role
/// mask `roles` and role catalog `all_roles`, a permission id is effective
/// exactly when it is held directly or granted by a role whose bit is set
/// in `roles`.
pub proof fn lemma_effective_union(direct: u64, roles: u16, all_roles: Seq<Role>, id: int)
    ensures
        has_id(effective_mask(direct, roles, all_roles), id) <==> has_id(direct, id)
            || granted_through_role(roles, all_roles, id),
{
    lemma_granted_by_roles(roles, all_roles, id);
    lemma_union(direct, granted_by_roles(roles, all_roles), id);
}

/// Resolves the effective permission mask of `user` against the role
/// catalog `all_roles`.
pub fn effective_permissions(user: &User, all_roles: &Vec<Role>) -> (r: u64)
    ensures
        r == effective_mask(user.permissions, user.roles, all_roles@),
        forall|id: int|
            has_id(r, id) <==> has_id(user.permissions, id) || granted_through_role(
                user.roles,
                all_roles@,
                id,
            ),
{
    let mut granted: u64 = 0;
    let mut i: usize = 0;
    while i < all_roles.len()
        invariant
            i <= all_roles.len(),
            granted == granted_by_roles(user.roles, all_roles@.take(i as int)),
        decreases all_roles.len() - i,
    {
        assert(all_roles@.take(i + 1).drop_last() =~= all_roles@.take(i as int));
        if role_selected(user.roles, all_roles[i].id) {
            granted = granted | all_roles[i].permission;
        }
        i = i + 1;
    }
    assert(all_roles@.take(i as int) =~= all_roles@);
    let effective = user.permissions | granted;
    assert forall|id: int|
        has_id(effective, id) <==> has_id(user.permissions, id) || granted_through_role(
            user.roles,
            all_roles@,
            id,
        ) by {
        lemma_effective_union(user.permissions, user.roles, all_roles@, id);
    }
    effective
}

/// Whether `user` holds the permission with catalog id `permission_id`,
/// directly or through a role.
pub fn has_permission(user: &User, all_roles: &Vec<Role>, permission_id: i32) -> (r: bool)
    ensures
        r == has_id(effective_mask(user.permissions, user.roles, all_roles@), permission_id as int),
        r <==> has_id(user.permissions, permission_id as int) || granted_through_role(
            user.roles,
            all_roles@,
            permission_id as int,
        ),
{
    holds(effective_permissions(user, all_roles), permission_id)
}

/// The position of the first entry of `catalog` named `name`.
pub open spec fn first_named(catalog: Seq<Permission>, name: Seq<char>) -> Option<int>
    decreases catalog.len(),
{
    if catalog.len() == 0 {
        None
    } else {
        match first_named(catalog.drop_last(), name) {
            Some(at) => Some(at),
            None => if catalog.last().name@ == name {
                Some(catalog.len() - 1)
            } else {
                None
            },
        }
    }
}

/// `first_named` finds an entry exactly when one has the name, and then the
/// first such.
pub proof fn lemma_first_named(catalog: Seq<Permission>, name: Seq<char>)
    ensures
        match first_named(catalog, name) {
            Some(at) => 0 <= at < catalog.len() && catalog[at].name@ == name && forall|j: int|
                0 <= j < at ==> (#[trigger] catalog[j]).name@ != name,
            None => forall|j: int| 0 <= j < catalog.len() ==> (#[trigger] catalog[j]).name@ != name,
        },
    decreases catalog.len(),
{
    if catalog.len() > 0 {
        let before = catalog.drop_last();
        lemma_first_named(before, name);
        assert forall|j: int| 0 <= j < before.len() implies before[j] == catalog[j] by {}
        match first_named(before, name) {
            Some(at) => {
                assert forall|j: int| 0 <= j < at implies (#[trigger] catalog[j]).name@ != name by {
                    assert(before[j] == catalog[j]);
                }
            },
            None => {
                assert forall|j: int| 0 <= j < before.len() implies (#[trigger] catalog[j]).name@
                    != name by {
                    assert(before[j] == catalog[j]);
                }
            },
        }
    }
}

/// Looks `name` up in the permission catalog.
pub fn find_permission(catalog: &Vec<Permission>, name: &str) -> (r: Option<usize>)
    ensures
        match r {
            Some(at) => first_named(catalog@, name@) == Some(at as int),
            None => first_named(catalog@, name@) is None,
        },
{
    let wanted = name.to_owned();
    let mut i: usize = 0;
    while i < catalog.len()
        invariant
            i <= catalog.len(),
            wanted@ == name@,
            first_named(catalog@.take(i as int), name@) is None,
        decreases catalog.len() - i,
    {
        assert(catalog@.take(i + 1).drop_last() =~= catalog@.take(i as int));
        if catalog[i].name == wanted {
            proof {
                lemma_found_stays(catalog@, name@, i + 1);
            }
            return Some(i);
        }
        i = i + 1;
    }
    assert(catalog@.take(i as int) =~= catalog@);
    None
}

proof fn lemma_found_stays(catalog: Seq<Permission>, name: Seq<char>, n: int)
    requires
        0 <= n <= catalog.len(),
        first_named(catalog.take(n), name) is Some,
    ensures
        first_named(catalog, name) == first_named(catalog.take(n), name),
    decreases catalog.len() - n,
{
    if n < catalog.len() {
        assert(catalog.take(n + 1).drop_last() =~= catalog.take(n));
        lemma_found_stays(catalog, name, n + 1);
    } else {
        assert(catalog.take(n) =~= catalog);
    }
}

/// Whether a user with direct mask `direct` and role mask `roles` may use
/// the permission named `name`: the name must be in the catalog, and the
/// bit of its id in the effective mask.
pub open spec fn permitted(
    direct: u64,
    roles: u16,
    all_roles: Seq<Role>,
    catalog: Seq<Permission>,
    name: Seq<char>,
) -> bool {
    match first_named(catalog, name) {
        Some(at) => has_id(effective_mask(direct, roles, all_roles), catalog[at].id as int),
        None => false,
    }
}

/// Whether `user` may use the permission named `permission_name`.
///
/// A name that the catalog does not hold is not permitted: the check fails
/// closed.
pub fn user_has_permission(
    user: &User,
    all_roles: &Vec<Role>,
    permissions: &Vec<Permission>,
    permission_name: &str,
) -> (r: bool)
    ensures
        r == permitted(user.permissions, user.roles, all_roles@, permissions@, permission_name@),
        (forall|j: int|
            0 <= j < permissions.len() ==> (#[trigger] permissions[j]).name@ != permission_name@)
            ==> !r,
{
    proof {
        lemma_first_named(permissions@, permission_name@);
    }
    match find_permission(permissions, permission_name) {
        Some(at) => has_permission(user, all_roles, permissions[at].id),
        None => false,
    }
}

/// The ids of the permission catalog, in catalog order.
pub open spec fn permission_ids(catalog: Seq<Permission>) -> Seq<i32> {
    Seq::new(catalog.len(), |i: int| catalog[i].id)
}

/// The ids of the role catalog, in catalog order.
pub open spec fn role_ids(all_roles: Seq<Role>) -> Seq<i32> {
    Seq::new(all_roles.len(), |i: int| all_roles[i].id)
}

/// The position of the catalog entry that id `id` refers to: the last one
/// with that id, if there is any.
pub open spec fn entry_of(entry_ids: Seq<i32>, id: int) -> Option<int>
    decreases entry_ids.len(),
{
    if entry_ids.len() == 0 {
        None
    } else if entry_ids.last() == id {
        Some(entry_ids.len() - 1)
    } else {
        entry_of(entry_ids.drop_last(), id)
    }
}

/// The positions of the catalog entries for the ids from 1 to `bound` that
/// `mask` holds, in ascending order of id. An id without an entry is left
/// out.
pub open spec fn resolved_below(mask: u64, bound: int, entry_ids: Seq<i32>) -> Seq<int>
    decreases bound,
{
    if bound <= 0 {
        Seq::empty()
    } else {
        let lower = resolved_below(mask, bound - 1, entry_ids);
        if has_id(mask, bound) && entry_of(entry_ids, bound) is Some {
            lower.push(entry_of(entry_ids, bound).unwrap())
        } else {
            lower
        }
    }
}

/// The positions of the catalog entries that `mask` refers to, in ascending
/// order of id.
pub open spec fn resolved(mask: u64, entry_ids: Seq<i32>) -> Seq<int> {
    resolved_below(mask, 64, entry_ids)
}

/// What `entry_of` finds: a position that holds the id, after which no
/// position holds it; and nothing only where no position holds the id.
pub proof fn lemma_entry_of(entry_ids: Seq<i32>, id: int)
    ensures
        match entry_of(entry_ids, id) {
            Some(at) => 0 <= at < entry_ids.len() && entry_ids[at] == id && forall|j: int|
                at < j < entry_ids.len() ==> entry_ids[j] != id,
            None => forall|j: int| 0 <= j < entry_ids.len() ==> entry_ids[j] != id,
        },
    decreases entry_ids.len(),
{
    if entry_ids.len() > 0 && entry_ids.last() != id {
        let before = entry_ids.drop_last();
        lemma_entry_of(before, id);
        assert forall|j: int| 0 <= j < before.len() implies before[j] == entry_ids[j] by {}
    }
}

/// Ids that the mask does not hold add nothing: above the highest id that
/// `mask` can hold, the bound does not matter.
proof fn lemma_resolved_above(mask: u64, low: int, bound: int, entry_ids: Seq<i32>)
    requires
        0 <= low <= bound,
        forall|id: int| low < id <= bound ==> !has_id(mask, id),
    ensures
        resolved_below(mask, bound, entry_ids) == resolved_below(mask, low, entry_ids),
    decreases bound - low,
{
    if low < bound {
        lemma_resolved_above(mask, low, bound - 1, entry_ids);
    }
}

/// A role mask resolves within the first 16 ids.
pub proof fn lemma_resolved_roles(roles: u16, entry_ids: Seq<i32>)
    ensures
        resolved(roles as u64, entry_ids) == resolved_below(roles as u64, 16, entry_ids),
{
    let mask = roles as u64;
    assert forall|id: int| 16 < id <= 64 implies !has_id(mask, id) by {
        if has_role(roles, id) {
            lemma_role_range(roles, id);
        }
    }
    lemma_resolved_above(mask, 16, 64, entry_ids);
}

/// Round trip of the bit mapping: for a catalog id `k` from 1 to 64, the
/// mask with only bit `k - 1` set resolves to the catalog entry with id `k`
/// and to no other; where the catalog has no such entry, to nothing.
pub proof fn lemma_single_bit_resolves(k: int, entry_ids: Seq<i32>)
    requires
        1 <= k <= 64,
    ensures
        resolved(bit_of(k), entry_ids) == match entry_of(entry_ids, k) {
            Some(at) => seq![at],
            None => Seq::<int>::empty(),
        },
        entry_of(entry_ids, k) matches Some(at) ==> 0 <= at < entry_ids.len() && entry_ids[at]
            == k,
        entry_of(entry_ids, k) is None ==> forall|i: int|
            0 <= i < entry_ids.len() ==> entry_ids[i] != k,
{
    lemma_entry_of(entry_ids, k);
    assert forall|id: int| 0 < id <= k - 1 implies !has_id(bit_of(k), id) by {
        lemma_single_bit(k, id);
    }
    lemma_resolved_above(bit_of(k), 0, k - 1, entry_ids);
    assert(resolved_below(bit_of(k), 0, entry_ids) == Seq::<int>::empty());
    lemma_single_bit(k, k);
    assert(resolved_below(bit_of(k), k, entry_ids) =~= match entry_of(entry_ids, k) {
        Some(at) => seq![at],
        None => Seq::<int>::empty(),
    });
    assert forall|id: int| k < id <= 64 implies !has_id(bit_of(k), id) by {
        lemma_single_bit(k, id);
    }
    lemma_resolved_above(bit_of(k), k, 64, entry_ids);
}

/// The positions of `positions`, as integers.
pub open spec fn as_positions(positions: Seq<usize>) -> Seq<int> {
    Seq::new(positions.len(), |k: int| positions[k] as int)
}

/// Whether `index` maps each id to the position that `entry_of` gives it.
pub open spec fn indexes(index: Map<i32, usize>, entry_ids: Seq<i32>) -> bool {
    forall|id: i32|
        match entry_of(entry_ids, id as int) {
            Some(at) => #[trigger] index.contains_key(id) && index[id] as int == at,
            None => !index.contains_key(id),
        }
}

fn index_by_id(entry_ids: &Vec<i32>) -> (index: HashMap<i32, usize>)
    ensures
        indexes(index@, entry_ids@),
{
    let mut index: HashMap<i32, usize> = HashMap::new();
    let mut i: usize = 0;
    while i < entry_ids.len()
        invariant
            i <= entry_ids.len(),
            indexes(index@, entry_ids@.take(i as int)),
        decreases entry_ids.len() - i,
    {
        let ghost before = index@;
        assert(entry_ids@.take(i + 1).drop_last() =~= entry_ids@.take(i as int));
        index.insert(entry_ids[i], i);
        assert forall|id: i32|
            match entry_of(entry_ids@.take(i + 1), id as int) {
                Some(at) => #[trigger] index@.contains_key(id) && index@[id] as int == at,
                None => !index@.contains_key(id),
            } by {
            assert(match entry_of(entry_ids@.take(i as int), id as int) {
                Some(at) => before.contains_key(id) && before[id] as int == at,
                None => !before.contains_key(id),
            });
        }
        i = i + 1;
    }
    assert(entry_ids@.take(i as int) =~= entry_ids@);
    index
}

fn resolve_below(mask: u64, bound: i32, entry_ids: &Vec<i32>) -> (r: Vec<usize>)
    requires
        0 <= bound <= 64,
    ensures
        as_positions(r@) == resolved_below(mask, bound as int, entry_ids@),
        forall|k: int| 0 <= k < r.len() ==> (#[trigger] r[k]) < entry_ids.len(),
{
    let index = index_by_id(entry_ids);
    let mut found: Vec<usize> = Vec::new();
    let mut id: i32 = 0;
    assert(as_positions(found@) =~= resolved_below(mask, 0, entry_ids@));
    while id < bound
        invariant
            0 <= id <= bound <= 64,
            as_positions(found@) == resolved_below(mask, id as int, entry_ids@),
            forall|k: int| 0 <= k < found.len() ==> (#[trigger] found[k]) < entry_ids.len(),
            indexes(index@, entry_ids@),
        decreases bound - id,
    {
        let ghost lower = found@;
        id = id + 1;
        proof {
            lemma_entry_of(entry_ids@, id as int);
            assert(match entry_of(entry_ids@, id as int) {
                Some(at) => index@.contains_key(id) && index@[id] as int == at,
                None => !index@.contains_key(id),
            });
        }
        if holds(mask, id) {
            match index.get(&id) {
                Some(at) => {
                    assert(index@.contains_key(id) && index@[id] == *at);
                    found.push(*at);
                    assert(found@ == lower.push(*at));
                    assert(as_positions(found@) =~= as_positions(lower).push(*at as int));
                },
                None => {
                    assert(!index@.contains_key(id));
                },
            }
        }
    }
    found
}

/// Resolves a permission mask against the ids of a catalog: the positions
/// of the entries it refers to, in ascending order of id.
pub fn resolve(mask: u64, entry_ids: &Vec<i32>) -> (r: Vec<usize>)
    ensures
        as_positions(r@) == resolved(mask, entry_ids@),
        forall|k: int| 0 <= k < r.len() ==> (#[trigger] r[k]) < entry_ids.len(),
{
    resolve_below(mask, PERMISSION_WIDTH, entry_ids)
}

/// Resolves a role mask against the ids of a catalog: the positions of the
/// entries it refers to, in ascending order of id.
pub fn resolve_roles(roles: u16, entry_ids: &Vec<i32>) -> (r: Vec<usize>)
    ensures
        as_positions(r@) == resolved(roles as u64, entry_ids@),
        forall|k: int| 0 <= k < r.len() ==> (#[trigger] r[k]) < entry_ids.len(),
{
    proof {
        lemma_resolved_roles(roles, entry_ids@);
    }
    resolve_below(roles as u64, ROLE_WIDTH, entry_ids)
}

/// The display projection of a permission.
pub open spec fn permission_view_of(p: PermissionModel) -> PermissionViewModel {
    PermissionViewModel { name: p.name, description: p.description }
}

/// The permissions that `mask` refers to, as display projections, in
/// ascending order of id. Bits without a catalog entry are dropped.
pub open spec fn resolved_permissions(mask: u64, catalog: Seq<Permission>) -> Seq<
    PermissionViewModel,
> {
    let at = resolved(mask, permission_ids(catalog));
    Seq::new(at.len(), |k: int| permission_view_of(catalog[at[k]]@))
}

/// The names of the roles that the role mask `roles` refers to, in
/// ascending order of id. Bits without a catalog entry are dropped.
pub open spec fn resolved_role_names(roles: u16, all_roles: Seq<Role>) -> Seq<Seq<char>> {
    let at = resolved(roles as u64, role_ids(all_roles));
    Seq::new(at.len(), |k: int| all_roles[at[k]].name@)
}

/// Round trip of the bit mapping for permissions: for a catalog id `k` from
/// 1 to 64, the mask with only bit `k - 1` set resolves to exactly the
/// catalog entry with id `k`, and to nothing where the catalog has none.
pub proof fn lemma_single_permission(k: int, catalog: Seq<Permission>)
    requires
        1 <= k <= 64,
    ensures
        resolved_permissions(bit_of(k), catalog) == match entry_of(permission_ids(catalog), k) {
            Some(at) => seq![permission_view_of(catalog[at]@)],
            None => Seq::<PermissionViewModel>::empty(),
        },
        entry_of(permission_ids(catalog), k) matches Some(at) ==> 0 <= at < catalog.len()
            && catalog[at].id == k,
        entry_of(permission_ids(catalog), k) is None ==> forall|i: int|
            0 <= i < catalog.len() ==> (#[trigger] catalog[i]).id != k,
{
    lemma_single_bit_resolves(k, permission_ids(catalog));
    assert forall|i: int| 0 <= i < catalog.len() implies (#[trigger] catalog[i]).id
        == permission_ids(catalog)[i] by {}
    assert(resolved_permissions(bit_of(k), catalog) =~= match entry_of(
        permission_ids(catalog),
        k,
    ) {
        Some(at) => seq![permission_view_of(catalog[at]@)],
        None => Seq::<PermissionViewModel>::empty(),
    });
}

/// Round trip of the bit mapping for roles: for a catalog id `k` from 1 to
/// 16, the role mask with only bit `k - 1` set resolves to exactly the name
/// of the role with id `k`, and to nothing where the catalog has none.
pub proof fn lemma_single_role(k: int, all_roles: Seq<Role>)
    requires
        1 <= k <= 16,
    ensures
        resolved_role_names(role_bit_of(k), all_roles) == match entry_of(role_ids(all_roles), k) {
            Some(at) => seq![all_roles[at].name@],
            None => Seq::<Seq<char>>::empty(),
        },
        entry_of(role_ids(all_roles), k) matches Some(at) ==> 0 <= at < all_roles.len()
            && all_roles[at].id == k,
        entry_of(role_ids(all_roles), k) is None ==> forall|i: int|
            0 <= i < all_roles.len() ==> (#[trigger] all_roles[i]).id != k,
{
    lemma_role_bit(k);
    lemma_single_bit_resolves(k, role_ids(all_roles));
    assert forall|i: int| 0 <= i < all_roles.len() implies (#[trigger] all_roles[i]).id
        == role_ids(all_roles)[i] by {}
    assert(resolved_role_names(role_bit_of(k), all_roles) =~= match entry_of(
        role_ids(all_roles),
        k,
    ) {
        Some(at) => seq![all_roles[at].name@],
        None => Seq::<Seq<char>>::empty(),
    });
}

/// A copy of an optional text.
pub fn clone_text(value: &Option<String>) -> (r: Option<String>)
    ensures
        text_of(r) == text_of(*value),
{
    match value {
        Some(s) => Some(s.clone()),
        None => None,
    }
}

fn ids_of_permissions(catalog: &Vec<Permission>) -> (r: Vec<i32>)
    ensures
        r@ == permission_ids(catalog@),
{
    let mut entry_ids: Vec<i32> = Vec::new();
    let mut i: usize = 0;
    while i < catalog.len()
        invariant
            i <= catalog.len(),
            entry_ids@ == permission_ids(catalog@.take(i as int)),
        decreases catalog.len() - i,
    {
        entry_ids.push(catalog[i].id);
        i = i + 1;
        assert(entry_ids@ =~= permission_ids(catalog@.take(i as int)));
    }
    assert(catalog@.take(i as int) =~= catalog@);
    entry_ids
}

fn ids_of_roles(all_roles: &Vec<Role>) -> (r: Vec<i32>)
    ensures
        r@ == role_ids(all_roles@),
{
    let mut entry_ids: Vec<i32> = Vec::new();
    let mut i: usize = 0;
    while i < all_roles.len()
        invariant
            i <= all_roles.len(),
            entry_ids@ == role_ids(all_roles@.take(i as int)),
        decreases all_roles.len() - i,
    {
        entry_ids.push(all_roles[i].id);
        i = i + 1;
        assert(entry_ids@ =~= role_ids(all_roles@.take(i as int)));
    }
    assert(all_roles@.take(i as int) =~= all_roles@);
    entry_ids
}

/// Lists the permissions that `mask` refers to, for display.
pub fn permission_views(mask: u64, catalog: &Vec<Permission>) -> (r: Vec<PermissionView>)
    ensures
        r.deep_view() == resolved_permissions(mask, catalog@),
{
    let entry_ids = ids_of_permissions(catalog);
    let at = resolve(mask, &entry_ids);
    let mut views: Vec<PermissionView> = Vec::new();
    let mut k: usize = 0;
    while k < at.len()
        invariant
            k <= at.len(),
            at.len() == resolved(mask, permission_ids(catalog@)).len(),
            as_positions(at@) == resolved(mask, permission_ids(catalog@)),
            forall|j: int| 0 <= j < at.len() ==> (#[trigger] at[j]) < catalog.len(),
            views.len() == k,
            forall|j: int|
                0 <= j < k ==> (#[trigger] views[j])@ == permission_view_of(
                    catalog[at[j] as int]@,
                ),
        decreases at.len() - k,
    {
        let entry = &catalog[at[k]];
        views.push(PermissionView { name: entry.name.clone(), description: clone_text(&entry.description) });
        k = k + 1;
    }
    proof {
        let expected = resolved_permissions(mask, catalog@);
        assert(views.deep_view().len() == expected.len());
        assert forall|j: int| 0 <= j < expected.len() implies views.deep_view()[j] == expected[j] by {
            assert(as_positions(at@)[j] == at[j] as int);
            assert(views.deep_view()[j] == views[j]@);
        }
        assert(views.deep_view() =~= expected);
    }
    views
}

/// Lists the names of the roles that the role mask `roles` refers to.
pub fn role_names(roles: u16, all_roles: &Vec<Role>) -> (r: Vec<String>)
    ensures
        r.deep_view() == resolved_role_names(roles, all_roles@),
{
    let entry_ids = ids_of_roles(all_roles);
    let at = resolve_roles(roles, &entry_ids);
    let mut names: Vec<String> = Vec::new();
    let mut k: usize = 0;
    while k < at.len()
        invariant
            k <= at.len(),
            at.len() == resolved(roles as u64, role_ids(all_roles@)).len(),
            as_positions(at@) == resolved(roles as u64, role_ids(all_roles@)),
            forall|j: int| 0 <= j < at.len() ==> (#[trigger] at[j]) < all_roles.len(),
            names.len() == k,
            forall|j: int| 0 <= j < k ==> (#[trigger] names[j])@ == all_roles[at[j] as int].name@,
        decreases at.len() - k,
    {
        names.push(all_roles[at[k]].name.clone());
        k = k + 1;
    }
    proof {
        let expected = resolved_role_names(roles, all_roles@);
        assert(names.deep_view().len() == expected.len());
        assert forall|j: int| 0 <= j < expected.len() implies names.deep_view()[j] == expected[j] by {
            assert(as_positions(at@)[j] == at[j] as int);
            assert(names.deep_view()[j] == names[j]@);
        }
        assert(names.deep_view() =~= expected);
    }
    names
}

} // verus!
