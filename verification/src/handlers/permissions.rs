//! The permission table.

use vstd::prelude::*;

verus! {

/// The name of the permission that reading the permission table requires.
pub open spec fn permission_table_permission() -> Seq<char> {
    "can_view_permission_table"@
}

/// The permission that reading the permission table requires.
pub fn view_permissions_table_permission() -> (r: &'static str)
    ensures
        r@ == permission_table_permission(),
{
    "can_view_permission_table"
}

} // verus!
