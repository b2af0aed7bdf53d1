use vstd::prelude::*;

verus! {

/// What a protected route asks of the caller's claims.
#[derive(Debug)]
pub enum Permission {
    /// The claims must carry this role.
    Role(String),
    /// The claims must carry every one of these permissions.
    IndividualPermission(Vec<String>),
    /// No restriction.
    Empty,
}

/// Mathematical model of a [`Permission`].
pub enum PermissionView {
    Role(Seq<char>),
    IndividualPermission(Seq<Seq<char>>),
    Empty,
}

impl View for Permission {
    type V = PermissionView;

    open spec fn view(&self) -> PermissionView {
        match self {
            Permission::Role(role) => PermissionView::Role(role@),
            Permission::IndividualPermission(permissions) => PermissionView::IndividualPermission(
                permissions.deep_view(),
            ),
            Permission::Empty => PermissionView::Empty,
        }
    }
}

} // verus!
