//! `==` on paths, unary permissions and permissions: equality of what they
//! stand for. The order and the repeats of a list do not count.

use vstd::prelude::*;
use vstd::std_specs::cmp::PartialEqSpecImpl;
use crate::path::FsPath;
use crate::perms::Permissions;
use crate::unary::{Key, UnaryPermission};

verus! {

impl PartialEq for FsPath {
    fn eq(&self, other: &FsPath) -> (same: bool) {
        self.key_eq(other)
    }
}

impl PartialEqSpecImpl for FsPath {
    open spec fn obeys_eq_spec() -> bool {
        true
    }

    open spec fn eq_spec(&self, other: &FsPath) -> bool {
        self@ == other@
    }
}

impl<T: Key> PartialEq for UnaryPermission<T> {
    fn eq(&self, other: &UnaryPermission<T>) -> (same: bool) {
        self.same_as(other)
    }
}

impl<T: Key> PartialEqSpecImpl for UnaryPermission<T> {
    open spec fn obeys_eq_spec() -> bool {
        true
    }

    open spec fn eq_spec(&self, other: &UnaryPermission<T>) -> bool {
        self@ == other@
    }
}

impl PartialEq for Permissions {
    fn eq(&self, other: &Permissions) -> (same: bool) {
        self.same_as(other)
    }
}

impl PartialEqSpecImpl for Permissions {
    open spec fn obeys_eq_spec() -> bool {
        true
    }

    open spec fn eq_spec(&self, other: &Permissions) -> bool {
        self@ == other@
    }
}

} // verus!
