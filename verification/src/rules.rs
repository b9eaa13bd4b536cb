//! The resolution rules: how a target is held against the lists and the
//! default verdict, and what a request or a revoke makes of a permission.

use vstd::prelude::*;
use crate::net::host_hit;
use crate::path::{is_resolved, is_under, FsPath, PathView};
use crate::state::PermissionState;
use crate::unary::{distinct, keep_marked, keys_of, UnaryModel};

verus! {

/// Whether every path of a list is resolved.
pub open spec fn all_resolved(list: Set<PathView>) -> bool {
    forall|p: PathView| #[trigger] list.contains(p) ==> is_resolved(p)
}

/// An allow-list hit: some entry is the target or lies above it.
pub open spec fn allow_hit(list: Set<PathView>, target: PathView) -> bool {
    exists|a: PathView| #[trigger] list.contains(a) && is_under(target, a)
}

/// A deny-list hit: some entry is the target or lies below it, so that
/// access to the target would reach it.
pub open spec fn block_hit(list: Set<PathView>, target: PathView) -> bool {
    exists|d: PathView| #[trigger] list.contains(d) && is_under(d, target)
}

/// The first rule: the default is `Denied`, and the deny-list hits or no
/// target was given.
pub open spec fn path_refused(perm: UnaryModel<PathView>, target: Option<PathView>) -> bool {
    perm.global == PermissionState::Denied && match target {
        None => true,
        Some(p) => block_hit(perm.denied, p),
    }
}

/// The second rule: the default is `Granted`, or the allow-list hits.
pub open spec fn path_allowed(perm: UnaryModel<PathView>, target: Option<PathView>) -> bool {
    perm.global == PermissionState::Granted || match target {
        None => false,
        Some(p) => allow_hit(perm.granted, p),
    }
}

/// The verdict on a path, or on the whole resource class where no target is
/// given.
pub open spec fn path_verdict(perm: UnaryModel<PathView>, target: Option<PathView>)
    -> PermissionState {
    if path_refused(perm, target) {
        PermissionState::Denied
    } else if path_allowed(perm, target) {
        PermissionState::Granted
    } else {
        PermissionState::Prompt
    }
}

/// The verdict on a host with an optional port.
pub open spec fn net_verdict(perm: UnaryModel<Seq<char>>, host: Seq<char>, port: Option<u16>)
    -> PermissionState {
    if perm.global == PermissionState::Denied && host_hit(perm.denied, host, port) {
        PermissionState::Denied
    } else if perm.global == PermissionState::Granted || host_hit(perm.granted, host, port) {
        PermissionState::Granted
    } else {
        PermissionState::Prompt
    }
}

/// A grant of `p`: the grants below `p` go, `p` comes in.
pub open spec fn path_granting(perm: UnaryModel<PathView>, p: PathView) -> UnaryModel<PathView> {
    UnaryModel {
        global: perm.global,
        granted: perm.granted.filter(|g: PathView| !is_under(g, p)).insert(p),
        denied: perm.denied,
    }
}

/// A denial of `p`: the denials above `p` go, `p` comes in, and the default
/// becomes `Denied`.
pub open spec fn path_denying(perm: UnaryModel<PathView>, p: PathView) -> UnaryModel<PathView> {
    UnaryModel {
        global: PermissionState::Denied,
        granted: perm.granted,
        denied: perm.denied.filter(|d: PathView| !is_under(p, d)).insert(p),
    }
}

/// A grant of the whole class: the default becomes `Granted` and the
/// allow-list, now redundant, is cleared.
pub open spec fn class_granting<K>(perm: UnaryModel<K>) -> UnaryModel<K> {
    UnaryModel { global: PermissionState::Granted, granted: Set::empty(), denied: perm.denied }
}

/// A denial of the whole class: the default becomes `Denied`.
pub open spec fn class_denying<K>(perm: UnaryModel<K>) -> UnaryModel<K> {
    UnaryModel { global: PermissionState::Denied, granted: perm.granted, denied: perm.denied }
}

/// What an answered prompt makes of a path permission.
pub open spec fn path_answered(
    perm: UnaryModel<PathView>,
    target: Option<PathView>,
    answer: bool,
) -> UnaryModel<PathView> {
    match target {
        Some(p) => if answer {
            path_granting(perm, p)
        } else {
            path_denying(perm, p)
        },
        None => if answer {
            class_granting(perm)
        } else {
            class_denying(perm)
        },
    }
}

/// The permission after a request: unchanged unless the verdict is
/// `Prompt`, and then what the operator's answer makes of it.
pub open spec fn path_requested(
    perm: UnaryModel<PathView>,
    target: Option<PathView>,
    answer: bool,
) -> UnaryModel<PathView> {
    if path_verdict(perm, target) == PermissionState::Prompt {
        path_answered(perm, target, answer)
    } else {
        perm
    }
}

/// The permission after a revoke: the grants at or below the target go;
/// without a target all grants go and a `Granted` default falls to `Prompt`.
pub open spec fn path_revoked(perm: UnaryModel<PathView>, target: Option<PathView>) -> UnaryModel<
    PathView,
> {
    match target {
        Some(p) => UnaryModel {
            global: perm.global,
            granted: perm.granted.filter(|g: PathView| !is_under(g, p)),
            denied: perm.denied,
        },
        None => UnaryModel {
            global: perm.global.revoked(),
            granted: Set::empty(),
            denied: perm.denied,
        },
    }
}

/// What an answered prompt makes of the network permission: the entry is
/// the target as the caller wrote it.
pub open spec fn net_answered(perm: UnaryModel<Seq<char>>, entry: Option<Seq<char>>, answer: bool)
    -> UnaryModel<Seq<char>> {
    match entry {
        Some(text) => if answer {
            UnaryModel {
                global: perm.global,
                granted: perm.granted.insert(text),
                denied: perm.denied,
            }
        } else {
            UnaryModel {
                global: PermissionState::Denied,
                granted: perm.granted,
                denied: perm.denied.insert(text),
            }
        },
        None => if answer {
            class_granting(perm)
        } else {
            class_denying(perm)
        },
    }
}

/// The network permission after a revoke: the entry goes; without a target
/// all grants go and a `Granted` default falls to `Prompt`.
pub open spec fn net_revoked(perm: UnaryModel<Seq<char>>, entry: Option<Seq<char>>) -> UnaryModel<
    Seq<char>,
> {
    match entry {
        Some(text) => UnaryModel {
            global: perm.global,
            granted: perm.granted.remove(text),
            denied: perm.denied,
        },
        None => UnaryModel {
            global: perm.global.revoked(),
            granted: Set::empty(),
            denied: perm.denied,
        },
    }
}

/// Whether `allowlist` holds `path` or a directory above it.
pub fn check_path_allowlist(path: &FsPath, allowlist: &Vec<FsPath>) -> (hit: bool)
    ensures
        hit == allow_hit(keys_of(allowlist@), path@),
{
    let n = allowlist.len();
    let mut i: usize = 0;
    while i < n
        invariant
            n == allowlist@.len(),
            i <= n,
            forall|k: int| 0 <= k < i ==> !is_under(path@, (#[trigger] allowlist@[k])@),
        decreases n - i,
    {
        if path.starts_with(&allowlist[i]) {
            assert(keys_of(allowlist@).contains(allowlist@[i as int]@));
            return true;
        }
        i += 1;
    }
    proof {
        if allow_hit(keys_of(allowlist@), path@) {
            let a = choose|a: PathView|
                #[trigger] keys_of(allowlist@).contains(a) && is_under(path@, a);
            let k = choose|k: int| 0 <= k < n && (#[trigger] allowlist@[k])@ == a;
            assert(!is_under(path@, allowlist@[k]@));
        }
    }
    false
}

/// Whether `blocklist` holds `path` or an entry below it.
pub fn check_path_blocklist(path: &FsPath, blocklist: &Vec<FsPath>) -> (hit: bool)
    ensures
        hit == block_hit(keys_of(blocklist@), path@),
{
    let n = blocklist.len();
    let mut i: usize = 0;
    while i < n
        invariant
            n == blocklist@.len(),
            i <= n,
            forall|k: int| 0 <= k < i ==> !is_under((#[trigger] blocklist@[k])@, path@),
        decreases n - i,
    {
        if blocklist[i].starts_with(path) {
            assert(keys_of(blocklist@).contains(blocklist@[i as int]@));
            return true;
        }
        i += 1;
    }
    proof {
        if block_hit(keys_of(blocklist@), path@) {
            let d = choose|d: PathView|
                #[trigger] keys_of(blocklist@).contains(d) && is_under(d, path@);
            let k = choose|k: int| 0 <= k < n && (#[trigger] blocklist@[k])@ == d;
            assert(!is_under(blocklist@[k]@, path@));
        }
    }
    false
}

/// The entries of `list` that are neither `base` nor below it.
pub fn retain_outside(list: &Vec<FsPath>, base: &FsPath) -> (kept: Vec<FsPath>)
    ensures
        keys_of(kept@) == keys_of(list@).filter(|g: PathView| !is_under(g, base@)),
        distinct(list@) ==> distinct(kept@),
{
    let n = list.len();
    let mut marks: Vec<bool> = Vec::new();
    let mut i: usize = 0;
    while i < n
        invariant
            n == list@.len(),
            i <= n,
            marks@.len() == i,
            forall|k: int| 0 <= k < i ==> marks@[k] == !is_under((#[trigger] list@[k])@, base@),
        decreases n - i,
    {
        marks.push(!list[i].starts_with(base));
        i += 1;
    }
    keep_marked(list, &marks, Ghost(|g: PathView| !is_under(g, base@)))
}

/// The entries of `list` that are neither `path` nor above it.
pub fn retain_not_above(list: &Vec<FsPath>, path: &FsPath) -> (kept: Vec<FsPath>)
    ensures
        keys_of(kept@) == keys_of(list@).filter(|d: PathView| !is_under(path@, d)),
        distinct(list@) ==> distinct(kept@),
{
    let n = list.len();
    let mut marks: Vec<bool> = Vec::new();
    let mut i: usize = 0;
    while i < n
        invariant
            n == list@.len(),
            i <= n,
            marks@.len() == i,
            forall|k: int| 0 <= k < i ==> marks@[k] == !is_under(path@, (#[trigger] list@[k])@),
        decreases n - i,
    {
        marks.push(!path.starts_with(&list[i]));
        i += 1;
    }
    keep_marked(list, &marks, Ghost(|d: PathView| !is_under(path@, d)))
}

} // verus!
