//! The permissions of one execution context: seven resource classes and the
//! verbs over them.

use vstd::prelude::*;
use vstd::std_specs::convert::FromSpec;
use crate::path::{is_resolved, resolve_from_cwd, resolved, FsPath, PathView};
use crate::rules::all_resolved;
use crate::state::PermissionState;
use crate::unary::{
    distinct, keys_of, lemma_keys_empty, lemma_keys_push, list_insert, UnaryModel,
    UnaryPermission,
};

verus! {

/// What the command line says of permissions.
#[derive(Clone, Debug)]
pub struct Flags {
    pub allow_env: bool,
    pub allow_hrtime: bool,
    pub allow_net: bool,
    pub allow_plugin: bool,
    pub allow_read: bool,
    pub allow_run: bool,
    pub allow_write: bool,
    /// Hosts, or hosts with ports, kept as written.
    pub net_allowlist: Vec<String>,
    /// Paths, resolved when the permissions are made.
    pub read_allowlist: Vec<String>,
    /// Paths, resolved when the permissions are made.
    pub write_allowlist: Vec<String>,
}

impl Default for Flags {
    fn default() -> (flags: Flags)
        ensures
            !flags.allow_env && !flags.allow_hrtime && !flags.allow_net && !flags.allow_plugin
                && !flags.allow_read && !flags.allow_run && !flags.allow_write,
            flags.net_allowlist@.len() == 0,
            flags.read_allowlist@.len() == 0,
            flags.write_allowlist@.len() == 0,
    {
        Flags {
            allow_env: false,
            allow_hrtime: false,
            allow_net: false,
            allow_plugin: false,
            allow_read: false,
            allow_run: false,
            allow_write: false,
            net_allowlist: Vec::new(),
            read_allowlist: Vec::new(),
            write_allowlist: Vec::new(),
        }
    }
}

/// The permissions of one execution context.
#[derive(Clone, Debug)]
pub struct Permissions {
    pub read: UnaryPermission<FsPath>,
    pub write: UnaryPermission<FsPath>,
    pub net: UnaryPermission<String>,
    pub env: PermissionState,
    pub run: PermissionState,
    pub plugin: PermissionState,
    pub hrtime: PermissionState,
}

/// The state of a `Permissions` value.
pub struct PermissionsModel {
    pub read: UnaryModel<PathView>,
    pub write: UnaryModel<PathView>,
    pub net: UnaryModel<Seq<char>>,
    pub env: PermissionState,
    pub run: PermissionState,
    pub plugin: PermissionState,
    pub hrtime: PermissionState,
}

impl View for Permissions {
    type V = PermissionsModel;

    open spec fn view(&self) -> PermissionsModel {
        PermissionsModel {
            read: self.read@,
            write: self.write@,
            net: self.net@,
            env: self.env,
            run: self.run,
            plugin: self.plugin,
            hrtime: self.hrtime,
        }
    }
}

/// The state of a unary permission with a default verdict and no entries.
pub open spec fn bare<K>(global: PermissionState) -> UnaryModel<K> {
    UnaryModel { global, granted: Set::empty(), denied: Set::empty() }
}

/// The paths that a list of texts resolves to.
pub open spec fn resolved_set(cwd: PathView, list: Seq<String>) -> Set<PathView> {
    Set::new(|p: PathView| exists|i: int| 0 <= i < list.len() && resolved(cwd, (#[trigger] list[i])@) == p)
}

/// The target of a path verb, resolved.
pub open spec fn path_target(path: Option<&str>, cwd: PathView) -> Option<PathView> {
    match path {
        Some(text) => Some(resolved(cwd, text@)),
        None => None,
    }
}

/// Resolve every path of `allowlist`; a path named twice is kept once.
pub fn resolve_fs_allowlist(allowlist: &Vec<String>, cwd: &FsPath) -> (list: Vec<FsPath>)
    ensures
        keys_of(list@) == resolved_set(cwd@, allowlist@),
        distinct(list@),
        is_resolved(cwd@) ==> all_resolved(keys_of(list@)),
{
    let n = allowlist.len();
    let mut list: Vec<FsPath> = Vec::new();
    let mut i: usize = 0;
    proof {
        lemma_keys_empty(list@);
        assert(resolved_set(cwd@, allowlist@.subrange(0, 0)) =~= Set::<PathView>::empty());
    }
    while i < n
        invariant
            n == allowlist@.len(),
            i <= n,
            keys_of(list@) == resolved_set(cwd@, allowlist@.subrange(0, i as int)),
            distinct(list@),
            is_resolved(cwd@) ==> all_resolved(keys_of(list@)),
        decreases n - i,
    {
        let path = resolve_from_cwd(allowlist[i].as_str(), cwd);
        proof {
            let head = allowlist@.subrange(0, i as int);
            let next = allowlist@.subrange(0, i + 1);
            assert forall|p: PathView| resolved_set(cwd@, next).contains(p) <==> resolved_set(
                cwd@,
                head,
            ).insert(path@).contains(p) by {
                if resolved_set(cwd@, next).contains(p) {
                    let k = choose|k: int|
                        0 <= k < next.len() && resolved(cwd@, (#[trigger] next[k])@) == p;
                    if k < i {
                        assert(resolved(cwd@, head[k]@) == p);
                    }
                }
                if resolved_set(cwd@, head).contains(p) {
                    let k = choose|k: int|
                        0 <= k < head.len() && resolved(cwd@, (#[trigger] head[k])@) == p;
                    assert(resolved(cwd@, next[k]@) == p);
                }
                if p == path@ {
                    assert(resolved(cwd@, next[i as int]@) == p);
                }
            }
            assert(resolved_set(cwd@, next) =~= resolved_set(cwd@, head).insert(path@));
        }
        list_insert(&mut list, path);
        i += 1;
    }
    assert(allowlist@.subrange(0, n as int) =~= allowlist@);
    list
}

/// The entries of `list`, each kept once.
pub fn collect_hosts(list: &Vec<String>) -> (hosts: Vec<String>)
    ensures
        keys_of(hosts@) == keys_of(list@),
        distinct(hosts@),
{
    let n = list.len();
    let mut hosts: Vec<String> = Vec::new();
    let mut i: usize = 0;
    proof {
        lemma_keys_empty(hosts@);
        lemma_keys_empty(list@.subrange(0, 0));
    }
    while i < n
        invariant
            n == list@.len(),
            i <= n,
            keys_of(hosts@) == keys_of(list@.subrange(0, i as int)),
            distinct(hosts@),
        decreases n - i,
    {
        proof {
            lemma_keys_push(list@.subrange(0, i as int), list@[i as int]);
            assert(list@.subrange(0, i as int).push(list@[i as int]) =~= list@.subrange(
                0,
                i + 1,
            ));
        }
        list_insert(&mut hosts, list[i].clone());
        i += 1;
    }
    assert(list@.subrange(0, n as int) =~= list@);
    hosts
}

impl Permissions {
    /// Both lists of each unary permission are sets, and every path in them
    /// is resolved.
    pub open spec fn wf(&self) -> bool {
        &&& self.read.wf()
        &&& self.write.wf()
        &&& self.net.wf()
        &&& all_resolved(self@.read.granted)
        &&& all_resolved(self@.read.denied)
        &&& all_resolved(self@.write.granted)
        &&& all_resolved(self@.write.denied)
    }

    /// The permissions that the flags ask for. The deny-lists start empty.
    pub fn from_flags(flags: &Flags, cwd: &FsPath) -> (perms: Permissions)
        ensures
            perms@.read == (UnaryModel::<PathView> {
                global: PermissionState::from_spec(flags.allow_read),
                granted: resolved_set(cwd@, flags.read_allowlist@),
                denied: Set::empty(),
            }),
            perms@.write == (UnaryModel::<PathView> {
                global: PermissionState::from_spec(flags.allow_write),
                granted: resolved_set(cwd@, flags.write_allowlist@),
                denied: Set::empty(),
            }),
            perms@.net == (UnaryModel::<Seq<char>> {
                global: PermissionState::from_spec(flags.allow_net),
                granted: keys_of(flags.net_allowlist@),
                denied: Set::empty(),
            }),
            perms.env == PermissionState::from_spec(flags.allow_env),
            perms.run == PermissionState::from_spec(flags.allow_run),
            perms.plugin == PermissionState::from_spec(flags.allow_plugin),
            perms.hrtime == PermissionState::from_spec(flags.allow_hrtime),
            is_resolved(cwd@) ==> perms.wf(),
    {
        let perms = Permissions {
            read: UnaryPermission {
                global_state: PermissionState::from(flags.allow_read),
                granted_list: resolve_fs_allowlist(&flags.read_allowlist, cwd),
                denied_list: Vec::new(),
            },
            write: UnaryPermission {
                global_state: PermissionState::from(flags.allow_write),
                granted_list: resolve_fs_allowlist(&flags.write_allowlist, cwd),
                denied_list: Vec::new(),
            },
            net: UnaryPermission {
                global_state: PermissionState::from(flags.allow_net),
                granted_list: collect_hosts(&flags.net_allowlist),
                denied_list: Vec::new(),
            },
            env: PermissionState::from(flags.allow_env),
            run: PermissionState::from(flags.allow_run),
            plugin: PermissionState::from(flags.allow_plugin),
            hrtime: PermissionState::from(flags.allow_hrtime),
        };
        proof {
            lemma_keys_empty(perms.read.denied_list@);
            lemma_keys_empty(perms.write.denied_list@);
            lemma_keys_empty(perms.net.denied_list@);
        }
        perms
    }

    /// Every class granted, every list empty.
    pub fn allow_all() -> (perms: Permissions)
        ensures
            perms@.read == bare::<PathView>(PermissionState::Granted),
            perms@.write == bare::<PathView>(PermissionState::Granted),
            perms@.net == bare::<Seq<char>>(PermissionState::Granted),
            perms.env == PermissionState::Granted,
            perms.run == PermissionState::Granted,
            perms.plugin == PermissionState::Granted,
            perms.hrtime == PermissionState::Granted,
            perms.wf(),
    {
        Permissions {
            read: UnaryPermission::with_state(PermissionState::Granted),
            write: UnaryPermission::with_state(PermissionState::Granted),
            net: UnaryPermission::with_state(PermissionState::Granted),
            env: PermissionState::Granted,
            run: PermissionState::Granted,
            plugin: PermissionState::Granted,
            hrtime: PermissionState::Granted,
        }
    }
}

impl Permissions {
    /// A copy that stands for the same permissions.
    pub fn duplicate(&self) -> (copy: Permissions)
        ensures
            copy@ == self@,
            self.wf() ==> copy.wf(),
    {
        Permissions {
            read: self.read.duplicate(),
            write: self.write.duplicate(),
            net: self.net.duplicate(),
            env: self.env,
            run: self.run,
            plugin: self.plugin,
            hrtime: self.hrtime,
        }
    }

    /// Whether both values stand for the same permissions.
    pub fn same_as(&self, other: &Permissions) -> (same: bool)
        ensures
            same == (self@ == other@),
    {
        self.read.same_as(&other.read) && self.write.same_as(&other.write) && self.net.same_as(
            &other.net,
        ) && self.env == other.env && self.run == other.run && self.plugin == other.plugin
            && self.hrtime == other.hrtime
    }
}

impl Default for Permissions {
    fn default() -> (perms: Permissions)
        ensures
            perms@.read == bare::<PathView>(PermissionState::Prompt),
            perms@.write == bare::<PathView>(PermissionState::Prompt),
            perms@.net == bare::<Seq<char>>(PermissionState::Prompt),
            perms.env == PermissionState::Prompt,
            perms.run == PermissionState::Prompt,
            perms.plugin == PermissionState::Prompt,
            perms.hrtime == PermissionState::Prompt,
            perms.wf(),
    {
        Permissions {
            read: UnaryPermission::with_state(PermissionState::Prompt),
            write: UnaryPermission::with_state(PermissionState::Prompt),
            net: UnaryPermission::with_state(PermissionState::Prompt),
            env: PermissionState::Prompt,
            run: PermissionState::Prompt,
            plugin: PermissionState::Prompt,
            hrtime: PermissionState::Prompt,
        }
    }
}

} // verus!
