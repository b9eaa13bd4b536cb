//! Authority over a family of resources: a default verdict, an allow-list
//! and a deny-list.

use vstd::prelude::*;
use crate::error::{escalation_text, permission_escalation_error, ErrorKind, PermissionError};
use crate::path::FsPath;
use crate::state::PermissionState;

verus! {

/// What a list entry must offer: a view that says which resource it names,
/// a comparison and a copy that go by that view.
pub trait Key: View + Sized {
    fn key_eq(&self, other: &Self) -> (same: bool)
        ensures
            same == (self@ == other@),
    ;

    fn key_clone(&self) -> (copy: Self)
        ensures
            copy@ == self@,
    ;
}

impl Key for String {
    fn key_eq(&self, other: &String) -> (same: bool) {
        *self == *other
    }

    fn key_clone(&self) -> (copy: String) {
        self.clone()
    }
}

impl Key for FsPath {
    fn key_eq(&self, other: &FsPath) -> (same: bool) {
        if self.segments.len() != other.segments.len() {
            assert(self@.len() != other@.len());
            return false;
        }
        let n = self.segments.len();
        let mut i: usize = 0;
        while i < n
            invariant
                n == self.segments@.len(),
                n == other.segments@.len(),
                i <= n,
                forall|k: int| 0 <= k < i ==> self.segments@[k]@ == other.segments@[k]@,
            decreases n - i,
        {
            if self.segments[i] != other.segments[i] {
                assert(self@[i as int] != other@[i as int]);
                return false;
            }
            i += 1;
        }
        assert(self@ =~= other@);
        true
    }

    fn key_clone(&self) -> (copy: FsPath) {
        let n = self.segments.len();
        let mut segments: Vec<String> = Vec::new();
        let mut i: usize = 0;
        while i < n
            invariant
                n == self.segments@.len(),
                i <= n,
                segments@.len() == i,
                forall|k: int| 0 <= k < i ==> segments@[k]@ == self.segments@[k]@,
            decreases n - i,
        {
            segments.push(self.segments[i].clone());
            i += 1;
        }
        let copy = FsPath { segments };
        assert(copy@ =~= self@);
        copy
    }
}

/// The resources that a list names.
pub open spec fn keys_of<T: Key>(list: Seq<T>) -> Set<T::V> {
    Set::new(|v: T::V| exists|i: int| 0 <= i < list.len() && (#[trigger] list[i])@ == v)
}

/// No resource is named twice.
pub open spec fn distinct<T: Key>(list: Seq<T>) -> bool {
    forall|i: int, j: int| 0 <= i < j < list.len() ==> (#[trigger] list[i])@ != (#[trigger] list[j])@
}

pub proof fn lemma_keys_empty<T: Key>(list: Seq<T>)
    requires
        list.len() == 0,
    ensures
        keys_of(list) == Set::<T::V>::empty(),
{
    assert(keys_of(list) =~= Set::<T::V>::empty());
}

pub proof fn lemma_keys_push<T: Key>(list: Seq<T>, key: T)
    ensures
        keys_of(list.push(key)) == keys_of(list).insert(key@),
{
    let longer = list.push(key);
    assert forall|v: T::V| keys_of(longer).contains(v) <==> keys_of(list).insert(key@).contains(
        v,
    ) by {
        if keys_of(longer).contains(v) {
            let i = choose|i: int| 0 <= i < longer.len() && (#[trigger] longer[i])@ == v;
            if i < list.len() {
                assert(list[i]@ == v);
            }
        }
        if keys_of(list).contains(v) {
            let i = choose|i: int| 0 <= i < list.len() && (#[trigger] list[i])@ == v;
            assert(longer[i]@ == v);
        }
        if v == key@ {
            assert(longer[list.len() as int]@ == v);
        }
    }
    assert(keys_of(longer) =~= keys_of(list).insert(key@));
}

/// Whether `list` names the resource of `key`.
pub fn list_contains<T: Key>(list: &Vec<T>, key: &T) -> (found: bool)
    ensures
        found == keys_of(list@).contains(key@),
{
    let n = list.len();
    let mut i: usize = 0;
    while i < n
        invariant
            n == list@.len(),
            i <= n,
            forall|k: int| 0 <= k < i ==> (#[trigger] list@[k])@ != key@,
        decreases n - i,
    {
        if list[i].key_eq(key) {
            assert(list@[i as int]@ == key@);
            return true;
        }
        i += 1;
    }
    false
}

/// Whether every resource of `inner` is one of `outer`.
pub fn list_is_subset<T: Key>(inner: &Vec<T>, outer: &Vec<T>) -> (within: bool)
    ensures
        within == keys_of(inner@).subset_of(keys_of(outer@)),
{
    let n = inner.len();
    let mut i: usize = 0;
    while i < n
        invariant
            n == inner@.len(),
            i <= n,
            forall|k: int| 0 <= k < i ==> keys_of(outer@).contains((#[trigger] inner@[k])@),
        decreases n - i,
    {
        if !list_contains(outer, &inner[i]) {
            assert(keys_of(inner@).contains(inner@[i as int]@));
            return false;
        }
        i += 1;
    }
    true
}

/// Add `key` unless the list names its resource already.
pub fn list_insert<T: Key>(list: &mut Vec<T>, key: T)
    ensures
        keys_of(final(list)@) == keys_of(old(list)@).insert(key@),
        distinct(old(list)@) ==> distinct(final(list)@),
{
    if !list_contains(list, &key) {
        proof {
            lemma_keys_push(list@, key);
        }
        list.push(key);
    } else {
        assert(keys_of(list@) =~= keys_of(list@).insert(key@));
    }
}

/// The entries of `list` that are marked, in their order. `keep` says in
/// terms of resources what the marks say entry by entry.
pub(crate) fn keep_marked<T: Key>(
    list: &Vec<T>,
    marks: &Vec<bool>,
    Ghost(keep): Ghost<spec_fn(T::V) -> bool>,
) -> (kept: Vec<T>)
    requires
        marks@.len() == list@.len(),
        forall|k: int| 0 <= k < list@.len() ==> marks@[k] == keep((#[trigger] list@[k])@),
    ensures
        keys_of(kept@) == keys_of(list@).filter(keep),
        distinct(list@) ==> distinct(kept@),
{
    let n = list.len();
    let mut kept: Vec<T> = Vec::new();
    let mut i: usize = 0;
    while i < n
        invariant
            n == list@.len(),
            n == marks@.len(),
            i <= n,
            forall|k: int| 0 <= k < list@.len() ==> marks@[k] == keep((#[trigger] list@[k])@),
            forall|a: int|
                0 <= a < kept@.len() ==> keep((#[trigger] kept@[a])@) && keys_of(
                    list@.subrange(0, i as int),
                ).contains(kept@[a]@),
            forall|k: int|
                0 <= k < i && keep((#[trigger] list@[k])@) ==> keys_of(kept@).contains(list@[k]@),
            distinct(list@) ==> distinct(kept@),
        decreases n - i,
    {
        proof {
            lemma_keys_push(list@.subrange(0, i as int), list@[i as int]);
            assert(list@.subrange(0, i as int).push(list@[i as int]) =~= list@.subrange(
                0,
                i + 1,
            ));
        }
        if marks[i] {
            let copy = list[i].key_clone();
            proof {
                lemma_keys_push(kept@, copy);
                if distinct(list@) {
                    let head = list@.subrange(0, i as int);
                    assert forall|a: int| 0 <= a < kept@.len() implies (#[trigger] kept@[a])@
                        != copy@ by {
                        let k = choose|k: int|
                            0 <= k < head.len() && (#[trigger] head[k])@ == kept@[a]@;
                        assert(list@[k]@ != list@[i as int]@);
                    }
                }
                assert(keep(list@[i as int]@));
            }
            kept.push(copy);
        }
        i += 1;
    }
    proof {
        assert forall|v: T::V| keys_of(kept@).contains(v) <==> keys_of(list@).filter(
            keep,
        ).contains(v) by {
            assert(list@.subrange(0, n as int) =~= list@);
            if keys_of(kept@).contains(v) {
                let a = choose|a: int| 0 <= a < kept@.len() && (#[trigger] kept@[a])@ == v;
                assert(keys_of(list@).contains(kept@[a]@));
            }
            if keys_of(list@).filter(keep).contains(v) {
                let k = choose|k: int| 0 <= k < n && (#[trigger] list@[k])@ == v;
                assert(keys_of(kept@).contains(list@[k]@));
            }
        }
        assert(keys_of(kept@) =~= keys_of(list@).filter(keep));
    }
    kept
}

/// The entries of `list` that do not name the resource of `key`.
pub fn list_without<T: Key>(list: &Vec<T>, key: &T) -> (kept: Vec<T>)
    ensures
        keys_of(kept@) == keys_of(list@).remove(key@),
        distinct(list@) ==> distinct(kept@),
{
    let n = list.len();
    let mut marks: Vec<bool> = Vec::new();
    let mut i: usize = 0;
    while i < n
        invariant
            n == list@.len(),
            i <= n,
            marks@.len() == i,
            forall|k: int| 0 <= k < i ==> marks@[k] == ((#[trigger] list@[k])@ != key@),
        decreases n - i,
    {
        marks.push(!list[i].key_eq(key));
        i += 1;
    }
    let ghost keep = |v: T::V| v != key@;
    let kept = keep_marked(list, &marks, Ghost(keep));
    assert(keys_of(list@).filter(keep) =~= keys_of(list@).remove(key@));
    kept
}

/// The state of a unary permission: the default verdict and the two sets.
#[verifier::reject_recursive_types(K)]
pub struct UnaryModel<K> {
    pub global: PermissionState,
    pub granted: Set<K>,
    pub denied: Set<K>,
}

/// Authority over a family of resources keyed by `T`.
#[derive(Clone, Debug)]
pub struct UnaryPermission<T> {
    /// The verdict where no list decides.
    pub global_state: PermissionState,
    /// Explicit grants.
    pub granted_list: Vec<T>,
    /// Explicit denials.
    pub denied_list: Vec<T>,
}

impl<T: Key> View for UnaryPermission<T> {
    type V = UnaryModel<T::V>;

    open spec fn view(&self) -> UnaryModel<T::V> {
        UnaryModel {
            global: self.global_state,
            granted: keys_of(self.granted_list@),
            denied: keys_of(self.denied_list@),
        }
    }
}

/// Whether a parent may hand `child` to a fork: the default verdict is
/// covered, the child grants nothing more and denies nothing less.
pub open spec fn unary_covers<K>(parent: UnaryModel<K>, child: UnaryModel<K>) -> bool {
    &&& parent.global.covers(child.global)
    &&& child.granted.subset_of(parent.granted)
    &&& parent.denied.subset_of(child.denied)
}

impl<T: Key> UnaryPermission<T> {
    /// Both lists are sets: neither names a resource twice.
    pub open spec fn wf(&self) -> bool {
        distinct(self.granted_list@) && distinct(self.denied_list@)
    }

    /// A permission with the given default verdict and empty lists.
    pub fn with_state(global_state: PermissionState) -> (perm: UnaryPermission<T>)
        ensures
            perm@ == (UnaryModel::<T::V> {
                global: global_state,
                granted: Set::empty(),
                denied: Set::empty(),
            }),
            perm.wf(),
    {
        let perm = UnaryPermission { global_state, granted_list: Vec::new(), denied_list: Vec::new() };
        proof {
            lemma_keys_empty(perm.granted_list@);
            lemma_keys_empty(perm.denied_list@);
        }
        perm
    }

    /// Check that the permissions represented by `other` don't escalate ours.
    pub fn check_fork(&self, other: &UnaryPermission<T>) -> (res: Result<(), PermissionError>)
        ensures
            res.is_ok() <==> unary_covers(self@, other@),
            res matches Err(e) ==> e.kind == ErrorKind::PermissionDenied && e.message@
                == escalation_text(),
    {
        match self.global_state.check_fork(&other.global_state) {
            Err(e) => {
                return Err(e);
            },
            Ok(()) => {},
        }
        if !list_is_subset(&other.granted_list, &self.granted_list) {
            return Err(permission_escalation_error());
        }
        if !list_is_subset(&self.denied_list, &other.denied_list) {
            return Err(permission_escalation_error());
        }
        Ok(())
    }

    /// A copy that names the same resources.
    pub fn duplicate(&self) -> (copy: UnaryPermission<T>)
        ensures
            copy@ == self@,
            self.wf() ==> copy.wf(),
    {
        let granted_list = copy_list(&self.granted_list);
        let denied_list = copy_list(&self.denied_list);
        UnaryPermission { global_state: self.global_state, granted_list, denied_list }
    }

    /// Whether both permissions hold the same verdict and the same sets.
    pub fn same_as(&self, other: &UnaryPermission<T>) -> (same: bool)
        ensures
            same == (self@ == other@),
    {
        let same = self.global_state == other.global_state && list_is_subset(
            &self.granted_list,
            &other.granted_list,
        ) && list_is_subset(&other.granted_list, &self.granted_list) && list_is_subset(
            &self.denied_list,
            &other.denied_list,
        ) && list_is_subset(&other.denied_list, &self.denied_list);
        proof {
            if same {
                assert(self@.granted =~= other@.granted);
                assert(self@.denied =~= other@.denied);
            }
        }
        same
    }
}

/// A copy of `list`, entry by entry.
pub fn copy_list<T: Key>(list: &Vec<T>) -> (copy: Vec<T>)
    ensures
        copy@.len() == list@.len(),
        forall|k: int| 0 <= k < list@.len() ==> (#[trigger] copy@[k])@ == list@[k]@,
        keys_of(copy@) == keys_of(list@),
        distinct(list@) ==> distinct(copy@),
{
    let n = list.len();
    let mut copy: Vec<T> = Vec::new();
    let mut i: usize = 0;
    while i < n
        invariant
            n == list@.len(),
            i <= n,
            copy@.len() == i,
            forall|k: int| 0 <= k < i ==> (#[trigger] copy@[k])@ == list@[k]@,
        decreases n - i,
    {
        copy.push(list[i].key_clone());
        i += 1;
    }
    proof {
        assert forall|v: T::V| keys_of(copy@).contains(v) <==> keys_of(list@).contains(v) by {
            if keys_of(copy@).contains(v) {
                let k = choose|k: int| 0 <= k < copy@.len() && (#[trigger] copy@[k])@ == v;
                assert(list@[k]@ == v);
            }
            if keys_of(list@).contains(v) {
                let k = choose|k: int| 0 <= k < list@.len() && (#[trigger] list@[k])@ == v;
                assert(copy@[k]@ == v);
            }
        }
        assert(keys_of(copy@) =~= keys_of(list@));
    }
    copy
}

impl<T: Key> Default for UnaryPermission<T> {
    fn default() -> (perm: UnaryPermission<T>)
        ensures
            perm@ == (UnaryModel::<T::V> {
                global: PermissionState::Prompt,
                granted: Set::empty(),
                denied: Set::empty(),
            }),
            perm.wf(),
    {
        UnaryPermission::with_state(PermissionState::Prompt)
    }
}

} // verus!
