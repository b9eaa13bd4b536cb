//! What holds of the engine as a whole, proved from the rules.

use vstd::prelude::*;
use crate::net::host_hit;
use crate::path::{
    is_absolute, is_resolved, is_under, lemma_resolved_is_resolved, lemma_resolved_of_rendered,
    rendered, resolved, PathView,
};
use crate::perms::{path_target, Permissions, PermissionsModel};
use crate::rules::{
    allow_hit, block_hit, net_revoked, net_verdict, path_allowed, path_denying, path_granting,
    path_refused, path_requested, path_revoked, path_verdict,
};
use crate::state::PermissionState;
use crate::unary::UnaryModel;

verus! {

/// Every path is under itself.
pub proof fn law_under_reflexive(p: PathView)
    ensures
        is_under(p, p),
{
    assert(p.subrange(0, p.len() as int) =~= p);
}

/// What lies under a path lies under everything above that path.
pub proof fn law_under_transitive(q: PathView, p: PathView, a: PathView)
    requires
        is_under(q, p),
        is_under(p, a),
    ensures
        is_under(q, a),
{
    assert(q.subrange(0, a.len() as int) =~= q.subrange(0, p.len() as int).subrange(
        0,
        a.len() as int,
    ));
}

/// Two paths that lie under each other are one path.
pub proof fn law_under_antisymmetric(p: PathView, q: PathView)
    requires
        is_under(p, q),
        is_under(q, p),
    ensures
        p == q,
{
    assert(p.subrange(0, q.len() as int) =~= p);
}

/// Resolving is idempotent: a resolved path, written out and resolved again
/// from any working directory, is the same path. What the lists hold and
/// what a failure shows can be fed back without loss.
pub proof fn law_resolution_is_idempotent(cwd: PathView, text: Seq<char>, other: PathView)
    requires
        is_resolved(cwd),
    ensures
        is_resolved(resolved(cwd, text)),
        is_absolute(rendered(resolved(cwd, text))),
        resolved(other, rendered(resolved(cwd, text))) == resolved(cwd, text),
{
    lemma_resolved_is_resolved(cwd, text);
    lemma_resolved_of_rendered(other, resolved(cwd, text));
}

/// A query sees only the resolved form of its target: two texts that
/// resolve alike get the same verdict.
pub proof fn law_query_by_resolved_form(
    perm: UnaryModel<PathView>,
    cwd: PathView,
    first: &str,
    second: &str,
)
    requires
        resolved(cwd, first@) == resolved(cwd, second@),
    ensures
        path_verdict(perm, path_target(Some(first), cwd)) == path_verdict(
            perm,
            path_target(Some(second), cwd),
        ),
{
}

/// A query gives exactly one of the three verdicts, each under its own
/// rule: `Denied` where the first rule holds, `Granted` where it does not
/// and the second holds, `Prompt` where neither holds.
pub proof fn law_verdict_three_way(perm: UnaryModel<PathView>, target: Option<PathView>)
    ensures
        path_verdict(perm, target) == PermissionState::Denied <==> path_refused(perm, target),
        path_verdict(perm, target) == PermissionState::Granted <==> !path_refused(perm, target)
            && path_allowed(perm, target),
        path_verdict(perm, target) == PermissionState::Prompt <==> !path_refused(perm, target)
            && !path_allowed(perm, target),
{
}

/// The same for the network: exactly one verdict, each under its own rule.
pub proof fn law_net_verdict_three_way(
    perm: UnaryModel<Seq<char>>,
    host: Seq<char>,
    port: Option<u16>,
)
    ensures
        net_verdict(perm, host, port) == PermissionState::Denied <==> perm.global
            == PermissionState::Denied && host_hit(perm.denied, host, port),
        net_verdict(perm, host, port) == PermissionState::Granted <==> !(perm.global
            == PermissionState::Denied && host_hit(perm.denied, host, port)) && (perm.global
            == PermissionState::Granted || host_hit(perm.granted, host, port)),
        net_verdict(perm, host, port) == PermissionState::Prompt <==> !(perm.global
            == PermissionState::Denied && host_hit(perm.denied, host, port)) && !(perm.global
            == PermissionState::Granted || host_hit(perm.granted, host, port)),
{
}

/// Once a request for `p` has returned `Granted`, every path under `p` is
/// granted, whatever the operator answered or was not asked.
pub proof fn law_granted_request_covers_below(
    perm: UnaryModel<PathView>,
    p: PathView,
    q: PathView,
    answer: bool,
)
    requires
        path_verdict(perm, Some(p)).requested(answer) == PermissionState::Granted,
        is_under(q, p),
    ensures
        path_verdict(path_requested(perm, Some(p), answer), Some(q)) == PermissionState::Granted,
{
    let after = path_requested(perm, Some(p), answer);
    if block_hit(after.denied, q) {
        let d = choose|d: PathView| #[trigger] after.denied.contains(d) && is_under(d, q);
        law_under_transitive(d, q, p);
        assert(block_hit(perm.denied, p));
    }
    if path_verdict(perm, Some(p)) == PermissionState::Prompt {
        law_under_reflexive(p);
        assert(after.granted.contains(p));
        assert(allow_hit(after.granted, q));
    } else if perm.global != PermissionState::Granted {
        let a = choose|a: PathView| #[trigger] perm.granted.contains(a) && is_under(p, a);
        law_under_transitive(q, p, a);
        assert(allow_hit(after.granted, q));
    }
}

/// Once a request for `p` has returned `Denied`, the default verdict is
/// `Denied` and `p` stays denied.
pub proof fn law_denied_request_stays_denied(perm: UnaryModel<PathView>, p: PathView, answer: bool)
    requires
        path_verdict(perm, Some(p)).requested(answer) == PermissionState::Denied,
    ensures
        path_requested(perm, Some(p), answer).global == PermissionState::Denied,
        path_verdict(path_requested(perm, Some(p), answer), Some(p)) == PermissionState::Denied,
{
    let after = path_requested(perm, Some(p), answer);
    if path_verdict(perm, Some(p)) == PermissionState::Prompt {
        law_under_reflexive(p);
        assert(after.denied.contains(p));
        assert(block_hit(after.denied, p));
    }
}

/// A request returns the verdict that its target has afterwards, and a
/// second request for the same target changes nothing.
pub proof fn law_request_settles(
    perm: UnaryModel<PathView>,
    target: Option<PathView>,
    answer: bool,
    again: bool,
)
    ensures
        path_verdict(path_requested(perm, target, answer), target) == path_verdict(
            perm,
            target,
        ).requested(answer),
        path_requested(path_requested(perm, target, answer), target, again) == path_requested(
            perm,
            target,
            answer,
        ),
{
    let after = path_requested(perm, target, answer);
    if path_verdict(perm, target) == PermissionState::Prompt {
        match target {
            Some(p) => {
                law_under_reflexive(p);
                if answer {
                    assert(after.granted.contains(p));
                    assert(allow_hit(after.granted, p));
                } else {
                    assert(after.denied.contains(p));
                    assert(block_hit(after.denied, p));
                }
            },
            None => {},
        }
    }
}

/// After a grant of `p` the allow-list holds nothing strictly below `p`,
/// and after a denial of `p` the deny-list holds nothing strictly above it.
pub proof fn law_lists_are_pruned(perm: UnaryModel<PathView>, p: PathView)
    ensures
        forall|g: PathView| #[trigger]
            path_granting(perm, p).granted.contains(g) && is_under(g, p) ==> g == p,
        forall|d: PathView| #[trigger]
            path_denying(perm, p).denied.contains(d) && is_under(p, d) ==> d == p,
        path_granting(perm, p).granted.contains(p),
        path_denying(perm, p).denied.contains(p),
{
}

/// A revoke never moves a state toward `Granted`.
pub proof fn law_revoke_state_monotone(state: PermissionState)
    ensures
        state.revoked().code() >= state.code(),
        state.revoked() != PermissionState::Granted,
{
}

/// A revoke on paths never moves anything toward `Granted`: not the
/// default verdict, not the allow-list, and not the verdict on any target.
pub proof fn law_revoke_path_monotone(
    perm: UnaryModel<PathView>,
    target: Option<PathView>,
    asked: Option<PathView>,
)
    ensures
        path_revoked(perm, target).global.code() >= perm.global.code(),
        path_revoked(perm, target).granted.subset_of(perm.granted),
        path_revoked(perm, target).denied == perm.denied,
        path_verdict(path_revoked(perm, target), asked).code() >= path_verdict(
            perm,
            asked,
        ).code(),
{
    let after = path_revoked(perm, target);
    if let Some(q) = asked {
        if allow_hit(after.granted, q) {
            let a = choose|a: PathView| #[trigger] after.granted.contains(a) && is_under(q, a);
            assert(perm.granted.contains(a));
            assert(allow_hit(perm.granted, q));
        }
    }
}

/// A revoke on the network never moves anything toward `Granted`.
pub proof fn law_revoke_net_monotone(
    perm: UnaryModel<Seq<char>>,
    entry: Option<Seq<char>>,
    host: Seq<char>,
    port: Option<u16>,
)
    ensures
        net_revoked(perm, entry).global.code() >= perm.global.code(),
        net_revoked(perm, entry).granted.subset_of(perm.granted),
        net_revoked(perm, entry).denied == perm.denied,
        net_verdict(net_revoked(perm, entry), host, port).code() >= net_verdict(
            perm,
            host,
            port,
        ).code(),
{
}

/// Every context may fork a child with its own permissions.
pub proof fn law_fork_reflexive(perms: PermissionsModel)
    ensures
        Permissions::covers(perms, perms),
{
}

/// A child's child could have been forked by the parent itself.
pub proof fn law_fork_transitive(
    parent: PermissionsModel,
    child: PermissionsModel,
    grandchild: PermissionsModel,
)
    requires
        Permissions::covers(parent, child),
        Permissions::covers(child, grandchild),
    ensures
        Permissions::covers(parent, grandchild),
{
}

/// Two contexts that may fork each other hold the same permissions.
pub proof fn law_fork_antisymmetric(first: PermissionsModel, second: PermissionsModel)
    requires
        Permissions::covers(first, second),
        Permissions::covers(second, first),
    ensures
        first == second,
{
    assert(first.read.granted =~= second.read.granted);
    assert(first.read.denied =~= second.read.denied);
    assert(first.write.granted =~= second.write.granted);
    assert(first.write.denied =~= second.write.denied);
    assert(first.net.granted =~= second.net.granted);
    assert(first.net.denied =~= second.net.denied);
}

} // verus!
