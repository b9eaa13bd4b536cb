//! Query, request, revoke, check and fork.

use vstd::prelude::*;
use vstd::string::*;
use crate::error::{escalation_text, ErrorKind, PermissionError};
use crate::messages::{
    access_message, access_text, blind_read_message, blind_read_text, class_request_message,
    class_request_text, net_access_message, net_access_text, plugin_access_message,
    plugin_access_text, request_message, request_text,
};
use crate::net::{check_host_and_port_list, parsed_url, NetUrl, UrlParts};
use crate::path::{
    is_absolute, is_resolved, lemma_resolved_is_resolved, rendered, resolve_from_cwd, resolved,
    FsPath, PathView,
};
use crate::perms::{path_target, Permissions, PermissionsModel};
use crate::prompt::Prompter;
use crate::rules::{
    all_resolved, check_path_allowlist, check_path_blocklist, net_answered, net_revoked,
    net_verdict, path_answered, path_requested, path_revoked, path_verdict, retain_not_above,
    retain_outside,
};
use crate::state::{denial_text, PermissionState};
use crate::unary::{
    lemma_keys_empty, list_insert, list_without, unary_covers, UnaryModel, UnaryPermission,
};

verus! {

/// The resource that an optional path names.
pub open spec fn target_view(target: Option<&FsPath>) -> Option<PathView> {
    match target {
        Some(path) => Some(path@),
        None => None,
    }
}

/// The path as shown to the operator. An absolute input is shown as it was
/// given. A relative one is shown resolved only where the working directory
/// may be read, so that no failure gives the directory away.
pub open spec fn display_text(read: UnaryModel<PathView>, text: Seq<char>, cwd: PathView) -> Seq<
    char,
> {
    if !is_absolute(text) && path_verdict(read, Some(cwd)) == PermissionState::Granted {
        rendered(resolved(cwd, text))
    } else {
        text
    }
}

/// The verdict of a path permission on a resolved target.
pub fn query_path(perm: &UnaryPermission<FsPath>, target: Option<&FsPath>) -> (state:
    PermissionState)
    ensures
        state == path_verdict(perm@, target_view(target)),
{
    if perm.global_state == PermissionState::Denied && match target {
        None => true,
        Some(path) => check_path_blocklist(path, &perm.denied_list),
    } {
        return PermissionState::Denied;
    }
    if perm.global_state == PermissionState::Granted || match target {
        None => false,
        Some(path) => check_path_allowlist(path, &perm.granted_list),
    } {
        return PermissionState::Granted;
    }
    PermissionState::Prompt
}

/// Apply the operator's answer to a path permission.
pub fn answer_path(perm: &mut UnaryPermission<FsPath>, target: Option<FsPath>, answer: bool)
    ensures
        final(perm)@ == path_answered(
            old(perm)@,
            match target {
                Some(path) => Some(path@),
                None => None,
            },
            answer,
        ),
        old(perm).wf() ==> final(perm).wf(),
{
    match target {
        Some(path) => {
            if answer {
                let mut kept = retain_outside(&perm.granted_list, &path);
                list_insert(&mut kept, path);
                perm.granted_list = kept;
            } else {
                let mut kept = retain_not_above(&perm.denied_list, &path);
                list_insert(&mut kept, path);
                perm.denied_list = kept;
                perm.global_state = PermissionState::Denied;
            }
        },
        None => {
            if answer {
                perm.granted_list = Vec::new();
                perm.global_state = PermissionState::Granted;
                proof {
                    lemma_keys_empty(perm.granted_list@);
                }
            } else {
                perm.global_state = PermissionState::Denied;
            }
        },
    }
}

/// Take grants back from a path permission.
pub fn revoke_path(perm: &mut UnaryPermission<FsPath>, target: Option<&FsPath>)
    ensures
        final(perm)@ == path_revoked(old(perm)@, target_view(target)),
        old(perm).wf() ==> final(perm).wf(),
{
    match target {
        Some(path) => {
            let kept = retain_outside(&perm.granted_list, path);
            perm.granted_list = kept;
        },
        None => {
            perm.granted_list = Vec::new();
            if perm.global_state == PermissionState::Granted {
                perm.global_state = PermissionState::Prompt;
            }
            proof {
                lemma_keys_empty(perm.granted_list@);
            }
        },
    }
}

/// Answering and revoking keep resolved lists resolved.
pub proof fn lemma_lists_stay_resolved(
    perm: UnaryModel<PathView>,
    target: Option<PathView>,
    answer: bool,
)
    requires
        all_resolved(perm.granted),
        all_resolved(perm.denied),
        target matches Some(p) ==> is_resolved(p),
    ensures
        all_resolved(path_answered(perm, target, answer).granted),
        all_resolved(path_answered(perm, target, answer).denied),
        all_resolved(path_requested(perm, target, answer).granted),
        all_resolved(path_requested(perm, target, answer).denied),
        all_resolved(path_revoked(perm, target).granted),
        all_resolved(path_revoked(perm, target).denied),
{
}

/// A request on a path permission, answered with `answer` where it asks.
pub fn request_path_with(perm: &mut UnaryPermission<FsPath>, target: Option<FsPath>, answer: bool)
    -> (state: PermissionState)
    ensures
        final(perm)@ == path_requested(
            old(perm)@,
            match target {
                Some(path) => Some(path@),
                None => None,
            },
            answer,
        ),
        state == path_verdict(
            old(perm)@,
            match target {
                Some(path) => Some(path@),
                None => None,
            },
        ).requested(answer),
        old(perm).wf() ==> final(perm).wf(),
{
    let state = match &target {
        Some(path) => query_path(perm, Some(path)),
        None => query_path(perm, None),
    };
    if state == PermissionState::Prompt {
        answer_path(perm, target, answer);
        if answer {
            PermissionState::Granted
        } else {
            PermissionState::Denied
        }
    } else {
        state
    }
}

/// The message for a URL without a host.
pub open spec fn no_host_text() -> Seq<char> {
    "invalid urlormat: <scheme>://<host>[:port][/subpath]"@
}

/// The verdict on a parsed URL, or the message of the failure: a URL
/// without a host names no network target.
pub open spec fn parts_verdict(net: UnaryModel<Seq<char>>, parts: UrlParts) -> Result<
    PermissionState,
    Seq<char>,
> {
    match parts.host {
        Some(host) => Ok(net_verdict(net, host, parts.port)),
        None => Err(no_host_text()),
    }
}

/// The verdict on a URL text, or on the whole class where none is given.
pub open spec fn url_verdict(net: UnaryModel<Seq<char>>, url: Option<&str>) -> Result<
    PermissionState,
    Seq<char>,
> {
    match url {
        None => Ok(net.global),
        Some(text) => match parsed_url(text@) {
            Ok(parts) => parts_verdict(net, parts),
            Err(reason) => Err(reason),
        },
    }
}

/// A result with the failure reduced to its message.
pub open spec fn shown(res: Result<PermissionState, PermissionError>) -> Result<
    PermissionState,
    Seq<char>,
> {
    match res {
        Ok(state) => Ok(state),
        Err(e) => Err(e.message@),
    }
}

/// The list entry that a request or a revoke speaks of.
pub open spec fn entry_text(url: Option<&str>) -> Option<Seq<char>> {
    match url {
        Some(text) => Some(text@),
        None => None,
    }
}

/// The network permission after a request that found `verdict`.
pub open spec fn net_requested(
    net: UnaryModel<Seq<char>>,
    verdict: Result<PermissionState, Seq<char>>,
    entry: Option<Seq<char>>,
    answer: bool,
) -> UnaryModel<Seq<char>> {
    if verdict == Ok::<PermissionState, Seq<char>>(PermissionState::Prompt) {
        net_answered(net, entry, answer)
    } else {
        net
    }
}

/// What a request returns where the query found `verdict`.
pub open spec fn request_outcome(verdict: Result<PermissionState, Seq<char>>, answer: bool)
    -> Result<PermissionState, Seq<char>> {
    match verdict {
        Ok(state) => Ok(state.requested(answer)),
        Err(reason) => Err(reason),
    }
}

/// Apply the operator's answer to the network permission.
pub fn answer_net(perm: &mut UnaryPermission<String>, entry: Option<&str>, answer: bool)
    ensures
        final(perm)@ == net_answered(old(perm)@, entry_text(entry), answer),
        old(perm).wf() ==> final(perm).wf(),
{
    match entry {
        Some(text) => {
            if answer {
                list_insert(&mut perm.granted_list, String::from_str(text));
            } else {
                list_insert(&mut perm.denied_list, String::from_str(text));
                perm.global_state = PermissionState::Denied;
            }
        },
        None => {
            if answer {
                perm.granted_list = Vec::new();
                perm.global_state = PermissionState::Granted;
                proof {
                    lemma_keys_empty(perm.granted_list@);
                }
            } else {
                perm.global_state = PermissionState::Denied;
            }
        },
    }
}

/// A request on one of the four plain states.
pub fn request_state<P: Prompter>(state: &mut PermissionState, prompter: &mut P, message: &str)
    -> (found: PermissionState)
    ensures
        exists|answer: bool| *final(state) == old(state).requested(answer),
        found == *final(state),
{
    if *state == PermissionState::Prompt {
        let answer = prompter.prompt(message);
        if answer {
            *state = PermissionState::Granted;
        } else {
            *state = PermissionState::Denied;
        }
        assert(*state == old(state).requested(answer));
    } else {
        assert(*state == old(state).requested(true));
    }
    *state
}

impl Permissions {
    /// Resolve the path, and give the form of it that may be shown.
    pub fn resolved_and_display_path(&self, path: &str, cwd: &FsPath) -> (pair: (FsPath, String))
        ensures
            pair.0@ == resolved(cwd@, path@),
            is_resolved(cwd@) ==> is_resolved(pair.0@),
            pair.1@ == display_text(self@.read, path@, cwd@),
    {
        let resolved_path = resolve_from_cwd(path, cwd);
        let absolute = path.unicode_len() > 0 && path.get_char(0) == '/';
        let display_path = if absolute {
            String::from_str(path)
        } else {
            match query_path(&self.read, Some(cwd)) {
                PermissionState::Granted => resolved_path.render(),
                _ => String::from_str(path),
            }
        };
        (resolved_path, display_path)
    }

    pub fn query_read(&self, path: &Option<&str>, cwd: &FsPath) -> (state: PermissionState)
        ensures
            state == path_verdict(self@.read, path_target(*path, cwd@)),
    {
        match path {
            Some(text) => {
                let target = resolve_from_cwd(text, cwd);
                query_path(&self.read, Some(&target))
            },
            None => query_path(&self.read, None),
        }
    }

    pub fn query_write(&self, path: &Option<&str>, cwd: &FsPath) -> (state: PermissionState)
        ensures
            state == path_verdict(self@.write, path_target(*path, cwd@)),
    {
        match path {
            Some(text) => {
                let target = resolve_from_cwd(text, cwd);
                query_path(&self.write, Some(&target))
            },
            None => query_path(&self.write, None),
        }
    }

    pub fn query_net(&self, host: &str, port: Option<u16>) -> (state: PermissionState)
        ensures
            state == net_verdict(self@.net, host@, port),
    {
        if self.net.global_state == PermissionState::Denied && check_host_and_port_list(
            host,
            port,
            &self.net.denied_list,
        ) {
            return PermissionState::Denied;
        }
        if self.net.global_state == PermissionState::Granted || check_host_and_port_list(
            host,
            port,
            &self.net.granted_list,
        ) {
            return PermissionState::Granted;
        }
        PermissionState::Prompt
    }

    pub fn query_env(&self) -> (state: PermissionState)
        ensures
            state == self.env,
    {
        self.env
    }

    pub fn query_run(&self) -> (state: PermissionState)
        ensures
            state == self.run,
    {
        self.run
    }

    pub fn query_plugin(&self) -> (state: PermissionState)
        ensures
            state == self.plugin,
    {
        self.plugin
    }

    pub fn query_hrtime(&self) -> (state: PermissionState)
        ensures
            state == self.hrtime,
    {
        self.hrtime
    }

    /// The question that a request for `class` access would put.
    pub fn request_path_message(&self, class: &str, path: &Option<&str>, cwd: &FsPath) -> (text:
        String)
        ensures
            text@ == match *path {
                Some(given) => request_text(class@, display_text(self@.read, given@, cwd@)),
                None => class_request_text(class@),
            },
    {
        match path {
            Some(given) => {
                let (_, display_path) = self.resolved_and_display_path(given, cwd);
                request_message(class, display_path.as_str())
            },
            None => class_request_message(class),
        }
    }

    /// `request_read` with the operator's answer given in advance. Only a
    /// verdict of `Prompt` uses it.
    pub fn request_read_with(&mut self, path: &Option<&str>, cwd: &FsPath, answer: bool) -> (state:
        PermissionState)
        ensures
            final(self)@ == (PermissionsModel {
                read: path_requested(old(self)@.read, path_target(*path, cwd@), answer),
                ..old(self)@
            }),
            state == path_verdict(old(self)@.read, path_target(*path, cwd@)).requested(answer),
            old(self).wf() && is_resolved(cwd@) ==> final(self).wf(),
    {
        proof {
            if old(self).wf() && is_resolved(cwd@) {
                if let Some(given) = *path {
                    lemma_resolved_is_resolved(cwd@, given@);
                }
                lemma_lists_stay_resolved(old(self)@.read, path_target(*path, cwd@), answer);
            }
        }
        match path {
            Some(given) => {
                let target = resolve_from_cwd(given, cwd);
                request_path_with(&mut self.read, Some(target), answer)
            },
            None => request_path_with(&mut self.read, None, answer),
        }
    }

    /// `request_write` with the operator's answer given in advance.
    pub fn request_write_with(&mut self, path: &Option<&str>, cwd: &FsPath, answer: bool) -> (state:
        PermissionState)
        ensures
            final(self)@ == (PermissionsModel {
                write: path_requested(old(self)@.write, path_target(*path, cwd@), answer),
                ..old(self)@
            }),
            state == path_verdict(old(self)@.write, path_target(*path, cwd@)).requested(answer),
            old(self).wf() && is_resolved(cwd@) ==> final(self).wf(),
    {
        proof {
            if old(self).wf() && is_resolved(cwd@) {
                if let Some(given) = *path {
                    lemma_resolved_is_resolved(cwd@, given@);
                }
                lemma_lists_stay_resolved(old(self)@.write, path_target(*path, cwd@), answer);
            }
        }
        match path {
            Some(given) => {
                let target = resolve_from_cwd(given, cwd);
                request_path_with(&mut self.write, Some(target), answer)
            },
            None => request_path_with(&mut self.write, None, answer),
        }
    }

    /// Ask for read access. Where the verdict is `Granted` or `Denied`
    /// nothing is asked and nothing changes. Where it is `Prompt` the
    /// operator is asked once, and the answer is applied.
    pub fn request_read<P: Prompter>(
        &mut self,
        prompter: &mut P,
        path: &Option<&str>,
        cwd: &FsPath,
    ) -> (state: PermissionState)
        ensures
            exists|answer: bool|
                {
                    &&& final(self)@ == (PermissionsModel {
                        read: path_requested(
                            old(self)@.read,
                            path_target(*path, cwd@),
                            answer,
                        ),
                        ..old(self)@
                    })
                    &&& state == path_verdict(
                        old(self)@.read,
                        path_target(*path, cwd@),
                    ).requested(answer)
                },
            path_verdict(old(self)@.read, path_target(*path, cwd@)) != PermissionState::Prompt
                ==> final(self)@ == old(self)@,
            old(self).wf() && is_resolved(cwd@) ==> final(self).wf(),
    {
        let answer = if self.query_read(path, cwd) == PermissionState::Prompt {
            let message = self.request_path_message("read", path, cwd);
            prompter.prompt(message.as_str())
        } else {
            false
        };
        let state = self.request_read_with(path, cwd, answer);
        state
    }

    /// Ask for write access, as `request_read` does for read access.
    pub fn request_write<P: Prompter>(
        &mut self,
        prompter: &mut P,
        path: &Option<&str>,
        cwd: &FsPath,
    ) -> (state: PermissionState)
        ensures
            exists|answer: bool|
                {
                    &&& final(self)@ == (PermissionsModel {
                        write: path_requested(
                            old(self)@.write,
                            path_target(*path, cwd@),
                            answer,
                        ),
                        ..old(self)@
                    })
                    &&& state == path_verdict(
                        old(self)@.write,
                        path_target(*path, cwd@),
                    ).requested(answer)
                },
            path_verdict(old(self)@.write, path_target(*path, cwd@)) != PermissionState::Prompt
                ==> final(self)@ == old(self)@,
            old(self).wf() && is_resolved(cwd@) ==> final(self).wf(),
    {
        let answer = if self.query_write(path, cwd) == PermissionState::Prompt {
            let message = self.request_path_message("write", path, cwd);
            prompter.prompt(message.as_str())
        } else {
            false
        };
        let state = self.request_write_with(path, cwd, answer);
        state
    }

    /// The verdict on a parsed URL.
    pub fn query_net_for(&self, url: &NetUrl) -> (res: Result<PermissionState, PermissionError>)
        ensures
            shown(res) == parts_verdict(self@.net, url@),
            res matches Err(e) ==> e.kind == ErrorKind::UriError,
    {
        match &url.host {
            Some(host) => Ok(self.query_net(host.as_str(), url.port)),
            None => Err(
                PermissionError {
                    kind: ErrorKind::UriError,
                    message: String::from_str(
                        "invalid urlormat: <scheme>://<host>[:port][/subpath]",
                    ),
                },
            ),
        }
    }

    /// The verdict on a URL, or on the whole class where none is given.
    pub fn query_net_url(&self, url: &Option<&str>) -> (res: Result<
        PermissionState,
        PermissionError,
    >)
        ensures
            shown(res) == url_verdict(self@.net, *url),
            res matches Err(e) ==> e.kind == ErrorKind::UriError,
    {
        match url {
            None => Ok(self.net.global_state),
            Some(text) => {
                match NetUrl::parse(text) {
                    Ok(parsed) => self.query_net_for(&parsed),
                    Err(e) => Err(e),
                }
            },
        }
    }

    /// A request for the target `given`, whose parsed form is `url`, with
    /// the operator's answer given in advance.
    pub fn request_net_for(&mut self, given: &str, url: &NetUrl, answer: bool) -> (res: Result<
        PermissionState,
        PermissionError,
    >)
        ensures
            final(self)@ == (PermissionsModel {
                net: net_requested(
                    old(self)@.net,
                    parts_verdict(old(self)@.net, url@),
                    Some(given@),
                    answer,
                ),
                ..old(self)@
            }),
            shown(res) == request_outcome(parts_verdict(old(self)@.net, url@), answer),
            res matches Err(e) ==> e.kind == ErrorKind::UriError,
            old(self).wf() ==> final(self).wf(),
    {
        match self.query_net_for(url) {
            Err(e) => Err(e),
            Ok(state) => {
                if state == PermissionState::Prompt {
                    answer_net(&mut self.net, Some(given), answer);
                    if answer {
                        Ok(PermissionState::Granted)
                    } else {
                        Ok(PermissionState::Denied)
                    }
                } else {
                    Ok(state)
                }
            },
        }
    }

    /// `request_net` with the operator's answer given in advance.
    pub fn request_net_with(&mut self, url: &Option<&str>, answer: bool) -> (res: Result<
        PermissionState,
        PermissionError,
    >)
        ensures
            final(self)@ == (PermissionsModel {
                net: net_requested(
                    old(self)@.net,
                    url_verdict(old(self)@.net, *url),
                    entry_text(*url),
                    answer,
                ),
                ..old(self)@
            }),
            shown(res) == request_outcome(url_verdict(old(self)@.net, *url), answer),
            res matches Err(e) ==> e.kind == ErrorKind::UriError,
            old(self).wf() ==> final(self).wf(),
    {
        match url {
            Some(given) => {
                match NetUrl::parse(given) {
                    Ok(parsed) => self.request_net_for(given, &parsed, answer),
                    Err(e) => Err(e),
                }
            },
            None => {
                let state = self.net.global_state;
                if state == PermissionState::Prompt {
                    answer_net(&mut self.net, None, answer);
                    if answer {
                        Ok(PermissionState::Granted)
                    } else {
                        Ok(PermissionState::Denied)
                    }
                } else {
                    Ok(state)
                }
            },
        }
    }

    /// The question that a request for network access would put.
    pub fn request_net_message(url: &Option<&str>) -> (text: String)
        ensures
            text@ == match *url {
                Some(given) => request_text("network"@, given@),
                None => class_request_text("network"@),
            },
    {
        match url {
            Some(given) => request_message("network", given),
            None => class_request_message("network"),
        }
    }

    /// Ask for network access. A target that is no URL with a host fails
    /// and changes nothing. Otherwise, where the verdict is `Prompt`, the
    /// operator is asked once and the answer is applied; the entry is the
    /// target as it was given.
    pub fn request_net<P: Prompter>(&mut self, prompter: &mut P, url: &Option<&str>) -> (res:
        Result<PermissionState, PermissionError>)
        ensures
            exists|answer: bool|
                {
                    &&& final(self)@ == (PermissionsModel {
                        net: net_requested(
                            old(self)@.net,
                            url_verdict(old(self)@.net, *url),
                            entry_text(*url),
                            answer,
                        ),
                        ..old(self)@
                    })
                    &&& shown(res) == request_outcome(
                        url_verdict(old(self)@.net, *url),
                        answer,
                    )
                },
            res matches Err(e) ==> e.kind == ErrorKind::UriError,
            old(self).wf() ==> final(self).wf(),
    {
        let asks = match self.query_net_url(url) {
            Ok(PermissionState::Prompt) => true,
            _ => false,
        };
        let answer = if asks {
            let message = Permissions::request_net_message(url);
            prompter.prompt(message.as_str())
        } else {
            false
        };
        let res = self.request_net_with(url, answer);
        res
    }

    /// `request_env` with the operator's answer given in advance.
    pub fn request_env_with(&mut self, answer: bool) -> (state: PermissionState)
        ensures
            final(self)@ == (PermissionsModel {
                env: old(self).env.requested(answer),
                ..old(self)@
            }),
            state == final(self).env,
            old(self).wf() ==> final(self).wf(),
    {
        if self.env == PermissionState::Prompt {
            self.env = if answer {
                PermissionState::Granted
            } else {
                PermissionState::Denied
            };
        }
        self.env
    }

    /// `request_run` with the operator's answer given in advance.
    pub fn request_run_with(&mut self, answer: bool) -> (state: PermissionState)
        ensures
            final(self)@ == (PermissionsModel {
                run: old(self).run.requested(answer),
                ..old(self)@
            }),
            state == final(self).run,
            old(self).wf() ==> final(self).wf(),
    {
        if self.run == PermissionState::Prompt {
            self.run = if answer {
                PermissionState::Granted
            } else {
                PermissionState::Denied
            };
        }
        self.run
    }

    /// `request_plugin` with the operator's answer given in advance.
    pub fn request_plugin_with(&mut self, answer: bool) -> (state: PermissionState)
        ensures
            final(self)@ == (PermissionsModel {
                plugin: old(self).plugin.requested(answer),
                ..old(self)@
            }),
            state == final(self).plugin,
            old(self).wf() ==> final(self).wf(),
    {
        if self.plugin == PermissionState::Prompt {
            self.plugin = if answer {
                PermissionState::Granted
            } else {
                PermissionState::Denied
            };
        }
        self.plugin
    }

    /// `request_hrtime` with the operator's answer given in advance.
    pub fn request_hrtime_with(&mut self, answer: bool) -> (state: PermissionState)
        ensures
            final(self)@ == (PermissionsModel {
                hrtime: old(self).hrtime.requested(answer),
                ..old(self)@
            }),
            state == final(self).hrtime,
            old(self).wf() ==> final(self).wf(),
    {
        if self.hrtime == PermissionState::Prompt {
            self.hrtime = if answer {
                PermissionState::Granted
            } else {
                PermissionState::Denied
            };
        }
        self.hrtime
    }

    /// Ask for access to environment variables. Only `Prompt` asks.
    pub fn request_env<P: Prompter>(&mut self, prompter: &mut P) -> (state: PermissionState)
        ensures
            exists|answer: bool|
                final(self)@ == (PermissionsModel {
                    env: #[trigger] old(self).env.requested(answer),
                    ..old(self)@
                }),
            state == final(self).env,
            old(self).wf() ==> final(self).wf(),
    {
        request_state(&mut self.env, prompter, "Deno requests access to environment variables")
    }

    /// Ask for leave to run a subprocess. Only `Prompt` asks.
    pub fn request_run<P: Prompter>(&mut self, prompter: &mut P) -> (state: PermissionState)
        ensures
            exists|answer: bool|
                final(self)@ == (PermissionsModel {
                    run: #[trigger] old(self).run.requested(answer),
                    ..old(self)@
                }),
            state == final(self).run,
            old(self).wf() ==> final(self).wf(),
    {
        request_state(&mut self.run, prompter, "Deno requests to access to run a subprocess")
    }

    /// Ask for leave to open plugins. Only `Prompt` asks.
    pub fn request_plugin<P: Prompter>(&mut self, prompter: &mut P) -> (state: PermissionState)
        ensures
            exists|answer: bool|
                final(self)@ == (PermissionsModel {
                    plugin: #[trigger] old(self).plugin.requested(answer),
                    ..old(self)@
                }),
            state == final(self).plugin,
            old(self).wf() ==> final(self).wf(),
    {
        request_state(&mut self.plugin, prompter, "Deno requests to open plugins")
    }

    /// Ask for access to high precision time. Only `Prompt` asks.
    pub fn request_hrtime<P: Prompter>(&mut self, prompter: &mut P) -> (state: PermissionState)
        ensures
            exists|answer: bool|
                final(self)@ == (PermissionsModel {
                    hrtime: #[trigger] old(self).hrtime.requested(answer),
                    ..old(self)@
                }),
            state == final(self).hrtime,
            old(self).wf() ==> final(self).wf(),
    {
        request_state(&mut self.hrtime, prompter, "Deno requests access to high precision time")
    }

    /// Take read grants back: those at or below `path`, or all of them.
    /// Returns the verdict that the target has afterwards.
    pub fn revoke_read(&mut self, path: &Option<&str>, cwd: &FsPath) -> (state: PermissionState)
        ensures
            final(self)@ == (PermissionsModel {
                read: path_revoked(old(self)@.read, path_target(*path, cwd@)),
                ..old(self)@
            }),
            state == path_verdict(final(self)@.read, path_target(*path, cwd@)),
            old(self).wf() ==> final(self).wf(),
    {
        proof {
            if old(self).wf() {
                assert(all_resolved(path_revoked(old(self)@.read, path_target(*path, cwd@)).granted));
            }
        }
        match path {
            Some(given) => {
                let target = resolve_from_cwd(given, cwd);
                revoke_path(&mut self.read, Some(&target));
                query_path(&self.read, Some(&target))
            },
            None => {
                revoke_path(&mut self.read, None);
                query_path(&self.read, None)
            },
        }
    }

    /// Take write grants back, as `revoke_read` does for read grants.
    pub fn revoke_write(&mut self, path: &Option<&str>, cwd: &FsPath) -> (state: PermissionState)
        ensures
            final(self)@ == (PermissionsModel {
                write: path_revoked(old(self)@.write, path_target(*path, cwd@)),
                ..old(self)@
            }),
            state == path_verdict(final(self)@.write, path_target(*path, cwd@)),
            old(self).wf() ==> final(self).wf(),
    {
        proof {
            if old(self).wf() {
                assert(all_resolved(
                    path_revoked(old(self)@.write, path_target(*path, cwd@)).granted,
                ));
            }
        }
        match path {
            Some(given) => {
                let target = resolve_from_cwd(given, cwd);
                revoke_path(&mut self.write, Some(&target));
                query_path(&self.write, Some(&target))
            },
            None => {
                revoke_path(&mut self.write, None);
                query_path(&self.write, None)
            },
        }
    }

    /// Take a network grant back: the entry written exactly as `url`, or
    /// all of them. The grant goes even where `url` is no URL with a host,
    /// and the failure is then what is returned.
    pub fn revoke_net(&mut self, url: &Option<&str>) -> (res: Result<
        PermissionState,
        PermissionError,
    >)
        ensures
            final(self)@ == (PermissionsModel {
                net: net_revoked(old(self)@.net, entry_text(*url)),
                ..old(self)@
            }),
            shown(res) == url_verdict(final(self)@.net, *url),
            res matches Err(e) ==> e.kind == ErrorKind::UriError,
            old(self).wf() ==> final(self).wf(),
    {
        match url {
            Some(given) => {
                let entry = String::from_str(given);
                let kept = list_without(&self.net.granted_list, &entry);
                self.net.granted_list = kept;
            },
            None => {
                self.net.granted_list = Vec::new();
                if self.net.global_state == PermissionState::Granted {
                    self.net.global_state = PermissionState::Prompt;
                }
                proof {
                    lemma_keys_empty(self.net.granted_list@);
                }
            },
        }
        self.query_net_url(url)
    }

    pub fn revoke_env(&mut self) -> (state: PermissionState)
        ensures
            final(self)@ == (PermissionsModel { env: old(self).env.revoked(), ..old(self)@ }),
            state == final(self).env,
            old(self).wf() ==> final(self).wf(),
    {
        if self.env == PermissionState::Granted {
            self.env = PermissionState::Prompt;
        }
        self.env
    }

    pub fn revoke_run(&mut self) -> (state: PermissionState)
        ensures
            final(self)@ == (PermissionsModel { run: old(self).run.revoked(), ..old(self)@ }),
            state == final(self).run,
            old(self).wf() ==> final(self).wf(),
    {
        if self.run == PermissionState::Granted {
            self.run = PermissionState::Prompt;
        }
        self.run
    }

    pub fn revoke_plugin(&mut self) -> (state: PermissionState)
        ensures
            final(self)@ == (PermissionsModel {
                plugin: old(self).plugin.revoked(),
                ..old(self)@
            }),
            state == final(self).plugin,
            old(self).wf() ==> final(self).wf(),
    {
        if self.plugin == PermissionState::Granted {
            self.plugin = PermissionState::Prompt;
        }
        self.plugin
    }

    pub fn revoke_hrtime(&mut self) -> (state: PermissionState)
        ensures
            final(self)@ == (PermissionsModel {
                hrtime: old(self).hrtime.revoked(),
                ..old(self)@
            }),
            state == final(self).hrtime,
            old(self).wf() ==> final(self).wf(),
    {
        if self.hrtime == PermissionState::Granted {
            self.hrtime = PermissionState::Prompt;
        }
        self.hrtime
    }

    /// Enforce read access to `path`.
    pub fn check_read(&self, path: &str, cwd: &FsPath) -> (res: Result<(), PermissionError>)
        ensures
            res.is_ok() <==> path_verdict(self@.read, Some(resolved(cwd@, path@)))
                == PermissionState::Granted,
            res matches Err(e) ==> e.kind == ErrorKind::PermissionDenied && e.message@
                == denial_text(
                access_text("read"@, display_text(self@.read, path@, cwd@)),
                "--allow-read"@,
            ),
    {
        let (resolved_path, display_path) = self.resolved_and_display_path(path, cwd);
        let message = access_message("read", display_path.as_str());
        query_path(&self.read, Some(&resolved_path)).check(message.as_str(), "--allow-read")
    }

    /// As `check_read`, but a failure shows `display` in place of the path.
    pub fn check_read_blind(&self, path: &str, display: &str, cwd: &FsPath) -> (res: Result<
        (),
        PermissionError,
    >)
        ensures
            res.is_ok() <==> path_verdict(self@.read, Some(resolved(cwd@, path@)))
                == PermissionState::Granted,
            res matches Err(e) ==> e.kind == ErrorKind::PermissionDenied && e.message@
                == denial_text(blind_read_text(display@), "--allow-read"@),
    {
        let resolved_path = resolve_from_cwd(path, cwd);
        let message = blind_read_message(display);
        query_path(&self.read, Some(&resolved_path)).check(message.as_str(), "--allow-read")
    }

    /// Enforce write access to `path`.
    pub fn check_write(&self, path: &str, cwd: &FsPath) -> (res: Result<(), PermissionError>)
        ensures
            res.is_ok() <==> path_verdict(self@.write, Some(resolved(cwd@, path@)))
                == PermissionState::Granted,
            res matches Err(e) ==> e.kind == ErrorKind::PermissionDenied && e.message@
                == denial_text(
                access_text("write"@, display_text(self@.read, path@, cwd@)),
                "--allow-write"@,
            ),
    {
        let (resolved_path, display_path) = self.resolved_and_display_path(path, cwd);
        let message = access_message("write", display_path.as_str());
        query_path(&self.write, Some(&resolved_path)).check(message.as_str(), "--allow-write")
    }

    /// Enforce network access to `hostname` at `port`.
    pub fn check_net(&self, hostname: &str, port: u16) -> (res: Result<(), PermissionError>)
        ensures
            res.is_ok() <==> net_verdict(self@.net, hostname@, Some(port))
                == PermissionState::Granted,
            res matches Err(e) ==> e.kind == ErrorKind::PermissionDenied && e.message@
                == denial_text(net_access_text(hostname@, port), "--allow-net"@),
    {
        let message = net_access_message(hostname, port);
        self.query_net(hostname, Some(port)).check(message.as_str(), "--allow-net")
    }

    /// Enforce network access to a parsed URL. One without a host fails
    /// as no network target at all.
    pub fn check_net_url(&self, url: &NetUrl) -> (res: Result<(), PermissionError>)
        ensures
            res.is_ok() <==> parts_verdict(self@.net, url@) == Ok::<PermissionState, Seq<char>>(
                PermissionState::Granted,
            ),
            res matches Err(e) ==> match url@.host {
                None => e.kind == ErrorKind::UriError && e.message@ == "missing host"@,
                Some(host) => e.kind == ErrorKind::PermissionDenied && e.message@ == denial_text(
                    access_text("network"@, url@.text),
                    "--allow-net"@,
                ),
            },
    {
        match &url.host {
            None => Err(
                PermissionError {
                    kind: ErrorKind::UriError,
                    message: String::from_str("missing host"),
                },
            ),
            Some(host) => {
                let message = access_message("network", url.text.as_str());
                self.query_net(host.as_str(), url.port).check(message.as_str(), "--allow-net")
            },
        }
    }

    /// Enforce access to environment variables.
    pub fn check_env(&self) -> (res: Result<(), PermissionError>)
        ensures
            res.is_ok() <==> self.env == PermissionState::Granted,
            res matches Err(e) ==> e.kind == ErrorKind::PermissionDenied && e.message@
                == denial_text("access to environment variables"@, "--allow-env"@),
    {
        self.env.check("access to environment variables", "--allow-env")
    }

    /// Enforce leave to run a subprocess.
    pub fn check_run(&self) -> (res: Result<(), PermissionError>)
        ensures
            res.is_ok() <==> self.run == PermissionState::Granted,
            res matches Err(e) ==> e.kind == ErrorKind::PermissionDenied && e.message@
                == denial_text("access to run a subprocess"@, "--allow-run"@),
    {
        self.run.check("access to run a subprocess", "--allow-run")
    }

    /// Enforce leave to open the plugin at `path`.
    pub fn check_plugin(&self, path: &str, cwd: &FsPath) -> (res: Result<(), PermissionError>)
        ensures
            res.is_ok() <==> self.plugin == PermissionState::Granted,
            res matches Err(e) ==> e.kind == ErrorKind::PermissionDenied && e.message@
                == denial_text(
                plugin_access_text(display_text(self@.read, path@, cwd@)),
                "--allow-plugin"@,
            ),
    {
        let (_, display_path) = self.resolved_and_display_path(path, cwd);
        let message = plugin_access_message(display_path.as_str());
        self.plugin.check(message.as_str(), "--allow-plugin")
    }

    /// Enforce access to high precision time.
    pub fn check_hrtime(&self) -> (res: Result<(), PermissionError>)
        ensures
            res.is_ok() <==> self.hrtime == PermissionState::Granted,
            res matches Err(e) ==> e.kind == ErrorKind::PermissionDenied && e.message@
                == denial_text("access to high precision time"@, "--allow-hrtime"@),
    {
        self.hrtime.check("access to high precision time", "--allow-hrtime")
    }

    /// Whether a context with these permissions may hand `child` to a fork:
    /// `child` is no stronger in any of the seven classes.
    pub open spec fn covers(parent: PermissionsModel, child: PermissionsModel) -> bool {
        &&& unary_covers(parent.read, child.read)
        &&& unary_covers(parent.write, child.write)
        &&& unary_covers(parent.net, child.net)
        &&& parent.env.covers(child.env)
        &&& parent.run.covers(child.run)
        &&& parent.plugin.covers(child.plugin)
        &&& parent.hrtime.covers(child.hrtime)
    }

    /// Derive the permissions of a child context. The child is made exactly
    /// as asked, or not at all: a child that is stronger than `self` in any
    /// class is refused, and the failure does not say in which.
    pub fn fork(
        &self,
        read: UnaryPermission<FsPath>,
        write: UnaryPermission<FsPath>,
        net: UnaryPermission<String>,
        env: PermissionState,
        run: PermissionState,
        plugin: PermissionState,
        hrtime: PermissionState,
    ) -> (res: Result<Permissions, PermissionError>)
        ensures
            res.is_ok() <==> Permissions::covers(
                self@,
                (Permissions { read, write, net, env, run, plugin, hrtime })@,
            ),
            res matches Ok(child) ==> child == (Permissions {
                read,
                write,
                net,
                env,
                run,
                plugin,
                hrtime,
            }),
            res matches Err(e) ==> e.kind == ErrorKind::PermissionDenied && e.message@
                == escalation_text(),
    {
        if let Err(e) = self.read.check_fork(&read) {
            return Err(e);
        }
        if let Err(e) = self.write.check_fork(&write) {
            return Err(e);
        }
        if let Err(e) = self.net.check_fork(&net) {
            return Err(e);
        }
        if let Err(e) = self.env.check_fork(&env) {
            return Err(e);
        }
        if let Err(e) = self.run.check_fork(&run) {
            return Err(e);
        }
        if let Err(e) = self.plugin.check_fork(&plugin) {
            return Err(e);
        }
        if let Err(e) = self.hrtime.check_fork(&hrtime) {
            return Err(e);
        }
        Ok(Permissions { read, write, net, env, run, plugin, hrtime })
    }
}

} // verus!
