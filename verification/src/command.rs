//! Command router: parses the exec-request payload into tokens and turns a
//! recognised Git transport command into a plan the subprocess runner can
//! act on, or into the error that tells the client why not.

use vstd::prelude::*;
use crate::resolve::AccessMode;
use crate::resolve::ResolveError;
use crate::resolve::ResolvedRepository;
use crate::resolve::ResolverConfig;
use crate::resolve::repo_model;
use crate::resolve::resolve;
use crate::resolve::spec_resolve;
use crate::text::split_chars;
use crate::text::split_on;

verus! {

/// The two Git transport commands the server recognises.
#[derive(Clone, Copy, Debug, PartialEq, Eq, Structural)]
pub enum CommandKind {
    /// `git-upload-pack`: a fetch.
    UploadPack,
    /// `git-receive-pack`: a push.
    ReceivePack,
}

/// Why an exec request was rejected.
#[derive(Clone, Copy, Debug, PartialEq, Eq, Structural)]
pub enum DispatchError {
    /// The payload does not have exactly a command name and one argument.
    MalformedRequest,
    /// The command name is not a recognised Git transport command.
    UnsupportedCommand,
    /// The path token is well-formed but no repository exists there.
    RepositoryNotFound,
    /// The path token is malformed, escapes the root, or push is not
    /// permitted.
    AccessDenied,
}

/// A validated, ready-to-spawn command.
#[derive(Clone, Debug, PartialEq, Eq)]
pub struct CommandPlan {
    pub command: CommandKind,
    pub repository: ResolvedRepository,
}

/// The exec payload token naming a fetch.
pub open spec fn upload_pack_name() -> Seq<char> {
    "git-upload-pack"@
}

/// The exec payload token naming a push.
pub open spec fn receive_pack_name() -> Seq<char> {
    "git-receive-pack"@
}

/// The access a command kind asks for.
pub open spec fn mode_of(kind: CommandKind) -> AccessMode {
    match kind {
        CommandKind::UploadPack => AccessMode::Fetch,
        CommandKind::ReceivePack => AccessMode::Push,
    }
}

/// How a resolution error reads at the router's interface.
pub open spec fn dispatch_error_of(e: ResolveError) -> DispatchError {
    match e {
        ResolveError::AccessDenied => DispatchError::AccessDenied,
        ResolveError::RepositoryNotFound => DispatchError::RepositoryNotFound,
    }
}

/// The mathematical content of a plan.
pub open spec fn plan_model(p: CommandPlan) -> (CommandKind, (Seq<char>, bool)) {
    (p.command, repo_model(p.repository))
}

/// The mathematical content of a router answer.
pub open spec fn dispatch_model(r: Result<CommandPlan, DispatchError>) -> Result<
    (CommandKind, (Seq<char>, bool)),
    DispatchError,
> {
    match r {
        Ok(p) => Ok(plan_model(p)),
        Err(e) => Err(e),
    }
}

/// The router's answer as a mathematical function of the configuration and
/// the payload tokens: exactly two tokens, a recognised command name, and a
/// token that resolves, or the matching error.
pub open spec fn spec_dispatch(
    root: Seq<char>,
    allow_push: bool,
    tokens: Seq<Seq<char>>,
) -> Result<(CommandKind, (Seq<char>, bool)), DispatchError> {
    if tokens.len() != 2 {
        Err(DispatchError::MalformedRequest)
    } else if tokens[0] == upload_pack_name() || tokens[0] == receive_pack_name() {
        let kind = if tokens[0] == upload_pack_name() {
            CommandKind::UploadPack
        } else {
            CommandKind::ReceivePack
        };
        match spec_resolve(root, allow_push, tokens[1], mode_of(kind)) {
            Ok(m) => Ok((kind, m)),
            Err(e) => Err(dispatch_error_of(e)),
        }
    } else {
        Err(DispatchError::UnsupportedCommand)
    }
}

/// Routes already-split payload tokens. No plan comes back, and so nothing
/// is spawned, unless the payload is exactly a recognised command with one
/// path token that resolves.
pub fn dispatch(config: &ResolverConfig, tokens: &Vec<String>) -> (r: Result<
    CommandPlan,
    DispatchError,
>)
    ensures
        dispatch_model(r) == spec_dispatch(config.root@, config.allow_push, tokens.deep_view()),
        tokens.deep_view().len() != 2 ==> r == Err::<CommandPlan, DispatchError>(
            DispatchError::MalformedRequest,
        ),
{
    proof {
        assert(tokens.deep_view().len() == tokens@.len());
    }
    if tokens.len() != 2 {
        return Err(DispatchError::MalformedRequest);
    }
    proof {
        assert(tokens.deep_view()[0] == tokens@[0]@);
        assert(tokens.deep_view()[1] == tokens@[1]@);
    }
    let name = &tokens[0];
    let upload = String::from_str("git-upload-pack");
    let receive = String::from_str("git-receive-pack");
    let kind = if name.eq(&upload) {
        CommandKind::UploadPack
    } else if name.eq(&receive) {
        CommandKind::ReceivePack
    } else {
        return Err(DispatchError::UnsupportedCommand);
    };
    let mode = match kind {
        CommandKind::UploadPack => AccessMode::Fetch,
        CommandKind::ReceivePack => AccessMode::Push,
    };
    match resolve(config, tokens[1].as_str(), mode) {
        Ok(repository) => Ok(CommandPlan { command: kind, repository }),
        Err(ResolveError::AccessDenied) => Err(DispatchError::AccessDenied),
        Err(ResolveError::RepositoryNotFound) => Err(DispatchError::RepositoryNotFound),
    }
}

/// Routes a raw exec payload: splits it on single spaces, then dispatches
/// the tokens.
pub fn dispatch_payload(config: &ResolverConfig, payload: &str) -> (r: Result<
    CommandPlan,
    DispatchError,
>)
    ensures
        dispatch_model(r) == spec_dispatch(
            config.root@,
            config.allow_push,
            split_chars(payload@, ' '),
        ),
{
    let tokens = split_on(payload, ' ');
    dispatch(config, &tokens)
}

/// Second stage of routing: the caller probes the filesystem for a Git
/// repository at the planned path and hands the outcome back; a missing
/// repository turns the plan into an error, never into a spawn.
pub fn confirm_plan(plan: CommandPlan, is_git_dir: bool) -> (r: Result<CommandPlan, DispatchError>)
    ensures
        is_git_dir ==> r == Ok::<CommandPlan, DispatchError>(plan),
        !is_git_dir ==> r == Err::<CommandPlan, DispatchError>(DispatchError::RepositoryNotFound),
{
    if is_git_dir {
        Ok(plan)
    } else {
        Err(DispatchError::RepositoryNotFound)
    }
}

/// A payload whose token count is not two is answered with
/// `MalformedRequest`, and no plan — so no subprocess — comes of it.
pub proof fn lemma_malformed_payload_rejected(
    root: Seq<char>,
    allow_push: bool,
    tokens: Seq<Seq<char>>,
)
    requires
        tokens.len() != 2,
    ensures
        spec_dispatch(root, allow_push, tokens) == Err::<
            (CommandKind, (Seq<char>, bool)),
            DispatchError,
        >(DispatchError::MalformedRequest),
{
}

} // verus!
