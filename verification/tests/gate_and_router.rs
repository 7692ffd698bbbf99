use ferrisland::auth::{authenticate, AuthDecision};
use ferrisland::command::{dispatch, dispatch_payload, confirm_plan, CommandKind, DispatchError};
use ferrisland::handler::ConnectionHandler;
use ferrisland::resolve::{
    confirm_repository, path_token_ok, resolve, AccessMode, ResolveError, ResolvedRepository,
    ResolverConfig,
};

fn config() -> ResolverConfig {
    ResolverConfig { root: String::from("/srv/git"), allow_push: false }
}

fn config_with_push() -> ResolverConfig {
    ResolverConfig { root: String::from("/srv/git"), allow_push: true }
}

#[test]
fn service_identity_is_accepted() {
    assert_eq!(authenticate("git"), AuthDecision::Accept);
}

#[test]
fn other_identities_are_rejected() {
    assert_eq!(authenticate("root"), AuthDecision::Reject);
    assert_eq!(authenticate(""), AuthDecision::Reject);
    assert_eq!(authenticate("git "), AuthDecision::Reject);
    assert_eq!(authenticate("Git"), AuthDecision::Reject);
    assert_eq!(authenticate("gituser"), AuthDecision::Reject);
}

#[test]
fn upload_pack_dispatches_to_resolved_path() {
    let r = dispatch_payload(&config(), "git-upload-pack repo-a");
    let plan = r.expect("a fetch of a clean token must dispatch");
    assert_eq!(plan.command, CommandKind::UploadPack);
    assert_eq!(plan.repository.absolute_path, "/srv/git/repo-a");
    assert!(plan.repository.read_only);
}

#[test]
fn nested_token_resolves_under_root() {
    let r = dispatch_payload(&config(), "git-upload-pack team/repo-b.git");
    let plan = r.unwrap();
    assert_eq!(plan.repository.absolute_path, "/srv/git/team/repo-b.git");
}

#[test]
fn wrong_token_count_is_malformed() {
    assert_eq!(
        dispatch_payload(&config(), "git-upload-pack"),
        Err(DispatchError::MalformedRequest)
    );
    assert_eq!(
        dispatch_payload(&config(), "git-upload-pack a b"),
        Err(DispatchError::MalformedRequest)
    );
    assert_eq!(dispatch_payload(&config(), ""), Err(DispatchError::MalformedRequest));
    // two separators in a row make an empty third token
    assert_eq!(
        dispatch_payload(&config(), "git-upload-pack  repo-a"),
        Err(DispatchError::MalformedRequest)
    );
}

#[test]
fn unknown_command_is_unsupported() {
    assert_eq!(
        dispatch_payload(&config(), "git-fetch-pack repo-a"),
        Err(DispatchError::UnsupportedCommand)
    );
    assert_eq!(dispatch_payload(&config(), "rm -rf"), Err(DispatchError::UnsupportedCommand));
}

#[test]
fn traversal_is_rejected_before_any_spawn() {
    assert_eq!(
        dispatch_payload(&config(), "git-upload-pack ../../etc"),
        Err(DispatchError::AccessDenied)
    );
    assert_eq!(
        dispatch_payload(&config(), "git-upload-pack a/../b"),
        Err(DispatchError::AccessDenied)
    );
    assert_eq!(
        dispatch_payload(&config(), "git-upload-pack /etc/passwd"),
        Err(DispatchError::AccessDenied)
    );
}

#[test]
fn push_needs_permission() {
    assert_eq!(
        dispatch_payload(&config(), "git-receive-pack repo-a"),
        Err(DispatchError::AccessDenied)
    );
    let plan = dispatch_payload(&config_with_push(), "git-receive-pack repo-a").unwrap();
    assert_eq!(plan.command, CommandKind::ReceivePack);
    assert!(!plan.repository.read_only);
}

#[test]
fn dispatch_takes_split_tokens() {
    let tokens = vec![String::from("git-upload-pack"), String::from("repo-a")];
    let plan = dispatch(&config(), &tokens).unwrap();
    assert_eq!(plan.repository.absolute_path, "/srv/git/repo-a");
}

#[test]
fn confirm_plan_turns_missing_repository_into_error() {
    let plan = dispatch_payload(&config(), "git-upload-pack repo-a").unwrap();
    assert_eq!(confirm_plan(plan.clone(), false), Err(DispatchError::RepositoryNotFound));
    assert_eq!(confirm_plan(plan.clone(), true), Ok(plan));
}

#[test]
fn path_tokens_are_validated() {
    assert!(path_token_ok("repo-a"));
    assert!(path_token_ok("team/repo.git"));
    assert!(!path_token_ok(""));
    assert!(!path_token_ok("."));
    assert!(!path_token_ok(".."));
    assert!(!path_token_ok("a/./b"));
    assert!(!path_token_ok("a//b"));
    assert!(!path_token_ok("a/"));
    assert!(!path_token_ok("/a"));
    assert!(!path_token_ok("a\0b"));
}

#[test]
fn resolve_never_hands_back_a_traversal_path() {
    let cfg = config();
    assert_eq!(resolve(&cfg, "../../etc", AccessMode::Fetch), Err(ResolveError::AccessDenied));
    assert_eq!(resolve(&cfg, "..", AccessMode::Fetch), Err(ResolveError::AccessDenied));
}

#[test]
fn resolving_twice_yields_the_same_repository() {
    let cfg = config();
    let first = resolve(&cfg, "repo-a", AccessMode::Fetch).unwrap();
    let second = resolve(&cfg, "repo-a", AccessMode::Fetch).unwrap();
    assert_eq!(first, second);
}

#[test]
fn missing_repository_is_not_found() {
    let repo = ResolvedRepository { absolute_path: String::from("/srv/git/gone"), read_only: true };
    assert_eq!(confirm_repository(repo.clone(), false), Err(ResolveError::RepositoryNotFound));
    assert_eq!(confirm_repository(repo.clone(), true), Ok(repo));
}

#[test]
fn handler_gates_exec_behind_auth() {
    let mut handler = ConnectionHandler::new(config());
    assert!(!handler.authenticated);
    assert_eq!(handler.auth_none("mallory"), AuthDecision::Reject);
    assert!(!handler.authenticated);
    assert_eq!(handler.auth_none("git"), AuthDecision::Accept);
    assert!(handler.authenticated);
    let plan = handler.exec_request("git-upload-pack repo-a").unwrap();
    assert_eq!(plan.repository.absolute_path, "/srv/git/repo-a");
    assert_eq!(
        handler.exec_request("git-upload-pack ../../etc"),
        Err(DispatchError::AccessDenied)
    );
}
