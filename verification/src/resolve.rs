//! Repository resolver: maps a client-supplied path token to a validated,
//! sandboxed on-disk repository location under a configured root.
//!
//! A token is accepted only when every `/`-separated segment is a plain
//! name: no empty segment (which also rules out absolute paths), no `.`,
//! no `..`, and no null byte anywhere. An accepted token resolves to
//! `<root>/<token>`; everything else is refused before any path reaches a
//! subprocess.

use vstd::prelude::*;
use crate::text::split_chars;
use crate::text::split_on;

verus! {

/// What the client intends to do with the repository.
#[derive(Clone, Copy, Debug, PartialEq, Eq, Structural)]
pub enum AccessMode {
    Fetch,
    Push,
}

/// Why a path token failed to resolve.
#[derive(Clone, Copy, Debug, PartialEq, Eq, Structural)]
pub enum ResolveError {
    /// The token is malformed or escapes the configured root, or push is
    /// not permitted.
    AccessDenied,
    /// The token is well-formed but no repository exists there.
    RepositoryNotFound,
}

/// A validated repository location.
#[derive(Clone, Debug, PartialEq, Eq)]
pub struct ResolvedRepository {
    /// Path of the repository: the configured root, a separator, and the
    /// validated token.
    pub absolute_path: String,
    /// Whether the session may only read the repository.
    pub read_only: bool,
}

/// Configuration of the resolver: where repositories live and whether
/// pushes are permitted at all.
#[derive(Clone, Debug)]
pub struct ResolverConfig {
    /// Repository root directory, without a trailing separator.
    pub root: String,
    /// Whether `git-receive-pack` sessions may write.
    pub allow_push: bool,
}

/// A path segment that names a directory entry and nothing else.
pub open spec fn valid_segment(seg: Seq<char>) -> bool {
    seg.len() > 0 && seg != "."@ && seg != ".."@
}

/// A token the resolver accepts: non-empty, free of null bytes, and made
/// of valid segments only.
pub open spec fn valid_path_token(token: Seq<char>) -> bool {
    &&& token.len() > 0
    &&& !token.contains('\0')
    &&& forall|k: int|
        0 <= k < split_chars(token, '/').len() ==> valid_segment(
            #[trigger] split_chars(token, '/')[k],
        )
}

/// The on-disk path an accepted token resolves to.
pub open spec fn resolved_path(root: Seq<char>, token: Seq<char>) -> Seq<char> {
    root + seq!['/'] + token
}

/// The resolver's answer, as a mathematical function of the configuration,
/// the token and the access mode.
pub open spec fn spec_resolve(
    root: Seq<char>,
    allow_push: bool,
    token: Seq<char>,
    mode: AccessMode,
) -> Result<(Seq<char>, bool), ResolveError> {
    if !valid_path_token(token) {
        Err(ResolveError::AccessDenied)
    } else if mode is Push && !allow_push {
        Err(ResolveError::AccessDenied)
    } else {
        Ok((resolved_path(root, token), mode is Fetch))
    }
}

/// The mathematical content of a resolved repository.
pub open spec fn repo_model(repo: ResolvedRepository) -> (Seq<char>, bool) {
    (repo.absolute_path@, repo.read_only)
}

/// The mathematical content of a resolver answer.
pub open spec fn resolve_model(r: Result<ResolvedRepository, ResolveError>) -> Result<
    (Seq<char>, bool),
    ResolveError,
> {
    match r {
        Ok(repo) => Ok(repo_model(repo)),
        Err(e) => Err(e),
    }
}

/// Decides whether the resolver accepts `token`.
pub fn path_token_ok(token: &str) -> (ok: bool)
    ensures
        ok == valid_path_token(token@),
{
    let n = token.unicode_len();
    if n == 0 {
        return false;
    }
    let mut i: usize = 0;
    while i < n
        invariant
            n == token@.len(),
            i <= n,
            forall|j: int| 0 <= j < i ==> token@[j] != '\0',
        decreases n - i,
    {
        if token.get_char(i) == '\0' {
            assert(token@.contains('\0'));
            return false;
        }
        i += 1;
    }
    assert(!token@.contains('\0'));
    let segs = split_on(token, '/');
    let dot = String::from_str(".");
    let dotdot = String::from_str("..");
    let mut k: usize = 0;
    while k < segs.len()
        invariant
            segs.deep_view() == split_chars(token@, '/'),
            k <= segs.len(),
            dot@ == "."@,
            dotdot@ == ".."@,
            forall|j: int|
                0 <= j < k ==> valid_segment(#[trigger] split_chars(token@, '/')[j]),
        decreases segs.len() - k,
    {
        let seg = &segs[k];
        proof {
            assert(segs.deep_view()[k as int] == segs@[k as int]@);
        }
        if seg.unicode_len() == 0 || seg.eq(&dot) || seg.eq(&dotdot) {
            assert(!valid_segment(split_chars(token@, '/')[k as int]));
            return false;
        }
        k += 1;
    }
    true
}

/// Resolves `token` against the configured root: validation, sandboxing and
/// the push-permission check, with the answer pinned to [`spec_resolve`].
/// The existence of the repository on disk is confirmed separately by
/// [`confirm_repository`].
pub fn resolve(config: &ResolverConfig, token: &str, mode: AccessMode) -> (r: Result<
    ResolvedRepository,
    ResolveError,
>)
    ensures
        resolve_model(r) == spec_resolve(config.root@, config.allow_push, token@, mode),
        r is Err ==> r->Err_0 == ResolveError::AccessDenied,
{
    if !path_token_ok(token) {
        return Err(ResolveError::AccessDenied);
    }
    let is_push = match mode {
        AccessMode::Push => true,
        AccessMode::Fetch => false,
    };
    if is_push && !config.allow_push {
        return Err(ResolveError::AccessDenied);
    }
    let mut path = config.root.clone();
    path.append("/");
    path.append(token);
    proof {
        reveal_strlit("/");
        assert(path@ =~= resolved_path(config.root@, token@));
    }
    Ok(ResolvedRepository { absolute_path: path, read_only: !is_push })
}

/// Second stage of resolution: the caller probes the filesystem for a Git
/// repository at the resolved path and hands the outcome back; a missing
/// repository is a resolution error, never a raw path.
pub fn confirm_repository(repo: ResolvedRepository, is_git_dir: bool) -> (r: Result<
    ResolvedRepository,
    ResolveError,
>)
    ensures
        is_git_dir ==> r == Ok::<ResolvedRepository, ResolveError>(repo),
        !is_git_dir ==> r == Err::<ResolvedRepository, ResolveError>(
            ResolveError::RepositoryNotFound,
        ),
{
    if is_git_dir {
        Ok(repo)
    } else {
        Err(ResolveError::RepositoryNotFound)
    }
}

/// A token with a parent-directory or empty segment never resolves: the
/// resolver answers `AccessDenied` and hands back no path.
pub proof fn lemma_traversal_rejected(
    root: Seq<char>,
    allow_push: bool,
    token: Seq<char>,
    mode: AccessMode,
)
    requires
        exists|k: int|
            0 <= k < split_chars(token, '/').len() && (split_chars(token, '/')[k] == ".."@
                || split_chars(token, '/')[k].len() == 0),
    ensures
        spec_resolve(root, allow_push, token, mode) == Err::<(Seq<char>, bool), ResolveError>(
            ResolveError::AccessDenied,
        ),
{
    let k = choose|k: int|
        0 <= k < split_chars(token, '/').len() && (split_chars(token, '/')[k] == ".."@
            || split_chars(token, '/')[k].len() == 0);
    assert(!valid_segment(split_chars(token, '/')[k]));
    assert(!valid_path_token(token));
}

/// Resolution is idempotent: two answers for the same configuration, token
/// and mode carry the same repository value.
pub proof fn lemma_resolve_idempotent(
    root: Seq<char>,
    allow_push: bool,
    token: Seq<char>,
    mode: AccessMode,
    first: Result<ResolvedRepository, ResolveError>,
    second: Result<ResolvedRepository, ResolveError>,
)
    requires
        resolve_model(first) == spec_resolve(root, allow_push, token, mode),
        resolve_model(second) == spec_resolve(root, allow_push, token, mode),
    ensures
        resolve_model(first) == resolve_model(second),
{
}

} // verus!
