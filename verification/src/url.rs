//! From what a manifest says of a remote dependency to the URL to clone.

use crate::error::{ErrorKind, SyncError, SyncErrorView};
use crate::text::{
    find_text,
    first_occurrence,
    is_first_occurrence,
    lemma_first_occurrence,
    lemma_least_occurrence,
    occurs_at,
    occurs_in,
    option_text,
};
use vstd::prelude::*;

verus! {

/// The URL of the repository `repo` on the project's git server.
///
/// A server that already names a user (it holds `@`) is taken as it is. A
/// server with a scheme (it holds `://`) gets the user `git` between the
/// scheme and the host, the host being all that follows the first `://`.
/// Any other server is taken as a host, and gets the user `git` in front.
pub open spec fn derived_url(server: Seq<char>, repo: Seq<char>) -> Seq<char> {
    if occurs_in(server, "@"@) {
        server + ":"@ + repo
    } else if occurs_in(server, "://"@) {
        let at = first_occurrence(server, "://"@);
        server.subrange(0, at) + "://git@"@ + server.subrange(at + 3, server.len() as int) + ":"@
            + repo
    } else {
        "git@"@ + server + ":"@ + repo
    }
}

/// The URL of a remote dependency, if the manifest says enough to have one:
/// an explicit URL stands for itself, else the repository shorthand is
/// resolved against the project's git server.
pub open spec fn resolved_url(
    server: Option<Seq<char>>,
    repo: Option<Seq<char>>,
    git: Option<Seq<char>>,
) -> Option<Seq<char>> {
    match git {
        Some(url) => Some(url),
        None => match (server, repo) {
            (Some(server), Some(repo)) => Some(derived_url(server, repo)),
            _ => None,
        },
    }
}

/// What is reported where a remote dependency has no URL.
pub open spec fn no_url_error() -> SyncErrorView {
    SyncErrorView { kind: ErrorKind::ResolutionError, detail: "no git url or path"@ }
}

/// The URL of the repository `repo` on the project's git server.
pub fn derive_url(server: &str, repo: &str) -> (url: String)
    ensures
        url@ == derived_url(server@, repo@),
{
    proof {
        reveal_strlit("@");
        reveal_strlit("://");
    }
    let mut url = String::new();
    if find_text(server, "@").is_some() {
        url.append(server);
    } else {
        match find_text(server, "://") {
            Some(at) => {
                let end: usize = server.unicode_len();
                proof {
                    lemma_first_occurrence(server@, "://"@, at as int);
                    assert(at + 3 <= end);
                }
                url.append(server.substring_char(0, at));
                url.append("://git@");
                url.append(server.substring_char(at + 3, end));
            },
            None => {
                url.append("git@");
                url.append(server);
            },
        }
    }
    url.append(":");
    url.append(repo);
    url
}

/// The URL of a remote dependency, or `ResolutionError` where the manifest
/// gives neither an explicit URL nor a repository together with a server.
pub fn resolve_url(server: Option<&str>, repo: Option<&str>, git: Option<&str>) -> (url: Result<
    String,
    SyncError,
>)
    ensures
        match url {
            Ok(url) => resolved_url(option_text(server), option_text(repo), option_text(git))
                == Some(url@),
            Err(error) => {
                &&& resolved_url(option_text(server), option_text(repo), option_text(git)) is None
                &&& error@ == no_url_error()
            },
        },
{
    match git {
        Some(url) => Ok(url.to_owned()),
        None => match (server, repo) {
            (Some(server), Some(repo)) => Ok(derive_url(server, repo)),
            _ => Err(SyncError::new(ErrorKind::ResolutionError, "no git url or path")),
        },
    }
}

/// Every derived URL names a user: it holds `@`.
pub proof fn lemma_derived_url_names_user(server: Seq<char>, repo: Seq<char>)
    ensures
        occurs_in(derived_url(server, repo), "@"@),
{
    reveal_strlit("@");
    reveal_strlit("://");
    reveal_strlit("://git@");
    reveal_strlit("git@");
    reveal_strlit(":");
    let url = derived_url(server, repo);
    let at_sign = "@"@;
    if occurs_in(server, at_sign) {
        let i = choose|i: int| occurs_at(server, at_sign, i);
        assert(url.subrange(i, i + 1) =~= at_sign);
        assert(occurs_at(url, at_sign, i));
    } else if occurs_in(server, "://"@) {
        let at = first_occurrence(server, "://"@);
        assert(is_first_occurrence(server, "://"@, at)) by {
            let k = choose|k: int| occurs_at(server, "://"@, k);
            lemma_least_occurrence(server, "://"@, k);
        }
        assert(url.subrange(at + 6, at + 7) =~= at_sign);
        assert(occurs_at(url, at_sign, at + 6));
    } else {
        assert(url.subrange(3, 4) =~= at_sign);
        assert(occurs_at(url, at_sign, 3));
    }
}

/// Every derived URL ends with a colon and the repository.
pub proof fn lemma_derived_url_ends_with_repo(server: Seq<char>, repo: Seq<char>)
    ensures
        exists|front: Seq<char>| derived_url(server, repo) == front + ":"@ + repo,
{
    let url = derived_url(server, repo);
    if occurs_in(server, "@"@) {
        assert(url == server + ":"@ + repo);
    } else if occurs_in(server, "://"@) {
        let at = first_occurrence(server, "://"@);
        let front = server.subrange(0, at) + "://git@"@ + server.subrange(
            at + 3,
            server.len() as int,
        );
        assert(url == front + ":"@ + repo);
    } else {
        assert(url == ("git@"@ + server) + ":"@ + repo);
    }
}

} // verus!
