use depsync::error::ErrorKind;
use depsync::url::{derive_url, resolve_url};

#[test]
fn bare_host_gets_the_git_user() {
    assert_eq!(derive_url("example.com", "team/lib"), "git@example.com:team/lib");
}

#[test]
fn server_with_user_is_taken_as_it_is() {
    assert_eq!(derive_url("git@example.com", "team/lib"), "git@example.com:team/lib");
    assert_eq!(derive_url("ann@example.com", "team/lib"), "ann@example.com:team/lib");
}

#[test]
fn server_with_scheme_gets_the_git_user_behind_the_scheme() {
    assert_eq!(
        derive_url("https://example.com", "team/lib"),
        "https://git@example.com:team/lib"
    );
    assert_eq!(derive_url("ssh://example.com", "x"), "ssh://git@example.com:x");
}

#[test]
fn server_with_scheme_and_user_is_taken_as_it_is() {
    assert_eq!(
        derive_url("ssh://git@example.com", "team/lib"),
        "ssh://git@example.com:team/lib"
    );
}

#[test]
fn host_is_all_that_follows_the_first_scheme_separator() {
    assert_eq!(derive_url("a://b://c", "r"), "a://git@b://c:r");
    assert_eq!(derive_url("://host", "r"), "://git@host:r");
    assert_eq!(derive_url("scheme://", "r"), "scheme://git@:r");
}

#[test]
fn empty_parts_are_put_together_all_the_same() {
    assert_eq!(derive_url("", ""), "git@:");
    assert_eq!(derive_url("host", ""), "git@host:");
}

#[test]
fn explicit_url_is_used_verbatim() {
    assert_eq!(
        resolve_url(None, None, Some("https://host/x.git")).unwrap(),
        "https://host/x.git"
    );
    assert_eq!(
        resolve_url(Some("example.com"), None, Some("file:///srv/x")).unwrap(),
        "file:///srv/x"
    );
    assert_eq!(
        resolve_url(Some("example.com"), Some("team/lib"), Some("ann@h:x")).unwrap(),
        "ann@h:x"
    );
    assert_eq!(resolve_url(None, Some("team/lib"), Some("ann@h:x")).unwrap(), "ann@h:x");
}

#[test]
fn shorthand_is_resolved_against_the_server() {
    assert_eq!(
        resolve_url(Some("example.com"), Some("team/lib"), None).unwrap(),
        "git@example.com:team/lib"
    );
}

#[test]
fn missing_url_is_a_resolution_error() {
    for (server, repo) in [(None, None), (Some("example.com"), None), (None, Some("team/lib"))] {
        let error = resolve_url(server, repo, None).unwrap_err();
        assert_eq!(error.kind, ErrorKind::ResolutionError);
        assert_eq!(error.detail, "no git url or path");
    }
}
