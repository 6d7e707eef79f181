use depsync::error::ErrorKind;
use depsync::expand::{expand_part, normalize};
use depsync::systools::{Environment, Platform};

fn unix_env() -> Environment {
    let mut env = Environment::new();
    env.define("HOME", "/home/ann");
    env.define("KEYS", "keys");
    env.define("EMPTY", "");
    env
}

fn windows_env() -> Environment {
    let mut env = Environment::new();
    env.define("USERPROFILE", "C:\\Users\\ann");
    env.define("KEYS", "keys");
    env
}

#[test]
fn literal_path_is_unchanged() {
    let env = unix_env();
    for path in ["", "/", "a", "/etc/ssh/id_rsa", "a//b/", "relative/path", "C:\\x\\y", "a~/b", "x$y/z"] {
        assert_eq!(normalize(path, Platform::Unix, &env).unwrap(), path);
    }
}

#[test]
fn dollar_element_stands_for_its_variable() {
    let env = unix_env();
    assert_eq!(
        normalize("$HOME/.ssh/id_rsa", Platform::Unix, &env).unwrap(),
        "/home/ann/.ssh/id_rsa"
    );
    assert_eq!(normalize("/srv/$KEYS/id", Platform::Unix, &env).unwrap(), "/srv/keys/id");
    assert_eq!(normalize("a/$EMPTY/b", Platform::Unix, &env).unwrap(), "a//b");
}

#[test]
fn percent_element_stands_for_its_variable() {
    let env = windows_env();
    assert_eq!(
        normalize("%USERPROFILE%\\.ssh\\id_rsa", Platform::Windows, &env).unwrap(),
        "C:\\Users\\ann\\.ssh\\id_rsa"
    );
    assert_eq!(normalize("x/%KEYS%/y", Platform::Windows, &env).unwrap(), "x/keys/y");
}

#[test]
fn tilde_element_stands_for_the_home_directory() {
    assert_eq!(
        normalize("~/.ssh/id_rsa.pub", Platform::Unix, &unix_env()).unwrap(),
        "/home/ann/.ssh/id_rsa.pub"
    );
    assert_eq!(
        normalize("~\\.ssh", Platform::Windows, &windows_env()).unwrap(),
        "C:\\Users\\ann\\.ssh"
    );
    assert_eq!(normalize("~", Platform::Unix, &unix_env()).unwrap(), "/home/ann");
}

#[test]
fn slash_wins_over_backslash_as_separator() {
    let env = unix_env();
    assert_eq!(normalize("$KEYS\\x/y", Platform::Unix, &env).unwrap_err().detail, "variable not set: KEYS\\x");
    assert_eq!(normalize("a\\$KEYS/y", Platform::Unix, &env).unwrap(), "a\\$KEYS/y");
    assert_eq!(normalize("a\\$KEYS\\y", Platform::Unix, &env).unwrap(), "a\\keys\\y");
}

#[test]
fn unset_variable_is_an_environment_error() {
    let env = unix_env();
    let error = normalize("$NOWHERE/x", Platform::Unix, &env).unwrap_err();
    assert_eq!(error.kind, ErrorKind::EnvironmentError);
    assert_eq!(error.detail, "variable not set: NOWHERE");
    let error = normalize("x/%NOWHERE%", Platform::Unix, &env).unwrap_err();
    assert_eq!(error.kind, ErrorKind::EnvironmentError);
    assert_eq!(error.detail, "variable not set: NOWHERE");
    let error = normalize("~/x", Platform::Windows, &env).unwrap_err();
    assert_eq!(error.kind, ErrorKind::EnvironmentError);
    assert_eq!(error.detail, "variable not set: USERPROFILE");
}

#[test]
fn first_unset_variable_from_the_left_is_reported() {
    let env = unix_env();
    let error = normalize("$A/$HOME/$B", Platform::Unix, &env).unwrap_err();
    assert_eq!(error.detail, "variable not set: A");
    let error = normalize("$HOME/$B/$A", Platform::Unix, &env).unwrap_err();
    assert_eq!(error.detail, "variable not set: B");
}

#[test]
fn elements_with_empty_names_refer_to_the_variable_without_name() {
    let env = unix_env();
    assert_eq!(normalize("$", Platform::Unix, &env).unwrap_err().detail, "variable not set: ");
    assert_eq!(normalize("a/%%", Platform::Unix, &env).unwrap_err().detail, "variable not set: ");
    let mut named = Environment::new();
    named.define("", "blank");
    assert_eq!(normalize("a/%%/$", Platform::Unix, &named).unwrap(), "a/blank/blank");
}

#[test]
fn single_percent_sign_is_literal() {
    let env = unix_env();
    assert_eq!(normalize("%", Platform::Unix, &env).unwrap(), "%");
    assert_eq!(normalize("a/%/b", Platform::Unix, &env).unwrap(), "a/%/b");
    assert_eq!(normalize("%KEYS", Platform::Unix, &env).unwrap(), "%KEYS");
    assert_eq!(normalize("KEYS%", Platform::Unix, &env).unwrap(), "KEYS%");
}

#[test]
fn dollar_is_looked_at_before_percent() {
    let mut env = Environment::new();
    env.define("X%", "dollar");
    assert_eq!(normalize("$X%", Platform::Unix, &env).unwrap(), "dollar");
}

#[test]
fn one_element_expands_on_its_own() {
    let env = unix_env();
    assert_eq!(expand_part("$KEYS", Platform::Unix, &env).unwrap(), "keys");
    assert_eq!(expand_part("%KEYS%", Platform::Unix, &env).unwrap(), "keys");
    assert_eq!(expand_part("~", Platform::Unix, &env).unwrap(), "/home/ann");
    assert_eq!(expand_part("~x", Platform::Unix, &env).unwrap(), "~x");
    assert_eq!(expand_part("", Platform::Unix, &env).unwrap(), "");
    assert_eq!(expand_part("plain", Platform::Unix, &env).unwrap(), "plain");
    assert_eq!(
        expand_part("$MISSING", Platform::Unix, &env).unwrap_err().kind,
        ErrorKind::EnvironmentError
    );
}
