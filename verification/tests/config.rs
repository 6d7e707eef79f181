use depsync::config::{
    bootstrap_config, global_config_path, ConfigBootstrap, Context, GeneralOptions, GlobalOptions,
    SshOptions,
};
use depsync::systools::Platform;

fn protected_options() -> GlobalOptions {
    GlobalOptions {
        general: GeneralOptions { default_lib_dir: "third_party".to_string() },
        ssh: Some(SshOptions {
            private: "~/.ssh/id_ed25519".to_string(),
            public: "~/.ssh/id_ed25519.pub".to_string(),
            protected: true,
        }),
    }
}

#[test]
fn fallback_names_the_default_key_pair_and_vendor_directory() {
    let unix = GlobalOptions::fallback(Platform::Unix);
    assert_eq!(unix.general.default_lib_dir, "VENDOR");
    let ssh = unix.ssh.unwrap();
    assert_eq!(ssh.private, "$HOME/.ssh/id_rsa");
    assert_eq!(ssh.public, "$HOME/.ssh/id_rsa.pub");
    assert!(!ssh.protected);
    let windows = GlobalOptions::fallback(Platform::Windows);
    let ssh = windows.ssh.unwrap();
    assert_eq!(ssh.private, "$USERPROFILE/.ssh/id_rsa");
    assert_eq!(ssh.public, "$USERPROFILE/.ssh/id_rsa.pub");
}

#[test]
fn fresh_context_runs_on_the_fallback() {
    let context = Context::new(Platform::Unix);
    assert_eq!(context.get_global_options(), GlobalOptions::fallback(Platform::Unix));
    assert_eq!(context.get_passphrase(), "");
    assert!(!context.wants_passphrase());
}

#[test]
fn context_hands_back_what_was_set() {
    let mut context = Context::new(Platform::Unix);
    context.set_global_options(&protected_options());
    assert_eq!(context.get_global_options(), protected_options());
    assert_eq!(context.platform, Platform::Unix);
    assert_eq!(context.passphrase, None);
    context.set_passphrase(&"s3cret".to_string());
    assert_eq!(context.get_passphrase(), "s3cret");
    assert_eq!(context.get_global_options(), protected_options());
    context.set_passphrase(&"other".to_string());
    assert_eq!(context.get_passphrase(), "other");
}

#[test]
fn passphrase_is_wanted_once_for_a_protected_key() {
    let mut context = Context::new(Platform::Unix);
    context.set_global_options(&protected_options());
    assert!(context.wants_passphrase());
    context.set_passphrase(&"".to_string());
    assert!(!context.wants_passphrase());
}

#[test]
fn passphrase_is_not_wanted_without_a_protected_key() {
    let mut open = protected_options();
    open.ssh.as_mut().unwrap().protected = false;
    let mut context = Context::new(Platform::Unix);
    context.set_global_options(&open);
    assert!(!context.wants_passphrase());
    let mut keyless = protected_options();
    keyless.ssh = None;
    context.set_global_options(&keyless);
    assert!(!context.wants_passphrase());
}

#[test]
fn configuration_file_lies_in_the_home_directory() {
    assert_eq!(global_config_path("/home/ann"), "/home/ann/.deprc");
    assert_eq!(global_config_path("/home/ann/"), "/home/ann/.deprc");
}

#[test]
fn bootstrap_depends_on_home_and_file() {
    assert_eq!(bootstrap_config(None, false), ConfigBootstrap::UseFallback);
    assert_eq!(bootstrap_config(None, true), ConfigBootstrap::UseFallback);
    assert_eq!(
        bootstrap_config(Some("/home/ann"), false),
        ConfigBootstrap::Create { path: "/home/ann/.deprc".to_string() }
    );
    assert_eq!(
        bootstrap_config(Some("/home/ann"), true),
        ConfigBootstrap::Load { path: "/home/ann/.deprc".to_string() }
    );
}
