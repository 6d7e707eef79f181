use depsync::cli::{
    choose_task, command_word, exit_status, notice, recognize_command, Command, Refusal, Task,
};
use depsync::error::{ErrorKind, SyncError};

#[test]
fn three_words_name_commands() {
    assert_eq!(recognize_command("global"), Command::Global);
    assert_eq!(recognize_command("init"), Command::Init);
    assert_eq!(recognize_command("update"), Command::Update);
}

#[test]
fn any_other_word_is_unknown() {
    for word in ["", "Init", " init", "updates", "help"] {
        assert_eq!(recognize_command(word), Command::Unknown(word.to_string()));
    }
}

#[test]
fn global_shows_the_configuration_path() {
    assert_eq!(choose_task(&Command::Global, false).unwrap(), Task::ShowConfigPath);
    assert_eq!(choose_task(&Command::Global, true).unwrap(), Task::ShowConfigPath);
}

#[test]
fn init_refuses_to_touch_an_existing_manifest() {
    assert_eq!(choose_task(&Command::Init, false).unwrap(), Task::WriteManifest);
    let refusal = choose_task(&Command::Init, true).unwrap_err();
    assert_eq!(
        refusal,
        Refusal::Failed(SyncError::new(ErrorKind::ManifestError, "Already initialized"))
    );
    assert_eq!(exit_status(&refusal), 1);
    assert_eq!(notice(&refusal), "ManifestError: Already initialized");
}

#[test]
fn update_refuses_to_start_without_a_manifest() {
    assert_eq!(choose_task(&Command::Update, true).unwrap(), Task::RunUpdate);
    let refusal = choose_task(&Command::Update, false).unwrap_err();
    assert_eq!(
        refusal,
        Refusal::Failed(SyncError::new(ErrorKind::ManifestError, "no manifest to update from"))
    );
    assert_ne!(exit_status(&refusal), 0);
    assert_eq!(exit_status(&refusal), 1);
}

#[test]
fn unknown_command_exits_with_status_two() {
    let command = recognize_command("frobnicate");
    for exists in [false, true] {
        let refusal = choose_task(&command, exists).unwrap_err();
        assert_eq!(refusal, Refusal::UnknownCommand("frobnicate".to_string()));
        assert_eq!(exit_status(&refusal), 2);
        assert_eq!(notice(&refusal), "Unknown command: \"frobnicate\"");
    }
}

#[test]
fn every_error_exits_with_status_one() {
    let kinds = [
        ErrorKind::ConfigError,
        ErrorKind::ManifestError,
        ErrorKind::ResolutionError,
        ErrorKind::AuthError,
        ErrorKind::BackendError,
        ErrorKind::EnvironmentError,
    ];
    for kind in kinds {
        let refusal = Refusal::Failed(SyncError::new(kind, "x"));
        assert_eq!(exit_status(&refusal), 1);
        assert_eq!(notice(&refusal), SyncError::new(kind, "x").message());
    }
}

#[test]
fn command_word_is_lowered_and_trimmed() {
    assert_eq!(command_word("init"), "init");
    assert_eq!(command_word("  Update\n"), "update");
    assert_eq!(command_word("GLOBAL"), "global");
    assert_eq!(command_word("\t \u{00a0}"), "");
    assert_eq!(command_word(""), "");
    assert_eq!(command_word(" Two Words "), "two words");
    assert_eq!(command_word("ÉTÉ"), "été");
}

#[test]
fn typed_word_in_any_case_names_its_command() {
    assert_eq!(recognize_command(&command_word(" INIT ")), Command::Init);
    assert_eq!(recognize_command(&command_word("Update")), Command::Update);
    assert_eq!(recognize_command(&command_word("global\n")), Command::Global);
    assert_eq!(
        recognize_command(&command_word(" Fetch ")),
        Command::Unknown("fetch".to_string())
    );
}
