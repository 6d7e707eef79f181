//! From the command word to what the run does, and from how it ends to the
//! status that the process exits with.

use crate::error::{ErrorKind, SyncError, SyncErrorView};
use crate::text::same_text;
use vstd::prelude::*;

verus! {

/// The command of a run.
#[derive(Debug, PartialEq, Eq)]
pub enum Command {
    /// Show where the per-user configuration lies.
    Global,
    /// Write the manifest of a fresh project.
    Init,
    /// Bring the vendor directory in line with the manifest.
    Update,
    /// Any other word.
    Unknown(String),
}

/// `Command` as a plain value.
pub enum CommandView {
    Global,
    Init,
    Update,
    Unknown(Seq<char>),
}

impl View for Command {
    type V = CommandView;

    open spec fn view(&self) -> CommandView {
        match self {
            Command::Global => CommandView::Global,
            Command::Init => CommandView::Init,
            Command::Update => CommandView::Update,
            Command::Unknown(word) => CommandView::Unknown(word@),
        }
    }
}

/// The text in lower case, as `str::to_lowercase` gives it: every character
/// replaced by what the Unicode property `Lowercase` maps it to.
pub uninterp spec fn lowercased(text: Seq<char>) -> Seq<char>;

/// The text without the white space at its two ends, as `str::trim` gives
/// it; white space is what the Unicode property `White_Space` says.
pub uninterp spec fn trimmed(text: Seq<char>) -> Seq<char>;

/// Calls `str::to_lowercase`, which depends on the text alone and on no
/// locale. The contract only gives its result the name `lowercased`.
#[verifier::external_body]
fn to_lower(text: &str) -> (lowered: String)
    ensures
        lowered@ == lowercased(text@),
{
    text.to_lowercase()
}

/// Calls `str::trim`, which hands out the part of the text between its
/// leading and its trailing white space. The contract only gives its
/// result the name `trimmed`.
#[verifier::external_body]
fn trim_ends(text: &str) -> (inner: &str)
    ensures
        inner@ == trimmed(text@),
{
    text.trim()
}

/// The command word as the operator meant it: what was typed, in lower
/// case and without the white space around it.
pub fn command_word(raw: &str) -> (word: String)
    ensures
        word@ == trimmed(lowercased(raw@)),
{
    let lowered = to_lower(raw);
    trim_ends(lowered.as_str()).to_owned()
}

/// The command that a word names. The word is taken as it is: lower case
/// and without surrounding blanks is how the three commands are written.
pub open spec fn command_of(word: Seq<char>) -> CommandView {
    if word == "global"@ {
        CommandView::Global
    } else if word == "init"@ {
        CommandView::Init
    } else if word == "update"@ {
        CommandView::Update
    } else {
        CommandView::Unknown(word)
    }
}

/// The command that a word names.
pub fn recognize_command(word: &str) -> (command: Command)
    ensures
        command@ == command_of(word@),
{
    if same_text(word, "global") {
        Command::Global
    } else if same_text(word, "init") {
        Command::Init
    } else if same_text(word, "update") {
        Command::Update
    } else {
        Command::Unknown(word.to_owned())
    }
}

/// What a run sets out to do.
#[derive(Clone, Copy, Debug, PartialEq, Eq, Structural)]
pub enum Task {
    ShowConfigPath,
    WriteManifest,
    RunUpdate,
}

/// Why a run stops short.
#[derive(Debug, PartialEq, Eq)]
pub enum Refusal {
    /// An error; the process exits with status 1.
    Failed(SyncError),
    /// The command is none of the three; the process exits with status 2.
    UnknownCommand(String),
}

/// `Refusal` as a plain value.
pub enum RefusalView {
    Failed(SyncErrorView),
    UnknownCommand(Seq<char>),
}

impl View for Refusal {
    type V = RefusalView;

    open spec fn view(&self) -> RefusalView {
        match self {
            Refusal::Failed(error) => RefusalView::Failed(error@),
            Refusal::UnknownCommand(word) => RefusalView::UnknownCommand(word@),
        }
    }
}

/// What is reported where `init` finds a manifest in place.
pub open spec fn already_initialized_error() -> SyncErrorView {
    SyncErrorView { kind: ErrorKind::ManifestError, detail: "Already initialized"@ }
}

/// What is reported where `update` finds no manifest.
pub open spec fn missing_manifest_error() -> SyncErrorView {
    SyncErrorView { kind: ErrorKind::ManifestError, detail: "no manifest to update from"@ }
}

/// What a run sets out to do, given its command and whether the manifest
/// exists. `init` refuses to touch a manifest that is there, and `update`
/// refuses to start without one, before anything is written.
pub open spec fn task_of(command: CommandView, manifest_exists: bool) -> Result<
    Task,
    RefusalView,
> {
    match command {
        CommandView::Global => Ok(Task::ShowConfigPath),
        CommandView::Init => if manifest_exists {
            Err(RefusalView::Failed(already_initialized_error()))
        } else {
            Ok(Task::WriteManifest)
        },
        CommandView::Update => if manifest_exists {
            Ok(Task::RunUpdate)
        } else {
            Err(RefusalView::Failed(missing_manifest_error()))
        },
        CommandView::Unknown(word) => Err(RefusalView::UnknownCommand(word)),
    }
}

/// Decides what a run sets out to do.
pub fn choose_task(command: &Command, manifest_exists: bool) -> (task: Result<Task, Refusal>)
    ensures
        match task {
            Ok(task) => task_of(command@, manifest_exists) == Ok::<Task, RefusalView>(task),
            Err(refusal) => task_of(command@, manifest_exists) == Err::<Task, RefusalView>(
                refusal@,
            ),
        },
{
    match command {
        Command::Global => Ok(Task::ShowConfigPath),
        Command::Init => {
            if manifest_exists {
                Err(
                    Refusal::Failed(
                        SyncError::new(ErrorKind::ManifestError, "Already initialized"),
                    ),
                )
            } else {
                Ok(Task::WriteManifest)
            }
        },
        Command::Update => {
            if manifest_exists {
                Ok(Task::RunUpdate)
            } else {
                Err(
                    Refusal::Failed(
                        SyncError::new(ErrorKind::ManifestError, "no manifest to update from"),
                    ),
                )
            }
        },
        Command::Unknown(word) => Err(Refusal::UnknownCommand(word.clone())),
    }
}

/// The status that the process exits with after a refusal: 2 for an
/// unknown command, 1 for every error.
pub open spec fn status_of(refusal: RefusalView) -> u8 {
    match refusal {
        RefusalView::Failed(_) => 1,
        RefusalView::UnknownCommand(_) => 2,
    }
}

/// The status that the process exits with after a refusal. It is never 0,
/// which is the status of a run that went through.
pub fn exit_status(refusal: &Refusal) -> (status: u8)
    ensures
        status == status_of(refusal@),
        status != 0,
{
    match refusal {
        Refusal::Failed(_) => 1,
        Refusal::UnknownCommand(_) => 2,
    }
}

/// The line shown to the operator after a refusal.
pub open spec fn notice_of(refusal: RefusalView) -> Seq<char> {
    match refusal {
        RefusalView::Failed(error) => SyncError::label(error.kind) + ": "@ + error.detail,
        RefusalView::UnknownCommand(word) => "Unknown command: \""@ + word + "\""@,
    }
}

/// The line shown to the operator after a refusal.
pub fn notice(refusal: &Refusal) -> (line: String)
    ensures
        line@ == notice_of(refusal@),
{
    match refusal {
        Refusal::Failed(error) => error.message(),
        Refusal::UnknownCommand(word) => {
            let mut line = "Unknown command: \"".to_owned();
            line.append(word.as_str());
            line.append("\"");
            line
        },
    }
}

/// `init` never overwrites a manifest, and `update` never starts without
/// one: with the manifest in place `init` is refused with status 1, and
/// without it `update` is refused with a status other than 0.
pub proof fn lemma_manifest_guards(manifest_exists: bool)
    ensures
        manifest_exists ==> task_of(CommandView::Init, manifest_exists) is Err && status_of(
            task_of(CommandView::Init, manifest_exists)->Err_0,
        ) == 1,
        !manifest_exists ==> task_of(CommandView::Update, manifest_exists) is Err && status_of(
            task_of(CommandView::Update, manifest_exists)->Err_0,
        ) != 0,
        task_of(CommandView::Init, manifest_exists) == Ok::<Task, RefusalView>(
            Task::WriteManifest,
        ) <==> !manifest_exists,
        task_of(CommandView::Update, manifest_exists) == Ok::<Task, RefusalView>(Task::RunUpdate)
            <==> manifest_exists,
{
}

} // verus!
