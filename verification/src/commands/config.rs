//! The configuration commands. A command never touches the disk, the
//! environment or a terminal itself: it is asked what comes next, given what
//! the host has observed so far, and answers with a request to the host or
//! with the command's outcome.

use crate::config::{
    loaded, saved, ConfigFile, ConfigView, SavePlan, SavePlanView, ScillaConfig,
};
use crate::error::{ConfigError, ErrorView};
use crate::path::{config_path, scilla_config_path};
use vstd::prelude::*;

verus! {

/// Commands related to the configuration: the endpoint, the keypair path and
/// the commitment level.
#[derive(Clone, Copy, Debug, PartialEq, Eq, Structural)]
pub enum ConfigCommand {
    Show,
    Generate,
    Edit,
    GoBack,
}

/// What the host has observed while it carries a command out. Each request
/// fills one of the fields; a field is `None` until then.
#[derive(Debug, PartialEq, Eq)]
pub struct Observations {
    /// Whether a file is there at the configuration path.
    pub exists: Option<bool>,
    /// What loading the file found.
    pub file: Option<ConfigFile>,
    /// How the writing of a save plan went: `Err` holds the host's message.
    pub written: Option<Result<(), String>>,
    /// The preferred editor: `Some(None)` where none is set.
    pub editor: Option<Option<String>>,
    /// How the start of the editor and the wait for its end went, whatever
    /// the editor's own exit status was: `Err` holds the host's message.
    pub spawned: Option<Result<(), String>>,
}

/// What a command asks of the host.
#[derive(Debug, PartialEq, Eq)]
pub enum Request {
    /// Look whether a file is there at `path`; fills `exists`.
    Exists { path: String },
    /// Look again whether a file is there at `path` and, if so, read it;
    /// fills `file`.
    Load { path: String },
    /// Carry the save plan out; fills `written`.
    Save(SavePlan),
    /// Look the preferred editor up; fills `editor`.
    EditorSetting,
    /// Run `program` with `argument` as its only argument and wait for it to
    /// end; fills `spawned`.
    RunEditor { program: String, argument: String },
}

/// A `Request` as contracts speak of it.
pub enum RequestView {
    Exists { path: Seq<char> },
    Load { path: Seq<char> },
    Save(SavePlanView),
    EditorSetting,
    RunEditor { program: Seq<char>, argument: Seq<char> },
}

impl View for Request {
    type V = RequestView;

    open spec fn view(&self) -> RequestView {
        match *self {
            Request::Exists { path } => RequestView::Exists { path: path@ },
            Request::Load { path } => RequestView::Load { path: path@ },
            Request::Save(plan) => RequestView::Save(plan@),
            Request::EditorSetting => RequestView::EditorSetting,
            Request::RunEditor { program, argument } => RequestView::RunEditor {
                program: program@,
                argument: argument@,
            },
        }
    }
}

/// What a command that went through has to tell the user.
#[derive(Debug, PartialEq, Eq)]
pub enum Notice {
    /// There is no configuration at `path` yet; `Generate` makes one.
    NotFound { path: String },
    /// The configuration found at `path`.
    Current { config: ScillaConfig, path: String },
    /// A configuration is there at `path` already and was left as it is;
    /// `Show` displays it and `Edit` changes it.
    AlreadyExists { path: String },
    /// A fresh configuration was written to `path`.
    Created { path: String },
    /// There is no configuration to edit yet; `Generate` makes one.
    NothingToEdit,
    /// The editor has run; the configuration may have changed, and the tool
    /// must be started again for a change to take effect.
    Edited,
    /// No preferred editor is set; the configuration at `path` can be opened
    /// by hand.
    EditorNotSet { path: String },
}

/// A `Notice` as contracts speak of it.
pub enum NoticeView {
    NotFound { path: Seq<char> },
    Current { config: ConfigView, path: Seq<char> },
    AlreadyExists { path: Seq<char> },
    Created { path: Seq<char> },
    NothingToEdit,
    Edited,
    EditorNotSet { path: Seq<char> },
}

impl View for Notice {
    type V = NoticeView;

    open spec fn view(&self) -> NoticeView {
        match *self {
            Notice::NotFound { path } => NoticeView::NotFound { path: path@ },
            Notice::Current { config, path } => NoticeView::Current { config: config@, path: path@ },
            Notice::AlreadyExists { path } => NoticeView::AlreadyExists { path: path@ },
            Notice::Created { path } => NoticeView::Created { path: path@ },
            Notice::NothingToEdit => NoticeView::NothingToEdit,
            Notice::Edited => NoticeView::Edited,
            Notice::EditorNotSet { path } => NoticeView::EditorNotSet { path: path@ },
        }
    }
}

/// How a command ended.
#[derive(Debug, PartialEq, Eq)]
pub enum Outcome {
    /// The user wants to go back to the menu above.
    GoBack,
    /// The command went through.
    Processed(Notice),
    /// The command failed; the session goes on.
    Failed(ConfigError),
}

/// An `Outcome` as contracts speak of it.
pub enum OutcomeView {
    GoBack,
    Processed(NoticeView),
    Failed(ErrorView),
}

impl View for Outcome {
    type V = OutcomeView;

    open spec fn view(&self) -> OutcomeView {
        match *self {
            Outcome::GoBack => OutcomeView::GoBack,
            Outcome::Processed(notice) => OutcomeView::Processed(notice@),
            Outcome::Failed(error) => OutcomeView::Failed(error@),
        }
    }
}

/// What comes next in a command.
#[derive(Debug, PartialEq, Eq)]
pub enum Progress {
    /// The host is to do this and to note what it observed.
    Ask(Request),
    /// The command has ended.
    Done(Outcome),
}

/// A `Progress` as contracts speak of it.
pub enum ProgressView {
    Ask(RequestView),
    Done(OutcomeView),
}

impl View for Progress {
    type V = ProgressView;

    open spec fn view(&self) -> ProgressView {
        match *self {
            Progress::Ask(request) => ProgressView::Ask(request@),
            Progress::Done(outcome) => ProgressView::Done(outcome@),
        }
    }
}

/// `Show`: without a file, the notice that none was found; with one, the
/// configuration it holds, or the reason it holds none.
pub open spec fn shown(home: Seq<char>, seen: Observations) -> ProgressView {
    let path = config_path(home);
    match seen.exists {
        None => ProgressView::Ask(RequestView::Exists { path }),
        Some(false) => ProgressView::Done(OutcomeView::Processed(NoticeView::NotFound { path })),
        Some(true) => match seen.file {
            None => ProgressView::Ask(RequestView::Load { path }),
            Some(file) => match loaded(file) {
                Ok(config) => ProgressView::Done(
                    OutcomeView::Processed(NoticeView::Current { config, path }),
                ),
                Err(error) => ProgressView::Done(OutcomeView::Failed(error)),
            },
        },
    }
}

/// `Generate`: with a file, the notice that it was left alone; without one,
/// the saving of a fresh configuration, and then the notice that it was
/// written or the reason it was not.
pub open spec fn generated(home: Seq<char>, seen: Observations) -> ProgressView {
    let path = config_path(home);
    match seen.exists {
        None => ProgressView::Ask(RequestView::Exists { path }),
        Some(true) => ProgressView::Done(
            OutcomeView::Processed(NoticeView::AlreadyExists { path }),
        ),
        Some(false) => match saved(ConfigView::fresh(home), home) {
            Err(error) => ProgressView::Done(OutcomeView::Failed(error)),
            Ok(plan) => match seen.written {
                None => ProgressView::Ask(RequestView::Save(plan)),
                Some(Ok(_)) => ProgressView::Done(
                    OutcomeView::Processed(NoticeView::Created { path }),
                ),
                Some(Err(message)) => ProgressView::Done(
                    OutcomeView::Failed(ErrorView::Io(message@)),
                ),
            },
        },
    }
}

/// `Edit`: without a file, the notice that there is nothing to edit; with
/// one and no editor set, the notice that names the path; with an editor,
/// its run on the configuration path, and then the notice that it ran or the
/// reason it could not.
pub open spec fn edited(home: Seq<char>, seen: Observations) -> ProgressView {
    let path = config_path(home);
    match seen.exists {
        None => ProgressView::Ask(RequestView::Exists { path }),
        Some(false) => ProgressView::Done(OutcomeView::Processed(NoticeView::NothingToEdit)),
        Some(true) => match seen.editor {
            None => ProgressView::Ask(RequestView::EditorSetting),
            Some(None) => ProgressView::Done(
                OutcomeView::Processed(NoticeView::EditorNotSet { path }),
            ),
            Some(Some(program)) => match seen.spawned {
                None => ProgressView::Ask(
                    RequestView::RunEditor { program: program@, argument: path },
                ),
                Some(Ok(_)) => ProgressView::Done(OutcomeView::Processed(NoticeView::Edited)),
                Some(Err(message)) => ProgressView::Done(
                    OutcomeView::Failed(ErrorView::Io(message@)),
                ),
            },
        },
    }
}

/// What comes next in a command, given what the host has observed.
pub open spec fn progress(
    command: ConfigCommand,
    home: Seq<char>,
    seen: Observations,
) -> ProgressView {
    match command {
        ConfigCommand::Show => shown(home, seen),
        ConfigCommand::Generate => generated(home, seen),
        ConfigCommand::Edit => edited(home, seen),
        ConfigCommand::GoBack => ProgressView::Done(OutcomeView::GoBack),
    }
}

impl Observations {
    /// Nothing observed yet.
    pub fn new() -> (seen: Observations)
        ensures
            seen.exists is None,
            seen.file is None,
            seen.written is None,
            seen.editor is None,
            seen.spawned is None,
    {
        Observations { exists: None, file: None, written: None, editor: None, spawned: None }
    }
}

impl ConfigCommand {
    /// Says what comes next in this command: a request to the host, who
    /// notes what it observed in `seen` and asks again, or the outcome.
    pub fn process_command(&self, home: &str, seen: &Observations) -> (next: Progress)
        ensures
            next@ == progress(*self, home@, *seen),
    {
        match self {
            ConfigCommand::Show => show_config(home, seen),
            ConfigCommand::Generate => generate_config(home, seen),
            ConfigCommand::Edit => edit_config(home, seen),
            ConfigCommand::GoBack => Progress::Done(Outcome::GoBack),
        }
    }
}

/// The next step of `Show`.
pub fn show_config(home: &str, seen: &Observations) -> (next: Progress)
    ensures
        next@ == shown(home@, *seen),
{
    let path = scilla_config_path(home);
    match seen.exists {
        None => Progress::Ask(Request::Exists { path }),
        Some(false) => Progress::Done(Outcome::Processed(Notice::NotFound { path })),
        Some(true) => match &seen.file {
            None => Progress::Ask(Request::Load { path }),
            Some(file) => match ScillaConfig::load(file) {
                Ok(config) => Progress::Done(Outcome::Processed(Notice::Current { config, path })),
                Err(error) => Progress::Done(Outcome::Failed(error)),
            },
        },
    }
}

/// The next step of `Generate`.
pub fn generate_config(home: &str, seen: &Observations) -> (next: Progress)
    ensures
        next@ == generated(home@, *seen),
{
    let path = scilla_config_path(home);
    match seen.exists {
        None => Progress::Ask(Request::Exists { path }),
        Some(true) => Progress::Done(Outcome::Processed(Notice::AlreadyExists { path })),
        Some(false) => {
            let default_config = ScillaConfig::default(home);
            match default_config.save(home) {
                Err(error) => Progress::Done(Outcome::Failed(error)),
                Ok(plan) => match &seen.written {
                    None => Progress::Ask(Request::Save(plan)),
                    Some(Ok(_)) => Progress::Done(Outcome::Processed(Notice::Created { path })),
                    Some(Err(message)) => Progress::Done(
                        Outcome::Failed(ConfigError::Io(message.clone())),
                    ),
                },
            }
        },
    }
}

/// The next step of `Edit`.
pub fn edit_config(home: &str, seen: &Observations) -> (next: Progress)
    ensures
        next@ == edited(home@, *seen),
{
    let path = scilla_config_path(home);
    match seen.exists {
        None => Progress::Ask(Request::Exists { path }),
        Some(false) => Progress::Done(Outcome::Processed(Notice::NothingToEdit)),
        Some(true) => match &seen.editor {
            None => Progress::Ask(Request::EditorSetting),
            Some(None) => Progress::Done(Outcome::Processed(Notice::EditorNotSet { path })),
            Some(Some(program)) => match &seen.spawned {
                None => Progress::Ask(
                    Request::RunEditor { program: program.clone(), argument: path },
                ),
                Some(Ok(_)) => Progress::Done(Outcome::Processed(Notice::Edited)),
                Some(Err(message)) => Progress::Done(
                    Outcome::Failed(ConfigError::Io(message.clone())),
                ),
            },
        },
    }
}

impl RequestView {
    /// Whether the field that the request fills is still empty.
    pub open spec fn awaited(self, seen: Observations) -> bool {
        match self {
            RequestView::Exists { .. } => seen.exists is None,
            RequestView::Load { .. } => seen.file is None,
            RequestView::Save(_) => seen.written is None,
            RequestView::EditorSetting => seen.editor is None,
            RequestView::RunEditor { .. } => seen.spawned is None,
        }
    }
}

/// A command asks only for what the host has not observed yet: a host that
/// notes each answer is never asked the same thing twice.
pub proof fn lemma_asks_for_the_unknown(command: ConfigCommand, home: Seq<char>, seen: Observations)
    ensures
        progress(command, home, seen) matches ProgressView::Ask(request) ==> request.awaited(seen),
{
}

/// Nothing on disk changes without cause. A save is asked for by `Generate`
/// alone, and only once the host has seen that no file is there; an editor
/// is run by `Edit` alone, and only once the host has seen that a file is
/// there and that an editor is set.
pub proof fn lemma_disk_changes_have_cause(command: ConfigCommand, home: Seq<char>, seen: Observations)
    ensures
        progress(command, home, seen) matches ProgressView::Ask(RequestView::Save(_)) ==> command
            == ConfigCommand::Generate && seen.exists == Some(false),
        progress(command, home, seen) matches ProgressView::Ask(RequestView::RunEditor { .. })
            ==> command == ConfigCommand::Edit && seen.exists == Some(true)
            && seen.editor matches Some(Some(_)),
{
}

/// `Show` and `Edit` without a configuration file go through: each ends at
/// once with a notice, not with a failure.
pub proof fn lemma_absence_is_no_failure(command: ConfigCommand, home: Seq<char>, seen: Observations)
    requires
        command == ConfigCommand::Show || command == ConfigCommand::Edit,
        seen.exists == Some(false),
    ensures
        command == ConfigCommand::Show ==> progress(command, home, seen) == ProgressView::Done(
            OutcomeView::Processed(NoticeView::NotFound { path: config_path(home) }),
        ),
        command == ConfigCommand::Edit ==> progress(command, home, seen) == ProgressView::Done(
            OutcomeView::Processed(NoticeView::NothingToEdit),
        ),
{
}

/// `Generate` twice in a row. The first run, on a host without a file whose
/// write succeeds, asks for the fresh configuration to be saved and ends with
/// the notice that it was created. The second run, on a host that sees the
/// file, ends with the notice that it exists already, whatever else the host
/// has observed: by `lemma_disk_changes_have_cause` it asks for no save, so
/// the file stays as the first run left it.
pub proof fn lemma_generate_twice(
    home: Seq<char>,
    asked: Observations,
    first: Observations,
    second: Observations,
)
    requires
        saved(ConfigView::fresh(home), home) is Ok,
        asked.exists == Some(false),
        asked.written is None,
        first.exists == Some(false),
        first.written matches Some(Ok(_)),
        second.exists == Some(true),
    ensures
        saved(ConfigView::fresh(home), home) matches Ok(plan) && progress(
            ConfigCommand::Generate,
            home,
            asked,
        ) == ProgressView::Ask(RequestView::Save(plan)),
        progress(ConfigCommand::Generate, home, first) == ProgressView::Done(
            OutcomeView::Processed(NoticeView::Created { path: config_path(home) }),
        ),
        progress(ConfigCommand::Generate, home, second) == ProgressView::Done(
            OutcomeView::Processed(NoticeView::AlreadyExists { path: config_path(home) }),
        ),
{
}

} // verus!
