//! The `bootstrap` command: the tool installs itself.
//!
//! An installation is a short conversation. The caller starts it with what
//! it knows of the machine, asks what to do, does it, and reports whether
//! it worked; this goes on until the installation is finished. Every
//! decision is made here: what is done in which order, what a failure
//! means, and whether the profile needs another line. The caller only
//! carries the requests out.
//!
//! The order never changes: the installation directory is made sure of,
//! then the executable is copied into it, then the directory is put on the
//! `PATH`. A step is asked for only after the one before it succeeded, and
//! nothing that was done is undone when a later step fails.

use vstd::prelude::*;
use vstd::string::*;
use vstd::utf8::encode_utf8;

use crate::binary::{file_name, file_name_of, planned, BinaryModel, InstalledBinary};
use crate::environment::home_directory;
use crate::error::InstallError;
use crate::platform::OperatingSystem;
use crate::profile::{
    entry, entry_for, is_registered, law_registration_adds_one_occurrence,
    law_registration_is_idempotent, occurrences, registered, updated,
};
use crate::registrar::{
    fits_one_line, law_target_line_keeps_to_one_line, registration, PathRegistration,
    RegistrationModel,
};
use crate::target::{resolved, InstallTarget, TargetModel};

verus! {

/// The arguments of the `bootstrap` command. It takes none.
#[derive(Debug)]
pub struct BootstrapArgs {}

/// How an installation ended.
#[derive(Clone, Copy, Debug, PartialEq, Eq, Structural)]
pub enum InstallOutcome {
    /// The `PATH` command was started. Shells that are open already do not
    /// see the new `PATH`: the user has to open a new one.
    Registered,
    /// The profile held the line already and was left as it was.
    Found,
    /// The line was added to the profile. It takes effect in a new shell,
    /// or once the profile is read again.
    Appended,
    /// A step did not succeed.
    Failed(InstallError),
}

impl InstallOutcome {
    /// The status with which the process should end: that of the error
    /// after a failure, and 0 otherwise.
    pub open spec fn status(self) -> int {
        match self {
            InstallOutcome::Failed(error) => error.status(),
            _ => 0,
        }
    }

    /// The status with which the process should end.
    pub fn exit_status(&self) -> (code: i32)
        ensures
            code == self.status(),
    {
        match self {
            InstallOutcome::Failed(error) => error.exit_status(),
            _ => 0,
        }
    }

    /// Whether the executable is in place: every step succeeded, or only
    /// the `PATH` command could not be started.
    pub open spec fn installed(self) -> bool {
        match self {
            InstallOutcome::Failed(error) => !error.fatal(),
            _ => true,
        }
    }

    /// Whether the executable is in place.
    pub fn is_installed(&self) -> (installed: bool)
        ensures
            installed == self.installed(),
    {
        match self {
            InstallOutcome::Failed(error) => !error.is_fatal(),
            _ => true,
        }
    }
}

/// What the caller reports after it carried out a request.
#[derive(Debug, PartialEq, Eq)]
pub enum InstallEvent {
    /// The request was carried out.
    Succeeded,
    /// The request could not be carried out.
    Failed,
    /// The profile was opened and read: these are its bytes.
    ProfileRead { content: Vec<u8> },
}

/// What an `InstallAction` stands for.
pub enum ActionModel {
    EnsureDirectory { path: Seq<char> },
    CopyBinary { source: Seq<char>, destination: Seq<char> },
    RunCommand { program: Seq<char>, argument: Seq<char> },
    ReadProfile { path: Seq<char> },
    AppendToProfile { path: Seq<char>, bytes: Seq<u8> },
    Stop { outcome: InstallOutcome },
}

/// What the caller is asked to do next.
#[derive(Debug, PartialEq, Eq)]
pub enum InstallAction {
    /// Make sure that the directory exists: if it does not, create it, and
    /// every directory above it that is missing. Answer `Succeeded` or
    /// `Failed`.
    EnsureDirectory { path: String },
    /// Copy the file at `source` to `destination`, in place of whatever is
    /// there. Answer `Succeeded` or `Failed`.
    CopyBinary { source: String, destination: String },
    /// Run `program` with `argument` as its one argument. Answer
    /// `Succeeded` if the program was started, whatever became of it, and
    /// `Failed` if it could not be started.
    RunCommand { program: String, argument: String },
    /// Open the file for reading and writing, create it if it is missing,
    /// keep what it holds, and read all of it. Answer `ProfileRead`, or
    /// `Failed`.
    ReadProfile { path: String },
    /// Write the bytes behind the last byte of the file. Answer
    /// `Succeeded` or `Failed`.
    AppendToProfile { path: String, bytes: Vec<u8> },
    /// Nothing is left to do. End the process with the status of the
    /// outcome.
    Stop { outcome: InstallOutcome },
}

impl View for InstallAction {
    type V = ActionModel;

    open spec fn view(&self) -> ActionModel {
        match self {
            InstallAction::EnsureDirectory { path } => ActionModel::EnsureDirectory { path: path@ },
            InstallAction::CopyBinary { source, destination } => ActionModel::CopyBinary {
                source: source@,
                destination: destination@,
            },
            InstallAction::RunCommand { program, argument } => ActionModel::RunCommand {
                program: program@,
                argument: argument@,
            },
            InstallAction::ReadProfile { path } => ActionModel::ReadProfile { path: path@ },
            InstallAction::AppendToProfile { path, bytes } => ActionModel::AppendToProfile {
                path: path@,
                bytes: bytes@,
            },
            InstallAction::Stop { outcome } => ActionModel::Stop { outcome: *outcome },
        }
    }
}

/// What a `Stage` stands for.
pub enum StageModel {
    CreatingDirectory,
    CopyingBinary,
    Registering { program: Seq<char>, command: Seq<char> },
    Scanning { target_line: Seq<char>, profile_path: Seq<char> },
    Appending { target_line: Seq<char>, profile_path: Seq<char> },
    Finished(InstallOutcome),
}

/// How far an installation has come: the request that is waiting for its
/// answer, or the outcome.
#[derive(Debug, PartialEq, Eq)]
pub enum Stage {
    /// The installation directory is being made sure of.
    CreatingDirectory,
    /// The executable is being copied.
    CopyingBinary,
    /// Windows: the `PATH` command is being started.
    Registering { program: String, command: String },
    /// Linux and macOS: the profile is being read.
    Scanning { target_line: String, profile_path: String },
    /// Linux and macOS: the line is being added to the profile.
    Appending { target_line: String, profile_path: String },
    /// Nothing is waiting any more.
    Finished(InstallOutcome),
}

impl View for Stage {
    type V = StageModel;

    open spec fn view(&self) -> StageModel {
        match self {
            Stage::CreatingDirectory => StageModel::CreatingDirectory,
            Stage::CopyingBinary => StageModel::CopyingBinary,
            Stage::Registering { program, command } => StageModel::Registering {
                program: program@,
                command: command@,
            },
            Stage::Scanning { target_line, profile_path } => StageModel::Scanning {
                target_line: target_line@,
                profile_path: profile_path@,
            },
            Stage::Appending { target_line, profile_path } => StageModel::Appending {
                target_line: target_line@,
                profile_path: profile_path@,
            },
            Stage::Finished(outcome) => StageModel::Finished(*outcome),
        }
    }
}

/// The stage that follows the copy of the executable: the first step of
/// putting the directory on the `PATH`, or the end where there is no way
/// of doing so.
pub open spec fn registering(target: TargetModel) -> StageModel {
    match registration(target) {
        Ok(RegistrationModel::Windows { program, command }) => StageModel::Registering {
            program,
            command,
        },
        Ok(RegistrationModel::Unix { target_line, profile_path }) => StageModel::Scanning {
            target_line,
            profile_path,
        },
        Err(error) => StageModel::Finished(InstallOutcome::Failed(error)),
    }
}

/// What an `Installation` stands for.
pub struct InstallationModel {
    pub target: TargetModel,
    pub binary: BinaryModel,
    pub stage: StageModel,
}

impl InstallationModel {
    /// The target is one that its platform prescribes, the copy is the one
    /// planned for that target, and a stage of registering is the one that
    /// belongs to the target.
    pub open spec fn wf(self) -> bool {
        &&& self.target.wf()
        &&& planned(self.target, self.binary.source_path) == Ok::<BinaryModel, InstallError>(
            self.binary,
        )
        &&& match self.stage {
            StageModel::Registering { .. } | StageModel::Scanning { .. } => self.stage
                == registering(self.target),
            StageModel::Appending { target_line, profile_path } => registering(self.target)
                == (StageModel::Scanning { target_line, profile_path }),
            _ => true,
        }
    }

    /// The stage that an answer leads to.
    ///
    /// `Succeeded` leads from each step to the next, `Failed` to the end,
    /// with the error of the step that failed. The bytes of the profile
    /// decide between the end, where the profile counts as holding the
    /// line, and the step that adds it. An answer that does not fit the
    /// request changes nothing, and neither does any answer once the
    /// installation is finished.
    pub open spec fn stage_after(self, event: InstallEvent) -> StageModel {
        match self.stage {
            StageModel::CreatingDirectory => match event {
                InstallEvent::Succeeded => StageModel::CopyingBinary,
                InstallEvent::Failed => StageModel::Finished(
                    InstallOutcome::Failed(InstallError::DirectoryCreateFailed),
                ),
                InstallEvent::ProfileRead { .. } => self.stage,
            },
            StageModel::CopyingBinary => match event {
                InstallEvent::Succeeded => registering(self.target),
                InstallEvent::Failed => StageModel::Finished(
                    InstallOutcome::Failed(InstallError::CopyFailed),
                ),
                InstallEvent::ProfileRead { .. } => self.stage,
            },
            StageModel::Registering { .. } => match event {
                InstallEvent::Succeeded => StageModel::Finished(InstallOutcome::Registered),
                InstallEvent::Failed => StageModel::Finished(
                    InstallOutcome::Failed(InstallError::PathMechanismFailed),
                ),
                InstallEvent::ProfileRead { .. } => self.stage,
            },
            StageModel::Scanning { target_line, profile_path } => match event {
                InstallEvent::ProfileRead { content } => if registered(
                    content@,
                    encode_utf8(target_line),
                ) {
                    StageModel::Finished(InstallOutcome::Found)
                } else {
                    StageModel::Appending { target_line, profile_path }
                },
                InstallEvent::Failed => StageModel::Finished(
                    InstallOutcome::Failed(InstallError::ProfileFileOpenFailed),
                ),
                InstallEvent::Succeeded => self.stage,
            },
            StageModel::Appending { .. } => match event {
                InstallEvent::Succeeded => StageModel::Finished(InstallOutcome::Appended),
                InstallEvent::Failed => StageModel::Finished(
                    InstallOutcome::Failed(InstallError::ProfileWriteFailed),
                ),
                InstallEvent::ProfileRead { .. } => self.stage,
            },
            StageModel::Finished(_) => self.stage,
        }
    }

    /// The installation after an answer: at the stage that the answer
    /// leads to, and otherwise as it was.
    pub open spec fn after(self, event: InstallEvent) -> InstallationModel {
        InstallationModel { stage: self.stage_after(event), ..self }
    }

    /// What the installation asks of the caller at its stage.
    pub open spec fn request(self) -> ActionModel {
        match self.stage {
            StageModel::CreatingDirectory => ActionModel::EnsureDirectory {
                path: self.target.recommended_dir,
            },
            StageModel::CopyingBinary => ActionModel::CopyBinary {
                source: self.binary.source_path,
                destination: self.binary.dest_path,
            },
            StageModel::Registering { program, command } => ActionModel::RunCommand {
                program,
                argument: command,
            },
            StageModel::Scanning { profile_path, .. } => ActionModel::ReadProfile {
                path: profile_path,
            },
            StageModel::Appending { target_line, profile_path } => ActionModel::AppendToProfile {
                path: profile_path,
                bytes: entry(encode_utf8(target_line)),
            },
            StageModel::Finished(outcome) => ActionModel::Stop { outcome },
        }
    }
}

/// The installation that begins on `os` for the executable at
/// `current_exe` and the home directory `home`, or the error that keeps it
/// from beginning.
///
/// An executable whose path is unknown or names no file is reported first,
/// then a platform without an installation directory or a home directory
/// that is needed and unknown. In each of these cases nothing has been
/// asked of the caller.
pub open spec fn begun(
    os: OperatingSystem,
    current_exe: Option<Seq<char>>,
    home: Option<Seq<char>>,
) -> Result<InstallationModel, InstallError> {
    match current_exe {
        Some(path) => match file_name_of(path, os) {
            Some(_) => match resolved(os, home) {
                Ok(target) => match planned(target, path) {
                    Ok(binary) => Ok(
                        InstallationModel { target, binary, stage: StageModel::CreatingDirectory },
                    ),
                    Err(error) => Err(error),
                },
                Err(error) => Err(error),
            },
            None => Err(InstallError::SelfPathUnavailable),
        },
        None => Err(InstallError::SelfPathUnavailable),
    }
}

/// One installation, from its beginning to its outcome.
pub struct Installation {
    target: InstallTarget,
    binary: InstalledBinary,
    stage: Stage,
}

impl View for Installation {
    type V = InstallationModel;

    closed spec fn view(&self) -> InstallationModel {
        InstallationModel { target: self.target@, binary: self.binary@, stage: self.stage@ }
    }
}

/// The result of beginning an installation, as its model.
pub open spec fn beginning(result: Result<Installation, InstallError>) -> Result<
    InstallationModel,
    InstallError,
> {
    match result {
        Ok(installation) => Ok(installation@),
        Err(error) => Err(error),
    }
}

impl Installation {
    /// Every installation is well formed, at every stage.
    #[verifier::type_invariant]
    pub closed spec fn well_formed(self) -> bool {
        self@.wf()
    }

    /// Begins an installation on `os` for the executable at `current_exe`
    /// and a user whose home directory is `home`; either is `None` where
    /// it could not be determined.
    pub fn begin(os: OperatingSystem, current_exe: Option<String>, home: Option<String>) -> (result:
        Result<Installation, InstallError>)
        ensures
            beginning(result) == begun(os, current_exe.deep_view(), home.deep_view()),
    {
        let source = match current_exe {
            Some(path) => path,
            None => {
                return Err(InstallError::SelfPathUnavailable);
            },
        };
        if file_name(source.as_str(), os).is_none() {
            return Err(InstallError::SelfPathUnavailable);
        }
        let target = match InstallTarget::resolve(os, home) {
            Ok(target) => target,
            Err(error) => {
                return Err(error);
            },
        };
        proof {
            use_type_invariant(&target);
        }
        match InstalledBinary::plan(&target, source) {
            Ok(binary) => Ok(Installation { target, binary, stage: Stage::CreatingDirectory }),
            Err(error) => Err(error),
        }
    }

    /// Begins an installation on the platform that `identifier` names, for
    /// the executable at `current_exe` and the home directory of the
    /// current user, which is looked up. What is returned is what `begin`
    /// returns for some home directory, a known or an unknown one.
    pub fn start(identifier: &str, current_exe: Option<String>) -> (result: Result<
        Installation,
        InstallError,
    >)
        ensures
            exists|home: Option<Seq<char>>|
                beginning(result) == #[trigger] begun(
                    OperatingSystem::named(identifier@),
                    current_exe.deep_view(),
                    home,
                ),
    {
        let os = OperatingSystem::from_identifier(identifier);
        let home = home_directory();
        let ghost looked_up = home.deep_view();
        let result = Installation::begin(os, current_exe, home);
        assert(beginning(result) == begun(
            OperatingSystem::named(identifier@),
            current_exe.deep_view(),
            looked_up,
        ));
        result
    }

    /// The platform, the home directory and the installation directory.
    pub fn target(&self) -> (target: &InstallTarget)
        ensures
            target@ == self@.target,
            self@.wf(),
    {
        proof {
            use_type_invariant(self);
        }
        &self.target
    }

    /// The executable and the place of its copy.
    pub fn binary(&self) -> (binary: &InstalledBinary)
        ensures
            binary@ == self@.binary,
            self@.wf(),
    {
        proof {
            use_type_invariant(self);
        }
        &self.binary
    }

    /// How far the installation has come.
    pub fn stage(&self) -> (stage: &Stage)
        ensures
            stage@ == self@.stage,
            self@.wf(),
    {
        proof {
            use_type_invariant(self);
        }
        &self.stage
    }

    /// The outcome, once the installation is finished.
    pub fn outcome(&self) -> (outcome: Option<InstallOutcome>)
        ensures
            outcome == match self@.stage {
                StageModel::Finished(outcome) => Some(outcome),
                _ => None,
            },
    {
        match &self.stage {
            Stage::Finished(outcome) => Some(*outcome),
            _ => None,
        }
    }

    /// What the caller is asked to do at this stage.
    pub fn request(&self) -> (action: InstallAction)
        ensures
            action@ == self@.request(),
    {
        match &self.stage {
            Stage::CreatingDirectory => InstallAction::EnsureDirectory {
                path: String::from_str(self.target.recommended_dir()),
            },
            Stage::CopyingBinary => InstallAction::CopyBinary {
                source: String::from_str(self.binary.source_path()),
                destination: String::from_str(self.binary.dest_path()),
            },
            Stage::Registering { program, command } => InstallAction::RunCommand {
                program: program.clone(),
                argument: command.clone(),
            },
            Stage::Scanning { profile_path, .. } => InstallAction::ReadProfile {
                path: profile_path.clone(),
            },
            Stage::Appending { target_line, profile_path } => InstallAction::AppendToProfile {
                path: profile_path.clone(),
                bytes: entry_for(target_line.as_str().as_bytes()),
            },
            Stage::Finished(outcome) => InstallAction::Stop { outcome: *outcome },
        }
    }

    /// Takes the answer to the request of this stage and moves on.
    pub fn advance(self, event: InstallEvent) -> (next: Installation)
        ensures
            next@ == self@.after(event),
    {
        proof {
            use_type_invariant(&self);
        }
        let Installation { target, binary, stage } = self;
        proof {
            use_type_invariant(&target);
        }
        let stage = match stage {
            Stage::CreatingDirectory => match event {
                InstallEvent::Succeeded => Stage::CopyingBinary,
                InstallEvent::Failed => Stage::Finished(
                    InstallOutcome::Failed(InstallError::DirectoryCreateFailed),
                ),
                InstallEvent::ProfileRead { .. } => Stage::CreatingDirectory,
            },
            Stage::CopyingBinary => match event {
                InstallEvent::Succeeded => match PathRegistration::plan(&target) {
                    Ok(PathRegistration::Windows { program, command }) => Stage::Registering {
                        program,
                        command,
                    },
                    Ok(PathRegistration::Unix { target_line, profile_path }) => Stage::Scanning {
                        target_line,
                        profile_path,
                    },
                    Err(error) => Stage::Finished(InstallOutcome::Failed(error)),
                },
                InstallEvent::Failed => Stage::Finished(
                    InstallOutcome::Failed(InstallError::CopyFailed),
                ),
                InstallEvent::ProfileRead { .. } => Stage::CopyingBinary,
            },
            Stage::Registering { program, command } => match event {
                InstallEvent::Succeeded => Stage::Finished(InstallOutcome::Registered),
                InstallEvent::Failed => Stage::Finished(
                    InstallOutcome::Failed(InstallError::PathMechanismFailed),
                ),
                InstallEvent::ProfileRead { .. } => Stage::Registering { program, command },
            },
            Stage::Scanning { target_line, profile_path } => match event {
                InstallEvent::ProfileRead { content } => {
                    if is_registered(content.as_slice(), target_line.as_str().as_bytes()) {
                        Stage::Finished(InstallOutcome::Found)
                    } else {
                        Stage::Appending { target_line, profile_path }
                    }
                },
                InstallEvent::Failed => Stage::Finished(
                    InstallOutcome::Failed(InstallError::ProfileFileOpenFailed),
                ),
                InstallEvent::Succeeded => Stage::Scanning { target_line, profile_path },
            },
            Stage::Appending { target_line, profile_path } => match event {
                InstallEvent::Succeeded => Stage::Finished(InstallOutcome::Appended),
                InstallEvent::Failed => Stage::Finished(
                    InstallOutcome::Failed(InstallError::ProfileWriteFailed),
                ),
                InstallEvent::ProfileRead { .. } => Stage::Appending { target_line, profile_path },
            },
            Stage::Finished(outcome) => Stage::Finished(outcome),
        };
        Installation { target, binary, stage }
    }
}

/// Takes the answer to the request that is waiting, moves the installation
/// on and says what to do next.
pub fn run(installation: Installation, event: InstallEvent) -> (step: (Installation, InstallAction))
    ensures
        step.0@ == installation@.after(event),
        step.1@ == installation@.after(event).request(),
{
    let next = installation.advance(event);
    let action = next.request();
    (next, action)
}

/// On a platform without an installation directory no installation
/// begins, whatever the executable and the home directory are. Nothing is
/// then ever asked of the caller: no directory is created, nothing is
/// copied, and the `PATH` stays as it is. Where the executable has a file
/// name, the error is `UnsupportedPlatform`.
pub proof fn law_unsupported_platform_installs_nothing(
    os: OperatingSystem,
    current_exe: Option<Seq<char>>,
    home: Option<Seq<char>>,
)
    requires
        !os.supported(),
    ensures
        begun(os, current_exe, home) is Err,
        current_exe is Some && file_name_of(current_exe->Some_0, os) is Some ==> begun(
            os,
            current_exe,
            home,
        ) == Err::<InstallationModel, InstallError>(InstallError::UnsupportedPlatform),
{
}

/// An installation that begins is well formed and asks first for its
/// directory, the one that the platform prescribes.
pub proof fn law_beginning_asks_for_directory(
    os: OperatingSystem,
    current_exe: Option<Seq<char>>,
    home: Option<Seq<char>>,
)
    requires
        begun(os, current_exe, home) is Ok,
    ensures
        begun(os, current_exe, home)->Ok_0.wf(),
        os.supported(),
        begun(os, current_exe, home)->Ok_0.request() == (ActionModel::EnsureDirectory {
            path: resolved(os, home)->Ok_0.recommended_dir,
        }),
{
}

/// Whatever the caller answers, a well-formed installation stays well
/// formed.
pub proof fn law_installation_stays_well_formed(
    installation: InstallationModel,
    event: InstallEvent,
)
    requires
        installation.wf(),
    ensures
        installation.after(event).wf(),
{
}

/// A finished installation stays as it is, whatever it is told, and asks
/// only to stop.
pub proof fn law_finished_is_final(installation: InstallationModel, event: InstallEvent)
    requires
        installation.stage is Finished,
    ensures
        installation.after(event) == installation,
        installation.request() == (ActionModel::Stop { outcome: installation.stage->Finished_0 }),
{
}

/// The steps keep their order. The copy is asked for only once the
/// directory was made sure of, the `PATH` is touched only once the copy
/// was made, and a line is added to the profile only after the profile
/// was read; no answer leads back to an earlier step.
pub proof fn law_steps_keep_their_order(installation: InstallationModel, event: InstallEvent)
    ensures
        installation.after(event).stage is CreatingDirectory
            ==> installation.stage is CreatingDirectory,
        installation.after(event).stage is CopyingBinary ==> installation.stage is CopyingBinary
            || (installation.stage is CreatingDirectory && event is Succeeded),
        installation.after(event).stage is Registering || installation.after(event).stage is Scanning
            ==> installation.after(event).stage == installation.stage || (
        installation.stage is CopyingBinary && event is Succeeded),
        installation.after(event).stage is Appending ==> installation.after(event).stage
            == installation.stage || (installation.stage is Scanning && event is ProfileRead),
{
}

/// A step that fails ends the installation with the error of that step.
/// The error is fatal for every step but one: where only the `PATH`
/// command of Windows could not be started, the executable is in place and
/// the process ends with status 0.
pub proof fn law_failure_ends_installation(installation: InstallationModel)
    requires
        !(installation.stage is Finished),
    ensures
        installation.after(InstallEvent::Failed).stage == StageModel::Finished(
            InstallOutcome::Failed(
                match installation.stage {
                    StageModel::CreatingDirectory => InstallError::DirectoryCreateFailed,
                    StageModel::CopyingBinary => InstallError::CopyFailed,
                    StageModel::Registering { .. } => InstallError::PathMechanismFailed,
                    StageModel::Scanning { .. } => InstallError::ProfileFileOpenFailed,
                    _ => InstallError::ProfileWriteFailed,
                },
            ),
        ),
        installation.after(InstallEvent::Failed).stage->Finished_0.status() == (
        if installation.stage is Registering {
            0int
        } else {
            1int
        }),
        installation.after(InstallEvent::Failed).stage->Finished_0.installed()
            <==> installation.stage is Registering,
{
}

/// What reading the profile leads to. Where a line of the profile holds
/// the wanted line, the installation ends and nothing is written: the
/// profile stays as it is, byte for byte. Otherwise the caller is asked to
/// add the line's entry, and the profile with that entry behind it is the
/// profile with the line registered.
pub proof fn law_profile_is_read_before_it_is_written(
    installation: InstallationModel,
    content: Vec<u8>,
)
    requires
        installation.stage is Scanning,
    ensures
        ({
            let line = encode_utf8(installation.stage->Scanning_target_line);
            let next = installation.after(InstallEvent::ProfileRead { content });
            &&& registered(content@, line) ==> next.request() == (ActionModel::Stop {
                outcome: InstallOutcome::Found,
            }) && updated(content@, line) == content@
            &&& !registered(content@, line) ==> next.request() == (ActionModel::AppendToProfile {
                path: installation.stage->Scanning_profile_path,
                bytes: entry(line),
            }) && content@ + entry(line) == updated(content@, line)
        }),
{
}

/// An installation that is run again writes nothing. If `again` is the
/// profile as an earlier run for the same directory left it, the line is
/// found in it and the installation ends; and if no line of the profile
/// held the wanted line before that earlier run, exactly one holds it now.
/// This is so for every directory whose path fits one line.
pub proof fn law_second_run_writes_nothing(
    installation: InstallationModel,
    content: Seq<u8>,
    again: Vec<u8>,
)
    requires
        installation.wf(),
        installation.stage is Scanning,
        fits_one_line(installation.target.recommended_dir),
        again@ == updated(content, encode_utf8(installation.stage->Scanning_target_line)),
    ensures
        installation.after(InstallEvent::ProfileRead { content: again }).request() == (
        ActionModel::Stop { outcome: InstallOutcome::Found }),
        occurrences(content, encode_utf8(installation.stage->Scanning_target_line)) == 0
            ==> occurrences(again@, encode_utf8(installation.stage->Scanning_target_line)) == 1,
{
    let line = encode_utf8(installation.stage->Scanning_target_line);
    law_target_line_keeps_to_one_line(installation.target.recommended_dir);
    law_registration_is_idempotent(content, line);
    if occurrences(content, line) == 0 {
        law_registration_adds_one_occurrence(content, line);
    }
}

} // verus!
