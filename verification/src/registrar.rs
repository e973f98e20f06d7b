//! How the installation directory gets on the user's `PATH`.
//!
//! On Windows a command is run that stores a new `PATH` for the user's
//! account. On Linux and macOS a line that extends `PATH` is kept in the
//! profile that the shell reads when it starts.

use vstd::prelude::*;
use vstd::string::*;
use vstd::utf8::encode_utf8;

use crate::error::InstallError;
use crate::platform::OperatingSystem;
use crate::target::{InstallTarget, TargetModel};
use crate::profile::{keeps_to_one_line, CARRIAGE_RETURN, LINE_FEED};
use crate::text::{followed_by, lemma_ascii_byte_absent, lemma_ascii_byte_not_last};

verus! {

/// The profile line that puts `dir` on the `PATH`.
pub open spec fn export_line(dir: Seq<char>) -> Seq<char> {
    "export PATH=$PATH:"@ + dir
}

/// The name of the profile that the shell of a platform reads, for the
/// platforms that keep the `PATH` in one.
pub open spec fn profile_name(os: OperatingSystem) -> Option<Seq<char>> {
    match os {
        OperatingSystem::Linux => Some(".bashrc"@),
        OperatingSystem::MacOS => Some(".bash_profile"@),
        _ => None,
    }
}

/// The path of the profile `name` of the user whose home directory is
/// `home`.
pub open spec fn profile_path(home: Seq<char>, name: Seq<char>) -> Seq<char> {
    home + "/"@ + name
}

/// The program that updates the `PATH` of a Windows user.
pub open spec fn path_program() -> Seq<char> {
    "powershell"@
}

/// The command, handed to `path_program` as its one argument, that puts
/// `dir` before everything that the `PATH` holds.
pub open spec fn path_command(dir: Seq<char>) -> Seq<char> {
    "setx PATH \""@ + dir + ";$Env:PATH\""@
}

/// What a `PathRegistration` stands for.
pub enum RegistrationModel {
    Windows { program: Seq<char>, command: Seq<char> },
    Unix { target_line: Seq<char>, profile_path: Seq<char> },
}

/// The way in which the directory of `target` gets on the `PATH`, or the
/// reason why it cannot: no platform without an installation directory has
/// one, and the profile cannot be found without a home directory.
pub open spec fn registration(target: TargetModel) -> Result<RegistrationModel, InstallError> {
    match profile_name(target.operating_system) {
        Some(name) => match target.home_dir {
            Some(home) => Ok(
                RegistrationModel::Unix {
                    target_line: export_line(target.recommended_dir),
                    profile_path: profile_path(home, name),
                },
            ),
            None => Err(InstallError::HomeDirectoryUnavailable),
        },
        None => if target.operating_system == OperatingSystem::Windows {
            Ok(
                RegistrationModel::Windows {
                    program: path_program(),
                    command: path_command(target.recommended_dir),
                },
            )
        } else {
            Err(InstallError::UnsupportedPlatform)
        },
    }
}

/// The way in which an installation directory gets on the `PATH`.
pub enum PathRegistration {
    /// A program is run once, with one argument. What it stores holds for
    /// the shells that start afterwards.
    Windows { program: String, command: String },
    /// A line is kept in a profile.
    Unix { target_line: String, profile_path: String },
}

impl View for PathRegistration {
    type V = RegistrationModel;

    open spec fn view(&self) -> RegistrationModel {
        match self {
            PathRegistration::Windows { program, command } => RegistrationModel::Windows {
                program: program@,
                command: command@,
            },
            PathRegistration::Unix { target_line, profile_path } => RegistrationModel::Unix {
                target_line: target_line@,
                profile_path: profile_path@,
            },
        }
    }
}

/// The result of `PathRegistration::plan`, as its model.
pub open spec fn registration_made(result: Result<PathRegistration, InstallError>) -> Result<
    RegistrationModel,
    InstallError,
> {
    match result {
        Ok(registration) => Ok(registration@),
        Err(error) => Err(error),
    }
}

/// The name of the profile that the shell of `os` reads.
pub fn profile_file_name(os: OperatingSystem) -> (name: Option<&'static str>)
    ensures
        name.deep_view() == profile_name(os),
{
    match os {
        OperatingSystem::Linux => Some(".bashrc"),
        OperatingSystem::MacOS => Some(".bash_profile"),
        _ => None,
    }
}

/// The profile line that puts `dir` on the `PATH`.
pub fn target_line(dir: &str) -> (line: String)
    ensures
        line@ == export_line(dir@),
{
    followed_by("export PATH=$PATH:", dir)
}

/// The command that puts `dir` before everything on the `PATH` of a
/// Windows user.
pub fn windows_command(dir: &str) -> (command: String)
    ensures
        command@ == path_command(dir@),
{
    let mut command = followed_by("setx PATH \"", dir);
    command.append(";$Env:PATH\"");
    command
}

impl PathRegistration {
    /// Decides how the directory of `target` gets on the `PATH`. Nothing
    /// is run or written.
    pub fn plan(target: &InstallTarget) -> (result: Result<PathRegistration, InstallError>)
        ensures
            registration_made(result) == registration(target@),
    {
        let os = target.operating_system();
        match profile_file_name(os) {
            Some(name) => match target.home_dir() {
                Some(home) => {
                    let mut profile_path = followed_by(home, "/");
                    profile_path.append(name);
                    Ok(
                        PathRegistration::Unix {
                            target_line: target_line(target.recommended_dir()),
                            profile_path,
                        },
                    )
                },
                None => Err(InstallError::HomeDirectoryUnavailable),
            },
            None => match os {
                OperatingSystem::Windows => Ok(
                    PathRegistration::Windows {
                        program: String::from_str("powershell"),
                        command: windows_command(target.recommended_dir()),
                    },
                ),
                _ => Err(InstallError::UnsupportedPlatform),
            },
        }
    }
}

/// Whether a directory can be registered in a profile so that it is
/// found there again: its path holds no line feed and does not end in a
/// carriage return.
pub open spec fn fits_one_line(dir: Seq<char>) -> bool {
    &&& forall|i: int| 0 <= i < dir.len() ==> dir[i] != '\n'
    &&& dir.len() > 0 ==> dir.last() != '\r'
}

/// The words that open the profile line hold no line feed and end in a
/// colon.
proof fn lemma_export_head()
    ensures
        "export PATH=$PATH:"@.len() == 18,
        forall|j: int| 0 <= j < 18 ==> "export PATH=$PATH:"@[j] != '\n',
        "export PATH=$PATH:"@[17] == ':',
{
    reveal_strlit("export PATH=$PATH:");
    let head = "export PATH=$PATH:"@;
    assert(head =~= seq![
        'e', 'x', 'p', 'o', 'r', 't', ' ', 'P', 'A', 'T', 'H', '=', '$', 'P', 'A', 'T', 'H', ':',
    ]);
}

/// The profile line of a directory that fits one line keeps to one line
/// when it is written as bytes.
pub proof fn law_target_line_keeps_to_one_line(dir: Seq<char>)
    requires
        fits_one_line(dir),
    ensures
        keeps_to_one_line(encode_utf8(export_line(dir))),
{
    lemma_export_head();
    let line = export_line(dir);
    let head = "export PATH=$PATH:"@;
    assert forall|j: int| 0 <= j < line.len() implies line[j] != LINE_FEED as char by {
        if j < head.len() {
            assert(line[j] == head[j]);
        } else {
            assert(line[j] == dir[j - head.len()]);
        }
    }
    lemma_ascii_byte_absent(line, LINE_FEED);
    if dir.len() > 0 {
        assert(line.last() == dir.last());
    } else {
        assert(line =~= head);
    }
    lemma_ascii_byte_not_last(line, CARRIAGE_RETURN);
}

} // verus!
