//! Where the executable is to be installed.
//!
//! Each supported platform prescribes one directory. On Windows and on
//! Linux it lies below the user's home directory; on macOS it is a fixed
//! path, whatever the home directory is.

use vstd::prelude::*;
use vstd::string::*;

use crate::error::InstallError;
use crate::platform::OperatingSystem;
use crate::text::followed_by;

verus! {

/// What an `InstallTarget` stands for.
pub struct TargetModel {
    pub operating_system: OperatingSystem,
    pub recommended_dir: Seq<char>,
    pub home_dir: Option<Seq<char>>,
}

/// The installation directory that a platform prescribes, relative to the
/// home directory where the platform ties it to one.
pub open spec fn recommended_dir(os: OperatingSystem, home: Option<Seq<char>>) -> Result<
    Seq<char>,
    InstallError,
> {
    match os {
        OperatingSystem::Windows => match home {
            Some(home) => Ok(home + "\\.blue\\bin"@),
            None => Err(InstallError::HomeDirectoryUnavailable),
        },
        OperatingSystem::Linux => match home {
            Some(home) => Ok(home + "/.blue/bin"@),
            None => Err(InstallError::HomeDirectoryUnavailable),
        },
        OperatingSystem::MacOS => Ok("/usr/local/bin/.blue/bin"@),
        OperatingSystem::Unsupported => Err(InstallError::UnsupportedPlatform),
    }
}

/// The target of an installation on `os` for a user whose home directory
/// is `home`, or the reason why there is none.
pub open spec fn resolved(os: OperatingSystem, home: Option<Seq<char>>) -> Result<
    TargetModel,
    InstallError,
> {
    match recommended_dir(os, home) {
        Ok(dir) => Ok(TargetModel { operating_system: os, recommended_dir: dir, home_dir: home }),
        Err(error) => Err(error),
    }
}

impl TargetModel {
    /// The directory is the one that the platform prescribes for the home
    /// directory.
    pub open spec fn wf(self) -> bool {
        recommended_dir(self.operating_system, self.home_dir) == Ok::<Seq<char>, InstallError>(
            self.recommended_dir,
        )
    }
}

/// The platform, the home directory and the installation directory of one
/// installation. A value is made by `resolve` and never changes.
pub struct InstallTarget {
    operating_system: OperatingSystem,
    recommended_dir: String,
    home_dir: Option<String>,
}

impl View for InstallTarget {
    type V = TargetModel;

    closed spec fn view(&self) -> TargetModel {
        TargetModel {
            operating_system: self.operating_system,
            recommended_dir: self.recommended_dir@,
            home_dir: match self.home_dir {
                Some(home) => Some(home@),
                None => None,
            },
        }
    }
}

/// The result of `InstallTarget::resolve`, as its model.
pub open spec fn resolution(result: Result<InstallTarget, InstallError>) -> Result<
    TargetModel,
    InstallError,
> {
    match result {
        Ok(target) => Ok(target@),
        Err(error) => Err(error),
    }
}

impl InstallTarget {
    /// Every target lies where its platform prescribes.
    #[verifier::type_invariant]
    pub closed spec fn well_formed(self) -> bool {
        self@.wf()
    }

    /// Works out the installation directory for a platform and a home
    /// directory. `home` is `None` where the home directory could not be
    /// determined, which is an error only on the platforms whose directory
    /// lies below it. Nothing is created: the directory is a text.
    pub fn resolve(os: OperatingSystem, home: Option<String>) -> (result: Result<
        InstallTarget,
        InstallError,
    >)
        ensures
            resolution(result) == resolved(os, home.deep_view()),
    {
        match os {
            OperatingSystem::Windows => match home {
                Some(home) => {
                    let dir = followed_by(home.as_str(), "\\.blue\\bin");
                    Ok(
                        InstallTarget {
                            operating_system: os,
                            recommended_dir: dir,
                            home_dir: Some(home),
                        },
                    )
                },
                None => Err(InstallError::HomeDirectoryUnavailable),
            },
            OperatingSystem::Linux => match home {
                Some(home) => {
                    let dir = followed_by(home.as_str(), "/.blue/bin");
                    Ok(
                        InstallTarget {
                            operating_system: os,
                            recommended_dir: dir,
                            home_dir: Some(home),
                        },
                    )
                },
                None => Err(InstallError::HomeDirectoryUnavailable),
            },
            OperatingSystem::MacOS => Ok(
                InstallTarget {
                    operating_system: os,
                    recommended_dir: String::from_str("/usr/local/bin/.blue/bin"),
                    home_dir: home,
                },
            ),
            OperatingSystem::Unsupported => Err(InstallError::UnsupportedPlatform),
        }
    }

    /// The platform that the installation is made for.
    pub fn operating_system(&self) -> (os: OperatingSystem)
        ensures
            os == self@.operating_system,
            self@.wf(),
    {
        proof {
            use_type_invariant(self);
        }
        self.operating_system
    }

    /// The directory into which the executable is installed.
    pub fn recommended_dir(&self) -> (dir: &str)
        ensures
            dir@ == self@.recommended_dir,
            self@.wf(),
    {
        proof {
            use_type_invariant(self);
        }
        self.recommended_dir.as_str()
    }

    /// The user's home directory, where it could be determined.
    pub fn home_dir(&self) -> (home: Option<&str>)
        ensures
            home.deep_view() == self@.home_dir,
            self@.wf(),
    {
        proof {
            use_type_invariant(self);
        }
        match &self.home_dir {
            Some(home) => Some(home.as_str()),
            None => None,
        }
    }
}

/// Every target that `resolve` yields lies where the platform prescribes:
/// below the home directory on Windows and Linux, and at the same fixed
/// path on macOS whatever the home directory is. No other platform has a
/// target.
pub proof fn law_directory_follows_platform(os: OperatingSystem, home: Option<Seq<char>>)
    ensures
        os == OperatingSystem::Windows && home is Some ==> resolved(os, home) is Ok && resolved(
            os,
            home,
        )->Ok_0.recommended_dir == home->Some_0 + "\\.blue\\bin"@,
        os == OperatingSystem::Linux && home is Some ==> resolved(os, home) is Ok && resolved(
            os,
            home,
        )->Ok_0.recommended_dir == home->Some_0 + "/.blue/bin"@,
        os == OperatingSystem::MacOS ==> resolved(os, home) is Ok && resolved(
            os,
            home,
        )->Ok_0.recommended_dir == "/usr/local/bin/.blue/bin"@,
        os == OperatingSystem::Unsupported ==> resolved(os, home) == Err::<
            TargetModel,
            InstallError,
        >(InstallError::UnsupportedPlatform),
        (os == OperatingSystem::Windows || os == OperatingSystem::Linux) && home is None
            ==> resolved(os, home) == Err::<TargetModel, InstallError>(
            InstallError::HomeDirectoryUnavailable,
        ),
        resolved(os, home) is Ok ==> resolved(os, home)->Ok_0.wf(),
{
}

} // verus!
