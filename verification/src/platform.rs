//! The operating systems that the installer knows, and what differs
//! between them.

use vstd::prelude::*;

use crate::text::text_equal;

verus! {

/// The platform an installation is made for.
#[derive(Clone, Copy, Debug, PartialEq, Eq, Structural)]
pub enum OperatingSystem {
    Windows,
    Linux,
    MacOS,
    /// Any platform for which no installation directory is defined.
    Unsupported,
}

impl OperatingSystem {
    /// The platform that an identifier names: `windows`, `linux` and
    /// `macos` are known, in exactly this spelling; every other text
    /// names an unsupported platform.
    pub open spec fn named(identifier: Seq<char>) -> OperatingSystem {
        if identifier == "windows"@ {
            OperatingSystem::Windows
        } else if identifier == "linux"@ {
            OperatingSystem::Linux
        } else if identifier == "macos"@ {
            OperatingSystem::MacOS
        } else {
            OperatingSystem::Unsupported
        }
    }

    /// Reads a platform identifier, as a build reports it for its target.
    pub fn from_identifier(identifier: &str) -> (os: OperatingSystem)
        ensures
            os == OperatingSystem::named(identifier@),
    {
        if text_equal(identifier, "windows") {
            OperatingSystem::Windows
        } else if text_equal(identifier, "linux") {
            OperatingSystem::Linux
        } else if text_equal(identifier, "macos") {
            OperatingSystem::MacOS
        } else {
            OperatingSystem::Unsupported
        }
    }

    /// Whether an installation directory is defined for the platform.
    pub open spec fn supported(self) -> bool {
        self != OperatingSystem::Unsupported
    }

    /// Whether an installation directory is defined for the platform.
    pub fn is_supported(&self) -> (supported: bool)
        ensures
            supported == self.supported(),
    {
        match self {
            OperatingSystem::Unsupported => false,
            _ => true,
        }
    }

    /// Whether `c` parts the components of a path: the slash everywhere,
    /// and the backslash on Windows as well.
    pub open spec fn separates(self, c: char) -> bool {
        c == '/' || (self == OperatingSystem::Windows && c == '\\')
    }

    /// Whether `c` parts the components of a path on this platform.
    pub fn is_separator(&self, c: char) -> (separates: bool)
        ensures
            separates == self.separates(c),
    {
        c == '/' || (matches!(self, OperatingSystem::Windows) && c == '\\')
    }

    /// `separates` as a predicate on characters.
    pub open spec fn separator(self) -> spec_fn(char) -> bool {
        |c: char| self.separates(c)
    }

    /// The character that the platform itself puts between the components
    /// of a path.
    pub open spec fn main_separator(self) -> char {
        if self == OperatingSystem::Windows {
            '\\'
        } else {
            '/'
        }
    }

    /// The separator that the platform itself writes, as a text.
    pub fn main_separator_text(&self) -> (text: &'static str)
        ensures
            text@ == seq![self.main_separator()],
    {
        match self {
            OperatingSystem::Windows => {
                proof {
                    reveal_strlit("\\");
                }
                assert("\\"@ =~= seq!['\\']);
                "\\"
            },
            _ => {
                proof {
                    reveal_strlit("/");
                }
                assert("/"@ =~= seq!['/']);
                "/"
            },
        }
    }
}

/// Each of the three known identifiers names its own platform.
pub proof fn law_identifiers_name_their_platforms()
    ensures
        OperatingSystem::named("windows"@) == OperatingSystem::Windows,
        OperatingSystem::named("linux"@) == OperatingSystem::Linux,
        OperatingSystem::named("macos"@) == OperatingSystem::MacOS,
        OperatingSystem::named("windows"@).supported(),
        OperatingSystem::named("linux"@).supported(),
        OperatingSystem::named("macos"@).supported(),
{
    reveal_strlit("windows");
    reveal_strlit("linux");
    reveal_strlit("macos");
    assert("linux"@[0] == 'l');
    assert("macos"@[0] == 'm');
}

} // verus!
