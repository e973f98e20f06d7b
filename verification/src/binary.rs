//! Where the copy of the executable goes: into the installation directory,
//! under the file name that the running executable has.

use vstd::prelude::*;
use vstd::string::*;

use crate::error::InstallError;
use crate::platform::OperatingSystem;
use crate::target::{InstallTarget, TargetModel};
use crate::text::{followed_by, lemma_tail_start, tail_start, text_equal};

verus! {

/// What stands behind the last separator of a path, or the whole path
/// where it holds no separator.
pub open spec fn last_component(path: Seq<char>, os: OperatingSystem) -> Seq<char> {
    path.skip(tail_start(path, os.separator()))
}

/// The file name of a path: its last component, unless that is empty (the
/// path ends in a separator, or is empty) or is one of the names `.` and
/// `..`, which name a directory and never a file.
pub open spec fn file_name_of(path: Seq<char>, os: OperatingSystem) -> Option<Seq<char>> {
    let name = last_component(path, os);
    if name.len() == 0 || name == "."@ || name == ".."@ {
        None
    } else {
        Some(name)
    }
}

/// The path of the entry `name` of the directory `dir`: the two with one
/// separator of the platform between them, which is left out where `dir`
/// is empty or brings a separator at its end.
pub open spec fn joined(dir: Seq<char>, name: Seq<char>, os: OperatingSystem) -> Seq<char> {
    if dir.len() == 0 || os.separates(dir.last()) {
        dir + name
    } else {
        dir.push(os.main_separator()) + name
    }
}

/// What an `InstalledBinary` stands for.
pub struct BinaryModel {
    pub source_path: Seq<char>,
    pub dest_path: Seq<char>,
}

/// The copy to make of the executable at `current_exe` for `target`, or
/// `SelfPathUnavailable` where that path has no file name.
pub open spec fn planned(target: TargetModel, current_exe: Seq<char>) -> Result<
    BinaryModel,
    InstallError,
> {
    match file_name_of(current_exe, target.operating_system) {
        Some(name) => Ok(
            BinaryModel {
                source_path: current_exe,
                dest_path: joined(target.recommended_dir, name, target.operating_system),
            },
        ),
        None => Err(InstallError::SelfPathUnavailable),
    }
}

/// The file name of `path` on the platform `os`.
pub fn file_name(path: &str, os: OperatingSystem) -> (name: Option<String>)
    ensures
        name.deep_view() == file_name_of(path@, os),
{
    let n = path.unicode_len();
    let mut start: usize = 0;
    let mut i: usize = 0;
    for c in it: path.chars()
        invariant
            i == it.index(),
            it.seq() == path@,
            n == path@.len(),
            start <= i,
            start == tail_start(path@.take(i as int), os.separator()),
    {
        assert(path@.take(i + 1).drop_last() == path@.take(i as int));
        assert(path@.take(i + 1).last() == c);
        i = i + 1;
        if os.is_separator(c) {
            start = i;
        }
    }
    assert(path@.take(i as int) == path@);
    let name = path.substring_char(start, n);
    assert(name@ == last_component(path@, os));
    if name.unicode_len() == 0 || text_equal(name, ".") || text_equal(name, "..") {
        None
    } else {
        Some(String::from_str(name))
    }
}

/// The path of the entry `name` of the directory `dir` on the platform
/// `os`.
pub fn join(dir: &str, name: &str, os: OperatingSystem) -> (path: String)
    ensures
        path@ == joined(dir@, name@, os),
{
    let n = dir.unicode_len();
    if n == 0 {
        return followed_by(dir, name);
    }
    let last = dir.get_char(n - 1);
    if os.is_separator(last) {
        followed_by(dir, name)
    } else {
        let mut path = followed_by(dir, os.main_separator_text());
        path.append(name);
        assert(dir@ + seq![os.main_separator()] == dir@.push(os.main_separator()));
        path
    }
}

/// The running executable and the place of its installed copy. The
/// destination is never chosen: it follows from the installation directory
/// and the executable's own file name.
pub struct InstalledBinary {
    source_path: String,
    dest_path: String,
}

impl View for InstalledBinary {
    type V = BinaryModel;

    closed spec fn view(&self) -> BinaryModel {
        BinaryModel { source_path: self.source_path@, dest_path: self.dest_path@ }
    }
}

/// The result of `InstalledBinary::plan`, as its model.
pub open spec fn plan_made(result: Result<InstalledBinary, InstallError>) -> Result<
    BinaryModel,
    InstallError,
> {
    match result {
        Ok(binary) => Ok(binary@),
        Err(error) => Err(error),
    }
}

impl InstalledBinary {
    /// Decides where the copy of the executable at `current_exe` goes.
    /// Nothing is copied: both paths are texts.
    pub fn plan(target: &InstallTarget, current_exe: String) -> (result: Result<
        InstalledBinary,
        InstallError,
    >)
        ensures
            plan_made(result) == planned(target@, current_exe@),
    {
        let os = target.operating_system();
        match file_name(current_exe.as_str(), os) {
            Some(name) => {
                let dest_path = join(target.recommended_dir(), name.as_str(), os);
                Ok(InstalledBinary { source_path: current_exe, dest_path })
            },
            None => Err(InstallError::SelfPathUnavailable),
        }
    }

    /// The path of the running executable.
    pub fn source_path(&self) -> (path: &str)
        ensures
            path@ == self@.source_path,
    {
        self.source_path.as_str()
    }

    /// The path of the installed copy.
    pub fn dest_path(&self) -> (path: &str)
        ensures
            path@ == self@.dest_path,
    {
        self.dest_path.as_str()
    }
}

/// A file name holds no separator, and the path it was taken from ends
/// in it.
pub proof fn law_file_name_is_last_component(path: Seq<char>, os: OperatingSystem)
    requires
        file_name_of(path, os) is Some,
    ensures
        forall|i: int|
            0 <= i < file_name_of(path, os)->Some_0.len() ==> !os.separates(
                #[trigger] file_name_of(path, os)->Some_0[i],
            ),
        file_name_of(path, os)->Some_0.is_suffix_of(path),
        file_name_of(path, os)->Some_0.len() > 0,
{
    let start = tail_start(path, os.separator());
    lemma_tail_start(path, os.separator());
    let name = path.skip(start);
    assert forall|i: int| 0 <= i < name.len() implies !os.separates(#[trigger] name[i]) by {
        assert(name[i] == path[start + i]);
        assert(!os.separator()(path[start + i]));
    }
    assert(path == path.take(start) + name);
}

/// The installed copy lies directly in the installation directory and
/// bears the name of the running executable: its path begins with the
/// directory, ends in the file name, and has at most one separator between
/// the two.
pub proof fn law_destination_is_derived(target: TargetModel, current_exe: Seq<char>)
    requires
        planned(target, current_exe) is Ok,
    ensures
        target.recommended_dir.is_prefix_of(planned(target, current_exe)->Ok_0.dest_path),
        file_name_of(current_exe, target.operating_system)->Some_0.is_suffix_of(
            planned(target, current_exe)->Ok_0.dest_path,
        ),
        planned(target, current_exe)->Ok_0.dest_path.len() <= target.recommended_dir.len() + 1
            + file_name_of(current_exe, target.operating_system)->Some_0.len(),
        planned(target, current_exe)->Ok_0.source_path == current_exe,
{
    let os = target.operating_system;
    let dir = target.recommended_dir;
    let name = file_name_of(current_exe, os)->Some_0;
    let dest = joined(dir, name, os);
    if dir.len() == 0 || os.separates(dir.last()) {
        assert(dest == dir + name);
    } else {
        assert(dest == dir + (seq![os.main_separator()] + name));
        assert(dest == dir.push(os.main_separator()) + name);
    }
}

} // verus!
