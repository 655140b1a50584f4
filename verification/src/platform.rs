//! What differs between the operating systems the runtime is published for.

use vstd::prelude::*;
use vstd::string::StringExecFns;

verus! {

/// The family of operating system that the program was built for.
#[derive(Clone, Copy, Debug, PartialEq, Eq, Structural)]
pub enum TargetOs {
    /// A system with POSIX paths and permission bits.
    Posix,
    /// Windows.
    Windows,
    /// Any other system: no runtime is published for it.
    Unsupported,
}

/// The three names that depend on the operating system.
#[derive(Clone, Copy, Debug)]
pub struct PlatformLayout {
    /// File name of the runtime's binary in the cache directory.
    pub binary_name: &'static str,
    /// The platform's tag in the download address.
    pub platform_tag: &'static str,
    /// Path of the binary inside the published archive.
    pub archive_entry: &'static str,
}

/// The same three names as sequences of characters.
pub struct LayoutView {
    pub binary_name: Seq<char>,
    pub platform_tag: Seq<char>,
    pub archive_entry: Seq<char>,
}

impl View for PlatformLayout {
    type V = LayoutView;

    open spec fn view(&self) -> LayoutView {
        LayoutView {
            binary_name: self.binary_name@,
            platform_tag: self.platform_tag@,
            archive_entry: self.archive_entry@,
        }
    }
}

impl TargetOs {
    /// The layout of the runtime on this system, if one is published for it.
    pub open spec fn spec_layout(self) -> Option<LayoutView> {
        match self {
            TargetOs::Posix => Some(
                LayoutView {
                    binary_name: "micromamba"@,
                    platform_tag: "linux"@,
                    archive_entry: "bin/micromamba"@,
                },
            ),
            TargetOs::Windows => Some(
                LayoutView {
                    binary_name: "micromamba.exe"@,
                    platform_tag: "win"@,
                    archive_entry: "Library/bin/micromamba.exe"@,
                },
            ),
            TargetOs::Unsupported => None,
        }
    }

    /// The character that separates the components of a path.
    pub open spec fn spec_separator(self) -> char {
        if self == TargetOs::Windows {
            '\\'
        } else {
            '/'
        }
    }

    /// Whether `c` ends a component of a path.
    pub open spec fn separates(self, c: char) -> bool {
        c == '/' || (self == TargetOs::Windows && c == '\\')
    }

    /// The permission bits that a freshly written binary gets, where the
    /// system has any.
    pub open spec fn spec_executable_mode(self) -> Option<u32> {
        if self == TargetOs::Posix {
            Some(0o755u32)
        } else {
            None
        }
    }

    /// Looks up binary name, platform tag and archive entry in one place.
    pub fn layout(self) -> (found: Option<PlatformLayout>)
        ensures
            found.is_some() == self.spec_layout().is_some(),
            found matches Some(l) ==> Some(l@) == self.spec_layout(),
    {
        match self {
            TargetOs::Posix => Some(
                PlatformLayout {
                    binary_name: "micromamba",
                    platform_tag: "linux",
                    archive_entry: "bin/micromamba",
                },
            ),
            TargetOs::Windows => Some(
                PlatformLayout {
                    binary_name: "micromamba.exe",
                    platform_tag: "win",
                    archive_entry: "Library/bin/micromamba.exe",
                },
            ),
            TargetOs::Unsupported => None,
        }
    }

    /// Owner may do everything, everyone else may read and execute.
    pub fn executable_mode(self) -> (mode: Option<u32>)
        ensures
            mode == self.spec_executable_mode(),
    {
        match self {
            TargetOs::Posix => Some(0o755u32),
            _ => None,
        }
    }
}

/// Whether `c` is a letter of the ASCII alphabet.
pub open spec fn is_ascii_letter(c: char) -> bool {
    ('a' <= c && c <= 'z') || ('A' <= c && c <= 'Z')
}

/// Whether `dir` is a drive of Windows and nothing else, such as `C:`. A
/// name appended to it stays relative to the drive's current directory.
pub open spec fn is_bare_drive(dir: Seq<char>, os: TargetOs) -> bool {
    os == TargetOs::Windows && dir.len() == 2 && is_ascii_letter(dir[0]) && dir[1] == ':'
}

/// The plain name `name` below the directory `dir`, as the system's own
/// paths have it: the name alone where `dir` is empty; `dir` and `name`
/// with nothing between where `dir` ends in a separator or is a bare
/// drive; else `dir`, one separator, and `name`.
pub open spec fn spec_join(dir: Seq<char>, name: Seq<char>, os: TargetOs) -> Seq<char> {
    if dir.len() == 0 {
        name
    } else if os.separates(dir.last()) || is_bare_drive(dir, os) {
        dir + name
    } else {
        dir + seq![os.spec_separator()] + name
    }
}

/// Whether `c` is a letter of the ASCII alphabet.
fn ascii_letter(c: char) -> (letter: bool)
    ensures
        letter == is_ascii_letter(c),
{
    ('a' <= c && c <= 'z') || ('A' <= c && c <= 'Z')
}

/// Appends the plain name `name` to the directory `dir`.
///
/// `name` is meant to be a single component: a file or directory name
/// without separators and without a drive.
pub fn join(dir: &str, name: &str, os: TargetOs) -> (path: String)
    ensures
        path@ == spec_join(dir@, name@, os),
{
    let n: usize = dir.unicode_len();
    if n == 0 {
        return String::from_str(name);
    }
    let last = dir.get_char(n - 1);
    let windows = match os {
        TargetOs::Windows => true,
        _ => false,
    };
    let bare_drive = windows && n == 2 && ascii_letter(dir.get_char(0)) && last == ':';
    let path = String::from_str(dir);
    if last == '/' || (windows && last == '\\') || bare_drive {
        path.concat(name)
    } else if windows {
        proof {
            reveal_strlit("\\");
        }
        assert("\\"@ =~= seq!['\\']);
        path.concat("\\").concat(name)
    } else {
        proof {
            reveal_strlit("/");
        }
        assert("/"@ =~= seq!['/']);
        path.concat("/").concat(name)
    }
}

/// Where the archives are published: what comes before the platform's
/// tag in an archive's address.
pub const DOWNLOAD_BASE: &'static str = "https://micro.mamba.pm/api/micromamba/";

/// What comes after the platform's tag in an archive's address: the
/// architecture, and which version is asked for.
pub const DOWNLOAD_TAIL: &'static str = "-64/latest";

/// Where the archive for the platform `tag` is published.
pub open spec fn spec_download_url(tag: Seq<char>) -> Seq<char> {
    DOWNLOAD_BASE@ + tag + DOWNLOAD_TAIL@
}

/// The address of the newest 64-bit archive for the platform `tag`.
pub fn download_url(tag: &str) -> (url: String)
    ensures
        url@ == spec_download_url(tag@),
{
    String::from_str(DOWNLOAD_BASE).concat(tag).concat(DOWNLOAD_TAIL)
}

} // verus!
