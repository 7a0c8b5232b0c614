//! Path conventions of the supported operating systems.

use vstd::prelude::*;

verus! {

/// The family of operating system whose path conventions apply.
#[derive(Clone, Copy, Debug, PartialEq, Eq, Structural)]
pub enum Platform {
    /// Linux and macOS: components are parted by `/`.
    Unix,
    /// Windows: components are parted by `\`, and `/` is understood too.
    Windows,
}

impl Platform {
    /// The character written between two components when a path is built.
    pub open spec fn spec_main_separator(self) -> char {
        match self {
            Platform::Unix => '/',
            Platform::Windows => '\\',
        }
    }

    /// Whether `c` parts two components of a path.
    pub open spec fn spec_is_separator(self, c: char) -> bool {
        c == '/' || (self == Platform::Windows && c == '\\')
    }

    /// The main separator as text, ready to be appended.
    pub fn main_separator_str(self) -> (s: &'static str)
        ensures
            s@ == seq![self.spec_main_separator()],
    {
        match self {
            Platform::Unix => {
                proof {
                    reveal_strlit("/");
                }
                assert("/"@ =~= seq!['/']);
                "/"
            },
            Platform::Windows => {
                proof {
                    reveal_strlit("\\");
                }
                assert("\\"@ =~= seq!['\\']);
                "\\"
            },
        }
    }

    /// Whether `c` parts two components of a path.
    #[verifier::when_used_as_spec(spec_is_separator)]
    pub fn is_separator(self, c: char) -> (b: bool)
        ensures
            b == self.spec_is_separator(c),
    {
        match self {
            Platform::Unix => c == '/',
            Platform::Windows => c == '/' || c == '\\',
        }
    }
}

/// Whether a separator has to be written after `base` before a component
/// can follow: an empty base takes none, and neither does one that already
/// ends in a separator.
pub open spec fn needs_separator(platform: Platform, base: Seq<char>) -> bool {
    base.len() > 0 && !platform.spec_is_separator(base.last())
}

/// The path of `rel` beneath `base`.
pub open spec fn joined(platform: Platform, base: Seq<char>, rel: Seq<char>) -> Seq<char> {
    if needs_separator(platform, base) {
        base.push(platform.spec_main_separator()) + rel
    } else {
        base + rel
    }
}

/// Builds the path of `rel` beneath `base`. `rel` is taken as relative: it
/// is appended as it stands, after one main separator where `base` is not
/// empty and does not already end in a separator. A base that is a bare
/// Windows drive such as `C:` is treated like any other.
pub fn join(platform: Platform, base: &str, rel: &str) -> (path: String)
    ensures
        path@ == joined(platform, base@, rel@),
{
    let n: usize = base.unicode_len();
    let mut path = String::from_str(base);
    if n > 0 {
        let last: char = base.get_char(n - 1);
        if !platform.is_separator(last) {
            path.append(platform.main_separator_str());
        }
    }
    path.append(rel);
    path
}

} // verus!
