//! The names that an environment can have.
//!
//! An environment's name is the name of its directory inside the
//! environments directory. So it has to be a single step of a path: a text
//! that leads nowhere but to a directory of that name. The empty text, `.`
//! and `..` lead elsewhere, and so does any text that holds a separator.

use vstd::prelude::*;
use crate::paths::Platform;

verus! {

/// The characters that part a path into its steps. Where tools stand in
/// `Scripts`, the backslash parts a path too, and the colon marks a drive.
pub open spec fn is_separator(c: char, platform: Platform) -> bool {
    c == '/' || (platform is Windows && (c == '\\' || c == ':'))
}

/// What the system does not keep at the end of a file name where tools
/// stand in `Scripts`: a dot or a space there would make the name another.
pub open spec fn is_dropped_at_end(c: char, platform: Platform) -> bool {
    platform is Windows && (c == '.' || c == ' ')
}

/// The texts that can name an environment: not empty, neither `.` nor `..`,
/// without a separator, and with an end that the system keeps.
pub open spec fn is_environment_name(name: Seq<char>, platform: Platform) -> bool {
    &&& name.len() > 0
    &&& name != seq!['.']
    &&& name != seq!['.', '.']
    &&& forall|i: int| 0 <= i < name.len() ==> !is_separator(#[trigger] name[i], platform)
    &&& !is_dropped_at_end(name.last(), platform)
}

/// Whether a character parts a path into its steps.
fn separator(c: char, platform: Platform) -> (r: bool)
    ensures
        r == is_separator(c, platform),
{
    match platform {
        Platform::Posix => c == '/',
        Platform::Windows => c == '/' || c == '\\' || c == ':',
    }
}

/// Whether a text can name an environment.
pub fn environment_name(name: &str, platform: Platform) -> (r: bool)
    ensures
        r == is_environment_name(name@, platform),
{
    let n = name.unicode_len();
    if n == 0 {
        return false;
    }
    if n == 1 && name.get_char(0) == '.' {
        assert(name@ =~= seq!['.']);
        return false;
    }
    if n == 2 && name.get_char(0) == '.' && name.get_char(1) == '.' {
        assert(name@ =~= seq!['.', '.']);
        return false;
    }
    let last = name.get_char(n - 1);
    match platform {
        Platform::Posix => {},
        Platform::Windows => {
            if last == '.' || last == ' ' {
                return false;
            }
        },
    }
    let mut i: usize = 0;
    while i < n
        invariant
            n == name@.len(),
            i <= n,
            forall|j: int| 0 <= j < i ==> !is_separator(#[trigger] name@[j], platform),
        decreases n - i,
    {
        if separator(name.get_char(i), platform) {
            return false;
        }
        i += 1;
    }
    assert(name@ != seq!['.']) by {
        if name@ == seq!['.'] {
            assert(name@.len() == 1 && name@[0] == '.');
        }
    }
    assert(name@ != seq!['.', '.']) by {
        if name@ == seq!['.', '.'] {
            assert(name@.len() == 2 && name@[0] == '.' && name@[1] == '.');
        }
    }
    true
}

/// A name that an environment can have.
#[derive(Debug, PartialEq, Eq)]
pub struct EnvironmentName {
    text: String,
    platform: Platform,
}

impl View for EnvironmentName {
    type V = Seq<char>;

    closed spec fn view(&self) -> Seq<char> {
        self.text@
    }
}

impl EnvironmentName {
    #[verifier::type_invariant]
    spec fn well_formed(self) -> bool {
        is_environment_name(self.text@, self.platform)
    }

    /// The kind of system that the name is a name on.
    pub closed spec fn system(&self) -> Platform {
        self.platform
    }

    /// The kind of system that the name is a name on.
    pub fn platform(&self) -> (platform: Platform)
        ensures
            platform == self.system(),
    {
        self.platform
    }

    /// The name as a text, borrowed.
    pub fn as_str(&self) -> (text: &str)
        ensures
            text@ == self@,
            is_environment_name(text@, self.system()),
    {
        proof {
            use_type_invariant(self);
        }
        self.text.as_str()
    }

    /// Takes a text as the name of an environment, if it can be one.
    pub fn parse(text: String, platform: Platform) -> (r: Option<EnvironmentName>)
        ensures
            match r {
                Some(name) => name@ == text@ && name.system() == platform && is_environment_name(
                    text@,
                    platform,
                ),
                None => !is_environment_name(text@, platform),
            },
    {
        if environment_name(text.as_str(), platform) {
            Some(EnvironmentName { text, platform })
        } else {
            None
        }
    }

    /// The name as a text.
    pub fn into_text(self) -> (text: String)
        ensures
            text@ == self@,
            is_environment_name(text@, self.system()),
    {
        proof {
            use_type_invariant(&self);
        }
        self.text
    }
}

/// The empty text, `.`, `..` and a text with a slash name no environment,
/// whatever the system.
pub proof fn paths_are_no_names(name: Seq<char>, platform: Platform)
    requires
        name.len() == 0 || name == seq!['.'] || name == seq!['.', '.'] || name.contains('/'),
    ensures
        !is_environment_name(name, platform),
{
}

} // verus!
