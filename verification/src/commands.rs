//! The command lines of the outside tools: which program the driver is to
//! start for a request, and with which arguments.

use vstd::prelude::*;
use crate::paths::Platform;
use crate::text::views;

verus! {

/// A program and the arguments to start it with.
#[derive(Debug, PartialEq, Eq)]
pub struct Invocation {
    pub program: String,
    pub arguments: Vec<String>,
}

/// The mathematical value of an [`Invocation`].
pub struct InvocationView {
    pub program: Seq<char>,
    pub arguments: Seq<Seq<char>>,
}

impl View for Invocation {
    type V = InvocationView;

    open spec fn view(&self) -> InvocationView {
        InvocationView { program: self.program@, arguments: views(self.arguments@) }
    }
}

/// The environment-creation tool, bound to the directory of the new environment.
pub open spec fn environment_creation_line(environment_dir: Seq<char>) -> InvocationView {
    InvocationView { program: "python"@, arguments: seq!["-m"@, "venv"@, environment_dir] }
}

/// An environment's package installer, with the packages as its arguments
/// after the word `install`.
pub open spec fn package_installation_line(
    installer: Seq<char>,
    packages: Seq<Seq<char>>,
) -> InvocationView {
    InvocationView { program: installer, arguments: seq!["install"@] + packages }
}

/// What the shell is told to do on activation where scripts stand in `bin`:
/// to read the environment's activation script and then to become the
/// operator's own shell.
pub open spec fn activation_script_line(environment_dir: Seq<char>) -> Seq<char> {
    "source "@ + environment_dir + "/bin/activate && exec $SHELL"@
}

/// The shell in which an environment is active.
pub open spec fn shell_handoff_line(
    platform: Platform,
    environment_dir: Seq<char>,
    activation_script: Seq<char>,
) -> InvocationView {
    match platform {
        Platform::Posix => InvocationView {
            program: "bash"@,
            arguments: seq!["-c"@, activation_script_line(environment_dir)],
        },
        Platform::Windows => InvocationView {
            program: "cmd"@,
            arguments: seq!["/C"@, activation_script],
        },
    }
}

/// The command line that builds an environment in the given directory.
pub fn environment_creation(environment_dir: &str) -> (line: Invocation)
    ensures
        line@ == environment_creation_line(environment_dir@),
{
    let mut arguments: Vec<String> = Vec::new();
    arguments.push("-m".to_string());
    arguments.push("venv".to_string());
    arguments.push(environment_dir.to_owned());
    assert(views(arguments@) =~= seq!["-m"@, "venv"@, environment_dir@]);
    Invocation { program: "python".to_string(), arguments }
}

/// The command line that installs packages with the installer at the given path.
pub fn package_installation(installer: &str, packages: &Vec<String>) -> (line: Invocation)
    ensures
        line@ == package_installation_line(installer@, views(packages@)),
{
    let mut arguments: Vec<String> = Vec::new();
    arguments.push("install".to_string());
    let mut i: usize = 0;
    while i < packages.len()
        invariant
            i <= packages.len(),
            arguments.len() == i + 1,
            arguments[0]@ == "install"@,
            forall|j: int| 0 <= j < i ==> arguments[j + 1]@ == packages[j]@,
        decreases packages.len() - i,
    {
        arguments.push(packages[i].clone());
        i += 1;
    }
    assert(views(arguments@) =~= seq!["install"@] + views(packages@));
    Invocation { program: installer.to_owned(), arguments }
}

/// The command line of the shell in which an environment is active, given
/// the paths of the environment's directory and of its activation script.
pub fn shell_handoff(platform: Platform, environment_dir: &str, activation_script: &str) -> (line:
    Invocation)
    ensures
        line@ == shell_handoff_line(platform, environment_dir@, activation_script@),
{
    let mut arguments: Vec<String> = Vec::new();
    match platform {
        Platform::Posix => {
            let script = "source ".to_string().concat(environment_dir).concat(
                "/bin/activate && exec $SHELL",
            );
            arguments.push("-c".to_string());
            arguments.push(script);
            assert(views(arguments@) =~= seq!["-c"@, activation_script_line(environment_dir@)]);
            Invocation { program: "bash".to_string(), arguments }
        },
        Platform::Windows => {
            arguments.push("/C".to_string());
            arguments.push(activation_script.to_owned());
            assert(views(arguments@) =~= seq!["/C"@, activation_script@]);
            Invocation { program: "cmd".to_string(), arguments }
        },
    }
}

} // verus!
