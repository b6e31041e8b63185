//! The path resolver: where the registry keeps what, below the operator's
//! home directory.
//!
//! A path is given as the names to follow from the home directory on, one
//! after the other. Joining them to the home directory is the driver's part.
//! What lies inside an environment is found only by a name that an
//! environment can have, so that every such path leads into the
//! environments directory, one step deep, and nowhere else.

use vstd::prelude::*;
use crate::name::EnvironmentName;
use crate::text::views;

verus! {

/// The kind of system that the environments are laid out for.
#[derive(Debug, Clone, Copy, PartialEq, Eq)]
pub enum Platform {
    /// Scripts and tools stand in `bin`.
    Posix,
    /// Scripts and tools stand in `Scripts`.
    Windows,
}

/// The registry's root, from the home directory.
pub open spec fn registry_root_path() -> Seq<Seq<char>> {
    seq!["venman"@]
}

/// The directory that holds one subdirectory per environment.
pub open spec fn environments_dir_path() -> Seq<Seq<char>> {
    registry_root_path().push("venvs"@)
}

/// The configuration file.
pub open spec fn config_file_path() -> Seq<Seq<char>> {
    registry_root_path().push("venvs.toml"@)
}

/// The directory of the environment with this name.
pub open spec fn environment_dir_path(name: Seq<char>) -> Seq<Seq<char>> {
    environments_dir_path().push(name)
}

/// The directory, inside an environment, of its scripts and tools.
pub open spec fn tools_dir_name(platform: Platform) -> Seq<char> {
    match platform {
        Platform::Posix => "bin"@,
        Platform::Windows => "Scripts"@,
    }
}

/// The file name of an environment's activation script.
pub open spec fn activation_script_name(platform: Platform) -> Seq<char> {
    match platform {
        Platform::Posix => "activate"@,
        Platform::Windows => "activate.bat"@,
    }
}

/// The file name of an environment's package installer.
pub open spec fn installer_name(platform: Platform) -> Seq<char> {
    match platform {
        Platform::Posix => "pip"@,
        Platform::Windows => "pip.exe"@,
    }
}

/// The activation script of the environment with this name.
pub open spec fn activation_script_path(name: Seq<char>, platform: Platform) -> Seq<Seq<char>> {
    environment_dir_path(name).push(tools_dir_name(platform)).push(
        activation_script_name(platform),
    )
}

/// The package installer of the environment with this name.
pub open spec fn installer_path(name: Seq<char>, platform: Platform) -> Seq<Seq<char>> {
    environment_dir_path(name).push(tools_dir_name(platform)).push(installer_name(platform))
}

/// The registry's root, from the home directory.
pub fn registry_root() -> (path: Vec<String>)
    ensures
        views(path@) == registry_root_path(),
{
    let mut path: Vec<String> = Vec::new();
    path.push("venman".to_string());
    assert(views(path@) =~= registry_root_path());
    path
}

/// The directory that holds one subdirectory per environment.
pub fn environments_dir() -> (path: Vec<String>)
    ensures
        views(path@) == environments_dir_path(),
{
    let mut path = registry_root();
    path.push("venvs".to_string());
    assert(views(path@) =~= environments_dir_path());
    path
}

/// The configuration file.
pub fn config_file() -> (path: Vec<String>)
    ensures
        views(path@) == config_file_path(),
{
    let mut path = registry_root();
    path.push("venvs.toml".to_string());
    assert(views(path@) =~= config_file_path());
    path
}

/// The directory of the environment with this name.
pub fn environment_dir(name: &EnvironmentName) -> (path: Vec<String>)
    ensures
        views(path@) == environment_dir_path(name@),
{
    let mut path = environments_dir();
    path.push(name.as_str().to_owned());
    assert(views(path@) =~= environment_dir_path(name@));
    path
}

/// The directory, inside an environment, of its scripts and tools.
fn tools_dir(platform: Platform) -> (name: String)
    ensures
        name@ == tools_dir_name(platform),
{
    match platform {
        Platform::Posix => "bin".to_string(),
        Platform::Windows => "Scripts".to_string(),
    }
}

/// The activation script of the environment with this name, on the name's system.
pub fn activation_script(name: &EnvironmentName) -> (path: Vec<String>)
    ensures
        views(path@) == activation_script_path(name@, name.system()),
{
    let platform = name.platform();
    let mut path = environment_dir(name);
    path.push(tools_dir(platform));
    path.push(
        match platform {
            Platform::Posix => "activate".to_string(),
            Platform::Windows => "activate.bat".to_string(),
        },
    );
    assert(views(path@) =~= activation_script_path(name@, name.system()));
    path
}

/// The package installer of the environment with this name, on the name's system.
pub fn installer(name: &EnvironmentName) -> (path: Vec<String>)
    ensures
        views(path@) == installer_path(name@, name.system()),
{
    let platform = name.platform();
    let mut path = environment_dir(name);
    path.push(tools_dir(platform));
    path.push(
        match platform {
            Platform::Posix => "pip".to_string(),
            Platform::Windows => "pip.exe".to_string(),
        },
    );
    assert(views(path@) =~= installer_path(name@, name.system()));
    path
}

} // verus!
