//! Registry of named virtual environments.
//!
//! The registry is a configuration file that maps environment names to
//! records, beside a directory with one subdirectory per environment. This
//! crate holds the rules that keep the two together: the configuration store,
//! the directory scanner, and the four operations (create, list, activate,
//! delete), each written as a flow that asks its driver for one outside
//! action at a time and decides what follows from the answer.

pub mod error;
pub mod text;
pub mod toml_api;
pub mod config;
pub mod protocol;
pub mod scan;
pub mod listing;
pub mod activate;
pub mod create;
pub mod delete;
pub mod paths;
pub mod name;
pub mod commands;
pub mod menu;

pub use crate::activate::{activate_venv, ActivateFlow};
pub use crate::config::{ConfigStore, EnvironmentRecord};
pub use crate::create::{create_env, CreateFlow};
pub use crate::delete::{delete_venv, DeleteFlow};
pub use crate::error::RegistryError;
pub use crate::listing::{list_venv_names, list_venvs, DirectoryScan, ListFlow};
pub use crate::name::EnvironmentName;
pub use crate::paths::Platform;
pub use crate::protocol::{
    Ending, ListedEnvironment, Outcome, Request, Response, ScannedEntry, Step,
};
