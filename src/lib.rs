//! Installs locally built command-line binaries: decides, from a snapshot of a
//! project directory, which binary a project builds and where its compiled
//! artifact lies, and whether that artifact is fresh; and plans the copying,
//! removal, listing and PATH setup around it.

pub mod cli;
pub mod config;
pub mod error;
pub mod format;
pub mod freshness;
pub mod guarantees;
pub mod lister;
pub mod manifest;
pub mod operations;
pub mod output;
pub mod setup;
pub mod tree;
pub mod validator;
pub mod workspace;

pub use config::InstallConfig;
pub use error::InstallError;
pub use format::format_time_ago;
pub use lister::{BinaryInfo, InvalidSortOrder, Lister, SortOrder};
pub use operations::{validate_binary_exists, InstallPlan, Installer, Uninstaller};
pub use output::{create_output_handler, MessageKind, NormalOutput, OutputMode};
pub use setup::{find_shell_config, Setup, SetupPlan};
pub use tree::{FsEntry, ProjectTree};
pub use validator::{ProjectType, ValidationResult, Validator};
