//! Release-channel selection for the desktop updater, planning and judging
//! of the self-service sync-server deployment over SSH, and detection of
//! Kode-managed CLI sessions.
//!
//! Every module states its behaviour over `Seq<char>` views; the outside
//! crates it calls (`semver`, `url`, `serde_json`) are reached through the
//! small trusted wrappers in `version`, `url_parts` and `json_doc`.

pub mod text;
pub mod runtime_context;
pub mod shell;
pub mod remote_dir;
pub mod url_parts;
pub mod json_doc;
pub mod docker;
pub mod standalone;
pub mod deploy;
pub mod prerelease;
pub mod version;
pub mod updates;

pub use runtime_context::is_active_values;
pub use shell::{compose_shell_function, explain_docker_start_error, shell_quote};
pub use remote_dir::{validate_remote_deploy_dir, RemoteDeployDir};
pub use docker::{docker_install_command, docker_preflight_command};
pub use deploy::{
    default_deployment_kind, default_remote_port, default_ssh_port, CloudDeployProgress,
    CloudDeployReq, CloudDeployResult,
};
pub use updates::{has_updater_assets, newer_release, newest_release, release_for_check};
