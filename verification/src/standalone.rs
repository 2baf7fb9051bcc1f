//! The shell commands of the standalone deployment: the sync server runs as a
//! background process below `$HOME/.local/kode-sync-server`.

use vstd::prelude::*;
use crate::shell::{shell_quote, shell_quoted};
use crate::text::{decimal, push_decimal, push_str};
use crate::docker::flag_text;

verus! {

/// Where the uploaded server archive is put on the remote host.
pub const REMOTE_TARBALL: &'static str = "/tmp/kode-sync-server-deploy.tar.gz";

/// The standalone install directory, relative to `$HOME`.
pub const REMOTE_INSTALL_DIR: &'static str = ".local/kode-sync-server";

/// Checks the remote architecture and tools, then names the install directory below `$HOME`.
pub const STANDALONE_CHECKS: &'static str = "set -e; arch=$(uname -m); case \"$arch\" in x86_64|amd64) ;; *) echo \"unsupported architecture: $arch (expected x86_64)\" >&2; exit 2 ;; esac; command -v tar >/dev/null; command -v curl >/dev/null; command -v nohup >/dev/null; command -v readlink >/dev/null; command -v sleep >/dev/null; install_dir=$HOME/";

/// Opens the test of the upgrade flag.
pub const EXISTING_CHECK_UPDATE: &'static str = "; if [ \"";

/// Continues with the test of the clean-install flag.
pub const EXISTING_CHECK_RESET: &'static str = "\" != 1 ] && [ \"";

/// Refuses to overwrite an installation unless asked to.
pub const EXISTING_CHECK_TAIL: &'static str = "\" != 1 ] && [ -e \"$install_dir/bin/kode-sync-server\" ]; then echo \"a standalone Kode sync installation already exists; choose Upgrade or enable clean install\" >&2; exit 2; fi";

/// Stops the previous service if its pid file names our binary.
pub const STOP_STANDALONE: &'static str = "install_dir=$HOME/.local/kode-sync-server; pid_file=$install_dir/sync-server.pid; if [ -f \"$pid_file\" ]; then pid=$(cat \"$pid_file\" 2>/dev/null || true); case \"$pid\" in ''|*[!0-9]*) ;; *) running=$(readlink -f \"/proc/$pid/exe\" 2>/dev/null || true); expected=$(readlink -f \"$install_dir/bin/kode-sync-server\" 2>/dev/null || true); if [ -n \"$expected\" ] && [ \"$running\" = \"$expected\" ]; then kill \"$pid\" 2>/dev/null || true; attempts=0; while kill -0 \"$pid\" 2>/dev/null && [ \"$attempts\" -lt 20 ]; do sleep 0.1; attempts=$((attempts + 1)); done; kill -9 \"$pid\" 2>/dev/null || true; fi ;; esac; rm -f \"$pid_file\"; fi; exit 0";

/// Removes the standalone installation for a clean install.
pub const CLEAN_STANDALONE_HEAD: &'static str = "rm -rf \"$HOME/";

/// Closes the quoted directory of the clean-install command.
pub const CLOSE_QUOTE: &'static str = "\"";

/// Creates the data directory below the install directory.
pub const EXTRACT_MKDIR: &'static str = "mkdir -p ~/";

/// Unpacks the archive
pub const EXTRACT_UNPACK: &'static str = "/data && tar -xzf ";

/// into the install directory
pub const EXTRACT_INTO: &'static str = " -C ~/";

/// and makes the server binary executable.
pub const EXTRACT_CHMOD: &'static str = " && chmod +x ~/";

/// The server binary below the install directory.
pub const SERVER_BINARY: &'static str = "/bin/kode-sync-server";

/// Starts the server in the background, bound to the service port
pub const START_BIND: &'static str = "nohup env KODE_SYNC_BIND=0.0.0.0:";

/// with its database below the install directory
pub const START_DATABASE: &'static str = " KODE_SYNC_DATABASE=$HOME/";

/// and the public URL
pub const START_PUBLIC_URL: &'static str = "/data/kode-sync.db KODE_SYNC_PUBLIC_URL=";

/// and the id of this deployment,
pub const START_DEPLOYMENT_ID: &'static str = " KODE_SYNC_DEPLOYMENT_ID=";

/// logging at info level, running the installed binary
pub const START_BINARY: &'static str = " RUST_LOG=info,kode_sync_server=info $HOME/";

/// with its output sent to the log file
pub const START_LOG: &'static str = "/bin/kode-sync-server > $HOME/";

/// and its pid written to the pid file.
pub const START_PID: &'static str = "/sync-server.log 2>&1 < /dev/null & echo $! > $HOME/";

/// The pid file below the install directory.
pub const PID_FILE: &'static str = "/sync-server.pid";

/// Fetches the local health endpoint on the service port
pub const HEALTH_CURL: &'static str = "curl -fsS --max-time 3 http://127.0.0.1:";

/// and looks for the deployment id in the answer.
pub const HEALTH_GREP: &'static str = "/healthz | grep -F ";

// ---------------------------------------------------------------- specs

/// The preflight command of a standalone deployment.
pub open spec fn standalone_preflight_text(update_existing: bool, reset_existing: bool) -> Seq<
    char,
> {
    STANDALONE_CHECKS@ + REMOTE_INSTALL_DIR@ + EXISTING_CHECK_UPDATE@ + flag_text(update_existing)
        + EXISTING_CHECK_RESET@ + flag_text(reset_existing) + EXISTING_CHECK_TAIL@
}

/// The command that removes the standalone installation.
pub open spec fn standalone_clean_text() -> Seq<char> {
    CLEAN_STANDALONE_HEAD@ + REMOTE_INSTALL_DIR@ + CLOSE_QUOTE@
}

/// The command that unpacks the uploaded archive into the install directory.
pub open spec fn standalone_extract_text() -> Seq<char> {
    EXTRACT_MKDIR@ + REMOTE_INSTALL_DIR@ + EXTRACT_UNPACK@ + REMOTE_TARBALL@ + EXTRACT_INTO@
        + REMOTE_INSTALL_DIR@ + EXTRACT_CHMOD@ + REMOTE_INSTALL_DIR@ + SERVER_BINARY@
}

/// The command that starts the standalone server.
pub open spec fn standalone_start_text(
    remote_port: u16,
    server_url: Seq<char>,
    deployment_id: Seq<char>,
) -> Seq<char> {
    START_BIND@ + decimal(remote_port as nat) + START_DATABASE@ + REMOTE_INSTALL_DIR@
        + START_PUBLIC_URL@ + shell_quoted(server_url) + START_DEPLOYMENT_ID@ + shell_quoted(
        deployment_id,
    ) + START_BINARY@ + REMOTE_INSTALL_DIR@ + START_LOG@ + REMOTE_INSTALL_DIR@ + START_PID@
        + REMOTE_INSTALL_DIR@ + PID_FILE@
}

/// The command that checks on the host that the server answers with this
/// deployment's id.
pub open spec fn standalone_health_text(remote_port: u16, deployment_id: Seq<char>) -> Seq<char> {
    HEALTH_CURL@ + decimal(remote_port as nat) + HEALTH_GREP@ + shell_quoted(deployment_id)
}

// ---------------------------------------------------------------- exec

/// The standalone preflight command: host checks, and a refusal to overwrite
/// an existing installation unless an upgrade or clean install was asked for.
pub fn standalone_preflight_command(update_existing: bool, reset_existing: bool) -> (cmd: String)
    ensures
        cmd@ == standalone_preflight_text(update_existing, reset_existing),
{
    let mut cmd = String::new();
    push_str(&mut cmd, STANDALONE_CHECKS);
    push_str(&mut cmd, REMOTE_INSTALL_DIR);
    push_str(&mut cmd, EXISTING_CHECK_UPDATE);
    push_str(&mut cmd, if update_existing { "1" } else { "0" });
    push_str(&mut cmd, EXISTING_CHECK_RESET);
    push_str(&mut cmd, if reset_existing { "1" } else { "0" });
    push_str(&mut cmd, EXISTING_CHECK_TAIL);
    cmd
}

/// The command that removes the standalone installation.
pub fn standalone_clean_command() -> (cmd: String)
    ensures
        cmd@ == standalone_clean_text(),
{
    let mut cmd = String::new();
    push_str(&mut cmd, CLEAN_STANDALONE_HEAD);
    push_str(&mut cmd, REMOTE_INSTALL_DIR);
    push_str(&mut cmd, CLOSE_QUOTE);
    cmd
}

/// The command that unpacks the uploaded archive.
pub fn standalone_extract_command() -> (cmd: String)
    ensures
        cmd@ == standalone_extract_text(),
{
    let mut cmd = String::new();
    push_str(&mut cmd, EXTRACT_MKDIR);
    push_str(&mut cmd, REMOTE_INSTALL_DIR);
    push_str(&mut cmd, EXTRACT_UNPACK);
    push_str(&mut cmd, REMOTE_TARBALL);
    push_str(&mut cmd, EXTRACT_INTO);
    push_str(&mut cmd, REMOTE_INSTALL_DIR);
    push_str(&mut cmd, EXTRACT_CHMOD);
    push_str(&mut cmd, REMOTE_INSTALL_DIR);
    push_str(&mut cmd, SERVER_BINARY);
    cmd
}

/// The command that starts the standalone server.
pub fn standalone_start_command(remote_port: u16, server_url: &str, deployment_id: &str) -> (cmd:
    String)
    ensures
        cmd@ == standalone_start_text(remote_port, server_url@, deployment_id@),
{
    let mut cmd = String::new();
    push_str(&mut cmd, START_BIND);
    push_decimal(&mut cmd, remote_port as u64);
    push_str(&mut cmd, START_DATABASE);
    push_str(&mut cmd, REMOTE_INSTALL_DIR);
    push_str(&mut cmd, START_PUBLIC_URL);
    push_str(&mut cmd, shell_quote(server_url).as_str());
    push_str(&mut cmd, START_DEPLOYMENT_ID);
    push_str(&mut cmd, shell_quote(deployment_id).as_str());
    push_str(&mut cmd, START_BINARY);
    push_str(&mut cmd, REMOTE_INSTALL_DIR);
    push_str(&mut cmd, START_LOG);
    push_str(&mut cmd, REMOTE_INSTALL_DIR);
    push_str(&mut cmd, START_PID);
    push_str(&mut cmd, REMOTE_INSTALL_DIR);
    push_str(&mut cmd, PID_FILE);
    cmd
}

/// The command that checks the standalone server on the host.
pub fn standalone_health_command(remote_port: u16, deployment_id: &str) -> (cmd: String)
    ensures
        cmd@ == standalone_health_text(remote_port, deployment_id@),
{
    let mut cmd = String::new();
    push_str(&mut cmd, HEALTH_CURL);
    push_decimal(&mut cmd, remote_port as u64);
    push_str(&mut cmd, HEALTH_GREP);
    push_str(&mut cmd, shell_quote(deployment_id).as_str());
    cmd
}

} // verus!
