//! The shell commands that prepare, install, start and probe the Docker
//! deployment of the sync server: a Compose stack of the server behind Caddy,
//! with its data kept in bind mounts below the deployment directory.

use vstd::prelude::*;
use crate::remote_dir::RemoteDeployDir;
use crate::shell::{compose_function_text, compose_shell_function, shell_quote, shell_quoted};
use crate::text::{chars_end_with, chars_of, ends_with, push_str};
use crate::url_parts::{host_of, parse_url, url_host, url_parse_failure};

verus! {

/// Checks the remote architecture, the tools the Docker package needs and the Docker daemon.
pub const DOCKER_HOST_CHECKS: &'static str = "set -e; arch=$(uname -m); case \"$arch\" in x86_64|amd64) ;; *) echo \"unsupported architecture: $arch (expected x86_64)\" >&2; exit 2 ;; esac; command -v tar >/dev/null; command -v sha256sum >/dev/null; command -v docker >/dev/null; if ! docker info >/dev/null 2>&1; then echo \"Docker daemon is unavailable; start it with: systemctl enable --now docker\" >&2; exit 2; fi; ";

/// Checks that Compose answers, then names the deployment directory.
pub const COMPOSE_CHECK_THEN_DIR: &'static str = "; compose version >/dev/null; deploy_dir=";

/// Separates two shell statements.
pub const STATEMENT_SEP: &'static str = "; ";

/// An upgrade needs a complete saved Docker package.
pub const UPGRADE_POLICY: &'static str = "test -x \"$deploy_dir/deploy.sh\" && test -f \"$deploy_dir/docker-compose.yml\" && test -f \"$deploy_dir/Dockerfile\" && test -d \"$deploy_dir/bin\" || { echo \"the saved Docker deployment is incomplete; use a new clean install to replace it\" >&2; exit 2; }";

/// A clean install accepts whatever is in the directory.
pub const CLEAN_INSTALL_POLICY: &'static str = ":";

/// A first install needs an empty or missing directory.
pub const EMPTY_DIR_POLICY: &'static str = "if [ -d \"$deploy_dir\" ] && [ -n \"$(find \"$deploy_dir\" -mindepth 1 -maxdepth 1 -print -quit)\" ]; then echo \"the target directory is not empty; enable clean install to replace it or choose Upgrade\" >&2; exit 2; fi";

/// Stops the script at the first failing command.
pub const SET_E: &'static str = "set -e; ";

/// Names the deployment directory.
pub const DEPLOY_DIR_IS: &'static str = "; deploy_dir=";

/// Opens the test of the clean-install flag.
pub const CLEAN_FLAG_OPEN: &'static str = "; if [ \"";

/// Removes the old stack and its volumes on a clean install, then unpacks the archive into a staging directory.
pub const CLEAN_THEN_STAGE: &'static str = "\" = 1 ] && [ -d \"$deploy_dir\" ]; then if [ -f \"$deploy_dir/docker-compose.yml\" ]; then cd \"$deploy_dir\"; compose --env-file .env -f docker-compose.yml down -v --remove-orphans || true; fi; rm -rf \"$deploy_dir\"; fi; mkdir -p \"$deploy_dir/bin\"; stage=$(mktemp -d /tmp/kode-sync-update.XXXXXX); trap 'rm -rf \"$stage\"' EXIT; tar -xzf ";

/// Installs the server binary and either verifies an unmanaged package or writes a managed one.
pub const INSTALL_BINARY: &'static str = " -C \"$stage\"; test -x \"$stage/bin/kode-sync-server\"; install -m 0755 \"$stage/bin/kode-sync-server\" \"$deploy_dir/bin/kode-sync-server.new\"; mv -f \"$deploy_dir/bin/kode-sync-server.new\" \"$deploy_dir/bin/kode-sync-server\"; if [ ! -f \"$deploy_dir/.kode-managed-deployment\" ] && [ -x \"$deploy_dir/deploy.sh\" ]; then cd \"$deploy_dir\"; sha256sum bin/kode-sync-server > SHA256SUMS; compose --env-file .env -f docker-compose.yml config -q; else mkdir -p \"$deploy_dir/data/sync\" \"$deploy_dir/data/caddy-data\" \"$deploy_dir/data/caddy-config\"; printf %s ";

/// Writes the Dockerfile.
pub const WRITE_DOCKERFILE: &'static str = " > \"$deploy_dir/Dockerfile\"; printf %s ";

/// Writes the Compose file.
pub const WRITE_COMPOSE_FILE: &'static str = " > \"$deploy_dir/docker-compose.yml\"; printf %s ";

/// Writes the Caddyfile.
pub const WRITE_CADDYFILE: &'static str = " > \"$deploy_dir/Caddyfile\"; printf %s ";

/// Writes the environment file and appends the remote user and group ids.
pub const WRITE_ENV_FILE: &'static str = " > \"$deploy_dir/.env\"; printf 'KODE_SYNC_UID=%s\\nKODE_SYNC_GID=%s\\n' \"$(id -u)\" \"$(id -g)\" >> \"$deploy_dir/.env\"; chmod 600 \"$deploy_dir/.env\"; printf %s ";

/// Writes the deploy script, marks the package as managed and verifies it.
pub const WRITE_DEPLOY_SCRIPT: &'static str = " > \"$deploy_dir/deploy.sh\"; chmod 0755 \"$deploy_dir/deploy.sh\"; : > \"$deploy_dir/.kode-managed-deployment\"; cd \"$deploy_dir\"; sha256sum bin/kode-sync-server > SHA256SUMS; ./deploy.sh verify; fi";

/// Makes Caddy serve plain HTTP behind a gateway that terminates TLS.
pub const CADDY_HTTP_SCHEME: &'static str = "http://";

/// The site block of the Caddyfile after the address.
pub const CADDY_SITE_BODY: &'static str = " {\n  encode zstd gzip\n  reverse_proxy sync-server:8787\n  header {\n    Strict-Transport-Security \"max-age=31536000; includeSubDomains\"\n    X-Content-Type-Options \"nosniff\"\n    Referrer-Policy \"no-referrer\"\n    -Server\n  }\n}\n";

/// The image of the sync server.
pub const DOCKERFILE: &'static str = "FROM alpine:3.22\nRUN apk add --no-cache ca-certificates curl && install -d /data\nCOPY bin/kode-sync-server /usr/local/bin/kode-sync-server\nRUN chmod 0755 /usr/local/bin/kode-sync-server\nEXPOSE 8787\nHEALTHCHECK --interval=5s --timeout=3s --start-period=5s --retries=6 CMD curl -fsS http://127.0.0.1:8787/healthz || exit 1\nENTRYPOINT [\"/usr/local/bin/kode-sync-server\"]\n";

/// The Compose stack: the sync server behind Caddy, data kept in bind mounts.
pub const COMPOSE_FILE: &'static str = "services:\n  sync-server:\n    build: { context: ., dockerfile: Dockerfile }\n    image: kode-sync-server:local\n    restart: unless-stopped\n    user: \"${KODE_SYNC_UID}:${KODE_SYNC_GID}\"\n    environment:\n      KODE_SYNC_BIND: 0.0.0.0:8787\n      KODE_SYNC_DATABASE: /data/kode-sync.db\n      KODE_SYNC_PUBLIC_URL: https://${KODE_SYNC_DOMAIN}\n      RUST_LOG: ${KODE_SYNC_LOG:-info,kode_sync_server=info}\n    volumes: [\"./data/sync:/data\"]\n    networks: [kode-sync]\n    expose: [\"8787\"]\n  caddy:\n    image: caddy:2.10-alpine\n    restart: unless-stopped\n    depends_on:\n      sync-server: { condition: service_healthy }\n    ports: [\"80:80\", \"443:443\", \"443:443/udp\"]\n    volumes:\n      - ./Caddyfile:/etc/caddy/Caddyfile:ro\n      - ./data/caddy-data:/data\n      - ./data/caddy-config:/config\n    networks: [kode-sync]\nnetworks:\n  kode-sync:\n";

/// The start of the deploy script.
pub const DEPLOY_SCRIPT_HEAD: &'static str = "#!/bin/sh\nset -eu\n";

/// The actions of the deploy script.
pub const DEPLOY_SCRIPT_ACTIONS: &'static str = "\naction=${1:-up}\ncase \"$action\" in\n  verify) test -x bin/kode-sync-server; compose config -q ;;\n  up) compose up -d --build ;;\n  status) compose ps ;;\n  logs) compose logs --tail=200 -f ;;\n  down) compose down ;;\n  *) echo \"usage: $0 verify|up|status|logs|down\" >&2; exit 2 ;;\nesac\n";

/// The domain entry of the environment file.
pub const ENV_DOMAIN_KEY: &'static str = "KODE_SYNC_DOMAIN=";

/// The log-level entry of the environment file.
pub const ENV_LOG_LINE: &'static str = "\nKODE_SYNC_LOG=info,kode_sync_server=info\n";

/// Enters the deployment directory
pub const START_DOCKER_HEAD: &'static str = "set -e; deploy_dir=";

/// and rebuilds and starts the stack.
pub const START_DOCKER_TAIL: &'static str = "; cd \"$deploy_dir\"; ./deploy.sh up";

/// Asks Docker whether the sync-server container is healthy or running.
pub const DOCKER_HEALTH_PROBE: &'static str = "; cd \"$deploy_dir\"; container=$(compose --env-file .env -f docker-compose.yml ps -q sync-server); test -n \"$container\"; state=$(docker inspect --format '{{if .State.Health}}{{.State.Health.Status}}{{else}}{{.State.Status}}{{end}}' \"$container\"); case \"$state\" in healthy|running) ;; *) echo \"container state: $state\" >&2; exit 1 ;; esac";

/// Hosts below this domain sit behind a gateway that terminates TLS itself.
pub const DEVCLOUD_SUFFIX: &'static str = ".devcloud.woa.com";

/// The prefix of the error for a public URL that does not parse.
pub const INVALID_URL_PREFIX: &'static str = "invalid public sync URL: ";

/// The error for a public URL without a host.
pub const NO_HOSTNAME: &'static str = "the public sync URL has no hostname";

// ---------------------------------------------------------------- specs

/// What an existing directory must look like before the upload.
pub open spec fn existing_policy(update_existing: bool, reset_existing: bool) -> Seq<char> {
    if update_existing {
        UPGRADE_POLICY@
    } else if reset_existing {
        CLEAN_INSTALL_POLICY@
    } else {
        EMPTY_DIR_POLICY@
    }
}

/// The Docker preflight command for the directory named by `dir`.
pub open spec fn docker_preflight_text(
    dir: Seq<char>,
    update_existing: bool,
    reset_existing: bool,
) -> Seq<char> {
    DOCKER_HOST_CHECKS@ + compose_function_text() + COMPOSE_CHECK_THEN_DIR@ + dir + STATEMENT_SEP@
        + existing_policy(update_existing, reset_existing)
}

/// The Caddyfile for `domain`: plain HTTP behind a DevCloud gateway,
/// automatic HTTPS everywhere else.
pub open spec fn caddyfile_text(domain: Seq<char>) -> Seq<char> {
    if ends_with(domain, DEVCLOUD_SUFFIX@) {
        CADDY_HTTP_SCHEME@ + domain + CADDY_SITE_BODY@
    } else {
        domain + CADDY_SITE_BODY@
    }
}

/// The environment file for `domain`.
pub open spec fn env_file_text(domain: Seq<char>) -> Seq<char> {
    ENV_DOMAIN_KEY@ + domain + ENV_LOG_LINE@
}

/// The deploy script of a managed package.
pub open spec fn deploy_script_text() -> Seq<char> {
    DEPLOY_SCRIPT_HEAD@ + compose_function_text() + DEPLOY_SCRIPT_ACTIONS@
}

/// How a boolean flag is written into a shell test.
pub open spec fn flag_text(b: bool) -> Seq<char> {
    if b {
        "1"@
    } else {
        "0"@
    }
}

/// The install command for the directory named by `dir`.
pub open spec fn docker_install_text(
    dir: Seq<char>,
    remote_tarball: Seq<char>,
    domain: Seq<char>,
    clean_install: bool,
) -> Seq<char> {
    SET_E@ + compose_function_text() + DEPLOY_DIR_IS@ + dir + CLEAN_FLAG_OPEN@ + flag_text(
        clean_install,
    ) + CLEAN_THEN_STAGE@ + shell_quoted(remote_tarball) + INSTALL_BINARY@ + shell_quoted(
        DOCKERFILE@,
    ) + WRITE_DOCKERFILE@ + shell_quoted(COMPOSE_FILE@) + WRITE_COMPOSE_FILE@ + shell_quoted(
        caddyfile_text(domain),
    ) + WRITE_CADDYFILE@ + shell_quoted(env_file_text(domain)) + WRITE_ENV_FILE@ + shell_quoted(
        deploy_script_text(),
    ) + WRITE_DEPLOY_SCRIPT@
}

/// A clean install is one that was asked for without an upgrade.
pub open spec fn is_clean_install(update_existing: bool, reset_existing: bool) -> bool {
    reset_existing && !update_existing
}

/// The outcome of building the install command: the command, or why the
/// public URL gives no domain.
pub open spec fn docker_install_outcome(
    dir: Seq<char>,
    remote_tarball: Seq<char>,
    server_url: Seq<char>,
    update_existing: bool,
    reset_existing: bool,
) -> Result<Seq<char>, Seq<char>> {
    match url_parse_failure(server_url) {
        Some(e) => Err(INVALID_URL_PREFIX@ + e),
        None => match url_host(server_url) {
            None => Err(NO_HOSTNAME@),
            Some(domain) => Ok(
                docker_install_text(
                    dir,
                    remote_tarball,
                    domain,
                    is_clean_install(update_existing, reset_existing),
                ),
            ),
        },
    }
}

/// The command that rebuilds and starts the stack in the directory `dir`.
pub open spec fn docker_start_text(dir: Seq<char>) -> Seq<char> {
    START_DOCKER_HEAD@ + dir + START_DOCKER_TAIL@
}

/// The command that asks Docker about the server container in `dir`.
pub open spec fn docker_health_text(dir: Seq<char>) -> Seq<char> {
    SET_E@ + compose_function_text() + DEPLOY_DIR_IS@ + dir + DOCKER_HEALTH_PROBE@
}

pub open spec fn string_result_view(r: Result<String, String>) -> Result<Seq<char>, Seq<char>> {
    match r {
        Ok(s) => Ok(s@),
        Err(e) => Err(e@),
    }
}

// ---------------------------------------------------------------- exec

/// The command run on the host before the upload: host checks, then the
/// policy for what may already be in the directory.
pub fn docker_preflight_command(
    remote_dir: &RemoteDeployDir,
    update_existing: bool,
    reset_existing: bool,
) -> (cmd: String)
    ensures
        cmd@ == docker_preflight_text(remote_dir@.1, update_existing, reset_existing),
{
    let policy = if update_existing {
        UPGRADE_POLICY
    } else if reset_existing {
        CLEAN_INSTALL_POLICY
    } else {
        EMPTY_DIR_POLICY
    };
    let mut cmd = String::new();
    push_str(&mut cmd, DOCKER_HOST_CHECKS);
    push_str(&mut cmd, compose_shell_function());
    push_str(&mut cmd, COMPOSE_CHECK_THEN_DIR);
    push_str(&mut cmd, remote_dir.shell_expr());
    push_str(&mut cmd, STATEMENT_SEP);
    push_str(&mut cmd, policy);
    cmd
}

fn caddyfile(domain: &str) -> (text: String)
    ensures
        text@ == caddyfile_text(domain@),
{
    let mut text = String::new();
    if chars_end_with(chars_of(domain).as_slice(), chars_of(DEVCLOUD_SUFFIX).as_slice()) {
        push_str(&mut text, CADDY_HTTP_SCHEME);
    }
    push_str(&mut text, domain);
    push_str(&mut text, CADDY_SITE_BODY);
    text
}

fn env_file(domain: &str) -> (text: String)
    ensures
        text@ == env_file_text(domain@),
{
    let mut text = String::new();
    push_str(&mut text, ENV_DOMAIN_KEY);
    push_str(&mut text, domain);
    push_str(&mut text, ENV_LOG_LINE);
    text
}

fn deploy_script() -> (text: String)
    ensures
        text@ == deploy_script_text(),
{
    let mut text = String::new();
    push_str(&mut text, DEPLOY_SCRIPT_HEAD);
    push_str(&mut text, compose_shell_function());
    push_str(&mut text, DEPLOY_SCRIPT_ACTIONS);
    text
}

fn install_text(dir: &str, remote_tarball: &str, domain: &str, clean_install: bool) -> (cmd:
    String)
    ensures
        cmd@ == docker_install_text(dir@, remote_tarball@, domain@, clean_install),
{
    let mut cmd = String::new();
    push_str(&mut cmd, SET_E);
    push_str(&mut cmd, compose_shell_function());
    push_str(&mut cmd, DEPLOY_DIR_IS);
    push_str(&mut cmd, dir);
    push_str(&mut cmd, CLEAN_FLAG_OPEN);
    push_str(&mut cmd, if clean_install { "1" } else { "0" });
    push_str(&mut cmd, CLEAN_THEN_STAGE);
    push_str(&mut cmd, shell_quote(remote_tarball).as_str());
    push_str(&mut cmd, INSTALL_BINARY);
    push_str(&mut cmd, shell_quote(DOCKERFILE).as_str());
    push_str(&mut cmd, WRITE_DOCKERFILE);
    push_str(&mut cmd, shell_quote(COMPOSE_FILE).as_str());
    push_str(&mut cmd, WRITE_COMPOSE_FILE);
    push_str(&mut cmd, shell_quote(caddyfile(domain).as_str()).as_str());
    push_str(&mut cmd, WRITE_CADDYFILE);
    push_str(&mut cmd, shell_quote(env_file(domain).as_str()).as_str());
    push_str(&mut cmd, WRITE_ENV_FILE);
    push_str(&mut cmd, shell_quote(deploy_script().as_str()).as_str());
    push_str(&mut cmd, WRITE_DEPLOY_SCRIPT);
    cmd
}

/// The command that installs or updates the Docker package: on a clean
/// install it first takes down the old stack with its volumes and removes the
/// directory; it always replaces the server binary; an unmanaged package is
/// only verified, any other directory gets the managed package (Dockerfile,
/// Compose file, Caddyfile for the URL's host, environment file, deploy
/// script). Fails when the public URL yields no host.
pub fn docker_install_command(
    remote_dir: &RemoteDeployDir,
    remote_tarball: &str,
    server_url: &str,
    update_existing: bool,
    reset_existing: bool,
) -> (r: Result<String, String>)
    ensures
        string_result_view(r) == docker_install_outcome(
            remote_dir@.1,
            remote_tarball@,
            server_url@,
            update_existing,
            reset_existing,
        ),
{
    let url = match parse_url(server_url) {
        Ok(u) => u,
        Err(e) => {
            let mut m = String::new();
            push_str(&mut m, INVALID_URL_PREFIX);
            push_str(&mut m, e.as_str());
            return Err(m);
        },
    };
    let domain = match host_of(&url) {
        Some(d) => d,
        None => {
            let mut m = String::new();
            push_str(&mut m, NO_HOSTNAME);
            return Err(m);
        },
    };
    let clean_install = reset_existing && !update_existing;
    Ok(
        install_text(
            remote_dir.shell_expr(),
            remote_tarball,
            domain.as_str(),
            clean_install,
        ),
    )
}

/// The command that rebuilds and starts the Docker stack.
pub fn docker_start_command(remote_dir: &RemoteDeployDir) -> (cmd: String)
    ensures
        cmd@ == docker_start_text(remote_dir@.1),
{
    let mut cmd = String::new();
    push_str(&mut cmd, START_DOCKER_HEAD);
    push_str(&mut cmd, remote_dir.shell_expr());
    push_str(&mut cmd, START_DOCKER_TAIL);
    cmd
}

/// The command that checks on the host that the server container is healthy
/// or running.
pub fn docker_health_command(remote_dir: &RemoteDeployDir) -> (cmd: String)
    ensures
        cmd@ == docker_health_text(remote_dir@.1),
{
    let mut cmd = String::new();
    push_str(&mut cmd, SET_E);
    push_str(&mut cmd, compose_shell_function());
    push_str(&mut cmd, DEPLOY_DIR_IS);
    push_str(&mut cmd, remote_dir.shell_expr());
    push_str(&mut cmd, DOCKER_HEALTH_PROBE);
    cmd
}

/// The old stack is taken down with its volumes and the directory removed
/// only on a clean install, that is a reset without an upgrade: an upgrade
/// always updates in place.
pub proof fn law_volumes_removed_only_on_clean_install(update_existing: bool, reset_existing: bool)
    ensures
        flag_text(is_clean_install(update_existing, reset_existing)) == "1"@ <==> (reset_existing
            && !update_existing),
        update_existing ==> flag_text(is_clean_install(update_existing, reset_existing)) == "0"@,
{
    reveal_strlit("1");
    reveal_strlit("0");
    assert("1"@[0] != "0"@[0]);
}

} // verus!
