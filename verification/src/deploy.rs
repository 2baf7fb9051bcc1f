//! Self-service cloud sync deployment over SSH.
//!
//! The app ships a static Linux sync-server archive and reuses the system
//! ssh/scp path, so aliases, keys and ssh-agent work as for any other remote
//! host. Docker mode is self-contained: on an empty host it creates the
//! Compose/Caddy package and starts the public HTTP(S) ingress; on a managed or
//! legacy package it updates in place without removing the persistent data.
//!
//! This module holds every decision of a deployment: which requests are
//! refused, which commands run in which order with which progress messages,
//! how health probes are retried and how a health answer is judged. The caller
//! performs the I/O (ssh, scp, HTTP, sleeping) and hands the outcomes back.

use vstd::prelude::*;
use crate::docker::{
    docker_health_command, docker_health_text, docker_install_command, docker_install_outcome,
    docker_preflight_command, docker_preflight_text, docker_start_command, docker_start_text,
    string_result_view,
};
use crate::remote_dir::{string_of_str, validate_remote_deploy_dir, validated_dir, RemoteDeployDir};
use crate::runtime_context::is_filled;
use crate::standalone::{
    standalone_clean_command, standalone_clean_text, standalone_extract_command,
    standalone_extract_text, standalone_health_command, standalone_health_text,
    standalone_preflight_command, standalone_preflight_text, standalone_start_command,
    standalone_start_text, REMOTE_TARBALL, STOP_STANDALONE,
};
use crate::json_doc::{json_parse_failure, json_string_member, parse_json, string_member};
use crate::text::{
    chars_eq_ignore_ascii_case, chars_equal, chars_of, chars_start_with, debug_quote, debug_text,
    decimal, eq_ignore_ascii_case, lossy_text, push_decimal, push_str, starts_with,
    string_of, trim, trim_chars, utf8_lossy,
};
use crate::url_parts::{host_of, parse_url, url_host, url_parse_failure};

verus! {

/// The server archive inside the application bundle.
pub const TARBALL_RESOURCE: &'static str = "resources/kode-sync-server-linux-musl.tar.gz";

/// Where the Docker package goes when no directory is given.
pub const DEFAULT_REMOTE_DOCKER_DIR: &'static str = "~/.local/kode-sync-docker";

/// The health route of the public server.
pub const PUBLIC_HEALTH_PATH: &'static str = "/api/v1/healthz";

/// How often the service is probed on the host before giving up.
pub const LOCAL_HEALTH_RETRIES: u32 = 8;

/// How often the public route is probed before giving up.
pub const PUBLIC_HEALTH_RETRIES: u32 = 20;

/// A deployment request as the user interface sends it.
pub struct CloudDeployReq {
    pub name: String,
    pub ssh_host: String,
    pub ssh_port: u16,
    pub remote_port: u16,
    pub server_url: String,
    pub deployment_kind: String,
    pub remote_deploy_dir: Option<String>,
    pub update_existing: bool,
    pub reset_existing: bool,
}

/// The deployment kind when the request names none.
pub fn default_deployment_kind() -> (kind: String)
    ensures
        kind@ == "docker"@,
{
    string_of_str("docker")
}

/// The SSH port when the request names none.
pub fn default_ssh_port() -> (port: u16)
    ensures
        port == 22,
{
    22
}

/// The service port when the request names none.
pub fn default_remote_port() -> (port: u16)
    ensures
        port == 8787,
{
    8787
}

/// The outcome of a deployment: the backend it saved.
pub struct CloudDeployResult<B> {
    pub backend: B,
}

/// One progress event of a deployment.
pub struct CloudDeployProgress {
    pub step: String,
    pub status: String,
    pub message: String,
}

/// How the sync server runs on the host.
#[derive(PartialEq, Eq, Structural, Clone, Copy, Debug)]
pub enum DeploymentKind {
    Standalone,
    Docker,
}

/// A request that passed validation, with everything the deployment needs.
pub struct DeployPlan {
    pub name: String,
    pub server_url: String,
    pub ssh_host: String,
    pub ssh_port: u16,
    pub remote_port: u16,
    pub kind: DeploymentKind,
    pub remote_dir: Option<RemoteDeployDir>,
    pub update_existing: bool,
    pub reset_existing: bool,
    pub local_tarball: String,
    pub deployment_id: String,
}

pub const BAD_SSH_HOST: &'static str = "enter an SSH host or ~/.ssh/config alias";

pub const BAD_PORTS: &'static str = "SSH and service ports must be between 1 and 65535";

pub const NEEDS_HTTPS: &'static str = "the public sync URL must use HTTPS";

pub const BAD_KIND: &'static str = "deployment kind must be standalone or docker";

pub const UPGRADE_AND_CLEAN: &'static str = "upgrade and clean install cannot be requested together";

pub const HTTPS_SCHEME: &'static str = "https://";

pub const KIND_STANDALONE: &'static str = "standalone";

pub const KIND_DOCKER: &'static str = "docker";

// ---------------------------------------------------------------- plan specs

/// An SSH host that is given and cannot be taken for an ssh option.
pub open spec fn host_is_usable(host: Seq<char>) -> bool {
    host.len() > 0 && host[0] != '-'
}

/// The kind a request names, after trimming.
pub open spec fn requested_kind(kind: Seq<char>) -> Option<DeploymentKind> {
    if trim(kind) == KIND_STANDALONE@ {
        Some(DeploymentKind::Standalone)
    } else if trim(kind) == KIND_DOCKER@ {
        Some(DeploymentKind::Docker)
    } else {
        None
    }
}

/// The directory a request names for Docker, or the default when it names
/// none or only whitespace.
pub open spec fn requested_dir(dir: Option<String>) -> Seq<char> {
    match dir {
        Some(d) => if is_filled(d@) {
            d@
        } else {
            DEFAULT_REMOTE_DOCKER_DIR@
        },
        None => DEFAULT_REMOTE_DOCKER_DIR@,
    }
}

/// Why a request is refused, checked in this order: the SSH host, the ports,
/// the public URL (as normalised by the caller, then its scheme), the server
/// archive, the kind, upgrade together with clean install, the Docker
/// directory. `None` when it is accepted.
pub open spec fn plan_failure(
    req: CloudDeployReq,
    server_url: Result<Seq<char>, Seq<char>>,
    local_tarball: Result<Seq<char>, Seq<char>>,
) -> Option<Seq<char>> {
    if !host_is_usable(trim(req.ssh_host@)) {
        Some(BAD_SSH_HOST@)
    } else if req.ssh_port == 0 || req.remote_port == 0 {
        Some(BAD_PORTS@)
    } else {
        match server_url {
            Err(e) => Some(e),
            Ok(url) => if !starts_with(url, HTTPS_SCHEME@) {
                Some(NEEDS_HTTPS@)
            } else {
                match local_tarball {
                    Err(e) => Some(e),
                    Ok(_) => match requested_kind(req.deployment_kind@) {
                        None => Some(BAD_KIND@),
                        Some(kind) => if req.update_existing && req.reset_existing {
                            Some(UPGRADE_AND_CLEAN@)
                        } else if kind == DeploymentKind::Docker {
                            match validated_dir(requested_dir(req.remote_deploy_dir)) {
                                Err(e) => Some(e),
                                Ok(_) => None,
                            }
                        } else {
                            None
                        },
                    },
                }
            },
        }
    }
}

/// The backend name: the one given, else the host of the public URL, else
/// the SSH host.
pub open spec fn deploy_name(name: Seq<char>, server_url: Seq<char>, ssh_host: Seq<char>) -> Seq<
    char,
> {
    if is_filled(name) {
        trim(name)
    } else if url_parse_failure(server_url) is None && url_host(server_url) is Some {
        url_host(server_url)->0
    } else {
        ssh_host
    }
}

/// `plan` is what an accepted request yields.
pub open spec fn plan_matches(
    plan: DeployPlan,
    req: CloudDeployReq,
    server_url: Seq<char>,
    local_tarball: Seq<char>,
    deployment_id: Seq<char>,
) -> bool {
    &&& plan.ssh_host@ == trim(req.ssh_host@)
    &&& plan.ssh_port == req.ssh_port
    &&& plan.remote_port == req.remote_port
    &&& plan.server_url@ == server_url
    &&& plan.local_tarball@ == local_tarball
    &&& plan.deployment_id@ == deployment_id
    &&& requested_kind(req.deployment_kind@) == Some(plan.kind)
    &&& plan.update_existing == req.update_existing
    &&& plan.reset_existing == req.reset_existing
    &&& plan.name@ == deploy_name(req.name@, server_url, trim(req.ssh_host@))
    &&& match plan.kind {
        DeploymentKind::Docker => plan.remote_dir matches Some(d) && validated_dir(
            requested_dir(req.remote_deploy_dir),
        ) == Ok::<(Seq<char>, Seq<char>), Seq<char>>((d@.0, d@.1)),
        DeploymentKind::Standalone => plan.remote_dir is None,
    }
}

// ---------------------------------------------------------------- plan exec

fn backend_name(name: &str, server_url: &str, ssh_host: &String) -> (r: String)
    ensures
        r@ == deploy_name(name@, server_url@, ssh_host@),
{
    let trimmed = trim_chars(chars_of(name).as_slice());
    if trimmed.len() > 0 {
        return string_of(trimmed.as_slice());
    }
    match parse_url(server_url) {
        Ok(u) => match host_of(&u) {
            Some(h) => h,
            None => ssh_host.clone(),
        },
        Err(_) => ssh_host.clone(),
    }
}

fn requested_dir_text(dir: &Option<String>) -> (r: &str)
    ensures
        r@ == requested_dir(*dir),
{
    match dir {
        Some(d) => {
            if trim_chars(chars_of(d.as_str()).as_slice()).len() > 0 {
                d.as_str()
            } else {
                DEFAULT_REMOTE_DOCKER_DIR
            }
        },
        None => DEFAULT_REMOTE_DOCKER_DIR,
    }
}

/// Validates a deployment request. `server_url` is the request's public URL
/// as normalised by the caller (or why it could not be), `local_tarball` the
/// server archive found in the bundle (or why none was), `deployment_id` a
/// fresh id for this deployment.
pub fn plan_deployment(
    req: &CloudDeployReq,
    server_url: Result<String, String>,
    local_tarball: Result<String, String>,
    deployment_id: String,
) -> (r: Result<DeployPlan, String>)
    ensures
        match r {
            Err(e) => plan_failure(
                *req,
                string_result_view(server_url),
                string_result_view(local_tarball),
            ) == Some(e@),
            Ok(p) => {
                &&& plan_failure(
                    *req,
                    string_result_view(server_url),
                    string_result_view(local_tarball),
                ) is None
                &&& plan_matches(
                    p,
                    *req,
                    string_result_view(server_url)->Ok_0,
                    string_result_view(local_tarball)->Ok_0,
                    deployment_id@,
                )
            },
        },
{
    let host_chars = trim_chars(chars_of(req.ssh_host.as_str()).as_slice());
    if host_chars.len() == 0 || host_chars[0] == '-' {
        return Err(string_of_str(BAD_SSH_HOST));
    }
    let ssh_host = string_of(host_chars.as_slice());
    if req.ssh_port == 0 || req.remote_port == 0 {
        return Err(string_of_str(BAD_PORTS));
    }
    let server_url = match server_url {
        Ok(u) => u,
        Err(e) => return Err(e),
    };
    if !chars_start_with(chars_of(server_url.as_str()).as_slice(), chars_of(HTTPS_SCHEME).as_slice()) {
        return Err(string_of_str(NEEDS_HTTPS));
    }
    let name = backend_name(req.name.as_str(), server_url.as_str(), &ssh_host);
    let local_tarball = match local_tarball {
        Ok(t) => t,
        Err(e) => return Err(e),
    };
    let kind_chars = trim_chars(chars_of(req.deployment_kind.as_str()).as_slice());
    let kind = if chars_equal(kind_chars.as_slice(), chars_of(KIND_STANDALONE).as_slice()) {
        DeploymentKind::Standalone
    } else if chars_equal(kind_chars.as_slice(), chars_of(KIND_DOCKER).as_slice()) {
        DeploymentKind::Docker
    } else {
        return Err(string_of_str(BAD_KIND));
    };
    if req.update_existing && req.reset_existing {
        return Err(string_of_str(UPGRADE_AND_CLEAN));
    }
    let remote_dir = match kind {
        DeploymentKind::Docker => match validate_remote_deploy_dir(
            requested_dir_text(&req.remote_deploy_dir),
        ) {
            Ok(d) => Some(d),
            Err(e) => return Err(e),
        },
        DeploymentKind::Standalone => None,
    };
    Ok(
        DeployPlan {
            name,
            server_url,
            ssh_host,
            ssh_port: req.ssh_port,
            remote_port: req.remote_port,
            kind,
            remote_dir,
            update_existing: req.update_existing,
            reset_existing: req.reset_existing,
            local_tarball,
            deployment_id,
        },
    )
}

// ---------------------------------------------------------------- actions

pub const STEP_CHECKING_HOST: &'static str = "CheckingHost";
pub const STEP_UPLOADING: &'static str = "Uploading";
pub const STEP_STOPPING_OLD: &'static str = "StoppingOld";
pub const STEP_EXTRACTING: &'static str = "Extracting";
pub const STEP_STARTING_NEW: &'static str = "StartingNew";
pub const STEP_LOCAL_HEALTH: &'static str = "LocalHealth";
pub const STEP_PUBLIC_HEALTH: &'static str = "PublicHealth";
pub const STEP_SAVING_BACKEND: &'static str = "SavingBackend";
pub const STEP_DONE: &'static str = "Done";

pub const RUNNING: &'static str = "running";
pub const DONE: &'static str = "done";
pub const FAILED: &'static str = "failed";

pub const MSG_CHECKING_HOST: &'static str = "checking the remote host";
pub const CTX_HOST_CHECK: &'static str = "remote host check failed";
pub const MSG_HOST_OK: &'static str = "remote host is compatible";
pub const MSG_UPLOADING: &'static str = "scp \u{2192} ";
pub const CTX_UPLOAD: &'static str = "upload failed";
pub const MSG_UPLOADED: &'static str = "uploaded";
pub const MSG_DOCKER_PREPARING: &'static str = "preparing Docker package update";
pub const MSG_DOCKER_READY: &'static str = "Docker deployment ready (existing or new)";
pub const MSG_DOCKER_REPLACING: &'static str = "replacing sync-server binary";
pub const CTX_DOCKER_UPDATE: &'static str = "Docker package update failed";
pub const MSG_DOCKER_INSTALLED: &'static str = "Docker package installed or updated";
pub const MSG_DOCKER_REBUILDING: &'static str = "rebuilding Docker service";
pub const CTX_DOCKER_START: &'static str = "Docker deployment failed";
pub const MSG_DOCKER_REBUILT: &'static str = "Docker service rebuilt";
pub const MSG_STOPPING: &'static str = "stopping previous service";
pub const CTX_STOP: &'static str = "stop failed";
pub const MSG_STOPPED: &'static str = "stopped (or none was running)";
pub const CTX_CLEAN: &'static str = "clean install failed";
pub const MSG_INSTALLING: &'static str = "installing service bundle";
pub const CTX_EXTRACT: &'static str = "extract failed";
pub const MSG_INSTALLED: &'static str = "installed";
pub const MSG_STARTING: &'static str = "starting sync service";
pub const CTX_START: &'static str = "start failed";
pub const MSG_STARTED: &'static str = "started";
pub const MSG_LOCAL_CHECKING: &'static str = "checking service on the remote host";
pub const CTX_LOCAL_HEALTH: &'static str = "service did not become healthy";
pub const MSG_LOCAL_OK: &'static str = "remote service is healthy";
pub const MSG_PUBLIC_CHECKING: &'static str = "checking the public HTTPS route";
pub const CTX_PUBLIC_HEALTH: &'static str = "service is running, but the public HTTPS route cannot reach it";
pub const MSG_PUBLIC_OK: &'static str = "public route is healthy";
pub const MSG_SAVING: &'static str = "saving deployment backend";
pub const MSG_SAVED: &'static str = "backend saved";
pub const MSG_COMPLETE: &'static str = "deployment complete";

/// One thing the caller does for the deployment, in order.
pub enum DeployAction {
    /// Report progress.
    Progress(CloudDeployProgress),
    /// Run `command` on the host over ssh; on failure the deployment fails
    /// at `step` with `context`, the error first explained as a Docker start
    /// error when `explain_docker_failure` is set.
    Ssh { step: String, context: String, command: String, explain_docker_failure: bool },
    /// Copy `local_path` to `remote_path` on the host; on failure the
    /// deployment fails at `step` with `context`.
    Upload { step: String, context: String, local_path: String, remote_path: String },
    /// Stop the deployment with this error, reporting no progress.
    Abort(String),
}

/// The plain content of a deployment action.
pub enum ActionView {
    Progress(Seq<char>, Seq<char>, Seq<char>),
    Ssh(Seq<char>, Seq<char>, Seq<char>, bool),
    Upload(Seq<char>, Seq<char>, Seq<char>, Seq<char>),
    Abort(Seq<char>),
}

impl View for DeployAction {
    type V = ActionView;

    open spec fn view(&self) -> ActionView {
        match self {
            DeployAction::Progress(p) => ActionView::Progress(p.step@, p.status@, p.message@),
            DeployAction::Ssh { step, context, command, explain_docker_failure } => ActionView::Ssh(
                step@,
                context@,
                command@,
                *explain_docker_failure,
            ),
            DeployAction::Upload { step, context, local_path, remote_path } => ActionView::Upload(
                step@,
                context@,
                local_path@,
                remote_path@,
            ),
            DeployAction::Abort(e) => ActionView::Abort(e@),
        }
    }
}

pub open spec fn action_views(actions: Seq<DeployAction>) -> Seq<ActionView> {
    actions.map_values(|a: DeployAction| a@)
}

pub open spec fn progress_view(step: &str, status: &str, message: Seq<char>) -> ActionView {
    ActionView::Progress(step@, status@, message)
}

pub open spec fn ssh_view(step: &str, context: &str, command: Seq<char>, explain: bool) -> ActionView {
    ActionView::Ssh(step@, context@, command, explain)
}

/// The Docker part of a deployment.
pub open spec fn docker_actions(plan: DeployPlan, dir: Seq<char>) -> Seq<ActionView> {
    seq![
        progress_view(STEP_STOPPING_OLD, RUNNING, MSG_DOCKER_PREPARING@),
        progress_view(STEP_STOPPING_OLD, DONE, MSG_DOCKER_READY@),
        progress_view(STEP_EXTRACTING, RUNNING, MSG_DOCKER_REPLACING@),
    ] + match docker_install_outcome(
        dir,
        REMOTE_TARBALL@,
        plan.server_url@,
        plan.update_existing,
        plan.reset_existing,
    ) {
        Err(e) => seq![ActionView::Abort(e)],
        Ok(install) => seq![
            ssh_view(STEP_EXTRACTING, CTX_DOCKER_UPDATE, install, false),
            progress_view(STEP_EXTRACTING, DONE, MSG_DOCKER_INSTALLED@),
            progress_view(STEP_STARTING_NEW, RUNNING, MSG_DOCKER_REBUILDING@),
            ssh_view(STEP_STARTING_NEW, CTX_DOCKER_START, docker_start_text(dir), true),
            progress_view(STEP_STARTING_NEW, DONE, MSG_DOCKER_REBUILT@),
            progress_view(STEP_LOCAL_HEALTH, RUNNING, MSG_LOCAL_CHECKING@),
        ],
    }
}

/// The standalone part of a deployment; the old installation is removed only
/// for a clean install.
pub open spec fn standalone_actions(plan: DeployPlan) -> Seq<ActionView> {
    seq![
        progress_view(STEP_STOPPING_OLD, RUNNING, MSG_STOPPING@),
        ssh_view(STEP_STOPPING_OLD, CTX_STOP, STOP_STANDALONE@, false),
        progress_view(STEP_STOPPING_OLD, DONE, MSG_STOPPED@),
    ] + (if plan.reset_existing && !plan.update_existing {
        seq![ssh_view(STEP_STOPPING_OLD, CTX_CLEAN, standalone_clean_text(), false)]
    } else {
        Seq::empty()
    }) + seq![
        progress_view(STEP_EXTRACTING, RUNNING, MSG_INSTALLING@),
        ssh_view(STEP_EXTRACTING, CTX_EXTRACT, standalone_extract_text(), false),
        progress_view(STEP_EXTRACTING, DONE, MSG_INSTALLED@),
        progress_view(STEP_STARTING_NEW, RUNNING, MSG_STARTING@),
        ssh_view(
            STEP_STARTING_NEW,
            CTX_START,
            standalone_start_text(plan.remote_port, plan.server_url@, plan.deployment_id@),
            false,
        ),
        progress_view(STEP_STARTING_NEW, DONE, MSG_STARTED@),
        progress_view(STEP_LOCAL_HEALTH, RUNNING, MSG_LOCAL_CHECKING@),
    ]
}

/// The preflight command of the plan's kind.
pub open spec fn preflight_text(plan: DeployPlan) -> Seq<char> {
    match plan.remote_dir {
        Some(d) => docker_preflight_text(d@.1, plan.update_existing, plan.reset_existing),
        None => standalone_preflight_text(plan.update_existing, plan.reset_existing),
    }
}

/// Everything a deployment does on the host, up to the start of the local
/// health probe: preflight, upload, then the kind's install and start.
pub open spec fn deploy_actions_spec(plan: DeployPlan) -> Seq<ActionView> {
    seq![
        progress_view(STEP_CHECKING_HOST, RUNNING, MSG_CHECKING_HOST@),
        ssh_view(STEP_CHECKING_HOST, CTX_HOST_CHECK, preflight_text(plan), false),
        progress_view(STEP_CHECKING_HOST, DONE, MSG_HOST_OK@),
        progress_view(STEP_UPLOADING, RUNNING, MSG_UPLOADING@ + plan.ssh_host@),
        ActionView::Upload(STEP_UPLOADING@, CTX_UPLOAD@, plan.local_tarball@, REMOTE_TARBALL@),
        progress_view(STEP_UPLOADING, DONE, MSG_UPLOADED@),
    ] + match plan.remote_dir {
        Some(d) => docker_actions(plan, d@.1),
        None => standalone_actions(plan),
    }
}

fn text(s: &str) -> (r: String)
    ensures
        r@ == s@,
{
    string_of_str(s)
}

fn progress(step: &str, status: &str, message: String) -> (a: DeployAction)
    ensures
        a@ == ActionView::Progress(step@, status@, message@),
{
    DeployAction::Progress(CloudDeployProgress { step: text(step), status: text(status), message })
}

fn ssh(step: &str, context: &str, command: String, explain: bool) -> (a: DeployAction)
    ensures
        a@ == ActionView::Ssh(step@, context@, command@, explain),
{
    DeployAction::Ssh {
        step: text(step),
        context: text(context),
        command,
        explain_docker_failure: explain,
    }
}

fn push_action(actions: &mut Vec<DeployAction>, a: DeployAction)
    ensures
        action_views(final(actions)@) == action_views(old(actions)@).push(a@),
{
    let ghost before = actions@;
    actions.push(a);
    assert(action_views(actions@) =~= action_views(before).push(a@));
}

fn docker_part(plan: &DeployPlan, dir: &RemoteDeployDir, actions: &mut Vec<DeployAction>)
    ensures
        action_views(final(actions)@) == action_views(old(actions)@) + docker_actions(
            *plan,
            dir@.1,
        ),
{
    let ghost start = action_views(actions@);
    push_action(actions, progress(STEP_STOPPING_OLD, RUNNING, text(MSG_DOCKER_PREPARING)));
    push_action(actions, progress(STEP_STOPPING_OLD, DONE, text(MSG_DOCKER_READY)));
    push_action(actions, progress(STEP_EXTRACTING, RUNNING, text(MSG_DOCKER_REPLACING)));
    match docker_install_command(
        dir,
        REMOTE_TARBALL,
        plan.server_url.as_str(),
        plan.update_existing,
        plan.reset_existing,
    ) {
        Err(e) => {
            push_action(actions, DeployAction::Abort(e));
            assert(action_views(actions@) =~= start + docker_actions(*plan, dir@.1));
        },
        Ok(install) => {
            push_action(actions, ssh(STEP_EXTRACTING, CTX_DOCKER_UPDATE, install, false));
            push_action(actions, progress(STEP_EXTRACTING, DONE, text(MSG_DOCKER_INSTALLED)));
            push_action(actions, progress(STEP_STARTING_NEW, RUNNING, text(MSG_DOCKER_REBUILDING)));
            push_action(actions, ssh(STEP_STARTING_NEW, CTX_DOCKER_START, docker_start_command(dir), true));
            push_action(actions, progress(STEP_STARTING_NEW, DONE, text(MSG_DOCKER_REBUILT)));
            push_action(actions, progress(STEP_LOCAL_HEALTH, RUNNING, text(MSG_LOCAL_CHECKING)));
            assert(action_views(actions@) =~= start + docker_actions(*plan, dir@.1));
        },
    }
}

fn standalone_part(plan: &DeployPlan, actions: &mut Vec<DeployAction>)
    ensures
        action_views(final(actions)@) == action_views(old(actions)@) + standalone_actions(*plan),
{
    let ghost start = action_views(actions@);
    push_action(actions, progress(STEP_STOPPING_OLD, RUNNING, text(MSG_STOPPING)));
    push_action(actions, ssh(STEP_STOPPING_OLD, CTX_STOP, text(STOP_STANDALONE), false));
    push_action(actions, progress(STEP_STOPPING_OLD, DONE, text(MSG_STOPPED)));
    if plan.reset_existing && !plan.update_existing {
        push_action(actions, ssh(STEP_STOPPING_OLD, CTX_CLEAN, standalone_clean_command(), false));
    }
    push_action(actions, progress(STEP_EXTRACTING, RUNNING, text(MSG_INSTALLING)));
    push_action(actions, ssh(STEP_EXTRACTING, CTX_EXTRACT, standalone_extract_command(), false));
    push_action(actions, progress(STEP_EXTRACTING, DONE, text(MSG_INSTALLED)));
    push_action(actions, progress(STEP_STARTING_NEW, RUNNING, text(MSG_STARTING)));
    push_action(
        actions,
        ssh(
            STEP_STARTING_NEW,
            CTX_START,
            standalone_start_command(
                plan.remote_port,
                plan.server_url.as_str(),
                plan.deployment_id.as_str(),
            ),
            false,
        ),
    );
    push_action(actions, progress(STEP_STARTING_NEW, DONE, text(MSG_STARTED)));
    push_action(actions, progress(STEP_LOCAL_HEALTH, RUNNING, text(MSG_LOCAL_CHECKING)));
    assert(action_views(actions@) =~= start + standalone_actions(*plan));
}

/// The actions of a deployment up to the local health probe, in the order
/// the caller performs them. The caller stops at the first failing ssh or
/// upload and at an `Abort`.
pub fn deploy_actions(plan: &DeployPlan) -> (actions: Vec<DeployAction>)
    ensures
        action_views(actions@) == deploy_actions_spec(*plan),
{
    let mut actions: Vec<DeployAction> = Vec::new();
    assert(action_views(actions@) =~= Seq::<ActionView>::empty());
    push_action(&mut actions, progress(STEP_CHECKING_HOST, RUNNING, text(MSG_CHECKING_HOST)));
    let preflight = match &plan.remote_dir {
        Some(d) => docker_preflight_command(d, plan.update_existing, plan.reset_existing),
        None => standalone_preflight_command(plan.update_existing, plan.reset_existing),
    };
    push_action(&mut actions, ssh(STEP_CHECKING_HOST, CTX_HOST_CHECK, preflight, false));
    push_action(&mut actions, progress(STEP_CHECKING_HOST, DONE, text(MSG_HOST_OK)));
    let mut uploading = text(MSG_UPLOADING);
    push_str(&mut uploading, plan.ssh_host.as_str());
    push_action(&mut actions, progress(STEP_UPLOADING, RUNNING, uploading));
    push_action(
        &mut actions,
        DeployAction::Upload {
            step: text(STEP_UPLOADING),
            context: text(CTX_UPLOAD),
            local_path: plan.local_tarball.clone(),
            remote_path: text(REMOTE_TARBALL),
        },
    );
    push_action(&mut actions, progress(STEP_UPLOADING, DONE, text(MSG_UPLOADED)));
    match &plan.remote_dir {
        Some(d) => docker_part(plan, d, &mut actions),
        None => standalone_part(plan, &mut actions),
    }
    assert(action_views(actions@) =~= deploy_actions_spec(*plan));
    actions
}

// ---------------------------------------------------------------- failures

/// The message of a failed step: its context, then the error.
pub open spec fn failure_text(context: Seq<char>, error: Seq<char>) -> Seq<char> {
    context + ": "@ + error
}

/// The message of a failed step.
pub fn failure_message(context: &str, error: &str) -> (message: String)
    ensures
        message@ == failure_text(context@, error@),
{
    let mut message = text(context);
    push_str(&mut message, ": ");
    push_str(&mut message, error);
    message
}

/// The progress event that reports a failed step.
pub fn failure_progress(step: &str, message: String) -> (p: CloudDeployProgress)
    ensures
        p.step@ == step@,
        p.status@ == FAILED@,
        p.message@ == message@,
{
    CloudDeployProgress { step: text(step), status: text(FAILED), message }
}

// ---------------------------------------------------------------- probes

/// A health probe that is retried a bounded number of times. The latest
/// error is kept; an empty error counts as success, as an error-free round
/// does.
pub struct Probe {
    pub attempt: u32,
    pub max_attempts: u32,
    pub last_error: String,
}

/// What the caller does after a probe round.
pub enum ProbeNext {
    /// The probe passed: go on with the deployment.
    Healthy,
    /// Wait, then probe again.
    PauseThenRetry,
    /// The last round failed with this error: the deployment fails.
    Failed(String),
}

/// The first round of a probe allowed `max_attempts` rounds.
pub fn probe_start(max_attempts: u32) -> (p: Probe)
    requires
        max_attempts >= 1,
    ensures
        p.attempt == 1,
        p.max_attempts == max_attempts,
        p.last_error@ == Seq::<char>::empty(),
{
    Probe { attempt: 1, max_attempts, last_error: String::new() }
}

/// A probe is between `1` and its bound.
pub open spec fn probe_wf(p: Probe) -> bool {
    1 <= p.attempt <= p.max_attempts
}

/// Records the outcome of the current round: success ends the probe; a
/// failure before the last round asks for a pause and the next round; a
/// failure in the last round ends the probe with that error (unless the
/// error is empty).
pub fn probe_record(p: &mut Probe, outcome: Result<(), String>) -> (next: ProbeNext)
    requires
        probe_wf(*old(p)),
    ensures
        final(p).max_attempts == old(p).max_attempts,
        match outcome {
            Ok(_) => {
                &&& next is Healthy
                &&& final(p).last_error@ == Seq::<char>::empty()
                &&& final(p).attempt == old(p).attempt
            },
            Err(e) => {
                &&& final(p).last_error@ == e@
                &&& if old(p).attempt < old(p).max_attempts {
                    next is PauseThenRetry && final(p).attempt == old(p).attempt + 1
                } else {
                    final(p).attempt == old(p).attempt && if e@.len() == 0 {
                        next is Healthy
                    } else {
                        next matches ProbeNext::Failed(m) && m@ == e@
                    }
                }
            },
        },
        next is PauseThenRetry ==> probe_wf(*final(p)),
{
    match outcome {
        Ok(()) => {
            p.last_error = String::new();
            ProbeNext::Healthy
        },
        Err(e) => {
            p.last_error = e;
            if p.attempt < p.max_attempts {
                p.attempt = p.attempt + 1;
                ProbeNext::PauseThenRetry
            } else if chars_of(p.last_error.as_str()).len() == 0 {
                ProbeNext::Healthy
            } else {
                ProbeNext::Failed(p.last_error.clone())
            }
        },
    }
}

/// The command that probes the service on the host.
pub open spec fn local_health_text(plan: DeployPlan) -> Seq<char> {
    match plan.remote_dir {
        Some(d) => docker_health_text(d@.1),
        None => standalone_health_text(plan.remote_port, plan.deployment_id@),
    }
}

/// The command that probes the service on the host: the container state for
/// Docker, the health endpoint carrying this deployment's id otherwise.
pub fn local_health_command(plan: &DeployPlan) -> (cmd: String)
    ensures
        cmd@ == local_health_text(*plan),
{
    match &plan.remote_dir {
        Some(d) => docker_health_command(d),
        None => standalone_health_command(plan.remote_port, plan.deployment_id.as_str()),
    }
}

/// The public health URL of the plan.
pub fn public_health_url(plan: &DeployPlan) -> (url: String)
    ensures
        url@ == plan.server_url@ + PUBLIC_HEALTH_PATH@,
{
    let mut url = plan.server_url.clone();
    push_str(&mut url, PUBLIC_HEALTH_PATH);
    url
}

// ---------------------------------------------------------------- public answer

/// What one request to the public health route brought back.
pub enum HealthResponse {
    /// The request failed; the error's text.
    Unreachable { error: String },
    /// A status outside 2xx: its code, its text (such as `502 Bad Gateway`)
    /// and the `x-proxy-by` header when it is visible ASCII.
    Refused { status: u16, status_text: String, proxied_by: Option<String> },
    /// A 2xx status whose body could not be read; the error's text.
    Unreadable { error: String },
    /// A 2xx status with its body and its `content-type` header when that is
    /// visible ASCII.
    Answered { content_type: Option<String>, body: Vec<u8> },
}

pub const AIO_FORWARD: &'static str = "AIO-Forward";
pub const AIO_DOCKER_HINT: &'static str = "HTTP 502 from DevCloud/AIO: the gateway could not connect to this host. Kode installed Caddy on HTTP port 80; configure the AIO upstream to use HTTP port 80 and allow that port";
pub const AIO_PORT_HINT: &'static str = "HTTP 502 from DevCloud/AIO: the gateway could not connect to this host. Configure its HTTP upstream to port ";
pub const AIO_PORT_HINT_TAIL: &'static str = " or use Docker + Caddy deployment";
pub const HTTP_PREFIX: &'static str = "HTTP ";
pub const UNREADABLE_PREFIX: &'static str = "could not read health response: ";
pub const OTHER_DEPLOYMENT: &'static str = "the public URL reached a different sync-server deployment";
pub const INVALID_JSON: &'static str = " returned invalid JSON (";
pub const INVALID_JSON_ERROR: &'static str = "): ";
pub const INVALID_JSON_BODY: &'static str = "; body=";
pub const UNKNOWN_CONTENT_TYPE: &'static str = "unknown content type";
pub const STATUS_KEY: &'static str = "status";
pub const STATUS_OK: &'static str = "ok";
pub const DEPLOYMENT_ID_KEY: &'static str = "deployment_id";

/// How many characters of an unparsable body an error shows.
pub const BODY_PREVIEW_CHARS: usize = 120;

/// A healthy answer names this deployment: Docker answers with status `ok`,
/// a standalone server with its deployment id.
pub open spec fn answer_is_ours(kind: DeploymentKind, deployment_id: Seq<char>, body: Seq<u8>) -> bool {
    match kind {
        DeploymentKind::Docker => json_string_member(body, STATUS_KEY@) == Some(STATUS_OK@),
        DeploymentKind::Standalone => json_string_member(body, DEPLOYMENT_ID_KEY@) == Some(
            deployment_id,
        ),
    }
}

/// The first `n` characters of `s` (all of it when shorter).
pub open spec fn prefix_chars(s: Seq<char>, n: nat) -> Seq<char> {
    if s.len() <= n {
        s
    } else {
        s.take(n as int)
    }
}

/// Why one public health answer does not show this deployment as healthy,
/// or `None` when it does.
pub open spec fn public_health_problem(
    kind: DeploymentKind,
    deployment_id: Seq<char>,
    remote_port: u16,
    response: HealthResponse,
) -> Option<Seq<char>> {
    match response {
        HealthResponse::Unreachable { error } => Some(error@),
        HealthResponse::Refused { status, status_text, proxied_by } => Some(
            if status == 502 && (proxied_by matches Some(v) && eq_ignore_ascii_case(
                v@,
                AIO_FORWARD@,
            )) {
                match kind {
                    DeploymentKind::Docker => AIO_DOCKER_HINT@,
                    DeploymentKind::Standalone => AIO_PORT_HINT@ + decimal(remote_port as nat)
                        + AIO_PORT_HINT_TAIL@,
                }
            } else {
                HTTP_PREFIX@ + status_text@
            },
        ),
        HealthResponse::Unreadable { error } => Some(UNREADABLE_PREFIX@ + error@),
        HealthResponse::Answered { content_type, body } => match json_parse_failure(body@) {
            None => if answer_is_ours(kind, deployment_id, body@) {
                None
            } else {
                Some(OTHER_DEPLOYMENT@)
            },
            Some(error) => Some(
                PUBLIC_HEALTH_PATH@ + INVALID_JSON@ + match content_type {
                    Some(c) => c@,
                    None => UNKNOWN_CONTENT_TYPE@,
                } + INVALID_JSON_ERROR@ + error + INVALID_JSON_BODY@ + debug_text(
                    prefix_chars(utf8_lossy(body@), BODY_PREVIEW_CHARS as nat),
                ),
            ),
        },
    }
}

fn take_chars(s: &[char], n: usize) -> (out: Vec<char>)
    ensures
        out@ == prefix_chars(s@, n as nat),
{
    let mut out: Vec<char> = Vec::new();
    let mut i: usize = 0;
    while i < s.len() && i < n
        invariant
            i <= s@.len(),
            i <= n,
            out@ == s@.take(i as int),
        decreases s.len() - i,
    {
        out.push(s[i]);
        i = i + 1;
    }
    assert(s@.take(s@.len() as int) == s@);
    out
}

/// Judges one answer of the public health route.
pub fn public_health_error(
    kind: DeploymentKind,
    deployment_id: &str,
    remote_port: u16,
    response: &HealthResponse,
) -> (problem: Option<String>)
    ensures
        match problem {
            None => public_health_problem(kind, deployment_id@, remote_port, *response) is None,
            Some(m) => public_health_problem(kind, deployment_id@, remote_port, *response) == Some(
                m@,
            ),
        },
{
    match response {
        HealthResponse::Unreachable { error } => Some(error.clone()),
        HealthResponse::Refused { status, status_text, proxied_by } => {
            let aio = match proxied_by {
                Some(v) => chars_eq_ignore_ascii_case(
                    chars_of(v.as_str()).as_slice(),
                    chars_of(AIO_FORWARD).as_slice(),
                ),
                None => false,
            };
            if *status == 502 && aio {
                match kind {
                    DeploymentKind::Docker => Some(text(AIO_DOCKER_HINT)),
                    DeploymentKind::Standalone => {
                        let mut m = text(AIO_PORT_HINT);
                        push_decimal(&mut m, remote_port as u64);
                        push_str(&mut m, AIO_PORT_HINT_TAIL);
                        Some(m)
                    },
                }
            } else {
                let mut m = text(HTTP_PREFIX);
                push_str(&mut m, status_text.as_str());
                Some(m)
            }
        },
        HealthResponse::Unreadable { error } => {
            let mut m = text(UNREADABLE_PREFIX);
            push_str(&mut m, error.as_str());
            Some(m)
        },
        HealthResponse::Answered { content_type, body } => match parse_json(body.as_slice()) {
            Ok(doc) => {
                let ours = match kind {
                    DeploymentKind::Docker => match string_member(&doc, STATUS_KEY) {
                        Some(v) => chars_equal(
                            chars_of(v.as_str()).as_slice(),
                            chars_of(STATUS_OK).as_slice(),
                        ),
                        None => false,
                    },
                    DeploymentKind::Standalone => match string_member(&doc, DEPLOYMENT_ID_KEY) {
                        Some(v) => chars_equal(
                            chars_of(v.as_str()).as_slice(),
                            chars_of(deployment_id).as_slice(),
                        ),
                        None => false,
                    },
                };
                if ours {
                    None
                } else {
                    Some(text(OTHER_DEPLOYMENT))
                }
            },
            Err(error) => {
                let preview = take_chars(
                    chars_of(lossy_text(body.as_slice()).as_str()).as_slice(),
                    BODY_PREVIEW_CHARS,
                );
                let mut m = text(PUBLIC_HEALTH_PATH);
                push_str(&mut m, INVALID_JSON);
                match content_type {
                    Some(c) => push_str(&mut m, c.as_str()),
                    None => push_str(&mut m, UNKNOWN_CONTENT_TYPE),
                }
                push_str(&mut m, INVALID_JSON_ERROR);
                push_str(&mut m, error.as_str());
                push_str(&mut m, INVALID_JSON_BODY);
                push_str(&mut m, debug_quote(string_of(preview.as_slice()).as_str()).as_str());
                Some(m)
            },
        },
    }
}

// ---------------------------------------------------------------- saving

/// What the deployment saves as the managed backend.
pub struct BackendRecord {
    pub name: String,
    pub server_url: String,
    pub ssh_host: String,
    pub ssh_port: u16,
    pub remote_port: u16,
    pub deployment_kind: String,
    pub remote_deploy_dir: Option<String>,
}

pub open spec fn kind_text(kind: DeploymentKind) -> Seq<char> {
    match kind {
        DeploymentKind::Docker => KIND_DOCKER@,
        DeploymentKind::Standalone => KIND_STANDALONE@,
    }
}

/// The backend record of a completed deployment: the plan's names and ports,
/// its kind and, for Docker, the directory as the user gave it.
pub fn backend_record(plan: &DeployPlan) -> (record: BackendRecord)
    ensures
        record.name@ == plan.name@,
        record.server_url@ == plan.server_url@,
        record.ssh_host@ == plan.ssh_host@,
        record.ssh_port == plan.ssh_port,
        record.remote_port == plan.remote_port,
        record.deployment_kind@ == kind_text(plan.kind),
        match plan.remote_dir {
            Some(d) => record.remote_deploy_dir matches Some(o) && o@ == d@.0,
            None => record.remote_deploy_dir is None,
        },
{
    let deployment_kind = match plan.kind {
        DeploymentKind::Docker => text(KIND_DOCKER),
        DeploymentKind::Standalone => text(KIND_STANDALONE),
    };
    let remote_deploy_dir = match &plan.remote_dir {
        Some(d) => Some(text(d.original())),
        None => None,
    };
    BackendRecord {
        name: plan.name.clone(),
        server_url: plan.server_url.clone(),
        ssh_host: plan.ssh_host.clone(),
        ssh_port: plan.ssh_port,
        remote_port: plan.remote_port,
        deployment_kind,
        remote_deploy_dir,
    }
}

// ---------------------------------------------------------------- laws

/// An upgrade together with a clean install is never accepted.
pub proof fn law_upgrade_and_clean_refused(
    req: CloudDeployReq,
    server_url: Result<Seq<char>, Seq<char>>,
    local_tarball: Result<Seq<char>, Seq<char>>,
)
    requires
        req.update_existing && req.reset_existing,
    ensures
        plan_failure(req, server_url, local_tarball) is Some,
{
}

/// An accepted request has a usable SSH host, non-zero ports, an HTTPS
/// public URL, a known kind and, for Docker, a valid directory.
pub proof fn law_accepted_requests_are_sound(
    req: CloudDeployReq,
    server_url: Result<Seq<char>, Seq<char>>,
    local_tarball: Result<Seq<char>, Seq<char>>,
)
    requires
        plan_failure(req, server_url, local_tarball) is None,
    ensures
        host_is_usable(trim(req.ssh_host@)),
        req.ssh_port != 0 && req.remote_port != 0,
        server_url matches Ok(u) && starts_with(u, HTTPS_SCHEME@),
        local_tarball is Ok,
        requested_kind(req.deployment_kind@) is Some,
        !(req.update_existing && req.reset_existing),
        requested_kind(req.deployment_kind@) == Some(DeploymentKind::Docker) ==> validated_dir(
            requested_dir(req.remote_deploy_dir),
        ) is Ok,
{
}

/// A standalone deployment removes the old installation only for a clean
/// install, and every deployment ends by starting the local health probe.
pub proof fn law_standalone_removes_only_on_clean_install(plan: DeployPlan)
    requires
        plan.remote_dir is None,
    ensures
        deploy_actions_spec(plan).contains(
            ssh_view(STEP_STOPPING_OLD, CTX_CLEAN, standalone_clean_text(), false),
        ) ==> plan.reset_existing && !plan.update_existing,
        deploy_actions_spec(plan).last() == progress_view(STEP_LOCAL_HEALTH, RUNNING, MSG_LOCAL_CHECKING@),
{
    reveal_strlit("clean install failed");
    reveal_strlit("extract failed");
    reveal_strlit("start failed");
    reveal_strlit("stop failed");
    reveal_strlit("remote host check failed");
    let s = deploy_actions_spec(plan);
    if s.contains(ssh_view(STEP_STOPPING_OLD, CTX_CLEAN, standalone_clean_text(), false)) {
        let i = choose|i: int| 0 <= i < s.len() && s[i] == ssh_view(
            STEP_STOPPING_OLD,
            CTX_CLEAN,
            standalone_clean_text(),
            false,
        );
        if !(plan.reset_existing && !plan.update_existing) {
            assert(s.len() == 16);
            assert(CTX_CLEAN@[0] == 'c');
            assert(CTX_HOST_CHECK@[0] == 'r');
            assert(CTX_STOP@[0] == 's');
            assert(CTX_EXTRACT@[0] == 'e');
            assert(CTX_START@[0] == 's');
            assert(s[1] != s[i]);
            assert(s[7] != s[i]);
            assert(s[10] != s[i]);
            assert(s[13] != s[i]);
        }
    }
}

// ---------------------------------------------------------------- phases

/// The phases of a deployment, in order.
#[derive(PartialEq, Eq, Structural, Clone, Copy, Debug)]
pub enum DeployPhase {
    /// The ssh/scp actions of `deploy_actions`.
    RemoteSteps,
    /// Probing the service on the host.
    LocalProbe,
    /// Probing the public route.
    PublicProbe,
    /// Saving the managed backend.
    SaveBackend,
    /// The deployment is complete.
    Finished,
    /// A phase failed; nothing further runs.
    Failed,
}

/// The phase after `phase` ended, successfully or not: each phase starts
/// only when the one before it succeeded, and a failure ends the deployment.
pub open spec fn phase_after(phase: DeployPhase, succeeded: bool) -> DeployPhase {
    match phase {
        DeployPhase::Finished => DeployPhase::Finished,
        DeployPhase::Failed => DeployPhase::Failed,
        _ => if !succeeded {
            DeployPhase::Failed
        } else {
            match phase {
                DeployPhase::RemoteSteps => DeployPhase::LocalProbe,
                DeployPhase::LocalProbe => DeployPhase::PublicProbe,
                DeployPhase::PublicProbe => DeployPhase::SaveBackend,
                _ => DeployPhase::Finished,
            }
        },
    }
}

/// The phase that follows when `phase` ended.
pub fn next_phase(phase: DeployPhase, succeeded: bool) -> (next: DeployPhase)
    ensures
        next == phase_after(phase, succeeded),
{
    match phase {
        DeployPhase::Finished => DeployPhase::Finished,
        DeployPhase::Failed => DeployPhase::Failed,
        _ => if !succeeded {
            DeployPhase::Failed
        } else {
            match phase {
                DeployPhase::RemoteSteps => DeployPhase::LocalProbe,
                DeployPhase::LocalProbe => DeployPhase::PublicProbe,
                DeployPhase::PublicProbe => DeployPhase::SaveBackend,
                _ => DeployPhase::Finished,
            }
        },
    }
}

/// The phase reached from `RemoteSteps` after phases with these outcomes.
pub open spec fn phase_after_all(outcomes: Seq<bool>) -> DeployPhase
    decreases outcomes.len(),
{
    if outcomes.len() == 0 {
        DeployPhase::RemoteSteps
    } else {
        phase_after(phase_after_all(outcomes.drop_last()), outcomes.last())
    }
}

/// The backend is saved only after the remote steps and both probes
/// succeeded: whatever the outcomes, reaching `SaveBackend` means the first
/// three phases all succeeded, and any failure before it rules it out.
pub proof fn law_saved_only_after_healthy(outcomes: Seq<bool>)
    ensures
        phase_after_all(outcomes) == DeployPhase::SaveBackend <==> (outcomes.len() == 3
            && outcomes[0] && outcomes[1] && outcomes[2]),
        phase_after_all(outcomes) == DeployPhase::Finished ==> outcomes.len() >= 4 && outcomes[0]
            && outcomes[1] && outcomes[2] && outcomes[3],
    decreases outcomes.len(),
{
    if outcomes.len() > 0 {
        let t = outcomes.drop_last();
        law_saved_only_after_healthy(t);
        lemma_failed_stays(t);
        if outcomes.len() >= 4 {
            assert(t[0] == outcomes[0] && t[1] == outcomes[1] && t[2] == outcomes[2]);
        }
        if outcomes.len() == 4 {
            assert(t.len() == 3);
        }
        if outcomes.len() == 3 {
            assert(t[0] == outcomes[0] && t[1] == outcomes[1]);
            lemma_prefix_phases(t);
        }
    }
}

proof fn lemma_failed_stays(outcomes: Seq<bool>)
    ensures
        phase_after_all(outcomes) == DeployPhase::RemoteSteps ==> outcomes.len() == 0,
        phase_after_all(outcomes) == DeployPhase::LocalProbe ==> outcomes.len() == 1
            && outcomes[0],
        phase_after_all(outcomes) == DeployPhase::PublicProbe ==> outcomes.len() == 2
            && outcomes[0] && outcomes[1],
    decreases outcomes.len(),
{
    if outcomes.len() > 0 {
        let t = outcomes.drop_last();
        lemma_failed_stays(t);
        if outcomes.len() == 2 {
            assert(t[0] == outcomes[0]);
        }
    }
}

proof fn lemma_prefix_phases(t: Seq<bool>)
    requires
        t.len() == 2,
    ensures
        phase_after_all(t) == DeployPhase::PublicProbe <==> t[0] && t[1],
{
    let u = t.drop_last();
    assert(u.drop_last().len() == 0);
    assert(phase_after_all(u.drop_last()) == DeployPhase::RemoteSteps);
    assert(u.last() == t[0]);
    assert(phase_after_all(u) == phase_after(DeployPhase::RemoteSteps, t[0]));
    assert(phase_after_all(t) == phase_after(phase_after_all(u), t[1]));
}

/// A standalone deployment starts the server bound to the plan's service
/// port, and probes it on the host at that same port: the start command
/// begins `nohup env KODE_SYNC_BIND=0.0.0.0:<port> ` and the health command
/// `curl -fsS --max-time 3 http://127.0.0.1:<port>/healthz`, for every port.
pub proof fn law_standalone_binds_plan_port(plan: DeployPlan)
    requires
        plan.remote_dir is None,
    ensures
        exists|i: int|
            0 <= i < deploy_actions_spec(plan).len() && (#[trigger] deploy_actions_spec(plan)[i]
                matches ActionView::Ssh(step, _, command, _) && step == "StartingNew"@ && starts_with(
                command,
                "nohup env KODE_SYNC_BIND=0.0.0.0:"@ + decimal(plan.remote_port as nat) + " "@,
            )),
        starts_with(
            local_health_text(plan),
            "curl -fsS --max-time 3 http://127.0.0.1:"@ + decimal(plan.remote_port as nat)
                + "/healthz"@,
        ),
{
    let s = deploy_actions_spec(plan);
    let start = standalone_start_text(plan.remote_port, plan.server_url@, plan.deployment_id@);
    let i = if plan.reset_existing && !plan.update_existing {
        14int
    } else {
        13int
    };
    assert(s[i] == ssh_view(STEP_STARTING_NEW, CTX_START, start, false));
    reveal_strlit(" KODE_SYNC_DATABASE=$HOME/");
    reveal_strlit(" ");
    let p = "nohup env KODE_SYNC_BIND=0.0.0.0:"@ + decimal(plan.remote_port as nat) + " "@;
    assert(start.take(p.len() as int) =~= p);
    let h = "curl -fsS --max-time 3 http://127.0.0.1:"@ + decimal(plan.remote_port as nat) + "/healthz"@;
    let q = standalone_health_text(plan.remote_port, plan.deployment_id@);
    reveal_strlit("/healthz | grep -F ");
    reveal_strlit("/healthz");
    assert(q.take(h.len() as int) =~= h);
}

/// A public health answer shows this deployment healthy exactly when its
/// body is JSON naming it: a standalone server's `deployment_id` member is
/// this deployment's id, a Docker stack's `status` member is `ok`. Failed
/// requests, refusals and unreadable bodies never show it healthy.
pub proof fn law_answer_must_name_this_deployment(
    kind: DeploymentKind,
    deployment_id: Seq<char>,
    remote_port: u16,
    content_type: Option<String>,
    body: Vec<u8>,
    error: String,
    status: u16,
    status_text: String,
    proxied_by: Option<String>,
)
    ensures
        public_health_problem(
            kind,
            deployment_id,
            remote_port,
            (HealthResponse::Answered { content_type, body }),
        ) is None <==> {
            &&& json_parse_failure(body@) is None
            &&& match kind {
                DeploymentKind::Standalone => json_string_member(body@, "deployment_id"@) == Some(
                    deployment_id,
                ),
                DeploymentKind::Docker => json_string_member(body@, "status"@) == Some("ok"@),
            }
        },
        public_health_problem(
            kind,
            deployment_id,
            remote_port,
            (HealthResponse::Unreachable { error }),
        ) is Some,
        public_health_problem(
            kind,
            deployment_id,
            remote_port,
            (HealthResponse::Refused { status, status_text, proxied_by }),
        ) is Some,
        public_health_problem(
            kind,
            deployment_id,
            remote_port,
            (HealthResponse::Unreadable { error }),
        ) is Some,
{
}


} // verus!
