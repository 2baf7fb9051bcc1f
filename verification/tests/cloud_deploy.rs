use kode::deploy::{next_phase, DeployPhase};
use kode::deploy::{
    backend_record, default_deployment_kind, default_remote_port, default_ssh_port, deploy_actions,
    failure_message, local_health_command, plan_deployment, probe_record, probe_start,
    public_health_error, public_health_url, CloudDeployReq, DeployAction, DeployPlan,
    DeploymentKind, HealthResponse, ProbeNext, DEFAULT_REMOTE_DOCKER_DIR, LOCAL_HEALTH_RETRIES,
    PUBLIC_HEALTH_PATH,
};
use kode::docker::{docker_install_command, docker_preflight_command};
use kode::remote_dir::validate_remote_deploy_dir;
use kode::shell::{compose_shell_function, explain_docker_start_error, shell_quote};
use kode::standalone::REMOTE_TARBALL;

#[test]
fn quotes_remote_environment_values() {
    assert_eq!(
        shell_quote("https://sync.example.com"),
        "'https://sync.example.com'"
    );
    assert_eq!(shell_quote("a'b"), "'a'\"'\"'b'");
}

#[test]
fn public_health_uses_namespaced_route() {
    assert_eq!(PUBLIC_HEALTH_PATH, "/api/v1/healthz");
}

#[test]
fn validates_remote_docker_directory() {
    let home = validate_remote_deploy_dir("~/kode-sync-server-0.2.2-dev-linux-amd64").unwrap();
    assert_eq!(
        home.shell_expr(),
        "\"$HOME/kode-sync-server-0.2.2-dev-linux-amd64\""
    );
    assert!(validate_remote_deploy_dir("relative/path").is_err());
    assert!(validate_remote_deploy_dir("~/../escape").is_err());
    assert!(validate_remote_deploy_dir("~/bad;command").is_err());
}

#[test]
fn docker_bootstrap_uses_http_caddy_for_devcloud() {
    let dir = validate_remote_deploy_dir(DEFAULT_REMOTE_DOCKER_DIR).unwrap();
    let command = docker_install_command(
        &dir,
        REMOTE_TARBALL,
        "https://developer-any5.devcloud.woa.com",
        false,
        false,
    )
    .unwrap();
    assert!(command.contains("http://developer-any5.devcloud.woa.com"));
    assert!(command.contains("reverse_proxy sync-server:8787"));
    assert!(command.contains("80:80"));
    assert!(command.contains(".kode-managed-deployment"));
    assert!(command.contains("./data/sync:/data"));
    assert!(command.contains("./data/caddy-data:/data"));
    assert!(!command.contains("kode-sync-data:/data"));
}

#[test]
fn docker_bootstrap_uses_caddy_https_for_public_vps() {
    let dir = validate_remote_deploy_dir("/srv/kode-sync").unwrap();
    let command = docker_install_command(
        &dir,
        REMOTE_TARBALL,
        "https://sync.example.com",
        false,
        false,
    )
    .unwrap();
    assert!(command.contains("sync.example.com {"));
    assert!(!command.contains("http://sync.example.com"));
}

#[test]
fn clean_docker_install_removes_old_stack_and_volumes() {
    let dir = validate_remote_deploy_dir(DEFAULT_REMOTE_DOCKER_DIR).unwrap();
    let command = docker_install_command(
        &dir,
        REMOTE_TARBALL,
        "https://sync.example.com",
        false,
        true,
    )
    .unwrap();
    assert!(command
        .contains("compose --env-file .env -f docker-compose.yml down -v --remove-orphans"));
    assert!(command.contains("rm -rf \"$deploy_dir\""));
}

#[test]
fn upgrade_requires_a_complete_docker_package() {
    let dir = validate_remote_deploy_dir(DEFAULT_REMOTE_DOCKER_DIR).unwrap();
    let command = docker_preflight_command(&dir, true, false);
    assert!(command.contains("the saved Docker deployment is incomplete"));
    assert!(command.contains("test -x \"$deploy_dir/deploy.sh\""));
}

#[test]
fn docker_commands_support_compose_v2_and_v1() {
    let function = compose_shell_function();
    assert!(function.contains("docker compose version"));
    assert!(function.contains("command -v docker-compose"));
    assert!(function.contains("docker-compose \"$@\""));
    let dir = validate_remote_deploy_dir(DEFAULT_REMOTE_DOCKER_DIR).unwrap();
    let preflight = docker_preflight_command(&dir, false, false);
    assert!(preflight.contains("compose version"));
    assert!(!preflight.contains("docker compose version >/dev/null;"));
    assert!(preflight.contains("Docker daemon is unavailable"));
}

#[test]
fn explains_managed_docker_mount_rejection() {
    let message = explain_docker_start_error(
        "authorization denied by plugin hbm: Volume example:/data:rw is not allowed".into(),
    );
    assert!(message.contains("managed Docker policy"));
    assert!(message.contains("standalone service"));
}

// ---------------------------------------------------------------- more cases

#[test]
fn other_docker_errors_pass_through() {
    let message = explain_docker_start_error("no space left on device".into());
    assert_eq!(message, "no space left on device");
    let explained = explain_docker_start_error("x authorization denied by plugin hbm".into());
    assert!(explained.ends_with("Details: x authorization denied by plugin hbm"));
}

#[test]
fn quoted_words_read_back_in_a_shell_like_reader() {
    // Quote removal as `sh` does it for words made of quoted parts.
    fn read_back(word: &str) -> String {
        let mut out = String::new();
        let mut mode = ' ';
        for c in word.chars() {
            match (mode, c) {
                (' ', '\'') => mode = '\'',
                (' ', '"') => mode = '"',
                ('\'', '\'') | ('"', '"') => mode = ' ',
                (' ', _) => panic!("unquoted character"),
                (_, c) => out.push(c),
            }
        }
        assert_eq!(mode, ' ');
        out
    }
    for value in ["", "plain", "a'b", "''", "x'\"$HOME\"'y", "\u{2192}'"] {
        assert_eq!(read_back(&shell_quote(value)), value);
    }
}

#[test]
fn quoting_a_plain_word_only_wraps_it() {
    assert_eq!(shell_quote(""), "''");
    assert_eq!(shell_quote("abc def"), "'abc def'");
    assert_eq!(shell_quote("''"), "''\"'\"''\"'\"''");
}

#[test]
fn remote_directory_rules() {
    let abs = validate_remote_deploy_dir("  /srv/kode-sync  ").unwrap();
    assert_eq!(abs.original(), "/srv/kode-sync");
    assert_eq!(abs.shell_expr(), "'/srv/kode-sync'");
    assert_eq!(
        validate_remote_deploy_dir("srv").err().unwrap(),
        "remote Docker directory must start with ~/ or /"
    );
    for bad in ["/", "~/", "//x", "/x/", "/x/./y", "/x/..", "/a b", "/x$y", "~/é"] {
        assert_eq!(
            validate_remote_deploy_dir(bad).err().unwrap(),
            "remote Docker directory contains unsupported path components",
            "{bad}"
        );
    }
    assert!(validate_remote_deploy_dir("/x/.hidden/a..b").is_ok());
}

#[test]
fn docker_install_needs_a_host() {
    let dir = validate_remote_deploy_dir("/srv/kode").unwrap();
    let err = docker_install_command(&dir, REMOTE_TARBALL, "not a url", false, false).unwrap_err();
    assert!(err.starts_with("invalid public sync URL: "));
    assert_eq!(
        err,
        format!("invalid public sync URL: {}", url::Url::parse("not a url").unwrap_err())
    );
    let err = docker_install_command(&dir, REMOTE_TARBALL, "mailto:a@b.c", false, false).unwrap_err();
    assert_eq!(err, "the public sync URL has no hostname");
}

#[test]
fn upgrade_never_removes_the_stack() {
    let dir = validate_remote_deploy_dir("/srv/kode").unwrap();
    for (update, reset) in [(true, false), (true, true), (false, false)] {
        let command =
            docker_install_command(&dir, REMOTE_TARBALL, "https://sync.example.com", update, reset)
                .unwrap();
        assert!(command.contains("if [ \"0\" = 1 ]"));
    }
    let command =
        docker_install_command(&dir, REMOTE_TARBALL, "https://sync.example.com", false, true).unwrap();
    assert!(command.contains("if [ \"1\" = 1 ]"));
}

#[test]
fn preflight_policies() {
    let dir = validate_remote_deploy_dir("/srv/kode").unwrap();
    assert!(docker_preflight_command(&dir, false, true).ends_with("deploy_dir='/srv/kode'; :"));
    assert!(docker_preflight_command(&dir, false, false).contains("the target directory is not empty"));
}

#[test]
fn defaults() {
    assert_eq!(default_deployment_kind(), "docker");
    assert_eq!(default_ssh_port(), 22);
    assert_eq!(default_remote_port(), 8787);
}

fn request(kind: &str) -> CloudDeployReq {
    CloudDeployReq {
        name: "".into(),
        ssh_host: " vps ".into(),
        ssh_port: 22,
        remote_port: 8787,
        server_url: "https://sync.example.com".into(),
        deployment_kind: kind.into(),
        remote_deploy_dir: None,
        update_existing: false,
        reset_existing: false,
    }
}

fn plan(req: &CloudDeployReq) -> Result<DeployPlan, String> {
    plan_deployment(
        req,
        Ok(req.server_url.clone()),
        Ok("bundle.tar.gz".into()),
        "id-1".into(),
    )
}

#[test]
fn plan_refusals_in_order() {
    let mut req = request("docker");
    req.ssh_host = "  ".into();
    assert_eq!(plan(&req).err().unwrap(), "enter an SSH host or ~/.ssh/config alias");
    req.ssh_host = "-oProxyCommand=x".into();
    assert_eq!(plan(&req).err().unwrap(), "enter an SSH host or ~/.ssh/config alias");
    let mut req = request("docker");
    req.remote_port = 0;
    assert_eq!(plan(&req).err().unwrap(), "SSH and service ports must be between 1 and 65535");
    let req = request("docker");
    let r = plan_deployment(&req, Err("bad url".into()), Ok("b".into()), "id".into());
    assert_eq!(r.err().unwrap(), "bad url");
    let r = plan_deployment(&req, Ok("http://x".into()), Ok("b".into()), "id".into());
    assert_eq!(r.err().unwrap(), "the public sync URL must use HTTPS");
    let r = plan_deployment(&req, Ok("https://x".into()), Err("no bundle".into()), "id".into());
    assert_eq!(r.err().unwrap(), "no bundle");
    assert_eq!(
        plan(&request("podman")).err().unwrap(),
        "deployment kind must be standalone or docker"
    );
    let mut req = request("docker");
    req.update_existing = true;
    req.reset_existing = true;
    assert_eq!(
        plan(&req).err().unwrap(),
        "upgrade and clean install cannot be requested together"
    );
    let mut req = request("docker");
    req.remote_deploy_dir = Some("relative".into());
    assert_eq!(
        plan(&req).err().unwrap(),
        "remote Docker directory must start with ~/ or /"
    );
}

#[test]
fn plan_names_and_defaults() {
    let p = plan(&request(" docker ")).unwrap();
    assert_eq!(p.kind, DeploymentKind::Docker);
    assert_eq!(p.ssh_host, "vps");
    assert_eq!(p.name, "sync.example.com");
    assert_eq!(p.remote_dir.as_ref().unwrap().original(), DEFAULT_REMOTE_DOCKER_DIR);
    let mut req = request("standalone");
    req.name = "  office ".into();
    req.remote_deploy_dir = Some("/ignored".into());
    let p = plan(&req).unwrap();
    assert_eq!(p.kind, DeploymentKind::Standalone);
    assert_eq!(p.name, "office");
    assert!(p.remote_dir.is_none());
    let record = backend_record(&p);
    assert_eq!(record.deployment_kind, "standalone");
    assert_eq!(record.remote_deploy_dir, None);
    let mut req = request("docker");
    req.remote_deploy_dir = Some("   ".into());
    let p = plan(&req).unwrap();
    assert_eq!(p.remote_dir.as_ref().unwrap().original(), DEFAULT_REMOTE_DOCKER_DIR);
    let record = backend_record(&p);
    assert_eq!(record.deployment_kind, "docker");
    assert_eq!(record.remote_deploy_dir.as_deref(), Some(DEFAULT_REMOTE_DOCKER_DIR));
}

fn summary(actions: &[DeployAction]) -> Vec<String> {
    actions
        .iter()
        .map(|a| match a {
            DeployAction::Progress(p) => format!("{}:{}", p.step, p.status),
            DeployAction::Ssh { step, .. } => format!("ssh {step}"),
            DeployAction::Upload { local_path, remote_path, .. } => {
                format!("scp {local_path} {remote_path}")
            }
            DeployAction::Abort(e) => format!("abort {e}"),
        })
        .collect()
}

#[test]
fn standalone_actions_remove_only_on_clean_install() {
    let mut req = request("standalone");
    let p = plan(&req).unwrap();
    let s = summary(&deploy_actions(&p));
    assert_eq!(s.iter().filter(|x| x.starts_with("ssh ")).count(), 4);
    assert_eq!(s[4], "scp bundle.tar.gz /tmp/kode-sync-server-deploy.tar.gz");
    assert_eq!(s.last().unwrap(), "LocalHealth:running");
    req.reset_existing = true;
    let p = plan(&req).unwrap();
    let actions = deploy_actions(&p);
    assert_eq!(actions.len(), 17);
    match &actions[9] {
        DeployAction::Ssh { command, context, .. } => {
            assert_eq!(command, "rm -rf \"$HOME/.local/kode-sync-server\"");
            assert_eq!(context, "clean install failed");
        }
        _ => panic!("expected the clean-install command"),
    }
    match &actions[14] {
        DeployAction::Ssh { command, .. } => {
            assert!(command.starts_with("nohup env KODE_SYNC_BIND=0.0.0.0:8787 "));
            assert!(command.contains("KODE_SYNC_PUBLIC_URL='https://sync.example.com'"));
            assert!(command.contains("KODE_SYNC_DEPLOYMENT_ID='id-1'"));
        }
        _ => panic!("expected the start command"),
    }
    assert_eq!(
        local_health_command(&p),
        "curl -fsS --max-time 3 http://127.0.0.1:8787/healthz | grep -F 'id-1'"
    );
}

#[test]
fn docker_actions_explain_start_failures() {
    let p = plan(&request("docker")).unwrap();
    let actions = deploy_actions(&p);
    assert_eq!(actions.len(), 15);
    match &actions[3] {
        DeployAction::Progress(p) => assert_eq!(p.message, "scp \u{2192} vps"),
        _ => panic!("expected the upload progress"),
    }
    match &actions[12] {
        DeployAction::Ssh { command, explain_docker_failure, .. } => {
            assert!(*explain_docker_failure);
            assert_eq!(
                command,
                "set -e; deploy_dir=\"$HOME/.local/kode-sync-docker\"; cd \"$deploy_dir\"; ./deploy.sh up"
            );
        }
        _ => panic!("expected the start command"),
    }
    assert!(local_health_command(&p).contains("docker inspect --format '{{if .State.Health}}"));
    assert_eq!(public_health_url(&p), "https://sync.example.com/api/v1/healthz");
}

#[test]
fn probes_retry_up_to_their_bound() {
    let mut probe = probe_start(LOCAL_HEALTH_RETRIES);
    for _ in 1..LOCAL_HEALTH_RETRIES {
        assert!(matches!(probe_record(&mut probe, Err("down".into())), ProbeNext::PauseThenRetry));
    }
    match probe_record(&mut probe, Err("still down".into())) {
        ProbeNext::Failed(e) => assert_eq!(e, "still down"),
        _ => panic!("expected the probe to give up"),
    }
    let mut probe = probe_start(2);
    assert!(matches!(probe_record(&mut probe, Err("x".into())), ProbeNext::PauseThenRetry));
    assert!(matches!(probe_record(&mut probe, Ok(())), ProbeNext::Healthy));
    assert_eq!(failure_message("start failed", "boom"), "start failed: boom");
}

#[test]
fn public_health_answers() {
    let ok = HealthResponse::Answered { content_type: None, body: br#"{"status":"ok"}"#.to_vec() };
    assert_eq!(public_health_error(DeploymentKind::Docker, "id", 8787, &ok), None);
    assert_eq!(
        public_health_error(DeploymentKind::Standalone, "id", 8787, &ok).unwrap(),
        "the public URL reached a different sync-server deployment"
    );
    let mine = HealthResponse::Answered {
        content_type: Some("application/json".into()),
        body: br#"{"deployment_id":"id"}"#.to_vec(),
    };
    assert_eq!(public_health_error(DeploymentKind::Standalone, "id", 8787, &mine), None);
    let html = HealthResponse::Answered {
        content_type: Some("text/html".into()),
        body: b"<html>\"hi\"</html>".to_vec(),
    };
    let err = public_health_error(DeploymentKind::Docker, "id", 8787, &html).unwrap();
    let json_err = serde_json::from_slice::<serde_json::Value>(b"<html>\"hi\"</html>").unwrap_err();
    assert_eq!(
        err,
        format!(
            "/api/v1/healthz returned invalid JSON (text/html): {json_err}; body={:?}",
            "<html>\"hi\"</html>"
        )
    );
    let long = HealthResponse::Answered { content_type: None, body: vec![b'x'; 300] };
    let err = public_health_error(DeploymentKind::Docker, "id", 8787, &long).unwrap();
    assert!(err.contains("(unknown content type)"));
    assert!(err.ends_with(&format!("body={:?}", "x".repeat(120))));
    let gateway = HealthResponse::Refused {
        status: 502,
        status_text: "502 Bad Gateway".into(),
        proxied_by: Some("aio-forward".into()),
    };
    assert!(public_health_error(DeploymentKind::Docker, "id", 8787, &gateway)
        .unwrap()
        .contains("Kode installed Caddy on HTTP port 80"));
    assert!(public_health_error(DeploymentKind::Standalone, "id", 9000, &gateway)
        .unwrap()
        .ends_with("upstream to port 9000 or use Docker + Caddy deployment"));
    let plain = HealthResponse::Refused {
        status: 502,
        status_text: "502 Bad Gateway".into(),
        proxied_by: None,
    };
    assert_eq!(
        public_health_error(DeploymentKind::Docker, "id", 8787, &plain).unwrap(),
        "HTTP 502 Bad Gateway"
    );
    let unread = HealthResponse::Unreadable { error: "reset".into() };
    assert_eq!(
        public_health_error(DeploymentKind::Docker, "id", 8787, &unread).unwrap(),
        "could not read health response: reset"
    );
    let down = HealthResponse::Unreachable { error: "timeout".into() };
    assert_eq!(public_health_error(DeploymentKind::Docker, "id", 8787, &down).unwrap(), "timeout");
}

#[test]
fn phases_run_in_order_and_stop_on_failure() {
    let mut phase = DeployPhase::RemoteSteps;
    let order = [
        DeployPhase::LocalProbe,
        DeployPhase::PublicProbe,
        DeployPhase::SaveBackend,
        DeployPhase::Finished,
    ];
    for expected in order {
        phase = next_phase(phase, true);
        assert_eq!(phase, expected);
    }
    assert_eq!(next_phase(DeployPhase::PublicProbe, false), DeployPhase::Failed);
    assert_eq!(next_phase(DeployPhase::Failed, true), DeployPhase::Failed);
}
