use runtipi_cli::commands::{
    apps_api_base, get_all_command_strings, AppSubcommand, ResetPasswordCommand, StartAll, StartApp,
    StartCommand, StopApp, StopCommand, UninstallApp, UpdateCommand,
};
use runtipi_cli::lifecycle::{Mode, Phase};
use runtipi_cli::stack::{
    compose_down_args, compose_pull_args, compose_up_args, dashboard_url, handoff_args,
    stack_container_names,
};
use runtipi_cli::version::VersionEnum;

#[test]
fn container_names() {
    assert_eq!(
        stack_container_names(),
        vec!["tipi-reverse-proxy", "tipi-docker-proxy", "tipi-db", "tipi-redis", "tipi-worker", "tipi-dashboard"]
    );
}

#[test]
fn compose_command_lines() {
    assert_eq!(compose_pull_args("/r/.env"), vec!["compose", "--env-file", "/r/.env", "pull"]);
    assert_eq!(
        compose_up_args("/r/docker-compose.yml", None, "/r/.env"),
        vec!["compose", "-f", "/r/docker-compose.yml", "--env-file", "/r/.env", "up", "--detach", "--remove-orphans", "--build"]
    );
    assert_eq!(
        compose_up_args("/r/docker-compose.yml", Some("/r/user-config/tipi-compose.yml"), "/r/.env"),
        vec![
            "compose", "-f", "/r/docker-compose.yml", "-f", "/r/user-config/tipi-compose.yml", "--env-file",
            "/r/.env", "up", "--detach", "--remove-orphans", "--build"
        ]
    );
    assert_eq!(compose_down_args(), vec!["compose", "down", "--remove-orphans", "--rmi", "local"]);
}

#[test]
fn handoff_arguments() {
    assert_eq!(handoff_args(false, None), vec!["start"]);
    assert_eq!(handoff_args(true, None), vec!["start", "--no-permissions"]);
    assert_eq!(
        handoff_args(true, Some("/abs/.env")),
        vec!["start", "--no-permissions", "--env-file", "/abs/.env"]
    );
    let cmd = UpdateCommand { version: VersionEnum::Latest, env_file: Some(".env".to_string()), no_permissions: false };
    assert_eq!(cmd.handoff_args(Some("/abs/.env")), vec!["start", "--env-file", "/abs/.env"]);
}

#[test]
fn dashboard_address() {
    assert_eq!(dashboard_url("10.0.3.152", "80"), "http://10.0.3.152:80");
}

#[test]
fn command_strings() {
    assert_eq!(
        get_all_command_strings(),
        vec!["start", "stop", "restart", "update", "app", "reset-password", "debug"]
    );
}

#[test]
fn command_lifecycles() {
    let start = StartCommand { env_file: None, no_permissions: true };
    let l = start.lifecycle(false);
    assert_eq!((l.mode, l.skip_permissions, l.phase), (Mode::Start, true, Phase::Idle));
    assert_eq!(start.lifecycle(true).mode, Mode::Restart);
    assert_eq!(StopCommand.lifecycle().mode, Mode::Stop);
}

#[test]
fn app_endpoints() {
    let base = apps_api_base();
    assert_eq!(base, "http://localhost/worker-api/apps");
    let start = AppSubcommand::Start(StartApp { id: "nginx".to_string() });
    assert_eq!(start.endpoint(base), "http://localhost/worker-api/apps/nginx/start");
    let stop = AppSubcommand::Stop(StopApp { id: "a".to_string() });
    assert_eq!(stop.endpoint("b"), "b/a/stop");
    let un = AppSubcommand::Uninstall(UninstallApp { id: "x".to_string() });
    assert_eq!(un.endpoint("b"), "b/x/uninstall");
    assert_eq!(AppSubcommand::StartAll(StartAll {}).endpoint("b"), "b/start-all");
}

#[test]
fn password_reset_request_path() {
    assert_eq!(ResetPasswordCommand.request_path("/srv/tipi"), "/srv/tipi/state/password-change-request");
}
