//! The stack's fixed containers and the command lines given to the
//! container orchestrator and to the freshly installed executable.

use vstd::prelude::*;
use vstd::string::StringExecFns;

verus! {

/// The characters of each string, in order.
pub open spec fn texts(v: Seq<String>) -> Seq<Seq<char>> {
    v.map_values(|s: String| s@)
}

/// The containers that make up the stack.
pub open spec fn container_names_model() -> Seq<Seq<char>> {
    seq![
        "tipi-reverse-proxy"@,
        "tipi-docker-proxy"@,
        "tipi-db"@,
        "tipi-redis"@,
        "tipi-worker"@,
        "tipi-dashboard"@,
    ]
}

/// The containers that make up the stack: reverse proxy, internal proxy,
/// database, cache, worker and dashboard.
pub fn stack_container_names() -> (r: Vec<String>)
    ensures
        texts(r@) == container_names_model(),
{
    let mut r: Vec<String> = Vec::new();
    r.push("tipi-reverse-proxy".to_owned());
    r.push("tipi-docker-proxy".to_owned());
    r.push("tipi-db".to_owned());
    r.push("tipi-redis".to_owned());
    r.push("tipi-worker".to_owned());
    r.push("tipi-dashboard".to_owned());
    assert(texts(r@) =~= container_names_model());
    r
}

/// `docker compose --env-file <env> pull`, without the program name.
pub fn compose_pull_args(env_file: &str) -> (r: Vec<String>)
    ensures
        texts(r@) == seq!["compose"@, "--env-file"@, env_file@, "pull"@],
{
    let mut r: Vec<String> = Vec::new();
    r.push("compose".to_owned());
    r.push("--env-file".to_owned());
    r.push(env_file.to_owned());
    r.push("pull".to_owned());
    assert(texts(r@) =~= seq!["compose"@, "--env-file"@, env_file@, "pull"@]);
    r
}

/// The compose files of an `up`: the base file, then the user's override
/// where there is one.
pub open spec fn compose_files_model(base: Seq<char>, user_override: Option<Seq<char>>) -> Seq<Seq<char>> {
    match user_override {
        Some(o) => seq!["-f"@, base, "-f"@, o],
        None => seq!["-f"@, base],
    }
}

/// `docker compose -f <base> [-f <override>] --env-file <env> up --detach
/// --remove-orphans --build`, without the program name.
pub fn compose_up_args(base: &str, user_override: Option<&str>, env_file: &str) -> (r: Vec<String>)
    ensures
        texts(r@) == seq!["compose"@]
            + compose_files_model(base@, match user_override { Some(o) => Some(o@), None => None })
            + seq!["--env-file"@, env_file@, "up"@, "--detach"@, "--remove-orphans"@, "--build"@],
{
    let mut r: Vec<String> = Vec::new();
    r.push("compose".to_owned());
    r.push("-f".to_owned());
    r.push(base.to_owned());
    match user_override {
        Some(o) => {
            r.push("-f".to_owned());
            r.push(o.to_owned());
        },
        None => {},
    }
    r.push("--env-file".to_owned());
    r.push(env_file.to_owned());
    r.push("up".to_owned());
    r.push("--detach".to_owned());
    r.push("--remove-orphans".to_owned());
    r.push("--build".to_owned());
    assert(texts(r@) =~= seq!["compose"@]
        + compose_files_model(base@, match user_override { Some(o) => Some(o@), None => None })
        + seq!["--env-file"@, env_file@, "up"@, "--detach"@, "--remove-orphans"@, "--build"@]);
    r
}

/// `docker compose down --remove-orphans --rmi local`, without the program
/// name.
pub fn compose_down_args() -> (r: Vec<String>)
    ensures
        texts(r@) == seq!["compose"@, "down"@, "--remove-orphans"@, "--rmi"@, "local"@],
{
    let mut r: Vec<String> = Vec::new();
    r.push("compose".to_owned());
    r.push("down".to_owned());
    r.push("--remove-orphans".to_owned());
    r.push("--rmi".to_owned());
    r.push("local".to_owned());
    assert(texts(r@) =~= seq!["compose"@, "down"@, "--remove-orphans"@, "--rmi"@, "local"@]);
    r
}

/// The arguments the new executable is started with after an update: `start`,
/// then `--no-permissions` if the update was asked to skip permissions, then
/// `--env-file <path>` if it named an environment file.
pub open spec fn handoff_model(no_permissions: bool, env_file: Option<Seq<char>>) -> Seq<Seq<char>> {
    seq!["start"@]
        + (if no_permissions { seq!["--no-permissions"@] } else { Seq::empty() })
        + match env_file {
            Some(p) => seq!["--env-file"@, p],
            None => Seq::empty(),
        }
}

/// Builds the hand-off arguments for the new executable.
pub fn handoff_args(no_permissions: bool, env_file: Option<&str>) -> (r: Vec<String>)
    ensures
        texts(r@) == handoff_model(no_permissions, match env_file { Some(p) => Some(p@), None => None }),
{
    let mut r: Vec<String> = Vec::new();
    r.push("start".to_owned());
    if no_permissions {
        r.push("--no-permissions".to_owned());
    }
    match env_file {
        Some(p) => {
            r.push("--env-file".to_owned());
            r.push(p.to_owned());
        },
        None => {},
    }
    assert(texts(r@) =~= handoff_model(no_permissions, match env_file { Some(p) => Some(p@), None => None }));
    r
}

/// The address the dashboard is reached at.
pub open spec fn dashboard_url_model(ip: Seq<char>, port: Seq<char>) -> Seq<char> {
    "http://"@ + ip + ":"@ + port
}

/// `http://<ip>:<port>`, from the environment's internal address and port.
pub fn dashboard_url(internal_ip: &str, port: &str) -> (r: String)
    ensures
        r@ == dashboard_url_model(internal_ip@, port@),
{
    let mut r = "http://".to_owned();
    r.append(internal_ip);
    r.append(":");
    r.append(port);
    r
}

} // verus!
