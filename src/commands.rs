//! The operator's commands, as plain values, and what each one decides on
//! its own.

use vstd::prelude::*;
use vstd::string::StringExecFns;
use crate::lifecycle::{Lifecycle, Mode, Phase};
use crate::stack::{handoff_args, handoff_model, texts};
use crate::version::VersionEnum;

verus! {

/// The names of the top-level commands, in the order they are offered.
pub open spec fn command_names_model() -> Seq<Seq<char>> {
    seq!["start"@, "stop"@, "restart"@, "update"@, "app"@, "reset-password"@, "debug"@]
}

/// The names of the top-level commands.
pub fn get_all_command_strings() -> (r: Vec<String>)
    ensures
        texts(r@) == command_names_model(),
{
    let mut r: Vec<String> = Vec::new();
    r.push("start".to_owned());
    r.push("stop".to_owned());
    r.push("restart".to_owned());
    r.push("update".to_owned());
    r.push("app".to_owned());
    r.push("reset-password".to_owned());
    r.push("debug".to_owned());
    assert(texts(r@) =~= command_names_model());
    r
}

/// Start the stack.
pub struct StartCommand {
    /// A custom environment file, relative to the working directory or absolute.
    pub env_file: Option<String>,
    /// Skip normalizing file permissions.
    pub no_permissions: bool,
}

impl StartCommand {
    /// The run that starts the stack, or restarts it when `restart` is set.
    pub fn lifecycle(&self, restart: bool) -> (r: Lifecycle)
        ensures
            r.mode == (if restart { Mode::Restart } else { Mode::Start }),
            r.skip_permissions == self.no_permissions,
            r.phase == Phase::Idle,
    {
        Lifecycle::new(if restart { Mode::Restart } else { Mode::Start }, self.no_permissions)
    }
}

/// Stop the stack.
pub struct StopCommand;

impl StopCommand {
    /// The run that stops the stack.
    pub fn lifecycle(&self) -> (r: Lifecycle)
        ensures
            r.mode == Mode::Stop,
            r.phase == Phase::Idle,
    {
        Lifecycle::new(Mode::Stop, false)
    }
}

/// Ask for the admin password to be reset.
pub struct ResetPasswordCommand;

impl ResetPasswordCommand {
    /// The file whose creation asks for the reset, under the working directory.
    pub fn request_path(&self, root: &str) -> (r: String)
        ensures
            r@ == root@ + "/state/password-change-request"@,
    {
        let mut r = root.to_owned();
        r.append("/state/password-change-request");
        r
    }
}

/// Update the executable and the stack to another release.
pub struct UpdateCommand {
    /// The version to update to, such as `v2.5.0` or `latest`.
    pub version: VersionEnum,
    /// A custom environment file, relative to the working directory or absolute.
    pub env_file: Option<String>,
    /// Skip normalizing file permissions.
    pub no_permissions: bool,
}

impl UpdateCommand {
    /// The arguments the new executable starts with; `env_file` is this
    /// command's environment file as an absolute path, where it named one.
    pub fn handoff_args(&self, env_file: Option<&str>) -> (r: Vec<String>)
        ensures
            texts(r@) == handoff_model(self.no_permissions, match env_file { Some(p) => Some(p@), None => None }),
    {
        handoff_args(self.no_permissions, env_file)
    }
}

/// Start an app.
pub struct StartApp {
    pub id: String,
}

/// Stop an app.
pub struct StopApp {
    pub id: String,
}

/// Uninstall an app.
pub struct UninstallApp {
    pub id: String,
}

/// Reset an app.
pub struct ResetApp {
    pub id: String,
}

/// Update an app.
pub struct UpdateApp {
    pub id: String,
}

/// Start every installed app.
pub struct StartAll {}

/// What to do to the installed apps.
pub enum AppSubcommand {
    Start(StartApp),
    Stop(StopApp),
    Uninstall(UninstallApp),
    Reset(ResetApp),
    Update(UpdateApp),
    StartAll(StartAll),
}

/// Manage the installed apps.
pub struct AppCommand {
    pub subcommand: AppSubcommand,
}

/// The address of the apps API, where each request is posted.
pub fn apps_api_base() -> (r: &'static str)
    ensures
        r@ == "http://localhost/worker-api/apps"@,
{
    "http://localhost/worker-api/apps"
}

/// The endpoint for acting on one app: `<base>/<id>/<action>`.
pub open spec fn app_endpoint(base: Seq<char>, id: Seq<char>, action: Seq<char>) -> Seq<char> {
    base + "/"@ + id + "/"@ + action
}

fn endpoint_for(base: &str, id: &str, action: &str) -> (r: String)
    ensures
        r@ == app_endpoint(base@, id@, action@),
{
    let mut r = base.to_owned();
    r.append("/");
    r.append(id);
    r.append("/");
    r.append(action);
    r
}

impl AppSubcommand {
    /// The endpoint this subcommand is posted to under `base`: the app's id
    /// then the action, or `start-all` for every app.
    pub fn endpoint(&self, base: &str) -> (r: String)
        ensures
            r@ == match self {
                AppSubcommand::Start(a) => app_endpoint(base@, a.id@, "start"@),
                AppSubcommand::Stop(a) => app_endpoint(base@, a.id@, "stop"@),
                AppSubcommand::Uninstall(a) => app_endpoint(base@, a.id@, "uninstall"@),
                AppSubcommand::Reset(a) => app_endpoint(base@, a.id@, "reset"@),
                AppSubcommand::Update(a) => app_endpoint(base@, a.id@, "update"@),
                AppSubcommand::StartAll(_) => base@ + "/start-all"@,
            },
    {
        match self {
            AppSubcommand::Start(a) => endpoint_for(base, a.id.as_str(), "start"),
            AppSubcommand::Stop(a) => endpoint_for(base, a.id.as_str(), "stop"),
            AppSubcommand::Uninstall(a) => endpoint_for(base, a.id.as_str(), "uninstall"),
            AppSubcommand::Reset(a) => endpoint_for(base, a.id.as_str(), "reset"),
            AppSubcommand::Update(a) => endpoint_for(base, a.id.as_str(), "update"),
            AppSubcommand::StartAll(_) => {
                let mut r = base.to_owned();
                r.append("/start-all");
                r
            },
        }
    }
}

} // verus!
