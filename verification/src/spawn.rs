//! The configuration of one launch and the command that spawns the server
//! from it.
//!
//! The caller reads the environment and spawns; this module fixes which
//! variables are read, what the child's environment holds, and how its
//! streams are attached.

use crate::config::{
    build_server_url, effective_base_path, effective_host, effective_port,
    parse_base_url_from_args, parse_host_from_args, parse_port_from_args, server_url,
};
use crate::process::{StreamMode, SupervisionMode};
use crate::platform::Platform;
use crate::text::str_eq;
use vstd::prelude::*;
use vstd::string::*;

verus! {

/// The variables of the supervisor's environment, as far as it read them:
/// names with their values.
#[derive(Debug)]
pub struct Environment {
    pub vars: Vec<(String, String)>,
}

/// The snapshot of one launch: where the server listens, the arguments it
/// is handed, and the variables its environment gets. It is made anew for
/// each start and restart and never changed.
#[derive(Debug)]
pub struct SupervisorConfig {
    pub host: String,
    pub port: u16,
    pub base_path: Option<String>,
    pub args: Vec<String>,
    pub env: Vec<(String, String)>,
}

/// What the server is spawned with, the executable aside.
#[derive(Debug)]
pub struct SpawnCommand {
    pub args: Vec<String>,
    pub env: Vec<(String, String)>,
    pub stdin: StreamMode,
    pub stdout: StreamMode,
    pub stderr: StreamMode,
    /// Whether the child is kept from opening a console window.
    pub hide_window: bool,
}

/// A launch snapshot as plain values.
pub struct ConfigView {
    pub host: Seq<char>,
    pub port: u16,
    pub base_path: Option<Seq<char>>,
    pub args: Seq<Seq<char>>,
    pub env: Seq<(Seq<char>, Seq<char>)>,
}

/// A spawn command as plain values.
pub struct CommandView {
    pub args: Seq<Seq<char>>,
    pub env: Seq<(Seq<char>, Seq<char>)>,
    pub stdin: StreamMode,
    pub stdout: StreamMode,
    pub stderr: StreamMode,
    pub hide_window: bool,
}

impl View for Environment {
    type V = Seq<(Seq<char>, Seq<char>)>;

    open spec fn view(&self) -> Seq<(Seq<char>, Seq<char>)> {
        self.vars.deep_view()
    }
}

impl View for SupervisorConfig {
    type V = ConfigView;

    open spec fn view(&self) -> ConfigView {
        ConfigView {
            host: self.host@,
            port: self.port,
            base_path: self.base_path.deep_view(),
            args: self.args.deep_view(),
            env: self.env.deep_view(),
        }
    }
}

impl View for SpawnCommand {
    type V = CommandView;

    open spec fn view(&self) -> CommandView {
        CommandView {
            args: self.args.deep_view(),
            env: self.env.deep_view(),
            stdin: self.stdin,
            stdout: self.stdout,
            stderr: self.stderr,
            hide_window: self.hide_window,
        }
    }
}

/// The variable that may name the server executable.
pub open spec fn server_path_key() -> Seq<char> {
    "QBM_SERVER_PATH"@
}

/// The variables that are handed on to the server as they are.
pub open spec fn forwarded_keys() -> Seq<Seq<char>> {
    seq![
        "QBT_HOST"@,
        "QBT_PORT"@,
        "QBT_BASE_URL"@,
        "QBT_RUN"@,
        "QBT_SCHEDULE"@,
        "QBT_STARTUP_DELAY"@,
        "QBT_CONFIG_DIR"@,
        "QBT_LOGFILE"@,
        "QBT_RECHECK"@,
        "QBT_CAT_UPDATE"@,
        "QBT_TAG_UPDATE"@,
        "QBT_REM_UNREGISTERED"@,
        "QBT_TAG_TRACKER_ERROR"@,
        "QBT_REM_ORPHANED"@,
        "QBT_TAG_NOHARDLINKS"@,
        "QBT_SHARE_LIMITS"@,
        "QBT_SKIP_CLEANUP"@,
        "QBT_DRY_RUN"@,
        "QBT_LOG_LEVEL"@,
        "QBT_LOG_SIZE"@,
        "QBT_LOG_COUNT"@,
        "QBT_DEBUG"@,
        "QBT_TRACE"@,
        "QBT_DIVIDER"@,
        "QBT_WIDTH"@,
        "QBT_SKIP_QB_VERSION_CHECK"@,
    ]
}

/// The variables that the server's environment gets whatever the
/// supervisor's own holds: that it serves the web interface, and that it
/// runs below a desktop shell and opens no browser itself.
pub open spec fn forced_variables() -> Seq<(Seq<char>, Seq<char>)> {
    seq![("QBT_WEB_SERVER"@, "true"@), ("QBT_DESKTOP_APP"@, "true"@)]
}

/// The value of the first variable of that name, if there is one.
pub open spec fn lookup(vars: Seq<(Seq<char>, Seq<char>)>, key: Seq<char>) -> Option<Seq<char>>
    decreases vars.len(),
{
    if vars.len() == 0 {
        None
    } else if vars[0].0 == key {
        Some(vars[0].1)
    } else {
        lookup(vars.drop_first(), key)
    }
}

/// Those of `keys` that `vars` has a value for, each with its value, in
/// the order of `keys`.
pub open spec fn forward(keys: Seq<Seq<char>>, vars: Seq<(Seq<char>, Seq<char>)>) -> Seq<
    (Seq<char>, Seq<char>),
>
    decreases keys.len(),
{
    if keys.len() == 0 {
        Seq::empty()
    } else {
        let earlier = forward(keys.drop_last(), vars);
        match lookup(vars, keys.last()) {
            Some(value) => earlier.push((keys.last(), value)),
            None => earlier,
        }
    }
}

/// The variables set for the server: the forwarded ones that are present,
/// then the forced ones.
pub open spec fn child_environment(vars: Seq<(Seq<char>, Seq<char>)>) -> Seq<
    (Seq<char>, Seq<char>),
> {
    forward(forwarded_keys(), vars) + forced_variables()
}

/// The snapshot of a launch with the arguments `args` in an environment
/// that holds `vars`: host, port and base path as the command line and then
/// the environment give them, the arguments as they are, and the server's
/// variables.
pub open spec fn launch_config(args: Seq<Seq<char>>, vars: Seq<(Seq<char>, Seq<char>)>) -> ConfigView {
    ConfigView {
        host: effective_host(args, lookup(vars, "QBT_HOST"@)),
        port: effective_port(args, lookup(vars, "QBT_PORT"@)),
        base_path: effective_base_path(args, lookup(vars, "QBT_BASE_URL"@)),
        args,
        env: child_environment(vars),
    }
}

/// The address under which the server of a launch answers.
pub open spec fn config_url(config: ConfigView) -> Seq<char> {
    server_url(config.host, config.port, config.base_path)
}

/// What the server is spawned with for a launch: the launch's arguments
/// and variables; nothing to read and two pipes, or in console mode the
/// pseudo-terminal for all three streams; and on Windows no console window.
pub open spec fn spawn_command(
    config: ConfigView,
    platform: Platform,
    mode: SupervisionMode,
) -> CommandView {
    CommandView {
        args: config.args,
        env: config.env,
        stdin: match mode {
            SupervisionMode::Pipes => StreamMode::Null,
            SupervisionMode::Console => StreamMode::Console,
        },
        stdout: match mode {
            SupervisionMode::Pipes => StreamMode::Piped,
            SupervisionMode::Console => StreamMode::Console,
        },
        stderr: match mode {
            SupervisionMode::Pipes => StreamMode::Piped,
            SupervisionMode::Console => StreamMode::Console,
        },
        hide_window: platform == Platform::Windows,
    }
}

impl Environment {
    /// An environment of which nothing was read.
    pub fn new() -> (environment: Environment)
        ensures
            environment@ == Seq::<(Seq<char>, Seq<char>)>::empty(),
    {
        let environment = Environment { vars: Vec::new() };
        assert(environment@ =~= Seq::empty());
        environment
    }

    /// Adds a variable that was read. A name that is there already keeps
    /// its first value.
    pub fn push(&mut self, key: String, value: String)
        ensures
            final(self)@ == old(self)@.push((key@, value@)),
    {
        self.vars.push((key, value));
        assert(self@ =~= old(self)@.push((key@, value@)));
    }

    /// The value of the variable `key`, if it was read and is set.
    pub fn get(&self, key: &str) -> (value: Option<&str>)
        ensures
            value.deep_view() == lookup(self@, key@),
    {
        let ghost vars = self.vars.deep_view();
        assert(vars.skip(0) == vars);
        let mut i: usize = 0;
        while i < self.vars.len()
            invariant
                i <= self.vars.len(),
                vars == self.vars.deep_view(),
                lookup(vars, key@) == lookup(vars.skip(i as int), key@),
            decreases self.vars.len() - i,
        {
            assert(vars.skip(i as int).drop_first() == vars.skip(i + 1));
            assert(vars[i as int] == self.vars[i as int].deep_view());
            if str_eq(self.vars[i].0.as_str(), key) {
                return Some(self.vars[i].1.as_str());
            }
            i += 1;
        }
        None
    }
}

/// The names of the variables to read from the environment: the forwarded
/// ones.
pub fn forwarded_env_keys() -> (keys: Vec<&'static str>)
    ensures
        keys.deep_view() == forwarded_keys(),
{
    let mut keys: Vec<&'static str> = Vec::new();
    keys.push("QBT_HOST");
    keys.push("QBT_PORT");
    keys.push("QBT_BASE_URL");
    keys.push("QBT_RUN");
    keys.push("QBT_SCHEDULE");
    keys.push("QBT_STARTUP_DELAY");
    keys.push("QBT_CONFIG_DIR");
    keys.push("QBT_LOGFILE");
    keys.push("QBT_RECHECK");
    keys.push("QBT_CAT_UPDATE");
    keys.push("QBT_TAG_UPDATE");
    keys.push("QBT_REM_UNREGISTERED");
    keys.push("QBT_TAG_TRACKER_ERROR");
    keys.push("QBT_REM_ORPHANED");
    keys.push("QBT_TAG_NOHARDLINKS");
    keys.push("QBT_SHARE_LIMITS");
    keys.push("QBT_SKIP_CLEANUP");
    keys.push("QBT_DRY_RUN");
    keys.push("QBT_LOG_LEVEL");
    keys.push("QBT_LOG_SIZE");
    keys.push("QBT_LOG_COUNT");
    keys.push("QBT_DEBUG");
    keys.push("QBT_TRACE");
    keys.push("QBT_DIVIDER");
    keys.push("QBT_WIDTH");
    keys.push("QBT_SKIP_QB_VERSION_CHECK");
    assert(keys.deep_view() =~= forwarded_keys());
    keys
}

/// The name of the variable that may name the server executable.
pub fn server_path_env_key() -> (key: &'static str)
    ensures
        key@ == server_path_key(),
{
    "QBM_SERVER_PATH"
}

/// The variables to set for the server, given the supervisor's own.
pub fn child_environment_of(environment: &Environment) -> (env: Vec<(String, String)>)
    ensures
        env.deep_view() == child_environment(environment@),
{
    let keys = forwarded_env_keys();
    let ghost vars = environment@;
    let mut env: Vec<(String, String)> = Vec::new();
    assert(forwarded_keys().take(0) =~= Seq::empty());
    assert(env.deep_view() =~= forward(forwarded_keys().take(0), vars));
    let mut i: usize = 0;
    while i < keys.len()
        invariant
            i <= keys.len(),
            keys.deep_view() == forwarded_keys(),
            vars == environment@,
            env.deep_view() == forward(forwarded_keys().take(i as int), vars),
        decreases keys.len() - i,
    {
        let ghost before = env.deep_view();
        let ghost longer = forwarded_keys().take(i + 1);
        assert(longer.drop_last() == forwarded_keys().take(i as int));
        assert(longer.last() == keys.deep_view()[i as int]);
        assert(keys.deep_view()[i as int] == keys[i as int]@);
        match environment.get(keys[i]) {
            Some(value) => {
                let pair = (String::from_str(keys[i]), String::from_str(value));
                env.push(pair);
                assert(env.deep_view() =~= before.push((keys[i as int]@, value@)));
            },
            None => {},
        }
        i += 1;
    }
    assert(forwarded_keys().take(keys.len() as int) == forwarded_keys());
    let ghost forwarded = env.deep_view();
    env.push((String::from_str("QBT_WEB_SERVER"), String::from_str("true")));
    env.push((String::from_str("QBT_DESKTOP_APP"), String::from_str("true")));
    assert(env.deep_view() =~= forwarded + forced_variables());
    env
}

/// A copy of a list of strings.
pub fn copy_strings(list: &Vec<String>) -> (copy: Vec<String>)
    ensures
        copy@ == list@,
        copy.deep_view() == list.deep_view(),
{
    let mut copy: Vec<String> = Vec::new();
    let mut i: usize = 0;
    while i < list.len()
        invariant
            i <= list.len(),
            copy@ == list@.take(i as int),
        decreases list.len() - i,
    {
        copy.push(list[i].clone());
        assert(list@.take(i + 1) == list@.take(i as int).push(list@[i as int]));
        i += 1;
    }
    assert(list@.take(list.len() as int) == list@);
    assert(copy.deep_view() =~= list.deep_view());
    copy
}

/// A copy of a list of variables.
pub fn copy_variables(list: &Vec<(String, String)>) -> (copy: Vec<(String, String)>)
    ensures
        copy@ == list@,
        copy.deep_view() == list.deep_view(),
{
    let mut copy: Vec<(String, String)> = Vec::new();
    let mut i: usize = 0;
    while i < list.len()
        invariant
            i <= list.len(),
            copy@ == list@.take(i as int),
        decreases list.len() - i,
    {
        copy.push((list[i].0.clone(), list[i].1.clone()));
        assert(list@.take(i + 1) == list@.take(i as int).push(list@[i as int]));
        i += 1;
    }
    assert(list@.take(list.len() as int) == list@);
    assert(copy.deep_view() =~= list.deep_view());
    copy
}

impl SupervisorConfig {
    /// The snapshot for a launch with the arguments `args` in the
    /// environment `environment`.
    pub fn resolve(args: Vec<String>, environment: &Environment) -> (config: SupervisorConfig)
        ensures
            config@ == launch_config(args.deep_view(), environment@),
            config.args == args,
    {
        let list = args.as_slice();
        assert(list.deep_view() =~= args.deep_view());
        let host = parse_host_from_args(list, environment.get("QBT_HOST"));
        let port = parse_port_from_args(list, environment.get("QBT_PORT"));
        let base_path = parse_base_url_from_args(list, environment.get("QBT_BASE_URL"));
        let env = child_environment_of(environment);
        SupervisorConfig { host, port, base_path, args, env }
    }

    /// The address under which the server of this launch answers.
    pub fn url(&self) -> (url: String)
        ensures
            url@ == config_url(self@),
    {
        match &self.base_path {
            Some(path) => build_server_url(self.host.as_str(), self.port, Some(path.as_str())),
            None => build_server_url(self.host.as_str(), self.port, None),
        }
    }
}

/// The address under which the server answers that is launched with
/// `args` in `environment`.
pub fn build_server_url_effective(args: &[String], environment: &Environment) -> (url: String)
    ensures
        url@ == config_url(launch_config(args.deep_view(), environment@)),
{
    let host = parse_host_from_args(args, environment.get("QBT_HOST"));
    let port = parse_port_from_args(args, environment.get("QBT_PORT"));
    match parse_base_url_from_args(args, environment.get("QBT_BASE_URL")) {
        Some(path) => build_server_url(host.as_str(), port, Some(path.as_str())),
        None => build_server_url(host.as_str(), port, None),
    }
}

/// What the server is spawned with for the launch `config`.
pub fn build_spawn_command(
    config: &SupervisorConfig,
    platform: Platform,
    mode: SupervisionMode,
) -> (command: SpawnCommand)
    ensures
        command@ == spawn_command(config@, platform, mode),
{
    let (stdin, stdout, stderr) = match mode {
        SupervisionMode::Pipes => (StreamMode::Null, StreamMode::Piped, StreamMode::Piped),
        SupervisionMode::Console => (StreamMode::Console, StreamMode::Console, StreamMode::Console),
    };
    let hide_window = match platform {
        Platform::Windows => true,
        _ => false,
    };
    SpawnCommand {
        args: copy_strings(&config.args),
        env: copy_variables(&config.env),
        stdin,
        stdout,
        stderr,
        hide_window,
    }
}

} // verus!
