//! The service configuration value and its fluent builder.

use vstd::prelude::*;
use vstd::string::StringExecFns;

verus! {

/// Mathematical model of a [`ServiceConfig`]: every text field as a
/// sequence of characters.
pub ghost struct ConfigView {
    pub name: Seq<char>,
    pub description: Seq<char>,
    pub exec_start: Seq<char>,
    pub working_directory: Option<Seq<char>>,
    pub user: Option<Seq<char>>,
    pub group: Option<Seq<char>>,
    pub restart: Option<Seq<char>>,
    pub restart_sec: Option<u32>,
    pub wanted_by: Option<Seq<char>>,
    pub environment: Option<Seq<(Seq<char>, Seq<char>)>>,
    pub after: Option<Seq<Seq<char>>>,
    pub log_file: Option<Seq<char>>,
}

/// The configuration for one systemd service.
///
/// [`ServiceConfig::new`] sets the three required fields; the remaining
/// builder methods each return an updated copy, so a built configuration is
/// never mutated in place.
#[derive(Debug, Clone)]
pub struct ServiceConfig {
    /// The service name, used as the unit-file name stem.
    pub name: String,
    /// Free-text description of the service.
    pub description: String,
    /// The command line the supervisor runs to start the service.
    pub exec_start: String,
    /// Working directory of the service process, if set.
    pub working_directory: Option<String>,
    /// User to run the service as, if set.
    pub user: Option<String>,
    /// Group to run the service as, if set.
    pub group: Option<String>,
    /// Restart policy token (for example "always" or "on-failure").
    pub restart: Option<String>,
    /// Delay in seconds before a restart.
    pub restart_sec: Option<u32>,
    /// Target the unit is wanted by (usually "multi-user.target").
    pub wanted_by: Option<String>,
    /// Ordered `KEY=VALUE` environment pairs; duplicates are kept.
    pub environment: Option<Vec<(String, String)>>,
    /// Ordered unit names this service starts after.
    pub after: Option<Vec<String>>,
    /// Path standard output is appended to, if set.
    pub log_file: Option<String>,
}

pub open spec fn view_opt_string(o: Option<String>) -> Option<Seq<char>> {
    match o {
        Some(s) => Some(s@),
        None => None,
    }
}

pub open spec fn view_env(o: Option<Vec<(String, String)>>) -> Option<Seq<(Seq<char>, Seq<char>)>> {
    match o {
        Some(v) => Some(v@.map_values(|p: (String, String)| (p.0@, p.1@))),
        None => None,
    }
}

pub open spec fn view_after(o: Option<Vec<String>>) -> Option<Seq<Seq<char>>> {
    match o {
        Some(v) => Some(v@.map_values(|s: String| s@)),
        None => None,
    }
}

impl View for ServiceConfig {
    type V = ConfigView;

    open spec fn view(&self) -> ConfigView {
        ConfigView {
            name: self.name@,
            description: self.description@,
            exec_start: self.exec_start@,
            working_directory: view_opt_string(self.working_directory),
            user: view_opt_string(self.user),
            group: view_opt_string(self.group),
            restart: view_opt_string(self.restart),
            restart_sec: self.restart_sec,
            wanted_by: view_opt_string(self.wanted_by),
            environment: view_env(self.environment),
            after: view_after(self.after),
            log_file: view_opt_string(self.log_file),
        }
    }
}

/// The model of a configuration fresh out of [`ServiceConfig::new`]: the
/// three required fields as given, the defaulted fields at their default
/// values, and every other optional field absent.
pub open spec fn spec_new_config(name: Seq<char>, exec_start: Seq<char>, description: Seq<char>) -> ConfigView {
    ConfigView {
        name: name,
        description: description,
        exec_start: exec_start,
        working_directory: None,
        user: None,
        group: None,
        restart: Some("always"@),
        restart_sec: Some(5u32),
        wanted_by: Some("multi-user.target"@),
        environment: None,
        after: None,
        log_file: None,
    }
}

impl Default for ServiceConfig {
    /// An empty configuration carrying only the default restart policy,
    /// restart delay and install target.
    fn default() -> (r: Self)
        ensures
            r@ == spec_new_config(Seq::<char>::empty(), Seq::<char>::empty(), Seq::<char>::empty()),
    {
        let r = ServiceConfig {
            name: String::new(),
            description: String::new(),
            exec_start: String::new(),
            working_directory: None,
            user: None,
            group: None,
            restart: Some(String::from_str("always")),
            restart_sec: Some(5),
            wanted_by: Some(String::from_str("multi-user.target")),
            environment: None,
            after: None,
            log_file: None,
        };
        r
    }
}

impl ServiceConfig {
    /// Creates a configuration with the three required fields; everything
    /// else takes its default.
    pub fn new(name: &str, exec_start: &str, description: &str) -> (r: Self)
        ensures
            r@ == spec_new_config(name@, exec_start@, description@),
    {
        ServiceConfig {
            name: String::from_str(name),
            description: String::from_str(description),
            exec_start: String::from_str(exec_start),
            ..Default::default()
        }
    }

    /// Sets the working directory.
    pub fn working_directory(self, dir: &str) -> (r: Self)
        ensures
            r@ == (ConfigView { working_directory: Some(dir@), ..self@ }),
    {
        ServiceConfig { working_directory: Some(String::from_str(dir)), ..self }
    }

    /// Sets the user the service runs as.
    pub fn user(self, user: &str) -> (r: Self)
        ensures
            r@ == (ConfigView { user: Some(user@), ..self@ }),
    {
        ServiceConfig { user: Some(String::from_str(user)), ..self }
    }

    /// Sets the group the service runs as.
    pub fn group(self, group: &str) -> (r: Self)
        ensures
            r@ == (ConfigView { group: Some(group@), ..self@ }),
    {
        ServiceConfig { group: Some(String::from_str(group)), ..self }
    }

    /// Sets the restart policy.
    pub fn restart(self, restart: &str) -> (r: Self)
        ensures
            r@ == (ConfigView { restart: Some(restart@), ..self@ }),
    {
        ServiceConfig { restart: Some(String::from_str(restart)), ..self }
    }

    /// Sets the restart delay in seconds.
    pub fn restart_sec(self, sec: u32) -> (r: Self)
        ensures
            r@ == (ConfigView { restart_sec: Some(sec), ..self@ }),
    {
        ServiceConfig { restart_sec: Some(sec), ..self }
    }

    /// Sets the target the unit is wanted by.
    pub fn wanted_by(self, target: &str) -> (r: Self)
        ensures
            r@ == (ConfigView { wanted_by: Some(target@), ..self@ }),
    {
        ServiceConfig { wanted_by: Some(String::from_str(target)), ..self }
    }

    /// Sets the environment pairs, kept exactly in the given order.
    pub fn environment(self, env: Vec<(String, String)>) -> (r: Self)
        ensures
            r@ == (ConfigView {
                environment: Some(env@.map_values(|p: (String, String)| (p.0@, p.1@))),
                ..self@
            }),
    {
        ServiceConfig { environment: Some(env), ..self }
    }

    /// Sets the units this service starts after, kept exactly in the given
    /// order.
    pub fn after(self, after: Vec<String>) -> (r: Self)
        ensures
            r@ == (ConfigView { after: Some(after@.map_values(|s: String| s@)), ..self@ }),
    {
        ServiceConfig { after: Some(after), ..self }
    }

    /// Sets the log file standard output is appended to.
    pub fn log_file(self, file_path: &str) -> (r: Self)
        ensures
            r@ == (ConfigView { log_file: Some(file_path@), ..self@ }),
    {
        ServiceConfig { log_file: Some(String::from_str(file_path)), ..self }
    }
}

} // verus!
