//! The service manager: renders the unit file and classifies the outcome
//! of every privileged operation.
//!
//! The manager itself performs no I/O. The platform layer around the
//! library checks the effective-user capability, writes files and runs the
//! control-plane tool, and hands the outcomes in as plain values: whether
//! the process is privileged, whether the unit file already exists, the
//! platform's write-failure text, and whether a control-plane command
//! exited successfully. Every decision taken on those values is verified
//! here.

use vstd::prelude::*;
use vstd::string::StringExecFns;
use crate::config::ConfigView;
use crate::config::ServiceConfig;
use crate::error::Error;
use crate::render::after_lines;
use crate::render::environment_lines;
use crate::render::lemma_unlines_append;
use crate::render::log_lines;
use crate::render::opt_line;
use crate::render::push_after_lines;
use crate::render::push_blank_line;
use crate::render::push_env_lines;
use crate::render::push_kv_line;
use crate::render::push_lit_line;
use crate::render::push_log_lines;
use crate::render::push_opt_line;
use crate::render::push_restart_sec_lines;
use crate::render::restart_sec_lines;
use crate::render::spec_lines;
use crate::render::spec_render;
use crate::render::unlines;

verus! {

/// The canonical unit-file path for a service name.
pub open spec fn spec_unit_path(name: Seq<char>) -> Seq<char> {
    "/etc/systemd/system/"@ + name + ".service"@
}

/// The message carried by every missing-privilege error.
pub open spec fn permission_msg() -> Seq<char> {
    "need root privileges"@
}

/// The message carried by the anti-clobber error.
pub open spec fn exists_msg() -> Seq<char> {
    "Service file exists"@
}

/// The message carried by a failed enable command.
pub open spec fn enable_failed_msg(name: Seq<char>) -> Seq<char> {
    "enable '"@ + name + "' failed"@
}

/// The message carried by a failed start command.
pub open spec fn start_failed_msg(name: Seq<char>) -> Seq<char> {
    "start '"@ + name + "' failed"@
}

/// The message carried by a failed daemon reload.
pub open spec fn reload_failed_msg() -> Seq<char> {
    "systemctl daemon-reload failed"@
}

/// Succeeds exactly when the capability check reported privilege; the
/// failure is always a `Permission` error with a fixed message.
pub fn validate_root_privileges(privileged: bool) -> (r: Result<(), Error>)
    ensures
        r is Ok <==> privileged,
        !privileged ==> (r matches Err(Error::Permission(m)) && m@ == permission_msg()),
{
    if !privileged {
        Err(Error::Permission(String::from_str("need root privileges")))
    } else {
        Ok(())
    }
}

/// Manages one systemd service described by a [`ServiceConfig`].
pub struct SystemdService {
    config: ServiceConfig,
}

impl View for SystemdService {
    type V = ConfigView;

    closed spec fn view(&self) -> ConfigView {
        self.config@
    }
}

impl SystemdService {
    /// Wraps a configuration; the manager owns it for its lifetime.
    pub fn new(config: ServiceConfig) -> (r: Self)
        ensures
            r@ == config@,
    {
        SystemdService { config }
    }

    /// Renders the unit-file text for the owned configuration.
    ///
    /// The result is exactly [`spec_render`] of the configuration: a pure,
    /// deterministic function of the configuration value alone.
    pub fn generate(&self) -> (r: String)
        ensures
            r@ == spec_render(self@),
    {
        let ghost c = self@;
        let mut content = String::new();

        push_lit_line(&mut content, "[Unit]");
        let ghost mut ls: Seq<Seq<char>> = seq!["[Unit]"@];
        push_kv_line(&mut content, "Description=", self.config.description.as_str());
        proof {
            lemma_unlines_append(ls, seq!["Description="@ + c.description]);
            ls = ls + seq!["Description="@ + c.description];
            assert(content@ == unlines(ls));
        }
        push_after_lines(&mut content, &self.config.after);
        proof {
            lemma_unlines_append(ls, after_lines(c.after));
            ls = ls + after_lines(c.after);
            assert(content@ == unlines(ls));
        }
        push_blank_line(&mut content);
        proof {
            lemma_unlines_append(ls, seq![Seq::<char>::empty()]);
            ls = ls + seq![Seq::<char>::empty()];
            assert(content@ == unlines(ls));
        }
        push_lit_line(&mut content, "[Service]");
        proof {
            lemma_unlines_append(ls, seq!["[Service]"@]);
            ls = ls + seq!["[Service]"@];
            assert(content@ == unlines(ls));
        }
        push_opt_line(&mut content, "WorkingDirectory=", &self.config.working_directory);
        proof {
            lemma_unlines_append(ls, opt_line("WorkingDirectory="@, c.working_directory));
            ls = ls + opt_line("WorkingDirectory="@, c.working_directory);
            assert(content@ == unlines(ls));
        }
        push_opt_line(&mut content, "User=", &self.config.user);
        proof {
            lemma_unlines_append(ls, opt_line("User="@, c.user));
            ls = ls + opt_line("User="@, c.user);
            assert(content@ == unlines(ls));
        }
        push_opt_line(&mut content, "Group=", &self.config.group);
        proof {
            lemma_unlines_append(ls, opt_line("Group="@, c.group));
            ls = ls + opt_line("Group="@, c.group);
            assert(content@ == unlines(ls));
        }
        push_opt_line(&mut content, "Restart=", &self.config.restart);
        proof {
            lemma_unlines_append(ls, opt_line("Restart="@, c.restart));
            ls = ls + opt_line("Restart="@, c.restart);
            assert(content@ == unlines(ls));
        }
        push_restart_sec_lines(&mut content, self.config.restart_sec);
        proof {
            lemma_unlines_append(ls, restart_sec_lines(c.restart_sec));
            ls = ls + restart_sec_lines(c.restart_sec);
            assert(content@ == unlines(ls));
        }
        push_kv_line(&mut content, "ExecStart=", self.config.exec_start.as_str());
        proof {
            lemma_unlines_append(ls, seq!["ExecStart="@ + c.exec_start]);
            ls = ls + seq!["ExecStart="@ + c.exec_start];
            assert(content@ == unlines(ls));
        }
        push_log_lines(&mut content, &self.config.log_file);
        proof {
            lemma_unlines_append(ls, log_lines(c.log_file));
            ls = ls + log_lines(c.log_file);
            assert(content@ == unlines(ls));
        }
        push_env_lines(&mut content, &self.config.environment);
        proof {
            lemma_unlines_append(ls, environment_lines(c.environment));
            ls = ls + environment_lines(c.environment);
            assert(content@ == unlines(ls));
        }
        push_blank_line(&mut content);
        proof {
            lemma_unlines_append(ls, seq![Seq::<char>::empty()]);
            ls = ls + seq![Seq::<char>::empty()];
            assert(content@ == unlines(ls));
        }
        push_lit_line(&mut content, "[Install]");
        proof {
            lemma_unlines_append(ls, seq!["[Install]"@]);
            ls = ls + seq!["[Install]"@];
            assert(content@ == unlines(ls));
        }
        push_opt_line(&mut content, "WantedBy=", &self.config.wanted_by);
        proof {
            lemma_unlines_append(ls, opt_line("WantedBy="@, c.wanted_by));
            ls = ls + opt_line("WantedBy="@, c.wanted_by);
            assert(content@ == unlines(ls));
            assert(ls == spec_lines(c));
        }
        content
    }

    /// The canonical unit-file path for this service.
    pub fn service_file_path(&self) -> (r: String)
        ensures
            r@ == spec_unit_path(self@.name),
    {
        String::from_str("/etc/systemd/system/")
            .concat(self.config.name.as_str())
            .concat(".service")
    }

    /// Resolves the install path, refusing to clobber an existing file.
    ///
    /// `exists` is whether a file is already present at the canonical
    /// path; in that case the result is an `Io` error and the caller must
    /// leave the existing file untouched.
    pub fn get_service_file_path(&self, exists: bool) -> (r: Result<String, Error>)
        ensures
            exists ==> (r matches Err(Error::Io(m)) && m@ == exists_msg()),
            !exists ==> (r matches Ok(p) && p@ == spec_unit_path(self@.name)),
    {
        if exists {
            Err(Error::Io(String::from_str("Service file exists")))
        } else {
            Ok(self.service_file_path())
        }
    }

    /// The privilege-gated write: yields the full text to put at the unit
    /// path, or a `Permission` error when the capability check failed, in
    /// which case nothing may be written.
    pub fn write(&self, privileged: bool) -> (r: Result<String, Error>)
        ensures
            privileged ==> (r matches Ok(c) && c@ == spec_render(self@)),
            !privileged ==> (r matches Err(Error::Permission(m)) && m@ == permission_msg()),
    {
        match validate_root_privileges(privileged) {
            Err(e) => Err(e),
            Ok(()) => Ok(self.generate()),
        }
    }

    /// Classifies the enable operation: a `Permission` error without
    /// privilege, a `Command` error naming the unit when the control-plane
    /// command exited non-zero, success otherwise.
    pub fn enable(&self, privileged: bool, exit_success: bool) -> (r: Result<(), Error>)
        ensures
            !privileged ==> (r matches Err(Error::Permission(m)) && m@ == permission_msg()),
            privileged && exit_success ==> r is Ok,
            privileged && !exit_success ==> (r matches Err(Error::Command(m))
                && m@ == enable_failed_msg(self@.name)),
    {
        match validate_root_privileges(privileged) {
            Err(e) => Err(e),
            Ok(()) => {
                if !exit_success {
                    Err(Error::Command(
                        String::from_str("enable '")
                            .concat(self.config.name.as_str())
                            .concat("' failed"),
                    ))
                } else {
                    Ok(())
                }
            },
        }
    }

    /// Classifies the start operation, like [`SystemdService::enable`].
    pub fn start(&self, privileged: bool, exit_success: bool) -> (r: Result<(), Error>)
        ensures
            !privileged ==> (r matches Err(Error::Permission(m)) && m@ == permission_msg()),
            privileged && exit_success ==> r is Ok,
            privileged && !exit_success ==> (r matches Err(Error::Command(m))
                && m@ == start_failed_msg(self@.name)),
    {
        match validate_root_privileges(privileged) {
            Err(e) => Err(e),
            Ok(()) => {
                if !exit_success {
                    Err(Error::Command(
                        String::from_str("start '")
                            .concat(self.config.name.as_str())
                            .concat("' failed"),
                    ))
                } else {
                    Ok(())
                }
            },
        }
    }

    /// Classifies the daemon reload, which takes no unit argument.
    pub fn reload_systemd(privileged: bool, exit_success: bool) -> (r: Result<(), Error>)
        ensures
            !privileged ==> (r matches Err(Error::Permission(m)) && m@ == permission_msg()),
            privileged && exit_success ==> r is Ok,
            privileged && !exit_success ==> (r matches Err(Error::Command(m))
                && m@ == reload_failed_msg()),
    {
        match validate_root_privileges(privileged) {
            Err(e) => Err(e),
            Ok(()) => {
                if !exit_success {
                    Err(Error::Command(String::from_str("systemctl daemon-reload failed")))
                } else {
                    Ok(())
                }
            },
        }
    }

    /// The fixed install sequence: resolve the path (anti-clobber first),
    /// write, reload the daemon, enable. The first failure is returned
    /// unchanged and every later step is skipped.
    ///
    /// `write_error` is the platform's failure text for the file write,
    /// or `None` when the write succeeded; the exit flags report the two
    /// control-plane commands.
    pub fn install_and_enable(
        &self,
        privileged: bool,
        exists: bool,
        write_error: Option<String>,
        reload_exit_success: bool,
        enable_exit_success: bool,
    ) -> (r: Result<(), Error>)
        ensures
            exists ==> (r matches Err(Error::Io(m)) && m@ == exists_msg()),
            !exists && !privileged ==> (r matches Err(Error::Permission(m))
                && m@ == permission_msg()),
            !exists && privileged && write_error is Some ==> (r matches Err(Error::Io(m))
                && m@ == write_error->Some_0@),
            !exists && privileged && write_error is None && !reload_exit_success
                ==> (r matches Err(Error::Command(m)) && m@ == reload_failed_msg()),
            !exists && privileged && write_error is None && reload_exit_success
                && !enable_exit_success ==> (r matches Err(Error::Command(m))
                && m@ == enable_failed_msg(self@.name)),
            !exists && privileged && write_error is None && reload_exit_success
                && enable_exit_success ==> r is Ok,
    {
        let _path = match self.get_service_file_path(exists) {
            Err(e) => { return Err(e); },
            Ok(p) => p,
        };
        let _content = match self.write(privileged) {
            Err(e) => { return Err(e); },
            Ok(c) => c,
        };
        match write_error {
            Some(w) => { return Err(Error::Io(w)); },
            None => {},
        }
        match Self::reload_systemd(privileged, reload_exit_success) {
            Err(e) => { return Err(e); },
            Ok(()) => {},
        }
        match self.enable(privileged, enable_exit_success) {
            Err(e) => { return Err(e); },
            Ok(()) => {},
        }
        Ok(())
    }
}

} // verus!
