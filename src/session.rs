//! The state shared by the front end's commands, and the decisions made
//! around one run of the agent: its arguments and environment, what is
//! reported when it ends, and how it is stopped.

use vstd::prelude::*;
use crate::paths::{nonempty_output, output_text, Platform};
use crate::text::{opt_view, trim, trimmed, views};

verus! {

/// A message of the chat between the user and the agent.
#[derive(Debug)]
pub struct ChatMessage {
    pub role: String,
    pub content: String,
    pub agent: Option<String>,
    pub timestamp: u64,
}

/// The state kept between commands: the open project, and the process id of
/// the agent run in progress, if any.
#[derive(Debug)]
pub struct AppState {
    pub project_dir: Option<String>,
    pub child_pid: Option<u32>,
}

impl AppState {
    /// No project open, no run in progress.
    pub fn new() -> (r: Self)
        ensures
            r.project_dir is None,
            r.child_pid is None,
    {
        AppState { project_dir: None, child_pid: None }
    }

    /// The open project's directory.
    pub fn project_dir(&self) -> (r: Option<String>)
        ensures
            r == self.project_dir,
    {
        self.project_dir.clone()
    }

    /// The open project's directory, which a command that works on the
    /// project needs.
    pub fn require_project_dir(&self) -> (r: Result<String, String>)
        ensures
            match self.project_dir {
                Some(d) => r == Ok::<String, String>(d),
                None => r matches Err(e) && e@ == "No project directory set"@,
            },
    {
        match &self.project_dir {
            Some(d) => Ok(d.clone()),
            None => Err(String::from_str("No project directory set")),
        }
    }

    /// Opens `path` as the project, if it is a directory.
    pub fn set_project_dir(&mut self, path: String, is_dir: bool) -> (r: Result<(), String>)
        ensures
            is_dir ==> r is Ok && final(self).project_dir == Some(path) && final(self).child_pid
                == old(self).child_pid,
            !is_dir ==> (r matches Err(e) && e@ == "Path is not a directory"@),
            !is_dir ==> *final(self) == *old(self),
    {
        if !is_dir {
            return Err(String::from_str("Path is not a directory"));
        }
        self.project_dir = Some(path);
        Ok(())
    }

    /// Opens a project that was just created at `path`.
    pub fn open_project(&mut self, path: String)
        ensures
            final(self).project_dir == Some(path),
            final(self).child_pid == old(self).child_pid,
    {
        self.project_dir = Some(path);
    }

    /// Records the process id of a run that started, when it is known.
    pub fn track_child(&mut self, pid: Option<u32>)
        ensures
            final(self).project_dir == old(self).project_dir,
            final(self).child_pid == (if pid is Some { pid } else { old(self).child_pid }),
    {
        if pid.is_some() {
            self.child_pid = pid;
        }
    }

    /// Forgets the run, which has ended.
    pub fn clear_child(&mut self)
        ensures
            final(self).project_dir == old(self).project_dir,
            final(self).child_pid is None,
    {
        self.child_pid = None;
    }

    /// Takes the process id of the run to stop; there must be one.
    pub fn take_child_pid(&mut self) -> (r: Result<u32, String>)
        ensures
            final(self).project_dir == old(self).project_dir,
            final(self).child_pid is None,
            match old(self).child_pid {
                Some(pid) => r == Ok::<u32, String>(pid),
                None => r matches Err(e) && e@ == "No running process to stop"@,
            },
    {
        match self.child_pid.take() {
            Some(pid) => Ok(pid),
            None => Err(String::from_str("No running process to stop")),
        }
    }
}

/// The target of the termination signal for the run with process id `pid`:
/// its whole process group, named by the negated id. There is none for an id
/// of zero, which names the caller's own group, nor for one that does not fit
/// a signed 32-bit id.
pub fn process_group_target(pid: u32) -> (r: Option<i32>)
    ensures
        match r {
            Some(t) => 0 < pid <= i32::MAX && t == -(pid as int),
            None => pid == 0 || pid > i32::MAX,
        },
{
    if pid == 0 || pid > 0x7fff_ffff {
        None
    } else {
        let p = pid as i32;
        Some(-p)
    }
}

/// Whether the agent's binary was found, where, and which version it reports.
#[derive(Debug)]
pub struct ClaudeInstallStatus {
    pub installed: bool,
    pub version: Option<String>,
    pub path: Option<String>,
}

/// The installation status for the binary found at `path`, if any, given
/// whether `--version` ran (`None` if it could not be started) and, if so,
/// whether it succeeded and what it printed.
pub fn install_status(path: Option<String>, version_run: Option<(bool, String)>) -> (r:
    ClaudeInstallStatus)
    ensures
        match path {
            None => !r.installed && r.version is None && r.path is None,
            Some(p) => r.installed && r.path == Some(p) && opt_view(r.version) == match version_run {
                Some(run) => output_text(run.0, run.1@),
                None => None,
            },
        },
{
    match path {
        None => ClaudeInstallStatus { installed: false, version: None, path: None },
        Some(p) => {
            let version = match version_run {
                Some(run) => nonempty_output(run.0, run.1.as_str()),
                None => None,
            };
            ClaudeInstallStatus { installed: true, version, path: Some(p) }
        },
    }
}

/// The program that installs the agent from the site `site`, and its
/// arguments: the site's install script, piped into a shell.
pub open spec fn installer_of(p: Platform, site: Seq<char>) -> (Seq<char>, Seq<Seq<char>>) {
    if p == Platform::Windows {
        (
            "powershell"@,
            seq![
                "-NoProfile"@,
                "-ExecutionPolicy"@,
                "Bypass"@,
                "-Command"@,
                "irm "@ + site + "/install.ps1 | iex"@,
            ],
        )
    } else {
        ("sh"@, seq!["-c"@, "curl -fsSL "@ + site + "/install.sh | sh"@])
    }
}

/// The command that runs the official installer on platform `p`.
pub fn installer_command(p: Platform, site: &str) -> (r: (String, Vec<String>))
    ensures
        (r.0@, views(r.1@)) == installer_of(p, site@),
{
    if p == Platform::Windows {
        let script = String::from_str("irm ").concat(site).concat("/install.ps1 | iex");
        let args = vec![
            String::from_str("-NoProfile"),
            String::from_str("-ExecutionPolicy"),
            String::from_str("Bypass"),
            String::from_str("-Command"),
            script,
        ];
        assert(views(args@) =~= installer_of(p, site@).1);
        (String::from_str("powershell"), args)
    } else {
        let script = String::from_str("curl -fsSL ").concat(site).concat("/install.sh | sh");
        let args = vec![String::from_str("-c"), script];
        assert(views(args@) =~= installer_of(p, site@).1);
        (String::from_str("sh"), args)
    }
}

/// What an installation comes to: the installer must succeed, and the
/// agent (shown to the user as `product`) must then be found.
pub open spec fn install_outcome_of(
    exit_success: bool,
    stderr: Seq<char>,
    installed: bool,
    version: Option<Seq<char>>,
    product: Seq<char>,
) -> Result<Seq<char>, Seq<char>> {
    if !exit_success {
        Err(
            if trimmed(stderr).len() == 0 {
                "Installation failed. Please try manual installation."@
            } else {
                trimmed(stderr)
            },
        )
    } else if !installed {
        Err(
            "Installation completed but "@ + product
                + " was not found. You may need to restart the app."@,
        )
    } else {
        Ok(
            product + " installed successfully! ("@ + match version {
                Some(v) => v,
                None => "unknown version"@,
            } + ")"@,
        )
    }
}

/// The result of an installation: the final progress line on success, the
/// error to report otherwise. `stderr` is what the installer wrote to its
/// error stream, and `check` the status found after it exited.
pub fn install_outcome(
    exit_success: bool,
    stderr: &str,
    check: &ClaudeInstallStatus,
    product: &str,
) -> (r: Result<String, String>)
    ensures
        match r {
            Ok(line) => install_outcome_of(
                exit_success,
                stderr@,
                check.installed,
                opt_view(check.version),
                product@,
            ) == Ok::<Seq<char>, Seq<char>>(line@),
            Err(e) => install_outcome_of(
                exit_success,
                stderr@,
                check.installed,
                opt_view(check.version),
                product@,
            ) == Err::<Seq<char>, Seq<char>>(e@),
        },
{
    if !exit_success {
        let t = trim(stderr);
        if t.is_empty() {
            return Err(String::from_str("Installation failed. Please try manual installation."));
        }
        return Err(String::from_str(t));
    }
    if !check.installed {
        return Err(
            String::from_str("Installation completed but ").concat(product).concat(
                " was not found. You may need to restart the app.",
            ),
        );
    }
    let mut line = String::from_str(product).concat(" installed successfully! (");
    match &check.version {
        Some(v) => line.append(v.as_str()),
        None => line.append("unknown version"),
    }
    line.append(")");
    Ok(line)
}

} // verus!
