//! The command that starts the backend, laid out before anything is spawned.

use vstd::prelude::*;
use vstd::string::StringExecFns;
use vstd::string::StrSliceExecFns;
use crate::paths::join;
use crate::paths::joined;
use crate::paths::parent;
use crate::paths::parent_of;

verus! {

/// The port the backend listens on, on the loopback interface. It is fixed:
/// the shell neither negotiates a port nor probes whether this one is free.
pub const BACKEND_PORT: u16 = 8123;

/// The environment variable that carries the data root to the backend.
pub const DATA_ROOT_VAR: &'static str = "DATA_ROOT";

/// The flag before the port.
pub const PORT_FLAG: &'static str = "--port";

/// The flag before the data root.
pub const DATA_ROOT_FLAG: &'static str = "--data-root";

/// The directory of the log files, under the data root.
pub const LOG_DIR: &'static str = "logs";

/// The file under the log directory that receives the backend's standard output.
pub const STDOUT_LOG: &'static str = "backend-stdout.log";

/// The file under the log directory that receives the backend's standard error.
pub const STDERR_LOG: &'static str = "backend-stderr.log";

/// The decimal digits, each at its own value.
pub const DIGITS: &'static str = "0123456789";

/// `n` written in decimal, without sign or leading zeros.
pub open spec fn decimal(n: nat) -> Seq<char>
    decreases n,
{
    if n < 10 {
        seq![DIGITS@[n as int]]
    } else {
        decimal(n / 10).push(DIGITS@[(n % 10) as int])
    }
}

/// The port as it stands on the command line.
pub fn port_text(port: u16) -> (text: String)
    ensures
        text@ == decimal(port as nat),
    decreases port,
{
    proof {
        reveal_strlit("0123456789");
    }
    let last: usize = (port % 10) as usize;
    let digit = DIGITS.substring_ascii(last, last + 1);
    if port < 10 {
        String::from_str(digit)
    } else {
        let mut text = port_text(port / 10);
        text.append(digit);
        text
    }
}

/// Everything a spawn needs, resolved. It is laid out once for a launch and
/// not changed afterwards.
#[derive(Debug, PartialEq, Eq)]
pub struct LaunchSpec {
    /// The backend executable.
    pub executable: String,
    /// The directory the backend runs in: the one that holds the executable,
    /// so that the backend finds what lies beside it. `None` where the
    /// executable's path names no directory.
    pub working_dir: Option<String>,
    /// The data root.
    pub data_root: String,
    /// The directory of the two log files.
    pub log_dir: String,
    /// The file that the backend's standard output goes to.
    pub stdout_log: String,
    /// The file that the backend's standard error goes to.
    pub stderr_log: String,
    /// The name of the environment variable set for the backend.
    pub env_name: String,
    /// Its value: the data root.
    pub env_value: String,
    /// The port the backend is told to listen on.
    pub port: u16,
    /// The arguments after the executable's name.
    pub args: Vec<String>,
}

/// A `LaunchSpec` as mathematics sees it: text as sequences of characters.
pub struct LaunchSpecView {
    pub executable: Seq<char>,
    pub working_dir: Option<Seq<char>>,
    pub data_root: Seq<char>,
    pub log_dir: Seq<char>,
    pub stdout_log: Seq<char>,
    pub stderr_log: Seq<char>,
    pub env_name: Seq<char>,
    pub env_value: Seq<char>,
    pub port: u16,
    pub args: Seq<Seq<char>>,
}

impl LaunchSpecView {
    /// The command for an executable, a data root and a port:
    /// `<executable> --port <port> --data-root <data root>`, run beside the
    /// executable, with the data root in the environment too, and with both
    /// output streams sent to files under `<data root>/logs`.
    pub open spec fn laid_out(executable: Seq<char>, data_root: Seq<char>, port: u16) -> Self {
        LaunchSpecView {
            executable,
            working_dir: parent_of(executable),
            data_root,
            log_dir: joined(data_root, LOG_DIR@),
            stdout_log: joined(joined(data_root, LOG_DIR@), STDOUT_LOG@),
            stderr_log: joined(joined(data_root, LOG_DIR@), STDERR_LOG@),
            env_name: DATA_ROOT_VAR@,
            env_value: data_root,
            port,
            args: seq![PORT_FLAG@, decimal(port as nat), DATA_ROOT_FLAG@, data_root],
        }
    }
}

impl View for LaunchSpec {
    type V = LaunchSpecView;

    open spec fn view(&self) -> LaunchSpecView {
        LaunchSpecView {
            executable: self.executable@,
            working_dir: self.working_dir.deep_view(),
            data_root: self.data_root@,
            log_dir: self.log_dir@,
            stdout_log: self.stdout_log@,
            stderr_log: self.stderr_log@,
            env_name: self.env_name@,
            env_value: self.env_value@,
            port: self.port,
            args: self.args.deep_view(),
        }
    }
}

impl LaunchSpec {
    /// Every part is the one that follows from the executable, the data root
    /// and the port.
    pub open spec fn wf(&self) -> bool {
        self@ == LaunchSpecView::laid_out(self.executable@, self.data_root@, self.port)
    }

    /// Lays out the command for an executable, a data root and a port.
    pub fn new(executable: String, data_root: String, port: u16) -> (plan: LaunchSpec)
        ensures
            plan@ == LaunchSpecView::laid_out(executable@, data_root@, port),
            plan.wf(),
    {
        let working_dir = parent(executable.as_str());
        let log_dir = join(data_root.as_str(), LOG_DIR);
        let stdout_log = join(log_dir.as_str(), STDOUT_LOG);
        let stderr_log = join(log_dir.as_str(), STDERR_LOG);
        let mut args: Vec<String> = Vec::new();
        args.push(String::from_str(PORT_FLAG));
        args.push(port_text(port));
        args.push(String::from_str(DATA_ROOT_FLAG));
        args.push(data_root.clone());
        assert(args.deep_view() =~= seq![
            PORT_FLAG@,
            decimal(port as nat),
            DATA_ROOT_FLAG@,
            data_root@,
        ]);
        LaunchSpec {
            executable,
            working_dir,
            env_name: String::from_str(DATA_ROOT_VAR),
            env_value: data_root.clone(),
            data_root,
            log_dir,
            stdout_log,
            stderr_log,
            port,
            args,
        }
    }
}

} // verus!
