//! Socket configuration: where the control and progress sockets live, and
//! how long to wait when connecting.
//!
//! Paths are held as strings. Finding the default directory reads the
//! environment and the file system; the caller does that and passes what it
//! found to [`SocketConfig::from_environment`].

use vstd::prelude::*;

use crate::text::{chars_of, push_char};

verus! {

/// Default socket name for the control interface.
pub const CTRL_SOCKET_NAME: &'static str = "sockinstctrl";

/// Default socket name for the progress interface.
pub const PROGRESS_SOCKET_NAME: &'static str = "swupdateprog";

/// Default connection timeout, in seconds.
pub const DEFAULT_CONNECT_TIMEOUT_SECS: u64 = 10;

/// The `Duration` that `Duration::from_secs(secs)` makes.
pub uninterp spec fn secs_duration(secs: u64) -> std::time::Duration;

/// `Duration::from_secs`. Its result is named by `secs_duration`: the same
/// number of seconds gives the same duration. Nothing else is stated of a
/// `Duration`, which the proofs only carry.
#[verifier::external_body]
pub fn duration_from_secs(secs: u64) -> (d: std::time::Duration)
    ensures
        d == secs_duration(secs),
{
    std::time::Duration::from_secs(secs)
}

/// `Duration::clone`: `Duration` is `Copy`, so the clone is the value itself.
pub assume_specification[ <std::time::Duration as Clone>::clone ](d: &std::time::Duration) -> (r:
    std::time::Duration)
    ensures
        r == *d,
;

/// Unix path joining (`Path::join` with a relative or absolute `p`): an
/// absolute `p` replaces `base`; otherwise a `/` separates them unless `base`
/// is empty or already ends with one.
pub open spec fn path_join(base: Seq<char>, p: Seq<char>) -> Seq<char> {
    if p.len() > 0 && p[0] == '/' {
        p
    } else if base.len() > 0 && base.last() != '/' {
        base + seq!['/'] + p
    } else {
        base + p
    }
}

/// Joins `p` onto `base`.
pub fn join_path(base: &str, p: &str) -> (r: String)
    ensures
        r@ == path_join(base@, p@),
{
    let pc = chars_of(p);
    if pc.len() > 0 && pc[0] == '/' {
        return String::from_str(p);
    }
    let bc = chars_of(base);
    let mut r = String::from_str(base);
    if bc.len() > 0 && bc[bc.len() - 1] != '/' {
        push_char(&mut r, '/');
    }
    r.append(p);
    r
}

/// The directory that holds SWUpdate's sockets, in SWUpdate's order of
/// priority: `RUNTIME_DIRECTORY`, then `TMPDIR`, then `/run/swupdate` if it
/// exists, then `/tmp`.
pub open spec fn socket_dir(runtime_dir: Option<&str>, tmpdir: Option<&str>, run_dir_exists: bool) -> Seq<char> {
    match runtime_dir {
        Some(d) => d@,
        None => match tmpdir {
            Some(d) => d@,
            None => if run_dir_exists {
                "/run/swupdate"@
            } else {
                "/tmp"@
            },
        },
    }
}

/// SWUpdate's order of priority for the socket directory: `RUNTIME_DIRECTORY`
/// whenever it is set; otherwise `TMPDIR` whenever it is set; otherwise
/// `/run/swupdate` when it exists and `/tmp` when it does not. The sockets in
/// it are named `sockinstctrl` and `swupdateprog`, and a connection attempt
/// is given 10 seconds.
pub proof fn law_socket_dir_priority(runtime_dir: Option<&str>, tmpdir: Option<&str>, run_dir_exists: bool)
    ensures
        runtime_dir matches Some(d) ==> socket_dir(runtime_dir, tmpdir, run_dir_exists) == d@,
        runtime_dir is None ==> (tmpdir matches Some(t) ==> socket_dir(
            runtime_dir,
            tmpdir,
            run_dir_exists,
        ) == t@),
        (runtime_dir is None && tmpdir is None && run_dir_exists) ==> socket_dir(
            runtime_dir,
            tmpdir,
            run_dir_exists,
        ) == "/run/swupdate"@,
        (runtime_dir is None && tmpdir is None && !run_dir_exists) ==> socket_dir(
            runtime_dir,
            tmpdir,
            run_dir_exists,
        ) == "/tmp"@,
        CTRL_SOCKET_NAME@ == "sockinstctrl"@,
        PROGRESS_SOCKET_NAME@ == "swupdateprog"@,
        DEFAULT_CONNECT_TIMEOUT_SECS == 10,
{
}

/// Resolve the socket path following SWUpdate's priority order:
///
/// 1. `RUNTIME_DIRECTORY` env var
/// 2. `TMPDIR` env var
/// 3. `/run/swupdate` (if it exists)
/// 4. `/tmp` (fallback)
pub fn resolve_socket_path(
    runtime_dir: Option<&str>,
    tmpdir: Option<&str>,
    run_dir_exists: bool,
    socket_name: &str,
) -> (r: String)
    ensures
        r@ == path_join(socket_dir(runtime_dir, tmpdir, run_dir_exists), socket_name@),
{
    match runtime_dir {
        Some(dir) => join_path(dir, socket_name),
        None => match tmpdir {
            Some(dir) => join_path(dir, socket_name),
            None => if run_dir_exists {
                join_path("/run/swupdate", socket_name)
            } else {
                join_path("/tmp", socket_name)
            },
        },
    }
}

/// Configuration for connecting to SWUpdate sockets.
#[derive(Debug, Clone)]
pub struct SocketConfig {
    pub ctrl_path: String,
    pub progress_path: String,
    pub connect_timeout: std::time::Duration,
}

impl SocketConfig {
    /// The default configuration, given what the environment holds: sockets
    /// under the directory `socket_dir` picks, a 10 second timeout.
    pub fn from_environment(runtime_dir: Option<&str>, tmpdir: Option<&str>, run_dir_exists: bool) -> (c: Self)
        ensures
            c.ctrl_path@ == path_join(socket_dir(runtime_dir, tmpdir, run_dir_exists), CTRL_SOCKET_NAME@),
            c.progress_path@ == path_join(
                socket_dir(runtime_dir, tmpdir, run_dir_exists),
                PROGRESS_SOCKET_NAME@,
            ),
            c.connect_timeout == secs_duration(DEFAULT_CONNECT_TIMEOUT_SECS),
    {
        SocketConfig {
            ctrl_path: resolve_socket_path(runtime_dir, tmpdir, run_dir_exists, CTRL_SOCKET_NAME),
            progress_path: resolve_socket_path(
                runtime_dir,
                tmpdir,
                run_dir_exists,
                PROGRESS_SOCKET_NAME,
            ),
            connect_timeout: duration_from_secs(DEFAULT_CONNECT_TIMEOUT_SECS),
        }
    }

    /// Override the control socket path.
    pub fn ctrl_path(self, path: &str) -> (c: Self)
        ensures
            c.ctrl_path@ == path@,
            c.progress_path == self.progress_path,
            c.connect_timeout == self.connect_timeout,
    {
        let mut c = self;
        c.ctrl_path = String::from_str(path);
        c
    }

    /// Override the progress socket path.
    pub fn progress_path(self, path: &str) -> (c: Self)
        ensures
            c.progress_path@ == path@,
            c.ctrl_path == self.ctrl_path,
            c.connect_timeout == self.connect_timeout,
    {
        let mut c = self;
        c.progress_path = String::from_str(path);
        c
    }

    /// Set the connection timeout.
    pub fn connect_timeout(self, timeout: std::time::Duration) -> (c: Self)
        ensures
            c.connect_timeout == timeout,
            c.ctrl_path == self.ctrl_path,
            c.progress_path == self.progress_path,
    {
        let mut c = self;
        c.connect_timeout = timeout;
        c
    }

    /// Get the resolved control socket path.
    pub fn ctrl_socket_path(&self) -> (p: &str)
        ensures
            p@ == self.ctrl_path@,
    {
        self.ctrl_path.as_str()
    }

    /// Get the resolved progress socket path.
    pub fn progress_socket_path(&self) -> (p: &str)
        ensures
            p@ == self.progress_path@,
    {
        self.progress_path.as_str()
    }

    /// Get the connection timeout.
    pub fn timeout(&self) -> (t: std::time::Duration)
        ensures
            t == self.connect_timeout,
    {
        self.connect_timeout
    }
}

/// Applies the command line's socket path overrides to a configuration.
pub fn build_config(config: SocketConfig, ctrl_socket: Option<&str>, progress_socket: Option<&str>) -> (c: SocketConfig)
    ensures
        c.ctrl_path@ == (match ctrl_socket {
            Some(p) => p@,
            None => config.ctrl_path@,
        }),
        c.progress_path@ == (match progress_socket {
            Some(p) => p@,
            None => config.progress_path@,
        }),
        c.connect_timeout == config.connect_timeout,
{
    let mut config = config;
    if let Some(path) = ctrl_socket {
        config = config.ctrl_path(path);
    }
    if let Some(path) = progress_socket {
        config = config.progress_path(path);
    }
    config
}

} // verus!
