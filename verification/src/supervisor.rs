//! The flash supervisor: the files in scope, and whether a run is on.
//!
//! The supervisor is the single owner of a run. It records the file chosen
//! for each of three roles, permits a run only when all three are set and
//! no worker is held, and takes the worker back on cancellation.
//!
//! The stop flag reads `true` for "stop, or idle" and `false` for
//! "running". It is lowered only when a run starts and raised only by
//! [`EspTool::free_listen_handle`]: a run that ends by itself leaves the
//! flag lowered and the worker held until the supervisor is told to cancel.
//!
//! A run that may not start is refused with an error and changes nothing;
//! in particular a second run is never started beside a worker that is
//! still held.

use vstd::prelude::*;
use vstd::string::*;
use crate::arguments::{build_arguments, flash_arguments, push_text};
use crate::config::{default_settings, texts, Config, ConfigView};

verus! {

/// What the supervisor has to know of the machine it runs on.
#[derive(Debug)]
pub struct Host {
    /// Name of the operating system, such as `linux`.
    pub os: String,
    /// Name of the processor architecture, such as `x86_64`.
    pub arch: String,
    /// Whether programs carry the `.exe` extension.
    pub windows: bool,
}

/// Mathematical value of a [`Host`].
pub struct HostView {
    pub os: Seq<char>,
    pub arch: Seq<char>,
    pub windows: bool,
}

impl View for Host {
    type V = HostView;

    open spec fn view(&self) -> HostView {
        HostView { os: self.os@, arch: self.arch@, windows: self.windows }
    }
}

/// Name of the directory that holds the tool built for a platform.
pub open spec fn tool_directory(os: Seq<char>, arch: Seq<char>) -> Seq<char> {
    "esptool-"@ + os + "-"@ + arch
}

/// File name of the tool.
pub open spec fn tool_file(windows: bool) -> Seq<char> {
    if windows {
        "esptool.exe"@
    } else {
        "esptool"@
    }
}

/// Where the tool for `host` lies, as the path components below the
/// directory of the running program.
pub open spec fn tool_location(host: HostView) -> Seq<Seq<char>> {
    seq!["vendor"@, tool_directory(host.os, host.arch), tool_file(host.windows)]
}

/// Why a run was not started.
#[derive(Clone, Copy, Debug, PartialEq, Eq, Structural)]
pub enum RunError {
    /// One of the three files is not set.
    NotReady,
    /// A worker is still held: cancel first.
    AlreadyRunning,
}

/// What the embedding program has to spawn for a run that was started.
#[derive(Debug)]
pub struct Launch {
    /// Path components of the tool, below the directory of the running
    /// program.
    pub program: Vec<String>,
    /// The tool's argument vector.
    pub arguments: Vec<String>,
}

/// Mathematical value of an [`EspTool`].
pub struct EspToolView {
    /// Whether the supervisor holds a worker.
    pub worker_active: bool,
    pub bootloader_path: Seq<char>,
    pub partition_table: Seq<char>,
    pub firmware_path: Seq<char>,
    /// The stop flag: `true` asks the worker to stop.
    pub stop_flag: bool,
}

/// The state of a new supervisor: no file set, no worker, flag raised.
pub open spec fn fresh() -> EspToolView {
    EspToolView {
        worker_active: false,
        bootloader_path: Seq::empty(),
        partition_table: Seq::empty(),
        firmware_path: Seq::empty(),
        stop_flag: true,
    }
}

/// The state after `path` was registered for `role`. The roles are
/// `Bootloader`, `Partition Table` and `Firmware`; any other is ignored.
pub open spec fn registered(s: EspToolView, role: Seq<char>, path: Seq<char>) -> EspToolView {
    if role == "Bootloader"@ {
        EspToolView { bootloader_path: path, ..s }
    } else if role == "Partition Table"@ {
        EspToolView { partition_table: path, ..s }
    } else if role == "Firmware"@ {
        EspToolView { firmware_path: path, ..s }
    } else {
        s
    }
}

/// Whether all three files are set.
pub open spec fn ready(s: EspToolView) -> bool {
    s.bootloader_path.len() > 0 && s.partition_table.len() > 0 && s.firmware_path.len() > 0
}

/// Why a run may not start in state `s`; `None` where it may.
pub open spec fn start_refusal(s: EspToolView) -> Option<RunError> {
    if !ready(s) {
        Some(RunError::NotReady)
    } else if s.worker_active {
        Some(RunError::AlreadyRunning)
    } else {
        None
    }
}

/// The state after a run was started.
pub open spec fn started(s: EspToolView) -> EspToolView {
    EspToolView { worker_active: true, stop_flag: false, ..s }
}

/// The state after cancellation.
pub open spec fn cancelled(s: EspToolView) -> EspToolView {
    EspToolView { worker_active: false, stop_flag: true, ..s }
}

/// The flag is lowered exactly while a worker is held.
pub open spec fn consistent(s: EspToolView) -> bool {
    s.stop_flag == !s.worker_active
}

/// Whether `text` holds the characters of `literal`.
fn same_text(text: &String, literal: &str) -> (same: bool)
    ensures
        same == (text@ == literal@),
{
    *text == String::from_str(literal)
}

/// The flash supervisor.
#[derive(Debug)]
pub struct EspTool {
    worker_active: bool,
    bootloader_path: String,
    firmware_path: String,
    partition_table: String,
    stop_flag: bool,
}

impl View for EspTool {
    type V = EspToolView;

    closed spec fn view(&self) -> EspToolView {
        EspToolView {
            worker_active: self.worker_active,
            bootloader_path: self.bootloader_path@,
            partition_table: self.partition_table@,
            firmware_path: self.firmware_path@,
            stop_flag: self.stop_flag,
        }
    }
}

impl EspTool {
    /// A supervisor with no file set and no run on.
    pub fn new() -> (tool: Self)
        ensures
            tool@ == fresh(),
    {
        Self {
            worker_active: false,
            stop_flag: true,
            bootloader_path: String::new(),
            firmware_path: String::new(),
            partition_table: String::new(),
        }
    }

    /// Name of the directory that holds the tool built for the platform
    /// `os`, `arch`.
    pub fn get_current_esptool(&self, os: &str, arch: &str) -> (name: String)
        ensures
            name@ == tool_directory(os@, arch@),
    {
        let mut name = String::from_str("esptool-");
        name.append(os);
        name.append("-");
        name.append(arch);
        name
    }

    /// Records `filename` as the file for the role `file_type`. The last
    /// file registered for a role is the one that counts; a role that is
    /// not known is ignored. Always answers `true`.
    pub fn add_file_into_scope(&mut self, file_type: String, filename: String) -> (done: bool)
        ensures
            done,
            final(self)@ == registered(old(self)@, file_type@, filename@),
    {
        if same_text(&file_type, "Bootloader") {
            self.bootloader_path = filename;
        } else if same_text(&file_type, "Partition Table") {
            self.partition_table = filename;
        } else if same_text(&file_type, "Firmware") {
            self.firmware_path = filename;
        }
        true
    }

    /// Cancels: raises the stop flag and gives up the worker. Answers
    /// whether a worker was held, which the caller then has to wait for.
    /// With no worker held nothing changes but the flag, which is raised
    /// already in every state that the supervisor reaches by itself.
    pub fn free_listen_handle(&mut self) -> (join: bool)
        ensures
            join == old(self)@.worker_active,
            final(self)@ == cancelled(old(self)@),
    {
        let join = self.worker_active;
        self.stop_flag = true;
        self.worker_active = false;
        join
    }

    /// Where the tool for `host` lies: the path components below the
    /// directory of the running program.
    pub fn get_esptool_executor(&self, host: &Host) -> (path: Vec<String>)
        ensures
            texts(path@) == tool_location(host@),
    {
        let mut path: Vec<String> = Vec::new();
        assert(texts(path@) =~= Seq::<Seq<char>>::empty());
        let directory = self.get_current_esptool(host.os.as_str(), host.arch.as_str());
        push_text(&mut path, "vendor");
        push_text(&mut path, directory.as_str());
        if host.windows {
            push_text(&mut path, "esptool.exe");
        } else {
            push_text(&mut path, "esptool");
        }
        assert(texts(path@) =~= tool_location(host@));
        path
    }

    /// The settings of a run: the stored record where there is one, the
    /// default record where there is none.
    pub fn get_config(&self, stored: Option<Config>) -> (cfg: Config)
        ensures
            cfg@ == (match stored {
                Some(record) => record@,
                None => default_settings(),
            }),
    {
        match stored {
            Some(record) => record,
            None => Config::new(),
        }
    }

    /// Why a run may not start now; `None` where it may. A missing file is
    /// named before a worker that is still held.
    pub fn refusal(&self) -> (refusal: Option<RunError>)
        ensures
            refusal == start_refusal(self@),
    {
        if !self.is_ready() {
            Some(RunError::NotReady)
        } else if self.worker_active {
            Some(RunError::AlreadyRunning)
        } else {
            None
        }
    }

    /// Starts a run, if one may start: lowers the stop flag, takes note of
    /// the worker and says what to spawn. Otherwise says why not, and
    /// changes nothing.
    pub fn execute_and_listen(&mut self, host: &Host, config: &Config) -> (result: Result<
        Launch,
        RunError,
    >)
        ensures
            match result {
                Ok(launch) => {
                    &&& start_refusal(old(self)@) is None
                    &&& final(self)@ == started(old(self)@)
                    &&& texts(launch.program@) == tool_location(host@)
                    &&& texts(launch.arguments@) == flash_arguments(
                        config@,
                        old(self)@.bootloader_path,
                        old(self)@.partition_table,
                        old(self)@.firmware_path,
                    )
                },
                Err(error) => {
                    &&& start_refusal(old(self)@) == Some(error)
                    &&& final(self)@ == old(self)@
                },
            },
    {
        if let Some(error) = self.refusal() {
            return Err(error);
        }
        let program = self.get_esptool_executor(host);
        let arguments = build_arguments(
            config,
            self.bootloader_path.as_str(),
            self.partition_table.as_str(),
            self.firmware_path.as_str(),
        );
        self.stop_flag = false;
        self.worker_active = true;
        Ok(Launch { program, arguments })
    }

    /// Whether all three files are set.
    pub fn is_ready(&self) -> (yes: bool)
        ensures
            yes == ready(self@),
    {
        !self.bootloader_path.as_str().is_empty() && !self.partition_table.as_str().is_empty()
            && !self.firmware_path.as_str().is_empty()
    }

    /// The stop flag: `true` asks the worker to stop.
    pub fn stop_requested(&self) -> (flag: bool)
        ensures
            flag == self@.stop_flag,
    {
        self.stop_flag
    }

    /// Whether a worker is held.
    pub fn worker_active(&self) -> (active: bool)
        ensures
            active == self@.worker_active,
    {
        self.worker_active
    }

    /// The file registered as bootloader; empty where none is.
    pub fn bootloader_path(&self) -> (path: &str)
        ensures
            path@ == self@.bootloader_path,
    {
        self.bootloader_path.as_str()
    }

    /// The file registered as partition table; empty where none is.
    pub fn partition_table(&self) -> (path: &str)
        ensures
            path@ == self@.partition_table,
    {
        self.partition_table.as_str()
    }

    /// The file registered as firmware; empty where none is.
    pub fn firmware_path(&self) -> (path: &str)
        ensures
            path@ == self@.firmware_path,
    {
        self.firmware_path.as_str()
    }
}

/// Registering twice for one role keeps the second file only: the state is
/// the one that the second registration alone would have given.
pub proof fn law_register_overwrites(
    s: EspToolView,
    role: Seq<char>,
    first: Seq<char>,
    second: Seq<char>,
)
    ensures
        registered(registered(s, role, first), role, second) == registered(s, role, second),
{
}

/// Registering touches nothing but the file of its role: the flag and the
/// worker stay as they are.
pub proof fn law_register_keeps_run_state(s: EspToolView, role: Seq<char>, path: Seq<char>)
    ensures
        registered(s, role, path).stop_flag == s.stop_flag,
        registered(s, role, path).worker_active == s.worker_active,
{
}

/// A new supervisor is not ready after two registrations, whatever their
/// roles and files: at least one of the three files is still unset.
pub proof fn law_two_registrations_are_not_enough(
    role_a: Seq<char>,
    path_a: Seq<char>,
    role_b: Seq<char>,
    path_b: Seq<char>,
)
    ensures
        !ready(fresh()),
        !ready(registered(fresh(), role_a, path_a)),
        !ready(registered(registered(fresh(), role_a, path_a), role_b, path_b)),
{
}

/// A run starts only with all three files set and no worker held.
pub proof fn law_run_needs_every_file(s: EspToolView)
    ensures
        start_refusal(s) is None <==> ready(s) && !s.worker_active,
        !ready(s) ==> start_refusal(s) == Some(RunError::NotReady),
{
}

/// While a worker is held no second run starts: after a start every
/// further start is refused, until the supervisor is told to cancel.
pub proof fn law_no_second_worker(s: EspToolView, role: Seq<char>, path: Seq<char>)
    ensures
        start_refusal(started(s)) is Some,
        start_refusal(registered(started(s), role, path)) is Some,
        ready(s) ==> start_refusal(cancelled(started(s))) is None,
{
}

/// The flag is lowered exactly while a worker is held: this holds of a new
/// supervisor and is kept by every operation.
pub proof fn law_flag_follows_worker(s: EspToolView, role: Seq<char>, path: Seq<char>)
    ensures
        consistent(fresh()),
        consistent(s) ==> consistent(registered(s, role, path)),
        consistent(started(s)),
        consistent(cancelled(s)),
{
}

/// Cancelling with no worker held changes nothing.
pub proof fn law_cancel_when_idle_is_a_no_op(s: EspToolView)
    requires
        consistent(s),
        !s.worker_active,
    ensures
        cancelled(s) == s,
{
}

} // verus!
