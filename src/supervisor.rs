use vstd::prelude::*;

use crate::paths::{views_of, FsPath, PathModel};
use crate::pid_record::{parse_pid_record, pid_in_record, pid_record_text};
use crate::platform::Platform;
use crate::text::{decimal, decimal_text};

verus! {

/// An external command line: a program and its arguments.
#[derive(Debug)]
pub struct CommandLine {
    pub program: String,
    pub args: Vec<String>,
}

pub ghost struct CommandModel {
    pub program: Seq<char>,
    pub args: Seq<Seq<char>>,
}

impl View for CommandLine {
    type V = CommandModel;

    open spec fn view(&self) -> CommandModel {
        CommandModel { program: self.program@, args: views_of(self.args@) }
    }
}

pub open spec fn command_views(v: Seq<CommandLine>) -> Seq<CommandModel> {
    v.map_values(|c: CommandLine| c@)
}

/// The kill target that names the whole process group led by `pid`.
pub open spec fn group_target(pid: u32) -> Seq<char> {
    "-"@ + decimal(pid as nat)
}

/// How the process tree of `pid` is stopped: on POSIX a termination signal
/// and then, at once, a kill signal, both to the process group; on Windows
/// a forced kill of the whole tree.
pub open spec fn termination_commands(platform: Platform, pid: u32) -> Seq<CommandModel> {
    match platform {
        Platform::Posix => seq![
            CommandModel { program: "kill"@, args: seq!["-TERM"@, group_target(pid)] },
            CommandModel { program: "kill"@, args: seq!["-KILL"@, group_target(pid)] },
        ],
        Platform::Windows => seq![
            CommandModel {
                program: "taskkill"@,
                args: seq!["/PID"@, decimal(pid as nat), "/T"@, "/F"@],
            },
        ],
    }
}

fn strings2(a: &str, b: String) -> (r: Vec<String>)
    ensures
        views_of(r@) == seq![a@, b@],
{
    let mut v: Vec<String> = Vec::new();
    v.push(String::from_str(a));
    v.push(b);
    assert(views_of(v@) =~= seq![a@, b@]);
    v
}

/// The command lines that stop the process tree of `pid`, in order.
pub fn kill_commands(platform: Platform, pid: u32) -> (r: Vec<CommandLine>)
    ensures
        command_views(r@) == termination_commands(platform, pid),
{
    let mut cmds: Vec<CommandLine> = Vec::new();
    match platform {
        Platform::Posix => {
            let target = String::from_str("-").concat(decimal_text(pid as u64).as_str());
            let target2 = target.clone();
            cmds.push(CommandLine { program: String::from_str("kill"), args: strings2("-TERM", target) });
            cmds.push(CommandLine { program: String::from_str("kill"), args: strings2("-KILL", target2) });
        },
        Platform::Windows => {
            let mut args: Vec<String> = Vec::new();
            args.push(String::from_str("/PID"));
            args.push(decimal_text(pid as u64));
            args.push(String::from_str("/T"));
            args.push(String::from_str("/F"));
            assert(views_of(args@) =~= seq!["/PID"@, decimal(pid as nat), "/T"@, "/F"@]);
            cmds.push(CommandLine { program: String::from_str("taskkill"), args });
        },
    }
    assert(command_views(cmds@) =~= termination_commands(platform, pid));
    cmds
}

/// The bridge process the shell currently owns.
#[derive(Debug)]
pub struct BridgeProcess {
    pub pid: u32,
    /// Loopback port the process was told to bind.
    pub port: u16,
    pub executable: FsPath,
    pub log_path: FsPath,
}

pub ghost struct ProcessModel {
    pub pid: u32,
    pub port: u16,
    pub executable: PathModel,
    pub log_path: PathModel,
}

impl View for BridgeProcess {
    type V = ProcessModel;

    open spec fn view(&self) -> ProcessModel {
        ProcessModel {
            pid: self.pid,
            port: self.port,
            executable: self.executable@,
            log_path: self.log_path@,
        }
    }
}

/// Why a spawn may not go ahead.
#[derive(PartialEq, Eq, Structural, Clone, Copy, Debug)]
pub enum SupervisorError {
    /// The stale pid record has not been dealt with yet.
    RecoveryPending,
    /// A bridge process is already recorded as live.
    AlreadyRunning,
}

/// What to do to start the bridge: run `program` with `args`, with the
/// variable `log_var` set to `log_path`, both output streams going to the
/// log file.
#[derive(Debug)]
pub struct SpawnRequest {
    pub program: FsPath,
    pub args: Vec<String>,
    pub log_var: String,
    pub log_path: FsPath,
}

pub ghost struct SpawnModel {
    pub program: PathModel,
    pub args: Seq<Seq<char>>,
    pub log_var: Seq<char>,
    pub log_path: PathModel,
}

impl View for SpawnRequest {
    type V = SpawnModel;

    open spec fn view(&self) -> SpawnModel {
        SpawnModel {
            program: self.program@,
            args: views_of(self.args@),
            log_var: self.log_var@,
            log_path: self.log_path@,
        }
    }
}

/// The loopback address the bridge binds.
pub open spec fn loopback_host() -> Seq<char> {
    "127.0.0.1"@
}

/// The bridge's arguments: the host flag and the port flag.
pub open spec fn launch_args(port: u16) -> Seq<Seq<char>> {
    seq!["--host"@, loopback_host(), "--port"@, decimal(port as nat)]
}

pub open spec fn spawn_model(program: PathModel, port: u16, log_path: PathModel) -> SpawnModel {
    SpawnModel {
        program,
        args: launch_args(port),
        log_var: "MOTIONVIEW_LOG_PATH"@,
        log_path,
    }
}

/// What stopping the bridge takes: the command lines to run, whether a
/// child handle is left to reap (off the UI thread), and whether to remove
/// the pid record.
#[derive(Debug)]
pub struct TerminationPlan {
    pub kills: Vec<CommandLine>,
    pub reap: bool,
    pub remove_record: bool,
}

/// What the start-up recovery takes: the command lines that stop a stale
/// process tree, and whether to remove the pid record.
#[derive(Debug)]
pub struct RecoveryPlan {
    pub kills: Vec<CommandLine>,
    pub remove_record: bool,
}

/// The commands recovery runs for a pid record's content (none when there
/// is no record, or when it names no pid).
pub open spec fn recovery_kills(platform: Platform, record: Option<Seq<char>>) -> Seq<CommandModel> {
    match record {
        Some(content) => match pid_in_record(content) {
            Some(pid) => termination_commands(platform, pid),
            None => Seq::empty(),
        },
        None => Seq::empty(),
    }
}

/// Whether recovery removes the pid record: whenever there is one.
pub open spec fn recovery_removes(record: Option<Seq<char>>) -> bool {
    record is Some
}

pub ghost struct SupervisorModel {
    pub platform: Platform,
    pub recovered: bool,
    pub live: Option<ProcessModel>,
}

/// Whether a spawn may go ahead, and if not, why.
pub open spec fn spawn_gate(s: SupervisorModel) -> Option<SupervisorError> {
    if !s.recovered {
        Some(SupervisorError::RecoveryPending)
    } else if s.live is Some {
        Some(SupervisorError::AlreadyRunning)
    } else {
        None
    }
}

/// Owner of the single bridge-process slot. The termination strategy is
/// chosen once, by the platform given at construction.
pub struct Supervisor {
    platform: Platform,
    recovered: bool,
    live: Option<BridgeProcess>,
}

impl View for Supervisor {
    type V = SupervisorModel;

    closed spec fn view(&self) -> SupervisorModel {
        SupervisorModel {
            platform: self.platform,
            recovered: self.recovered,
            live: match self.live {
                Some(p) => Some(p@),
                None => None,
            },
        }
    }
}

impl Supervisor {
    /// A supervisor with no process and recovery still to do.
    pub fn new(platform: Platform) -> (r: Supervisor)
        ensures
            r@ == (SupervisorModel { platform, recovered: false, live: None }),
    {
        Supervisor { platform, recovered: false, live: None }
    }

    pub fn platform(&self) -> (r: Platform)
        ensures
            r == self@.platform,
    {
        self.platform
    }

    /// Whether a bridge process is recorded as live.
    pub fn is_running(&self) -> (r: bool)
        ensures
            r == self@.live is Some,
    {
        self.live.is_some()
    }

    /// The pid of the live bridge process, if any.
    pub fn live_pid(&self) -> (r: Option<u32>)
        ensures
            r == (match self@.live {
                Some(p) => Some(p.pid),
                None => None::<u32>,
            }),
    {
        match &self.live {
            Some(p) => Some(p.pid),
            None => None,
        }
    }

    /// The port of the live bridge process, if any.
    pub fn live_port(&self) -> (r: Option<u16>)
        ensures
            r == (match self@.live {
                Some(p) => Some(p.port),
                None => None::<u16>,
            }),
    {
        match &self.live {
            Some(p) => Some(p.port),
            None => None,
        }
    }

    /// Start-up recovery from a previous run, given the pid record's content
    /// (`None` when there is no record). A record naming a pid has that
    /// pid's process tree stopped; any record is removed, whether or not
    /// the stop succeeds. It runs once at start-up; afterwards a spawn is
    /// no longer held back for recovery.
    pub fn recover_stale(&mut self, record: &Option<String>) -> (plan: RecoveryPlan)
        ensures
            final(self)@ == (SupervisorModel { recovered: true, ..old(self)@ }),
            command_views(plan.kills@) == recovery_kills(
                old(self)@.platform,
                match record {
                    Some(c) => Some(c@),
                    None => None::<Seq<char>>,
                },
            ),
            plan.remove_record == recovery_removes(
                match record {
                    Some(c) => Some(c@),
                    None => None::<Seq<char>>,
                },
            ),
    {
        self.recovered = true;
        match record {
            Some(content) => {
                let kills = match parse_pid_record(content.as_str()) {
                    Some(pid) => kill_commands(self.platform, pid),
                    None => {
                        let v: Vec<CommandLine> = Vec::new();
                        assert(command_views(v@) =~= Seq::<CommandModel>::empty());
                        v
                    },
                };
                RecoveryPlan { kills, remove_record: true }
            },
            None => {
                let kills: Vec<CommandLine> = Vec::new();
                assert(command_views(kills@) =~= Seq::<CommandModel>::empty());
                RecoveryPlan { kills, remove_record: false }
            },
        }
    }

    fn gate(&self) -> (r: Option<SupervisorError>)
        ensures
            r == spawn_gate(self@),
    {
        if !self.recovered {
            Some(SupervisorError::RecoveryPending)
        } else if self.live.is_some() {
            Some(SupervisorError::AlreadyRunning)
        } else {
            None
        }
    }

    /// How to start the bridge at `executable` on `port`, logging to
    /// `log_path`; refused before recovery and while a process is live.
    pub fn begin_spawn(&self, executable: &FsPath, port: u16, log_path: &FsPath) -> (r: Result<
        SpawnRequest,
        SupervisorError,
    >)
        ensures
            match r {
                Ok(req) => spawn_gate(self@) is None && req@ == spawn_model(
                    executable@,
                    port,
                    log_path@,
                ),
                Err(e) => spawn_gate(self@) == Some(e),
            },
    {
        match self.gate() {
            Some(e) => Err(e),
            None => {
                let mut args: Vec<String> = Vec::new();
                args.push(String::from_str("--host"));
                args.push(String::from_str("127.0.0.1"));
                args.push(String::from_str("--port"));
                args.push(decimal_text(port as u64));
                assert(views_of(args@) =~= launch_args(port));
                Ok(
                    SpawnRequest {
                        program: executable.duplicate(),
                        args,
                        log_var: String::from_str("MOTIONVIEW_LOG_PATH"),
                        log_path: log_path.duplicate(),
                    },
                )
            },
        }
    }

    /// Records a process that was started, and returns the text to write
    /// to the pid record. Refused, with nothing changed, before recovery or
    /// while another process is live.
    pub fn record_spawn(&mut self, process: BridgeProcess) -> (r: Result<String, SupervisorError>)
        ensures
            match r {
                Ok(text) => spawn_gate(old(self)@) is None && final(self)@ == (SupervisorModel {
                    live: Some(process@),
                    ..old(self)@
                }) && text@ == decimal(process.pid as nat),
                Err(e) => spawn_gate(old(self)@) == Some(e) && final(self)@ == old(self)@,
            },
    {
        match self.gate() {
            Some(e) => Err(e),
            None => {
                let text = pid_record_text(process.pid);
                self.live = Some(process);
                Ok(text)
            },
        }
    }

    /// Takes the live process out of the slot and says how to stop it: its
    /// process tree is killed and the handle reaped, and the pid record is
    /// removed in every case. A second call finds nothing to stop.
    pub fn terminate(&mut self) -> (plan: TerminationPlan)
        ensures
            final(self)@ == (SupervisorModel { live: None, ..old(self)@ }),
            command_views(plan.kills@) == match old(self)@.live {
                Some(p) => termination_commands(old(self)@.platform, p.pid),
                None => Seq::<CommandModel>::empty(),
            },
            plan.reap == old(self)@.live is Some,
            plan.remove_record,
    {
        match self.live.take() {
            Some(p) => TerminationPlan {
                kills: kill_commands(self.platform, p.pid),
                reap: true,
                remove_record: true,
            },
            None => {
                let kills: Vec<CommandLine> = Vec::new();
                assert(command_views(kills@) =~= Seq::<CommandModel>::empty());
                TerminationPlan { kills, reap: false, remove_record: true }
            },
        }
    }
}

/// Recovery removes any pid record it is given and never fails: what it
/// does depends only on the record's content, not on whether the process it
/// names is still alive. With no record, it does nothing at all.
pub proof fn recovery_clears_any_record(platform: Platform, content: Seq<char>)
    ensures
        recovery_removes(Some(content)),
        recovery_kills(platform, Some(content)) == match pid_in_record(content) {
            Some(pid) => termination_commands(platform, pid),
            None => Seq::<CommandModel>::empty(),
        },
        !recovery_removes(None),
        recovery_kills(platform, None) == Seq::<CommandModel>::empty(),
{
}

/// A record naming a pid has that pid's whole process group stopped: on
/// POSIX a termination signal and then a kill signal, both addressed to the
/// negated pid.
pub proof fn recovery_stops_recorded_group(platform: Platform, content: Seq<char>, pid: u32)
    requires
        pid_in_record(content) == Some(pid),
    ensures
        recovery_kills(platform, Some(content)) == termination_commands(platform, pid),
        platform == Platform::Posix ==> {
            let cmds = recovery_kills(platform, Some(content));
            &&& cmds.len() == 2
            &&& cmds[0].args == seq!["-TERM"@, group_target(pid)]
            &&& cmds[1].args == seq!["-KILL"@, group_target(pid)]
        },
{
}

/// No spawn goes ahead before recovery has run.
pub proof fn spawn_waits_for_recovery(s: SupervisorModel)
    requires
        !s.recovered,
    ensures
        spawn_gate(s) == Some(SupervisorError::RecoveryPending),
{
}

/// While a process is recorded as live, no second one is started.
pub proof fn single_live_instance(s: SupervisorModel)
    requires
        s.live is Some,
    ensures
        spawn_gate(s) is Some,
{
}

/// On POSIX every stop command addresses the process group of the pid (the
/// pid negated), so children the process forked into its group are
/// stopped with it.
pub proof fn posix_stop_addresses_group(pid: u32)
    ensures
        forall|i: int|
            0 <= i < termination_commands(Platform::Posix, pid).len() ==> {
                let c = #[trigger] termination_commands(Platform::Posix, pid)[i];
                &&& c.program == "kill"@
                &&& c.args.last() == group_target(pid)
            },
        group_target(pid)[0] == '-',
        group_target(pid).drop_first() == decimal(pid as nat),
{
    reveal_strlit("-");
    assert(group_target(pid).drop_first() =~= decimal(pid as nat));
}

} // verus!
