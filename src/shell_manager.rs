//! Remote script execution.
//!
//! A script is launched detached on the host, its process is polled until
//! none is left, and the last line of the shared log is the run's result.
//! `ScriptRun` decides each command; the caller runs it over an
//! authenticated shell session and hands back its output.

use vstd::prelude::*;
use vstd::string::*;
use crate::config::SshConfig;
use crate::error::PSMError;
use crate::text::{blank_padded, is_padded_zero};

verus! {

/// A provisioning script installed on every instance.
#[derive(Debug, Clone, Copy, PartialEq, Eq, Structural)]
pub enum Script {
    /// install_server.sh
    InstallServer,
    /// restore_save.sh
    RestoreSave,
    /// start_server.sh
    StartServer,
    /// backup_save.sh
    BackupSave,
}

impl Script {
    pub open spec fn spec_file_name(self) -> Seq<char> {
        match self {
            Script::InstallServer => "install_server.sh"@,
            Script::RestoreSave => "restore_save.sh"@,
            Script::StartServer => "start_server.sh"@,
            Script::BackupSave => "backup_save.sh"@,
        }
    }

    /// The script's file name.
    pub fn file_name(&self) -> (r: &'static str)
        ensures
            r@ == self.spec_file_name(),
    {
        match self {
            Script::InstallServer => "install_server.sh",
            Script::RestoreSave => "restore_save.sh",
            Script::StartServer => "start_server.sh",
            Script::BackupSave => "backup_save.sh",
        }
    }
}

/// The log every script run appends to.
pub open spec fn spec_log_path() -> Seq<char> {
    "/tmp/shell_log.log"@
}

/// Seconds between two checks of a running script.
pub const CHECK_INTERVAL: u64 = 5;

/// The command that starts `script` in the background, as `user`, with its
/// output appended to the log.
pub open spec fn launch_command_spec(user: Seq<char>, script: Script) -> Seq<char> {
    "(sh /home/"@ + user + "/psm/scripts/"@ + script.spec_file_name() + " >> "@ + spec_log_path()
        + " 2>&1 &)"@
}

/// The command that prints how many processes of `script` are alive.
pub open spec fn poll_command_spec(script: Script) -> Seq<char> {
    "ps -ef | grep "@ + script.spec_file_name() + " | grep -v grep | wc -l"@
}

/// The command that prints the last line of the log.
pub open spec fn tail_command_spec() -> Seq<char> {
    "tail -n 1 "@ + spec_log_path()
}

/// The command that starts `script` in the background (see `launch_command_spec`).
pub fn launch_command(user: &str, script: Script) -> (r: String)
    ensures
        r@ == launch_command_spec(user@, script),
{
    let mut c = String::from_str("(sh /home/");
    c.append(user);
    c.append("/psm/scripts/");
    c.append(script.file_name());
    c.append(" >> ");
    c.append("/tmp/shell_log.log");
    c.append(" 2>&1 &)");
    c
}

/// The command that counts the live processes of `script`.
pub fn poll_command(script: Script) -> (r: String)
    ensures
        r@ == poll_command_spec(script),
{
    let mut c = String::from_str("ps -ef | grep ");
    c.append(script.file_name());
    c.append(" | grep -v grep | wc -l");
    c
}

/// The command that prints the last line of the log.
pub fn tail_command() -> (r: String)
    ensures
        r@ == tail_command_spec(),
{
    let mut c = String::from_str("tail -n 1 ");
    c.append("/tmp/shell_log.log");
    c
}

/// Runs scripts on instances as the configured SSH user.
#[derive(Debug, Clone)]
pub struct ShellManager {
    pub ssh_config: SshConfig,
}

impl ShellManager {
    pub fn new(ssh_config: SshConfig) -> (r: Self)
        ensures
            r.ssh_config.user@ == ssh_config.user@,
            r.ssh_config.prikey@ == ssh_config.prikey@,
    {
        Self { ssh_config }
    }

    /// A run of `script` as the configured user, not yet started.
    pub fn run(&self, script: Script) -> (r: ScriptRun)
        ensures
            r.user@ == self.ssh_config.user@,
            r.script == script,
            r.stage == RunStage::Launch,
    {
        ScriptRun { user: self.ssh_config.user.clone(), script, stage: RunStage::Launch }
    }
}

/// Where a script run stands.
#[derive(Debug, Clone, Copy, PartialEq, Eq, Structural)]
pub enum RunStage {
    /// Nothing sent yet.
    Launch,
    /// The launch command was sent; waiting for it to return.
    Launching,
    /// A process count was asked for.
    Polling,
    /// Waiting out the interval before the next count.
    Sleeping,
    /// The last log line was asked for.
    Fetching,
    /// The run has ended.
    Done,
}

/// A run of one script on one host.
#[derive(Debug, Clone)]
pub struct ScriptRun {
    pub user: String,
    pub script: Script,
    pub stage: RunStage,
}

/// What happened since the last action.
#[derive(Debug, PartialEq, Eq)]
pub enum ShellEvent {
    /// Begin the run.
    Start,
    /// The command's standard output, or why it could not be run.
    Output(Result<String, PSMError>),
    /// The requested pause is over.
    Slept,
}

/// What the caller must do next.
#[derive(Debug, PartialEq, Eq)]
pub enum ShellAction {
    /// Run this command in a new channel of the session and report its output.
    Exec(String),
    /// Pause this many seconds, then report `Slept`.
    Sleep(u64),
    /// The run is over: the last log line, or the failure.
    Finish(Result<String, PSMError>),
}

/// One step of a script run: from `pre` on event `e` to `post`, asking `a`.
/// Any failed command ends the run with that failure; an event that does
/// not fit the stage ends it too, with a remote-execution error.
pub open spec fn run_next(pre: ScriptRun, e: ShellEvent, post: ScriptRun, a: ShellAction) -> bool {
    &&& post.user@ == pre.user@
    &&& post.script == pre.script
    &&& match (pre.stage, e) {
        (RunStage::Launch, ShellEvent::Start) => post.stage == RunStage::Launching && (a matches ShellAction::Exec(
            c,
        ) && c@ == launch_command_spec(pre.user@, pre.script)),
        (RunStage::Launching, ShellEvent::Output(Ok(_))) | (RunStage::Sleeping, ShellEvent::Slept) =>
            post.stage == RunStage::Polling && (a matches ShellAction::Exec(c) && c@
            == poll_command_spec(pre.script)),
        (RunStage::Polling, ShellEvent::Output(Ok(count))) => if blank_padded(count@, seq!['0']) {
            post.stage == RunStage::Fetching && (a matches ShellAction::Exec(c) && c@
                == tail_command_spec())
        } else {
            post.stage == RunStage::Sleeping && a == ShellAction::Sleep(CHECK_INTERVAL)
        },
        (RunStage::Fetching, ShellEvent::Output(Ok(logs))) => post.stage == RunStage::Done && (a
            matches ShellAction::Finish(Ok(l)) && l@ == logs@),
        (_, ShellEvent::Output(Err(err))) => post.stage == RunStage::Done && a
            == ShellAction::Finish(Err(err)),
        _ => post.stage == RunStage::Done && a matches ShellAction::Finish(
            Err(PSMError::RemoteExecution(_)),
        ),
    }
}

impl ScriptRun {
    /// Advances the run on event `e` (see `run_next`).
    pub fn step(&mut self, e: ShellEvent) -> (a: ShellAction)
        ensures
            run_next(*old(self), e, *final(self), a),
    {
        match (self.stage, e) {
            (RunStage::Launch, ShellEvent::Start) => {
                self.stage = RunStage::Launching;
                ShellAction::Exec(launch_command(self.user.as_str(), self.script))
            },
            (RunStage::Launching, ShellEvent::Output(Ok(_))) | (
                RunStage::Sleeping,
                ShellEvent::Slept,
            ) => {
                self.stage = RunStage::Polling;
                ShellAction::Exec(poll_command(self.script))
            },
            (RunStage::Polling, ShellEvent::Output(Ok(count))) => {
                if is_padded_zero(count.as_str()) {
                    self.stage = RunStage::Fetching;
                    ShellAction::Exec(tail_command())
                } else {
                    self.stage = RunStage::Sleeping;
                    ShellAction::Sleep(CHECK_INTERVAL)
                }
            },
            (RunStage::Fetching, ShellEvent::Output(Ok(logs))) => {
                self.stage = RunStage::Done;
                ShellAction::Finish(Ok(logs))
            },
            (_, ShellEvent::Output(Err(err))) => {
                self.stage = RunStage::Done;
                ShellAction::Finish(Err(err))
            },
            _ => {
                self.stage = RunStage::Done;
                ShellAction::Finish(
                    Err(PSMError::RemoteExecution(String::from_str("unexpected shell event"))),
                )
            },
        }
    }
}

} // verus!
