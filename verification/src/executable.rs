//! The life of one managed process, as decisions.
//!
//! An [`Executable`] never touches the operating system. Each operation takes
//! what its driver observed (a probe of the process, the outcome of a spawn,
//! the time that has passed) and answers with what holds now and what the
//! driver is to do next.
//!
//! - To start the process, the driver asks [`Executable::start`] for the
//!   command, spawns it with its streams piped, captures each output stream
//!   to its end in a unit of its own, and reports to
//!   [`Executable::launched`].
//! - To feed the process, it asks [`Executable::write_stdin`], writes, and
//!   reports to [`Executable::written`].
//! - To wait for the process, it hands [`Executable::wait`] one observation
//!   after the other, sleeping in between as told, until the wait is over;
//!   where the wait tells it to kill, it reports to [`Executable::expired`].
//! - To kill the process, it sends the signal and reports to
//!   [`Executable::kill`].
//!
//! An executable holds one process at most. A value that is discarded while
//! [`Executable::is_running`] holds is to be killed by its driver.

use std::path::PathBuf;
use vstd::prelude::*;

use crate::error::{IoFailure, TesterError};
use crate::time::TimeSpan;

verus! {

/// Seconds that a process may run when no other timeout is set.
pub const DEFAULT_TIMEOUT_SECS: u64 = 10;

/// Milliseconds between two probes of a process that is being waited for.
pub const POLL_INTERVAL_MILLIS: u64 = 100;

/// The permission bits that let anyone execute a file.
pub const EXECUTE_BITS: u32 = 0o111;

/// How a process ended: its exit code, if it exited with one.
#[derive(Debug, Clone, Copy, PartialEq, Eq)]
pub struct ExitStatus {
    pub code: Option<i32>,
}

impl ExitStatus {
    /// Whether the process exited with code zero.
    pub fn success(&self) -> (ok: bool)
        ensures
            ok <==> self.code == Some(0i32),
    {
        match self.code {
            Some(code) => code == 0,
            None => false,
        }
    }
}

/// What the file system reported about the path of the program under test.
#[derive(Debug, PartialEq, Eq)]
pub enum FileProbe {
    /// Nothing exists at the path.
    Missing,
    /// Something exists at the path, but its metadata could not be read.
    Unreadable(IoFailure),
    /// A file exists, with these permission bits where the platform has them.
    Found { mode: Option<u32> },
}

/// What a non-blocking status check of the held process reported.
#[derive(Debug, PartialEq, Eq)]
pub enum Probe {
    /// The process has not exited.
    Running,
    /// The process has exited.
    Exited(ExitStatus),
    /// The status could not be read.
    Failed(IoFailure),
}

/// The command that starts the program under test. Its three standard
/// streams are to be piped.
#[derive(Debug, PartialEq, Eq)]
pub struct Launch {
    pub program: PathBuf,
    pub args: Vec<String>,
    pub working_dir: Option<PathBuf>,
}

/// What became of a [`Launch`]. `P` is whatever the driver keeps to reach the
/// process later.
#[derive(Debug, PartialEq, Eq)]
pub enum LaunchOutcome<P> {
    /// The operating system did not start the process.
    SpawnFailed(String),
    /// The process started, but its standard output cannot be read.
    StdoutUnavailable,
    /// The process started, but its standard error cannot be read.
    StderrUnavailable,
    /// The process runs, and both of its output streams are being captured.
    Spawned(P),
}

/// What became of an attempt to write to the standard input of the process.
#[derive(Debug, PartialEq, Eq)]
pub enum WriteOutcome {
    /// All bytes were written.
    Written,
    /// The process has no standard input to write to.
    StdinUnavailable,
    /// The write failed.
    Failed(String),
}

/// One of the two output streams of a process.
#[derive(Debug, Clone, Copy, PartialEq, Eq)]
pub enum Stream {
    Stdout,
    Stderr,
}

/// Everything that one output stream delivered before it ended, as the one
/// message that its capture sends.
#[derive(Debug, PartialEq, Eq)]
pub struct Captured {
    pub stream: Stream,
    pub bytes: Vec<u8>,
}

/// What the driver observed of a process that is being waited for.
#[derive(Debug, PartialEq, Eq)]
pub enum Poll {
    /// The process has not exited, `elapsed` after the wait began.
    Running { elapsed: TimeSpan },
    /// The process has exited. `captured` holds the messages that were ready
    /// at that moment, oldest first.
    Exited { status: ExitStatus, captured: Vec<Captured> },
    /// The status could not be read.
    Failed(IoFailure),
}

/// What a finished process left behind.
#[derive(Debug, PartialEq, Eq)]
pub struct Output {
    pub stdout: Vec<u8>,
    pub stderr: Vec<u8>,
    pub status: ExitStatus,
}

/// What the driver of a wait is to do next.
#[derive(Debug, PartialEq, Eq)]
pub enum WaitStep {
    /// The wait is over.
    Finished(Output),
    /// Sleep this long, then observe the process again.
    Sleep(TimeSpan),
    /// The timeout has passed: kill the process and report the outcome to
    /// [`Executable::expired`].
    Kill,
}

/// The bytes of the newest message of `stream` among `captured`, or nothing
/// where the stream sent none.
pub open spec fn newest(captured: Seq<Captured>, stream: Stream) -> Seq<u8>
    decreases captured.len(),
{
    if captured.len() == 0 {
        Seq::empty()
    } else if captured.last().stream == stream {
        captured.last().bytes@
    } else {
        newest(captured.drop_last(), stream)
    }
}

/// Splits what was captured into standard output and standard error, keeping
/// for each stream the newest message.
pub fn collect_output(captured: Vec<Captured>) -> (buffers: (Vec<u8>, Vec<u8>))
    ensures
        buffers.0@ == newest(captured@, Stream::Stdout),
        buffers.1@ == newest(captured@, Stream::Stderr),
{
    let ghost all: Seq<Captured> = captured@;
    let mut rest: Vec<Captured> = captured;
    let mut stdout: Option<Vec<u8>> = None;
    let mut stderr: Option<Vec<u8>> = None;
    while rest.len() > 0
        invariant
            newest(all, Stream::Stdout) == match stdout {
                Some(bytes) => bytes@,
                None => newest(rest@, Stream::Stdout),
            },
            newest(all, Stream::Stderr) == match stderr {
                Some(bytes) => bytes@,
                None => newest(rest@, Stream::Stderr),
            },
        decreases rest@.len(),
    {
        let message: Option<Captured> = rest.pop();
        if let Some(message) = message {
            match message.stream {
                Stream::Stdout => {
                    if stdout.is_none() {
                        stdout = Some(message.bytes);
                    }
                },
                Stream::Stderr => {
                    if stderr.is_none() {
                        stderr = Some(message.bytes);
                    }
                },
            }
        }
    }
    let out: Vec<u8> = match stdout {
        Some(bytes) => bytes,
        None => Vec::new(),
    };
    let err: Vec<u8> = match stderr {
        Some(bytes) => bytes,
        None => Vec::new(),
    };
    (out, err)
}

/// The state of an [`Executable`].
pub struct ExecutableView<P> {
    /// Where the program is.
    pub path: PathBuf,
    /// How long a wait for the process may take.
    pub timeout: TimeSpan,
    /// The directory the process starts in, if it is not the current one.
    pub working_dir: Option<PathBuf>,
    /// The process that is held, if any.
    pub process: Option<P>,
    /// Whether this value receives what the process writes.
    pub capturing: bool,
}

impl<P> ExecutableView<P> {
    /// A process runs when one is held and its probe says so. A probe that
    /// failed counts as not running.
    pub open spec fn is_running(self, probe: Probe) -> bool {
        self.process is Some && probe is Running
    }

    /// The same state with no process held.
    pub open spec fn released(self) -> ExecutableView<P> {
        ExecutableView { process: None, ..self }
    }

    /// Whether a kill leaves no process held: either none was held, or the
    /// signal was delivered.
    pub open spec fn kill_succeeds(self, signal: Result<(), String>) -> bool {
        self.process is None || signal is Ok
    }

    /// What a process leaves behind when it exits with `status` and
    /// `captured` is at hand. A value that does not receive the output of
    /// the process reports none.
    pub open spec fn output(self, status: ExitStatus, captured: Seq<Captured>) -> (
        Seq<u8>,
        Seq<u8>,
        ExitStatus,
    ) {
        if self.capturing {
            (newest(captured, Stream::Stdout), newest(captured, Stream::Stderr), status)
        } else {
            (Seq::empty(), Seq::empty(), status)
        }
    }

    /// The same state, holding `process` and receiving its output.
    pub open spec fn attached(self, process: P) -> ExecutableView<P> {
        ExecutableView { process: Some(process), capturing: true, ..self }
    }
}

/// Whether `made` is what comes of opening the program at `path`, of which
/// the file system reported `probe`: the program must exist, its metadata
/// must be readable and, where the platform has permission bits, someone
/// must be allowed to execute it. The executable that is made holds no
/// process and waits ten seconds at most.
pub open spec fn opened<P>(
    path: PathBuf,
    probe: FileProbe,
    made: Result<Executable<P>, TesterError>,
) -> bool {
    match probe {
        FileProbe::Missing => made == Err::<Executable<P>, TesterError>(
            TesterError::ExecutableNotFound(path),
        ),
        FileProbe::Unreadable(failure) => made == Err::<Executable<P>, TesterError>(
            TesterError::Io(failure),
        ),
        FileProbe::Found { mode: Some(bits) } if bits & EXECUTE_BITS == 0 => {
            made matches Err(TesterError::ProcessExecution(text)) && text@
                == "File is not executable"@
        },
        FileProbe::Found { .. } => {
            &&& made matches Ok(exe)
            &&& exe@.path == path
            &&& exe@.timeout@ == DEFAULT_TIMEOUT_SECS as nat * 1_000_000_000
            &&& exe@.working_dir is None
            &&& exe@.process is None
            &&& !exe@.capturing
        },
    }
}

/// A program under test and, while it runs, the one process started from it.
#[derive(Debug)]
pub struct Executable<P> {
    path: PathBuf,
    timeout: TimeSpan,
    working_dir: Option<PathBuf>,
    process: Option<P>,
    capturing: bool,
}

impl<P> View for Executable<P> {
    type V = ExecutableView<P>;

    closed spec fn view(&self) -> ExecutableView<P> {
        ExecutableView {
            path: self.path,
            timeout: self.timeout,
            working_dir: self.working_dir,
            process: self.process,
            capturing: self.capturing,
        }
    }
}

impl<P> Executable<P> {
    /// Opens the program at `path`, given what the file system reported
    /// about that path: see [`opened`].
    pub fn new(path: PathBuf, probe: FileProbe) -> (made: Result<Executable<P>, TesterError>)
        ensures
            opened(path, probe, made),
    {
        match probe {
            FileProbe::Missing => Err(TesterError::ExecutableNotFound(path)),
            FileProbe::Unreadable(failure) => Err(TesterError::Io(failure)),
            FileProbe::Found { mode } => {
                if let Some(bits) = mode {
                    if bits & EXECUTE_BITS == 0 {
                        return Err(
                            TesterError::ProcessExecution(
                                String::from_str("File is not executable"),
                            ),
                        );
                    }
                }
                Ok(
                    Executable {
                        path,
                        timeout: TimeSpan::from_secs(DEFAULT_TIMEOUT_SECS),
                        working_dir: None,
                        process: None,
                        capturing: false,
                    },
                )
            },
        }
    }

    /// Whether the process runs, given what a probe of it reported. The probe
    /// is not consulted when no process is held.
    pub fn is_running(&self, probe: &Probe) -> (running: bool)
        ensures
            running == self@.is_running(*probe),
    {
        match &self.process {
            Some(_) => match probe {
                Probe::Running => true,
                _ => false,
            },
            None => false,
        }
    }

    /// Decides whether the program may be started with `args`. While the
    /// process runs the answer is `ProcessAlreadyRunning`, and no command is
    /// handed out; otherwise it is the command to spawn. The state changes
    /// only when the outcome of that command is reported to
    /// [`Executable::launched`].
    pub fn start(&self, args: &[&str], probe: &Probe) -> (command: Result<Launch, TesterError>)
        ensures
            self@.is_running(*probe) ==> command == Err::<Launch, TesterError>(
                TesterError::ProcessAlreadyRunning,
            ),
            !self@.is_running(*probe) ==> {
                &&& command matches Ok(launch)
                &&& launch.program == self@.path
                &&& launch.working_dir == self@.working_dir
                &&& launch.args@.len() == args@.len()
                &&& forall|i: int| 0 <= i < args@.len() ==> (#[trigger] launch.args@[i])@ == args@[i]@
            },
    {
        if self.is_running(probe) {
            return Err(TesterError::ProcessAlreadyRunning);
        }
        let mut owned: Vec<String> = Vec::new();
        let mut i: usize = 0;
        while i < args.len()
            invariant
                i <= args@.len(),
                owned@.len() == i,
                forall|j: int| 0 <= j < i ==> (#[trigger] owned@[j])@ == args@[j]@,
            decreases args@.len() - i,
        {
            owned.push(String::from_str(args[i]));
            i += 1;
        }
        let working_dir: Option<PathBuf> = match &self.working_dir {
            Some(dir) => Some(dir.clone()),
            None => None,
        };
        Ok(Launch { program: self.path.clone(), args: owned, working_dir })
    }

    /// Records what became of the command that [`Executable::start`] handed
    /// out. Only a spawned process changes the state: it is held from now on,
    /// in place of any process held before, and its output is received. A
    /// process that was not spawned, or whose output cannot be captured,
    /// fails the start with `ProcessExecution`.
    pub fn launched(&mut self, outcome: LaunchOutcome<P>) -> (started: Result<(), TesterError>)
        ensures
            match outcome {
                LaunchOutcome::SpawnFailed(text) => {
                    &&& started == Err::<(), TesterError>(TesterError::ProcessExecution(text))
                    &&& final(self)@ == old(self)@
                },
                LaunchOutcome::StdoutUnavailable => {
                    &&& started matches Err(TesterError::ProcessExecution(text)) && text@
                        == "Failed to capture stdout"@
                    &&& final(self)@ == old(self)@
                },
                LaunchOutcome::StderrUnavailable => {
                    &&& started matches Err(TesterError::ProcessExecution(text)) && text@
                        == "Failed to capture stderr"@
                    &&& final(self)@ == old(self)@
                },
                LaunchOutcome::Spawned(process) => {
                    &&& started == Ok::<(), TesterError>(())
                    &&& final(self)@ == old(self)@.attached(process)
                },
            },
    {
        match outcome {
            LaunchOutcome::SpawnFailed(text) => Err(TesterError::ProcessExecution(text)),
            LaunchOutcome::StdoutUnavailable => Err(
                TesterError::ProcessExecution(String::from_str("Failed to capture stdout")),
            ),
            LaunchOutcome::StderrUnavailable => Err(
                TesterError::ProcessExecution(String::from_str("Failed to capture stderr")),
            ),
            LaunchOutcome::Spawned(process) => {
                self.process = Some(process);
                self.capturing = true;
                Ok(())
            },
        }
    }

    /// Decides whether input may be written to the process: only while it
    /// runs. On `Ok` the driver writes, without closing the stream, and
    /// reports the outcome to [`Executable::written`].
    pub fn write_stdin(&self, probe: &Probe) -> (go: Result<(), TesterError>)
        ensures
            self@.is_running(*probe) ==> go == Ok::<(), TesterError>(()),
            !self@.is_running(*probe) ==> go == Err::<(), TesterError>(
                TesterError::NoProcessRunning,
            ),
    {
        if self.is_running(probe) {
            Ok(())
        } else {
            Err(TesterError::NoProcessRunning)
        }
    }

    /// What [`Executable::write_stdin`] comes to, given the outcome of the
    /// write.
    pub fn written(&self, outcome: WriteOutcome) -> (done: Result<(), TesterError>)
        ensures
            done == match outcome {
                WriteOutcome::Written => Ok::<(), TesterError>(()),
                WriteOutcome::StdinUnavailable => Err(TesterError::StdinCaptureFailed),
                WriteOutcome::Failed(text) => Err(TesterError::ProcessExecution(text)),
            },
    {
        match outcome {
            WriteOutcome::Written => Ok(()),
            WriteOutcome::StdinUnavailable => Err(TesterError::StdinCaptureFailed),
            WriteOutcome::Failed(text) => Err(TesterError::ProcessExecution(text)),
        }
    }

    /// One round of waiting for the process to exit.
    ///
    /// With no process held the wait fails with `NoProcessRunning`. A status
    /// that could not be read fails the wait with that failure. A process
    /// that has exited ends the wait: the process is released, and the
    /// result is its status with the newest captured message of each stream.
    /// A process that still runs is killed once more time than the timeout
    /// has passed, and probed again after a short sleep until then.
    pub fn wait(&mut self, poll: Poll) -> (step: Result<WaitStep, TesterError>)
        ensures
            old(self)@.process is None ==> {
                &&& step == Err::<WaitStep, TesterError>(TesterError::NoProcessRunning)
                &&& final(self)@ == old(self)@
            },
            old(self)@.process is Some ==> match poll {
                Poll::Failed(failure) => {
                    &&& step == Err::<WaitStep, TesterError>(TesterError::Io(failure))
                    &&& final(self)@ == old(self)@
                },
                Poll::Exited { status, captured } => {
                    &&& step matches Ok(WaitStep::Finished(output))
                    &&& (output.stdout@, output.stderr@, output.status) == old(self)@.output(
                        status,
                        captured@,
                    )
                    &&& final(self)@ == old(self)@.released()
                },
                Poll::Running { elapsed } => {
                    &&& final(self)@ == old(self)@
                    &&& elapsed@ > old(self)@.timeout@ ==> step == Ok::<WaitStep, TesterError>(
                        WaitStep::Kill,
                    )
                    &&& elapsed@ <= old(self)@.timeout@ ==> (step matches Ok(
                        WaitStep::Sleep(pause),
                    ) && pause@ == POLL_INTERVAL_MILLIS as nat * 1_000_000)
                },
            },
    {
        if self.process.is_none() {
            return Err(TesterError::NoProcessRunning);
        }
        match poll {
            Poll::Failed(failure) => Err(TesterError::Io(failure)),
            Poll::Exited { status, captured } => {
                let (stdout, stderr) = if self.capturing {
                    collect_output(captured)
                } else {
                    (Vec::new(), Vec::new())
                };
                self.process = None;
                Ok(WaitStep::Finished(Output { stdout, stderr, status }))
            },
            Poll::Running { elapsed } => {
                if elapsed.exceeds(&self.timeout) {
                    Ok(WaitStep::Kill)
                } else {
                    Ok(WaitStep::Sleep(TimeSpan::from_millis(POLL_INTERVAL_MILLIS)))
                }
            },
        }
    }

    /// Ends a wait that has run out of time, given what became of the kill
    /// signal. The wait fails with `WaitTimeout` and the process is released,
    /// unless the process could not be killed: then that is the failure, and
    /// the process stays held.
    pub fn expired(&mut self, signal: Result<(), String>) -> (failure: TesterError)
        ensures
            old(self)@.kill_succeeds(signal) ==> {
                &&& failure == TesterError::WaitTimeout(old(self)@.timeout)
                &&& final(self)@ == old(self)@.released()
            },
            !old(self)@.kill_succeeds(signal) ==> {
                &&& signal matches Err(text) && failure == TesterError::ProcessKillFailed(text)
                &&& final(self)@ == old(self)@
            },
    {
        match self.kill(signal) {
            Ok(_) => TesterError::WaitTimeout(self.timeout),
            Err(failure) => failure,
        }
    }

    /// Lets go of the process, given what became of the kill signal sent to
    /// it. With no process held there is nothing to do and `signal` is not
    /// consulted. A signal that could not be delivered fails the kill with
    /// `ProcessKillFailed`, and the process stays held.
    pub fn kill(&mut self, signal: Result<(), String>) -> (killed: Result<(), TesterError>)
        ensures
            old(self)@.kill_succeeds(signal) ==> {
                &&& killed == Ok::<(), TesterError>(())
                &&& final(self)@ == old(self)@.released()
            },
            !old(self)@.kill_succeeds(signal) ==> {
                &&& signal matches Err(text) && killed == Err::<(), TesterError>(
                    TesterError::ProcessKillFailed(text),
                )
                &&& final(self)@ == old(self)@
            },
    {
        if self.process.is_some() {
            if let Err(text) = signal {
                return Err(TesterError::ProcessKillFailed(text));
            }
        }
        self.process = None;
        Ok(())
    }

    /// The exit status of the process, given what a probe of it reported:
    /// none while it runs or when no process is held.
    pub fn try_wait(&self, probe: Probe) -> (status: Result<Option<ExitStatus>, TesterError>)
        ensures
            status == match (self@.process, probe) {
                (None, _) => Ok::<Option<ExitStatus>, TesterError>(None),
                (Some(_), Probe::Running) => Ok(None),
                (Some(_), Probe::Exited(exit)) => Ok(Some(exit)),
                (Some(_), Probe::Failed(failure)) => Err(TesterError::Io(failure)),
            },
    {
        if self.process.is_none() {
            return Ok(None);
        }
        match probe {
            Probe::Running => Ok(None),
            Probe::Exited(exit) => Ok(Some(exit)),
            Probe::Failed(failure) => Err(TesterError::Io(failure)),
        }
    }

    /// The same executable with another timeout.
    pub fn with_timeout(self, timeout: TimeSpan) -> (changed: Executable<P>)
        ensures
            changed@ == (ExecutableView { timeout, ..self@ }),
    {
        let mut changed = self;
        changed.timeout = timeout;
        changed
    }

    /// The same executable, to be started in `dir`.
    pub fn with_working_dir(self, dir: PathBuf) -> (changed: Executable<P>)
        ensures
            changed@ == (ExecutableView { working_dir: Some(dir), ..self@ }),
    {
        let mut changed = self;
        changed.working_dir = Some(dir);
        changed
    }

    /// The process that is held, if any.
    pub fn process(&self) -> (held: Option<&P>)
        ensures
            held == match self@.process {
                Some(process) => Some(&process),
                None => None,
            },
    {
        self.process.as_ref()
    }

    /// How long a wait for the process may take.
    pub fn timeout(&self) -> (timeout: TimeSpan)
        ensures
            timeout == self@.timeout,
    {
        self.timeout
    }
}

impl<P: Clone> Clone for Executable<P> {
    /// A second value for the same program and the same process. The copy
    /// does not receive the output of the process.
    fn clone(&self) -> (copy: Executable<P>)
        ensures
            copy@.path == self@.path,
            copy@.timeout == self@.timeout,
            copy@.working_dir == self@.working_dir,
            !copy@.capturing,
            match (self@.process, copy@.process) {
                (Some(held), Some(shared)) => cloned::<P>(held, shared),
                (None, None) => true,
                _ => false,
            },
    {
        let working_dir: Option<PathBuf> = match &self.working_dir {
            Some(dir) => Some(dir.clone()),
            None => None,
        };
        let process: Option<P> = match &self.process {
            Some(held) => Some(held.clone()),
            None => None,
        };
        Executable {
            path: self.path.clone(),
            timeout: self.timeout,
            working_dir,
            process,
            capturing: false,
        }
    }
}

/// Killing is idempotent: after a kill that succeeded, every further kill
/// succeeds, whatever became of its signal, and changes nothing.
pub proof fn law_kill_is_idempotent<P>(
    state: ExecutableView<P>,
    signal: Result<(), String>,
    again: Result<(), String>,
)
    requires
        state.kill_succeeds(signal),
    ensures
        state.released().kill_succeeds(again),
        state.released().released() == state.released(),
{
}

/// A process that was killed does not run: once the kill succeeds, no probe,
/// whatever it reports, makes the executable count as running.
pub proof fn law_killed_process_is_not_running<P>(
    state: ExecutableView<P>,
    signal: Result<(), String>,
    probe: Probe,
)
    requires
        state.kill_succeeds(signal),
    ensures
        !state.released().is_running(probe),
{
}

} // verus!
