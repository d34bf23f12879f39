//! Running the local resolver once: what to start, and how to read what the
//! process left behind.

use crate::geocode_result::{opt_text, GeocodeResult};
use crate::geocoder_runner::{
    interpreter_of, resolve_geocoder_runner, resolve_interpreter, runner_of, Environment,
    GeocoderRunner, RunnerModel,
};
use crate::local_error::LocalError;
use crate::text::copy_strings;
use vstd::prelude::*;

verus! {

/// The mathematical content of an [`Invocation`].
pub struct InvocationModel {
    pub program: Seq<char>,
    pub args: Seq<Seq<char>>,
}

/// A process to start: the program and its arguments.
#[derive(Debug, Clone, PartialEq, Eq)]
pub struct Invocation {
    pub program: String,
    pub args: Vec<String>,
}

impl View for Invocation {
    type V = InvocationModel;

    open spec fn view(&self) -> InvocationModel {
        InvocationModel { program: self.program@, args: self.args.deep_view() }
    }
}

/// How a runner is started on a batch: an executable takes the addresses as
/// its arguments; a script is handed to the interpreter, its path first and
/// the addresses after it.
pub open spec fn invocation_of(
    runner: RunnerModel,
    interpreter: Seq<char>,
    addresses: Seq<Seq<char>>,
) -> InvocationModel {
    match runner {
        RunnerModel::Binary(path) => InvocationModel { program: path, args: addresses },
        RunnerModel::PythonScript(path) => InvocationModel {
            program: interpreter,
            args: seq![path] + addresses,
        },
    }
}

/// The one-shot process for a batch, or the reason why none can be started.
pub open spec fn oneshot_plan(
    geocoder_bin: Option<Seq<char>>,
    geocoder_python: Option<Seq<char>>,
    cwd: Seq<char>,
    host: Seq<char>,
    files: Seq<Seq<char>>,
    addresses: Seq<Seq<char>>,
) -> Result<InvocationModel, LocalError> {
    match runner_of(geocoder_bin, cwd, host, files) {
        Ok(runner) => Ok(
            invocation_of(runner, interpreter_of(geocoder_python, cwd, files), addresses),
        ),
        Err(e) => Err(e),
    }
}

/// Plans the one-shot process for a batch: locates the runner and, for a
/// script, the interpreter.
pub fn plan_oneshot(
    geocoder_bin: &Option<String>,
    geocoder_python: &Option<String>,
    env: &Environment,
    addresses: &[String],
) -> (r: Result<Invocation, LocalError>)
    ensures
        match r {
            Ok(invocation) => oneshot_plan(
                opt_text(*geocoder_bin),
                opt_text(*geocoder_python),
                env.cwd@,
                env.host(),
                env.files.deep_view(),
                addresses.deep_view(),
            ) == Ok::<InvocationModel, LocalError>(invocation@),
            Err(e) => oneshot_plan(
                opt_text(*geocoder_bin),
                opt_text(*geocoder_python),
                env.cwd@,
                env.host(),
                env.files.deep_view(),
                addresses.deep_view(),
            ) == Err::<InvocationModel, LocalError>(e),
        },
{
    match resolve_geocoder_runner(geocoder_bin, env) {
        Ok(GeocoderRunner::Binary(path)) => Ok(
            Invocation { program: path, args: copy_strings(addresses) },
        ),
        Ok(GeocoderRunner::PythonScript(path)) => {
            let program = resolve_interpreter(geocoder_python, env);
            let mut args: Vec<String> = Vec::new();
            args.push(path);
            let mut rest = copy_strings(addresses);
            args.append(&mut rest);
            assert(args.deep_view() =~= seq![path@] + addresses.deep_view());
            Ok(Invocation { program, args })
        },
        Err(e) => Err(e),
    }
}

/// What a finished process left behind.
#[derive(Debug, Clone, PartialEq, Eq)]
pub struct ProcessOutput {
    /// Whether the exit status reports success.
    pub success: bool,
    /// The exit status, as text.
    pub status: String,
    /// The bytes written to standard output.
    pub stdout: Vec<u8>,
    /// The text written to standard error.
    pub stderr: String,
}

/// How an attempt to run a process ended.
#[derive(Debug, PartialEq, Eq)]
pub enum ProcessOutcome {
    /// The process could not be started.
    NotStarted { detail: String },
    /// The process ran and ended. `rows` is standard output read as a list
    /// of rows, or the reason why it is none.
    Exited { output: ProcessOutput, rows: Result<Vec<GeocodeResult>, String> },
}

/// The rows of a one-shot run, or the failure that it amounts to. A failure
/// status comes first, then empty output, then output that is no list of
/// rows.
pub open spec fn oneshot_verdict(outcome: ProcessOutcome) -> Result<Vec<GeocodeResult>, LocalError> {
    match outcome {
        ProcessOutcome::NotStarted { detail } => Err(LocalError::SpawnFailed { detail }),
        ProcessOutcome::Exited { output, rows } => if !output.success {
            Err(LocalError::ProcessFailed { status: output.status, stderr: output.stderr })
        } else if output.stdout@.len() == 0 {
            Err(LocalError::EmptyOutput { stderr: output.stderr })
        } else {
            match rows {
                Ok(rows) => Ok(rows),
                Err(detail) => Err(LocalError::MalformedOutput { detail }),
            }
        },
    }
}

/// Reads the outcome of a one-shot run.
pub fn classify_oneshot(outcome: ProcessOutcome) -> (r: Result<Vec<GeocodeResult>, LocalError>)
    ensures
        r == oneshot_verdict(outcome),
{
    match outcome {
        ProcessOutcome::NotStarted { detail } => Err(LocalError::SpawnFailed { detail }),
        ProcessOutcome::Exited { output, rows } => {
            if !output.success {
                Err(LocalError::ProcessFailed { status: output.status, stderr: output.stderr })
            } else if output.stdout.len() == 0 {
                Err(LocalError::EmptyOutput { stderr: output.stderr })
            } else {
                match rows {
                    Ok(rows) => Ok(rows),
                    Err(detail) => Err(LocalError::MalformedOutput { detail }),
                }
            }
        },
    }
}

} // verus!
