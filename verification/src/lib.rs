//! A local package registry manager: packages are pushed into a versioned
//! store on the filesystem and pulled back for installation.
//!
//! The library holds the registry resolution and command-planning logic.
//! Everything that touches the outside world (the configuration file, the
//! filesystem, subprocesses, the interactive picker) is observed by the
//! caller and handed in as plain values; the library decides what to do
//! and states exactly what it decided.

use vstd::prelude::*;

pub mod commands;
pub mod config;
pub mod fs_utils;
pub mod text;

verus! {

use crate::commands::CommandFailedError;
use crate::text::{decimal_seq, i32_to_string, int_decimal, split_on_space, u64_to_string};

/// One subprocess invocation: a program and its arguments.
pub struct ProcessCall {
    pub program: String,
    pub args: Vec<String>,
}

/// Holds when `c` invokes `program` with exactly the arguments `args`.
pub open spec fn call_is(c: ProcessCall, program: Seq<char>, args: Seq<Seq<char>>) -> bool {
    c.program@ == program && c.args.deep_view() == args
}

/// Holds when `c` invokes the whitespace-split command line `s`.
pub open spec fn script_call(c: ProcessCall, s: Seq<char>) -> bool {
    &&& split_on_space(s).len() >= 1
    &&& c.program@ == split_on_space(s)[0]
    &&& c.args.deep_view() == split_on_space(s).drop_first()
}

/// An invocation of `program` with one argument.
pub(crate) fn make_call1(program: &str, a0: String) -> (r: ProcessCall)
    ensures
        call_is(r, program@, seq![a0@]),
{
    let ghost g0 = a0@;
    let mut args: Vec<String> = Vec::new();
    args.push(a0);
    let r = ProcessCall { program: program.to_owned(), args };
    proof {
        assert(r.args.deep_view() =~= seq![g0]);
    }
    r
}

/// An invocation of `program` with two arguments.
pub(crate) fn make_call2(program: &str, a0: String, a1: String) -> (r: ProcessCall)
    ensures
        call_is(r, program@, seq![a0@, a1@]),
{
    let ghost g0 = a0@;
    let ghost g1 = a1@;
    let mut args: Vec<String> = Vec::new();
    args.push(a0);
    args.push(a1);
    let r = ProcessCall { program: program.to_owned(), args };
    proof {
        assert(r.args.deep_view() =~= seq![g0, g1]);
    }
    r
}

/// An invocation of `program` with three arguments.
pub(crate) fn make_call3(program: &str, a0: String, a1: String, a2: String) -> (r: ProcessCall)
    ensures
        call_is(r, program@, seq![a0@, a1@, a2@]),
{
    let ghost g0 = a0@;
    let ghost g1 = a1@;
    let ghost g2 = a2@;
    let mut args: Vec<String> = Vec::new();
    args.push(a0);
    args.push(a1);
    args.push(a2);
    let r = ProcessCall { program: program.to_owned(), args };
    proof {
        assert(r.args.deep_view() =~= seq![g0, g1, g2]);
    }
    r
}

/// The invocation a script command line describes, split on single
/// spaces: the first word is the executable, the rest are its arguments.
/// No shell quoting is honoured; the plain split is deliberate.
pub fn run_script(script: &String) -> (r: ProcessCall)
    ensures
        script_call(r, script@),
{
    proof {
        crate::text::lemma_split_nonempty(script@);
    }
    let mut words = crate::text::split_words(script.as_str());
    let ghost all = words.deep_view();
    let program = words.remove(0);
    proof {
        assert(program@ == all[0]);
        assert(words.deep_view() =~= all.drop_first());
    }
    ProcessCall { program, args: words }
}

/// How one subprocess invocation ended, as the caller observed it.
pub enum ProcessOutcome {
    /// The process ran and exited with this status code.
    Exited(i32),
    /// The process could not be started; holds the OS error's description.
    SpawnFailed(String),
}

/// Maps one observed subprocess outcome to the command result: exit
/// status zero is success; any other exit and any spawn failure is a
/// process failure carrying its detail.
pub fn run_process(outcome: ProcessOutcome) -> (r: Result<(), CommandFailedError>)
    ensures
        match outcome {
            ProcessOutcome::Exited(code) => {
                if code == 0 {
                    r == Ok::<(), CommandFailedError>(())
                } else {
                    r matches Err(e) && (e matches CommandFailedError::ProcessFailed(d) && d@
                        == "exit code "@ + int_decimal(code as int))
                }
            },
            ProcessOutcome::SpawnFailed(m) => r == Err::<(), CommandFailedError>(
                CommandFailedError::ProcessFailed(m),
            ),
        },
{
    match outcome {
        ProcessOutcome::Exited(code) => {
            if code == 0 {
                Ok(())
            } else {
                let detail = String::from_str("exit code ").concat(i32_to_string(code).as_str());
                Err(CommandFailedError::ProcessFailed(detail))
            }
        },
        ProcessOutcome::SpawnFailed(m) => Err(CommandFailedError::ProcessFailed(m)),
    }
}

/// Relies on std::time::SystemTime::now and duration_since: the
/// milliseconds the clock stands past the Unix epoch, zero when it stands
/// before it. Nothing further can be promised of the clock's value.
#[verifier::external_body]
fn current_epoch_millis() -> u64 {
    match std::time::SystemTime::now().duration_since(std::time::UNIX_EPOCH) {
        Ok(d) => d.as_millis() as u64,
        Err(_) => 0,
    }
}

/// The moment of the call as a decimal string of milliseconds since the
/// epoch.
pub fn get_current_timestamp_string() -> (r: String)
    ensures
        exists|m: u64| r@ == decimal_seq(m as nat),
{
    let m = current_epoch_millis();
    let r = u64_to_string(m);
    proof {
        assert(r@ == decimal_seq(m as nat));
    }
    r
}

} // verus!
