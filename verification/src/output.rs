//! Progress and status output, shared by the command line and the app.

use std::io::Read;
use std::io::Write;
use vstd::prelude::*;

verus! {

use vstd::string::StringExecFns;

/// Common interface for output from both the CLI and the app.
pub trait OutputTrait {
    /// Display a progress message.
    fn progress(&mut self, msg: &str);

    /// Display a success message.
    fn success(&mut self, msg: &str);

    /// Display an instruction message.
    fn instruction(&mut self, msg: &str);

    /// Display a prompt to continue.
    fn continue_prompt(&mut self);
}

/// Relies on std::io::Stdout::write_fmt (through writeln): prints one line
/// to standard output.
#[verifier::external_body]
fn write_stdout_line(msg: &str) {
    let mut out = std::io::stdout();
    let _ = writeln!(out, "{}", msg);
}

/// Relies on std::io::Stdin::read: blocks until the user presses Enter.
#[verifier::external_body]
fn wait_for_enter() {
    let _ = std::io::stdin().read(&mut [0u8]);
}

/// Console output for the CLI.
pub struct CommonOutput;

impl OutputTrait for CommonOutput {
    fn progress(&mut self, msg: &str) {
        let mut line = String::from_str(msg);
        line.append("...");
        write_stdout_line(line.as_str());
    }

    fn success(&mut self, msg: &str) {
        write_stdout_line(msg);
    }

    fn instruction(&mut self, msg: &str) {
        write_stdout_line(msg);
    }

    fn continue_prompt(&mut self) {
        write_stdout_line("Press Enter to continue...");
        wait_for_enter();
    }
}

/// Output that swallows every message.
pub struct NullOutput;

impl OutputTrait for NullOutput {
    fn progress(&mut self, _msg: &str) {
    }

    fn success(&mut self, _msg: &str) {
    }

    fn instruction(&mut self, _msg: &str) {
    }

    fn continue_prompt(&mut self) {
    }
}

} // verus!
