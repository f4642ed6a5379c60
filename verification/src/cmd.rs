//! What one run of the command left behind.

use vstd::prelude::*;

verus! {

/// The streams of a run that the pad can show.
#[derive(Clone, Copy, Debug, PartialEq, Eq, Structural)]
pub enum OutputType {
    /// Standard output alone.
    Stdout,
    /// Standard error alone.
    Stderr,
    /// Both streams as they were written.
    Output,
}

/// The result of one run of the command.
#[derive(Debug, PartialEq, Eq)]
pub struct CommandResult {
    pub timestamp: String,
    pub status: bool,
    pub output: String,
    pub stdout: String,
    pub stderr: String,
}

/// What a [`CommandResult`] holds, as mathematical values.
pub struct CommandResultView {
    pub timestamp: Seq<char>,
    pub status: bool,
    pub output: Seq<char>,
    pub stdout: Seq<char>,
    pub stderr: Seq<char>,
}

impl View for CommandResult {
    type V = CommandResultView;

    open spec fn view(&self) -> CommandResultView {
        CommandResultView {
            timestamp: self.timestamp@,
            status: self.status,
            output: self.output@,
            stdout: self.stdout@,
            stderr: self.stderr@,
        }
    }
}

impl Clone for CommandResult {
    fn clone(&self) -> (r: Self)
        ensures
            r@ == self@,
    {
        CommandResult {
            timestamp: self.timestamp.clone(),
            status: self.status,
            output: self.output.clone(),
            stdout: self.stdout.clone(),
            stderr: self.stderr.clone(),
        }
    }
}

/// The stream of a result that `output_type` names.
pub open spec fn stream_of(result: CommandResultView, output_type: OutputType) -> Seq<char> {
    match output_type {
        OutputType::Stdout => result.stdout,
        OutputType::Stderr => result.stderr,
        OutputType::Output => result.output,
    }
}

/// The result that stands in before the command has run: successful, with
/// every text empty.
pub open spec fn empty_result() -> CommandResultView {
    CommandResultView {
        timestamp: Seq::empty(),
        status: true,
        output: Seq::empty(),
        stdout: Seq::empty(),
        stderr: Seq::empty(),
    }
}

impl OutputType {
    /// The stream that a numeric tag names: 1 standard output, 2 standard
    /// error, 3 both.
    pub fn from_code(code: i32) -> (r: Option<OutputType>)
        ensures
            r == if code == 1 {
                Some(OutputType::Stdout)
            } else if code == 2 {
                Some(OutputType::Stderr)
            } else if code == 3 {
                Some(OutputType::Output)
            } else {
                None
            },
    {
        if code == 1 {
            Some(OutputType::Stdout)
        } else if code == 2 {
            Some(OutputType::Stderr)
        } else if code == 3 {
            Some(OutputType::Output)
        } else {
            None
        }
    }
}

impl CommandResult {
    /// The result that stands in before the command has run.
    pub fn new() -> (r: Self)
        ensures
            r@ == empty_result(),
    {
        CommandResult {
            timestamp: String::new(),
            status: true,
            output: String::new(),
            stdout: String::new(),
            stderr: String::new(),
        }
    }

    /// The text of the stream that `output_type` names.
    pub fn stream(&self, output_type: OutputType) -> (text: &String)
        ensures
            text@ == stream_of(self@, output_type),
    {
        match output_type {
            OutputType::Stdout => &self.stdout,
            OutputType::Stderr => &self.stderr,
            OutputType::Output => &self.output,
        }
    }
}

} // verus!
