//! Verbosity-aware output.
//!
//! The verbosity is a value that the caller creates once and hands to
//! whatever reports progress, so that no part of the program depends on
//! ambient state.

use vstd::prelude::*;

verus! {

/// How much of the program's progress is reported to the operator.
#[derive(Debug, Clone, Copy, PartialEq, Eq, Structural)]
pub enum Verbosity {
    Quiet,
    Normal,
    Verbose,
}

impl Verbosity {
    /// The rank of a level: a higher rank shows everything a lower one shows.
    pub open spec fn rank(self) -> int {
        match self {
            Verbosity::Quiet => 0,
            Verbosity::Normal => 1,
            Verbosity::Verbose => 2,
        }
    }

    /// The rank as a machine integer.
    pub fn level(self) -> (r: u8)
        ensures
            r as int == self.rank(),
    {
        match self {
            Verbosity::Quiet => 0,
            Verbosity::Normal => 1,
            Verbosity::Verbose => 2,
        }
    }

    /// Whether this level shows what `least` shows.
    pub fn at_least(self, least: Verbosity) -> (r: bool)
        ensures
            r == (self.rank() >= least.rank()),
    {
        self.level() >= least.level()
    }
}

/// The kinds of message the program writes.
#[derive(Debug, Clone, Copy, PartialEq, Eq, Structural)]
pub enum Kind {
    /// The header of a major phase.
    Step,
    /// An indented line of detail.
    Detail,
    /// A completed action.
    Success,
    /// A warning that does not end the run.
    Warn,
    /// An error that ends the run.
    Error,
    /// Information for debugging.
    Debug,
    /// An interactive prompt, written without a line end.
    Prompt,
    /// The final result of a command.
    Outcome,
}

/// Where a message goes.
#[derive(Debug, Clone, Copy, PartialEq, Eq, Structural)]
pub enum Stream {
    Stdout,
    Stderr,
}

impl Kind {
    /// The lowest verbosity at which a message of this kind is shown. Errors,
    /// prompts and final results are always shown.
    pub open spec fn threshold(self) -> Verbosity {
        match self {
            Kind::Step | Kind::Detail | Kind::Success | Kind::Warn => Verbosity::Normal,
            Kind::Debug => Verbosity::Verbose,
            Kind::Error | Kind::Prompt | Kind::Outcome => Verbosity::Quiet,
        }
    }

    /// Warnings and errors go to the error stream, all else to the output.
    pub open spec fn stream_of(self) -> Stream {
        match self {
            Kind::Warn | Kind::Error => Stream::Stderr,
            _ => Stream::Stdout,
        }
    }

    pub fn stream(self) -> (s: Stream)
        ensures
            s == self.stream_of(),
    {
        match self {
            Kind::Warn | Kind::Error => Stream::Stderr,
            _ => Stream::Stdout,
        }
    }
}

/// The output context of one invocation of the program.
#[derive(Debug, Clone, Copy, PartialEq, Eq, Structural)]
pub struct Output {
    pub level: Verbosity,
}

/// The output context for verbosity `v`.
pub fn init(v: Verbosity) -> (out: Output)
    ensures
        out.level == v,
{
    Output { level: v }
}

/// The verbosity of an output context.
pub fn verbosity(out: &Output) -> (v: Verbosity)
    ensures
        v == out.level,
{
    out.level
}

impl Output {
    /// The context of a program that was not told otherwise.
    pub fn normal() -> (out: Output)
        ensures
            out.level == Verbosity::Normal,
    {
        Output { level: Verbosity::Normal }
    }

    /// Whether a message of this kind is written.
    pub open spec fn shows_kind(self, kind: Kind) -> bool {
        self.level.rank() >= kind.threshold().rank()
    }

    pub fn shows(&self, kind: Kind) -> (r: bool)
        ensures
            r == self.shows_kind(kind),
    {
        match kind {
            Kind::Step | Kind::Detail | Kind::Success | Kind::Warn => self.level.at_least(
                Verbosity::Normal,
            ),
            Kind::Debug => self.level.at_least(Verbosity::Verbose),
            Kind::Error | Kind::Prompt | Kind::Outcome => true,
        }
    }
}

/// What a quieter level shows, a more verbose level shows too; and the final
/// result and errors are shown at every level.
pub proof fn lemma_verbosity_monotone(quiet: Output, loud: Output, kind: Kind)
    requires
        quiet.level.rank() <= loud.level.rank(),
    ensures
        quiet.shows_kind(kind) ==> loud.shows_kind(kind),
        quiet.shows_kind(Kind::Outcome),
        quiet.shows_kind(Kind::Error),
{
}

/// One message: its kind and its text.
#[derive(Debug)]
pub struct Message {
    pub kind: Kind,
    pub text: String,
}

pub struct MessageView {
    pub kind: Kind,
    pub text: Seq<char>,
}

impl View for Message {
    type V = MessageView;

    open spec fn view(&self) -> MessageView {
        MessageView { kind: self.kind, text: self.text@ }
    }
}

impl DeepView for Message {
    type V = MessageView;

    open spec fn deep_view(&self) -> MessageView {
        self.view()
    }
}

impl Message {
    /// A message of a kind with a text.
    pub fn new(kind: Kind, text: &str) -> (m: Message)
        ensures
            m@ == (MessageView { kind, text: text@ }),
    {
        Message { kind, text: text.to_owned() }
    }
}

} // verus!
