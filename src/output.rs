//! What each kind of message prints in each output mode.

use vstd::prelude::*;

verus! {

/// How much is printed, and whether actions are only described.
#[derive(Debug, Clone, Copy, PartialEq, Eq, Structural)]
pub enum OutputMode {
    /// Results and errors only.
    Normal,
    /// Every step and detail as well.
    Verbose,
    /// Actions are described, prefixed, and not performed.
    DryRun { verbose: bool },
}

/// The kinds of message an operation emits.
#[derive(Debug, Clone, Copy, PartialEq, Eq, Structural)]
pub enum MessageKind {
    Info,
    Step,
    Success,
    Error,
}

/// The mode selected by the verbose and dry-run switches.
pub open spec fn mode_for(verbose: bool, dry_run: bool) -> OutputMode {
    if dry_run {
        OutputMode::DryRun { verbose }
    } else if verbose {
        OutputMode::Verbose
    } else {
        OutputMode::Normal
    }
}

/// The line printed for a message, if any; errors go to the error stream.
pub open spec fn line_spec(mode: OutputMode, kind: MessageKind, message: Seq<char>) -> Option<Seq<char>> {
    match kind {
        MessageKind::Info | MessageKind::Step => match mode {
            OutputMode::Normal => None,
            OutputMode::Verbose => Some(message),
            OutputMode::DryRun { verbose } => if verbose { Some("Would: "@ + message) } else { None },
        },
        MessageKind::Success => match mode {
            OutputMode::DryRun { .. } => Some("Would: "@ + message),
            _ => Some(message),
        },
        MessageKind::Error => match mode {
            OutputMode::DryRun { .. } => Some("Would encounter error: "@ + message),
            _ => Some("Error: "@ + message),
        },
    }
}

/// Formats messages for one output mode.
#[derive(Debug, Clone, Copy)]
pub struct NormalOutput {
    pub mode: OutputMode,
}

fn prefixed(prefix: &str, message: &str) -> (r: String)
    ensures
        r@ == prefix@ + message@,
{
    let mut s = String::from_str(prefix);
    s.append(message);
    s
}

impl NormalOutput {
    pub fn new(verbose: bool, dry_run: bool) -> (r: Self)
        ensures
            r.mode == mode_for(verbose, dry_run),
    {
        let mode = if dry_run {
            OutputMode::DryRun { verbose }
        } else if verbose {
            OutputMode::Verbose
        } else {
            OutputMode::Normal
        };
        NormalOutput { mode }
    }

    /// The line printed for `message`, if any.
    pub fn line(&self, kind: MessageKind, message: &str) -> (r: Option<String>)
        ensures
            match r {
                Some(s) => line_spec(self.mode, kind, message@) == Some(s@),
                None => line_spec(self.mode, kind, message@) is None,
            },
    {
        match kind {
            MessageKind::Info | MessageKind::Step => match self.mode {
                OutputMode::Normal => None,
                OutputMode::Verbose => Some(String::from_str(message)),
                OutputMode::DryRun { verbose } => if verbose {
                    Some(prefixed("Would: ", message))
                } else {
                    None
                },
            },
            MessageKind::Success => match self.mode {
                OutputMode::DryRun { .. } => Some(prefixed("Would: ", message)),
                _ => Some(String::from_str(message)),
            },
            MessageKind::Error => match self.mode {
                OutputMode::DryRun { .. } => Some(prefixed("Would encounter error: ", message)),
                _ => Some(prefixed("Error: ", message)),
            },
        }
    }
}

impl Default for NormalOutput {
    fn default() -> (r: Self)
        ensures
            r.mode == OutputMode::Normal,
    {
        NormalOutput { mode: OutputMode::Normal }
    }
}

/// The output handler for the verbose and dry-run switches.
pub fn create_output_handler(verbose: bool, dry_run: bool) -> (r: NormalOutput)
    ensures
        r.mode == mode_for(verbose, dry_run),
{
    NormalOutput::new(verbose, dry_run)
}

} // verus!
