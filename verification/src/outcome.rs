//! How a batch ended, and the one status line that says so.

use vstd::prelude::*;
use vstd::string::StringExecFns;

verus! {

/// The step at which a pair failed.
#[derive(Clone, Copy, Debug, PartialEq, Eq, Structural)]
pub enum Stage {
    Read,
    Write,
}

/// How a batch ended. A batch ends once: with its first failure, or after
/// its last pair.
pub enum ConversionOutcome {
    /// The job had no pair, and nothing was done.
    Nothing,
    /// Every pair was converted; `input` and `output` are the last one.
    Success { input: String, output: String },
    /// The job had not as many outputs as inputs, and nothing was done.
    Mismatch,
    /// A pair failed, and the pairs after it were not attempted.
    Failure { stage: Stage, path: String, underlying_error: String },
}

/// A `ConversionOutcome` as plain text.
pub enum OutcomeView {
    Nothing,
    Success { input: Seq<char>, output: Seq<char> },
    Mismatch,
    Failure { stage: Stage, path: Seq<char>, underlying_error: Seq<char> },
}

impl View for ConversionOutcome {
    type V = OutcomeView;

    open spec fn view(&self) -> OutcomeView {
        match self {
            ConversionOutcome::Nothing => OutcomeView::Nothing,
            ConversionOutcome::Success { input, output } => OutcomeView::Success {
                input: input@,
                output: output@,
            },
            ConversionOutcome::Mismatch => OutcomeView::Mismatch,
            ConversionOutcome::Failure { stage, path, underlying_error } => OutcomeView::Failure {
                stage: *stage,
                path: path@,
                underlying_error: underlying_error@,
            },
        }
    }
}

impl OutcomeView {
    /// The status line for this outcome; none where nothing was done and
    /// nothing went wrong.
    pub open spec fn status(self) -> Option<Seq<char>> {
        match self {
            OutcomeView::Nothing => None,
            OutcomeView::Success { input, output } => Some(
                "✅ Converted: "@ + input + " → "@ + output,
            ),
            OutcomeView::Mismatch => Some("❌ Input/output file count mismatch."@),
            OutcomeView::Failure { stage, path, underlying_error } => Some(
                match stage {
                    Stage::Read => "❌ Failed to read "@,
                    Stage::Write => "❌ Failed to write "@,
                } + path + ": "@ + underlying_error,
            ),
        }
    }

    /// Whether the batch ran to its end.
    pub open spec fn is_success(self) -> bool {
        self is Nothing || self is Success
    }
}

impl ConversionOutcome {
    /// A copy of this outcome.
    pub fn duplicate(&self) -> (copy: ConversionOutcome)
        ensures
            copy@ == self@,
    {
        match self {
            ConversionOutcome::Nothing => ConversionOutcome::Nothing,
            ConversionOutcome::Success { input, output } => ConversionOutcome::Success {
                input: input.clone(),
                output: output.clone(),
            },
            ConversionOutcome::Mismatch => ConversionOutcome::Mismatch,
            ConversionOutcome::Failure { stage, path, underlying_error } => {
                ConversionOutcome::Failure {
                    stage: *stage,
                    path: path.clone(),
                    underlying_error: underlying_error.clone(),
                }
            },
        }
    }

    /// Whether the batch ran to its end.
    pub fn is_success(&self) -> (success: bool)
        ensures
            success == self@.is_success(),
    {
        match self {
            ConversionOutcome::Nothing => true,
            ConversionOutcome::Success { .. } => true,
            _ => false,
        }
    }

    /// The status line for this outcome; `None` where nothing was done and
    /// nothing went wrong, so that an earlier line may stand.
    pub fn status_message(&self) -> (message: Option<String>)
        ensures
            match message {
                Some(line) => self@.status() == Some(line@),
                None => self@.status() is None,
            },
    {
        match self {
            ConversionOutcome::Nothing => None,
            ConversionOutcome::Success { input, output } => {
                let mut line = String::from_str("✅ Converted: ");
                line.append(input.as_str());
                line.append(" → ");
                line.append(output.as_str());
                Some(line)
            },
            ConversionOutcome::Mismatch => Some(
                String::from_str("❌ Input/output file count mismatch."),
            ),
            ConversionOutcome::Failure { stage, path, underlying_error } => {
                let mut line = match stage {
                    Stage::Read => String::from_str("❌ Failed to read "),
                    Stage::Write => String::from_str("❌ Failed to write "),
                };
                line.append(path.as_str());
                line.append(": ");
                line.append(underlying_error.as_str());
                Some(line)
            },
        }
    }
}

} // verus!
