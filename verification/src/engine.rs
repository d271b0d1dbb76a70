//! The batch conversion engine.
//!
//! The engine reads no file and writes none. It decides: it hands its host
//! one `Action` at a time, the host carries the action out and answers with
//! what came of it, and `step` turns the answer into the next action. Pairs
//! are taken in the order of the job, one at a time, and the first failure
//! ends the batch: what was written before stays as it is.
//!
//! `step_model` is the whole behaviour as a function on plain values.

use vstd::prelude::*;
use crate::document::{
    assemble_document,
    document,
    resolve_stylesheet,
    resolved_stylesheet,
    Stylesheet,
    StylesheetView,
};
use crate::job::{ConversionJob, ConversionSettings, JobView, SettingsView};
use crate::markup::{render_fragment, rendered_fragment};
use crate::outcome::{ConversionOutcome, OutcomeView, Stage};
use crate::title::{resolve_title, resolved_title};

verus! {

/// What the engine asks of its host.
pub enum Action {
    /// Read the whole text of the input at `path`.
    ReadInput { path: String },
    /// Read the whole text of the stylesheet at `path`.
    ReadStylesheet { path: String },
    /// Write `document` to `path`, in place of what may be there.
    WriteOutput { path: String, document: String },
    /// Show the page at `path`; whether that works is of no concern.
    Preview { path: String },
    /// Nothing more: the batch has ended with `outcome`.
    Finish { outcome: ConversionOutcome },
}

/// An `Action` as plain text.
pub enum ActionView {
    ReadInput { path: Seq<char> },
    ReadStylesheet { path: Seq<char> },
    WriteOutput { path: Seq<char>, document: Seq<char> },
    Preview { path: Seq<char> },
    Finish { outcome: OutcomeView },
}

impl View for Action {
    type V = ActionView;

    open spec fn view(&self) -> ActionView {
        match self {
            Action::ReadInput { path } => ActionView::ReadInput { path: path@ },
            Action::ReadStylesheet { path } => ActionView::ReadStylesheet { path: path@ },
            Action::WriteOutput { path, document } => ActionView::WriteOutput {
                path: path@,
                document: document@,
            },
            Action::Preview { path } => ActionView::Preview { path: path@ },
            Action::Finish { outcome } => ActionView::Finish { outcome: outcome@ },
        }
    }
}

/// What the engine is waiting for.
pub enum Phase {
    /// The text of the current input.
    AwaitingInput,
    /// The text of the stylesheet; `fragment` is the current input,
    /// rendered.
    AwaitingStylesheet { fragment: String },
    /// Word that the current page was written.
    AwaitingWrite,
    /// Word that the current page was shown.
    AwaitingPreview,
    /// Nothing: the batch has ended.
    Finished { outcome: ConversionOutcome },
}

/// A `Phase` as plain text.
pub enum PhaseView {
    AwaitingInput,
    AwaitingStylesheet { fragment: Seq<char> },
    AwaitingWrite,
    AwaitingPreview,
    Finished { outcome: OutcomeView },
}

impl View for Phase {
    type V = PhaseView;

    open spec fn view(&self) -> PhaseView {
        match self {
            Phase::AwaitingInput => PhaseView::AwaitingInput,
            Phase::AwaitingStylesheet { fragment } => PhaseView::AwaitingStylesheet {
                fragment: fragment@,
            },
            Phase::AwaitingWrite => PhaseView::AwaitingWrite,
            Phase::AwaitingPreview => PhaseView::AwaitingPreview,
            Phase::Finished { outcome } => PhaseView::Finished { outcome: outcome@ },
        }
    }
}

/// What the host answers: the text that was read (any text, where the
/// action was not a read), or why the action failed.
pub type Reply = Result<String, String>;

/// A `Reply` as plain text.
pub open spec fn reply_text(reply: Reply) -> Result<Seq<char>, Seq<char>> {
    match reply {
        Ok(text) => Ok(text@),
        Err(cause) => Err(cause@),
    }
}

/// The state of a batch: the job, its settings, the index of the current
/// pair, which is also the number of pairs done, and what is awaited.
pub struct EngineView {
    pub job: JobView,
    pub settings: SettingsView,
    pub position: nat,
    pub phase: PhaseView,
}

impl EngineView {
    /// While the batch runs its job is paired and has a current pair, and a
    /// stylesheet is awaited only where one is configured.
    pub open spec fn well_formed(self) -> bool {
        match self.phase {
            PhaseView::Finished { .. } => true,
            PhaseView::AwaitingStylesheet { .. } => {
                &&& self.job.is_paired()
                &&& self.position < self.job.inputs.len()
                &&& self.settings.css_source is Some
            },
            _ => self.job.is_paired() && self.position < self.job.inputs.len(),
        }
    }

    /// The input of the current pair.
    pub open spec fn input(self) -> Seq<char> {
        self.job.inputs[self.position as int]
    }

    /// The output of the current pair.
    pub open spec fn output(self) -> Seq<char> {
        self.job.outputs[self.position as int]
    }

    /// The page of the current pair, given its stylesheet and its rendered
    /// input.
    pub open spec fn page(self, stylesheet: StylesheetView, fragment: Seq<char>) -> Seq<char> {
        document(resolved_title(self.settings.title_override, self.input()), stylesheet, fragment)
    }

    /// The batch ends with `outcome`.
    pub open spec fn finish(self, outcome: OutcomeView) -> (EngineView, ActionView) {
        (EngineView { phase: PhaseView::Finished { outcome }, ..self }, ActionView::Finish { outcome })
    }

    /// The outcome of a batch all of whose pairs are done.
    pub open spec fn completion(self) -> OutcomeView {
        if self.job.inputs.len() == 0 {
            OutcomeView::Nothing
        } else {
            OutcomeView::Success {
                input: self.job.inputs.last(),
                output: self.job.outputs[self.job.inputs.len() - 1],
            }
        }
    }

    /// Takes up the pair at `position`: its input is to be read, or, where
    /// there is no such pair, the batch has run to its end.
    pub open spec fn take_up(self, position: nat) -> (EngineView, ActionView) {
        let at = EngineView { position, ..self };
        if position < self.job.inputs.len() {
            (
                EngineView { phase: PhaseView::AwaitingInput, ..at },
                ActionView::ReadInput { path: at.input() },
            )
        } else {
            at.finish(self.completion())
        }
    }

    /// The page of the current pair is to be written.
    pub open spec fn write_page(self, stylesheet: StylesheetView, fragment: Seq<char>) -> (
        EngineView,
        ActionView,
    ) {
        (
            EngineView { phase: PhaseView::AwaitingWrite, ..self },
            ActionView::WriteOutput {
                path: self.output(),
                document: self.page(stylesheet, fragment),
            },
        )
    }
}

/// How a batch starts: a job that is not paired ends at once with
/// `Mismatch`; any other takes up its first pair.
pub open spec fn start_model(job: JobView, settings: SettingsView) -> (EngineView, ActionView) {
    let fresh = EngineView { job, settings, position: 0, phase: PhaseView::AwaitingInput };
    if job.is_paired() {
        fresh.take_up(0)
    } else {
        fresh.finish(OutcomeView::Mismatch)
    }
}

/// How a batch goes on: the state and the action that follow from `state`
/// and the host's `reply` to the action before.
///
/// - The input was read: it is rendered. Then the stylesheet is to be
///   read, where one is configured; else the page is to be written.
/// - The input could not be read: the batch ends with that failure.
/// - The stylesheet was read, or could not be: the page is to be written,
///   with the stylesheet inline, or with a link to it.
/// - The page was written: it is to be shown, where previews are on; else
///   the next pair is taken up.
/// - The page could not be written: the batch ends with that failure.
/// - The page was shown, or could not be: the next pair is taken up.
/// - The batch has ended: it stays so.
pub open spec fn step_model(state: EngineView, reply: Result<Seq<char>, Seq<char>>) -> (
    EngineView,
    ActionView,
) {
    match state.phase {
        PhaseView::AwaitingInput => match reply {
            Ok(markup) => {
                let fragment = rendered_fragment(markup);
                match state.settings.css_source {
                    Some(source) => (
                        EngineView { phase: PhaseView::AwaitingStylesheet { fragment }, ..state },
                        ActionView::ReadStylesheet { path: source },
                    ),
                    None => state.write_page(StylesheetView::Absent, fragment),
                }
            },
            Err(cause) => state.finish(
                OutcomeView::Failure {
                    stage: Stage::Read,
                    path: state.input(),
                    underlying_error: cause,
                },
            ),
        },
        PhaseView::AwaitingStylesheet { fragment } => match state.settings.css_source {
            Some(source) => state.write_page(resolved_stylesheet(source, reply), fragment),
            None => state.write_page(StylesheetView::Absent, fragment),
        },
        PhaseView::AwaitingWrite => match reply {
            Ok(_) => if state.settings.preview {
                (
                    EngineView { phase: PhaseView::AwaitingPreview, ..state },
                    ActionView::Preview { path: state.output() },
                )
            } else {
                state.take_up(state.position + 1)
            },
            Err(cause) => state.finish(
                OutcomeView::Failure {
                    stage: Stage::Write,
                    path: state.output(),
                    underlying_error: cause,
                },
            ),
        },
        PhaseView::AwaitingPreview => state.take_up(state.position + 1),
        PhaseView::Finished { outcome } => (state, ActionView::Finish { outcome }),
    }
}

/// A batch under way.
pub struct ConversionEngine {
    job: ConversionJob,
    settings: ConversionSettings,
    position: usize,
    phase: Phase,
}

impl View for ConversionEngine {
    type V = EngineView;

    closed spec fn view(&self) -> EngineView {
        EngineView {
            job: self.job@,
            settings: self.settings@,
            position: self.position as nat,
            phase: self.phase@,
        }
    }
}

impl ConversionEngine {
    #[verifier::type_invariant]
    spec fn is_well_formed(self) -> bool {
        self@.well_formed()
    }

    /// Starts the batch, and says what the host is to do first.
    ///
    /// A job with more inputs than outputs, or fewer, is not run: the first
    /// action is then `Finish` with `Mismatch`, and no file is touched.
    pub fn start(job: ConversionJob, settings: ConversionSettings) -> (started: (
        ConversionEngine,
        Action,
    ))
        ensures
            (started.0@, started.1@) == start_model(job@, settings@),
            started.0@.well_formed(),
    {
        if !job.is_paired() {
            let phase = Phase::Finished { outcome: ConversionOutcome::Mismatch };
            let engine = ConversionEngine { job, settings, position: 0, phase };
            (engine, Action::Finish { outcome: ConversionOutcome::Mismatch })
        } else if job.inputs.len() == 0 {
            let phase = Phase::Finished { outcome: ConversionOutcome::Nothing };
            let engine = ConversionEngine { job, settings, position: 0, phase };
            (engine, Action::Finish { outcome: ConversionOutcome::Nothing })
        } else {
            let path = job.inputs[0].clone();
            let engine = ConversionEngine { job, settings, position: 0, phase: Phase::AwaitingInput };
            (engine, Action::ReadInput { path })
        }
    }

    /// Takes the host's reply to the last action, and says what it is to do
    /// next.
    ///
    /// What `reply` holds matters as far as the last action goes: the text
    /// of an `Ok` after a read, the cause in an `Err` after a read or a
    /// write. After `Preview` any reply will do, and after `Finish` every
    /// reply is answered with the same `Finish`.
    pub fn step(&mut self, reply: Reply) -> (action: Action)
        ensures
            (final(self)@, action@) == step_model(old(self)@, reply_text(reply)),
            final(self)@.well_formed(),
    {
        proof {
            use_type_invariant(&*self);
        }
        match &self.phase {
            Phase::AwaitingInput => match reply {
                Ok(markup) => {
                    let fragment = render_fragment(markup.as_str());
                    match &self.settings.css_source {
                        Some(source) => {
                            let action = Action::ReadStylesheet { path: source.clone() };
                            self.phase = Phase::AwaitingStylesheet { fragment };
                            action
                        },
                        None => {
                            let absent = Stylesheet::Absent;
                            self.write_page(&absent, fragment.as_str())
                        },
                    }
                },
                Err(cause) => {
                    let path = self.job.inputs[self.position].clone();
                    self.finish(
                        ConversionOutcome::Failure {
                            stage: Stage::Read,
                            path,
                            underlying_error: cause,
                        },
                    )
                },
            },
            Phase::AwaitingStylesheet { fragment } => {
                let stylesheet = match &self.settings.css_source {
                    Some(source) => resolve_stylesheet(source.as_str(), reply),
                    None => Stylesheet::Absent,
                };
                let rendered = fragment.clone();
                self.write_page(&stylesheet, rendered.as_str())
            },
            Phase::AwaitingWrite => match reply {
                Ok(_) => {
                    if self.settings.preview {
                        let path = self.job.outputs[self.position].clone();
                        self.phase = Phase::AwaitingPreview;
                        Action::Preview { path }
                    } else {
                        self.advance()
                    }
                },
                Err(cause) => {
                    let path = self.job.outputs[self.position].clone();
                    self.finish(
                        ConversionOutcome::Failure {
                            stage: Stage::Write,
                            path,
                            underlying_error: cause,
                        },
                    )
                },
            },
            Phase::AwaitingPreview => self.advance(),
            Phase::Finished { outcome } => Action::Finish { outcome: outcome.duplicate() },
        }
    }

    /// The number of pairs done: each was read, rendered and written, and
    /// shown where previews are on.
    pub fn completed(&self) -> (done: usize)
        ensures
            done == self@.position,
    {
        self.position
    }

    /// The number of pairs in the job, going by its inputs.
    pub fn total(&self) -> (pairs: usize)
        ensures
            pairs == self@.job.inputs.len(),
    {
        self.job.inputs.len()
    }

    /// Whether the batch has ended.
    pub fn is_finished(&self) -> (finished: bool)
        ensures
            finished == (self@.phase is Finished),
    {
        match &self.phase {
            Phase::Finished { .. } => true,
            _ => false,
        }
    }

    fn finish(&mut self, outcome: ConversionOutcome) -> (action: Action)
        ensures
            (final(self)@, action@) == old(self)@.finish(outcome@),
    {
        let action = Action::Finish { outcome: outcome.duplicate() };
        self.phase = Phase::Finished { outcome };
        action
    }

    fn completion(&self) -> (outcome: ConversionOutcome)
        requires
            self@.job.is_paired(),
        ensures
            outcome@ == self@.completion(),
    {
        let pairs = self.job.inputs.len();
        if pairs == 0 {
            ConversionOutcome::Nothing
        } else {
            ConversionOutcome::Success {
                input: self.job.inputs[pairs - 1].clone(),
                output: self.job.outputs[pairs - 1].clone(),
            }
        }
    }

    fn take_up(&mut self, position: usize) -> (action: Action)
        requires
            old(self)@.job.is_paired(),
        ensures
            (final(self)@, action@) == old(self)@.take_up(position as nat),
            final(self)@.well_formed(),
    {
        proof {
            use_type_invariant(&*self);
        }
        if position < self.job.inputs.len() {
            self.position = position;
            self.phase = Phase::AwaitingInput;
            Action::ReadInput { path: self.job.inputs[position].clone() }
        } else {
            let outcome = self.completion();
            let action = self.finish(outcome);
            self.position = position;
            action
        }
    }

    fn advance(&mut self) -> (action: Action)
        requires
            old(self)@.job.is_paired(),
            old(self)@.position < old(self)@.job.inputs.len(),
        ensures
            (final(self)@, action@) == old(self)@.take_up(old(self)@.position + 1),
            final(self)@.well_formed(),
    {
        let pairs = self.job.inputs.len();
        assert(self.position < pairs);
        self.take_up(self.position + 1)
    }

    fn write_page(&mut self, stylesheet: &Stylesheet, fragment: &str) -> (action: Action)
        requires
            old(self)@.job.is_paired(),
            old(self)@.position < old(self)@.job.inputs.len(),
        ensures
            (final(self)@, action@) == old(self)@.write_page(stylesheet@, fragment@),
    {
        let title = resolve_title(
            &self.settings.title_override,
            self.job.inputs[self.position].as_str(),
        );
        let page = assemble_document(title.as_str(), stylesheet, fragment);
        let path = self.job.outputs[self.position].clone();
        self.phase = Phase::AwaitingWrite;
        Action::WriteOutput { path, document: page }
    }
}

} // verus!
