//! What holds of every batch, whatever the host answers.
//!
//! A run is the start of a batch and the host's replies, in order. The laws
//! here are stated of `run`, which folds `step_model` over the replies, so
//! they hold of every way in which reads and writes may succeed or fail.

use vstd::prelude::*;
use crate::complete::{
    free_of_page_tags,
    is_complete_page,
    lemma_complete_page_has_free_parts,
    lemma_page_is_complete,
};
use crate::document::{document, resolved_stylesheet, StylesheetView};
use crate::engine::{start_model, step_model, ActionView, EngineView, PhaseView};
use crate::job::{JobView, SettingsView};
use crate::markup::rendered_fragment;
use crate::outcome::{OutcomeView, Stage};
use crate::title::resolved_title;

verus! {

/// What a host may answer, as plain text.
pub type ReplyText = Result<Seq<char>, Seq<char>>;

/// The state of a batch, and the action asked of the host, once the host
/// has answered with `replies`.
pub open spec fn run(job: JobView, settings: SettingsView, replies: Seq<ReplyText>) -> (
    EngineView,
    ActionView,
)
    decreases replies.len(),
{
    if replies.len() == 0 {
        start_model(job, settings)
    } else {
        step_model(run(job, settings, replies.drop_last()).0, replies.last())
    }
}

/// The outputs that were written in a run: the paths of the writes that
/// the host answered with success, in order.
pub open spec fn written(job: JobView, settings: SettingsView, replies: Seq<ReplyText>) -> Seq<
    Seq<char>,
>
    decreases replies.len(),
{
    if replies.len() == 0 {
        Seq::empty()
    } else {
        let earlier = written(job, settings, replies.drop_last());
        match (run(job, settings, replies.drop_last()).1, replies.last()) {
            (ActionView::WriteOutput { path, .. }, Ok(_)) => earlier.push(path),
            _ => earlier,
        }
    }
}

/// The number of pairs whose page is written in `state`.
pub open spec fn pages_written(state: EngineView) -> nat {
    if state.phase is AwaitingPreview {
        state.position + 1
    } else {
        state.position
    }
}

/// `action` is what a batch in `state` waits for an answer to.
pub open spec fn awaits(state: EngineView, action: ActionView) -> bool {
    match state.phase {
        PhaseView::AwaitingInput => action == (ActionView::ReadInput { path: state.input() }),
        PhaseView::AwaitingStylesheet { .. } => action == (ActionView::ReadStylesheet {
            path: state.settings.css_source->0,
        }),
        PhaseView::AwaitingWrite => action matches ActionView::WriteOutput { path, .. } && path
            == state.output(),
        PhaseView::AwaitingPreview => action == (ActionView::Preview { path: state.output() }),
        PhaseView::Finished { outcome } => action == (ActionView::Finish { outcome }),
    }
}

/// At every point of a run the engine is well formed, works on the job and
/// settings that it was started with, and has asked for what it waits for.
pub proof fn lemma_run_is_coherent(job: JobView, settings: SettingsView, replies: Seq<ReplyText>)
    ensures
        run(job, settings, replies).0.well_formed(),
        run(job, settings, replies).0.job == job,
        run(job, settings, replies).0.settings == settings,
        run(job, settings, replies).0.position <= job.inputs.len(),
        awaits(run(job, settings, replies).0, run(job, settings, replies).1),
    decreases replies.len(),
{
    if replies.len() > 0 {
        lemma_run_is_coherent(job, settings, replies.drop_last());
    }
}

/// A job with more inputs than outputs, or fewer, is answered with
/// `Mismatch` and with nothing else: the host is never asked to read or to
/// write, whatever it replies.
pub proof fn lemma_mismatch_touches_no_file(
    job: JobView,
    settings: SettingsView,
    replies: Seq<ReplyText>,
)
    requires
        !job.is_paired(),
    ensures
        run(job, settings, replies).1 == (ActionView::Finish { outcome: OutcomeView::Mismatch }),
        written(job, settings, replies).len() == 0,
    decreases replies.len(),
{
    if replies.len() > 0 {
        lemma_mismatch_touches_no_file(job, settings, replies.drop_last());
    }
}

/// A job whose lists are of one length is never answered with `Mismatch`.
pub proof fn lemma_paired_job_is_no_mismatch(
    job: JobView,
    settings: SettingsView,
    replies: Seq<ReplyText>,
)
    requires
        job.is_paired(),
    ensures
        run(job, settings, replies).1 != (ActionView::Finish { outcome: OutcomeView::Mismatch }),
        !(run(job, settings, replies).0.phase matches PhaseView::Finished { outcome } && outcome
            is Mismatch),
    decreases replies.len(),
{
    if replies.len() > 0 {
        lemma_paired_job_is_no_mismatch(job, settings, replies.drop_last());
        lemma_run_is_coherent(job, settings, replies.drop_last());
    }
}

/// Once a batch has ended it stays as it is: every further reply is
/// answered with the same `Finish`, and nothing more is written.
pub proof fn lemma_the_end_is_final(
    job: JobView,
    settings: SettingsView,
    replies: Seq<ReplyText>,
    more: Seq<ReplyText>,
)
    requires
        run(job, settings, replies).1 is Finish,
    ensures
        run(job, settings, replies + more) == run(job, settings, replies),
        written(job, settings, replies + more) == written(job, settings, replies),
    decreases more.len(),
{
    lemma_run_is_coherent(job, settings, replies);
    if more.len() == 0 {
        assert(replies + more =~= replies);
    } else {
        lemma_the_end_is_final(job, settings, replies, more.drop_last());
        assert((replies + more).drop_last() =~= replies + more.drop_last());
        assert((replies + more).last() == more.last());
    }
}

/// The first failure ends the batch: a read or a write that the host
/// answers with a failure is followed by `Finish`, with that failure, the
/// path that it was about and the host's cause.
pub proof fn lemma_first_failure_ends_the_batch(
    job: JobView,
    settings: SettingsView,
    replies: Seq<ReplyText>,
    cause: Seq<char>,
)
    ensures
        ({
            let (state, asked) = run(job, settings, replies);
            let (then, answer) = run(job, settings, replies.push(Err(cause)));
            &&& asked matches ActionView::ReadInput { path } ==> answer == (ActionView::Finish {
                outcome: OutcomeView::Failure { stage: Stage::Read, path, underlying_error: cause },
            })
            &&& asked matches ActionView::WriteOutput { path, .. } ==> answer == (
            ActionView::Finish {
                outcome: OutcomeView::Failure {
                    stage: Stage::Write,
                    path,
                    underlying_error: cause,
                },
            })
            &&& asked is ReadInput || asked is WriteOutput ==> then.position == state.position
        }),
{
    lemma_run_is_coherent(job, settings, replies);
    assert(replies.push(Err(cause)).drop_last() =~= replies);
}

/// The pages that a run has written are those of the first pairs of the
/// job, in the job's order, as many as the engine counts as written: no
/// pair is skipped, none is written twice, and none is written after a
/// failure.
pub proof fn lemma_written_pages_lead_the_job(
    job: JobView,
    settings: SettingsView,
    replies: Seq<ReplyText>,
)
    ensures
        pages_written(run(job, settings, replies).0) <= job.outputs.len(),
        written(job, settings, replies) == job.outputs.take(
            pages_written(run(job, settings, replies).0) as int,
        ),
    decreases replies.len(),
{
    lemma_run_is_coherent(job, settings, replies);
    let now = run(job, settings, replies).0;
    if replies.len() == 0 {
        assert(job.outputs.take(0) =~= Seq::empty());
    } else {
        let before = replies.drop_last();
        lemma_written_pages_lead_the_job(job, settings, before);
        lemma_run_is_coherent(job, settings, before);
        let (state, asked) = run(job, settings, before);
        let n = pages_written(state) as int;
        if state.phase is AwaitingWrite && replies.last() is Ok {
            assert(job.outputs.take(n).push(job.outputs[n]) =~= job.outputs.take(n + 1));
        }
    }
}

/// A batch that ends in success has written every output of the job.
pub proof fn lemma_success_wrote_every_page(
    job: JobView,
    settings: SettingsView,
    replies: Seq<ReplyText>,
)
    requires
        run(job, settings, replies).1 matches ActionView::Finish { outcome }
            && outcome.is_success(),
    ensures
        written(job, settings, replies) == job.outputs,
        run(job, settings, replies).0.position == job.inputs.len(),
    decreases replies.len(),
{
    lemma_run_is_coherent(job, settings, replies);
    lemma_written_pages_lead_the_job(job, settings, replies);
    if replies.len() > 0 {
        let before = replies.drop_last();
        lemma_run_is_coherent(job, settings, before);
        if run(job, settings, before).1 is Finish {
            lemma_success_wrote_every_page(job, settings, before);
            lemma_written_pages_lead_the_job(job, settings, before);
        }
    }
    assert(job.outputs.take(job.outputs.len() as int) =~= job.outputs);
}

/// The page of a pair depends on the pair, the settings and the host's
/// replies alone: two batches that are at the same point of a pair with
/// the same paths ask for the same thing after the same reply, wherever
/// the pair stands in their jobs, and however often it is converted.
pub proof fn lemma_page_depends_on_its_pair_alone(
    one: EngineView,
    other: EngineView,
    reply: ReplyText,
)
    requires
        one.phase is AwaitingInput || one.phase is AwaitingStylesheet,
        one.phase == other.phase,
        one.settings == other.settings,
        one.input() == other.input(),
        one.output() == other.output(),
    ensures
        step_model(one, reply).1 == step_model(other, reply).1,
{
}

/// A title that is configured and not empty is the title of every page of
/// the batch.
pub proof fn lemma_override_titles_every_page(
    state: EngineView,
    stylesheet: StylesheetView,
    fragment: Seq<char>,
)
    requires
        state.settings.title_override matches Some(title) && title.len() > 0,
    ensures
        state.page(stylesheet, fragment) == document(
            state.settings.title_override->0,
            stylesheet,
            fragment,
        ),
{
}

/// The stylesheet with which the page of the current pair is written.
pub open spec fn stylesheet_in_use(state: EngineView, reply: ReplyText) -> StylesheetView {
    match (state.phase, state.settings.css_source) {
        (PhaseView::AwaitingStylesheet { .. }, Some(source)) => resolved_stylesheet(source, reply),
        _ => StylesheetView::Absent,
    }
}

/// The fragment around which the page of the current pair is written.
pub open spec fn fragment_in_use(state: EngineView, reply: ReplyText) -> Seq<char> {
    match (state.phase, reply) {
        (PhaseView::AwaitingStylesheet { fragment }, _) => fragment,
        (_, Ok(markup)) => rendered_fragment(markup),
        _ => Seq::empty(),
    }
}

/// Every page that the engine asks to have written is the page of the
/// current pair, for its output; and it is a complete page exactly if
/// neither its title nor its stylesheet's text nor its rendered input holds
/// a page tag.
pub proof fn lemma_engine_writes_complete_pages(state: EngineView, reply: ReplyText)
    requires
        state.well_formed(),
        step_model(state, reply).1 is WriteOutput,
    ensures
        ({
            let stylesheet = stylesheet_in_use(state, reply);
            let fragment = fragment_in_use(state, reply);
            let title = resolved_title(state.settings.title_override, state.input());
            &&& step_model(state, reply).1 == (ActionView::WriteOutput {
                path: state.output(),
                document: document(title, stylesheet, fragment),
            })
            &&& is_complete_page(document(title, stylesheet, fragment)) <==> free_of_page_tags(
                title,
            ) && free_of_page_tags(stylesheet.text()) && free_of_page_tags(fragment)
        }),
{
    let stylesheet = stylesheet_in_use(state, reply);
    let fragment = fragment_in_use(state, reply);
    let title = resolved_title(state.settings.title_override, state.input());
    if free_of_page_tags(title) && free_of_page_tags(stylesheet.text()) && free_of_page_tags(
        fragment,
    ) {
        lemma_page_is_complete(title, stylesheet, fragment);
    }
    if is_complete_page(document(title, stylesheet, fragment)) {
        lemma_complete_page_has_free_parts(title, stylesheet, fragment);
    }
}

} // verus!
