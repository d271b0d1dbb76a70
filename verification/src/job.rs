//! What a batch is asked to do: the pairs of paths, and the settings that
//! all pairs share.

use vstd::prelude::*;
use crate::title::text_of;

verus! {

/// The texts of a list of strings.
pub open spec fn texts_of(strings: Seq<String>) -> Seq<Seq<char>> {
    Seq::new(strings.len(), |i: int| strings[i]@)
}

/// The inputs of a batch and, at the same index, their outputs.
///
/// A job may be built with lists of different lengths; it is the engine
/// that refuses to run one.
pub struct ConversionJob {
    pub inputs: Vec<String>,
    pub outputs: Vec<String>,
}

/// A `ConversionJob` as plain text.
pub struct JobView {
    pub inputs: Seq<Seq<char>>,
    pub outputs: Seq<Seq<char>>,
}

impl JobView {
    /// Every input has its output.
    pub open spec fn is_paired(self) -> bool {
        self.inputs.len() == self.outputs.len()
    }
}

impl View for ConversionJob {
    type V = JobView;

    open spec fn view(&self) -> JobView {
        JobView { inputs: texts_of(self.inputs@), outputs: texts_of(self.outputs@) }
    }
}

impl ConversionJob {
    /// A job that reads `inputs` and writes each to the entry of `outputs`
    /// at the same index.
    pub fn new(inputs: Vec<String>, outputs: Vec<String>) -> (job: ConversionJob)
        ensures
            job.inputs == inputs,
            job.outputs == outputs,
    {
        ConversionJob { inputs, outputs }
    }

    /// Whether every input has its output.
    pub fn is_paired(&self) -> (paired: bool)
        ensures
            paired == self@.is_paired(),
    {
        self.inputs.len() == self.outputs.len()
    }

    /// Puts a pair at the end of the job.
    pub fn add_pair(&mut self, input: String, output: String)
        ensures
            final(self)@.inputs == old(self)@.inputs.push(input@),
            final(self)@.outputs == old(self)@.outputs.push(output@),
    {
        self.inputs.push(input);
        self.outputs.push(output);
        assert(self@.inputs =~= old(self)@.inputs.push(input@));
        assert(self@.outputs =~= old(self)@.outputs.push(output@));
    }

    /// Takes the pair at `index` out of the job, input and output both, and
    /// moves the pairs behind it up. Where the job has no input or no
    /// output at `index`, it is left as it is.
    pub fn remove_pair(&mut self, index: usize) -> (removed: bool)
        ensures
            removed == (index < old(self)@.inputs.len() && index < old(self)@.outputs.len()),
            removed ==> final(self)@.inputs == old(self)@.inputs.remove(index as int),
            removed ==> final(self)@.outputs == old(self)@.outputs.remove(index as int),
            !removed ==> final(self)@ == old(self)@,
    {
        if index < self.inputs.len() && index < self.outputs.len() {
            self.inputs.remove(index);
            self.outputs.remove(index);
            assert(self@.inputs =~= old(self)@.inputs.remove(index as int));
            assert(self@.outputs =~= old(self)@.outputs.remove(index as int));
            true
        } else {
            false
        }
    }
}

/// What all pairs of a batch share.
pub struct ConversionSettings {
    /// The title of every page; where it is absent or empty, each page is
    /// titled by the name of its input.
    pub title_override: Option<String>,
    /// Where the stylesheet is; a file to embed, or else an address to link
    /// to.
    pub css_source: Option<String>,
    /// Whether each page is shown once it is written.
    pub preview: bool,
}

/// `ConversionSettings` as plain text.
pub struct SettingsView {
    pub title_override: Option<Seq<char>>,
    pub css_source: Option<Seq<char>>,
    pub preview: bool,
}

impl View for ConversionSettings {
    type V = SettingsView;

    open spec fn view(&self) -> SettingsView {
        SettingsView {
            title_override: text_of(self.title_override),
            css_source: text_of(self.css_source),
            preview: self.preview,
        }
    }
}

impl ConversionSettings {
    /// Settings with the given title, stylesheet and preview flag.
    pub fn new(title_override: Option<String>, css_source: Option<String>, preview: bool) -> (settings:
        ConversionSettings)
        ensures
            settings.title_override == title_override,
            settings.css_source == css_source,
            settings.preview == preview,
    {
        ConversionSettings { title_override, css_source, preview }
    }
}

} // verus!
