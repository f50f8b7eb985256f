//! What the front-end asks the program around it to do.

use vstd::prelude::*;
use crate::event::Reply;
use crate::invocation::{Invocation, InvocationView};

verus! {

/// What the progress indicator shows.
#[derive(Clone, Copy, PartialEq, Eq, Debug, Structural)]
pub enum Progress {
    /// Nothing done yet.
    Empty,
    /// All done.
    Complete,
}

/// Something to be done outside the library. The first five change what the
/// interface shows; the last four are work whose result has to be handed
/// back as an event.
#[derive(Clone, Debug, PartialEq, Eq)]
pub enum Effect {
    /// Append `text` to the log view.
    AppendLog { text: String },
    /// Set the progress indicator.
    ShowProgress { progress: Progress },
    /// Show `path` as the selected project directory.
    ShowSelection { path: String },
    /// Make the HTML and PDF actions available.
    EnableReports,
    /// Make the install action unavailable.
    DisableInstall,
    /// Run an external tool to its end and capture its output.
    Run { invocation: Invocation },
    /// Write `contents` to the file at `path`, replacing what is there.
    WriteFile { path: String, contents: Vec<u8> },
    /// Look whether a file exists at `path`.
    CheckExists { path: String },
    /// Hand `uri` to the default handler.
    OpenUri { uri: String },
}

/// An effect with its texts as sequences of characters.
pub enum EffectView {
    AppendLog { text: Seq<char> },
    ShowProgress { progress: Progress },
    ShowSelection { path: Seq<char> },
    EnableReports,
    DisableInstall,
    Run { invocation: InvocationView },
    WriteFile { path: Seq<char>, contents: Seq<u8> },
    CheckExists { path: Seq<char> },
    OpenUri { uri: Seq<char> },
}

impl View for Effect {
    type V = EffectView;

    open spec fn view(&self) -> EffectView {
        match *self {
            Effect::AppendLog { text } => EffectView::AppendLog { text: text@ },
            Effect::ShowProgress { progress } => EffectView::ShowProgress { progress },
            Effect::ShowSelection { path } => EffectView::ShowSelection { path: path@ },
            Effect::EnableReports => EffectView::EnableReports,
            Effect::DisableInstall => EffectView::DisableInstall,
            Effect::Run { invocation } => EffectView::Run { invocation: invocation@ },
            Effect::WriteFile { path, contents } => EffectView::WriteFile {
                path: path@,
                contents: contents@,
            },
            Effect::CheckExists { path } => EffectView::CheckExists { path: path@ },
            Effect::OpenUri { uri } => EffectView::OpenUri { uri: uri@ },
        }
    }
}

impl EffectView {
    /// The kind of result that this effect brings back as an event; none for
    /// effects that only change what the interface shows.
    pub open spec fn expects(self) -> Option<Reply> {
        match self {
            EffectView::Run { .. } => Some(Reply::Process),
            EffectView::WriteFile { .. } => Some(Reply::Write),
            EffectView::CheckExists { .. } => Some(Reply::Existence),
            EffectView::OpenUri { .. } => Some(Reply::Open),
            _ => None,
        }
    }
}

impl Effect {
    /// The kind of result that this effect brings back as an event, if any.
    pub fn expects(&self) -> (r: Option<Reply>)
        ensures
            r == self@.expects(),
    {
        match self {
            Effect::Run { .. } => Some(Reply::Process),
            Effect::WriteFile { .. } => Some(Reply::Write),
            Effect::CheckExists { .. } => Some(Reply::Existence),
            Effect::OpenUri { .. } => Some(Reply::Open),
            _ => None,
        }
    }
}

/// The views of the effects held by `v`, in order.
pub open spec fn effect_views(v: Seq<Effect>) -> Seq<EffectView> {
    Seq::new(v.len(), |i: int| v[i]@)
}

/// The texts that `effects` append to the log, in order.
pub open spec fn logged(effects: Seq<EffectView>) -> Seq<Seq<char>>
    decreases effects.len(),
{
    if effects.len() == 0 {
        Seq::empty()
    } else {
        let before = logged(effects.drop_last());
        match effects.last() {
            EffectView::AppendLog { text } => before.push(text),
            _ => before,
        }
    }
}

} // verus!
