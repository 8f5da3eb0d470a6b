//! The state of the viewer: at most one document and at most one error
//! message, and how an attempt to open a file changes them.

use crate::error::{parse_failure, read_failure, LoadError};
use crate::model::JsonModel;
use crate::parse::{parse_json, parsed};
use crate::render::{nodes_model, render_json, rendering, RenderModel, RenderNode};
use crate::value::JsonValue;
use vstd::prelude::*;

verus! {

/// The state of the viewer.
#[derive(Debug)]
pub struct JsonPreviewApp {
    /// The document on display, if one was loaded.
    pub json_data: Option<JsonValue>,
    /// The message of the last failure, if the last attempt failed.
    pub error: Option<String>,
}

/// The model of the viewer's state.
pub struct StateModel {
    pub document: Option<JsonModel>,
    pub error: Option<Seq<char>>,
}

/// What came of asking the user for a file and reading it.
#[derive(Debug, PartialEq, Eq)]
pub enum OpenOutcome {
    /// The user closed the dialog without choosing a file.
    Cancelled,
    /// The chosen file could not be read; the cause as text.
    ReadFailed(String),
    /// The chosen file was read; its whole content.
    Loaded(String),
}

/// The model of an `OpenOutcome`.
pub enum OutcomeModel {
    Cancelled,
    ReadFailed(Seq<char>),
    Loaded(Seq<char>),
}

/// What one frame shows below the button.
#[derive(Debug, PartialEq, Eq)]
pub struct Frame {
    /// The error message, shown highlighted.
    pub banner: Option<String>,
    /// The tree of the document, shown in a scrollable region.
    pub tree: Option<Vec<RenderNode>>,
}

/// The model of a `Frame`.
pub struct FrameModel {
    pub banner: Option<Seq<char>>,
    pub tree: Option<Seq<RenderModel>>,
}

impl View for JsonPreviewApp {
    type V = StateModel;

    open spec fn view(&self) -> StateModel {
        StateModel {
            document: match self.json_data {
                Some(value) => Some(value@),
                None => None,
            },
            error: match self.error {
                Some(message) => Some(message@),
                None => None,
            },
        }
    }
}

impl View for OpenOutcome {
    type V = OutcomeModel;

    open spec fn view(&self) -> OutcomeModel {
        match self {
            OpenOutcome::Cancelled => OutcomeModel::Cancelled,
            OpenOutcome::ReadFailed(cause) => OutcomeModel::ReadFailed(cause@),
            OpenOutcome::Loaded(content) => OutcomeModel::Loaded(content@),
        }
    }
}

impl View for Frame {
    type V = FrameModel;

    open spec fn view(&self) -> FrameModel {
        FrameModel {
            banner: match self.banner {
                Some(message) => Some(message@),
                None => None,
            },
            tree: match self.tree {
                Some(nodes) => Some(nodes_model(nodes@)),
                None => None,
            },
        }
    }
}

impl StateModel {
    /// The document on display, if there is one, has no key twice within an
    /// object.
    pub open spec fn wf(self) -> bool {
        match self.document {
            Some(document) => document.wf(),
            None => true,
        }
    }
}

/// The state before anything was opened: no document, no error.
pub open spec fn initial() -> StateModel {
    StateModel { document: None, error: None }
}

/// The state after an attempt that ended in `result`, an error given by its
/// message: a document replaces the one on display and clears the error; a
/// failure sets the error and leaves the document as it was.
pub open spec fn installed(state: StateModel, result: Result<JsonModel, Seq<char>>) -> StateModel {
    match result {
        Ok(document) => StateModel { document: Some(document), error: None },
        Err(message) => StateModel { document: state.document, error: Some(message) },
    }
}

/// The state after a file's content was read.
pub open spec fn after_text(state: StateModel, content: Seq<char>) -> StateModel {
    match parsed(content) {
        Ok(document) => installed(state, Ok(document)),
        Err(cause) => installed(state, Err(parse_failure(cause))),
    }
}

/// The state after the user was asked for a file.
pub open spec fn after_open(state: StateModel, outcome: OutcomeModel) -> StateModel {
    match outcome {
        OutcomeModel::Cancelled => state,
        OutcomeModel::ReadFailed(cause) => installed(state, Err(read_failure(cause))),
        OutcomeModel::Loaded(content) => after_text(state, content),
    }
}

/// What a frame shows in a given state: the error if there is one, and the
/// tree of the document, from level zero, if there is one.
pub open spec fn shown(state: StateModel) -> FrameModel {
    FrameModel {
        banner: state.error,
        tree: match state.document {
            Some(document) => Some(rendering(document, 0)),
            None => None,
        },
    }
}

/// The model of the result of an attempt: the document, or the message of
/// the error.
pub open spec fn result_model(result: Result<JsonValue, LoadError>) -> Result<
    JsonModel,
    Seq<char>,
> {
    match result {
        Ok(value) => Ok(value@),
        Err(error) => Err(error.message_text()),
    }
}

impl Default for JsonPreviewApp {
    fn default() -> (app: JsonPreviewApp)
        ensures
            app@ == initial(),
            app@.wf(),
    {
        JsonPreviewApp { json_data: None, error: None }
    }
}

impl JsonPreviewApp {
    /// Takes in the result of an attempt to load a document.
    pub fn install(&mut self, result: Result<JsonValue, LoadError>)
        ensures
            final(self)@ == installed(old(self)@, result_model(result)),
            old(self)@.wf() && (result matches Ok(value) ==> value@.wf()) ==> final(self)@.wf(),
    {
        match result {
            Ok(value) => {
                self.json_data = Some(value);
                self.error = None;
            },
            Err(error) => {
                self.error = Some(error.message());
            },
        }
    }

    /// Parses the content of a file and takes in the result.
    pub fn load_text(&mut self, content: &str)
        ensures
            final(self)@ == after_text(old(self)@, content@),
            old(self)@.wf() ==> final(self)@.wf(),
    {
        self.install(parse_json(content));
    }

    /// Takes in what came of asking the user for a file.
    pub fn open(&mut self, outcome: OpenOutcome)
        ensures
            final(self)@ == after_open(old(self)@, outcome@),
            old(self)@.wf() ==> final(self)@.wf(),
    {
        match outcome {
            OpenOutcome::Cancelled => {},
            OpenOutcome::ReadFailed(cause) => {
                self.install(Err(LoadError::Read(cause)));
            },
            OpenOutcome::Loaded(content) => {
                self.load_text(content.as_str());
            },
        }
    }

    /// What to show in this state.
    pub fn frame(&self) -> (frame: Frame)
        ensures
            frame@ == shown(self@),
    {
        let banner = match &self.error {
            Some(message) => Some(message.clone()),
            None => None,
        };
        let tree = match &self.json_data {
            Some(value) => Some(render_json(value, 0)),
            None => None,
        };
        Frame { banner, tree }
    }

    /// One pass of the redraw loop: takes in what came of the button, if it
    /// was clicked in this frame, and says what to show.
    pub fn update(&mut self, opened: Option<OpenOutcome>) -> (frame: Frame)
        ensures
            final(self)@ == (match opened {
                Some(outcome) => after_open(old(self)@, outcome@),
                None => old(self)@,
            }),
            frame@ == shown(final(self)@),
            old(self)@.wf() ==> final(self)@.wf(),
    {
        match opened {
            Some(outcome) => {
                self.open(outcome);
            },
            None => {},
        }
        self.frame()
    }
}

/// Opening the same content twice in a row leaves the state that opening it
/// once leaves.
pub proof fn lemma_reopening_changes_nothing(state: StateModel, content: Seq<char>)
    ensures
        after_open(after_open(state, OutcomeModel::Loaded(content)), OutcomeModel::Loaded(content))
            == after_open(state, OutcomeModel::Loaded(content)),
{
}

/// The state after a document was loaded depends on the content alone:
/// whatever was on display before, the same content gives the same document
/// and no error.
pub proof fn lemma_loaded_state_is_of_content(
    first: StateModel,
    second: StateModel,
    content: Seq<char>,
)
    requires
        parsed(content) is Ok,
    ensures
        after_open(first, OutcomeModel::Loaded(content)) == after_open(
            second,
            OutcomeModel::Loaded(content),
        ),
        after_open(first, OutcomeModel::Loaded(content)).document == Some(parsed(content)->Ok_0),
        after_open(first, OutcomeModel::Loaded(content)).error is None,
{
}

/// Content that does not parse leaves the document on display as it was and
/// sets the error to the parse-failure message with the parser's cause.
pub proof fn lemma_malformed_content_keeps_document(state: StateModel, content: Seq<char>)
    requires
        parsed(content) is Err,
    ensures
        after_open(state, OutcomeModel::Loaded(content)).document == state.document,
        after_open(state, OutcomeModel::Loaded(content)).error == Some(
            parse_failure(parsed(content)->Err_0),
        ),
{
}

/// A file that could not be read leaves the document on display as it was
/// and sets the error to the read-failure message with the cause.
pub proof fn lemma_unread_file_keeps_document(state: StateModel, cause: Seq<char>)
    ensures
        after_open(state, OutcomeModel::ReadFailed(cause)).document == state.document,
        after_open(state, OutcomeModel::ReadFailed(cause)).error == Some(read_failure(cause)),
{
}

/// Whatever comes of an attempt, a document once on display is not lost:
/// the state keeps having one.
pub proof fn lemma_document_stays(state: StateModel, outcome: OutcomeModel)
    requires
        state.document is Some,
    ensures
        after_open(state, outcome).document is Some,
{
}

} // verus!
