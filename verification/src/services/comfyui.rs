//! Client of the remote image generation server: workflow templates, the
//! messages of its event stream, and the course of one generation job.

use vstd::prelude::*;
use crate::json::{canonical_json, count_field, is_object, json_document, json_text,
    optional_text_field, parse_document, parse_value, present_member, read_count,
    read_optional_text, read_present, read_text, text_field, texts_among, texts_of, value_text,
    Json};
use crate::paths::{file_name_of, join_path, joined_path, path_file_name};
use crate::services::{chain, request_below, request_fits, url_below, HttpReply, Method, Payload,
    Request, ServiceError};
use crate::text::{chars_of, replace, replace_all, str_eq, string_views};

verus! {

/// Why a workflow template could not be resolved.
#[derive(Debug, Clone, Copy, PartialEq, Eq)]
pub enum WorkflowError {
    /// The template is not a JSON document.
    Template,
    /// The value of the parameter at `index` holds a quote, a backslash or a
    /// control character, which would change the document's structure.
    UnsafeValue { index: usize },
    /// After the parameter at `index` was substituted the text is no longer a
    /// JSON document.
    Substitution { index: usize },
}

/// The token that stands for the parameter `key` in a template.
pub open spec fn placeholder(key: Seq<char>) -> Seq<char> {
    seq!['{', '{'] + key + seq!['}', '}']
}

/// A character that may stand inside a JSON string as it is.
pub open spec fn is_plain_char(c: char) -> bool {
    c != '"' && c != '\\' && (c as u32) >= 0x20
}

/// A value that can be put into a JSON string without changing the
/// document's structure.
pub open spec fn is_plain(value: Seq<char>) -> bool {
    forall|i: int| 0 <= i < value.len() ==> is_plain_char(#[trigger] value[i])
}

/// The position of the first parameter at or after `i` whose value is not
/// plain.
pub open spec fn first_unsafe(params: Seq<(String, String)>, i: int) -> Option<int>
    decreases params.len() - i,
{
    if i < 0 || i >= params.len() {
        None
    } else if !is_plain(params[i].1@) {
        Some(i)
    } else {
        first_unsafe(params, i + 1)
    }
}

/// The document `doc`, given as compact text, after the parameters from
/// position `i` on were substituted one after the other. Each step replaces
/// the parameter's placeholder by its value in the text and reads the result
/// as a document again.
pub open spec fn substituted(doc: Seq<char>, params: Seq<(String, String)>, i: int) -> Result<
    Seq<char>,
    WorkflowError,
>
    decreases params.len() - i,
{
    if i < 0 || i >= params.len() {
        Ok(doc)
    } else {
        match canonical_json(replace_all(doc, placeholder(params[i].0@), params[i].1@)) {
            Some(next) => substituted(next, params, i + 1),
            None => Err(WorkflowError::Substitution { index: i as usize }),
        }
    }
}

/// The compact text of the workflow that a template and a list of
/// parameters resolve to, or why they resolve to none.
pub open spec fn resolved_workflow(template: Seq<char>, params: Seq<(String, String)>) -> Result<
    Seq<char>,
    WorkflowError,
> {
    match first_unsafe(params, 0) {
        Some(i) => Err(WorkflowError::UnsafeValue { index: i as usize }),
        None => match canonical_json(template) {
            Some(doc) => substituted(doc, params, 0),
            None => Err(WorkflowError::Template),
        },
    }
}

/// Whether `value` can be put into a JSON string as it is.
pub fn is_plain_value(value: &str) -> (r: bool)
    ensures
        r == is_plain(value@),
{
    let chars = chars_of(value);
    let mut i: usize = 0;
    while i < chars.len()
        invariant
            i <= chars.len(),
            chars@ == value@,
            forall|j: int| 0 <= j < i ==> is_plain_char(#[trigger] chars@[j]),
        decreases chars.len() - i,
    {
        let c = chars[i];
        if c == '"' || c == '\\' || (c as u32) < 0x20 {
            assert(!is_plain_char(value@[i as int]));
            return false;
        }
        i += 1;
    }
    true
}

/// The token that stands for the parameter `key` in a template.
pub fn placeholder_for(key: &str) -> (r: String)
    ensures
        r@ == placeholder(key@),
{
    proof {
        reveal_strlit("{{");
        reveal_strlit("}}");
    }
    let mut r = String::from_str("{{");
    r.append(key);
    r.append("}}");
    assert(r@ =~= placeholder(key@));
    r
}

/// One message of the server's event stream, as far as the client reads it.
#[derive(Debug, Clone, PartialEq, Eq)]
pub enum ServerMessage {
    /// A step counter and its maximum.
    Progress { value: u32, max: u32 },
    /// The node that is now executing, if any, and the job it belongs to.
    Executing { node: Option<String>, prompt_id: Option<String> },
    /// A node has finished; `image` is the file name of the first image among
    /// its outputs, if it put out any.
    Executed { node_id: String, job_id: String, image: Option<String> },
    /// Any other message, and any message that could not be read.
    Ignored,
}

/// The description of one output image: an object with the strings
/// `filename`, `subfolder` and `type`.
pub open spec fn is_image(item: Json) -> bool {
    item is Object && text_field(item, "filename"@) is Some && text_field(item, "subfolder"@)
        is Some && text_field(item, "type"@) is Some
}

/// Every item describes an output image.
pub open spec fn all_images(items: Seq<Json>) -> bool {
    forall|i: int| 0 <= i < items.len() ==> is_image(#[trigger] items[i])
}

/// The images that the data of an `executed` message lists under
/// `output.images`. The outer level is nothing where the output is malformed;
/// the inner level is nothing where the message lists no images at all.
pub open spec fn output_images(data: Json) -> Option<Option<Seq<Json>>> {
    match present_member(data, "output"@) {
        None => Some(None),
        Some(output) => if output is Object {
            match present_member(output, "images"@) {
                None => Some(None),
                Some(Json::List(items)) => if all_images(items@) {
                    Some(Some(items@))
                } else {
                    None
                },
                Some(_) => None,
            }
        } else {
            None
        },
    }
}

/// The file name of the first of the listed images.
pub open spec fn first_image(images: Option<Seq<Json>>) -> Option<String> {
    match images {
        Some(items) => if items.len() > 0 {
            text_field(items[0], "filename"@)
        } else {
            None
        },
        None => None,
    }
}

/// What the data of a `progress` message says.
pub open spec fn decoded_progress(data: Json) -> ServerMessage {
    if data is Object {
        match (count_field(data, "value"@), count_field(data, "max"@)) {
            (Some(value), Some(max)) => ServerMessage::Progress { value, max },
            _ => ServerMessage::Ignored,
        }
    } else {
        ServerMessage::Ignored
    }
}

/// What the data of an `executing` message says.
pub open spec fn decoded_executing(data: Json) -> ServerMessage {
    if data is Object {
        match (optional_text_field(data, "node"@), optional_text_field(data, "prompt_id"@)) {
            (Some(node), Some(prompt_id)) => ServerMessage::Executing { node, prompt_id },
            _ => ServerMessage::Ignored,
        }
    } else {
        ServerMessage::Ignored
    }
}

/// What the data of an `executed` message says.
pub open spec fn decoded_executed(data: Json) -> ServerMessage {
    if data is Object {
        match (text_field(data, "node"@), output_images(data), text_field(data, "prompt_id"@)) {
            (Some(node_id), Some(images), Some(job_id)) => ServerMessage::Executed {
                node_id,
                job_id,
                image: first_image(images),
            },
            _ => ServerMessage::Ignored,
        }
    } else {
        ServerMessage::Ignored
    }
}

/// What a message of the given type with the given data says. A message
/// without data, of another type, or with data that does not fit its type is
/// ignored.
pub open spec fn dispatched(kind: Seq<char>, data: Option<Json>) -> ServerMessage {
    match data {
        Some(data) => if kind == "progress"@ {
            decoded_progress(data)
        } else if kind == "executing"@ {
            decoded_executing(data)
        } else if kind == "executed"@ {
            decoded_executed(data)
        } else {
            ServerMessage::Ignored
        },
        None => ServerMessage::Ignored,
    }
}

/// What an envelope says: an object with the string `type` and, where it
/// carries any, its `data`.
pub open spec fn decoded(doc: Json) -> ServerMessage {
    if doc is Object {
        match text_field(doc, "type"@) {
            Some(kind) => dispatched(kind@, present_member(doc, "data"@)),
            None => ServerMessage::Ignored,
        }
    } else {
        ServerMessage::Ignored
    }
}

/// What a text frame of the stream says; a frame that is no JSON document is
/// ignored.
pub open spec fn decoded_frame(text: Seq<char>) -> ServerMessage {
    match json_document(text) {
        Some(doc) => decoded(doc),
        None => ServerMessage::Ignored,
    }
}

/// Whether the item describes an output image.
pub fn check_image(item: &Json) -> (r: bool)
    ensures
        r == is_image(*item),
{
    is_object(item) && read_text(item, "filename").is_some() && read_text(
        item,
        "subfolder",
    ).is_some() && read_text(item, "type").is_some()
}

/// Reads the images listed under `output.images` and hands back the file
/// name of the first one.
pub fn read_first_image(data: &Json) -> (r: Option<Option<String>>)
    ensures
        match output_images(*data) {
            Some(images) => r == Some(first_image(images)),
            None => r is None,
        },
{
    let output = match read_present(data, "output") {
        None => {
            return Some(None);
        },
        Some(output) => output,
    };
    if !is_object(output) {
        return None;
    }
    let items = match read_present(output, "images") {
        None => {
            return Some(None);
        },
        Some(Json::List(items)) => items,
        Some(_) => {
            return None;
        },
    };
    let mut i: usize = 0;
    while i < items.len()
        invariant
            i <= items.len(),
            present_member(*data, "output"@) == Some(*output),
            *output is Object,
            present_member(*output, "images"@) == Some(Json::List(*items)),
            forall|j: int| 0 <= j < i ==> is_image(#[trigger] items@[j]),
        decreases items.len() - i,
    {
        if !check_image(&items[i]) {
            assert(!is_image(items@[i as int]));
            return None;
        }
        i += 1;
    }
    if items.len() > 0 {
        Some(read_text(&items[0], "filename"))
    } else {
        Some(None)
    }
}

impl ServerMessage {
    /// Reads a message of the given type with the given data.
    pub fn dispatch(kind: &str, data: Option<&Json>) -> (r: ServerMessage)
        ensures
            r == dispatched(
                kind@,
                match data {
                    Some(d) => Some(*d),
                    None => None,
                },
            ),
    {
        let data = match data {
            Some(data) => data,
            None => {
                return ServerMessage::Ignored;
            },
        };
        if str_eq(kind, "progress") {
            if !is_object(data) {
                return ServerMessage::Ignored;
            }
            match (read_count(data, "value"), read_count(data, "max")) {
                (Some(value), Some(max)) => ServerMessage::Progress { value, max },
                _ => ServerMessage::Ignored,
            }
        } else if str_eq(kind, "executing") {
            if !is_object(data) {
                return ServerMessage::Ignored;
            }
            match (read_optional_text(data, "node"), read_optional_text(data, "prompt_id")) {
                (Some(node), Some(prompt_id)) => ServerMessage::Executing { node, prompt_id },
                _ => ServerMessage::Ignored,
            }
        } else if str_eq(kind, "executed") {
            if !is_object(data) {
                return ServerMessage::Ignored;
            }
            match (read_text(data, "node"), read_first_image(data), read_text(data, "prompt_id")) {
                (Some(node_id), Some(image), Some(job_id)) => ServerMessage::Executed {
                    node_id,
                    job_id,
                    image,
                },
                _ => ServerMessage::Ignored,
            }
        } else {
            ServerMessage::Ignored
        }
    }

    /// Reads an envelope.
    pub fn decode(doc: &Json) -> (r: ServerMessage)
        ensures
            r == decoded(*doc),
    {
        if !is_object(doc) {
            return ServerMessage::Ignored;
        }
        match read_text(doc, "type") {
            Some(kind) => ServerMessage::dispatch(kind.as_str(), read_present(doc, "data")),
            None => ServerMessage::Ignored,
        }
    }

    /// Reads a text frame of the stream.
    pub fn from_text(text: &str) -> (r: ServerMessage)
        ensures
            r == decoded_frame(text@),
    {
        match parse_document(text) {
            Some(doc) => ServerMessage::decode(&doc),
            None => ServerMessage::Ignored,
        }
    }
}

/// A part of a whole: `num` out of `den`.
#[derive(Debug, Clone, Copy, PartialEq, Eq)]
pub struct Fraction {
    pub num: u32,
    pub den: u32,
}

/// What the client tells its user about a running job.
#[derive(Debug, Clone, PartialEq, Eq)]
pub enum ProgressEvent {
    /// The job was submitted and has not begun.
    Queued,
    /// The server reports step `step` of `total_steps`.
    StepProgress { step: u32, total_steps: u32 },
    /// The server began to execute the node `node_id`.
    NodeStarted { node_id: String },
    /// The server has finished the job.
    Completed,
}

impl ProgressEvent {
    /// How far the job has come: `step` out of `total_steps` for a step
    /// report with a positive total, all of it once completed, and none of
    /// it otherwise.
    pub open spec fn share(self) -> Fraction {
        match self {
            ProgressEvent::StepProgress { step, total_steps } => if total_steps > 0 {
                Fraction { num: step, den: total_steps }
            } else {
                Fraction { num: 0, den: 1 }
            },
            ProgressEvent::Completed => Fraction { num: 1, den: 1 },
            _ => Fraction { num: 0, den: 1 },
        }
    }

    /// The line that describes the event to the user.
    pub open spec fn status_line(self) -> Seq<char> {
        match self {
            ProgressEvent::Queued => "Starting..."@,
            ProgressEvent::StepProgress { .. } => "Generating..."@,
            ProgressEvent::NodeStarted { node_id } => "Processing node: "@ + node_id@,
            ProgressEvent::Completed => "Complete"@,
        }
    }

    /// How far the job has come. The denominator is never zero, and a step
    /// report with a total of zero counts as no progress.
    pub fn fraction(&self) -> (r: Fraction)
        ensures
            r == self.share(),
            r.den > 0,
            (*self matches ProgressEvent::StepProgress { total_steps, .. } && total_steps == 0)
                ==> r.num == 0,
    {
        match self {
            ProgressEvent::StepProgress { step, total_steps } => if *total_steps > 0 {
                Fraction { num: *step, den: *total_steps }
            } else {
                Fraction { num: 0, den: 1 }
            },
            ProgressEvent::Completed => Fraction { num: 1, den: 1 },
            _ => Fraction { num: 0, den: 1 },
        }
    }

    /// The line that describes the event to the user.
    pub fn status(&self) -> (r: String)
        ensures
            r@ == self.status_line(),
    {
        match self {
            ProgressEvent::Queued => String::from_str("Starting..."),
            ProgressEvent::StepProgress { .. } => String::from_str("Generating..."),
            ProgressEvent::NodeStarted { node_id } => chain("Processing node: ", node_id.as_str()),
            ProgressEvent::Completed => String::from_str("Complete"),
        }
    }
}

/// Generation progress as a screen shows it.
#[derive(Debug, Clone, PartialEq, Eq)]
pub struct GenerationProgress {
    pub status: String,
    pub progress: Fraction,
    pub current_step: u32,
    pub total_steps: u32,
    pub node_id: Option<String>,
}

impl GenerationProgress {
    /// The progress that an event stands for.
    pub fn from_event(event: &ProgressEvent) -> (r: GenerationProgress)
        ensures
            r.status@ == event.status_line(),
            r.progress == event.share(),
            match *event {
                ProgressEvent::StepProgress { step, total_steps } => r.current_step == step
                    && r.total_steps == total_steps && r.node_id is None,
                ProgressEvent::NodeStarted { node_id } => r.current_step == 0 && r.total_steps == 0
                    && r.node_id == Some(node_id),
                _ => r.current_step == 0 && r.total_steps == 0 && r.node_id is None,
            },
    {
        let status = event.status();
        let progress = event.fraction();
        match event {
            ProgressEvent::StepProgress { step, total_steps } => GenerationProgress {
                status,
                progress,
                current_step: *step,
                total_steps: *total_steps,
                node_id: None,
            },
            ProgressEvent::NodeStarted { node_id } => GenerationProgress {
                status,
                progress,
                current_step: 0,
                total_steps: 0,
                node_id: Some(node_id.clone()),
            },
            _ => GenerationProgress {
                status,
                progress,
                current_step: 0,
                total_steps: 0,
                node_id: None,
            },
        }
    }
}

/// Why a generation job came to nothing.
#[derive(Debug, Clone, PartialEq, Eq)]
pub enum GenerationError {
    /// The workflow template could not be resolved.
    Workflow(WorkflowError),
    /// The job could not be submitted.
    Service(ServiceError),
    /// The event stream broke or ended before the server signalled
    /// completion.
    Connectivity,
    /// The server signalled completion, but no output image was ever
    /// reported.
    EmptyResult,
    /// The output image could not be fetched or stored.
    Artifact,
    /// The user interrupted the job and the stream ended without a
    /// completion signal.
    CancelledByUser,
}

/// Result of image generation.
#[derive(Debug, Clone, PartialEq, Eq)]
pub struct GenerationResult {
    pub image_path: String,
    pub prompt_id: String,
}

/// Where a generation job stands.
#[derive(Debug, Clone, PartialEq, Eq)]
pub enum JobState {
    /// Submitted; nothing has been heard of it yet.
    Queued,
    /// The server works on it; the field is the node last reported.
    Executing(Option<String>),
    /// The server has finished; the output image of the given file name is
    /// being fetched.
    Retrieving(String),
    /// The output image is stored at the given path.
    Completed(String),
    Failed(GenerationError),
    Cancelled,
}

/// One generation job, from its submission to its outcome.
#[derive(Debug, Clone, PartialEq, Eq)]
pub struct GenerationJob {
    /// The identifier the server gave the job when it was submitted.
    pub prompt_id: String,
    pub state: JobState,
    /// The file name of the output image last reported.
    pub candidate: Option<String>,
    /// Whether the user has asked for the job to be interrupted.
    pub interrupted: bool,
}

impl GenerationJob {
    /// The stream is still read: the job is queued or executing.
    pub open spec fn listening(self) -> bool {
        self.state is Queued || self.state is Executing
    }

    /// The job after a message of the stream. Once the job no longer
    /// listens, no message changes it. A step report means the job is
    /// executing. A report of a node makes it the current node. A report of
    /// no node for this job is the signal of completion: the job goes on to
    /// fetch the image last reported, or fails where none was. A finished
    /// node with an image makes that image the one to fetch.
    pub open spec fn after_message(self, msg: ServerMessage) -> GenerationJob {
        if !self.listening() {
            self
        } else {
            match msg {
                ServerMessage::Progress { .. } => GenerationJob {
                    state: match self.state {
                        JobState::Executing(node) => JobState::Executing(node),
                        _ => JobState::Executing(None),
                    },
                    ..self
                },
                ServerMessage::Executing { node: Some(node), .. } => GenerationJob {
                    state: JobState::Executing(Some(node)),
                    ..self
                },
                ServerMessage::Executing { node: None, prompt_id: Some(id) } => if id@
                    == self.prompt_id@ {
                    GenerationJob {
                        state: match self.candidate {
                            Some(file) => JobState::Retrieving(file),
                            None => JobState::Failed(GenerationError::EmptyResult),
                        },
                        ..self
                    }
                } else {
                    self
                },
                ServerMessage::Executed { image: Some(file), .. } => GenerationJob {
                    candidate: Some(file),
                    ..self
                },
                _ => self,
            }
        }
    }

    /// What a message of the stream makes the client tell its user.
    pub open spec fn event_of(self, msg: ServerMessage) -> Option<ProgressEvent> {
        if !self.listening() {
            None
        } else {
            match msg {
                ServerMessage::Progress { value, max } => Some(
                    ProgressEvent::StepProgress { step: value, total_steps: max },
                ),
                ServerMessage::Executing { node: Some(node), .. } => Some(
                    ProgressEvent::NodeStarted { node_id: node },
                ),
                ServerMessage::Executing { node: None, prompt_id: Some(id) } => if id@
                    == self.prompt_id@ {
                    Some(ProgressEvent::Completed)
                } else {
                    None
                },
                _ => None,
            }
        }
    }

    /// The job after its stream ended, by a close or by an error, without a
    /// signal of completion: cancelled where the user had interrupted it,
    /// failed otherwise. A job that no longer listens is not changed.
    pub open spec fn after_stream_end(self) -> GenerationJob {
        if !self.listening() {
            self
        } else if self.interrupted {
            GenerationJob { state: JobState::Cancelled, ..self }
        } else {
            GenerationJob { state: JobState::Failed(GenerationError::Connectivity), ..self }
        }
    }

    /// A job that was just submitted under the identifier `prompt_id`.
    pub fn new(prompt_id: String) -> (r: GenerationJob)
        ensures
            r.prompt_id == prompt_id,
            r.state == JobState::Queued,
            r.candidate is None,
            !r.interrupted,
    {
        GenerationJob { prompt_id, state: JobState::Queued, candidate: None, interrupted: false }
    }

    /// Whether the stream is still to be read.
    pub fn is_listening(&self) -> (r: bool)
        ensures
            r == self.listening(),
    {
        match self.state {
            JobState::Queued => true,
            JobState::Executing(_) => true,
            _ => false,
        }
    }

    /// Takes in one message of the stream and says what to tell the user.
    pub fn on_message(&mut self, msg: &ServerMessage) -> (r: Option<ProgressEvent>)
        ensures
            *final(self) == old(self).after_message(*msg),
            r == old(self).event_of(*msg),
    {
        if !self.is_listening() {
            return None;
        }
        match msg {
            ServerMessage::Progress { value, max } => {
                let keeps_node = match self.state {
                    JobState::Executing(_) => true,
                    _ => false,
                };
                if !keeps_node {
                    self.state = JobState::Executing(None);
                }
                Some(ProgressEvent::StepProgress { step: *value, total_steps: *max })
            },
            ServerMessage::Executing { node: Some(node), .. } => {
                self.state = JobState::Executing(Some(node.clone()));
                Some(ProgressEvent::NodeStarted { node_id: node.clone() })
            },
            ServerMessage::Executing { node: None, prompt_id: Some(id) } => {
                if *id == self.prompt_id {
                    self.state = match &self.candidate {
                        Some(file) => JobState::Retrieving(file.clone()),
                        None => JobState::Failed(GenerationError::EmptyResult),
                    };
                    Some(ProgressEvent::Completed)
                } else {
                    None
                }
            },
            ServerMessage::Executed { image: Some(file), .. } => {
                self.candidate = Some(file.clone());
                None
            },
            _ => None,
        }
    }

    /// Takes in one text frame of the stream.
    pub fn on_text(&mut self, text: &str) -> (r: Option<ProgressEvent>)
        ensures
            *final(self) == old(self).after_message(decoded_frame(text@)),
            r == old(self).event_of(decoded_frame(text@)),
    {
        let msg = ServerMessage::from_text(text);
        self.on_message(&msg)
    }

    /// Notes that the user asked for the job to be interrupted. The job goes
    /// on listening: it is cancelled only when its stream ends.
    pub fn interrupt(&mut self)
        ensures
            *final(self) == (GenerationJob { interrupted: true, ..*old(self) }),
    {
        self.interrupted = true;
    }

    /// Takes in the end of the stream, by a close or by an error.
    pub fn on_stream_end(&mut self)
        ensures
            *final(self) == old(self).after_stream_end(),
    {
        if self.is_listening() {
            if self.interrupted {
                self.state = JobState::Cancelled;
            } else {
                self.state = JobState::Failed(GenerationError::Connectivity);
            }
        }
    }

    /// The URL from which to fetch the output image, while it is to be
    /// fetched.
    pub fn artifact_url(&self, base_url: &str) -> (r: Option<String>)
        ensures
            match self.state {
                JobState::Retrieving(file) => r matches Some(url) && url@ == base_url@
                    + "/view?filename="@ + file@ + "&type=output"@,
                _ => r is None,
            },
    {
        match &self.state {
            JobState::Retrieving(file) => {
                let mut url = chain(base_url, "/view?filename=");
                url.append(file.as_str());
                url.append("&type=output");
                Some(url)
            },
            _ => None,
        }
    }

    /// The path under which to store the output image, while it is to be
    /// fetched: its file name joined to the output directory.
    pub fn artifact_path(&self, output_dir: &str) -> (r: Option<String>)
        ensures
            match self.state {
                JobState::Retrieving(file) => r matches Some(path) && path@ == joined_path(
                    output_dir@,
                    file@,
                ),
                _ => r is None,
            },
    {
        match &self.state {
            JobState::Retrieving(file) => Some(join_path(output_dir, file.as_str())),
            _ => None,
        }
    }

    /// Takes in how fetching and storing the output image went: with the
    /// path it was stored at the job is completed, with none it has failed.
    /// A job whose image is not being fetched is not changed.
    pub fn on_artifact(&mut self, stored_at: Option<String>)
        ensures
            *final(self) == (if old(self).state is Retrieving {
                GenerationJob {
                    state: match stored_at {
                        Some(path) => JobState::Completed(path),
                        None => JobState::Failed(GenerationError::Artifact),
                    },
                    ..*old(self)
                }
            } else {
                *old(self)
            }),
    {
        let fetching = match self.state {
            JobState::Retrieving(_) => true,
            _ => false,
        };
        if fetching {
            self.state = match stored_at {
                Some(path) => JobState::Completed(path),
                None => JobState::Failed(GenerationError::Artifact),
            };
        }
    }

    /// The outcome of the job, once it has one.
    pub fn outcome(&self) -> (r: Option<Result<GenerationResult, GenerationError>>)
        ensures
            match self.state {
                JobState::Completed(path) => r == Some(
                    Ok::<GenerationResult, GenerationError>(
                        GenerationResult { image_path: path, prompt_id: self.prompt_id },
                    ),
                ),
                JobState::Failed(e) => r == Some(Err::<GenerationResult, GenerationError>(e)),
                JobState::Cancelled => r == Some(
                    Err::<GenerationResult, GenerationError>(GenerationError::CancelledByUser),
                ),
                _ => r is None,
            },
    {
        match &self.state {
            JobState::Completed(path) => Some(
                Ok(
                    GenerationResult {
                        image_path: path.clone(),
                        prompt_id: self.prompt_id.clone(),
                    },
                ),
            ),
            JobState::Failed(e) => Some(Err(clone_error(e))),
            JobState::Cancelled => Some(Err(GenerationError::CancelledByUser)),
            _ => None,
        }
    }
}

impl GenerationJob {
    /// The job after a run of messages, taken in one after the other.
    pub open spec fn after_messages(self, msgs: Seq<ServerMessage>) -> GenerationJob
        decreases msgs.len(),
    {
        if msgs.len() == 0 {
            self
        } else {
            self.after_messages(msgs.drop_last()).after_message(msgs.last())
        }
    }

    /// The message that signals the completion of this job: no node is
    /// executing, and the job named is this one.
    pub open spec fn is_completion(self, msg: ServerMessage) -> bool {
        msg matches ServerMessage::Executing { node: None, prompt_id: Some(id) } && id@
            == self.prompt_id@
    }

    /// Completion is not revoked: once a listening job has taken in the
    /// signal of its completion, whatever messages follow change nothing
    /// and make the client tell its user nothing.
    pub proof fn law_completion_is_final(
        self,
        signal: ServerMessage,
        later: Seq<ServerMessage>,
        next: ServerMessage,
    )
        requires
            self.listening(),
            self.is_completion(signal),
        ensures
            !self.after_message(signal).listening(),
            self.after_message(signal).after_messages(later) == self.after_message(signal),
            self.after_message(signal).after_messages(later).event_of(next) is None,
        decreases later.len(),
    {
        if later.len() > 0 {
            self.law_completion_is_final(signal, later.drop_last(), next);
        }
    }

    /// A job that completes without any image having been reported fails
    /// with an empty result; with an image reported it goes on to fetch the
    /// one reported last.
    pub proof fn law_completion_needs_an_image(self, signal: ServerMessage)
        requires
            self.listening(),
            self.is_completion(signal),
        ensures
            self.candidate is None ==> self.after_message(signal).state == JobState::Failed(
                GenerationError::EmptyResult,
            ),
            self.candidate matches Some(file) ==> self.after_message(signal).state
                == JobState::Retrieving(file),
    {
    }

    /// No message changes whether the user has interrupted the job.
    pub proof fn lemma_messages_keep_interrupt(self, msgs: Seq<ServerMessage>)
        ensures
            self.after_messages(msgs).interrupted == self.interrupted,
        decreases msgs.len(),
    {
        if msgs.len() > 0 {
            self.lemma_messages_keep_interrupt(msgs.drop_last());
        }
    }

    /// An interrupted job whose stream ends while it still listens, whatever
    /// messages came in between, is cancelled: it is neither completed nor
    /// failed.
    pub proof fn law_interrupt_then_end_cancels(self, msgs: Seq<ServerMessage>)
        requires
            (GenerationJob { interrupted: true, ..self }).after_messages(msgs).listening(),
        ensures
            (GenerationJob { interrupted: true, ..self }).after_messages(
                msgs,
            ).after_stream_end().state == JobState::Cancelled,
    {
        (GenerationJob { interrupted: true, ..self }).lemma_messages_keep_interrupt(msgs);
    }
}

/// How long the client waits for an answer of the generation server, in
/// seconds. Generating an image takes minutes.
pub const REQUEST_TIMEOUT_SECS: u64 = 600;

/// The number of events that the path from a job to its user holds at most.
pub const PROGRESS_CAPACITY: usize = 100;

/// The path on which a job's events reach whoever shows them: a queue of
/// bounded length, read in the order in which it was written. One side
/// writes and one side reads. The events are advice only, so an event that
/// finds the queue full is dropped.
pub struct ProgressChannel {
    queue: std::collections::VecDeque<ProgressEvent>,
}

impl View for ProgressChannel {
    type V = Seq<ProgressEvent>;

    closed spec fn view(&self) -> Seq<ProgressEvent> {
        self.queue@
    }
}

impl ProgressChannel {
    #[verifier::type_invariant]
    spec fn bounded(self) -> bool {
        self.queue@.len() <= PROGRESS_CAPACITY
    }

    /// An empty path.
    pub fn new() -> (r: ProgressChannel)
        ensures
            r@.len() == 0,
    {
        ProgressChannel { queue: std::collections::VecDeque::new() }
    }

    /// The number of events that wait to be read, which is never more than
    /// the capacity.
    pub fn len(&self) -> (r: usize)
        ensures
            r == self@.len(),
            r <= PROGRESS_CAPACITY,
    {
        proof {
            use_type_invariant(self);
        }
        self.queue.len()
    }

    /// Writes an event and says whether it was taken: it goes to the end of
    /// the queue, unless the queue is full, in which case it is dropped.
    pub fn send(&mut self, event: ProgressEvent) -> (r: bool)
        ensures
            r == (old(self)@.len() < PROGRESS_CAPACITY),
            final(self)@ == (if r {
                old(self)@.push(event)
            } else {
                old(self)@
            }),
    {
        proof {
            use_type_invariant(&*self);
        }
        if self.queue.len() < PROGRESS_CAPACITY {
            let mut queue = std::collections::VecDeque::new();
            std::mem::swap(&mut queue, &mut self.queue);
            queue.push_back(event);
            self.queue = queue;
            true
        } else {
            false
        }
    }

    /// Reads the event that has waited longest, if any waits.
    pub fn recv(&mut self) -> (r: Option<ProgressEvent>)
        ensures
            match r {
                Some(event) => old(self)@.len() > 0 && event == old(self)@[0] && final(self)@
                    == old(self)@.drop_first(),
                None => old(self)@.len() == 0 && final(self)@ == old(self)@,
            },
    {
        proof {
            use_type_invariant(&*self);
        }
        let mut queue = std::collections::VecDeque::new();
        std::mem::swap(&mut queue, &mut self.queue);
        let r = queue.pop_front();
        assert(r is Some ==> queue@ =~= old(self).queue@.drop_first());
        self.queue = queue;
        r
    }
}

/// A copy of a service error.
pub fn clone_service_error(e: &ServiceError) -> (r: ServiceError)
    ensures
        r == *e,
{
    match e {
        ServiceError::NotConnected => ServiceError::NotConnected,
        ServiceError::Rejected { status, body } => ServiceError::Rejected {
            status: *status,
            body: body.clone(),
        },
        ServiceError::Protocol => ServiceError::Protocol,
        ServiceError::InvalidFileName => ServiceError::InvalidFileName,
    }
}

/// A copy of a generation error.
pub fn clone_error(e: &GenerationError) -> (r: GenerationError)
    ensures
        r == *e,
{
    match e {
        GenerationError::Workflow(w) => GenerationError::Workflow(*w),
        GenerationError::Service(s) => GenerationError::Service(clone_service_error(s)),
        GenerationError::Connectivity => GenerationError::Connectivity,
        GenerationError::EmptyResult => GenerationError::EmptyResult,
        GenerationError::Artifact => GenerationError::Artifact,
        GenerationError::CancelledByUser => GenerationError::CancelledByUser,
    }
}

/// A lower-case hexadecimal digit.
pub open spec fn is_lower_hex(c: char) -> bool {
    let n = c as u32;
    (0x30 <= n <= 0x39) || (0x61 <= n <= 0x66)
}

/// The text of a random identifier: 36 characters in groups of 8, 4, 4, 4
/// and 12 lower-case hexadecimal digits with a hyphen between neighbouring
/// groups. The third group begins with the version, 4, and the fourth with
/// one of `8`, `9`, `a` and `b`.
pub open spec fn is_client_id(id: Seq<char>) -> bool {
    &&& id.len() == 36
    &&& forall|i: int|
        0 <= i < 36 ==> if i == 8 || i == 13 || i == 18 || i == 23 {
            #[trigger] id[i] == '-'
        } else {
            is_lower_hex(id[i])
        }
    &&& id[14] == '4'
    &&& id[19] == '8' || id[19] == '9' || id[19] == 'a' || id[19] == 'b'
}

/// `uuid::Uuid::new_v4`, written out by `to_string`: a random identifier of
/// version 4 in the hyphenated lower-case form. Which one comes back is left
/// open; every one has that form.
#[verifier::external_body]
fn fresh_client_id() -> (r: String)
    ensures
        is_client_id(r@),
{
    uuid::Uuid::new_v4().to_string()
}

/// The list found in a description of node types under
/// `<node_type>.input.required.<field>[0]`, where the description has that
/// shape.
pub open spec fn catalog_list(info: Json, node_type: Seq<char>, field: Seq<char>) -> Option<
    Seq<Json>,
> {
    match info.member(node_type) {
        Some(node) => match node.member("input"@) {
            Some(input) => match input.member("required"@) {
                Some(required) => match required.member(field) {
                    Some(choice) => match choice.element(0) {
                        Some(list) => list.items(),
                        None => None,
                    },
                    None => None,
                },
                None => None,
            },
            None => None,
        },
        None => None,
    }
}

/// The names that a description of node types offers for a field: the
/// strings of its list, and none where the description lacks the list.
pub open spec fn catalog_names(info: Json, node_type: Seq<char>, field: Seq<char>) -> Seq<
    Seq<char>,
> {
    match catalog_list(info, node_type, field) {
        Some(items) => texts_among(items),
        None => Seq::empty(),
    }
}

/// The names that a description of node types offers for a field.
pub fn names_in_catalog(info: &Json, node_type: &str, field: &str) -> (r: Vec<String>)
    ensures
        string_views(r@) == catalog_names(*info, node_type@, field@),
{
    let empty: Vec<String> = Vec::new();
    assert(string_views(empty@) =~= Seq::<Seq<char>>::empty());
    let node = match info.get(node_type) {
        Some(node) => node,
        None => {
            return empty;
        },
    };
    let input = match node.get("input") {
        Some(input) => input,
        None => {
            return empty;
        },
    };
    let required = match input.get("required") {
        Some(required) => required,
        None => {
            return empty;
        },
    };
    let choice = match required.get(field) {
        Some(choice) => choice,
        None => {
            return empty;
        },
    };
    let list = match choice.at(0) {
        Some(list) => list,
        None => {
            return empty;
        },
    };
    match list.as_array() {
        Some(items) => texts_of(items),
        None => empty,
    }
}

/// What an answer to a catalog query holds: the names it offers for the
/// field, an error where the server refused, and an error where the answer
/// is no JSON document.
pub open spec fn catalog_answer(reply: HttpReply, node_type: Seq<char>, field: Seq<char>) -> Result<
    Seq<Seq<char>>,
    ServiceError,
> {
    if !reply.succeeded() {
        Err(ServiceError::Rejected { status: reply.status, body: reply.body })
    } else {
        match json_document(reply.body@) {
            Some(info) => Ok(catalog_names(info, node_type, field)),
            None => Err(ServiceError::Protocol),
        }
    }
}

/// Reads the answer to a catalog query.
pub fn read_catalog(reply: &HttpReply, node_type: &str, field: &str) -> (r: Result<
    Vec<String>,
    ServiceError,
>)
    ensures
        match r {
            Ok(names) => catalog_answer(*reply, node_type@, field@) == Ok::<
                Seq<Seq<char>>,
                ServiceError,
            >(string_views(names@)),
            Err(e) => catalog_answer(*reply, node_type@, field@) == Err::<
                Seq<Seq<char>>,
                ServiceError,
            >(e),
        },
{
    if !reply.is_success() {
        return Err(ServiceError::Rejected { status: reply.status, body: reply.body.clone() });
    }
    match parse_document(reply.body.as_str()) {
        Some(info) => Ok(names_in_catalog(&info, node_type, field)),
        None => Err(ServiceError::Protocol),
    }
}

/// The string that an answer holds under `field`: an error where the server
/// refused, and an error where the answer is no JSON object with that
/// string.
pub open spec fn named_answer(reply: HttpReply, field: Seq<char>) -> Result<String, ServiceError> {
    if !reply.succeeded() {
        Err(ServiceError::Rejected { status: reply.status, body: reply.body })
    } else {
        match json_document(reply.body@) {
            Some(doc) => match text_field(doc, field) {
                Some(name) => Ok(name),
                None => Err(ServiceError::Protocol),
            },
            None => Err(ServiceError::Protocol),
        }
    }
}

/// Reads the string that an answer holds under `field`.
pub fn read_named(reply: &HttpReply, field: &str) -> (r: Result<String, ServiceError>)
    ensures
        r == named_answer(*reply, field@),
{
    if !reply.is_success() {
        return Err(ServiceError::Rejected { status: reply.status, body: reply.body.clone() });
    }
    match parse_document(reply.body.as_str()) {
        Some(doc) => match read_text(&doc, field) {
            Some(name) => Ok(name),
            None => Err(ServiceError::Protocol),
        },
        None => Err(ServiceError::Protocol),
    }
}

/// What to send to upload an image: a multipart form with the file under
/// `image` and the text field `overwrite`.
#[derive(Debug, Clone, PartialEq, Eq)]
pub struct UploadPlan {
    pub url: String,
    pub file_name: String,
    pub mime_type: String,
    pub overwrite: String,
}

/// What to send to submit a job: a JSON object with the workflow under
/// `prompt` and the client's identifier under `client_id`.
pub struct PromptSubmission {
    pub url: String,
    pub workflow: serde_json::Value,
    pub client_id: String,
}

/// What to do to run a job: submit it, then listen on the event stream.
pub struct GenerationPlan {
    pub submission: PromptSubmission,
    pub stream_url: String,
}

/// Service for interacting with the generation server.
pub struct ComfyUiService {
    pub base_url: Option<String>,
    pub client_id: String,
}

impl ComfyUiService {
    /// The URL of the event stream for this client: the base URL with
    /// `http://` turned into `ws://`, then `/ws` and the client's identifier.
    pub open spec fn stream_url_of(self) -> Option<Seq<char>> {
        match self.base_url {
            Some(base) => Some(
                replace_all(base@, "http://"@, "ws://"@) + "/ws?clientId="@ + self.client_id@,
            ),
            None => None,
        }
    }

    /// A service without a base URL, under a fresh random client identifier,
    /// which is made of hexadecimal digits and hyphens.
    pub fn new() -> (r: ComfyUiService)
        ensures
            r.base_url is None,
            is_client_id(r.client_id@),
    {
        ComfyUiService { base_url: None, client_id: fresh_client_id() }
    }

    /// Sets the base URL, which comes from the tunnel.
    pub fn set_base_url(&mut self, url: String)
        ensures
            final(self).base_url == Some(url),
            final(self).client_id == old(self).client_id,
    {
        self.base_url = Some(url);
    }

    /// The current base URL.
    pub fn get_base_url(&self) -> (r: Result<String, ServiceError>)
        ensures
            match self.base_url {
                Some(base) => r == Ok::<String, ServiceError>(base),
                None => r == Err::<String, ServiceError>(ServiceError::NotConnected),
            },
    {
        match &self.base_url {
            Some(base) => Ok(base.clone()),
            None => Err(ServiceError::NotConnected),
        }
    }

    /// The request that probes whether the server can be reached.
    pub fn probe(&self) -> (r: Result<Request, ServiceError>)
        ensures
            request_fits(r, self.base_url, Method::Get, "/system_stats"@, Payload::Empty),
    {
        request_below(&self.base_url, Method::Get, "/system_stats", Payload::Empty)
    }

    /// Whether the server can be reached, given the answer to the probe if
    /// there was one: the base URL is set and the answer is a success.
    pub fn is_connected(&self, reply: Option<&HttpReply>) -> (r: bool)
        ensures
            r == (self.base_url is Some && match reply {
                Some(answer) => answer.succeeded(),
                None => false,
            }),
    {
        match (&self.base_url, reply) {
            (Some(_), Some(answer)) => answer.is_success(),
            _ => false,
        }
    }

    /// What to send to upload the image at `image_path`, which goes under
    /// its file name.
    pub fn upload_image(&self, image_path: &str) -> (r: Result<UploadPlan, ServiceError>)
        ensures
            match (url_below(self.base_url, "/upload/image"@), path_file_name(image_path@)) {
                (None, _) => r == Err::<UploadPlan, ServiceError>(ServiceError::NotConnected),
                (Some(_), None) => r == Err::<UploadPlan, ServiceError>(
                    ServiceError::InvalidFileName,
                ),
                (Some(url), Some(name)) => r matches Ok(plan) && plan.url@ == url
                    && plan.file_name@ == name && plan.mime_type@ == "image/jpeg"@
                    && plan.overwrite@ == "true"@,
            },
    {
        let url = match &self.base_url {
            Some(base) => chain(base.as_str(), "/upload/image"),
            None => {
                return Err(ServiceError::NotConnected);
            },
        };
        match file_name_of(image_path) {
            Some(file_name) => Ok(
                UploadPlan {
                    url,
                    file_name,
                    mime_type: String::from_str("image/jpeg"),
                    overwrite: String::from_str("true"),
                },
            ),
            None => Err(ServiceError::InvalidFileName),
        }
    }

    /// Reads the answer to an upload: the name the server stored the image
    /// under.
    pub fn uploaded_name(reply: &HttpReply) -> (r: Result<String, ServiceError>)
        ensures
            r == named_answer(*reply, "name"@),
    {
        read_named(reply, "name")
    }

    /// Resolves a workflow template: checks every value, reads the template
    /// as a JSON document, then for each parameter in turn writes the
    /// document out as text, replaces the parameter's placeholder by its
    /// value and reads the text as a document again. Placeholders may stand
    /// in any string of the document.
    pub fn prepare_workflow(&self, workflow_json: &str, params: &Vec<(String, String)>) -> (r:
        Result<serde_json::Value, WorkflowError>)
        ensures
            match r {
                Ok(workflow) => resolved_workflow(workflow_json@, params@) == Ok::<
                    Seq<char>,
                    WorkflowError,
                >(json_text(workflow)),
                Err(e) => resolved_workflow(workflow_json@, params@) == Err::<
                    Seq<char>,
                    WorkflowError,
                >(e),
            },
    {
        let mut k: usize = 0;
        while k < params.len()
            invariant
                k <= params.len(),
                first_unsafe(params@, 0) == first_unsafe(params@, k as int),
            decreases params.len() - k,
        {
            if !is_plain_value(params[k].1.as_str()) {
                return Err(WorkflowError::UnsafeValue { index: k });
            }
            k += 1;
        }
        let mut workflow = match parse_value(workflow_json) {
            Ok(value) => value,
            Err(_) => {
                return Err(WorkflowError::Template);
            },
        };
        let mut i: usize = 0;
        while i < params.len()
            invariant
                i <= params.len(),
                first_unsafe(params@, 0) is None,
                resolved_workflow(workflow_json@, params@) == substituted(
                    json_text(workflow),
                    params@,
                    i as int,
                ),
            decreases params.len() - i,
        {
            let token = placeholder_for(params[i].0.as_str());
            let text = value_text(&workflow).unwrap();
            let updated = replace(text.as_str(), token.as_str(), params[i].1.as_str());
            workflow = match parse_value(updated.as_str()) {
                Ok(value) => value,
                Err(_) => {
                    return Err(WorkflowError::Substitution { index: i });
                },
            };
            i += 1;
        }
        Ok(workflow)
    }

    /// What to send to queue a workflow for execution.
    pub fn queue_prompt(&self, workflow: serde_json::Value) -> (r: Result<
        PromptSubmission,
        ServiceError,
    >)
        ensures
            match url_below(self.base_url, "/prompt"@) {
                Some(url) => r matches Ok(submission) && submission.url@ == url
                    && submission.workflow == workflow && submission.client_id == self.client_id,
                None => r matches Err(e) && e == ServiceError::NotConnected,
            },
    {
        match &self.base_url {
            Some(base) => Ok(
                PromptSubmission {
                    url: chain(base.as_str(), "/prompt"),
                    workflow,
                    client_id: self.client_id.clone(),
                },
            ),
            None => Err(ServiceError::NotConnected),
        }
    }

    /// Reads the answer to a submission: the identifier the server gave the
    /// job. A refusal carries the body of the server's answer as it came.
    pub fn prompt_id(reply: &HttpReply) -> (r: Result<String, ServiceError>)
        ensures
            r == named_answer(*reply, "prompt_id"@),
    {
        read_named(reply, "prompt_id")
    }

    /// Plans a generation: resolves the template, and says what to submit
    /// and where to listen for the job's events.
    pub fn generate(&self, workflow_json: &str, params: &Vec<(String, String)>) -> (r: Result<
        GenerationPlan,
        GenerationError,
    >)
        ensures
            match (self.base_url, resolved_workflow(workflow_json@, params@)) {
                (None, _) => r matches Err(e) && e == GenerationError::Service(
                    ServiceError::NotConnected,
                ),
                (Some(_), Err(w)) => r matches Err(e) && e == GenerationError::Workflow(w),
                (Some(_), Ok(text)) => r matches Ok(plan) && json_text(plan.submission.workflow)
                    == text && Some(plan.submission.url@) == url_below(self.base_url, "/prompt"@)
                    && plan.submission.client_id == self.client_id && Some(plan.stream_url@)
                    == self.stream_url_of(),
            },
    {
        let base = match self.get_base_url() {
            Ok(base) => base,
            Err(e) => {
                return Err(GenerationError::Service(e));
            },
        };
        let workflow = match self.prepare_workflow(workflow_json, params) {
            Ok(workflow) => workflow,
            Err(w) => {
                return Err(GenerationError::Workflow(w));
            },
        };
        let submission = match self.queue_prompt(workflow) {
            Ok(submission) => submission,
            Err(e) => {
                return Err(GenerationError::Service(e));
            },
        };
        proof {
            reveal_strlit("http://");
        }
        let mut stream_url = replace(base.as_str(), "http://", "ws://");
        stream_url.append("/ws?clientId=");
        stream_url.append(self.client_id.as_str());
        Ok(GenerationPlan { submission, stream_url })
    }

    /// The request for the checkpoints the server offers.
    pub fn get_checkpoints(&self) -> (r: Result<Request, ServiceError>)
        ensures
            request_fits(
                r,
                self.base_url,
                Method::Get,
                "/object_info/CheckpointLoaderSimple"@,
                Payload::Empty,
            ),
    {
        request_below(
            &self.base_url,
            Method::Get,
            "/object_info/CheckpointLoaderSimple",
            Payload::Empty,
        )
    }

    /// Reads the answer to the request for checkpoints. An answer without
    /// the expected list offers none.
    pub fn checkpoints(reply: &HttpReply) -> (r: Result<Vec<String>, ServiceError>)
        ensures
            match r {
                Ok(names) => catalog_answer(*reply, "CheckpointLoaderSimple"@, "ckpt_name"@)
                    == Ok::<Seq<Seq<char>>, ServiceError>(string_views(names@)),
                Err(e) => catalog_answer(*reply, "CheckpointLoaderSimple"@, "ckpt_name"@) == Err::<
                    Seq<Seq<char>>,
                    ServiceError,
                >(e),
            },
    {
        read_catalog(reply, "CheckpointLoaderSimple", "ckpt_name")
    }

    /// The request for the LoRAs the server offers.
    pub fn get_loras(&self) -> (r: Result<Request, ServiceError>)
        ensures
            request_fits(r, self.base_url, Method::Get, "/object_info/LoraLoader"@, Payload::Empty),
    {
        request_below(&self.base_url, Method::Get, "/object_info/LoraLoader", Payload::Empty)
    }

    /// Reads the answer to the request for LoRAs. An answer without the
    /// expected list offers none.
    pub fn loras(reply: &HttpReply) -> (r: Result<Vec<String>, ServiceError>)
        ensures
            match r {
                Ok(names) => catalog_answer(*reply, "LoraLoader"@, "lora_name"@) == Ok::<
                    Seq<Seq<char>>,
                    ServiceError,
                >(string_views(names@)),
                Err(e) => catalog_answer(*reply, "LoraLoader"@, "lora_name"@) == Err::<
                    Seq<Seq<char>>,
                    ServiceError,
                >(e),
            },
    {
        read_catalog(reply, "LoraLoader", "lora_name")
    }

    /// The request that interrupts the generation under way. Its answer is
    /// not read.
    pub fn interrupt(&self) -> (r: Result<Request, ServiceError>)
        ensures
            request_fits(r, self.base_url, Method::Post, "/interrupt"@, Payload::Empty),
    {
        request_below(&self.base_url, Method::Post, "/interrupt", Payload::Empty)
    }

    /// The request that clears the queue. Its answer is not read.
    pub fn clear_queue(&self) -> (r: Result<Request, ServiceError>)
        ensures
            request_fits(r, self.base_url, Method::Post, "/queue"@, Payload::Clear),
    {
        request_below(&self.base_url, Method::Post, "/queue", Payload::Clear)
    }
}

impl Default for ComfyUiService {
    fn default() -> (r: ComfyUiService)
        ensures
            r.base_url is None,
            is_client_id(r.client_id@),
    {
        ComfyUiService::new()
    }
}

} // verus!
