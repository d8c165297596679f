//! The events of the live-update pipeline: what changed on disk, and what
//! is told to the viewers, with its JSON form.

use vstd::prelude::*;
use vstd::string::StringExecFns;

verus! {

/// The error type of `serde_json`. Nothing is known of a value of it.
#[verifier::external_type_specification]
#[verifier::external_body]
pub struct ExJsonError(serde_json::Error);

/// A change to a Markdown file, with the path of the file.
#[derive(Debug, Clone, PartialEq, Eq)]
pub enum FileEvent {
    Created(String),
    Modified(String),
    Deleted(String),
}

/// What the viewers are told.
#[derive(Debug, Clone, PartialEq, Eq)]
pub enum UpdateEvent {
    ContentUpdate { file_path: String, html: String },
    FileDeleted { file_path: String },
    Error { message: String },
}

/// The mathematical value of a [`FileEvent`].
pub enum FileEventView {
    Created(Seq<char>),
    Modified(Seq<char>),
    Deleted(Seq<char>),
}

/// The mathematical value of an [`UpdateEvent`].
pub enum UpdateEventView {
    ContentUpdate { file_path: Seq<char>, html: Seq<char> },
    FileDeleted { file_path: Seq<char> },
    Error { message: Seq<char> },
}

impl View for FileEvent {
    type V = FileEventView;

    open spec fn view(&self) -> FileEventView {
        match self {
            FileEvent::Created(path) => FileEventView::Created(path@),
            FileEvent::Modified(path) => FileEventView::Modified(path@),
            FileEvent::Deleted(path) => FileEventView::Deleted(path@),
        }
    }
}

impl View for UpdateEvent {
    type V = UpdateEventView;

    open spec fn view(&self) -> UpdateEventView {
        match self {
            UpdateEvent::ContentUpdate { file_path, html } => UpdateEventView::ContentUpdate {
                file_path: file_path@,
                html: html@,
            },
            UpdateEvent::FileDeleted { file_path } => UpdateEventView::FileDeleted {
                file_path: file_path@,
            },
            UpdateEvent::Error { message } => UpdateEventView::Error { message: message@ },
        }
    }
}

impl FileEventView {
    /// The path of the file that changed.
    pub open spec fn path(self) -> Seq<char> {
        match self {
            FileEventView::Created(path) => path,
            FileEventView::Modified(path) => path,
            FileEventView::Deleted(path) => path,
        }
    }
}

/// The JSON string literal that `serde_json` writes for a text: the text
/// between double quotes, with the characters that JSON does not take as
/// they are written as escapes.
pub uninterp spec fn json_string(text: Seq<char>) -> Seq<char>;

/// `serde_json::to_string` on a string slice. It fails only where the
/// value's own serialization fails or a map has a key that is no string,
/// neither of which a string slice can do: the result is the JSON string
/// literal of the text.
#[verifier::external_body]
fn to_json_string(text: &str) -> (result: Result<String, serde_json::Error>)
    ensures
        result is Ok,
        result matches Ok(json) ==> json@ == json_string(text@),
{
    serde_json::to_string(text)
}

/// The JSON object of a content update, given its two fields as JSON.
pub open spec fn content_update_frame(file_path: Seq<char>, html: Seq<char>) -> Seq<char> {
    "{\"ContentUpdate\":{\"file_path\":"@ + file_path + ",\"html\":"@ + html + "}}"@
}

/// The JSON object of a deletion, given its field as JSON.
pub open spec fn file_deleted_frame(file_path: Seq<char>) -> Seq<char> {
    "{\"FileDeleted\":{\"file_path\":"@ + file_path + "}}"@
}

/// The JSON object of an error, given its field as JSON.
pub open spec fn error_frame(message: Seq<char>) -> Seq<char> {
    "{\"Error\":{\"message\":"@ + message + "}}"@
}

/// The JSON form of an event: an object with the variant's name as its one
/// key, and under it an object of the variant's fields.
pub open spec fn update_event_json(event: UpdateEventView) -> Seq<char> {
    match event {
        UpdateEventView::ContentUpdate { file_path, html } => content_update_frame(
            json_string(file_path),
            json_string(html),
        ),
        UpdateEventView::FileDeleted { file_path } => file_deleted_frame(json_string(file_path)),
        UpdateEventView::Error { message } => error_frame(json_string(message)),
    }
}

/// Frames a content update whose fields are already JSON.
pub fn frame_content_update(file_path_json: &str, html_json: &str) -> (json: String)
    ensures
        json@ == content_update_frame(file_path_json@, html_json@),
{
    let mut json = String::from_str("{\"ContentUpdate\":{\"file_path\":");
    json.append(file_path_json);
    json.append(",\"html\":");
    json.append(html_json);
    json.append("}}");
    json
}

/// Frames a deletion whose field is already JSON.
pub fn frame_file_deleted(file_path_json: &str) -> (json: String)
    ensures
        json@ == file_deleted_frame(file_path_json@),
{
    let mut json = String::from_str("{\"FileDeleted\":{\"file_path\":");
    json.append(file_path_json);
    json.append("}}");
    json
}

/// Frames an error whose field is already JSON.
pub fn frame_error(message_json: &str) -> (json: String)
    ensures
        json@ == error_frame(message_json@),
{
    let mut json = String::from_str("{\"Error\":{\"message\":");
    json.append(message_json);
    json.append("}}");
    json
}

impl UpdateEvent {
    /// Writes the event as JSON. Each text field is written by `serde_json`,
    /// which does not fail on a text.
    pub fn to_json(&self) -> (result: Result<String, serde_json::Error>)
        ensures
            result matches Ok(json) && json@ == update_event_json(self@),
    {
        match self {
            UpdateEvent::ContentUpdate { file_path, html } => {
                match to_json_string(file_path.as_str()) {
                    Ok(file_path_json) => match to_json_string(html.as_str()) {
                        Ok(html_json) => Ok(
                            frame_content_update(file_path_json.as_str(), html_json.as_str()),
                        ),
                        Err(e) => Err(e),
                    },
                    Err(e) => Err(e),
                }
            },
            UpdateEvent::FileDeleted { file_path } => {
                match to_json_string(file_path.as_str()) {
                    Ok(file_path_json) => Ok(frame_file_deleted(file_path_json.as_str())),
                    Err(e) => Err(e),
                }
            },
            UpdateEvent::Error { message } => {
                match to_json_string(message.as_str()) {
                    Ok(message_json) => Ok(frame_error(message_json.as_str())),
                    Err(e) => Err(e),
                }
            },
        }
    }
}

} // verus!
