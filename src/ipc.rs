use vstd::prelude::*;

use crate::json::{bool_of, field_spec, str_equal, string_of, usize_of, JsonValue};

verus! {

/// The methods that the embedded engine can call on the controller.
#[derive(Debug, PartialEq)]
pub enum IpcMethod {
    /// The document is loaded: the window can be built and shown.
    Initialize,
    /// A file input asked for a native file dialog.
    FileDialog,
    /// A user event, handled by the runtime's own event bridge.
    UserEvent,
    /// The answer to a query that the runtime sent to the engine.
    Query,
    /// A link asked to be opened in the system's browser.
    BrowserOpen,
    /// A method this controller does not know.
    Other(String),
}

/// A message from the embedded engine: `{ method: string, params: JSON }`.
#[derive(Debug, PartialEq)]
pub struct IpcMessage {
    pub method: String,
    pub params: JsonValue,
}

/// The method that a method name stands for.
pub open spec fn method_spec(name: String) -> IpcMethod {
    if name@ == "initialize"@ {
        IpcMethod::Initialize
    } else if name@ == "file_dialog"@ {
        IpcMethod::FileDialog
    } else if name@ == "user_event"@ {
        IpcMethod::UserEvent
    } else if name@ == "query"@ {
        IpcMethod::Query
    } else if name@ == "browser_open"@ {
        IpcMethod::BrowserOpen
    } else {
        IpcMethod::Other(name)
    }
}

impl IpcMessage {
    pub fn new(method: String, params: JsonValue) -> (r: IpcMessage)
        ensures
            r.method == method,
            r.params == params,
    {
        IpcMessage { method, params }
    }

    /// The method this message calls.
    pub fn method(&self) -> (r: IpcMethod)
        ensures
            r == method_spec(self.method),
    {
        let name = self.method.as_str();
        if str_equal(name, "initialize") {
            IpcMethod::Initialize
        } else if str_equal(name, "file_dialog") {
            IpcMethod::FileDialog
        } else if str_equal(name, "user_event") {
            IpcMethod::UserEvent
        } else if str_equal(name, "query") {
            IpcMethod::Query
        } else if str_equal(name, "browser_open") {
            IpcMethod::BrowserOpen
        } else {
            IpcMethod::Other(self.method.clone())
        }
    }
}

/// The link that a browser-open message asks for: the string member `href` of its
/// parameters.
pub open spec fn browser_href_spec(params: JsonValue) -> Option<String> {
    string_of(field_spec(params, "href"@))
}

/// Reads the link that a browser-open message asks for.
pub fn browser_href(params: &JsonValue) -> (r: Option<String>)
    ensures
        r == browser_href_spec(*params),
{
    match params.get("href") {
        Some(v) => match v.as_str() {
            Some(s) => Some(s.clone()),
            None => None,
        },
        None => None,
    }
}

/// The event name with which a file input asks for both an `input` and a
/// `change` event.
pub open spec fn combined_event_name() -> Seq<char> {
    "change&input"@
}

/// A file input's request for a native file dialog.
#[derive(Debug, PartialEq)]
pub struct FileDialogRequest {
    /// The file types to offer, as the input's `accept` attribute gives them.
    pub accept: Option<String>,
    pub multiple: bool,
    pub directory: bool,
    /// The event to raise once files are chosen.
    pub event: String,
    /// The element that asked.
    pub target: usize,
    pub bubbles: bool,
}

/// The optional `accept` member: absent or null gives `None`, a string gives its
/// text, anything else makes the request malformed (`None` outside).
pub open spec fn accept_of(v: Option<JsonValue>) -> Option<Option<String>> {
    match v {
        None => Some(None),
        Some(JsonValue::Null) => Some(None),
        Some(JsonValue::Str(s)) => Some(Some(s)),
        _ => None,
    }
}

/// The request that a file-dialog message's parameters hold, if they are well
/// formed.
pub open spec fn file_dialog_spec(params: JsonValue) -> Option<FileDialogRequest> {
    let accept = accept_of(field_spec(params, "accept"@));
    let multiple = bool_of(field_spec(params, "multiple"@));
    let directory = bool_of(field_spec(params, "directory"@));
    let event = string_of(field_spec(params, "event"@));
    let target = usize_of(field_spec(params, "target"@));
    let bubbles = bool_of(field_spec(params, "bubbles"@));
    if accept is Some && multiple is Some && directory is Some && event is Some && target is Some
        && bubbles is Some {
        Some(
            FileDialogRequest {
                accept: accept->0,
                multiple: multiple->0,
                directory: directory->0,
                event: event->0,
                target: target->0,
                bubbles: bubbles->0,
            },
        )
    } else {
        None
    }
}

fn read_bool(params: &JsonValue, key: &str) -> (r: Option<bool>)
    ensures
        r == bool_of(field_spec(*params, key@)),
{
    match params.get(key) {
        Some(v) => v.as_bool(),
        None => None,
    }
}

fn read_string(params: &JsonValue, key: &str) -> (r: Option<String>)
    ensures
        r == string_of(field_spec(*params, key@)),
{
    match params.get(key) {
        Some(v) => match v.as_str() {
            Some(s) => Some(s.clone()),
            None => None,
        },
        None => None,
    }
}

impl FileDialogRequest {
    /// Reads a request from a file-dialog message's parameters; `None` when they
    /// are malformed.
    pub fn from_json(params: &JsonValue) -> (r: Option<FileDialogRequest>)
        ensures
            r == file_dialog_spec(*params),
    {
        let accept: Option<Option<String>> = match params.get("accept") {
            None => Some(None),
            Some(JsonValue::Null) => Some(None),
            Some(JsonValue::Str(s)) => Some(Some(s.clone())),
            Some(_) => None,
        };
        let multiple = read_bool(params, "multiple");
        let directory = read_bool(params, "directory");
        let event = read_string(params, "event");
        let target = match params.get("target") {
            Some(v) => v.as_usize(),
            None => None,
        };
        let bubbles = read_bool(params, "bubbles");
        match (accept, multiple, directory, event, target, bubbles) {
            (
                Some(accept),
                Some(multiple),
                Some(directory),
                Some(event),
                Some(target),
                Some(bubbles),
            ) => Some(FileDialogRequest { accept, multiple, directory, event, target, bubbles }),
            _ => None,
        }
    }

    /// The runtime events to raise on the target once files are chosen: `input`
    /// then `change` for the combined name, else the one event the request names.
    pub fn event_names(&self) -> (r: Vec<String>)
        ensures
            self.event@ == combined_event_name() ==> r@.len() == 2 && r@[0]@ == "input"@
                && r@[1]@ == "change"@,
            self.event@ != combined_event_name() ==> r@.len() == 1 && r@[0] == self.event,
    {
        let mut r: Vec<String> = Vec::new();
        if str_equal(self.event.as_str(), "change&input") {
            r.push(String::from_str("input"));
            r.push(String::from_str("change"));
        } else {
            r.push(self.event.clone());
        }
        r
    }
}

/// The answer to a query, correlated by the id the query was sent with.
#[derive(Debug, PartialEq)]
pub struct QueryResult {
    pub id: usize,
    pub data: JsonValue,
}

/// The answer that a query message's parameters hold, if they are well formed.
pub open spec fn query_result_spec(params: JsonValue) -> Option<QueryResult> {
    let id = usize_of(field_spec(params, "id"@));
    let data = field_spec(params, "data"@);
    if id is Some && data is Some {
        Some(QueryResult { id: id->0, data: data->0 })
    } else {
        None
    }
}

impl QueryResult {
    /// Reads an answer from a query message's parameters; `None` when they are
    /// malformed.
    pub fn from_json(params: JsonValue) -> (r: Option<QueryResult>)
        ensures
            r == query_result_spec(params),
    {
        let id = match params.get("id") {
            Some(v) => v.as_usize(),
            None => None,
        };
        match id {
            Some(id) => match params.take("data") {
                Some(data) => Some(QueryResult { id, data }),
                None => None,
            },
            None => None,
        }
    }
}

} // verus!
