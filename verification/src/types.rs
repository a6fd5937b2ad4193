//! The vocabulary of the protocol: what a caller can ask of the server, and
//! what the server can answer, each with its place in a message.

use crate::message::{DeserializeError, Message, MessageView, Payload, PayloadView};
use crate::text::same_text;
use vstd::prelude::*;
use vstd::std_specs::convert::TryFromSpecImpl;

verus! {

/// What a caller asks of the server.
#[derive(PartialEq, Debug)]
pub enum Request {
    Get(String),
    Query(String),
    Subscribe(String),
    QuerySubscribe(String),
    Create(String, Payload),
    Update(String, Payload),
    Insert(String, Payload),
    Delete(String),
    Cancel,
}

/// A request as a mathematical value.
pub enum RequestView {
    Get(Seq<char>),
    Query(Seq<char>),
    Subscribe(Seq<char>),
    QuerySubscribe(Seq<char>),
    Create(Seq<char>, PayloadView),
    Update(Seq<char>, PayloadView),
    Insert(Seq<char>, PayloadView),
    Delete(Seq<char>),
    Cancel,
}

impl View for Request {
    type V = RequestView;

    open spec fn view(&self) -> RequestView {
        match self {
            Request::Get(key) => RequestView::Get(key@),
            Request::Query(key) => RequestView::Query(key@),
            Request::Subscribe(key) => RequestView::Subscribe(key@),
            Request::QuerySubscribe(key) => RequestView::QuerySubscribe(key@),
            Request::Create(key, payload) => RequestView::Create(key@, payload@),
            Request::Update(key, payload) => RequestView::Update(key@, payload@),
            Request::Insert(key, payload) => RequestView::Insert(key@, payload@),
            Request::Delete(key) => RequestView::Delete(key@),
            Request::Cancel => RequestView::Cancel,
        }
    }
}

/// The identifier that this layer writes into a message. The connection
/// puts the real one in its place when it sends the message.
pub const PLACEHOLDER_ID: usize = 0;

impl RequestView {
    /// The command that stands for the request on the wire.
    pub open spec fn command(self) -> Seq<char> {
        match self {
            RequestView::Get(_) => "get"@,
            RequestView::Query(_) => "query"@,
            RequestView::Subscribe(_) => "sub"@,
            RequestView::QuerySubscribe(_) => "qsub"@,
            RequestView::Create(_, _) => "create"@,
            RequestView::Update(_, _) => "update"@,
            RequestView::Insert(_, _) => "insert"@,
            RequestView::Delete(_) => "delete"@,
            RequestView::Cancel => "cancel"@,
        }
    }

    /// The key that the request carries, if any.
    pub open spec fn key(self) -> Option<Seq<char>> {
        match self {
            RequestView::Get(key) => Some(key),
            RequestView::Query(key) => Some(key),
            RequestView::Subscribe(key) => Some(key),
            RequestView::QuerySubscribe(key) => Some(key),
            RequestView::Create(key, _) => Some(key),
            RequestView::Update(key, _) => Some(key),
            RequestView::Insert(key, _) => Some(key),
            RequestView::Delete(key) => Some(key),
            RequestView::Cancel => None,
        }
    }

    /// The payload that the request carries, if any.
    pub open spec fn payload(self) -> Option<PayloadView> {
        match self {
            RequestView::Create(_, payload) => Some(payload),
            RequestView::Update(_, payload) => Some(payload),
            RequestView::Insert(_, payload) => Some(payload),
            _ => None,
        }
    }

    /// The message that carries the request, under the placeholder
    /// identifier.
    pub open spec fn message(self) -> MessageView {
        MessageView {
            id: PLACEHOLDER_ID,
            cmd: self.command(),
            key: self.key(),
            payload: self.payload(),
        }
    }

    /// The request that a message carries. The command decides; a command
    /// that wants a key fails without one, and one that wants a payload
    /// fails without one, the key being looked for first.
    pub open spec fn of_message(message: MessageView) -> Result<RequestView, DeserializeError> {
        let cmd = message.cmd;
        if cmd == "get"@ {
            match message.key {
                Some(key) => Ok(RequestView::Get(key)),
                None => Err(DeserializeError::MissingKey),
            }
        } else if cmd == "query"@ {
            match message.key {
                Some(key) => Ok(RequestView::Query(key)),
                None => Err(DeserializeError::MissingKey),
            }
        } else if cmd == "sub"@ {
            match message.key {
                Some(key) => Ok(RequestView::Subscribe(key)),
                None => Err(DeserializeError::MissingKey),
            }
        } else if cmd == "qsub"@ {
            match message.key {
                Some(key) => Ok(RequestView::QuerySubscribe(key)),
                None => Err(DeserializeError::MissingKey),
            }
        } else if cmd == "create"@ {
            match (message.key, message.payload) {
                (Some(key), Some(payload)) => Ok(RequestView::Create(key, payload)),
                (Some(_), None) => Err(DeserializeError::MissingPayload),
                (None, _) => Err(DeserializeError::MissingKey),
            }
        } else if cmd == "update"@ {
            match (message.key, message.payload) {
                (Some(key), Some(payload)) => Ok(RequestView::Update(key, payload)),
                (Some(_), None) => Err(DeserializeError::MissingPayload),
                (None, _) => Err(DeserializeError::MissingKey),
            }
        } else if cmd == "insert"@ {
            match (message.key, message.payload) {
                (Some(key), Some(payload)) => Ok(RequestView::Insert(key, payload)),
                (Some(_), None) => Err(DeserializeError::MissingPayload),
                (None, _) => Err(DeserializeError::MissingKey),
            }
        } else if cmd == "delete"@ {
            match message.key {
                Some(key) => Ok(RequestView::Delete(key)),
                None => Err(DeserializeError::MissingKey),
            }
        } else if cmd == "cancel"@ {
            Ok(RequestView::Cancel)
        } else {
            Err(DeserializeError::UnknownCommand)
        }
    }
}

/// Whether `cmd` is one of the commands that stand for a request.
pub open spec fn is_request_command(cmd: Seq<char>) -> bool {
    ||| cmd == "get"@
    ||| cmd == "query"@
    ||| cmd == "sub"@
    ||| cmd == "qsub"@
    ||| cmd == "create"@
    ||| cmd == "update"@
    ||| cmd == "insert"@
    ||| cmd == "delete"@
    ||| cmd == "cancel"@
}

/// The outcome of reading a request, as a mathematical value.
pub open spec fn request_read(outcome: Result<Request, DeserializeError>) -> Result<
    RequestView,
    DeserializeError,
> {
    match outcome {
        Ok(request) => Ok(request@),
        Err(err) => Err(err),
    }
}

/// The key of a message, or the error of a command that lacks one.
fn key_of(key: Option<String>) -> (outcome: Result<String, DeserializeError>)
    ensures
        match key {
            Some(k) => outcome == Ok::<String, DeserializeError>(k),
            None => outcome == Err::<String, DeserializeError>(DeserializeError::MissingKey),
        },
{
    match key {
        Some(key) => Ok(key),
        None => Err(DeserializeError::MissingKey),
    }
}

/// The payload of a message, or the error of a command that lacks one.
fn payload_of(payload: Option<Payload>) -> (outcome: Result<Payload, DeserializeError>)
    ensures
        match payload {
            Some(p) => outcome == Ok::<Payload, DeserializeError>(p),
            None => outcome == Err::<Payload, DeserializeError>(DeserializeError::MissingPayload),
        },
{
    match payload {
        Some(payload) => Ok(payload),
        None => Err(DeserializeError::MissingPayload),
    }
}

impl TryFromSpecImpl<Message> for Request {
    open spec fn obeys_try_from_spec() -> bool {
        false
    }

    open spec fn try_from_spec(value: Message) -> Result<Self, Self::Error> {
        choose|outcome: Result<Request, DeserializeError>|
            request_read(outcome) == RequestView::of_message(value@)
    }
}

impl std::convert::TryFrom<Message> for Request {
    type Error = DeserializeError;

    /// Reads the request that a message carries.
    fn try_from(value: Message) -> (outcome: Result<Self, Self::Error>)
        ensures
            request_read(outcome) == RequestView::of_message(value@),
            outcome matches Err(DeserializeError::UnknownCommand) <==> !is_request_command(
                value@.cmd,
            ),
    {
        let cmd = value.cmd.as_str();
        if same_text(cmd, "get") {
            let key = key_of(value.key)?;
            Ok(Request::Get(key))
        } else if same_text(cmd, "query") {
            let key = key_of(value.key)?;
            Ok(Request::Query(key))
        } else if same_text(cmd, "sub") {
            let key = key_of(value.key)?;
            Ok(Request::Subscribe(key))
        } else if same_text(cmd, "qsub") {
            let key = key_of(value.key)?;
            Ok(Request::QuerySubscribe(key))
        } else if same_text(cmd, "create") {
            let key = key_of(value.key)?;
            let payload = payload_of(value.payload)?;
            Ok(Request::Create(key, payload))
        } else if same_text(cmd, "update") {
            let key = key_of(value.key)?;
            let payload = payload_of(value.payload)?;
            Ok(Request::Update(key, payload))
        } else if same_text(cmd, "insert") {
            let key = key_of(value.key)?;
            let payload = payload_of(value.payload)?;
            Ok(Request::Insert(key, payload))
        } else if same_text(cmd, "delete") {
            let key = key_of(value.key)?;
            Ok(Request::Delete(key))
        } else if same_text(cmd, "cancel") {
            Ok(Request::Cancel)
        } else {
            Err(DeserializeError::UnknownCommand)
        }
    }
}

/// The outcome of writing a message, as a mathematical value.
pub open spec fn message_written(outcome: Result<Message, DeserializeError>) -> Result<
    MessageView,
    DeserializeError,
> {
    match outcome {
        Ok(message) => Ok(message@),
        Err(err) => Err(err),
    }
}

impl TryFromSpecImpl<Request> for Message {
    open spec fn obeys_try_from_spec() -> bool {
        false
    }

    open spec fn try_from_spec(value: Request) -> Result<Self, Self::Error> {
        choose|outcome: Result<Message, DeserializeError>|
            message_written(outcome) == Ok::<MessageView, DeserializeError>(value@.message())
    }
}

impl std::convert::TryFrom<Request> for Message {
    type Error = DeserializeError;

    /// Writes the message that carries a request. Every request has one.
    fn try_from(value: Request) -> (outcome: Result<Self, Self::Error>)
        ensures
            message_written(outcome) == Ok::<MessageView, DeserializeError>(value@.message()),
    {
        match value {
            Request::Get(key) => Ok(
                Message {
                    id: PLACEHOLDER_ID,
                    cmd: "get".to_owned(),
                    key: Some(key),
                    payload: None,
                },
            ),
            Request::Query(key) => Ok(
                Message {
                    id: PLACEHOLDER_ID,
                    cmd: "query".to_owned(),
                    key: Some(key),
                    payload: None,
                },
            ),
            Request::Subscribe(key) => Ok(
                Message {
                    id: PLACEHOLDER_ID,
                    cmd: "sub".to_owned(),
                    key: Some(key),
                    payload: None,
                },
            ),
            Request::QuerySubscribe(key) => Ok(
                Message {
                    id: PLACEHOLDER_ID,
                    cmd: "qsub".to_owned(),
                    key: Some(key),
                    payload: None,
                },
            ),
            Request::Create(key, value) => Ok(
                Message {
                    id: PLACEHOLDER_ID,
                    cmd: "create".to_owned(),
                    key: Some(key),
                    payload: Some(value),
                },
            ),
            Request::Update(key, value) => Ok(
                Message {
                    id: PLACEHOLDER_ID,
                    cmd: "update".to_owned(),
                    key: Some(key),
                    payload: Some(value),
                },
            ),
            Request::Insert(key, value) => Ok(
                Message {
                    id: PLACEHOLDER_ID,
                    cmd: "insert".to_owned(),
                    key: Some(key),
                    payload: Some(value),
                },
            ),
            Request::Delete(key) => Ok(
                Message {
                    id: PLACEHOLDER_ID,
                    cmd: "delete".to_owned(),
                    key: Some(key),
                    payload: None,
                },
            ),
            Request::Cancel => Ok(
                Message { id: PLACEHOLDER_ID, cmd: "cancel".to_owned(), key: None, payload: None },
            ),
        }
    }
}

/// The commands of the requests differ from one another.
proof fn lemma_request_commands_differ()
    ensures
        "get"@.len() == 3 && "get"@[0] == 'g',
        "sub"@.len() == 3 && "sub"@[0] == 's',
        "qsub"@.len() == 4,
        "query"@.len() == 5,
        "create"@.len() == 6 && "create"@[0] == 'c' && "create"@[1] == 'r',
        "update"@.len() == 6 && "update"@[0] == 'u',
        "insert"@.len() == 6 && "insert"@[0] == 'i',
        "delete"@.len() == 6 && "delete"@[0] == 'd',
        "cancel"@.len() == 6 && "cancel"@[0] == 'c' && "cancel"@[1] == 'a',
{
    reveal_strlit("get");
    reveal_strlit("query");
    reveal_strlit("sub");
    reveal_strlit("qsub");
    reveal_strlit("create");
    reveal_strlit("update");
    reveal_strlit("insert");
    reveal_strlit("delete");
    reveal_strlit("cancel");
}

/// A request that is written into a message and read from it again comes
/// back as it was.
pub proof fn lemma_request_round_trip(request: RequestView)
    ensures
        RequestView::of_message(request.message()) == Ok::<RequestView, DeserializeError>(request),
        is_request_command(request.command()),
{
    lemma_request_commands_differ();
}

/// A message is read as a request of its own command, and only a message
/// with a command of the vocabulary is read as one.
pub proof fn lemma_request_command_kept(message: MessageView)
    ensures
        RequestView::of_message(message) matches Ok(request) ==> request.command() == message.cmd,
        RequestView::of_message(message) matches Err(DeserializeError::UnknownCommand)
            <==> !is_request_command(message.cmd),
{
}

/// What the server answers.
#[derive(PartialEq, Debug)]
pub enum Response {
    OK(String, Payload),
    Update(String, Payload),
    New(String, Payload),
    Delete(String),
    Success,
    Error(String),
    Warning(String),
    Done,
}

/// A response as a mathematical value.
pub enum ResponseView {
    OK(Seq<char>, PayloadView),
    Update(Seq<char>, PayloadView),
    New(Seq<char>, PayloadView),
    Delete(Seq<char>),
    Success,
    Error(Seq<char>),
    Warning(Seq<char>),
    Done,
}

impl View for Response {
    type V = ResponseView;

    open spec fn view(&self) -> ResponseView {
        match self {
            Response::OK(key, payload) => ResponseView::OK(key@, payload@),
            Response::Update(key, payload) => ResponseView::Update(key@, payload@),
            Response::New(key, payload) => ResponseView::New(key@, payload@),
            Response::Delete(key) => ResponseView::Delete(key@),
            Response::Success => ResponseView::Success,
            Response::Error(text) => ResponseView::Error(text@),
            Response::Warning(text) => ResponseView::Warning(text@),
            Response::Done => ResponseView::Done,
        }
    }
}

impl ResponseView {
    /// The command that stands for the response on the wire.
    pub open spec fn command(self) -> Seq<char> {
        match self {
            ResponseView::OK(_, _) => "ok"@,
            ResponseView::Update(_, _) => "upd"@,
            ResponseView::New(_, _) => "new"@,
            ResponseView::Delete(_) => "del"@,
            ResponseView::Success => "success"@,
            ResponseView::Error(_) => "error"@,
            ResponseView::Warning(_) => "warning"@,
            ResponseView::Done => "done"@,
        }
    }

    /// What stands in the key's place: the key of a record, or the text of
    /// an error or a warning.
    pub open spec fn key(self) -> Option<Seq<char>> {
        match self {
            ResponseView::OK(key, _) => Some(key),
            ResponseView::Update(key, _) => Some(key),
            ResponseView::New(key, _) => Some(key),
            ResponseView::Delete(key) => Some(key),
            ResponseView::Error(text) => Some(text),
            ResponseView::Warning(text) => Some(text),
            ResponseView::Success => None,
            ResponseView::Done => None,
        }
    }

    /// The payload that the response carries, if any.
    pub open spec fn payload(self) -> Option<PayloadView> {
        match self {
            ResponseView::OK(_, payload) => Some(payload),
            ResponseView::Update(_, payload) => Some(payload),
            ResponseView::New(_, payload) => Some(payload),
            _ => None,
        }
    }

    /// The message that carries the response, under the placeholder
    /// identifier.
    pub open spec fn message(self) -> MessageView {
        MessageView {
            id: PLACEHOLDER_ID,
            cmd: self.command(),
            key: self.key(),
            payload: self.payload(),
        }
    }

    /// The response that a message carries. The command decides; a command
    /// that wants a key fails without one, and one that wants a payload
    /// fails without one, the key being looked for first.
    pub open spec fn of_message(message: MessageView) -> Result<ResponseView, DeserializeError> {
        let cmd = message.cmd;
        if cmd == "ok"@ {
            match (message.key, message.payload) {
                (Some(key), Some(payload)) => Ok(ResponseView::OK(key, payload)),
                (Some(_), None) => Err(DeserializeError::MissingPayload),
                (None, _) => Err(DeserializeError::MissingKey),
            }
        } else if cmd == "upd"@ {
            match (message.key, message.payload) {
                (Some(key), Some(payload)) => Ok(ResponseView::Update(key, payload)),
                (Some(_), None) => Err(DeserializeError::MissingPayload),
                (None, _) => Err(DeserializeError::MissingKey),
            }
        } else if cmd == "new"@ {
            match (message.key, message.payload) {
                (Some(key), Some(payload)) => Ok(ResponseView::New(key, payload)),
                (Some(_), None) => Err(DeserializeError::MissingPayload),
                (None, _) => Err(DeserializeError::MissingKey),
            }
        } else if cmd == "del"@ {
            match message.key {
                Some(key) => Ok(ResponseView::Delete(key)),
                None => Err(DeserializeError::MissingKey),
            }
        } else if cmd == "success"@ {
            Ok(ResponseView::Success)
        } else if cmd == "error"@ {
            match message.key {
                Some(text) => Ok(ResponseView::Error(text)),
                None => Err(DeserializeError::MissingKey),
            }
        } else if cmd == "warning"@ {
            match message.key {
                Some(text) => Ok(ResponseView::Warning(text)),
                None => Err(DeserializeError::MissingKey),
            }
        } else if cmd == "done"@ {
            Ok(ResponseView::Done)
        } else {
            Err(DeserializeError::UnknownCommand)
        }
    }
}

/// Whether `cmd` is one of the commands that stand for a response.
pub open spec fn is_response_command(cmd: Seq<char>) -> bool {
    ||| cmd == "ok"@
    ||| cmd == "upd"@
    ||| cmd == "new"@
    ||| cmd == "del"@
    ||| cmd == "success"@
    ||| cmd == "error"@
    ||| cmd == "warning"@
    ||| cmd == "done"@
}

/// The outcome of reading a response, as a mathematical value.
pub open spec fn response_read(outcome: Result<Response, DeserializeError>) -> Result<
    ResponseView,
    DeserializeError,
> {
    match outcome {
        Ok(response) => Ok(response@),
        Err(err) => Err(err),
    }
}

impl TryFromSpecImpl<Message> for Response {
    open spec fn obeys_try_from_spec() -> bool {
        false
    }

    open spec fn try_from_spec(value: Message) -> Result<Self, DeserializeError> {
        choose|outcome: Result<Response, DeserializeError>|
            response_read(outcome) == ResponseView::of_message(value@)
    }
}

impl std::convert::TryFrom<Message> for Response {
    type Error = DeserializeError;

    /// Reads the response that a message carries.
    fn try_from(value: Message) -> (outcome: Result<Self, DeserializeError>)
        ensures
            response_read(outcome) == ResponseView::of_message(value@),
            outcome matches Err(DeserializeError::UnknownCommand) <==> !is_response_command(
                value@.cmd,
            ),
    {
        let cmd = value.cmd.as_str();
        if same_text(cmd, "ok") {
            let key = key_of(value.key)?;
            let payload = payload_of(value.payload)?;
            Ok(Response::OK(key, payload))
        } else if same_text(cmd, "upd") {
            let key = key_of(value.key)?;
            let payload = payload_of(value.payload)?;
            Ok(Response::Update(key, payload))
        } else if same_text(cmd, "new") {
            let key = key_of(value.key)?;
            let payload = payload_of(value.payload)?;
            Ok(Response::New(key, payload))
        } else if same_text(cmd, "del") {
            let key = key_of(value.key)?;
            Ok(Response::Delete(key))
        } else if same_text(cmd, "success") {
            Ok(Response::Success)
        } else if same_text(cmd, "error") {
            let key = key_of(value.key)?;
            Ok(Response::Error(key))
        } else if same_text(cmd, "warning") {
            let key = key_of(value.key)?;
            Ok(Response::Warning(key))
        } else if same_text(cmd, "done") {
            Ok(Response::Done)
        } else {
            Err(DeserializeError::UnknownCommand)
        }
    }
}

impl TryFromSpecImpl<Response> for Message {
    open spec fn obeys_try_from_spec() -> bool {
        false
    }

    open spec fn try_from_spec(value: Response) -> Result<Self, Self::Error> {
        choose|outcome: Result<Message, DeserializeError>|
            message_written(outcome) == Ok::<MessageView, DeserializeError>(value@.message())
    }
}

impl std::convert::TryFrom<Response> for Message {
    type Error = DeserializeError;

    /// Writes the message that carries a response. Every response has one.
    fn try_from(value: Response) -> (outcome: Result<Self, Self::Error>)
        ensures
            message_written(outcome) == Ok::<MessageView, DeserializeError>(value@.message()),
    {
        match value {
            Response::OK(key, payload) => Ok(
                Message {
                    id: PLACEHOLDER_ID,
                    cmd: "ok".to_owned(),
                    key: Some(key),
                    payload: Some(payload),
                },
            ),
            Response::Update(key, payload) => Ok(
                Message {
                    id: PLACEHOLDER_ID,
                    cmd: "upd".to_owned(),
                    key: Some(key),
                    payload: Some(payload),
                },
            ),
            Response::New(key, payload) => Ok(
                Message {
                    id: PLACEHOLDER_ID,
                    cmd: "new".to_owned(),
                    key: Some(key),
                    payload: Some(payload),
                },
            ),
            Response::Delete(key) => Ok(
                Message {
                    id: PLACEHOLDER_ID,
                    cmd: "del".to_owned(),
                    key: Some(key),
                    payload: None,
                },
            ),
            Response::Success => Ok(
                Message { id: PLACEHOLDER_ID, cmd: "success".to_owned(), key: None, payload: None },
            ),
            Response::Warning(key) => Ok(
                Message {
                    id: PLACEHOLDER_ID,
                    cmd: "warning".to_owned(),
                    key: Some(key),
                    payload: None,
                },
            ),
            Response::Error(key) => Ok(
                Message {
                    id: PLACEHOLDER_ID,
                    cmd: "error".to_owned(),
                    key: Some(key),
                    payload: None,
                },
            ),
            Response::Done => Ok(
                Message { id: PLACEHOLDER_ID, cmd: "done".to_owned(), key: None, payload: None },
            ),
        }
    }
}

/// The commands of the responses differ from one another.
proof fn lemma_response_commands_differ()
    ensures
        "ok"@.len() == 2,
        "upd"@.len() == 3 && "upd"@[0] == 'u',
        "new"@.len() == 3 && "new"@[0] == 'n',
        "del"@.len() == 3 && "del"@[0] == 'd',
        "done"@.len() == 4,
        "error"@.len() == 5,
        "success"@.len() == 7 && "success"@[0] == 's',
        "warning"@.len() == 7 && "warning"@[0] == 'w',
{
    reveal_strlit("ok");
    reveal_strlit("upd");
    reveal_strlit("new");
    reveal_strlit("del");
    reveal_strlit("success");
    reveal_strlit("error");
    reveal_strlit("warning");
    reveal_strlit("done");
}

/// A response that is written into a message and read from it again comes
/// back as it was.
pub proof fn lemma_response_round_trip(response: ResponseView)
    ensures
        ResponseView::of_message(response.message()) == Ok::<ResponseView, DeserializeError>(
            response,
        ),
        is_response_command(response.command()),
{
    lemma_response_commands_differ();
}

/// A message is read as a response of its own command, and only a message
/// with a command of the vocabulary is read as one.
pub proof fn lemma_response_command_kept(message: MessageView)
    ensures
        ResponseView::of_message(message) matches Ok(response) ==> response.command()
            == message.cmd,
        ResponseView::of_message(message) matches Err(DeserializeError::UnknownCommand)
            <==> !is_response_command(message.cmd),
{
}

/// The administrative part of a stored record: when it was created, changed
/// and deleted and when it expires, and its key.
pub struct Record {
    pub created: u64,
    pub deleted: u64,
    pub expires: u64,
    pub modified: u64,
    pub key: String,
}

} // verus!
