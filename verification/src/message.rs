//! The wire codec: one line of text for each message.
//!
//! A line is `<id>|<command>[|<key>][|<payload>]`: two, three or four
//! fields. The fields are read by position, so a payload can only follow a
//! key. Identifier, command and key end at the next delimiter; the payload
//! is all that stands behind the third delimiter, and is kept as it is,
//! with every delimiter it holds.

use crate::text::{
    chars_of, decimal_digits, delimiter_free, find_delimiter, format_decimal, is_digit,
    join_fields, lemma_decimal_digits, lemma_fields_up_to, lemma_fields_up_to_delimiter_free,
    lemma_join_split_up_to, lemma_next_delimiter, lemma_split_up_to_join, parse_id, read_id,
    slice_text, split_up_to,
};
use vstd::prelude::*;
use vstd::std_specs::convert::FromSpecImpl;

verus! {

/// The character that separates the fields of a line.
pub const DELIMITER: char = '|';

/// How many fields a line has at most. The last of them is never cut.
pub const MAX_FIELDS: usize = 4;

/// The error that the JSON parser reports. Its inside is not modelled.
#[verifier::external_type_specification]
#[verifier::external_body]
pub struct ExJsonError(serde_json::Error);

/// Why a line is no message, or a message no request or response.
#[derive(Debug)]
pub enum DeserializeError {
    MissingID,
    InvalidID,
    MissingCommand,
    MissingKey,
    MissingPayload,
    InvalidPayload(serde_json::Error),
    UnknownCommand,
}

/// `serde_json::Error`'s `Display` output: the parser's description of the
/// error. Nothing is claimed of the text.
#[verifier::external_body]
fn json_error_text(err: &serde_json::Error) -> (text: String) {
    err.to_string()
}

impl DeserializeError {
    /// The fixed part of the error's description.
    pub open spec fn description(&self) -> Seq<char> {
        match self {
            DeserializeError::InvalidID => "invalid id"@,
            DeserializeError::MissingID => "missing id"@,
            DeserializeError::MissingCommand => "missing command"@,
            DeserializeError::MissingKey => "missing key"@,
            DeserializeError::MissingPayload => "missing payload"@,
            DeserializeError::InvalidPayload(_) => "invalid payload: "@,
            DeserializeError::UnknownCommand => "unknown command"@,
        }
    }

    /// Describes the error. For an invalid payload the JSON parser's own
    /// description follows the fixed part.
    pub fn to_string(&self) -> (text: String)
        ensures
            self is InvalidPayload ==> self.description().is_prefix_of(text@),
            !(self is InvalidPayload) ==> text@ == self.description(),
    {
        match self {
            DeserializeError::InvalidID => "invalid id".to_owned(),
            DeserializeError::MissingID => "missing id".to_owned(),
            DeserializeError::MissingCommand => "missing command".to_owned(),
            DeserializeError::MissingKey => "missing key".to_owned(),
            DeserializeError::MissingPayload => "missing payload".to_owned(),
            DeserializeError::InvalidPayload(err) => {
                let mut text = "invalid payload: ".to_owned();
                let detail = json_error_text(err);
                text.append(detail.as_str());
                text
            },
            DeserializeError::UnknownCommand => "unknown command".to_owned(),
        }
    }
}

/// The content of a message: JSON text, or text of no known form.
#[derive(PartialEq, Debug, Clone)]
pub enum Payload {
    JSON(String),
    UNKNOWN(String),
}

/// A payload as a mathematical value.
pub enum PayloadView {
    JSON(Seq<char>),
    UNKNOWN(Seq<char>),
}

impl View for Payload {
    type V = PayloadView;

    open spec fn view(&self) -> PayloadView {
        match self {
            Payload::JSON(blob) => PayloadView::JSON(blob@),
            Payload::UNKNOWN(blob) => PayloadView::UNKNOWN(blob@),
        }
    }
}

/// The mark that JSON content carries on the wire.
pub const JSON_MARK: char = 'J';

impl PayloadView {
    /// The payload's field on the wire: JSON text behind its mark, other
    /// text as it is.
    pub open spec fn text(self) -> Seq<char> {
        match self {
            PayloadView::JSON(blob) => seq![JSON_MARK] + blob,
            PayloadView::UNKNOWN(blob) => blob,
        }
    }

    /// The payload that a field of the wire holds: JSON where the field
    /// starts with the mark, else the whole field as unknown content.
    pub open spec fn of_text(text: Seq<char>) -> PayloadView {
        if text.len() > 0 && text[0] == JSON_MARK {
            PayloadView::JSON(text.drop_first())
        } else {
            PayloadView::UNKNOWN(text)
        }
    }

    /// Whether reading the payload's text gives the payload back: unknown
    /// content that starts with the JSON mark would come back as JSON.
    pub open spec fn canonical(self) -> bool {
        match self {
            PayloadView::JSON(_) => true,
            PayloadView::UNKNOWN(blob) => !(blob.len() > 0 && blob[0] == JSON_MARK),
        }
    }
}

/// Why the content of a payload could not be had as a value.
#[derive(Debug)]
pub enum ParseError {
    JSON(serde_json::Error),
    UNKNOWN,
}

impl FromSpecImpl<serde_json::Error> for ParseError {
    open spec fn obeys_from_spec() -> bool {
        true
    }

    open spec fn from_spec(value: serde_json::Error) -> ParseError {
        ParseError::JSON(value)
    }
}

impl std::convert::From<serde_json::Error> for ParseError {
    fn from(value: serde_json::Error) -> (err: ParseError) {
        ParseError::JSON(value)
    }
}

impl Payload {
    /// The payload's field on the wire.
    pub fn to_string(&self) -> (text: String)
        ensures
            text@ == self@.text(),
    {
        match self {
            Payload::JSON(payload) => {
                proof {
                    reveal_strlit("J");
                }
                let mut text = "J".to_owned();
                text.append(payload.as_str());
                assert(text@ =~= self@.text());
                text
            },
            Payload::UNKNOWN(payload) => payload.clone(),
        }
    }

    /// Hands the JSON text of the payload to `decode` and returns what it
    /// decoded. Unknown content is not handed on: it has no value.
    pub fn parse<'a, T, F: FnOnce(&'a String) -> Result<T, serde_json::Error>>(
        &'a self,
        decode: F,
    ) -> (value: Result<T, ParseError>)
        requires
            self matches Payload::JSON(blob) ==> decode.requires((blob,)),
        ensures
            self is UNKNOWN ==> value matches Err(ParseError::UNKNOWN),
            self matches Payload::JSON(blob) ==> match value {
                Ok(v) => decode.ensures((blob,), Ok(v)),
                Err(ParseError::JSON(e)) => decode.ensures((blob,), Err(e)),
                Err(ParseError::UNKNOWN) => false,
            },
    {
        match self {
            Payload::JSON(blob) => match decode(blob) {
                Ok(v) => Ok(v),
                Err(e) => Err(ParseError::from(e)),
            },
            Payload::UNKNOWN(_) => Err(ParseError::UNKNOWN),
        }
    }
}

impl FromSpecImpl<String> for Payload {
    open spec fn obeys_from_spec() -> bool {
        false
    }

    open spec fn from_spec(value: String) -> Payload {
        choose|p: Payload| p@ == PayloadView::of_text(value@)
    }
}

impl std::convert::From<String> for Payload {
    /// Reads the payload that a field of the wire holds.
    fn from(value: String) -> (payload: Payload)
        ensures
            payload@ == PayloadView::of_text(value@),
    {
        if value.as_str().is_empty() {
            return Payload::UNKNOWN(value);
        }
        let first = value.as_str().get_char(0);
        if first == JSON_MARK {
            let len = value.as_str().unicode_len();
            let rest = value.as_str().substring_char(1, len);
            let payload = Payload::JSON(rest.to_owned());
            assert(payload@ =~= PayloadView::of_text(value@));
            payload
        } else {
            Payload::UNKNOWN(value)
        }
    }
}

/// The text of an optional string.
pub open spec fn text_of(field: Option<String>) -> Option<Seq<char>> {
    match field {
        Some(text) => Some(text@),
        None => None,
    }
}

/// The value of an optional payload.
pub open spec fn payload_of(field: Option<Payload>) -> Option<PayloadView> {
    match field {
        Some(payload) => Some(payload@),
        None => None,
    }
}

/// The envelope of the wire: an identifier that ties a response to its
/// request, a command, and where the command has them a key and a payload.
#[derive(PartialEq, Debug, Clone)]
pub struct Message {
    pub id: usize,
    pub cmd: String,
    pub key: Option<String>,
    pub payload: Option<Payload>,
}

/// A message as a mathematical value.
pub struct MessageView {
    pub id: usize,
    pub cmd: Seq<char>,
    pub key: Option<Seq<char>>,
    pub payload: Option<PayloadView>,
}

impl View for Message {
    type V = MessageView;

    open spec fn view(&self) -> MessageView {
        MessageView {
            id: self.id,
            cmd: self.cmd@,
            key: text_of(self.key),
            payload: payload_of(self.payload),
        }
    }
}

impl MessageView {
    /// The fields of the message's line: identifier and command, then the
    /// key and the payload where the message has them.
    pub open spec fn fields(self) -> Seq<Seq<char>> {
        seq![decimal_digits(self.id as nat), self.cmd] + match self.key {
            Some(key) => seq![key],
            None => seq![],
        } + match self.payload {
            Some(payload) => seq![payload.text()],
            None => seq![],
        }
    }

    /// The message's line: its fields with a delimiter between each two.
    pub open spec fn line(self) -> Seq<char> {
        join_fields(DELIMITER, self.fields())
    }

    /// Whether the line of the message reads back as the message: neither
    /// the command nor the key holds a delimiter, a payload comes with a
    /// key, and the payload is canonical. The payload may hold any
    /// character, the delimiter too.
    pub open spec fn representable(self) -> bool {
        &&& delimiter_free(DELIMITER, self.cmd)
        &&& self.key matches Some(key) ==> delimiter_free(DELIMITER, key)
        &&& self.payload matches Some(payload) ==> self.key is Some && payload.canonical()
    }
}

/// The fields of a line: the texts before its first three delimiters, and
/// as the fourth field all that stands behind the third.
pub open spec fn line_fields(line: Seq<char>) -> Seq<Seq<char>> {
    split_up_to(DELIMITER, line, MAX_FIELDS as nat)
}

/// The message that a line holds, or why it holds none. The identifier is
/// judged first, then the presence of a command. The payload is the whole
/// text behind the third delimiter, to the end of the line.
pub open spec fn decode(line: Seq<char>) -> Result<MessageView, DeserializeError> {
    let fields = line_fields(line);
    if fields.len() < 1 {
        Err(DeserializeError::MissingID)
    } else if parse_id(fields[0]) is None {
        Err(DeserializeError::InvalidID)
    } else if fields.len() < 2 {
        Err(DeserializeError::MissingCommand)
    } else {
        Ok(
            MessageView {
                id: parse_id(fields[0])->0,
                cmd: fields[1],
                key: if fields.len() > 2 {
                    Some(fields[2])
                } else {
                    None
                },
                payload: if fields.len() > 3 {
                    Some(PayloadView::of_text(fields[3]))
                } else {
                    None
                },
            },
        )
    }
}

/// The outcome of reading a line, as a mathematical value.
pub open spec fn decoded(outcome: Result<Message, DeserializeError>) -> Result<
    MessageView,
    DeserializeError,
> {
    match outcome {
        Ok(message) => Ok(message@),
        Err(err) => Err(err),
    }
}

impl FromSpecImpl<Message> for String {
    open spec fn obeys_from_spec() -> bool {
        false
    }

    open spec fn from_spec(value: Message) -> String {
        choose|line: String| line@ == value@.line()
    }
}

impl std::convert::From<Message> for String {
    /// Writes the message's line.
    fn from(value: Message) -> (line: String)
        ensures
            line@ == value@.line(),
    {
        proof {
            reveal_strlit("|");
        }
        let ghost id = decimal_digits(value.id as nat);
        let ghost bar = seq![DELIMITER];
        let mut result = format_decimal(value.id as u64);
        result.append("|");
        result.append(value.cmd.as_str());
        assert(result@ == id + bar + value.cmd@);
        let ghost head = result@;
        assert(head == join_fields(DELIMITER, seq![id, value.cmd@])) by {
            lemma_join_push(seq![id], value.cmd@);
            assert(seq![id].push(value.cmd@) =~= seq![id, value.cmd@]);
        }
        let ghost mut fields = seq![id, value.cmd@];
        if let Some(key) = value.key {
            result.append("|");
            result.append(key.as_str());
            proof {
                lemma_join_push(fields, key@);
                fields = fields.push(key@);
            }
        }
        assert(result@ == join_fields(DELIMITER, fields));
        if let Some(payload) = value.payload {
            result.append("|");
            result.append(payload.to_string().as_str());
            proof {
                lemma_join_push(fields, payload@.text());
                fields = fields.push(payload@.text());
            }
        }
        assert(fields =~= value@.fields());
        result
    }
}

/// A field put behind a line joins it with one delimiter in between.
proof fn lemma_join_push(fields: Seq<Seq<char>>, field: Seq<char>)
    requires
        fields.len() >= 1,
    ensures
        join_fields(DELIMITER, fields.push(field)) == join_fields(DELIMITER, fields)
            + seq![DELIMITER] + field,
    decreases fields.len(),
{
    let longer = fields.push(field);
    if fields.len() == 1 {
        assert(longer.drop_first() =~= seq![field]);
        assert(join_fields(DELIMITER, seq![field]) == field);
        assert(join_fields(DELIMITER, longer) =~= fields[0] + seq![DELIMITER] + field);
    } else {
        lemma_join_push(fields.drop_first(), field);
        assert(longer.drop_first() =~= fields.drop_first().push(field));
        assert(join_fields(DELIMITER, longer) =~= join_fields(DELIMITER, fields)
            + seq![DELIMITER] + field);
    }
}

impl std::str::FromStr for Message {
    type Err = DeserializeError;

    /// Reads the message that a line holds.
    fn from_str(line: &str) -> (outcome: Result<Self, Self::Err>)
        ensures
            decoded(outcome) == decode(line@),
    {
        let chars = chars_of(line);
        let len = chars.len();
        let ghost fields = line_fields(line@);
        proof {
            lemma_next_delimiter(DELIMITER, line@, 0);
            lemma_fields_up_to(DELIMITER, line@, 0, 4);
        }
        let id_end = find_delimiter(DELIMITER, &chars, 0);
        let id = match read_id(&chars, 0, id_end) {
            Some(id) => id,
            None => {
                return Err(DeserializeError::InvalidID);
            },
        };
        if id_end == len {
            return Err(DeserializeError::MissingCommand);
        }
        let ghost behind_id = fields.drop_first();
        proof {
            lemma_next_delimiter(DELIMITER, line@, id_end + 1);
            lemma_fields_up_to(DELIMITER, line@, id_end + 1, 3);
        }
        let cmd_end = find_delimiter(DELIMITER, &chars, id_end + 1);
        let cmd = slice_text(line, id_end + 1, cmd_end);
        assert(fields[1] == behind_id[0]);
        if cmd_end == len {
            assert(fields.len() == 2) by {
                assert(behind_id.len() == 1);
            }
            return Ok(Message { id, cmd, key: None, payload: None });
        }
        let ghost behind_cmd = behind_id.drop_first();
        proof {
            lemma_next_delimiter(DELIMITER, line@, cmd_end + 1);
            lemma_fields_up_to(DELIMITER, line@, cmd_end + 1, 2);
        }
        let key_end = find_delimiter(DELIMITER, &chars, cmd_end + 1);
        let key = slice_text(line, cmd_end + 1, key_end);
        assert(fields[2] == behind_cmd[0]);
        if key_end == len {
            assert(fields.len() == 3) by {
                assert(behind_cmd.len() == 1);
            }
            return Ok(Message { id, cmd, key: Some(key), payload: None });
        }
        let ghost behind_key = behind_cmd.drop_first();
        proof {
            lemma_fields_up_to(DELIMITER, line@, key_end + 1, 1);
        }
        let payload = Payload::from(slice_text(line, key_end + 1, len));
        assert(fields[3] == behind_key[0]);
        assert(fields.len() == 4) by {
            assert(behind_key.len() == 1);
        }
        Ok(Message { id, cmd, key: Some(key), payload: Some(payload) })
    }
}

/// Every line has a first field, so no line lacks its identifier: a line is
/// never refused for a missing one, only for an invalid one.
pub proof fn lemma_id_never_missing(line: Seq<char>)
    ensures
        decode(line) != Err::<MessageView, DeserializeError>(DeserializeError::MissingID),
        decode(line) is Ok <==> parse_id(line_fields(line)[0]) is Some && line_fields(line).len()
            >= 2,
        1 <= line_fields(line).len() <= MAX_FIELDS,
{
    lemma_fields_up_to(DELIMITER, line, 0, 4);
}

/// No character of a line is lost in reading it: its fields, joined again,
/// are the line.
pub proof fn lemma_line_kept(line: Seq<char>)
    ensures
        join_fields(DELIMITER, line_fields(line)) == line,
{
    lemma_join_split_up_to(DELIMITER, line, 0, 4);
    assert(line.subrange(0, line.len() as int) =~= line);
}

/// What is read from a field of the wire is written as that field again: no
/// character of a payload is lost or changed.
pub proof fn lemma_payload_text_kept(text: Seq<char>)
    ensures
        PayloadView::of_text(text).text() == text,
        PayloadView::of_text(text).canonical(),
{
    if text.len() > 0 && text[0] == JSON_MARK {
        assert(seq![JSON_MARK] + text.drop_first() =~= text);
    }
}

/// A payload that is written and read again comes back as it was, exactly
/// where it is canonical.
pub proof fn lemma_payload_round_trip(payload: PayloadView)
    ensures
        PayloadView::of_text(payload.text()) == payload <==> payload.canonical(),
{
    match payload {
        PayloadView::JSON(blob) => {
            assert((seq![JSON_MARK] + blob).drop_first() =~= blob);
        },
        PayloadView::UNKNOWN(blob) => {},
    }
}

/// The notation of an identifier is read as that identifier, and holds no
/// delimiter.
pub proof fn lemma_id_round_trip(id: usize)
    ensures
        parse_id(decimal_digits(id as nat)) == Some(id),
        delimiter_free(DELIMITER, decimal_digits(id as nat)),
{
    let digits = decimal_digits(id as nat);
    lemma_decimal_digits(id as nat);
    assert(is_digit(digits[0]));
    assert forall|i: int| 0 <= i < digits.len() implies #[trigger] digits[i] != DELIMITER by {
        assert(is_digit(digits[i]));
    }
}

/// A message that is written and read again comes back as it was, exactly
/// where it is representable. A payload comes back whatever it holds.
pub proof fn lemma_message_round_trip(message: MessageView)
    ensures
        decode(message.line()) == Ok::<MessageView, DeserializeError>(message)
            <==> message.representable(),
{
    let fields = message.fields();
    let line = message.line();
    let read = line_fields(line);
    lemma_id_round_trip(message.id);
    if message.representable() {
        assert forall|i: int| 0 <= i < fields.len() && i < 3 implies delimiter_free(
            DELIMITER,
            #[trigger] fields[i],
        ) by {}
        lemma_split_up_to_join(DELIMITER, fields, 4);
        if let Some(payload) = message.payload {
            lemma_payload_round_trip(payload);
        }
    }
    if decode(line) == Ok::<MessageView, DeserializeError>(message) {
        lemma_fields_up_to(DELIMITER, line, 0, 4);
        lemma_fields_up_to_delimiter_free(DELIMITER, line, 0, 4);
        assert(delimiter_free(DELIMITER, read[1]));
        if message.key is Some {
            assert(delimiter_free(DELIMITER, read[2]));
        }
        if message.payload is Some {
            lemma_payload_text_kept(read[3]);
        }
    }
}

} // verus!
