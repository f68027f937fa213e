use vstd::prelude::*;

verus! {

broadcast use vstd::string::to_string_from_display_ensures_for_str;

/// A decoded JSON value as the validator sees it: scalars with their
/// contents, composite values and numbers with their JSON text kept verbatim.
pub enum JsonValue {
    Null,
    Bool(bool),
    Number(String),
    Text(String),
    Array(String),
    Object(String),
}

/// The decoded body of a write; `None` marks a field that was absent.
/// Fields other than these two are ignored before this point.
pub struct LogBody {
    pub name: Option<JsonValue>,
    pub data: Option<JsonValue>,
}

/// A validated write: a non-empty name and the JSON text of an object.
pub struct NewLog {
    pub name: String,
    pub data: String,
}

/// Which field of a write body was missing or of the wrong shape.
#[derive(Debug, PartialEq, Eq, Structural)]
pub enum ValidationError {
    Name,
    Data,
}

/// The client-facing description of an invalid field.
pub open spec fn validation_message(e: ValidationError) -> Seq<char> {
    match e {
        ValidationError::Name => "name must be a non-empty string"@,
        ValidationError::Data => "data must be a JSON object"@,
    }
}

impl ValidationError {
    /// The client-facing description of the invalid field.
    pub fn message(&self) -> (r: &'static str)
        ensures
            r@ == validation_message(*self),
    {
        proof {
            reveal_strlit("name must be a non-empty string");
            reveal_strlit("data must be a JSON object");
        }
        match self {
            ValidationError::Name => "name must be a non-empty string",
            ValidationError::Data => "data must be a JSON object",
        }
    }
}

/// The body carries a usable name: present, a string, and not empty.
pub open spec fn name_ok(body: LogBody) -> bool {
    match body.name {
        Some(JsonValue::Text(s)) => s@.len() > 0,
        _ => false,
    }
}

/// The body carries a usable payload: present and a JSON object.
pub open spec fn data_ok(body: LogBody) -> bool {
    match body.data {
        Some(JsonValue::Object(_)) => true,
        _ => false,
    }
}

impl LogBody {
    pub fn new(name: Option<JsonValue>, data: Option<JsonValue>) -> (r: LogBody)
        ensures
            r.name == name,
            r.data == data,
    {
        LogBody { name, data }
    }
}

/// Turns a decoded write body into a validated write. The name is checked
/// before the payload.
pub fn validate_log(body: LogBody) -> (r: Result<NewLog, ValidationError>)
    ensures
        r is Ok <==> name_ok(body) && data_ok(body),
        !name_ok(body) ==> r == Err::<NewLog, ValidationError>(ValidationError::Name),
        name_ok(body) && !data_ok(body) ==> r == Err::<NewLog, ValidationError>(ValidationError::Data),
        r matches Ok(cmd) ==> body.name == Some(JsonValue::Text(cmd.name))
            && body.data == Some(JsonValue::Object(cmd.data)),
{
    let name = match body.name {
        Some(JsonValue::Text(s)) => {
            if s.as_str().is_empty() {
                return Err(ValidationError::Name);
            }
            s
        },
        _ => {
            return Err(ValidationError::Name);
        },
    };
    match body.data {
        Some(JsonValue::Object(d)) => Ok(NewLog { name, data: d }),
        _ => Err(ValidationError::Data),
    }
}

/// The decoded query of a read.
pub struct GivemeRequest {
    pub key: Option<String>,
    pub all: Option<bool>,
}

/// A read as the rest of the service handles it.
pub struct RetrievalCommand {
    pub key: Option<String>,
    pub unbounded: bool,
}

/// The `all` flag of a read from its raw query text: only the exact text
/// `true` asks for every entry, and any other text counts as false.
pub fn parse_all(raw: Option<String>) -> (r: Option<bool>)
    ensures
        raw is None ==> r is None,
        raw matches Some(s) ==> r == Some(s@ == "true"@),
{
    proof {
        reveal_strlit("true");
    }
    match raw {
        Some(s) => {
            let t = "true".to_string();
            Some(s == t)
        },
        None => None,
    }
}

impl GivemeRequest {
    pub fn new(key: Option<String>, all: Option<bool>) -> (r: GivemeRequest)
        ensures
            r.key == key,
            r.all == all,
    {
        GivemeRequest { key, all }
    }

    /// The read command: unbounded only where `all` was given as true.
    pub fn command(self) -> (r: RetrievalCommand)
        ensures
            r.key == self.key,
            r.unbounded == (self.all == Some(true)),
    {
        let unbounded = match self.all {
            Some(b) => b,
            None => false,
        };
        RetrievalCommand { key: self.key, unbounded }
    }
}

} // verus!
