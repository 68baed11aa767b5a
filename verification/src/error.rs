use vstd::prelude::*;
use vstd::string::StringExecFns;

verus! {

/// An `NSError`-style failure reported by a MetalKit call: a message.
#[derive(Debug, Clone, PartialEq, Eq)]
pub struct MetalKitError {
    message: String,
}

impl View for MetalKitError {
    type V = Seq<char>;

    /// The error's message.
    closed spec fn view(&self) -> Seq<char> {
        self.message@
    }
}

impl MetalKitError {
    /// Creates an error that carries `message`.
    pub fn new(message: &str) -> (err: Self)
        ensures
            err@ == message@,
    {
        MetalKitError { message: message.to_owned() }
    }

    /// The error's message.
    pub fn message(&self) -> (m: &str)
        ensures
            m@ == self@,
    {
        self.message.as_str()
    }

    /// The error's message as an owned string (what `Display` writes).
    pub fn to_string(&self) -> (s: String)
        ensures
            s@ == self@,
    {
        self.message.clone()
    }
}

/// The text of the error for a failed call: the message the call reported,
/// or `fallback` where it reported none.
pub open spec fn reported_or(message: Option<String>, fallback: Seq<char>) -> Seq<char> {
    match message {
        Some(m) => m@,
        None => fallback,
    }
}

/// The error for a failed call: the message the call reported, or
/// `fallback` where it reported none.
pub fn take_error(message: Option<String>, fallback: &str) -> (err: MetalKitError)
    ensures
        err@ == reported_or(message, fallback@),
{
    match message {
        Some(m) => MetalKitError::new(m.as_str()),
        None => MetalKitError::new(fallback),
    }
}

/// The outcome of a call that hands back an object or reports an error: the
/// object where there is one (a message reported beside it is dropped),
/// else the error built by `take_error`.
pub fn object_or_error<T>(object: Option<T>, message: Option<String>, fallback: &str) -> (result:
    Result<T, MetalKitError>)
    ensures
        object matches Some(t) ==> result == Ok::<T, MetalKitError>(t),
        object is None ==> (result matches Err(err) && err@ == reported_or(message, fallback@)),
{
    match object {
        Some(t) => Ok(t),
        None => Err(take_error(message, fallback)),
    }
}

/// The message reported when the bridge hands back no JSON description of an
/// object of kind `object_kind`.
pub open spec fn missing_payload_message(object_kind: Seq<char>) -> Seq<char> {
    "missing "@ + object_kind + " JSON payload"@
}

/// The message reported when the JSON description of an object of kind
/// `object_kind` does not parse; `detail` is the parser's own account.
pub open spec fn parse_failure_message(object_kind: Seq<char>, detail: Seq<char>) -> Seq<char> {
    "failed to parse "@ + object_kind + " JSON: "@ + detail
}

/// The JSON description of an object of kind `object_kind` that the bridge
/// handed back, or the error for its absence.
pub fn json_payload(payload: Option<String>, object_kind: &str) -> (json: Result<String, MetalKitError>)
    ensures
        payload matches Some(p) ==> json == Ok::<String, MetalKitError>(p),
        payload is None ==> (json matches Err(err) && err@ == missing_payload_message(object_kind@)),
{
    match payload {
        Some(p) => Ok(p),
        None => {
            let mut message = String::from_str("missing ");
            message.append(object_kind);
            message.append(" JSON payload");
            Err(MetalKitError::new(message.as_str()))
        },
    }
}

/// The error for a JSON description of an object of kind `object_kind` that
/// does not parse, carrying the parser's account `detail`.
pub fn json_parse_error(object_kind: &str, detail: &str) -> (err: MetalKitError)
    ensures
        err@ == parse_failure_message(object_kind@, detail@),
{
    let mut message = String::from_str("failed to parse ");
    message.append(object_kind);
    message.append(" JSON: ");
    message.append(detail);
    MetalKitError::new(message.as_str())
}

} // verus!
