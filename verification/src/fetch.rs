use vstd::prelude::*;

use crate::errors::FetchError;

verus! {

#[verifier::external_type_specification]
#[verifier::external_body]
pub struct ExJsonValue(serde_json::Value);

/// Whether a text is accepted by the JSON parser: true exactly of the texts
/// that parse as a JSON document. Nothing else is assumed of it; acceptance
/// is a function of the text alone.
pub uninterp spec fn json_ok(s: Seq<char>) -> bool;

/// The JSON value the parser yields for a text it accepts: the parser's
/// output is a function of the text alone. Meaningful only where json_ok
/// holds of the text.
pub uninterp spec fn json_value_of(s: Seq<char>) -> serde_json::Value;

/// The parser's human-readable description of why it rejects a text, also a
/// function of the text alone. Meaningful only where json_ok fails of the
/// text.
pub uninterp spec fn json_err_of(s: Seq<char>) -> Seq<char>;

/// Relies on serde_json::from_str::<serde_json::Value>: it returns Ok exactly
/// when the input is JSON text its grammar accepts, and both the parsed value
/// and the rendering of its error are functions of the text alone, named
/// json_ok, json_value_of and json_err_of here.
#[verifier::external_body]
fn parse_value(text: &str) -> (r: Result<serde_json::Value, String>)
    ensures
        r is Ok <==> json_ok(text@),
        r matches Ok(v) ==> v == json_value_of(text@),
        r matches Err(m) ==> m@ == json_err_of(text@),
{
    match serde_json::from_str::<serde_json::Value>(text) {
        Ok(value) => Ok(value),
        Err(e) => Err(e.to_string()),
    }
}

/// The transport outcome of one GET request, as the network layer reports it:
/// the full response body on a response, or the transport error's description
/// when the request could not be sent or no response was received.
pub open spec fn transport_view(t: Result<String, String>) -> Result<Seq<char>, Seq<char>> {
    match t {
        Ok(body) => Ok(body@),
        Err(message) => Err(message@),
    }
}

/// Whether a fetch succeeds, at the specification level: a response arrived
/// and its body is JSON text the parser accepts. This depends on the
/// transport outcome alone.
pub open spec fn fetch_succeeds(t: Result<Seq<char>, Seq<char>>) -> bool {
    t matches Ok(body) && json_ok(body)
}

/// Parse a response body as a JSON value.
///
/// Returns the value the parser yields for the body exactly when the body is
/// JSON text the parser accepts, and a Parse error carrying the parser's
/// description otherwise.
pub fn parse_json(body: String) -> (r: Result<serde_json::Value, FetchError>)
    ensures
        r is Ok <==> json_ok(body@),
        r matches Ok(v) ==> v == json_value_of(body@),
        r matches Err(e) ==> (e is Parse && e.message_view() == json_err_of(body@)),
{
    match parse_value(body.as_str()) {
        Ok(value) => Ok(value),
        Err(message) => Err(FetchError::Parse { message }),
    }
}

/// Complete one fetch, given the transport outcome of its GET request.
///
/// On a transport failure the fetch fails with a Transport error carrying the
/// network layer's description unchanged, and no value is ever returned. On a
/// response the body is parsed as JSON: the fetch returns the value the
/// parser yields for the body exactly when the body is JSON text the parser
/// accepts, and fails with a Parse error carrying the parser's description
/// otherwise. No other outcome exists, and the result is a function of the
/// transport outcome alone.
pub fn fetch_json(transport: Result<String, String>) -> (r: Result<
    serde_json::Value,
    FetchError,
>)
    ensures
        r is Ok <==> fetch_succeeds(transport_view(transport)),
        transport matches Err(m) ==> (r matches Err(e) && e is Transport && e.message_view()
            == m@),
        transport matches Ok(b) ==> {
            &&& json_ok(b@) ==> (r matches Ok(v) && v == json_value_of(b@))
            &&& !json_ok(b@) ==> (r matches Err(e) && e is Parse && e.message_view()
                == json_err_of(b@))
        },
{
    match transport {
        Ok(body) => parse_json(body),
        Err(message) => Err(FetchError::Transport { message }),
    }
}

/// Fetching is idempotent at the level of outcomes: whether a fetch succeeds
/// is a function of the transport outcome alone, so two fetches whose
/// requests are answered alike either both yield a valid JSON value or both
/// fail. (Two answers from one endpoint need not be alike: upstream data may
/// change between the calls, and each fetch is judged on its own body.)
pub proof fn lemma_fetch_idempotent(
    first: Result<Seq<char>, Seq<char>>,
    second: Result<Seq<char>, Seq<char>>,
)
    requires
        first == second,
    ensures
        fetch_succeeds(first) == fetch_succeeds(second),
{
}

} // verus!
