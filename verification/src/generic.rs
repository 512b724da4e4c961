//! The request envelope codec: builds the outbound envelope, sanitizes and
//! decodes the inbound envelope, and maps failures into the error taxonomy.
//!
//! Every remote call passes through this single choke point.  The transport
//! itself (an HTTP POST) is performed outside the library; the codec receives
//! the parsed response body as a [`JsonValue`] and resolves it.

use crate::error::{AnkiError, CustomSerdeError};
use crate::json::{
    object_get, sanitize_items, spec_is_empty_object, spec_lookup, spec_sanitize_items, JsonValue,
};
use vstd::prelude::*;
use vstd::seq_lib::*;

verus! {

/// The outbound envelope: an action name, a protocol version, and optional
/// action-specific parameters.  The action is non-empty and fixed per call
/// site; absent parameters are omitted from the wire, never serialized as an
/// explicit null.
pub struct GenericRequest {
    action: String,
    version: u8,
    params: Option<JsonValue>,
}

/// The uniform request object: `action`, then `version`, then the
/// parameters exactly when some were supplied — omitted, not null, when
/// absent.
pub open spec fn spec_request_wire(
    action: Seq<char>,
    version: u8,
    params: Option<JsonValue>,
    v: JsonValue,
) -> bool {
    v matches JsonValue::Object(ps) && {
        &&& ps@[0].0@ == "action"@
        &&& ps@[0].1 matches JsonValue::Text(a) && a@ == action
        &&& ps@[1].0@ == "version"@
        &&& ps@[1].1 == JsonValue::Int(version as i64)
        &&& (params is None ==> ps@.len() == 2)
        &&& (params matches Some(p) ==> ps@.len() == 3 && ps@[2].0@ == "params"@ && ps@[2].1
            == p)
        &&& spec_lookup(ps@, "params"@) == params
    }
}

impl GenericRequest {
    /// The action name.
    pub closed spec fn spec_action(&self) -> Seq<char> {
        self.action@
    }

    /// The protocol version.
    pub closed spec fn spec_version(&self) -> u8 {
        self.version
    }

    /// The action-specific parameters, if any.
    pub closed spec fn spec_params(&self) -> Option<JsonValue> {
        self.params
    }

    /// Encodes the envelope as the uniform request object.  The `params`
    /// member is present exactly when parameters were supplied: omission,
    /// not an explicit null, is preserved on the wire.
    pub fn into_value(self) -> (r: JsonValue)
        ensures
            spec_request_wire(self.spec_action(), self.spec_version(), self.spec_params(), r),
    {
        proof {
            reveal_strlit("action");
            reveal_strlit("version");
            reveal_strlit("params");
        }
        let mut pairs: Vec<(String, JsonValue)> = Vec::new();
        pairs.push(("action".to_owned(), JsonValue::Text(self.action)));
        pairs.push(("version".to_owned(), JsonValue::Int(self.version as i64)));
        match self.params {
            Some(p) => {
                pairs.push(("params".to_owned(), p));
            },
            None => {},
        }
        proof {
            reveal_with_fuel(spec_lookup, 4);
            assert("action"@[0] != "params"@[0]);
            assert("version"@.len() != "params"@.len());
            assert(pairs@.drop_first() =~= pairs@.skip(1));
            assert(pairs@.skip(1)[0] == pairs@[1]);
            assert(pairs@.skip(1).drop_first() =~= pairs@.skip(2));
            if pairs@.len() == 3 {
                assert(pairs@.skip(2)[0] == pairs@[2]);
                assert(pairs@.skip(2).drop_first() =~= pairs@.skip(3));
            }
        }
        JsonValue::Object(pairs)
    }
}

/// Accumulates the parts of a [`GenericRequest`]; every part is optional
/// until the envelope is built.
pub struct GenericRequestBuilder {
    action: Option<String>,
    version: Option<u8>,
    params: Option<Option<JsonValue>>,
}

impl GenericRequestBuilder {
    /// Which action name has been staged, if any.
    pub closed spec fn spec_staged_action(&self) -> Option<Seq<char>> {
        match self.action {
            Some(a) => Some(a@),
            None => None,
        }
    }

    /// Which version has been staged; an unset version defaults to zero.
    pub closed spec fn spec_staged_version(&self) -> u8 {
        match self.version {
            Some(x) => x,
            None => 0,
        }
    }

    /// Which parameters have been staged, if any.
    pub closed spec fn spec_staged_params(&self) -> Option<JsonValue> {
        match self.params {
            Some(Some(p)) => Some(p),
            _ => None,
        }
    }

    /// An empty staging structure with no part supplied.
    pub fn create_empty() -> (r: GenericRequestBuilder)
        ensures
            r.spec_staged_action() is None,
            r.spec_staged_version() == 0,
            r.spec_staged_params() is None,
    {
        GenericRequestBuilder { action: None, version: None, params: None }
    }

    /// Stages the action name.
    pub fn action(self, action: String) -> (r: GenericRequestBuilder)
        ensures
            r.spec_staged_action() == Some(action@),
            r.spec_staged_version() == self.spec_staged_version(),
            r.spec_staged_params() == self.spec_staged_params(),
    {
        GenericRequestBuilder { action: Some(action), version: self.version, params: self.params }
    }

    /// Stages the protocol version.
    pub fn version(self, version: u8) -> (r: GenericRequestBuilder)
        ensures
            r.spec_staged_action() == self.spec_staged_action(),
            r.spec_staged_version() == version,
            r.spec_staged_params() == self.spec_staged_params(),
    {
        GenericRequestBuilder {
            action: self.action,
            version: Some(version),
            params: self.params,
        }
    }

    /// Stages the action-specific parameters.
    pub fn params(self, params: Option<JsonValue>) -> (r: GenericRequestBuilder)
        ensures
            r.spec_staged_action() == self.spec_staged_action(),
            r.spec_staged_version() == self.spec_staged_version(),
            r.spec_staged_params() == params,
    {
        GenericRequestBuilder {
            action: self.action,
            version: self.version,
            params: Some(params),
        }
    }

    /// Finalizes the envelope.  The action must have been staged non-empty;
    /// every other part falls back to its default.
    pub fn build(self) -> (r: Result<GenericRequest, AnkiError>)
        ensures
            match self.spec_staged_action() {
                Some(a) if a.len() > 0 => r matches Ok(req) && req.spec_action() == a
                    && req.spec_version() == self.spec_staged_version() && req.spec_params()
                    == self.spec_staged_params(),
                _ => r matches Err(e) && e matches AnkiError::Builder(
                    crate::error::BuilderErrors::UninitializedField(f),
                ) && f@ == "action"@,
            },
    {
        let action = match self.action {
            Some(a) => a,
            None => {
                return Err(
                    AnkiError::Builder(
                        crate::error::BuilderErrors::UninitializedField("action".to_owned()),
                    ),
                );
            },
        };
        if action.as_str().is_empty() {
            return Err(
                AnkiError::Builder(
                    crate::error::BuilderErrors::UninitializedField("action".to_owned()),
                ),
            );
        }
        let version = match self.version {
            Some(x) => x,
            None => 0,
        };
        let params = match self.params {
            Some(p) => p,
            None => None,
        };
        Ok(GenericRequest { action, version, params })
    }
}

/// The inbound envelope: a result payload and an error string, each of which
/// may be absent.  If the error is present the call failed, regardless of
/// what the result holds.
pub struct GenericResult<T> {
    pub result: T,
    pub error: Option<String>,
}

impl<T: Default> crate::anki::AnkiConnectResult<T> for GenericResult<T> {
    fn result(&mut self) -> T {
        let mut tmp = T::default();
        core::mem::swap(&mut tmp, &mut self.result);
        tmp
    }

    fn error(&mut self) -> Option<String> {
        self.error.take()
    }
}

/// Whether a response value has the envelope shape: an object whose `error`
/// member, if present, is a string or null.
pub open spec fn spec_envelope_shape(v: JsonValue) -> bool {
    match v {
        JsonValue::Object(pairs) => match spec_lookup(pairs@, "error"@) {
            None => true,
            Some(e) => e is Null || e is Text,
        },
        _ => false,
    }
}

/// The error string carried by a response envelope, if any.
pub open spec fn spec_envelope_error(v: JsonValue) -> Option<String> {
    match v {
        JsonValue::Object(pairs) => match spec_lookup(pairs@, "error"@) {
            Some(JsonValue::Text(s)) => Some(s),
            _ => None,
        },
        _ => None,
    }
}

/// The result payload carried by a response envelope, if any.  An absent
/// member and an explicit null are both read as no payload.
pub open spec fn spec_envelope_result(v: JsonValue) -> Option<JsonValue> {
    match v {
        JsonValue::Object(pairs) => match spec_lookup(pairs@, "result"@) {
            Some(JsonValue::Null) => None,
            Some(other) => Some(other),
            None => None,
        },
        _ => None,
    }
}

/// First index of a key among an object's members.
fn object_index(pairs: &Vec<(String, JsonValue)>, key: &String) -> (r: Option<usize>)
    ensures
        match r {
            Some(i) => 0 <= i < pairs@.len() && pairs@[i as int].0@ == key@ && spec_lookup(
                pairs@,
                key@,
            ) == Some(pairs@[i as int].1),
            None => spec_lookup(pairs@, key@) is None,
        },
{
    proof {
        assert(pairs@.skip(0) =~= pairs@);
    }
    let mut i: usize = 0;
    while i < pairs.len()
        invariant
            i <= pairs@.len(),
            spec_lookup(pairs@, key@) == spec_lookup(pairs@.skip(i as int), key@),
        decreases pairs@.len() - i as int,
    {
        proof {
            assert(pairs@.skip(i as int)[0] == pairs@[i as int]);
        }
        if pairs[i].0 == *key {
            return Some(i);
        }
        proof {
            assert(pairs@.skip(i as int).drop_first() =~= pairs@.skip(i as int + 1));
        }
        i = i + 1;
    }
    proof {
        assert(pairs@.skip(i as int).len() == 0);
    }
    None
}

/// Decodes a response value into the envelope shape.  A value that is not an
/// object, or whose `error` member is neither a string nor null, yields a
/// decoding error that keeps the raw value for inspection.
pub fn decode_envelope(v: JsonValue) -> (r: Result<GenericResult<Option<JsonValue>>, AnkiError>)
    ensures
        r is Ok <==> spec_envelope_shape(v),
        r matches Ok(env) ==> env.error == spec_envelope_error(v) && env.result
            == spec_envelope_result(v),
        r matches Err(e) ==> e matches AnkiError::CustomSerde(c) && c.spec_recv() == v
            && c.spec_exp() == "GenericResult"@,
{
    let mut pairs: Vec<(String, JsonValue)> = match v {
        JsonValue::Object(pairs) => pairs,
        other => {
            return Err(
                AnkiError::CustomSerde(
                    CustomSerdeError::expected(
                        Some("GenericResult".to_owned()),
                        other,
                        Some("expected a response object".to_owned()),
                    ),
                ),
            );
        },
    };
    let mut err_text: Option<String> = None;
    let mut bad_error = false;
    match object_get(&pairs, &"error".to_owned()) {
        None => {},
        Some(ev) => match ev {
            JsonValue::Null => {},
            JsonValue::Text(s) => {
                err_text = Some(s.clone());
            },
            _ => {
                bad_error = true;
            },
        },
    }
    if bad_error {
        return Err(
            AnkiError::CustomSerde(
                CustomSerdeError::expected(
                    Some("GenericResult".to_owned()),
                    JsonValue::Object(pairs),
                    Some("error field must be a string or null".to_owned()),
                ),
            ),
        );
    }
    let result: Option<JsonValue> = match object_index(&pairs, &"result".to_owned()) {
        Some(i) => {
            let entry = pairs.remove(i);
            match entry.1 {
                JsonValue::Null => None,
                other => Some(other),
            }
        },
        None => None,
    };
    Ok(GenericResult { result, error: err_text })
}

/// Resolves a decoded envelope into an outcome.  A present error string means
/// the call failed and is surfaced verbatim, regardless of whether a result
/// is also present; otherwise the payload (possibly absent) is the outcome.
pub fn resolve_result(env: GenericResult<Option<JsonValue>>) -> (r: Result<
    Option<JsonValue>,
    AnkiError,
>)
    ensures
        env.error matches Some(m) ==> r matches Err(e) && e matches AnkiError::AnkiConnect(m2)
            && m2 == m,
        env.error is None ==> (r matches Ok(p) && p == env.result),
{
    match env.error {
        Some(m) => Err(AnkiError::AnkiConnect(m)),
        None => Ok(env.result),
    }
}

/// How a resolved payload relates to the raw payload once the sanitization
/// rule has been applied: a result array loses exactly its empty-object
/// elements; every other payload passes through unchanged.
pub open spec fn spec_sanitized_payload(p: Option<JsonValue>, s: Option<JsonValue>) -> bool {
    match p {
        None => s is None,
        Some(JsonValue::Array(a)) => s matches Some(JsonValue::Array(fa)) && fa@
            == spec_sanitize_items(a@),
        Some(other) => s == Some(other),
    }
}

/// Runs the receiving half of the codec on a parsed response body: decode
/// the envelope, resolve the error with precedence over any result, and
/// sanitize a result array before it can reach typed decoding.
pub fn process_response(v: JsonValue) -> (r: Result<Option<JsonValue>, AnkiError>)
    ensures
        r is Ok <==> spec_envelope_shape(v) && spec_envelope_error(v) is None,
        !spec_envelope_shape(v) ==> (r matches Err(e) && e matches AnkiError::CustomSerde(c)
            && c.spec_recv() == v && c.spec_exp() == "GenericResult"@),
        spec_envelope_shape(v) ==> (spec_envelope_error(v) matches Some(m) ==> (r matches Err(e)
            && e matches AnkiError::AnkiConnect(m2) && m2 == m)),
        r matches Ok(p) ==> spec_sanitized_payload(spec_envelope_result(v), p),
{
    let env = match decode_envelope(v) {
        Ok(env) => env,
        Err(e) => {
            return Err(e);
        },
    };
    let payload = match resolve_result(env) {
        Ok(p) => p,
        Err(e) => {
            return Err(e);
        },
    };
    match payload {
        None => Ok(None),
        Some(JsonValue::Array(items)) => Ok(Some(JsonValue::Array(sanitize_items(items)))),
        Some(other) => Ok(Some(other)),
    }
}

/// A sanitize pass keeps an array that holds no empty-object element intact.
pub proof fn lemma_filter_all_kept(items: Seq<JsonValue>)
    requires
        forall|i: int| 0 <= i < items.len() ==> !spec_is_empty_object(items[i]),
    ensures
        spec_sanitize_items(items) == items,
    decreases items.len(),
{
    reveal(Seq::filter);
    if items.len() > 0 {
        let prefix = items.drop_last();
        lemma_filter_all_kept(prefix);
        assert(spec_sanitize_items(items) =~= items);
    }
}

/// Envelope round trip: when no sanitization rule applies (the payload is
/// not an array holding empty-object elements), the resolved payload of a
/// successful response reproduces the raw payload exactly, member for
/// member.
pub proof fn lemma_envelope_round_trip(p: Option<JsonValue>, s: Option<JsonValue>)
    requires
        spec_sanitized_payload(p, s),
        p matches Some(pv) && pv matches JsonValue::Array(a) ==> forall|i: int|
            0 <= i < a@.len() ==> !spec_is_empty_object(a@[i]),
    ensures
        p matches Some(pv) && !(pv is Array) ==> s == p,
        p is None ==> s is None,
        p matches Some(pv) && pv matches JsonValue::Array(a) ==> s matches Some(sv)
            && sv matches JsonValue::Array(fa) && fa@ == a@,
{
    match p {
        Some(JsonValue::Array(a)) => {
            lemma_filter_all_kept(a@);
        },
        _ => {},
    }
}

} // verus!
