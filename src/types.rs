use vstd::prelude::*;

verus! {

/// JSON-RPC version; on the wire always the string `"2.0"`.
#[derive(Debug, Clone, Copy, PartialEq, Eq, Structural, Hash, PartialOrd, Ord)]
pub enum JsonRpcVersion {
    /// JSON-RPC 2.0.
    V2,
}

impl Default for JsonRpcVersion {
    fn default() -> (r: JsonRpcVersion)
        ensures
            r == JsonRpcVersion::V2,
    {
        JsonRpcVersion::V2
    }
}

/// Request identifier: an integer or a string. `null` and fractional
/// numbers are not identifiers here.
#[derive(Debug, Clone, PartialEq, Eq, Hash, PartialOrd, Ord)]
pub enum RequestId {
    /// Numeric identifier.
    Number(i64),
    /// String identifier.
    String(String),
}

/// Request parameters.
#[derive(Debug, Clone, PartialEq, Eq, Hash)]
pub enum RequestParams {
    /// By-position parameters.
    Array(Vec<serde_json::Value>),
    /// By-name parameters.
    Object(serde_json::Map<String, serde_json::Value>),
}

/// A request object. Without an `id` it is a notification, which gets no
/// response.
#[derive(Debug, Clone, PartialEq, Eq, Hash)]
pub struct RequestObject {
    /// JSON-RPC version.
    pub jsonrpc: JsonRpcVersion,
    /// Method name.
    pub method: String,
    /// Request parameters, left out of the encoding when absent.
    pub params: Option<RequestParams>,
    /// Request identifier, left out of the encoding when absent.
    pub id: Option<RequestId>,
}

impl RequestObject {
    /// Returns `true` if this request is a notification (it has no `id`).
    pub fn is_notification(&self) -> (r: bool)
        ensures
            r == self.id.is_none(),
    {
        self.id.is_none()
    }
}

/// A single object, or a batch of them, told apart on the wire by the outer
/// shape of the JSON value: an object is single, an array is a batch.
#[derive(Debug, Clone, PartialEq, Eq, Hash)]
pub enum MaybeBatch<T> {
    /// Single object.
    Single(T),
    /// Batch object.
    Batch(Vec<T>),
}

impl<T> MaybeBatch<T> {
    /// The objects in this instance, in order.
    pub open spec fn items(&self) -> Seq<T> {
        match self {
            MaybeBatch::Single(v) => seq![*v],
            MaybeBatch::Batch(v) => v@,
        }
    }

    /// Returns the number of objects in this instance.
    pub fn len(&self) -> (r: usize)
        ensures
            r == self.items().len(),
    {
        match self {
            MaybeBatch::Single(_) => 1,
            MaybeBatch::Batch(v) => v.len(),
        }
    }

    /// Returns `true` if this instance is a batch object.
    pub fn is_batch(&self) -> (r: bool)
        ensures
            r == (self is Batch),
    {
        match self {
            MaybeBatch::Single(_) => false,
            MaybeBatch::Batch(_) => true,
        }
    }

    /// Returns references to the objects in this instance, in order.
    pub fn iter(&self) -> (r: Vec<&T>)
        ensures
            r@.len() == self.items().len(),
            forall|i: int| 0 <= i < r@.len() ==> *r@[i] == self.items()[i],
    {
        let mut out: Vec<&T> = Vec::new();
        match self {
            MaybeBatch::Single(v) => {
                out.push(v);
            },
            MaybeBatch::Batch(v) => {
                let mut i: usize = 0;
                while i < v.len()
                    invariant
                        i <= v@.len(),
                        out@.len() == i,
                        forall|j: int| 0 <= j < i ==> *out@[j] == v@[j],
                    decreases v@.len() - i,
                {
                    out.push(&v[i]);
                    i = i + 1;
                }
            },
        }
        out
    }

    /// Returns the objects in this instance as one mutable slice.
    pub fn iter_mut(&mut self) -> (r: &mut [T])
        ensures
            r@ == old(self).items(),
            *old(self) is Single ==> final(r)@.len() == 1 && *final(self) == MaybeBatch::<T>::Single(
                final(r)@[0],
            ),
            *old(self) is Batch ==> (*final(self) is Batch && final(self).items() == final(r)@),
    {
        match self {
            MaybeBatch::Single(v) => one_element_slice(v),
            MaybeBatch::Batch(v) => v.as_mut_slice(),
        }
    }
}

impl MaybeBatch<RequestObject> {
    /// Returns `true` if at least one request here is not a notification, so
    /// that the peer owes a response; a single notification, or a batch of
    /// notifications only (or an empty batch), gets none.
    pub fn expects_response(&self) -> (r: bool)
        ensures
            r == exists|i: int| 0 <= i < self.items().len() && (#[trigger] self.items()[i]).id.is_some(),
    {
        match self {
            MaybeBatch::Single(req) => {
                let r = req.id.is_some();
                assert(r ==> self.items()[0].id.is_some());
                r
            },
            MaybeBatch::Batch(reqs) => {
                let mut i: usize = 0;
                while i < reqs.len()
                    invariant
                        i <= reqs@.len(),
                        self.items() == reqs@,
                        forall|j: int| 0 <= j < i ==> (#[trigger] reqs@[j]).id.is_none(),
                    decreases reqs@.len() - i,
                {
                    if reqs[i].id.is_some() {
                        return true;
                    }
                    i = i + 1;
                }
                false
            },
        }
    }
}

/// JSON whitespace: space, tab, line feed, carriage return.
pub open spec fn json_whitespace(b: u8) -> bool {
    b == 32 || b == 9 || b == 10 || b == 13
}

/// The first byte of `text` that is not JSON whitespace opens an array.
pub open spec fn opens_array(text: Seq<u8>) -> bool {
    exists|i: int|
        0 <= i < text.len() && text[i] == 91 && forall|j: int|
            0 <= j < i ==> json_whitespace(#[trigger] text[j])
}

/// Returns `true` if the JSON text `text` is an array, told by its first
/// byte that is not whitespace; such text decodes as a batch, any other as a
/// single object.
pub fn is_batch_text(text: &[u8]) -> (r: bool)
    ensures
        r == opens_array(text@),
{
    let mut i: usize = 0;
    while i < text.len()
        invariant
            i <= text@.len(),
            forall|j: int| 0 <= j < i ==> json_whitespace(#[trigger] text@[j]),
        decreases text@.len() - i,
    {
        let b = text[i];
        if !(b == 32 || b == 9 || b == 10 || b == 13) {
            proof {
                if opens_array(text@) {
                    let k = choose|k: int|
                        0 <= k < text@.len() && text@[k] == 91 && forall|j: int|
                            0 <= j < k ==> json_whitespace(#[trigger] text@[j]);
                    if k > i {
                        assert(json_whitespace(text@[i as int]));
                    }
                }
            }
            return b == 91;
        }
        i = i + 1;
    }
    proof {
        if opens_array(text@) {
            let k = choose|k: int|
                0 <= k < text@.len() && text@[k] == 91 && forall|j: int|
                    0 <= j < k ==> json_whitespace(#[trigger] text@[j]);
            assert(json_whitespace(text@[k]));
        }
    }
    false
}

/// A response object: a success carrying a result, or a failure carrying an
/// error object, told apart on the wire by which of `result` and `error` is
/// present.
#[derive(Debug, Clone, PartialEq, Eq, Hash)]
#[allow(inconsistent_fields)]
pub enum ResponseObject {
    /// Success response.
    Success {
        /// JSON-RPC version.
        jsonrpc: JsonRpcVersion,
        /// Result value.
        result: serde_json::Value,
        /// Request identifier.
        id: RequestId,
    },
    /// Error response.
    Failure {
        /// JSON-RPC version.
        jsonrpc: JsonRpcVersion,
        /// Error information.
        error: ErrorObject,
        /// Request identifier; `None` when that of the failed request could
        /// not be determined.
        id: Option<RequestId>,
    },
}

impl ResponseObject {
    /// The identifier this response carries, if any.
    pub open spec fn spec_id(&self) -> Option<RequestId> {
        match self {
            ResponseObject::Success { id, .. } => Some(*id),
            ResponseObject::Failure { id, .. } => *id,
        }
    }

    /// Returns the request identifier associated with this response.
    pub fn id(&self) -> (r: Option<&RequestId>)
        ensures
            r.is_some() == self.spec_id().is_some(),
            r.is_some() ==> *r.unwrap() == self.spec_id().unwrap(),
    {
        match self {
            ResponseObject::Success { id, .. } => Some(id),
            ResponseObject::Failure { id, .. } => match id {
                Some(i) => Some(i),
                None => None,
            },
        }
    }

    /// Returns `Ok(result)` for a success response, otherwise `Err(error)`.
    pub fn to_std_result(&self) -> (r: Result<&serde_json::Value, &ErrorObject>)
        ensures
            match self {
                ResponseObject::Success { result, .. } => r matches Ok(v) && *v == *result,
                ResponseObject::Failure { error, .. } => r matches Err(e) && *e == *error,
            },
    {
        match self {
            ResponseObject::Success { result, .. } => Ok(result),
            ResponseObject::Failure { error, .. } => Err(error),
        }
    }

    /// Converts this response object into a standard result.
    pub fn into_std_result(self) -> (r: Result<serde_json::Value, ErrorObject>)
        ensures
            match self {
                ResponseObject::Success { result, .. } => r == Ok::<serde_json::Value, ErrorObject>(result),
                ResponseObject::Failure { error, .. } => r == Err::<serde_json::Value, ErrorObject>(error),
            },
    {
        match self {
            ResponseObject::Success { result, .. } => Ok(result),
            ResponseObject::Failure { error, .. } => Err(error),
        }
    }
}

/// Error object.
#[derive(Debug, Clone, PartialEq, Eq, Hash)]
pub struct ErrorObject {
    /// Error code.
    pub code: ErrorCode,
    /// Error message.
    pub message: String,
    /// Additional information, left out of the encoding when absent.
    pub data: Option<serde_json::Value>,
}

/// Lowest code of the reserved, pre-defined range.
pub const PRE_DEFINED_MIN: i32 = -32768;

/// Highest code of the reserved ranges.
pub const RESERVED_MAX: i32 = -32000;

/// Lowest code of the server-error range.
pub const SERVER_ERROR_MIN: i32 = -32099;

/// Invalid JSON text.
pub const PARSE_ERROR_CODE: i32 = -32700;

/// Not a valid request object.
pub const INVALID_REQUEST_CODE: i32 = -32600;

/// No such method.
pub const METHOD_NOT_FOUND_CODE: i32 = -32601;

/// Invalid method parameters.
pub const INVALID_PARAMS_CODE: i32 = -32602;

/// Internal error.
pub const INTERNAL_ERROR_CODE: i32 = -32603;

/// Error code, a signed 32-bit integer.
#[derive(Debug, Clone, Copy, PartialEq, Eq, Structural, Hash, PartialOrd, Ord)]
pub struct ErrorCode(i32);

impl View for ErrorCode {
    type V = i32;

    /// The integer value of the code.
    closed spec fn view(&self) -> i32 {
        self.0
    }
}

/// What went wrong while decoding, as serde_json classifies it.
#[derive(Debug, Clone, Copy, PartialEq, Eq, Structural)]
pub enum ErrorCategory {
    /// The transport failed to read or write bytes.
    Io,
    /// The text is not valid JSON.
    Syntax,
    /// Valid JSON of the wrong shape.
    Data,
    /// The text ended before the value did.
    Eof,
}

/// The reserved code that a decode failure of category `c` maps to.
pub open spec fn code_for_category(c: ErrorCategory) -> i32 {
    match c {
        ErrorCategory::Io => INTERNAL_ERROR_CODE,
        ErrorCategory::Syntax => PARSE_ERROR_CODE,
        ErrorCategory::Data => INVALID_REQUEST_CODE,
        ErrorCategory::Eof => PARSE_ERROR_CODE,
    }
}

/// The category serde_json gives the error `e`; it depends on the error alone.
pub uninterp spec fn category_of(e: serde_json::Error) -> ErrorCategory;

/// Relies on serde_json::Error::classify, which sorts every error into one
/// of its four categories by the error's code alone; each is mapped to the
/// variant of the same name.
#[verifier::external_body]
fn classify(error: &serde_json::Error) -> (r: ErrorCategory)
    ensures
        r == category_of(*error),
{
    match error.classify() {
        serde_json::error::Category::Io => ErrorCategory::Io,
        serde_json::error::Category::Syntax => ErrorCategory::Syntax,
        serde_json::error::Category::Data => ErrorCategory::Data,
        serde_json::error::Category::Eof => ErrorCategory::Eof,
    }
}

impl ErrorCode {
    /// Makes a new error code.
    pub fn new(code: i32) -> (r: ErrorCode)
        ensures
            r@ == code,
    {
        ErrorCode(code)
    }

    /// Returns the error code value.
    pub fn get(self) -> (r: i32)
        ensures
            r == self@,
    {
        self.0
    }

    /// Returns `true` if the code lies in the pre-defined range
    /// `[-32768, -32000]`.
    pub fn is_pre_defined(self) -> (r: bool)
        ensures
            r == (PRE_DEFINED_MIN <= self@ <= RESERVED_MAX),
    {
        PRE_DEFINED_MIN <= self.0 && self.0 <= RESERVED_MAX
    }

    /// Returns `true` if the code lies in the server-error range
    /// `[-32099, -32000]`.
    pub fn is_server_error(self) -> (r: bool)
        ensures
            r == (SERVER_ERROR_MIN <= self@ <= RESERVED_MAX),
    {
        SERVER_ERROR_MIN <= self.0 && self.0 <= RESERVED_MAX
    }

    /// Maps a decode-failure category to a reserved code: a transport failure
    /// is an internal error, invalid or truncated JSON a parse error, and
    /// JSON of the wrong shape an invalid request.
    pub fn guess_from_decode_failure(category: ErrorCategory) -> (r: ErrorCode)
        ensures
            r@ == code_for_category(category),
    {
        match category {
            ErrorCategory::Io => ErrorCode(INTERNAL_ERROR_CODE),
            ErrorCategory::Syntax => ErrorCode(PARSE_ERROR_CODE),
            ErrorCategory::Data => ErrorCode(INVALID_REQUEST_CODE),
            ErrorCategory::Eof => ErrorCode(PARSE_ERROR_CODE),
        }
    }

    /// Guesses the error code for a serde_json error from its category.
    pub fn guess(error: &serde_json::Error) -> (r: ErrorCode)
        ensures
            r@ == code_for_category(category_of(*error)),
    {
        let c = classify(error);
        ErrorCode::guess_from_decode_failure(c)
    }
}

/// Relies on core::slice::from_mut: a slice of length one over `*v`.
#[verifier::external_body]
fn one_element_slice<T>(v: &mut T) -> (r: &mut [T])
    ensures
        r@ == seq![*old(v)],
        final(r)@.len() == 1,
        *final(v) == final(r)@[0],
{
    core::slice::from_mut(v)
}

} // verus!
