//! A JSON-RPC 2.0 library that streams JSON values in JSON Lines format.
//!
//! The framing engine (`JsonlStream`) and the message model are verified; the
//! transport and the JSON text codec stay with the caller.
mod framing;
mod json;
mod rpc;
mod types;
pub mod laws;

pub use framing::{JsonlStream, ReadStep, WriteStep};
pub use rpc::RpcClient;
pub use types::{
    is_batch_text, ErrorCategory, ErrorCode, ErrorObject, JsonRpcVersion, MaybeBatch, RequestId,
    RequestObject, RequestParams, ResponseObject, INTERNAL_ERROR_CODE, INVALID_PARAMS_CODE,
    INVALID_REQUEST_CODE, METHOD_NOT_FOUND_CODE, PARSE_ERROR_CODE,
};
