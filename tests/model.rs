use jsonlrpc::{
    is_batch_text, ErrorCategory, ErrorCode, ErrorObject, JsonRpcVersion, JsonlStream, MaybeBatch,
    ReadStep, RequestId, RequestObject, RequestParams, ResponseObject, RpcClient, WriteStep,
};

fn request(method: &str, id: Option<RequestId>) -> RequestObject {
    RequestObject { jsonrpc: JsonRpcVersion::V2, method: method.to_string(), params: None, id }
}

#[test]
fn error_code_ranges() {
    assert!(ErrorCode::new(-32700).is_pre_defined());
    assert!(ErrorCode::new(-32050).is_server_error());
    assert!(!ErrorCode::new(-31000).is_pre_defined());
}

#[test]
fn error_code_range_edges() {
    assert!(ErrorCode::new(-32768).is_pre_defined());
    assert!(!ErrorCode::new(-32769).is_pre_defined());
    assert!(ErrorCode::new(-32000).is_pre_defined());
    assert!(!ErrorCode::new(-31999).is_pre_defined());
    assert!(ErrorCode::new(-32099).is_server_error());
    assert!(!ErrorCode::new(-32100).is_server_error());
    assert!(ErrorCode::new(-32000).is_server_error());
    assert!(!ErrorCode::new(-31999).is_server_error());
    assert!(!ErrorCode::new(-32700).is_server_error());
    assert_eq!(ErrorCode::new(-32601).get(), -32601);
}

#[test]
fn decode_failure_categories_map_to_reserved_codes() {
    assert_eq!(ErrorCode::guess_from_decode_failure(ErrorCategory::Io).get(), -32603);
    assert_eq!(ErrorCode::guess_from_decode_failure(ErrorCategory::Syntax).get(), -32700);
    assert_eq!(ErrorCode::guess_from_decode_failure(ErrorCategory::Data).get(), -32600);
    assert_eq!(ErrorCode::guess_from_decode_failure(ErrorCategory::Eof).get(), -32700);
}

#[test]
fn guess_reads_the_category_of_a_serde_json_error() {
    let syntax = serde_json::from_str::<serde_json::Value>("x").unwrap_err();
    assert_eq!(ErrorCode::guess(&syntax).get(), -32700);
    let eof = serde_json::from_str::<serde_json::Value>("{").unwrap_err();
    assert_eq!(ErrorCode::guess(&eof).get(), -32700);
    let data = serde_json::from_str::<String>("1").unwrap_err();
    assert_eq!(ErrorCode::guess(&data).get(), -32600);
    let io = serde_json::Error::io(std::io::ErrorKind::UnexpectedEof.into());
    assert_eq!(ErrorCode::guess(&io).get(), -32603);
}

#[test]
fn batch_disambiguation() {
    assert!(!is_batch_text(b"{\"jsonrpc\":\"2.0\",\"method\":\"foo\"}"));
    assert!(is_batch_text(b"[{\"jsonrpc\":\"2.0\",\"method\":\"foo\"}]"));
    assert!(is_batch_text(b" \t\r\n[]"));
    assert!(!is_batch_text(b""));
    assert!(!is_batch_text(b"  "));
}

#[test]
fn notification_semantics() {
    let note = request("foo", None);
    let call = request("foo", Some(RequestId::Number(1)));
    assert!(note.is_notification());
    assert!(!call.is_notification());
    assert!(!MaybeBatch::Single(note.clone()).expects_response());
    assert!(MaybeBatch::Single(call.clone()).expects_response());
    assert!(!MaybeBatch::Batch(vec![note.clone(), note.clone()]).expects_response());
    assert!(!MaybeBatch::<RequestObject>::Batch(vec![]).expects_response());
    assert!(MaybeBatch::Batch(vec![note.clone(), call.clone()]).expects_response());
}

#[test]
fn maybe_batch_len_and_items() {
    let single = MaybeBatch::Single(7u8);
    let batch = MaybeBatch::Batch(vec![1u8, 2, 3]);
    assert_eq!(single.len(), 1);
    assert_eq!(batch.len(), 3);
    assert!(!single.is_batch());
    assert!(batch.is_batch());
    assert_eq!(single.iter(), vec![&7u8]);
    assert_eq!(batch.iter(), vec![&1u8, &2, &3]);
}

#[test]
fn maybe_batch_items_can_be_changed_in_place() {
    let mut single = MaybeBatch::Single(7u8);
    for x in single.iter_mut() {
        *x += 1;
    }
    assert_eq!(single, MaybeBatch::Single(8u8));
    let mut batch = MaybeBatch::Batch(vec![1u8, 2]);
    for x in batch.iter_mut() {
        *x *= 10;
    }
    assert_eq!(batch, MaybeBatch::Batch(vec![10u8, 20]));
}

#[test]
fn response_accessors() {
    let ok = ResponseObject::Success {
        jsonrpc: JsonRpcVersion::V2,
        result: serde_json::Value::String("foo".to_string()),
        id: RequestId::Number(1),
    };
    assert_eq!(ok.id(), Some(&RequestId::Number(1)));
    assert_eq!(ok.to_std_result(), Ok(&serde_json::Value::String("foo".to_string())));
    let error = ErrorObject { code: ErrorCode::new(-32601), message: "no".to_string(), data: None };
    let err = ResponseObject::Failure { jsonrpc: JsonRpcVersion::V2, error: error.clone(), id: None };
    assert_eq!(err.id(), None);
    assert_eq!(err.to_std_result(), Err(&error));
    assert_eq!(err.into_std_result(), Err(error));
    assert_eq!(ok.into_std_result(), Ok(serde_json::Value::String("foo".to_string())));
}

#[test]
fn default_version_is_two() {
    assert_eq!(JsonRpcVersion::default(), JsonRpcVersion::V2);
}

#[test]
fn request_params_hold_json_values() {
    let mut req = request("bar", Some(RequestId::String("2".to_string())));
    req.params = Some(RequestParams::Array(vec![serde_json::Value::Bool(true)]));
    let copy = req.clone();
    assert_eq!(copy, req);
    req.params = Some(RequestParams::Object(serde_json::Map::new()));
    assert_ne!(copy, req);
}

/// Moves everything the writer has queued into the reader, as a transport
/// that accepts all bytes at once would.
fn transfer(from: &mut JsonlStream<()>, to: &mut JsonlStream<()>) -> Vec<u8> {
    let bytes = from.write_buf().to_vec();
    assert_eq!(from.commit_write(bytes.len()), WriteStep::Flushed);
    let mut rest: &[u8] = &bytes;
    let mut line = to.take_line();
    while line.is_none() {
        let room = to.reserve_read();
        let n = room.min(rest.len());
        match to.feed(&rest[..n]) {
            ReadStep::Line(l) => line = Some(l),
            ReadStep::Pending => {}
            ReadStep::EndOfStream => panic!("stream ended"),
        }
        rest = &rest[n..];
    }
    line.unwrap()
}

#[test]
fn end_to_end_request_and_response() {
    let mut client = RpcClient::new(());
    let mut server = JsonlStream::new(());

    let request_text = b"{\"jsonrpc\":\"2.0\",\"method\":\"foo\",\"id\":1}";
    client.stream_mut().queue_message(request_text);
    let line = transfer(client.stream_mut(), &mut server);
    let received: serde_json::Value = serde_json::from_slice(&line).unwrap();
    assert_eq!(received["method"], "foo");
    assert!(!is_batch_text(&line));

    server.queue_message(b"{\"jsonrpc\":\"2.0\",\"result\":\"foo\",\"id\":1}");
    let reply = transfer(&mut server, client.stream_mut());
    let reply: serde_json::Value = serde_json::from_slice(&reply).unwrap();
    let response = ResponseObject::Success {
        jsonrpc: JsonRpcVersion::V2,
        result: reply["result"].clone(),
        id: RequestId::Number(reply["id"].as_i64().unwrap()),
    };
    let ResponseObject::Success { result, id, .. } = &response else {
        panic!("expected a success response")
    };
    assert_eq!(id, &RequestId::Number(1));
    assert_eq!(result, &serde_json::Value::String("foo".to_string()));
    assert_eq!(client.stream().read_buf(), b"");
    assert_eq!(client.into_stream().write_buf(), b"");
}
