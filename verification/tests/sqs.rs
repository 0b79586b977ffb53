use transaction_signer::event::sqs::{SqsEvent, SqsMessage};
use transaction_signer::event::SignTxRequest;
use transaction_signer::transactions::{InsertTransactionInput, TxStatus, TxType};

fn build_lambda_event(messages: Vec<SqsMessage>) -> SqsEvent {
    let mut event = SqsEvent::default();
    event.records = messages;

    event
}

fn message_with_body(body: &str) -> SqsMessage {
    let mut message = SqsMessage::default();
    message.body = Some(body.to_string());
    message
}

fn message_without_body() -> SqsMessage {
    let mut message = SqsMessage::default();
    message.body = None;
    message
}

fn text(value: &str) -> serde_json::Value {
    serde_json::Value::String(value.to_string())
}

fn standard_object() -> serde_json::Map<String, serde_json::Value> {
    let mut object = serde_json::Map::new();
    object.insert("calldata".to_string(), text("0xdeafbeef"));
    object.insert("chain_id".to_string(), serde_json::Value::Number(12.into()));
    object.insert("tx_id".to_string(), text("abc123"));
    object.insert("sender_id".to_string(), text("sender-1"));
    object.insert("tx_type".to_string(), text("STANDARD"));
    object
}

fn blob_object() -> serde_json::Map<String, serde_json::Value> {
    let mut object = standard_object();
    object.insert("tx_type".to_string(), text("BLOB"));
    object.insert("blob_file_path".to_string(), text("path/to/file"));
    object
}

fn valid_standard_json() -> String {
    serde_json::Value::Object(standard_object()).to_string()
}

fn valid_blob_json() -> String {
    serde_json::Value::Object(blob_object()).to_string()
}

fn standard_request() -> SignTxRequest {
    SignTxRequest {
        calldata: "0xdeafbeef".to_string(),
        chain_id: 12,
        tx_id: "abc123".to_string(),
        sender_id: "sender-1".to_string(),
        tx_type: TxType::STANDARD,
        blob_file_path: None,
    }
}

fn blob_request() -> SignTxRequest {
    SignTxRequest {
        calldata: "0xdeafbeef".to_string(),
        chain_id: 12,
        tx_id: "abc123".to_string(),
        sender_id: "sender-1".to_string(),
        tx_type: TxType::BLOB,
        blob_file_path: Some("path/to/file".to_string()),
    }
}

#[test]
fn parses_single_valid_blob_type_message() {
    let json = valid_blob_json();
    let event = build_lambda_event(vec![message_with_body(&json)]);
    let result = SignTxRequest::from_sqs_event(event);

    assert_eq!(result.len(), 1);
}

#[test]
fn omit_blob_type_without_blob_file_path() {
    let json = r#"{
            "calldata": "0xdeafbeef",
            "chain_id": 12,
            "tx_id": "abc123",
            "sender_id": "sender-1",
            "tx_type": "BLOB",
        }"#;
    let event = build_lambda_event(vec![message_with_body(json)]);
    let result = SignTxRequest::from_sqs_event(event);

    assert_eq!(result.len(), 0);
}

#[test]
fn parses_single_valid_standard_type_message() {
    let json = valid_standard_json();
    let event = build_lambda_event(vec![message_with_body(&json)]);
    let result = SignTxRequest::from_sqs_event(event);

    assert_eq!(result.len(), 1);
}

#[test]
fn parses_multiple_valid_messages() {
    let json1 = valid_standard_json();
    let json2 = valid_blob_json();

    let event = build_lambda_event(vec![message_with_body(&json1), message_with_body(&json2)]);
    let result = SignTxRequest::from_sqs_event(event);

    assert_eq!(result.len(), 2);
}

#[test]
fn omits_message_without_body() {
    let json = valid_standard_json();

    let event = build_lambda_event(vec![message_with_body(&json), message_without_body()]);
    let result = SignTxRequest::from_sqs_event(event);

    assert_eq!(result.len(), 1);
}

#[test]
fn omits_invalid_json() {
    let valid = valid_blob_json();
    let invalid = r#"not-json"#;

    let event = build_lambda_event(vec![message_with_body(&valid), message_with_body(invalid)]);
    let result = SignTxRequest::from_sqs_event(event);

    assert_eq!(result.len(), 1);
}

#[test]
fn returns_empty_vec_if_all_invalid() {
    let event = build_lambda_event(vec![message_without_body(), message_with_body("not-json")]);

    let result = SignTxRequest::from_sqs_event(event);

    assert!(result.is_empty());
}

#[test]
fn reads_every_member_of_a_standard_request() {
    let event = build_lambda_event(vec![message_with_body(&valid_standard_json())]);

    assert_eq!(SignTxRequest::from_sqs_event(event), vec![standard_request()]);
}

#[test]
fn reads_every_member_of_a_blob_request() {
    let event = build_lambda_event(vec![message_with_body(&valid_blob_json())]);

    assert_eq!(SignTxRequest::from_sqs_event(event), vec![blob_request()]);
}

#[test]
fn keeps_the_order_of_the_records() {
    let mut second = standard_object();
    second.insert("tx_id".to_string(), text("def456"));
    let mut third = blob_object();
    third.insert("tx_id".to_string(), text("ghi789"));
    let event = build_lambda_event(vec![
        message_with_body(&valid_standard_json()),
        message_without_body(),
        message_with_body(&serde_json::Value::Object(second).to_string()),
        message_with_body("not-json"),
        message_with_body(&serde_json::Value::Object(third).to_string()),
    ]);

    let ids: Vec<String> =
        SignTxRequest::from_sqs_event(event).into_iter().map(|request| request.tx_id).collect();

    assert_eq!(ids, vec!["abc123", "def456", "ghi789"]);
}

#[test]
fn a_dropped_record_leaves_no_trace() {
    let mut blob_without_file = blob_object();
    blob_without_file.remove("blob_file_path");
    let dropped = vec![
        message_without_body(),
        message_with_body("not-json"),
        message_with_body(&serde_json::Value::Object(blob_without_file).to_string()),
    ];
    let kept = SignTxRequest::from_sqs_event(build_lambda_event(vec![
        message_with_body(&valid_standard_json()),
        message_with_body(&valid_blob_json()),
    ]));

    for (position, record) in dropped.into_iter().enumerate() {
        let mut records = vec![
            message_with_body(&valid_standard_json()),
            message_with_body(&valid_blob_json()),
        ];
        records.insert(position, record);

        assert_eq!(SignTxRequest::from_sqs_event(build_lambda_event(records)), kept);
    }
}

#[test]
fn an_empty_batch_yields_nothing() {
    assert!(SignTxRequest::from_sqs_event(SqsEvent::default()).is_empty());
}

#[test]
fn blob_request_without_file_is_dropped() {
    let mut object = blob_object();
    object.remove("blob_file_path");
    let body = serde_json::Value::Object(object).to_string();

    assert_eq!(SignTxRequest::from_sqs_message(&message_with_body(&body)), None);
    // The body itself is a request; it is the rule on blobs that drops it.
    assert!(SignTxRequest::from_body(&body).is_some());
}

#[test]
fn blob_request_with_null_file_is_dropped() {
    let mut object = blob_object();
    object.insert("blob_file_path".to_string(), serde_json::Value::Null);
    let body = serde_json::Value::Object(object).to_string();

    assert_eq!(SignTxRequest::from_sqs_message(&message_with_body(&body)), None);
}

#[test]
fn null_file_of_a_standard_request_is_no_file() {
    let mut object = standard_object();
    object.insert("blob_file_path".to_string(), serde_json::Value::Null);

    assert_eq!(
        SignTxRequest::from_json(&serde_json::Value::Object(object)),
        Some(standard_request())
    );
}

#[test]
fn standard_request_may_name_a_file() {
    let mut object = standard_object();
    object.insert("blob_file_path".to_string(), text("path/to/file"));
    let mut expected = standard_request();
    expected.blob_file_path = Some("path/to/file".to_string());

    assert_eq!(SignTxRequest::from_json(&serde_json::Value::Object(object)), Some(expected));
}

#[test]
fn members_that_are_not_known_are_ignored() {
    let mut object = standard_object();
    object.insert("note".to_string(), text("ignored"));
    object.insert("retries".to_string(), serde_json::Value::Number(3.into()));

    assert_eq!(
        SignTxRequest::from_json(&serde_json::Value::Object(object)),
        Some(standard_request())
    );
}

#[test]
fn each_required_member_is_required() {
    for key in ["calldata", "chain_id", "tx_id", "sender_id", "tx_type"] {
        let mut object = standard_object();
        object.remove(key);

        assert_eq!(SignTxRequest::from_json(&serde_json::Value::Object(object)), None);
    }
}

#[test]
fn members_of_the_wrong_kind_are_refused() {
    for key in ["calldata", "tx_id", "sender_id", "tx_type", "blob_file_path"] {
        let mut object = standard_object();
        object.insert(key.to_string(), serde_json::Value::Number(7.into()));

        assert_eq!(SignTxRequest::from_json(&serde_json::Value::Object(object)), None);
    }
    let mut object = standard_object();
    object.insert("chain_id".to_string(), text("12"));

    assert_eq!(SignTxRequest::from_json(&serde_json::Value::Object(object)), None);
}

#[test]
fn chain_id_is_an_integer_of_32_bits() {
    let read = |number: &str| {
        let body = format!(
            r#"{{"calldata":"0xdeafbeef","chain_id":{},"tx_id":"abc123","sender_id":"sender-1","tx_type":"STANDARD"}}"#,
            number
        );
        SignTxRequest::from_body(&body).map(|request| request.chain_id)
    };

    assert_eq!(read("12"), Some(12));
    assert_eq!(read("0"), Some(0));
    assert_eq!(read("-7"), Some(-7));
    assert_eq!(read("2147483647"), Some(i32::MAX));
    assert_eq!(read("-2147483648"), Some(i32::MIN));
    assert_eq!(read("2147483648"), None);
    assert_eq!(read("-2147483649"), None);
    assert_eq!(read("18446744073709551615"), None);
    assert_eq!(read("12.0"), None);
    assert_eq!(read("1e2"), None);
    assert_eq!(read("true"), None);
}

#[test]
fn tx_type_is_one_of_two_names() {
    let read = |name: &str| {
        let mut object = standard_object();
        object.insert("tx_type".to_string(), text(name));
        SignTxRequest::from_json(&serde_json::Value::Object(object)).map(|request| request.tx_type)
    };

    assert_eq!(read("STANDARD"), Some(TxType::STANDARD));
    assert_eq!(read("BLOB"), Some(TxType::BLOB));
    assert_eq!(read("standard"), None);
    assert_eq!(read("Blob"), None);
    assert_eq!(read(""), None);
    assert_eq!(read("STANDARD "), None);
}

#[test]
fn a_document_that_is_no_object_is_no_request() {
    assert_eq!(SignTxRequest::from_body("null"), None);
    assert_eq!(SignTxRequest::from_body("12"), None);
    assert_eq!(SignTxRequest::from_body("\"abc123\""), None);
    assert_eq!(SignTxRequest::from_body("[]"), None);
    assert_eq!(SignTxRequest::from_body("{}"), None);
    assert_eq!(SignTxRequest::from_body(""), None);
}

#[test]
fn text_after_the_document_is_refused() {
    let body = format!("{} trailing", valid_standard_json());

    assert_eq!(SignTxRequest::from_body(&body), None);
}

#[test]
fn strings_are_read_with_their_escapes() {
    let body = r#"{"calldata":"0xdeafbeef","chain_id":12,"tx_id":"a\"bé","sender_id":"line\nbreak","tx_type":"STANDARD"}"#;
    let request = SignTxRequest::from_body(body).unwrap();

    assert_eq!(request.tx_id, "a\"b\u{e9}");
    assert_eq!(request.sender_id, "line\nbreak");
}

#[test]
fn calldata_is_not_validated_when_a_record_is_read() {
    let mut object = standard_object();
    object.insert("calldata".to_string(), text("not hex"));
    let body = serde_json::Value::Object(object).to_string();

    let request = SignTxRequest::from_sqs_message(&message_with_body(&body)).unwrap();

    assert_eq!(request.calldata, "not hex");
}

#[test]
fn into_db_transaction_copies_the_request_and_marks_it_signed() {
    let record = blob_request().into_db_transaction("0xsignature".to_string());

    assert_eq!(
        record,
        InsertTransactionInput {
            tx_id: "abc123".to_string(),
            sender_id: "sender-1".to_string(),
            tx_type: TxType::BLOB,
            tx_status: TxStatus::SIGNED,
            calldata: "0xdeafbeef".to_string(),
            chain_id: 12,
            signature: "0xsignature".to_string(),
            blob_file_path: Some("path/to/file".to_string()),
        }
    );
}
