use tobsdb::errors::TdbError;
use tobsdb::{
    decode_response, decode_response_many, endpoint_params, list_of_records, reply_text, request_frame,
    response_from_members, response_many_from_members, Action, Handshake, ListMember, Reply, TdbAuthParms,
    TextMember, Tobsdb,
};

fn client() -> Tobsdb<u32> {
    Tobsdb::new(
        "ws://localhost:7085",
        "rust_client_ts",
        "table a { b String }",
        Some(TdbAuthParms::new("user", "pass")),
    )
    .unwrap()
}

fn connected() -> Tobsdb<u32> {
    let mut tdb = client();
    tdb.finish_connect(Handshake::Accepted(7)).unwrap();
    tdb
}

#[test]
fn new_client_is_not_connected() {
    let tdb = client();
    assert!(!tdb.is_connected());
}

#[test]
fn endpoint_carries_query_parameters() {
    let tdb = client();
    assert_eq!(
        tdb.endpoint(),
        "ws://localhost:7085/?db=rust_client_ts&schema=table+a+%7B+b+String+%7D&username=user&password=pass"
    );
}

#[test]
fn endpoint_params_without_credentials() {
    let params = endpoint_params("d", "s", &None);
    assert_eq!(
        params,
        vec![("db".to_string(), "d".to_string()), ("schema".to_string(), "s".to_string())]
    );
}

#[test]
fn endpoint_params_with_credentials() {
    let params = endpoint_params("d", "s", &Some(TdbAuthParms::new("u", "p")));
    assert_eq!(params.len(), 4);
    assert_eq!(params[2], ("username".to_string(), "u".to_string()));
    assert_eq!(params[3], ("password".to_string(), "p".to_string()));
}

#[test]
fn invalid_base_url_is_refused() {
    let r = Tobsdb::<u32>::new("not a url", "db", "", None);
    assert!(matches!(r, Err(TdbError::InvalidUrl(_))));
}

#[test]
fn connect_stores_connection() {
    let tdb = connected();
    assert!(tdb.is_connected());
}

#[test]
fn second_connect_keeps_first_connection() {
    let mut tdb = connected();
    assert_eq!(tdb.finish_connect(Handshake::Failed("unreachable".to_string())), Ok(()));
    assert!(tdb.is_connected());
    assert_eq!(tdb.connection_mut().map(|c| *c), Some(7));
}

#[test]
fn refused_handshake_fails_and_stores_nothing() {
    let mut tdb = client();
    let r = tdb.finish_connect(Handshake::Refused("\"bad schema\"".to_string()));
    assert_eq!(r, Err(TdbError::ConnFailed("\"bad schema\"".to_string())));
    assert!(!tdb.is_connected());
}

#[test]
fn failed_handshake_fails_with_reason() {
    let mut tdb = client();
    let r = tdb.finish_connect(Handshake::Failed("refused".to_string()));
    assert_eq!(r, Err(TdbError::ConnFailed("refused".to_string())));
    assert!(!tdb.is_connected());
}

#[test]
fn disconnect_never_connected_is_noop() {
    let mut tdb = client();
    assert_eq!(tdb.take_connection(), None);
    assert!(!tdb.is_connected());
}

#[test]
fn disconnect_hands_out_connection() {
    let mut tdb = connected();
    assert_eq!(tdb.take_connection(), Some(7));
    assert!(!tdb.is_connected());
    assert_eq!(tdb.take_connection(), None);
}

#[test]
fn query_without_connection_is_disconnected() {
    let tdb = client();
    assert_eq!(tdb.create("a", "{\"b\":1}"), Err(TdbError::Disconnected));
    assert_eq!(tdb.find_many("a", "{}"), Err(TdbError::Disconnected));
}

#[test]
fn create_frame() {
    let tdb = connected();
    assert_eq!(
        tdb.create("a", "{\"b\":\"hello world\"}").unwrap(),
        "{\"action\":\"create\",\"table\":\"a\",\"data\":{\"b\":\"hello world\"},\"where\":null}"
    );
}

#[test]
fn create_many_frame() {
    let tdb = connected();
    assert_eq!(
        tdb.create_many("a", vec!["{\"b\":1}", "{\"b\":2}"]).unwrap(),
        "{\"action\":\"createMany\",\"table\":\"a\",\"data\":[{\"b\":1},{\"b\":2}],\"where\":null}"
    );
}

#[test]
fn find_frames() {
    let tdb = connected();
    assert_eq!(
        tdb.find_unqiue("a", "{\"id\":1}").unwrap(),
        "{\"action\":\"findUnique\",\"table\":\"a\",\"data\":null,\"where\":{\"id\":1}}"
    );
    assert_eq!(
        tdb.find_many("a", "{}").unwrap(),
        "{\"action\":\"findMany\",\"table\":\"a\",\"data\":null,\"where\":{}}"
    );
}

#[test]
fn update_frames() {
    let tdb = connected();
    assert_eq!(
        tdb.update_unqiue("a", "{\"b\":\"x\"}", "{\"id\":1}").unwrap(),
        "{\"action\":\"updateUnique\",\"table\":\"a\",\"data\":{\"b\":\"x\"},\"where\":{\"id\":1}}"
    );
    assert_eq!(
        tdb.update_many("a", "{\"b\":\"x\"}", "{}").unwrap(),
        "{\"action\":\"updateMany\",\"table\":\"a\",\"data\":{\"b\":\"x\"},\"where\":{}}"
    );
}

#[test]
fn delete_frames() {
    let tdb = connected();
    assert_eq!(
        tdb.delete_unqiue("a", "{\"id\":1}").unwrap(),
        "{\"action\":\"deleteUnique\",\"table\":\"a\",\"data\":null,\"where\":{\"id\":1}}"
    );
    assert_eq!(
        tdb.delete_many("a", "{}").unwrap(),
        "{\"action\":\"deleteMany\",\"table\":\"a\",\"data\":null,\"where\":{}}"
    );
}

#[test]
fn every_frame_names_its_action() {
    let actions = [
        (Action::Create, "create"),
        (Action::CreateMany, "createMany"),
        (Action::FindUnique, "findUnique"),
        (Action::FindMany, "findMany"),
        (Action::UpdateUnique, "updateUnique"),
        (Action::UpdateMany, "updateMany"),
        (Action::DeleteUnique, "deleteUnique"),
        (Action::DeleteMany, "deleteMany"),
    ];
    for (a, name) in actions {
        assert_eq!(a.name(), name);
        let frame = request_frame(a, "users", None, None);
        let v: serde_json::Value = serde_json::from_str(&frame).unwrap();
        assert_eq!(v["action"], name);
        assert_eq!(v["table"], "users");
    }
}

#[test]
fn table_name_is_escaped() {
    let frame = request_frame(Action::FindMany, "a\"b", None, Some("{}"));
    assert_eq!(frame, "{\"action\":\"findMany\",\"table\":\"a\\\"b\",\"data\":null,\"where\":{}}");
}

#[test]
fn empty_record_list() {
    assert_eq!(list_of_records(&vec![]), "[]");
    assert_eq!(list_of_records(&vec!["1"]), "[1]");
}

#[test]
fn create_reply_decodes() {
    let text = reply_text(Reply::Text(
        "{\"status\":201,\"message\":\"Created new row in table a\",\"data\":{\"b\":\"hello world\"}}".to_string(),
    ))
    .unwrap();
    let res = decode_response(&text).unwrap();
    assert_eq!(res.status, 201);
    assert_eq!(res.message, "Created new row in table a");
    let data = res.data.unwrap();
    assert_eq!(data["b"], "hello world");
    assert_eq!(res.request_id, None);
}

#[test]
fn find_many_reply_keeps_order() {
    let text = reply_text(Reply::Text("{\"status\":200,\"data\":[{\"b\":\"x\"},{\"b\":\"y\"}]}".to_string())).unwrap();
    let res = decode_response_many(&text).unwrap();
    assert_eq!(res.status, 200);
    assert_eq!(res.message, "");
    let rows = res.data.unwrap();
    assert_eq!(rows.len(), 2);
    assert_eq!(rows[0]["b"], "x");
    assert_eq!(rows[1]["b"], "y");
}

#[test]
fn reply_correlation_id_is_read() {
    let res = decode_response("{\"status\":404,\"message\":\"no row\",\"data\":null,\"__tdb_client_req_id__\":9}")
        .unwrap();
    assert_eq!(res.status, 404);
    assert!(res.data.is_none());
    assert_eq!(res.request_id, Some(9));
}

#[test]
fn closed_stream_gives_no_response() {
    assert_eq!(reply_text(Reply::Closed), Err(TdbError::NoResponse));
    assert_eq!(reply_text(Reply::Failed("reset".to_string())), Err(TdbError::NoResponse));
}

#[test]
fn binary_reply_fails_to_decode() {
    assert!(matches!(reply_text(Reply::NotText), Err(TdbError::DecodeFailed(_))));
}

#[test]
fn malformed_reply_fails_to_decode() {
    assert!(matches!(decode_response("{status"), Err(TdbError::DecodeFailed(_))));
    assert!(matches!(decode_response("{\"message\":\"x\"}"), Err(TdbError::DecodeFailed(_))));
    assert!(matches!(decode_response("{\"status\":5000000000}"), Err(TdbError::DecodeFailed(_))));
    assert!(matches!(decode_response_many("{\"status\":200,\"data\":{\"b\":1}}"), Err(TdbError::DecodeFailed(_))));
}

#[test]
fn error_descriptions() {
    assert_eq!(TdbError::ConnFailed("x".to_string()).describe(), "Connection Failed: x");
    assert_eq!(TdbError::QueryFailed("y".to_string()).describe(), "Query Failed: y");
    assert_eq!(TdbError::Disconnected.describe(), "Websocket disconnected");
    assert_eq!(TdbError::NoResponse.describe(), "No response received");
    assert_eq!(TdbError::DecodeFailed("z".to_string()).describe(), "Decode Failed: z");
    assert_eq!(TdbError::InvalidUrl("w".to_string()).describe(), "Invalid URL: w");
}

#[test]
fn auth_parms_keep_credentials() {
    let a = TdbAuthParms::new("user", "pass");
    assert_eq!(a.username, "user");
    assert_eq!(a.password, "pass");
}

#[test]
fn members_build_a_reply() {
    let data = serde_json::Value::from("x");
    let res = response_from_members(Some(200), TextMember::Null, Some(data.clone()), Some(3)).unwrap();
    assert_eq!(res.status, 200);
    assert_eq!(res.message, "");
    assert_eq!(res.data, Some(data));
    assert_eq!(res.request_id, Some(3));
    let res = response_from_members(Some(201), TextMember::Text("ok".to_string()), None, None).unwrap();
    assert_eq!(res.message, "ok");
    assert!(res.data.is_none());
}

#[test]
fn members_refused() {
    assert!(matches!(
        response_from_members(None, TextMember::Missing, None, None),
        Err(TdbError::DecodeFailed(_))
    ));
    assert!(matches!(
        response_from_members(Some(4294967296), TextMember::Missing, None, None),
        Err(TdbError::DecodeFailed(_))
    ));
    assert_eq!(response_from_members(Some(4294967295), TextMember::Missing, None, None).unwrap().status, 4294967295);
    assert!(matches!(
        response_from_members(Some(200), TextMember::NotText, None, None),
        Err(TdbError::DecodeFailed(_))
    ));
    assert!(matches!(
        response_many_from_members(Some(200), TextMember::Missing, ListMember::NotList, None),
        Err(TdbError::DecodeFailed(_))
    ));
}

#[test]
fn list_members_keep_order() {
    let items = vec![serde_json::Value::from(1), serde_json::Value::from(2)];
    let res = response_many_from_members(Some(200), TextMember::Missing, ListMember::List(items.clone()), None).unwrap();
    assert_eq!(res.data, Some(items));
    let res = response_many_from_members(Some(200), TextMember::Missing, ListMember::Missing, None).unwrap();
    assert!(res.data.is_none());
}

#[test]
fn control_characters_in_table_are_escaped() {
    let frame = request_frame(Action::FindMany, "a\nb\u{1}", None, None);
    assert_eq!(frame, "{\"action\":\"findMany\",\"table\":\"a\\nb\\u0001\",\"data\":null,\"where\":null}");
}
