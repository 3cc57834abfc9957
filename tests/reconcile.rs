use philipshue::error::{ErrorDetail, HueError};
use philipshue::json::GroupId;
use philipshue::outcome::{extract, RpcOutcome};
use philipshue::reconcile::{reconcile, reconcile_and_extract};
use serde_json::Value;

type JsonMap = serde_json::Map<String, Value>;

fn decode_error(e: serde_json::Error) -> HueError {
    HueError::Decode(e.to_string())
}

fn parse(body: &str) -> Result<Value, HueError> {
    serde_json::from_str::<Value>(body).map_err(decode_error)
}

fn detail_of(v: &Value) -> Option<ErrorDetail> {
    let o = v.as_object()?;
    Some(ErrorDetail::new(
        o.get("type")?.as_i64()?,
        o.get("address")?.as_str()?.to_string(),
        o.get("description")?.as_str()?.to_string(),
    ))
}

fn outcome_of<T>(v: &Value, item: &dyn Fn(&Value) -> Option<T>) -> Option<RpcOutcome<T>> {
    let o = v.as_object()?;
    if o.len() != 1 {
        return None;
    }
    if let Some(s) = o.get("success") {
        return item(s).map(RpcOutcome::Success);
    }
    detail_of(o.get("error")?).map(RpcOutcome::Failure)
}

fn outcomes_of<T>(v: &Value, item: &dyn Fn(&Value) -> Option<T>) -> Option<Vec<RpcOutcome<T>>> {
    v.as_array()?.iter().map(|e| outcome_of(e, item)).collect()
}

fn shape_error() -> HueError {
    HueError::Decode("unexpected shape".to_string())
}

fn group_id_of(v: &Value) -> Option<GroupId> {
    let id = v.as_object()?.get("id")?.as_u64()?;
    Some(GroupId { id: id as usize })
}

fn map_of(v: &Value) -> Option<JsonMap> {
    v.as_object().cloned()
}

fn direct<T>(body: &str, item: &dyn Fn(&Value) -> Option<T>) -> Result<T, HueError> {
    parse(body).and_then(|v| item(&v).ok_or_else(shape_error))
}

fn envelope<T>(body: &str, item: &dyn Fn(&Value) -> Option<T>) -> Result<Vec<RpcOutcome<T>>, HueError> {
    parse(body).and_then(|v| outcomes_of(&v, item).ok_or_else(shape_error))
}

fn list_of<T>(item: &dyn Fn(&Value) -> Option<T>) -> impl Fn(&Value) -> Option<Vec<RpcOutcome<T>>> + '_ {
    move |v| outcomes_of(v, item)
}

fn read_call<T>(body: &str, item: &dyn Fn(&Value) -> Option<T>) -> Result<T, HueError> {
    reconcile(direct(body, item), envelope(body, item))
}

fn write_call<T>(body: &str, item: &dyn Fn(&Value) -> Option<T>) -> Result<Vec<T>, HueError> {
    let list = list_of(item);
    reconcile_and_extract(direct(body, &list), envelope(body, &list))
}

fn detail(code: i64, address: &str, description: &str) -> ErrorDetail {
    ErrorDetail::new(code, address.to_string(), description.to_string())
}

#[test]
fn single_id_object_decodes_directly() {
    assert_eq!(read_call(r#"{"id": 7}"#, &group_id_of), Ok(GroupId { id: 7 }));
}

#[test]
fn write_success_is_extracted() {
    let r = write_call(r#"[{"success":{"lights/1/state/on":true}}]"#, &map_of).unwrap();
    assert_eq!(r.len(), 1);
    assert_eq!(r[0].get("lights/1/state/on"), Some(&Value::Bool(true)));
    assert_eq!(r[0].len(), 1);
}

#[test]
fn bridge_error_is_surfaced() {
    let body = r#"[{"error":{"type":1,"address":"/lights/9","description":"not available"}}]"#;
    assert_eq!(write_call(body, &map_of), Err(HueError::Bridge(detail(1, "/lights/9", "not available"))));
    assert_eq!(read_call(body, &group_id_of), Err(HueError::Bridge(detail(1, "/lights/9", "not available"))));
}

#[test]
fn empty_envelope_for_create_call_is_empty_error() {
    assert_eq!(read_call("[]", &group_id_of), Err(HueError::Empty));
    assert_eq!(read_call("[]", &map_of), Err(HueError::Empty));
}

#[test]
fn malformed_body_is_decode_error() {
    assert!(matches!(read_call("not json", &group_id_of), Err(HueError::Decode(_))));
    assert!(matches!(write_call("not json", &map_of), Err(HueError::Decode(_))));
    assert!(matches!(read_call("not json", &map_of), Err(HueError::Decode(_))));
}

#[test]
fn failure_after_two_successes_wins() {
    let body = r#"[{"success":{"a":1}},{"success":{"b":2}},{"error":{"type":7,"address":"/x","description":"bad"}}]"#;
    assert_eq!(write_call(body, &map_of), Err(HueError::Bridge(detail(7, "/x", "bad"))));
}

#[test]
fn create_call_yields_id() {
    assert_eq!(read_call(r#"[{"success":{"id":3}}]"#, &group_id_of), Ok(GroupId { id: 3 }));
}

#[test]
fn direct_shape_has_priority() {
    let env = vec![RpcOutcome::Success(9u32)];
    assert_eq!(reconcile(Ok(4u32), Ok(env)), Ok(4));
    assert_eq!(reconcile(Ok(4u32), Err(HueError::Empty)), Ok(4));
}

#[test]
fn first_decode_error_is_kept() {
    let r = reconcile::<u32>(Err(HueError::Decode("first".to_string())), Err(HueError::Decode("second".to_string())));
    assert_eq!(r, Err(HueError::Decode("first".to_string())));
}

#[test]
fn envelope_first_outcome_decides() {
    let env = vec![RpcOutcome::Success(1u32), RpcOutcome::Failure(detail(2, "/a", "b"))];
    assert_eq!(reconcile(Err(HueError::Empty), Ok(env)), Ok(1));
    let env = vec![RpcOutcome::Failure(detail(2, "/a", "b")), RpcOutcome::Success(1u32)];
    assert_eq!(reconcile(Err(HueError::Empty), Ok(env)), Err(HueError::Bridge(detail(2, "/a", "b"))));
}

#[test]
fn successes_keep_their_order() {
    let v = vec![RpcOutcome::Success(3u8), RpcOutcome::Success(1), RpcOutcome::Success(2)];
    assert_eq!(extract(v.clone()), Ok(vec![3, 1, 2]));
    assert_eq!(reconcile_and_extract(Ok(v), Err(HueError::Empty)), Ok(vec![3, 1, 2]));
}

#[test]
fn first_failure_is_returned() {
    let v = vec![
        RpcOutcome::Success(1u8),
        RpcOutcome::Failure(detail(3, "/one", "first")),
        RpcOutcome::Success(2),
        RpcOutcome::Failure(detail(4, "/two", "second")),
    ];
    assert_eq!(extract(v), Err(HueError::Bridge(detail(3, "/one", "first"))));
    let v = vec![RpcOutcome::<u8>::Failure(detail(5, "/only", "x"))];
    assert_eq!(extract(v), Err(HueError::Bridge(detail(5, "/only", "x"))));
}

#[test]
fn empty_outcomes_extract_to_empty_list() {
    assert_eq!(extract(Vec::<RpcOutcome<u8>>::new()), Ok(vec![]));
    assert_eq!(write_call("[]", &map_of), Ok(vec![]));
}

#[test]
fn outcome_into_result() {
    assert_eq!(RpcOutcome::Success(5u8).into_result(), Ok(5));
    assert_eq!(
        RpcOutcome::<u8>::Failure(detail(101, "", "link button not pressed")).into_result(),
        Err(HueError::Bridge(detail(101, "", "link button not pressed")))
    );
}

#[test]
fn error_accessors() {
    let e = HueError::Bridge(detail(1, "/a", "b"));
    assert!(e.is_bridge_error());
    assert_eq!(e.bridge_detail(), Some(&detail(1, "/a", "b")));
    assert!(!HueError::Empty.is_bridge_error());
    assert_eq!(HueError::Transport("t".to_string()).bridge_detail(), None);
    assert_eq!(HueError::Encoding("e".to_string()).bridge_detail(), None);
}
