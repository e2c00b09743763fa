use codex_session::cell_host::{
    tool_result_summary, CellToolCall, RuntimeCellHost, ToolKind, ToolName,
};
use codex_session::json::{encoded_len, json_len};
use codex_session::session_types::CellId;
use codex_session::string_map::StringMap;
use codex_session::text::decimal_text;
use codex_session::tool_error::FunctionCallError;
use serde_json::Value;

#[test]
fn map_keeps_the_last_value_of_each_key() {
    let mut map = StringMap::new();
    map.insert("a".to_string(), 1);
    map.insert("b".to_string(), 2);
    map.insert("a".to_string(), 3);
    assert_eq!(map.get(&"a".to_string()), Some(&3));
    assert_eq!(map.get(&"b".to_string()), Some(&2));
    assert_eq!(map.get(&"".to_string()), None);
    assert_eq!(map.remove(&"a".to_string()), Some(3));
    assert_eq!(map.remove(&"a".to_string()), None);
    assert!(map.contains_key(&"b".to_string()));
}

#[test]
fn extending_prefers_the_new_values() {
    let mut map = StringMap::new();
    map.insert("a".to_string(), 1);
    map.insert("b".to_string(), 2);
    let mut other = StringMap::new();
    other.insert("b".to_string(), 20);
    other.insert("c".to_string(), 30);
    let copy = other.clone();
    map.extend(other);
    assert_eq!(map.get(&"a".to_string()), Some(&1));
    assert_eq!(map.get(&"b".to_string()), Some(&20));
    assert_eq!(map.get(&"c".to_string()), Some(&30));
    assert_eq!(copy.get(&"a".to_string()), None);
    assert_eq!(copy.get(&"c".to_string()), Some(&30));
}

#[test]
fn numerals_are_decimal() {
    for n in [0u64, 1, 9, 10, 99, 100, 12345, u64::MAX] {
        assert_eq!(decimal_text(n), n.to_string());
    }
}

#[test]
fn tool_results_are_measured_in_bytes() {
    let value: Value = serde_json::from_str("{ \"key\" : [1, null, \"\u{e9}\"] }").unwrap();
    let summary = tool_result_summary(&Ok(value.clone()));
    assert_eq!(summary.result_class, "success");
    assert_eq!(summary.output_bytes, "{\"key\":[1,null,\"\u{e9}\"]}".len());
    assert_eq!(json_len(&value), 21);
    assert_eq!(json_len(&Value::Null), 4);
    let summary = tool_result_summary(&Err("caf\u{e9}".to_string()));
    assert_eq!(summary.result_class, "error");
    assert_eq!(summary.output_bytes, 5);
}

#[test]
fn failed_encoding_counts_no_bytes() {
    assert_eq!(encoded_len(&Ok(vec![1, 2, 3])), 3);
    let error = serde_json::from_str::<Value>("{").unwrap_err();
    assert_eq!(encoded_len(&Err(error)), 0);
}

#[test]
fn calls_carry_their_cell() {
    let host = RuntimeCellHost { cell_id: CellId::new("4".to_string()) };
    let call = host.invoke_tool(CellToolCall {
        id: "call-1".to_string(),
        name: ToolName { name: "exec".to_string(), namespace: Some("shell".to_string()) },
        kind: ToolKind::Function,
        input: Some(Value::from(true)),
    });
    assert_eq!(call.cell_id, host.cell_id);
    assert_eq!(call.runtime_tool_call_id, "call-1");
    assert_eq!(call.tool_name.name, "exec");
    assert_eq!(call.tool_name.namespace, Some("shell".to_string()));
    assert_eq!(call.tool_kind, ToolKind::Function);
    assert_eq!(call.input, Some(Value::from(true)));

    let notification = host.notify("call-2".to_string(), "hello".to_string());
    assert_eq!(notification.call_id, "call-2");
    assert_eq!(notification.cell_id, host.cell_id);
    assert_eq!(notification.text, "hello");
}

#[test]
fn only_fatal_errors_are_marked() {
    assert_eq!(FunctionCallError::RespondToModel("a".to_string()).message(), "a");
    assert_eq!(FunctionCallError::MalformedArguments("b".to_string()).message(), "b");
    assert_eq!(FunctionCallError::Fatal("c".to_string()).message(), "Fatal error: c");
}
