//! What is handed on of a cell's calls, and what is summed up of their results.

use crate::cell_host::{
    tool_result_summary, CellNotification, CellToolCall, NestedToolCall, RuntimeCellHost,
    ToolResultSummary,
};
use crate::json::{encoded_len, json_encoding, json_len};
use serde_json::Value;
use vstd::prelude::*;
use vstd::utf8::encode_utf8;

verus! {

/// A tool call is handed on whole, with the cell that made it.
pub proof fn law_tool_call_is_handed_on_whole(
    host: RuntimeCellHost,
    invocation: CellToolCall,
    call: NestedToolCall,
)
    requires
        call_ensures(RuntimeCellHost::invoke_tool, (&host, invocation), call),
    ensures
        call.cell_id == host.cell_id,
        call.runtime_tool_call_id == invocation.id,
        call.tool_name == invocation.name,
        call.tool_kind == invocation.kind,
        call.input == invocation.input,
{
}

/// A notification is handed on whole, with the cell that made it.
pub proof fn law_notification_is_handed_on_whole(
    host: RuntimeCellHost,
    call_id: String,
    text: String,
    notification: CellNotification,
)
    requires
        call_ensures(RuntimeCellHost::notify, (&host, call_id, text), notification),
    ensures
        notification.cell_id == host.cell_id,
        notification.call_id == call_id,
        notification.text == text,
{
}

/// The size of a JSON value is that of its text, and nothing where it has none.
pub proof fn law_json_size_is_that_of_the_text(
    value: Value,
    len: usize,
)
    requires
        call_ensures(json_len, (&value,), len),
    ensures
        json_encoding(value) is Some ==> len == json_encoding(value)->0.len(),
        json_encoding(value) is None ==> len == 0,
{
}

/// An encoding that failed has no size.
pub proof fn law_failed_encoding_has_no_size(
    encoded: Result<Vec<u8>, serde_json::Error>,
    len: usize,
)
    requires
        call_ensures(encoded_len, (&encoded,), len),
    ensures
        encoded is Ok ==> len == encoded->Ok_0@.len(),
        encoded is Err ==> len == 0,
{
}

/// A tool call that succeeded is summed up as a success, with the size of its result.
pub proof fn law_success_is_summed_up(
    value: Value,
    summary: ToolResultSummary,
    len: usize,
)
    requires
        call_ensures(tool_result_summary, (&Ok::<Value, String>(value),), summary),
        call_ensures(json_len, (&value,), len),
    ensures
        summary.result_class@ == "success"@,
        summary.output_bytes == len,
{
}

/// A tool call that failed is summed up as an error, with the size of the error text in bytes.
pub proof fn law_error_is_summed_up(
    error_text: String,
    summary: ToolResultSummary,
)
    requires
        call_ensures(tool_result_summary, (&Err::<Value, String>(error_text),), summary),
    ensures
        summary.result_class@ == "error"@,
        summary.output_bytes == encode_utf8(error_text@).len(),
{
}

} // verus!
