//! What a cell asks of its session: tool calls and notifications.

use crate::json::{encoding_size, json_encoding, json_len};
use crate::session_types::CellId;
use serde_json::Value;
use vstd::prelude::*;
use vstd::utf8::encode_utf8;

verus! {

/// The name of a tool.
#[derive(Debug, PartialEq, Eq)]
pub struct ToolName {
    /// The name proper.
    pub name: String,
    /// The namespace that it belongs to.
    pub namespace: Option<String>,
}

/// How a tool takes its input.
#[derive(Clone, Copy, Debug, PartialEq, Eq, Structural)]
pub enum ToolKind {
    /// As arguments.
    Function,
    /// As free text.
    Freeform,
}

/// A tool call as a cell makes it.
#[derive(Debug, PartialEq)]
pub struct CellToolCall {
    /// The cell's id for the call.
    pub id: String,
    /// The tool.
    pub name: ToolName,
    /// How the tool takes its input.
    pub kind: ToolKind,
    /// The input.
    pub input: Option<Value>,
}

/// A tool call as it is handed on, with the cell that made it.
#[derive(Debug, PartialEq)]
pub struct NestedToolCall {
    /// The cell that made the call.
    pub cell_id: CellId,
    /// The cell's id for the call.
    pub runtime_tool_call_id: String,
    /// The tool.
    pub tool_name: ToolName,
    /// How the tool takes its input.
    pub tool_kind: ToolKind,
    /// The input.
    pub input: Option<Value>,
}

/// A notification as it is handed on, with the cell that made it.
#[derive(Debug, PartialEq, Eq)]
pub struct CellNotification {
    /// The call that the notification belongs to.
    pub call_id: String,
    /// The cell that made it.
    pub cell_id: CellId,
    /// The text.
    pub text: String,
}

/// A tool call's result in brief, for the log.
#[derive(Debug, PartialEq, Eq)]
pub struct ToolResultSummary {
    /// `success` or `error`.
    pub result_class: &'static str,
    /// The size of the JSON text of what came back, or of the error text.
    pub output_bytes: usize,
}

/// The session's side of one cell.
#[derive(Debug, PartialEq, Eq)]
pub struct RuntimeCellHost {
    /// The cell.
    pub cell_id: CellId,
}

impl RuntimeCellHost {
    /// Hands on a tool call of the cell.
    pub fn invoke_tool(&self, invocation: CellToolCall) -> (call: NestedToolCall)
        ensures
            call == (NestedToolCall {
                cell_id: self.cell_id,
                runtime_tool_call_id: invocation.id,
                tool_name: invocation.name,
                tool_kind: invocation.kind,
                input: invocation.input,
            }),
    {
        NestedToolCall {
            cell_id: self.cell_id.clone(),
            runtime_tool_call_id: invocation.id,
            tool_name: invocation.name,
            tool_kind: invocation.kind,
            input: invocation.input,
        }
    }

    /// Hands on a notification of the cell.
    pub fn notify(&self, call_id: String, text: String) -> (notification: CellNotification)
        ensures
            notification == (CellNotification { call_id, cell_id: self.cell_id, text }),
    {
        CellNotification { call_id, cell_id: self.cell_id.clone(), text }
    }
}

/// Sums up a tool call's result.
pub fn tool_result_summary(result: &Result<Value, String>) -> (summary: ToolResultSummary)
    ensures
        match result {
            Ok(value) => {
                &&& summary.result_class@ == "success"@
                &&& summary.output_bytes == encoding_size(json_encoding(*value))
            },
            Err(error_text) => {
                &&& summary.result_class@ == "error"@
                &&& summary.output_bytes == encode_utf8(error_text@).len()
            },
        },
{
    match result {
        Ok(value) => ToolResultSummary { result_class: "success", output_bytes: json_len(value) },
        Err(error_text) => ToolResultSummary {
            result_class: "error",
            output_bytes: error_text.as_str().as_bytes().len(),
        },
    }
}

} // verus!
