//! Compiled function graphs: bytecode segments of instructions over registers.

use vstd::prelude::*;
use crate::text::text_lt;
use crate::symbol::SymbolId;
use crate::json::JsonValue;

verus! {

/// One bytecode instruction. `slot` is the register the compiler assigned to the node.
pub enum Instruction {
    LoadConstant { slot: u32, constant: u32 },
    LoadInput { slot: u32, port_id: SymbolId },
    MakeObject { slot: u32, fields: Vec<SymbolId> },
    MakeList { slot: u32 },
    ReadField { slot: u32, field_id: SymbolId },
    Format { slot: u32, template: String },
    Compare { slot: u32, operator: String },
    Boolean { slot: u32, operator: String },
    Math { slot: u32, operator: String },
    Branch { slot: u32 },
    ForEach { max_items: u32, body_function_id: SymbolId },
    ValidateForm { rule_count: u32 },
    CreateRecord { model_id: SymbolId },
    ReadRecord { model_id: SymbolId },
    UpdateRecord { model_id: SymbolId },
    DeleteRecord { model_id: SymbolId },
    QueryRecords { model_id: SymbolId, limit: u32 },
    Navigate { route_id: SymbolId },
    Confirm,
    Notify { level: String },
    InvokeCapability { capability_id: String, operation: String },
    InvokeServerSegment { segment_id: SymbolId, input_port: SymbolId },
    Return,
    Fail { code: String },
}

/// An instruction of a segment together with the node it was compiled from, the registers it
/// reads (by input name, in increasing order of name: `slots_wf`) and the register it writes.
pub struct BytecodeInstruction {
    pub node_id: SymbolId,
    pub input_slots: Vec<(String, u32)>,
    pub output_slot: Option<u32>,
    pub instruction: Instruction,
}

/// Whether the names of an instruction's input registers come in increasing order, so that
/// none occurs twice.
pub open spec fn slots_wf(slots: Seq<(String, u32)>) -> bool {
    forall|i: int, j: int| 0 <= i < j < slots.len() ==> text_lt((#[trigger] slots[i]).0@, (#[trigger] slots[j]).0@)
}

/// The bytecode of one function.
pub struct BytecodeSegment {
    pub id: SymbolId,
    pub name: String,
    pub instructions: Vec<BytecodeInstruction>,
    pub constants: Vec<JsonValue>,
}

} // verus!
