//! The graph interpreter, as a state machine.
//!
//! The interpreter runs the bytecode of a function. Whatever it cannot do by itself it hands to
//! its driver as a request and waits for the reply: an effect for the host (a record to create,
//! a page to open, a server segment to invoke ...), and the operations on JSON numbers and JSON
//! text (compare, math, format), which the driver computes in binary64 arithmetic.

use vstd::prelude::*;
use crate::symbol::{SymbolId, symbol_text};
use crate::json::{JsonValue, JsonView, json_seq_view, json_entries_view, entries_get, entries_insert,
    lemma_json_seq_view, lemma_json_entries_view, lemma_json_seq_view_push, object_get, object_insert};
use crate::bytecode::{Instruction, BytecodeInstruction, BytecodeSegment, slots_wf};
use crate::text::{text_eq, text_lt};

verus! {

/// An effect that the host performs for the interpreter.
#[derive(Debug)]
pub enum VmEffect {
    ValidateForm { rules: u32, value: JsonValue },
    CreateRecord { model_id: SymbolId, value: JsonValue },
    ReadRecord { model_id: SymbolId, value: JsonValue },
    UpdateRecord { model_id: SymbolId, value: JsonValue },
    DeleteRecord { model_id: SymbolId, value: JsonValue },
    QueryRecords { model_id: SymbolId, limit: u32, value: JsonValue },
    Navigate { route_id: SymbolId },
    Confirm { value: JsonValue },
    Notify { level: String, value: JsonValue },
    Capability { capability_id: String, operation: String, value: JsonValue },
    InvokeServerSegment { segment_id: SymbolId, inputs: Vec<(SymbolId, JsonValue)> },
}

pub ghost enum VmEffectView {
    ValidateForm { rules: u32, value: JsonView },
    CreateRecord { model_id: SymbolId, value: JsonView },
    ReadRecord { model_id: SymbolId, value: JsonView },
    UpdateRecord { model_id: SymbolId, value: JsonView },
    DeleteRecord { model_id: SymbolId, value: JsonView },
    QueryRecords { model_id: SymbolId, limit: u32, value: JsonView },
    Navigate { route_id: SymbolId },
    Confirm { value: JsonView },
    Notify { level: Seq<char>, value: JsonView },
    Capability { capability_id: Seq<char>, operation: Seq<char>, value: JsonView },
    InvokeServerSegment { segment_id: SymbolId, inputs: Seq<(SymbolId, JsonView)> },
}

pub open spec fn inputs_view(ins: Seq<(SymbolId, JsonValue)>) -> Seq<(SymbolId, JsonView)> {
    ins.map_values(|e: (SymbolId, JsonValue)| (e.0, e.1@))
}

impl View for VmEffect {
    type V = VmEffectView;

    open spec fn view(&self) -> VmEffectView {
        match self {
            VmEffect::ValidateForm { rules, value } => VmEffectView::ValidateForm { rules: *rules, value: value@ },
            VmEffect::CreateRecord { model_id, value } => VmEffectView::CreateRecord { model_id: *model_id, value: value@ },
            VmEffect::ReadRecord { model_id, value } => VmEffectView::ReadRecord { model_id: *model_id, value: value@ },
            VmEffect::UpdateRecord { model_id, value } => VmEffectView::UpdateRecord { model_id: *model_id, value: value@ },
            VmEffect::DeleteRecord { model_id, value } => VmEffectView::DeleteRecord { model_id: *model_id, value: value@ },
            VmEffect::QueryRecords { model_id, limit, value } => VmEffectView::QueryRecords {
                model_id: *model_id,
                limit: *limit,
                value: value@,
            },
            VmEffect::Navigate { route_id } => VmEffectView::Navigate { route_id: *route_id },
            VmEffect::Confirm { value } => VmEffectView::Confirm { value: value@ },
            VmEffect::Notify { level, value } => VmEffectView::Notify { level: level@, value: value@ },
            VmEffect::Capability { capability_id, operation, value } => VmEffectView::Capability {
                capability_id: capability_id@,
                operation: operation@,
                value: value@,
            },
            VmEffect::InvokeServerSegment { segment_id, inputs } => VmEffectView::InvokeServerSegment {
                segment_id: *segment_id,
                inputs: inputs_view(inputs@),
            },
        }
    }
}

/// An operation on JSON numbers or JSON text that the driver computes.
#[derive(Debug)]
pub enum VmCompute {
    Compare { operator: String, left: JsonValue, right: JsonValue },
    Math { operator: String, left: JsonValue, right: JsonValue },
    Format { template: String, values: Vec<JsonValue> },
}

pub ghost enum VmComputeView {
    Compare { operator: Seq<char>, left: JsonView, right: JsonView },
    Math { operator: Seq<char>, left: JsonView, right: JsonView },
    Format { template: Seq<char>, values: Seq<JsonView> },
}

impl View for VmCompute {
    type V = VmComputeView;

    open spec fn view(&self) -> VmComputeView {
        match self {
            VmCompute::Compare { operator, left, right } => VmComputeView::Compare {
                operator: operator@,
                left: left@,
                right: right@,
            },
            VmCompute::Math { operator, left, right } => VmComputeView::Math { operator: operator@, left: left@, right: right@ },
            VmCompute::Format { template, values } => VmComputeView::Format {
                template: template@,
                values: json_seq_view(values@),
            },
        }
    }
}

/// Why an execution stopped.
#[derive(Debug)]
pub enum VmFault {
    SegmentNotFound(SymbolId),
    StepLimitExceeded,
    ConstantOutOfBounds(u32),
    InputMissing(SymbolId),
    FieldMissing(SymbolId),
    UnknownBooleanOperator(String),
    TooManyItems(u32),
    BodyNotFound(SymbolId),
    GraphFailed(String),
    /// The driver reported the failure of an effect or of a computation.
    Reported(String),
}

pub ghost enum VmFaultView {
    SegmentNotFound(SymbolId),
    StepLimitExceeded,
    ConstantOutOfBounds(u32),
    InputMissing(SymbolId),
    FieldMissing(SymbolId),
    UnknownBooleanOperator(Seq<char>),
    TooManyItems(u32),
    BodyNotFound(SymbolId),
    GraphFailed(Seq<char>),
    Reported(Seq<char>),
}

impl View for VmFault {
    type V = VmFaultView;

    open spec fn view(&self) -> VmFaultView {
        match self {
            VmFault::SegmentNotFound(id) => VmFaultView::SegmentNotFound(*id),
            VmFault::StepLimitExceeded => VmFaultView::StepLimitExceeded,
            VmFault::ConstantOutOfBounds(c) => VmFaultView::ConstantOutOfBounds(*c),
            VmFault::InputMissing(p) => VmFaultView::InputMissing(*p),
            VmFault::FieldMissing(f) => VmFaultView::FieldMissing(*f),
            VmFault::UnknownBooleanOperator(o) => VmFaultView::UnknownBooleanOperator(o@),
            VmFault::TooManyItems(m) => VmFaultView::TooManyItems(*m),
            VmFault::BodyNotFound(b) => VmFaultView::BodyNotFound(*b),
            VmFault::GraphFailed(c) => VmFaultView::GraphFailed(c@),
            VmFault::Reported(m) => VmFaultView::Reported(m@),
        }
    }
}

/// A failed execution: the fault, and the nodes that were executing, outermost first.
#[derive(Debug)]
pub struct VmError {
    pub nodes: Vec<SymbolId>,
    pub fault: VmFault,
}

} // verus!

verus! {

/// The values an instruction reads: for each input name in order, the register it names, when
/// that register exists.
pub open spec fn slot_values(slots: Seq<(String, u32)>, registers: Seq<JsonView>) -> Seq<(Seq<char>, JsonView)>
    decreases slots.len(),
{
    if slots.len() == 0 {
        Seq::empty()
    } else {
        let last = slots[slots.len() - 1];
        slot_values(slots.subrange(0, slots.len() - 1), registers) + if (last.1 as int) < registers.len() {
            seq![(last.0@, registers[last.1 as int])]
        } else {
            Seq::empty()
        }
    }
}

/// The `n`-th value read, or null.
pub open spec fn nth_value(values: Seq<(Seq<char>, JsonView)>, n: int) -> JsonView {
    if 0 <= n < values.len() {
        values[n].1
    } else {
        JsonView::Null
    }
}

pub open spec fn json_bool_or_false(v: JsonView) -> bool {
    match v {
        JsonView::Bool(b) => b,
        _ => false,
    }
}

/// The object built from `fields` and the values read, paired in order; a later field with the
/// same key replaces an earlier one.
pub open spec fn object_of(fields: Seq<SymbolId>, values: Seq<(Seq<char>, JsonView)>, k: nat) -> Seq<(Seq<char>, JsonView)>
    decreases k,
{
    if k == 0 {
        Seq::empty()
    } else {
        entries_insert(
            object_of(fields, values, (k - 1) as nat),
            symbol_text(fields[k - 1].value),
            values[k - 1].1,
        )
    }
}

pub open spec fn min_nat(a: nat, b: nat) -> nat {
    if a <= b {
        a
    } else {
        b
    }
}

/// The first input of `ins` for port `port`.
pub open spec fn input_get(ins: Seq<(SymbolId, JsonView)>, port: SymbolId) -> Option<JsonView>
    decreases ins.len(),
{
    if ins.len() == 0 {
        None
    } else if ins[0].0 == port {
        Some(ins[0].1)
    } else {
        input_get(ins.skip(1), port)
    }
}

/// The index of the first function with identifier `id`.
pub open spec fn find_function(fs: Seq<(SymbolId, BytecodeSegment)>, id: SymbolId) -> Option<int>
    decreases fs.len(),
{
    if fs.len() == 0 {
        None
    } else if fs[0].0 == id {
        Some(0)
    } else {
        match find_function(fs.skip(1), id) {
            Some(i) => Some(i + 1),
            None => None,
        }
    }
}

/// The port of the first input instruction of a segment: where a loop body receives its item.
pub open spec fn first_input_port(instructions: Seq<BytecodeInstruction>) -> Option<SymbolId>
    decreases instructions.len(),
{
    if instructions.len() == 0 {
        None
    } else {
        match instructions[0].instruction {
            Instruction::LoadInput { port_id, .. } => Some(port_id),
            _ => first_input_port(instructions.skip(1)),
        }
    }
}

/// What executing one instruction amounts to.
pub ghost enum EvalView {
    Value(JsonView),
    Returned(JsonView),
    Fault(VmFaultView),
    Effect(VmEffectView),
    Compute(VmComputeView),
    Each { items: Seq<JsonView>, body: int, port: Option<SymbolId> },
}

pub open spec fn boolean_spec(operator: Seq<char>, values: Seq<(Seq<char>, JsonView)>) -> EvalView {
    if operator == "and"@ {
        EvalView::Value(JsonView::Bool(forall|k: int| 0 <= k < values.len() ==> json_bool_or_false(#[trigger] values[k].1)))
    } else if operator == "or"@ {
        EvalView::Value(JsonView::Bool(exists|k: int| 0 <= k < values.len() && json_bool_or_false(#[trigger] values[k].1)))
    } else if operator == "not"@ {
        EvalView::Value(JsonView::Bool(!(values.len() > 0 && json_bool_or_false(values[0].1))))
    } else {
        EvalView::Fault(VmFaultView::UnknownBooleanOperator(operator))
    }
}

/// The semantics of one instruction, given the values it reads, the segment's constants, the
/// function's inputs and the functions of the program.
#[verifier::opaque]
pub open spec fn eval_spec(
    instruction: Instruction,
    values: Seq<(Seq<char>, JsonView)>,
    constants: Seq<JsonView>,
    inputs: Seq<(SymbolId, JsonView)>,
    functions: Seq<(SymbolId, BytecodeSegment)>,
) -> EvalView {
    let first = nth_value(values, 0);
    match instruction {
        Instruction::LoadConstant { constant, .. } => if (constant as int) < constants.len() {
            EvalView::Value(constants[constant as int])
        } else {
            EvalView::Fault(VmFaultView::ConstantOutOfBounds(constant))
        },
        Instruction::LoadInput { port_id, .. } => match input_get(inputs, port_id) {
            Some(v) => EvalView::Value(v),
            None => EvalView::Fault(VmFaultView::InputMissing(port_id)),
        },
        Instruction::MakeObject { fields, .. } => EvalView::Value(
            JsonView::Object(object_of(fields@, values, min_nat(fields@.len(), values.len()))),
        ),
        Instruction::MakeList { .. } => EvalView::Value(
            JsonView::Array(values.map_values(|e: (Seq<char>, JsonView)| e.1)),
        ),
        Instruction::ReadField { field_id, .. } => match first {
            JsonView::Object(es) => match entries_get(es, symbol_text(field_id.value)) {
                Some(v) => EvalView::Value(v),
                None => EvalView::Fault(VmFaultView::FieldMissing(field_id)),
            },
            _ => EvalView::Fault(VmFaultView::FieldMissing(field_id)),
        },
        Instruction::Format { template, .. } => EvalView::Compute(
            VmComputeView::Format { template: template@, values: values.map_values(|e: (Seq<char>, JsonView)| e.1) },
        ),
        Instruction::Compare { operator, .. } => EvalView::Compute(
            VmComputeView::Compare { operator: operator@, left: first, right: nth_value(values, 1) },
        ),
        Instruction::Boolean { operator, .. } => boolean_spec(operator@, values),
        Instruction::Math { operator, .. } => EvalView::Compute(
            VmComputeView::Math { operator: operator@, left: first, right: nth_value(values, 1) },
        ),
        Instruction::Branch { .. } => {
            let condition = match entries_get(values, "condition"@) {
                Some(v) => json_bool_or_false(v),
                None => false,
            };
            EvalView::Value(
                match entries_get(values, if condition { "then"@ } else { "else"@ }) {
                    Some(v) => v,
                    None => JsonView::Null,
                },
            )
        },
        Instruction::ForEach { max_items, body_function_id } => {
            let items = match first {
                JsonView::Array(items) => items,
                _ => Seq::empty(),
            };
            if items.len() > max_items as int {
                EvalView::Fault(VmFaultView::TooManyItems(max_items))
            } else {
                match find_function(functions, body_function_id) {
                    Some(b) => EvalView::Each {
                        items,
                        body: b,
                        port: first_input_port(functions[b].1.instructions@),
                    },
                    None => EvalView::Fault(VmFaultView::BodyNotFound(body_function_id)),
                }
            }
        },
        Instruction::ValidateForm { rule_count } => EvalView::Effect(
            VmEffectView::ValidateForm { rules: rule_count, value: first },
        ),
        Instruction::CreateRecord { model_id } => EvalView::Effect(VmEffectView::CreateRecord { model_id, value: first }),
        Instruction::ReadRecord { model_id } => EvalView::Effect(VmEffectView::ReadRecord { model_id, value: first }),
        Instruction::UpdateRecord { model_id } => EvalView::Effect(VmEffectView::UpdateRecord { model_id, value: first }),
        Instruction::DeleteRecord { model_id } => EvalView::Effect(VmEffectView::DeleteRecord { model_id, value: first }),
        Instruction::QueryRecords { model_id, limit } => EvalView::Effect(
            VmEffectView::QueryRecords { model_id, limit, value: first },
        ),
        Instruction::Navigate { route_id } => EvalView::Effect(VmEffectView::Navigate { route_id }),
        Instruction::Confirm => EvalView::Effect(VmEffectView::Confirm { value: first }),
        Instruction::Notify { level } => EvalView::Effect(VmEffectView::Notify { level: level@, value: first }),
        Instruction::InvokeCapability { capability_id, operation } => EvalView::Effect(
            VmEffectView::Capability { capability_id: capability_id@, operation: operation@, value: first },
        ),
        Instruction::InvokeServerSegment { segment_id, input_port } => EvalView::Effect(
            VmEffectView::InvokeServerSegment { segment_id, inputs: seq![(input_port, first)] },
        ),
        Instruction::Return => EvalView::Returned(first),
        Instruction::Fail { code } => EvalView::Fault(VmFaultView::GraphFailed(code@)),
    }
}

/// What executing one instruction amounts to.
pub enum Eval {
    Value(JsonValue),
    Returned(JsonValue),
    Fault(VmFault),
    Effect(VmEffect),
    Compute(VmCompute),
    Each { items: Vec<JsonValue>, body: usize, port: Option<SymbolId> },
}

impl View for Eval {
    type V = EvalView;

    open spec fn view(&self) -> EvalView {
        match self {
            Eval::Value(v) => EvalView::Value(v@),
            Eval::Returned(v) => EvalView::Returned(v@),
            Eval::Fault(f) => EvalView::Fault(f@),
            Eval::Effect(e) => EvalView::Effect(e@),
            Eval::Compute(c) => EvalView::Compute(c@),
            Eval::Each { items, body, port } => EvalView::Each { items: json_seq_view(items@), body: *body as int, port: *port },
        }
    }
}

} // verus!

verus! {

pub proof fn lemma_slot_values_step(slots: Seq<(String, u32)>, registers: Seq<JsonView>, i: int)
    requires
        0 <= i < slots.len(),
    ensures
        slot_values(slots.take(i + 1), registers) == slot_values(slots.take(i), registers) + if (slots[i].1 as int)
            < registers.len() {
            seq![(slots[i].0@, registers[slots[i].1 as int])]
        } else {
            Seq::<(Seq<char>, JsonView)>::empty()
        },
{
    assert(slots.take(i + 1).subrange(0, i) =~= slots.take(i));
}

fn read_slot_values(slots: &Vec<(String, u32)>, registers: &Vec<JsonValue>) -> (values: Vec<(String, JsonValue)>)
    ensures
        json_entries_view(values@) == slot_values(slots@, json_seq_view(registers@)),
{
    proof {
        lemma_json_seq_view(registers@);
    }
    let ghost regs = json_seq_view(registers@);
    let mut values: Vec<(String, JsonValue)> = Vec::new();
    let mut i: usize = 0;
    while i < slots.len()
        invariant
            i <= slots.len(),
            regs == json_seq_view(registers@),
            regs.len() == registers@.len(),
            forall|k: int| 0 <= k < regs.len() ==> #[trigger] regs[k] == registers@[k]@,
            json_entries_view(values@) == slot_values(slots@.take(i as int), regs),
        decreases slots.len() - i,
    {
        proof {
            lemma_slot_values_step(slots@, regs, i as int);
        }
        let slot = slots[i].1;
        if (slot as usize) < registers.len() {
            let name = slots[i].0.clone();
            let value = registers[slot as usize].duplicate();
            let ghost before = values@;
            values.push((name, value));
            proof {
                assert(values@ == before.push((name, value)));
                assert(before.push((name, value)).subrange(0, before.len() as int) =~= before);
            }
        }
        i = i + 1;
    }
    assert(slots@.take(slots.len() as int) =~= slots@);
    values
}

fn nth_value_exec(values: &Vec<(String, JsonValue)>, n: usize) -> (v: JsonValue)
    ensures
        v@ == nth_value(json_entries_view(values@), n as int),
{
    proof {
        lemma_json_entries_view(values@);
    }
    if n < values.len() {
        values[n].1.duplicate()
    } else {
        JsonValue::Null
    }
}

fn input_lookup(inputs: &Vec<(SymbolId, JsonValue)>, port: SymbolId) -> (v: Option<JsonValue>)
    ensures
        match v {
            Some(x) => input_get(inputs_view(inputs@), port) == Some(x@),
            None => input_get(inputs_view(inputs@), port) is None,
        },
{
    let ghost ins = inputs_view(inputs@);
    assert(ins.skip(0) =~= ins);
    let mut i: usize = 0;
    while i < inputs.len()
        invariant
            i <= inputs.len(),
            ins == inputs_view(inputs@),
            input_get(ins, port) == input_get(ins.skip(i as int), port),
        decreases inputs.len() - i,
    {
        assert(ins.skip(i as int)[0] == (inputs@[i as int].0, inputs@[i as int].1@));
        if inputs[i].0 == port {
            return Some(inputs[i].1.duplicate());
        }
        assert(ins.skip(i as int).skip(1) =~= ins.skip(i as int + 1));
        i = i + 1;
    }
    None
}

fn find_function_exec(functions: &Vec<(SymbolId, BytecodeSegment)>, id: SymbolId) -> (index: Option<usize>)
    ensures
        match index {
            Some(i) => find_function(functions@, id) == Some(i as int) && i < functions@.len(),
            None => find_function(functions@, id) is None,
        },
{
    let mut i: usize = 0;
    while i < functions.len()
        invariant
            i <= functions.len(),
            forall|k: int| 0 <= k < i ==> functions@[k].0 != id,
        decreases functions.len() - i,
    {
        if functions[i].0 == id {
            proof {
                lemma_find_function_at(functions@, id, i as int);
            }
            return Some(i);
        }
        i = i + 1;
    }
    proof {
        lemma_find_function_absent(functions@, id);
    }
    None
}

pub proof fn lemma_find_function_at(fs: Seq<(SymbolId, BytecodeSegment)>, id: SymbolId, i: int)
    requires
        0 <= i < fs.len(),
        fs[i].0 == id,
        forall|k: int| 0 <= k < i ==> fs[k].0 != id,
    ensures
        find_function(fs, id) == Some(i),
    decreases i,
{
    if i > 0 {
        assert forall|k: int| 0 <= k < i - 1 implies fs.skip(1)[k].0 != id by {
            assert(fs.skip(1)[k] == fs[k + 1]);
        }
        lemma_find_function_at(fs.skip(1), id, i - 1);
    }
}

pub proof fn lemma_find_function_absent(fs: Seq<(SymbolId, BytecodeSegment)>, id: SymbolId)
    requires
        forall|k: int| 0 <= k < fs.len() ==> fs[k].0 != id,
    ensures
        find_function(fs, id) is None,
    decreases fs.len(),
{
    if fs.len() > 0 {
        assert forall|k: int| 0 <= k < fs.skip(1).len() implies fs.skip(1)[k].0 != id by {
            assert(fs.skip(1)[k] == fs[k + 1]);
        }
        lemma_find_function_absent(fs.skip(1), id);
    }
}

pub proof fn lemma_find_function_bound(fs: Seq<(SymbolId, BytecodeSegment)>, id: SymbolId)
    ensures
        find_function(fs, id) matches Some(i) ==> 0 <= i < fs.len() && fs[i].0 == id,
    decreases fs.len(),
{
    if fs.len() > 0 {
        lemma_find_function_bound(fs.skip(1), id);
    }
}

fn first_input_port_exec(instructions: &Vec<BytecodeInstruction>) -> (port: Option<SymbolId>)
    ensures
        port == first_input_port(instructions@),
{
    let ghost all = instructions@;
    assert(all.skip(0) =~= all);
    let mut i: usize = 0;
    while i < instructions.len()
        invariant
            i <= instructions.len(),
            all == instructions@,
            first_input_port(all) == first_input_port(all.skip(i as int)),
        decreases instructions.len() - i,
    {
        assert(all.skip(i as int)[0] == instructions@[i as int]);
        match &instructions[i].instruction {
            Instruction::LoadInput { port_id, .. } => {
                return Some(*port_id);
            },
            _ => {},
        }
        assert(all.skip(i as int).skip(1) =~= all.skip(i as int + 1));
        i = i + 1;
    }
    None
}

fn build_object(fields: &Vec<SymbolId>, values: &Vec<(String, JsonValue)>) -> (entries: Vec<(String, JsonValue)>)
    ensures
        json_entries_view(entries@) == object_of(
            fields@,
            json_entries_view(values@),
            min_nat(fields@.len(), json_entries_view(values@).len()),
        ),
{
    proof {
        lemma_json_entries_view(values@);
    }
    let ghost vs = json_entries_view(values@);
    let n = if fields.len() <= values.len() {
        fields.len()
    } else {
        values.len()
    };
    let mut entries: Vec<(String, JsonValue)> = Vec::new();
    assert(json_entries_view(entries@) =~= Seq::<(Seq<char>, JsonView)>::empty());
    let mut k: usize = 0;
    while k < n
        invariant
            k <= n,
            n <= fields.len(),
            n <= values.len(),
            n == min_nat(fields@.len(), vs.len()),
            vs == json_entries_view(values@),
            vs.len() == values@.len(),
            forall|j: int| 0 <= j < vs.len() ==> #[trigger] vs[j] == (values@[j].0@, values@[j].1@),
            json_entries_view(entries@) == object_of(fields@, vs, k as nat),
        decreases n - k,
    {
        let key = fields[k].to_text();
        let value = values[k].1.duplicate();
        object_insert(&mut entries, key, value);
        k = k + 1;
    }
    entries
}

fn list_values(values: &Vec<(String, JsonValue)>) -> (items: Vec<JsonValue>)
    ensures
        json_seq_view(items@) == json_entries_view(values@).map_values(|e: (Seq<char>, JsonView)| e.1),
{
    proof {
        lemma_json_entries_view(values@);
    }
    let mut items: Vec<JsonValue> = Vec::new();
    let mut i: usize = 0;
    while i < values.len()
        invariant
            i <= values.len(),
            items@.len() == i,
            forall|k: int| 0 <= k < i ==> #[trigger] items@[k]@ == values@[k].1@,
        decreases values.len() - i,
    {
        let v = values[i].1.duplicate();
        items.push(v);
        i = i + 1;
    }
    proof {
        lemma_json_seq_view(items@);
        assert(json_seq_view(items@) =~= json_entries_view(values@).map_values(|e: (Seq<char>, JsonView)| e.1));
    }
    items
}

fn bool_or_false(v: &JsonValue) -> (b: bool)
    ensures
        b == json_bool_or_false(v@),
{
    match v.as_bool() {
        Some(b) => b,
        None => false,
    }
}

fn boolean_exec(operator: &String, values: &Vec<(String, JsonValue)>) -> (e: Eval)
    ensures
        e@ == boolean_spec(operator@, json_entries_view(values@)),
{
    proof {
        lemma_json_entries_view(values@);
    }
    let ghost vs = json_entries_view(values@);
    if text_eq(operator.as_str(), "and") {
        let mut all = true;
        let mut i: usize = 0;
        while i < values.len()
            invariant
                i <= values.len(),
                vs == json_entries_view(values@),
                vs.len() == values@.len(),
                forall|k: int| 0 <= k < vs.len() ==> #[trigger] vs[k] == (values@[k].0@, values@[k].1@),
                all == (forall|k: int| 0 <= k < i ==> json_bool_or_false(#[trigger] vs[k].1)),
            decreases values.len() - i,
        {
            let b = bool_or_false(&values[i].1);
            proof {
                if !b {
                    assert(!json_bool_or_false(vs[i as int].1));
                }
            }
            all = all && b;
            i = i + 1;
        }
        Eval::Value(JsonValue::Bool(all))
    } else if text_eq(operator.as_str(), "or") {
        let mut any = false;
        let mut i: usize = 0;
        while i < values.len()
            invariant
                i <= values.len(),
                vs == json_entries_view(values@),
                vs.len() == values@.len(),
                forall|k: int| 0 <= k < vs.len() ==> #[trigger] vs[k] == (values@[k].0@, values@[k].1@),
                any == (exists|k: int| 0 <= k < i && json_bool_or_false(#[trigger] vs[k].1)),
            decreases values.len() - i,
        {
            let b = bool_or_false(&values[i].1);
            proof {
                if b {
                    assert(json_bool_or_false(vs[i as int].1));
                }
            }
            any = any || b;
            i = i + 1;
        }
        Eval::Value(JsonValue::Bool(any))
    } else if text_eq(operator.as_str(), "not") {
        let first = if values.len() > 0 {
            bool_or_false(&values[0].1)
        } else {
            false
        };
        Eval::Value(JsonValue::Bool(!first))
    } else {
        Eval::Fault(VmFault::UnknownBooleanOperator(operator.clone()))
    }
}

fn named_value(values: &Vec<(String, JsonValue)>, name: &str) -> (v: Option<JsonValue>)
    ensures
        match v {
            Some(x) => entries_get(json_entries_view(values@), name@) == Some(x@),
            None => entries_get(json_entries_view(values@), name@) is None,
        },
{
    match object_get(values, name) {
        Some(v) => Some(v.duplicate()),
        None => None,
    }
}

} // verus!

verus! {

/// Whether the ports of inputs come in increasing order, so that none occurs twice.
pub open spec fn inputs_wf(ins: Seq<(SymbolId, JsonView)>) -> bool {
    forall|i: int, j: int| 0 <= i < j < ins.len() ==> (#[trigger] ins[i]).0.value < (#[trigger] ins[j]).0.value
}

/// Whether a program is well formed: its functions come in increasing order of identifier, and
/// each instruction names the registers it reads in increasing order of name.
pub open spec fn program_wf(fs: Seq<(SymbolId, BytecodeSegment)>) -> bool {
    &&& forall|i: int, j: int| 0 <= i < j < fs.len() ==> (#[trigger] fs[i]).0.value < (#[trigger] fs[j]).0.value
    &&& forall|s: int, k: int|
        0 <= s < fs.len() && 0 <= k < fs[s].1.instructions.len() ==> slots_wf(
            #[trigger] fs[s].1.instructions@[k].input_slots@,
        )
}

/// Whether the names of an instruction's input registers come in increasing order.
pub fn slots_in_order(slots: &Vec<(String, u32)>) -> (ordered: bool)
    ensures
        ordered == slots_wf(slots@),
{
    let mut i: usize = 1;
    while i < slots.len()
        invariant
            1 <= i,
            forall|a: int, b: int| 0 <= a < b < i && b < slots@.len() ==> text_lt(
                (#[trigger] slots@[a]).0@,
                (#[trigger] slots@[b]).0@,
            ),
        decreases slots.len() - i,
    {
        if !crate::text::text_less(slots[i - 1].0.as_str(), slots[i].0.as_str()) {
            return false;
        }
        proof {
            assert forall|a: int, b: int| 0 <= a < b < i + 1 && b < slots@.len() implies text_lt(
                (#[trigger] slots@[a]).0@,
                (#[trigger] slots@[b]).0@,
            ) by {
                if b == i && a < i - 1 {
                    crate::text::lemma_text_lt_transitive(slots@[a].0@, slots@[i - 1].0@, slots@[b].0@);
                }
            }
        }
        i = i + 1;
    }
    true
}

/// Whether the ports of inputs come in increasing order.
pub fn inputs_in_order(inputs: &Vec<(SymbolId, JsonValue)>) -> (ordered: bool)
    ensures
        ordered == inputs_wf(inputs_view(inputs@)),
{
    proof {

    }
    let mut i: usize = 1;
    while i < inputs.len()
        invariant
            1 <= i,
            inputs_view(inputs@).len() == inputs@.len(),
            forall|k: int| 0 <= k < inputs@.len() ==> (#[trigger] inputs_view(inputs@)[k]).0 == inputs@[k].0,
            forall|a: int, b: int| 0 <= a < b < i && b < inputs@.len() ==> (#[trigger] inputs@[a]).0.value < (
            #[trigger] inputs@[b]).0.value,
        decreases inputs.len() - i,
    {
        if inputs[i - 1].0.value >= inputs[i].0.value {
            assert(!inputs_wf(inputs_view(inputs@))) by {
                assert(inputs_view(inputs@)[i - 1].0 == inputs@[i - 1].0);
                assert(inputs_view(inputs@)[i as int].0 == inputs@[i as int].0);
            }
            return false;
        }
        i = i + 1;
    }
    assert forall|a: int, b: int| 0 <= a < b < inputs_view(inputs@).len() implies (#[trigger] inputs_view(inputs@)[a]).0.value < (
    #[trigger] inputs_view(inputs@)[b]).0.value by {
        assert(inputs@[a].0.value < inputs@[b].0.value);
    }
    true
}

/// Whether a program is well formed, so that an interpreter can be made of it.
pub fn program_in_order(functions: &Vec<(SymbolId, BytecodeSegment)>) -> (ordered: bool)
    ensures
        ordered == program_wf(functions@),
{
    let mut s: usize = 0;
    while s < functions.len()
        invariant
            s <= functions.len(),
            forall|a: int, b: int| 0 <= a < b < functions@.len() && b < s ==> (#[trigger] functions@[a]).0.value < (
            #[trigger] functions@[b]).0.value,
            forall|x: int, k: int|
                0 <= x < s && 0 <= k < functions@[x].1.instructions.len() ==> slots_wf(
                    #[trigger] functions@[x].1.instructions@[k].input_slots@,
                ),
        decreases functions.len() - s,
    {
        if s > 0 && functions[s - 1].0.value >= functions[s].0.value {
            return false;
        }
        let instructions = &functions[s].1.instructions;
        let mut k: usize = 0;
        while k < instructions.len()
            invariant
                s < functions@.len(),
                instructions@ == functions@[s as int].1.instructions@,
                k <= instructions.len(),
                forall|j: int| 0 <= j < k ==> slots_wf(#[trigger] instructions@[j].input_slots@),
            decreases instructions.len() - k,
        {
            if !slots_in_order(&instructions[k].input_slots) {
                return false;
            }
            k = k + 1;
        }
        s = s + 1;
    }
    true
}

/// The interpreter of a program: its functions' bytecode, by function identifier.
pub struct GraphVm<'a> {
    functions: &'a Vec<(SymbolId, BytecodeSegment)>,
    max_steps: usize,
}

impl<'a> GraphVm<'a> {
    pub closed spec fn functions(&self) -> Seq<(SymbolId, BytecodeSegment)> {
        self.functions@
    }

    /// Most instructions that a segment may hold.
    pub closed spec fn max_steps(&self) -> usize {
        self.max_steps
    }

    #[verifier::type_invariant]
    spec fn holds_program(self) -> bool {
        program_wf(self.functions@)
    }

    /// An interpreter of `functions`; a segment may hold at most 100 000 instructions.
    pub fn new(functions: &'a Vec<(SymbolId, BytecodeSegment)>) -> (vm: GraphVm<'a>)
        requires
            program_wf(functions@),
        ensures
            vm.functions() == functions@,
            vm.max_steps() == 100_000,
    {
        GraphVm { functions, max_steps: 100_000 }
    }

    fn eval_for_each(&self, max_items: u32, body_function_id: SymbolId, first: JsonValue) -> (e: Eval)
        ensures
            e@ == ({
                let items = match first@ {
                    JsonView::Array(items) => items,
                    _ => Seq::empty(),
                };
                if items.len() > max_items as int {
                    EvalView::Fault(VmFaultView::TooManyItems(max_items))
                } else {
                    match find_function(self.functions(), body_function_id) {
                        Some(b) => EvalView::Each {
                            items,
                            body: b,
                            port: first_input_port(self.functions()[b].1.instructions@),
                        },
                        None => EvalView::Fault(VmFaultView::BodyNotFound(body_function_id)),
                    }
                }
            }),
            e matches Eval::Each { body, .. } ==> body < self.functions().len(),
    {
        let ghost first_view = first@;
        let items: Vec<JsonValue> = match first {
            JsonValue::Array(items) => items,
            _ => {
                let empty: Vec<JsonValue> = Vec::new();
                assert(json_seq_view(empty@) =~= Seq::<JsonView>::empty());
                empty
            },
        };
        assert(json_seq_view(items@) == match first_view {
            JsonView::Array(items) => items,
            _ => Seq::empty(),
        });
        proof {
            lemma_json_seq_view(items@);
        }
        if items.len() > max_items as usize {
            Eval::Fault(VmFault::TooManyItems(max_items))
        } else {
            match find_function_exec(self.functions, body_function_id) {
                Some(b) => {
                    let port = first_input_port_exec(&self.functions[b].1.instructions);
                    Eval::Each { items, body: b, port }
                },
                None => Eval::Fault(VmFault::BodyNotFound(body_function_id)),
            }
        }
    }

    /// Executes one instruction as far as the interpreter can by itself.
    pub fn eval_instruction(
        &self,
        encoded: &BytecodeInstruction,
        registers: &Vec<JsonValue>,
        constants: &Vec<JsonValue>,
        inputs: &Vec<(SymbolId, JsonValue)>,
    ) -> (e: Eval)
        requires
            slots_wf(encoded.input_slots@),
            inputs_wf(inputs_view(inputs@)),
        ensures
            e@ == eval_spec(
                encoded.instruction,
                slot_values(encoded.input_slots@, json_seq_view(registers@)),
                json_seq_view(constants@),
                inputs_view(inputs@),
                self.functions(),
            ),
            e matches Eval::Each { body, .. } ==> body < self.functions().len(),
    {
        reveal(eval_spec);
        let values = read_slot_values(&encoded.input_slots, registers);
        proof {
            lemma_json_seq_view(constants@);
            lemma_json_entries_view(values@);
        }
        match &encoded.instruction {
            Instruction::LoadConstant { constant, .. } => {
                if (*constant as usize) < constants.len() {
                    Eval::Value(constants[*constant as usize].duplicate())
                } else {
                    Eval::Fault(VmFault::ConstantOutOfBounds(*constant))
                }
            },
            Instruction::LoadInput { port_id, .. } => match input_lookup(inputs, *port_id) {
                Some(v) => Eval::Value(v),
                None => Eval::Fault(VmFault::InputMissing(*port_id)),
            },
            Instruction::MakeObject { fields, .. } => Eval::Value(JsonValue::Object(build_object(fields, &values))),
            Instruction::MakeList { .. } => Eval::Value(JsonValue::Array(list_values(&values))),
            Instruction::ReadField { field_id, .. } => {
                let first = nth_value_exec(&values, 0);
                match &first {
                    JsonValue::Object(entries) => {
                        let key = field_id.to_text();
                        match object_get(entries, key.as_str()) {
                            Some(v) => Eval::Value(v.duplicate()),
                            None => Eval::Fault(VmFault::FieldMissing(*field_id)),
                        }
                    },
                    _ => Eval::Fault(VmFault::FieldMissing(*field_id)),
                }
            },
            Instruction::Format { template, .. } => Eval::Compute(
                VmCompute::Format { template: template.clone(), values: list_values(&values) },
            ),
            Instruction::Compare { operator, .. } => Eval::Compute(
                VmCompute::Compare {
                    operator: operator.clone(),
                    left: nth_value_exec(&values, 0),
                    right: nth_value_exec(&values, 1),
                },
            ),
            Instruction::Boolean { operator, .. } => boolean_exec(operator, &values),
            Instruction::Math { operator, .. } => Eval::Compute(
                VmCompute::Math {
                    operator: operator.clone(),
                    left: nth_value_exec(&values, 0),
                    right: nth_value_exec(&values, 1),
                },
            ),
            Instruction::Branch { .. } => {
                let condition = match named_value(&values, "condition") {
                    Some(v) => bool_or_false(&v),
                    None => false,
                };
                let chosen = if condition {
                    named_value(&values, "then")
                } else {
                    named_value(&values, "else")
                };
                match chosen {
                    Some(v) => Eval::Value(v),
                    None => Eval::Value(JsonValue::Null),
                }
            },
            Instruction::ForEach { max_items, body_function_id } => {
                let first = nth_value_exec(&values, 0);
                self.eval_for_each(*max_items, *body_function_id, first)
            },
            Instruction::ValidateForm { rule_count } => Eval::Effect(
                VmEffect::ValidateForm { rules: *rule_count, value: nth_value_exec(&values, 0) },
            ),
            Instruction::CreateRecord { model_id } => Eval::Effect(
                VmEffect::CreateRecord { model_id: *model_id, value: nth_value_exec(&values, 0) },
            ),
            Instruction::ReadRecord { model_id } => Eval::Effect(
                VmEffect::ReadRecord { model_id: *model_id, value: nth_value_exec(&values, 0) },
            ),
            Instruction::UpdateRecord { model_id } => Eval::Effect(
                VmEffect::UpdateRecord { model_id: *model_id, value: nth_value_exec(&values, 0) },
            ),
            Instruction::DeleteRecord { model_id } => Eval::Effect(
                VmEffect::DeleteRecord { model_id: *model_id, value: nth_value_exec(&values, 0) },
            ),
            Instruction::QueryRecords { model_id, limit } => Eval::Effect(
                VmEffect::QueryRecords { model_id: *model_id, limit: *limit, value: nth_value_exec(&values, 0) },
            ),
            Instruction::Navigate { route_id } => Eval::Effect(VmEffect::Navigate { route_id: *route_id }),
            Instruction::Confirm => Eval::Effect(VmEffect::Confirm { value: nth_value_exec(&values, 0) }),
            Instruction::Notify { level } => Eval::Effect(
                VmEffect::Notify { level: level.clone(), value: nth_value_exec(&values, 0) },
            ),
            Instruction::InvokeCapability { capability_id, operation } => Eval::Effect(
                VmEffect::Capability {
                    capability_id: capability_id.clone(),
                    operation: operation.clone(),
                    value: nth_value_exec(&values, 0),
                },
            ),
            Instruction::InvokeServerSegment { segment_id, input_port } => {
                let mut inputs: Vec<(SymbolId, JsonValue)> = Vec::new();
                inputs.push((*input_port, nth_value_exec(&values, 0)));
                assert(inputs_view(inputs@) =~= seq![(*input_port, nth_value(json_entries_view(values@), 0))]);
                Eval::Effect(VmEffect::InvokeServerSegment { segment_id: *segment_id, inputs })
            },
            Instruction::Return => Eval::Returned(nth_value_exec(&values, 0)),
            Instruction::Fail { code } => Eval::Fault(VmFault::GraphFailed(code.clone())),
        }
    }
}

} // verus!

verus! {

/// A loop over items in progress in a frame: the body runs once per item.
pub struct EachLoop {
    items: Vec<JsonValue>,
    next: usize,
    outputs: Vec<JsonValue>,
    body: usize,
    port: Option<SymbolId>,
}

/// The execution of one segment.
pub struct Frame {
    segment: usize,
    pc: usize,
    registers: Vec<JsonValue>,
    result: JsonValue,
    inputs: Vec<(SymbolId, JsonValue)>,
    each: Option<EachLoop>,
    waiting: bool,
}

/// An execution in progress: the frame of the called function at the bottom, the frame of the
/// innermost loop body on top.
pub struct VmRun {
    frames: Vec<Frame>,
}

pub open spec fn frames_view(fs: Seq<Frame>) -> Seq<FrameView> {
    fs.map_values(|x: Frame| x@)
}

pub ghost struct EachView {
    pub items: Seq<JsonView>,
    pub next: int,
    pub outputs: Seq<JsonView>,
    pub body: int,
    pub port: Option<SymbolId>,
}

pub ghost struct FrameView {
    pub segment: int,
    pub pc: int,
    pub registers: Seq<JsonView>,
    pub result: JsonView,
    pub inputs: Seq<(SymbolId, JsonView)>,
    pub each: Option<EachView>,
    pub waiting: bool,
}

impl View for EachLoop {
    type V = EachView;

    closed spec fn view(&self) -> EachView {
        EachView {
            items: json_seq_view(self.items@),
            next: self.next as int,
            outputs: json_seq_view(self.outputs@),
            body: self.body as int,
            port: self.port,
        }
    }
}

impl View for Frame {
    type V = FrameView;

    closed spec fn view(&self) -> FrameView {
        FrameView {
            segment: self.segment as int,
            pc: self.pc as int,
            registers: json_seq_view(self.registers@),
            result: self.result@,
            inputs: inputs_view(self.inputs@),
            each: match self.each {
                Some(l) => Some(l@),
                None => None,
            },
            waiting: self.waiting,
        }
    }
}

impl View for VmRun {
    type V = Seq<FrameView>;

    closed spec fn view(&self) -> Seq<FrameView> {
        frames_view(self.frames@)
    }
}

/// A request of the interpreter to its driver.
#[derive(Debug)]
pub enum VmRequest {
    Effect(VmEffect),
    Compute(VmCompute),
}

/// What a step of the interpreter ends with.
#[derive(Debug)]
pub enum VmOutcome {
    /// More steps can be taken.
    Continue,
    /// The driver is to answer the request with `resume`.
    Pending(VmRequest),
    /// The called function returned this value.
    Finished(JsonValue),
    Failed(VmError),
}

pub open spec fn instructions_of(fs: Seq<(SymbolId, BytecodeSegment)>, segment: int) -> Seq<BytecodeInstruction> {
    fs[segment].1.instructions@
}

/// The frames of an execution are consistent with the program.
#[verifier::opaque]
pub open spec fn run_wf(fs: Seq<(SymbolId, BytecodeSegment)>, frames: Seq<FrameView>) -> bool {
    &&& frames.len() >= 1
    &&& forall|i: int|
        0 <= i < frames.len() ==> {
            let f = #[trigger] frames[i];
            &&& 0 <= f.segment < fs.len()
            &&& f.registers.len() == instructions_of(fs, f.segment).len()
            &&& 0 <= f.pc <= instructions_of(fs, f.segment).len()
            &&& f.waiting ==> f.pc < instructions_of(fs, f.segment).len()
            &&& inputs_wf(f.inputs)
        }
    &&& forall|i: int|
        0 <= i < frames.len() - 1 ==> {
            let f = #[trigger] frames[i];
            &&& f.pc < instructions_of(fs, f.segment).len()
            &&& !f.waiting
            &&& f.each matches Some(l) && {
                &&& 0 <= l.body < fs.len()
                &&& 1 <= l.next <= l.items.len()
                &&& l.outputs.len() + 1 == l.next
                &&& frames[i + 1].segment == l.body
            }
        }
    &&& frames[frames.len() - 1].each is None
}

/// The nodes being executed, outermost first.
pub open spec fn context_nodes(fs: Seq<(SymbolId, BytecodeSegment)>, frames: Seq<FrameView>) -> Seq<SymbolId> {
    frames.map_values(|f: FrameView| instructions_of(fs, f.segment)[f.pc].node_id)
}

/// The registers after an instruction that writes `slot` produced `v`.
pub open spec fn write_slot(registers: Seq<JsonView>, slot: Option<u32>, v: JsonView) -> Seq<JsonView> {
    match slot {
        Some(s) => if (s as int) < registers.len() {
            registers.update(s as int, v)
        } else {
            registers
        },
        None => registers,
    }
}

/// The frame after its current instruction produced `v`; a returning instruction ends the segment.
pub open spec fn completed(f: FrameView, slot: Option<u32>, v: JsonView, len: int, returned: bool) -> FrameView {
    FrameView {
        pc: if returned { len } else { f.pc + 1 },
        registers: write_slot(f.registers, slot, v),
        result: v,
        waiting: false,
        ..f
    }
}

/// The frame in which a loop body runs on `item`.
pub open spec fn body_frame(fs: Seq<(SymbolId, BytecodeSegment)>, body: int, port: Option<SymbolId>, item: JsonView) -> FrameView {
    FrameView {
        segment: body,
        pc: 0,
        registers: Seq::new(instructions_of(fs, body).len(), |k: int| JsonView::Null),
        result: JsonView::Null,
        inputs: match port {
            Some(p) => seq![(p, item)],
            None => Seq::empty(),
        },
        each: None,
        waiting: false,
    }
}

pub open spec fn error_view(e: VmError) -> (Seq<SymbolId>, VmFaultView) {
    (e.nodes@, e.fault@)
}

pub open spec fn request_view(r: VmRequest) -> Result<VmEffectView, VmComputeView> {
    match r {
        VmRequest::Effect(e) => Ok(e@),
        VmRequest::Compute(c) => Err(c@),
    }
}

} // verus!

verus! {

pub proof fn lemma_frames_push(fs: Seq<Frame>, f: Frame)
    ensures
        frames_view(fs.push(f)) == frames_view(fs).push(f@),
{
    assert(frames_view(fs.push(f)) =~= frames_view(fs).push(f@));
}

pub proof fn lemma_frames_drop_last(fs: Seq<Frame>)
    requires
        fs.len() > 0,
    ensures
        frames_view(fs.drop_last()) == frames_view(fs).drop_last(),
{
    assert(frames_view(fs.drop_last()) =~= frames_view(fs).drop_last());
}

fn null_registers(n: usize) -> (registers: Vec<JsonValue>)
    ensures
        json_seq_view(registers@) == Seq::new(n as nat, |k: int| JsonView::Null),
{
    let mut registers: Vec<JsonValue> = Vec::new();
    let mut i: usize = 0;
    while i < n
        invariant
            i <= n,
            registers@.len() == i,
            forall|k: int| 0 <= k < i ==> #[trigger] registers@[k]@ == JsonView::Null,
        decreases n - i,
    {
        registers.push(JsonValue::Null);
        i = i + 1;
    }
    proof {
        lemma_json_seq_view(registers@);
        assert(json_seq_view(registers@) =~= Seq::new(n as nat, |k: int| JsonView::Null));
    }
    registers
}

fn write_register(registers: &mut Vec<JsonValue>, slot: Option<u32>, v: &JsonValue)
    ensures
        json_seq_view(final(registers)@) == write_slot(json_seq_view(old(registers)@), slot, v@),
{
    proof {
        lemma_json_seq_view(registers@);
    }
    match slot {
        Some(s) => {
            if (s as usize) < registers.len() {
                registers.set(s as usize, v.duplicate());
                proof {
                    lemma_json_seq_view(registers@);
                    assert(json_seq_view(registers@) =~= json_seq_view(old(registers)@).update(s as int, v@));
                }
            }
        },
        None => {},
    }
}

impl<'a> GraphVm<'a> {
    fn complete(&self, frame: &mut Frame, v: JsonValue, returned: bool)
        requires
            old(frame).segment < self.functions().len(),
            old(frame).pc < instructions_of(self.functions(), old(frame).segment as int).len(),
        ensures
            final(frame)@ == completed(
                old(frame)@,
                instructions_of(self.functions(), old(frame).segment as int)[old(frame).pc as int].output_slot,
                v@,
                instructions_of(self.functions(), old(frame).segment as int).len() as int,
                returned,
            ),
    {
        let instructions = &self.functions[frame.segment].1.instructions;
        let pc = frame.pc;
        assert(instructions@ == instructions_of(self.functions(), frame.segment as int));
        assert(pc < instructions.len());
        let slot = instructions[pc].output_slot;
        write_register(&mut frame.registers, slot, &v);
        frame.result = v;
        frame.waiting = false;
        if returned {
            frame.pc = instructions.len();
        } else {
            frame.pc = pc + 1;
        }
    }

    fn make_body_frame(&self, body: usize, port: Option<SymbolId>, item: &JsonValue) -> (frame: Frame)
        requires
            body < self.functions().len(),
        ensures
            frame@ == body_frame(self.functions(), body as int, port, item@),
    {
        let n = self.functions[body].1.instructions.len();
        let mut inputs: Vec<(SymbolId, JsonValue)> = Vec::new();
        match port {
            Some(p) => inputs.push((p, item.duplicate())),
            None => {},
        }
        assert(inputs_view(inputs@) =~= match port {
            Some(p) => seq![(p, item@)],
            None => Seq::<(SymbolId, JsonView)>::empty(),
        });
        let frame = Frame {
            segment: body,
            pc: 0,
            registers: null_registers(n),
            result: JsonValue::Null,
            inputs,
            each: None,
            waiting: false,
        };
        frame
    }

    fn current_nodes(&self, frames: &Vec<Frame>) -> (nodes: Vec<SymbolId>)
        requires
            forall|i: int| 0 <= i < frames@.len() ==> {
                let f = #[trigger] frames_view(frames@)[i];
                0 <= f.segment < self.functions().len() && 0 <= f.pc < instructions_of(self.functions(), f.segment).len()
            },
        ensures
            nodes@ == context_nodes(self.functions(), frames_view(frames@)),
    {
        let mut nodes: Vec<SymbolId> = Vec::new();
        let mut i: usize = 0;
        while i < frames.len()
            invariant
                i <= frames.len(),
                forall|k: int| 0 <= k < frames@.len() ==> {
                    let f = #[trigger] frames_view(frames@)[k];
                    0 <= f.segment < self.functions().len() && 0 <= f.pc < instructions_of(self.functions(), f.segment).len()
                },
                nodes@ == context_nodes(self.functions(), frames_view(frames@)).take(i as int),
            decreases frames.len() - i,
        {
            assert(frames_view(frames@)[i as int] == frames@[i as int]@);
            let id = self.functions[frames[i].segment].1.instructions[frames[i].pc].node_id;
            nodes.push(id);
            i = i + 1;
            assert(nodes@ =~= context_nodes(self.functions(), frames_view(frames@)).take(i as int));
        }
        assert(context_nodes(self.functions(), frames_view(frames@)).take(i as int)
            =~= context_nodes(self.functions(), frames_view(frames@)));
        nodes
    }
}

} // verus!

verus! {

pub ghost enum OutcomeView {
    Continue,
    Pending(Result<VmEffectView, VmComputeView>),
    Finished(JsonView),
    Failed(Seq<SymbolId>, VmFaultView),
}

pub open spec fn outcome_view(o: VmOutcome) -> OutcomeView {
    match o {
        VmOutcome::Continue => OutcomeView::Continue,
        VmOutcome::Pending(r) => OutcomeView::Pending(request_view(r)),
        VmOutcome::Finished(v) => OutcomeView::Finished(v@),
        VmOutcome::Failed(e) => OutcomeView::Failed(e.nodes@, e.fault@),
    }
}

pub open spec fn top_of(frames: Seq<FrameView>) -> FrameView {
    frames[frames.len() - 1]
}

pub open spec fn current_instruction(fs: Seq<(SymbolId, BytecodeSegment)>, f: FrameView) -> BytecodeInstruction {
    instructions_of(fs, f.segment)[f.pc]
}

pub open spec fn segment_len(fs: Seq<(SymbolId, BytecodeSegment)>, f: FrameView) -> int {
    instructions_of(fs, f.segment).len() as int
}

/// The top frame after its current instruction produced `v`.
pub open spec fn replace_top(frames: Seq<FrameView>, f: FrameView) -> Seq<FrameView> {
    frames.drop_last().push(f)
}

/// One step of the interpreter on its own: the next instruction of the innermost frame, or the
/// end of that frame's segment.
pub open spec fn step_spec(fs: Seq<(SymbolId, BytecodeSegment)>, max_steps: usize, frames: Seq<FrameView>) -> (Seq<FrameView>, OutcomeView) {
    let top = top_of(frames);
    let len = segment_len(fs, top);
    if top.pc >= len {
        if frames.len() == 1 {
            (frames, OutcomeView::Finished(top.result))
        } else {
            let parent = frames[frames.len() - 2];
            let l = parent.each->0;
            let outputs = l.outputs.push(top.result);
            let below = frames.drop_last().drop_last();
            if l.next < l.items.len() {
                (
                    below.push(FrameView { each: Some(EachView { next: l.next + 1, outputs, ..l }), ..parent }).push(
                        body_frame(fs, l.body, l.port, l.items[l.next]),
                    ),
                    OutcomeView::Continue,
                )
            } else {
                (
                    below.push(
                        completed(
                            FrameView { each: None, ..parent },
                            current_instruction(fs, parent).output_slot,
                            JsonView::Array(outputs),
                            segment_len(fs, parent),
                            false,
                        ),
                    ),
                    OutcomeView::Continue,
                )
            }
        }
    } else {
        let instruction = current_instruction(fs, top);
        let slot = instruction.output_slot;
        match eval_spec(
            instruction.instruction,
            slot_values(instruction.input_slots@, top.registers),
            json_seq_view(fs[top.segment].1.constants@),
            top.inputs,
            fs,
        ) {
            EvalView::Value(v) => (replace_top(frames, completed(top, slot, v, len, false)), OutcomeView::Continue),
            EvalView::Returned(v) => (replace_top(frames, completed(top, slot, v, len, true)), OutcomeView::Continue),
            EvalView::Fault(f) => (frames, OutcomeView::Failed(context_nodes(fs, frames), f)),
            EvalView::Effect(x) => (replace_top(frames, FrameView { waiting: true, ..top }), OutcomeView::Pending(Ok(x))),
            EvalView::Compute(c) => (replace_top(frames, FrameView { waiting: true, ..top }), OutcomeView::Pending(Err(c))),
            EvalView::Each { items, body, port } => if items.len() == 0 {
                (
                    replace_top(frames, completed(top, slot, JsonView::Array(Seq::empty()), len, false)),
                    OutcomeView::Continue,
                )
            } else if instructions_of(fs, body).len() > max_steps {
                (frames, OutcomeView::Failed(context_nodes(fs, frames), VmFaultView::StepLimitExceeded))
            } else {
                (
                    replace_top(
                        frames,
                        FrameView { each: Some(EachView { items, next: 1, outputs: Seq::empty(), body, port }), ..top },
                    ).push(body_frame(fs, body, port, items[0])),
                    OutcomeView::Continue,
                )
            },
        }
    }
}

/// The driver's reply to the pending request of the innermost frame.
pub open spec fn resume_spec(fs: Seq<(SymbolId, BytecodeSegment)>, frames: Seq<FrameView>, reply: Result<JsonView, Seq<char>>) -> (Seq<FrameView>, OutcomeView) {
    let top = top_of(frames);
    match reply {
        Ok(v) => (
            replace_top(frames, completed(top, current_instruction(fs, top).output_slot, v, segment_len(fs, top), false)),
            OutcomeView::Continue,
        ),
        Err(m) => (frames, OutcomeView::Failed(context_nodes(fs, frames), VmFaultView::Reported(m))),
    }
}

} // verus!

verus! {

impl<'a> GraphVm<'a> {
    /// Starts executing function `function_id` on `inputs`.
    pub fn begin(&self, function_id: SymbolId, inputs: Vec<(SymbolId, JsonValue)>) -> (r: Result<VmRun, VmError>)
        requires
            inputs_wf(inputs_view(inputs@)),
        ensures
            match r {
                Ok(run) => {
                    &&& run_wf(self.functions(), run@)
                    &&& find_function(self.functions(), function_id) matches Some(i)
                    &&& instructions_of(self.functions(), i).len() <= self.max_steps()
                    &&& run@ == seq![
                        FrameView {
                            segment: i,
                            pc: 0,
                            registers: Seq::new(instructions_of(self.functions(), i).len(), |k: int| JsonView::Null),
                            result: JsonView::Null,
                            inputs: inputs_view(inputs@),
                            each: None,
                            waiting: false,
                        },
                    ]
                },
                Err(e) => error_view(e) == (
                    Seq::<SymbolId>::empty(),
                    match find_function(self.functions(), function_id) {
                        Some(i) => VmFaultView::StepLimitExceeded,
                        None => VmFaultView::SegmentNotFound(function_id),
                    },
                ) && (find_function(self.functions(), function_id) matches Some(i) ==> instructions_of(
                    self.functions(),
                    i,
                ).len() > self.max_steps()),
            },
    {
        reveal(run_wf);
        let nodes: Vec<SymbolId> = Vec::new();
        match find_function_exec(self.functions, function_id) {
            None => Err(VmError { nodes, fault: VmFault::SegmentNotFound(function_id) }),
            Some(i) => {
                let n = self.functions[i].1.instructions.len();
                if n > self.max_steps {
                    return Err(VmError { nodes, fault: VmFault::StepLimitExceeded });
                }
                let frame = Frame {
                    segment: i,
                    pc: 0,
                    registers: null_registers(n),
                    result: JsonValue::Null,
                    inputs,
                    each: None,
                    waiting: false,
                };
                let mut frames: Vec<Frame> = Vec::new();
                frames.push(frame);
                let run = VmRun { frames };
                assert(run@ =~= seq![frame@]);
                Ok(run)
            },
        }
    }
}

} // verus!

verus! {

impl<'a> GraphVm<'a> {
    /// Takes one step of the execution `run`, which is not waiting for a reply.
    pub fn step(&self, run: &mut VmRun) -> (outcome: VmOutcome)
        requires
            run_wf(self.functions(), old(run)@),
            !top_of(old(run)@).waiting,
        ensures
            run_wf(self.functions(), final(run)@),
            (final(run)@, outcome_view(outcome)) == step_spec(self.functions(), self.max_steps(), old(run)@),
    {
        let ghost frames0 = run@;
        let ghost raw0 = run.frames@;
        proof {
            lemma_wf_unfold(self.functions(), frames0);
            assert(raw0.len() == frames0.len());
            lemma_frames_drop_last(raw0);
        }
        let top = match run.frames.pop() {
            Some(f) => f,
            None => {
                assert(false);
                return VmOutcome::Continue;
            },
        };
        assert(run@.push(top@) =~= frames0);
        let len = self.functions[top.segment].1.instructions.len();
        if top.pc >= len {
            self.step_end(run, top)
        } else {
            self.step_instruction(run, top)
        }
    }

    #[verifier::rlimit(100)]
    fn step_end(&self, run: &mut VmRun, top: Frame) -> (outcome: VmOutcome)
        requires
            run_wf(self.functions(), old(run)@.push(top@)),
            !top@.waiting,
            top@.pc >= segment_len(self.functions(), top@),
        ensures
            run_wf(self.functions(), final(run)@),
            (final(run)@, outcome_view(outcome)) == step_spec(self.functions(), self.max_steps(), old(run)@.push(top@)),
    {
        let ghost fs = self.functions();
        let ghost frames0 = old(run)@.push(top@);
        assert(top_of(frames0) == top@);
        assert(frames0.drop_last() =~= old(run)@);
        if run.frames.len() == 0 {
            let r = top.result.duplicate();
            let ghost below = run.frames@;
            run.frames.push(top);
            proof {
                lemma_frames_push(below, top);
            }
            return VmOutcome::Finished(r);
        }
        let ghost raw1 = run.frames@;
        proof {
            lemma_frames_drop_last(raw1);
        }
        let mut parent = match run.frames.pop() {
            Some(f) => f,
            None => {
                assert(false);
                return VmOutcome::Continue;
            },
        };
        assert(parent@ == frames0[frames0.len() - 2]);
        assert(run@ =~= frames0.drop_last().drop_last());
        proof {
            lemma_wf_unfold(fs, frames0);
        }
        let mut l = match parent.each.take() {
            Some(l) => l,
            None => {
                assert(false);
                return VmOutcome::Continue;
            },
        };
        let ghost l0 = l@;
        let ghost parent0 = frames0[frames0.len() - 2];
        let ghost outs0 = l.outputs@;
        l.outputs.push(top.result);
        proof {
            lemma_json_seq_view_push(outs0, top.result);
        }
        assert(json_seq_view(l.outputs@) == l0.outputs.push(top@.result));
        proof {
            lemma_json_seq_view(l.items@);
        }
        if l.next < l.items.len() {
            proof {
                lemma_json_seq_view(l.items@);
            }
            let next_frame = self.make_body_frame(l.body, l.port, &l.items[l.next]);
            l.next = l.next + 1;
            parent.each = Some(l);
            let ghost below = run.frames@;
            run.frames.push(parent);
            run.frames.push(next_frame);
            proof {
                lemma_frames_push(below, parent);
                lemma_frames_push(below.push(parent), next_frame);
                assert(parent@ == FrameView { each: Some(EachView { next: l0.next + 1, outputs: l0.outputs.push(top@.result), ..l0 }), ..parent0 });
                lemma_wf_after_push(fs, frames0.drop_last().drop_last(), parent@, next_frame@);
                assert(run@ == frames0.drop_last().drop_last().push(parent@).push(next_frame@));
                assert(next_frame@ == body_frame(fs, l0.body, l0.port, l0.items[l0.next]));
                assert(run@ == step_spec(fs, self.max_steps(), frames0).0);
            }
            VmOutcome::Continue
        } else {
            let outputs = l.outputs;
            assert(parent@ == FrameView { each: None, ..parent0 });
            assert(JsonValue::Array(outputs)@ == JsonView::Array(l0.outputs.push(top@.result)));
            self.complete(&mut parent, JsonValue::Array(outputs), false);
            let ghost below = run.frames@;
            run.frames.push(parent);
            proof {
                lemma_frames_push(below, parent);
                assert(frames0.drop_last().drop_last().push(parent@) =~= frames0.drop_last().drop_last().push(parent0).drop_last().push(parent@));
                lemma_wf_after_replace(fs, frames0.drop_last().drop_last().push(parent0), parent@);
                assert(frames0.len() >= 2);
                assert(parent0.each == Some(l0));
                assert(!(l0.next < l0.items.len()));
                assert(parent@ == completed(FrameView { each: None, ..parent0 }, current_instruction(fs, parent0).output_slot, JsonView::Array(l0.outputs.push(top@.result)), segment_len(fs, parent0), false));
                assert(run@ == frames0.drop_last().drop_last().push(parent@));
                assert(run@ == step_spec(fs, self.max_steps(), frames0).0);
            }
            VmOutcome::Continue
        }
    }

    #[verifier::rlimit(80)]
    fn step_instruction(&self, run: &mut VmRun, top: Frame) -> (outcome: VmOutcome)
        requires
            run_wf(self.functions(), old(run)@.push(top@)),
            !top@.waiting,
            top@.pc < segment_len(self.functions(), top@),
        ensures
            run_wf(self.functions(), final(run)@),
            (final(run)@, outcome_view(outcome)) == step_spec(self.functions(), self.max_steps(), old(run)@.push(top@)),
    {
        let ghost fs = self.functions();
        let ghost frames0 = old(run)@.push(top@);
        let mut top = top;
        assert(top_of(frames0) == top@);
        assert(frames0.drop_last() =~= old(run)@);
        proof {
            lemma_wf_unfold(fs, frames0);
        }
        let segment = &self.functions[top.segment].1;
        let instruction = &segment.instructions[top.pc];
        proof {
            use_type_invariant(self);
            assert(valid_frame(fs, frames0[frames0.len() - 1]));
        }
        let e = self.eval_instruction(instruction, &top.registers, &segment.constants, &top.inputs);
        let ghost below = run.frames@;
        match e {
            Eval::Value(v) => {
                self.complete(&mut top, v, false);
                run.frames.push(top);
                proof {
                    lemma_frames_push(below, top);
                    lemma_wf_after_replace(fs, frames0, top@);
                }
                VmOutcome::Continue
            },
            Eval::Returned(v) => {
                self.complete(&mut top, v, true);
                run.frames.push(top);
                proof {
                    lemma_frames_push(below, top);
                    lemma_wf_after_replace(fs, frames0, top@);
                }
                VmOutcome::Continue
            },
            Eval::Fault(f) => {
                run.frames.push(top);
                proof {
                    lemma_frames_push(below, top);
                    lemma_wf_current(fs, frames0);
                }
                let nodes = self.current_nodes(&run.frames);
                VmOutcome::Failed(VmError { nodes, fault: f })
            },
            Eval::Effect(x) => {
                top.waiting = true;
                run.frames.push(top);
                proof {
                    lemma_frames_push(below, top);
                    lemma_wf_after_replace(fs, frames0, top@);
                }
                VmOutcome::Pending(VmRequest::Effect(x))
            },
            Eval::Compute(c) => {
                top.waiting = true;
                run.frames.push(top);
                proof {
                    lemma_frames_push(below, top);
                    lemma_wf_after_replace(fs, frames0, top@);
                }
                VmOutcome::Pending(VmRequest::Compute(c))
            },
            Eval::Each { items, body, port } => self.start_each(run, top, items, body, port),
        }
    }

    #[verifier::rlimit(80)]
    fn start_each(&self, run: &mut VmRun, top: Frame, items: Vec<JsonValue>, body: usize, port: Option<SymbolId>) -> (outcome: VmOutcome)
        requires
            run_wf(self.functions(), old(run)@.push(top@)),
            !top@.waiting,
            top@.pc < segment_len(self.functions(), top@),
            body < self.functions().len(),
        ensures
            run_wf(self.functions(), final(run)@),
            (final(run)@, outcome_view(outcome)) == ({
                let fs = self.functions();
                let frames = old(run)@.push(top@);
                let len = segment_len(fs, top@);
                let slot = current_instruction(fs, top@).output_slot;
                let iv = json_seq_view(items@);
                if iv.len() == 0 {
                    (
                        replace_top(frames, completed(top@, slot, JsonView::Array(Seq::empty()), len, false)),
                        OutcomeView::Continue,
                    )
                } else if instructions_of(fs, body as int).len() > self.max_steps() {
                    (frames, OutcomeView::Failed(context_nodes(fs, frames), VmFaultView::StepLimitExceeded))
                } else {
                    (
                        replace_top(
                            frames,
                            FrameView {
                                each: Some(EachView { items: iv, next: 1, outputs: Seq::empty(), body: body as int, port }),
                                ..top@
                            },
                        ).push(body_frame(fs, body as int, port, iv[0])),
                        OutcomeView::Continue,
                    )
                }
            }),
    {
        let ghost fs = self.functions();
        let ghost frames0 = old(run)@.push(top@);
        let mut top = top;
        assert(top_of(frames0) == top@);
        assert(frames0.drop_last() =~= old(run)@);
        proof {
            lemma_wf_unfold(fs, frames0);
            lemma_json_seq_view(items@);
        }
        let ghost below = run.frames@;
        if items.len() == 0 {
            let empty: Vec<JsonValue> = Vec::new();
            assert(json_seq_view(empty@) =~= Seq::<JsonView>::empty());
            self.complete(&mut top, JsonValue::Array(empty), false);
            run.frames.push(top);
            proof {
                lemma_frames_push(below, top);
                lemma_wf_after_replace(fs, frames0, top@);
            }
            VmOutcome::Continue
        } else if self.functions[body].1.instructions.len() > self.max_steps {
            run.frames.push(top);
            proof {
                lemma_frames_push(below, top);
                lemma_wf_current(fs, frames0);
            }
            let nodes = self.current_nodes(&run.frames);
            VmOutcome::Failed(VmError { nodes, fault: VmFault::StepLimitExceeded })
        } else {
            let next_frame = self.make_body_frame(body, port, &items[0]);
            let outputs: Vec<JsonValue> = Vec::new();
            assert(json_seq_view(outputs@) =~= Seq::<JsonView>::empty());
            let ghost iv = json_seq_view(items@);
            top.each = Some(EachLoop { items, next: 1, outputs, body, port });
            run.frames.push(top);
            run.frames.push(next_frame);
            proof {
                lemma_frames_push(below, top);
                lemma_frames_push(below.push(top), next_frame);
                lemma_wf_after_push(fs, frames0.drop_last(), top@, next_frame@);
            }
            VmOutcome::Continue
        }
    }
}

} // verus!

verus! {

pub open spec fn valid_frame(fs: Seq<(SymbolId, BytecodeSegment)>, f: FrameView) -> bool {
    &&& 0 <= f.segment < fs.len()
    &&& f.registers.len() == instructions_of(fs, f.segment).len()
    &&& 0 <= f.pc <= instructions_of(fs, f.segment).len()
    &&& f.waiting ==> f.pc < instructions_of(fs, f.segment).len()
    &&& inputs_wf(f.inputs)
}

pub open spec fn suspended_frame(fs: Seq<(SymbolId, BytecodeSegment)>, f: FrameView, next_segment: int) -> bool {
    &&& f.pc < instructions_of(fs, f.segment).len()
    &&& !f.waiting
    &&& f.each matches Some(l) && {
        &&& 0 <= l.body < fs.len()
        &&& 1 <= l.next <= l.items.len()
        &&& l.outputs.len() + 1 == l.next
        &&& next_segment == l.body
    }
}

pub proof fn lemma_wf_after_replace(fs: Seq<(SymbolId, BytecodeSegment)>, frames: Seq<FrameView>, f: FrameView)
    requires
        frames.len() >= 1,
        forall|i: int|
            0 <= i < frames.len() - 1 ==> valid_frame(fs, #[trigger] frames[i]) && suspended_frame(
                fs,
                frames[i],
                if i + 1 < frames.len() - 1 {
                    frames[i + 1].segment
                } else {
                    f.segment
                },
            ),
        valid_frame(fs, f),
        f.each is None,
    ensures
        run_wf(fs, frames.drop_last().push(f)),
{
    reveal(run_wf);
    let r = frames.drop_last().push(f);
    assert forall|i: int| 0 <= i < r.len() - 1 implies #[trigger] r[i] == frames[i] by {}
    assert forall|i: int| 0 <= i < r.len() implies valid_frame(fs, #[trigger] r[i]) by {
        if i < r.len() - 1 {
            assert(r[i] == frames[i]);
        }
    }
}

pub proof fn lemma_wf_after_push(
    fs: Seq<(SymbolId, BytecodeSegment)>,
    below: Seq<FrameView>,
    p: FrameView,
    b: FrameView,
)
    requires
        forall|i: int|
            0 <= i < below.len() ==> valid_frame(fs, #[trigger] below[i]) && suspended_frame(
                fs,
                below[i],
                if i + 1 < below.len() {
                    below[i + 1].segment
                } else {
                    p.segment
                },
            ),
        valid_frame(fs, p),
        suspended_frame(fs, p, b.segment),
        valid_frame(fs, b),
        b.each is None,
    ensures
        run_wf(fs, below.push(p).push(b)),
{
    reveal(run_wf);
    let r = below.push(p).push(b);
    assert forall|i: int| 0 <= i < below.len() implies #[trigger] r[i] == below[i] by {}
    assert(r[below.len() as int] == p);
    assert forall|i: int| 0 <= i < r.len() implies valid_frame(fs, #[trigger] r[i]) by {
        if i < below.len() {
            assert(r[i] == below[i]);
        }
    }
    assert forall|i: int| 0 <= i < r.len() - 1 implies suspended_frame(fs, #[trigger] r[i], r[i + 1].segment) by {
        if i < below.len() {
            assert(r[i] == below[i]);
            if i + 1 < below.len() {
                assert(r[i + 1] == below[i + 1]);
            }
        }
    }
}

pub proof fn lemma_wf_unfold(fs: Seq<(SymbolId, BytecodeSegment)>, frames: Seq<FrameView>)
    requires
        run_wf(fs, frames),
    ensures
        forall|i: int|
            0 <= i < frames.len() - 1 ==> valid_frame(fs, #[trigger] frames[i]) && suspended_frame(
                fs,
                frames[i],
                frames[i + 1].segment,
            ),
        forall|i: int| 0 <= i < frames.len() ==> valid_frame(fs, #[trigger] frames[i]),
        frames.len() >= 1,
        top_of(frames).each is None,
{
    reveal(run_wf);
}

pub proof fn lemma_wf_current(fs: Seq<(SymbolId, BytecodeSegment)>, frames: Seq<FrameView>)
    requires
        run_wf(fs, frames),
        top_of(frames).pc < instructions_of(fs, top_of(frames).segment).len(),
    ensures
        forall|i: int|
            0 <= i < frames.len() ==> 0 <= (#[trigger] frames[i]).segment < fs.len() && 0 <= frames[i].pc
                < instructions_of(fs, frames[i].segment).len(),
{
    reveal(run_wf);
    lemma_wf_unfold(fs, frames);
}

} // verus!

verus! {

pub open spec fn reply_view(reply: Result<JsonValue, String>) -> Result<JsonView, Seq<char>> {
    match reply {
        Ok(v) => Ok(v@),
        Err(m) => Err(m@),
    }
}

impl<'a> GraphVm<'a> {
    /// Answers the request that execution `run` waits for: with the value the request produced,
    /// or with the message of its failure.
    pub fn resume(&self, run: &mut VmRun, reply: Result<JsonValue, String>) -> (outcome: VmOutcome)
        requires
            run_wf(self.functions(), old(run)@),
            top_of(old(run)@).waiting,
        ensures
            run_wf(self.functions(), final(run)@),
            (final(run)@, outcome_view(outcome)) == resume_spec(self.functions(), old(run)@, reply_view(reply)),
    {
        let ghost fs = self.functions();
        let ghost frames0 = run@;
        let ghost raw0 = run.frames@;
        proof {
            lemma_wf_unfold(fs, frames0);
            lemma_frames_drop_last(raw0);
        }
        let mut top = match run.frames.pop() {
            Some(f) => f,
            None => {
                assert(false);
                return VmOutcome::Continue;
            },
        };
        assert(top@ == top_of(frames0));
        let ghost below = run.frames@;
        match reply {
            Ok(v) => {
                self.complete(&mut top, v, false);
                run.frames.push(top);
                proof {
                    lemma_frames_push(below, top);
                    assert(frames_view(below) =~= frames0.drop_last());
                    lemma_wf_after_replace(fs, frames0, top@);
                }
                VmOutcome::Continue
            },
            Err(m) => {
                run.frames.push(top);
                proof {
                    lemma_frames_push(below, top);
                    assert(frames_view(run.frames@) =~= frames0);
                    lemma_wf_current(fs, frames0);
                }
                let nodes = self.current_nodes(&run.frames);
                VmOutcome::Failed(VmError { nodes, fault: VmFault::Reported(m) })
            },
        }
    }

    /// Whether execution `run` waits for the reply to a request.
    pub fn is_waiting(&self, run: &VmRun) -> (waiting: bool)
        requires
            run_wf(self.functions(), run@),
        ensures
            waiting == top_of(run@).waiting,
    {
        proof {
            lemma_wf_unfold(self.functions(), run@);
        }
        let n = run.frames.len();
        assert(frames_view(run.frames@)[n - 1] == run.frames@[n - 1]@);
        run.frames[n - 1].waiting
    }
}

/// A return instruction ends its segment with the first value it reads as the segment's result.
pub proof fn return_ends_segment(fs: Seq<(SymbolId, BytecodeSegment)>, max_steps: usize, frames: Seq<FrameView>)
    requires
        run_wf(fs, frames),
        !top_of(frames).waiting,
        top_of(frames).pc < segment_len(fs, top_of(frames)),
        current_instruction(fs, top_of(frames)).instruction is Return,
    ensures
        ({
            let next = step_spec(fs, max_steps, frames).0;
            let top = top_of(frames);
            let values = slot_values(current_instruction(fs, top).input_slots@, top.registers);
            &&& next.len() == frames.len()
            &&& top_of(next).pc == segment_len(fs, top)
            &&& top_of(next).result == nth_value(values, 0)
            &&& step_spec(fs, max_steps, frames).1 == OutcomeView::Continue
        }),
{
    reveal(eval_spec);
    lemma_wf_unfold(fs, frames);
}

/// A loop over items yields exactly one output per item: when the body has run on the last item,
/// the loop's value is the list of the body's results, as long as the item list.
pub proof fn loop_yields_one_output_per_item(fs: Seq<(SymbolId, BytecodeSegment)>, max_steps: usize, frames: Seq<FrameView>)
    requires
        run_wf(fs, frames),
        frames.len() >= 2,
        top_of(frames).pc >= segment_len(fs, top_of(frames)),
        frames[frames.len() - 2].each matches Some(l) && l.next == l.items.len(),
    ensures
        ({
            let next = step_spec(fs, max_steps, frames).0;
            let l = frames[frames.len() - 2].each->0;
            &&& next.len() == frames.len() - 1
            &&& top_of(next).result == JsonView::Array(l.outputs.push(top_of(frames).result))
            &&& l.outputs.push(top_of(frames).result).len() == l.items.len()
        }),
{
    lemma_wf_unfold(fs, frames);
    assert(valid_frame(fs, frames[frames.len() - 2]) && suspended_frame(fs, frames[frames.len() - 2], frames[frames.len() - 1].segment));
}

/// An instruction that produces a value changes no register but the one it writes.
pub proof fn step_writes_only_output_slot(fs: Seq<(SymbolId, BytecodeSegment)>, max_steps: usize, frames: Seq<FrameView>, k: int)
    requires
        run_wf(fs, frames),
        !top_of(frames).waiting,
        top_of(frames).pc < segment_len(fs, top_of(frames)),
        ({
            let top = top_of(frames);
            let i = current_instruction(fs, top);
            eval_spec(i.instruction, slot_values(i.input_slots@, top.registers), json_seq_view(fs[top.segment].1.constants@), top.inputs, fs) is Value
        }),
        0 <= k < top_of(frames).registers.len(),
        current_instruction(fs, top_of(frames)).output_slot != Some(k as u32),
    ensures
        top_of(step_spec(fs, max_steps, frames).0).registers[k] == top_of(frames).registers[k],
{
}

/// A step never touches the outermost frame's inputs nor the function it runs: the values the
/// run was begun with stay what the run reads until it ends.
pub proof fn step_keeps_inputs(fs: Seq<(SymbolId, BytecodeSegment)>, max_steps: usize, frames: Seq<FrameView>)
    requires
        run_wf(fs, frames),
        !top_of(frames).waiting,
    ensures
        step_spec(fs, max_steps, frames).0.len() >= 1,
        step_spec(fs, max_steps, frames).0[0].inputs == frames[0].inputs,
        step_spec(fs, max_steps, frames).0[0].segment == frames[0].segment,
{
    reveal(eval_spec);
    lemma_wf_unfold(fs, frames);
}

/// Answering a request never touches the outermost frame's inputs nor the function it runs.
pub proof fn resume_keeps_inputs(fs: Seq<(SymbolId, BytecodeSegment)>, frames: Seq<FrameView>, reply: Result<JsonView, Seq<char>>)
    requires
        run_wf(fs, frames),
    ensures
        resume_spec(fs, frames, reply).0.len() == frames.len(),
        resume_spec(fs, frames, reply).0[0].inputs == frames[0].inputs,
        resume_spec(fs, frames, reply).0[0].segment == frames[0].segment,
{
    lemma_wf_unfold(fs, frames);
}

} // verus!

verus! {

/// The boolean a value counts as when a boolean instruction reads it: only `true` is true.
proof fn lemma_bool_or_false(v: JsonView)
    ensures
        json_bool_or_false(v) == (v == JsonView::Bool(true)),
{
}

/// A `not` instruction negates the first value it reads: `true` gives `false`, and anything
/// else, `false`, another value or no value at all, gives `true`.
pub proof fn boolean_not_negates(
    slot: u32,
    operator: String,
    values: Seq<(Seq<char>, JsonView)>,
    constants: Seq<JsonView>,
    inputs: Seq<(SymbolId, JsonView)>,
    fs: Seq<(SymbolId, BytecodeSegment)>,
)
    requires
        operator@ == "not"@,
    ensures
        values.len() > 0 && values[0].1 == JsonView::Bool(true) ==> eval_spec(
            Instruction::Boolean { slot, operator },
            values,
            constants,
            inputs,
            fs,
        ) == EvalView::Value(JsonView::Bool(false)),
        !(values.len() > 0 && values[0].1 == JsonView::Bool(true)) ==> eval_spec(
            Instruction::Boolean { slot, operator },
            values,
            constants,
            inputs,
            fs,
        ) == EvalView::Value(JsonView::Bool(true)),
{
    reveal(eval_spec);
    reveal_strlit("and");
    reveal_strlit("or");
    reveal_strlit("not");
    assert("not"@.len() == 3 && "and"@.len() == 3 && "or"@.len() == 2);
    assert("not"@[0] == 'n' && "and"@[0] == 'a');
    if values.len() > 0 {
        lemma_bool_or_false(values[0].1);
    }
}

/// An `and` instruction gives `true` exactly when every value it reads is `true`; an `or`
/// instruction exactly when some value it reads is `true`; any other operator is refused.
pub proof fn boolean_and_or(
    slot: u32,
    operator: String,
    values: Seq<(Seq<char>, JsonView)>,
    constants: Seq<JsonView>,
    inputs: Seq<(SymbolId, JsonView)>,
    fs: Seq<(SymbolId, BytecodeSegment)>,
)
    ensures
        operator@ == "and"@ ==> eval_spec(Instruction::Boolean { slot, operator }, values, constants, inputs, fs)
            == EvalView::Value(JsonView::Bool(forall|k: int| 0 <= k < values.len() ==> #[trigger] values[k].1 == JsonView::Bool(true))),
        operator@ == "or"@ ==> eval_spec(Instruction::Boolean { slot, operator }, values, constants, inputs, fs)
            == EvalView::Value(JsonView::Bool(exists|k: int| 0 <= k < values.len() && #[trigger] values[k].1 == JsonView::Bool(true))),
        operator@ != "and"@ && operator@ != "or"@ && operator@ != "not"@ ==> eval_spec(
            Instruction::Boolean { slot, operator },
            values,
            constants,
            inputs,
            fs,
        ) == EvalView::Fault(VmFaultView::UnknownBooleanOperator(operator@)),
{
    reveal(eval_spec);
    reveal_strlit("and");
    reveal_strlit("or");
    assert("and"@.len() == 3 && "or"@.len() == 2);
    assert forall|k: int| 0 <= k < values.len() implies json_bool_or_false(#[trigger] values[k].1) == (values[k].1
        == JsonView::Bool(true)) by {
        lemma_bool_or_false(values[k].1);
    }
}

/// A constant instruction gives the segment's constant at its index, or fails when there is
/// none; a list instruction gives the values it reads, in order; a return instruction ends its
/// segment with the first value it reads, or null.
pub proof fn loads_lists_and_returns(
    instruction: Instruction,
    values: Seq<(Seq<char>, JsonView)>,
    constants: Seq<JsonView>,
    inputs: Seq<(SymbolId, JsonView)>,
    fs: Seq<(SymbolId, BytecodeSegment)>,
)
    ensures
        instruction matches Instruction::LoadConstant { constant, .. } ==> eval_spec(instruction, values, constants, inputs, fs)
            == if (constant as int) < constants.len() {
            EvalView::Value(constants[constant as int])
        } else {
            EvalView::Fault(VmFaultView::ConstantOutOfBounds(constant))
        },
        instruction matches Instruction::MakeList { .. } ==> (eval_spec(instruction, values, constants, inputs, fs) matches EvalView::Value(
            JsonView::Array(items),
        ) && items.len() == values.len() && forall|k: int| 0 <= k < values.len() ==> #[trigger] items[k] == values[k].1),
        instruction is Return ==> eval_spec(instruction, values, constants, inputs, fs) == EvalView::Returned(
            if values.len() > 0 {
                values[0].1
            } else {
                JsonView::Null
            },
        ),
{
    reveal(eval_spec);
}

/// A comparison or an arithmetic instruction hands its operator and the first two values it
/// reads, null where one is missing, to the driver, without deciding anything itself.
pub proof fn comparisons_go_to_the_driver(
    slot: u32,
    operator: String,
    values: Seq<(Seq<char>, JsonView)>,
    constants: Seq<JsonView>,
    inputs: Seq<(SymbolId, JsonView)>,
    fs: Seq<(SymbolId, BytecodeSegment)>,
)
    ensures
        eval_spec(Instruction::Compare { slot, operator }, values, constants, inputs, fs) == EvalView::Compute(
            VmComputeView::Compare {
                operator: operator@,
                left: if values.len() > 0 {
                    values[0].1
                } else {
                    JsonView::Null
                },
                right: if values.len() > 1 {
                    values[1].1
                } else {
                    JsonView::Null
                },
            },
        ),
        eval_spec(Instruction::Math { slot, operator }, values, constants, inputs, fs) == EvalView::Compute(
            VmComputeView::Math {
                operator: operator@,
                left: if values.len() > 0 {
                    values[0].1
                } else {
                    JsonView::Null
                },
                right: if values.len() > 1 {
                    values[1].1
                } else {
                    JsonView::Null
                },
            },
        ),
{
    reveal(eval_spec);
}

} // verus!

verus! {

/// An instruction that acts on the outside hands the driver an effect that carries what the
/// instruction names and the first value it reads (null when there is none): records of its
/// model, the route to open, the notification level, the capability and operation to invoke,
/// or the server segment to call with that value on its input port.
pub proof fn effects_carry_the_first_value(
    instruction: Instruction,
    values: Seq<(Seq<char>, JsonView)>,
    constants: Seq<JsonView>,
    inputs: Seq<(SymbolId, JsonView)>,
    fs: Seq<(SymbolId, BytecodeSegment)>,
)
    ensures
        ({
            let first = if values.len() > 0 {
                values[0].1
            } else {
                JsonView::Null
            };
            let e = eval_spec(instruction, values, constants, inputs, fs);
            &&& instruction matches Instruction::CreateRecord { model_id } ==> e == EvalView::Effect(
                VmEffectView::CreateRecord { model_id, value: first },
            )
            &&& instruction matches Instruction::ReadRecord { model_id } ==> e == EvalView::Effect(
                VmEffectView::ReadRecord { model_id, value: first },
            )
            &&& instruction matches Instruction::UpdateRecord { model_id } ==> e == EvalView::Effect(
                VmEffectView::UpdateRecord { model_id, value: first },
            )
            &&& instruction matches Instruction::DeleteRecord { model_id } ==> e == EvalView::Effect(
                VmEffectView::DeleteRecord { model_id, value: first },
            )
            &&& instruction matches Instruction::QueryRecords { model_id, limit } ==> e == EvalView::Effect(
                VmEffectView::QueryRecords { model_id, limit, value: first },
            )
            &&& instruction matches Instruction::ValidateForm { rule_count } ==> e == EvalView::Effect(
                VmEffectView::ValidateForm { rules: rule_count, value: first },
            )
            &&& instruction matches Instruction::Navigate { route_id } ==> e == EvalView::Effect(
                VmEffectView::Navigate { route_id },
            )
            &&& instruction is Confirm ==> e == EvalView::Effect(VmEffectView::Confirm { value: first })
            &&& instruction matches Instruction::Notify { level } ==> e == EvalView::Effect(
                VmEffectView::Notify { level: level@, value: first },
            )
            &&& instruction matches Instruction::InvokeCapability { capability_id, operation } ==> e == EvalView::Effect(
                VmEffectView::Capability { capability_id: capability_id@, operation: operation@, value: first },
            )
            &&& instruction matches Instruction::InvokeServerSegment { segment_id, input_port } ==> e == EvalView::Effect(
                VmEffectView::InvokeServerSegment { segment_id, inputs: seq![(input_port, first)] },
            )
            &&& instruction matches Instruction::Fail { code } ==> e == EvalView::Fault(VmFaultView::GraphFailed(code@))
        }),
{
    reveal(eval_spec);
}

/// An input instruction gives the function's input on its port, or fails naming the port; a
/// field instruction gives the field of the object it reads, or fails naming the field when the
/// value read is no object or lacks it.
pub proof fn inputs_and_fields_are_read(
    instruction: Instruction,
    values: Seq<(Seq<char>, JsonView)>,
    constants: Seq<JsonView>,
    inputs: Seq<(SymbolId, JsonView)>,
    fs: Seq<(SymbolId, BytecodeSegment)>,
)
    ensures
        ({
            let e = eval_spec(instruction, values, constants, inputs, fs);
            &&& instruction matches Instruction::LoadInput { port_id, .. } ==> e == match input_get(inputs, port_id) {
                Some(v) => EvalView::Value(v),
                None => EvalView::Fault(VmFaultView::InputMissing(port_id)),
            }
            &&& instruction matches Instruction::ReadField { field_id, .. } ==> (
                if values.len() > 0 && values[0].1 is Object && entries_get(values[0].1->Object_0, symbol_text(field_id.value)) is Some {
                    e == EvalView::Value(entries_get(values[0].1->Object_0, symbol_text(field_id.value))->0)
                } else {
                    e == EvalView::Fault(VmFaultView::FieldMissing(field_id))
                })
        }),
{
    reveal(eval_spec);
}

/// The input of port `port` among inputs whose ports are in order is the value listed with it.
pub proof fn inputs_give_their_listed_value(ins: Seq<(SymbolId, JsonView)>, k: int)
    requires
        inputs_wf(ins),
        0 <= k < ins.len(),
    ensures
        input_get(ins, ins[k].0) == Some(ins[k].1),
    decreases k,
{
    if k > 0 {
        assert(ins[0].0.value < ins[k].0.value);
        assert forall|i: int, j: int| 0 <= i < j < ins.skip(1).len() implies (#[trigger] ins.skip(1)[i]).0.value < (
        #[trigger] ins.skip(1)[j]).0.value by {
            assert(ins.skip(1)[i] == ins[i + 1] && ins.skip(1)[j] == ins[j + 1]);
        }
        inputs_give_their_listed_value(ins.skip(1), k - 1);
        assert(ins.skip(1)[k - 1] == ins[k]);
    }
}

/// A branch instruction gives its `then` value when its `condition` value is `true`, and its
/// `else` value otherwise (a missing or non-boolean condition counting as false); a missing
/// value gives null.
pub proof fn branches_choose_by_condition(
    slot: u32,
    values: Seq<(Seq<char>, JsonView)>,
    constants: Seq<JsonView>,
    inputs: Seq<(SymbolId, JsonView)>,
    fs: Seq<(SymbolId, BytecodeSegment)>,
)
    ensures
        ({
            let taken = if entries_get(values, "condition"@) == Some(JsonView::Bool(true)) {
                "then"@
            } else {
                "else"@
            };
            eval_spec(Instruction::Branch { slot }, values, constants, inputs, fs) == EvalView::Value(
                match entries_get(values, taken) {
                    Some(v) => v,
                    None => JsonView::Null,
                },
            )
        }),
{
    reveal(eval_spec);
    match entries_get(values, "condition"@) {
        Some(v) => lemma_bool_or_false(v),
        None => {},
    }
}

/// A loop instruction over the list it reads refuses more items than its bound and a body
/// function that does not exist; otherwise it runs that body once for each item, in order.
pub proof fn loops_run_their_body_per_item(
    max_items: u32,
    body_function_id: SymbolId,
    values: Seq<(Seq<char>, JsonView)>,
    constants: Seq<JsonView>,
    inputs: Seq<(SymbolId, JsonView)>,
    fs: Seq<(SymbolId, BytecodeSegment)>,
)
    ensures
        ({
            let items = if values.len() > 0 && values[0].1 is Array {
                values[0].1->Array_0
            } else {
                Seq::empty()
            };
            let e = eval_spec(Instruction::ForEach { max_items, body_function_id }, values, constants, inputs, fs);
            &&& items.len() > max_items ==> e == EvalView::Fault(VmFaultView::TooManyItems(max_items))
            &&& items.len() <= max_items && find_function(fs, body_function_id) is None ==> e == EvalView::Fault(
                VmFaultView::BodyNotFound(body_function_id),
            )
            &&& items.len() <= max_items && find_function(fs, body_function_id) is Some ==> e is Each && e->Each_items
                == items && fs[e->Each_body].0 == body_function_id
        }),
{
    reveal(eval_spec);
    lemma_find_function_at_id(fs, body_function_id);
}

proof fn lemma_find_function_at_id(fs: Seq<(SymbolId, BytecodeSegment)>, id: SymbolId)
    ensures
        find_function(fs, id) matches Some(i) ==> 0 <= i < fs.len() && fs[i].0 == id,
    decreases fs.len(),
{
    if fs.len() > 0 && fs[0].0 != id {
        lemma_find_function_at_id(fs.skip(1), id);
        if find_function(fs.skip(1), id) is Some {
            let i = find_function(fs.skip(1), id)->0;
            assert(fs.skip(1)[i] == fs[i + 1]);
        }
    }
}

/// A reply to a pending request is written to the instruction's register and the frame moves
/// on to its next instruction; a failure reported by the driver fails the run with its message,
/// naming the nodes being executed.
pub proof fn replies_complete_the_instruction(
    fs: Seq<(SymbolId, BytecodeSegment)>,
    frames: Seq<FrameView>,
    reply: Result<JsonView, Seq<char>>,
)
    requires
        run_wf(fs, frames),
        top_of(frames).waiting,
    ensures
        ({
            let (next, outcome) = resume_spec(fs, frames, reply);
            let top = top_of(frames);
            match reply {
                Ok(v) => {
                    &&& outcome == OutcomeView::Continue
                    &&& next.len() == frames.len()
                    &&& top_of(next).pc == top.pc + 1
                    &&& !top_of(next).waiting
                    &&& top_of(next).result == v
                    &&& forall|s: u32| current_instruction(fs, top).output_slot == Some(s) && (s as int) < top.registers.len()
                        ==> #[trigger] top_of(next).registers[s as int] == v
                },
                Err(m) => {
                    &&& next == frames
                    &&& outcome == OutcomeView::Failed(context_nodes(fs, frames), VmFaultView::Reported(m))
                },
            }
        }),
{
    lemma_wf_unfold(fs, frames);
}

} // verus!

verus! {

/// One step of a run that is not waiting: an instruction that produces a value writes it to its
/// register and moves on; one that needs the outside hands its effect or computation to the
/// driver and waits; one that fails ends the run with its fault; and the end of the outermost
/// function finishes the run with the value last produced.
pub proof fn steps_follow_the_instruction(fs: Seq<(SymbolId, BytecodeSegment)>, max_steps: usize, frames: Seq<FrameView>)
    requires
        run_wf(fs, frames),
        !top_of(frames).waiting,
    ensures
        ({
            let top = top_of(frames);
            let (next, outcome) = step_spec(fs, max_steps, frames);
            &&& top.pc >= segment_len(fs, top) && frames.len() == 1 ==> outcome == OutcomeView::Finished(top.result)
                && next == frames
            &&& top.pc < segment_len(fs, top) ==> ({
                let i = current_instruction(fs, top);
                let e = eval_spec(
                    i.instruction,
                    slot_values(i.input_slots@, top.registers),
                    json_seq_view(fs[top.segment].1.constants@),
                    top.inputs,
                    fs,
                );
                &&& e matches EvalView::Value(v) ==> outcome == OutcomeView::Continue && next.len() == frames.len()
                    && top_of(next).pc == top.pc + 1 && top_of(next).result == v && (forall|s: u32|
                    i.output_slot == Some(s) && (s as int) < top.registers.len() ==> #[trigger] top_of(next).registers[s as int]
                        == v)
                &&& e matches EvalView::Effect(x) ==> outcome == OutcomeView::Pending(Ok(x)) && top_of(next).waiting
                    && top_of(next).pc == top.pc
                &&& e matches EvalView::Compute(c) ==> outcome == OutcomeView::Pending(Err(c)) && top_of(next).waiting
                    && top_of(next).pc == top.pc
                &&& e matches EvalView::Fault(f) ==> outcome == OutcomeView::Failed(context_nodes(fs, frames), f) && next
                    == frames
            })
        }),
{
    lemma_wf_unfold(fs, frames);
}

} // verus!

verus! {

/// Different identifiers are written differently.
proof fn lemma_symbol_text_injective(a: u128, b: u128)
    requires
        a != b,
    ensures
        symbol_text(a) != symbol_text(b),
{
    crate::symbol::symbol_text_round_trip(a);
    crate::symbol::symbol_text_round_trip(b);
}

/// An object instruction pairs its fields with the values it reads, in order: the object it
/// builds holds, under each field's identifier, the value read for the last field of that
/// identifier.
pub proof fn objects_hold_their_fields(fields: Seq<SymbolId>, values: Seq<(Seq<char>, JsonView)>, n: nat, k: int)
    requires
        n <= fields.len(),
        n <= values.len(),
        0 <= k < n,
        forall|j: int| k < j < n ==> #[trigger] fields[j] != fields[k],
    ensures
        entries_get(object_of(fields, values, n), symbol_text(fields[k].value)) == Some(values[k].1),
    decreases n,
{
    let key = symbol_text(fields[k].value);
    if k == n - 1 {
        crate::json::entries_get_after_insert(object_of(fields, values, (n - 1) as nat), key, values[k].1);
    } else {
        objects_hold_their_fields(fields, values, (n - 1) as nat, k);
        let other = symbol_text(fields[n - 1].value);
        assert(fields[n - 1] != fields[k]);
        assert(fields[n - 1].value != fields[k].value);
        lemma_symbol_text_injective(fields[n - 1].value, fields[k].value);
        crate::json::entries_get_other_after_insert(object_of(fields, values, (n - 1) as nat), other, key, values[n - 1].1);
    }
}

} // verus!

verus! {

proof fn lemma_object_of_ordered(fields: Seq<SymbolId>, values: Seq<(Seq<char>, JsonView)>, n: nat)
    ensures
        crate::text::texts_ascending(crate::json::entry_keys(object_of(fields, values, n))),
    decreases n,
{
    if n == 0 {
        assert(crate::json::entry_keys(object_of(fields, values, n)) =~= Seq::<Seq<char>>::empty());
    } else {
        lemma_object_of_ordered(fields, values, (n - 1) as nat);
        crate::json::entries_insert_keeps_order(
            object_of(fields, values, (n - 1) as nat),
            symbol_text(fields[n - 1].value),
            values[n - 1].1,
        );
    }
}

/// An object instruction builds an object whose keys are in order and which holds, under each
/// of its fields, the value read for the last field of that identifier, its fields and the
/// values read being paired in order.
pub proof fn make_object_pairs_fields_with_values(
    slot: u32,
    fields: Vec<SymbolId>,
    values: Seq<(Seq<char>, JsonView)>,
    constants: Seq<JsonView>,
    inputs: Seq<(SymbolId, JsonView)>,
    fs: Seq<(SymbolId, BytecodeSegment)>,
)
    ensures
        ({
            let e = eval_spec(Instruction::MakeObject { slot, fields }, values, constants, inputs, fs);
            let n = if fields@.len() <= values.len() {
                fields@.len()
            } else {
                values.len()
            };
            &&& e is Value && e->Value_0 is Object
            &&& crate::text::texts_ascending(crate::json::entry_keys(e->Value_0->Object_0))
            &&& forall|k: int|
                0 <= k < n && (forall|j: int| k < j < n ==> #[trigger] fields@[j] != fields@[k]) ==> entries_get(
                    e->Value_0->Object_0,
                    symbol_text(#[trigger] fields@[k].value),
                ) == Some(values[k].1)
        }),
{
    reveal(eval_spec);
    let n: nat = if fields@.len() <= values.len() {
        fields@.len()
    } else {
        values.len()
    };
    lemma_object_of_ordered(fields@, values, n);
    assert forall|k: int|
        0 <= k < n && (forall|j: int| k < j < n ==> #[trigger] fields@[j] != fields@[k]) implies entries_get(
            object_of(fields@, values, n),
            symbol_text(#[trigger] fields@[k].value),
        ) == Some(values[k].1) by {
        objects_hold_their_fields(fields@, values, n, k);
    }
}

} // verus!

verus! {

/// A format instruction hands its template and every value it reads, in order, to the driver.
pub proof fn formats_go_to_the_driver(
    slot: u32,
    template: String,
    values: Seq<(Seq<char>, JsonView)>,
    constants: Seq<JsonView>,
    inputs: Seq<(SymbolId, JsonView)>,
    fs: Seq<(SymbolId, BytecodeSegment)>,
)
    ensures
        ({
            let e = eval_spec(Instruction::Format { slot, template }, values, constants, inputs, fs);
            &&& e is Compute && e->Compute_0 is Format
            &&& e->Compute_0->Format_template == template@
            &&& e->Compute_0->Format_values.len() == values.len()
            &&& forall|k: int| 0 <= k < values.len() ==> #[trigger] e->Compute_0->Format_values[k] == values[k].1
        }),
{
    reveal(eval_spec);
}

} // verus!
