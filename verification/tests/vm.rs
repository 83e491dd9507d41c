use studio::bytecode::{BytecodeInstruction, BytecodeSegment, Instruction};
use studio::json::{JsonNumber, JsonValue};
use studio::symbol::SymbolId;
use studio::vm::{GraphVm, VmCompute, VmEffect, VmError, VmFault, VmOutcome, VmRequest};

fn number(value: &JsonValue) -> Option<f64> {
    match value {
        JsonValue::Number(JsonNumber::PosInt(n)) => Some(*n as f64),
        JsonValue::Number(JsonNumber::NegInt(n)) => Some(*n as f64),
        JsonValue::Number(JsonNumber::Float(bits)) => Some(f64::from_bits(*bits)),
        _ => None,
    }
}

fn compute(request: &VmCompute) -> Result<JsonValue, String> {
    match request {
        VmCompute::Math { operator, left, right } => {
            let left = number(left).ok_or("值不是数字")?;
            let right = number(right).ok_or("值不是数字")?;
            let result = match operator.as_str() {
                "add" => left + right,
                "subtract" => left - right,
                "multiply" => left * right,
                "divide" if right != 0.0 => left / right,
                "remainder" if right != 0.0 => left % right,
                "divide" | "remainder" => return Err("数学运算不能除以零".to_owned()),
                _ => return Err(format!("未知数学运算: {operator}")),
            };
            Ok(JsonValue::Number(JsonNumber::Float(result.to_bits())))
        }
        VmCompute::Compare { .. } => Ok(JsonValue::Bool(false)),
        VmCompute::Format { template, .. } => Ok(JsonValue::String(template.clone())),
    }
}

/// Runs `function_id` to its end, answering every effect with `true`.
fn run(functions: &Vec<(SymbolId, BytecodeSegment)>, function_id: SymbolId, inputs: Vec<(SymbolId, JsonValue)>, effects: &mut Vec<VmEffect>) -> Result<JsonValue, VmError> {
    let vm = GraphVm::new(functions);
    let mut state = vm.begin(function_id, inputs)?;
    loop {
        let outcome = if vm.is_waiting(&state) {
            unreachable!()
        } else {
            vm.step(&mut state)
        };
        let outcome = match outcome {
            VmOutcome::Pending(VmRequest::Compute(request)) => vm.resume(&mut state, compute(&request)),
            VmOutcome::Pending(VmRequest::Effect(effect)) => {
                effects.push(effect);
                vm.resume(&mut state, Ok(JsonValue::Bool(true)))
            }
            other => other,
        };
        match outcome {
            VmOutcome::Continue => {}
            VmOutcome::Finished(value) => return Ok(value),
            VmOutcome::Failed(error) => return Err(error),
            VmOutcome::Pending(_) => unreachable!(),
        }
    }
}

fn id(n: u128) -> SymbolId {
    SymbolId::from_u128(n)
}

fn instruction(node: u128, inputs: Vec<(&str, u32)>, output_slot: Option<u32>, instruction: Instruction) -> BytecodeInstruction {
    BytecodeInstruction {
        node_id: id(node),
        input_slots: inputs.into_iter().map(|(name, slot)| (name.to_owned(), slot)).collect(),
        output_slot,
        instruction,
    }
}

#[test]
fn executes_constant_math_and_return() {
    let function_id = id(1);
    let instructions = vec![
        instruction(10, vec![], Some(0), Instruction::LoadConstant { slot: 0, constant: 0 }),
        instruction(11, vec![], Some(1), Instruction::LoadConstant { slot: 1, constant: 1 }),
        instruction(12, vec![("left", 0), ("right", 1)], Some(2), Instruction::Math { slot: 2, operator: "add".to_owned() }),
        instruction(13, vec![("value", 2)], None, Instruction::Return),
    ];
    let functions = vec![(
        function_id,
        BytecodeSegment {
            id: function_id,
            name: "sum".to_owned(),
            instructions,
            constants: vec![JsonValue::Number(JsonNumber::PosInt(20)), JsonValue::Number(JsonNumber::PosInt(22))],
        },
    )];
    let mut effects = Vec::new();
    let result = run(&functions, function_id, Vec::new(), &mut effects).expect("the function returns");
    assert!(matches!(result, JsonValue::Number(JsonNumber::Float(bits)) if bits == 42.0f64.to_bits()));
    assert!(effects.is_empty());
}

#[test]
fn unknown_function_is_reported() {
    let functions: Vec<(SymbolId, BytecodeSegment)> = Vec::new();
    let vm = GraphVm::new(&functions);
    match vm.begin(id(7), Vec::new()) {
        Err(VmError { fault: VmFault::SegmentNotFound(missing), nodes }) => {
            assert_eq!(missing, id(7));
            assert!(nodes.is_empty());
        }
        _ => panic!("expected a missing segment"),
    }
}

fn single(function_id: SymbolId, instructions: Vec<BytecodeInstruction>, constants: Vec<JsonValue>) -> Vec<(SymbolId, BytecodeSegment)> {
    vec![(function_id, BytecodeSegment { id: function_id, name: "f".to_owned(), instructions, constants })]
}

#[test]
fn fail_instruction_fails_with_its_code_and_node() {
    let f = id(1);
    let functions = single(f, vec![instruction(20, vec![], None, Instruction::Fail { code: "BAD".to_owned() })], vec![]);
    match run(&functions, f, Vec::new(), &mut Vec::new()) {
        Err(VmError { fault: VmFault::GraphFailed(code), nodes }) => {
            assert_eq!(code, "BAD");
            assert_eq!(nodes, vec![id(20)]);
        }
        _ => panic!("expected a graph failure"),
    }
}

#[test]
fn missing_input_and_constant_are_faults() {
    let f = id(1);
    let functions = single(f, vec![instruction(21, vec![], Some(0), Instruction::LoadInput { slot: 0, port_id: id(5) })], vec![]);
    assert!(matches!(
        run(&functions, f, Vec::new(), &mut Vec::new()),
        Err(VmError { fault: VmFault::InputMissing(p), .. }) if p == id(5)
    ));
    let functions = single(f, vec![instruction(22, vec![], Some(0), Instruction::LoadConstant { slot: 0, constant: 3 })], vec![]);
    assert!(matches!(
        run(&functions, f, Vec::new(), &mut Vec::new()),
        Err(VmError { fault: VmFault::ConstantOutOfBounds(3), .. })
    ));
}

#[test]
fn input_flows_to_return_and_effects_reach_the_host() {
    let f = id(1);
    let model = id(9);
    let functions = single(
        f,
        vec![
            instruction(30, vec![], Some(0), Instruction::LoadInput { slot: 0, port_id: id(5) }),
            instruction(31, vec![("value", 0)], Some(1), Instruction::CreateRecord { model_id: model }),
            instruction(32, vec![("value", 0)], None, Instruction::Return),
            instruction(33, vec![], None, Instruction::Fail { code: "UNREACHED".to_owned() }),
        ],
        vec![],
    );
    let mut effects = Vec::new();
    let result = run(&functions, f, vec![(id(5), JsonValue::String("hi".to_owned()))], &mut effects).expect("returns");
    assert!(matches!(result, JsonValue::String(ref s) if s == "hi"));
    assert_eq!(effects.len(), 1);
    assert!(matches!(&effects[0], VmEffect::CreateRecord { model_id, value: JsonValue::String(s) } if *model_id == model && s == "hi"));
}

#[test]
fn for_each_runs_the_body_once_per_item() {
    let f = id(1);
    let body = id(2);
    let functions = vec![
        (
            f,
            BytecodeSegment {
                id: f,
                name: "outer".to_owned(),
                instructions: vec![
                    instruction(40, vec![], Some(0), Instruction::LoadConstant { slot: 0, constant: 0 }),
                    instruction(41, vec![("items", 0)], Some(1), Instruction::ForEach { max_items: 10, body_function_id: body }),
                    instruction(42, vec![("value", 1)], None, Instruction::Return),
                ],
                constants: vec![JsonValue::Array(vec![
                    JsonValue::Bool(true),
                    JsonValue::Bool(false),
                    JsonValue::Null,
                ])],
            },
        ),
        (
            body,
            BytecodeSegment {
                id: body,
                name: "body".to_owned(),
                instructions: vec![
                    instruction(50, vec![], Some(0), Instruction::LoadInput { slot: 0, port_id: id(6) }),
                    instruction(51, vec![("value", 0)], None, Instruction::Return),
                ],
                constants: vec![],
            },
        ),
    ];
    let result = run(&functions, f, Vec::new(), &mut Vec::new()).expect("returns");
    match result {
        JsonValue::Array(items) => {
            assert_eq!(items.len(), 3);
            assert!(matches!(items[0], JsonValue::Bool(true)));
            assert!(matches!(items[1], JsonValue::Bool(false)));
            assert!(matches!(items[2], JsonValue::Null));
        }
        _ => panic!("expected the list of outputs"),
    }
}

#[test]
fn for_each_over_its_limit_fails() {
    let f = id(1);
    let functions = single(
        f,
        vec![
            instruction(60, vec![], Some(0), Instruction::LoadConstant { slot: 0, constant: 0 }),
            instruction(61, vec![("items", 0)], Some(1), Instruction::ForEach { max_items: 1, body_function_id: f }),
        ],
        vec![JsonValue::Array(vec![JsonValue::Null, JsonValue::Null])],
    );
    assert!(matches!(
        run(&functions, f, Vec::new(), &mut Vec::new()),
        Err(VmError { fault: VmFault::TooManyItems(1), .. })
    ));
}

#[test]
fn a_failed_computation_is_reported_with_its_message() {
    let f = id(1);
    let functions = single(
        f,
        vec![
            instruction(70, vec![], Some(0), Instruction::LoadConstant { slot: 0, constant: 0 }),
            instruction(71, vec![("left", 0), ("right", 0)], Some(1), Instruction::Math { slot: 1, operator: "divide".to_owned() }),
        ],
        vec![JsonValue::Number(JsonNumber::PosInt(0))],
    );
    match run(&functions, f, Vec::new(), &mut Vec::new()) {
        Err(VmError { fault: VmFault::Reported(message), nodes }) => {
            assert_eq!(message, "数学运算不能除以零");
            assert_eq!(nodes, vec![id(71)]);
        }
        _ => panic!("expected a reported failure"),
    }
}

#[test]
fn a_segment_without_return_ends_with_its_last_value() {
    let f = id(1);
    let functions = single(
        f,
        vec![
            instruction(80, vec![], Some(0), Instruction::LoadConstant { slot: 0, constant: 0 }),
            instruction(81, vec![], Some(1), Instruction::LoadConstant { slot: 1, constant: 1 }),
        ],
        vec![JsonValue::Bool(true), JsonValue::String("last".to_owned())],
    );
    let result = run(&functions, f, Vec::new(), &mut Vec::new()).expect("returns");
    assert!(matches!(result, JsonValue::String(ref s) if s == "last"));
}

#[test]
fn boolean_and_branch_are_computed_by_the_interpreter() {
    let f = id(1);
    let functions = single(
        f,
        vec![
            instruction(90, vec![], Some(0), Instruction::LoadConstant { slot: 0, constant: 0 }),
            instruction(91, vec![], Some(1), Instruction::LoadConstant { slot: 1, constant: 1 }),
            instruction(92, vec![("a", 0), ("b", 1)], Some(2), Instruction::Boolean { slot: 2, operator: "or".to_owned() }),
            instruction(93, vec![("condition", 2), ("then", 0), ("else", 1)], Some(3), Instruction::Branch { slot: 3 }),
            instruction(94, vec![("value", 3)], None, Instruction::Return),
        ],
        vec![JsonValue::Bool(false), JsonValue::Bool(true)],
    );
    let result = run(&functions, f, Vec::new(), &mut Vec::new()).expect("returns");
    assert!(matches!(result, JsonValue::Bool(false)));
}
