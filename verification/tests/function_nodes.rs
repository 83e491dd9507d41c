use studio::definition::{
    CapabilityCatalog, CapabilityDefinition, Decimal, FieldDefinition, FieldOptions, FieldValidation, FunctionDefinition,
    FunctionNode, FunctionNodeEditor, FunctionNodeKind, ModelDefinition, PortDefinition, PropertyValue, RouteDefinition,
    ValidationRule, ValidationRuleKind,
};
use studio::function_graph::{function_node_kind_key, function_node_kind_title, next_function_node_editor};
use studio::function_node::{
    default_function_node_kind, dragged_function_node_editor, function_field_options, function_node_detail,
    function_node_kind_options, function_node_name, function_node_reference_options, function_record_node_kind,
    model_select_items, symbol_select_items, FunctionPortDirection, FunctionPortEditorTarget,
};
use studio::json::JsonValue;
use studio::operators::{CompareOperator, MathOperator, NotificationLevel};
use studio::symbol::SymbolId;
use studio::validation_rule::{
    add_validation_rule, default_validation_rule_kind, remove_validation_rule, set_validation_rule_field,
    set_validation_rule_message, update_validation_rule_kind, validation_rule_kind_key, validation_rule_kind_options,
    ONE_HUNDRED_BITS,
};
use studio::value_type::ValueType;

fn id(n: u128) -> SymbolId {
    SymbolId::from_u128(n)
}

fn node(n: u128, name: &str, kind: FunctionNodeKind, x: i32, y: i32) -> FunctionNode {
    FunctionNode { id: id(n), name: name.to_owned(), kind, editor: FunctionNodeEditor { x, y } }
}

fn field(n: u128, name: &str, title: &str) -> FieldDefinition {
    FieldDefinition {
        id: id(n),
        name: name.to_owned(),
        title: title.to_owned(),
        value_type: ValueType::Text,
        required: false,
        relation: None,
        options: FieldOptions {
            list_visible: false,
            detail_visible: false,
            form_visible: false,
            form_editable: false,
            filterable: false,
            sortable: false,
            unique: false,
            ai_extract: false,
            default_value: None,
        },
        validation: FieldValidation {
            min_length: None,
            max_length: None,
            minimum: None,
            maximum: None,
            pattern: None,
            min_items: None,
            max_items: None,
            unique_items: false,
        },
    }
}

fn model(n: u128, name: &str, title: &str, fields: Vec<FieldDefinition>) -> ModelDefinition {
    ModelDefinition {
        id: id(n),
        name: name.to_owned(),
        title: title.to_owned(),
        fields,
        indexes: Vec::new(),
        queries: Vec::new(),
        validations: Vec::new(),
    }
}

fn function(n: u128, nodes: Vec<FunctionNode>, inputs: Vec<PortDefinition>) -> FunctionDefinition {
    FunctionDefinition { id: id(n), name: "f".to_owned(), inputs, outputs: Vec::new(), nodes }
}

fn no_capabilities() -> CapabilityCatalog {
    CapabilityCatalog { capabilities: Vec::new() }
}

#[test]
fn node_name_falls_back_to_unknown() {
    let nodes = vec![node(1, "first", FunctionNodeKind::Return, 0, 0), node(1, "second", FunctionNodeKind::Return, 0, 0)];
    assert_eq!(function_node_name(&nodes, id(1)), "first");
    assert_eq!(function_node_name(&nodes, id(2)), "未知节点");
}

#[test]
fn record_node_kind_defaults_to_delete() {
    assert!(matches!(function_record_node_kind("create_record", id(3)), FunctionNodeKind::CreateRecord { model_id } if model_id == id(3)));
    assert!(matches!(function_record_node_kind("read_record", id(3)), FunctionNodeKind::ReadRecord { .. }));
    assert!(matches!(function_record_node_kind("update_record", id(3)), FunctionNodeKind::UpdateRecord { .. }));
    assert!(matches!(function_record_node_kind("anything", id(3)), FunctionNodeKind::DeleteRecord { .. }));
}

#[test]
fn port_targets_and_directions() {
    assert!(FunctionPortEditorTarget::CreateInput.is_input());
    assert!(FunctionPortEditorTarget::EditInput(id(1)).is_input());
    assert!(!FunctionPortEditorTarget::CreateOutput.is_input());
    assert_eq!(FunctionPortEditorTarget::EditOutput(id(4)).port_id(), Some(id(4)));
    assert_eq!(FunctionPortEditorTarget::CreateInput.port_id(), None);
    assert_eq!(FunctionPortDirection::Input.label(), "输入");
    assert_eq!(FunctionPortDirection::Output.label(), "输出");
}

#[test]
fn dragged_nodes_stay_on_the_canvas() {
    let start = FunctionNodeEditor { x: 100, y: 9_990 };
    assert_eq!(dragged_function_node_editor(start, 50, 50), FunctionNodeEditor { x: 150, y: 10_000 });
    assert_eq!(dragged_function_node_editor(start, -500, -20), FunctionNodeEditor { x: 0, y: 9_970 });
    assert_eq!(dragged_function_node_editor(FunctionNodeEditor { x: i32::MAX, y: 0 }, i32::MAX, i32::MIN), FunctionNodeEditor { x: 10_000, y: 0 });
}

#[test]
fn new_nodes_take_the_first_free_grid_slot() {
    assert_eq!(next_function_node_editor(&[]), FunctionNodeEditor { x: 0, y: 0 });
    let nodes = vec![node(1, "a", FunctionNodeKind::Return, 0, 0), node(2, "b", FunctionNodeKind::Return, 240, 0)];
    assert_eq!(next_function_node_editor(&nodes), FunctionNodeEditor { x: 480, y: 0 });
    let nodes = vec![node(1, "a", FunctionNodeKind::Return, 10, 10), node(2, "b", FunctionNodeKind::Return, 250, 0), node(3, "c", FunctionNodeKind::Return, 470, 5)];
    assert_eq!(next_function_node_editor(&nodes), FunctionNodeEditor { x: 0, y: 160 });
}

#[test]
fn kind_options_disable_what_has_nothing_to_refer_to() {
    let f = function(1, vec![node(10, "only", FunctionNodeKind::Return, 0, 0)], Vec::new());
    let options = function_node_kind_options(id(10), &f, &[], &[], &[], &no_capabilities());
    assert_eq!(options.len(), 24);
    let disabled: Vec<&str> = options.iter().filter(|o| o.disabled).map(|o| o.value.as_str()).collect();
    assert_eq!(
        disabled,
        vec![
            "input", "output", "object", "list", "field_access", "for_each", "validate_form", "create_record",
            "read_record", "update_record", "delete_record", "query_records", "navigate", "capability"
        ]
    );
    assert_eq!(options[0].label, "常量");
    let models = vec![model(2, "user", "用户", vec![field(3, "name", "名称")])];
    let options = function_node_kind_options(id(99), &f, &models, &[], &[], &no_capabilities());
    assert!(!options[3].disabled && !options[4].disabled && !options[12].disabled && !options[13].disabled);
}

#[test]
fn default_kinds_refer_to_the_first_candidate() {
    let f = function(1, vec![node(10, "self", FunctionNodeKind::Return, 0, 0), node(11, "other", FunctionNodeKind::Return, 0, 0)], vec![PortDefinition { id: id(20), name: "in".to_owned(), value_type: ValueType::Text }]);
    let models = vec![model(2, "empty", "空", Vec::new()), model(3, "user", "用户", vec![field(4, "name", "名称")])];
    let routes = vec![RouteDefinition { id: id(5), page_id: id(6), path: "/users".to_owned() }];
    let functions = vec![function(1, Vec::new(), Vec::new()), function(7, Vec::new(), Vec::new())];
    let caps = CapabilityCatalog { capabilities: vec![("mail".to_owned(), CapabilityDefinition { operations: vec!["send".to_owned()] })] };
    let kind = |key: &str| default_function_node_kind(key, id(10), &f, &models, &routes, &functions, &caps);
    assert!(matches!(kind("constant"), Ok(FunctionNodeKind::Constant { value: JsonValue::String(ref s), value_type: ValueType::Text }) if s.is_empty()));
    assert!(matches!(kind("input"), Ok(FunctionNodeKind::Input { port_id }) if port_id == id(20)));
    assert_eq!(kind("output").err(), Some("请先创建输出端口".to_owned()));
    assert!(matches!(kind("object"), Ok(FunctionNodeKind::Object { ref fields }) if *fields == vec![(id(4), id(11))]));
    assert!(matches!(kind("list"), Ok(FunctionNodeKind::List { ref items }) if *items == vec![id(11)]));
    assert!(matches!(kind("field_access"), Ok(FunctionNodeKind::FieldAccess { object, field_id }) if object == id(11) && field_id == id(4)));
    assert!(matches!(kind("compare"), Ok(FunctionNodeKind::Compare { operator: CompareOperator::Equal })));
    assert!(matches!(kind("math"), Ok(FunctionNodeKind::Math { operator: MathOperator::Add })));
    assert!(matches!(kind("for_each"), Ok(FunctionNodeKind::ForEach { max_items: 100, body_function_id }) if body_function_id == id(7)));
    assert!(matches!(kind("validate_form"), Ok(FunctionNodeKind::ValidateForm { ref rules }) if rules.len() == 1 && rules[0].field_id == id(4) && rules[0].message == "不能为空"));
    assert!(matches!(kind("create_record"), Ok(FunctionNodeKind::CreateRecord { model_id }) if model_id == id(2)));
    assert!(matches!(kind("query_records"), Ok(FunctionNodeKind::QueryRecords { model_id, limit: 100 }) if model_id == id(2)));
    assert!(matches!(kind("navigate"), Ok(FunctionNodeKind::Navigate { route_id }) if route_id == id(5)));
    assert!(matches!(kind("confirm"), Ok(FunctionNodeKind::Confirm { message: PropertyValue::Text(ref t) }) if t.is_empty()));
    assert!(matches!(kind("notify"), Ok(FunctionNodeKind::Notify { level: NotificationLevel::Info })));
    assert!(matches!(kind("fail"), Ok(FunctionNodeKind::Fail { ref code }) if code == "FUNCTION_FAILED"));
    assert!(matches!(kind("capability"), Ok(FunctionNodeKind::Capability { ref capability_id, ref operation }) if capability_id == "mail" && operation == "send"));
    assert_eq!(kind("bogus").err(), Some("未知函数节点类型".to_owned()));
}

#[test]
fn default_kinds_explain_what_is_missing() {
    let f = function(1, vec![node(10, "self", FunctionNodeKind::Return, 0, 0)], Vec::new());
    let kind = |key: &str, models: &[ModelDefinition]| default_function_node_kind(key, id(10), &f, models, &[], &[], &no_capabilities());
    let with_field = vec![model(3, "user", "用户", vec![field(4, "name", "名称")])];
    assert_eq!(kind("object", &[]).err(), Some("请先为模型创建字段".to_owned()));
    assert_eq!(kind("object", &with_field).err(), Some("请先创建可引用的函数节点".to_owned()));
    assert_eq!(kind("field_access", &[]).err(), Some("请先创建可引用的函数节点".to_owned()));
    assert_eq!(kind("list", &with_field).err(), Some("请先创建可引用的函数节点".to_owned()));
    assert_eq!(kind("input", &[]).err(), Some("请先创建输入端口".to_owned()));
    assert_eq!(kind("create_record", &[]).err(), Some("请先创建模型".to_owned()));
    assert_eq!(kind("navigate", &[]).err(), Some("请先创建路由".to_owned()));
    assert_eq!(kind("for_each", &[]).err(), Some("遍历节点需要另一个函数作为函数体".to_owned()));
    assert_eq!(kind("capability", &[]).err(), Some("暂无已注册能力".to_owned()));
    let idle = CapabilityCatalog { capabilities: vec![("mail".to_owned(), CapabilityDefinition { operations: Vec::new() })] };
    assert_eq!(default_function_node_kind("capability", id(10), &f, &[], &[], &[], &idle).err(), Some("暂无已注册能力".to_owned()));
}

#[test]
fn node_details() {
    let models = vec![model(3, "user", "用户", Vec::new())];
    let routes = vec![RouteDefinition { id: id(5), page_id: id(6), path: "/users".to_owned() }];
    let detail = |kind: FunctionNodeKind| function_node_detail(&kind, &models, &routes);
    assert_eq!(detail(FunctionNodeKind::Constant { value: JsonValue::Null, value_type: ValueType::Integer }), "整数");
    assert_eq!(detail(FunctionNodeKind::Object { fields: vec![(id(1), id(2)), (id(3), id(4))] }), "2 个字段");
    assert_eq!(detail(FunctionNodeKind::List { items: Vec::new() }), "0 个元素");
    assert_eq!(detail(FunctionNodeKind::ForEach { max_items: 100, body_function_id: id(1) }), "最多 100 项");
    assert_eq!(detail(FunctionNodeKind::Compare { operator: CompareOperator::GreaterOrEqual }), "GreaterOrEqual");
    assert_eq!(detail(FunctionNodeKind::Notify { level: NotificationLevel::Warning }), "Warning");
    assert_eq!(detail(FunctionNodeKind::ReadRecord { model_id: id(3) }), "用户");
    assert_eq!(detail(FunctionNodeKind::ReadRecord { model_id: id(4) }), "未知模型");
    assert_eq!(detail(FunctionNodeKind::Navigate { route_id: id(5) }), "/users");
    assert_eq!(detail(FunctionNodeKind::Navigate { route_id: id(6) }), "未知路由");
    assert_eq!(detail(FunctionNodeKind::Capability { capability_id: "mail".to_owned(), operation: "send".to_owned() }), "mail · send");
    assert_eq!(detail(FunctionNodeKind::Fail { code: "X".to_owned() }), "X");
}

#[test]
fn reference_and_field_choices() {
    let f = function(1, vec![node(0x0123_4567_89ab_cdef_0000_0000_0000_0001, "a", FunctionNodeKind::Return, 0, 0), node(10, "self", FunctionNodeKind::Condition, 0, 0)], Vec::new());
    let options = function_node_reference_options(&f, id(10));
    assert_eq!(options.len(), 1);
    assert_eq!(options[0].1, "a · 返回 · 01234567");
    let models = vec![model(3, "user", "用户", vec![field(4, "name", "名称"), field(5, "age", "年龄")]), model(6, "dept", "部门", vec![field(7, "title", "标题")])];
    let fields = function_field_options(&models);
    let labels: Vec<&str> = fields.iter().map(|(_, l)| l.as_str()).collect();
    assert_eq!(labels, vec!["用户 / 名称 · name", "用户 / 年龄 · age", "部门 / 标题 · title"]);
    let items = symbol_select_items(&fields);
    assert_eq!(items[0].value, "00000000-0000-0000-0000-000000000004");
    assert_eq!(items[2].label, "部门 / 标题 · title");
    let items = model_select_items(&models);
    assert_eq!(items[1].label, "部门 · dept");
    assert_eq!(items[1].value, "00000000-0000-0000-0000-000000000006");
}

#[test]
fn kind_keys_and_titles() {
    assert_eq!(function_node_kind_key(&FunctionNodeKind::Condition), "condition");
    assert_eq!(function_node_kind_title(&FunctionNodeKind::Condition), "条件");
    assert_eq!(function_node_kind_key(&FunctionNodeKind::FieldAccess { object: id(1), field_id: id(2) }), "field_access");
}

#[test]
fn validation_rule_kinds_round_trip() {
    for key in ["required", "min_length", "max_length", "minimum", "maximum", "pattern"] {
        assert_eq!(validation_rule_kind_key(&default_validation_rule_kind(key)), key);
    }
    assert!(matches!(default_validation_rule_kind("maximum"), ValidationRuleKind::Maximum { value: Decimal { bits } } if bits == 100.0f64.to_bits()));
    assert_eq!(ONE_HUNDRED_BITS, 100.0f64.to_bits());
    assert!(matches!(default_validation_rule_kind("min_length"), ValidationRuleKind::MinLength { value: 1 }));
    assert!(matches!(default_validation_rule_kind("other"), ValidationRuleKind::Required));
    let options = validation_rule_kind_options("pattern");
    assert_eq!(options.len(), 6);
    assert!(options[5].selected && !options[0].selected);
}

#[test]
fn validation_rule_edits() {
    let mut n = node(1, "check", FunctionNodeKind::ValidateForm { rules: vec![ValidationRule { field_id: id(2), rule: ValidationRuleKind::Required, message: "m".to_owned() }] }, 3, 4);
    add_validation_rule(&mut n, id(5));
    set_validation_rule_field(&mut n, 0, id(6));
    update_validation_rule_kind(&mut n, 1, ValidationRuleKind::MaxLength { value: 9 });
    set_validation_rule_message(&mut n, 1, "too long".to_owned());
    set_validation_rule_message(&mut n, 7, "ignored".to_owned());
    match &n.kind {
        FunctionNodeKind::ValidateForm { rules } => {
            assert_eq!(rules.len(), 2);
            assert_eq!(rules[0].field_id, id(6));
            assert_eq!(rules[1].field_id, id(5));
            assert!(matches!(rules[1].rule, ValidationRuleKind::MaxLength { value: 9 }));
            assert_eq!(rules[1].message, "too long");
        }
        _ => panic!("still a validation node"),
    }
    remove_validation_rule(&mut n, 0);
    remove_validation_rule(&mut n, 0);
    match &n.kind {
        FunctionNodeKind::ValidateForm { rules } => {
            assert_eq!(rules.len(), 1);
            assert_eq!(rules[0].field_id, id(5));
        }
        _ => panic!("still a validation node"),
    }
    assert_eq!(n.editor, FunctionNodeEditor { x: 3, y: 4 });
    let mut other = node(2, "r", FunctionNodeKind::Return, 0, 0);
    add_validation_rule(&mut other, id(1));
    assert!(matches!(other.kind, FunctionNodeKind::Return));
}
