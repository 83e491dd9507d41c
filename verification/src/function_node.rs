//! Nodes of a function graph in the designer: finding them, naming them, the kinds offered for a
//! new node and the kind a node starts with.

use vstd::prelude::*;
use crate::symbol::SymbolId;
use crate::text::{text_eq, decimal_seq, decimal_text};
use crate::symbol::symbol_text;
use crate::value_type::{value_type_label, value_type_label_spec};
use crate::function_graph::{function_node_kind_title, function_node_kind_title_spec, function_node_kind_key_spec};
use vstd::string::StrSliceExecFns;
use vstd::string::StringExecFns;
use crate::definition::{
    FunctionNode, FunctionNodeKind, FunctionNodeKindView, FunctionNodeEditor, FunctionDefinition, ModelDefinition,
    RouteDefinition, CapabilityCatalog, catalog_wf, ValidationRule, ValidationRuleKind, ValidationRuleView,
    ValidationRuleKindView, PropertyValue,
};
use crate::options::{SelectOption, SelectOptionView, option_view, options_view, push_option};
use crate::json::{JsonValue, JsonView};
use crate::value_type::ValueType;
use crate::operators::{CompareOperator, BooleanOperator, MathOperator, NotificationLevel};

verus! {

/// The first position at or after `i` of a node with identifier `id`.
pub open spec fn find_node_from(nodes: Seq<FunctionNode>, id: SymbolId, i: int) -> Option<int>
    decreases nodes.len() - i,
{
    if i < 0 || i >= nodes.len() {
        None
    } else if nodes[i].id == id {
        Some(i)
    } else {
        find_node_from(nodes, id, i + 1)
    }
}

/// The name shown for a node: that of the first node with the identifier, or "未知节点".
pub open spec fn function_node_name_spec(nodes: Seq<FunctionNode>, id: SymbolId) -> Seq<char> {
    match find_node_from(nodes, id, 0) {
        Some(i) => nodes[i].name@,
        None => "未知节点"@,
    }
}

/// The name of the node with identifier `node_id`.
pub fn function_node_name(nodes: &[FunctionNode], node_id: SymbolId) -> (name: &str)
    ensures
        name@ == function_node_name_spec(nodes@, node_id),
{
    let mut i: usize = 0;
    while i < nodes.len()
        invariant
            i <= nodes.len(),
            find_node_from(nodes@, node_id, 0) == find_node_from(nodes@, node_id, i as int),
        decreases nodes.len() - i,
    {
        if nodes[i].id == node_id {
            return nodes[i].name.as_str();
        }
        i = i + 1;
    }
    "未知节点"
}

pub open spec fn function_record_node_kind_spec(key: Seq<char>, model_id: SymbolId) -> FunctionNodeKindView {
    if key == "create_record"@ {
        FunctionNodeKindView::CreateRecord { model_id }
    } else if key == "read_record"@ {
        FunctionNodeKindView::ReadRecord { model_id }
    } else if key == "update_record"@ {
        FunctionNodeKindView::UpdateRecord { model_id }
    } else {
        FunctionNodeKindView::DeleteRecord { model_id }
    }
}

/// The record node of the kind named by `key` on model `model_id`; any other key deletes.
pub fn function_record_node_kind(key: &str, model_id: SymbolId) -> (kind: FunctionNodeKind)
    ensures
        kind@ == function_record_node_kind_spec(key@, model_id),
{
    if text_eq(key, "create_record") {
        FunctionNodeKind::CreateRecord { model_id }
    } else if text_eq(key, "read_record") {
        FunctionNodeKind::ReadRecord { model_id }
    } else if text_eq(key, "update_record") {
        FunctionNodeKind::UpdateRecord { model_id }
    } else {
        FunctionNodeKind::DeleteRecord { model_id }
    }
}

/// The port that the port editor creates or edits.
#[derive(Clone, Copy, Debug, PartialEq, Eq, Structural)]
pub enum FunctionPortEditorTarget {
    CreateInput,
    CreateOutput,
    EditInput(SymbolId),
    EditOutput(SymbolId),
}

impl FunctionPortEditorTarget {
    /// Whether the target is an input port.
    pub fn is_input(self) -> (input: bool)
        ensures
            input == (self is CreateInput || self is EditInput),
    {
        matches!(self, FunctionPortEditorTarget::CreateInput | FunctionPortEditorTarget::EditInput(_))
    }

    /// The port edited, if the target is an existing port.
    pub fn port_id(self) -> (id: Option<SymbolId>)
        ensures
            id == (match self {
                FunctionPortEditorTarget::EditInput(p) => Some(p),
                FunctionPortEditorTarget::EditOutput(p) => Some(p),
                _ => None::<SymbolId>,
            }),
    {
        match self {
            FunctionPortEditorTarget::EditInput(port_id) => Some(port_id),
            FunctionPortEditorTarget::EditOutput(port_id) => Some(port_id),
            FunctionPortEditorTarget::CreateInput => None,
            FunctionPortEditorTarget::CreateOutput => None,
        }
    }
}

/// Whether a port row is an input or an output.
#[derive(Clone, Copy, Debug, PartialEq, Eq, Structural)]
pub enum FunctionPortDirection {
    Input,
    Output,
}

impl FunctionPortDirection {
    /// The label of the direction.
    pub fn label(self) -> (label: &'static str)
        ensures
            label@ == (match self {
                FunctionPortDirection::Input => "输入"@,
                FunctionPortDirection::Output => "输出"@,
            }),
    {
        match self {
            FunctionPortDirection::Input => "输入",
            FunctionPortDirection::Output => "输出",
        }
    }
}

/// The furthest a node can be dragged from the origin on either axis.
pub const CANVAS_LIMIT: i32 = 10_000;

pub open spec fn saturate_i32(v: int) -> int {
    if v > i32::MAX {
        i32::MAX as int
    } else if v < i32::MIN {
        i32::MIN as int
    } else {
        v
    }
}

pub open spec fn clamp_to_canvas(v: int) -> int {
    if v < 0 {
        0
    } else if v > CANVAS_LIMIT {
        CANVAS_LIMIT as int
    } else {
        v
    }
}

/// Moves a coordinate by `delta`, saturating at the bounds of `i32`, then keeps it on the
/// canvas.
fn dragged_coordinate(start: i32, delta: i32) -> (moved: i32)
    ensures
        moved == clamp_to_canvas(saturate_i32(start + delta)),
{
    let sum: i64 = start as i64 + delta as i64;
    if sum < 0 {
        0
    } else if sum > CANVAS_LIMIT as i64 {
        CANVAS_LIMIT
    } else {
        sum as i32
    }
}

/// Where a dragged node lands: its position when the drag started moved by the pointer's
/// travel, already rounded to whole units, each coordinate kept between 0 and 10 000.
pub fn dragged_function_node_editor(start: FunctionNodeEditor, delta_x: i32, delta_y: i32) -> (editor: FunctionNodeEditor)
    ensures
        editor.x == clamp_to_canvas(saturate_i32(start.x + delta_x)),
        editor.y == clamp_to_canvas(saturate_i32(start.y + delta_y)),
{
    FunctionNodeEditor { x: dragged_coordinate(start.x, delta_x), y: dragged_coordinate(start.y, delta_y) }
}

/// The first node at or after `i` other than `current`.
pub open spec fn first_other_node_from(nodes: Seq<FunctionNode>, current: SymbolId, i: int) -> Option<SymbolId>
    decreases nodes.len() - i,
{
    if i < 0 || i >= nodes.len() {
        None
    } else if nodes[i].id != current {
        Some(nodes[i].id)
    } else {
        first_other_node_from(nodes, current, i + 1)
    }
}

/// The first field, in model order, of the models at or after `i`.
pub open spec fn first_field_from(models: Seq<ModelDefinition>, i: int) -> Option<SymbolId>
    decreases models.len() - i,
{
    if i < 0 || i >= models.len() {
        None
    } else if models[i].fields.len() > 0 {
        Some(models[i].fields[0].id)
    } else {
        first_field_from(models, i + 1)
    }
}

/// The first function at or after `i` other than `current`.
pub open spec fn first_other_function_from(functions: Seq<FunctionDefinition>, current: SymbolId, i: int) -> Option<SymbolId>
    decreases functions.len() - i,
{
    if i < 0 || i >= functions.len() {
        None
    } else if functions[i].id != current {
        Some(functions[i].id)
    } else {
        first_other_function_from(functions, current, i + 1)
    }
}

fn first_other_node(nodes: &Vec<FunctionNode>, current: SymbolId) -> (id: Option<SymbolId>)
    ensures
        id == first_other_node_from(nodes@, current, 0),
{
    let mut i: usize = 0;
    while i < nodes.len()
        invariant
            i <= nodes.len(),
            first_other_node_from(nodes@, current, 0) == first_other_node_from(nodes@, current, i as int),
        decreases nodes.len() - i,
    {
        if nodes[i].id != current {
            return Some(nodes[i].id);
        }
        i = i + 1;
    }
    None
}

fn first_field(models: &[ModelDefinition]) -> (id: Option<SymbolId>)
    ensures
        id == first_field_from(models@, 0),
{
    let mut i: usize = 0;
    while i < models.len()
        invariant
            i <= models.len(),
            first_field_from(models@, 0) == first_field_from(models@, i as int),
        decreases models.len() - i,
    {
        if models[i].fields.len() > 0 {
            return Some(models[i].fields[0].id);
        }
        i = i + 1;
    }
    None
}

fn first_other_function(functions: &[FunctionDefinition], current: SymbolId) -> (id: Option<SymbolId>)
    ensures
        id == first_other_function_from(functions@, current, 0),
{
    let mut i: usize = 0;
    while i < functions.len()
        invariant
            i <= functions.len(),
            first_other_function_from(functions@, current, 0) == first_other_function_from(functions@, current, i as int),
        decreases functions.len() - i,
    {
        if functions[i].id != current {
            return Some(functions[i].id);
        }
        i = i + 1;
    }
    None
}

/// Whether some model has a field.
pub open spec fn has_model_fields(models: Seq<ModelDefinition>) -> bool {
    exists|i: int| 0 <= i < models.len() && #[trigger] models[i].fields.len() > 0
}

proof fn lemma_first_field_from(models: Seq<ModelDefinition>, i: int)
    requires
        0 <= i <= models.len(),
    ensures
        first_field_from(models, i) is Some <==> exists|j: int| i <= j < models.len() && #[trigger] models[j].fields.len() > 0,
    decreases models.len() - i,
{
    if i < models.len() {
        lemma_first_field_from(models, i + 1);
        if models[i].fields.len() == 0 {
            if exists|j: int| i <= j < models.len() && #[trigger] models[j].fields.len() > 0 {
                let j = choose|j: int| i <= j < models.len() && #[trigger] models[j].fields.len() > 0;
                assert(i + 1 <= j);
            }
        }
    }
}

proof fn lemma_first_other_node_from(nodes: Seq<FunctionNode>, current: SymbolId, i: int)
    requires
        0 <= i <= nodes.len(),
    ensures
        first_other_node_from(nodes, current, i) is Some <==> exists|j: int| i <= j < nodes.len() && #[trigger] nodes[j].id != current,
    decreases nodes.len() - i,
{
    if i < nodes.len() {
        lemma_first_other_node_from(nodes, current, i + 1);
        if nodes[i].id == current {
            if exists|j: int| i <= j < nodes.len() && #[trigger] nodes[j].id != current {
                let j = choose|j: int| i <= j < nodes.len() && #[trigger] nodes[j].id != current;
                assert(i + 1 <= j);
            }
        }
    }
}

proof fn lemma_first_other_function_from(functions: Seq<FunctionDefinition>, current: SymbolId, i: int)
    requires
        0 <= i <= functions.len(),
    ensures
        first_other_function_from(functions, current, i) is Some <==> exists|j: int|
            i <= j < functions.len() && #[trigger] functions[j].id != current,
    decreases functions.len() - i,
{
    if i < functions.len() {
        lemma_first_other_function_from(functions, current, i + 1);
        if functions[i].id == current {
            if exists|j: int| i <= j < functions.len() && #[trigger] functions[j].id != current {
                let j = choose|j: int| i <= j < functions.len() && #[trigger] functions[j].id != current;
                assert(i + 1 <= j);
            }
        }
    }
}

/// The kinds offered for a node, each disabled when the function, models, routes, functions
/// or capabilities give it nothing to refer to.
pub open spec fn function_node_kind_options_spec(
    current_node_id: SymbolId,
    function: FunctionDefinition,
    models: Seq<ModelDefinition>,
    routes: Seq<RouteDefinition>,
    functions: Seq<FunctionDefinition>,
    capabilities: CapabilityCatalog,
) -> Seq<SelectOptionView> {
    let no_inputs = function.inputs.len() == 0;
    let no_outputs = function.outputs.len() == 0;
    let no_models = models.len() == 0;
    let no_routes = routes.len() == 0;
    let no_body = !exists|j: int| 0 <= j < functions.len() && #[trigger] functions[j].id != function.id;
    let no_reference = !exists|j: int| 0 <= j < function.nodes.len() && #[trigger] function.nodes@[j].id != current_node_id;
    let no_fields = !has_model_fields(models);
    seq![
        option_view("constant"@, "常量"@, false, false),
        option_view("input"@, "函数输入"@, false, no_inputs),
        option_view("output"@, "函数输出"@, false, no_outputs),
        option_view("object"@, "对象"@, false, no_reference || no_fields),
        option_view("list"@, "列表"@, false, no_reference),
        option_view("field_access"@, "字段读取"@, false, no_reference || no_fields),
        option_view("format"@, "格式化"@, false, false),
        option_view("compare"@, "比较"@, false, false),
        option_view("boolean"@, "布尔运算"@, false, false),
        option_view("math"@, "数学运算"@, false, false),
        option_view("condition"@, "条件分支"@, false, false),
        option_view("for_each"@, "遍历调用"@, false, no_body),
        option_view("validate_form"@, "表单校验"@, false, no_fields),
        option_view("create_record"@, "新增记录"@, false, no_models),
        option_view("read_record"@, "读取记录"@, false, no_models),
        option_view("update_record"@, "更新记录"@, false, no_models),
        option_view("delete_record"@, "删除记录"@, false, no_models),
        option_view("query_records"@, "查询记录"@, false, no_models),
        option_view("navigate"@, "页面跳转"@, false, no_routes),
        option_view("confirm"@, "确认"@, false, false),
        option_view("notify"@, "通知"@, false, false),
        option_view("return"@, "返回"@, false, false),
        option_view("fail"@, "失败"@, false, false),
        option_view("capability"@, "能力调用"@, false, capabilities.capabilities.len() == 0),
    ]
}

/// The node kinds that the node editor offers.
#[verifier::rlimit(60)]
pub fn function_node_kind_options(
    current_node_id: SymbolId,
    function: &FunctionDefinition,
    models: &[ModelDefinition],
    routes: &[RouteDefinition],
    functions: &[FunctionDefinition],
    capabilities: &CapabilityCatalog,
) -> (options: Vec<SelectOption>)
    ensures
        options_view(options@) == function_node_kind_options_spec(
            current_node_id,
            *function,
            models@,
            routes@,
            functions@,
            *capabilities,
        ),
{
    let no_inputs = function.inputs.len() == 0;
    let no_outputs = function.outputs.len() == 0;
    let no_models = models.len() == 0;
    let no_routes = routes.len() == 0;
    let no_body = first_other_function(functions, function.id).is_none();
    let no_reference = first_other_node(&function.nodes, current_node_id).is_none();
    let no_fields = first_field(models).is_none();
    proof {
        lemma_first_other_function_from(functions@, function.id, 0);
        lemma_first_other_node_from(function.nodes@, current_node_id, 0);
        lemma_first_field_from(models@, 0);
    }
    let no_capabilities = capabilities.capabilities.len() == 0;
    let mut options: Vec<SelectOption> = Vec::new();
    push_option(&mut options, "constant", "常量", false, false);
    push_option(&mut options, "input", "函数输入", false, no_inputs);
    push_option(&mut options, "output", "函数输出", false, no_outputs);
    push_option(&mut options, "object", "对象", false, no_reference || no_fields);
    push_option(&mut options, "list", "列表", false, no_reference);
    push_option(&mut options, "field_access", "字段读取", false, no_reference || no_fields);
    push_option(&mut options, "format", "格式化", false, false);
    push_option(&mut options, "compare", "比较", false, false);
    push_option(&mut options, "boolean", "布尔运算", false, false);
    push_option(&mut options, "math", "数学运算", false, false);
    push_option(&mut options, "condition", "条件分支", false, false);
    push_option(&mut options, "for_each", "遍历调用", false, no_body);
    push_option(&mut options, "validate_form", "表单校验", false, no_fields);
    push_option(&mut options, "create_record", "新增记录", false, no_models);
    push_option(&mut options, "read_record", "读取记录", false, no_models);
    push_option(&mut options, "update_record", "更新记录", false, no_models);
    push_option(&mut options, "delete_record", "删除记录", false, no_models);
    push_option(&mut options, "query_records", "查询记录", false, no_models);
    push_option(&mut options, "navigate", "页面跳转", false, no_routes);
    push_option(&mut options, "confirm", "确认", false, false);
    push_option(&mut options, "notify", "通知", false, false);
    push_option(&mut options, "return", "返回", false, false);
    push_option(&mut options, "fail", "失败", false, false);
    push_option(&mut options, "capability", "能力调用", false, no_capabilities);
    assert(options_view(options@) =~= function_node_kind_options_spec(
        current_node_id,
        *function,
        models@,
        routes@,
        functions@,
        *capabilities,
    ));
    options
}

pub open spec fn kind_result_view(r: Result<FunctionNodeKind, String>) -> Result<FunctionNodeKindView, Seq<char>> {
    match r {
        Ok(kind) => Ok(kind@),
        Err(e) => Err(e@),
    }
}

/// What a new node of kind `key` starts as, or why it cannot be made: nodes that refer to a
/// port, node, field, model, route, function or capability take the first one there is.
pub open spec fn default_function_node_kind_spec(
    key: Seq<char>,
    current_node_id: SymbolId,
    function: FunctionDefinition,
    models: Seq<ModelDefinition>,
    routes: Seq<RouteDefinition>,
    functions: Seq<FunctionDefinition>,
    capabilities: CapabilityCatalog,
) -> Result<FunctionNodeKindView, Seq<char>> {
    let first_model = if models.len() > 0 { Some(models[0].id) } else { None };
    let first_reference = first_other_node_from(function.nodes@, current_node_id, 0);
    let first_field = first_field_from(models, 0);
    let no_model = "请先创建模型"@;
    let no_reference = "请先创建可引用的函数节点"@;
    let no_field = "请先为模型创建字段"@;
    let record = |make: spec_fn(SymbolId) -> FunctionNodeKindView|
        match first_model {
            Some(m) => Ok(make(m)),
            None => Err(no_model),
        };
    if key == "constant"@ {
        Ok(FunctionNodeKindView::Constant { value: JsonView::String(Seq::empty()), value_type: ValueType::Text })
    } else if key == "input"@ {
        if function.inputs.len() > 0 {
            Ok(FunctionNodeKindView::Input { port_id: function.inputs@[0].id })
        } else {
            Err("请先创建输入端口"@)
        }
    } else if key == "output"@ {
        if function.outputs.len() > 0 {
            Ok(FunctionNodeKindView::Output { port_id: function.outputs@[0].id })
        } else {
            Err("请先创建输出端口"@)
        }
    } else if key == "object"@ {
        match first_field {
            None => Err(no_field),
            Some(f) => match first_reference {
                None => Err(no_reference),
                Some(n) => Ok(FunctionNodeKindView::Object { fields: seq![(f, n)] }),
            },
        }
    } else if key == "list"@ {
        match first_reference {
            None => Err(no_reference),
            Some(n) => Ok(FunctionNodeKindView::List { items: seq![n] }),
        }
    } else if key == "field_access"@ {
        match first_reference {
            None => Err(no_reference),
            Some(n) => match first_field {
                None => Err(no_field),
                Some(f) => Ok(FunctionNodeKindView::FieldAccess { object: n, field_id: f }),
            },
        }
    } else if key == "format"@ {
        Ok(FunctionNodeKindView::Format { template: Seq::empty(), values: Seq::empty() })
    } else if key == "compare"@ {
        Ok(FunctionNodeKindView::Compare { operator: CompareOperator::Equal })
    } else if key == "boolean"@ {
        Ok(FunctionNodeKindView::Boolean { operator: BooleanOperator::And })
    } else if key == "math"@ {
        Ok(FunctionNodeKindView::Math { operator: MathOperator::Add })
    } else if key == "condition"@ {
        Ok(FunctionNodeKindView::Condition)
    } else if key == "for_each"@ {
        match first_other_function_from(functions, function.id, 0) {
            Some(b) => Ok(FunctionNodeKindView::ForEach { max_items: 100, body_function_id: b }),
            None => Err("遍历节点需要另一个函数作为函数体"@),
        }
    } else if key == "validate_form"@ {
        match first_field {
            Some(f) => Ok(FunctionNodeKindView::ValidateForm {
                rules: seq![ValidationRuleView { field_id: f, rule: ValidationRuleKindView::Required, message: "不能为空"@ }],
            }),
            None => Err(no_field),
        }
    } else if key == "create_record"@ {
        record(|m: SymbolId| FunctionNodeKindView::CreateRecord { model_id: m })
    } else if key == "read_record"@ {
        record(|m: SymbolId| FunctionNodeKindView::ReadRecord { model_id: m })
    } else if key == "update_record"@ {
        record(|m: SymbolId| FunctionNodeKindView::UpdateRecord { model_id: m })
    } else if key == "delete_record"@ {
        record(|m: SymbolId| FunctionNodeKindView::DeleteRecord { model_id: m })
    } else if key == "query_records"@ {
        record(|m: SymbolId| FunctionNodeKindView::QueryRecords { model_id: m, limit: 100 })
    } else if key == "navigate"@ {
        if routes.len() > 0 {
            Ok(FunctionNodeKindView::Navigate { route_id: routes[0].id })
        } else {
            Err("请先创建路由"@)
        }
    } else if key == "confirm"@ {
        Ok(FunctionNodeKindView::Confirm { message: Seq::empty() })
    } else if key == "notify"@ {
        Ok(FunctionNodeKindView::Notify { level: NotificationLevel::Info })
    } else if key == "return"@ {
        Ok(FunctionNodeKindView::Return)
    } else if key == "fail"@ {
        Ok(FunctionNodeKindView::Fail { code: "FUNCTION_FAILED"@ })
    } else if key == "capability"@ {
        let cs = capabilities.capabilities@;
        if cs.len() > 0 && cs[0].1.operations.len() > 0 {
            Ok(FunctionNodeKindView::Capability { capability_id: cs[0].0@, operation: cs[0].1.operations@[0]@ })
        } else {
            Err("暂无已注册能力"@)
        }
    } else {
        Err("未知函数节点类型"@)
    }
}

fn record_node(key: &str, models: &[ModelDefinition]) -> (r: Result<FunctionNodeKind, String>)
    requires
        key@ == "create_record"@ || key@ == "read_record"@ || key@ == "update_record"@ || key@ == "delete_record"@,
    ensures
        models@.len() > 0 ==> kind_result_view(r) == Ok::<FunctionNodeKindView, Seq<char>>(
            function_record_node_kind_spec(key@, models@[0].id),
        ),
        models@.len() == 0 ==> kind_result_view(r) == Err::<FunctionNodeKindView, Seq<char>>("请先创建模型"@),
{
    if models.len() > 0 {
        Ok(function_record_node_kind(key, models[0].id))
    } else {
        Err("请先创建模型".to_owned())
    }
}

/// The kind a new node of kind `key` starts with, or the message shown when the definitions
/// give it nothing to refer to or the key is unknown.
#[verifier::rlimit(80)]
pub fn default_function_node_kind(
    key: &str,
    current_node_id: SymbolId,
    function: &FunctionDefinition,
    models: &[ModelDefinition],
    routes: &[RouteDefinition],
    functions: &[FunctionDefinition],
    capabilities: &CapabilityCatalog,
) -> (r: Result<FunctionNodeKind, String>)
    requires
        catalog_wf(*capabilities),
    ensures
        kind_result_view(r) == default_function_node_kind_spec(
            key@,
            current_node_id,
            *function,
            models@,
            routes@,
            functions@,
            *capabilities,
        ),
{
    let no_reference = "请先创建可引用的函数节点";
    let no_field = "请先为模型创建字段";
    if text_eq(key, "constant") {
        Ok(FunctionNodeKind::Constant { value: JsonValue::String(String::new()), value_type: ValueType::Text })
    } else if text_eq(key, "input") {
        if function.inputs.len() > 0 {
            Ok(FunctionNodeKind::Input { port_id: function.inputs[0].id })
        } else {
            Err("请先创建输入端口".to_owned())
        }
    } else if text_eq(key, "output") {
        if function.outputs.len() > 0 {
            Ok(FunctionNodeKind::Output { port_id: function.outputs[0].id })
        } else {
            Err("请先创建输出端口".to_owned())
        }
    } else if text_eq(key, "object") {
        match first_field(models) {
            None => Err(no_field.to_owned()),
            Some(f) => match first_other_node(&function.nodes, current_node_id) {
                None => Err(no_reference.to_owned()),
                Some(n) => {
                    let fields = vec![(f, n)];
                    assert(fields@ =~= seq![(f, n)]);
                    Ok(FunctionNodeKind::Object { fields })
                },
            },
        }
    } else if text_eq(key, "list") {
        match first_other_node(&function.nodes, current_node_id) {
            None => Err(no_reference.to_owned()),
            Some(n) => {
                let items = vec![n];
                assert(items@ =~= seq![n]);
                Ok(FunctionNodeKind::List { items })
            },
        }
    } else if text_eq(key, "field_access") {
        match first_other_node(&function.nodes, current_node_id) {
            None => Err(no_reference.to_owned()),
            Some(n) => match first_field(models) {
                None => Err(no_field.to_owned()),
                Some(f) => Ok(FunctionNodeKind::FieldAccess { object: n, field_id: f }),
            },
        }
    } else if text_eq(key, "format") {
        let values: Vec<SymbolId> = Vec::new();
        assert(values@ =~= Seq::<SymbolId>::empty());
        Ok(FunctionNodeKind::Format { template: String::new(), values })
    } else if text_eq(key, "compare") {
        Ok(FunctionNodeKind::Compare { operator: CompareOperator::Equal })
    } else if text_eq(key, "boolean") {
        Ok(FunctionNodeKind::Boolean { operator: BooleanOperator::And })
    } else if text_eq(key, "math") {
        Ok(FunctionNodeKind::Math { operator: MathOperator::Add })
    } else if text_eq(key, "condition") {
        Ok(FunctionNodeKind::Condition)
    } else if text_eq(key, "for_each") {
        match first_other_function(functions, function.id) {
            Some(b) => Ok(FunctionNodeKind::ForEach { max_items: 100, body_function_id: b }),
            None => Err("遍历节点需要另一个函数作为函数体".to_owned()),
        }
    } else if text_eq(key, "validate_form") {
        match first_field(models) {
            Some(f) => {
                let rules = vec![ValidationRule { field_id: f, rule: ValidationRuleKind::Required, message: "不能为空".to_owned() }];
                assert(crate::definition::rules_view(rules@) =~= seq![
                    ValidationRuleView { field_id: f, rule: ValidationRuleKindView::Required, message: "不能为空"@ },
                ]);
                Ok(FunctionNodeKind::ValidateForm { rules })
            },
            None => Err(no_field.to_owned()),
        }
    } else if text_eq(key, "create_record") || text_eq(key, "read_record") || text_eq(key, "update_record")
        || text_eq(key, "delete_record") {
        record_node(key, models)
    } else if text_eq(key, "query_records") {
        if models.len() > 0 {
            Ok(FunctionNodeKind::QueryRecords { model_id: models[0].id, limit: 100 })
        } else {
            Err("请先创建模型".to_owned())
        }
    } else if text_eq(key, "navigate") {
        if routes.len() > 0 {
            Ok(FunctionNodeKind::Navigate { route_id: routes[0].id })
        } else {
            Err("请先创建路由".to_owned())
        }
    } else if text_eq(key, "confirm") {
        Ok(FunctionNodeKind::Confirm { message: PropertyValue::Text(String::new()) })
    } else if text_eq(key, "notify") {
        Ok(FunctionNodeKind::Notify { level: NotificationLevel::Info })
    } else if text_eq(key, "return") {
        Ok(FunctionNodeKind::Return)
    } else if text_eq(key, "fail") {
        Ok(FunctionNodeKind::Fail { code: "FUNCTION_FAILED".to_owned() })
    } else if text_eq(key, "capability") {
        let cs = &capabilities.capabilities;
        if cs.len() > 0 && cs[0].1.operations.len() > 0 {
            Ok(FunctionNodeKind::Capability { capability_id: cs[0].0.clone(), operation: cs[0].1.operations[0].clone() })
        } else {
            Err("暂无已注册能力".to_owned())
        }
    } else {
        Err("未知函数节点类型".to_owned())
    }
}

/// The name of an operator as the designer prints it: the name of its variant.
pub open spec fn compare_operator_name(operator: CompareOperator) -> Seq<char> {
    match operator {
        CompareOperator::Equal => "Equal"@,
        CompareOperator::NotEqual => "NotEqual"@,
        CompareOperator::Greater => "Greater"@,
        CompareOperator::GreaterOrEqual => "GreaterOrEqual"@,
        CompareOperator::Less => "Less"@,
        CompareOperator::LessOrEqual => "LessOrEqual"@,
        CompareOperator::Contains => "Contains"@,
    }
}

pub open spec fn boolean_operator_name(operator: BooleanOperator) -> Seq<char> {
    match operator {
        BooleanOperator::And => "And"@,
        BooleanOperator::Or => "Or"@,
        BooleanOperator::Not => "Not"@,
    }
}

pub open spec fn math_operator_name(operator: MathOperator) -> Seq<char> {
    match operator {
        MathOperator::Add => "Add"@,
        MathOperator::Subtract => "Subtract"@,
        MathOperator::Multiply => "Multiply"@,
        MathOperator::Divide => "Divide"@,
        MathOperator::Remainder => "Remainder"@,
    }
}

pub open spec fn notification_level_name(level: NotificationLevel) -> Seq<char> {
    match level {
        NotificationLevel::Info => "Info"@,
        NotificationLevel::Success => "Success"@,
        NotificationLevel::Warning => "Warning"@,
        NotificationLevel::Error => "Error"@,
    }
}

fn compare_name(operator: CompareOperator) -> (name: &'static str)
    ensures
        name@ == compare_operator_name(operator),
{
    match operator {
        CompareOperator::Equal => "Equal",
        CompareOperator::NotEqual => "NotEqual",
        CompareOperator::Greater => "Greater",
        CompareOperator::GreaterOrEqual => "GreaterOrEqual",
        CompareOperator::Less => "Less",
        CompareOperator::LessOrEqual => "LessOrEqual",
        CompareOperator::Contains => "Contains",
    }
}

fn boolean_name(operator: BooleanOperator) -> (name: &'static str)
    ensures
        name@ == boolean_operator_name(operator),
{
    match operator {
        BooleanOperator::And => "And",
        BooleanOperator::Or => "Or",
        BooleanOperator::Not => "Not",
    }
}

fn math_name(operator: MathOperator) -> (name: &'static str)
    ensures
        name@ == math_operator_name(operator),
{
    match operator {
        MathOperator::Add => "Add",
        MathOperator::Subtract => "Subtract",
        MathOperator::Multiply => "Multiply",
        MathOperator::Divide => "Divide",
        MathOperator::Remainder => "Remainder",
    }
}

fn level_name(level: NotificationLevel) -> (name: &'static str)
    ensures
        name@ == notification_level_name(level),
{
    match level {
        NotificationLevel::Info => "Info",
        NotificationLevel::Success => "Success",
        NotificationLevel::Warning => "Warning",
        NotificationLevel::Error => "Error",
    }
}

/// The first position at or after `i` of a model with identifier `id`.
pub open spec fn find_model_from(models: Seq<ModelDefinition>, id: SymbolId, i: int) -> Option<int>
    decreases models.len() - i,
{
    if i < 0 || i >= models.len() {
        None
    } else if models[i].id == id {
        Some(i)
    } else {
        find_model_from(models, id, i + 1)
    }
}

/// The first position at or after `i` of a route with identifier `id`.
pub open spec fn find_route_from(routes: Seq<RouteDefinition>, id: SymbolId, i: int) -> Option<int>
    decreases routes.len() - i,
{
    if i < 0 || i >= routes.len() {
        None
    } else if routes[i].id == id {
        Some(i)
    } else {
        find_route_from(routes, id, i + 1)
    }
}

pub open spec fn model_title_spec(models: Seq<ModelDefinition>, id: SymbolId) -> Seq<char> {
    match find_model_from(models, id, 0) {
        Some(i) => models[i].title@,
        None => "未知模型"@,
    }
}

pub open spec fn route_path_spec(routes: Seq<RouteDefinition>, id: SymbolId) -> Seq<char> {
    match find_route_from(routes, id, 0) {
        Some(i) => routes[i].path@,
        None => "未知路由"@,
    }
}

fn model_title(models: &[ModelDefinition], id: SymbolId) -> (title: String)
    ensures
        title@ == model_title_spec(models@, id),
{
    let mut i: usize = 0;
    while i < models.len()
        invariant
            i <= models.len(),
            find_model_from(models@, id, 0) == find_model_from(models@, id, i as int),
        decreases models.len() - i,
    {
        if models[i].id == id {
            return models[i].title.clone();
        }
        i = i + 1;
    }
    "未知模型".to_owned()
}

fn route_path(routes: &[RouteDefinition], id: SymbolId) -> (path: String)
    ensures
        path@ == route_path_spec(routes@, id),
{
    let mut i: usize = 0;
    while i < routes.len()
        invariant
            i <= routes.len(),
            find_route_from(routes@, id, 0) == find_route_from(routes@, id, i as int),
        decreases routes.len() - i,
    {
        if routes[i].id == id {
            return routes[i].path.clone();
        }
        i = i + 1;
    }
    "未知路由".to_owned()
}

/// The decimal digits of `n`, then `after`.
fn counted(n: usize, after: &str) -> (text: String)
    ensures
        text@ == decimal_seq(n as nat) + after@,
{
    let mut text = decimal_text(n as u128);
    text.append(after);
    text
}

/// The detail shown for a node in the node table.
pub open spec fn function_node_detail_spec(
    kind: FunctionNodeKindView,
    models: Seq<ModelDefinition>,
    routes: Seq<RouteDefinition>,
) -> Seq<char> {
    match kind {
        FunctionNodeKindView::Constant { value_type, .. } => value_type_label_spec(value_type),
        FunctionNodeKindView::Input { .. } => "函数端口"@,
        FunctionNodeKindView::Output { .. } => "函数端口"@,
        FunctionNodeKindView::Object { fields } => decimal_seq(fields.len()) + " 个字段"@,
        FunctionNodeKindView::List { items } => decimal_seq(items.len()) + " 个元素"@,
        FunctionNodeKindView::FieldAccess { .. } => "读取对象字段"@,
        FunctionNodeKindView::Format { template, .. } => template,
        FunctionNodeKindView::Compare { operator } => compare_operator_name(operator),
        FunctionNodeKindView::Boolean { operator } => boolean_operator_name(operator),
        FunctionNodeKindView::Math { operator } => math_operator_name(operator),
        FunctionNodeKindView::Condition => "条件分支"@,
        FunctionNodeKindView::ForEach { max_items, .. } => "最多 "@ + decimal_seq(max_items as nat) + " 项"@,
        FunctionNodeKindView::ValidateForm { rules } => decimal_seq(rules.len()) + " 条规则"@,
        FunctionNodeKindView::CreateRecord { model_id } => model_title_spec(models, model_id),
        FunctionNodeKindView::ReadRecord { model_id } => model_title_spec(models, model_id),
        FunctionNodeKindView::UpdateRecord { model_id } => model_title_spec(models, model_id),
        FunctionNodeKindView::DeleteRecord { model_id } => model_title_spec(models, model_id),
        FunctionNodeKindView::QueryRecords { model_id, .. } => model_title_spec(models, model_id),
        FunctionNodeKindView::Navigate { route_id } => route_path_spec(routes, route_id),
        FunctionNodeKindView::Confirm { .. } => "等待用户确认"@,
        FunctionNodeKindView::Notify { level } => notification_level_name(level),
        FunctionNodeKindView::Return => "结束函数"@,
        FunctionNodeKindView::Fail { code } => code,
        FunctionNodeKindView::Capability { capability_id, operation } => capability_id + " · "@ + operation,
    }
}

/// The detail of a node: its type, count, template, operator, model, route or failure code.
#[verifier::rlimit(40)]
pub fn function_node_detail(kind: &FunctionNodeKind, models: &[ModelDefinition], routes: &[RouteDefinition]) -> (detail: String)
    ensures
        detail@ == function_node_detail_spec(kind@, models@, routes@),
{
    match kind {
        FunctionNodeKind::Constant { value, value_type } => {
            let label = value_type_label(value_type).to_owned();
            assert(kind@ == FunctionNodeKindView::Constant {
                value: crate::json::json_view(*value),
                value_type: *value_type,
            });
            label
        },
        FunctionNodeKind::Input { .. } => "函数端口".to_owned(),
        FunctionNodeKind::Output { .. } => "函数端口".to_owned(),
        FunctionNodeKind::Object { fields } => counted(fields.len(), " 个字段"),
        FunctionNodeKind::List { items } => counted(items.len(), " 个元素"),
        FunctionNodeKind::FieldAccess { .. } => "读取对象字段".to_owned(),
        FunctionNodeKind::Format { template, .. } => template.clone(),
        FunctionNodeKind::Compare { operator } => compare_name(*operator).to_owned(),
        FunctionNodeKind::Boolean { operator } => boolean_name(*operator).to_owned(),
        FunctionNodeKind::Math { operator } => math_name(*operator).to_owned(),
        FunctionNodeKind::Condition => "条件分支".to_owned(),
        FunctionNodeKind::ForEach { max_items, .. } => {
            let mut text = "最多 ".to_owned();
            let rest = counted(*max_items as usize, " 项");
            text.append(rest.as_str());
            assert(text@ =~= "最多 "@ + decimal_seq(*max_items as nat) + " 项"@);
            text
        },
        FunctionNodeKind::ValidateForm { rules } => {
            let text = counted(rules.len(), " 条规则");
            assert(crate::definition::rules_view(rules@).len() == rules@.len());
            text
        },
        FunctionNodeKind::CreateRecord { model_id } => model_title(models, *model_id),
        FunctionNodeKind::ReadRecord { model_id } => model_title(models, *model_id),
        FunctionNodeKind::UpdateRecord { model_id } => model_title(models, *model_id),
        FunctionNodeKind::DeleteRecord { model_id } => model_title(models, *model_id),
        FunctionNodeKind::QueryRecords { model_id, .. } => model_title(models, *model_id),
        FunctionNodeKind::Navigate { route_id } => route_path(routes, *route_id),
        FunctionNodeKind::Confirm { .. } => "等待用户确认".to_owned(),
        FunctionNodeKind::Notify { level } => level_name(*level).to_owned(),
        FunctionNodeKind::Return => "结束函数".to_owned(),
        FunctionNodeKind::Fail { code } => code.clone(),
        FunctionNodeKind::Capability { capability_id, operation } => {
            let mut text = capability_id.clone();
            text.append(" · ");
            text.append(operation.as_str());
            text
        },
    }
}

pub open spec fn pairs_view(pairs: Seq<(SymbolId, String)>) -> Seq<(SymbolId, Seq<char>)> {
    pairs.map_values(|p: (SymbolId, String)| (p.0, p.1@))
}

/// How a node is offered as a reference: its name, its kind's title and the first eight
/// characters of its identifier.
pub open spec fn reference_label(node: FunctionNode) -> Seq<char> {
    node.name@ + " · "@ + function_node_kind_title_spec(node.kind) + " · "@ + symbol_text(node.id.value).take(8)
}

/// The nodes at or after `i` other than `current`, as references.
pub open spec fn reference_options_from(nodes: Seq<FunctionNode>, current: SymbolId, i: int) -> Seq<(SymbolId, Seq<char>)>
    decreases nodes.len() - i,
{
    if i < 0 || i >= nodes.len() {
        Seq::empty()
    } else if nodes[i].id != current {
        seq![(nodes[i].id, reference_label(nodes[i]))] + reference_options_from(nodes, current, i + 1)
    } else {
        reference_options_from(nodes, current, i + 1)
    }
}

fn reference_label_text(node: &FunctionNode) -> (label: String)
    ensures
        label@ == reference_label(*node),
{
    let mut label = node.name.clone();
    label.append(" · ");
    label.append(function_node_kind_title(&node.kind));
    label.append(" · ");
    let id_text = node.id.to_text();
    let short = id_text.as_str().substring_char(0, 8);
    label.append(short);
    label
}

/// The nodes of `function` that the node `current_node_id` can refer to, with their labels.
pub fn function_node_reference_options(function: &FunctionDefinition, current_node_id: SymbolId) -> (options: Vec<(SymbolId, String)>)
    ensures
        pairs_view(options@) == reference_options_from(function.nodes@, current_node_id, 0),
{
    let nodes = &function.nodes;
    let mut options: Vec<(SymbolId, String)> = Vec::new();
    let mut i: usize = 0;
    while i < nodes.len()
        invariant
            i <= nodes.len(),
            pairs_view(options@) + reference_options_from(nodes@, current_node_id, i as int) == reference_options_from(
                nodes@,
                current_node_id,
                0,
            ),
        decreases nodes.len() - i,
    {
        let ghost before = options@;
        if nodes[i].id != current_node_id {
            let label = reference_label_text(&nodes[i]);
            options.push((nodes[i].id, label));
            assert(pairs_view(options@) =~= pairs_view(before).push((nodes@[i as int].id, reference_label(nodes@[i as int]))));
        }
        assert(pairs_view(options@) + reference_options_from(nodes@, current_node_id, i + 1) =~= reference_options_from(
            nodes@,
            current_node_id,
            0,
        ));
        i = i + 1;
    }
    assert(reference_options_from(nodes@, current_node_id, i as int) =~= Seq::<(SymbolId, Seq<char>)>::empty());
    options
}

/// The fields of one model as choices: model title, field title and field name.
pub open spec fn model_field_options(model: ModelDefinition) -> Seq<(SymbolId, Seq<char>)> {
    model.fields@.map_values(
        |f: crate::definition::FieldDefinition| (f.id, model.title@ + " / "@ + f.title@ + " · "@ + f.name@),
    )
}

/// The fields of the models at or after `i`, model by model.
pub open spec fn field_options_from(models: Seq<ModelDefinition>, i: int) -> Seq<(SymbolId, Seq<char>)>
    decreases models.len() - i,
{
    if i < 0 || i >= models.len() {
        Seq::empty()
    } else {
        model_field_options(models[i]) + field_options_from(models, i + 1)
    }
}

/// Every field of every model, as choices for nodes that name a field.
pub fn function_field_options(models: &[ModelDefinition]) -> (options: Vec<(SymbolId, String)>)
    ensures
        pairs_view(options@) == field_options_from(models@, 0),
{
    let mut options: Vec<(SymbolId, String)> = Vec::new();
    let mut i: usize = 0;
    while i < models.len()
        invariant
            i <= models.len(),
            pairs_view(options@) + field_options_from(models@, i as int) == field_options_from(models@, 0),
        decreases models.len() - i,
    {
        let model = &models[i];
        let ghost start = options@;
        let mut j: usize = 0;
        while j < model.fields.len()
            invariant
                i < models.len(),
                *model == models@[i as int],
                j <= model.fields.len(),
                pairs_view(options@) == pairs_view(start) + model_field_options(*model).take(j as int),
            decreases model.fields.len() - j,
        {
            let field = &model.fields[j];
            let mut label = model.title.clone();
            label.append(" / ");
            label.append(field.title.as_str());
            label.append(" · ");
            label.append(field.name.as_str());
            let ghost before = options@;
            options.push((field.id, label));
            assert(pairs_view(options@) =~= pairs_view(before).push(model_field_options(*model)[j as int]));
            assert(model_field_options(*model).take(j + 1) =~= model_field_options(*model).take(j as int).push(
                model_field_options(*model)[j as int],
            ));
            j = j + 1;
        }
        assert(model_field_options(*model).take(j as int) =~= model_field_options(*model));
        assert(pairs_view(options@) + field_options_from(models@, i + 1) =~= field_options_from(models@, 0));
        i = i + 1;
    }
    assert(field_options_from(models@, i as int) =~= Seq::<(SymbolId, Seq<char>)>::empty());
    options
}

/// Choices over identifiers: each submits the identifier's text and shows its label.
pub open spec fn symbol_select_items_spec(options: Seq<(SymbolId, Seq<char>)>) -> Seq<SelectOptionView> {
    options.map_values(|o: (SymbolId, Seq<char>)| option_view(symbol_text(o.0.value), o.1, false, false))
}

/// The select choices for identifiers with labels.
pub fn symbol_select_items(options: &[(SymbolId, String)]) -> (items: Vec<SelectOption>)
    ensures
        options_view(items@) == symbol_select_items_spec(pairs_view(options@)),
{
    let mut items: Vec<SelectOption> = Vec::new();
    let mut i: usize = 0;
    while i < options.len()
        invariant
            i <= options.len(),
            options_view(items@) == symbol_select_items_spec(pairs_view(options@)).take(i as int),
        decreases options.len() - i,
    {
        let value = options[i].0.to_text();
        push_option(&mut items, value.as_str(), options[i].1.as_str(), false, false);
        assert(symbol_select_items_spec(pairs_view(options@)).take(i + 1) =~= symbol_select_items_spec(
            pairs_view(options@),
        ).take(i as int).push(symbol_select_items_spec(pairs_view(options@))[i as int]));
        i = i + 1;
    }
    assert(symbol_select_items_spec(pairs_view(options@)).take(i as int) =~= symbol_select_items_spec(pairs_view(options@)));
    items
}

/// Choices over models: each submits the model's identifier and shows its title and name.
pub open spec fn model_select_items_spec(models: Seq<ModelDefinition>) -> Seq<SelectOptionView> {
    models.map_values(
        |m: ModelDefinition| option_view(symbol_text(m.id.value), m.title@ + " · "@ + m.name@, false, false),
    )
}

/// The select choices for models.
pub fn model_select_items(models: &[ModelDefinition]) -> (items: Vec<SelectOption>)
    ensures
        options_view(items@) == model_select_items_spec(models@),
{
    let mut items: Vec<SelectOption> = Vec::new();
    let mut i: usize = 0;
    while i < models.len()
        invariant
            i <= models.len(),
            options_view(items@) == model_select_items_spec(models@).take(i as int),
        decreases models.len() - i,
    {
        let value = models[i].id.to_text();
        let mut label = models[i].title.clone();
        label.append(" · ");
        label.append(models[i].name.as_str());
        push_option(&mut items, value.as_str(), label.as_str(), false, false);
        assert(model_select_items_spec(models@).take(i + 1) =~= model_select_items_spec(models@).take(i as int).push(
            model_select_items_spec(models@)[i as int],
        ));
        i = i + 1;
    }
    assert(model_select_items_spec(models@).take(i as int) =~= model_select_items_spec(models@));
    items
}

/// The key of a node kind, read from its view.
pub open spec fn kind_view_key(kind: FunctionNodeKindView) -> Seq<char> {
    match kind {
        FunctionNodeKindView::Constant { .. } => "constant"@,
        FunctionNodeKindView::Input { .. } => "input"@,
        FunctionNodeKindView::Output { .. } => "output"@,
        FunctionNodeKindView::Object { .. } => "object"@,
        FunctionNodeKindView::List { .. } => "list"@,
        FunctionNodeKindView::FieldAccess { .. } => "field_access"@,
        FunctionNodeKindView::Format { .. } => "format"@,
        FunctionNodeKindView::Compare { .. } => "compare"@,
        FunctionNodeKindView::Boolean { .. } => "boolean"@,
        FunctionNodeKindView::Math { .. } => "math"@,
        FunctionNodeKindView::Condition => "condition"@,
        FunctionNodeKindView::ForEach { .. } => "for_each"@,
        FunctionNodeKindView::ValidateForm { .. } => "validate_form"@,
        FunctionNodeKindView::CreateRecord { .. } => "create_record"@,
        FunctionNodeKindView::ReadRecord { .. } => "read_record"@,
        FunctionNodeKindView::UpdateRecord { .. } => "update_record"@,
        FunctionNodeKindView::DeleteRecord { .. } => "delete_record"@,
        FunctionNodeKindView::QueryRecords { .. } => "query_records"@,
        FunctionNodeKindView::Navigate { .. } => "navigate"@,
        FunctionNodeKindView::Confirm { .. } => "confirm"@,
        FunctionNodeKindView::Notify { .. } => "notify"@,
        FunctionNodeKindView::Return => "return"@,
        FunctionNodeKindView::Fail { .. } => "fail"@,
        FunctionNodeKindView::Capability { .. } => "capability"@,
    }
}

/// A node kind has the same key whether it is read from the kind or from its view.
pub proof fn kind_key_of_view(kind: FunctionNodeKind)
    ensures
        kind_view_key(kind@) == function_node_kind_key_spec(kind),
{
}

/// A kind that a new node starts with carries the key that it was asked for.
pub proof fn default_kind_has_its_key(
    key: Seq<char>,
    current_node_id: SymbolId,
    function: FunctionDefinition,
    models: Seq<ModelDefinition>,
    routes: Seq<RouteDefinition>,
    functions: Seq<FunctionDefinition>,
    capabilities: CapabilityCatalog,
)
    ensures
        default_function_node_kind_spec(key, current_node_id, function, models, routes, functions, capabilities)
            matches Ok(kind) ==> kind_view_key(kind) == key,
{
    reveal_strlit("constant");
    reveal_strlit("input");
    reveal_strlit("output");
    reveal_strlit("object");
    reveal_strlit("list");
    reveal_strlit("field_access");
    reveal_strlit("format");
    reveal_strlit("compare");
    reveal_strlit("boolean");
    reveal_strlit("math");
    reveal_strlit("condition");
    reveal_strlit("for_each");
    reveal_strlit("validate_form");
    reveal_strlit("create_record");
    reveal_strlit("read_record");
    reveal_strlit("update_record");
    reveal_strlit("delete_record");
    reveal_strlit("query_records");
    reveal_strlit("navigate");
    reveal_strlit("confirm");
    reveal_strlit("notify");
    reveal_strlit("return");
    reveal_strlit("fail");
    reveal_strlit("capability");
}

/// No node of the function other than `current` exists.
pub open spec fn no_other_node(function: FunctionDefinition, current: SymbolId) -> bool {
    !exists|j: int| 0 <= j < function.nodes.len() && #[trigger] function.nodes@[j].id != current
}

/// No function other than `current` exists.
pub open spec fn no_other_function(functions: Seq<FunctionDefinition>, current: SymbolId) -> bool {
    !exists|j: int| 0 <= j < functions.len() && #[trigger] functions[j].id != current
}

/// When a new node of each kind in the first part of the list cannot be made.
#[verifier::rlimit(60)]
proof fn default_kind_errors_0(
    current_node_id: SymbolId,
    function: FunctionDefinition,
    models: Seq<ModelDefinition>,
    routes: Seq<RouteDefinition>,
    functions: Seq<FunctionDefinition>,
    capabilities: CapabilityCatalog,
)
    ensures
        default_function_node_kind_spec("constant"@, current_node_id, function, models, routes, functions, capabilities) is Ok,
        (function.inputs.len() == 0) == default_function_node_kind_spec("input"@, current_node_id, function, models, routes, functions, capabilities) is Err,
        (function.outputs.len() == 0) == default_function_node_kind_spec("output"@, current_node_id, function, models, routes, functions, capabilities) is Err,
        (no_other_node(function, current_node_id) || !has_model_fields(models)) == default_function_node_kind_spec("object"@, current_node_id, function, models, routes, functions, capabilities) is Err,
        (no_other_node(function, current_node_id)) == default_function_node_kind_spec("list"@, current_node_id, function, models, routes, functions, capabilities) is Err,
        (no_other_node(function, current_node_id) || !has_model_fields(models)) == default_function_node_kind_spec("field_access"@, current_node_id, function, models, routes, functions, capabilities) is Err,
{
    lemma_first_field_from(models, 0);
    lemma_first_other_node_from(function.nodes@, current_node_id, 0);
    lemma_first_other_function_from(functions, function.id, 0);
    assert(default_function_node_kind_spec("constant"@, current_node_id, function, models, routes, functions, capabilities) is Ok) by {
        reveal_strlit("constant");
        assert("constant"@.len() == 8);
    }
    assert((function.inputs.len() == 0) == default_function_node_kind_spec("input"@, current_node_id, function, models, routes, functions, capabilities) is Err) by {
        reveal_strlit("constant");
        reveal_strlit("input");
        assert("constant"@.len() == 8);
        assert("input"@.len() == 5);
    }
    assert((function.outputs.len() == 0) == default_function_node_kind_spec("output"@, current_node_id, function, models, routes, functions, capabilities) is Err) by {
        reveal_strlit("constant");
        reveal_strlit("input");
        reveal_strlit("output");
        assert("constant"@.len() == 8);
        assert("input"@.len() == 5);
        assert("output"@.len() == 6);
    }
    assert((no_other_node(function, current_node_id) || !has_model_fields(models)) == default_function_node_kind_spec("object"@, current_node_id, function, models, routes, functions, capabilities) is Err) by {
        reveal_strlit("constant");
        reveal_strlit("input");
        reveal_strlit("output");
        reveal_strlit("object");
        assert("constant"@.len() == 8);
        assert("input"@.len() == 5);
        assert("output"@.len() == 6);
        assert("object"@.len() == 6);
        assert("object"@[1] == 'b' && "output"@[1] == 'u');
    }
    assert((no_other_node(function, current_node_id)) == default_function_node_kind_spec("list"@, current_node_id, function, models, routes, functions, capabilities) is Err) by {
        reveal_strlit("constant");
        reveal_strlit("input");
        reveal_strlit("output");
        reveal_strlit("object");
        reveal_strlit("list");
        assert("constant"@.len() == 8);
        assert("input"@.len() == 5);
        assert("output"@.len() == 6);
        assert("object"@.len() == 6);
        assert("list"@.len() == 4);
    }
    assert((no_other_node(function, current_node_id) || !has_model_fields(models)) == default_function_node_kind_spec("field_access"@, current_node_id, function, models, routes, functions, capabilities) is Err) by {
        reveal_strlit("constant");
        reveal_strlit("input");
        reveal_strlit("output");
        reveal_strlit("object");
        reveal_strlit("list");
        reveal_strlit("field_access");
        assert("constant"@.len() == 8);
        assert("input"@.len() == 5);
        assert("output"@.len() == 6);
        assert("object"@.len() == 6);
        assert("list"@.len() == 4);
        assert("field_access"@.len() == 12);
    }
}

/// When a new node of each kind in the second part of the list cannot be made.
#[verifier::rlimit(60)]
proof fn default_kind_errors_1(
    current_node_id: SymbolId,
    function: FunctionDefinition,
    models: Seq<ModelDefinition>,
    routes: Seq<RouteDefinition>,
    functions: Seq<FunctionDefinition>,
    capabilities: CapabilityCatalog,
)
    ensures
        default_function_node_kind_spec("format"@, current_node_id, function, models, routes, functions, capabilities) is Ok,
        default_function_node_kind_spec("compare"@, current_node_id, function, models, routes, functions, capabilities) is Ok,
        default_function_node_kind_spec("boolean"@, current_node_id, function, models, routes, functions, capabilities) is Ok,
        default_function_node_kind_spec("math"@, current_node_id, function, models, routes, functions, capabilities) is Ok,
        default_function_node_kind_spec("condition"@, current_node_id, function, models, routes, functions, capabilities) is Ok,
        (no_other_function(functions, function.id)) == default_function_node_kind_spec("for_each"@, current_node_id, function, models, routes, functions, capabilities) is Err,
{
    lemma_first_field_from(models, 0);
    lemma_first_other_node_from(function.nodes@, current_node_id, 0);
    lemma_first_other_function_from(functions, function.id, 0);
    assert(default_function_node_kind_spec("format"@, current_node_id, function, models, routes, functions, capabilities) is Ok) by {
        reveal_strlit("constant");
        reveal_strlit("input");
        reveal_strlit("output");
        reveal_strlit("object");
        reveal_strlit("list");
        reveal_strlit("field_access");
        reveal_strlit("format");
        assert("constant"@.len() == 8);
        assert("input"@.len() == 5);
        assert("output"@.len() == 6);
        assert("object"@.len() == 6);
        assert("list"@.len() == 4);
        assert("field_access"@.len() == 12);
        assert("format"@.len() == 6);
        assert("format"@[0] == 'f' && "output"@[0] == 'o');
        assert("format"@[0] == 'f' && "object"@[0] == 'o');
    }
    assert(default_function_node_kind_spec("compare"@, current_node_id, function, models, routes, functions, capabilities) is Ok) by {
        reveal_strlit("constant");
        reveal_strlit("input");
        reveal_strlit("output");
        reveal_strlit("object");
        reveal_strlit("list");
        reveal_strlit("field_access");
        reveal_strlit("format");
        reveal_strlit("compare");
        assert("constant"@.len() == 8);
        assert("input"@.len() == 5);
        assert("output"@.len() == 6);
        assert("object"@.len() == 6);
        assert("list"@.len() == 4);
        assert("field_access"@.len() == 12);
        assert("format"@.len() == 6);
        assert("compare"@.len() == 7);
    }
    assert(default_function_node_kind_spec("boolean"@, current_node_id, function, models, routes, functions, capabilities) is Ok) by {
        reveal_strlit("constant");
        reveal_strlit("input");
        reveal_strlit("output");
        reveal_strlit("object");
        reveal_strlit("list");
        reveal_strlit("field_access");
        reveal_strlit("format");
        reveal_strlit("compare");
        reveal_strlit("boolean");
        assert("constant"@.len() == 8);
        assert("input"@.len() == 5);
        assert("output"@.len() == 6);
        assert("object"@.len() == 6);
        assert("list"@.len() == 4);
        assert("field_access"@.len() == 12);
        assert("format"@.len() == 6);
        assert("compare"@.len() == 7);
        assert("boolean"@.len() == 7);
        assert("boolean"@[0] == 'b' && "compare"@[0] == 'c');
    }
    assert(default_function_node_kind_spec("math"@, current_node_id, function, models, routes, functions, capabilities) is Ok) by {
        reveal_strlit("constant");
        reveal_strlit("input");
        reveal_strlit("output");
        reveal_strlit("object");
        reveal_strlit("list");
        reveal_strlit("field_access");
        reveal_strlit("format");
        reveal_strlit("compare");
        reveal_strlit("boolean");
        reveal_strlit("math");
        assert("constant"@.len() == 8);
        assert("input"@.len() == 5);
        assert("output"@.len() == 6);
        assert("object"@.len() == 6);
        assert("list"@.len() == 4);
        assert("field_access"@.len() == 12);
        assert("format"@.len() == 6);
        assert("compare"@.len() == 7);
        assert("boolean"@.len() == 7);
        assert("math"@.len() == 4);
        assert("math"@[0] == 'm' && "list"@[0] == 'l');
    }
    assert(default_function_node_kind_spec("condition"@, current_node_id, function, models, routes, functions, capabilities) is Ok) by {
        reveal_strlit("constant");
        reveal_strlit("input");
        reveal_strlit("output");
        reveal_strlit("object");
        reveal_strlit("list");
        reveal_strlit("field_access");
        reveal_strlit("format");
        reveal_strlit("compare");
        reveal_strlit("boolean");
        reveal_strlit("math");
        reveal_strlit("condition");
        assert("constant"@.len() == 8);
        assert("input"@.len() == 5);
        assert("output"@.len() == 6);
        assert("object"@.len() == 6);
        assert("list"@.len() == 4);
        assert("field_access"@.len() == 12);
        assert("format"@.len() == 6);
        assert("compare"@.len() == 7);
        assert("boolean"@.len() == 7);
        assert("math"@.len() == 4);
        assert("condition"@.len() == 9);
    }
    assert((no_other_function(functions, function.id)) == default_function_node_kind_spec("for_each"@, current_node_id, function, models, routes, functions, capabilities) is Err) by {
        reveal_strlit("constant");
        reveal_strlit("input");
        reveal_strlit("output");
        reveal_strlit("object");
        reveal_strlit("list");
        reveal_strlit("field_access");
        reveal_strlit("format");
        reveal_strlit("compare");
        reveal_strlit("boolean");
        reveal_strlit("math");
        reveal_strlit("condition");
        reveal_strlit("for_each");
        assert("constant"@.len() == 8);
        assert("input"@.len() == 5);
        assert("output"@.len() == 6);
        assert("object"@.len() == 6);
        assert("list"@.len() == 4);
        assert("field_access"@.len() == 12);
        assert("format"@.len() == 6);
        assert("compare"@.len() == 7);
        assert("boolean"@.len() == 7);
        assert("math"@.len() == 4);
        assert("condition"@.len() == 9);
        assert("for_each"@.len() == 8);
        assert("for_each"@[0] == 'f' && "constant"@[0] == 'c');
    }
}

/// When a new node of each kind in the third part of the list cannot be made.
#[verifier::rlimit(60)]
proof fn default_kind_errors_2(
    current_node_id: SymbolId,
    function: FunctionDefinition,
    models: Seq<ModelDefinition>,
    routes: Seq<RouteDefinition>,
    functions: Seq<FunctionDefinition>,
    capabilities: CapabilityCatalog,
)
    ensures
        (!has_model_fields(models)) == default_function_node_kind_spec("validate_form"@, current_node_id, function, models, routes, functions, capabilities) is Err,
        (models.len() == 0) == default_function_node_kind_spec("create_record"@, current_node_id, function, models, routes, functions, capabilities) is Err,
        (models.len() == 0) == default_function_node_kind_spec("read_record"@, current_node_id, function, models, routes, functions, capabilities) is Err,
        (models.len() == 0) == default_function_node_kind_spec("update_record"@, current_node_id, function, models, routes, functions, capabilities) is Err,
        (models.len() == 0) == default_function_node_kind_spec("delete_record"@, current_node_id, function, models, routes, functions, capabilities) is Err,
        (models.len() == 0) == default_function_node_kind_spec("query_records"@, current_node_id, function, models, routes, functions, capabilities) is Err,
{
    lemma_first_field_from(models, 0);
    lemma_first_other_node_from(function.nodes@, current_node_id, 0);
    lemma_first_other_function_from(functions, function.id, 0);
    assert((!has_model_fields(models)) == default_function_node_kind_spec("validate_form"@, current_node_id, function, models, routes, functions, capabilities) is Err) by {
        reveal_strlit("constant");
        reveal_strlit("input");
        reveal_strlit("output");
        reveal_strlit("object");
        reveal_strlit("list");
        reveal_strlit("field_access");
        reveal_strlit("format");
        reveal_strlit("compare");
        reveal_strlit("boolean");
        reveal_strlit("math");
        reveal_strlit("condition");
        reveal_strlit("for_each");
        reveal_strlit("validate_form");
        assert("constant"@.len() == 8);
        assert("input"@.len() == 5);
        assert("output"@.len() == 6);
        assert("object"@.len() == 6);
        assert("list"@.len() == 4);
        assert("field_access"@.len() == 12);
        assert("format"@.len() == 6);
        assert("compare"@.len() == 7);
        assert("boolean"@.len() == 7);
        assert("math"@.len() == 4);
        assert("condition"@.len() == 9);
        assert("for_each"@.len() == 8);
        assert("validate_form"@.len() == 13);
    }
    assert((models.len() == 0) == default_function_node_kind_spec("create_record"@, current_node_id, function, models, routes, functions, capabilities) is Err) by {
        reveal_strlit("constant");
        reveal_strlit("input");
        reveal_strlit("output");
        reveal_strlit("object");
        reveal_strlit("list");
        reveal_strlit("field_access");
        reveal_strlit("format");
        reveal_strlit("compare");
        reveal_strlit("boolean");
        reveal_strlit("math");
        reveal_strlit("condition");
        reveal_strlit("for_each");
        reveal_strlit("validate_form");
        reveal_strlit("create_record");
        assert("constant"@.len() == 8);
        assert("input"@.len() == 5);
        assert("output"@.len() == 6);
        assert("object"@.len() == 6);
        assert("list"@.len() == 4);
        assert("field_access"@.len() == 12);
        assert("format"@.len() == 6);
        assert("compare"@.len() == 7);
        assert("boolean"@.len() == 7);
        assert("math"@.len() == 4);
        assert("condition"@.len() == 9);
        assert("for_each"@.len() == 8);
        assert("validate_form"@.len() == 13);
        assert("create_record"@.len() == 13);
        assert("create_record"@[0] == 'c' && "validate_form"@[0] == 'v');
    }
    assert((models.len() == 0) == default_function_node_kind_spec("read_record"@, current_node_id, function, models, routes, functions, capabilities) is Err) by {
        reveal_strlit("constant");
        reveal_strlit("input");
        reveal_strlit("output");
        reveal_strlit("object");
        reveal_strlit("list");
        reveal_strlit("field_access");
        reveal_strlit("format");
        reveal_strlit("compare");
        reveal_strlit("boolean");
        reveal_strlit("math");
        reveal_strlit("condition");
        reveal_strlit("for_each");
        reveal_strlit("validate_form");
        reveal_strlit("create_record");
        reveal_strlit("read_record");
        assert("constant"@.len() == 8);
        assert("input"@.len() == 5);
        assert("output"@.len() == 6);
        assert("object"@.len() == 6);
        assert("list"@.len() == 4);
        assert("field_access"@.len() == 12);
        assert("format"@.len() == 6);
        assert("compare"@.len() == 7);
        assert("boolean"@.len() == 7);
        assert("math"@.len() == 4);
        assert("condition"@.len() == 9);
        assert("for_each"@.len() == 8);
        assert("validate_form"@.len() == 13);
        assert("create_record"@.len() == 13);
        assert("read_record"@.len() == 11);
    }
    assert((models.len() == 0) == default_function_node_kind_spec("update_record"@, current_node_id, function, models, routes, functions, capabilities) is Err) by {
        reveal_strlit("constant");
        reveal_strlit("input");
        reveal_strlit("output");
        reveal_strlit("object");
        reveal_strlit("list");
        reveal_strlit("field_access");
        reveal_strlit("format");
        reveal_strlit("compare");
        reveal_strlit("boolean");
        reveal_strlit("math");
        reveal_strlit("condition");
        reveal_strlit("for_each");
        reveal_strlit("validate_form");
        reveal_strlit("create_record");
        reveal_strlit("read_record");
        reveal_strlit("update_record");
        assert("constant"@.len() == 8);
        assert("input"@.len() == 5);
        assert("output"@.len() == 6);
        assert("object"@.len() == 6);
        assert("list"@.len() == 4);
        assert("field_access"@.len() == 12);
        assert("format"@.len() == 6);
        assert("compare"@.len() == 7);
        assert("boolean"@.len() == 7);
        assert("math"@.len() == 4);
        assert("condition"@.len() == 9);
        assert("for_each"@.len() == 8);
        assert("validate_form"@.len() == 13);
        assert("create_record"@.len() == 13);
        assert("read_record"@.len() == 11);
        assert("update_record"@.len() == 13);
        assert("update_record"@[0] == 'u' && "validate_form"@[0] == 'v');
        assert("update_record"@[0] == 'u' && "create_record"@[0] == 'c');
    }
    assert((models.len() == 0) == default_function_node_kind_spec("delete_record"@, current_node_id, function, models, routes, functions, capabilities) is Err) by {
        reveal_strlit("constant");
        reveal_strlit("input");
        reveal_strlit("output");
        reveal_strlit("object");
        reveal_strlit("list");
        reveal_strlit("field_access");
        reveal_strlit("format");
        reveal_strlit("compare");
        reveal_strlit("boolean");
        reveal_strlit("math");
        reveal_strlit("condition");
        reveal_strlit("for_each");
        reveal_strlit("validate_form");
        reveal_strlit("create_record");
        reveal_strlit("read_record");
        reveal_strlit("update_record");
        reveal_strlit("delete_record");
        assert("constant"@.len() == 8);
        assert("input"@.len() == 5);
        assert("output"@.len() == 6);
        assert("object"@.len() == 6);
        assert("list"@.len() == 4);
        assert("field_access"@.len() == 12);
        assert("format"@.len() == 6);
        assert("compare"@.len() == 7);
        assert("boolean"@.len() == 7);
        assert("math"@.len() == 4);
        assert("condition"@.len() == 9);
        assert("for_each"@.len() == 8);
        assert("validate_form"@.len() == 13);
        assert("create_record"@.len() == 13);
        assert("read_record"@.len() == 11);
        assert("update_record"@.len() == 13);
        assert("delete_record"@.len() == 13);
        assert("delete_record"@[0] == 'd' && "validate_form"@[0] == 'v');
        assert("delete_record"@[0] == 'd' && "create_record"@[0] == 'c');
        assert("delete_record"@[0] == 'd' && "update_record"@[0] == 'u');
    }
    assert((models.len() == 0) == default_function_node_kind_spec("query_records"@, current_node_id, function, models, routes, functions, capabilities) is Err) by {
        reveal_strlit("constant");
        reveal_strlit("input");
        reveal_strlit("output");
        reveal_strlit("object");
        reveal_strlit("list");
        reveal_strlit("field_access");
        reveal_strlit("format");
        reveal_strlit("compare");
        reveal_strlit("boolean");
        reveal_strlit("math");
        reveal_strlit("condition");
        reveal_strlit("for_each");
        reveal_strlit("validate_form");
        reveal_strlit("create_record");
        reveal_strlit("read_record");
        reveal_strlit("update_record");
        reveal_strlit("delete_record");
        reveal_strlit("query_records");
        assert("constant"@.len() == 8);
        assert("input"@.len() == 5);
        assert("output"@.len() == 6);
        assert("object"@.len() == 6);
        assert("list"@.len() == 4);
        assert("field_access"@.len() == 12);
        assert("format"@.len() == 6);
        assert("compare"@.len() == 7);
        assert("boolean"@.len() == 7);
        assert("math"@.len() == 4);
        assert("condition"@.len() == 9);
        assert("for_each"@.len() == 8);
        assert("validate_form"@.len() == 13);
        assert("create_record"@.len() == 13);
        assert("read_record"@.len() == 11);
        assert("update_record"@.len() == 13);
        assert("delete_record"@.len() == 13);
        assert("query_records"@.len() == 13);
        assert("query_records"@[0] == 'q' && "validate_form"@[0] == 'v');
        assert("query_records"@[0] == 'q' && "create_record"@[0] == 'c');
        assert("query_records"@[0] == 'q' && "update_record"@[0] == 'u');
        assert("query_records"@[0] == 'q' && "delete_record"@[0] == 'd');
    }
}

/// When a new node of each kind in the fourth part of the list cannot be made.
#[verifier::rlimit(60)]
proof fn default_kind_errors_3(
    current_node_id: SymbolId,
    function: FunctionDefinition,
    models: Seq<ModelDefinition>,
    routes: Seq<RouteDefinition>,
    functions: Seq<FunctionDefinition>,
    capabilities: CapabilityCatalog,
)
    ensures
        (routes.len() == 0) == default_function_node_kind_spec("navigate"@, current_node_id, function, models, routes, functions, capabilities) is Err,
        default_function_node_kind_spec("confirm"@, current_node_id, function, models, routes, functions, capabilities) is Ok,
        default_function_node_kind_spec("notify"@, current_node_id, function, models, routes, functions, capabilities) is Ok,
        default_function_node_kind_spec("return"@, current_node_id, function, models, routes, functions, capabilities) is Ok,
        default_function_node_kind_spec("fail"@, current_node_id, function, models, routes, functions, capabilities) is Ok,
{
    lemma_first_field_from(models, 0);
    lemma_first_other_node_from(function.nodes@, current_node_id, 0);
    lemma_first_other_function_from(functions, function.id, 0);
    assert((routes.len() == 0) == default_function_node_kind_spec("navigate"@, current_node_id, function, models, routes, functions, capabilities) is Err) by {
        reveal_strlit("constant");
        reveal_strlit("input");
        reveal_strlit("output");
        reveal_strlit("object");
        reveal_strlit("list");
        reveal_strlit("field_access");
        reveal_strlit("format");
        reveal_strlit("compare");
        reveal_strlit("boolean");
        reveal_strlit("math");
        reveal_strlit("condition");
        reveal_strlit("for_each");
        reveal_strlit("validate_form");
        reveal_strlit("create_record");
        reveal_strlit("read_record");
        reveal_strlit("update_record");
        reveal_strlit("delete_record");
        reveal_strlit("query_records");
        reveal_strlit("navigate");
        assert("constant"@.len() == 8);
        assert("input"@.len() == 5);
        assert("output"@.len() == 6);
        assert("object"@.len() == 6);
        assert("list"@.len() == 4);
        assert("field_access"@.len() == 12);
        assert("format"@.len() == 6);
        assert("compare"@.len() == 7);
        assert("boolean"@.len() == 7);
        assert("math"@.len() == 4);
        assert("condition"@.len() == 9);
        assert("for_each"@.len() == 8);
        assert("validate_form"@.len() == 13);
        assert("create_record"@.len() == 13);
        assert("read_record"@.len() == 11);
        assert("update_record"@.len() == 13);
        assert("delete_record"@.len() == 13);
        assert("query_records"@.len() == 13);
        assert("navigate"@.len() == 8);
        assert("navigate"@[0] == 'n' && "constant"@[0] == 'c');
        assert("navigate"@[0] == 'n' && "for_each"@[0] == 'f');
    }
    assert(default_function_node_kind_spec("confirm"@, current_node_id, function, models, routes, functions, capabilities) is Ok) by {
        reveal_strlit("constant");
        reveal_strlit("input");
        reveal_strlit("output");
        reveal_strlit("object");
        reveal_strlit("list");
        reveal_strlit("field_access");
        reveal_strlit("format");
        reveal_strlit("compare");
        reveal_strlit("boolean");
        reveal_strlit("math");
        reveal_strlit("condition");
        reveal_strlit("for_each");
        reveal_strlit("validate_form");
        reveal_strlit("create_record");
        reveal_strlit("read_record");
        reveal_strlit("update_record");
        reveal_strlit("delete_record");
        reveal_strlit("query_records");
        reveal_strlit("navigate");
        reveal_strlit("confirm");
        assert("constant"@.len() == 8);
        assert("input"@.len() == 5);
        assert("output"@.len() == 6);
        assert("object"@.len() == 6);
        assert("list"@.len() == 4);
        assert("field_access"@.len() == 12);
        assert("format"@.len() == 6);
        assert("compare"@.len() == 7);
        assert("boolean"@.len() == 7);
        assert("math"@.len() == 4);
        assert("condition"@.len() == 9);
        assert("for_each"@.len() == 8);
        assert("validate_form"@.len() == 13);
        assert("create_record"@.len() == 13);
        assert("read_record"@.len() == 11);
        assert("update_record"@.len() == 13);
        assert("delete_record"@.len() == 13);
        assert("query_records"@.len() == 13);
        assert("navigate"@.len() == 8);
        assert("confirm"@.len() == 7);
        assert("confirm"@[2] == 'n' && "compare"@[2] == 'm');
        assert("confirm"@[0] == 'c' && "boolean"@[0] == 'b');
    }
    assert(default_function_node_kind_spec("notify"@, current_node_id, function, models, routes, functions, capabilities) is Ok) by {
        reveal_strlit("constant");
        reveal_strlit("input");
        reveal_strlit("output");
        reveal_strlit("object");
        reveal_strlit("list");
        reveal_strlit("field_access");
        reveal_strlit("format");
        reveal_strlit("compare");
        reveal_strlit("boolean");
        reveal_strlit("math");
        reveal_strlit("condition");
        reveal_strlit("for_each");
        reveal_strlit("validate_form");
        reveal_strlit("create_record");
        reveal_strlit("read_record");
        reveal_strlit("update_record");
        reveal_strlit("delete_record");
        reveal_strlit("query_records");
        reveal_strlit("navigate");
        reveal_strlit("confirm");
        reveal_strlit("notify");
        assert("constant"@.len() == 8);
        assert("input"@.len() == 5);
        assert("output"@.len() == 6);
        assert("object"@.len() == 6);
        assert("list"@.len() == 4);
        assert("field_access"@.len() == 12);
        assert("format"@.len() == 6);
        assert("compare"@.len() == 7);
        assert("boolean"@.len() == 7);
        assert("math"@.len() == 4);
        assert("condition"@.len() == 9);
        assert("for_each"@.len() == 8);
        assert("validate_form"@.len() == 13);
        assert("create_record"@.len() == 13);
        assert("read_record"@.len() == 11);
        assert("update_record"@.len() == 13);
        assert("delete_record"@.len() == 13);
        assert("query_records"@.len() == 13);
        assert("navigate"@.len() == 8);
        assert("confirm"@.len() == 7);
        assert("notify"@.len() == 6);
        assert("notify"@[0] == 'n' && "output"@[0] == 'o');
        assert("notify"@[0] == 'n' && "object"@[0] == 'o');
        assert("notify"@[0] == 'n' && "format"@[0] == 'f');
    }
    assert(default_function_node_kind_spec("return"@, current_node_id, function, models, routes, functions, capabilities) is Ok) by {
        reveal_strlit("constant");
        reveal_strlit("input");
        reveal_strlit("output");
        reveal_strlit("object");
        reveal_strlit("list");
        reveal_strlit("field_access");
        reveal_strlit("format");
        reveal_strlit("compare");
        reveal_strlit("boolean");
        reveal_strlit("math");
        reveal_strlit("condition");
        reveal_strlit("for_each");
        reveal_strlit("validate_form");
        reveal_strlit("create_record");
        reveal_strlit("read_record");
        reveal_strlit("update_record");
        reveal_strlit("delete_record");
        reveal_strlit("query_records");
        reveal_strlit("navigate");
        reveal_strlit("confirm");
        reveal_strlit("notify");
        reveal_strlit("return");
        assert("constant"@.len() == 8);
        assert("input"@.len() == 5);
        assert("output"@.len() == 6);
        assert("object"@.len() == 6);
        assert("list"@.len() == 4);
        assert("field_access"@.len() == 12);
        assert("format"@.len() == 6);
        assert("compare"@.len() == 7);
        assert("boolean"@.len() == 7);
        assert("math"@.len() == 4);
        assert("condition"@.len() == 9);
        assert("for_each"@.len() == 8);
        assert("validate_form"@.len() == 13);
        assert("create_record"@.len() == 13);
        assert("read_record"@.len() == 11);
        assert("update_record"@.len() == 13);
        assert("delete_record"@.len() == 13);
        assert("query_records"@.len() == 13);
        assert("navigate"@.len() == 8);
        assert("confirm"@.len() == 7);
        assert("notify"@.len() == 6);
        assert("return"@.len() == 6);
        assert("return"@[0] == 'r' && "output"@[0] == 'o');
        assert("return"@[0] == 'r' && "object"@[0] == 'o');
        assert("return"@[0] == 'r' && "format"@[0] == 'f');
        assert("return"@[0] == 'r' && "notify"@[0] == 'n');
    }
    assert(default_function_node_kind_spec("fail"@, current_node_id, function, models, routes, functions, capabilities) is Ok) by {
        reveal_strlit("constant");
        reveal_strlit("input");
        reveal_strlit("output");
        reveal_strlit("object");
        reveal_strlit("list");
        reveal_strlit("field_access");
        reveal_strlit("format");
        reveal_strlit("compare");
        reveal_strlit("boolean");
        reveal_strlit("math");
        reveal_strlit("condition");
        reveal_strlit("for_each");
        reveal_strlit("validate_form");
        reveal_strlit("create_record");
        reveal_strlit("read_record");
        reveal_strlit("update_record");
        reveal_strlit("delete_record");
        reveal_strlit("query_records");
        reveal_strlit("navigate");
        reveal_strlit("confirm");
        reveal_strlit("notify");
        reveal_strlit("return");
        reveal_strlit("fail");
        assert("constant"@.len() == 8);
        assert("input"@.len() == 5);
        assert("output"@.len() == 6);
        assert("object"@.len() == 6);
        assert("list"@.len() == 4);
        assert("field_access"@.len() == 12);
        assert("format"@.len() == 6);
        assert("compare"@.len() == 7);
        assert("boolean"@.len() == 7);
        assert("math"@.len() == 4);
        assert("condition"@.len() == 9);
        assert("for_each"@.len() == 8);
        assert("validate_form"@.len() == 13);
        assert("create_record"@.len() == 13);
        assert("read_record"@.len() == 11);
        assert("update_record"@.len() == 13);
        assert("delete_record"@.len() == 13);
        assert("query_records"@.len() == 13);
        assert("navigate"@.len() == 8);
        assert("confirm"@.len() == 7);
        assert("notify"@.len() == 6);
        assert("return"@.len() == 6);
        assert("fail"@.len() == 4);
        assert("fail"@[0] == 'f' && "list"@[0] == 'l');
        assert("fail"@[0] == 'f' && "math"@[0] == 'm');
    }
}

/// The editor offers one option for each of the kinds, and an option other than the capability
/// call is disabled exactly when a new node of its kind cannot be made; the capability call is
/// disabled when no capability is registered, and then no such node can be made either.
pub proof fn kind_options_follow_default_kinds(
    current_node_id: SymbolId,
    function: FunctionDefinition,
    models: Seq<ModelDefinition>,
    routes: Seq<RouteDefinition>,
    functions: Seq<FunctionDefinition>,
    capabilities: CapabilityCatalog,
)
    ensures
        ({
            let options = function_node_kind_options_spec(current_node_id, function, models, routes, functions, capabilities);
            &&& options.len() == 24
            &&& forall|i: int| 0 <= i < 23 ==> (#[trigger] options[i]).disabled == default_function_node_kind_spec(
                options[i].value, current_node_id, function, models, routes, functions, capabilities) is Err
            &&& options[23].value == "capability"@
            &&& options[23].disabled ==> default_function_node_kind_spec("capability"@, current_node_id, function, models, routes, functions, capabilities) is Err
        }),
{
    let options = function_node_kind_options_spec(current_node_id, function, models, routes, functions, capabilities);
    default_kind_errors_0(current_node_id, function, models, routes, functions, capabilities);
    default_kind_errors_1(current_node_id, function, models, routes, functions, capabilities);
    default_kind_errors_2(current_node_id, function, models, routes, functions, capabilities);
    default_kind_errors_3(current_node_id, function, models, routes, functions, capabilities);
    assert(options[0].value == "constant"@);
    assert(options[1].value == "input"@);
    assert(options[2].value == "output"@);
    assert(options[3].value == "object"@);
    assert(options[4].value == "list"@);
    assert(options[5].value == "field_access"@);
    assert(options[6].value == "format"@);
    assert(options[7].value == "compare"@);
    assert(options[8].value == "boolean"@);
    assert(options[9].value == "math"@);
    assert(options[10].value == "condition"@);
    assert(options[11].value == "for_each"@);
    assert(options[12].value == "validate_form"@);
    assert(options[13].value == "create_record"@);
    assert(options[14].value == "read_record"@);
    assert(options[15].value == "update_record"@);
    assert(options[16].value == "delete_record"@);
    assert(options[17].value == "query_records"@);
    assert(options[18].value == "navigate"@);
    assert(options[19].value == "confirm"@);
    assert(options[20].value == "notify"@);
    assert(options[21].value == "return"@);
    assert(options[22].value == "fail"@);
    assert(options[23].value == "capability"@);
    assert(capabilities.capabilities.len() == 0 ==> default_function_node_kind_spec("capability"@, current_node_id, function, models, routes, functions, capabilities) is Err) by {
        reveal_strlit("constant");
        reveal_strlit("input");
        reveal_strlit("output");
        reveal_strlit("object");
        reveal_strlit("list");
        reveal_strlit("field_access");
        reveal_strlit("format");
        reveal_strlit("compare");
        reveal_strlit("boolean");
        reveal_strlit("math");
        reveal_strlit("condition");
        reveal_strlit("for_each");
        reveal_strlit("validate_form");
        reveal_strlit("create_record");
        reveal_strlit("read_record");
        reveal_strlit("update_record");
        reveal_strlit("delete_record");
        reveal_strlit("query_records");
        reveal_strlit("navigate");
        reveal_strlit("confirm");
        reveal_strlit("notify");
        reveal_strlit("return");
        reveal_strlit("fail");
        reveal_strlit("capability");
        assert("constant"@.len() == 8);
        assert("input"@.len() == 5);
        assert("output"@.len() == 6);
        assert("object"@.len() == 6);
        assert("list"@.len() == 4);
        assert("field_access"@.len() == 12);
        assert("format"@.len() == 6);
        assert("compare"@.len() == 7);
        assert("boolean"@.len() == 7);
        assert("math"@.len() == 4);
        assert("condition"@.len() == 9);
        assert("for_each"@.len() == 8);
        assert("validate_form"@.len() == 13);
        assert("create_record"@.len() == 13);
        assert("read_record"@.len() == 11);
        assert("update_record"@.len() == 13);
        assert("delete_record"@.len() == 13);
        assert("query_records"@.len() == 13);
        assert("navigate"@.len() == 8);
        assert("confirm"@.len() == 7);
        assert("notify"@.len() == 6);
        assert("return"@.len() == 6);
        assert("fail"@.len() == 4);
        assert("capability"@.len() == 10);
    }
    assert forall|i: int| 0 <= i < 23 implies (#[trigger] options[i]).disabled == default_function_node_kind_spec(
        options[i].value, current_node_id, function, models, routes, functions, capabilities) is Err by {
        if i == 0 {
        } else if i == 1 {
        } else if i == 2 {
        } else if i == 3 {
        } else if i == 4 {
        } else if i == 5 {
        } else if i == 6 {
        } else if i == 7 {
        } else if i == 8 {
        } else if i == 9 {
        } else if i == 10 {
        } else if i == 11 {
        } else if i == 12 {
        } else if i == 13 {
        } else if i == 14 {
        } else if i == 15 {
        } else if i == 16 {
        } else if i == 17 {
        } else if i == 18 {
        } else if i == 19 {
        } else if i == 20 {
        } else if i == 21 {
        } else if i == 22 {
        }
    }
}


/// The kind options list the kinds themselves: the constant first, and every kind's key among
/// the options' values.
pub proof fn kind_options_offer_every_kind(
    current_node_id: SymbolId,
    function: FunctionDefinition,
    models: Seq<ModelDefinition>,
    routes: Seq<RouteDefinition>,
    functions: Seq<FunctionDefinition>,
    capabilities: CapabilityCatalog,
    kind: FunctionNodeKindView,
)
    ensures
        ({
            let options = function_node_kind_options_spec(current_node_id, function, models, routes, functions, capabilities);
            &&& options[0].value == kind_view_key(FunctionNodeKindView::Constant { value: JsonView::Null, value_type: ValueType::Text })
            &&& exists|i: int| 0 <= i < options.len() && #[trigger] options[i].value == kind_view_key(kind)
        }),
{
    let options = function_node_kind_options_spec(current_node_id, function, models, routes, functions, capabilities);
    match kind {
        FunctionNodeKindView::Constant { .. } => assert(options[0].value == kind_view_key(kind)),
        FunctionNodeKindView::Input { .. } => assert(options[1].value == kind_view_key(kind)),
        FunctionNodeKindView::Output { .. } => assert(options[2].value == kind_view_key(kind)),
        FunctionNodeKindView::Object { .. } => assert(options[3].value == kind_view_key(kind)),
        FunctionNodeKindView::List { .. } => assert(options[4].value == kind_view_key(kind)),
        FunctionNodeKindView::FieldAccess { .. } => assert(options[5].value == kind_view_key(kind)),
        FunctionNodeKindView::Format { .. } => assert(options[6].value == kind_view_key(kind)),
        FunctionNodeKindView::Compare { .. } => assert(options[7].value == kind_view_key(kind)),
        FunctionNodeKindView::Boolean { .. } => assert(options[8].value == kind_view_key(kind)),
        FunctionNodeKindView::Math { .. } => assert(options[9].value == kind_view_key(kind)),
        FunctionNodeKindView::Condition => assert(options[10].value == kind_view_key(kind)),
        FunctionNodeKindView::ForEach { .. } => assert(options[11].value == kind_view_key(kind)),
        FunctionNodeKindView::ValidateForm { .. } => assert(options[12].value == kind_view_key(kind)),
        FunctionNodeKindView::CreateRecord { .. } => assert(options[13].value == kind_view_key(kind)),
        FunctionNodeKindView::ReadRecord { .. } => assert(options[14].value == kind_view_key(kind)),
        FunctionNodeKindView::UpdateRecord { .. } => assert(options[15].value == kind_view_key(kind)),
        FunctionNodeKindView::DeleteRecord { .. } => assert(options[16].value == kind_view_key(kind)),
        FunctionNodeKindView::QueryRecords { .. } => assert(options[17].value == kind_view_key(kind)),
        FunctionNodeKindView::Navigate { .. } => assert(options[18].value == kind_view_key(kind)),
        FunctionNodeKindView::Confirm { .. } => assert(options[19].value == kind_view_key(kind)),
        FunctionNodeKindView::Notify { .. } => assert(options[20].value == kind_view_key(kind)),
        FunctionNodeKindView::Return => assert(options[21].value == kind_view_key(kind)),
        FunctionNodeKindView::Fail { .. } => assert(options[22].value == kind_view_key(kind)),
        FunctionNodeKindView::Capability { .. } => assert(options[23].value == kind_view_key(kind)),
    }
}

} // verus!

verus! {

/// A record node made for the key of a record kind is of that kind, on the model given; so
/// choosing another model for a record node keeps its kind.
pub proof fn record_nodes_keep_their_kind(kind: FunctionNodeKindView, model_id: SymbolId)
    ensures
        kind is CreateRecord ==> (function_record_node_kind_spec(kind_view_key(kind), model_id)
            == FunctionNodeKindView::CreateRecord { model_id }),
        kind is ReadRecord ==> (function_record_node_kind_spec(kind_view_key(kind), model_id)
            == FunctionNodeKindView::ReadRecord { model_id }),
        kind is UpdateRecord ==> (function_record_node_kind_spec(kind_view_key(kind), model_id)
            == FunctionNodeKindView::UpdateRecord { model_id }),
        kind is DeleteRecord ==> (function_record_node_kind_spec(kind_view_key(kind), model_id)
            == FunctionNodeKindView::DeleteRecord { model_id }),
{
    reveal_strlit("create_record");
    reveal_strlit("read_record");
    reveal_strlit("update_record");
    reveal_strlit("delete_record");
    assert("create_record"@.len() == 13 && "read_record"@.len() == 11 && "update_record"@.len() == 13);
    assert("delete_record"@.len() == 13);
    assert("create_record"@[0] != "update_record"@[0] && "create_record"@[0] != "delete_record"@[0]);
    assert("update_record"@[0] != "delete_record"@[0]);
}

} // verus!
