//! The definitions of a program that the designer edits: models, fields, routes, permissions
//! and functions.

use vstd::prelude::*;
use crate::symbol::SymbolId;
use crate::value_type::ValueType;
use crate::model::{RelationKind, QueryOperator, QueryConjunction};
use crate::operators::{CompareOperator, BooleanOperator, MathOperator, NotificationLevel};
use crate::json::{JsonValue, JsonView, json_view};

verus! {

/// A binary64 number that the library carries, by its IEEE 754 bit pattern, without computing
/// on it.
#[derive(Clone, Copy, Debug, PartialEq, Eq, Structural)]
pub struct Decimal {
    pub bits: u64,
}

/// The relation a field holds to a field of another (or the same) model.
#[derive(Clone, Copy, Debug, PartialEq, Eq, Structural)]
pub struct RelationDefinition {
    pub kind: RelationKind,
    pub target_model_id: SymbolId,
    pub target_field_id: SymbolId,
}

/// Where a field shows, what it allows, and the value a new record starts with.
#[derive(Debug)]
pub struct FieldOptions {
    pub list_visible: bool,
    pub detail_visible: bool,
    pub form_visible: bool,
    pub form_editable: bool,
    pub filterable: bool,
    pub sortable: bool,
    pub unique: bool,
    pub ai_extract: bool,
    pub default_value: Option<JsonValue>,
}

/// The mathematical value of a field's options.
pub ghost struct FieldOptionsView {
    pub list_visible: bool,
    pub detail_visible: bool,
    pub form_visible: bool,
    pub form_editable: bool,
    pub filterable: bool,
    pub sortable: bool,
    pub unique: bool,
    pub ai_extract: bool,
    pub default_value: Option<JsonView>,
}

pub open spec fn optional_json_view(v: Option<JsonValue>) -> Option<JsonView> {
    match v {
        Some(j) => Some(j@),
        None => None,
    }
}

impl View for FieldOptions {
    type V = FieldOptionsView;

    open spec fn view(&self) -> FieldOptionsView {
        FieldOptionsView {
            list_visible: self.list_visible,
            detail_visible: self.detail_visible,
            form_visible: self.form_visible,
            form_editable: self.form_editable,
            filterable: self.filterable,
            sortable: self.sortable,
            unique: self.unique,
            ai_extract: self.ai_extract,
            default_value: optional_json_view(self.default_value),
        }
    }
}

impl FieldOptions {
    /// A copy of the options.
    pub fn duplicate(&self) -> (copy: FieldOptions)
        ensures
            copy@ == self@,
    {
        FieldOptions {
            list_visible: self.list_visible,
            detail_visible: self.detail_visible,
            form_visible: self.form_visible,
            form_editable: self.form_editable,
            filterable: self.filterable,
            sortable: self.sortable,
            unique: self.unique,
            ai_extract: self.ai_extract,
            default_value: match &self.default_value {
                Some(v) => Some(v.duplicate()),
                None => None,
            },
        }
    }
}

/// The checks of a field's values.
pub struct FieldValidation {
    pub min_length: Option<u32>,
    pub max_length: Option<u32>,
    pub minimum: Option<Decimal>,
    pub maximum: Option<Decimal>,
    pub pattern: Option<String>,
    pub min_items: Option<u32>,
    pub max_items: Option<u32>,
    pub unique_items: bool,
}

/// A field of a model.
pub struct FieldDefinition {
    pub id: SymbolId,
    pub name: String,
    pub title: String,
    pub value_type: ValueType,
    pub required: bool,
    pub relation: Option<RelationDefinition>,
    pub options: FieldOptions,
    pub validation: FieldValidation,
}


/// The mathematical value of a field's checks.
pub ghost struct FieldValidationView {
    pub min_length: Option<u32>,
    pub max_length: Option<u32>,
    pub minimum: Option<Decimal>,
    pub maximum: Option<Decimal>,
    pub pattern: Option<Seq<char>>,
    pub min_items: Option<u32>,
    pub max_items: Option<u32>,
    pub unique_items: bool,
}

impl View for FieldValidation {
    type V = FieldValidationView;

    open spec fn view(&self) -> FieldValidationView {
        FieldValidationView {
            min_length: self.min_length,
            max_length: self.max_length,
            minimum: self.minimum,
            maximum: self.maximum,
            pattern: match self.pattern {
                Some(p) => Some(p@),
                None => None,
            },
            min_items: self.min_items,
            max_items: self.max_items,
            unique_items: self.unique_items,
        }
    }
}

/// The mathematical value of a field.
pub ghost struct FieldView {
    pub id: SymbolId,
    pub name: Seq<char>,
    pub title: Seq<char>,
    pub value_type: ValueType,
    pub required: bool,
    pub relation: Option<RelationDefinition>,
    pub options: FieldOptionsView,
    pub validation: FieldValidationView,
}

impl View for FieldDefinition {
    type V = FieldView;

    open spec fn view(&self) -> FieldView {
        FieldView {
            id: self.id,
            name: self.name@,
            title: self.title@,
            value_type: self.value_type,
            required: self.required,
            relation: self.relation,
            options: self.options@,
            validation: self.validation@,
        }
    }
}

/// A condition of a model query.
pub enum QueryCondition {
    Field { field_id: SymbolId, operator: QueryOperator, parameter: String },
    Relation { relation_field_id: SymbolId, target_field_id: SymbolId, operator: QueryOperator, parameter: String },
}

/// A named query of a model.
pub struct QueryDefinition {
    pub id: SymbolId,
    pub name: String,
    pub conjunction: QueryConjunction,
    pub conditions: Vec<QueryCondition>,
}

/// A rule over several fields of a model.
pub enum ModelValidationRule {
    FieldsRequiredTogether { field_ids: Vec<SymbolId> },
    AtLeastOneRequired { field_ids: Vec<SymbolId> },
    RequiredWhenPresent { field_id: SymbolId, when_field_id: SymbolId },
}

/// A model-level check with the message shown when it fails.
pub struct ModelValidationDefinition {
    pub id: SymbolId,
    pub rule: ModelValidationRule,
    pub message: String,
}

/// An index over fields of a model, in the order of the model's fields.
pub struct IndexDefinition {
    pub id: SymbolId,
    pub fields: Vec<SymbolId>,
    pub unique: bool,
}

pub ghost struct IndexView {
    pub id: SymbolId,
    pub fields: Seq<SymbolId>,
    pub unique: bool,
}

impl View for IndexDefinition {
    type V = IndexView;

    open spec fn view(&self) -> IndexView {
        IndexView { id: self.id, fields: self.fields@, unique: self.unique }
    }
}

/// The mathematical value of a model-level check.
pub ghost enum ModelValidationRuleView {
    FieldsRequiredTogether { field_ids: Seq<SymbolId> },
    AtLeastOneRequired { field_ids: Seq<SymbolId> },
    RequiredWhenPresent { field_id: SymbolId, when_field_id: SymbolId },
}

impl View for ModelValidationRule {
    type V = ModelValidationRuleView;

    open spec fn view(&self) -> ModelValidationRuleView {
        match *self {
            ModelValidationRule::FieldsRequiredTogether { field_ids } => ModelValidationRuleView::FieldsRequiredTogether {
                field_ids: field_ids@,
            },
            ModelValidationRule::AtLeastOneRequired { field_ids } => ModelValidationRuleView::AtLeastOneRequired {
                field_ids: field_ids@,
            },
            ModelValidationRule::RequiredWhenPresent { field_id, when_field_id } => {
                ModelValidationRuleView::RequiredWhenPresent { field_id, when_field_id }
            },
        }
    }
}

pub ghost struct ModelValidationView {
    pub id: SymbolId,
    pub rule: ModelValidationRuleView,
    pub message: Seq<char>,
}

impl View for ModelValidationDefinition {
    type V = ModelValidationView;

    open spec fn view(&self) -> ModelValidationView {
        ModelValidationView { id: self.id, rule: self.rule@, message: self.message@ }
    }
}

/// A model: a kind of record with its fields, indexes, queries and checks.
pub struct ModelDefinition {
    pub id: SymbolId,
    pub name: String,
    pub title: String,
    pub fields: Vec<FieldDefinition>,
    pub indexes: Vec<IndexDefinition>,
    pub queries: Vec<QueryDefinition>,
    pub validations: Vec<ModelValidationDefinition>,
}

/// The address at which a page is reached.
pub struct RouteDefinition {
    pub id: SymbolId,
    pub page_id: SymbolId,
    pub path: String,
}

/// A permission that menus, routes and functions can require.
pub struct PermissionDefinition {
    pub id: SymbolId,
    pub name: String,
    pub title: String,
}

/// A text property of a node.
pub enum PropertyValue {
    Text(String),
}

/// One rule of a form validation node.
#[allow(inconsistent_fields)]
pub enum ValidationRuleKind {
    Required,
    MinLength { value: u32 },
    MaxLength { value: u32 },
    Minimum { value: Decimal },
    Maximum { value: Decimal },
    Pattern { name: String },
}

/// A rule of a form validation node: the field it checks and the message shown on failure.
pub struct ValidationRule {
    pub field_id: SymbolId,
    pub rule: ValidationRuleKind,
    pub message: String,
}

/// What a node of a function graph does.
#[allow(inconsistent_fields)]
pub enum FunctionNodeKind {
    Constant { value: JsonValue, value_type: ValueType },
    Input { port_id: SymbolId },
    Output { port_id: SymbolId },
    /// Target field to source node, in increasing order of the target field.
    Object { fields: Vec<(SymbolId, SymbolId)> },
    List { items: Vec<SymbolId> },
    FieldAccess { object: SymbolId, field_id: SymbolId },
    Format { template: String, values: Vec<SymbolId> },
    Compare { operator: CompareOperator },
    Boolean { operator: BooleanOperator },
    Math { operator: MathOperator },
    Condition,
    ForEach { max_items: u32, body_function_id: SymbolId },
    ValidateForm { rules: Vec<ValidationRule> },
    CreateRecord { model_id: SymbolId },
    ReadRecord { model_id: SymbolId },
    UpdateRecord { model_id: SymbolId },
    DeleteRecord { model_id: SymbolId },
    QueryRecords { model_id: SymbolId, limit: u32 },
    Navigate { route_id: SymbolId },
    Confirm { message: PropertyValue },
    Notify { level: NotificationLevel },
    Return,
    Fail { code: String },
    Capability { capability_id: String, operation: String },
}


/// The mathematical value of a validation rule kind.
#[allow(inconsistent_fields)]
pub ghost enum ValidationRuleKindView {
    Required,
    MinLength { value: u32 },
    MaxLength { value: u32 },
    Minimum { value: Decimal },
    Maximum { value: Decimal },
    Pattern { name: Seq<char> },
}

impl View for ValidationRuleKind {
    type V = ValidationRuleKindView;

    open spec fn view(&self) -> ValidationRuleKindView {
        match *self {
            ValidationRuleKind::Required => ValidationRuleKindView::Required,
            ValidationRuleKind::MinLength { value } => ValidationRuleKindView::MinLength { value },
            ValidationRuleKind::MaxLength { value } => ValidationRuleKindView::MaxLength { value },
            ValidationRuleKind::Minimum { value } => ValidationRuleKindView::Minimum { value },
            ValidationRuleKind::Maximum { value } => ValidationRuleKindView::Maximum { value },
            ValidationRuleKind::Pattern { name } => ValidationRuleKindView::Pattern { name: name@ },
        }
    }
}

/// The mathematical value of a validation rule.
pub ghost struct ValidationRuleView {
    pub field_id: SymbolId,
    pub rule: ValidationRuleKindView,
    pub message: Seq<char>,
}

impl View for ValidationRule {
    type V = ValidationRuleView;

    open spec fn view(&self) -> ValidationRuleView {
        ValidationRuleView { field_id: self.field_id, rule: self.rule@, message: self.message@ }
    }
}

pub open spec fn rules_view(rules: Seq<ValidationRule>) -> Seq<ValidationRuleView> {
    rules.map_values(|r: ValidationRule| r@)
}

/// The mathematical value of a node kind: its texts as character sequences and its lists as
/// sequences.
#[allow(inconsistent_fields)]
pub ghost enum FunctionNodeKindView {
    Constant { value: JsonView, value_type: ValueType },
    Input { port_id: SymbolId },
    Output { port_id: SymbolId },
    Object { fields: Seq<(SymbolId, SymbolId)> },
    List { items: Seq<SymbolId> },
    FieldAccess { object: SymbolId, field_id: SymbolId },
    Format { template: Seq<char>, values: Seq<SymbolId> },
    Compare { operator: CompareOperator },
    Boolean { operator: BooleanOperator },
    Math { operator: MathOperator },
    Condition,
    ForEach { max_items: u32, body_function_id: SymbolId },
    ValidateForm { rules: Seq<ValidationRuleView> },
    CreateRecord { model_id: SymbolId },
    ReadRecord { model_id: SymbolId },
    UpdateRecord { model_id: SymbolId },
    DeleteRecord { model_id: SymbolId },
    QueryRecords { model_id: SymbolId, limit: u32 },
    Navigate { route_id: SymbolId },
    Confirm { message: Seq<char> },
    Notify { level: NotificationLevel },
    Return,
    Fail { code: Seq<char> },
    Capability { capability_id: Seq<char>, operation: Seq<char> },
}

impl View for FunctionNodeKind {
    type V = FunctionNodeKindView;

    open spec fn view(&self) -> FunctionNodeKindView {
        match *self {
            FunctionNodeKind::Constant { value, value_type } => FunctionNodeKindView::Constant {
                value: json_view(value),
                value_type,
            },
            FunctionNodeKind::Input { port_id } => FunctionNodeKindView::Input { port_id },
            FunctionNodeKind::Output { port_id } => FunctionNodeKindView::Output { port_id },
            FunctionNodeKind::Object { fields } => FunctionNodeKindView::Object { fields: fields@ },
            FunctionNodeKind::List { items } => FunctionNodeKindView::List { items: items@ },
            FunctionNodeKind::FieldAccess { object, field_id } => FunctionNodeKindView::FieldAccess { object, field_id },
            FunctionNodeKind::Format { template, values } => FunctionNodeKindView::Format {
                template: template@,
                values: values@,
            },
            FunctionNodeKind::Compare { operator } => FunctionNodeKindView::Compare { operator },
            FunctionNodeKind::Boolean { operator } => FunctionNodeKindView::Boolean { operator },
            FunctionNodeKind::Math { operator } => FunctionNodeKindView::Math { operator },
            FunctionNodeKind::Condition => FunctionNodeKindView::Condition,
            FunctionNodeKind::ForEach { max_items, body_function_id } => FunctionNodeKindView::ForEach {
                max_items,
                body_function_id,
            },
            FunctionNodeKind::ValidateForm { rules } => FunctionNodeKindView::ValidateForm { rules: rules_view(rules@) },
            FunctionNodeKind::CreateRecord { model_id } => FunctionNodeKindView::CreateRecord { model_id },
            FunctionNodeKind::ReadRecord { model_id } => FunctionNodeKindView::ReadRecord { model_id },
            FunctionNodeKind::UpdateRecord { model_id } => FunctionNodeKindView::UpdateRecord { model_id },
            FunctionNodeKind::DeleteRecord { model_id } => FunctionNodeKindView::DeleteRecord { model_id },
            FunctionNodeKind::QueryRecords { model_id, limit } => FunctionNodeKindView::QueryRecords { model_id, limit },
            FunctionNodeKind::Navigate { route_id } => FunctionNodeKindView::Navigate { route_id },
            FunctionNodeKind::Confirm { message } => match message {
                PropertyValue::Text(t) => FunctionNodeKindView::Confirm { message: t@ },
            },
            FunctionNodeKind::Notify { level } => FunctionNodeKindView::Notify { level },
            FunctionNodeKind::Return => FunctionNodeKindView::Return,
            FunctionNodeKind::Fail { code } => FunctionNodeKindView::Fail { code: code@ },
            FunctionNodeKind::Capability { capability_id, operation } => FunctionNodeKindView::Capability {
                capability_id: capability_id@,
                operation: operation@,
            },
        }
    }
}

/// Where a node sits on the function canvas.
#[derive(Clone, Copy, Debug, PartialEq, Eq, Structural)]
pub struct FunctionNodeEditor {
    pub x: i32,
    pub y: i32,
}

/// A node of a function graph.
pub struct FunctionNode {
    pub id: SymbolId,
    pub name: String,
    pub kind: FunctionNodeKind,
    pub editor: FunctionNodeEditor,
}

/// An input or output port of a function.
pub struct PortDefinition {
    pub id: SymbolId,
    pub name: String,
    pub value_type: ValueType,
}

/// A function: its ports and its graph of nodes.
pub struct FunctionDefinition {
    pub id: SymbolId,
    pub name: String,
    pub inputs: Vec<PortDefinition>,
    pub outputs: Vec<PortDefinition>,
    pub nodes: Vec<FunctionNode>,
}

/// A registered capability and its operations, by name in order.
pub struct CapabilityDefinition {
    pub operations: Vec<String>,
}

/// The capabilities that nodes can invoke, by identifier in order.
pub struct CapabilityCatalog {
    pub capabilities: Vec<(String, CapabilityDefinition)>,
}

/// Whether a catalog is well formed: its capabilities come in increasing order of identifier,
/// so that none occurs twice, and the operations of each in increasing order of name.
pub open spec fn catalog_wf(catalog: CapabilityCatalog) -> bool {
    let cs = catalog.capabilities@;
    &&& forall|i: int, j: int| 0 <= i < j < cs.len() ==> crate::text::text_lt((#[trigger] cs[i]).0@, (#[trigger] cs[j]).0@)
    &&& forall|i: int, a: int, b: int|
        0 <= i < cs.len() && 0 <= a < b < cs[i].1.operations.len() ==> crate::text::text_lt(
            #[trigger] cs[i].1.operations@[a]@,
            #[trigger] cs[i].1.operations@[b]@,
        )
}

} // verus!
