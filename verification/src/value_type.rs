//! Value types of fields, ports and constants, and the designer's choices of them.

use vstd::prelude::*;
use crate::text::{parse_i64, parse_i64_spec};
use crate::json::{JsonNumber, JsonValue, JsonView};
use vstd::string::StrSliceExecFns;
use crate::text::text_eq;
use crate::options::{SelectOption, SelectOptionView, option_view, options_view, push_option};
use crate::symbol::{SymbolId, parse_symbol_spec};
use crate::model::RelationKind;
use vstd::string::StringExecFns;

verus! {

/// The type of a value held by a field, a port or a constant.
#[derive(Debug, PartialEq, Eq)]
pub enum ValueType {
    Any,
    Null,
    Boolean,
    Integer,
    Decimal,
    Text,
    TimestampMs,
    File,
    Object { model_id: SymbolId },
    List { item: Box<ValueType> },
    Optional { value: Box<ValueType> },
}

impl ValueType {
    /// A copy of the type.
    pub fn duplicate(&self) -> (copy: ValueType)
        ensures
            copy == *self,
        decreases self,
    {
        match self {
            ValueType::Any => ValueType::Any,
            ValueType::Null => ValueType::Null,
            ValueType::Boolean => ValueType::Boolean,
            ValueType::Integer => ValueType::Integer,
            ValueType::Decimal => ValueType::Decimal,
            ValueType::Text => ValueType::Text,
            ValueType::TimestampMs => ValueType::TimestampMs,
            ValueType::File => ValueType::File,
            ValueType::Object { model_id } => ValueType::Object { model_id: *model_id },
            ValueType::List { item } => ValueType::List { item: Box::new(item.duplicate()) },
            ValueType::Optional { value } => ValueType::Optional { value: Box::new(value.duplicate()) },
        }
    }
}

/// A `Result` whose error text is taken by its view.
pub open spec fn type_result_view(r: Result<ValueType, String>) -> Result<ValueType, Seq<char>> {
    match r {
        Ok(t) => Ok(t),
        Err(e) => Err(e@),
    }
}

pub open spec fn editable_value_type_key_spec(value_type: ValueType) -> Seq<char> {
    match value_type {
        ValueType::Text => "text"@,
        ValueType::Integer => "integer"@,
        ValueType::Decimal => "decimal"@,
        ValueType::Boolean => "boolean"@,
        ValueType::TimestampMs => "timestamp_ms"@,
        ValueType::File => "file"@,
        ValueType::Any => "any"@,
        _ => "preserve"@,
    }
}

/// The key of a value type in the field editor; composite types keep their definition ("preserve").
pub fn editable_value_type_key(value_type: &ValueType) -> (key: &'static str)
    ensures
        key@ == editable_value_type_key_spec(*value_type),
{
    match value_type {
        ValueType::Text => "text",
        ValueType::Integer => "integer",
        ValueType::Decimal => "decimal",
        ValueType::Boolean => "boolean",
        ValueType::TimestampMs => "timestamp_ms",
        ValueType::File => "file",
        ValueType::Any => "any",
        ValueType::Null | ValueType::Object { .. } | ValueType::List { .. } | ValueType::Optional { .. } => "preserve",
    }
}

pub open spec fn value_type_from_key_spec(key: Seq<char>) -> ValueType {
    if key == "integer"@ {
        ValueType::Integer
    } else if key == "decimal"@ {
        ValueType::Decimal
    } else if key == "boolean"@ {
        ValueType::Boolean
    } else if key == "timestamp_ms"@ {
        ValueType::TimestampMs
    } else if key == "file"@ {
        ValueType::File
    } else if key == "any"@ {
        ValueType::Any
    } else {
        ValueType::Text
    }
}

/// The scalar value type of a key; any other key gives `Text`.
pub fn value_type_from_key(key: &str) -> (value_type: ValueType)
    ensures
        value_type == value_type_from_key_spec(key@),
{
    if text_eq(key, "integer") {
        ValueType::Integer
    } else if text_eq(key, "decimal") {
        ValueType::Decimal
    } else if text_eq(key, "boolean") {
        ValueType::Boolean
    } else if text_eq(key, "timestamp_ms") {
        ValueType::TimestampMs
    } else if text_eq(key, "file") {
        ValueType::File
    } else if text_eq(key, "any") {
        ValueType::Any
    } else {
        ValueType::Text
    }
}

pub open spec fn editable_value_type_from_key_spec(key: Seq<char>, current: ValueType) -> ValueType {
    if key == "preserve"@ {
        current
    } else {
        value_type_from_key_spec(key)
    }
}

/// The value type chosen in the field editor: "preserve" keeps the current type.
pub fn editable_value_type_from_key(key: &str, current: &ValueType) -> (value_type: ValueType)
    ensures
        value_type == editable_value_type_from_key_spec(key@, *current),
{
    if text_eq(key, "preserve") {
        current.duplicate()
    } else {
        value_type_from_key(key)
    }
}

pub proof fn lemma_value_type_keys()
    ensures
        "text"@ =~= seq!['t', 'e', 'x', 't'],
        "integer"@ =~= seq!['i', 'n', 't', 'e', 'g', 'e', 'r'],
        "decimal"@ =~= seq!['d', 'e', 'c', 'i', 'm', 'a', 'l'],
        "boolean"@ =~= seq!['b', 'o', 'o', 'l', 'e', 'a', 'n'],
        "timestamp_ms"@ =~= seq!['t', 'i', 'm', 'e', 's', 't', 'a', 'm', 'p', '_', 'm', 's'],
        "file"@ =~= seq!['f', 'i', 'l', 'e'],
        "any"@ =~= seq!['a', 'n', 'y'],
        "preserve"@ =~= seq!['p', 'r', 'e', 's', 'e', 'r', 'v', 'e'],
        "object"@ =~= seq!['o', 'b', 'j', 'e', 'c', 't'],
        "optional_object"@ =~= seq!['o', 'p', 't', 'i', 'o', 'n', 'a', 'l', '_', 'o', 'b', 'j', 'e', 'c', 't'],
        "list_object"@ =~= seq!['l', 'i', 's', 't', '_', 'o', 'b', 'j', 'e', 'c', 't'],
{
    reveal_strlit("text");
    reveal_strlit("integer");
    reveal_strlit("decimal");
    reveal_strlit("boolean");
    reveal_strlit("timestamp_ms");
    reveal_strlit("file");
    reveal_strlit("any");
    reveal_strlit("preserve");
    reveal_strlit("object");
    reveal_strlit("optional_object");
    reveal_strlit("list_object");
}

/// Submitting the field editor with the key it shows for a type gives that type back.
pub proof fn editable_value_type_key_round_trip(value_type: ValueType)
    ensures
        editable_value_type_from_key_spec(editable_value_type_key_spec(value_type), value_type) == value_type,
{
    lemma_value_type_keys();
}

pub open spec fn value_type_label_spec(value_type: ValueType) -> Seq<char> {
    match value_type {
        ValueType::Any => "任意结构"@,
        ValueType::Null => "空值"@,
        ValueType::Boolean => "布尔"@,
        ValueType::Integer => "整数"@,
        ValueType::Decimal => "小数"@,
        ValueType::Text => "文本"@,
        ValueType::TimestampMs => "时间"@,
        ValueType::File => "文件"@,
        ValueType::Object { .. } => "对象"@,
        ValueType::List { .. } => "列表"@,
        ValueType::Optional { .. } => "可选"@,
    }
}

/// The label shown for a value type.
pub fn value_type_label(value_type: &ValueType) -> (label: &'static str)
    ensures
        label@ == value_type_label_spec(*value_type),
{
    match value_type {
        ValueType::Any => "任意结构",
        ValueType::Null => "空值",
        ValueType::Boolean => "布尔",
        ValueType::Integer => "整数",
        ValueType::Decimal => "小数",
        ValueType::Text => "文本",
        ValueType::TimestampMs => "时间",
        ValueType::File => "文件",
        ValueType::Object { .. } => "对象",
        ValueType::List { .. } => "列表",
        ValueType::Optional { .. } => "可选",
    }
}

pub open spec fn scalar_type_options_spec() -> Seq<SelectOptionView> {
    seq![
        option_view("text"@, "文本"@, false, false),
        option_view("integer"@, "整数"@, false, false),
        option_view("decimal"@, "小数"@, false, false),
        option_view("boolean"@, "布尔"@, false, false),
        option_view("timestamp_ms"@, "时间"@, false, false),
        option_view("file"@, "文件"@, false, false),
        option_view("any"@, "任意结构"@, false, false),
    ]
}

/// The choice that keeps a composite type, labelled with the type's label.
pub open spec fn preserve_option_spec(current: ValueType) -> Seq<SelectOptionView> {
    if editable_value_type_key_spec(current) == "preserve"@ {
        seq![option_view("preserve"@, value_type_label_spec(current) + "（保持定义）"@, false, false)]
    } else {
        Seq::empty()
    }
}

fn push_scalar_type_options(options: &mut Vec<SelectOption>)
    ensures
        options_view(final(options)@) == options_view(old(options)@) + scalar_type_options_spec(),
{
    let ghost start = options_view(options@);
    push_option(options, "text", "文本", false, false);
    push_option(options, "integer", "整数", false, false);
    push_option(options, "decimal", "小数", false, false);
    push_option(options, "boolean", "布尔", false, false);
    push_option(options, "timestamp_ms", "时间", false, false);
    push_option(options, "file", "文件", false, false);
    push_option(options, "any", "任意结构", false, false);
    assert(options_view(options@) =~= start + scalar_type_options_spec());
}

fn push_preserve_option(options: &mut Vec<SelectOption>, current: &ValueType)
    ensures
        options_view(final(options)@) == options_view(old(options)@) + preserve_option_spec(*current),
{
    let ghost start = options_view(options@);
    if text_eq(editable_value_type_key(current), "preserve") {
        let mut label = String::new();
        label.append(value_type_label(current));
        label.append("（保持定义）");
        push_option(options, "preserve", label.as_str(), false, false);
    }
    assert(options_view(options@) =~= start + preserve_option_spec(*current));
}

/// The value types offered by the index and query editors.
pub fn editable_value_type_options(current: &ValueType) -> (options: Vec<SelectOption>)
    ensures
        options_view(options@) == scalar_type_options_spec() + preserve_option_spec(*current),
{
    let mut options: Vec<SelectOption> = Vec::new();
    push_scalar_type_options(&mut options);
    push_preserve_option(&mut options, current);
    assert(options_view(options@) =~= scalar_type_options_spec() + preserve_option_spec(*current));
    options
}

/// The value types offered by the field editor: the scalar ones, a relation, and the current
/// composite type if there is one.
pub fn field_value_type_select_items(current: &ValueType) -> (options: Vec<SelectOption>)
    ensures
        options_view(options@) == scalar_type_options_spec() + seq![option_view("relation"@, "关联对象"@, false, false)]
            + preserve_option_spec(*current),
{
    let mut options: Vec<SelectOption> = Vec::new();
    push_scalar_type_options(&mut options);
    push_option(&mut options, "relation", "关联对象", false, false);
    push_preserve_option(&mut options, current);
    assert(options_view(options@) =~= scalar_type_options_spec() + seq![option_view("relation"@, "关联对象"@, false, false)]
        + preserve_option_spec(*current));
    options
}

pub open spec fn relation_value_type_spec(kind: RelationKind, target_model_id: SymbolId) -> ValueType {
    if kind == RelationKind::OneToMany || kind == RelationKind::ManyToMany {
        ValueType::List { item: Box::new(ValueType::Object { model_id: target_model_id }) }
    } else {
        ValueType::Object { model_id: target_model_id }
    }
}

/// The type of a relation field: one target object, or a list of them.
pub fn relation_value_type(kind: RelationKind, target_model_id: SymbolId) -> (value_type: ValueType)
    ensures
        value_type == relation_value_type_spec(kind, target_model_id),
{
    let value = ValueType::Object { model_id: target_model_id };
    if kind.is_collection() {
        ValueType::List { item: Box::new(value) }
    } else {
        value
    }
}

pub open spec fn function_port_type_key_spec(value_type: ValueType) -> Seq<char> {
    match value_type {
        ValueType::Text => "text"@,
        ValueType::Integer => "integer"@,
        ValueType::Decimal => "decimal"@,
        ValueType::Boolean => "boolean"@,
        ValueType::TimestampMs => "timestamp_ms"@,
        ValueType::File => "file"@,
        ValueType::Any => "any"@,
        ValueType::Object { .. } => "object"@,
        ValueType::Optional { value } => if *value is Object {
            "optional_object"@
        } else {
            "preserve"@
        },
        ValueType::List { item } => if *item is Object {
            "list_object"@
        } else {
            "preserve"@
        },
        ValueType::Null => "preserve"@,
    }
}

/// The key of a port's value type in the port editor.
pub fn function_port_type_key(value_type: &ValueType) -> (key: &'static str)
    ensures
        key@ == function_port_type_key_spec(*value_type),
{
    match value_type {
        ValueType::Text => "text",
        ValueType::Integer => "integer",
        ValueType::Decimal => "decimal",
        ValueType::Boolean => "boolean",
        ValueType::TimestampMs => "timestamp_ms",
        ValueType::File => "file",
        ValueType::Any => "any",
        ValueType::Object { .. } => "object",
        ValueType::Optional { value } => match &**value {
            ValueType::Object { .. } => "optional_object",
            _ => "preserve",
        },
        ValueType::List { item } => match &**item {
            ValueType::Object { .. } => "list_object",
            _ => "preserve",
        },
        ValueType::Null => "preserve",
    }
}

pub open spec fn value_type_model_id_spec(value_type: ValueType) -> Option<SymbolId>
    decreases value_type,
{
    match value_type {
        ValueType::Object { model_id } => Some(model_id),
        ValueType::Optional { value } => value_type_model_id_spec(*value),
        ValueType::List { item } => value_type_model_id_spec(*item),
        _ => None,
    }
}

/// The model that a value type refers to, looking through lists and optionals.
pub fn value_type_model_id(value_type: &ValueType) -> (model_id: Option<SymbolId>)
    ensures
        model_id == value_type_model_id_spec(*value_type),
    decreases value_type,
{
    match value_type {
        ValueType::Object { model_id } => Some(*model_id),
        ValueType::Optional { value } => value_type_model_id(value),
        ValueType::List { item } => value_type_model_id(item),
        ValueType::Any
        | ValueType::Null
        | ValueType::Boolean
        | ValueType::Integer
        | ValueType::Decimal
        | ValueType::Text
        | ValueType::TimestampMs
        | ValueType::File => None,
    }
}

pub open spec fn port_object_spec(model_id: Seq<char>) -> Result<ValueType, Seq<char>> {
    match parse_symbol_spec(model_id) {
        Some(v) => Ok(ValueType::Object { model_id: SymbolId { value: v } }),
        None => Err("请选择对象模型"@),
    }
}

pub open spec fn function_port_value_type_spec(key: Seq<char>, model_id: Seq<char>, current: ValueType) -> Result<ValueType, Seq<char>> {
    if key == "text"@ {
        Ok(ValueType::Text)
    } else if key == "integer"@ {
        Ok(ValueType::Integer)
    } else if key == "decimal"@ {
        Ok(ValueType::Decimal)
    } else if key == "boolean"@ {
        Ok(ValueType::Boolean)
    } else if key == "timestamp_ms"@ {
        Ok(ValueType::TimestampMs)
    } else if key == "file"@ {
        Ok(ValueType::File)
    } else if key == "any"@ {
        Ok(ValueType::Any)
    } else if key == "object"@ {
        port_object_spec(model_id)
    } else if key == "optional_object"@ {
        match port_object_spec(model_id) {
            Ok(t) => Ok(ValueType::Optional { value: Box::new(t) }),
            Err(e) => Err(e),
        }
    } else if key == "list_object"@ {
        match port_object_spec(model_id) {
            Ok(t) => Ok(ValueType::List { item: Box::new(t) }),
            Err(e) => Err(e),
        }
    } else if key == "preserve"@ {
        Ok(current)
    } else {
        Err("未知端口值类型"@)
    }
}

fn port_object(model_id: &str) -> (r: Result<ValueType, String>)
    ensures
        type_result_view(r) == port_object_spec(model_id@),
{
    match SymbolId::parse(model_id) {
        Some(id) => Ok(ValueType::Object { model_id: id }),
        None => Err("请选择对象模型".to_owned()),
    }
}

/// The value type chosen in the port editor from its type key and model choice.
pub fn function_port_value_type(key: &str, model_id: &str, current: &ValueType) -> (r: Result<ValueType, String>)
    ensures
        type_result_view(r) == function_port_value_type_spec(key@, model_id@, *current),
{
    if text_eq(key, "text") {
        Ok(ValueType::Text)
    } else if text_eq(key, "integer") {
        Ok(ValueType::Integer)
    } else if text_eq(key, "decimal") {
        Ok(ValueType::Decimal)
    } else if text_eq(key, "boolean") {
        Ok(ValueType::Boolean)
    } else if text_eq(key, "timestamp_ms") {
        Ok(ValueType::TimestampMs)
    } else if text_eq(key, "file") {
        Ok(ValueType::File)
    } else if text_eq(key, "any") {
        Ok(ValueType::Any)
    } else if text_eq(key, "object") {
        port_object(model_id)
    } else if text_eq(key, "optional_object") {
        match port_object(model_id) {
            Ok(t) => Ok(ValueType::Optional { value: Box::new(t) }),
            Err(e) => Err(e),
        }
    } else if text_eq(key, "list_object") {
        match port_object(model_id) {
            Ok(t) => Ok(ValueType::List { item: Box::new(t) }),
            Err(e) => Err(e),
        }
    } else if text_eq(key, "preserve") {
        Ok(current.duplicate())
    } else {
        Err("未知端口值类型".to_owned())
    }
}

/// The model choice that the port editor shows for a type: the text of its model, if any.
pub open spec fn port_model_text(value_type: ValueType) -> Seq<char> {
    match value_type_model_id_spec(value_type) {
        Some(m) => crate::symbol::symbol_text(m.value),
        None => Seq::empty(),
    }
}

/// Submitting the port editor unchanged keeps the port's type: the key and model choice shown
/// for a type give that type back.
pub proof fn function_port_value_type_round_trip(value_type: ValueType)
    ensures
        function_port_value_type_spec(function_port_type_key_spec(value_type), port_model_text(value_type), value_type)
            == Ok::<ValueType, Seq<char>>(value_type),
{
    lemma_value_type_keys();
    reveal_with_fuel(value_type_model_id_spec, 2);
    let key = function_port_type_key_spec(value_type);
    let t = port_model_text(value_type);
    match value_type {
        ValueType::Object { model_id } => {
            crate::symbol::symbol_text_round_trip(model_id.value);
            assert(port_object_spec(t) == Ok::<ValueType, Seq<char>>(value_type));
        },
        ValueType::Optional { value } => {
            if let ValueType::Object { model_id } = *value {
                crate::symbol::symbol_text_round_trip(model_id.value);
                assert(port_object_spec(t) == Ok::<ValueType, Seq<char>>(*value));
            }
        },
        ValueType::List { item } => {
            if let ValueType::Object { model_id } = *item {
                crate::symbol::symbol_text_round_trip(model_id.value);
                assert(port_object_spec(t) == Ok::<ValueType, Seq<char>>(*item));
            }
        },
        _ => {},
    }
}

pub open spec fn function_port_type_options_spec(current_key: Seq<char>) -> Seq<SelectOptionView> {
    seq![
        option_view("text"@, "文本"@, current_key == "text"@, false),
        option_view("integer"@, "整数"@, current_key == "integer"@, false),
        option_view("decimal"@, "小数"@, current_key == "decimal"@, false),
        option_view("boolean"@, "布尔"@, current_key == "boolean"@, false),
        option_view("timestamp_ms"@, "时间"@, current_key == "timestamp_ms"@, false),
        option_view("file"@, "文件"@, current_key == "file"@, false),
        option_view("any"@, "任意结构"@, current_key == "any"@, false),
        option_view("object"@, "对象"@, current_key == "object"@, false),
        option_view("optional_object"@, "可选对象"@, current_key == "optional_object"@, false),
        option_view("list_object"@, "对象列表"@, current_key == "list_object"@, false),
    ] + if current_key == "preserve"@ {
        seq![option_view("preserve"@, "保持现有复杂类型"@, true, false)]
    } else {
        Seq::empty()
    }
}

/// The value types offered by the port editor, the current key selected.
#[verifier::rlimit(40)]
pub fn function_port_type_options(current_key: &str) -> (options: Vec<SelectOption>)
    ensures
        options_view(options@) == function_port_type_options_spec(current_key@),
{
    let mut options: Vec<SelectOption> = Vec::new();
    push_option(&mut options, "text", "文本", text_eq(current_key, "text"), false);
    push_option(&mut options, "integer", "整数", text_eq(current_key, "integer"), false);
    push_option(&mut options, "decimal", "小数", text_eq(current_key, "decimal"), false);
    push_option(&mut options, "boolean", "布尔", text_eq(current_key, "boolean"), false);
    push_option(&mut options, "timestamp_ms", "时间", text_eq(current_key, "timestamp_ms"), false);
    push_option(&mut options, "file", "文件", text_eq(current_key, "file"), false);
    push_option(&mut options, "any", "任意结构", text_eq(current_key, "any"), false);
    push_option(&mut options, "object", "对象", text_eq(current_key, "object"), false);
    push_option(&mut options, "optional_object", "可选对象", text_eq(current_key, "optional_object"), false);
    push_option(&mut options, "list_object", "对象列表", text_eq(current_key, "list_object"), false);
    if text_eq(current_key, "preserve") {
        push_option(&mut options, "preserve", "保持现有复杂类型", true, false);
    }
    assert(options_view(options@) =~= function_port_type_options_spec(current_key@));
    options
}

/// What a constant node stores for the text typed in for a value of type `value_type`: an
/// integer or a boolean when the text spells one, nothing for a decimal, whose binary64 value
/// is read elsewhere, and otherwise the text itself.
pub open spec fn constant_value_spec(text: Seq<char>, value_type: ValueType) -> Option<JsonView> {
    match value_type {
        ValueType::Integer => Some(
            match parse_i64_spec(text) {
                Some(i) => JsonView::Number(
                    if i < 0 {
                        JsonNumber::NegInt(i)
                    } else {
                        JsonNumber::PosInt(i as u64)
                    },
                ),
                None => JsonView::String(text),
            },
        ),
        ValueType::Boolean => Some(
            if text == "true"@ {
                JsonView::Bool(true)
            } else if text == "false"@ {
                JsonView::Bool(false)
            } else {
                JsonView::String(text)
            },
        ),
        ValueType::Null => Some(JsonView::Null),
        ValueType::Decimal => None,
        _ => Some(JsonView::String(text)),
    }
}

/// The value a constant node stores for the text typed in, except for a decimal type.
pub fn constant_value(text: &str, value_type: &ValueType) -> (value: Option<JsonValue>)
    ensures
        match value {
            Some(v) => Some(v@),
            None => None::<JsonView>,
        } == constant_value_spec(text@, *value_type),
{
    match value_type {
        ValueType::Integer => Some(
            match parse_i64(text) {
                Some(i) => JsonValue::Number(
                    if i < 0 {
                        JsonNumber::NegInt(i)
                    } else {
                        JsonNumber::PosInt(i as u64)
                    },
                ),
                None => JsonValue::String(text.to_owned()),
            },
        ),
        ValueType::Boolean => Some(
            if text_eq(text, "true") {
                JsonValue::Bool(true)
            } else if text_eq(text, "false") {
                JsonValue::Bool(false)
            } else {
                JsonValue::String(text.to_owned())
            },
        ),
        ValueType::Null => Some(JsonValue::Null),
        ValueType::Decimal => None,
        _ => Some(JsonValue::String(text.to_owned())),
    }
}

} // verus!

verus! {

/// The text a boolean is typed as.
pub open spec fn boolean_text(b: bool) -> Seq<char> {
    if b {
        "true"@
    } else {
        "false"@
    }
}

/// A boolean constant typed as `true` or `false` is stored as that boolean; any other text is
/// kept as text. A null constant is null whatever is typed, and text types keep the text.
pub proof fn boolean_and_text_constants(b: bool, text: Seq<char>)
    ensures
        constant_value_spec(boolean_text(b), ValueType::Boolean) == Some(JsonView::Bool(b)),
        text != "true"@ && text != "false"@ ==> constant_value_spec(text, ValueType::Boolean) == Some(JsonView::String(text)),
        constant_value_spec(text, ValueType::Null) == Some(JsonView::Null),
        constant_value_spec(text, ValueType::Text) == Some(JsonView::String(text)),
        constant_value_spec(text, ValueType::Decimal) is None,
{
    reveal_strlit("true");
    reveal_strlit("false");
    assert("true"@.len() == 4 && "false"@.len() == 5);
}

/// An integer constant typed as the decimal digits of a number no larger than `i64::MAX` is
/// stored as that number, and typed with a leading `-` as its negation, down to `i64::MIN`.
pub proof fn integer_constants(n: nat)
    ensures
        n <= i64::MAX ==> constant_value_spec(crate::text::decimal_seq(n), ValueType::Integer) == Some(
            JsonView::Number(JsonNumber::PosInt(n as u64)),
        ),
        1 <= n <= 0x8000_0000_0000_0000 ==> constant_value_spec(seq!['-'] + crate::text::decimal_seq(n), ValueType::Integer)
            == Some(JsonView::Number(JsonNumber::NegInt((0 - n) as i64))),
{
    crate::text::lemma_decimal_round_trip(n);
    let d = crate::text::decimal_seq(n);
    assert(d[0] != '-' && d[0] != '+');
    assert(crate::text::unsigned_digits(d) == d);
    assert(crate::text::all_digits(d));
    let m = seq!['-'] + d;
    assert(m[0] == '-');
    assert(m.skip(1) =~= d);
}

} // verus!
