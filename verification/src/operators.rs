//! Operator enumerations of the function graph, with their stable keys and labels.

use vstd::prelude::*;
use vstd::string::StringExecFns;
use crate::text::text_eq;
use crate::options::{SelectOption, SelectOptionView, option_view, options_view, push_option};

verus! {

/// Comparison performed by a compare node.
#[derive(Clone, Copy, Debug, PartialEq, Eq, Structural)]
pub enum CompareOperator {
    Equal,
    NotEqual,
    Greater,
    GreaterOrEqual,
    Less,
    LessOrEqual,
    Contains,
}

pub open spec fn compare_operator_key_spec(value: CompareOperator) -> Seq<char> {
    match value {
        CompareOperator::Equal => "equal"@,
        CompareOperator::NotEqual => "not_equal"@,
        CompareOperator::Greater => "greater"@,
        CompareOperator::GreaterOrEqual => "greater_or_equal"@,
        CompareOperator::Less => "less"@,
        CompareOperator::LessOrEqual => "less_or_equal"@,
        CompareOperator::Contains => "contains"@,
    }
}

/// The stable key of a CompareOperator value.
pub fn compare_operator_key(value: CompareOperator) -> (key: &'static str)
    ensures
        key@ == compare_operator_key_spec(value),
{
    match value {
        CompareOperator::Equal => "equal",
        CompareOperator::NotEqual => "not_equal",
        CompareOperator::Greater => "greater",
        CompareOperator::GreaterOrEqual => "greater_or_equal",
        CompareOperator::Less => "less",
        CompareOperator::LessOrEqual => "less_or_equal",
        CompareOperator::Contains => "contains",
    }
}

pub open spec fn compare_operator_from_key_spec(key: Seq<char>) -> CompareOperator {
    if key == "not_equal"@ {
        CompareOperator::NotEqual
    } else if key == "greater"@ {
        CompareOperator::Greater
    } else if key == "greater_or_equal"@ {
        CompareOperator::GreaterOrEqual
    } else if key == "less"@ {
        CompareOperator::Less
    } else if key == "less_or_equal"@ {
        CompareOperator::LessOrEqual
    } else if key == "contains"@ {
        CompareOperator::Contains
    } else {
        CompareOperator::Equal
    }
}

/// Reads a CompareOperator back from its key; any other key gives `Equal`.
pub fn compare_operator_from_key(key: &str) -> (value: CompareOperator)
    ensures
        value == compare_operator_from_key_spec(key@),
{
    if text_eq(key, "not_equal") {
        CompareOperator::NotEqual
    } else if text_eq(key, "greater") {
        CompareOperator::Greater
    } else if text_eq(key, "greater_or_equal") {
        CompareOperator::GreaterOrEqual
    } else if text_eq(key, "less") {
        CompareOperator::Less
    } else if text_eq(key, "less_or_equal") {
        CompareOperator::LessOrEqual
    } else if text_eq(key, "contains") {
        CompareOperator::Contains
    } else {
        CompareOperator::Equal
    }
}

/// Every CompareOperator value is read back from its own key.
pub proof fn compare_operator_key_round_trip(value: CompareOperator)
    ensures
        compare_operator_from_key_spec(compare_operator_key_spec(value)) == value,
{
    reveal_strlit("equal");
    assert("equal"@ =~= seq!['e', 'q', 'u', 'a', 'l']);
    reveal_strlit("not_equal");
    assert("not_equal"@ =~= seq!['n', 'o', 't', '_', 'e', 'q', 'u', 'a', 'l']);
    reveal_strlit("greater");
    assert("greater"@ =~= seq!['g', 'r', 'e', 'a', 't', 'e', 'r']);
    reveal_strlit("greater_or_equal");
    assert("greater_or_equal"@ =~= seq!['g', 'r', 'e', 'a', 't', 'e', 'r', '_', 'o', 'r', '_', 'e', 'q', 'u', 'a', 'l']);
    reveal_strlit("less");
    assert("less"@ =~= seq!['l', 'e', 's', 's']);
    reveal_strlit("less_or_equal");
    assert("less_or_equal"@ =~= seq!['l', 'e', 's', 's', '_', 'o', 'r', '_', 'e', 'q', 'u', 'a', 'l']);
    reveal_strlit("contains");
    assert("contains"@ =~= seq!['c', 'o', 'n', 't', 'a', 'i', 'n', 's']);
}

pub open spec fn compare_operator_options_spec(current: CompareOperator) -> Seq<SelectOptionView> {
    seq![
        option_view("equal"@, "等于"@, current == CompareOperator::Equal, false),
        option_view("not_equal"@, "不等于"@, current == CompareOperator::NotEqual, false),
        option_view("greater"@, "大于"@, current == CompareOperator::Greater, false),
        option_view("greater_or_equal"@, "大于等于"@, current == CompareOperator::GreaterOrEqual, false),
        option_view("less"@, "小于"@, current == CompareOperator::Less, false),
        option_view("less_or_equal"@, "小于等于"@, current == CompareOperator::LessOrEqual, false),
        option_view("contains"@, "包含"@, current == CompareOperator::Contains, false),
    ]
}

/// The choices of a CompareOperator select box, the current value selected.
pub fn compare_operator_options(current: CompareOperator) -> (options: Vec<SelectOption>)
    ensures
        options_view(options@) == compare_operator_options_spec(current),
{
    let mut options: Vec<SelectOption> = Vec::new();
    push_option(&mut options, "equal", "等于", current == CompareOperator::Equal, false);
    push_option(&mut options, "not_equal", "不等于", current == CompareOperator::NotEqual, false);
    push_option(&mut options, "greater", "大于", current == CompareOperator::Greater, false);
    push_option(&mut options, "greater_or_equal", "大于等于", current == CompareOperator::GreaterOrEqual, false);
    push_option(&mut options, "less", "小于", current == CompareOperator::Less, false);
    push_option(&mut options, "less_or_equal", "小于等于", current == CompareOperator::LessOrEqual, false);
    push_option(&mut options, "contains", "包含", current == CompareOperator::Contains, false);
    assert(options_view(options@) =~= compare_operator_options_spec(current));
    options
}

/// Logic performed by a boolean node.
#[derive(Clone, Copy, Debug, PartialEq, Eq, Structural)]
pub enum BooleanOperator {
    And,
    Or,
    Not,
}

pub open spec fn boolean_operator_key_spec(value: BooleanOperator) -> Seq<char> {
    match value {
        BooleanOperator::And => "and"@,
        BooleanOperator::Or => "or"@,
        BooleanOperator::Not => "not"@,
    }
}

/// The stable key of a BooleanOperator value.
pub fn boolean_operator_key(value: BooleanOperator) -> (key: &'static str)
    ensures
        key@ == boolean_operator_key_spec(value),
{
    match value {
        BooleanOperator::And => "and",
        BooleanOperator::Or => "or",
        BooleanOperator::Not => "not",
    }
}

pub open spec fn boolean_operator_from_key_spec(key: Seq<char>) -> BooleanOperator {
    if key == "or"@ {
        BooleanOperator::Or
    } else if key == "not"@ {
        BooleanOperator::Not
    } else {
        BooleanOperator::And
    }
}

/// Reads a BooleanOperator back from its key; any other key gives `And`.
pub fn boolean_operator_from_key(key: &str) -> (value: BooleanOperator)
    ensures
        value == boolean_operator_from_key_spec(key@),
{
    if text_eq(key, "or") {
        BooleanOperator::Or
    } else if text_eq(key, "not") {
        BooleanOperator::Not
    } else {
        BooleanOperator::And
    }
}

/// Every BooleanOperator value is read back from its own key.
pub proof fn boolean_operator_key_round_trip(value: BooleanOperator)
    ensures
        boolean_operator_from_key_spec(boolean_operator_key_spec(value)) == value,
{
    reveal_strlit("and");
    assert("and"@ =~= seq!['a', 'n', 'd']);
    reveal_strlit("or");
    assert("or"@ =~= seq!['o', 'r']);
    reveal_strlit("not");
    assert("not"@ =~= seq!['n', 'o', 't']);
}

pub open spec fn boolean_operator_options_spec(current: BooleanOperator) -> Seq<SelectOptionView> {
    seq![
        option_view("and"@, "并且"@, current == BooleanOperator::And, false),
        option_view("or"@, "或者"@, current == BooleanOperator::Or, false),
        option_view("not"@, "取反"@, current == BooleanOperator::Not, false),
    ]
}

/// The choices of a BooleanOperator select box, the current value selected.
pub fn boolean_operator_options(current: BooleanOperator) -> (options: Vec<SelectOption>)
    ensures
        options_view(options@) == boolean_operator_options_spec(current),
{
    let mut options: Vec<SelectOption> = Vec::new();
    push_option(&mut options, "and", "并且", current == BooleanOperator::And, false);
    push_option(&mut options, "or", "或者", current == BooleanOperator::Or, false);
    push_option(&mut options, "not", "取反", current == BooleanOperator::Not, false);
    assert(options_view(options@) =~= boolean_operator_options_spec(current));
    options
}

/// Arithmetic performed by a math node.
#[derive(Clone, Copy, Debug, PartialEq, Eq, Structural)]
pub enum MathOperator {
    Add,
    Subtract,
    Multiply,
    Divide,
    Remainder,
}

pub open spec fn math_operator_key_spec(value: MathOperator) -> Seq<char> {
    match value {
        MathOperator::Add => "add"@,
        MathOperator::Subtract => "subtract"@,
        MathOperator::Multiply => "multiply"@,
        MathOperator::Divide => "divide"@,
        MathOperator::Remainder => "remainder"@,
    }
}

/// The stable key of a MathOperator value.
pub fn math_operator_key(value: MathOperator) -> (key: &'static str)
    ensures
        key@ == math_operator_key_spec(value),
{
    match value {
        MathOperator::Add => "add",
        MathOperator::Subtract => "subtract",
        MathOperator::Multiply => "multiply",
        MathOperator::Divide => "divide",
        MathOperator::Remainder => "remainder",
    }
}

pub open spec fn math_operator_from_key_spec(key: Seq<char>) -> MathOperator {
    if key == "subtract"@ {
        MathOperator::Subtract
    } else if key == "multiply"@ {
        MathOperator::Multiply
    } else if key == "divide"@ {
        MathOperator::Divide
    } else if key == "remainder"@ {
        MathOperator::Remainder
    } else {
        MathOperator::Add
    }
}

/// Reads a MathOperator back from its key; any other key gives `Add`.
pub fn math_operator_from_key(key: &str) -> (value: MathOperator)
    ensures
        value == math_operator_from_key_spec(key@),
{
    if text_eq(key, "subtract") {
        MathOperator::Subtract
    } else if text_eq(key, "multiply") {
        MathOperator::Multiply
    } else if text_eq(key, "divide") {
        MathOperator::Divide
    } else if text_eq(key, "remainder") {
        MathOperator::Remainder
    } else {
        MathOperator::Add
    }
}

/// Every MathOperator value is read back from its own key.
pub proof fn math_operator_key_round_trip(value: MathOperator)
    ensures
        math_operator_from_key_spec(math_operator_key_spec(value)) == value,
{
    reveal_strlit("add");
    assert("add"@ =~= seq!['a', 'd', 'd']);
    reveal_strlit("subtract");
    assert("subtract"@ =~= seq!['s', 'u', 'b', 't', 'r', 'a', 'c', 't']);
    reveal_strlit("multiply");
    assert("multiply"@ =~= seq!['m', 'u', 'l', 't', 'i', 'p', 'l', 'y']);
    reveal_strlit("divide");
    assert("divide"@ =~= seq!['d', 'i', 'v', 'i', 'd', 'e']);
    reveal_strlit("remainder");
    assert("remainder"@ =~= seq!['r', 'e', 'm', 'a', 'i', 'n', 'd', 'e', 'r']);
}

pub open spec fn math_operator_options_spec(current: MathOperator) -> Seq<SelectOptionView> {
    seq![
        option_view("add"@, "加"@, current == MathOperator::Add, false),
        option_view("subtract"@, "减"@, current == MathOperator::Subtract, false),
        option_view("multiply"@, "乘"@, current == MathOperator::Multiply, false),
        option_view("divide"@, "除"@, current == MathOperator::Divide, false),
        option_view("remainder"@, "取余"@, current == MathOperator::Remainder, false),
    ]
}

/// The choices of a MathOperator select box, the current value selected.
pub fn math_operator_options(current: MathOperator) -> (options: Vec<SelectOption>)
    ensures
        options_view(options@) == math_operator_options_spec(current),
{
    let mut options: Vec<SelectOption> = Vec::new();
    push_option(&mut options, "add", "加", current == MathOperator::Add, false);
    push_option(&mut options, "subtract", "减", current == MathOperator::Subtract, false);
    push_option(&mut options, "multiply", "乘", current == MathOperator::Multiply, false);
    push_option(&mut options, "divide", "除", current == MathOperator::Divide, false);
    push_option(&mut options, "remainder", "取余", current == MathOperator::Remainder, false);
    assert(options_view(options@) =~= math_operator_options_spec(current));
    options
}

/// Level of a notification shown by a notify node.
#[derive(Clone, Copy, Debug, PartialEq, Eq, Structural)]
pub enum NotificationLevel {
    Info,
    Success,
    Warning,
    Error,
}

pub open spec fn notification_level_key_spec(value: NotificationLevel) -> Seq<char> {
    match value {
        NotificationLevel::Info => "info"@,
        NotificationLevel::Success => "success"@,
        NotificationLevel::Warning => "warning"@,
        NotificationLevel::Error => "error"@,
    }
}

/// The stable key of a NotificationLevel value.
pub fn notification_level_key(value: NotificationLevel) -> (key: &'static str)
    ensures
        key@ == notification_level_key_spec(value),
{
    match value {
        NotificationLevel::Info => "info",
        NotificationLevel::Success => "success",
        NotificationLevel::Warning => "warning",
        NotificationLevel::Error => "error",
    }
}

pub open spec fn notification_level_from_key_spec(key: Seq<char>) -> NotificationLevel {
    if key == "success"@ {
        NotificationLevel::Success
    } else if key == "warning"@ {
        NotificationLevel::Warning
    } else if key == "error"@ {
        NotificationLevel::Error
    } else {
        NotificationLevel::Info
    }
}

/// Reads a NotificationLevel back from its key; any other key gives `Info`.
pub fn notification_level_from_key(key: &str) -> (value: NotificationLevel)
    ensures
        value == notification_level_from_key_spec(key@),
{
    if text_eq(key, "success") {
        NotificationLevel::Success
    } else if text_eq(key, "warning") {
        NotificationLevel::Warning
    } else if text_eq(key, "error") {
        NotificationLevel::Error
    } else {
        NotificationLevel::Info
    }
}

/// Every NotificationLevel value is read back from its own key.
pub proof fn notification_level_key_round_trip(value: NotificationLevel)
    ensures
        notification_level_from_key_spec(notification_level_key_spec(value)) == value,
{
    reveal_strlit("info");
    assert("info"@ =~= seq!['i', 'n', 'f', 'o']);
    reveal_strlit("success");
    assert("success"@ =~= seq!['s', 'u', 'c', 'c', 'e', 's', 's']);
    reveal_strlit("warning");
    assert("warning"@ =~= seq!['w', 'a', 'r', 'n', 'i', 'n', 'g']);
    reveal_strlit("error");
    assert("error"@ =~= seq!['e', 'r', 'r', 'o', 'r']);
}

pub open spec fn notification_level_options_spec(current: NotificationLevel) -> Seq<SelectOptionView> {
    seq![
        option_view("info"@, "信息"@, current == NotificationLevel::Info, false),
        option_view("success"@, "成功"@, current == NotificationLevel::Success, false),
        option_view("warning"@, "警告"@, current == NotificationLevel::Warning, false),
        option_view("error"@, "错误"@, current == NotificationLevel::Error, false),
    ]
}

/// The choices of a NotificationLevel select box, the current value selected.
pub fn notification_level_options(current: NotificationLevel) -> (options: Vec<SelectOption>)
    ensures
        options_view(options@) == notification_level_options_spec(current),
{
    let mut options: Vec<SelectOption> = Vec::new();
    push_option(&mut options, "info", "信息", current == NotificationLevel::Info, false);
    push_option(&mut options, "success", "成功", current == NotificationLevel::Success, false);
    push_option(&mut options, "warning", "警告", current == NotificationLevel::Warning, false);
    push_option(&mut options, "error", "错误", current == NotificationLevel::Error, false);
    assert(options_view(options@) =~= notification_level_options_spec(current));
    options
}

/// The comparison that a compiled compare instruction names, if it names one: its operator is
/// written in lower case without separators.
pub open spec fn compiled_compare_operator_spec(name: Seq<char>) -> Option<CompareOperator> {
    if name == "equal"@ {
        Some(CompareOperator::Equal)
    } else if name == "notequal"@ {
        Some(CompareOperator::NotEqual)
    } else if name == "greater"@ {
        Some(CompareOperator::Greater)
    } else if name == "greaterorequal"@ {
        Some(CompareOperator::GreaterOrEqual)
    } else if name == "less"@ {
        Some(CompareOperator::Less)
    } else if name == "lessorequal"@ {
        Some(CompareOperator::LessOrEqual)
    } else if name == "contains"@ {
        Some(CompareOperator::Contains)
    } else {
        None
    }
}

/// The comparison that a compiled compare instruction names, or the message for an unknown one.
pub fn compiled_compare_operator(name: &str) -> (r: Result<CompareOperator, String>)
    ensures
        match r {
            Ok(op) => compiled_compare_operator_spec(name@) == Some(op),
            Err(m) => compiled_compare_operator_spec(name@) is None && m@ == "未知比较运算: "@ + name@,
        },
{
    if text_eq(name, "equal") {
        Ok(CompareOperator::Equal)
    } else if text_eq(name, "notequal") {
        Ok(CompareOperator::NotEqual)
    } else if text_eq(name, "greater") {
        Ok(CompareOperator::Greater)
    } else if text_eq(name, "greaterorequal") {
        Ok(CompareOperator::GreaterOrEqual)
    } else if text_eq(name, "less") {
        Ok(CompareOperator::Less)
    } else if text_eq(name, "lessorequal") {
        Ok(CompareOperator::LessOrEqual)
    } else if text_eq(name, "contains") {
        Ok(CompareOperator::Contains)
    } else {
        let mut message = "未知比较运算: ".to_owned();
        message.append(name);
        Err(message)
    }
}

} // verus!
