//! The rules of a form validation node and the edits the node editor makes to them.

use vstd::prelude::*;
use crate::symbol::SymbolId;
use crate::text::text_eq;
use crate::options::{SelectOption, SelectOptionView, option_view, options_view, push_option};
use crate::definition::{
    Decimal, FunctionNode, FunctionNodeKind, FunctionNodeKindView, ValidationRule, ValidationRuleKind,
    ValidationRuleKindView, ValidationRuleView, rules_view,
};

verus! {

pub open spec fn validation_rule_kind_key_spec(kind: ValidationRuleKindView) -> Seq<char> {
    match kind {
        ValidationRuleKindView::Required => "required"@,
        ValidationRuleKindView::MinLength { .. } => "min_length"@,
        ValidationRuleKindView::MaxLength { .. } => "max_length"@,
        ValidationRuleKindView::Minimum { .. } => "minimum"@,
        ValidationRuleKindView::Maximum { .. } => "maximum"@,
        ValidationRuleKindView::Pattern { .. } => "pattern"@,
    }
}

/// The stable key of a rule kind.
pub fn validation_rule_kind_key(kind: &ValidationRuleKind) -> (key: &'static str)
    ensures
        key@ == validation_rule_kind_key_spec(kind@),
{
    match kind {
        ValidationRuleKind::Required => "required",
        ValidationRuleKind::MinLength { .. } => "min_length",
        ValidationRuleKind::MaxLength { .. } => "max_length",
        ValidationRuleKind::Minimum { .. } => "minimum",
        ValidationRuleKind::Maximum { .. } => "maximum",
        ValidationRuleKind::Pattern { .. } => "pattern",
    }
}

/// The binary64 pattern of 100.0.
pub const ONE_HUNDRED_BITS: u64 = 0x4059_0000_0000_0000;

/// The rule a key starts as: a length of 1 or 100, a bound of 0 or 100, an empty pattern name;
/// any other key requires a value.
pub open spec fn default_validation_rule_kind_spec(key: Seq<char>) -> ValidationRuleKindView {
    if key == "min_length"@ {
        ValidationRuleKindView::MinLength { value: 1 }
    } else if key == "max_length"@ {
        ValidationRuleKindView::MaxLength { value: 100 }
    } else if key == "minimum"@ {
        ValidationRuleKindView::Minimum { value: Decimal { bits: 0 } }
    } else if key == "maximum"@ {
        ValidationRuleKindView::Maximum { value: Decimal { bits: ONE_HUNDRED_BITS } }
    } else if key == "pattern"@ {
        ValidationRuleKindView::Pattern { name: Seq::empty() }
    } else {
        ValidationRuleKindView::Required
    }
}

/// The rule a newly chosen kind starts as.
pub fn default_validation_rule_kind(key: &str) -> (kind: ValidationRuleKind)
    ensures
        kind@ == default_validation_rule_kind_spec(key@),
{
    if text_eq(key, "min_length") {
        ValidationRuleKind::MinLength { value: 1 }
    } else if text_eq(key, "max_length") {
        ValidationRuleKind::MaxLength { value: 100 }
    } else if text_eq(key, "minimum") {
        ValidationRuleKind::Minimum { value: Decimal { bits: 0 } }
    } else if text_eq(key, "maximum") {
        ValidationRuleKind::Maximum { value: Decimal { bits: ONE_HUNDRED_BITS } }
    } else if text_eq(key, "pattern") {
        ValidationRuleKind::Pattern { name: String::new() }
    } else {
        ValidationRuleKind::Required
    }
}

/// Choosing a rule's own kind again keeps the kind: the rule it starts as has the same key.
pub proof fn validation_rule_kind_key_round_trip(kind: ValidationRuleKindView)
    ensures
        validation_rule_kind_key_spec(default_validation_rule_kind_spec(validation_rule_kind_key_spec(kind)))
            == validation_rule_kind_key_spec(kind),
{
    reveal_strlit("required");
    reveal_strlit("min_length");
    reveal_strlit("max_length");
    reveal_strlit("minimum");
    reveal_strlit("maximum");
    reveal_strlit("pattern");
}

pub open spec fn validation_rule_kind_options_spec(current_key: Seq<char>) -> Seq<SelectOptionView> {
    seq![
        option_view("required"@, "必填"@, current_key == "required"@, false),
        option_view("min_length"@, "最小长度"@, current_key == "min_length"@, false),
        option_view("max_length"@, "最大长度"@, current_key == "max_length"@, false),
        option_view("minimum"@, "最小值"@, current_key == "minimum"@, false),
        option_view("maximum"@, "最大值"@, current_key == "maximum"@, false),
        option_view("pattern"@, "命名模式"@, current_key == "pattern"@, false),
    ]
}

/// The rule kinds offered, the current one selected.
pub fn validation_rule_kind_options(current_key: &str) -> (options: Vec<SelectOption>)
    ensures
        options_view(options@) == validation_rule_kind_options_spec(current_key@),
{
    let mut options: Vec<SelectOption> = Vec::new();
    push_option(&mut options, "required", "必填", text_eq(current_key, "required"), false);
    push_option(&mut options, "min_length", "最小长度", text_eq(current_key, "min_length"), false);
    push_option(&mut options, "max_length", "最大长度", text_eq(current_key, "max_length"), false);
    push_option(&mut options, "minimum", "最小值", text_eq(current_key, "minimum"), false);
    push_option(&mut options, "maximum", "最大值", text_eq(current_key, "maximum"), false);
    push_option(&mut options, "pattern", "命名模式", text_eq(current_key, "pattern"), false);
    assert(options_view(options@) =~= validation_rule_kind_options_spec(current_key@));
    options
}

/// The node's kind after its rules, if it is a form validation, become `f(rules)`.
pub open spec fn with_rules(
    kind: FunctionNodeKindView,
    f: spec_fn(Seq<ValidationRuleView>) -> Seq<ValidationRuleView>,
) -> FunctionNodeKindView {
    match kind {
        FunctionNodeKindView::ValidateForm { rules } => FunctionNodeKindView::ValidateForm { rules: f(rules) },
        other => other,
    }
}

/// Whether `after` is `before` with only its kind changed, to `kind`.
pub open spec fn node_with_kind(before: FunctionNode, after: FunctionNode, kind: FunctionNodeKindView) -> bool {
    &&& after.id == before.id
    &&& after.name@ == before.name@
    &&& after.editor == before.editor
    &&& after.kind@ == kind
}

/// Takes the rules out of a form validation node, leaving a placeholder kind, or gives the
/// node back unchanged.
fn take_rules(node: &mut FunctionNode) -> (rules: Option<Vec<ValidationRule>>)
    ensures
        final(node).id == old(node).id,
        final(node).name@ == old(node).name@,
        final(node).editor == old(node).editor,
        match old(node).kind@ {
            FunctionNodeKindView::ValidateForm { rules: before } => rules matches Some(r) && rules_view(r@) == before,
            _ => rules is None && final(node).kind@ == old(node).kind@,
        },
{
    let mut kind = FunctionNodeKind::Condition;
    std::mem::swap(&mut kind, &mut node.kind);
    match kind {
        FunctionNodeKind::ValidateForm { rules } => Some(rules),
        other => {
            node.kind = other;
            None
        },
    }
}

pub open spec fn rule_view(field_id: SymbolId, rule: ValidationRuleKindView, message: Seq<char>) -> ValidationRuleView {
    ValidationRuleView { field_id, rule, message }
}

/// Adds a rule requiring the field `field_id`, with the message "不能为空", to a form
/// validation node; other nodes stay as they are.
pub fn add_validation_rule(node: &mut FunctionNode, field_id: SymbolId)
    ensures
        node_with_kind(
            *old(node),
            *final(node),
            with_rules(
                old(node).kind@,
                |rs: Seq<ValidationRuleView>| rs.push(rule_view(field_id, ValidationRuleKindView::Required, "不能为空"@)),
            ),
        ),
{
    if let Some(mut rules) = take_rules(node) {
        let ghost before = rules_view(rules@);
        rules.push(ValidationRule { field_id, rule: ValidationRuleKind::Required, message: "不能为空".to_owned() });
        assert(rules_view(rules@) =~= before.push(rule_view(field_id, ValidationRuleKindView::Required, "不能为空"@)));
        node.kind = FunctionNodeKind::ValidateForm { rules };
    }
}

/// The rules with the one at `index`, if there is one, changed by `f`.
pub open spec fn update_rule_at(
    rs: Seq<ValidationRuleView>,
    index: int,
    f: spec_fn(ValidationRuleView) -> ValidationRuleView,
) -> Seq<ValidationRuleView> {
    if 0 <= index < rs.len() {
        rs.update(index, f(rs[index]))
    } else {
        rs
    }
}

/// Points the rule at `index` of a form validation node at the field `field_id`.
pub fn set_validation_rule_field(node: &mut FunctionNode, index: usize, field_id: SymbolId)
    ensures
        node_with_kind(
            *old(node),
            *final(node),
            with_rules(
                old(node).kind@,
                |rs: Seq<ValidationRuleView>|
                    update_rule_at(rs, index as int, |r: ValidationRuleView| rule_view(field_id, r.rule, r.message)),
            ),
        ),
{
    if let Some(mut rules) = take_rules(node) {
        let ghost before = rules_view(rules@);
        if index < rules.len() {
            let rule = rules.remove(index);
            let moved = ValidationRule { field_id, rule: rule.rule, message: rule.message };
            rules.insert(index, moved);
            assert(rules_view(rules@) =~= before.update(index as int, rule_view(field_id, before[index as int].rule, before[index as int].message)));
        }
        node.kind = FunctionNodeKind::ValidateForm { rules };
    }
}

/// Gives the rule at `index` of a form validation node the kind `next_kind`.
pub fn update_validation_rule_kind(node: &mut FunctionNode, index: usize, next_kind: ValidationRuleKind)
    ensures
        node_with_kind(
            *old(node),
            *final(node),
            with_rules(
                old(node).kind@,
                |rs: Seq<ValidationRuleView>|
                    update_rule_at(rs, index as int, |r: ValidationRuleView| rule_view(r.field_id, next_kind@, r.message)),
            ),
        ),
{
    if let Some(mut rules) = take_rules(node) {
        let ghost before = rules_view(rules@);
        if index < rules.len() {
            let rule = rules.remove(index);
            let moved = ValidationRule { field_id: rule.field_id, rule: next_kind, message: rule.message };
            rules.insert(index, moved);
            assert(rules_view(rules@) =~= before.update(index as int, rule_view(before[index as int].field_id, next_kind@, before[index as int].message)));
        }
        node.kind = FunctionNodeKind::ValidateForm { rules };
    }
}

/// Gives the rule at `index` of a form validation node the failure message `message`.
pub fn set_validation_rule_message(node: &mut FunctionNode, index: usize, message: String)
    ensures
        node_with_kind(
            *old(node),
            *final(node),
            with_rules(
                old(node).kind@,
                |rs: Seq<ValidationRuleView>|
                    update_rule_at(rs, index as int, |r: ValidationRuleView| rule_view(r.field_id, r.rule, message@)),
            ),
        ),
{
    if let Some(mut rules) = take_rules(node) {
        let ghost before = rules_view(rules@);
        if index < rules.len() {
            let rule = rules.remove(index);
            let moved = ValidationRule { field_id: rule.field_id, rule: rule.rule, message };
            rules.insert(index, moved);
            assert(rules_view(rules@) =~= before.update(index as int, rule_view(before[index as int].field_id, before[index as int].rule, message@)));
        }
        node.kind = FunctionNodeKind::ValidateForm { rules };
    }
}

/// Removes the rule at `index` of a form validation node, unless it is the last rule left.
pub fn remove_validation_rule(node: &mut FunctionNode, index: usize)
    ensures
        node_with_kind(
            *old(node),
            *final(node),
            with_rules(
                old(node).kind@,
                |rs: Seq<ValidationRuleView>|
                    if rs.len() > 1 && index < rs.len() {
                        rs.remove(index as int)
                    } else {
                        rs
                    },
            ),
        ),
{
    if let Some(mut rules) = take_rules(node) {
        let ghost before = rules_view(rules@);
        if rules.len() > 1 && index < rules.len() {
            rules.remove(index);
            assert(rules_view(rules@) =~= before.remove(index as int));
        }
        node.kind = FunctionNodeKind::ValidateForm { rules };
    }
}

/// The length bound typed into a length rule's parameter: the rule at `index` becomes a minimum
/// (or, with `maximum`, a maximum) length rule of that bound when the text is a `u32`, and
/// nothing changes otherwise.
pub fn set_validation_rule_length(node: &mut FunctionNode, index: usize, text: &str, maximum: bool)
    ensures
        match crate::text::parse_u32_spec(text@) {
            Some(v) => node_with_kind(
                *old(node),
                *final(node),
                with_rules(
                    old(node).kind@,
                    |rs: Seq<ValidationRuleView>|
                        update_rule_at(
                            rs,
                            index as int,
                            |r: ValidationRuleView| rule_view(
                                r.field_id,
                                if maximum {
                                    ValidationRuleKindView::MaxLength { value: v }
                                } else {
                                    ValidationRuleKindView::MinLength { value: v }
                                },
                                r.message,
                            ),
                        ),
                ),
            ),
            None => *final(node) == *old(node),
        },
{
    match crate::text::parse_u32(text) {
        Some(value) => {
            let kind = if maximum {
                ValidationRuleKind::MaxLength { value }
            } else {
                ValidationRuleKind::MinLength { value }
            };
            update_validation_rule_kind(node, index, kind);
        },
        None => {},
    }
}

} // verus!
