//! The condition editor of a model query: a condition as the form holds it, and the condition it
//! submits.

use vstd::prelude::*;
use crate::symbol::{SymbolId, symbol_text, parse_symbol_spec};
use crate::text::{trim, trim_spec};
use crate::model::{
    QueryOperator, query_operator_key, query_operator_key_spec, query_operator_from_key, query_operator_from_key_spec,
};
use crate::definition::{FieldDefinition, ModelDefinition, QueryCondition};
use crate::model_designer::{find_field_from, find_model_from, find_field, find_model};
use vstd::string::StrSliceExecFns;

verus! {

/// A condition as the editor holds it: identifiers and operator as the texts of its selects.
pub enum QueryConditionDraft {
    Field { field_id: String, operator: String, parameter: String },
    Relation { relation_field_id: String, target_field_id: String, operator: String, parameter: String },
}

pub ghost enum QueryConditionDraftView {
    Field { field_id: Seq<char>, operator: Seq<char>, parameter: Seq<char> },
    Relation { relation_field_id: Seq<char>, target_field_id: Seq<char>, operator: Seq<char>, parameter: Seq<char> },
}

impl View for QueryConditionDraft {
    type V = QueryConditionDraftView;

    open spec fn view(&self) -> QueryConditionDraftView {
        match *self {
            QueryConditionDraft::Field { field_id, operator, parameter } => QueryConditionDraftView::Field {
                field_id: field_id@,
                operator: operator@,
                parameter: parameter@,
            },
            QueryConditionDraft::Relation { relation_field_id, target_field_id, operator, parameter } => {
                QueryConditionDraftView::Relation {
                    relation_field_id: relation_field_id@,
                    target_field_id: target_field_id@,
                    operator: operator@,
                    parameter: parameter@,
                }
            },
        }
    }
}

/// The mathematical value of a query condition.
pub ghost enum QueryConditionView {
    Field { field_id: SymbolId, operator: QueryOperator, parameter: Seq<char> },
    Relation { relation_field_id: SymbolId, target_field_id: SymbolId, operator: QueryOperator, parameter: Seq<char> },
}

pub open spec fn condition_view(c: QueryCondition) -> QueryConditionView {
    match c {
        QueryCondition::Field { field_id, operator, parameter } => QueryConditionView::Field {
            field_id,
            operator,
            parameter: parameter@,
        },
        QueryCondition::Relation { relation_field_id, target_field_id, operator, parameter } => {
            QueryConditionView::Relation { relation_field_id, target_field_id, operator, parameter: parameter@ }
        },
    }
}

pub open spec fn draft_of_spec(c: QueryCondition) -> QueryConditionDraftView {
    match c {
        QueryCondition::Field { field_id, operator, parameter } => QueryConditionDraftView::Field {
            field_id: symbol_text(field_id.value),
            operator: query_operator_key_spec(operator),
            parameter: parameter@,
        },
        QueryCondition::Relation { relation_field_id, target_field_id, operator, parameter } => {
            QueryConditionDraftView::Relation {
                relation_field_id: symbol_text(relation_field_id.value),
                target_field_id: symbol_text(target_field_id.value),
                operator: query_operator_key_spec(operator),
                parameter: parameter@,
            }
        },
    }
}

impl QueryConditionDraft {
    /// The draft that edits `condition`.
    pub fn from_definition(condition: &QueryCondition) -> (draft: QueryConditionDraft)
        ensures
            draft@ == draft_of_spec(*condition),
    {
        match condition {
            QueryCondition::Field { field_id, operator, parameter } => QueryConditionDraft::Field {
                field_id: field_id.to_text(),
                operator: query_operator_key(*operator).to_owned(),
                parameter: parameter.clone(),
            },
            QueryCondition::Relation { relation_field_id, target_field_id, operator, parameter } => {
                QueryConditionDraft::Relation {
                    relation_field_id: relation_field_id.to_text(),
                    target_field_id: target_field_id.to_text(),
                    operator: query_operator_key(*operator).to_owned(),
                    parameter: parameter.clone(),
                }
            },
        }
    }
}

/// The operator text of a draft.
pub fn query_condition_operator(condition: &QueryConditionDraft) -> (operator: String)
    ensures
        operator@ == (match condition@ {
            QueryConditionDraftView::Field { operator, .. } => operator,
            QueryConditionDraftView::Relation { operator, .. } => operator,
        }),
{
    match condition {
        QueryConditionDraft::Field { operator, .. } => operator.clone(),
        QueryConditionDraft::Relation { operator, .. } => operator.clone(),
    }
}

pub open spec fn has_field(fields: Seq<FieldDefinition>, id: SymbolId) -> bool {
    find_field_from(fields, id, 0) is Some
}

/// The condition a draft submits, or why it cannot be submitted: an identifier that does not
/// parse, a field that is not the model's, a relation field without a relation, a target model
/// that does not exist or lacks the target field, or a parameter name that is blank.
pub open spec fn condition_from_draft_spec(
    draft: QueryConditionDraftView,
    fields: Seq<FieldDefinition>,
    models: Seq<ModelDefinition>,
) -> Result<QueryConditionView, Seq<char>> {
    match draft {
        QueryConditionDraftView::Field { field_id, operator, parameter } => match parse_symbol_spec(field_id) {
            None => Err("请选择查询字段"@),
            Some(v) => if !has_field(fields, SymbolId { value: v }) {
                Err("查询字段不属于当前模型"@)
            } else if trim_spec(parameter).len() == 0 {
                Err("查询参数名不能为空"@)
            } else {
                Ok(
                    QueryConditionView::Field {
                        field_id: SymbolId { value: v },
                        operator: query_operator_from_key_spec(operator),
                        parameter: trim_spec(parameter),
                    },
                )
            },
        },
        QueryConditionDraftView::Relation { relation_field_id, target_field_id, operator, parameter } => match parse_symbol_spec(
            relation_field_id,
        ) {
            None => Err("请选择关联字段"@),
            Some(r) => match parse_symbol_spec(target_field_id) {
                None => Err("请选择关联模型字段"@),
                Some(t) => match find_field_from(fields, SymbolId { value: r }, 0) {
                    None => Err("所选字段尚未配置关系"@),
                    Some(i) => match fields[i].relation {
                        None => Err("所选字段尚未配置关系"@),
                        Some(relation) => match find_model_from(models, relation.target_model_id, 0) {
                            None => Err("关联模型不存在"@),
                            Some(m) => if !has_field(models[m].fields@, SymbolId { value: t }) {
                                Err("关联查询字段不属于对端模型"@)
                            } else if trim_spec(parameter).len() == 0 {
                                Err("关联查询参数名不能为空"@)
                            } else {
                                Ok(
                                    QueryConditionView::Relation {
                                        relation_field_id: SymbolId { value: r },
                                        target_field_id: SymbolId { value: t },
                                        operator: query_operator_from_key_spec(operator),
                                        parameter: trim_spec(parameter),
                                    },
                                )
                            },
                        },
                    },
                },
            },
        },
    }
}

pub open spec fn condition_result_view(r: Result<QueryCondition, String>) -> Result<QueryConditionView, Seq<char>> {
    match r {
        Ok(c) => Ok(condition_view(c)),
        Err(e) => Err(e@),
    }
}

/// The condition that a draft submits for a model with `fields`, or the message shown instead.
#[verifier::rlimit(40)]
pub fn query_condition_from_draft(
    condition: &QueryConditionDraft,
    fields: &[FieldDefinition],
    all_models: &[ModelDefinition],
) -> (r: Result<QueryCondition, String>)
    ensures
        condition_result_view(r) == condition_from_draft_spec(condition@, fields@, all_models@),
{
    match condition {
        QueryConditionDraft::Field { field_id, operator, parameter } => {
            let field_id = match SymbolId::parse(field_id.as_str()) {
                Some(id) => id,
                None => return Err("请选择查询字段".to_owned()),
            };
            if find_field(fields, field_id).is_none() {
                return Err("查询字段不属于当前模型".to_owned());
            }
            let parameter = trim(parameter.as_str());
            if parameter.unicode_len() == 0 {
                return Err("查询参数名不能为空".to_owned());
            }
            Ok(
                QueryCondition::Field {
                    field_id,
                    operator: query_operator_from_key(operator.as_str()),
                    parameter: parameter.to_owned(),
                },
            )
        },
        QueryConditionDraft::Relation { relation_field_id, target_field_id, operator, parameter } => {
            let relation_field_id = match SymbolId::parse(relation_field_id.as_str()) {
                Some(id) => id,
                None => return Err("请选择关联字段".to_owned()),
            };
            let target_field_id = match SymbolId::parse(target_field_id.as_str()) {
                Some(id) => id,
                None => return Err("请选择关联模型字段".to_owned()),
            };
            let relation = match find_field(fields, relation_field_id) {
                Some(i) => match fields[i].relation {
                    Some(relation) => relation,
                    None => return Err("所选字段尚未配置关系".to_owned()),
                },
                None => return Err("所选字段尚未配置关系".to_owned()),
            };
            let target_model = match find_model(all_models, relation.target_model_id) {
                Some(m) => &all_models[m],
                None => return Err("关联模型不存在".to_owned()),
            };
            if find_field(target_model.fields.as_slice(), target_field_id).is_none() {
                return Err("关联查询字段不属于对端模型".to_owned());
            }
            let parameter = trim(parameter.as_str());
            if parameter.unicode_len() == 0 {
                return Err("关联查询参数名不能为空".to_owned());
            }
            Ok(
                QueryCondition::Relation {
                    relation_field_id,
                    target_field_id,
                    operator: query_operator_from_key(operator.as_str()),
                    parameter: parameter.to_owned(),
                },
            )
        },
    }
}

/// A condition whose parameter name has no white space at either end.
pub open spec fn trimmed_parameter(c: QueryCondition) -> bool {
    match c {
        QueryCondition::Field { parameter, .. } => trim_spec(parameter@) == parameter@ && parameter@.len() > 0,
        QueryCondition::Relation { parameter, .. } => trim_spec(parameter@) == parameter@ && parameter@.len() > 0,
    }
}

/// Whether the fields a condition names exist: the field itself, or the relation field, its
/// target model and the target field there.
pub open spec fn condition_resolves(c: QueryCondition, fields: Seq<FieldDefinition>, models: Seq<ModelDefinition>) -> bool {
    match c {
        QueryCondition::Field { field_id, .. } => has_field(fields, field_id),
        QueryCondition::Relation { relation_field_id, target_field_id, .. } => match find_field_from(
            fields,
            relation_field_id,
            0,
        ) {
            Some(i) => match fields[i].relation {
                Some(relation) => match find_model_from(models, relation.target_model_id, 0) {
                    Some(m) => has_field(models[m].fields@, target_field_id),
                    None => false,
                },
                None => false,
            },
            None => false,
        },
    }
}

/// Submitting the editor of a valid condition unchanged gives the condition back.
pub proof fn condition_draft_round_trip(c: QueryCondition, fields: Seq<FieldDefinition>, models: Seq<ModelDefinition>)
    requires
        trimmed_parameter(c),
        condition_resolves(c, fields, models),
    ensures
        condition_from_draft_spec(draft_of_spec(c), fields, models) == Ok::<QueryConditionView, Seq<char>>(
            condition_view(c),
        ),
{
    match c {
        QueryCondition::Field { field_id, operator, parameter } => {
            crate::symbol::symbol_text_round_trip(field_id.value);
            crate::model::query_operator_key_round_trip(operator);
        },
        QueryCondition::Relation { relation_field_id, target_field_id, operator, parameter } => {
            crate::symbol::symbol_text_round_trip(relation_field_id.value);
            crate::symbol::symbol_text_round_trip(target_field_id.value);
            crate::model::query_operator_key_round_trip(operator);
        },
    }
}

} // verus!
