//! What the model designer shows of a model: its tabs, and the summaries of its queries and
//! checks.

use vstd::prelude::*;
use crate::symbol::SymbolId;
use crate::model::{query_operator_label, query_operator_label_spec};
use crate::definition::{FieldDefinition, ModelDefinition, QueryCondition, ModelValidationRule};
use vstd::string::StringExecFns;

verus! {

/// The first position at or after `i` of a field with identifier `id`.
pub open spec fn find_field_from(fields: Seq<FieldDefinition>, id: SymbolId, i: int) -> Option<int>
    decreases fields.len() - i,
{
    if i < 0 || i >= fields.len() {
        None
    } else if fields[i].id == id {
        Some(i)
    } else {
        find_field_from(fields, id, i + 1)
    }
}

/// The first position at or after `i` of a model with identifier `id`.
pub open spec fn find_model_from(models: Seq<ModelDefinition>, id: SymbolId, i: int) -> Option<int>
    decreases models.len() - i,
{
    if i < 0 || i >= models.len() {
        None
    } else if models[i].id == id {
        Some(i)
    } else {
        find_model_from(models, id, i + 1)
    }
}

pub(crate) fn find_field(fields: &[FieldDefinition], id: SymbolId) -> (found: Option<usize>)
    ensures
        match found {
            Some(i) => find_field_from(fields@, id, 0) == Some(i as int) && i < fields@.len(),
            None => find_field_from(fields@, id, 0) is None,
        },
{
    let mut i: usize = 0;
    while i < fields.len()
        invariant
            i <= fields.len(),
            find_field_from(fields@, id, 0) == find_field_from(fields@, id, i as int),
        decreases fields.len() - i,
    {
        if fields[i].id == id {
            return Some(i);
        }
        i = i + 1;
    }
    None
}

pub(crate) fn find_model(models: &[ModelDefinition], id: SymbolId) -> (found: Option<usize>)
    ensures
        match found {
            Some(i) => find_model_from(models@, id, 0) == Some(i as int) && i < models@.len(),
            None => find_model_from(models@, id, 0) is None,
        },
{
    let mut i: usize = 0;
    while i < models.len()
        invariant
            i <= models.len(),
            find_model_from(models@, id, 0) == find_model_from(models@, id, i as int),
        decreases models.len() - i,
    {
        if models[i].id == id {
            return Some(i);
        }
        i = i + 1;
    }
    None
}

/// The title of the field `id` among `fields`, or `missing`.
pub open spec fn field_title_or(fields: Seq<FieldDefinition>, id: SymbolId, missing: Seq<char>) -> Seq<char> {
    match find_field_from(fields, id, 0) {
        Some(i) => fields[i].title@,
        None => missing,
    }
}

fn field_title(fields: &[FieldDefinition], id: SymbolId, missing: &str) -> (title: String)
    ensures
        title@ == field_title_or(fields@, id, missing@),
{
    match find_field(fields, id) {
        Some(i) => fields[i].title.clone(),
        None => missing.to_owned(),
    }
}

/// The title of the field that a relation condition reads: the field `target_field_id` of the
/// model that the relation field points to.
pub open spec fn relation_target_title(
    fields: Seq<FieldDefinition>,
    relation_field_id: SymbolId,
    target_field_id: SymbolId,
    models: Seq<ModelDefinition>,
) -> Seq<char> {
    match find_field_from(fields, relation_field_id, 0) {
        Some(i) => match fields[i].relation {
            Some(r) => match find_model_from(models, r.target_model_id, 0) {
                Some(m) => field_title_or(models[m].fields@, target_field_id, "未知字段"@),
                None => "未知字段"@,
            },
            None => "未知字段"@,
        },
        None => "未知字段"@,
    }
}

/// How a query condition is shown: the field (through its relation), the operator and the
/// parameter after a colon.
pub open spec fn query_condition_summary_spec(
    condition: QueryCondition,
    fields: Seq<FieldDefinition>,
    models: Seq<ModelDefinition>,
) -> Seq<char> {
    match condition {
        QueryCondition::Field { field_id, operator, parameter } => field_title_or(fields, field_id, "未知字段"@) + " "@
            + query_operator_label_spec(operator) + " :"@ + parameter@,
        QueryCondition::Relation { relation_field_id, target_field_id, operator, parameter } => field_title_or(
            fields,
            relation_field_id,
            "未知关系"@,
        ) + "."@ + relation_target_title(fields, relation_field_id, target_field_id, models) + " "@
            + query_operator_label_spec(operator) + " :"@ + parameter@,
    }
}

/// The summary of a query condition of a model with `fields`.
pub fn query_condition_summary(condition: &QueryCondition, fields: &[FieldDefinition], all_models: &[ModelDefinition]) -> (text: String)
    ensures
        text@ == query_condition_summary_spec(*condition, fields@, all_models@),
{
    match condition {
        QueryCondition::Field { field_id, operator, parameter } => {
            let mut text = field_title(fields, *field_id, "未知字段");
            text.append(" ");
            text.append(query_operator_label(*operator));
            text.append(" :");
            text.append(parameter.as_str());
            text
        },
        QueryCondition::Relation { relation_field_id, target_field_id, operator, parameter } => {
            let mut text = field_title(fields, *relation_field_id, "未知关系");
            text.append(".");
            let target = match find_field(fields, *relation_field_id) {
                Some(i) => match &fields[i].relation {
                    Some(r) => match find_model(all_models, r.target_model_id) {
                        Some(m) => field_title(all_models[m].fields.as_slice(), *target_field_id, "未知字段"),
                        None => "未知字段".to_owned(),
                    },
                    None => "未知字段".to_owned(),
                },
                None => "未知字段".to_owned(),
            };
            text.append(target.as_str());
            text.append(" ");
            text.append(query_operator_label(*operator));
            text.append(" :");
            text.append(parameter.as_str());
            text
        },
    }
}

/// The fields a model check names, in order.
pub open spec fn rule_field_ids(rule: ModelValidationRule) -> Seq<SymbolId> {
    match rule {
        ModelValidationRule::FieldsRequiredTogether { field_ids } => field_ids@,
        ModelValidationRule::AtLeastOneRequired { field_ids } => field_ids@,
        ModelValidationRule::RequiredWhenPresent { field_id, when_field_id } => seq![field_id, when_field_id],
    }
}

/// Texts joined by " + ".
pub open spec fn joined_plus(texts: Seq<Seq<char>>) -> Seq<char>
    decreases texts.len(),
{
    if texts.len() == 0 {
        Seq::empty()
    } else if texts.len() == 1 {
        texts[0]
    } else {
        joined_plus(texts.drop_last()) + " + "@ + texts.last()
    }
}

/// The titles of the fields a model check names, joined by " + ", "未知字段" for a missing one.
pub open spec fn model_validation_fields_spec(rule: ModelValidationRule, fields: Seq<FieldDefinition>) -> Seq<char> {
    joined_plus(rule_field_ids(rule).map_values(|id: SymbolId| field_title_or(fields, id, "未知字段"@)))
}

/// The fields of a model check, as shown in the check table.
pub fn model_validation_fields(rule: &ModelValidationRule, fields: &[FieldDefinition]) -> (text: String)
    ensures
        text@ == model_validation_fields_spec(*rule, fields@),
{
    let ids: Vec<SymbolId> = match rule {
        ModelValidationRule::FieldsRequiredTogether { field_ids } => field_ids.clone(),
        ModelValidationRule::AtLeastOneRequired { field_ids } => field_ids.clone(),
        ModelValidationRule::RequiredWhenPresent { field_id, when_field_id } => vec![*field_id, *when_field_id],
    };
    assert(ids@ =~= rule_field_ids(*rule));
    let ghost titles = ids@.map_values(|id: SymbolId| field_title_or(fields@, id, "未知字段"@));
    let mut text = String::new();
    let mut i: usize = 0;
    while i < ids.len()
        invariant
            i <= ids.len(),
            titles == ids@.map_values(|id: SymbolId| field_title_or(fields@, id, "未知字段"@)),
            text@ == joined_plus(titles.take(i as int)),
        decreases ids.len() - i,
    {
        let title = field_title(fields, ids[i], "未知字段");
        assert(titles.take(i + 1).drop_last() =~= titles.take(i as int));
        if i == 0 {
            assert(text@.len() == 0);
            text.append(title.as_str());
            assert(text@ =~= titles.take(1)[0]);
        } else {
            text.append(" + ");
            text.append(title.as_str());
        }
        i = i + 1;
    }
    assert(titles.take(i as int) =~= titles);
    text
}

pub open spec fn model_validation_key_spec(rule: ModelValidationRule) -> Seq<char> {
    match rule {
        ModelValidationRule::FieldsRequiredTogether { .. } => "fields_required_together"@,
        ModelValidationRule::AtLeastOneRequired { .. } => "at_least_one_required"@,
        ModelValidationRule::RequiredWhenPresent { .. } => "required_when_present"@,
    }
}

/// The stable key of a model check's kind.
pub fn model_validation_key(rule: &ModelValidationRule) -> (key: &'static str)
    ensures
        key@ == model_validation_key_spec(*rule),
{
    match rule {
        ModelValidationRule::FieldsRequiredTogether { .. } => "fields_required_together",
        ModelValidationRule::AtLeastOneRequired { .. } => "at_least_one_required",
        ModelValidationRule::RequiredWhenPresent { .. } => "required_when_present",
    }
}

pub open spec fn model_validation_label_spec(rule: ModelValidationRule) -> Seq<char> {
    match rule {
        ModelValidationRule::FieldsRequiredTogether { .. } => "联合必填"@,
        ModelValidationRule::AtLeastOneRequired { .. } => "至少一个必填"@,
        ModelValidationRule::RequiredWhenPresent { .. } => "条件必填"@,
    }
}

/// The label of a model check's kind.
pub fn model_validation_label(rule: &ModelValidationRule) -> (label: &'static str)
    ensures
        label@ == model_validation_label_spec(*rule),
{
    match rule {
        ModelValidationRule::FieldsRequiredTogether { .. } => "联合必填",
        ModelValidationRule::AtLeastOneRequired { .. } => "至少一个必填",
        ModelValidationRule::RequiredWhenPresent { .. } => "条件必填",
    }
}

/// A tab of the model designer.
#[derive(Clone, Copy, Debug, PartialEq, Eq, Structural)]
pub enum ModelDesignerTab {
    Overview,
    Fields,
    Relations,
    Indexes,
    Queries,
    Validations,
}

/// The number of the first `n` fields that hold a relation.
pub open spec fn relation_count(fields: Seq<FieldDefinition>, n: int) -> nat
    decreases n,
{
    if n <= 0 {
        0
    } else {
        relation_count(fields, n - 1) + if fields[n - 1].relation is Some {
            1nat
        } else {
            0nat
        }
    }
}

proof fn lemma_relation_count_bound(fields: Seq<FieldDefinition>, n: int)
    requires
        0 <= n,
    ensures
        relation_count(fields, n) <= n,
    decreases n,
{
    if n > 0 {
        lemma_relation_count_bound(fields, n - 1);
    }
}

pub open spec fn model_designer_tabs_spec(model: ModelDefinition) -> Seq<(ModelDesignerTab, Seq<char>, Option<usize>)> {
    seq![
        (ModelDesignerTab::Overview, "概览"@, None),
        (ModelDesignerTab::Fields, "字段"@, Some(model.fields.len())),
        (ModelDesignerTab::Relations, "关系"@, Some(relation_count(model.fields@, model.fields.len() as int) as usize)),
        (ModelDesignerTab::Indexes, "索引"@, Some(model.indexes.len())),
        (ModelDesignerTab::Queries, "查询"@, Some(model.queries.len())),
        (ModelDesignerTab::Validations, "校验"@, Some(model.validations.len())),
    ]
}

pub open spec fn tabs_view(tabs: Seq<(ModelDesignerTab, &'static str, Option<usize>)>) -> Seq<
    (ModelDesignerTab, Seq<char>, Option<usize>),
> {
    tabs.map_values(|t: (ModelDesignerTab, &'static str, Option<usize>)| (t.0, t.1@, t.2))
}

/// The designer's tabs of a model, each with its title and, but for the overview, the number of
/// entries it lists.
pub fn model_designer_tabs(model: &ModelDefinition) -> (tabs: [(ModelDesignerTab, &'static str, Option<usize>); 6])
    ensures
        tabs_view(tabs@) == model_designer_tabs_spec(*model),
{
    let mut relations: usize = 0;
    let mut i: usize = 0;
    while i < model.fields.len()
        invariant
            i <= model.fields.len(),
            relations == relation_count(model.fields@, i as int),
        decreases model.fields.len() - i,
    {
        proof {
            lemma_relation_count_bound(model.fields@, i as int);
        }
        if model.fields[i].relation.is_some() {
            relations = relations + 1;
        }
        i = i + 1;
    }
    let tabs = [
        (ModelDesignerTab::Overview, "概览", None),
        (ModelDesignerTab::Fields, "字段", Some(model.fields.len())),
        (ModelDesignerTab::Relations, "关系", Some(relations)),
        (ModelDesignerTab::Indexes, "索引", Some(model.indexes.len())),
        (ModelDesignerTab::Queries, "查询", Some(model.queries.len())),
        (ModelDesignerTab::Validations, "校验", Some(model.validations.len())),
    ];
    assert(tabs_view(tabs@) =~= model_designer_tabs_spec(*model));
    tabs
}

} // verus!
