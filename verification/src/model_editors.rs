//! What submitting the index and model-check editors does: the fields chosen, in the model's
//! order, the checks on them, and the patches that create or change the index or check.

use vstd::prelude::*;
use crate::symbol::{SymbolId, parse_symbol_spec};
use crate::text::{text_eq, trim, trim_spec};
use crate::menu::contains_id;
use crate::definition::{
    FieldDefinition, IndexDefinition, IndexView, ModelValidationDefinition, ModelValidationRule,
    ModelValidationRuleView, ModelValidationView,
};
use crate::json::{JsonValue, JsonView};
use crate::patch::{
    ChildCollection, EditableProperty, GraphEntity, GraphEntityView, GraphPatch, GraphPatchView, PatchValue,
    PatchValueView, patches_view,
};
use vstd::string::StrSliceExecFns;

verus! {

/// The fields among the first `n` of `fields` whose identifier is selected, in the model's order.
pub open spec fn selected_in_order(fields: Seq<FieldDefinition>, selected: Seq<SymbolId>, n: int) -> Seq<SymbolId>
    decreases n,
{
    if n <= 0 {
        Seq::empty()
    } else {
        let rest = selected_in_order(fields, selected, n - 1);
        if selected.contains(fields[n - 1].id) {
            rest.push(fields[n - 1].id)
        } else {
            rest
        }
    }
}

/// The identifiers of the selected fields, in the order of `fields`.
pub fn selected_field_ids(fields: &[FieldDefinition], selected: &[SymbolId]) -> (ids: Vec<SymbolId>)
    ensures
        ids@ == selected_in_order(fields@, selected@, fields@.len() as int),
{
    let mut ids: Vec<SymbolId> = Vec::new();
    let mut i: usize = 0;
    while i < fields.len()
        invariant
            i <= fields.len(),
            ids@ == selected_in_order(fields@, selected@, i as int),
        decreases fields.len() - i,
    {
        if contains_id(selected, fields[i].id) {
            ids.push(fields[i].id);
        }
        i = i + 1;
    }
    ids
}

pub open spec fn patches_result_view(r: Result<Vec<GraphPatch>, String>) -> Result<Seq<GraphPatchView>, Seq<char>> {
    match r {
        Ok(ps) => Ok(patches_view(ps@)),
        Err(e) => Err(e@),
    }
}

/// What submitting the index editor gives: the index's fields and uniqueness set when it exists,
/// its insertion after the model's indexes when it is new; refused without a field.
pub open spec fn index_editor_submit_spec(
    model_id: SymbolId,
    index_count: usize,
    index_id: SymbolId,
    editing: bool,
    fields: Seq<FieldDefinition>,
    selected: Seq<SymbolId>,
    unique: bool,
) -> Result<Seq<GraphPatchView>, Seq<char>> {
    let ordered = selected_in_order(fields, selected, fields.len() as int);
    if ordered.len() == 0 {
        Err("索引至少需要一个字段"@)
    } else if editing {
        Ok(
            seq![
                GraphPatchView::SetProperty {
                    target_id: index_id,
                    property: EditableProperty::ModelIndexFields,
                    value: PatchValueView::Ids(ordered),
                },
                GraphPatchView::SetProperty {
                    target_id: index_id,
                    property: EditableProperty::ModelIndexUnique,
                    value: PatchValueView::Json(JsonView::Bool(unique)),
                },
            ],
        )
    } else {
        Ok(
            seq![
                GraphPatchView::Insert {
                    parent_id: model_id,
                    collection: ChildCollection::ModelIndexes,
                    index: index_count,
                    entity: GraphEntityView::ModelIndex(IndexView { id: index_id, fields: ordered, unique }),
                },
            ],
        )
    }
}

/// Submits the index editor of model `model_id`, which has `index_count` indexes, for index
/// `index_id` over the fields `selected` among `fields`.
pub fn index_editor_submit(
    model_id: SymbolId,
    index_count: usize,
    index_id: SymbolId,
    editing: bool,
    fields: &[FieldDefinition],
    selected: &[SymbolId],
    unique: bool,
) -> (r: Result<Vec<GraphPatch>, String>)
    ensures
        patches_result_view(r) == index_editor_submit_spec(model_id, index_count, index_id, editing, fields@, selected@, unique),
{
    let ordered = selected_field_ids(fields, selected);
    if ordered.len() == 0 {
        return Err("索引至少需要一个字段".to_owned());
    }
    let ghost ordered_view = ordered@;
    let patches = if editing {
        vec![
            GraphPatch::SetProperty {
                target_id: index_id,
                property: EditableProperty::ModelIndexFields,
                value: PatchValue::Ids(ordered),
            },
            GraphPatch::SetProperty {
                target_id: index_id,
                property: EditableProperty::ModelIndexUnique,
                value: PatchValue::Json(JsonValue::Bool(unique)),
            },
        ]
    } else {
        vec![
            GraphPatch::Insert {
                parent_id: model_id,
                collection: ChildCollection::ModelIndexes,
                index: index_count,
                entity: GraphEntity::ModelIndex(IndexDefinition { id: index_id, fields: ordered, unique }),
            },
        ]
    };
    assert(patches_view(patches@) =~= index_editor_submit_spec(model_id, index_count, index_id, editing, fields@, selected@, unique)->Ok_0);
    Ok(patches)
}

/// The check that the editor's choices describe: a field required when another is present, or
/// two or more fields required together or at least one of them.
pub open spec fn validation_rule_choice(
    kind: Seq<char>,
    field_id: Seq<char>,
    when_field_id: Seq<char>,
    fields: Seq<FieldDefinition>,
    selected: Seq<SymbolId>,
) -> Result<ModelValidationRuleView, Seq<char>> {
    if kind == "required_when_present"@ {
        match parse_symbol_spec(field_id) {
            None => Err("请选择必填字段"@),
            Some(f) => match parse_symbol_spec(when_field_id) {
                None => Err("请选择条件字段"@),
                Some(w) => if f == w {
                    Err("必填字段与条件字段不能相同"@)
                } else {
                    Ok(
                        ModelValidationRuleView::RequiredWhenPresent {
                            field_id: SymbolId { value: f },
                            when_field_id: SymbolId { value: w },
                        },
                    )
                },
            },
        }
    } else {
        let ordered = selected_in_order(fields, selected, fields.len() as int);
        if ordered.len() < 2 {
            Err("组合校验至少需要两个字段"@)
        } else if kind == "fields_required_together"@ {
            Ok(ModelValidationRuleView::FieldsRequiredTogether { field_ids: ordered })
        } else {
            Ok(ModelValidationRuleView::AtLeastOneRequired { field_ids: ordered })
        }
    }
}

/// What submitting the model-check editor gives: the check set when it exists, inserted after
/// the model's checks when it is new; refused with a blank message or an incomplete choice.
pub open spec fn validation_editor_submit_spec(
    model_id: SymbolId,
    validation_count: usize,
    validation_id: SymbolId,
    editing: bool,
    fields: Seq<FieldDefinition>,
    kind: Seq<char>,
    message: Seq<char>,
    field_id: Seq<char>,
    when_field_id: Seq<char>,
    selected: Seq<SymbolId>,
) -> Result<Seq<GraphPatchView>, Seq<char>> {
    if trim_spec(message).len() == 0 {
        Err("校验失败提示不能为空"@)
    } else {
        match validation_rule_choice(kind, field_id, when_field_id, fields, selected) {
            Err(e) => Err(e),
            Ok(rule) => {
                let definition = ModelValidationView { id: validation_id, rule, message: trim_spec(message) };
                if editing {
                    Ok(
                        seq![
                            GraphPatchView::SetProperty {
                                target_id: validation_id,
                                property: EditableProperty::ModelValidation,
                                value: PatchValueView::Validation(definition),
                            },
                        ],
                    )
                } else {
                    Ok(
                        seq![
                            GraphPatchView::Insert {
                                parent_id: model_id,
                                collection: ChildCollection::ModelValidations,
                                index: validation_count,
                                entity: GraphEntityView::ModelValidation(definition),
                            },
                        ],
                    )
                }
            },
        }
    }
}

fn validation_rule(
    kind: &str,
    field_id: &str,
    when_field_id: &str,
    fields: &[FieldDefinition],
    selected: &[SymbolId],
) -> (r: Result<ModelValidationRule, String>)
    ensures
        match r {
            Ok(rule) => validation_rule_choice(kind@, field_id@, when_field_id@, fields@, selected@) == Ok::<
                ModelValidationRuleView,
                Seq<char>,
            >(rule@),
            Err(e) => validation_rule_choice(kind@, field_id@, when_field_id@, fields@, selected@) == Err::<
                ModelValidationRuleView,
                Seq<char>,
            >(e@),
        },
{
    if text_eq(kind, "required_when_present") {
        let f = match SymbolId::parse(field_id) {
            Some(f) => f,
            None => return Err("请选择必填字段".to_owned()),
        };
        let w = match SymbolId::parse(when_field_id) {
            Some(w) => w,
            None => return Err("请选择条件字段".to_owned()),
        };
        if f == w {
            return Err("必填字段与条件字段不能相同".to_owned());
        }
        Ok(ModelValidationRule::RequiredWhenPresent { field_id: f, when_field_id: w })
    } else {
        let ordered = selected_field_ids(fields, selected);
        if ordered.len() < 2 {
            return Err("组合校验至少需要两个字段".to_owned());
        }
        if text_eq(kind, "fields_required_together") {
            Ok(ModelValidationRule::FieldsRequiredTogether { field_ids: ordered })
        } else {
            Ok(ModelValidationRule::AtLeastOneRequired { field_ids: ordered })
        }
    }
}

/// Submits the model-check editor of model `model_id`, which has `validation_count` checks, for
/// check `validation_id`: `kind`, `field_id` and `when_field_id` are the texts of its selects,
/// `message` the failure message typed in, `selected` the fields ticked.
pub fn validation_editor_submit(
    model_id: SymbolId,
    validation_count: usize,
    validation_id: SymbolId,
    editing: bool,
    fields: &[FieldDefinition],
    kind: &str,
    message: &str,
    field_id: &str,
    when_field_id: &str,
    selected: &[SymbolId],
) -> (r: Result<Vec<GraphPatch>, String>)
    ensures
        patches_result_view(r) == validation_editor_submit_spec(
            model_id,
            validation_count,
            validation_id,
            editing,
            fields@,
            kind@,
            message@,
            field_id@,
            when_field_id@,
            selected@,
        ),
{
    let next_message = trim(message);
    if next_message.unicode_len() == 0 {
        return Err("校验失败提示不能为空".to_owned());
    }
    let rule = match validation_rule(kind, field_id, when_field_id, fields, selected) {
        Ok(rule) => rule,
        Err(e) => return Err(e),
    };
    let definition = ModelValidationDefinition { id: validation_id, rule, message: next_message.to_owned() };
    let patches = if editing {
        vec![
            GraphPatch::SetProperty {
                target_id: validation_id,
                property: EditableProperty::ModelValidation,
                value: PatchValue::Validation(definition),
            },
        ]
    } else {
        vec![
            GraphPatch::Insert {
                parent_id: model_id,
                collection: ChildCollection::ModelValidations,
                index: validation_count,
                entity: GraphEntity::ModelValidation(definition),
            },
        ]
    };
    assert(patches_view(patches@) =~= validation_editor_submit_spec(
        model_id,
        validation_count,
        validation_id,
        editing,
        fields@,
        kind@,
        message@,
        field_id@,
        when_field_id@,
        selected@,
    )->Ok_0);
    Ok(patches)
}

} // verus!

verus! {

/// The chosen fields of an index or a check are the model's fields that were selected, in the
/// model's order: each is a selected field of the model, each selected field of the model is
/// among them, and there are no more of them than fields.
pub proof fn selected_fields_follow_the_model(fields: Seq<FieldDefinition>, selected: Seq<SymbolId>, n: int)
    requires
        0 <= n <= fields.len(),
    ensures
        selected_in_order(fields, selected, n).len() <= n,
        forall|k: int| 0 <= k < selected_in_order(fields, selected, n).len() ==> selected.contains(
            #[trigger] selected_in_order(fields, selected, n)[k],
        ) && exists|i: int| 0 <= i < n && fields[i].id == selected_in_order(fields, selected, n)[k],
        forall|i: int| 0 <= i < n && selected.contains(#[trigger] fields[i].id) ==> selected_in_order(fields, selected, n).contains(
            fields[i].id,
        ),
    decreases n,
{
    if n > 0 {
        selected_fields_follow_the_model(fields, selected, n - 1);
        let rest = selected_in_order(fields, selected, n - 1);
        let all = selected_in_order(fields, selected, n);
        assert forall|k: int| 0 <= k < all.len() implies selected.contains(#[trigger] all[k]) && exists|i: int|
            0 <= i < n && fields[i].id == all[k] by {
            if k < rest.len() {
                assert(all[k] == rest[k]);
                let i = choose|i: int| 0 <= i < n - 1 && fields[i].id == rest[k];
                assert(fields[i].id == all[k]);
            } else {
                assert(fields[n - 1].id == all[k]);
            }
        }
        assert forall|i: int| 0 <= i < n && selected.contains(#[trigger] fields[i].id) implies all.contains(fields[i].id) by {
            if i < n - 1 {
                let k = choose|k: int| 0 <= k < rest.len() && rest[k] == fields[i].id;
                assert(all[k] == rest[k]);
            } else {
                assert(all[all.len() - 1] == fields[i].id);
            }
        }
    }
}

/// The index editor refuses an index without fields. Otherwise a new index is inserted after
/// the model's indexes with the identifier, fields and uniqueness chosen, and an existing one
/// gets the fields and the uniqueness chosen.
pub proof fn index_editor_keeps_the_choices(
    model_id: SymbolId,
    index_count: usize,
    index_id: SymbolId,
    editing: bool,
    fields: Seq<FieldDefinition>,
    selected: Seq<SymbolId>,
    unique: bool,
)
    ensures
        ({
            let ordered = selected_in_order(fields, selected, fields.len() as int);
            let r = index_editor_submit_spec(model_id, index_count, index_id, editing, fields, selected, unique);
            &&& r is Err <==> !exists|i: int| 0 <= i < fields.len() && selected.contains(#[trigger] fields[i].id)
            &&& (r is Ok && !editing) ==> ({
                let ps = r->Ok_0;
                &&& ps.len() == 1
                &&& ps[0] is Insert
                &&& ps[0]->Insert_parent_id == model_id
                &&& ps[0]->Insert_collection == ChildCollection::ModelIndexes
                &&& ps[0]->Insert_index == index_count
                &&& ps[0]->Insert_entity == GraphEntityView::ModelIndex(IndexView { id: index_id, fields: ordered, unique })
            })
            &&& (r is Ok && editing) ==> ({
                let ps = r->Ok_0;
                &&& ps.len() == 2
                &&& ps[0] == GraphPatchView::SetProperty {
                    target_id: index_id,
                    property: EditableProperty::ModelIndexFields,
                    value: PatchValueView::Ids(ordered),
                }
                &&& ps[1] == GraphPatchView::SetProperty {
                    target_id: index_id,
                    property: EditableProperty::ModelIndexUnique,
                    value: PatchValueView::Json(JsonView::Bool(unique)),
                }
            })
        }),
{
    let n = fields.len() as int;
    selected_fields_follow_the_model(fields, selected, n);
    let ordered = selected_in_order(fields, selected, n);
    if exists|i: int| 0 <= i < n && selected.contains(#[trigger] fields[i].id) {
        let i = choose|i: int| 0 <= i < n && selected.contains(#[trigger] fields[i].id);
        assert(ordered.contains(fields[i].id));
    }
    if ordered.len() > 0 {
        assert(selected.contains(ordered[0]));
        let i = choose|i: int| 0 <= i < n && fields[i].id == ordered[0];
        assert(selected.contains(fields[i].id));
    }
}

/// The check editor refuses a blank failure message and a condition that requires a field when
/// it itself is present; otherwise the check it stores keeps the trimmed message and the
/// identifier chosen, and is inserted after the model's checks when it is new.
pub proof fn validation_editor_keeps_the_choices(
    model_id: SymbolId,
    validation_count: usize,
    validation_id: SymbolId,
    editing: bool,
    fields: Seq<FieldDefinition>,
    kind: Seq<char>,
    message: Seq<char>,
    field_id: Seq<char>,
    when_field_id: Seq<char>,
    selected: Seq<SymbolId>,
)
    ensures
        ({
            let r = validation_editor_submit_spec(
                model_id,
                validation_count,
                validation_id,
                editing,
                fields,
                kind,
                message,
                field_id,
                when_field_id,
                selected,
            );
            &&& trim_spec(message).len() == 0 ==> r == Err::<Seq<GraphPatchView>, Seq<char>>("校验失败提示不能为空"@)
            &&& kind == "required_when_present"@ && field_id == when_field_id && parse_symbol_spec(field_id) is Some
                && trim_spec(message).len() > 0 ==> r is Err
            &&& r is Ok ==> ({
                let ps = r->Ok_0;
                &&& ps.len() == 1
                &&& editing ==> ps[0] is SetProperty && ps[0]->SetProperty_target_id == validation_id
                    && ps[0]->SetProperty_property == EditableProperty::ModelValidation
                    && ps[0]->SetProperty_value is Validation
                    && ps[0]->SetProperty_value->Validation_0.id == validation_id
                    && ps[0]->SetProperty_value->Validation_0.message == trim_spec(message)
                &&& !editing ==> ps[0] is Insert && ps[0]->Insert_parent_id == model_id
                    && ps[0]->Insert_collection == ChildCollection::ModelValidations
                    && ps[0]->Insert_index == validation_count
                    && ps[0]->Insert_entity is ModelValidation
                    && ps[0]->Insert_entity->ModelValidation_0.id == validation_id
                    && ps[0]->Insert_entity->ModelValidation_0.message == trim_spec(message)
            })
        }),
{
}

} // verus!

verus! {

/// The chosen fields keep the model's order: of two chosen fields, the earlier one comes from an
/// earlier field of the model.
pub proof fn selected_fields_keep_the_model_order(fields: Seq<FieldDefinition>, selected: Seq<SymbolId>, n: int)
    requires
        0 <= n <= fields.len(),
    ensures
        forall|a: int, b: int|
            0 <= a < b < selected_in_order(fields, selected, n).len() ==> exists|i: int, j: int|
                0 <= i < j < n && fields[i].id == #[trigger] selected_in_order(fields, selected, n)[a] && fields[j].id
                    == #[trigger] selected_in_order(fields, selected, n)[b],
    decreases n,
{
    if n > 0 {
        selected_fields_keep_the_model_order(fields, selected, n - 1);
        selected_fields_follow_the_model(fields, selected, n - 1);
        let rest = selected_in_order(fields, selected, n - 1);
        let all = selected_in_order(fields, selected, n);
        assert forall|a: int, b: int| 0 <= a < b < all.len() implies exists|i: int, j: int|
            0 <= i < j < n && fields[i].id == #[trigger] all[a] && fields[j].id == #[trigger] all[b] by {
            if b < rest.len() {
                assert(all[a] == rest[a] && all[b] == rest[b]);
                let (i, j) = choose|i: int, j: int| 0 <= i < j < n - 1 && fields[i].id == #[trigger] rest[a] && fields[j].id
                    == #[trigger] rest[b];
            } else {
                assert(all[a] == rest[a]);
                let i = choose|i: int| 0 <= i < n - 1 && fields[i].id == rest[a];
                assert(all[b] == fields[n - 1].id);
                assert(fields[i].id == all[a] && fields[n - 1].id == all[b]);
            }
        }
    }
}

} // verus!
