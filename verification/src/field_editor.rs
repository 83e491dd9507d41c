//! What submitting the field editor does: the checks on the edited field and its relation, and
//! the patches that store it and keep both ends of its relation consistent.

use vstd::prelude::*;
use crate::symbol::{SymbolId, parse_symbol_spec};
use crate::text::{text_eq, trim, trim_spec};
use crate::model::{relation_kind_from_key, relation_kind_from_key_spec, opposite_spec};
use crate::value_type::{
    ValueType, relation_value_type, relation_value_type_spec, editable_value_type_from_key,
    editable_value_type_from_key_spec,
};
use crate::definition::{
    FieldDefinition, FieldOptions, FieldOptionsView, FieldValidation, FieldView, ModelDefinition, RelationDefinition,
    optional_json_view,
};
use crate::model_designer::{find_field_from, find_model_from, find_field, find_model};
use crate::patch::{
    ChildCollection, EditableProperty, GraphEntity, GraphEntityView, GraphPatch, GraphPatchView, PatchValue,
    PatchValueView, patches_view, relation_clear_spec, relation_target_clear_patches,
};
use crate::json::{JsonValue, JsonView};
use vstd::string::StrSliceExecFns;

verus! {

/// The relation chosen in the editor, `None` for a field of plain type, or why the choice is
/// refused.
pub open spec fn relation_choice_spec(
    field_type: Seq<char>,
    relation_kind: Seq<char>,
    target_model: Seq<char>,
    target_field: Seq<char>,
    model_id: SymbolId,
    field_id: SymbolId,
    models: Seq<ModelDefinition>,
) -> Result<Option<RelationDefinition>, Seq<char>> {
    if field_type != "relation"@ {
        Ok(None)
    } else {
        match parse_symbol_spec(target_model) {
            None => Err("请选择关联模型"@),
            Some(tm) => match parse_symbol_spec(target_field) {
                None => Err("请选择对端字段"@),
                Some(tf) => match find_model_from(models, SymbolId { value: tm }, 0) {
                    None => Err("关联模型不存在"@),
                    Some(m) => match find_field_from(models[m].fields@, SymbolId { value: tf }, 0) {
                        None => Err("对端字段不属于关联模型"@),
                        Some(f) => {
                            let kind = relation_kind_from_key_spec(relation_kind);
                            let other = models[m].fields@[f];
                            if (SymbolId { value: tm }) == model_id && (SymbolId { value: tf }) == field_id
                                && kind != opposite_spec(kind) {
                                Err("同一字段自关联只能使用对称基数"@)
                            } else if other.relation matches Some(r) && (r.target_model_id != model_id
                                || r.target_field_id != field_id) {
                                Err("对端字段已关联到其他字段，请先解除原关联"@)
                            } else {
                                Ok(
                                    Some(
                                        RelationDefinition {
                                            kind,
                                            target_model_id: SymbolId { value: tm },
                                            target_field_id: SymbolId { value: tf },
                                        },
                                    ),
                                )
                            }
                        },
                    },
                },
            },
        }
    }
}

fn relation_choice(
    field_type: &str,
    relation_kind: &str,
    target_model: &str,
    target_field: &str,
    model_id: SymbolId,
    field_id: SymbolId,
    models: &[ModelDefinition],
) -> (r: Result<Option<RelationDefinition>, String>)
    ensures
        match r {
            Ok(c) => relation_choice_spec(field_type@, relation_kind@, target_model@, target_field@, model_id, field_id, models@)
                == Ok::<Option<RelationDefinition>, Seq<char>>(c),
            Err(e) => relation_choice_spec(field_type@, relation_kind@, target_model@, target_field@, model_id, field_id, models@)
                == Err::<Option<RelationDefinition>, Seq<char>>(e@),
        },
{
    if !text_eq(field_type, "relation") {
        return Ok(None);
    }
    let target_model_id = match SymbolId::parse(target_model) {
        Some(id) => id,
        None => return Err("请选择关联模型".to_owned()),
    };
    let target_field_id = match SymbolId::parse(target_field) {
        Some(id) => id,
        None => return Err("请选择对端字段".to_owned()),
    };
    let m = match find_model(models, target_model_id) {
        Some(m) => m,
        None => return Err("关联模型不存在".to_owned()),
    };
    let f = match find_field(models[m].fields.as_slice(), target_field_id) {
        Some(f) => f,
        None => return Err("对端字段不属于关联模型".to_owned()),
    };
    let kind = relation_kind_from_key(relation_kind);
    if target_model_id == model_id && target_field_id == field_id && kind != kind.opposite() {
        return Err("同一字段自关联只能使用对称基数".to_owned());
    }
    match models[m].fields[f].relation {
        Some(r) => {
            if r.target_model_id != model_id || r.target_field_id != field_id {
                return Err("对端字段已关联到其他字段，请先解除原关联".to_owned());
            }
        },
        None => {},
    }
    Ok(Some(RelationDefinition { kind, target_model_id, target_field_id }))
}

/// The field that the editor stores: the draft with its title trimmed, its name, the type
/// and relation chosen, and the default value typed in.
pub open spec fn submitted_field(
    draft: FieldView,
    title: Seq<char>,
    name: Seq<char>,
    field_type: Seq<char>,
    relation: Option<RelationDefinition>,
    default_value: Option<JsonView>,
) -> FieldView {
    FieldView {
        title,
        name,
        options: FieldOptionsView { default_value, ..draft.options },
        value_type: match relation {
            Some(r) => relation_value_type_spec(r.kind, r.target_model_id),
            None => editable_value_type_from_key_spec(field_type, draft.value_type),
        },
        relation,
        ..draft
    }
}

/// The patches that store the field: its name, type, requirement, options and relation when it
/// exists, its insertion at the end of the model's fields when it is new.
pub open spec fn store_field_patches(editing: bool, model_id: SymbolId, field_count: usize, next: FieldView) -> Seq<
    GraphPatchView,
> {
    if editing {
        seq![
            GraphPatchView::Rename { target_id: next.id, name: next.name, title: Some(next.title) },
            GraphPatchView::SetProperty {
                target_id: next.id,
                property: EditableProperty::FieldValueType,
                value: PatchValueView::ValueType(next.value_type),
            },
            GraphPatchView::SetProperty {
                target_id: next.id,
                property: EditableProperty::FieldRequired,
                value: PatchValueView::Json(JsonView::Bool(next.required)),
            },
            GraphPatchView::SetProperty {
                target_id: next.id,
                property: EditableProperty::FieldOptions,
                value: PatchValueView::FieldOptions(next.options, next.validation),
            },
            GraphPatchView::SetProperty {
                target_id: next.id,
                property: EditableProperty::FieldRelation,
                value: PatchValueView::Relation(next.relation),
            },
        ]
    } else {
        seq![
            GraphPatchView::Insert {
                parent_id: model_id,
                collection: ChildCollection::Fields,
                index: field_count,
                entity: GraphEntityView::Field(next),
            },
        ]
    }
}

/// The patches that clear the field a previous relation pointed to, when the relation is gone or
/// points elsewhere now.
pub open spec fn previous_target_patches(previous: Option<RelationDefinition>, relation: Option<RelationDefinition>) -> Seq<
    GraphPatchView,
> {
    match previous {
        Some(p) => if relation matches Some(c) && c.target_model_id == p.target_model_id && c.target_field_id
            == p.target_field_id {
            Seq::empty()
        } else {
            relation_clear_spec(p.target_field_id)
        },
        None => Seq::empty(),
    }
}

/// The patches that make the target field of a relation point back at the field, with the
/// opposite cardinality, unless the field relates to itself.
pub open spec fn back_relation_patches(relation: Option<RelationDefinition>, model_id: SymbolId, field_id: SymbolId) -> Seq<
    GraphPatchView,
> {
    match relation {
        Some(r) => if r.target_field_id != field_id {
            seq![
                GraphPatchView::SetProperty {
                    target_id: r.target_field_id,
                    property: EditableProperty::FieldRelation,
                    value: PatchValueView::Relation(
                        Some(
                            RelationDefinition {
                                kind: opposite_spec(r.kind),
                                target_model_id: model_id,
                                target_field_id: field_id,
                            },
                        ),
                    ),
                },
                GraphPatchView::SetProperty {
                    target_id: r.target_field_id,
                    property: EditableProperty::FieldValueType,
                    value: PatchValueView::ValueType(relation_value_type_spec(opposite_spec(r.kind), model_id)),
                },
            ]
        } else {
            Seq::empty()
        },
        None => Seq::empty(),
    }
}

/// What submitting the field editor gives: the patches to send, or the message shown instead.
pub open spec fn field_editor_submit_spec(
    model_id: SymbolId,
    field_count: usize,
    editing: bool,
    draft: FieldView,
    stable_name: Seq<char>,
    derived_name: Seq<char>,
    field_type: Seq<char>,
    relation_kind: Seq<char>,
    target_model: Seq<char>,
    target_field: Seq<char>,
    models: Seq<ModelDefinition>,
    previous: Option<RelationDefinition>,
    default_value: Option<JsonView>,
) -> Result<Seq<GraphPatchView>, Seq<char>> {
    let title = trim_spec(draft.title);
    let name = if editing {
        stable_name
    } else {
        derived_name
    };
    if title.len() == 0 {
        Err("字段标题不能为空"@)
    } else if name.len() == 0 {
        Err("字段标题无法生成有效标识，请包含中文、字母或数字"@)
    } else if name == "id"@ {
        Err("id 是系统主键字段，请直接选择主键生成策略"@)
    } else {
        match relation_choice_spec(field_type, relation_kind, target_model, target_field, model_id, draft.id, models) {
            Err(e) => Err(e),
            Ok(relation) => {
                let next = submitted_field(draft, title, name, field_type, relation, default_value);
                Ok(
                    store_field_patches(editing, model_id, field_count, next) + previous_target_patches(
                        previous,
                        relation,
                    ) + back_relation_patches(relation, model_id, draft.id),
                )
            },
        }
    }
}

pub open spec fn patches_result_view(r: Result<Vec<GraphPatch>, String>) -> Result<Seq<GraphPatchView>, Seq<char>> {
    match r {
        Ok(ps) => Ok(patches_view(ps@)),
        Err(e) => Err(e@),
    }
}

fn copy_validation(v: &FieldValidation) -> (copy: FieldValidation)
    ensures
        copy@ == v@,
{
    FieldValidation {
        min_length: v.min_length,
        max_length: v.max_length,
        minimum: v.minimum,
        maximum: v.maximum,
        pattern: match &v.pattern {
            Some(p) => Some(p.clone()),
            None => None,
        },
        min_items: v.min_items,
        max_items: v.max_items,
        unique_items: v.unique_items,
    }
}

fn push_patches(patches: &mut Vec<GraphPatch>, more: Vec<GraphPatch>)
    ensures
        patches_view(final(patches)@) == patches_view(old(patches)@) + patches_view(more@),
{
    let mut more = more;
    let ghost first = patches@;
    let ghost second = more@;
    patches.append(&mut more);
    assert(patches@ =~= first + second);
    assert(patches_view(patches@) =~= patches_view(first) + patches_view(second));
}

/// Submits the field editor of model `model_id`, which has `field_count` fields: `draft` is the
/// field as edited, `stable_name` its name when it exists, `derived_name` the identifier that
/// the program's naming rule derives from the trimmed title, `field_type`, `relation_kind`,
/// `target_model` and `target_field` the texts of the editor's selects, and `previous` the
/// relation the field had.
#[verifier::rlimit(60)]
pub fn field_editor_submit(
    model_id: SymbolId,
    field_count: usize,
    editing: bool,
    draft: &FieldDefinition,
    stable_name: &str,
    derived_name: &str,
    field_type: &str,
    relation_kind: &str,
    target_model: &str,
    target_field: &str,
    all_models: &[ModelDefinition],
    previous: Option<RelationDefinition>,
    default_value: Option<JsonValue>,
) -> (r: Result<Vec<GraphPatch>, String>)
    ensures
        patches_result_view(r) == field_editor_submit_spec(
            model_id,
            field_count,
            editing,
            draft@,
            stable_name@,
            derived_name@,
            field_type@,
            relation_kind@,
            target_model@,
            target_field@,
            all_models@,
            previous,
            optional_json_view(default_value),
        ),
{
    let title = trim(draft.title.as_str());
    let name = if editing {
        stable_name
    } else {
        derived_name
    };
    if title.unicode_len() == 0 {
        return Err("字段标题不能为空".to_owned());
    }
    if name.unicode_len() == 0 {
        return Err("字段标题无法生成有效标识，请包含中文、字母或数字".to_owned());
    }
    if text_eq(name, "id") {
        return Err("id 是系统主键字段，请直接选择主键生成策略".to_owned());
    }
    let relation = match relation_choice(field_type, relation_kind, target_model, target_field, model_id, draft.id, all_models) {
        Ok(r) => r,
        Err(e) => return Err(e),
    };
    let value_type = match relation {
        Some(r) => relation_value_type(r.kind, r.target_model_id),
        None => editable_value_type_from_key(field_type, &draft.value_type),
    };
    let field_id = draft.id;
    let ghost next_view = submitted_field(draft@, title@, name@, field_type@, relation, optional_json_view(default_value));
    let options = FieldOptions {
        list_visible: draft.options.list_visible,
        detail_visible: draft.options.detail_visible,
        form_visible: draft.options.form_visible,
        form_editable: draft.options.form_editable,
        filterable: draft.options.filterable,
        sortable: draft.options.sortable,
        unique: draft.options.unique,
        ai_extract: draft.options.ai_extract,
        default_value,
    };
    let mut patches: Vec<GraphPatch> = if editing {
        let ps = vec![
            GraphPatch::Rename { target_id: field_id, name: name.to_owned(), title: Some(title.to_owned()) },
            GraphPatch::SetProperty {
                target_id: field_id,
                property: EditableProperty::FieldValueType,
                value: PatchValue::ValueType(value_type),
            },
            GraphPatch::SetProperty {
                target_id: field_id,
                property: EditableProperty::FieldRequired,
                value: PatchValue::Json(JsonValue::Bool(draft.required)),
            },
            GraphPatch::SetProperty {
                target_id: field_id,
                property: EditableProperty::FieldOptions,
                value: PatchValue::FieldOptions(options, copy_validation(&draft.validation)),
            },
            GraphPatch::SetProperty {
                target_id: field_id,
                property: EditableProperty::FieldRelation,
                value: PatchValue::Relation(relation),
            },
        ];
        assert(patches_view(ps@) =~= store_field_patches(editing, model_id, field_count, next_view));
        ps
    } else {
        let next = FieldDefinition {
            id: field_id,
            name: name.to_owned(),
            title: title.to_owned(),
            value_type,
            required: draft.required,
            relation,
            options,
            validation: copy_validation(&draft.validation),
        };
        assert(next@ == next_view);
        let ps = vec![
            GraphPatch::Insert {
                parent_id: model_id,
                collection: ChildCollection::Fields,
                index: field_count,
                entity: GraphEntity::Field(next),
            },
        ];
        assert(patches_view(ps@) =~= store_field_patches(editing, model_id, field_count, next_view));
        ps
    };
    let ghost stored = patches_view(patches@);
    match previous {
        Some(p) => {
            let unchanged = match relation {
                Some(c) => c.target_model_id == p.target_model_id && c.target_field_id == p.target_field_id,
                None => false,
            };
            if !unchanged {
                push_patches(&mut patches, relation_target_clear_patches(p.target_field_id));
            }
        },
        None => {},
    }
    assert(patches_view(patches@) =~= stored + previous_target_patches(previous, relation));
    let ghost cleared = patches_view(patches@);
    match relation {
        Some(r) => {
            if r.target_field_id != field_id {
                let back = vec![
                    GraphPatch::SetProperty {
                        target_id: r.target_field_id,
                        property: EditableProperty::FieldRelation,
                        value: PatchValue::Relation(
                            Some(RelationDefinition { kind: r.kind.opposite(), target_model_id: model_id, target_field_id: field_id }),
                        ),
                    },
                    GraphPatch::SetProperty {
                        target_id: r.target_field_id,
                        property: EditableProperty::FieldValueType,
                        value: PatchValue::ValueType(relation_value_type(r.kind.opposite(), model_id)),
                    },
                ];
                assert(patches_view(back@) =~= back_relation_patches(relation, model_id, field_id));
                push_patches(&mut patches, back);
            }
        },
        None => {},
    }
    assert(patches_view(patches@) =~= cleared + back_relation_patches(relation, model_id, field_id));
    Ok(patches)
}

/// What saving the relation editor of `field` of model `source_model_id` gives: the relation
/// set on the field with its type, the field it pointed to before cleared when that changes, and
/// the new target pointed back at the field; or the message shown instead.
pub open spec fn relation_editor_submit_spec(
    field: FieldView,
    source_model_id: SymbolId,
    relation_kind: Seq<char>,
    target_model: Seq<char>,
    target_field: Seq<char>,
    models: Seq<ModelDefinition>,
) -> Result<Seq<GraphPatchView>, Seq<char>> {
    match relation_choice_spec("relation"@, relation_kind, target_model, target_field, source_model_id, field.id, models) {
        Err(e) => Err(e),
        Ok(relation) => match relation {
            Some(r) => Ok(
                seq![
                    GraphPatchView::SetProperty {
                        target_id: field.id,
                        property: EditableProperty::FieldRelation,
                        value: PatchValueView::Relation(Some(r)),
                    },
                    GraphPatchView::SetProperty {
                        target_id: field.id,
                        property: EditableProperty::FieldValueType,
                        value: PatchValueView::ValueType(relation_value_type_spec(r.kind, r.target_model_id)),
                    },
                ] + previous_target_patches(field.relation, relation) + back_relation_patches(
                    relation,
                    source_model_id,
                    field.id,
                ),
            ),
            None => Err(Seq::empty()),
        },
    }
}

/// Saves the relation editor of `field`, a field of model `source_model_id`: `relation_kind`,
/// `target_model` and `target_field` are the texts of the editor's selects.
pub fn relation_editor_submit(
    field: &FieldDefinition,
    source_model_id: SymbolId,
    relation_kind: &str,
    target_model: &str,
    target_field: &str,
    all_models: &[ModelDefinition],
) -> (r: Result<Vec<GraphPatch>, String>)
    ensures
        patches_result_view(r) == relation_editor_submit_spec(
            field@,
            source_model_id,
            relation_kind@,
            target_model@,
            target_field@,
            all_models@,
        ),
{
    proof {
        reveal_strlit("relation");
    }
    let choice = relation_choice("relation", relation_kind, target_model, target_field, source_model_id, field.id, all_models);
    let r = match choice {
        Err(e) => return Err(e),
        Ok(Some(r)) => r,
        Ok(None) => {
            assert(false);
            return Err(String::new());
        },
    };
    let field_id = field.id;
    let mut patches = vec![
        GraphPatch::SetProperty {
            target_id: field_id,
            property: EditableProperty::FieldRelation,
            value: PatchValue::Relation(Some(r)),
        },
        GraphPatch::SetProperty {
            target_id: field_id,
            property: EditableProperty::FieldValueType,
            value: PatchValue::ValueType(relation_value_type(r.kind, r.target_model_id)),
        },
    ];
    let ghost stored = patches_view(patches@);
    assert(stored =~= seq![
        GraphPatchView::SetProperty {
            target_id: field_id,
            property: EditableProperty::FieldRelation,
            value: PatchValueView::Relation(Some(r)),
        },
        GraphPatchView::SetProperty {
            target_id: field_id,
            property: EditableProperty::FieldValueType,
            value: PatchValueView::ValueType(relation_value_type_spec(r.kind, r.target_model_id)),
        },
    ]);
    match field.relation {
        Some(p) => {
            if p.target_model_id != r.target_model_id || p.target_field_id != r.target_field_id {
                push_patches(&mut patches, relation_target_clear_patches(p.target_field_id));
            }
        },
        None => {},
    }
    assert(patches_view(patches@) =~= stored + previous_target_patches(field.relation, Some(r)));
    let ghost cleared = patches_view(patches@);
    if r.target_field_id != field_id {
        let back = vec![
            GraphPatch::SetProperty {
                target_id: r.target_field_id,
                property: EditableProperty::FieldRelation,
                value: PatchValue::Relation(
                    Some(RelationDefinition { kind: r.kind.opposite(), target_model_id: source_model_id, target_field_id: field_id }),
                ),
            },
            GraphPatch::SetProperty {
                target_id: r.target_field_id,
                property: EditableProperty::FieldValueType,
                value: PatchValue::ValueType(relation_value_type(r.kind.opposite(), source_model_id)),
            },
        ];
        assert(patches_view(back@) =~= back_relation_patches(Some(r), source_model_id, field_id));
        push_patches(&mut patches, back);
    }
    assert(patches_view(patches@) =~= cleared + back_relation_patches(Some(r), source_model_id, field_id));
    Ok(patches)
}

} // verus!

verus! {

/// The field editor refuses a blank title and the name `id`. A new field is inserted after the
/// model's fields under the name derived from the title, with the trimmed title, the draft's
/// options except for the default value typed in, and the draft's checks; an edited field is
/// first renamed, keeping its stable name, and its options, default value included, are set
/// as the fourth patch.
pub proof fn field_editor_stores_what_was_typed(
    model_id: SymbolId,
    field_count: usize,
    editing: bool,
    draft: FieldView,
    stable_name: Seq<char>,
    derived_name: Seq<char>,
    field_type: Seq<char>,
    relation_kind: Seq<char>,
    target_model: Seq<char>,
    target_field: Seq<char>,
    models: Seq<ModelDefinition>,
    previous: Option<RelationDefinition>,
    default_value: Option<JsonView>,
)
    ensures
        ({
            let r = field_editor_submit_spec(
                model_id,
                field_count,
                editing,
                draft,
                stable_name,
                derived_name,
                field_type,
                relation_kind,
                target_model,
                target_field,
                models,
                previous,
                default_value,
            );
            let title = trim_spec(draft.title);
            let name = if editing { stable_name } else { derived_name };
            &&& title.len() == 0 ==> r == Err::<Seq<GraphPatchView>, Seq<char>>("字段标题不能为空"@)
            &&& title.len() > 0 && name == "id"@ ==> r is Err
            &&& (r is Ok && !editing) ==> ({
                let ps = r->Ok_0;
                &&& ps[0] is Insert
                &&& ps[0]->Insert_parent_id == model_id
                &&& ps[0]->Insert_collection == ChildCollection::Fields
                &&& ps[0]->Insert_index == field_count
                &&& ps[0]->Insert_entity is Field
                &&& ps[0]->Insert_entity->Field_0.id == draft.id
                &&& ps[0]->Insert_entity->Field_0.name == derived_name
                &&& ps[0]->Insert_entity->Field_0.title == title
                &&& ps[0]->Insert_entity->Field_0.required == draft.required
                &&& ps[0]->Insert_entity->Field_0.validation == draft.validation
                &&& ps[0]->Insert_entity->Field_0.options.default_value == default_value
                &&& ps[0]->Insert_entity->Field_0.options.list_visible == draft.options.list_visible
                &&& ps[0]->Insert_entity->Field_0.options.unique == draft.options.unique
            })
            &&& (r is Ok && editing) ==> ({
                let ps = r->Ok_0;
                &&& ps[0] == GraphPatchView::Rename { target_id: draft.id, name: stable_name, title: Some(title) }
                &&& ps[3] is SetProperty
                &&& ps[3]->SetProperty_property == EditableProperty::FieldOptions
                &&& ps[3]->SetProperty_value is FieldOptions
                &&& ps[3]->SetProperty_value->FieldOptions_0.default_value == default_value
                &&& ps[3]->SetProperty_value->FieldOptions_1 == draft.validation
            })
        }),
{
    reveal_strlit("id");
}

} // verus!
