//! Edits of the definition graph that the designer submits.

use vstd::prelude::*;
use crate::symbol::SymbolId;
use crate::json::{JsonValue, JsonView, json_view};
use crate::value_type::ValueType;
use crate::definition::{
    FieldDefinition, FieldOptions, FieldOptionsView, FieldValidation, FieldView, FieldValidationView, RelationDefinition, IndexDefinition,
    IndexView, ModelValidationDefinition, ModelValidationView,
};
use crate::menu::{MenuDefinition, MenuView, MenuRowActions};

verus! {

/// The child list of a parent entity that an entity is inserted into or moved within.
#[derive(Clone, Copy, Debug, PartialEq, Eq, Structural)]
pub enum ChildCollection {
    Menus,
    MenuChildren,
    PageEndpoints,
    Fields,
    ModelIndexes,
    ModelValidations,
    Pages,
    Routes,
}

/// A property of an entity that a patch sets.
#[derive(Clone, Copy, Debug, PartialEq, Eq, Structural)]
pub enum EditableProperty {
    ApplicationTargets,
    FieldDetailVisible,
    FieldFilterable,
    FieldFormEditable,
    FieldFormVisible,
    FieldListVisible,
    FieldOptions,
    FieldRelation,
    FieldRequired,
    FieldSortable,
    FieldUnique,
    FieldValueType,
    FunctionNode,
    FunctionNodePosition,
    FunctionPermissions,
    FunctionPort,
    Icon,
    MenuEnabled,
    MenuPage,
    MenuPermissions,
    MenuRowActions,
    ModelIndexFields,
    ModelIndexUnique,
    ModelQuery,
    ModelValidation,
    PageEndpoint,
    PageRenderer,
    PermissionEffects,
    RoutePath,
    RoutePermissions,
    Title,
}

/// The value a patch gives a property: plain JSON, or a value type, which the sender encodes
/// as the service expects.
pub enum PatchValue {
    Json(JsonValue),
    ValueType(ValueType),
    Ids(Vec<SymbolId>),
    RowActions(MenuRowActions),
    Relation(Option<RelationDefinition>),
    FieldOptions(FieldOptions, FieldValidation),
    Validation(ModelValidationDefinition),
}

pub ghost enum PatchValueView {
    Json(JsonView),
    ValueType(ValueType),
    Ids(Seq<SymbolId>),
    RowActions(MenuRowActions),
    Relation(Option<RelationDefinition>),
    FieldOptions(FieldOptionsView, FieldValidationView),
    Validation(ModelValidationView),
}

impl View for PatchValue {
    type V = PatchValueView;

    open spec fn view(&self) -> PatchValueView {
        match *self {
            PatchValue::Json(v) => PatchValueView::Json(json_view(v)),
            PatchValue::ValueType(t) => PatchValueView::ValueType(t),
            PatchValue::Ids(ids) => PatchValueView::Ids(ids@),
            PatchValue::RowActions(a) => PatchValueView::RowActions(a),
            PatchValue::Relation(r) => PatchValueView::Relation(r),
            PatchValue::FieldOptions(o, v) => PatchValueView::FieldOptions(o@, v@),
            PatchValue::Validation(v) => PatchValueView::Validation(v@),
        }
    }
}

/// An entity that a patch inserts.
pub enum GraphEntity {
    Menu(MenuDefinition),
    Field(FieldDefinition),
    ModelIndex(IndexDefinition),
    ModelValidation(ModelValidationDefinition),
    Page(crate::page_editor::PageEntity),
    Route(crate::page_editor::RouteEntity),
}

pub ghost enum GraphEntityView {
    Menu(MenuView),
    Field(FieldView),
    ModelIndex(IndexView),
    ModelValidation(ModelValidationView),
    Page(crate::page_editor::PageEntityView),
    Route(crate::page_editor::RouteEntityView),
}

impl View for GraphEntity {
    type V = GraphEntityView;

    open spec fn view(&self) -> GraphEntityView {
        match *self {
            GraphEntity::Menu(m) => GraphEntityView::Menu(m@),
            GraphEntity::Field(f) => GraphEntityView::Field(f@),
            GraphEntity::ModelIndex(i) => GraphEntityView::ModelIndex(i@),
            GraphEntity::ModelValidation(v) => GraphEntityView::ModelValidation(v@),
            GraphEntity::Page(p) => GraphEntityView::Page(p@),
            GraphEntity::Route(r) => GraphEntityView::Route(r@),
        }
    }
}

/// One edit of the definition graph.
pub enum GraphPatch {
    Insert { parent_id: SymbolId, collection: ChildCollection, index: usize, entity: GraphEntity },
    SetProperty { target_id: SymbolId, property: EditableProperty, value: PatchValue },
    Rename { target_id: SymbolId, name: String, title: Option<String> },
    Move { target_id: SymbolId, parent_id: SymbolId, collection: ChildCollection, index: usize },
    Delete { target_id: SymbolId },
}

pub ghost enum GraphPatchView {
    Insert { parent_id: SymbolId, collection: ChildCollection, index: usize, entity: GraphEntityView },
    SetProperty { target_id: SymbolId, property: EditableProperty, value: PatchValueView },
    Rename { target_id: SymbolId, name: Seq<char>, title: Option<Seq<char>> },
    Move { target_id: SymbolId, parent_id: SymbolId, collection: ChildCollection, index: usize },
    Delete { target_id: SymbolId },
}

impl View for GraphPatch {
    type V = GraphPatchView;

    open spec fn view(&self) -> GraphPatchView {
        match *self {
            GraphPatch::Insert { parent_id, collection, index, entity } => GraphPatchView::Insert {
                parent_id,
                collection,
                index,
                entity: entity@,
            },
            GraphPatch::SetProperty { target_id, property, value } => GraphPatchView::SetProperty {
                target_id,
                property,
                value: value@,
            },
            GraphPatch::Rename { target_id, name, title } => GraphPatchView::Rename {
                target_id,
                name: name@,
                title: match title {
                    Some(t) => Some(t@),
                    None => None,
                },
            },
            GraphPatch::Move { target_id, parent_id, collection, index } => GraphPatchView::Move {
                target_id,
                parent_id,
                collection,
                index,
            },
            GraphPatch::Delete { target_id } => GraphPatchView::Delete { target_id },
        }
    }
}

pub open spec fn patches_view(ps: Seq<GraphPatch>) -> Seq<GraphPatchView> {
    ps.map_values(|p: GraphPatch| p@)
}

/// The patches that leave a field without a relation: its relation cleared and its type text.
pub open spec fn relation_clear_spec(field_id: SymbolId) -> Seq<GraphPatchView> {
    seq![
        GraphPatchView::SetProperty {
            target_id: field_id,
            property: EditableProperty::FieldRelation,
            value: PatchValueView::Json(JsonView::Null),
        },
        GraphPatchView::SetProperty {
            target_id: field_id,
            property: EditableProperty::FieldValueType,
            value: PatchValueView::ValueType(ValueType::Text),
        },
    ]
}

/// Clears the relation of the field `target_field_id` and makes it a text field.
pub fn relation_target_clear_patches(target_field_id: SymbolId) -> (patches: Vec<GraphPatch>)
    ensures
        patches_view(patches@) == relation_clear_spec(target_field_id),
{
    let patches = vec![
        GraphPatch::SetProperty {
            target_id: target_field_id,
            property: EditableProperty::FieldRelation,
            value: PatchValue::Json(JsonValue::Null),
        },
        GraphPatch::SetProperty {
            target_id: target_field_id,
            property: EditableProperty::FieldValueType,
            value: PatchValue::ValueType(ValueType::Text),
        },
    ];
    assert(patches_view(patches@) =~= relation_clear_spec(target_field_id));
    patches
}

/// Whether unlinking `field` of model `source_model_id` also clears the field it points to:
/// when it has a relation that does not point back at the field itself.
pub open spec fn unlinks_target(field: FieldDefinition, source_model_id: SymbolId) -> bool {
    field.relation matches Some(r) && (r.target_model_id != source_model_id || r.target_field_id != field.id)
}

pub open spec fn relation_unlink_spec(field: FieldDefinition, source_model_id: SymbolId) -> Seq<GraphPatchView> {
    relation_clear_spec(field.id) + if unlinks_target(field, source_model_id) {
        relation_clear_spec(field.relation.unwrap().target_field_id)
    } else {
        Seq::empty()
    }
}

/// The patches that remove the relation of `field` of model `source_model_id`, on both ends.
pub fn relation_unlink_patches(field: &FieldDefinition, source_model_id: SymbolId) -> (patches: Vec<GraphPatch>)
    ensures
        patches_view(patches@) == relation_unlink_spec(*field, source_model_id),
{
    let mut patches = relation_target_clear_patches(field.id);
    if let Some(relation) = &field.relation {
        if relation.target_model_id != source_model_id || relation.target_field_id != field.id {
            let mut more = relation_target_clear_patches(relation.target_field_id);
            let ghost first = patches@;
            let ghost second = more@;
            patches.append(&mut more);
            assert(patches@ =~= first + second);
            assert(patches_view(patches@) =~= patches_view(first) + patches_view(second));
        }
    }
    assert(patches_view(patches@) =~= relation_unlink_spec(*field, source_model_id));
    patches
}

} // verus!
