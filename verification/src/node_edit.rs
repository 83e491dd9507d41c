//! The edits the node editor makes to the node being edited: its object mapping, list items,
//! format parameters, loop and query bounds and the models it works on.

use vstd::prelude::*;
use crate::symbol::{SymbolId, parse_symbol_spec};
use crate::text::{parse_u32, parse_u32_spec, text_eq};
use crate::definition::{FunctionNode, FunctionNodeKind, FunctionNodeKindView, CapabilityCatalog, CapabilityDefinition, catalog_wf};
use crate::function_graph::{function_node_kind_key, function_node_kind_key_spec};
use crate::function_node::{function_record_node_kind, function_record_node_kind_spec, pairs_view};
use crate::object_fields::{
    sorted_keys, has_key, mapped, mapping_insert, mapping_remove, object_field_insert, object_field_remove,
    object_field_contains, lemma_mapping_insert, lemma_mapping_remove,
};
use crate::validation_rule::node_with_kind;

verus! {

/// Whether a node kind's representation is sound: an object's target fields increase.
pub open spec fn kind_wf(kind: FunctionNodeKindView) -> bool {
    match kind {
        FunctionNodeKindView::Object { fields } => sorted_keys(fields),
        _ => true,
    }
}

/// Takes the kind out of `node`, leaving a placeholder.
fn take_kind(node: &mut FunctionNode) -> (kind: FunctionNodeKind)
    ensures
        final(node).id == old(node).id,
        final(node).name@ == old(node).name@,
        final(node).editor == old(node).editor,
        kind@ == old(node).kind@,
{
    let mut kind = FunctionNodeKind::Condition;
    std::mem::swap(&mut kind, &mut node.kind);
    kind
}

/// The first choice at or after `i` whose target field is not mapped yet.
pub open spec fn first_unused_from(options: Seq<(SymbolId, Seq<char>)>, fields: Seq<(SymbolId, SymbolId)>, i: int) -> Option<SymbolId>
    decreases options.len() - i,
{
    if i < 0 || i >= options.len() {
        None
    } else if !has_key(fields, options[i].0) {
        Some(options[i].0)
    } else {
        first_unused_from(options, fields, i + 1)
    }
}

/// The first reference choice, if any.
pub open spec fn first_choice(options: Seq<(SymbolId, Seq<char>)>) -> Option<SymbolId> {
    if options.len() > 0 {
        Some(options[0].0)
    } else {
        None
    }
}

pub open spec fn add_object_mapping_spec(
    kind: FunctionNodeKindView,
    field_options: Seq<(SymbolId, Seq<char>)>,
    reference_nodes: Seq<(SymbolId, Seq<char>)>,
) -> FunctionNodeKindView {
    match kind {
        FunctionNodeKindView::Object { fields } => match (first_unused_from(field_options, fields, 0), first_choice(reference_nodes)) {
            (Some(f), Some(n)) => FunctionNodeKindView::Object { fields: mapping_insert(fields, f, n) },
            _ => kind,
        },
        _ => kind,
    }
}

/// Maps the first field not mapped yet to the first node it can refer to, when there are such.
pub fn add_object_mapping(node: &mut FunctionNode, field_options: &[(SymbolId, String)], reference_nodes: &[(SymbolId, String)])
    requires
        kind_wf(old(node).kind@),
    ensures
        node_with_kind(*old(node), *final(node), add_object_mapping_spec(old(node).kind@, pairs_view(field_options@), pairs_view(reference_nodes@))),
        kind_wf(final(node).kind@),
{
    let kind = take_kind(node);
    node.kind = match kind {
        FunctionNodeKind::Object { mut fields } => {
            let mut i: usize = 0;
            let mut unused: Option<SymbolId> = None;
            while i < field_options.len()
                invariant_except_break
                    unused is None,
                    first_unused_from(pairs_view(field_options@), fields@, 0) == first_unused_from(
                        pairs_view(field_options@),
                        fields@,
                        i as int,
                    ),
                invariant
                    i <= field_options.len(),
                    sorted_keys(fields@),
                ensures
                    unused == first_unused_from(pairs_view(field_options@), fields@, 0),
                decreases field_options.len() - i,
            {
                assert(pairs_view(field_options@)[i as int].0 == field_options@[i as int].0);
                if !object_field_contains(&fields, field_options[i].0) {
                    unused = Some(field_options[i].0);
                    break;
                }
                i = i + 1;
            }
            if reference_nodes.len() > 0 {
                match unused {
                    Some(f) => {
                        proof {
                            lemma_mapping_insert(fields@, f, reference_nodes@[0].0);
                        }
                        object_field_insert(&mut fields, f, reference_nodes[0].0);
                    },
                    None => {},
                }
            }
            FunctionNodeKind::Object { fields }
        },
        other => other,
    };
}

pub open spec fn retarget_object_mapping_spec(kind: FunctionNodeKindView, field_id: SymbolId, next_field_id: SymbolId) -> FunctionNodeKindView {
    match kind {
        FunctionNodeKindView::Object { fields } => if next_field_id == field_id || has_key(fields, next_field_id) {
            kind
        } else {
            match mapped(fields, field_id) {
                Some(v) => FunctionNodeKindView::Object {
                    fields: mapping_insert(mapping_remove(fields, field_id), next_field_id, v),
                },
                None => kind,
            }
        },
        _ => kind,
    }
}

/// Moves the mapping of target field `field_id` to target field `next_field_id`, unless that one
/// is mapped already.
pub fn retarget_object_mapping(node: &mut FunctionNode, field_id: SymbolId, next_field_id: SymbolId)
    requires
        kind_wf(old(node).kind@),
    ensures
        node_with_kind(*old(node), *final(node), retarget_object_mapping_spec(old(node).kind@, field_id, next_field_id)),
        kind_wf(final(node).kind@),
{
    let kind = take_kind(node);
    node.kind = match kind {
        FunctionNodeKind::Object { mut fields } => {
            if next_field_id != field_id && !object_field_contains(&fields, next_field_id) {
                proof {
                    lemma_mapping_remove(fields@, field_id);
                }
                let removed = object_field_remove(&mut fields, field_id);
                match removed {
                    Some(v) => {
                        proof {
                            lemma_mapping_insert(fields@, next_field_id, v);
                        }
                        object_field_insert(&mut fields, next_field_id, v);
                    },
                    None => {},
                }
            }
            FunctionNodeKind::Object { fields }
        },
        other => other,
    };
}

pub open spec fn set_object_mapping_source_spec(kind: FunctionNodeKindView, field_id: SymbolId, next_node_id: SymbolId) -> FunctionNodeKindView {
    match kind {
        FunctionNodeKindView::Object { fields } => if mapped(fields, field_id) is Some {
            FunctionNodeKindView::Object { fields: mapping_insert(fields, field_id, next_node_id) }
        } else {
            kind
        },
        _ => kind,
    }
}

/// Makes the mapped target field `field_id` take its value from node `next_node_id`.
pub fn set_object_mapping_source(node: &mut FunctionNode, field_id: SymbolId, next_node_id: SymbolId)
    requires
        kind_wf(old(node).kind@),
    ensures
        node_with_kind(*old(node), *final(node), set_object_mapping_source_spec(old(node).kind@, field_id, next_node_id)),
        kind_wf(final(node).kind@),
{
    let kind = take_kind(node);
    node.kind = match kind {
        FunctionNodeKind::Object { mut fields } => {
            if crate::object_fields::object_field_get(&fields, field_id).is_some() {
                proof {
                    lemma_mapping_insert(fields@, field_id, next_node_id);
                }
                object_field_insert(&mut fields, field_id, next_node_id);
            }
            FunctionNodeKind::Object { fields }
        },
        other => other,
    };
}

pub open spec fn remove_object_mapping_spec(kind: FunctionNodeKindView, field_id: SymbolId) -> FunctionNodeKindView {
    match kind {
        FunctionNodeKindView::Object { fields } => FunctionNodeKindView::Object { fields: mapping_remove(fields, field_id) },
        _ => kind,
    }
}

/// Removes the mapping of target field `field_id`.
pub fn remove_object_mapping(node: &mut FunctionNode, field_id: SymbolId)
    requires
        kind_wf(old(node).kind@),
    ensures
        node_with_kind(*old(node), *final(node), remove_object_mapping_spec(old(node).kind@, field_id)),
        kind_wf(final(node).kind@),
{
    let kind = take_kind(node);
    node.kind = match kind {
        FunctionNodeKind::Object { mut fields } => {
            proof {
                lemma_mapping_remove(fields@, field_id);
            }
            object_field_remove(&mut fields, field_id);
            FunctionNodeKind::Object { fields }
        },
        other => other,
    };
}

/// An ordered list of node references edited in place: appended to, one replaced, one removed.
pub open spec fn list_edit(items: Seq<SymbolId>, edit: ItemEdit) -> Seq<SymbolId> {
    match edit {
        ItemEdit::Append(Some(id)) => items.push(id),
        ItemEdit::Append(None) => items,
        ItemEdit::Replace(index, id) => if index < items.len() {
            items.update(index as int, id)
        } else {
            items
        },
        ItemEdit::Remove(index) => if index < items.len() {
            items.remove(index as int)
        } else {
            items
        },
    }
}

/// An edit of a list of node references.
#[derive(Clone, Copy, Debug, PartialEq, Eq, Structural)]
pub enum ItemEdit {
    /// Adds the node, if there is one to add, at the end.
    Append(Option<SymbolId>),
    /// Makes the item at the index the node, when there is such an item.
    Replace(usize, SymbolId),
    /// Removes the item at the index, when there is one.
    Remove(usize),
}

fn apply_item_edit(items: &mut Vec<SymbolId>, edit: ItemEdit)
    ensures
        final(items)@ == list_edit(old(items)@, edit),
{
    match edit {
        ItemEdit::Append(Some(id)) => items.push(id),
        ItemEdit::Append(None) => {},
        ItemEdit::Replace(index, id) => {
            if index < items.len() {
                items.remove(index);
                items.insert(index, id);
                assert(items@ =~= old(items)@.update(index as int, id));
            }
        },
        ItemEdit::Remove(index) => {
            if index < items.len() {
                items.remove(index);
            }
        },
    }
}

pub open spec fn edit_list_items_spec(kind: FunctionNodeKindView, edit: ItemEdit) -> FunctionNodeKindView {
    match kind {
        FunctionNodeKindView::List { items } => FunctionNodeKindView::List { items: list_edit(items, edit) },
        _ => kind,
    }
}

/// Edits the items of a list node.
pub fn edit_list_items(node: &mut FunctionNode, edit: ItemEdit)
    ensures
        node_with_kind(*old(node), *final(node), edit_list_items_spec(old(node).kind@, edit)),
{
    let kind = take_kind(node);
    node.kind = match kind {
        FunctionNodeKind::List { mut items } => {
            apply_item_edit(&mut items, edit);
            FunctionNodeKind::List { items }
        },
        other => other,
    };
}

pub open spec fn edit_format_values_spec(kind: FunctionNodeKindView, edit: ItemEdit) -> FunctionNodeKindView {
    match kind {
        FunctionNodeKindView::Format { template, values } => FunctionNodeKindView::Format {
            template,
            values: list_edit(values, edit),
        },
        _ => kind,
    }
}

/// Edits the parameters of a format node.
pub fn edit_format_values(node: &mut FunctionNode, edit: ItemEdit)
    ensures
        node_with_kind(*old(node), *final(node), edit_format_values_spec(old(node).kind@, edit)),
{
    let kind = take_kind(node);
    node.kind = match kind {
        FunctionNodeKind::Format { template, mut values } => {
            apply_item_edit(&mut values, edit);
            FunctionNodeKind::Format { template, values }
        },
        other => other,
    };
}

pub open spec fn set_format_template_spec(kind: FunctionNodeKindView, template: Seq<char>) -> FunctionNodeKindView {
    match kind {
        FunctionNodeKindView::Format { values, .. } => FunctionNodeKindView::Format { template, values },
        _ => kind,
    }
}

/// Gives a format node the template `template`.
pub fn set_format_template(node: &mut FunctionNode, template: String)
    ensures
        node_with_kind(*old(node), *final(node), set_format_template_spec(old(node).kind@, template@)),
{
    let kind = take_kind(node);
    node.kind = match kind {
        FunctionNodeKind::Format { values, .. } => FunctionNodeKind::Format { template, values },
        other => other,
    };
}

/// A bound typed into the editor, kept between 1 and 10 000.
pub open spec fn clamp_bound(v: u32) -> u32 {
    if v < 1 {
        1
    } else if v > 10_000 {
        10_000
    } else {
        v
    }
}

fn clamp_bound_exec(v: u32) -> (c: u32)
    ensures
        c == clamp_bound(v),
{
    if v < 1 {
        1
    } else if v > 10_000 {
        10_000
    } else {
        v
    }
}

pub open spec fn set_for_each_max_items_spec(kind: FunctionNodeKindView, text: Seq<char>) -> FunctionNodeKindView {
    match kind {
        FunctionNodeKindView::ForEach { body_function_id, .. } => match parse_u32_spec(text) {
            Some(v) => FunctionNodeKindView::ForEach { max_items: clamp_bound(v), body_function_id },
            None => kind,
        },
        _ => kind,
    }
}

/// Sets the item bound of a loop node from the typed text, when it is a number.
pub fn set_for_each_max_items(node: &mut FunctionNode, text: &str)
    ensures
        node_with_kind(*old(node), *final(node), set_for_each_max_items_spec(old(node).kind@, text@)),
{
    let kind = take_kind(node);
    node.kind = match kind {
        FunctionNodeKind::ForEach { max_items, body_function_id } => match parse_u32(text) {
            Some(v) => FunctionNodeKind::ForEach { max_items: clamp_bound_exec(v), body_function_id },
            None => FunctionNodeKind::ForEach { max_items, body_function_id },
        },
        other => other,
    };
}

pub open spec fn set_for_each_body_spec(kind: FunctionNodeKindView, text: Seq<char>) -> FunctionNodeKindView {
    match kind {
        FunctionNodeKindView::ForEach { max_items, .. } => match parse_symbol_spec(text) {
            Some(v) => FunctionNodeKindView::ForEach { max_items, body_function_id: SymbolId { value: v } },
            None => kind,
        },
        _ => kind,
    }
}

/// Sets the function a loop node calls from the chosen identifier text.
pub fn set_for_each_body(node: &mut FunctionNode, text: &str)
    ensures
        node_with_kind(*old(node), *final(node), set_for_each_body_spec(old(node).kind@, text@)),
{
    let kind = take_kind(node);
    node.kind = match kind {
        FunctionNodeKind::ForEach { max_items, body_function_id } => match SymbolId::parse(text) {
            Some(id) => FunctionNodeKind::ForEach { max_items, body_function_id: id },
            None => FunctionNodeKind::ForEach { max_items, body_function_id },
        },
        other => other,
    };
}

pub open spec fn set_query_limit_spec(kind: FunctionNodeKindView, text: Seq<char>) -> FunctionNodeKindView {
    match kind {
        FunctionNodeKindView::QueryRecords { model_id, .. } => match parse_u32_spec(text) {
            Some(v) => FunctionNodeKindView::QueryRecords { model_id, limit: clamp_bound(v) },
            None => kind,
        },
        _ => kind,
    }
}

/// Sets the row limit of a query node from the typed text, when it is a number.
pub fn set_query_limit(node: &mut FunctionNode, text: &str)
    ensures
        node_with_kind(*old(node), *final(node), set_query_limit_spec(old(node).kind@, text@)),
{
    let kind = take_kind(node);
    node.kind = match kind {
        FunctionNodeKind::QueryRecords { model_id, limit } => match parse_u32(text) {
            Some(v) => FunctionNodeKind::QueryRecords { model_id, limit: clamp_bound_exec(v) },
            None => FunctionNodeKind::QueryRecords { model_id, limit },
        },
        other => other,
    };
}

pub open spec fn set_query_model_spec(kind: FunctionNodeKindView, text: Seq<char>) -> FunctionNodeKindView {
    match kind {
        FunctionNodeKindView::QueryRecords { limit, .. } => match parse_symbol_spec(text) {
            Some(v) => FunctionNodeKindView::QueryRecords { model_id: SymbolId { value: v }, limit },
            None => kind,
        },
        _ => kind,
    }
}

/// Sets the model a query node reads from the chosen identifier text.
pub fn set_query_model(node: &mut FunctionNode, text: &str)
    ensures
        node_with_kind(*old(node), *final(node), set_query_model_spec(old(node).kind@, text@)),
{
    let kind = take_kind(node);
    node.kind = match kind {
        FunctionNodeKind::QueryRecords { model_id, limit } => match SymbolId::parse(text) {
            Some(id) => FunctionNodeKind::QueryRecords { model_id: id, limit },
            None => FunctionNodeKind::QueryRecords { model_id, limit },
        },
        other => other,
    };
}

pub open spec fn set_record_model_spec(kind: FunctionNodeKindView, key: Seq<char>, text: Seq<char>) -> FunctionNodeKindView {
    match parse_symbol_spec(text) {
        Some(v) => function_record_node_kind_spec(key, SymbolId { value: v }),
        None => kind,
    }
}

/// Makes a record node work on the model of the chosen identifier text, keeping its kind.
pub fn set_record_model(node: &mut FunctionNode, text: &str)
    ensures
        node_with_kind(
            *old(node),
            *final(node),
            set_record_model_spec(old(node).kind@, function_node_kind_key_spec(old(node).kind), text@),
        ),
{
    let key = function_node_kind_key(&node.kind);
    match SymbolId::parse(text) {
        Some(id) => {
            node.kind = function_record_node_kind(key, id);
        },
        None => {},
    }
}

/// The first operation of the first capability at or after `i` named `id`, or nothing when no
/// capability there is named so or it has no operation.
pub open spec fn catalog_first_operation(cs: Seq<(String, CapabilityDefinition)>, id: Seq<char>, i: int) -> Seq<char>
    decreases cs.len() - i,
{
    if i < 0 || i >= cs.len() {
        Seq::empty()
    } else if cs[i].0@ == id {
        if cs[i].1.operations.len() > 0 {
            cs[i].1.operations@[0]@
        } else {
            Seq::empty()
        }
    } else {
        catalog_first_operation(cs, id, i + 1)
    }
}

pub open spec fn set_capability_spec(kind: FunctionNodeKindView, catalog: CapabilityCatalog, id: Seq<char>) -> FunctionNodeKindView {
    match kind {
        FunctionNodeKindView::Capability { .. } => FunctionNodeKindView::Capability {
            capability_id: id,
            operation: catalog_first_operation(catalog.capabilities@, id, 0),
        },
        _ => kind,
    }
}

fn first_operation_of(catalog: &CapabilityCatalog, id: &str) -> (operation: String)
    ensures
        operation@ == catalog_first_operation(catalog.capabilities@, id@, 0),
{
    let cs = &catalog.capabilities;
    let mut i: usize = 0;
    while i < cs.len()
        invariant
            i <= cs.len(),
            cs@ == catalog.capabilities@,
            catalog_first_operation(cs@, id@, 0) == catalog_first_operation(cs@, id@, i as int),
        decreases cs.len() - i,
    {
        let entry = &cs[i];
        if text_eq(entry.0.as_str(), id) {
            assert(entry == cs@[i as int]);
            if entry.1.operations.len() > 0 {
                let operation = entry.1.operations[0].clone();
                return operation;
            }
            let none = String::new();
            assert(none@ =~= Seq::<char>::empty());
            return none;
        }
        i = i + 1;
    }
    String::new()
}

/// Makes a capability node invoke the capability `id`, with its first operation.
pub fn set_capability(node: &mut FunctionNode, catalog: &CapabilityCatalog, id: String)
    requires
        catalog_wf(*catalog),
    ensures
        node_with_kind(*old(node), *final(node), set_capability_spec(old(node).kind@, *catalog, id@)),
{
    let operation = first_operation_of(catalog, id.as_str());
    let kind = take_kind(node);
    node.kind = match kind {
        FunctionNodeKind::Capability { .. } => FunctionNodeKind::Capability { capability_id: id, operation },
        other => other,
    };
}

pub open spec fn set_capability_operation_spec(kind: FunctionNodeKindView, operation: Seq<char>) -> FunctionNodeKindView {
    match kind {
        FunctionNodeKindView::Capability { capability_id, .. } => FunctionNodeKindView::Capability { capability_id, operation },
        _ => kind,
    }
}

/// Makes a capability node invoke the operation `operation` of its capability.
pub fn set_capability_operation(node: &mut FunctionNode, operation: String)
    ensures
        node_with_kind(*old(node), *final(node), set_capability_operation_spec(old(node).kind@, operation@)),
{
    let kind = take_kind(node);
    node.kind = match kind {
        FunctionNodeKind::Capability { capability_id, .. } => FunctionNodeKind::Capability { capability_id, operation },
        other => other,
    };
}

} // verus!

verus! {

/// The field chosen for a new mapping is the first field offered that is not mapped yet.
pub proof fn first_unused_is_the_first_free_choice(options: Seq<(SymbolId, Seq<char>)>, fields: Seq<(SymbolId, SymbolId)>, i: int)
    requires
        0 <= i,
    ensures
        first_unused_from(options, fields, i) matches Some(f) ==> exists|k: int|
            i <= k < options.len() && #[trigger] options[k].0 == f && !has_key(fields, f) && forall|j: int|
                i <= j < k ==> has_key(fields, #[trigger] options[j].0),
        first_unused_from(options, fields, i) is None ==> forall|j: int| i <= j < options.len() ==> has_key(
            fields,
            #[trigger] options[j].0,
        ),
    decreases options.len() - i,
{
    if i < options.len() && has_key(fields, options[i].0) {
        first_unused_is_the_first_free_choice(options, fields, i + 1);
        if first_unused_from(options, fields, i) is Some {
            let f = first_unused_from(options, fields, i)->0;
            let k = choose|k: int|
                i + 1 <= k < options.len() && #[trigger] options[k].0 == f && !has_key(fields, f) && forall|j: int|
                    i + 1 <= j < k ==> has_key(fields, #[trigger] options[j].0);
            assert(forall|j: int| i <= j < k ==> has_key(fields, #[trigger] options[j].0));
        }
    } else if i < options.len() {
        assert(options[i].0 == first_unused_from(options, fields, i)->0);
    }
}

/// What the editor does to an object node's mapping from target fields to source nodes, read
/// through `mapped`: adding maps the first free field offered to the first node offered, when
/// there are both; removing unmaps the field; changing the source remaps a mapped field to the
/// node chosen; moving a mapping carries its source to a field not mapped yet and unmaps the
/// old field. Every other field keeps its source.
pub proof fn object_mapping_edits(
    fields: Seq<(SymbolId, SymbolId)>,
    field_options: Seq<(SymbolId, Seq<char>)>,
    reference_nodes: Seq<(SymbolId, Seq<char>)>,
    field_id: SymbolId,
    next_field_id: SymbolId,
    next_node_id: SymbolId,
    other: SymbolId,
)
    requires
        sorted_keys(fields),
    ensures
        ({
            let kind = FunctionNodeKindView::Object { fields };
            let added = add_object_mapping_spec(kind, field_options, reference_nodes);
            let removed = remove_object_mapping_spec(kind, field_id);
            let sourced = set_object_mapping_source_spec(kind, field_id, next_node_id);
            let moved = retarget_object_mapping_spec(kind, field_id, next_field_id);
            &&& added is Object && removed is Object && sourced is Object && moved is Object
            &&& (first_unused_from(field_options, fields, 0) is None || reference_nodes.len() == 0) ==> added == kind
            &&& (first_unused_from(field_options, fields, 0) is Some && reference_nodes.len() > 0) ==> ({
                let f = first_unused_from(field_options, fields, 0)->0;
                &&& mapped(added->Object_fields, f) == Some(reference_nodes[0].0)
                &&& mapped(fields, f) is None
                &&& other != f ==> mapped(added->Object_fields, other) == mapped(fields, other)
            })
            &&& mapped(removed->Object_fields, field_id) is None
            &&& other != field_id ==> mapped(removed->Object_fields, other) == mapped(fields, other)
            &&& mapped(fields, field_id) is Some ==> mapped(sourced->Object_fields, field_id) == Some(next_node_id)
            &&& mapped(fields, field_id) is None ==> sourced == kind
            &&& other != field_id ==> mapped(sourced->Object_fields, other) == mapped(fields, other)
            &&& (next_field_id != field_id && mapped(fields, next_field_id) is None && mapped(fields, field_id) is Some)
                ==> mapped(moved->Object_fields, next_field_id) == mapped(fields, field_id) && mapped(
                moved->Object_fields,
                field_id,
            ) is None && (other != field_id && other != next_field_id ==> mapped(moved->Object_fields, other)
                == mapped(fields, other))
            &&& (next_field_id == field_id || mapped(fields, next_field_id) is Some || mapped(fields, field_id) is None)
                ==> moved == kind
        }),
{
    crate::object_fields::lemma_lower_bound(fields, field_id);
    crate::object_fields::lemma_lower_bound(fields, next_field_id);
    lemma_mapping_remove(fields, field_id);
    lemma_mapping_insert(fields, field_id, next_node_id);
    if other != field_id {
        crate::object_fields::mapping_remove_keeps_others(fields, field_id, other);
        crate::object_fields::mapping_insert_keeps_others(fields, field_id, next_node_id, other);
    }
    first_unused_is_the_first_free_choice(field_options, fields, 0);
    if first_unused_from(field_options, fields, 0) is Some && reference_nodes.len() > 0 {
        let f = first_unused_from(field_options, fields, 0)->0;
        crate::object_fields::lemma_lower_bound(fields, f);
        lemma_mapping_insert(fields, f, reference_nodes[0].0);
        if other != f {
            crate::object_fields::mapping_insert_keeps_others(fields, f, reference_nodes[0].0, other);
        }
    }
    if next_field_id != field_id && !has_key(fields, next_field_id) && mapped(fields, field_id) is Some {
        let rest = mapping_remove(fields, field_id);
        let v = mapped(fields, field_id)->0;
        lemma_mapping_insert(rest, next_field_id, v);
        crate::object_fields::mapping_insert_keeps_others(rest, next_field_id, v, field_id);
        if other != field_id && other != next_field_id {
            crate::object_fields::mapping_insert_keeps_others(rest, next_field_id, v, other);
        }
    }
}

/// Editing the items of a list node or the values of a format node: appending adds the node at
/// the end, replacing changes only the item at that index, removing drops that item and moves the
/// later ones down by one; an index past the end changes nothing. A format node keeps its
/// template, and setting the template keeps its values.
pub proof fn item_edits(items: Seq<SymbolId>, template: Seq<char>, edit: ItemEdit, next_template: Seq<char>)
    ensures
        edit matches ItemEdit::Append(Some(id)) ==> list_edit(items, edit).len() == items.len() + 1 && list_edit(
            items,
            edit,
        )[items.len() as int] == id && forall|k: int| 0 <= k < items.len() ==> #[trigger] list_edit(items, edit)[k] == items[k],
        edit is Append && edit->Append_0 is None ==> list_edit(items, edit) == items,
        edit matches ItemEdit::Replace(i, id) ==> list_edit(items, edit).len() == items.len() && forall|k: int|
            0 <= k < items.len() ==> #[trigger] list_edit(items, edit)[k] == if k == i {
                id
            } else {
                items[k]
            },
        edit matches ItemEdit::Remove(i) ==> (if i < items.len() {
            list_edit(items, edit).len() == items.len() - 1 && forall|k: int|
                0 <= k < items.len() - 1 ==> #[trigger] list_edit(items, edit)[k] == if k < i {
                    items[k]
                } else {
                    items[k + 1]
                }
        } else {
            list_edit(items, edit) == items
        }),
        (edit_list_items_spec(FunctionNodeKindView::List { items }, edit) == FunctionNodeKindView::List {
            items: list_edit(items, edit),
        }),
        (edit_format_values_spec(FunctionNodeKindView::Format { template, values: items }, edit)
            == FunctionNodeKindView::Format { template, values: list_edit(items, edit) }),
        (set_format_template_spec(FunctionNodeKindView::Format { template, values: items }, next_template)
            == FunctionNodeKindView::Format { template: next_template, values: items }),
{
}

} // verus!

verus! {

/// A bound typed for a loop's items or a query's rows that is a number between 1 and 10 000 is
/// taken as it is; a larger or smaller number is brought into that range; other text changes
/// nothing. The loop keeps its body and the query its model.
pub proof fn typed_bounds(max_items: u32, body_function_id: SymbolId, model_id: SymbolId, limit: u32, text: Seq<char>)
    ensures
        ({
            let each = set_for_each_max_items_spec(FunctionNodeKindView::ForEach { max_items, body_function_id }, text);
            let query = set_query_limit_spec(FunctionNodeKindView::QueryRecords { model_id, limit }, text);
            &&& each is ForEach && each->ForEach_body_function_id == body_function_id
            &&& query is QueryRecords && query->QueryRecords_model_id == model_id
            &&& 1 <= each->ForEach_max_items <= 10_000 || (parse_u32_spec(text) is None && each->ForEach_max_items == max_items)
            &&& parse_u32_spec(text) is None ==> each->ForEach_max_items == max_items && query->QueryRecords_limit == limit
            &&& parse_u32_spec(text) matches Some(v) ==> (1 <= v <= 10_000 ==> each->ForEach_max_items == v
                && query->QueryRecords_limit == v)
            &&& parse_u32_spec(text) matches Some(v) ==> (v > 10_000 ==> each->ForEach_max_items == 10_000
                && query->QueryRecords_limit == 10_000)
            &&& parse_u32_spec(text) matches Some(v) ==> (v < 1 ==> each->ForEach_max_items == 1 && query->QueryRecords_limit
                == 1)
        }),
{
}

} // verus!
