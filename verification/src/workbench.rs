//! Small decisions of the published workbench and the permission table: renaming the
//! application, finding the menu to delete, and when a permission may be deleted.

use vstd::prelude::*;
use crate::symbol::SymbolId;
use crate::text::{trim, trim_spec, decimal_seq, decimal_text};
use crate::json::{JsonValue, JsonView};
use crate::menu::{
    MenuDefinition, MenuTableRow, MenuTableRowView, find_menu_table_row, first_row_with_id, forest_nodes,
    forest_table_rows, menus_view,
};
use crate::patch::{EditableProperty, GraphPatch, GraphPatchView, PatchValue, PatchValueView, patches_view};
use crate::field_editor::patches_result_view;
use vstd::string::StrSliceExecFns;
use vstd::string::StringExecFns;

verus! {

/// What renaming the application gives: the patch that sets the definition's title to the
/// trimmed text, or the message for an empty one.
pub open spec fn application_title_spec(definition_id: SymbolId, title: Seq<char>) -> Result<Seq<GraphPatchView>, Seq<char>> {
    let next = trim_spec(title);
    if next.len() == 0 {
        Err("应用标题不能为空"@)
    } else {
        Ok(
            seq![
                GraphPatchView::SetProperty {
                    target_id: definition_id,
                    property: EditableProperty::Title,
                    value: PatchValueView::Json(JsonView::String(next)),
                },
            ],
        )
    }
}

/// Submits the application title editor.
pub fn application_title_submit(definition_id: SymbolId, title: &str) -> (r: Result<Vec<GraphPatch>, String>)
    ensures
        patches_result_view(r) == application_title_spec(definition_id, title@),
{
    let next = trim(title);
    if next.unicode_len() == 0 {
        return Err("应用标题不能为空".to_owned());
    }
    let patches = vec![
        GraphPatch::SetProperty {
            target_id: definition_id,
            property: EditableProperty::Title,
            value: PatchValue::Json(JsonValue::String(next.to_owned())),
        },
    ];
    assert(patches_view(patches@) =~= seq![patches@[0]@]);
    Ok(patches)
}

pub open spec fn menu_row_result_view(r: Result<MenuTableRow, String>) -> Result<MenuTableRowView, Seq<char>> {
    match r {
        Ok(row) => Ok(row@),
        Err(m) => Err(m@),
    }
}

/// The menu that the workbench deletes: its table row among all scenes, or the message that it
/// no longer exists.
pub fn admin_menu_delete_row(menus: &[MenuDefinition], program_id: SymbolId, menu_id: SymbolId) -> (r: Result<MenuTableRow, String>)
    requires
        forest_nodes(menus_view(menus@)).len() <= usize::MAX,
    ensures
        menu_row_result_view(r) == match first_row_with_id(
            forest_table_rows(menus_view(menus@), 0, program_id, crate::patch::ChildCollection::Menus, menus@.len(), Seq::empty()),
            menu_id,
        ) {
            Some(row) => Ok::<MenuTableRowView, Seq<char>>(row),
            None => Err("菜单已经不存在"@),
        },
{
    match find_menu_table_row(menus, program_id, menu_id) {
        Some(row) => Ok(row),
        None => Err("菜单已经不存在".to_owned()),
    }
}

/// The title of a permission's delete button: deleting is refused, and the title says why,
/// while definitions still refer to the permission.
pub open spec fn permission_delete_title_spec(usage_count: nat, name: Seq<char>) -> Seq<char> {
    if usage_count > 0 {
        "该权限被 "@ + decimal_seq(usage_count) + " 处定义引用，不能删除"@
    } else {
        "删除权限 "@ + name
    }
}

/// Whether a permission that `usage_count` definitions refer to may be deleted, and the title
/// of its delete button.
pub fn permission_delete_guard(usage_count: usize, name: &str) -> (guard: (bool, String))
    ensures
        guard.0 == (usage_count == 0),
        guard.1@ == permission_delete_title_spec(usage_count as nat, name@),
{
    if usage_count > 0 {
        let mut title = "该权限被 ".to_owned();
        let count = decimal_text(usage_count as u128);
        title.append(count.as_str());
        title.append(" 处定义引用，不能删除");
        (false, title)
    } else {
        let mut title = "删除权限 ".to_owned();
        title.append(name);
        (true, title)
    }
}

} // verus!
