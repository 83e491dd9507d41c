//! What submitting the menu editor does: reading its form, the checks on the menu, where it is
//! placed among its siblings, and the patches that create or change it.

use vstd::prelude::*;
use crate::symbol::{SymbolId, parse_symbol_spec};
use crate::text::{trim, trim_spec, parse_usize, parse_usize_spec, text_eq};
use crate::menu::{
    MenuDefinition, MenuRowActions, MenuView, menu_child_count, menu_name_exists, any_node,
    forest_nodes, menus_view, named_like, first_with_id,
};
use crate::form::{FormValues, form_text, form_text_spec, checked_permissions, menu_permissions_from_form, menu_action_from_form, menu_action_from_value_spec};
use crate::definition::PermissionDefinition;
use crate::patch::{
    ChildCollection, EditableProperty, GraphEntity, GraphEntityView, GraphPatch, GraphPatchView, PatchValue,
    PatchValueView, patches_view,
};
use crate::json::{JsonValue, JsonView};
use vstd::string::StrSliceExecFns;
use vstd::string::StringExecFns;

verus! {

/// Whether the menu editor creates a menu under a parent at an index, or edits a menu placed
/// at `position` among `sibling_count` siblings of a collection.
#[derive(Clone, Copy, Debug, PartialEq, Eq, Structural)]
pub enum MenuEditorMode {
    Create { parent_id: SymbolId, index: usize },
    Edit { parent_id: SymbolId, collection: ChildCollection, position: usize, sibling_count: usize },
}

impl MenuEditorMode {
    pub open spec fn parent_spec(self) -> SymbolId {
        match self {
            MenuEditorMode::Create { parent_id, .. } => parent_id,
            MenuEditorMode::Edit { parent_id, .. } => parent_id,
        }
    }

    pub open spec fn position_spec(self) -> usize {
        match self {
            MenuEditorMode::Create { index, .. } => index,
            MenuEditorMode::Edit { position, .. } => position,
        }
    }

    pub open spec fn sibling_count_spec(self) -> usize {
        match self {
            MenuEditorMode::Create { index, .. } => index,
            MenuEditorMode::Edit { sibling_count, .. } => sibling_count,
        }
    }

    /// Whether the menu edited is a scene, at the root of the menu tree.
    pub open spec fn root_scene_spec(self) -> bool {
        self matches MenuEditorMode::Edit { collection: ChildCollection::Menus, .. }
    }
}

/// The number of menus that the parent chosen in the editor has, the menu itself included when
/// it already sits there.
pub open spec fn selected_parent_count_spec(
    mode: MenuEditorMode,
    editing: bool,
    selected_parent_id: SymbolId,
    root_menus: Seq<MenuView>,
) -> usize {
    if editing && selected_parent_id == mode.parent_spec() {
        mode.sibling_count_spec()
    } else if mode.root_scene_spec() {
        root_menus.len() as usize
    } else {
        match first_with_id(forest_nodes(root_menus), selected_parent_id) {
            Some(v) => v.children.len() as usize,
            None => 0,
        }
    }
}

/// The largest position the sort field offers: one past the siblings when the menu moves to
/// another parent, and at least one.
pub open spec fn menu_sort_max_spec(mode: MenuEditorMode, editing: bool, selected_parent_id: SymbolId, root_menus: Seq<MenuView>) -> usize {
    let count = selected_parent_count_spec(mode, editing, selected_parent_id, root_menus);
    let bound: usize = if editing && selected_parent_id == mode.parent_spec() {
        count
    } else if count == usize::MAX {
        count
    } else {
        (count + 1) as usize
    };
    if bound < 1 {
        1
    } else {
        bound
    }
}

/// The largest position that the sort field offers for the parent `selected_parent_id`.
pub fn menu_sort_max(mode: MenuEditorMode, editing: bool, selected_parent_id: SymbolId, root_menus: &[MenuDefinition]) -> (max: usize)
    ensures
        max == menu_sort_max_spec(mode, editing, selected_parent_id, menus_view(root_menus@)),
{
    let (parent_id, sibling_count) = match mode {
        MenuEditorMode::Create { parent_id, index } => (parent_id, index),
        MenuEditorMode::Edit { parent_id, sibling_count, .. } => (parent_id, sibling_count),
    };
    let same_parent = editing && selected_parent_id == parent_id;
    let root_scene = match mode {
        MenuEditorMode::Edit { collection: ChildCollection::Menus, .. } => true,
        _ => false,
    };
    let count = if same_parent {
        sibling_count
    } else if root_scene {
        root_menus.len()
    } else {
        match menu_child_count(root_menus, selected_parent_id) {
            Some(c) => c,
            None => 0,
        }
    };
    proof {
        crate::menu::lemma_menus_view(root_menus@);
    }
    let bound = if same_parent {
        count
    } else {
        count.saturating_add(1)
    };
    if bound < 1 {
        1
    } else {
        bound
    }
}

/// The position a menu is placed at: the sort field's one-based number, or the current position
/// when it is not a number, kept below `sort_max`.
pub open spec fn requested_position_spec(sort: Seq<char>, initial_position: usize, sort_max: usize) -> usize {
    let number: int = match parse_usize_spec(sort) {
        Some(n) => n as int,
        None => initial_position + 1,
    };
    let zero_based: int = if number > 0 {
        number - 1
    } else {
        0
    };
    let limit: int = if sort_max > 0 {
        sort_max - 1
    } else {
        0
    };
    (if zero_based < limit {
        zero_based
    } else {
        limit
    }) as usize
}

/// The zero-based position that the sort field asks for.
pub fn requested_menu_position(sort: &str, initial_position: usize, sort_max: usize) -> (position: usize)
    requires
        initial_position < usize::MAX,
    ensures
        position == requested_position_spec(sort@, initial_position, sort_max),
{
    let number = match parse_usize(sort) {
        Some(n) => n,
        None => initial_position + 1,
    };
    let zero_based = if number > 0 {
        number - 1
    } else {
        0
    };
    let limit = if sort_max > 0 {
        sort_max - 1
    } else {
        0
    };
    if zero_based < limit {
        zero_based
    } else {
        limit
    }
}

/// What the menu editor's form holds.
pub struct MenuEditorInput {
    pub name: String,
    pub title: String,
    pub icon: String,
    pub path: String,
    pub enabled: bool,
    pub sort: String,
    pub required_permissions: Vec<SymbolId>,
    pub row_actions: MenuRowActions,
}

/// Reads the menu editor's form: the texts trimmed but for the sort number, the switch on when
/// sent with a value, the permissions checked, and the access of each row action.
pub fn menu_editor_input(form: &FormValues, permissions: &[PermissionDefinition]) -> (input: MenuEditorInput)
    ensures
        input.name@ == trim_spec(form_text_spec(form@, "name"@)),
        input.title@ == trim_spec(form_text_spec(form@, "title"@)),
        input.icon@ == trim_spec(form_text_spec(form@, "icon"@)),
        input.path@ == trim_spec(form_text_spec(form@, "path"@)),
        input.enabled == (form_text_spec(form@, "menu_enabled"@).len() > 0),
        input.sort@ == form_text_spec(form@, "sort"@),
        input.required_permissions@ == checked_permissions(form@, permissions@, "menu_permission_"@),
        input.row_actions == (MenuRowActions {
            detail: menu_action_from_value_spec(form_text_spec(form@, "detail_access"@)),
            edit: menu_action_from_value_spec(form_text_spec(form@, "edit_access"@)),
            delete: menu_action_from_value_spec(form_text_spec(form@, "delete_access"@)),
        }),
{
    let name = form_text(form, "name");
    let title = form_text(form, "title");
    let icon = form_text(form, "icon");
    let path = form_text(form, "path");
    let enabled = form_text(form, "menu_enabled");
    MenuEditorInput {
        name: trim(name.as_str()).to_owned(),
        title: trim(title.as_str()).to_owned(),
        icon: trim(icon.as_str()).to_owned(),
        path: trim(path.as_str()).to_owned(),
        enabled: enabled.as_str().unicode_len() > 0,
        sort: form_text(form, "sort"),
        required_permissions: menu_permissions_from_form(form, permissions),
        row_actions: MenuRowActions {
            detail: menu_action_from_form(form, "detail_access"),
            edit: menu_action_from_form(form, "edit_access"),
            delete: menu_action_from_form(form, "delete_access"),
        },
    }
}

/// The value of an optional text property: null when empty.
pub open spec fn text_or_null(t: Seq<char>) -> JsonView {
    if t.len() == 0 {
        JsonView::Null
    } else {
        JsonView::String(t)
    }
}

fn text_or_null_value(t: &str) -> (v: JsonValue)
    ensures
        v@ == text_or_null(t@),
{
    if t.unicode_len() == 0 {
        JsonValue::Null
    } else {
        JsonValue::String(t.to_owned())
    }
}

/// The input's fields as they are submitted.
pub ghost struct MenuEditorInputView {
    pub name: Seq<char>,
    pub title: Seq<char>,
    pub icon: Seq<char>,
    pub path: Seq<char>,
    pub enabled: bool,
    pub sort: Seq<char>,
    pub required_permissions: Seq<SymbolId>,
    pub row_actions: MenuRowActions,
}

impl View for MenuEditorInput {
    type V = MenuEditorInputView;

    open spec fn view(&self) -> MenuEditorInputView {
        MenuEditorInputView {
            name: self.name@,
            title: self.title@,
            icon: self.icon@,
            path: self.path@,
            enabled: self.enabled,
            sort: self.sort@,
            required_permissions: self.required_permissions@,
            row_actions: self.row_actions,
        }
    }
}

/// The patches that create or change the menu, and move it when its parent or position changes.
pub open spec fn menu_editor_patches_spec(
    input: MenuEditorInputView,
    menu_id: SymbolId,
    mode: MenuEditorMode,
    selected_page: Seq<char>,
    current_page_id: Seq<char>,
    route_id: Option<SymbolId>,
    selected_parent_id: SymbolId,
    requested_position: usize,
) -> Seq<GraphPatchView> {
    match mode {
        MenuEditorMode::Create { parent_id, .. } => seq![
            GraphPatchView::Insert {
                parent_id,
                collection: ChildCollection::MenuChildren,
                index: requested_position,
                entity: GraphEntityView::Menu(
                    MenuView {
                        id: menu_id,
                        name: input.name,
                        title: input.title,
                        icon: if input.icon.len() == 0 {
                            None
                        } else {
                            Some(input.icon)
                        },
                        page_id: match parse_symbol_spec(selected_page) {
                            Some(v) => Some(SymbolId { value: v }),
                            None => None,
                        },
                        enabled: input.enabled,
                        children: Seq::empty(),
                        required_permissions: input.required_permissions,
                        row_actions: input.row_actions,
                    },
                ),
            },
        ],
        MenuEditorMode::Edit { parent_id, collection, position, .. } => {
            let next_parent = if collection == ChildCollection::Menus {
                parent_id
            } else {
                selected_parent_id
            };
            let next_collection = if collection == ChildCollection::Menus {
                ChildCollection::Menus
            } else {
                ChildCollection::MenuChildren
            };
            seq![
                GraphPatchView::Rename { target_id: menu_id, name: input.name, title: Some(input.title) },
                GraphPatchView::SetProperty {
                    target_id: menu_id,
                    property: EditableProperty::Icon,
                    value: PatchValueView::Json(text_or_null(input.icon)),
                },
                GraphPatchView::SetProperty {
                    target_id: menu_id,
                    property: EditableProperty::MenuPage,
                    value: PatchValueView::Json(text_or_null(selected_page)),
                },
                GraphPatchView::SetProperty {
                    target_id: menu_id,
                    property: EditableProperty::MenuEnabled,
                    value: PatchValueView::Json(JsonView::Bool(input.enabled)),
                },
                GraphPatchView::SetProperty {
                    target_id: menu_id,
                    property: EditableProperty::MenuPermissions,
                    value: PatchValueView::Ids(input.required_permissions),
                },
                GraphPatchView::SetProperty {
                    target_id: menu_id,
                    property: EditableProperty::MenuRowActions,
                    value: PatchValueView::RowActions(input.row_actions),
                },
            ] + (if selected_page == current_page_id && route_id is Some {
                seq![
                    GraphPatchView::SetProperty {
                        target_id: route_id->0,
                        property: EditableProperty::RoutePath,
                        value: PatchValueView::Json(JsonView::String(input.path)),
                    },
                ]
            } else {
                Seq::empty()
            }) + (if next_parent != parent_id || requested_position != position {
                seq![
                    GraphPatchView::Move {
                        target_id: menu_id,
                        parent_id: next_parent,
                        collection: next_collection,
                        index: requested_position,
                    },
                ]
            } else {
                Seq::empty()
            })
        },
    }
}

/// What submitting the menu editor gives, given whether its name follows the program's identifier
/// rule and what the program's route rule says of its path: the patches, or the message shown.
pub open spec fn menu_editor_submit_spec(
    input: MenuEditorInputView,
    name_valid: bool,
    path_error: Option<Seq<char>>,
    menu_id: SymbolId,
    mode: MenuEditorMode,
    editing: bool,
    root_menus: Seq<MenuView>,
    selected_page: Seq<char>,
    current_page_id: Seq<char>,
    route_id: Option<SymbolId>,
    selected_parent_id: SymbolId,
) -> Result<Seq<GraphPatchView>, Seq<char>> {
    if !name_valid {
        Err("菜单标识必须以小写字母开头，只能包含小写字母、数字、下划线或连字符"@)
    } else if input.title.len() == 0 {
        Err("菜单名称不能为空"@)
    } else if any_node(
        forest_nodes(root_menus),
        named_like(
            input.name,
            if editing {
                Some(menu_id)
            } else {
                None
            },
        ),
    ) {
        Err("菜单标识已存在: "@ + input.name)
    } else if selected_page == current_page_id && route_id is Some && path_error is Some {
        Err(path_error->0)
    } else {
        let sort_max = menu_sort_max_spec(mode, editing, selected_parent_id, root_menus);
        let position = requested_position_spec(input.sort, mode.position_spec(), sort_max);
        Ok(
            menu_editor_patches_spec(
                input,
                menu_id,
                mode,
                selected_page,
                current_page_id,
                route_id,
                selected_parent_id,
                position,
            ),
        )
    }
}

pub open spec fn patches_result_view(r: Result<Vec<GraphPatch>, String>) -> Result<Seq<GraphPatchView>, Seq<char>> {
    match r {
        Ok(ps) => Ok(patches_view(ps@)),
        Err(e) => Err(e@),
    }
}

fn menu_patches(
    input: &MenuEditorInput,
    menu_id: SymbolId,
    mode: MenuEditorMode,
    selected_page: &str,
    current_page_id: &str,
    route_id: Option<SymbolId>,
    selected_parent_id: SymbolId,
    requested_position: usize,
) -> (patches: Vec<GraphPatch>)
    ensures
        patches_view(patches@) == menu_editor_patches_spec(
            input@,
            menu_id,
            mode,
            selected_page@,
            current_page_id@,
            route_id,
            selected_parent_id,
            requested_position,
        ),
{
    match mode {
        MenuEditorMode::Create { parent_id, .. } => {
            let menu = MenuDefinition {
                id: menu_id,
                name: input.name.clone(),
                title: input.title.clone(),
                icon: if input.icon.as_str().unicode_len() == 0 {
                    None
                } else {
                    Some(input.icon.clone())
                },
                page_id: SymbolId::parse(selected_page),
                enabled: input.enabled,
                children: Vec::new(),
                required_permissions: input.required_permissions.clone(),
                row_actions: input.row_actions,
            };
            proof {
                crate::menu::lemma_menus_view(menu.children@);
            }
            assert(menus_view(menu.children@) =~= Seq::<MenuView>::empty());
            let patches = vec![
                GraphPatch::Insert {
                    parent_id,
                    collection: ChildCollection::MenuChildren,
                    index: requested_position,
                    entity: GraphEntity::Menu(menu),
                },
            ];
            assert(patches_view(patches@) =~= menu_editor_patches_spec(
                input@,
                menu_id,
                mode,
                selected_page@,
                current_page_id@,
                route_id,
                selected_parent_id,
                requested_position,
            ));
            patches
        },
        MenuEditorMode::Edit { parent_id, collection, position, .. } => {
            let mut patches = vec![
                GraphPatch::Rename { target_id: menu_id, name: input.name.clone(), title: Some(input.title.clone()) },
                GraphPatch::SetProperty {
                    target_id: menu_id,
                    property: EditableProperty::Icon,
                    value: PatchValue::Json(text_or_null_value(input.icon.as_str())),
                },
                GraphPatch::SetProperty {
                    target_id: menu_id,
                    property: EditableProperty::MenuPage,
                    value: PatchValue::Json(text_or_null_value(selected_page)),
                },
                GraphPatch::SetProperty {
                    target_id: menu_id,
                    property: EditableProperty::MenuEnabled,
                    value: PatchValue::Json(JsonValue::Bool(input.enabled)),
                },
                GraphPatch::SetProperty {
                    target_id: menu_id,
                    property: EditableProperty::MenuPermissions,
                    value: PatchValue::Ids(input.required_permissions.clone()),
                },
                GraphPatch::SetProperty {
                    target_id: menu_id,
                    property: EditableProperty::MenuRowActions,
                    value: PatchValue::RowActions(input.row_actions),
                },
            ];
            let ghost base = patches_view(patches@);
            let route_change = text_eq(selected_page, current_page_id) && route_id.is_some();
            if route_change {
                let route = route_id.unwrap();
                let ghost before = patches@;
                patches.push(
                    GraphPatch::SetProperty {
                        target_id: route,
                        property: EditableProperty::RoutePath,
                        value: PatchValue::Json(JsonValue::String(input.path.clone())),
                    },
                );
                assert(patches_view(patches@) =~= patches_view(before).push(patches@.last()@));
            }
            let ghost routed = patches_view(patches@);
            let next_parent = if collection == ChildCollection::Menus {
                parent_id
            } else {
                selected_parent_id
            };
            let next_collection = if collection == ChildCollection::Menus {
                ChildCollection::Menus
            } else {
                ChildCollection::MenuChildren
            };
            if next_parent != parent_id || requested_position != position {
                let ghost before = patches@;
                patches.push(
                    GraphPatch::Move {
                        target_id: menu_id,
                        parent_id: next_parent,
                        collection: next_collection,
                        index: requested_position,
                    },
                );
                assert(patches_view(patches@) =~= patches_view(before).push(patches@.last()@));
            }
            assert(patches_view(patches@) =~= menu_editor_patches_spec(
                input@,
                menu_id,
                mode,
                selected_page@,
                current_page_id@,
                route_id,
                selected_parent_id,
                requested_position,
            ));
            patches
        },
    }
}

/// Submits the menu editor. `name_valid` says whether the input's name follows the program's
/// identifier rule, `path_error` what the program's route rule says of the input's path;
/// `selected_page` and `selected_parent_id` are the editor's choices, `current_page_id` the
/// page the menu opened before and `route_id` that page's route.
#[verifier::rlimit(40)]
pub fn menu_editor_submit(
    input: &MenuEditorInput,
    name_valid: bool,
    path_error: Option<String>,
    menu_id: SymbolId,
    mode: MenuEditorMode,
    editing: bool,
    root_menus: &[MenuDefinition],
    selected_page: &str,
    current_page_id: &str,
    route_id: Option<SymbolId>,
    selected_parent_id: SymbolId,
) -> (r: Result<Vec<GraphPatch>, String>)
    requires
        mode.position_spec() < usize::MAX,
    ensures
        patches_result_view(r) == menu_editor_submit_spec(
            input@,
            name_valid,
            match path_error {
                Some(e) => Some(e@),
                None => None,
            },
            menu_id,
            mode,
            editing,
            menus_view(root_menus@),
            selected_page@,
            current_page_id@,
            route_id,
            selected_parent_id,
        ),
{
    if !name_valid {
        return Err("菜单标识必须以小写字母开头，只能包含小写字母、数字、下划线或连字符".to_owned());
    }
    if input.title.as_str().unicode_len() == 0 {
        return Err("菜单名称不能为空".to_owned());
    }
    let excluded = if editing {
        Some(menu_id)
    } else {
        None
    };
    if menu_name_exists(root_menus, input.name.as_str(), excluded) {
        let mut message = "菜单标识已存在: ".to_owned();
        message.append(input.name.as_str());
        return Err(message);
    }
    if text_eq(selected_page, current_page_id) && route_id.is_some() {
        match path_error {
            Some(e) => return Err(e),
            None => {},
        }
    }
    let sort_max = menu_sort_max(mode, editing, selected_parent_id, root_menus);
    let initial_position = match mode {
        MenuEditorMode::Create { index, .. } => index,
        MenuEditorMode::Edit { position, .. } => position,
    };
    let position = requested_menu_position(input.sort.as_str(), initial_position, sort_max);
    Ok(menu_patches(input, menu_id, mode, selected_page, current_page_id, route_id, selected_parent_id, position))
}

} // verus!

verus! {

/// The position typed into the sort field, counted from one, becomes the menu's place among its
/// siblings, counted from zero, kept below the largest position offered; without a number the
/// menu keeps its place, again kept below that bound.
pub proof fn sort_field_gives_the_position(sort: Seq<char>, initial_position: usize, sort_max: usize)
    ensures
        sort_max >= 1 ==> requested_position_spec(sort, initial_position, sort_max) < sort_max,
        forall|n: usize| parse_usize_spec(sort) == Some(n) && 1 <= n <= sort_max ==> requested_position_spec(
            sort,
            initial_position,
            sort_max,
        ) == n - 1,
        parse_usize_spec(sort) is None && initial_position < sort_max ==> requested_position_spec(
            sort,
            initial_position,
            sort_max,
        ) == initial_position,
{
}

/// What submitting the menu editor does with the menu's place: a new menu is inserted, with its
/// name, title and no children, under the parent it is created for at the position asked for;
/// an edited menu is renamed first; an edited menu that is not a scene and was given another
/// parent ends up moved under the chosen parent at the position asked for; a scene never leaves
/// the root; and a menu whose parent and position stay is not moved.
pub proof fn menu_editor_places_the_menu(
    input: MenuEditorInputView,
    name_valid: bool,
    path_error: Option<Seq<char>>,
    menu_id: SymbolId,
    mode: MenuEditorMode,
    editing: bool,
    root_menus: Seq<MenuView>,
    selected_page: Seq<char>,
    current_page_id: Seq<char>,
    route_id: Option<SymbolId>,
    selected_parent_id: SymbolId,
)
    ensures
        ({
            let r = menu_editor_submit_spec(
                input,
                name_valid,
                path_error,
                menu_id,
                mode,
                editing,
                root_menus,
                selected_page,
                current_page_id,
                route_id,
                selected_parent_id,
            );
            let position = requested_position_spec(
                input.sort,
                mode.position_spec(),
                menu_sort_max_spec(mode, editing, selected_parent_id, root_menus),
            );
            &&& !name_valid ==> r is Err
            &&& name_valid && input.title.len() == 0 ==> r == Err::<Seq<GraphPatchView>, Seq<char>>("菜单名称不能为空"@)
            &&& (r is Ok && mode is Create) ==> ({
                let ps = r->Ok_0;
                &&& ps.len() == 1
                &&& ps[0] is Insert
                &&& ps[0]->Insert_parent_id == mode.parent_spec()
                &&& ps[0]->Insert_collection == ChildCollection::MenuChildren
                &&& ps[0]->Insert_index == position
                &&& ps[0]->Insert_entity is Menu
                &&& ps[0]->Insert_entity->Menu_0.id == menu_id
                &&& ps[0]->Insert_entity->Menu_0.name == input.name
                &&& ps[0]->Insert_entity->Menu_0.title == input.title
                &&& ps[0]->Insert_entity->Menu_0.children.len() == 0
            })
            &&& (r is Ok && mode is Edit) ==> r->Ok_0.len() >= 6 && r->Ok_0[0] == GraphPatchView::Rename {
                target_id: menu_id,
                name: input.name,
                title: Some(input.title),
            }
            &&& (r is Ok && mode is Edit && !mode.root_scene_spec() && selected_parent_id != mode.parent_spec())
                ==> r->Ok_0.last() == GraphPatchView::Move {
                target_id: menu_id,
                parent_id: selected_parent_id,
                collection: ChildCollection::MenuChildren,
                index: position,
            }
            &&& (r is Ok && mode.root_scene_spec()) ==> forall|k: int|
                0 <= k < r->Ok_0.len() && (#[trigger] r->Ok_0[k]) is Move ==> r->Ok_0[k]->Move_parent_id == mode.parent_spec()
                    && r->Ok_0[k]->Move_collection == ChildCollection::Menus
            &&& (r is Ok && mode is Edit && (mode.root_scene_spec() || selected_parent_id == mode.parent_spec())
                && position == mode.position_spec()) ==> forall|k: int| 0 <= k < r->Ok_0.len() ==> !((#[trigger] r->Ok_0[k]) is Move)
        }),
{
    let r = menu_editor_submit_spec(
        input,
        name_valid,
        path_error,
        menu_id,
        mode,
        editing,
        root_menus,
        selected_page,
        current_page_id,
        route_id,
        selected_parent_id,
    );
    if r is Ok && mode is Edit {
        let ps = r->Ok_0;
        let position = requested_position_spec(
            input.sort,
            mode.position_spec(),
            menu_sort_max_spec(mode, editing, selected_parent_id, root_menus),
        );
        assert(ps == menu_editor_patches_spec(
            input,
            menu_id,
            mode,
            selected_page,
            current_page_id,
            route_id,
            selected_parent_id,
            position,
        ));
        assert(ps.len() >= 6);
        assert(forall|k: int| 0 <= k < 6 ==> !((#[trigger] ps[k]) is Move));
        let route_part: Seq<GraphPatchView> = if selected_page == current_page_id && route_id is Some {
            seq![
                GraphPatchView::SetProperty {
                    target_id: route_id->0,
                    property: EditableProperty::RoutePath,
                    value: PatchValueView::Json(JsonView::String(input.path)),
                },
            ]
        } else {
            Seq::empty()
        };
        assert forall|k: int| 6 <= k < 6 + route_part.len() implies !((#[trigger] ps[k]) is Move) by {
            assert(ps[k] == route_part[k - 6]);
        }
    }
}

} // verus!

verus! {

/// The menu editor refuses a name that another menu already has; when the menu still opens the
/// page it opened and that page has a route, it refuses a path the route rule refuses, and an
/// edited menu then sets that route's path to the one typed in, right after its six own
/// properties: the icon, the page, whether it is enabled, its permissions and its row actions,
/// each as typed or chosen.
pub proof fn menu_editor_checks_names_and_routes(
    input: MenuEditorInputView,
    path_error: Option<Seq<char>>,
    menu_id: SymbolId,
    mode: MenuEditorMode,
    editing: bool,
    root_menus: Seq<MenuView>,
    selected_page: Seq<char>,
    current_page_id: Seq<char>,
    route_id: Option<SymbolId>,
    selected_parent_id: SymbolId,
)
    ensures
        ({
            let r = menu_editor_submit_spec(
                input,
                true,
                path_error,
                menu_id,
                mode,
                editing,
                root_menus,
                selected_page,
                current_page_id,
                route_id,
                selected_parent_id,
            );
            let taken = exists|k: int|
                0 <= k < forest_nodes(root_menus).len() && (#[trigger] forest_nodes(root_menus)[k]).name == input.name
                    && (editing ==> forest_nodes(root_menus)[k].id != menu_id);
            &&& input.title.len() > 0 && taken ==> r == Err::<Seq<GraphPatchView>, Seq<char>>("菜单标识已存在: "@ + input.name)
            &&& input.title.len() > 0 && !taken && selected_page == current_page_id && route_id is Some && path_error is Some
                ==> r == Err::<Seq<GraphPatchView>, Seq<char>>(path_error->0)
            &&& (r is Ok && mode is Edit) ==> ({
                let ps = r->Ok_0;
                &&& ps[1] == GraphPatchView::SetProperty {
                    target_id: menu_id,
                    property: EditableProperty::Icon,
                    value: PatchValueView::Json(if input.icon.len() == 0 { JsonView::Null } else { JsonView::String(input.icon) }),
                }
                &&& ps[2] == GraphPatchView::SetProperty {
                    target_id: menu_id,
                    property: EditableProperty::MenuPage,
                    value: PatchValueView::Json(if selected_page.len() == 0 { JsonView::Null } else { JsonView::String(selected_page) }),
                }
                &&& ps[3] == GraphPatchView::SetProperty {
                    target_id: menu_id,
                    property: EditableProperty::MenuEnabled,
                    value: PatchValueView::Json(JsonView::Bool(input.enabled)),
                }
                &&& ps[4] == GraphPatchView::SetProperty {
                    target_id: menu_id,
                    property: EditableProperty::MenuPermissions,
                    value: PatchValueView::Ids(input.required_permissions),
                }
                &&& ps[5] == GraphPatchView::SetProperty {
                    target_id: menu_id,
                    property: EditableProperty::MenuRowActions,
                    value: PatchValueView::RowActions(input.row_actions),
                }
                &&& selected_page == current_page_id && route_id is Some ==> ps[6] == GraphPatchView::SetProperty {
                    target_id: route_id->0,
                    property: EditableProperty::RoutePath,
                    value: PatchValueView::Json(JsonView::String(input.path)),
                }
            })
        }),
{
    let p = named_like(input.name, if editing { Some(menu_id) } else { None });
    let ns = forest_nodes(root_menus);
    if any_node(ns, p) {
        let k = choose|k: int| 0 <= k < ns.len() && #[trigger] p(ns[k]);
        assert(ns[k].name == input.name);
    }
    if exists|k: int| 0 <= k < ns.len() && (#[trigger] ns[k]).name == input.name && (editing ==> ns[k].id != menu_id) {
        let k = choose|k: int| 0 <= k < ns.len() && (#[trigger] ns[k]).name == input.name && (editing ==> ns[k].id != menu_id);
        assert(p(ns[k]));
    }
}

} // verus!
