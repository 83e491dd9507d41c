//! What the designer reads back from its submitted forms: checked permissions and the access
//! chosen for a menu's row actions.

use vstd::prelude::*;
use crate::symbol::{SymbolId, symbol_text, parse_symbol_spec};
use crate::text::{text_eq, strip_prefix, has_prefix};
use crate::menu::MenuActionAccess;
use crate::definition::PermissionDefinition;
use crate::options::{SelectOption, SelectOptionView, option_view, options_view, push_option};
use vstd::string::StrSliceExecFns;
use vstd::string::StringExecFns;

verus! {

/// The text fields of a submitted form, by name, in the order the form sent them.
pub struct FormValues {
    pub entries: Vec<(String, String)>,
}

pub open spec fn entries_view(entries: Seq<(String, String)>) -> Seq<(Seq<char>, Seq<char>)> {
    entries.map_values(|e: (String, String)| (e.0@, e.1@))
}

impl View for FormValues {
    type V = Seq<(Seq<char>, Seq<char>)>;

    open spec fn view(&self) -> Seq<(Seq<char>, Seq<char>)> {
        entries_view(self.entries@)
    }
}

/// The first value sent under `name` at or after position `i`, or the empty text.
pub open spec fn form_text_from(entries: Seq<(Seq<char>, Seq<char>)>, name: Seq<char>, i: int) -> Seq<char>
    decreases entries.len() - i,
{
    if i < 0 || i >= entries.len() {
        Seq::empty()
    } else if entries[i].0 == name {
        entries[i].1
    } else {
        form_text_from(entries, name, i + 1)
    }
}

pub open spec fn form_text_spec(form: Seq<(Seq<char>, Seq<char>)>, name: Seq<char>) -> Seq<char> {
    form_text_from(form, name, 0)
}

/// The first value sent under `name`, or the empty text when there is none.
pub fn form_text(form: &FormValues, name: &str) -> (text: String)
    ensures
        text@ == form_text_spec(form@, name@),
{
    let entries = &form.entries;
    let mut i: usize = 0;
    while i < entries.len()
        invariant
            i <= entries.len(),
            form@ == entries_view(entries@),
            form_text_from(form@, name@, 0) == form_text_from(form@, name@, i as int),
        decreases entries.len() - i,
    {
        if text_eq(entries[i].0.as_str(), name) {
            return entries[i].1.clone();
        }
        i = i + 1;
    }
    proof {
        reveal_strlit("");
    }
    String::new()
}

/// `prefix` followed by the text of `id`.
pub open spec fn input_name(prefix: Seq<char>, id: SymbolId) -> Seq<char> {
    prefix + symbol_text(id.value)
}

fn prefixed_name(prefix: &str, id: SymbolId) -> (name: String)
    ensures
        name@ == input_name(prefix@, id),
{
    let mut name = prefix.to_owned();
    let text = id.to_text();
    name.append(text.as_str());
    name
}

/// The checkbox name of a permission in the menu editor.
pub fn menu_permission_input_name(permission_id: SymbolId) -> (name: String)
    ensures
        name@ == input_name("menu_permission_"@, permission_id),
{
    prefixed_name("menu_permission_", permission_id)
}

/// The checkbox name of a permission in the function editor.
pub fn function_permission_input_name(permission_id: SymbolId) -> (name: String)
    ensures
        name@ == input_name("function_permission_"@, permission_id),
{
    prefixed_name("function_permission_", permission_id)
}

/// The checkbox name of a permission in the route editor.
pub fn route_permission_input_name(permission_id: SymbolId) -> (name: String)
    ensures
        name@ == input_name("route_permission_"@, permission_id),
{
    prefixed_name("route_permission_", permission_id)
}

/// The permissions, in order, whose checkbox named `prefix` and their identifier was sent
/// with a value.
pub open spec fn checked_permissions(
    form: Seq<(Seq<char>, Seq<char>)>,
    permissions: Seq<PermissionDefinition>,
    prefix: Seq<char>,
) -> Seq<SymbolId>
    decreases permissions.len(),
{
    if permissions.len() == 0 {
        Seq::empty()
    } else {
        let rest = checked_permissions(form, permissions.drop_last(), prefix);
        let last = permissions.last();
        if form_text_spec(form, input_name(prefix, last.id)).len() > 0 {
            rest.push(last.id)
        } else {
            rest
        }
    }
}

fn permissions_checked(form: &FormValues, permissions: &[PermissionDefinition], prefix: &str) -> (ids: Vec<SymbolId>)
    ensures
        ids@ == checked_permissions(form@, permissions@, prefix@),
{
    let mut ids: Vec<SymbolId> = Vec::new();
    let mut i: usize = 0;
    while i < permissions.len()
        invariant
            i <= permissions.len(),
            ids@ == checked_permissions(form@, permissions@.take(i as int), prefix@),
        decreases permissions.len() - i,
    {
        let name = prefixed_name(prefix, permissions[i].id);
        let value = form_text(form, name.as_str());
        assert(permissions@.take(i + 1).drop_last() =~= permissions@.take(i as int));
        if value.as_str().unicode_len() > 0 {
            ids.push(permissions[i].id);
        }
        i = i + 1;
    }
    assert(permissions@.take(i as int) =~= permissions@);
    ids
}

/// The permissions checked in the menu editor.
pub fn menu_permissions_from_form(form: &FormValues, permissions: &[PermissionDefinition]) -> (ids: Vec<SymbolId>)
    ensures
        ids@ == checked_permissions(form@, permissions@, "menu_permission_"@),
{
    permissions_checked(form, permissions, "menu_permission_")
}

/// The permissions checked in the function editor.
pub fn function_permissions_from_form(form: &FormValues, permissions: &[PermissionDefinition]) -> (ids: Vec<SymbolId>)
    ensures
        ids@ == checked_permissions(form@, permissions@, "function_permission_"@),
{
    permissions_checked(form, permissions, "function_permission_")
}

/// The permissions checked in the route editor.
pub fn route_permissions_from_form(form: &FormValues, permissions: &[PermissionDefinition]) -> (ids: Vec<SymbolId>)
    ensures
        ids@ == checked_permissions(form@, permissions@, "route_permission_"@),
{
    permissions_checked(form, permissions, "route_permission_")
}

/// The value that the action select submits for an access.
pub open spec fn menu_action_value_spec(access: MenuActionAccess) -> Seq<char> {
    match access {
        MenuActionAccess::Hidden => "hidden"@,
        MenuActionAccess::Public => "public"@,
        MenuActionAccess::Permission { permission_id } => "permission:"@ + symbol_text(permission_id.value),
    }
}

/// The value submitted for an access.
pub fn menu_action_value(access: &MenuActionAccess) -> (value: String)
    ensures
        value@ == menu_action_value_spec(*access),
{
    match access {
        MenuActionAccess::Hidden => "hidden".to_owned(),
        MenuActionAccess::Public => "public".to_owned(),
        MenuActionAccess::Permission { permission_id } => prefixed_name("permission:", *permission_id),
    }
}

/// The access that a submitted value chooses: public, a permission by its identifier after
/// `permission:`, and hidden for anything else.
pub open spec fn menu_action_from_value_spec(value: Seq<char>) -> MenuActionAccess {
    if value == "public"@ {
        MenuActionAccess::Public
    } else if has_prefix(value, "permission:"@) {
        match parse_symbol_spec(value.skip("permission:"@.len() as int)) {
            Some(v) => MenuActionAccess::Permission { permission_id: SymbolId { value: v } },
            None => MenuActionAccess::Hidden,
        }
    } else {
        MenuActionAccess::Hidden
    }
}

/// The access that a submitted value chooses.
pub fn menu_action_from_value(value: &str) -> (access: MenuActionAccess)
    ensures
        access == menu_action_from_value_spec(value@),
{
    if text_eq(value, "public") {
        return MenuActionAccess::Public;
    }
    match strip_prefix(value, "permission:") {
        Some(rest) => match SymbolId::parse(rest) {
            Some(permission_id) => MenuActionAccess::Permission { permission_id },
            None => MenuActionAccess::Hidden,
        },
        None => MenuActionAccess::Hidden,
    }
}

/// The access chosen in the form's select named `name`.
pub fn menu_action_from_form(form: &FormValues, name: &str) -> (access: MenuActionAccess)
    ensures
        access == menu_action_from_value_spec(form_text_spec(form@, name@)),
{
    let value = form_text(form, name);
    menu_action_from_value(value.as_str())
}

/// Submitting the value shown for an access chooses that access again.
pub proof fn menu_action_value_round_trip(access: MenuActionAccess)
    ensures
        menu_action_from_value_spec(menu_action_value_spec(access)) == access,
{
    reveal_strlit("hidden");
    reveal_strlit("public");
    reveal_strlit("permission:");
    if let MenuActionAccess::Permission { permission_id } = access {
        let value = menu_action_value_spec(access);
        crate::symbol::symbol_text_round_trip(permission_id.value);
        assert(value.take("permission:"@.len() as int) =~= "permission:"@);
        assert(value.skip("permission:"@.len() as int) =~= symbol_text(permission_id.value));
        assert(value != "public"@) by {
            assert(value.len() != "public"@.len());
        }
        assert(has_prefix(value, "permission:"@));
    } else if access is Hidden {
        assert("hidden"@ != "public"@) by {
            assert("hidden"@[0] != "public"@[0]);
        }
        assert(!has_prefix("hidden"@, "permission:"@));
    }
}

/// The choices of an action select: hidden, public, then one per permission showing its name and
/// title, with the submitted value `selected` selected.
pub open spec fn menu_action_options_spec(selected: Seq<char>, permissions: Seq<PermissionDefinition>) -> Seq<SelectOptionView> {
    seq![
        option_view("hidden"@, "不显示"@, selected == "hidden"@, false),
        option_view("public"@, "公开"@, selected == "public"@, false),
    ] + permissions.map_values(
        |p: PermissionDefinition|
            option_view(
                input_name("permission:"@, p.id),
                p.name@ + " · "@ + p.title@,
                selected == input_name("permission:"@, p.id),
                false,
            ),
    )
}

/// The choices of a row-action select.
pub fn menu_action_options(selected: &str, permissions: &[PermissionDefinition]) -> (options: Vec<SelectOption>)
    ensures
        options_view(options@) == menu_action_options_spec(selected@, permissions@),
{
    let mut options: Vec<SelectOption> = Vec::new();
    push_option(&mut options, "hidden", "不显示", text_eq(selected, "hidden"), false);
    push_option(&mut options, "public", "公开", text_eq(selected, "public"), false);
    let mut i: usize = 0;
    while i < permissions.len()
        invariant
            i <= permissions.len(),
            options_view(options@) == menu_action_options_spec(selected@, permissions@).take(i + 2),
        decreases permissions.len() - i,
    {
        let value = prefixed_name("permission:", permissions[i].id);
        let mut label = permissions[i].name.clone();
        label.append(" · ");
        label.append(permissions[i].title.as_str());
        let chosen = text_eq(selected, value.as_str());
        push_option(&mut options, value.as_str(), label.as_str(), chosen, false);
        assert(menu_action_options_spec(selected@, permissions@).take(i + 3) =~= menu_action_options_spec(
            selected@,
            permissions@,
        ).take(i + 2).push(menu_action_options_spec(selected@, permissions@)[i + 2]));
        i = i + 1;
    }
    assert(menu_action_options_spec(selected@, permissions@).take(i + 2) =~= menu_action_options_spec(selected@, permissions@));
    options
}

} // verus!
