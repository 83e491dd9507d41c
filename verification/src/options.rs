//! Choices offered by the designer's select boxes.

use vstd::prelude::*;

verus! {

/// One choice of a select box: the submitted value, the shown label, whether it is the current
/// choice and whether it can be picked.
pub struct SelectOption {
    pub value: String,
    pub label: String,
    pub selected: bool,
    pub disabled: bool,
}

pub ghost struct SelectOptionView {
    pub value: Seq<char>,
    pub label: Seq<char>,
    pub selected: bool,
    pub disabled: bool,
}

impl View for SelectOption {
    type V = SelectOptionView;

    open spec fn view(&self) -> SelectOptionView {
        SelectOptionView { value: self.value@, label: self.label@, selected: self.selected, disabled: self.disabled }
    }
}

pub open spec fn option_view(value: Seq<char>, label: Seq<char>, selected: bool, disabled: bool) -> SelectOptionView {
    SelectOptionView { value, label, selected, disabled }
}

pub open spec fn options_view(os: Seq<SelectOption>) -> Seq<SelectOptionView> {
    os.map_values(|o: SelectOption| o@)
}

/// Builds one choice.
pub fn select_option(value: &str, label: &str, selected: bool, disabled: bool) -> (o: SelectOption)
    ensures
        o@ == option_view(value@, label@, selected, disabled),
{
    SelectOption { value: value.to_owned(), label: label.to_owned(), selected, disabled }
}

/// Adds a choice at the end of `options`.
pub fn push_option(options: &mut Vec<SelectOption>, value: &str, label: &str, selected: bool, disabled: bool)
    ensures
        options_view(final(options)@) == options_view(old(options)@).push(option_view(value@, label@, selected, disabled)),
{
    let o = select_option(value, label, selected, disabled);
    options.push(o);
    assert(options_view(options@) =~= options_view(old(options)@).push(option_view(value@, label@, selected, disabled)));
}

/// The entry a list shows as current: the selected one while it is listed, else the first
/// listed, if any.
pub open spec fn current_selection_spec(selected: Option<crate::symbol::SymbolId>, listed: Seq<crate::symbol::SymbolId>) -> Option<
    crate::symbol::SymbolId,
> {
    match selected {
        Some(id) if listed.contains(id) => Some(id),
        _ => if listed.len() > 0 {
            Some(listed[0])
        } else {
            None
        },
    }
}

/// The entry a list shows as current, given the one selected and the identifiers listed.
pub fn current_selection(selected: Option<crate::symbol::SymbolId>, listed: &[crate::symbol::SymbolId]) -> (current: Option<
    crate::symbol::SymbolId,
>)
    ensures
        current == current_selection_spec(selected, listed@),
{
    if let Some(id) = selected {
        let mut i: usize = 0;
        while i < listed.len()
            invariant
                i <= listed.len(),
                selected == Some(id),
                forall|k: int| 0 <= k < i ==> listed@[k] != id,
            decreases listed.len() - i,
        {
            if listed[i] == id {
                assert(listed@.contains(id)) by {
                    assert(listed@[i as int] == id);
                }
                return Some(id);
            }
            i = i + 1;
        }
    }
    if listed.len() > 0 {
        Some(listed[0])
    } else {
        None
    }
}

} // verus!
