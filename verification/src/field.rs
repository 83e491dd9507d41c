//! Fields in the model designer: their switchable capabilities and the summaries of their
//! options and checks.

use vstd::prelude::*;
use crate::text::text_eq;
use crate::json::{JsonValue, JsonView};
use crate::definition::{FieldDefinition, FieldOptions, FieldOptionsView, FieldValidation};
use crate::patch::{EditableProperty, GraphPatch, GraphPatchView, PatchValue, PatchValueView};
use vstd::string::StringExecFns;

verus! {

/// The columns of the field table that switch a capability on and off.
pub open spec fn is_toggle_column(column: Seq<char>) -> bool {
    column == "required"@ || column == "list_visible"@ || column == "detail_visible"@ || column == "form_visible"@
        || column == "form_editable"@ || column == "filterable"@ || column == "sortable"@ || column == "unique"@
}

pub open spec fn field_toggle_value_spec(field: FieldDefinition, column: Seq<char>) -> bool {
    if column == "required"@ {
        field.required
    } else if column == "list_visible"@ {
        field.options.list_visible
    } else if column == "detail_visible"@ {
        field.options.detail_visible
    } else if column == "form_visible"@ {
        field.options.form_visible
    } else if column == "form_editable"@ {
        field.options.form_editable
    } else if column == "filterable"@ {
        field.options.filterable
    } else if column == "sortable"@ {
        field.options.sortable
    } else if column == "unique"@ {
        field.options.unique
    } else {
        false
    }
}

/// Whether the capability of a toggle column is on for `field`; false for other columns.
pub fn field_toggle_value(field: &FieldDefinition, column: &str) -> (on: bool)
    ensures
        on == field_toggle_value_spec(*field, column@),
{
    if text_eq(column, "required") {
        field.required
    } else if text_eq(column, "list_visible") {
        field.options.list_visible
    } else if text_eq(column, "detail_visible") {
        field.options.detail_visible
    } else if text_eq(column, "form_visible") {
        field.options.form_visible
    } else if text_eq(column, "form_editable") {
        field.options.form_editable
    } else if text_eq(column, "filterable") {
        field.options.filterable
    } else if text_eq(column, "sortable") {
        field.options.sortable
    } else if text_eq(column, "unique") {
        field.options.unique
    } else {
        false
    }
}

pub open spec fn field_toggle_property_spec(column: Seq<char>) -> EditableProperty
    recommends
        is_toggle_column(column),
{
    if column == "required"@ {
        EditableProperty::FieldRequired
    } else if column == "list_visible"@ {
        EditableProperty::FieldListVisible
    } else if column == "detail_visible"@ {
        EditableProperty::FieldDetailVisible
    } else if column == "form_visible"@ {
        EditableProperty::FieldFormVisible
    } else if column == "form_editable"@ {
        EditableProperty::FieldFormEditable
    } else if column == "filterable"@ {
        EditableProperty::FieldFilterable
    } else if column == "sortable"@ {
        EditableProperty::FieldSortable
    } else {
        EditableProperty::FieldUnique
    }
}

/// The property that a toggle column sets.
pub fn field_toggle_property(column: &str) -> (property: EditableProperty)
    requires
        is_toggle_column(column@),
    ensures
        property == field_toggle_property_spec(column@),
{
    if text_eq(column, "required") {
        EditableProperty::FieldRequired
    } else if text_eq(column, "list_visible") {
        EditableProperty::FieldListVisible
    } else if text_eq(column, "detail_visible") {
        EditableProperty::FieldDetailVisible
    } else if text_eq(column, "form_visible") {
        EditableProperty::FieldFormVisible
    } else if text_eq(column, "form_editable") {
        EditableProperty::FieldFormEditable
    } else if text_eq(column, "filterable") {
        EditableProperty::FieldFilterable
    } else if text_eq(column, "sortable") {
        EditableProperty::FieldSortable
    } else {
        EditableProperty::FieldUnique
    }
}

pub open spec fn field_toggle_label_spec(column: Seq<char>) -> Seq<char> {
    if column == "required"@ {
        "必填"@
    } else if column == "list_visible"@ {
        "列表显示"@
    } else if column == "detail_visible"@ {
        "详情显示"@
    } else if column == "form_visible"@ {
        "表单显示"@
    } else if column == "form_editable"@ {
        "表单可编辑"@
    } else if column == "filterable"@ {
        "允许查询"@
    } else if column == "sortable"@ {
        "允许排序"@
    } else if column == "unique"@ {
        "值唯一"@
    } else {
        "字段能力"@
    }
}

/// The name of the capability of a column.
pub fn field_toggle_label(column: &str) -> (label: &'static str)
    ensures
        label@ == field_toggle_label_spec(column@),
{
    if text_eq(column, "required") {
        "必填"
    } else if text_eq(column, "list_visible") {
        "列表显示"
    } else if text_eq(column, "detail_visible") {
        "详情显示"
    } else if text_eq(column, "form_visible") {
        "表单显示"
    } else if text_eq(column, "form_editable") {
        "表单可编辑"
    } else if text_eq(column, "filterable") {
        "允许查询"
    } else if text_eq(column, "sortable") {
        "允许排序"
    } else if text_eq(column, "unique") {
        "值唯一"
    } else {
        "字段能力"
    }
}

/// The patch that a toggle of `column` to `checked` submits for `field`.
pub fn field_toggle_patch(field: &FieldDefinition, column: &str, checked: bool) -> (patch: GraphPatch)
    requires
        is_toggle_column(column@),
    ensures
        patch@ == (GraphPatchView::SetProperty {
            target_id: field.id,
            property: field_toggle_property_spec(column@),
            value: PatchValueView::Json(JsonView::Bool(checked)),
        }),
{
    GraphPatch::SetProperty {
        target_id: field.id,
        property: field_toggle_property(column),
        value: PatchValue::Json(JsonValue::Bool(checked)),
    }
}

/// Labels joined by " · ".
pub open spec fn joined(labels: Seq<Seq<char>>) -> Seq<char>
    decreases labels.len(),
{
    if labels.len() == 0 {
        Seq::empty()
    } else if labels.len() == 1 {
        labels[0]
    } else {
        joined(labels.drop_last()) + " · "@ + labels.last()
    }
}

fn add_label(text: &mut String, Ghost(labels): Ghost<Seq<Seq<char>>>, first: bool, label: &str)
    requires
        old(text)@ == joined(labels),
        first == (labels.len() == 0),
    ensures
        final(text)@ == joined(labels.push(label@)),
{
    assert(labels.push(label@).drop_last() =~= labels);
    if first {
        proof {
            reveal_strlit("");
        }
        assert(old(text)@.len() == 0);
        text.append(label);
        assert(text@ =~= label@);
    } else {
        text.append(" · ");
        text.append(label);
    }
}

/// The summary shown when no label applies, else the labels joined.
pub open spec fn summary(labels: Seq<Seq<char>>, none: Seq<char>) -> Seq<char> {
    if labels.len() == 0 {
        none
    } else {
        joined(labels)
    }
}

pub open spec fn label_if(on: bool, label: Seq<char>) -> Seq<Seq<char>> {
    if on {
        seq![label]
    } else {
        Seq::empty()
    }
}

/// The capabilities that a field's options turn on, in table order.
pub open spec fn capability_labels(o: FieldOptionsView) -> Seq<Seq<char>> {
    label_if(o.list_visible, "列表"@) + label_if(o.detail_visible, "详情"@) + label_if(o.form_visible, "表单"@)
        + label_if(o.filterable, "查询"@) + label_if(o.sortable, "排序"@) + label_if(o.unique, "唯一"@) + label_if(
        o.ai_extract,
        "AI 提取"@,
    )
}

/// Appends `label` when `on`, keeping `text` the join of `labels`.
fn add_label_if(text: &mut String, Ghost(labels): Ghost<Seq<Seq<char>>>, any: &mut bool, on: bool, label: &str)
    requires
        old(text)@ == joined(labels),
        *old(any) == (labels.len() > 0),
    ensures
        final(text)@ == joined(labels + label_if(on, label@)),
        *final(any) == ((labels + label_if(on, label@)).len() > 0),
{
    if on {
        add_label(text, Ghost(labels), !*any, label);
        *any = true;
        assert(labels + label_if(on, label@) =~= labels.push(label@));
    } else {
        assert(labels + label_if(on, label@) =~= labels);
    }
}

/// The capabilities a field has, or "未启用".
pub fn field_capability_summary(options: &FieldOptions) -> (text: String)
    ensures
        text@ == summary(capability_labels(options@), "未启用"@),
{
    let mut text = String::new();
    let mut any = false;
    let ghost mut labels: Seq<Seq<char>> = Seq::empty();
    add_label_if(&mut text, Ghost(labels), &mut any, options.list_visible, "列表");
    proof { labels = labels + label_if(options.list_visible, "列表"@); }
    add_label_if(&mut text, Ghost(labels), &mut any, options.detail_visible, "详情");
    proof { labels = labels + label_if(options.detail_visible, "详情"@); }
    add_label_if(&mut text, Ghost(labels), &mut any, options.form_visible, "表单");
    proof { labels = labels + label_if(options.form_visible, "表单"@); }
    add_label_if(&mut text, Ghost(labels), &mut any, options.filterable, "查询");
    proof { labels = labels + label_if(options.filterable, "查询"@); }
    add_label_if(&mut text, Ghost(labels), &mut any, options.sortable, "排序");
    proof { labels = labels + label_if(options.sortable, "排序"@); }
    add_label_if(&mut text, Ghost(labels), &mut any, options.unique, "唯一");
    proof { labels = labels + label_if(options.unique, "唯一"@); }
    add_label_if(&mut text, Ghost(labels), &mut any, options.ai_extract, "AI 提取");
    proof { labels = labels + label_if(options.ai_extract, "AI 提取"@); }
    assert(labels =~= capability_labels(options@));
    if !any {
        "未启用".to_owned()
    } else {
        text
    }
}

/// The kinds of check a field's validation sets, in table order.
pub open spec fn validation_labels(v: FieldValidation) -> Seq<Seq<char>> {
    label_if(v.min_length is Some || v.max_length is Some, "长度"@) + label_if(
        v.minimum is Some || v.maximum is Some,
        "数值范围"@,
    ) + label_if(v.pattern is Some, "正则"@) + label_if(v.min_items is Some || v.max_items is Some, "列表数量"@)
        + label_if(v.unique_items, "元素唯一"@)
}

/// The kinds of check a field has, or "无".
pub fn field_validation_summary(validation: &FieldValidation) -> (text: String)
    ensures
        text@ == summary(validation_labels(*validation), "无"@),
{
    let length = validation.min_length.is_some() || validation.max_length.is_some();
    let range = validation.minimum.is_some() || validation.maximum.is_some();
    let pattern = validation.pattern.is_some();
    let items = validation.min_items.is_some() || validation.max_items.is_some();
    let unique = validation.unique_items;
    let mut text = String::new();
    let mut any = false;
    let ghost mut labels: Seq<Seq<char>> = Seq::empty();
    add_label_if(&mut text, Ghost(labels), &mut any, length, "长度");
    proof { labels = labels + label_if(length, "长度"@); }
    add_label_if(&mut text, Ghost(labels), &mut any, range, "数值范围");
    proof { labels = labels + label_if(range, "数值范围"@); }
    add_label_if(&mut text, Ghost(labels), &mut any, pattern, "正则");
    proof { labels = labels + label_if(pattern, "正则"@); }
    add_label_if(&mut text, Ghost(labels), &mut any, items, "列表数量");
    proof { labels = labels + label_if(items, "列表数量"@); }
    add_label_if(&mut text, Ghost(labels), &mut any, unique, "元素唯一");
    proof { labels = labels + label_if(unique, "元素唯一"@); }
    assert(labels =~= validation_labels(*validation));
    if !any {
        "无".to_owned()
    } else {
        text
    }
}

} // verus!

verus! {

/// Each toggle column shows the field's own setting of that column, and a toggle submits the
/// checked state as the property of that column, for the field toggled.
pub proof fn toggles_show_and_set_their_own_column(field: FieldDefinition, checked: bool)
    ensures
        field_toggle_value_spec(field, "required"@) == field.required,
        field_toggle_value_spec(field, "list_visible"@) == field.options.list_visible,
        field_toggle_value_spec(field, "detail_visible"@) == field.options.detail_visible,
        field_toggle_value_spec(field, "form_visible"@) == field.options.form_visible,
        field_toggle_value_spec(field, "form_editable"@) == field.options.form_editable,
        field_toggle_value_spec(field, "filterable"@) == field.options.filterable,
        field_toggle_value_spec(field, "sortable"@) == field.options.sortable,
        field_toggle_value_spec(field, "unique"@) == field.options.unique,
        field_toggle_property_spec("required"@) == EditableProperty::FieldRequired,
        field_toggle_property_spec("list_visible"@) == EditableProperty::FieldListVisible,
        field_toggle_property_spec("detail_visible"@) == EditableProperty::FieldDetailVisible,
        field_toggle_property_spec("form_visible"@) == EditableProperty::FieldFormVisible,
        field_toggle_property_spec("form_editable"@) == EditableProperty::FieldFormEditable,
        field_toggle_property_spec("filterable"@) == EditableProperty::FieldFilterable,
        field_toggle_property_spec("sortable"@) == EditableProperty::FieldSortable,
        field_toggle_property_spec("unique"@) == EditableProperty::FieldUnique,
{
    reveal_strlit("required");
    reveal_strlit("list_visible");
    reveal_strlit("detail_visible");
    reveal_strlit("form_visible");
    reveal_strlit("form_editable");
    reveal_strlit("filterable");
    reveal_strlit("sortable");
    reveal_strlit("unique");
    assert("required"@.len() == 8 && "list_visible"@.len() == 12 && "detail_visible"@.len() == 14);
    assert("form_visible"@.len() == 12 && "form_editable"@.len() == 13 && "filterable"@.len() == 10);
    assert("sortable"@.len() == 8 && "unique"@.len() == 6);
    assert("list_visible"@[0] != "form_visible"@[0]);
    assert("required"@[0] != "sortable"@[0]);
}

} // verus!

verus! {

/// The labels of the first `n` options that are on, in order.
pub open spec fn labels_on(flags: Seq<bool>, labels: Seq<Seq<char>>, n: int) -> Seq<Seq<char>>
    decreases n,
{
    if n <= 0 {
        Seq::empty()
    } else {
        labels_on(flags, labels, n - 1) + label_if(flags[n - 1], labels[n - 1])
    }
}

proof fn lemma_labels_on(flags: Seq<bool>, labels: Seq<Seq<char>>, n: int, x: Seq<char>)
    requires
        0 <= n <= flags.len(),
        n <= labels.len(),
    ensures
        labels_on(flags, labels, n).contains(x) <==> exists|m: int| 0 <= m < n && flags[m] && #[trigger] labels[m] == x,
        labels_on(flags, labels, n).len() == 0 <==> forall|m: int| 0 <= m < n ==> !#[trigger] flags[m],
    decreases n,
{
    if n > 0 {
        lemma_labels_on(flags, labels, n - 1, x);
        let a = labels_on(flags, labels, n - 1);
        let b = label_if(flags[n - 1], labels[n - 1]);
        if (a + b).contains(x) {
            let i = choose|i: int| 0 <= i < (a + b).len() && (a + b)[i] == x;
            if i < a.len() {
                assert(a[i] == x);
            } else {
                assert(b[i - a.len()] == x);
            }
        }
        if exists|m: int| 0 <= m < n && flags[m] && #[trigger] labels[m] == x {
            let m = choose|m: int| 0 <= m < n && flags[m] && #[trigger] labels[m] == x;
            if m < n - 1 {
                let i = choose|i: int| 0 <= i < a.len() && a[i] == x;
                assert((a + b)[i] == x);
            } else {
                assert((a + b)[a.len() as int] == x);
            }
        }
    }
}

/// The capability summary of a field lists a capability exactly when its option is on, and is
/// empty exactly when none is on.
pub proof fn capability_labels_follow_the_options(o: FieldOptionsView)
    ensures
        capability_labels(o).contains("列表"@) == o.list_visible,
        capability_labels(o).contains("详情"@) == o.detail_visible,
        capability_labels(o).contains("表单"@) == o.form_visible,
        capability_labels(o).contains("查询"@) == o.filterable,
        capability_labels(o).contains("排序"@) == o.sortable,
        capability_labels(o).contains("唯一"@) == o.unique,
        capability_labels(o).contains("AI 提取"@) == o.ai_extract,
        capability_labels(o).len() == 0 <==> !o.list_visible && !o.detail_visible && !o.form_visible && !o.filterable
            && !o.sortable && !o.unique && !o.ai_extract,
{
    reveal_strlit("列表");
    reveal_strlit("详情");
    reveal_strlit("表单");
    reveal_strlit("查询");
    reveal_strlit("排序");
    reveal_strlit("唯一");
    reveal_strlit("AI 提取");
    let labels = seq!["列表"@, "详情"@, "表单"@, "查询"@, "排序"@, "唯一"@, "AI 提取"@];
    let flags = seq![o.list_visible, o.detail_visible, o.form_visible, o.filterable, o.sortable, o.unique, o.ai_extract];
    assert forall|i: int, j: int| 0 <= i < 7 && 0 <= j < 7 && i != j implies labels[i] != labels[j] by {
        assert(labels[i][0] != labels[j][0]);
    }
    reveal_with_fuel(labels_on, 8);
    assert(capability_labels(o) =~= labels_on(flags, labels, 7));
    assert forall|m: int| 0 <= m < 7 implies capability_labels(o).contains(#[trigger] labels[m]) == flags[m] by {
        lemma_labels_on(flags, labels, 7, labels[m]);
        if capability_labels(o).contains(labels[m]) {
            let k = choose|k: int| 0 <= k < 7 && flags[k] && #[trigger] labels[k] == labels[m];
            assert(k == m);
        }
    }
    lemma_labels_on(flags, labels, 7, labels[0]);
    assert(labels[0] == "列表"@ && labels[1] == "详情"@ && labels[2] == "表单"@ && labels[3] == "查询"@);
    assert(labels[4] == "排序"@ && labels[5] == "唯一"@ && labels[6] == "AI 提取"@);
}

} // verus!
