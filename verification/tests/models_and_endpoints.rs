use studio::definition::{
    FieldDefinition, FieldOptions, FieldValidation, ModelDefinition, ModelValidationRule, QueryCondition,
    RelationDefinition, Decimal,
};
use studio::endpoint::{
    endpoint_location_from_key, endpoint_location_key, endpoint_location_options, endpoint_source_spans, method_class,
    next_endpoint_path, rest_method_from_key, rest_method_key, rest_method_options, short_provider_key,
    EndpointInputLocation, PageEndpointSource, RestMethod,
};
use studio::field::{
    field_capability_summary, field_toggle_label, field_toggle_patch, field_toggle_property, field_toggle_value,
    field_validation_summary,
};
use studio::json::JsonValue;
use studio::model::{
    query_conjunction_from_key, query_operator_from_key, query_operator_key, query_operator_label,
    query_operator_select_items, relation_kind_from_key, relation_kind_key, relation_kind_label,
    relation_kind_select_items, QueryConjunction, QueryOperator, RelationKind,
};
use studio::model_designer::{
    model_designer_tabs, model_validation_fields, model_validation_key, model_validation_label, query_condition_summary,
    ModelDesignerTab,
};
use studio::patch::{relation_target_clear_patches, relation_unlink_patches, EditableProperty, GraphPatch, PatchValue};
use studio::query_draft::{query_condition_from_draft, query_condition_operator, QueryConditionDraft};
use studio::symbol::SymbolId;
use studio::value_type::{
    editable_value_type_from_key, editable_value_type_key, editable_value_type_options, field_value_type_select_items,
    function_port_type_key, function_port_type_options, function_port_value_type, relation_value_type,
    value_type_from_key, value_type_label, value_type_model_id, ValueType,
};

fn id(n: u128) -> SymbolId {
    SymbolId::from_u128(n)
}

fn options(flags: [bool; 8]) -> FieldOptions {
    FieldOptions {
        list_visible: flags[0],
        detail_visible: flags[1],
        form_visible: flags[2],
        form_editable: flags[3],
        filterable: flags[4],
        sortable: flags[5],
        unique: flags[6],
        ai_extract: flags[7],
        default_value: None,
    }
}

fn no_checks() -> FieldValidation {
    FieldValidation {
        min_length: None,
        max_length: None,
        minimum: None,
        maximum: None,
        pattern: None,
        min_items: None,
        max_items: None,
        unique_items: false,
    }
}

fn field(n: u128, name: &str, title: &str, relation: Option<RelationDefinition>) -> FieldDefinition {
    FieldDefinition {
        id: id(n),
        name: name.to_owned(),
        title: title.to_owned(),
        value_type: ValueType::Text,
        required: true,
        relation,
        options: options([true, false, true, false, false, true, false, false]),
        validation: no_checks(),
    }
}

fn model(n: u128, fields: Vec<FieldDefinition>) -> ModelDefinition {
    ModelDefinition {
        id: id(n),
        name: format!("m{n}"),
        title: format!("M{n}"),
        fields,
        indexes: Vec::new(),
        queries: Vec::new(),
        validations: Vec::new(),
    }
}

fn relation(model: u128, field: u128) -> Option<RelationDefinition> {
    Some(RelationDefinition { kind: RelationKind::ManyToOne, target_model_id: id(model), target_field_id: id(field) })
}

#[test]
fn endpoint_paths_skip_taken_numbers() {
    assert_eq!(next_endpoint_path("users", &[]), "/api/users/custom-endpoint-1");
    let taken = vec!["/api/users/custom-endpoint-3".to_owned(), "/api/users/custom-endpoint-4".to_owned(), "/x".to_owned()];
    assert_eq!(next_endpoint_path("users", &taken), "/api/users/custom-endpoint-5");
    let taken = vec!["/api/users/custom-endpoint-2".to_owned(), "/y".to_owned()];
    assert_eq!(next_endpoint_path("users", &taken), "/api/users/custom-endpoint-3");
}

#[test]
fn source_spans_merge_runs() {
    let (b, c) = (PageEndpointSource::BuiltIn, PageEndpointSource::Convention);
    let spans = endpoint_source_spans(&[b, b, b, c, b, c, c]);
    assert_eq!(spans.iter().map(|s| (s.row, s.rows, s.columns, s.column.as_str())).collect::<Vec<_>>(), vec![(0, 3, 1, "source"), (5, 2, 1, "source")]);
    assert!(endpoint_source_spans(&[b, c]).is_empty());
    assert!(endpoint_source_spans(&[]).is_empty());
}

#[test]
fn provider_keys_and_methods() {
    assert_eq!(short_provider_key("crate::module::Provider"), "Provider");
    assert_eq!(short_provider_key("Provider"), "Provider");
    assert_eq!(short_provider_key("a::"), "");
    assert_eq!(short_provider_key("a:b"), "a:b");
    for method in [RestMethod::Get, RestMethod::Post, RestMethod::Put, RestMethod::Patch, RestMethod::Delete] {
        assert_eq!(rest_method_from_key(rest_method_key(method)), method);
        assert_eq!(method.as_str(), rest_method_key(method));
    }
    assert_eq!(rest_method_from_key("get"), RestMethod::Post);
    assert_eq!(rest_method_options(RestMethod::Put).iter().filter(|o| o.selected).map(|o| o.value.as_str()).collect::<Vec<_>>(), vec!["PUT"]);
    assert!(!method_class(RestMethod::Get).is_empty());
    for location in [EndpointInputLocation::Path, EndpointInputLocation::Query, EndpointInputLocation::Header, EndpointInputLocation::Body] {
        assert_eq!(endpoint_location_from_key(endpoint_location_key(location)), location);
    }
    assert_eq!(endpoint_location_options(EndpointInputLocation::Body).len(), 4);
}

#[test]
fn field_toggles_and_summaries() {
    let f = field(1, "name", "名称", None);
    assert!(field_toggle_value(&f, "required"));
    assert!(field_toggle_value(&f, "sortable"));
    assert!(!field_toggle_value(&f, "unique"));
    assert!(!field_toggle_value(&f, "other"));
    assert_eq!(field_toggle_property("form_editable"), EditableProperty::FieldFormEditable);
    assert_eq!(field_toggle_label("filterable"), "允许查询");
    assert_eq!(field_toggle_label("other"), "字段能力");
    match field_toggle_patch(&f, "unique", true) {
        GraphPatch::SetProperty { target_id, property: EditableProperty::FieldUnique, value: PatchValue::Json(JsonValue::Bool(true)) } => assert_eq!(target_id, id(1)),
        _ => panic!("expected a unique toggle"),
    }
    assert_eq!(field_capability_summary(&f.options), "列表 · 表单 · 排序");
    assert_eq!(field_capability_summary(&options([false; 8])), "未启用");
    assert_eq!(field_capability_summary(&options([false, false, false, false, false, false, false, true])), "AI 提取");
    assert_eq!(field_validation_summary(&no_checks()), "无");
    let mut checks = no_checks();
    checks.max_length = Some(3);
    checks.minimum = Some(Decimal { bits: 0 });
    checks.unique_items = true;
    assert_eq!(field_validation_summary(&checks), "长度 · 数值范围 · 元素唯一");
}

#[test]
fn relation_patches_clear_both_ends() {
    let patches = relation_target_clear_patches(id(7));
    assert_eq!(patches.len(), 2);
    assert!(matches!(&patches[0], GraphPatch::SetProperty { target_id, property: EditableProperty::FieldRelation, value: PatchValue::Json(JsonValue::Null) } if *target_id == id(7)));
    assert!(matches!(&patches[1], GraphPatch::SetProperty { property: EditableProperty::FieldValueType, value: PatchValue::ValueType(ValueType::Text), .. }));
    let linked = field(1, "dept", "部门", relation(2, 3));
    let patches = relation_unlink_patches(&linked, id(9));
    assert_eq!(patches.len(), 4);
    assert!(matches!(&patches[2], GraphPatch::SetProperty { target_id, .. } if *target_id == id(3)));
    let self_link = field(1, "parent", "上级", relation(9, 1));
    assert_eq!(relation_unlink_patches(&self_link, id(9)).len(), 2);
    let plain = field(1, "name", "名称", None);
    assert_eq!(relation_unlink_patches(&plain, id(9)).len(), 2);
}

#[test]
fn query_condition_summaries() {
    let dept = model(2, vec![field(3, "title", "标题", None)]);
    let fields = vec![field(1, "name", "名称", None), field(4, "dept", "部门", relation(2, 3))];
    let all = vec![dept];
    let c = QueryCondition::Field { field_id: id(1), operator: QueryOperator::StartsWith, parameter: "q".to_owned() };
    assert_eq!(query_condition_summary(&c, &fields, &all), "名称 开头是 :q");
    let c = QueryCondition::Field { field_id: id(8), operator: QueryOperator::Equals, parameter: "q".to_owned() };
    assert_eq!(query_condition_summary(&c, &fields, &all), "未知字段 等于 :q");
    let c = QueryCondition::Relation { relation_field_id: id(4), target_field_id: id(3), operator: QueryOperator::Contains, parameter: "d".to_owned() };
    assert_eq!(query_condition_summary(&c, &fields, &all), "部门.标题 包含 :d");
    let c = QueryCondition::Relation { relation_field_id: id(5), target_field_id: id(3), operator: QueryOperator::Contains, parameter: "d".to_owned() };
    assert_eq!(query_condition_summary(&c, &fields, &all), "未知关系.未知字段 包含 :d");
}

#[test]
fn model_checks_and_tabs() {
    let fields = vec![field(1, "a", "甲", None), field(2, "b", "乙", relation(3, 4))];
    let rule = ModelValidationRule::RequiredWhenPresent { field_id: id(1), when_field_id: id(9) };
    assert_eq!(model_validation_fields(&rule, &fields), "甲 + 未知字段");
    let rule = ModelValidationRule::AtLeastOneRequired { field_ids: vec![id(2)] };
    assert_eq!(model_validation_fields(&rule, &fields), "乙");
    assert_eq!(model_validation_fields(&ModelValidationRule::FieldsRequiredTogether { field_ids: Vec::new() }, &fields), "");
    assert_eq!(model_validation_key(&rule), "at_least_one_required");
    assert_eq!(model_validation_label(&rule), "至少一个必填");
    let m = model(5, fields);
    let tabs = model_designer_tabs(&m);
    assert_eq!(tabs[0], (ModelDesignerTab::Overview, "概览", None));
    assert_eq!(tabs[1], (ModelDesignerTab::Fields, "字段", Some(2)));
    assert_eq!(tabs[2], (ModelDesignerTab::Relations, "关系", Some(1)));
    assert_eq!(tabs[5], (ModelDesignerTab::Validations, "校验", Some(0)));
}

#[test]
fn query_drafts_round_trip_and_report_errors() {
    let dept = model(2, vec![field(3, "title", "标题", None)]);
    let fields = vec![field(1, "name", "名称", None), field(4, "dept", "部门", relation(2, 3)), field(6, "loose", "松散", None)];
    let all = vec![dept];
    let c = QueryCondition::Relation { relation_field_id: id(4), target_field_id: id(3), operator: QueryOperator::LessOrEqual, parameter: "p".to_owned() };
    let draft = QueryConditionDraft::from_definition(&c);
    assert_eq!(query_condition_operator(&draft), "less_or_equal");
    match query_condition_from_draft(&draft, &fields, &all) {
        Ok(QueryCondition::Relation { relation_field_id, target_field_id, operator, parameter }) => {
            assert_eq!((relation_field_id, target_field_id, operator, parameter.as_str()), (id(4), id(3), QueryOperator::LessOrEqual, "p"));
        }
        _ => panic!("expected the same condition"),
    }
    let text = |n: u128| id(n).to_text();
    let field_draft = |f: String, p: &str| QueryConditionDraft::Field { field_id: f, operator: "equals".to_owned(), parameter: p.to_owned() };
    assert!(matches!(query_condition_from_draft(&field_draft(text(1), "  q "), &fields, &all), Ok(QueryCondition::Field { ref parameter, operator: QueryOperator::Equals, .. }) if parameter == "q"));
    assert_eq!(query_condition_from_draft(&field_draft("x".to_owned(), "q"), &fields, &all).err(), Some("请选择查询字段".to_owned()));
    assert_eq!(query_condition_from_draft(&field_draft(text(9), "q"), &fields, &all).err(), Some("查询字段不属于当前模型".to_owned()));
    assert_eq!(query_condition_from_draft(&field_draft(text(1), "  "), &fields, &all).err(), Some("查询参数名不能为空".to_owned()));
    let relation_draft = |r: String, t: String, p: &str| QueryConditionDraft::Relation { relation_field_id: r, target_field_id: t, operator: "x".to_owned(), parameter: p.to_owned() };
    assert_eq!(query_condition_from_draft(&relation_draft("?".to_owned(), text(3), "p"), &fields, &all).err(), Some("请选择关联字段".to_owned()));
    assert_eq!(query_condition_from_draft(&relation_draft(text(4), "?".to_owned(), "p"), &fields, &all).err(), Some("请选择关联模型字段".to_owned()));
    assert_eq!(query_condition_from_draft(&relation_draft(text(6), text(3), "p"), &fields, &all).err(), Some("所选字段尚未配置关系".to_owned()));
    assert_eq!(query_condition_from_draft(&relation_draft(text(4), text(3), "p"), &fields, &[]).err(), Some("关联模型不存在".to_owned()));
    assert_eq!(query_condition_from_draft(&relation_draft(text(4), text(1), "p"), &fields, &all).err(), Some("关联查询字段不属于对端模型".to_owned()));
    assert_eq!(query_condition_from_draft(&relation_draft(text(4), text(3), ""), &fields, &all).err(), Some("关联查询参数名不能为空".to_owned()));
    assert!(matches!(query_condition_from_draft(&relation_draft(text(4), text(3), "p"), &fields, &all), Ok(QueryCondition::Relation { operator: QueryOperator::Contains, .. })));
}

#[test]
fn model_keys_round_trip() {
    for kind in [RelationKind::OneToOne, RelationKind::ManyToOne, RelationKind::OneToMany, RelationKind::ManyToMany] {
        assert_eq!(relation_kind_from_key(relation_kind_key(kind)), kind);
        assert!(!relation_kind_label(kind).is_empty());
    }
    assert_eq!(relation_kind_select_items().len(), 4);
    for op in [QueryOperator::Equals, QueryOperator::NotEquals, QueryOperator::Contains, QueryOperator::StartsWith, QueryOperator::EndsWith, QueryOperator::GreaterThan, QueryOperator::GreaterOrEqual, QueryOperator::LessThan, QueryOperator::LessOrEqual] {
        assert_eq!(query_operator_from_key(query_operator_key(op)), op);
    }
    assert_eq!(query_operator_label(QueryOperator::GreaterThan), "大于");
    assert_eq!(query_operator_select_items()[0].value, "contains");
    assert_eq!(query_conjunction_from_key("any"), QueryConjunction::Any);
    assert_eq!(query_conjunction_from_key("all"), QueryConjunction::All);
    assert_eq!(query_conjunction_from_key("?"), QueryConjunction::All);
}

#[test]
fn value_type_choices() {
    assert_eq!(editable_value_type_key(&ValueType::Decimal), "decimal");
    assert_eq!(editable_value_type_key(&ValueType::Object { model_id: id(1) }), "preserve");
    assert_eq!(value_type_from_key("nonsense"), ValueType::Text);
    let nested = ValueType::List { item: Box::new(ValueType::Object { model_id: id(1) }) };
    assert_eq!(editable_value_type_from_key("preserve", &nested), nested);
    assert_eq!(editable_value_type_from_key("boolean", &nested), ValueType::Boolean);
    assert_eq!(value_type_label(&ValueType::Optional { value: Box::new(ValueType::Text) }), "可选");
    assert_eq!(relation_value_type(RelationKind::OneToMany, id(3)), ValueType::List { item: Box::new(ValueType::Object { model_id: id(3) }) });
    assert_eq!(relation_value_type(RelationKind::OneToOne, id(3)), ValueType::Object { model_id: id(3) });
    assert_eq!(value_type_model_id(&nested), Some(id(1)));
    assert_eq!(value_type_model_id(&ValueType::Text), None);
    assert_eq!(function_port_type_key(&nested), "list_object");
    assert_eq!(function_port_type_key(&ValueType::Null), "preserve");
    assert_eq!(function_port_value_type("list_object", &id(1).to_text(), &ValueType::Null), Ok(nested.duplicate()));
    assert_eq!(function_port_value_type("object", "bad", &ValueType::Null), Err("请选择对象模型".to_owned()));
    assert_eq!(function_port_value_type("preserve", "", &ValueType::Null), Ok(ValueType::Null));
    assert_eq!(function_port_value_type("what", "", &ValueType::Null), Err("未知端口值类型".to_owned()));
    assert_eq!(function_port_type_options("preserve").len(), 11);
    assert_eq!(function_port_type_options("text").len(), 10);
    assert_eq!(editable_value_type_options(&ValueType::Integer).len(), 7);
    let composite = editable_value_type_options(&nested);
    assert_eq!(composite.len(), 8);
    assert_eq!(composite[7].label, "列表（保持定义）");
    assert!(!field_value_type_select_items(&ValueType::Integer).is_empty());
}

#[test]
fn port_types_round_trip_through_the_port_editor() {
    let model = id(12);
    for t in [
        ValueType::Text,
        ValueType::Integer,
        ValueType::Decimal,
        ValueType::Boolean,
        ValueType::TimestampMs,
        ValueType::File,
        ValueType::Any,
        ValueType::Null,
        ValueType::Object { model_id: model },
        ValueType::Optional { value: Box::new(ValueType::Object { model_id: model }) },
        ValueType::List { item: Box::new(ValueType::Object { model_id: model }) },
        ValueType::List { item: Box::new(ValueType::Text) },
    ] {
        let shown = value_type_model_id(&t).map(|m| m.to_text()).unwrap_or_default();
        assert_eq!(function_port_value_type(function_port_type_key(&t), &shown, &t), Ok(t.duplicate()));
    }
}
