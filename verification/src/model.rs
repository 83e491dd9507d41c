//! Model definitions: fields, relations, queries and model-level validations.

use vstd::prelude::*;
use crate::text::text_eq;
use crate::options::{SelectOption, SelectOptionView, option_view, options_view, push_option};


verus! {

/// Cardinality of a relation between two models.
#[derive(Clone, Copy, Debug, PartialEq, Eq, Structural)]
pub enum RelationKind {
    OneToOne,
    ManyToOne,
    OneToMany,
    ManyToMany,
}

pub open spec fn relation_kind_key_spec(kind: RelationKind) -> Seq<char> {
    match kind {
        RelationKind::OneToOne => "one_to_one"@,
        RelationKind::ManyToOne => "many_to_one"@,
        RelationKind::OneToMany => "one_to_many"@,
        RelationKind::ManyToMany => "many_to_many"@,
    }
}

/// The stable key of a relation kind.
pub fn relation_kind_key(kind: RelationKind) -> (key: &'static str)
    ensures
        key@ == relation_kind_key_spec(kind),
{
    match kind {
        RelationKind::OneToOne => "one_to_one",
        RelationKind::ManyToOne => "many_to_one",
        RelationKind::OneToMany => "one_to_many",
        RelationKind::ManyToMany => "many_to_many",
    }
}

pub open spec fn relation_kind_from_key_spec(key: Seq<char>) -> RelationKind {
    if key == "one_to_one"@ {
        RelationKind::OneToOne
    } else if key == "one_to_many"@ {
        RelationKind::OneToMany
    } else if key == "many_to_many"@ {
        RelationKind::ManyToMany
    } else {
        RelationKind::ManyToOne
    }
}

/// Reads a relation kind back from its key; any other key gives `ManyToOne`.
pub fn relation_kind_from_key(key: &str) -> (value: RelationKind)
    ensures
        value == relation_kind_from_key_spec(key@),
{
    if text_eq(key, "one_to_one") {
        RelationKind::OneToOne
    } else if text_eq(key, "one_to_many") {
        RelationKind::OneToMany
    } else if text_eq(key, "many_to_many") {
        RelationKind::ManyToMany
    } else {
        RelationKind::ManyToOne
    }
}

/// Every relation kind is read back from its own key.
pub proof fn relation_kind_key_round_trip(value: RelationKind)
    ensures
        relation_kind_from_key_spec(relation_kind_key_spec(value)) == value,
{
    reveal_strlit("one_to_one");
    assert("one_to_one"@ =~= seq!['o', 'n', 'e', '_', 't', 'o', '_', 'o', 'n', 'e']);
    reveal_strlit("many_to_one");
    assert("many_to_one"@ =~= seq!['m', 'a', 'n', 'y', '_', 't', 'o', '_', 'o', 'n', 'e']);
    reveal_strlit("one_to_many");
    assert("one_to_many"@ =~= seq!['o', 'n', 'e', '_', 't', 'o', '_', 'm', 'a', 'n', 'y']);
    reveal_strlit("many_to_many");
    assert("many_to_many"@ =~= seq!['m', 'a', 'n', 'y', '_', 't', 'o', '_', 'm', 'a', 'n', 'y']);
}

pub open spec fn relation_kind_label_spec(kind: RelationKind) -> Seq<char> {
    match kind {
        RelationKind::OneToOne => "一对一"@,
        RelationKind::ManyToOne => "多对一"@,
        RelationKind::OneToMany => "一对多"@,
        RelationKind::ManyToMany => "多对多"@,
    }
}

/// The label shown for a relation kind.
pub fn relation_kind_label(kind: RelationKind) -> (key: &'static str)
    ensures
        key@ == relation_kind_label_spec(kind),
{
    match kind {
        RelationKind::OneToOne => "一对一",
        RelationKind::ManyToOne => "多对一",
        RelationKind::OneToMany => "一对多",
        RelationKind::ManyToMany => "多对多",
    }
}

pub open spec fn relation_kind_select_items_spec() -> Seq<SelectOptionView> {
    seq![
        option_view("one_to_one"@, "一对一"@, false, false),
        option_view("many_to_one"@, "多对一"@, false, false),
        option_view("one_to_many"@, "一对多"@, false, false),
        option_view("many_to_many"@, "多对多"@, false, false),
    ]
}

/// The choices of a relation kind select box.
pub fn relation_kind_select_items() -> (options: Vec<SelectOption>)
    ensures
        options_view(options@) == relation_kind_select_items_spec(),
{
    let mut options: Vec<SelectOption> = Vec::new();
    push_option(&mut options, "one_to_one", "一对一", false, false);
    push_option(&mut options, "many_to_one", "多对一", false, false);
    push_option(&mut options, "one_to_many", "一对多", false, false);
    push_option(&mut options, "many_to_many", "多对多", false, false);
    assert(options_view(options@) =~= relation_kind_select_items_spec());
    options
}

/// The cardinality that the other end of a relation sees.
pub open spec fn opposite_spec(kind: RelationKind) -> RelationKind {
    match kind {
        RelationKind::OneToOne => RelationKind::OneToOne,
        RelationKind::ManyToOne => RelationKind::OneToMany,
        RelationKind::OneToMany => RelationKind::ManyToOne,
        RelationKind::ManyToMany => RelationKind::ManyToMany,
    }
}

/// Seen from the other end twice, a relation has its own cardinality again.
pub proof fn opposite_is_involutive(kind: RelationKind)
    ensures
        opposite_spec(opposite_spec(kind)) == kind,
{
}

impl RelationKind {
    /// The cardinality of the other end.
    pub fn opposite(self) -> (other: RelationKind)
        ensures
            other == opposite_spec(self),
    {
        match self {
            RelationKind::OneToOne => RelationKind::OneToOne,
            RelationKind::ManyToOne => RelationKind::OneToMany,
            RelationKind::OneToMany => RelationKind::ManyToOne,
            RelationKind::ManyToMany => RelationKind::ManyToMany,
        }
    }

    /// Whether the relation holds a list of target records.
    pub fn is_collection(self) -> (many: bool)
        ensures
            many == (self == RelationKind::OneToMany || self == RelationKind::ManyToMany),
    {
        match self {
            RelationKind::OneToMany | RelationKind::ManyToMany => true,
            RelationKind::OneToOne | RelationKind::ManyToOne => false,
        }
    }
}

/// Comparison of a query condition.
#[derive(Clone, Copy, Debug, PartialEq, Eq, Structural)]
pub enum QueryOperator {
    Equals,
    NotEquals,
    Contains,
    StartsWith,
    EndsWith,
    GreaterThan,
    GreaterOrEqual,
    LessThan,
    LessOrEqual,
}

pub open spec fn query_operator_key_spec(operator: QueryOperator) -> Seq<char> {
    match operator {
        QueryOperator::Equals => "equals"@,
        QueryOperator::NotEquals => "not_equals"@,
        QueryOperator::Contains => "contains"@,
        QueryOperator::StartsWith => "starts_with"@,
        QueryOperator::EndsWith => "ends_with"@,
        QueryOperator::GreaterThan => "greater_than"@,
        QueryOperator::GreaterOrEqual => "greater_or_equal"@,
        QueryOperator::LessThan => "less_than"@,
        QueryOperator::LessOrEqual => "less_or_equal"@,
    }
}

/// The stable key of a query operator.
pub fn query_operator_key(operator: QueryOperator) -> (key: &'static str)
    ensures
        key@ == query_operator_key_spec(operator),
{
    match operator {
        QueryOperator::Equals => "equals",
        QueryOperator::NotEquals => "not_equals",
        QueryOperator::Contains => "contains",
        QueryOperator::StartsWith => "starts_with",
        QueryOperator::EndsWith => "ends_with",
        QueryOperator::GreaterThan => "greater_than",
        QueryOperator::GreaterOrEqual => "greater_or_equal",
        QueryOperator::LessThan => "less_than",
        QueryOperator::LessOrEqual => "less_or_equal",
    }
}

pub open spec fn query_operator_from_key_spec(key: Seq<char>) -> QueryOperator {
    if key == "equals"@ {
        QueryOperator::Equals
    } else if key == "not_equals"@ {
        QueryOperator::NotEquals
    } else if key == "starts_with"@ {
        QueryOperator::StartsWith
    } else if key == "ends_with"@ {
        QueryOperator::EndsWith
    } else if key == "greater_than"@ {
        QueryOperator::GreaterThan
    } else if key == "greater_or_equal"@ {
        QueryOperator::GreaterOrEqual
    } else if key == "less_than"@ {
        QueryOperator::LessThan
    } else if key == "less_or_equal"@ {
        QueryOperator::LessOrEqual
    } else {
        QueryOperator::Contains
    }
}

/// Reads a query operator back from its key; any other key gives `Contains`.
pub fn query_operator_from_key(key: &str) -> (value: QueryOperator)
    ensures
        value == query_operator_from_key_spec(key@),
{
    if text_eq(key, "equals") {
        QueryOperator::Equals
    } else if text_eq(key, "not_equals") {
        QueryOperator::NotEquals
    } else if text_eq(key, "starts_with") {
        QueryOperator::StartsWith
    } else if text_eq(key, "ends_with") {
        QueryOperator::EndsWith
    } else if text_eq(key, "greater_than") {
        QueryOperator::GreaterThan
    } else if text_eq(key, "greater_or_equal") {
        QueryOperator::GreaterOrEqual
    } else if text_eq(key, "less_than") {
        QueryOperator::LessThan
    } else if text_eq(key, "less_or_equal") {
        QueryOperator::LessOrEqual
    } else {
        QueryOperator::Contains
    }
}

/// Every query operator is read back from its own key.
pub proof fn query_operator_key_round_trip(value: QueryOperator)
    ensures
        query_operator_from_key_spec(query_operator_key_spec(value)) == value,
{
    reveal_strlit("equals");
    assert("equals"@ =~= seq!['e', 'q', 'u', 'a', 'l', 's']);
    reveal_strlit("not_equals");
    assert("not_equals"@ =~= seq!['n', 'o', 't', '_', 'e', 'q', 'u', 'a', 'l', 's']);
    reveal_strlit("contains");
    assert("contains"@ =~= seq!['c', 'o', 'n', 't', 'a', 'i', 'n', 's']);
    reveal_strlit("starts_with");
    assert("starts_with"@ =~= seq!['s', 't', 'a', 'r', 't', 's', '_', 'w', 'i', 't', 'h']);
    reveal_strlit("ends_with");
    assert("ends_with"@ =~= seq!['e', 'n', 'd', 's', '_', 'w', 'i', 't', 'h']);
    reveal_strlit("greater_than");
    assert("greater_than"@ =~= seq!['g', 'r', 'e', 'a', 't', 'e', 'r', '_', 't', 'h', 'a', 'n']);
    reveal_strlit("greater_or_equal");
    assert("greater_or_equal"@ =~= seq!['g', 'r', 'e', 'a', 't', 'e', 'r', '_', 'o', 'r', '_', 'e', 'q', 'u', 'a', 'l']);
    reveal_strlit("less_than");
    assert("less_than"@ =~= seq!['l', 'e', 's', 's', '_', 't', 'h', 'a', 'n']);
    reveal_strlit("less_or_equal");
    assert("less_or_equal"@ =~= seq!['l', 'e', 's', 's', '_', 'o', 'r', '_', 'e', 'q', 'u', 'a', 'l']);
}

pub open spec fn query_operator_label_spec(operator: QueryOperator) -> Seq<char> {
    match operator {
        QueryOperator::Equals => "等于"@,
        QueryOperator::NotEquals => "不等于"@,
        QueryOperator::Contains => "包含"@,
        QueryOperator::StartsWith => "开头是"@,
        QueryOperator::EndsWith => "结尾是"@,
        QueryOperator::GreaterThan => "大于"@,
        QueryOperator::GreaterOrEqual => "大于等于"@,
        QueryOperator::LessThan => "小于"@,
        QueryOperator::LessOrEqual => "小于等于"@,
    }
}

/// The label shown for a query operator.
pub fn query_operator_label(operator: QueryOperator) -> (key: &'static str)
    ensures
        key@ == query_operator_label_spec(operator),
{
    match operator {
        QueryOperator::Equals => "等于",
        QueryOperator::NotEquals => "不等于",
        QueryOperator::Contains => "包含",
        QueryOperator::StartsWith => "开头是",
        QueryOperator::EndsWith => "结尾是",
        QueryOperator::GreaterThan => "大于",
        QueryOperator::GreaterOrEqual => "大于等于",
        QueryOperator::LessThan => "小于",
        QueryOperator::LessOrEqual => "小于等于",
    }
}

pub open spec fn query_operator_select_items_spec() -> Seq<SelectOptionView> {
    seq![
        option_view("contains"@, "包含"@, false, false),
        option_view("equals"@, "等于"@, false, false),
        option_view("not_equals"@, "不等于"@, false, false),
        option_view("starts_with"@, "开头是"@, false, false),
        option_view("ends_with"@, "结尾是"@, false, false),
        option_view("greater_than"@, "大于"@, false, false),
        option_view("greater_or_equal"@, "大于等于"@, false, false),
        option_view("less_than"@, "小于"@, false, false),
        option_view("less_or_equal"@, "小于等于"@, false, false),
    ]
}

/// The choices of a query operator select box.
pub fn query_operator_select_items() -> (options: Vec<SelectOption>)
    ensures
        options_view(options@) == query_operator_select_items_spec(),
{
    let mut options: Vec<SelectOption> = Vec::new();
    push_option(&mut options, "contains", "包含", false, false);
    push_option(&mut options, "equals", "等于", false, false);
    push_option(&mut options, "not_equals", "不等于", false, false);
    push_option(&mut options, "starts_with", "开头是", false, false);
    push_option(&mut options, "ends_with", "结尾是", false, false);
    push_option(&mut options, "greater_than", "大于", false, false);
    push_option(&mut options, "greater_or_equal", "大于等于", false, false);
    push_option(&mut options, "less_than", "小于", false, false);
    push_option(&mut options, "less_or_equal", "小于等于", false, false);
    assert(options_view(options@) =~= query_operator_select_items_spec());
    options
}

/// How the conditions of a query combine.
#[derive(Clone, Copy, Debug, PartialEq, Eq, Structural)]
pub enum QueryConjunction {
    All,
    Any,
}

pub open spec fn query_conjunction_from_key_spec(key: Seq<char>) -> QueryConjunction {
    if key == "any"@ {
        QueryConjunction::Any
    } else {
        QueryConjunction::All
    }
}

/// Reads a conjunction from its key; any other key gives `All`.
pub fn query_conjunction_from_key(key: &str) -> (value: QueryConjunction)
    ensures
        value == query_conjunction_from_key_spec(key@),
{
    if text_eq(key, "any") {
        QueryConjunction::Any
    } else {
        QueryConjunction::All
    }
}

} // verus!
