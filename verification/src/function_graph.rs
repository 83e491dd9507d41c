//! Function graphs in the designer: node kinds, their keys and labels, and node placement.

use vstd::prelude::*;
use vstd::string::StringExecFns;
use crate::definition::{FunctionNodeKind, FunctionNode, FunctionNodeEditor};

verus! {

pub open spec fn function_node_kind_key_spec(kind: FunctionNodeKind) -> Seq<char> {
    match kind {
        FunctionNodeKind::Constant { .. } => "constant"@,
        FunctionNodeKind::Input { .. } => "input"@,
        FunctionNodeKind::Output { .. } => "output"@,
        FunctionNodeKind::Object { .. } => "object"@,
        FunctionNodeKind::List { .. } => "list"@,
        FunctionNodeKind::FieldAccess { .. } => "field_access"@,
        FunctionNodeKind::Format { .. } => "format"@,
        FunctionNodeKind::Compare { .. } => "compare"@,
        FunctionNodeKind::Boolean { .. } => "boolean"@,
        FunctionNodeKind::Math { .. } => "math"@,
        FunctionNodeKind::Condition  => "condition"@,
        FunctionNodeKind::ForEach { .. } => "for_each"@,
        FunctionNodeKind::ValidateForm { .. } => "validate_form"@,
        FunctionNodeKind::CreateRecord { .. } => "create_record"@,
        FunctionNodeKind::ReadRecord { .. } => "read_record"@,
        FunctionNodeKind::UpdateRecord { .. } => "update_record"@,
        FunctionNodeKind::DeleteRecord { .. } => "delete_record"@,
        FunctionNodeKind::QueryRecords { .. } => "query_records"@,
        FunctionNodeKind::Navigate { .. } => "navigate"@,
        FunctionNodeKind::Confirm { .. } => "confirm"@,
        FunctionNodeKind::Notify { .. } => "notify"@,
        FunctionNodeKind::Return  => "return"@,
        FunctionNodeKind::Fail { .. } => "fail"@,
        FunctionNodeKind::Capability { .. } => "capability"@,
    }
}

/// The stable key of a node kind.
pub fn function_node_kind_key(kind: &FunctionNodeKind) -> (key: &'static str)
    ensures
        key@ == function_node_kind_key_spec(*kind),
{
    match kind {
        FunctionNodeKind::Constant { .. } => "constant",
        FunctionNodeKind::Input { .. } => "input",
        FunctionNodeKind::Output { .. } => "output",
        FunctionNodeKind::Object { .. } => "object",
        FunctionNodeKind::List { .. } => "list",
        FunctionNodeKind::FieldAccess { .. } => "field_access",
        FunctionNodeKind::Format { .. } => "format",
        FunctionNodeKind::Compare { .. } => "compare",
        FunctionNodeKind::Boolean { .. } => "boolean",
        FunctionNodeKind::Math { .. } => "math",
        FunctionNodeKind::Condition  => "condition",
        FunctionNodeKind::ForEach { .. } => "for_each",
        FunctionNodeKind::ValidateForm { .. } => "validate_form",
        FunctionNodeKind::CreateRecord { .. } => "create_record",
        FunctionNodeKind::ReadRecord { .. } => "read_record",
        FunctionNodeKind::UpdateRecord { .. } => "update_record",
        FunctionNodeKind::DeleteRecord { .. } => "delete_record",
        FunctionNodeKind::QueryRecords { .. } => "query_records",
        FunctionNodeKind::Navigate { .. } => "navigate",
        FunctionNodeKind::Confirm { .. } => "confirm",
        FunctionNodeKind::Notify { .. } => "notify",
        FunctionNodeKind::Return  => "return",
        FunctionNodeKind::Fail { .. } => "fail",
        FunctionNodeKind::Capability { .. } => "capability",
    }
}

pub open spec fn function_node_kind_title_spec(kind: FunctionNodeKind) -> Seq<char> {
    match kind {
        FunctionNodeKind::Constant { .. } => "常量"@,
        FunctionNodeKind::Input { .. } => "输入"@,
        FunctionNodeKind::Output { .. } => "输出"@,
        FunctionNodeKind::Object { .. } => "对象"@,
        FunctionNodeKind::List { .. } => "列表"@,
        FunctionNodeKind::FieldAccess { .. } => "字段读取"@,
        FunctionNodeKind::Format { .. } => "格式化"@,
        FunctionNodeKind::Compare { .. } => "比较"@,
        FunctionNodeKind::Boolean { .. } => "布尔"@,
        FunctionNodeKind::Math { .. } => "数学"@,
        FunctionNodeKind::Condition  => "条件"@,
        FunctionNodeKind::ForEach { .. } => "遍历"@,
        FunctionNodeKind::ValidateForm { .. } => "表单校验"@,
        FunctionNodeKind::CreateRecord { .. } => "新增记录"@,
        FunctionNodeKind::ReadRecord { .. } => "读取记录"@,
        FunctionNodeKind::UpdateRecord { .. } => "更新记录"@,
        FunctionNodeKind::DeleteRecord { .. } => "删除记录"@,
        FunctionNodeKind::QueryRecords { .. } => "查询记录"@,
        FunctionNodeKind::Navigate { .. } => "页面跳转"@,
        FunctionNodeKind::Confirm { .. } => "确认"@,
        FunctionNodeKind::Notify { .. } => "通知"@,
        FunctionNodeKind::Return  => "返回"@,
        FunctionNodeKind::Fail { .. } => "失败"@,
        FunctionNodeKind::Capability { .. } => "能力调用"@,
    }
}

/// The title shown for a node kind.
pub fn function_node_kind_title(kind: &FunctionNodeKind) -> (key: &'static str)
    ensures
        key@ == function_node_kind_title_spec(*kind),
{
    match kind {
        FunctionNodeKind::Constant { .. } => "常量",
        FunctionNodeKind::Input { .. } => "输入",
        FunctionNodeKind::Output { .. } => "输出",
        FunctionNodeKind::Object { .. } => "对象",
        FunctionNodeKind::List { .. } => "列表",
        FunctionNodeKind::FieldAccess { .. } => "字段读取",
        FunctionNodeKind::Format { .. } => "格式化",
        FunctionNodeKind::Compare { .. } => "比较",
        FunctionNodeKind::Boolean { .. } => "布尔",
        FunctionNodeKind::Math { .. } => "数学",
        FunctionNodeKind::Condition  => "条件",
        FunctionNodeKind::ForEach { .. } => "遍历",
        FunctionNodeKind::ValidateForm { .. } => "表单校验",
        FunctionNodeKind::CreateRecord { .. } => "新增记录",
        FunctionNodeKind::ReadRecord { .. } => "读取记录",
        FunctionNodeKind::UpdateRecord { .. } => "更新记录",
        FunctionNodeKind::DeleteRecord { .. } => "删除记录",
        FunctionNodeKind::QueryRecords { .. } => "查询记录",
        FunctionNodeKind::Navigate { .. } => "页面跳转",
        FunctionNodeKind::Confirm { .. } => "确认",
        FunctionNodeKind::Notify { .. } => "通知",
        FunctionNodeKind::Return  => "返回",
        FunctionNodeKind::Fail { .. } => "失败",
        FunctionNodeKind::Capability { .. } => "能力调用",
    }
}

/// Free slots for new nodes lie on a grid of three columns 240 apart and rows 160 apart.
pub open spec fn candidate_x(k: int) -> int {
    (k % 3) * 240
}

pub open spec fn candidate_y(k: int) -> int {
    (k / 3) * 160
}

pub open spec fn abs_int(v: int) -> int {
    if v < 0 {
        -v
    } else {
        v
    }
}

/// A node leaves too little room around grid point `(x, y)`.
pub open spec fn crowds(e: FunctionNodeEditor, x: int, y: int) -> bool {
    abs_int(e.x - x) < 220 && abs_int(e.y - y) < 140
}

/// Grid slot `k` is far enough from every node.
pub open spec fn slot_free(nodes: Seq<FunctionNode>, k: int) -> bool {
    forall|i: int| 0 <= i < nodes.len() ==> !crowds(#[trigger] nodes[i].editor, candidate_x(k), candidate_y(k))
}

/// The grid slots a node can crowd: at most two columns of at most two rows.
pub open spec fn crowded_slots(e: FunctionNodeEditor) -> Set<int> {
    let r = (e.y + 20) / 160;
    let c = (e.x + 20) / 240;
    set![3 * r + c, 3 * r + c + 1, 3 * (r + 1) + c, 3 * (r + 1) + c + 1]
}

pub open spec fn slots_crowded_by(nodes: Seq<FunctionNode>, n: int) -> Set<int>
    decreases n,
{
    if n <= 0 {
        Set::empty()
    } else {
        slots_crowded_by(nodes, n - 1).union(crowded_slots(nodes[n - 1].editor))
    }
}

proof fn lemma_crowded_slot(e: FunctionNodeEditor, k: int)
    requires
        0 <= k,
        crowds(e, candidate_x(k), candidate_y(k)),
    ensures
        crowded_slots(e).contains(k),
{
    let r = (e.y + 20) / 160;
    let c = (e.x + 20) / 240;
    let kr = k / 3;
    let kc = k % 3;
    assert(k == 3 * kr + kc) by (nonlinear_arith)
        requires
            kr == k / 3,
            kc == k % 3,
    ;
    assert(kr == r || kr == r + 1) by (nonlinear_arith)
        requires
            r == (e.y + 20) / 160,
            -140 < e.y - kr * 160 < 140,
    ;
    assert(kc == c || kc == c + 1) by (nonlinear_arith)
        requires
            c == (e.x + 20) / 240,
            -220 < e.x - kc * 240 < 220,
    ;
}

proof fn lemma_crowded_slots_len(e: FunctionNodeEditor)
    ensures
        crowded_slots(e).finite(),
        crowded_slots(e).len() <= 4,
{
    let r = (e.y + 20) / 160;
    let c = (e.x + 20) / 240;
    let a = 3 * r + c;
    let s = set![a].insert(a + 1).insert(a + 3).insert(a + 4);
    assert(crowded_slots(e) =~= s);
    assert(set![a].len() == 1);
    assert(set![a].insert(a + 1).len() <= 2);
    assert(set![a].insert(a + 1).insert(a + 3).len() <= 3);
}

pub proof fn lemma_slots_crowded_by(nodes: Seq<FunctionNode>, n: int)
    requires
        0 <= n <= nodes.len(),
    ensures
        slots_crowded_by(nodes, n).finite(),
        slots_crowded_by(nodes, n).len() <= 4 * n,
        forall|i: int, k: int|
            0 <= i < n && 0 <= k && crowds(nodes[i].editor, candidate_x(k), candidate_y(k)) ==> slots_crowded_by(
                nodes,
                n,
            ).contains(k),
    decreases n,
{
    if n > 0 {
        lemma_slots_crowded_by(nodes, n - 1);
        let e = nodes[n - 1].editor;
        lemma_crowded_slots_len(e);
        vstd::set_lib::lemma_len_union(slots_crowded_by(nodes, n - 1), crowded_slots(e));
        assert forall|i: int, k: int|
            0 <= i < n && 0 <= k && crowds(nodes[i].editor, candidate_x(k), candidate_y(k)) implies slots_crowded_by(
            nodes,
            n,
        ).contains(k) by {
            if i == n - 1 {
                lemma_crowded_slot(e, k);
            }
        }
    }
}

/// Some grid slot among the first `4 * n + 1` is free: each node crowds at most four slots.
pub proof fn lemma_free_slot_exists(nodes: Seq<FunctionNode>)
    ensures
        exists|k: int| 0 <= k <= 4 * nodes.len() && #[trigger] slot_free(nodes, k),
{
    let n = nodes.len() as int;
    lemma_slots_crowded_by(nodes, n);
    let crowded = slots_crowded_by(nodes, n);
    let range = vstd::set_lib::set_int_range(0, 4 * n + 1);
    vstd::set_lib::lemma_int_range(0, 4 * n + 1);
    if forall|k: int| 0 <= k <= 4 * n ==> crowded.contains(k) {
        assert(range.subset_of(crowded));
        vstd::set_lib::lemma_len_subset(range, crowded);
        assert(false);
    }
    let k = choose|k: int| 0 <= k <= 4 * n && !crowded.contains(k);
    assert forall|i: int| 0 <= i < nodes.len() implies !crowds(#[trigger] nodes[i].editor, candidate_x(k), candidate_y(k)) by {
        if crowds(nodes[i].editor, candidate_x(k), candidate_y(k)) {
            assert(crowded.contains(k));
        }
    }
    assert(slot_free(nodes, k));
}

/// Every grid slot that the search for room reaches, all earlier slots being taken, lies on a
/// row whose coordinate fits in an `i32`.
pub open spec fn search_fits(nodes: Seq<FunctionNode>) -> bool {
    forall|k: int|
        #![trigger candidate_y(k)]
        0 <= k && (forall|j: int| 0 <= j < k ==> !slot_free(nodes, j)) ==> candidate_y(k) <= i32::MAX
}

/// The search fits whenever the first `4n + 1` slots do: with at most 10 034 970 nodes, placing
/// a new one never leaves the range of `i32`.
pub proof fn search_fits_for_few_nodes(nodes: Seq<FunctionNode>)
    requires
        214 * nodes.len() <= i32::MAX,
    ensures
        search_fits(nodes),
{
    lemma_free_slot_exists(nodes);
    let f = choose|f: int| 0 <= f <= 4 * nodes.len() && #[trigger] slot_free(nodes, f);
    assert forall|k: int|
        #![trigger candidate_y(k)]
        0 <= k && (forall|j: int| 0 <= j < k ==> !slot_free(nodes, j)) implies candidate_y(k) <= i32::MAX by {
        if k > f {
            assert(!slot_free(nodes, f));
        }
        assert((k / 3) * 160 <= 214 * nodes.len()) by (nonlinear_arith)
            requires
                0 <= k <= f,
                f <= 4 * nodes.len(),
        ;
    }
}

fn slot_is_free(nodes: &[FunctionNode], k: u128) -> (free: bool)
    requires
        candidate_y(k as int) <= i32::MAX,
    ensures
        free == slot_free(nodes@, k as int),
{
    assert(k / 3 <= 13_421_772) by (nonlinear_arith)
        requires
            (k as int / 3) * 160 <= i32::MAX,
    ;
    let x: i64 = ((k % 3) * 240) as i64;
    let y: i64 = ((k / 3) * 160) as i64;
    let mut i: usize = 0;
    while i < nodes.len()
        invariant
            i <= nodes.len(),
            0 <= x <= 480,
            0 <= y <= i32::MAX,
            x == candidate_x(k as int),
            y == candidate_y(k as int),
            forall|j: int| 0 <= j < i ==> !crowds(#[trigger] nodes@[j].editor, candidate_x(k as int), candidate_y(k as int)),
        decreases nodes.len() - i,
    {
        let e = nodes[i].editor;
        let dx = e.x as i64 - x;
        let dy = e.y as i64 - y;
        let ax = if dx < 0 {
            -dx
        } else {
            dx
        };
        let ay = if dy < 0 {
            -dy
        } else {
            dy
        };
        if ax < 220 && ay < 140 {
            assert(crowds(nodes@[i as int].editor, candidate_x(k as int), candidate_y(k as int)));
            return false;
        }
        i = i + 1;
    }
    true
}

/// The place of a new node: the first grid slot, row by row, that no node crowds. It is among
/// the first `4n + 1` slots, `n` being the number of nodes, since each node crowds at most two
/// columns of two rows. The search computes the row's coordinate as an `i32`, so the inputs
/// where that coordinate does not fit before room is found are left out.
pub fn next_function_node_editor(nodes: &[FunctionNode]) -> (e: FunctionNodeEditor)
    requires
        search_fits(nodes@),
    ensures
        exists|k: int|
            0 <= k <= 4 * nodes@.len() && #[trigger] slot_free(nodes@, k) && (forall|j: int| 0 <= j < k ==> !slot_free(nodes@, j))
                && e.x == candidate_x(k) && e.y == candidate_y(k),
        0 <= e.y <= 214 * nodes@.len(),
{
    proof {
        lemma_free_slot_exists(nodes@);
    }
    let ghost bound = choose|f: int| 0 <= f <= 4 * nodes@.len() && #[trigger] slot_free(nodes@, f);
    let n = nodes.len();
    let mut k: u128 = 0;
    assert(candidate_y(0) <= i32::MAX);
    while !slot_is_free(nodes, k)
        invariant
            0 <= k <= bound,
            0 <= bound <= 4 * nodes@.len(),
            n == nodes@.len(),
            search_fits(nodes@),
            slot_free(nodes@, bound),
            forall|j: int| 0 <= j < k ==> !slot_free(nodes@, j),
            candidate_y(k as int) <= i32::MAX,
        decreases bound - k,
    {
        proof {
            if k == bound {
                assert(false);
            }
        }
        k = k + 1;
        assert(candidate_y(k as int) <= i32::MAX);
    }
    assert(k / 3 <= 13_421_772) by (nonlinear_arith)
        requires
            (k as int / 3) * 160 <= i32::MAX,
    ;
    assert((k as int / 3) * 160 <= 214 * nodes@.len()) by (nonlinear_arith)
        requires
            k <= bound,
            bound <= 4 * nodes@.len(),
    ;
    let x = ((k % 3) * 240) as i32;
    let y = ((k / 3) * 160) as i32;
    FunctionNodeEditor { x, y }
}

/// The title of a function's delete button: deleting is refused, and the title says why, while
/// function nodes still call the function.
pub open spec fn function_delete_title_spec(references: nat) -> Seq<char> {
    if references > 0 {
        "该函数被 "@ + crate::text::decimal_seq(references) + " 个函数节点调用，不能删除"@
    } else {
        "删除函数"@
    }
}

/// Whether a function that `references` function nodes call may be deleted, and the title of
/// its delete button.
pub fn function_delete_guard(references: usize) -> (guard: (bool, String))
    ensures
        guard.0 == (references == 0),
        guard.1@ == function_delete_title_spec(references as nat),
{
    if references > 0 {
        let mut title = "该函数被 ".to_owned();
        let count = crate::text::decimal_text(references as u128);
        title.append(count.as_str());
        title.append(" 个函数节点调用，不能删除");
        (false, title)
    } else {
        (true, "删除函数".to_owned())
    }
}

} // verus!
