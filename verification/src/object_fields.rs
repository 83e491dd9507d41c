//! The field mapping of an object node: target field to source node, each target field once,
//! in increasing order of the target field.

use vstd::prelude::*;
use crate::symbol::SymbolId;

verus! {

/// Whether the target fields of a mapping strictly increase.
pub open spec fn sorted_keys(fields: Seq<(SymbolId, SymbolId)>) -> bool {
    forall|i: int, j: int| 0 <= i < j < fields.len() ==> (#[trigger] fields[i]).0.value < (#[trigger] fields[j]).0.value
}

/// The first position at or after `i` whose target field is not below `key`.
pub open spec fn lower_bound_from(fields: Seq<(SymbolId, SymbolId)>, key: SymbolId, i: int) -> int
    decreases fields.len() - i,
{
    if i < 0 || i >= fields.len() {
        fields.len() as int
    } else if fields[i].0.value >= key.value {
        i
    } else {
        lower_bound_from(fields, key, i + 1)
    }
}

/// Where `key` sits in the mapping, or belongs.
pub open spec fn lower_bound(fields: Seq<(SymbolId, SymbolId)>, key: SymbolId) -> int {
    lower_bound_from(fields, key, 0)
}

/// Whether the mapping has target field `key`.
pub open spec fn has_key(fields: Seq<(SymbolId, SymbolId)>, key: SymbolId) -> bool {
    exists|i: int| 0 <= i < fields.len() && (#[trigger] fields[i]).0 == key
}

/// The source node of target field `key`, if mapped.
pub open spec fn mapped(fields: Seq<(SymbolId, SymbolId)>, key: SymbolId) -> Option<SymbolId> {
    let p = lower_bound(fields, key);
    if p < fields.len() && fields[p].0 == key {
        Some(fields[p].1)
    } else {
        None
    }
}

/// The mapping with `key` mapped to `value`: replaced where it is, else added in order.
pub open spec fn mapping_insert(fields: Seq<(SymbolId, SymbolId)>, key: SymbolId, value: SymbolId) -> Seq<(SymbolId, SymbolId)> {
    let p = lower_bound(fields, key);
    if p < fields.len() && fields[p].0 == key {
        fields.update(p, (key, value))
    } else {
        fields.insert(p, (key, value))
    }
}

/// The mapping without target field `key`.
pub open spec fn mapping_remove(fields: Seq<(SymbolId, SymbolId)>, key: SymbolId) -> Seq<(SymbolId, SymbolId)> {
    let p = lower_bound(fields, key);
    if p < fields.len() && fields[p].0 == key {
        fields.remove(p)
    } else {
        fields
    }
}

proof fn lemma_lower_bound_from(fields: Seq<(SymbolId, SymbolId)>, key: SymbolId, i: int)
    requires
        0 <= i <= fields.len(),
    ensures
        i <= lower_bound_from(fields, key, i) <= fields.len(),
        forall|j: int| i <= j < lower_bound_from(fields, key, i) ==> (#[trigger] fields[j]).0.value < key.value,
        lower_bound_from(fields, key, i) < fields.len() ==> fields[lower_bound_from(fields, key, i)].0.value >= key.value,
    decreases fields.len() - i,
{
    if i < fields.len() && fields[i].0.value < key.value {
        lemma_lower_bound_from(fields, key, i + 1);
    }
}

/// The lower bound splits a sorted mapping into the targets below `key` and those not below it.
pub proof fn lemma_lower_bound(fields: Seq<(SymbolId, SymbolId)>, key: SymbolId)
    requires
        sorted_keys(fields),
    ensures
        0 <= lower_bound(fields, key) <= fields.len(),
        forall|j: int| 0 <= j < lower_bound(fields, key) ==> (#[trigger] fields[j]).0.value < key.value,
        forall|j: int| lower_bound(fields, key) <= j < fields.len() ==> (#[trigger] fields[j]).0.value >= key.value,
        has_key(fields, key) <==> mapped(fields, key) is Some,
{
    lemma_lower_bound_from(fields, key, 0);
    let p = lower_bound(fields, key);
    assert forall|j: int| p <= j < fields.len() implies (#[trigger] fields[j]).0.value >= key.value by {
        if j > p {
            assert(fields[p].0.value < fields[j].0.value);
        }
    }
    if has_key(fields, key) {
        let i = choose|i: int| 0 <= i < fields.len() && (#[trigger] fields[i]).0 == key;
        if i < p {
            assert(fields[i].0.value < key.value);
        } else if i > p {
            assert(fields[p].0.value < fields[i].0.value);
            assert(fields[p].0.value >= key.value);
        }
    }
}

/// Inserting keeps the target fields increasing, and maps `key` to `value`.
pub proof fn lemma_mapping_insert(fields: Seq<(SymbolId, SymbolId)>, key: SymbolId, value: SymbolId)
    requires
        sorted_keys(fields),
    ensures
        sorted_keys(mapping_insert(fields, key, value)),
        mapped(mapping_insert(fields, key, value), key) == Some(value),
{
    lemma_lower_bound(fields, key);
    let p = lower_bound(fields, key);
    let next = mapping_insert(fields, key, value);
    if p < fields.len() && fields[p].0 == key {
        assert(sorted_keys(next));
    } else {
        assert forall|i: int, j: int| 0 <= i < j < next.len() implies (#[trigger] next[i]).0.value < (#[trigger] next[j]).0.value by {
            if j < p {
            } else if j == p {
            } else if i < p {
                assert(fields[j - 1].0.value >= key.value);
                if p < fields.len() {
                    assert(fields[p].0.value > key.value) by {
                        assert(fields[p].0 != key);
                        assert(fields[p].0.value != key.value);
                    }
                }
            } else if i == p {
                assert(fields[j - 1].0.value >= key.value);
                assert(fields[j - 1].0 != key) by {
                    if fields[j - 1].0 == key {
                        if j - 1 > p {
                            assert(fields[p].0.value < fields[j - 1].0.value);
                        }
                    }
                }
            } else {
                assert(fields[i - 1].0.value < fields[j - 1].0.value);
            }
        }
    }
    lemma_lower_bound(next, key);
    assert(has_key(next, key)) by {
        assert(next[p].0 == key);
    }
}

/// Removing keeps the target fields increasing and leaves `key` unmapped.
pub proof fn lemma_mapping_remove(fields: Seq<(SymbolId, SymbolId)>, key: SymbolId)
    requires
        sorted_keys(fields),
    ensures
        sorted_keys(mapping_remove(fields, key)),
        mapped(mapping_remove(fields, key), key) is None,
{
    lemma_lower_bound(fields, key);
    let next = mapping_remove(fields, key);
    assert(sorted_keys(next)) by {
        assert forall|i: int, j: int| 0 <= i < j < next.len() implies (#[trigger] next[i]).0.value < (#[trigger] next[j]).0.value by {
            let p = lower_bound(fields, key);
            if p < fields.len() && fields[p].0 == key {
                let a = if i < p { i } else { i + 1 };
                let b = if j < p { j } else { j + 1 };
                assert(next[i] == fields[a]);
                assert(next[j] == fields[b]);
            }
        }
    }
    lemma_lower_bound(next, key);
    if has_key(next, key) {
        let i = choose|i: int| 0 <= i < next.len() && (#[trigger] next[i]).0 == key;
        let p = lower_bound(fields, key);
        if p < fields.len() && fields[p].0 == key {
            let a = if i < p { i } else { i + 1 };
            assert(next[i] == fields[a]);
            assert(fields[a].0 == key);
            if a > p {
                assert(fields[p].0.value < fields[a].0.value);
            }
        } else {
            assert(fields[i].0 == key);
            assert(has_key(fields, key));
        }
    }
}

/// In a sorted mapping, a target field is mapped to the node of the entry that holds it.
pub proof fn lemma_mapped_entry(fields: Seq<(SymbolId, SymbolId)>, key: SymbolId, i: int)
    requires
        sorted_keys(fields),
        0 <= i < fields.len(),
        fields[i].0 == key,
    ensures
        mapped(fields, key) == Some(fields[i].1),
{
    lemma_lower_bound(fields, key);
    let p = lower_bound(fields, key);
    if i < p {
        assert(fields[i].0.value < key.value);
    } else if i > p {
        assert(fields[p].0.value < fields[i].0.value);
    }
}

/// In a sorted mapping, a target field that no entry holds is not mapped.
pub proof fn lemma_unmapped(fields: Seq<(SymbolId, SymbolId)>, key: SymbolId)
    requires
        sorted_keys(fields),
        !has_key(fields, key),
    ensures
        mapped(fields, key) is None,
{
    lemma_lower_bound(fields, key);
}

/// Mapping one target field leaves every other target field mapped as it was.
pub proof fn mapping_insert_keeps_others(fields: Seq<(SymbolId, SymbolId)>, key: SymbolId, value: SymbolId, other: SymbolId)
    requires
        sorted_keys(fields),
        other != key,
    ensures
        mapped(mapping_insert(fields, key, value), other) == mapped(fields, other),
{
    lemma_mapping_insert(fields, key, value);
    lemma_lower_bound(fields, key);
    let next = mapping_insert(fields, key, value);
    let p = lower_bound(fields, key);
    let replaced = p < fields.len() && fields[p].0 == key;
    if has_key(fields, other) {
        let i = choose|i: int| 0 <= i < fields.len() && (#[trigger] fields[i]).0 == other;
        lemma_mapped_entry(fields, other, i);
        let j = if replaced || i < p { i } else { i + 1 };
        assert(next[j] == fields[i]);
        lemma_mapped_entry(next, other, j);
    } else {
        lemma_unmapped(fields, other);
        if has_key(next, other) {
            let j = choose|j: int| 0 <= j < next.len() && (#[trigger] next[j]).0 == other;
            if replaced {
                if j != p {
                    assert(next[j] == fields[j]);
                }
            } else if j < p {
                assert(next[j] == fields[j]);
            } else if j > p {
                assert(next[j] == fields[j - 1]);
            }
        }
        lemma_unmapped(next, other);
    }
}

/// Unmapping one target field leaves every other target field mapped as it was.
pub proof fn mapping_remove_keeps_others(fields: Seq<(SymbolId, SymbolId)>, key: SymbolId, other: SymbolId)
    requires
        sorted_keys(fields),
        other != key,
    ensures
        mapped(mapping_remove(fields, key), other) == mapped(fields, other),
{
    lemma_mapping_remove(fields, key);
    lemma_lower_bound(fields, key);
    let next = mapping_remove(fields, key);
    let p = lower_bound(fields, key);
    let removed = p < fields.len() && fields[p].0 == key;
    if has_key(fields, other) {
        let i = choose|i: int| 0 <= i < fields.len() && (#[trigger] fields[i]).0 == other;
        lemma_mapped_entry(fields, other, i);
        if removed {
            assert(i != p);
            let j = if i < p { i } else { i - 1 };
            assert(next[j] == fields[i]);
            lemma_mapped_entry(next, other, j);
        } else {
            lemma_mapped_entry(next, other, i);
        }
    } else {
        lemma_unmapped(fields, other);
        if has_key(next, other) {
            let j = choose|j: int| 0 <= j < next.len() && (#[trigger] next[j]).0 == other;
            if removed {
                let i = if j < p { j } else { j + 1 };
                assert(next[j] == fields[i]);
            } else {
                assert(next[j] == fields[j]);
            }
        }
        lemma_unmapped(next, other);
    }
}

fn lower_bound_exec(fields: &Vec<(SymbolId, SymbolId)>, key: SymbolId) -> (p: usize)
    ensures
        p == lower_bound(fields@, key),
{
    let mut i: usize = 0;
    while i < fields.len() && fields[i].0.value < key.value
        invariant
            i <= fields.len(),
            lower_bound(fields@, key) == lower_bound_from(fields@, key, i as int),
        decreases fields.len() - i,
    {
        i = i + 1;
    }
    i
}

/// Maps target field `key` to source node `value`.
pub fn object_field_insert(fields: &mut Vec<(SymbolId, SymbolId)>, key: SymbolId, value: SymbolId)
    requires
        sorted_keys(old(fields)@),
    ensures
        final(fields)@ == mapping_insert(old(fields)@, key, value),
        sorted_keys(final(fields)@),
{
    proof {
        lemma_mapping_insert(fields@, key, value);
        lemma_lower_bound(fields@, key);
    }
    let p = lower_bound_exec(fields, key);
    if p < fields.len() && fields[p].0 == key {
        fields.remove(p);
        fields.insert(p, (key, value));
        assert(fields@ =~= mapping_insert(old(fields)@, key, value));
    } else {
        fields.insert(p, (key, value));
    }
}

/// Unmaps target field `key`, giving back its source node if it was mapped.
pub fn object_field_remove(fields: &mut Vec<(SymbolId, SymbolId)>, key: SymbolId) -> (removed: Option<SymbolId>)
    requires
        sorted_keys(old(fields)@),
    ensures
        final(fields)@ == mapping_remove(old(fields)@, key),
        sorted_keys(final(fields)@),
        removed == mapped(old(fields)@, key),
{
    proof {
        lemma_mapping_remove(fields@, key);
    }
    let p = lower_bound_exec(fields, key);
    if p < fields.len() && fields[p].0 == key {
        let (_, value) = fields.remove(p);
        Some(value)
    } else {
        None
    }
}

/// The source node of target field `key`, if mapped.
pub fn object_field_get(fields: &Vec<(SymbolId, SymbolId)>, key: SymbolId) -> (found: Option<SymbolId>)
    ensures
        found == mapped(fields@, key),
{
    let p = lower_bound_exec(fields, key);
    if p < fields.len() && fields[p].0 == key {
        Some(fields[p].1)
    } else {
        None
    }
}

/// Whether target field `key` is mapped.
pub fn object_field_contains(fields: &Vec<(SymbolId, SymbolId)>, key: SymbolId) -> (found: bool)
    requires
        sorted_keys(fields@),
    ensures
        found == has_key(fields@, key),
{
    proof {
        lemma_lower_bound(fields@, key);
    }
    object_field_get(fields, key).is_some()
}

} // verus!
