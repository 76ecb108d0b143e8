//! The fields of a hash entry: a list of (field, value) pairs with distinct field
//! names, and its text form, a JSON object.
use std::collections::BTreeMap;
use vstd::prelude::*;

verus! {

/// The fields as a map; where a name occurs twice, the later pair wins.
pub open spec fn field_map(s: Seq<(String, String)>) -> Map<Seq<char>, Seq<char>>
    decreases s.len(),
{
    if s.len() == 0 {
        Map::empty()
    } else {
        field_map(s.drop_last()).insert(s.last().0@, s.last().1@)
    }
}

/// The map with each of `updates` set in turn; a later pair wins.
pub open spec fn fields_merged(m: Map<Seq<char>, Seq<char>>, updates: Seq<(String, String)>) -> Map<Seq<char>, Seq<char>>
    decreases updates.len(),
{
    if updates.len() == 0 {
        m
    } else {
        fields_merged(m, updates.drop_last()).insert(updates.last().0@, updates.last().1@)
    }
}

/// No field name occurs twice.
pub open spec fn distinct_fields(s: Seq<(String, String)>) -> bool {
    forall|i: int, j: int| 0 <= i < j < s.len() ==> (#[trigger] s[i]).0@ != (#[trigger] s[j]).0@
}


/// A name is in the map exactly when some pair carries it.
pub proof fn lemma_field_map_dom(s: Seq<(String, String)>, k: Seq<char>)
    ensures
        field_map(s).contains_key(k) <==> exists|i: int| 0 <= i < s.len() && (#[trigger] s[i]).0@ == k,
    decreases s.len(),
{
    if s.len() > 0 {
        lemma_field_map_dom(s.drop_last(), k);
        if field_map(s).contains_key(k) && s.last().0@ != k {
            let i = choose|i: int| 0 <= i < s.len() - 1 && (#[trigger] s.drop_last()[i]).0@ == k;
            assert(s[i] == s.drop_last()[i]);
        }
        if exists|i: int| 0 <= i < s.len() && (#[trigger] s[i]).0@ == k {
            let i = choose|i: int| 0 <= i < s.len() && (#[trigger] s[i]).0@ == k;
            if i < s.len() - 1 {
                assert(s.drop_last()[i] == s[i]);
            }
        }
    }
}

/// With distinct names, the map gives each pair's value for its name.
pub proof fn lemma_field_map_value(s: Seq<(String, String)>, i: int)
    requires
        distinct_fields(s),
        0 <= i < s.len(),
    ensures
        field_map(s).contains_key(s[i].0@),
        field_map(s)[s[i].0@] == s[i].1@,
    decreases s.len(),
{
    if i < s.len() - 1 {
        assert(s.drop_last()[i] == s[i]);
        assert(distinct_fields(s.drop_last())) by {
            assert forall|a: int, b: int| 0 <= a < b < s.drop_last().len() implies
                (#[trigger] s.drop_last()[a]).0@ != (#[trigger] s.drop_last()[b]).0@ by {
                assert(s.drop_last()[a] == s[a]);
                assert(s.drop_last()[b] == s[b]);
            }
        }
        lemma_field_map_value(s.drop_last(), i);
        assert(s[i].0@ != s[s.len() - 1].0@);
    }
}

/// Looks `field` up in the pairs; the index of the pair carrying it, if any.
pub fn fields_find(fields: &Vec<(String, String)>, field: &str) -> (r: Option<usize>)
    ensures
        match r {
            Some(i) => i < fields@.len() && fields@[i as int].0@ == field@,
            None => forall|j: int| 0 <= j < fields@.len() ==> (#[trigger] fields@[j]).0@ != field@,
        },
{
    let mut i: usize = 0;
    while i < fields.len()
        invariant
            i <= fields@.len(),
            forall|j: int| 0 <= j < i ==> (#[trigger] fields@[j]).0@ != field@,
        decreases fields@.len() - i,
    {
        if crate::text::str_eq(fields[i].0.as_str(), field) {
            return Some(i);
        }
        i = i + 1;
    }
    None
}

/// The value of `field`, if the pairs carry it.
pub fn fields_get(fields: &Vec<(String, String)>, field: &str) -> (r: Option<String>)
    requires
        distinct_fields(fields@),
    ensures
        match r {
            Some(v) => field_map(fields@).contains_key(field@) && field_map(fields@)[field@] == v@,
            None => !field_map(fields@).contains_key(field@),
        },
{
    proof {
        lemma_field_map_dom(fields@, field@);
    }
    match fields_find(fields, field) {
        Some(i) => {
            proof {
                lemma_field_map_value(fields@, i as int);
            }
            Some(fields[i].1.clone())
        },
        None => None,
    }
}

/// Sets `field` to `value`: a pair already carrying the name is replaced in place,
/// otherwise the pair is appended.
pub fn fields_insert(fields: &mut Vec<(String, String)>, field: String, value: String)
    requires
        distinct_fields(old(fields)@),
    ensures
        distinct_fields(final(fields)@),
        field_map(final(fields)@) == field_map(old(fields)@).insert(field@, value@),
{
    let ghost f = field@;
    let ghost v = value@;
    match fields_find(fields, field.as_str()) {
        Some(i) => {
            let ghost before = fields@;
            fields.set(i, (field, value));
            proof {
                let after = fields@;
                assert(distinct_fields(after)) by {
                    assert forall|a: int, b: int| 0 <= a < b < after.len() implies
                        (#[trigger] after[a]).0@ != (#[trigger] after[b]).0@ by {
                        if a != i && b != i {
                            assert(after[a] == before[a] && after[b] == before[b]);
                        }
                    }
                }
                assert forall|k: Seq<char>| #[trigger] field_map(after).contains_key(k)
                    <==> field_map(before).insert(f, v).contains_key(k) by {
                    assert(after[i as int].0@ == f);
                    lemma_field_map_dom(after, k);
                    lemma_field_map_dom(before, k);
                    if field_map(before).contains_key(k) && k != f {
                        let j = choose|j: int| 0 <= j < before.len() && (#[trigger] before[j]).0@ == k;
                        assert(after[j] == before[j]);
                    }
                    if field_map(after).contains_key(k) && k != f {
                        let j = choose|j: int| 0 <= j < after.len() && (#[trigger] after[j]).0@ == k;
                        assert(after[j] == before[j]);
                    }
                }
                assert forall|k: Seq<char>| #[trigger] field_map(after).contains_key(k) implies
                    field_map(after)[k] == field_map(before).insert(f, v)[k] by {
                    lemma_field_map_dom(after, k);
                    let j = choose|j: int| 0 <= j < after.len() && (#[trigger] after[j]).0@ == k;
                    lemma_field_map_value(after, j);
                    if j != i {
                        assert(after[j] == before[j]);
                        lemma_field_map_value(before, j);
                    }
                }
                assert(field_map(after) =~= field_map(before).insert(f, v));
            }
        },
        None => {
            let ghost before = fields@;
            fields.push((field, value));
            proof {
                let after = fields@;
                assert(after.drop_last() =~= before);
                assert(distinct_fields(after)) by {
                    assert forall|a: int, b: int| 0 <= a < b < after.len() implies
                        (#[trigger] after[a]).0@ != (#[trigger] after[b]).0@ by {
                        assert(after[a] == before[a]);
                    }
                }
            }
        },
    }
}

/// Removes `field`, if the pairs carry it; whether they did.
pub fn fields_remove(fields: &mut Vec<(String, String)>, field: &str) -> (r: bool)
    requires
        distinct_fields(old(fields)@),
    ensures
        distinct_fields(final(fields)@),
        field_map(final(fields)@) == field_map(old(fields)@).remove(field@),
        r == field_map(old(fields)@).contains_key(field@),
{
    proof {
        lemma_field_map_dom(fields@, field@);
    }
    match fields_find(fields, field) {
        Some(i) => {
            let ghost before = fields@;
            let _removed = fields.remove(i);
            proof {
                let after = fields@;
                assert(after =~= before.subrange(0, i as int) + before.subrange(i + 1, before.len() as int));
                assert forall|a: int| 0 <= a < after.len() implies #[trigger] after[a] == if a < i {
                    before[a]
                } else {
                    before[a + 1]
                } by {}
                assert(distinct_fields(after)) by {
                    assert forall|a: int, b: int| 0 <= a < b < after.len() implies
                        (#[trigger] after[a]).0@ != (#[trigger] after[b]).0@ by {
                        let a2 = if a < i { a } else { a + 1 };
                        let b2 = if b < i { b } else { b + 1 };
                        assert(after[a] == before[a2] && after[b] == before[b2]);
                    }
                }
                let f = field@;
                assert forall|k: Seq<char>| #[trigger] field_map(after).contains_key(k)
                    <==> field_map(before).remove(f).contains_key(k) by {
                    lemma_field_map_dom(after, k);
                    lemma_field_map_dom(before, k);
                    if field_map(before).contains_key(k) && k != f {
                        let j = choose|j: int| 0 <= j < before.len() && (#[trigger] before[j]).0@ == k;
                        assert(j != i);
                        let j2 = if j < i { j } else { j - 1 };
                        assert(after[j2] == before[j]);
                    }
                    if field_map(after).contains_key(k) {
                        let j = choose|j: int| 0 <= j < after.len() && (#[trigger] after[j]).0@ == k;
                        let j2 = if j < i { j } else { j + 1 };
                        assert(after[j] == before[j2]);
                        assert(j2 != i);
                    }
                }
                assert forall|k: Seq<char>| #[trigger] field_map(after).contains_key(k) implies
                    field_map(after)[k] == field_map(before).remove(f)[k] by {
                    lemma_field_map_dom(after, k);
                    let j = choose|j: int| 0 <= j < after.len() && (#[trigger] after[j]).0@ == k;
                    let j2 = if j < i { j } else { j + 1 };
                    assert(after[j] == before[j2]);
                    lemma_field_map_value(after, j);
                    lemma_field_map_value(before, j2);
                    assert(j2 != i);
                }
                assert(field_map(after) =~= field_map(before).remove(f));
            }
            true
        },
        None => {
            proof {
                assert(field_map(fields@).remove(field@) =~= field_map(fields@));
            }
            false
        },
    }
}

/// The field names, in order.
pub fn fields_names(fields: &Vec<(String, String)>) -> (r: Vec<String>)
    ensures
        r@.len() == fields@.len(),
        forall|i: int| 0 <= i < r@.len() ==> #[trigger] r@[i]@ == fields@[i].0@,
{
    let mut names: Vec<String> = Vec::new();
    let mut i: usize = 0;
    while i < fields.len()
        invariant
            i <= fields@.len(),
            names@.len() == i,
            forall|j: int| 0 <= j < i ==> #[trigger] names@[j]@ == fields@[j].0@,
        decreases fields@.len() - i,
    {
        names.push(fields[i].0.clone());
        i = i + 1;
    }
    names
}

/// Sets each of `updates` in turn, so a later pair wins over an earlier one.
pub fn fields_insert_all(fields: &mut Vec<(String, String)>, updates: &Vec<(String, String)>)
    requires
        distinct_fields(old(fields)@),
    ensures
        distinct_fields(final(fields)@),
        field_map(final(fields)@) == fields_merged(field_map(old(fields)@), updates@),
{
    let ghost start = field_map(fields@);
    let mut i: usize = 0;
    while i < updates.len()
        invariant
            i <= updates@.len(),
            distinct_fields(fields@),
            field_map(fields@) == fields_merged(start, updates@.take(i as int)),
        decreases updates@.len() - i,
    {
        let f = updates[i].0.clone();
        let v = updates[i].1.clone();
        fields_insert(fields, f, v);
        proof {
            let next = updates@.take(i + 1);
            assert(next.drop_last() =~= updates@.take(i as int));
            assert(next.last() == updates@[i as int]);
        }
        i = i + 1;
    }
    proof {
        assert(updates@.take(updates@.len() as int) =~= updates@);
    }
}

/// What `serde_json::from_str` makes of a text as a map of string fields, if the
/// text is a JSON object whose values are all strings.
pub uninterp spec fn json_fields_decoded(text: Seq<char>) -> Option<Map<Seq<char>, Seq<char>>>;

/// What `serde_json::to_string` writes for a map of string fields.
pub uninterp spec fn json_fields_encoded(fields: Map<Seq<char>, Seq<char>>) -> Seq<char>;

/// `serde_json::from_str` of the text as a map of strings (a `BTreeMap`), turned
/// into pairs. The pairs carry distinct names, as the map's keys are distinct;
/// `None` when the text is not such a JSON object.
#[verifier::external_body]
pub(crate) fn json_decode_fields(text: &str) -> (r: Option<Vec<(String, String)>>)
    ensures
        r matches Some(v) ==> distinct_fields(v@) && json_fields_decoded(text@) == Some(field_map(v@)),
        r is None <==> json_fields_decoded(text@) is None,
{
    serde_json::from_str::<BTreeMap<String, String>>(text).ok().map(|m| m.into_iter().collect())
}

/// `serde_json::to_string` of the pairs as a map (a `BTreeMap`). The text reads
/// back, through `serde_json::from_str`, as the same map.
#[verifier::external_body]
pub(crate) fn json_encode_fields(fields: &Vec<(String, String)>) -> (r: String)
    requires
        distinct_fields(fields@),
    ensures
        r@ == json_fields_encoded(field_map(fields@)),
        json_fields_decoded(r@) == Some(field_map(fields@)),
{
    let map: BTreeMap<&str, &str> = fields.iter().map(|(k, v)| (k.as_str(), v.as_str())).collect();
    serde_json::to_string(&map).unwrap_or_default()
}

/// The fields a stored text holds: the decoded map, or no field at all when the
/// text does not decode.
pub open spec fn decoded_or_empty(text: Seq<char>) -> Map<Seq<char>, Seq<char>> {
    match json_fields_decoded(text) {
        Some(m) => m,
        None => Map::empty(),
    }
}

/// The fields of a stored text, or none when it does not decode.
pub fn decode_or_empty(text: &str) -> (r: Vec<(String, String)>)
    ensures
        distinct_fields(r@),
        field_map(r@) == decoded_or_empty(text@),
{
    match json_decode_fields(text) {
        Some(v) => v,
        None => Vec::new(),
    }
}

} // verus!
