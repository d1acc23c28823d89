//! Accumulator and string utilities with no annotation-language logic.
//!
//! The accumulator is an insertion-ordered association list from [`GroupKey`]
//! to a list of items; it stands where a map of lists would, keeping both the
//! key order it was seeded with and the insertion order of every list.

use vstd::prelude::*;
use vstd::string::StrSliceExecFns;
use crate::model::{strs_view, GroupKey};

verus! {

/// The index of the first accumulator entry at or after `i` whose key is `k`.
pub open spec fn first_entry_from<T>(s: Seq<(GroupKey, Vec<T>)>, k: GroupKey, i: int) -> Option<
    int,
>
    decreases s.len() - i,
{
    if i < 0 || i >= s.len() {
        None
    } else if s[i].0 == k {
        Some(i)
    } else {
        first_entry_from(s, k, i + 1)
    }
}

/// The index of the first accumulator entry whose key is `k`.
pub open spec fn first_entry<T>(s: Seq<(GroupKey, Vec<T>)>, k: GroupKey) -> Option<int> {
    first_entry_from(s, k, 0)
}

/// The trait list held under `k`, or the empty sequence when `k` has no entry.
pub open spec fn lookup_traits(s: Seq<(GroupKey, Vec<String>)>, k: GroupKey) -> Seq<Seq<char>> {
    match first_entry(s, k) {
        Some(j) => strs_view(s[j].1@),
        None => Seq::empty(),
    }
}

/// Character-wise string equality, phrased over the views.
pub fn str_eq(a: &str, b: &str) -> (r: bool)
    ensures
        r == (a@ == b@),
{
    let a_len = a.unicode_len();
    let b_len = b.unicode_len();
    if a_len != b_len {
        return false;
    }
    let mut i: usize = 0;
    while i < a_len
        invariant
            a_len == a@.len(),
            b_len == b@.len(),
            a_len == b_len,
            i <= a_len,
            forall|j: int| 0 <= j < i ==> a@[j] == b@[j],
        decreases a_len - i,
    {
        if a.get_char(i) != b.get_char(i) {
            return false;
        }
        i = i + 1;
    }
    proof {
        assert(a@ =~= b@);
    }
    true
}

/// Returns an accumulator seeded with the given keys, each bound to a freshly
/// allocated empty list, in key order.
pub fn generate_acc<T>(keys: &Vec<GroupKey>) -> (acc: Vec<(GroupKey, Vec<T>)>)
    ensures
        acc@.len() == keys@.len(),
        forall|i: int|
            0 <= i < keys@.len() ==> (#[trigger] acc@[i]).0 == keys@[i] && acc@[i].1@ == Seq::<
                T,
            >::empty(),
{
    let mut acc: Vec<(GroupKey, Vec<T>)> = Vec::new();
    let mut i: usize = 0;
    while i < keys.len()
        invariant
            i <= keys@.len(),
            acc@.len() == i,
            forall|j: int|
                0 <= j < i ==> (#[trigger] acc@[j]).0 == keys@[j] && acc@[j].1@ == Seq::<
                    T,
                >::empty(),
        decreases keys@.len() - i,
    {
        let empty: Vec<T> = Vec::new();
        acc.push((keys[i], empty));
        i = i + 1;
    }
    acc
}

/// Returns the list bound to the first entry with key `key`, if any.
pub fn acc_get<'a, T>(acc: &'a Vec<(GroupKey, Vec<T>)>, key: GroupKey) -> (r: Option<&'a Vec<T>>)
    ensures
        match r {
            Some(v) => first_entry(acc@, key) matches Some(j) && v@ == acc@[j].1@,
            None => first_entry(acc@, key) is None,
        },
{
    let mut i: usize = 0;
    while i < acc.len()
        invariant
            i <= acc@.len(),
            first_entry(acc@, key) == first_entry_from(acc@, key, i as int),
        decreases acc@.len() - i,
    {
        if acc[i].0 == key {
            return Some(&acc[i].1);
        }
        i = i + 1;
    }
    None
}

/// Appends a cloned copy of every string in `src` to `dst`, in order.
pub fn append_cloned(dst: &mut Vec<String>, src: &Vec<String>)
    ensures
        strs_view(final(dst)@) == strs_view(old(dst)@) + strs_view(src@),
{
    let mut i: usize = 0;
    while i < src.len()
        invariant
            i <= src@.len(),
            strs_view(dst@) == strs_view(old(dst)@) + strs_view(src@.take(i as int)),
        decreases src@.len() - i,
    {
        dst.push(src[i].clone());
        proof {
            assert(src@.take(i + 1 as int) =~= src@.take(i as int).push(src@[i as int]));
            assert(strs_view(src@.take(i as int)).push(src@[i as int]@) =~= strs_view(
                src@.take(i + 1 as int),
            ));
            assert(strs_view(old(dst)@) + strs_view(src@.take(i as int)).push(src@[i as int]@)
                =~= strs_view(old(dst)@) + strs_view(src@.take(i + 1 as int)));
            assert(strs_view(dst@) =~= (strs_view(old(dst)@) + strs_view(
                src@.take(i as int),
            )).push(src@[i as int]@));
        }
        i = i + 1;
    }
    proof {
        assert(src@.take(src@.len() as int) =~= src@);
    }
}

/// Merges the list under `key2` after the list under `key1` into a fresh
/// vector; a missing key contributes the empty list.  Order is preserved and
/// nothing is deduplicated.
pub fn merge_vals_to_vec(acc: &Vec<(GroupKey, Vec<String>)>, key1: GroupKey, key2: GroupKey) -> (r:
    Vec<String>)
    ensures
        strs_view(r@) == lookup_traits(acc@, key1) + lookup_traits(acc@, key2),
{
    let mut r: Vec<String> = Vec::new();
    match acc_get(acc, key1) {
        Some(v) => append_cloned(&mut r, v),
        None => (),
    }
    match acc_get(acc, key2) {
        Some(v) => append_cloned(&mut r, v),
        None => (),
    }
    proof {
        assert(strs_view(r@) =~= lookup_traits(acc@, key1) + lookup_traits(acc@, key2));
    }
    r
}

/// Unpacks the three per-variant derive lists from the accumulator: for each
/// variant, the `All` traits followed by that variant's own traits.
pub fn unpack_derives(acc: &Vec<(GroupKey, Vec<String>)>) -> (r: (
    Vec<String>,
    Vec<String>,
    Vec<String>,
))
    ensures
        strs_view(r.0@) == lookup_traits(acc@, GroupKey::All) + lookup_traits(
            acc@,
            GroupKey::Scheme,
        ),
        strs_view(r.1@) == lookup_traits(acc@, GroupKey::All) + lookup_traits(acc@, GroupKey::Dto),
        strs_view(r.2@) == lookup_traits(acc@, GroupKey::All) + lookup_traits(
            acc@,
            GroupKey::Entity,
        ),
{
    (
        merge_vals_to_vec(acc, GroupKey::All, GroupKey::Scheme),
        merge_vals_to_vec(acc, GroupKey::All, GroupKey::Dto),
        merge_vals_to_vec(acc, GroupKey::All, GroupKey::Entity),
    )
}

} // verus!
