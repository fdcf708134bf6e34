//! A table of named string values, kept in order, looked up by name.
use vstd::prelude::*;

use crate::text::{chars_equal, chars_of};

verus! {

/// Name and value of each entry, as characters.
pub open spec fn table_view(t: Seq<(String, String)>) -> Seq<(Seq<char>, Seq<char>)> {
    t.map_values(|e: (String, String)| (e.0@, e.1@))
}

/// `i` is the first entry named `k`.
pub open spec fn key_at<V>(t: Seq<(Seq<char>, V)>, k: Seq<char>, i: int) -> bool {
    &&& 0 <= i < t.len()
    &&& t[i].0 == k
    &&& forall|j: int| 0 <= j < i ==> t[j].0 != k
}

/// The position of the first entry named `k`, or -1 when there is none.
pub open spec fn key_index<V>(t: Seq<(Seq<char>, V)>, k: Seq<char>) -> int {
    if exists|i: int| key_at(t, k, i) {
        choose|i: int| key_at(t, k, i)
    } else {
        -1
    }
}

/// The value of the first entry named `k`.
pub open spec fn lookup(t: Seq<(Seq<char>, Seq<char>)>, k: Seq<char>) -> Option<Seq<char>> {
    let i = key_index(t, k);
    if 0 <= i < t.len() {
        Some(t[i].1)
    } else {
        None
    }
}

/// Two tables with the same names in the same order.
pub open spec fn same_keys(a: Seq<(Seq<char>, Seq<char>)>, b: Seq<(Seq<char>, Seq<char>)>) -> bool {
    a.len() == b.len() && forall|i: int| 0 <= i < a.len() ==> #[trigger] a[i].0 == b[i].0
}

proof fn lemma_first_key_exists<V>(t: Seq<(Seq<char>, V)>, k: Seq<char>, j: int)
    requires
        0 <= j < t.len(),
        t[j].0 == k,
    ensures
        exists|i: int| key_at(t, k, i),
    decreases j,
{
    if exists|q: int| 0 <= q < j && t[q].0 == k {
        let q = choose|q: int| 0 <= q < j && t[q].0 == k;
        lemma_first_key_exists(t, k, q);
    } else {
        assert(key_at(t, k, j));
    }
}

pub proof fn lemma_key_index<V>(t: Seq<(Seq<char>, V)>, k: Seq<char>)
    ensures
        key_index(t, k) == -1 || key_at(t, k, key_index(t, k)),
        key_index(t, k) == -1 <==> forall|j: int| 0 <= j < t.len() ==> t[j].0 != k,
        forall|i: int| key_at(t, k, i) ==> key_index(t, k) == i,
        key_index(t, k) >= 0 <==> exists|j: int| 0 <= j < t.len() && t[j].0 == k,
{
    if exists|i: int| key_at(t, k, i) {
        let m = choose|i: int| key_at(t, k, i);
        assert forall|i: int| key_at(t, k, i) implies i == m by {
            if i < m {
                assert(t[i].0 != k);
            } else if i > m {
                assert(t[m].0 != k);
            }
        }
    } else {
        assert forall|j: int| 0 <= j < t.len() implies t[j].0 != k by {
            if t[j].0 == k {
                lemma_first_key_exists(t, k, j);
            }
        }
    }
}

/// Tables with the same names find a name at the same position.
pub proof fn lemma_same_keys_index(
    a: Seq<(Seq<char>, Seq<char>)>,
    b: Seq<(Seq<char>, Seq<char>)>,
    k: Seq<char>,
)
    requires
        same_keys(a, b),
    ensures
        key_index(a, k) == key_index(b, k),
{
    lemma_key_index(a, k);
    lemma_key_index(b, k);
    assert forall|i: int| key_at(a, k, i) <==> key_at(b, k, i) by {
        if 0 <= i < a.len() {
            assert(a[i].0 == b[i].0);
            assert(forall|j: int| 0 <= j < i ==> a[j].0 == b[j].0);
        }
    }
    if key_index(a, k) != -1 {
        assert(key_at(b, k, key_index(a, k)));
    } else if key_index(b, k) != -1 {
        assert(key_at(a, k, key_index(b, k)));
    }
}

/// Position of the first entry named `k`.
pub fn find_key(t: &Vec<(String, String)>, k: &[char]) -> (r: Option<usize>)
    ensures
        match r {
            Some(i) => key_index(table_view(t@), k@) == i && i < t@.len(),
            None => key_index(table_view(t@), k@) == -1,
        },
{
    let ghost tv = table_view(t@);
    proof {
        lemma_key_index(tv, k@);
    }
    let mut i: usize = 0;
    while i < t.len()
        invariant
            i <= t@.len(),
            tv == table_view(t@),
            forall|j: int| 0 <= j < i ==> tv[j].0 != k@,
        decreases t@.len() - i,
    {
        let name = chars_of(t[i].0.as_str());
        if chars_equal(&name, k) {
            assert(key_at(tv, k@, i as int));
            return Some(i);
        }
        i = i + 1;
    }
    None
}

} // verus!
