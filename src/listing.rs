//! The aircraft list beside the radar: aircraft whose callsign contains a
//! search text, ignoring case, ordered by callsign.

use vstd::prelude::*;
use crate::text::{occurs_at, occurs_at_exec};
use crate::types::TrackedAircraft;

verus! {

/// What `str::to_lowercase` gives for a string.
pub uninterp spec fn lower_of(s: Seq<char>) -> Seq<char>;

/// Relies on `str::to_lowercase`: the lower-case form of a string, which
/// depends on its characters alone; an empty string stays empty.
#[verifier::external_body]
fn lowercase(s: &str) -> (r: String)
    ensures
        r@ == lower_of(s@),
        s@.len() == 0 ==> r@.len() == 0,
{
    s.to_lowercase()
}

/// Whether `needle` occurs somewhere in `hay`.
pub open spec fn contains(hay: Seq<char>, needle: Seq<char>) -> bool {
    exists|i: int| 0 <= i <= hay.len() && #[trigger] occurs_at(hay, i, needle)
}

/// Whether an entry whose folded callsign is `folded` is listed under the
/// folded search text `filter`: every entry when the search is empty.
pub open spec fn listed(folded: Seq<char>, filter: Seq<char>) -> bool {
    filter.len() == 0 || contains(folded, filter)
}

/// Strict lexicographic order of character sequences, by code point.
pub open spec fn seq_lt(a: Seq<char>, b: Seq<char>) -> bool
    decreases a.len(),
{
    if a.len() == 0 {
        b.len() > 0
    } else if b.len() == 0 {
        false
    } else if a[0] != b[0] {
        a[0] < b[0]
    } else {
        seq_lt(a.skip(1), b.skip(1))
    }
}

proof fn lemma_seq_lt_trans(a: Seq<char>, b: Seq<char>, c: Seq<char>)
    requires
        seq_lt(a, b),
        seq_lt(b, c),
    ensures
        seq_lt(a, c),
    decreases a.len(),
{
    if a.len() > 0 && b.len() > 0 && c.len() > 0 && a[0] == b[0] && b[0] == c[0] {
        lemma_seq_lt_trans(a.skip(1), b.skip(1), c.skip(1));
    }
}

proof fn lemma_seq_lt_irrefl(a: Seq<char>)
    ensures
        !seq_lt(a, a),
    decreases a.len(),
{
    if a.len() > 0 {
        lemma_seq_lt_irrefl(a.skip(1));
    }
}

fn seq_lt_exec(a: &str, b: &str) -> (r: bool)
    ensures
        r == seq_lt(a@, b@),
{
    let n: usize = a.unicode_len();
    let m: usize = b.unicode_len();
    let mut i: usize = 0;
    assert(a@.skip(0) =~= a@ && b@.skip(0) =~= b@);
    while i < n && i < m && a.get_char(i) == b.get_char(i)
        invariant
            n == a@.len(),
            m == b@.len(),
            i <= n && i <= m,
            seq_lt(a@, b@) == seq_lt(a@.skip(i as int), b@.skip(i as int)),
        decreases n - i,
    {
        assert(a@.skip(i as int).skip(1) =~= a@.skip(i + 1));
        assert(b@.skip(i as int).skip(1) =~= b@.skip(i + 1));
        i = i + 1;
    }
    if i == n {
        i < m
    } else if i == m {
        false
    } else {
        a.get_char(i) < b.get_char(i)
    }
}

fn contains_exec(hay: &str, needle: &str) -> (r: bool)
    ensures
        r == contains(hay@, needle@),
{
    let n: usize = hay.unicode_len();
    let mut i: usize = 0;
    while i < n
        invariant
            n == hay@.len(),
            i <= n,
            forall|k: int| 0 <= k < i ==> !#[trigger] occurs_at(hay@, k, needle@),
        decreases n - i,
    {
        if occurs_at_exec(hay, n, i, needle) {
            return true;
        }
        i = i + 1;
    }
    occurs_at_exec(hay, n, n, needle)
}

/// Whether position `i` is among the entries `r`.
pub open spec fn has_entry(r: Seq<usize>, i: int) -> bool {
    exists|k: int| 0 <= k < r.len() && #[trigger] r[k] == i
}

/// Whether the entries `r` are in order of the callsigns `cs`.
pub open spec fn in_callsign_order(r: Seq<usize>, cs: Seq<String>) -> bool {
    forall|a: int, b: int|
        0 <= a < b < r.len() ==> !seq_lt(#[trigger] cs[r[b] as int]@, #[trigger] cs[r[a] as int]@)
}

/// The list for callsigns `callsigns`, whose folded forms are `folded`,
/// under the folded search text `folded_filter`: the positions of the
/// listed entries, each once, in order of callsign.
pub fn list_entries_folded(callsigns: &Vec<String>, folded: &Vec<String>, folded_filter: &str) -> (r: Vec<usize>)
    requires
        callsigns@.len() == folded@.len(),
    ensures
        forall|k: int| 0 <= k < r@.len() ==> #[trigger] r@[k] < callsigns@.len() && listed(folded@[r@[k] as int]@, folded_filter@),
        forall|i: int|
            0 <= i < callsigns@.len() && listed(#[trigger] folded@[i]@, folded_filter@) ==> exists|k: int| 0 <= k < r@.len() && #[trigger] r@[k] == i,
        forall|a: int, b: int| 0 <= a < b < r@.len() ==> r@[a] != r@[b],
        in_callsign_order(r@, callsigns@),
{
    let ghost cs = callsigns@;
    let ghost fs = folded@;
    let ghost flt = folded_filter@;
    let n: usize = callsigns.len();
    let filter_empty: bool = folded_filter.unicode_len() == 0;
    let mut r: Vec<usize> = Vec::new();
    let mut i: usize = 0;
    while i < n
        invariant
            n == cs.len(),
            cs == callsigns@,
            fs == folded@,
            fs.len() == cs.len(),
            flt == folded_filter@,
            filter_empty == (flt.len() == 0),
            i <= n,
            forall|k: int| 0 <= k < r@.len() ==> #[trigger] r@[k] < i && listed(fs[r@[k] as int]@, flt),
            forall|x: int| 0 <= x < i && listed(#[trigger] fs[x]@, flt) ==> exists|k: int| 0 <= k < r@.len() && #[trigger] r@[k] == x,
            forall|a: int, b: int| 0 <= a < b < r@.len() ==> r@[a] != r@[b],
            in_callsign_order(r@, cs),
        decreases n - i,
    {
        if filter_empty || contains_exec(folded[i].as_str(), folded_filter) {
            let mut j: usize = 0;
            while j < r.len() && !seq_lt_exec(callsigns[i].as_str(), callsigns[r[j]].as_str())
                invariant
                    n == cs.len(),
                    cs == callsigns@,
                    i < n,
                    j <= r@.len(),
                    forall|k: int| 0 <= k < r@.len() ==> #[trigger] r@[k] < i,
                    forall|a: int| 0 <= a < j ==> !seq_lt(cs[i as int]@, #[trigger] cs[r@[a] as int]@),
                decreases r@.len() - j,
            {
                j = j + 1;
            }
            let ghost old_r = r@;
            proof {
                assert(listed(fs[i as int]@, flt));
            }
            r.insert(j, i);
            proof {
                let x = cs[i as int]@;
                assert forall|a: int, b: int| 0 <= a < b < r@.len() implies !seq_lt(
                    #[trigger] cs[r@[b] as int]@,
                    #[trigger] cs[r@[a] as int]@,
                ) by {
                    if b == j {
                        assert(r@[a] == old_r[a]);
                    } else if a == j {
                        let y = cs[old_r[b - 1] as int]@;
                        assert(r@[b] == old_r[b - 1]);
                        let z = cs[old_r[j as int] as int]@;
                        assert(seq_lt(x, z));
                        if seq_lt(y, x) {
                            if b - 1 == j {
                                lemma_seq_lt_trans(y, x, y);
                                lemma_seq_lt_irrefl(y);
                            } else {
                                lemma_seq_lt_trans(y, x, z);
                            }
                        }
                    } else if a < j && b > j {
                        assert(r@[a] == old_r[a] && r@[b] == old_r[b - 1]);
                    } else if b < j {
                        assert(r@[a] == old_r[a] && r@[b] == old_r[b]);
                    } else {
                        assert(r@[a] == old_r[a - 1] && r@[b] == old_r[b - 1]);
                    }
                }
                assert forall|x2: int| 0 <= x2 < i + 1 && listed(#[trigger] fs[x2]@, flt) implies exists|k: int|
                    0 <= k < r@.len() && #[trigger] r@[k] == x2 by {
                    if x2 == i {
                        assert(r@[j as int] == i);
                    } else {
                        let k = choose|k: int| 0 <= k < old_r.len() && #[trigger] old_r[k] == x2;
                        if k < j {
                            assert(r@[k] == x2);
                        } else {
                            assert(r@[k + 1] == x2);
                        }
                    }
                }
                assert forall|k: int| 0 <= k < r@.len() implies #[trigger] r@[k] < i + 1 && listed(fs[r@[k] as int]@, flt) by {
                    if k < j {
                        assert(r@[k] == old_r[k]);
                    } else if k > j {
                        assert(r@[k] == old_r[k - 1]);
                    }
                }
                assert forall|a: int, b: int| 0 <= a < b < r@.len() implies r@[a] != r@[b] by {
                    if a == j {
                        assert(r@[b] == old_r[b - 1]);
                    } else if b == j {
                        assert(r@[a] == old_r[a]);
                    } else if a < j && b > j {
                        assert(r@[a] == old_r[a] && r@[b] == old_r[b - 1]);
                    } else if b < j {
                        assert(r@[a] == old_r[a] && r@[b] == old_r[b]);
                    } else {
                        assert(r@[a] == old_r[a - 1] && r@[b] == old_r[b - 1]);
                    }
                }
            }
        } else {
            proof {
                assert(!listed(fs[i as int]@, flt));
            }
        }
        i = i + 1;
    }
    r
}

/// The aircraft list under the search text `filter`: the positions in
/// `aircraft` of those whose callsign contains the search text, both
/// folded to lower case, each once and in order of callsign.
pub fn list_entries(aircraft: &Vec<TrackedAircraft>, filter: &str) -> (r: Vec<usize>)
    ensures
        forall|k: int|
            0 <= k < r@.len() ==> #[trigger] r@[k] < aircraft@.len() && listed(
                lower_of(aircraft@[r@[k] as int].callsign@),
                lower_of(filter@),
            ),
        forall|i: int|
            0 <= i < aircraft@.len() && listed(lower_of(#[trigger] aircraft@[i].callsign@), lower_of(filter@))
                ==> exists|k: int| 0 <= k < r@.len() && #[trigger] r@[k] == i,
        filter@.len() == 0 ==> forall|i: int| 0 <= i < aircraft@.len() ==> #[trigger] has_entry(r@, i),
        forall|a: int, b: int| 0 <= a < b < r@.len() ==> r@[a] != r@[b],
        forall|a: int, b: int|
            0 <= a < b < r@.len() ==> !seq_lt(
                #[trigger] aircraft@[r@[b] as int].callsign@,
                #[trigger] aircraft@[r@[a] as int].callsign@,
            ),
{
    let mut callsigns: Vec<String> = Vec::new();
    let mut folded: Vec<String> = Vec::new();
    let mut i: usize = 0;
    while i < aircraft.len()
        invariant
            i <= aircraft@.len(),
            callsigns@.len() == i,
            folded@.len() == i,
            forall|k: int| 0 <= k < i ==> #[trigger] callsigns@[k]@ == aircraft@[k].callsign@,
            forall|k: int| 0 <= k < i ==> #[trigger] folded@[k]@ == lower_of(aircraft@[k].callsign@),
        decreases aircraft@.len() - i,
    {
        callsigns.push(aircraft[i].callsign.clone());
        folded.push(lowercase(aircraft[i].callsign.as_str()));
        i = i + 1;
    }
    let folded_filter = lowercase(filter);
    let r = list_entries_folded(&callsigns, &folded, folded_filter.as_str());
    proof {
        assert forall|a: int, b: int|
            0 <= a < b < r@.len() implies !seq_lt(
                #[trigger] aircraft@[r@[b] as int].callsign@,
                #[trigger] aircraft@[r@[a] as int].callsign@,
            ) by {
            assert(callsigns@[r@[b] as int]@ == aircraft@[r@[b] as int].callsign@);
            assert(callsigns@[r@[a] as int]@ == aircraft@[r@[a] as int].callsign@);
        }
        assert forall|i: int|
            0 <= i < aircraft@.len() && listed(lower_of(#[trigger] aircraft@[i].callsign@), lower_of(filter@))
                implies exists|k: int| 0 <= k < r@.len() && #[trigger] r@[k] == i by {
            assert(folded@[i]@ == lower_of(aircraft@[i].callsign@));
        }
        assert forall|i: int| filter@.len() == 0 && 0 <= i < aircraft@.len() implies #[trigger] has_entry(r@, i) by {
            assert(lower_of(filter@).len() == 0);
            assert(listed(lower_of(aircraft@[i].callsign@), lower_of(filter@)));
        }
    }
    r
}

} // verus!
