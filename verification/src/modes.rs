//! The supported-mode catalog: distinct `(width, height, refresh_rate)`
//! triples, presented sorted descending by width, then height, then refresh
//! rate.

use vstd::prelude::*;

use crate::device::DisplayDevice;

verus! {

/// One display mode. Equality and set membership are by exact value triple.
#[derive(Clone, Copy, Debug, PartialEq, Eq, Structural)]
pub struct DisplayMode {
    pub width: u32,
    pub height: u32,
    pub refresh_rate: u32,
}

/// The catalog's tie-break order: `a` comes strictly before `b` when it is
/// larger by width, then height, then refresh rate.
pub open spec fn mode_precedes(a: DisplayMode, b: DisplayMode) -> bool {
    ||| a.width > b.width
    ||| (a.width == b.width && a.height > b.height)
    ||| (a.width == b.width && a.height == b.height && a.refresh_rate > b.refresh_rate)
}

/// Every pair of the sequence is strictly ordered by the tie-break, which also
/// rules out duplicates.
pub open spec fn strictly_descending(s: Seq<DisplayMode>) -> bool {
    forall|i: int, j: int| 0 <= i < j < s.len() ==> mode_precedes(s[i], s[j])
}

/// The tie-break order is a strict total order on modes.
pub proof fn lemma_mode_order_total(a: DisplayMode, b: DisplayMode)
    ensures
        a == b || mode_precedes(a, b) || mode_precedes(b, a),
        !(mode_precedes(a, b) && mode_precedes(b, a)),
        !(a == b && mode_precedes(a, b)),
{
}

/// The tie-break order is transitive.
pub proof fn lemma_mode_order_trans(a: DisplayMode, b: DisplayMode, c: DisplayMode)
    requires
        mode_precedes(a, b),
        mode_precedes(b, c),
    ensures
        mode_precedes(a, c),
{
}

fn mode_before(a: &DisplayMode, b: &DisplayMode) -> (r: bool)
    ensures
        r == mode_precedes(*a, *b),
{
    a.width > b.width
        || (a.width == b.width && a.height > b.height)
        || (a.width == b.width && a.height == b.height && a.refresh_rate > b.refresh_rate)
}

/// Inserting an element into a sequence adds exactly that element to its
/// membership.
proof fn lemma_insert_contains(s: Seq<DisplayMode>, j: int, m: DisplayMode)
    requires
        0 <= j <= s.len(),
    ensures
        forall|x: DisplayMode| #[trigger] s.insert(j, m).contains(x) <==> (s.contains(x) || x == m),
{
    assert forall|x: DisplayMode| #[trigger] s.insert(j, m).contains(x) implies (s.contains(x) || x
        == m) by {
        let k = choose|k: int| 0 <= k < s.insert(j, m).len() && s.insert(j, m)[k] == x;
        if k < j {
            assert(s[k] == x);
        } else if k == j {
            assert(x == m);
        } else {
            assert(s[k - 1] == x);
        }
    }
    assert forall|x: DisplayMode| (s.contains(x) || x == m) implies #[trigger] s.insert(
        j,
        m,
    ).contains(x) by {
        if x == m {
            assert(s.insert(j, m)[j] == x);
        } else {
            let k = choose|k: int| 0 <= k < s.len() && s[k] == x;
            if k < j {
                assert(s.insert(j, m)[k] == x);
            } else {
                assert(s.insert(j, m)[k + 1] == x);
            }
        }
    }
}

/// The first position of the sorted list whose element does not strictly
/// precede `m`: the place where `m` belongs.
fn insertion_point(modes: &Vec<DisplayMode>, m: &DisplayMode) -> (j: usize)
    requires
        strictly_descending(modes@),
    ensures
        j <= modes@.len(),
        forall|k: int| 0 <= k < j ==> mode_precedes(modes@[k], *m),
        j < modes@.len() ==> !mode_precedes(modes@[j as int], *m),
{
    let mut j: usize = 0;
    while j < modes.len()
        invariant
            j <= modes@.len(),
            forall|k: int| 0 <= k < j ==> mode_precedes(modes@[k], *m),
        decreases modes@.len() - j,
    {
        if !mode_before(&modes[j], m) {
            return j;
        }
        j = j + 1;
    }
    j
}

/// Adds `m` to a strictly descending list, keeping it strictly descending:
/// an exact duplicate is dropped, anything else lands at its ordered place.
fn insert_mode(modes: &mut Vec<DisplayMode>, m: DisplayMode)
    requires
        strictly_descending(old(modes)@),
    ensures
        strictly_descending(final(modes)@),
        forall|x: DisplayMode| #[trigger]
            final(modes)@.contains(x) <==> (old(modes)@.contains(x) || x == m),
{
    let j = insertion_point(modes, &m);
    if j < modes.len() && modes[j] == m {
        proof {
            assert(modes@[j as int] == m);
            assert(modes@.contains(m));
        }
        return ;
    }
    let ghost before = modes@;
    modes.insert(j, m);
    proof {
        lemma_insert_contains(before, j as int, m);
        if j < before.len() {
            lemma_mode_order_total(before[j as int], m);
        }
        assert forall|p: int, q: int|
            0 <= p < q < modes@.len() implies mode_precedes(modes@[p], modes@[q]) by {
            if q < j {
                assert(modes@[p] == before[p] && modes@[q] == before[q]);
            } else if p < j && q == j {
                assert(modes@[p] == before[p] && modes@[q] == m);
            } else if p < j && q > j {
                assert(modes@[p] == before[p] && modes@[q] == before[q - 1]);
            } else if p == j && q > j {
                assert(modes@[p] == m && modes@[q] == before[q - 1]);
                if q - 1 > j {
                    lemma_mode_order_trans(m, before[j as int], before[q - 1]);
                }
            } else {
                assert(modes@[p] == before[p - 1] && modes@[q] == before[q - 1]);
            }
        }
    }
}

impl DisplayDevice {
    /// The supported-mode catalog for this device, computed from the raw list
    /// of triples that the per-index enumeration of its legacy identifier
    /// reported: repeated triples collapse to one entry, and the result is
    /// sorted strictly descending by width, then height, then refresh rate.
    ///
    /// An empty raw list simply yields an empty catalog; callers treat that
    /// as "no change possible".
    pub fn get_supported_modes(&self, raw_modes: &Vec<DisplayMode>) -> (r: Vec<DisplayMode>)
        ensures
            strictly_descending(r@),
            forall|i: int, j: int| 0 <= i < j < r@.len() ==> r@[i] != r@[j],
            forall|m: DisplayMode| #[trigger] r@.contains(m) <==> raw_modes@.contains(m),
    {
        let mut result: Vec<DisplayMode> = Vec::new();
        let mut i: usize = 0;
        while i < raw_modes.len()
            invariant
                i <= raw_modes@.len(),
                strictly_descending(result@),
                forall|m: DisplayMode| #[trigger]
                    result@.contains(m) <==> raw_modes@.take(i as int).contains(m),
            decreases raw_modes@.len() - i,
        {
            let m = raw_modes[i];
            insert_mode(&mut result, m);
            proof {
                let t1 = raw_modes@.take(i as int + 1);
                let t0 = raw_modes@.take(i as int);
                assert(t1 =~= t0.push(m));
                assert forall|x: DisplayMode| #[trigger] t1.contains(x) implies (t0.contains(x) || x
                    == m) by {
                    let k = choose|k: int| 0 <= k < t1.len() && t1[k] == x;
                    if k < t0.len() {
                        assert(t0[k] == x);
                    }
                }
                assert forall|x: DisplayMode| (t0.contains(x) || x == m) implies #[trigger]
                t1.contains(x) by {
                    if x == m {
                        assert(t1[t0.len() as int] == x);
                    } else {
                        let k = choose|k: int| 0 <= k < t0.len() && t0[k] == x;
                        assert(t1[k] == x);
                    }
                }
            }
            i = i + 1;
        }
        proof {
            assert(raw_modes@.take(raw_modes@.len() as int) =~= raw_modes@);
            assert forall|i: int, j: int|
                0 <= i < j < result@.len() implies result@[i] != result@[j] by {
                lemma_mode_order_total(result@[i], result@[j]);
            }
        }
        result
    }
}

} // verus!
