use vstd::prelude::*;
use crate::git_clone::{first_sep, lemma_first_sep_bounds, find_first_sep};
use crate::text::str_chars;

verus! {

// ---------------------------------------------------------------------------
// Path containment on canonical path strings. Resolving symlinks and
// relative steps is filesystem work and happens before these functions are
// reached; here a path is contained in a base when both are equally
// absolute and the base's components are a prefix of the path's.
// ---------------------------------------------------------------------------

/// Whether a path string is absolute.
pub open spec fn is_abs(s: Seq<char>) -> bool {
    s.len() > 0 && s[0] == '/'
}

/// End of the path component starting at `i`: the next separator, or the
/// end of the string.
pub open spec fn seg_end(s: Seq<char>, i: int) -> int {
    let f = first_sep(s, i, s.len() as int);
    if f >= 0 {
        f
    } else {
        s.len() as int
    }
}

/// The components of a path from position `i` on: the maximal separator-free
/// non-empty segments, in order.
pub open spec fn components_from(s: Seq<char>, i: int) -> Seq<Seq<char>>
    decreases s.len() - i when 0 <= i <= s.len() via components_from_decreases
{
    if i >= s.len() {
        Seq::empty()
    } else if s[i] == '/' {
        components_from(s, i + 1)
    } else {
        seq![s.subrange(i, seg_end(s, i))] + components_from(s, seg_end(s, i))
    }
}

#[via_fn]
proof fn components_from_decreases(s: Seq<char>, i: int) {
    if 0 <= i < s.len() && s[i] != '/' {
        lemma_first_sep_bounds(s, i, s.len() as int);
    }
}

/// The components of a path string.
pub open spec fn path_components(s: Seq<char>) -> Seq<Seq<char>> {
    components_from(s, 0)
}

/// Path containment: equally absolute, and the base's components are a
/// prefix of the child's.
pub open spec fn subpath_of_spec(child: Seq<char>, base: Seq<char>) -> bool {
    &&& is_abs(child) == is_abs(base)
    &&& path_components(base).len() <= path_components(child).len()
    &&& forall|k: int|
        0 <= k < path_components(base).len() ==> path_components(base)[k] == path_components(
            child,
        )[k]
}

/// Containment of one path in another, both already canonical.
pub trait SubPath {
    /// What containment means for this representation.
    spec fn subpath_spec(&self, base: &Self) -> bool;

    /// Whether self lies at or below base.
    fn is_subpath_of(&self, base: &Self) -> (r: bool)
        ensures
            r == self.subpath_spec(base),
    ;
}

/// The segment windows [start, end) of a path's components, in order.
fn segments(v: &Vec<char>) -> (segs: Vec<(usize, usize)>)
    ensures
        segs@.len() == path_components(v@).len(),
        forall|k: int|
            0 <= k < segs@.len() ==> {
                &&& #[trigger] segs@[k].0 < segs@[k].1 <= v@.len()
                &&& v@.subrange(segs@[k].0 as int, segs@[k].1 as int) == path_components(v@)[k]
            },
{
    let n = v.len();
    let mut segs: Vec<(usize, usize)> = Vec::new();
    let mut i: usize = 0;
    while i < n
        invariant
            i <= n,
            n == v@.len(),
            path_components(v@) =~= Seq::new(
                segs@.len(),
                |k: int| v@.subrange(segs@[k].0 as int, segs@[k].1 as int),
            ) + components_from(v@, i as int),
            forall|k: int|
                0 <= k < segs@.len() ==> #[trigger] segs@[k].0 < segs@[k].1 <= v@.len(),
        decreases n - i,
    {
        if v[i] == '/' {
            i = i + 1;
        } else {
            let j = match find_first_sep(v, i, n) {
                Some(f) => f,
                None => n,
            };
            proof {
                assert(j == seg_end(v@, i as int));
            }
            let ghost prev = segs@;
            segs.push((i, j));
            proof {
                assert(Seq::new(
                    segs@.len(),
                    |k: int| v@.subrange(segs@[k].0 as int, segs@[k].1 as int),
                ) =~= Seq::new(
                    prev.len(),
                    |k: int| v@.subrange(prev[k].0 as int, prev[k].1 as int),
                ) + seq![v@.subrange(i as int, j as int)]);
            }
            i = j;
        }
    }
    proof {
        assert(path_components(v@) =~= Seq::new(
            segs@.len(),
            |k: int| v@.subrange(segs@[k].0 as int, segs@[k].1 as int),
        ));
        assert forall|k: int| 0 <= k < segs@.len() implies v@.subrange(
            segs@[k].0 as int,
            segs@[k].1 as int,
        ) == path_components(v@)[k] by {
        }
    }
    segs
}

/// Whether two segment windows hold the same characters.
fn seg_eq(a: &Vec<char>, alo: usize, ahi: usize, b: &Vec<char>, blo: usize, bhi: usize) -> (r:
    bool)
    requires
        alo <= ahi <= a@.len(),
        blo <= bhi <= b@.len(),
    ensures
        r == (a@.subrange(alo as int, ahi as int) == b@.subrange(blo as int, bhi as int)),
{
    if ahi - alo != bhi - blo {
        proof {
            assert(a@.subrange(alo as int, ahi as int).len() != b@.subrange(
                blo as int,
                bhi as int,
            ).len());
        }
        return false;
    }
    let len = ahi - alo;
    let mut i: usize = 0;
    while i < len
        invariant
            i <= len,
            alo + len == ahi <= a@.len(),
            blo + len == bhi <= b@.len(),
            forall|j: int| 0 <= j < i ==> #[trigger] a@[alo + j] == b@[blo + j],
        decreases len - i,
    {
        if a[alo + i] != b[blo + i] {
            proof {
                assert(a@.subrange(alo as int, ahi as int)[i as int] != b@.subrange(
                    blo as int,
                    bhi as int,
                )[i as int]);
            }
            return false;
        }
        i = i + 1;
    }
    proof {
        assert forall|j: int|
            0 <= j < len implies a@.subrange(alo as int, ahi as int)[j] == b@.subrange(
            blo as int,
            bhi as int,
        )[j] by {
            assert(a@[alo + j] == b@[blo + j]);
        }
        assert(a@.subrange(alo as int, ahi as int) =~= b@.subrange(blo as int, bhi as int));
    }
    true
}

impl SubPath for String {
    open spec fn subpath_spec(&self, base: &String) -> bool {
        subpath_of_spec(self@, base@)
    }

    fn is_subpath_of(&self, base: &String) -> (r: bool)
        ensures
            r == subpath_of_spec(self@, base@),
    {
        let vc = str_chars(self.as_str());
        let vb = str_chars(base.as_str());
        let abs_c = vc.len() > 0 && vc[0] == '/';
        let abs_b = vb.len() > 0 && vb[0] == '/';
        if abs_c != abs_b {
            return false;
        }
        let sc = segments(&vc);
        let sb = segments(&vb);
        if sb.len() > sc.len() {
            return false;
        }
        let mut k: usize = 0;
        while k < sb.len()
            invariant
                k <= sb@.len() <= sc@.len(),
                vb@ == base@,
                vc@ == self@,
                sb@.len() == path_components(base@).len(),
                sc@.len() == path_components(self@).len(),
                is_abs(self@) == is_abs(base@),
                forall|m: int|
                    0 <= m < sb@.len() ==> {
                        &&& #[trigger] sb@[m].0 < sb@[m].1 <= vb@.len()
                        &&& vb@.subrange(sb@[m].0 as int, sb@[m].1 as int) == path_components(
                            base@,
                        )[m]
                    },
                forall|m: int|
                    0 <= m < sc@.len() ==> {
                        &&& #[trigger] sc@[m].0 < sc@[m].1 <= vc@.len()
                        &&& vc@.subrange(sc@[m].0 as int, sc@[m].1 as int) == path_components(
                            self@,
                        )[m]
                    },
                forall|m: int|
                    0 <= m < k ==> path_components(base@)[m] == #[trigger] path_components(
                        self@,
                    )[m],
            decreases sb@.len() - k,
        {
            let (blo, bhi) = sb[k];
            let (clo, chi) = sc[k];
            if !seg_eq(&vb, blo, bhi, &vc, clo, chi) {
                proof {
                    assert(path_components(base@)[k as int] != path_components(self@)[k as int]);
                }
                return false;
            }
            k = k + 1;
        }
        true
    }
}

} // verus!
