//! Division of a collection into near-equal groups, as the concurrent
//! evaluation driver hands one group to each worker.

use vstd::prelude::*;

verus! {

/// The groups that dividing `s` into `div` parts yields.
///
/// With `base = s.len() / div` and `r = s.len() % div`: when `base == 0`
/// every item forms its own group; otherwise the result holds exactly `r`
/// groups, the `i`-th being the `i`-th consecutive chunk of `base` items
/// with the `i`-th of the last `r` items appended. In particular, when
/// `s.len()` is a positive exact multiple of `div`, `r == 0` and the
/// result is empty — every item is dropped. That surprising case is the
/// documented behaviour of this operation, kept deliberately; see the
/// conformance tests.
pub open spec fn spec_divide<T>(s: Seq<T>, div: int) -> Seq<Seq<T>>
    recommends
        div >= 1,
{
    if s.len() < div {
        Seq::new(s.len(), |i: int| seq![s[i]])
    } else {
        let base = s.len() as int / div;
        let r = s.len() as int % div;
        Seq::new(r as nat, |i: int| s.subrange(i * base, (i + 1) * base).push(s[div * base + i]))
    }
}

/// Division of a collection into near-equal groups.
pub trait AlmostEqualDivision<T>: Sized {
    /// Divides `self` into groups as [`spec_divide`] describes.
    fn divide_collection_by(self, div: usize) -> (groups: Vec<Vec<T>>) where Self: View<V = Seq<T>>
        requires
            div >= 1,
        ensures
            groups@.len() == spec_divide(self@, div as int).len(),
            forall|i: int|
                0 <= i < groups@.len() ==> #[trigger] groups@[i]@ == spec_divide(
                    self@,
                    div as int,
                )[i],
    ;
}

impl<T> AlmostEqualDivision<T> for Vec<T> {
    fn divide_collection_by(self, div: usize) -> (groups: Vec<Vec<T>>) {
        let ghost orig = self@;
        let len = self.len();
        let mut groups: Vec<Vec<T>> = Vec::new();
        if len < div {
            let mut rest = self;
            let mut i: usize = 0;
            while i < len
                invariant
                    len < div,
                    len == orig.len(),
                    0 <= i <= len,
                    rest@ == orig.subrange(i as int, len as int),
                    groups@.len() == i,
                    forall|k: int| 0 <= k < i ==> #[trigger] groups@[k]@ == seq![orig[k]],
                decreases len - i,
            {
                proof {
                    assert(rest@[0] == orig[i as int]);
                    assert(rest@.subrange(1, rest@.len() as int) =~= orig.subrange(
                        i + 1 as int,
                        len as int,
                    ));
                }
                let head = rest.remove(0);
                let mut g: Vec<T> = Vec::new();
                g.push(head);
                proof {
                    assert(g@ =~= seq![orig[i as int]]);
                }
                groups.push(g);
                i += 1;
            }
            groups
        } else {
            let base = len / div;
            let r = len % div;
            let mut rest = self;
            let mut tail = rest.split_off(len - r);
            proof {
                assert(div * base + r == len) by (nonlinear_arith)
                    requires
                        base == len as int / div as int && r == len as int % div as int && div >= 1,
                ;
            }
            let mut i: usize = 0;
            while i < r
                invariant
                    div >= 1,
                    len == orig.len(),
                    len >= div,
                    base == len as int / div as int,
                    r == len as int % div as int,
                    div * base + r == len,
                    base * div + r == len,
                    0 <= i <= r,
                    r < div,
                    rest@ == orig.subrange(i as int * base as int, (len - r) as int),
                    tail@ == orig.subrange((len - r + i) as int, len as int),
                    groups@.len() == i,
                    forall|k: int|
                        0 <= k < i ==> #[trigger] groups@[k]@ == orig.subrange(
                            k * base as int,
                            (k + 1) * base as int,
                        ).push(orig[div as int * base as int + k]),
                decreases r - i,
            {
                proof {
                    assert(i as int * base as int + base <= (len - r) as int) by (nonlinear_arith)
                        requires
                            base == len as int / div as int && r == len as int % div as int && div >= 1 && 0 <= i
                                < r && div * base + r == len,
                    ;
                }
                let next = rest.split_off(base);
                let mut g = rest;
                proof {
                    assert(g@ =~= orig.subrange(
                        i as int * base as int,
                        i as int * base as int + base as int,
                    ));
                    assert(i as int * base as int + base as int == (i + 1) * base as int)
                        by (nonlinear_arith);
                    assert(tail@[0] == orig[(len - r + i) as int]);
                    assert((len - r + i) as int == div as int * base as int + i as int);
                    assert(tail@.subrange(1, tail@.len() as int) =~= orig.subrange(
                        (len - r + i + 1) as int,
                        len as int,
                    ));
                }
                let elem = tail.remove(0);
                g.push(elem);
                proof {
                    assert(g@ =~= orig.subrange(i as int * base as int, (i + 1) * base as int).push(
                        orig[div as int * base as int + i as int],
                    ));
                    assert(next@ =~= orig.subrange((i + 1) as int * base as int, (len - r) as int));
                }
                groups.push(g);
                rest = next;
                i += 1;
            }
            groups
        }
    }
}

} // verus!
