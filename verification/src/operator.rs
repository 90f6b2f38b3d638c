//! Boolean connectives, and the standalone set-style combination of two
//! path lists that predates the expression evaluator.

use vstd::prelude::*;

use crate::playlist::contains_str;

verus! {

/// A boolean connective between two clauses.
#[derive(Debug, PartialEq, Eq, Structural, Clone, Copy)]
pub enum OperatorType {
    OR,
    AND,
}

/// Combines two path lists with one connective.
pub struct Operator {
    pub operator_type: OperatorType,
}

impl Operator {
    /// `OR` concatenates the two lists; `AND` keeps the entries of the
    /// first list that also occur in the second, in first-list order.
    pub fn filter(&self, first: &Vec<String>, second: &Vec<String>) -> (r: Vec<String>)
        ensures
            self.operator_type is OR ==> r@ == first@ + second@,
            self.operator_type is AND ==> r@ == first@.filter(
                |s: String| contains_str(second@, s@),
            ),
    {
        let mut filter: Vec<String> = Vec::new();
        if self.operator_type == OperatorType::OR {
            let mut i: usize = 0;
            while i < first.len()
                invariant
                    0 <= i <= first@.len(),
                    filter@ == first@.subrange(0, i as int),
                decreases first@.len() - i,
            {
                filter.push(first[i].clone());
                proof {
                    assert(filter@ =~= first@.subrange(0, i + 1 as int));
                }
                i += 1;
            }
            proof {
                assert(filter@ =~= first@);
            }
            let mut j: usize = 0;
            while j < second.len()
                invariant
                    0 <= j <= second@.len(),
                    filter@ == first@ + second@.subrange(0, j as int),
                decreases second@.len() - j,
            {
                filter.push(second[j].clone());
                proof {
                    assert(filter@ =~= first@ + second@.subrange(0, j + 1 as int));
                }
                j += 1;
            }
            proof {
                assert(first@ + second@.subrange(0, second@.len() as int) =~= first@ + second@);
            }
        } else {
            let ghost pred = |s: String| contains_str(second@, s@);
            let mut i: usize = 0;
            while i < first.len()
                invariant
                    0 <= i <= first@.len(),
                    filter@ == first@.subrange(0, i as int).filter(pred),
                    pred == (|s: String| contains_str(second@, s@)),
                decreases first@.len() - i,
            {
                proof {
                    let prev = first@.subrange(0, i as int);
                    assert(first@.subrange(0, i + 1 as int) =~= prev.push(first@[i as int]));
                    prev.lemma_filter_push(first@[i as int], pred);
                }
                if crate::playlist::contains_path(second, first[i].as_str()) {
                    filter.push(first[i].clone());
                }
                i += 1;
            }
            proof {
                assert(first@.subrange(0, first@.len() as int) =~= first@);
            }
        }
        filter
    }
}

} // verus!
