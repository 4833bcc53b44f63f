//! The wildcard-comparison collaborator.
//!
//! Comparison semantics are supplied by the surrounding system, not by this
//! core: a matcher is handed in as a capability. The trait fixes its shape —
//! a pure, total predicate over two decoded texts — and `spec_matches` is
//! the mathematical statement that every implementation's executable
//! `matches` must compute exactly.

use vstd::prelude::*;

verus! {

use vstd::string::StrSliceExecFns;
use vstd::string::StringSliceAdditionalSpecFns;
use vstd::utf8::encode_utf8_decode_utf8;

/// A pattern-equality predicate over two decoded texts. Implementations must
/// be pure: the result may depend on the two texts alone.
pub trait WildcardMatcher {
    /// The predicate itself, over decoded character sequences.
    spec fn spec_matches(&self, x: Seq<char>, y: Seq<char>) -> bool;

    /// Computes exactly the predicate on the two texts.
    fn matches(&self, x: &str, y: &str) -> (r: bool)
        ensures
            r == self.spec_matches(x@, y@),
    ;
}

/// A matcher with no wildcards at all: the two texts must be equal.
pub struct ExactMatcher;

impl WildcardMatcher for ExactMatcher {
    open spec fn spec_matches(&self, x: Seq<char>, y: Seq<char>) -> bool {
        x == y
    }

    fn matches(&self, x: &str, y: &str) -> (r: bool) {
        let xb = x.as_bytes();
        let yb = y.as_bytes();
        proof {
            encode_utf8_decode_utf8(x@);
            encode_utf8_decode_utf8(y@);
        }
        if xb.len() != yb.len() {
            return false;
        }
        let n = xb.len();
        let mut i: usize = 0;
        while i < n
            invariant
                i <= n,
                n == xb@.len() == yb@.len(),
                xb@ == x.spec_bytes(),
                yb@ == y.spec_bytes(),
                forall|j: int| 0 <= j < i ==> xb@[j] == yb@[j],
            decreases n - i,
        {
            if xb[i] != yb[i] {
                return false;
            }
            i += 1;
        }
        proof {
            assert(xb@ =~= yb@);
        }
        true
    }
}

/// A matcher where the character `'*'` in the second text stands for exactly
/// one arbitrary character of the first text; every other position must
/// match exactly.
pub struct OneCharWildcardMatcher;

/// The second text matches the first when they have the same number of
/// characters and each of its characters either is `'*'` or equals the
/// character at the same position in the first.
pub open spec fn one_char_wildcard_matches(x: Seq<char>, y: Seq<char>) -> bool {
    &&& x.len() == y.len()
    &&& forall|i: int| 0 <= i < y.len() ==> (y[i] == '*' || x[i] == y[i])
}

impl WildcardMatcher for OneCharWildcardMatcher {
    open spec fn spec_matches(&self, x: Seq<char>, y: Seq<char>) -> bool {
        one_char_wildcard_matches(x, y)
    }

    fn matches(&self, x: &str, y: &str) -> (r: bool) {
        let xn = x.unicode_len();
        let yn = y.unicode_len();
        if xn != yn {
            return false;
        }
        let mut i: usize = 0;
        while i < yn
            invariant
                i <= yn,
                xn == x@.len(),
                yn == y@.len(),
                xn == yn,
                forall|j: int| 0 <= j < i ==> (y@[j] == '*' || x@[j] == y@[j]),
            decreases yn - i,
        {
            let yc = y.get_char(i);
            if yc != '*' {
                let xc = x.get_char(i);
                if xc != yc {
                    return false;
                }
            }
            i += 1;
        }
        true
    }
}

} // verus!
