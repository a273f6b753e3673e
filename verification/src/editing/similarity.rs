//! Similarity scores between two texts, as exact fractions.

use crate::text::to_chars;
use vstd::prelude::*;

verus! {

/// A fraction `num / den`. Scores and thresholds are fractions between 0
/// and 1.
#[derive(Debug, Clone, Copy, PartialEq, Eq, Structural)]
pub struct Ratio {
    pub num: usize,
    pub den: usize,
}

impl Ratio {
    /// The fraction is defined and lies between 0 and 1.
    pub open spec fn wf(self) -> bool {
        0 < self.den && self.num <= self.den
    }

    /// `self >= other`, as fractions.
    pub open spec fn spec_at_least(self, other: Ratio) -> bool {
        self.num * other.den >= other.num * self.den
    }

    /// The fraction `num / den`.
    pub fn new(num: usize, den: usize) -> (r: Ratio)
        ensures
            r.num == num,
            r.den == den,
    {
        Ratio { num, den }
    }

    /// The score of an exact match.
    pub fn one() -> (r: Ratio)
        ensures
            r.num == 1,
            r.den == 1,
            r.wf(),
    {
        Ratio { num: 1, den: 1 }
    }

    /// Whether the fraction is one.
    pub fn is_one(&self) -> (r: bool)
        ensures
            r == (self.num == self.den),
    {
        self.num == self.den
    }

    /// Whether `self >= other`, as fractions.
    pub fn at_least(&self, other: &Ratio) -> (r: bool)
        ensures
            r == self.spec_at_least(*other),
    {
        let a: u128 = self.num as u128;
        let b: u128 = other.den as u128;
        let c: u128 = other.num as u128;
        let d: u128 = self.den as u128;
        assert(a * b <= 0xFFFF_FFFF_FFFF_FFFF * 0xFFFF_FFFF_FFFF_FFFF) by (nonlinear_arith)
            requires
                0 <= a <= 0xFFFF_FFFF_FFFF_FFFF,
                0 <= b <= 0xFFFF_FFFF_FFFF_FFFF,
        ;
        assert(c * d <= 0xFFFF_FFFF_FFFF_FFFF * 0xFFFF_FFFF_FFFF_FFFF) by (nonlinear_arith)
            requires
                0 <= c <= 0xFFFF_FFFF_FFFF_FFFF,
                0 <= d <= 0xFFFF_FFFF_FFFF_FFFF,
        ;
        a * b >= c * d
    }
}

/// The smallest of three numbers.
pub open spec fn min3(a: nat, b: nat, c: nat) -> nat {
    if a <= b && a <= c {
        a
    } else if b <= c {
        b
    } else {
        c
    }
}

/// The Levenshtein distance between `a` and `b`: the least number of
/// single-character insertions, deletions and substitutions that turn `a`
/// into `b`.
pub open spec fn levenshtein(a: Seq<char>, b: Seq<char>) -> nat
    decreases a.len() + b.len(),
{
    if a.len() == 0 {
        b.len()
    } else if b.len() == 0 {
        a.len()
    } else {
        let substitute: nat = if a.last() == b.last() {
            0
        } else {
            1
        };
        min3(
            levenshtein(a.drop_last(), b) + 1,
            levenshtein(a, b.drop_last()) + 1,
            levenshtein(a.drop_last(), b.drop_last()) + substitute,
        )
    }
}

/// The longer of two lengths.
pub open spec fn max_len(a: Seq<char>, b: Seq<char>) -> nat {
    if a.len() >= b.len() {
        a.len()
    } else {
        b.len()
    }
}

/// The distance never exceeds the longer text's length.
pub proof fn lemma_levenshtein_bound(a: Seq<char>, b: Seq<char>)
    ensures
        levenshtein(a, b) <= max_len(a, b),
    decreases a.len() + b.len(),
{
    if a.len() > 0 && b.len() > 0 {
        lemma_levenshtein_bound(a.drop_last(), b.drop_last());
    }
}

/// The similarity of two texts: one minus their distance over the longer
/// length, and one when both are empty.
pub open spec fn similarity(a: Seq<char>, b: Seq<char>) -> Ratio {
    let m = max_len(a, b);
    if m == 0 {
        Ratio { num: 1, den: 1 }
    } else {
        Ratio { num: (m - levenshtein(a, b)) as usize, den: m as usize }
    }
}

/// `edit_distance::edit_distance`: the Levenshtein distance between two
/// strings, counted in characters.
#[verifier::external_body]
fn edit_distance(a: &str, b: &str) -> (d: usize)
    ensures
        d == levenshtein(a@, b@),
{
    edit_distance::edit_distance(a, b)
}

/// The similarity of `text1` and `text2`.
pub fn calculate_similarity(text1: &str, text2: &str) -> (r: Ratio)
    ensures
        r == similarity(text1@, text2@),
        r.wf(),
{
    let len1 = to_chars(text1).len();
    let len2 = to_chars(text2).len();
    let m = if len1 >= len2 {
        len1
    } else {
        len2
    };
    if m == 0 {
        return Ratio::one();
    }
    let d = edit_distance(text1, text2);
    proof {
        lemma_levenshtein_bound(text1@, text2@);
    }
    Ratio { num: m - d, den: m }
}

} // verus!
