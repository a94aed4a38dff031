//! The order validator.
//!
//! Given an enum definition, checks that its variants are declared in
//! non-decreasing lexicographic order: each variant's name is scanned
//! against the declared list from the start, stopping at the first equal
//! name; a strictly larger name found before that point is the violation
//! that is reported. Any input that is not an enum is rejected outright.

use vstd::prelude::*;

use crate::ast::{Anchor, DefBody, Diagnostic, TypeDef, VariantDef};
use crate::text::{
    lemma_lex_le_trans, lemma_lex_trichotomy, lex_le, lex_lt, str_eq, str_lt,
};

verus! {

/// The names of the declared variants, in declaration order.
pub open spec fn variant_names(variants: Seq<VariantDef>) -> Seq<Seq<char>> {
    variants.map_values(|v: VariantDef| v.name@)
}

/// The inner scan of `target` against the declared list, from index `i`:
/// stops without a finding at the first name equal to `target`, and stops
/// with the index of the first name that sorts strictly after `target`.
pub open spec fn spec_scan(names: Seq<Seq<char>>, target: Seq<char>, i: int) -> Option<int>
    decreases names.len() - i,
{
    if i < 0 || i >= names.len() {
        None
    } else if names[i] == target {
        None
    } else if lex_lt(target, names[i]) {
        Some(i)
    } else {
        spec_scan(names, target, i + 1)
    }
}

/// The first violation the validator reports, scanning variants in
/// declaration order from index `o`: the pair of the out-of-order
/// variant's index and the index of the earlier name it should have
/// preceded.
pub open spec fn spec_first_violation(names: Seq<Seq<char>>, o: int) -> Option<(int, int)>
    decreases names.len() - o,
{
    if o < 0 || o >= names.len() {
        None
    } else {
        match spec_scan(names, names[o], 0) {
            Some(i) => Some((o, i)),
            None => spec_first_violation(names, o + 1),
        }
    }
}

/// The message of an ordering-violation diagnostic.
pub open spec fn sort_message(early: Seq<char>, late: Seq<char>) -> Seq<char> {
    early + " should sort before "@ + late
}

/// The message of the diagnostic for a non-enum input.
pub open spec fn not_enum_message() -> Seq<char> {
    "expected enum or match expression"@
}

/// Checks the declared variant order; on violation reports the offending
/// variant and the earlier name it should have preceded, anchored at the
/// offending variant's name.
#[verifier::loop_isolation(false)]
pub fn check_sorted(variants: &Vec<VariantDef>) -> (r: Result<(), Diagnostic>)
    ensures
        match r {
            Ok(()) => spec_first_violation(variant_names(variants@), 0) is None,
            Err(d) => spec_first_violation(variant_names(variants@), 0) matches Some(p)
                && d.anchor == Anchor::Variant { index: p.0 as usize } && d.message@
                == sort_message(
                variant_names(variants@)[p.0],
                variant_names(variants@)[p.1],
            ),
        },
{
    let ghost names = variant_names(variants@);
    let n = variants.len();
    let mut o: usize = 0;
    while o < n
        invariant
            o <= n,
            spec_first_violation(names, 0) == spec_first_violation(names, o as int),
        decreases n - o,
    {
        let mut i: usize = 0;
        loop
            invariant
                i <= o,
                spec_scan(names, names[o as int], 0) == spec_scan(
                    names,
                    names[o as int],
                    i as int,
                ),
            decreases n - i,
        {
            if str_eq(variants[i].name.as_str(), variants[o].name.as_str()) {
                break;
            }
            if str_lt(variants[o].name.as_str(), variants[i].name.as_str()) {
                let mut m = variants[o].name.clone();
                m.append(" should sort before ");
                m.append(variants[i].name.as_str());
                return Err(Diagnostic { anchor: Anchor::Variant { index: o }, message: m });
            }
            i += 1;
        }
        o += 1;
    }
    Ok(())
}

/// Runs the order check on a whole definition: an enum passes through the
/// variant-order check; any other definition kind is rejected with a
/// diagnostic at the invocation site.
pub fn sorted_check(def: &TypeDef) -> (r: Result<(), Diagnostic>)
    ensures
        match r {
            Ok(()) => def.body matches DefBody::Enum { variants } && spec_first_violation(
                variant_names(variants@),
                0,
            ) is None,
            Err(d) => match def.body {
                DefBody::Enum { variants } => spec_first_violation(variant_names(variants@), 0)
                    matches Some(p) && d.anchor == Anchor::Variant { index: p.0 as usize }
                    && d.message@ == sort_message(
                    variant_names(variants@)[p.0],
                    variant_names(variants@)[p.1],
                ),
                _ => d.anchor is CallSite && d.message@ == not_enum_message(),
            },
        },
{
    match &def.body {
        DefBody::Enum { variants } => check_sorted(variants),
        _ => Err(
            Diagnostic {
                anchor: Anchor::CallSite,
                message: String::from_str("expected enum or match expression"),
            },
        ),
    }
}

/// Non-decreasing lexicographic order over the whole declared sequence.
pub open spec fn spec_weakly_sorted(names: Seq<Seq<char>>) -> bool {
    forall|i: int, j: int| 0 <= i <= j < names.len() ==> lex_le(#[trigger] names[i], #[trigger] names[j])
}

/// No two declared names are the same.
pub open spec fn spec_distinct(names: Seq<Seq<char>>) -> bool {
    forall|i: int, j: int| 0 <= i < j < names.len() ==> #[trigger] names[i] != #[trigger] names[j]
}

proof fn lemma_le_upto(names: Seq<Seq<char>>, i: int, j: int)
    requires
        forall|k: int| 0 <= k < names.len() - 1 ==> lex_le(#[trigger] names[k], names[k + 1]),
        0 <= i <= j < names.len(),
    ensures
        lex_le(names[i], names[j]),
    decreases j - i,
{
    if i < j {
        lemma_le_upto(names, i, j - 1);
        assert(lex_le(names[j - 1], names[j]));
        lemma_lex_le_trans(names[i], names[j - 1], names[j]);
    }
}

/// Checking adjacent pairs is enough: a declaration whose every adjacent
/// pair is in order is in order as a whole.
pub proof fn lemma_adjacent_sorted(names: Seq<Seq<char>>)
    requires
        forall|k: int| 0 <= k < names.len() - 1 ==> lex_le(#[trigger] names[k], names[k + 1]),
    ensures
        spec_weakly_sorted(names),
{
    assert forall|i: int, j: int| 0 <= i <= j < names.len() implies lex_le(
        #[trigger] names[i],
        #[trigger] names[j],
    ) by {
        lemma_le_upto(names, i, j);
    }
}

proof fn lemma_scan_none(names: Seq<Seq<char>>, o: int, i: int)
    requires
        spec_weakly_sorted(names),
        0 <= i <= o < names.len(),
    ensures
        spec_scan(names, names[o], i) is None,
    decreases o - i,
{
    if names[i] != names[o] {
        assert(lex_le(names[i], names[o]));
        lemma_lex_trichotomy(names[i], names[o]);
        lemma_scan_none(names, o, i + 1);
    }
}

/// A declaration in non-decreasing order always passes the check.
pub proof fn lemma_sorted_passes(names: Seq<Seq<char>>)
    requires
        spec_weakly_sorted(names),
    ensures
        spec_first_violation(names, 0) is None,
{
    lemma_sorted_passes_from(names, 0);
}

proof fn lemma_sorted_passes_from(names: Seq<Seq<char>>, o: int)
    requires
        spec_weakly_sorted(names),
        0 <= o,
    ensures
        spec_first_violation(names, o) is None,
    decreases names.len() - o,
{
    if o < names.len() {
        lemma_scan_none(names, o, 0);
        lemma_sorted_passes_from(names, o + 1);
    }
}

proof fn lemma_pass_scan_none(names: Seq<Seq<char>>, o: int, o2: int)
    requires
        spec_first_violation(names, o) is None,
        0 <= o <= o2 < names.len(),
    ensures
        spec_scan(names, names[o2], 0) is None,
    decreases o2 - o,
{
    if o < o2 {
        lemma_pass_scan_none(names, o + 1, o2);
    }
}

proof fn lemma_scan_prefix_lt(names: Seq<Seq<char>>, o: int, i: int)
    requires
        spec_distinct(names),
        spec_scan(names, names[o], i) is None,
        0 <= i <= o < names.len(),
    ensures
        forall|j: int| i <= j < o ==> lex_lt(#[trigger] names[j], names[o]),
    decreases o - i,
{
    if i < o {
        assert(names[i] != names[o]);
        lemma_lex_trichotomy(names[i], names[o]);
        lemma_scan_prefix_lt(names, o, i + 1);
    }
}

/// With distinct names, passing the check means the whole declaration is
/// sorted.
pub proof fn lemma_pass_means_sorted(names: Seq<Seq<char>>)
    requires
        spec_distinct(names),
        spec_first_violation(names, 0) is None,
    ensures
        spec_weakly_sorted(names),
{
    assert forall|i: int, j: int| 0 <= i <= j < names.len() implies lex_le(
        #[trigger] names[i],
        #[trigger] names[j],
    ) by {
        if i < j {
            lemma_pass_scan_none(names, 0, j);
            lemma_scan_prefix_lt(names, j, 0);
        }
    }
}

/// With distinct names the check passes exactly on declarations in
/// non-decreasing lexicographic order.
pub proof fn lemma_check_iff_sorted(names: Seq<Seq<char>>)
    requires
        spec_distinct(names),
    ensures
        spec_first_violation(names, 0) is None <==> spec_weakly_sorted(names),
{
    if spec_weakly_sorted(names) {
        lemma_sorted_passes(names);
    }
    if spec_first_violation(names, 0) is None {
        lemma_pass_means_sorted(names);
    }
}

} // verus!
