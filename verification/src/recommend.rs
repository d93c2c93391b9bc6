//! The parts of the instance recommendation that deal in names and counts:
//! which regions a preference accepts, which of the ranked offers are shown,
//! and the mean of the memory samples.
//!
//! Scoring and ranking work on fractions and are done by the caller. What is
//! handed over here is already in rank order, best first.

use vstd::prelude::*;
use vstd::string::StrSliceExecFns;

verus! {

/// How many offers of one provider a recommendation shows.
pub const OFFERS_PER_PROVIDER: usize = 2;

/// `text` in lower case, as `str::to_lowercase` writes it.
pub uninterp spec fn lowercase(text: Seq<char>) -> Seq<char>;

/// Whether `part` stands in `text` from the position `at` on.
pub open spec fn occurs_at(text: Seq<char>, part: Seq<char>, at: int) -> bool {
    0 <= at && at + part.len() <= text.len() && text.subrange(at, at + part.len()) == part
}

/// Whether `part` occurs in `text` as a run of consecutive characters.
pub open spec fn contains(text: Seq<char>, part: Seq<char>) -> bool {
    exists|at: int| occurs_at(text, part, at)
}

/// Whether an offer in `region` meets the user's preference: any region does
/// where there is none, and otherwise one whose name holds the preference,
/// letter case aside.
pub open spec fn region_accepted(region: Seq<char>, preference: Option<Seq<char>>) -> bool {
    match preference {
        Some(wanted) => contains(lowercase(region), lowercase(wanted)),
        None => true,
    }
}

/// The number of names among the first `upto` of `providers` that equal
/// `name`.
pub open spec fn count_same(providers: Seq<String>, name: Seq<char>, upto: int) -> nat
    decreases upto,
{
    if upto <= 0 {
        0
    } else {
        count_same(providers, name, upto - 1) + if providers[upto - 1]@ == name {
            1nat
        } else {
            0nat
        }
    }
}

/// Whether the offer at `index` is shown: fewer than `per_provider` offers of
/// its provider rank before it.
pub open spec fn is_shown(providers: Seq<String>, per_provider: usize, index: int) -> bool {
    count_same(providers, providers[index]@, index) < per_provider
}

/// The indices of the offers that are shown among the first `upto`, in rank
/// order.
pub open spec fn shown(providers: Seq<String>, per_provider: usize, upto: int) -> Seq<usize>
    decreases upto,
{
    if upto <= 0 {
        Seq::empty()
    } else if is_shown(providers, per_provider, upto - 1) {
        shown(providers, per_provider, upto - 1).push((upto - 1) as usize)
    } else {
        shown(providers, per_provider, upto - 1)
    }
}

/// The sum of `samples`.
pub open spec fn total(samples: Seq<u64>) -> nat
    decreases samples.len(),
{
    if samples.len() == 0 {
        0
    } else {
        total(samples.drop_last()) + samples.last() as nat
    }
}

/// `str::to_lowercase` of the standard library. The result is taken to be
/// the lower-case form of the argument, which depends on nothing else.
#[verifier::external_body]
fn to_lowercase(text: &str) -> (lower: String)
    ensures
        lower@ == lowercase(text@),
{
    text.to_lowercase()
}

/// Says whether `part` stands in `text` from the position `at` on.
/// `text_len` and `part_len` are the lengths of the two, in characters.
fn stands_at(text: &str, part: &str, at: usize, text_len: usize, part_len: usize) -> (found: bool)
    requires
        text_len == text@.len(),
        part_len == part@.len(),
        at + part_len <= text_len,
    ensures
        found == occurs_at(text@, part@, at as int),
{
    let mut k: usize = 0;
    while k < part_len
        invariant
            k <= part_len,
            text_len == text@.len(),
            part_len == part@.len(),
            at + part_len <= text_len,
            forall|j: int| 0 <= j < k ==> text@[at + j] == part@[j],
        decreases part_len - k,
    {
        let in_text: char = text.get_char(at + k);
        let in_part: char = part.get_char(k);
        if in_text != in_part {
            assert(text@.subrange(at as int, at + part_len)[k as int] == text@[at + k]);
            return false;
        }
        k += 1;
    }
    assert(text@.subrange(at as int, at + part_len) =~= part@);
    true
}

/// Says whether `part` occurs in `text`. The search tries every position in
/// turn and reads both texts character by character, which suits the short
/// names it is used on.
pub fn contains_text(text: &str, part: &str) -> (found: bool)
    ensures
        found == contains(text@, part@),
{
    let text_len: usize = text.unicode_len();
    let part_len: usize = part.unicode_len();
    if part_len > text_len {
        assert(forall|at: int| !occurs_at(text@, part@, at));
        return false;
    }
    let last: usize = text_len - part_len;
    let mut at: usize = 0;
    loop
        invariant
            at <= last,
            text_len == text@.len(),
            part_len == part@.len(),
            last == text_len - part_len,
            forall|before: int| 0 <= before < at ==> !occurs_at(text@, part@, before),
        decreases last - at,
    {
        if stands_at(text, part, at, text_len, part_len) {
            return true;
        }
        if at == last {
            assert(forall|any: int| !occurs_at(text@, part@, any));
            return false;
        }
        at += 1;
    }
}

/// Says whether an offer in `region` meets the user's preference.
pub fn region_matches(region: &str, preference: Option<&str>) -> (accepted: bool)
    ensures
        accepted == region_accepted(
            region@,
            match preference {
                Some(wanted) => Some(wanted@),
                None => None,
            },
        ),
{
    match preference {
        Some(wanted) => {
            let region_lower = to_lowercase(region);
            let wanted_lower = to_lowercase(wanted);
            contains_text(region_lower.as_str(), wanted_lower.as_str())
        },
        None => true,
    }
}

/// Picks the offers to show. `providers` names the provider of each offer, in
/// rank order, best first. The result holds the indices of the offers that
/// are shown, in rank order: of each provider the `per_provider` best.
pub fn select_top_per_provider(providers: &Vec<String>, per_provider: usize) -> (chosen: Vec<
    usize,
>)
    ensures
        chosen@ == shown(providers@, per_provider, providers@.len() as int),
{
    let mut chosen: Vec<usize> = Vec::new();
    let mut i: usize = 0;
    while i < providers.len()
        invariant
            i <= providers.len(),
            chosen@ == shown(providers@, per_provider, i as int),
        decreases providers.len() - i,
    {
        let mut earlier: usize = 0;
        let mut j: usize = 0;
        while j < i
            invariant
                j <= i,
                i < providers.len(),
                earlier <= j,
                earlier == count_same(providers@, providers@[i as int]@, j as int),
            decreases i - j,
        {
            if providers[j] == providers[i] {
                earlier += 1;
            }
            j += 1;
        }
        if earlier < per_provider {
            chosen.push(i);
        }
        i += 1;
    }
    chosen
}

/// The mean of `samples`, rounded down, or `None` where there is no sample.
pub fn mean(samples: &Vec<u64>) -> (average: Option<u64>)
    ensures
        match average {
            Some(value) => samples@.len() > 0 && value == total(samples@) / samples@.len(),
            None => samples@.len() == 0,
        },
{
    if samples.len() == 0 {
        return None;
    }
    let mut sum: u128 = 0;
    let mut i: usize = 0;
    while i < samples.len()
        invariant
            i <= samples.len(),
            sum == total(samples@.take(i as int)),
            sum <= i * u64::MAX,
        decreases samples.len() - i,
    {
        proof {
            assert(samples@.take(i + 1).drop_last() =~= samples@.take(i as int));
            assert((i + 1) * u64::MAX == i * u64::MAX + u64::MAX) by (nonlinear_arith);
            assert(i * u64::MAX + u64::MAX <= usize::MAX * u64::MAX + u64::MAX) by (nonlinear_arith)
                requires
                    i <= usize::MAX,
            ;
        }
        sum = sum + samples[i] as u128;
        i += 1;
    }
    assert(samples@.take(i as int) =~= samples@);
    let count: u128 = samples.len() as u128;
    let average: u128 = sum / count;
    assert(average <= u64::MAX) by (nonlinear_arith)
        requires
            average == sum / count,
            sum <= count * u64::MAX,
            count > 0,
    ;
    Some(average as u64)
}

/// Every index that is picked is one of an offer, and that offer has fewer
/// than `per_provider` offers of its provider ranked before it. The picked
/// indices are in rank order, each once.
pub proof fn lemma_shown_is_ranked_selection(providers: Seq<String>, per_provider: usize, upto: int)
    requires
        0 <= upto <= providers.len() <= usize::MAX,
    ensures
        shown(providers, per_provider, upto).len() <= upto,
        forall|k: int|
            0 <= k < shown(providers, per_provider, upto).len() ==> (#[trigger] shown(
                providers,
                per_provider,
                upto,
            )[k]) < upto,
        forall|k: int|
            0 <= k < shown(providers, per_provider, upto).len() ==> is_shown(
                providers,
                per_provider,
                (#[trigger] shown(providers, per_provider, upto)[k]) as int,
            ),
        forall|k: int, l: int|
            0 <= k < l < shown(providers, per_provider, upto).len() ==> (#[trigger] shown(
                providers,
                per_provider,
                upto,
            )[k]) < (#[trigger] shown(providers, per_provider, upto)[l]),
    decreases upto,
{
    if upto > 0 {
        lemma_shown_is_ranked_selection(providers, per_provider, upto - 1);
    }
}

} // verus!
