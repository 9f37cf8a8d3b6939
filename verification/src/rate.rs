//! The playback rate of a snapshot: an ordered chain of sources, the first
//! that yields a value wins, and a fallback on the name of the mods.

use vstd::prelude::*;
use crate::single::{Real32, ONE_AND_HALF_BITS, ONE_BITS, THREE_QUARTERS_BITS};
use crate::snapshot::{text_or_empty, JsonV2, ModEntry, ModsV2};
use crate::text::{chars_of, contains_chars, occurs};

verus! {

/// The first of two optional values that is present.
pub open spec fn first_of(a: Option<Real32>, b: Option<Real32>) -> Option<Real32> {
    if a is Some {
        a
    } else {
        b
    }
}

/// What one entry says of the rate: its explicit rate, else its speed change.
pub open spec fn entry_rate(e: ModEntry) -> Option<Real32> {
    first_of(e.rate, e.settings.speed_change)
}

/// What the first entry of the array says, if there is one.
pub open spec fn first_entry_rate(m: ModsV2) -> Option<Real32> {
    match m.array {
        Some(a) => if a@.len() > 0 {
            entry_rate(a@[0])
        } else {
            None
        },
        None => None,
    }
}

/// First source: the explicit rate of the primary mods.
pub open spec fn primary_explicit(v2: JsonV2) -> Option<Real32> {
    v2.play.mods.rate
}

/// Second source: the first entry of the primary mods.
pub open spec fn primary_entry(v2: JsonV2) -> Option<Real32> {
    first_entry_rate(v2.play.mods)
}

/// Third source: the secondary mods, their explicit rate before their first
/// entry.
pub open spec fn secondary(v2: JsonV2) -> Option<Real32> {
    match v2.mods {
        Some(m) => first_of(m.rate, first_entry_rate(m)),
        None => None,
    }
}

/// What the explicit sources give, in their order of precedence.
pub open spec fn explicit_rate(v2: JsonV2) -> Option<Real32> {
    first_of(primary_explicit(v2), first_of(primary_entry(v2), secondary(v2)))
}

/// The name carries a marker of double time.
pub open spec fn speeds_up(name: Seq<char>) -> bool {
    occurs(name, seq!['N', 'C']) || occurs(name, seq!['D', 'T'])
}

/// The name carries a marker of half time.
pub open spec fn slows_down(name: Seq<char>) -> bool {
    occurs(name, seq!['H', 'T']) || occurs(name, seq!['D', 'C'])
}

/// The rate that a name of mods stands for.
pub open spec fn name_rate(name: Seq<char>) -> Real32 {
    if speeds_up(name) {
        Real32 { bits: ONE_AND_HALF_BITS }
    } else if slows_down(name) {
        Real32 { bits: THREE_QUARTERS_BITS }
    } else {
        Real32 { bits: ONE_BITS }
    }
}

/// The name of the primary mods, empty where there is none.
pub open spec fn mods_name(v2: JsonV2) -> Seq<char> {
    text_or_empty(v2.play.mods.name)
}

/// The rate of a snapshot.
pub open spec fn resolved_rate(v2: JsonV2) -> Real32 {
    match explicit_rate(v2) {
        Some(r) => r,
        None => name_rate(mods_name(v2)),
    }
}

/// The rate that a name of mods stands for.
pub fn rate_from_name(name: &str) -> (r: Real32)
    ensures
        r == name_rate(name@),
{
    proof {
        reveal_strlit("NC");
        reveal_strlit("DT");
        reveal_strlit("HT");
        reveal_strlit("DC");
        assert("NC"@ =~= seq!['N', 'C']);
        assert("DT"@ =~= seq!['D', 'T']);
        assert("HT"@ =~= seq!['H', 'T']);
        assert("DC"@ =~= seq!['D', 'C']);
    }
    let chars = chars_of(name);
    if contains_chars(&chars, &chars_of("NC")) || contains_chars(&chars, &chars_of("DT")) {
        Real32::one_and_half()
    } else if contains_chars(&chars, &chars_of("HT")) || contains_chars(&chars, &chars_of("DC")) {
        Real32::three_quarters()
    } else {
        Real32::one()
    }
}

/// What the first entry of the array says, if there is one.
pub fn rate_of_first_entry(m: &ModsV2) -> (r: Option<Real32>)
    ensures
        r == first_entry_rate(*m),
{
    match &m.array {
        Some(a) => {
            if a.len() > 0 {
                let e = &a[0];
                match e.rate {
                    Some(x) => Some(x),
                    None => e.settings.speed_change,
                }
            } else {
                None
            }
        },
        None => None,
    }
}

/// The rate of a snapshot: the explicit rate of the primary mods, else what
/// their first entry says, else the same two of the secondary mods, else what
/// the name of the primary mods stands for. Always present.
pub fn extract_rate_from_v2(v2: &JsonV2) -> (r: Option<Real32>)
    ensures
        r == Some(resolved_rate(*v2)),
{
    if let Some(x) = v2.play.mods.rate {
        return Some(x);
    }
    if let Some(x) = rate_of_first_entry(&v2.play.mods) {
        return Some(x);
    }
    if let Some(m) = &v2.mods {
        if let Some(x) = m.rate {
            return Some(x);
        }
        if let Some(x) = rate_of_first_entry(m) {
            return Some(x);
        }
    }
    match &v2.play.mods.name {
        Some(s) => Some(rate_from_name(s.as_str())),
        None => {
            proof {
                reveal_strlit("");
                assert(""@ =~= Seq::<char>::empty());
            }
            Some(rate_from_name(""))
        },
    }
}

/// The rate of a snapshot, one where nothing determines it.
pub fn resolve_rate(v2: &JsonV2) -> (r: Real32)
    ensures
        r == resolved_rate(*v2),
{
    match extract_rate_from_v2(v2) {
        Some(r) => r,
        None => Real32::one(),
    }
}

/// An explicit rate of the primary mods is the rate of the snapshot,
/// whatever else the snapshot holds.
pub proof fn primary_rate_wins(v2: JsonV2, r: Real32)
    requires
        v2.play.mods.rate == Some(r),
    ensures
        resolved_rate(v2) == r,
{
}

/// The sources are asked in their order: what the first entry of the
/// primary mods says counts only without an explicit primary rate, and the
/// secondary mods count only where the primary mods say nothing.
pub proof fn sources_in_order(v2: JsonV2)
    ensures
        primary_explicit(v2) is None && primary_entry(v2) is Some ==> resolved_rate(v2)
            == primary_entry(v2)->0,
        primary_explicit(v2) is None && primary_entry(v2) is None && secondary(v2) is Some
            ==> resolved_rate(v2) == secondary(v2)->0,
{
}

/// Where no source gives a rate, the name of the primary mods decides: one
/// and a half with a marker of double time, three quarters with a marker of
/// half time and none of double time, one otherwise.
pub proof fn name_decides_without_rates(v2: JsonV2)
    requires
        explicit_rate(v2) is None,
    ensures
        speeds_up(mods_name(v2)) ==> resolved_rate(v2).bits == ONE_AND_HALF_BITS,
        !speeds_up(mods_name(v2)) && slows_down(mods_name(v2)) ==> resolved_rate(v2).bits
            == THREE_QUARTERS_BITS,
        !speeds_up(mods_name(v2)) && !slows_down(mods_name(v2)) ==> resolved_rate(v2).bits
            == ONE_BITS,
{
}

} // verus!
