//! Sample-count negotiation: pick the multisample level closest to a
//! requested preference among the levels the hardware supports.

use vstd::prelude::*;

verus! {

/// Which multisample levels the adapter reports for the chosen surface
/// format, beyond the always-available single-sample level.
#[derive(Clone, Copy, Debug, PartialEq, Eq)]
pub struct MsaaSupport {
    pub x2: bool,
    pub x4: bool,
    pub x8: bool,
}

impl MsaaSupport {
    /// The supported set: single sampling is always available; a higher
    /// level is available exactly when the hardware reports it.
    pub open spec fn supports(self, n: u32) -> bool {
        n == 1 || (n == 2 && self.x2) || (n == 4 && self.x4) || (n == 8 && self.x8)
    }
}

/// |a - b| on unsigned sample counts.
pub open spec fn sample_distance(a: u32, b: u32) -> u32 {
    if a >= b {
        (a - b) as u32
    } else {
        (b - a) as u32
    }
}

/// The supported levels above 1, enumerated as powers of two in ascending
/// order. This enumeration order is the documented tie-break: of two
/// equidistant levels, the first enumerated wins.
pub open spec fn candidate_levels(s: MsaaSupport) -> Seq<u32> {
    let none = Seq::<u32>::empty();
    let with2 = if s.x2 {
        none.push(2u32)
    } else {
        none
    };
    let with4 = if s.x4 {
        with2.push(4u32)
    } else {
        with2
    };
    if s.x8 {
        with4.push(8u32)
    } else {
        with4
    }
}

/// Fold over the remaining candidates, keeping the earlier choice unless a
/// strictly closer one appears, so the first of two equidistant candidates
/// wins.
pub open spec fn closest_candidate(preferred: u32, best: u32, rest: Seq<u32>) -> u32
    decreases rest.len(),
{
    if rest.len() == 0 {
        best
    } else {
        let next = if sample_distance(preferred, rest[0]) < sample_distance(preferred, best) {
            rest[0]
        } else {
            best
        };
        closest_candidate(preferred, next, rest.skip(1))
    }
}

/// The negotiated sample count: the preference itself when supported,
/// otherwise the supported level closest to it (ties to the first
/// enumerated), otherwise 1.
pub open spec fn chosen_sample_count(s: MsaaSupport, preferred: u32) -> u32 {
    if s.supports(preferred) {
        preferred
    } else if candidate_levels(s).len() == 0 {
        1u32
    } else {
        closest_candidate(preferred, candidate_levels(s)[0], candidate_levels(s).skip(1))
    }
}

/// Negotiate the multisample level for the session. The preference is
/// returned unchanged when the hardware supports it; otherwise the
/// supported level with the smallest absolute distance to the preference
/// is chosen, ties going to the first of the ascending enumeration
/// `[2, 4, 8]`; with no higher level supported the result is 1.
pub fn choose_sample_count(support: &MsaaSupport, preferred: u32) -> (r: u32)
    ensures
        r == chosen_sample_count(*support, preferred),
{
    let directly = preferred == 1 || (preferred == 2 && support.x2) || (preferred == 4
        && support.x4) || (preferred == 8 && support.x8);
    if directly {
        return preferred;
    }
    let mut candidates: Vec<u32> = Vec::new();
    if support.x2 {
        candidates.push(2);
    }
    if support.x4 {
        candidates.push(4);
    }
    if support.x8 {
        candidates.push(8);
    }
    proof {
        assert(candidates@ =~= candidate_levels(*support));
    }
    if candidates.len() == 0 {
        return 1;
    }
    let mut best: u32 = candidates[0];
    let mut i: usize = 1;
    while i < candidates.len()
        invariant
            1 <= i <= candidates@.len(),
            candidates@ == candidate_levels(*support),
            !support.supports(preferred),
            candidates@.len() > 0,
            closest_candidate(preferred, best, candidates@.skip(i as int)) == closest_candidate(
                preferred,
                candidates@[0],
                candidates@.skip(1),
            ),
        decreases candidates@.len() - i,
    {
        let c = candidates[i];
        let dist_c: u32 = if preferred >= c {
            preferred - c
        } else {
            c - preferred
        };
        let dist_b: u32 = if preferred >= best {
            preferred - best
        } else {
            best - preferred
        };
        proof {
            assert(candidates@.skip(i as int)[0] == candidates@[i as int]);
            assert(candidates@.skip(i as int).skip(1) =~= candidates@.skip(i as int + 1));
        }
        if dist_c < dist_b {
            best = c;
        }
        i = i + 1;
    }
    proof {
        assert(candidates@.skip(i as int) =~= Seq::<u32>::empty());
    }
    best
}

/// Every enumerated candidate is a member of the supported set.
proof fn lemma_candidate_levels_supported(s: MsaaSupport)
    ensures
        forall|i: int|
            0 <= i < candidate_levels(s).len() ==> s.supports(#[trigger] candidate_levels(s)[i]),
{
}

/// The fold either keeps its starting value or picks an element of the
/// candidate sequence, and the pick is never farther from the preference
/// than the start or any candidate.
proof fn lemma_closest_candidate_picks(preferred: u32, best: u32, rest: Seq<u32>)
    ensures
        closest_candidate(preferred, best, rest) == best || rest.contains(
            closest_candidate(preferred, best, rest),
        ),
        sample_distance(preferred, closest_candidate(preferred, best, rest)) <= sample_distance(
            preferred,
            best,
        ),
        forall|i: int|
            0 <= i < rest.len() ==> sample_distance(preferred, closest_candidate(preferred, best, rest))
                <= sample_distance(preferred, #[trigger] rest[i]),
    decreases rest.len(),
{
    if rest.len() == 0 {
    } else {
        let next = if sample_distance(preferred, rest[0]) < sample_distance(preferred, best) {
            rest[0]
        } else {
            best
        };
        lemma_closest_candidate_picks(preferred, next, rest.skip(1));
        let r = closest_candidate(preferred, best, rest);
        assert(r == closest_candidate(preferred, next, rest.skip(1)));
        if r != best {
            if r == next {
                assert(rest[0] == r);
                assert(rest.contains(r));
            } else {
                assert(rest.skip(1).contains(r));
                let j = choose|j: int| 0 <= j < rest.skip(1).len() && rest.skip(1)[j] == r;
                assert(rest[j + 1] == r);
                assert(rest.contains(r));
            }
        }
        assert forall|i: int| 0 <= i < rest.len() implies sample_distance(preferred, r)
            <= sample_distance(preferred, #[trigger] rest[i]) by {
            if i == 0 {
                assert(sample_distance(preferred, r) <= sample_distance(preferred, next));
            } else {
                assert(rest.skip(1)[i - 1] == rest[i]);
            }
        }
    }
}

/// The fold's pick is either its starting value — and then no candidate
/// is strictly closer — or the first candidate strictly closer than the
/// start and than every candidate before it.
proof fn lemma_closest_candidate_first(preferred: u32, best: u32, rest: Seq<u32>)
    ensures
        ({
            let r = closest_candidate(preferred, best, rest);
            ||| (r == best && (forall|j: int|
                0 <= j < rest.len() ==> sample_distance(preferred, #[trigger] rest[j])
                    >= sample_distance(preferred, best)))
            ||| (exists|k: int|
                0 <= k < rest.len() && rest[k] == r && sample_distance(preferred, r)
                    < sample_distance(preferred, best) && (forall|j: int|
                    0 <= j < k ==> sample_distance(preferred, #[trigger] rest[j])
                        > sample_distance(preferred, r)))
        }),
    decreases rest.len(),
{
    if rest.len() == 0 {
    } else {
        let r = closest_candidate(preferred, best, rest);
        let tail = rest.skip(1);
        assert(forall|j: int| 0 <= j < tail.len() ==> tail[j] == rest[j + 1]);
        if sample_distance(preferred, rest[0]) < sample_distance(preferred, best) {
            lemma_closest_candidate_first(preferred, rest[0], tail);
            if r == rest[0] {
                assert(0 <= 0 < rest.len() && rest[0] == r && sample_distance(preferred, r)
                    < sample_distance(preferred, best));
            } else {
                let k = choose|k: int|
                    0 <= k < tail.len() && tail[k] == r && sample_distance(preferred, r)
                        < sample_distance(preferred, rest[0]) && (forall|j: int|
                        0 <= j < k ==> sample_distance(preferred, #[trigger] tail[j])
                            > sample_distance(preferred, r));
                assert(rest[k + 1] == r);
                assert forall|j: int| 0 <= j < k + 1 implies sample_distance(
                    preferred,
                    #[trigger] rest[j],
                ) > sample_distance(preferred, r) by {
                    if j > 0 {
                        assert(tail[j - 1] == rest[j]);
                    }
                }
            }
        } else {
            lemma_closest_candidate_first(preferred, best, tail);
            if r == best {
                assert forall|j: int| 0 <= j < rest.len() implies sample_distance(
                    preferred,
                    #[trigger] rest[j],
                ) >= sample_distance(preferred, best) by {
                    if j > 0 {
                        assert(tail[j - 1] == rest[j]);
                    }
                }
            } else {
                let k = choose|k: int|
                    0 <= k < tail.len() && tail[k] == r && sample_distance(preferred, r)
                        < sample_distance(preferred, best) && (forall|j: int|
                        0 <= j < k ==> sample_distance(preferred, #[trigger] tail[j])
                            > sample_distance(preferred, r));
                assert(rest[k + 1] == r);
                assert forall|j: int| 0 <= j < k + 1 implies sample_distance(
                    preferred,
                    #[trigger] rest[j],
                ) > sample_distance(preferred, r) by {
                    if j > 0 {
                        assert(tail[j - 1] == rest[j]);
                    }
                }
            }
        }
    }
}

/// Law: the documented tie-break. When the preference is unsupported and
/// higher levels exist, the negotiated count stands in the enumeration at
/// a position every earlier candidate of which is strictly farther from
/// the preference: of equidistant candidates, the first enumerated wins.
pub proof fn lemma_chosen_sample_count_tie_break(s: MsaaSupport, preferred: u32)
    requires
        !s.supports(preferred),
        candidate_levels(s).len() > 0,
    ensures
        exists|i: int|
            0 <= i < candidate_levels(s).len() && candidate_levels(s)[i] == chosen_sample_count(
                s,
                preferred,
            ) && (forall|j: int|
                0 <= j < i ==> sample_distance(preferred, #[trigger] candidate_levels(s)[j])
                    > sample_distance(preferred, chosen_sample_count(s, preferred))),
{
    let cands = candidate_levels(s);
    let tail = cands.skip(1);
    let r = chosen_sample_count(s, preferred);
    assert(forall|j: int| 0 <= j < tail.len() ==> tail[j] == cands[j + 1]);
    lemma_closest_candidate_first(preferred, cands[0], tail);
    if r == cands[0] {
        assert(0 <= 0 < cands.len() && cands[0] == r && (forall|j: int|
            0 <= j < 0 ==> sample_distance(preferred, #[trigger] cands[j]) > sample_distance(
                preferred,
                r,
            )));
    } else {
        let k = choose|k: int|
            0 <= k < tail.len() && tail[k] == r && sample_distance(preferred, r)
                < sample_distance(preferred, cands[0]) && (forall|j: int|
                0 <= j < k ==> sample_distance(preferred, #[trigger] tail[j]) > sample_distance(
                    preferred,
                    r,
                ));
        assert(cands[k + 1] == r);
        assert forall|j: int| 0 <= j < k + 1 implies sample_distance(preferred, #[trigger] cands[j])
            > sample_distance(preferred, r) by {
            if j > 0 {
                assert(tail[j - 1] == cands[j]);
            }
        }
    }
}

/// Law: for every preference, the negotiated sample count is a member of
/// the supported set (which always contains 1).
pub proof fn lemma_chosen_sample_count_supported(s: MsaaSupport, preferred: u32)
    ensures
        s.supports(chosen_sample_count(s, preferred)),
{
    if s.supports(preferred) {
    } else if candidate_levels(s).len() == 0 {
    } else {
        let cands = candidate_levels(s);
        lemma_candidate_levels_supported(s);
        lemma_closest_candidate_picks(preferred, cands[0], cands.skip(1));
        let r = chosen_sample_count(s, preferred);
        if r != cands[0] {
            let j = choose|j: int| 0 <= j < cands.skip(1).len() && cands.skip(1)[j] == r;
            assert(cands[j + 1] == r);
        }
    }
}

/// Law: a directly supported preference is negotiated unchanged.
pub proof fn lemma_chosen_sample_count_preferred(s: MsaaSupport, preferred: u32)
    requires
        s.supports(preferred),
    ensures
        chosen_sample_count(s, preferred) == preferred,
{
}

/// Law: when the preference is unsupported and higher levels exist, no
/// supported higher level is strictly closer to the preference than the
/// negotiated count.
pub proof fn lemma_chosen_sample_count_closest(s: MsaaSupport, preferred: u32)
    requires
        !s.supports(preferred),
        candidate_levels(s).len() > 0,
    ensures
        forall|i: int|
            0 <= i < candidate_levels(s).len() ==> sample_distance(
                preferred,
                chosen_sample_count(s, preferred),
            ) <= sample_distance(preferred, #[trigger] candidate_levels(s)[i]),
{
    let cands = candidate_levels(s);
    lemma_closest_candidate_picks(preferred, cands[0], cands.skip(1));
    let r = chosen_sample_count(s, preferred);
    assert forall|i: int| 0 <= i < cands.len() implies sample_distance(preferred, r)
        <= sample_distance(preferred, #[trigger] cands[i]) by {
        if i == 0 {
            assert(sample_distance(preferred, r) <= sample_distance(preferred, cands[0]));
        } else {
            assert(cands.skip(1)[i - 1] == cands[i]);
        }
    }
}

} // verus!
