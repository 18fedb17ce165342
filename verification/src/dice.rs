//! Dice tests: pools of six-sided dice, hits on 5 and 6, the rule of six, limits,
//! glitches and Edge.
use vstd::prelude::*;

use crate::character::{dice_pool, limit_named};
use crate::game_state::{find_character, has_named, is_first_named, GameState};
use crate::strmap::str_eq;
use crate::text::{concat3, owned, spec_to_lowercase};

verus! {

broadcast use {vstd::string::group_string_axioms, vstd::std_specs::vec::group_vec_axioms};

/// Rolls one six-sided die with `rand`'s thread-local generator (`rand::rng`) and
/// `Rng::random_range(1..=6)`. The result is random; the contract only says that
/// it lies in 1..=6, as `random_range` documents for an inclusive range.
#[verifier::external_body]
fn roll_die() -> (r: u8)
    ensures
        1 <= r <= 6,
{
    rand::Rng::random_range(&mut rand::rng(), 1..=6)
}

/// How many elements of `s` satisfy `f`.
pub open spec fn count_by(s: Seq<u8>, f: spec_fn(u8) -> bool) -> nat
    decreases s.len(),
{
    if s.len() == 0 {
        0
    } else {
        count_by(s.drop_last(), f) + if f(s.last()) {
            1nat
        } else {
            0nat
        }
    }
}

/// A die showing 5 or 6 is a hit.
pub open spec fn is_hit() -> spec_fn(u8) -> bool {
    |d: u8| d >= 5
}

/// A die showing 1 may make a glitch.
pub open spec fn is_one() -> spec_fn(u8) -> bool {
    |d: u8| d == 1
}

/// A die not showing 6 ends a die's chain of rerolls.
pub open spec fn is_not_six() -> spec_fn(u8) -> bool {
    |d: u8| d != 6
}

/// The hits among `s`.
pub open spec fn hits_in(s: Seq<u8>) -> nat {
    count_by(s, is_hit())
}

/// The ones among `s`.
pub open spec fn ones_in(s: Seq<u8>) -> nat {
    count_by(s, is_one())
}

/// `s` is `n` complete chains: each die rerolled while it shows 6, so exactly `n`
/// results are not 6 and the last one is not 6.
pub open spec fn complete_chains(s: Seq<u8>, n: nat) -> bool {
    &&& count_by(s, is_not_six()) == n
    &&& s.len() > 0 ==> s.last() != 6
}

/// Counting over a concatenation adds up.
pub proof fn lemma_count_concat(a: Seq<u8>, b: Seq<u8>, f: spec_fn(u8) -> bool)
    ensures
        count_by(a + b, f) == count_by(a, f) + count_by(b, f),
    decreases b.len(),
{
    if b.len() == 0 {
        assert(a + b =~= a);
    } else {
        lemma_count_concat(a, b.drop_last(), f);
        assert((a + b).drop_last() =~= a + b.drop_last());
    }
}

/// Counting is at most the length.
pub proof fn lemma_count_len(s: Seq<u8>, f: spec_fn(u8) -> bool)
    ensures
        count_by(s, f) <= s.len(),
    decreases s.len(),
{
    if s.len() > 0 {
        lemma_count_len(s.drop_last(), f);
    }
}

/// Counting a sequence after changing one element.
pub proof fn lemma_count_update(s: Seq<u8>, i: int, x: u8, f: spec_fn(u8) -> bool)
    requires
        0 <= i < s.len(),
    ensures
        count_by(s.update(i, x), f) + (if f(s[i]) {
            1int
        } else {
            0int
        }) == count_by(s, f) + (if f(x) {
            1int
        } else {
            0int
        }),
{
    let pre = s.subrange(0, i);
    let post = s.subrange(i + 1, s.len() as int);
    assert(s =~= pre + seq![s[i]] + post);
    assert(s.update(i, x) =~= pre + seq![x] + post);
    lemma_count_concat(pre + seq![s[i]], post, f);
    lemma_count_concat(pre, seq![s[i]], f);
    lemma_count_concat(pre + seq![x], post, f);
    lemma_count_concat(pre, seq![x], f);
    assert(seq![s[i]].drop_last() =~= Seq::<u8>::empty());
    assert(seq![x].drop_last() =~= Seq::<u8>::empty());
}

/// An action of Edge on a test.
#[derive(Debug, Clone, Copy, PartialEq, Eq, Structural)]
pub enum EdgeAction {
    RerollFailures,
    AddExtraDice(u8),
    PushTheLimit,
}

/// The outcome of a roll.
#[derive(Debug)]
pub struct DiceRoll {
    pub hits: u8,
    pub glitch: bool,
    pub critical_glitch: bool,
    pub critical_success: bool,
    pub dice_results: Vec<u8>,
}

/// `min(a, b)`.
pub open spec fn min_int(a: int, b: int) -> int {
    if a < b {
        a
    } else {
        b
    }
}

/// The summary of a roll whose dice show `results`: hits (saturating at 255, then
/// capped by the limit), a glitch when more than half the pool shows 1, a
/// critical glitch when a glitch scores no hit, a critical success when the hits
/// reach twice the threshold.
pub open spec fn summarizes(
    r: DiceRoll,
    dice_pool: u8,
    limit: Option<u8>,
    threshold: Option<u8>,
    results: Seq<u8>,
) -> bool {
    let raw = min_int(hits_in(results) as int, 255);
    &&& r.dice_results@ == results
    &&& r.hits == match limit {
        Some(l) => min_int(raw, l as int),
        None => raw,
    }
    &&& r.glitch == (ones_in(results) > dice_pool / 2)
    &&& r.critical_glitch == (r.glitch && r.hits == 0)
    &&& r.critical_success == match threshold {
        Some(t) => r.hits >= 2 * t,
        None => false,
    }
}

/// Every die shows 1 to 6.
pub open spec fn valid_dice(s: Seq<u8>) -> bool {
    forall|i: int| 0 <= i < s.len() ==> 1 <= #[trigger] s[i] <= 6
}

/// Turns the dice of a roll into its outcome: the limit caps the hits, then glitch,
/// critical glitch and critical success are read off.
pub fn summarize_roll(
    dice_pool: u8,
    limit: Option<u8>,
    threshold: Option<u8>,
    raw_hits: u8,
    ones: usize,
    results: Vec<u8>,
) -> (r: DiceRoll)
    requires
        threshold matches Some(t) ==> 2 * t <= 255,
        raw_hits == min_int(hits_in(results@) as int, 255),
        ones == ones_in(results@),
    ensures
        summarizes(r, dice_pool, limit, threshold, results@),
{
    let hits = match limit {
        Some(lim) => if raw_hits < lim {
            raw_hits
        } else {
            lim
        },
        None => raw_hits,
    };
    let glitch = ones > (dice_pool as usize) / 2;
    let critical_glitch = glitch && hits == 0;
    let critical_success = match threshold {
        Some(t) => hits >= t * 2,
        None => false,
    };
    DiceRoll { hits, glitch, critical_glitch, critical_success, dice_results: results }
}

/// Rolls `count` dice, each rerolled while it shows 6 (every 6 is a hit), appending
/// every die to `results`. Hits saturate at 255; a chain stops there.
fn roll_chains(results: &mut Vec<u8>, hits: &mut u8, ones: &mut usize, count: u8)
    requires
        *old(hits) == min_int(hits_in(old(results)@) as int, 255),
        *old(ones) == ones_in(old(results)@),
        valid_dice(old(results)@),
    ensures
        *final(hits) == min_int(hits_in(final(results)@) as int, 255),
        *final(ones) == ones_in(final(results)@),
        valid_dice(final(results)@),
        final(results)@.len() >= old(results)@.len() + count,
        old(results)@.len() == 0 || old(results)@.last() != 6 ==> final(results)@.len() == 0
            || final(results)@.last() != 6 || hits_in(final(results)@) >= 255,
        hits_in(final(results)@) < 255 ==> count_by(final(results)@, is_not_six()) == count_by(
            old(results)@,
            is_not_six(),
        ) + count,
        hits_in(final(results)@) >= hits_in(old(results)@),
{
    let ghost start = results@;
    let mut k: u8 = 0;
    while k < count
        invariant
            k <= count,
            *hits == min_int(hits_in(results@) as int, 255),
            *ones == ones_in(results@),
            valid_dice(results@),
            results@.len() >= start.len() + k,
            start.len() == 0 || start.last() != 6 ==> results@.len() == 0 || results@.last() != 6
                || hits_in(results@) >= 255,
            hits_in(results@) < 255 ==> count_by(results@, is_not_six()) == count_by(
                start,
                is_not_six(),
            ) + k,
            hits_in(results@) >= hits_in(start),
        decreases count - k,
    {
        let mut die = roll_die();
        let ghost before = results@;
        results.push(die);
        proof {
            assert(results@.drop_last() =~= before);
            lemma_count_len(before, is_one());
        }
        while die == 6 && *hits < 255
            invariant
                1 <= die <= 6,
                results@.len() > 0 && results@.last() == die,
                *hits == min_int(hits_in(results@.drop_last()) as int, 255),
                *ones == ones_in(results@.drop_last()),
                valid_dice(results@),
                results@.len() >= start.len() + k + 1,
                hits_in(results@) >= hits_in(start),
                hits_in(results@) < 255 ==> count_by(results@, is_not_six()) == count_by(
                    start,
                    is_not_six(),
                ) + k + (if die != 6 {
                    1int
                } else {
                    0int
                }),
            decreases 255 - *hits,
        {
            *hits = *hits + 1;
            die = roll_die();
            let ghost prev = results@;
            results.push(die);
            proof {
                assert(results@.drop_last() =~= prev);
            }
        }
        proof {
            lemma_count_len(results@.drop_last(), is_one());
            assert(results@.len() == results.len() && results.len() <= usize::MAX);
        }
        if die >= 5 {
            if *hits < 255 {
                *hits = *hits + 1;
            }
        } else if die == 1 {
            *ones = *ones + 1;
        }
        k = k + 1;
    }
}

/// A die showing less than 5 is a failure, which Edge may reroll.
pub open spec fn is_failure() -> spec_fn(u8) -> bool {
    |d: u8| d < 5
}

/// `after` is `before` with every failure replaced, in order, by the next face of
/// `fresh`: the failure at `i` takes the face after as many fresh faces as there
/// are failures before `i`; every hit stays.
pub open spec fn rerolled_with(before: Seq<u8>, fresh: Seq<u8>, after: Seq<u8>) -> bool {
    &&& after.len() == before.len()
    &&& forall|i: int|
        0 <= i < before.len() ==> #[trigger] after[i] == if before[i] < 5 {
            fresh[count_by(before.take(i), is_failure()) as int]
        } else {
            before[i]
        }
}

/// Counting over one more element of a prefix.
pub proof fn lemma_count_prefix_step(s: Seq<u8>, i: int, f: spec_fn(u8) -> bool)
    requires
        0 <= i < s.len(),
    ensures
        count_by(s.take(i + 1), f) == count_by(s.take(i), f) + if f(s[i]) {
            1int
        } else {
            0int
        },
{
    assert(s.take(i + 1).drop_last() =~= s.take(i));
}

/// A prefix counts no more than the whole.
pub proof fn lemma_count_prefix_le(s: Seq<u8>, i: int, f: spec_fn(u8) -> bool)
    requires
        0 <= i <= s.len(),
    ensures
        count_by(s.take(i), f) <= count_by(s, f),
{
    assert(s =~= s.take(i) + s.skip(i));
    lemma_count_concat(s.take(i), s.skip(i), f);
}

/// Rerolls every failure of a roll with the faces `fresh` gives, in order (without
/// the rule of six), keeping the counts of hits and ones in step.
pub fn reroll_with(results: &mut Vec<u8>, hits: &mut u8, ones: &mut usize, fresh: &Vec<u8>)
    requires
        *old(hits) == min_int(hits_in(old(results)@) as int, 255),
        *old(ones) == ones_in(old(results)@),
        fresh@.len() >= count_by(old(results)@, is_failure()),
    ensures
        rerolled_with(old(results)@, fresh@, final(results)@),
        *final(hits) == min_int(hits_in(final(results)@) as int, 255),
        *final(ones) == ones_in(final(results)@),
        hits_in(final(results)@) >= hits_in(old(results)@),
        valid_dice(old(results)@) && valid_dice(fresh@) ==> valid_dice(final(results)@),
{
    let n = results.len();
    let ghost start = results@;
    let mut i: usize = 0;
    let mut k: usize = 0;
    let fresh_len = fresh.len();
    while i < n
        invariant
            n == results@.len(),
            n == start.len(),
            fresh_len == fresh@.len(),
            i <= n,
            k == count_by(start.take(i as int), is_failure()),
            fresh@.len() >= count_by(start, is_failure()),
            *hits == min_int(hits_in(results@) as int, 255),
            *ones == ones_in(results@),
            hits_in(results@) >= hits_in(start),
            forall|j: int|
                0 <= j < i ==> #[trigger] results@[j] == if start[j] < 5 {
                    fresh@[count_by(start.take(j), is_failure()) as int]
                } else {
                    start[j]
                },
            forall|j: int| i <= j < n ==> #[trigger] results@[j] == start[j],
            valid_dice(start) && valid_dice(fresh@) ==> valid_dice(results@),
        decreases n - i,
    {
        proof {
            lemma_count_prefix_step(start, i as int, is_failure());
            lemma_count_prefix_le(start, i as int + 1, is_failure());
        }
        let old_die = results[i];
        if old_die < 5 {
            let new_die = fresh[k];
            let ghost before = results@;
            results.set(i, new_die);
            proof {
                lemma_count_update(before, i as int, new_die, is_hit());
                lemma_count_update(before, i as int, new_die, is_one());
                lemma_count_update(before, i as int, 0, is_one());
                lemma_count_len(results@, is_one());
            }
            if old_die == 1 {
                *ones = *ones - 1;
            }
            if new_die >= 5 {
                if *hits < 255 {
                    *hits = *hits + 1;
                }
            } else if new_die == 1 {
                *ones = *ones + 1;
            }
            k = k + 1;
        }
        i = i + 1;
    }
    proof {
        assert(start.take(n as int) =~= start);
    }
}

/// Rerolls every die below 5 once (without the rule of six): draws one fresh face
/// for each failure, then rerolls with them.
fn reroll_failures(results: &mut Vec<u8>, hits: &mut u8, ones: &mut usize)
    requires
        *old(hits) == min_int(hits_in(old(results)@) as int, 255),
        *old(ones) == ones_in(old(results)@),
        valid_dice(old(results)@),
    ensures
        *final(hits) == min_int(hits_in(final(results)@) as int, 255),
        *final(ones) == ones_in(final(results)@),
        valid_dice(final(results)@),
        hits_in(final(results)@) >= hits_in(old(results)@),
        exists|fresh: Seq<u8>|
            valid_dice(fresh) && fresh.len() == count_by(old(results)@, is_failure())
                && #[trigger] rerolled_with(old(results)@, fresh, final(results)@),
{
    let n = results.len();
    let mut failures: usize = 0;
    let mut i: usize = 0;
    while i < n
        invariant
            n == results@.len(),
            i <= n,
            failures == count_by(results@.take(i as int), is_failure()),
        decreases n - i,
    {
        proof {
            lemma_count_prefix_step(results@, i as int, is_failure());
            lemma_count_prefix_le(results@, i as int + 1, is_failure());
            lemma_count_len(results@, is_failure());
        }
        if results[i] < 5 {
            failures = failures + 1;
        }
        i = i + 1;
    }
    proof {
        assert(results@.take(n as int) =~= results@);
    }
    let mut fresh: Vec<u8> = Vec::new();
    let mut d: usize = 0;
    while d < failures
        invariant
            d <= failures,
            fresh@.len() == d,
            valid_dice(fresh@),
        decreases failures - d,
    {
        let face = roll_die();
        fresh.push(face);
        d = d + 1;
    }
    reroll_with(results, hits, ones, &fresh);
}

/// The limit a roll is held to: pushing the limit lifts it.
pub open spec fn limit_under(limit: Option<u8>, edge_action: Option<EdgeAction>) -> Option<u8> {
    if edge_action == Some(EdgeAction::PushTheLimit) {
        None
    } else {
        limit
    }
}

/// Rolls a test of `dice_pool` dice. Each die shows 1 to 6 and is rerolled while it
/// shows 6; 5 and 6 are hits. Edge may reroll every failure once, add dice, or push
/// the limit, which then no longer caps the hits; otherwise the limit caps them.
/// Hits are counted up to 255.
pub fn dice_roll(
    dice_pool: u8,
    limit: Option<u8>,
    threshold: Option<u8>,
    edge_action: Option<EdgeAction>,
) -> (r: DiceRoll)
    requires
        threshold matches Some(t) ==> 2 * t <= 255,
    ensures
        summarizes(r, dice_pool, limit_under(limit, edge_action), threshold, r.dice_results@),
        valid_dice(r.dice_results@),
        r.dice_results@.len() >= dice_pool + match edge_action {
            Some(EdgeAction::AddExtraDice(extra)) => extra as int,
            _ => 0,
        },
        !(edge_action == Some(EdgeAction::RerollFailures)) && hits_in(r.dice_results@) < 255
            ==> complete_chains(
            r.dice_results@,
            (dice_pool + match edge_action {
                Some(EdgeAction::AddExtraDice(extra)) => extra as int,
                _ => 0,
            }) as nat,
        ),
        edge_action == Some(EdgeAction::RerollFailures) && hits_in(r.dice_results@) < 255
            ==> exists|first: Seq<u8>, fresh: Seq<u8>|
            complete_chains(first, dice_pool as nat) && valid_dice(first) && valid_dice(fresh)
                && fresh.len() == count_by(first, is_failure()) && #[trigger] rerolled_with(
                first,
                fresh,
                r.dice_results@,
            ),
{
    let mut results: Vec<u8> = Vec::new();
    let mut hits: u8 = 0;
    let mut ones: usize = 0;
    roll_chains(&mut results, &mut hits, &mut ones, dice_pool);
    let ghost first = results@;
    match edge_action {
        Some(EdgeAction::RerollFailures) => {
            reroll_failures(&mut results, &mut hits, &mut ones);
            proof {
                let fresh = choose|fresh: Seq<u8>|
                    valid_dice(fresh) && fresh.len() == count_by(first, is_failure())
                        && #[trigger] rerolled_with(first, fresh, results@);
                assert(rerolled_with(first, fresh, results@));
            }
        },
        Some(EdgeAction::AddExtraDice(extra)) => {
            roll_chains(&mut results, &mut hits, &mut ones, extra);
        },
        Some(EdgeAction::PushTheLimit) => {},
        None => {},
    }
    let held_to = match edge_action {
        Some(EdgeAction::PushTheLimit) => None,
        _ => limit,
    };
    summarize_roll(dice_pool, held_to, threshold, hits, ones, results)
}

/// A request from the game master to roll a test for a character.
#[derive(Debug)]
pub struct DiceRollRequest {
    pub character_name: String,
    pub attribute: String,
    pub skill: String,
    pub limit_type: String,
    pub threshold: Option<u8>,
    pub edge_action: Option<String>,
    pub extra_dice: Option<u8>,
}

/// The answer sent back for a roll.
#[derive(Debug)]
pub struct DiceRollResponse {
    pub dice_results: Vec<u8>,
    pub hits: u8,
    pub success: bool,
    pub glitch: bool,
    pub critical_glitch: bool,
    pub critical_success: bool,
}

/// The Edge action a request names: "RerollFailures", "AddExtraDice" (with the
/// extra dice; without them no action), "PushTheLimit"; `Err` for another name.
pub open spec fn edge_named(name: Option<String>, extra: Option<u8>) -> Result<Option<EdgeAction>, ()> {
    match name {
        None => Ok(None),
        Some(n) => if n@ == "RerollFailures"@ {
            Ok(Some(EdgeAction::RerollFailures))
        } else if n@ == "AddExtraDice"@ {
            Ok(
                match extra {
                    Some(e) => Some(EdgeAction::AddExtraDice(e)),
                    None => None,
                },
            )
        } else if n@ == "PushTheLimit"@ {
            Ok(Some(EdgeAction::PushTheLimit))
        } else {
            Err(())
        },
    }
}

/// Reads the Edge action a request names.
pub fn parse_edge(name: &Option<String>, extra: Option<u8>) -> (r: Result<Option<EdgeAction>, ()>)
    ensures
        r == edge_named(*name, extra),
{
    match name {
        None => Ok(None),
        Some(n) => {
            if str_eq(n.as_str(), "RerollFailures") {
                Ok(Some(EdgeAction::RerollFailures))
            } else if str_eq(n.as_str(), "AddExtraDice") {
                match extra {
                    Some(e) => Ok(Some(EdgeAction::AddExtraDice(e))),
                    None => Ok(None),
                }
            } else if str_eq(n.as_str(), "PushTheLimit") {
                Ok(Some(EdgeAction::PushTheLimit))
            } else {
                Err(())
            }
        },
    }
}

/// The request can be rolled without overflow: the pool of the character it names
/// fits in a byte and, once its Edge action is read, the threshold doubles within a
/// byte. A request naming nobody always fits.
pub open spec fn roll_fits(request: DiceRollRequest, game_state: GameState) -> bool {
    forall|i: int|
        is_first_named(game_state.characters@, request.character_name@, i) ==> {
            &&& dice_pool(#[trigger] game_state.characters@[i], request.attribute@, request.skill@)
                <= 255
            &&& edge_named(request.edge_action, request.extra_dice) is Ok ==> (
            request.threshold matches Some(t) ==> 2 * t <= 255)
        }
}

/// What a roll answers: the dice and their summary for the character's pool and
/// limit (lifted when Edge pushes it), and success when the hits reach the threshold (or, with no threshold, when
/// there is a hit).
pub open spec fn answers(
    resp: DiceRollResponse,
    request: DiceRollRequest,
    game_state: GameState,
    i: int,
    edge: Option<EdgeAction>,
) -> bool {
    let sheet = game_state.characters@[i];
    let pool = dice_pool(sheet, request.attribute@, request.skill@) as u8;
    let lim = limit_named(sheet.derived_attributes.limits, spec_to_lowercase(request.limit_type@));
    let summary = DiceRoll {
        hits: resp.hits,
        glitch: resp.glitch,
        critical_glitch: resp.critical_glitch,
        critical_success: resp.critical_success,
        dice_results: resp.dice_results,
    };
    &&& summarizes(
        summary,
        pool,
        limit_under(Some(lim as u8), edge),
        request.threshold,
        resp.dice_results@,
    )
    &&& valid_dice(resp.dice_results@)
    &&& resp.dice_results@.len() >= pool + match edge {
        Some(EdgeAction::AddExtraDice(extra)) => extra as int,
        _ => 0,
    }
    &&& resp.success == match request.threshold {
        Some(t) => resp.hits >= t,
        None => resp.hits > 0,
    }
}

/// What rolling a request gives: an error naming the character when nobody has its
/// name; an error for an unknown Edge action; otherwise the roll of the first
/// character of that name.
pub open spec fn roll_outcome(
    r: Result<DiceRollResponse, String>,
    request: DiceRollRequest,
    game_state: GameState,
) -> bool {
    if !has_named(game_state.characters@, request.character_name@) {
        r is Err && r->Err_0@ == "Character '"@ + request.character_name@ + "' not found"@
    } else {
        match edge_named(request.edge_action, request.extra_dice) {
            Err(_) => r is Err && r->Err_0@ == "Invalid edge action"@,
            Ok(edge) => r is Ok && exists|i: int|
                is_first_named(game_state.characters@, request.character_name@, i) && answers(
                    r->Ok_0,
                    request,
                    game_state,
                    i,
                    edge,
                ),
        }
    }
}

/// Rolls the test a request asks for: finds the first character of that name,
/// takes the dice pool of the attribute and skill and the limit of the named kind,
/// reads the Edge action, rolls, and reports success against the threshold.
pub fn perform_dice_roll(request: DiceRollRequest, game_state: &GameState) -> (r: Result<
    DiceRollResponse,
    String,
>)
    requires
        roll_fits(request, *game_state),
    ensures
        roll_outcome(r, request, *game_state),
{
    let i = match find_character(&game_state.characters, request.character_name.as_str()) {
        Some(i) => i,
        None => {
            return Err(
                concat3("Character '", request.character_name.as_str(), "' not found"),
            );
        },
    };
    let character = &game_state.characters[i];
    let pool = character.get_dice_pool(request.attribute.as_str(), request.skill.as_str());
    let limit = Some(character.get_limit(request.limit_type.as_str()));
    let edge_action = match parse_edge(&request.edge_action, request.extra_dice) {
        Ok(e) => e,
        Err(()) => {
            let r = Err(owned("Invalid edge action"));
            assert(edge_named(request.edge_action, request.extra_dice) is Err);
            assert(roll_outcome(r, request, *game_state));
            return r;
        },
    };
    let roll = dice_roll(pool, limit, request.threshold, edge_action);
    let success = match request.threshold {
        Some(t) => roll.hits >= t,
        None => roll.hits > 0,
    };
    let ghost summary = roll;
    let resp = DiceRollResponse {
        hits: roll.hits,
        glitch: roll.glitch,
        critical_glitch: roll.critical_glitch,
        critical_success: roll.critical_success,
        dice_results: roll.dice_results,
        success,
    };
    assert(is_first_named(game_state.characters@, request.character_name@, i as int));
    assert(answers(resp, request, *game_state, i as int, edge_action));
    assert(exists|j: int|
        is_first_named(game_state.characters@, request.character_name@, j) && answers(
            resp,
            request,
            *game_state,
            j,
            edge_action,
        ));
    let r = Ok(resp);
    assert(has_named(game_state.characters@, request.character_name@)) by {
        assert(game_state.characters@[i as int].name@ == request.character_name@);
    }
    assert(edge_named(request.edge_action, request.extra_dice) == Ok::<Option<EdgeAction>, ()>(edge_action));
    assert(r is Ok && r->Ok_0 == resp);
    let ghost e2 = edge_named(request.edge_action, request.extra_dice)->Ok_0;
    assert(e2 == edge_action);
    assert(exists|j: int|
        is_first_named(game_state.characters@, request.character_name@, j) && answers(
            r->Ok_0,
            request,
            *game_state,
            j,
            e2,
        ));
    assert(roll_outcome(r, request, *game_state));
    r
}

} // verus!
