//! Spellcards: time windows on a shared encounter clock that decide which
//! emitters are active.
use vstd::prelude::*;

verus! {

/// A time window `[start_time, end_time)`, in microseconds of encounter
/// time, during which the listed emitters are active.
pub struct Spellcard {
    pub emitters: Vec<usize>,
    pub start_time: u64,
    pub end_time: u64,
}

/// Every spellcard's window has ended before `t`.
pub open spec fn all_expired(cards: Seq<Spellcard>, t: int) -> bool {
    forall|i: int| 0 <= i < cards.len() ==> (#[trigger] cards[i]).end_time < t
}

/// The window of `c` holds `t`.
pub open spec fn covers(c: Spellcard, t: int) -> bool {
    c.start_time <= t < c.end_time
}

/// Some spellcard whose window holds `t` lists emitter `id`.
pub open spec fn is_active(cards: Seq<Spellcard>, t: int, id: int) -> bool {
    exists|i: int| 0 <= i < cards.len() && covers(#[trigger] cards[i], t) && cards[i].emitters@.contains(id as usize)
}

/// The encounter clock after a tick of `dt`: it advances, and goes back to
/// zero once every window has ended.
pub open spec fn clock_after(cards: Seq<Spellcard>, elapsed: int, dt: int) -> int {
    if all_expired(cards, elapsed + dt) {
        0
    } else {
        elapsed + dt
    }
}

/// Advances the encounter clock by `dt` microseconds; once every
/// spellcard's window has ended, the clock starts over from zero.
pub fn advance_encounter_time(elapsed: &mut u64, dt: u64, cards: &Vec<Spellcard>)
    requires
        *old(elapsed) + dt <= u64::MAX,
    ensures
        *final(elapsed) == clock_after(cards@, *old(elapsed) as int, dt as int),
{
    let t = *elapsed + dt;
    let mut expired = true;
    let mut i: usize = 0;
    while i < cards.len()
        invariant
            i <= cards@.len(),
            expired == (forall|k: int| 0 <= k < i ==> (#[trigger] cards@[k]).end_time < t),
        decreases cards@.len() - i,
    {
        if !(cards[i].end_time < t) {
            expired = false;
        }
        i = i + 1;
    }
    *elapsed = if expired { 0 } else { t };
}

/// The active flag of each of `n_emitters` emitters at encounter time
/// `elapsed`: set exactly for the emitters that some spellcard covering
/// `elapsed` lists. A listed id with no emitter is skipped.
pub fn process_spellcards(elapsed: u64, cards: &Vec<Spellcard>, n_emitters: usize) -> (r: Vec<bool>)
    ensures
        r@.len() == n_emitters,
        forall|id: int| 0 <= id < n_emitters ==> #[trigger] r@[id] == is_active(cards@, elapsed as int, id),
{
    let mut active: Vec<bool> = Vec::new();
    while active.len() < n_emitters
        invariant
            active@.len() <= n_emitters,
            forall|id: int| 0 <= id < active@.len() ==> !#[trigger] active@[id],
        decreases n_emitters - active@.len(),
    {
        active.push(false);
    }
    let mut i: usize = 0;
    while i < cards.len()
        invariant
            i <= cards@.len(),
            active@.len() == n_emitters,
            forall|id: int| 0 <= id < n_emitters ==> #[trigger] active@[id] == exists|k: int|
                0 <= k < i && covers(#[trigger] cards@[k], elapsed as int)
                    && cards@[k].emitters@.contains(id as usize),
        decreases cards@.len() - i,
    {
        let card = &cards[i];
        if card.start_time <= elapsed && elapsed < card.end_time {
            let mut j: usize = 0;
            while j < card.emitters.len()
                invariant
                    i < cards@.len(),
                    *card == cards@[i as int],
                    covers(*card, elapsed as int),
                    j <= card.emitters@.len(),
                    active@.len() == n_emitters,
                    forall|id: int| 0 <= id < n_emitters ==> #[trigger] active@[id] == ((exists|k: int|
                        0 <= k < i && covers(#[trigger] cards@[k], elapsed as int)
                            && cards@[k].emitters@.contains(id as usize))
                        || card.emitters@.subrange(0, j as int).contains(id as usize)),
                decreases card.emitters@.len() - j,
            {
                let id = card.emitters[j];
                if id < n_emitters {
                    active.set(id, true);
                }
                proof {
                    assert(card.emitters@.subrange(0, j + 1) =~= card.emitters@.subrange(0, j as int).push(id));
                    assert forall|x: int| 0 <= x < n_emitters implies #[trigger] active@[x] == ((exists|k: int|
                        0 <= k < i && covers(#[trigger] cards@[k], elapsed as int)
                            && cards@[k].emitters@.contains(x as usize))
                        || card.emitters@.subrange(0, j + 1).contains(x as usize)) by {
                        if x as usize == id {
                            assert(card.emitters@.subrange(0, j + 1)[j as int] == id);
                        }
                    }
                }
                j = j + 1;
            }
            proof {
                assert(card.emitters@.subrange(0, card.emitters@.len() as int) =~= card.emitters@);
                assert forall|x: int| 0 <= x < n_emitters implies #[trigger] active@[x] == exists|k: int|
                    0 <= k < i + 1 && covers(#[trigger] cards@[k], elapsed as int)
                        && cards@[k].emitters@.contains(x as usize) by {
                    if card.emitters@.contains(x as usize) {
                        assert(covers(cards@[i as int], elapsed as int));
                    }
                }
            }
        }
        i = i + 1;
    }
    active
}

/// The encounter loops: once the clock passes every window's end it is back
/// at zero after the tick, and every emitter's activity is then what it was
/// at the very start of the encounter.
pub proof fn lemma_spellcard_loop(cards: Seq<Spellcard>, elapsed: int, dt: int)
    requires
        all_expired(cards, elapsed + dt),
    ensures
        clock_after(cards, elapsed, dt) == 0,
        forall|id: int| #[trigger] is_active(cards, clock_after(cards, elapsed, dt), id) == is_active(cards, 0, id),
{
}

} // verus!
