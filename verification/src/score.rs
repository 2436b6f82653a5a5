//! The score: what the dying are worth, added up and shown.

use crate::components::{PlayerScore, PointWorth};
use crate::events::ScoreUpEvent;
use crate::systems::{all_marked, player_dies, survivors, Vitals};
use vstd::prelude::*;

verus! {

/// The score events of a frame: one for every entity that dies in it and is
/// worth something, in order.
pub open spec fn score_events(entities: Seq<Vitals>) -> Seq<ScoreUpEvent>
    decreases entities.len(),
{
    if entities.len() == 0 {
        Seq::empty()
    } else if entities.last().dies() && entities.last().point_worth is Some {
        score_events(entities.drop_last()).push(ScoreUpEvent(entities.last().point_worth->0))
    } else {
        score_events(entities.drop_last())
    }
}

/// The points that the events carry, added up.
pub open spec fn total_points(events: Seq<ScoreUpEvent>) -> nat
    decreases events.len(),
{
    if events.len() == 0 {
        0
    } else {
        total_points(events.drop_last()) + events.last().0.0 as nat
    }
}

/// The score after `points` more, which stops at the greatest number it can
/// hold.
pub open spec fn score_after(score: nat, points: nat) -> nat {
    if score + points > u32::MAX {
        u32::MAX as nat
    } else {
        score + points
    }
}

/// The digits of a number, the first one first.
pub open spec fn decimal_digits(n: nat) -> Seq<char>
    decreases n,
{
    if n < 10 {
        seq![digit_char(n)]
    } else {
        decimal_digits(n / 10).push(digit_char(n % 10))
    }
}

/// The character of a digit.
pub open spec fn digit_char(d: nat) -> char {
    if d == 0 {
        '0'
    } else if d == 1 {
        '1'
    } else if d == 2 {
        '2'
    } else if d == 3 {
        '3'
    } else if d == 4 {
        '4'
    } else if d == 5 {
        '5'
    } else if d == 6 {
        '6'
    } else if d == 7 {
        '7'
    } else if d == 8 {
        '8'
    } else {
        '9'
    }
}

/// Finds the entities that die in this frame and reports what each is worth.
pub fn trigger_score_update(entities: &Vec<Vitals>) -> (events: Vec<ScoreUpEvent>)
    ensures
        events@ == score_events(entities@),
{
    let mut events: Vec<ScoreUpEvent> = Vec::new();
    let mut i: usize = 0;
    while i < entities.len()
        invariant
            i <= entities.len(),
            events@ == score_events(entities@.take(i as int)),
        decreases entities.len() - i,
    {
        proof {
            let upto = entities@.take(i as int + 1);
            assert(upto.drop_last() == entities@.take(i as int));
            assert(upto.last() == entities[i as int]);
        }
        let entity = entities[i];
        if entity.changed && entity.health.0 <= 0 {
            match entity.point_worth {
                Some(points) => {
                    events.push(ScoreUpEvent(points));
                },
                None => {},
            }
        }
        i += 1;
    }
    proof {
        assert(entities@.take(entities.len() as int) == entities@);
    }
    events
}

/// Adds the points of the events to the score.
pub fn update_score(events: &Vec<ScoreUpEvent>, score: &mut PlayerScore)
    ensures
        final(score).0 == score_after(old(score).0 as nat, total_points(events@)),
{
    let mut i: usize = 0;
    while i < events.len()
        invariant
            i <= events.len(),
            score.0 == score_after(old(score).0 as nat, total_points(events@.take(i as int))),
        decreases events.len() - i,
    {
        proof {
            let upto = events@.take(i as int + 1);
            assert(upto.drop_last() == events@.take(i as int));
            assert(upto.last() == events[i as int]);
        }
        let points: u32 = events[i].0.0;
        score.0 = if points > u32::MAX - score.0 {
            u32::MAX
        } else {
            score.0 + points
        };
        i += 1;
    }
    proof {
        assert(events@.take(events.len() as int) == events@);
    }
}

/// One digit as a character.
fn digit(d: u32) -> (c: char)
    requires
        d < 10,
    ensures
        c == digit_char(d as nat),
{
    if d == 0 {
        '0'
    } else if d == 1 {
        '1'
    } else if d == 2 {
        '2'
    } else if d == 3 {
        '3'
    } else if d == 4 {
        '4'
    } else if d == 5 {
        '5'
    } else if d == 6 {
        '6'
    } else if d == 7 {
        '7'
    } else if d == 8 {
        '8'
    } else {
        '9'
    }
}

/// `String::push`: appends one character to the end of the text.
#[verifier::external_body]
fn push_char(text: &mut String, c: char)
    ensures
        final(text)@ == old(text)@.push(c),
{
    text.push(c);
}

/// The text to show for the score: its decimal digits. Nothing is to be
/// shown anew while the score has not changed.
pub fn update_score_text(score: &PlayerScore, changed: bool) -> (text: Option<String>)
    ensures
        !changed ==> text is None,
        changed ==> text is Some && text->0@ == decimal_digits(score.0 as nat),
{
    if !changed {
        return None;
    }
    let mut backwards: Vec<char> = Vec::new();
    let mut rest: u32 = score.0;
    backwards.push(digit(rest % 10));
    rest = rest / 10;
    proof {
        let d = digit_char((score.0 % 10) as nat);
        assert(backwards@ =~= seq![d]);
        assert(backwards@.reverse() =~= seq![d]);
        if rest > 0 {
            assert(decimal_digits(rest as nat).push(d) =~= decimal_digits(rest as nat) + seq![d]);
        }
    }
    while rest > 0
        invariant
            backwards.len() >= 1,
            rest > 0 ==> decimal_digits(score.0 as nat) == decimal_digits(rest as nat)
                + backwards@.reverse(),
            rest == 0 ==> decimal_digits(score.0 as nat) == backwards@.reverse(),
        decreases rest,
    {
        let ghost before = backwards@;
        let ghost whole = rest;
        backwards.push(digit(rest % 10));
        rest = rest / 10;
        proof {
            let d = digit_char((whole % 10) as nat);
            assert(backwards@ == before.push(d));
            assert(backwards@.reverse() =~= seq![d] + before.reverse());
            if whole < 10 {
                assert(decimal_digits(whole as nat) == seq![d]);
            } else {
                assert(decimal_digits(whole as nat) == decimal_digits(rest as nat).push(d));
                assert(decimal_digits(rest as nat).push(d) + before.reverse() =~= decimal_digits(
                    rest as nat,
                ) + (seq![d] + before.reverse()));
            }
        }
    }
    let mut text = String::new();
    let mut i: usize = backwards.len();
    while i > 0
        invariant
            i <= backwards.len(),
            text@ == backwards@.reverse().take(backwards.len() - i),
        decreases i,
    {
        i -= 1;
        push_char(&mut text, backwards[i]);
        proof {
            let shown = backwards@.reverse();
            assert(shown[backwards.len() - 1 - i] == backwards[i as int]);
            assert(text@ =~= shown.take(backwards.len() - i));
        }
    }
    proof {
        assert(backwards@.reverse().take(backwards.len() as int) == backwards@.reverse());
    }
    Some(text)
}

/// Whatever survives the cleanup is not dead.
pub proof fn lemma_survivors_live(entities: Seq<Vitals>)
    ensures
        forall|i: int|
            0 <= i < survivors(entities).len() ==> (#[trigger] survivors(entities)[i]).dead is None
                && entities.contains(survivors(entities)[i]),
    decreases entities.len(),
{
    if entities.len() > 0 {
        let body = entities.drop_last();
        lemma_survivors_live(body);
        assert forall|i: int| 0 <= i < survivors(entities).len() implies (#[trigger] survivors(
            entities,
        )[i]).dead is None && entities.contains(survivors(entities)[i]) by {
            if i < survivors(body).len() {
                let x = survivors(body)[i];
                let w = choose|k: int| 0 <= k < body.len() && body[k] == x;
                assert(entities[w] == x);
            } else {
                assert(entities[entities.len() - 1] == entities.last());
            }
        }
    }
}

/// Where nothing dies, no score is reported.
pub proof fn lemma_no_death_no_score(entities: Seq<Vitals>)
    requires
        forall|i: int| 0 <= i < entities.len() ==> !(#[trigger] entities[i]).dies(),
    ensures
        score_events(entities).len() == 0,
    decreases entities.len(),
{
    if entities.len() > 0 {
        lemma_no_death_no_score(entities.drop_last());
    }
}

/// Marking the dead a second time changes nothing, neither before the
/// cleanup nor after it: the entities that are left when the marked ones are
/// gone do not die again, do not end the game, and bring no score. So what a
/// dead and removed entity was worth is counted once.
pub proof fn lemma_second_marking_counts_nothing(entities: Seq<Vitals>)
    ensures
        all_marked(all_marked(entities)) == all_marked(entities),
        all_marked(survivors(all_marked(entities))) == survivors(all_marked(entities)),
        !player_dies(survivors(all_marked(entities))),
        score_events(survivors(all_marked(entities))).len() == 0,
{
    let marked = all_marked(entities);
    let rest = survivors(marked);
    assert(all_marked(marked) =~= marked);
    lemma_survivors_live(marked);
    assert forall|i: int| 0 <= i < rest.len() implies !(#[trigger] rest[i]).dies() by {
        let x = rest[i];
        let w = choose|k: int| 0 <= k < marked.len() && marked[k] == x;
        assert(marked[w] == entities[w].marked());
    }
    assert(all_marked(rest) =~= rest);
    lemma_no_death_no_score(rest);
}

} // verus!
