//! The statistics aggregate and the guess evaluator: the running tally of
//! game outcomes with its derived ratios and renders, and the evaluation of
//! one guess against a freshly drawn target.

use vstd::prelude::*;
use vstd::string::StringExecFns;
use rand::Rng;
use crate::record::lemma_record_round_trip;
use crate::record::parse_record;
use crate::record::render_record;
use crate::record::spec_deserialize;
use crate::record::spec_serialize;
use crate::text::spec_digits;
use crate::text::u32_to_string;

verus! {

/// The running tally of game outcomes. Every reachable value keeps
/// `total == won + lost`; the mutating operations below state and preserve
/// that consistency.
#[derive(Clone, Copy, PartialEq, Eq, Structural, Debug)]
pub struct Stats {
    pub total: u32,
    pub won: u32,
    pub lost: u32,
}

/// The error of the practically infallible serialization; the fallible
/// signature is kept for interface parity.
#[derive(Debug)]
pub struct SerializationError;

/// The text handed in was not a well-formed persisted stats record.
#[derive(Debug)]
pub struct DeserializationError;

/// A derived percentage: either the exact whole number of a guarded case,
/// or a fraction `num / den` (with `den > 0`) that the caller still scales
/// by 100 and renders in its own floating-point notation.
#[derive(Clone, Copy, PartialEq, Eq, Structural, Debug)]
pub enum Ratio {
    Exact(u32),
    Frac(u32, u32),
}

/// The feedback line for a winning guess.
pub open spec fn win_feedback() -> Seq<char> {
    ">>> Whoa! Who's the lucky mack?!"@
}

/// The feedback line for a guess below the target.
pub open spec fn too_low_feedback(yours: u32, expected: u32) -> Seq<char> {
    ">>> A bit too low: yours "@ + spec_digits(yours as nat) + ", expected "@ + spec_digits(
        expected as nat,
    )
}

/// The feedback line for a guess above the target.
pub open spec fn too_far_feedback(yours: u32, expected: u32) -> Seq<char> {
    ">>> Now this went too far: yours "@ + spec_digits(yours as nat) + ", expected "@ + spec_digits(
        expected as nat,
    )
}

/// The render of a tally: a left-aligned table of four arrow-prefixed rows,
/// the labels padded to the longest label ("win-lose ratio") plus one
/// space, and the two caller-formatted ratio texts suffixed with `%`.
pub open spec fn spec_render(total: u32, won: u32, wr: Seq<char>, wlr: Seq<char>) -> Seq<char> {
    "--> games played   "@ + spec_digits(total as nat) + "\n--> games won      "@ + spec_digits(
        won as nat,
    ) + "\n--> win ratio      "@ + wr + "%\n--> win-lose ratio "@ + wlr + "%\n"@
}

/// The tally after one more recorded outcome, `true` a win and `false` a
/// loss.
pub open spec fn spec_record(pre: Stats, win: bool) -> Stats {
    if win {
        Stats { total: (pre.total + 1) as u32, won: (pre.won + 1) as u32, lost: pre.lost }
    } else {
        Stats { total: (pre.total + 1) as u32, won: pre.won, lost: (pre.lost + 1) as u32 }
    }
}

/// The tally reached from the fresh state by a whole sequence of recorded
/// outcomes.
pub open spec fn spec_replay(outcomes: Seq<bool>) -> Stats
    decreases outcomes.len(),
{
    if outcomes.len() == 0 {
        Stats { total: 0, won: 0, lost: 0 }
    } else {
        spec_record(spec_replay(outcomes.drop_last()), outcomes.last())
    }
}

/// For every sequence of recorded wins and losses that fits the counters,
/// the tally is consistent after each call: since this holds of every
/// prefix too, the games played equal the games won plus the games lost
/// after each step, and count the outcomes replayed.
pub proof fn lemma_replay_consistent(outcomes: Seq<bool>)
    requires
        outcomes.len() <= u32::MAX,
    ensures
        spec_replay(outcomes).consistent(),
        spec_replay(outcomes).total == outcomes.len(),
    decreases outcomes.len(),
{
    if outcomes.len() > 0 {
        lemma_replay_consistent(outcomes.drop_last());
    }
}

/// How consuming one evaluated guess relates the prior tally, the new
/// tally and the feedback line: a win exactly on equality of submitted
/// value and target, a loss on either side of it.
pub open spec fn guess_effect(
    submitted: u32,
    target: u32,
    pre: Stats,
    post: Stats,
    msg: Seq<char>,
) -> bool {
    &&& post.total == pre.total + 1
    &&& (submitted == target ==> post.won == pre.won + 1 && post.lost == pre.lost && msg
        == win_feedback())
    &&& (submitted < target ==> post.won == pre.won && post.lost == pre.lost + 1 && msg
        == too_low_feedback(submitted, target))
    &&& (submitted > target ==> post.won == pre.won && post.lost == pre.lost + 1 && msg
        == too_far_feedback(submitted, target))
}

impl Stats {
    /// A consistent tally: the games played are exactly the games won plus
    /// the games lost.
    pub open spec fn consistent(&self) -> bool {
        self.total == self.won + self.lost
    }

    /// A fresh tally with all counters zero.
    pub fn new() -> (r: Stats)
        ensures
            r == (Stats { total: 0, won: 0, lost: 0 }),
            r.consistent(),
    {
        Stats { total: 0, won: 0, lost: 0 }
    }

    /// Records one more played and won game; consistency is preserved.
    pub fn record_win(&mut self)
        requires
            old(self).consistent(),
            old(self).total < u32::MAX,
        ensures
            final(self).total == old(self).total + 1,
            final(self).won == old(self).won + 1,
            final(self).lost == old(self).lost,
            final(self).consistent(),
            *final(self) == spec_record(*old(self), true),
    {
        self.total = self.total + 1;
        self.won = self.won + 1;
    }

    /// Records one more played and lost game; consistency is preserved.
    pub fn record_loss(&mut self)
        requires
            old(self).consistent(),
            old(self).total < u32::MAX,
        ensures
            final(self).total == old(self).total + 1,
            final(self).won == old(self).won,
            final(self).lost == old(self).lost + 1,
            final(self).consistent(),
            *final(self) == spec_record(*old(self), false),
    {
        self.total = self.total + 1;
        self.lost = self.lost + 1;
    }

    /// Consumes an evaluated guess: a win exactly when the submitted value
    /// equals the target, a loss otherwise. Returns the feedback line.
    pub fn consume_guess(&mut self, guess: Guess) -> (r: String)
        requires
            old(self).consistent(),
            old(self).total < u32::MAX,
        ensures
            final(self).consistent(),
            guess_effect(guess.val, guess.exp, *old(self), *final(self), r@),
    {
        self.compare_and_augment(guess.get_val(), guess.get_expectation())
    }

    /// Compares the submitted value with the target, augments the tally by
    /// the outcome, and returns the feedback line for the player.
    fn compare_and_augment(&mut self, this: &u32, that: &u32) -> (r: String)
        requires
            old(self).consistent(),
            old(self).total < u32::MAX,
        ensures
            final(self).consistent(),
            final(self).total == old(self).total + 1,
            final(self).won == old(self).won + (if this == that {
                1int
            } else {
                0int
            }),
            final(self).lost == old(self).lost + (if this == that {
                0int
            } else {
                1int
            }),
            *this == *that ==> r@ == win_feedback(),
            *this < *that ==> r@ == too_low_feedback(*this, *that),
            *this > *that ==> r@ == too_far_feedback(*this, *that),
    {
        if *this < *that {
            self.record_loss();
            let mut msg = ">>> A bit too low: yours ".to_owned();
            msg.append(u32_to_string(*this).as_str());
            msg.append(", expected ");
            msg.append(u32_to_string(*that).as_str());
            proof {
                assert(msg@ =~= too_low_feedback(*this, *that));
            }
            msg
        } else if *this == *that {
            self.record_win();
            ">>> Whoa! Who's the lucky mack?!".to_owned()
        } else {
            self.record_loss();
            let mut msg = ">>> Now this went too far: yours ".to_owned();
            msg.append(u32_to_string(*this).as_str());
            msg.append(", expected ");
            msg.append(u32_to_string(*that).as_str());
            proof {
                assert(msg@ =~= too_far_feedback(*this, *that));
            }
            msg
        }
    }

    /// Resets all counters to zero, whatever the prior state.
    pub fn reset(&mut self)
        ensures
            *final(self) == (Stats { total: 0, won: 0, lost: 0 }),
            final(self).consistent(),
    {
        self.total = 0;
        self.won = 0;
        self.lost = 0;
    }

    /// Adds `n` bonus wins in bulk: the games played and the games won both
    /// grow by `n`, the games lost stay; consistency is preserved.
    pub fn add_bonus_wins(&mut self, n: u32)
        requires
            old(self).consistent(),
            old(self).total + n <= u32::MAX,
        ensures
            final(self).total == old(self).total + n,
            final(self).won == old(self).won + n,
            final(self).lost == old(self).lost,
            final(self).consistent(),
    {
        self.total = self.total + n;
        self.won = self.won + n;
    }

    /// The win ratio: exactly 0 when nothing was played yet, else the
    /// fraction won/total, to be scaled by 100.
    pub fn win_ratio(&self) -> (r: Ratio)
        ensures
            self.total == 0 ==> r == Ratio::Exact(0),
            self.total != 0 ==> r == Ratio::Frac(self.won, self.total),
    {
        if self.total == 0 {
            Ratio::Exact(0)
        } else {
            Ratio::Frac(self.won, self.total)
        }
    }

    /// The win-loss ratio: exactly the undefeated sentinel 100 when nothing
    /// was lost yet (for any number of wins, including none), else the
    /// fraction won/lost, to be scaled by 100.
    pub fn win_loss_ratio(&self) -> (r: Ratio)
        ensures
            self.lost == 0 ==> r == Ratio::Exact(100),
            self.lost != 0 ==> r == Ratio::Frac(self.won, self.lost),
    {
        if self.lost == 0 {
            Ratio::Exact(100)
        } else {
            Ratio::Frac(self.won, self.lost)
        }
    }

    /// Renders the tally as its table view. The two ratio values are drawn
    /// from `win_ratio` and `win_loss_ratio` and formatted by the caller,
    /// whose floating-point notation this library does not reproduce.
    pub fn render(&self, win_ratio_text: &str, win_loss_ratio_text: &str) -> (r: String)
        ensures
            r@ == spec_render(self.total, self.won, win_ratio_text@, win_loss_ratio_text@),
    {
        let mut s = "--> games played   ".to_owned();
        s.append(u32_to_string(self.total).as_str());
        s.append("\n--> games won      ");
        s.append(u32_to_string(self.won).as_str());
        s.append("\n--> win ratio      ");
        s.append(win_ratio_text);
        s.append("%\n--> win-lose ratio ");
        s.append(win_loss_ratio_text);
        s.append("%\n");
        proof {
            assert(s@ =~= spec_render(self.total, self.won, win_ratio_text@, win_loss_ratio_text@));
        }
        s
    }

    /// Serializes the tally to the persisted record text. Serialization of
    /// three plain counters cannot fail; the `Result` is interface parity.
    pub fn serialize(&self) -> (r: Result<String, SerializationError>)
        ensures
            r is Ok,
            r matches Ok(text) && text@ == spec_serialize(self.total, self.won, self.lost),
    {
        Ok(render_record(self.total, self.won, self.lost))
    }

    /// Reads a tally back from record text; fails exactly on text that is
    /// not a well-formed persisted stats record.
    pub fn deserialize(s: &str) -> (r: Result<Stats, DeserializationError>)
        ensures
            match spec_deserialize(s@) {
                Some(f) => r matches Ok(st) && st == (Stats {
                    total: f.0,
                    won: f.1,
                    lost: f.2,
                }),
                None => r is Err,
            },
    {
        match parse_record(s) {
            Some((t, w, l)) => Ok(Stats { total: t, won: w, lost: l }),
            None => Err(DeserializationError),
        }
    }
}

/// Round trip: deserializing the serialized text of any tally yields back
/// exactly that tally's counters.
pub proof fn lemma_stats_round_trip(s: Stats)
    ensures
        spec_deserialize(spec_serialize(s.total, s.won, s.lost)) == Some(
            (s.total, s.won, s.lost),
        ),
{
    lemma_record_round_trip(s.total, s.won, s.lost);
}

/// One evaluated guess: the submitted value and the target it was matched
/// against.
#[derive(Clone, Copy, PartialEq, Eq, Structural, Debug)]
pub struct Guess {
    pub val: u32,
    pub exp: u32,
}

/// Relies on rand's `Rng::gen_range` on the thread-local generator: a
/// sample of `1..bound` lies in that half-open range, which is nonempty
/// since `bound >= 2`.
#[verifier::external_body]
fn draw_target(bound: &u32) -> (r: u32)
    requires
        *bound >= 2,
    ensures
        1 <= r < *bound,
{
    rand::thread_rng().gen_range(1u32..*bound)
}

impl Guess {
    /// Evaluates a guess attempt: keeps the submitted value and draws a
    /// target from `[1, bound)`. The bound must be at least 2, so that the
    /// draw range is nonempty.
    pub fn new(val: u32, bound: &u32) -> (r: Guess)
        requires
            *bound >= 2,
        ensures
            r.val == val,
            1 <= r.exp < *bound,
    {
        Guess { val, exp: draw_target(bound) }
    }

    /// The submitted value.
    pub fn get_val(&self) -> (r: &u32)
        ensures
            *r == self.val,
    {
        &self.val
    }

    /// The target value.
    pub fn get_expectation(&self) -> (r: &u32)
        ensures
            *r == self.exp,
    {
        &self.exp
    }
}

} // verus!
