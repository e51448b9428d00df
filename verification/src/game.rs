use vstd::prelude::*;

use crate::config::Config;
use crate::database::{Database, Phrase, Phrases};
use crate::engine::{bumped, lemma_pool_phrases_zero, pool_phrases, with_zero_attempts, EngineError};
use crate::text::normalize_text;
use crate::text::normalized;

verus! {

/// The drill engine proper: two disjoint pools of phrases — the ones not
/// yet answered correctly, with their attempt counts, and the recognised
/// ones — plus a pointer into the first. Advancing past the last phrase of
/// a round reports completion.
pub struct Game {
    pub config: Config,
    pub db: Database,
    pub unrecognized_phrases: Vec<(Phrase, usize)>,
    pub recognized_phrases: Vec<(Phrase, usize)>,
    pub current_phrase_idx: Option<usize>,
}

/// What one advance step does: a recognised phrase moves, with its attempt
/// count, to the recognised pool, and the pointer lands on the phrase that
/// slid into its place (wrapping round); a missed phrase is charged one
/// attempt and the pointer moves one position round-robin. Emptying the
/// pool unsets the pointer and signals completion. With no active phrase,
/// nothing changes and the fault is reported.
pub open spec fn advance_rel(
    pre: Game,
    is_correct: bool,
    post: Game,
    r: Result<(), EngineError>,
) -> bool {
    &&& post.config == pre.config
    &&& post.db == pre.db
    &&& (pre.current_phrase_idx is None ==> post == pre && r == Err::<(), EngineError>(
        EngineError::NoActivePhrase,
    ))
    &&& (pre.current_phrase_idx matches Some(i) ==> {
        let entry = pre.unrecognized_phrases@[i as int];
        &&& (is_correct ==> {
            &&& post.unrecognized_phrases@ == pre.unrecognized_phrases@.remove(i as int)
            &&& post.recognized_phrases@ == pre.recognized_phrases@.push(entry)
            &&& (pre.unrecognized_phrases@.len() == 1 ==> post.current_phrase_idx is None && r
                == Err::<(), EngineError>(EngineError::RoundComplete))
            &&& (pre.unrecognized_phrases@.len() > 1 ==> post.current_phrase_idx == Some(
                ((i as int) % (pre.unrecognized_phrases@.len() - 1)) as usize,
            ) && r == Ok::<(), EngineError>(()))
        })
        &&& (!is_correct ==> {
            &&& post.unrecognized_phrases@ == pre.unrecognized_phrases@.update(
                i as int,
                (entry.0, bumped(entry.1 as nat) as usize),
            )
            &&& post.recognized_phrases@ == pre.recognized_phrases@
            &&& post.current_phrase_idx == Some(
                ((i as int + 1) % (pre.unrecognized_phrases@.len() as int)) as usize,
            )
            &&& r == Ok::<(), EngineError>(())
        })
    })
}

/// What checking an answer does: nothing to the engine, and the verdict is
/// the normalised comparison against the current phrase's translation.
pub open spec fn check_rel(
    pre: Game,
    answer: Seq<char>,
    post: Game,
    r: Result<bool, EngineError>,
) -> bool {
    &&& post == pre
    &&& (pre.current_phrase_idx is None ==> r == Err::<bool, EngineError>(
        EngineError::NoActivePhrase,
    ))
    &&& (pre.current_phrase_idx matches Some(i) ==> r == Ok::<bool, EngineError>(
        normalized(answer) == normalized(pre.unrecognized_phrases@[i as int].0.1@),
    ))
}

/// The verdict an answer earns against the current phrase: the normalised
/// comparison, false when no phrase is current.
pub open spec fn check_verdict(g: Game, answer: Seq<char>) -> bool {
    match g.current_phrase_idx {
        Some(i) => normalized(answer) == normalized(g.unrecognized_phrases@[i as int].0.1@),
        None => false,
    }
}

/// What starting a round over the engine's own store guarantees: the same
/// store and configuration, a cleared recognised pool, and as many fresh
/// zero-attempt phrases as the round size and the store allow.
pub open spec fn fresh_round(pre: Game, post: Game) -> bool {
    &&& post.config == pre.config
    &&& post.db == pre.db
    &&& post.recognized_phrases@.len() == 0
    &&& post.unrecognized_phrases@.len() == (if pre.config.phrases_per_round
        <= pre.db.records@.len() {
        pre.config.phrases_per_round as int
    } else {
        pre.db.records@.len() as int
    })
    &&& (forall|k: int|
        0 <= k < post.unrecognized_phrases@.len() ==> (
        #[trigger] post.unrecognized_phrases@[k]).1 == 0)
    &&& post.current_phrase_idx == (if post.unrecognized_phrases@.len() > 0 {
        Some(0usize)
    } else {
        None::<usize>
    })
    &&& pool_phrases(post.unrecognized_phrases@).to_multiset().subset_of(
        pre.db.records@.to_multiset(),
    )
}

/// The phrase the pointer rests on, if any.
pub open spec fn current_phrase(g: Game) -> Option<Phrase> {
    match g.current_phrase_idx {
        Some(i) => if i < g.unrecognized_phrases@.len() {
            Some(g.unrecognized_phrases@[i as int].0)
        } else {
            None
        },
        None => None,
    }
}

impl Game {
    /// The pointer names a phrase exactly when one remains, and always one
    /// inside the pool.
    pub open spec fn wf(&self) -> bool {
        &&& (self.current_phrase_idx is Some <==> self.unrecognized_phrases@.len() > 0)
        &&& (self.current_phrase_idx matches Some(i) ==> i < self.unrecognized_phrases@.len())
    }

    /// How many phrases the round started with: the two pools together.
    pub open spec fn pool_total(&self) -> int {
        self.unrecognized_phrases@.len() + self.recognized_phrases@.len() as int
    }

    /// A fresh game over the given store: no round in progress.
    pub fn new(config: Config, db: Database) -> (r: Game)
        ensures
            r.wf(),
            r.config == config,
            r.db == db,
            r.unrecognized_phrases@.len() == 0,
            r.recognized_phrases@.len() == 0,
            r.current_phrase_idx is None,
    {
        Game {
            config,
            db,
            unrecognized_phrases: Vec::new(),
            recognized_phrases: Vec::new(),
            current_phrase_idx: None,
        }
    }

    /// Begins a round over the given phrases: each starts unrecognised with
    /// zero attempts, the recognised pool is cleared, and the pointer moves
    /// to the first phrase if there is one.
    pub fn load_round(&mut self, phrases: Phrases)
        ensures
            final(self).wf(),
            final(self).config == old(self).config,
            final(self).db == old(self).db,
            final(self).unrecognized_phrases@ == with_zero_attempts(phrases@),
            final(self).recognized_phrases@.len() == 0,
            final(self).current_phrase_idx == if phrases@.len() > 0 {
                Some(0usize)
            } else {
                None::<usize>
            },
    {
        let ghost all = phrases@;
        let n = phrases.len();
        let mut pool: Vec<(Phrase, usize)> = Vec::new();
        let mut rest = phrases;
        let mut i: usize = 0;
        while i < n
            invariant
                i <= n,
                n == all.len(),
                rest@ == all.skip(i as int),
                pool@ == with_zero_attempts(all.take(i as int)),
            decreases n - i,
        {
            proof {
                assert(rest@.len() == all.len() - i);
            }
            let p = rest.remove(0);
            pool.push((p, 0));
            proof {
                assert(all.skip(i as int).remove(0) =~= all.skip(i + 1));
                assert(all.skip(i as int)[0] == all[i as int]);
                assert(pool@ =~= with_zero_attempts(all.take(i + 1)));
            }
            i = i + 1;
        }
        proof {
            assert(all.take(n as int) =~= all);
        }
        let has_any = pool.len() > 0;
        self.unrecognized_phrases = pool;
        self.recognized_phrases = Vec::new();
        self.current_phrase_idx = if has_any {
            Some(0)
        } else {
            None
        };
    }

    /// Begins a round with phrases sampled from the store, as many as the
    /// configured round size allows and the store holds.
    pub fn start_round(&mut self)
        ensures
            final(self).wf(),
            final(self).config == old(self).config,
            final(self).db == old(self).db,
            final(self).recognized_phrases@.len() == 0,
            final(self).unrecognized_phrases@.len() == if old(self).config.phrases_per_round
                <= old(self).db.records@.len() {
                old(self).config.phrases_per_round as int
            } else {
                old(self).db.records@.len() as int
            },
            forall|k: int|
                0 <= k < final(self).unrecognized_phrases@.len() ==> (
                #[trigger] final(self).unrecognized_phrases@[k]).1 == 0,
            final(self).current_phrase_idx == if final(self).unrecognized_phrases@.len() > 0 {
                Some(0usize)
            } else {
                None::<usize>
            },
            pool_phrases(final(self).unrecognized_phrases@).to_multiset().subset_of(
                old(self).db.records@.to_multiset(),
            ),
    {
        let phrases = self.db.get_phrases(self.config.phrases_per_round);
        let ghost sampled = phrases@;
        self.load_round(phrases);
        proof {
            lemma_pool_phrases_zero(sampled);
        }
    }

    /// Forgets the round entirely: both pools emptied, pointer unset.
    pub fn end_round(&mut self)
        ensures
            final(self).wf(),
            final(self).config == old(self).config,
            final(self).db == old(self).db,
            final(self).unrecognized_phrases@.len() == 0,
            final(self).recognized_phrases@.len() == 0,
            final(self).current_phrase_idx is None,
    {
        self.unrecognized_phrases.clear();
        self.recognized_phrases.clear();
        self.current_phrase_idx = None;
    }

    /// The prompt text of the phrase the pointer rests on; the
    /// no-active-phrase fault when it is unset.
    pub fn get_current_original(&self) -> (r: Result<&str, EngineError>)
        requires
            self.wf(),
        ensures
            r is Ok <==> self.current_phrase_idx is Some,
            r is Err ==> r == Err::<&str, EngineError>(EngineError::NoActivePhrase),
            self.current_phrase_idx matches Some(i) ==> (r matches Ok(s) && s@
                == self.unrecognized_phrases@[i as int].0.0@),
    {
        match self.current_phrase_idx {
            Some(index) => Ok(self.unrecognized_phrases[index].0.0.as_str()),
            None => Err(EngineError::NoActivePhrase),
        }
    }

    /// The expected answer of the phrase the pointer rests on; the
    /// no-active-phrase fault when it is unset.
    pub fn get_current_translation(&self) -> (r: Result<&str, EngineError>)
        requires
            self.wf(),
        ensures
            r is Ok <==> self.current_phrase_idx is Some,
            r is Err ==> r == Err::<&str, EngineError>(EngineError::NoActivePhrase),
            self.current_phrase_idx matches Some(i) ==> (r matches Ok(s) && s@
                == self.unrecognized_phrases@[i as int].0.1@),
    {
        match self.current_phrase_idx {
            Some(index) => Ok(self.unrecognized_phrases[index].0.1.as_str()),
            None => Err(EngineError::NoActivePhrase),
        }
    }

    /// Whether the answer matches the current phrase's translation, after
    /// both are trimmed and lowercased. The engine itself is untouched, so
    /// asking again before advancing always returns the same verdict.
    pub fn check_phrase(&mut self, answer: &String) -> (r: Result<bool, EngineError>)
        requires
            old(self).wf(),
        ensures
            check_rel(*old(self), answer@, *final(self), r),
    {
        let index = match self.current_phrase_idx {
            Some(index) => index,
            None => {
                return Err(EngineError::NoActivePhrase);
            },
        };
        let expected = &self.unrecognized_phrases[index].0.1;
        let answer_norm = normalize_text(answer.as_str());
        let expected_norm = normalize_text(expected.as_str());
        Ok(answer_norm == expected_norm)
    }

    /// Moves the drill one step, as `advance_rel` describes; completion of
    /// the round comes back as the RoundComplete signal, after which the
    /// caller is expected to end the round.
    pub fn advance_phrase(&mut self, is_correct: bool) -> (r: Result<(), EngineError>)
        requires
            old(self).wf(),
        ensures
            final(self).wf(),
            advance_rel(*old(self), is_correct, *final(self), r),
    {
        let index = match self.current_phrase_idx {
            Some(index) => index,
            None => {
                return Err(EngineError::NoActivePhrase);
            },
        };
        proof {
            assert(old(self).unrecognized_phrases.len() == old(self).unrecognized_phrases@.len());
        }
        if is_correct {
            let entry = self.unrecognized_phrases.remove(index);
            self.recognized_phrases.push(entry);
            let len = self.unrecognized_phrases.len();
            if len == 0 {
                self.current_phrase_idx = None;
                return Err(EngineError::RoundComplete);
            }
            self.current_phrase_idx = Some(index % len);
        } else {
            let attempts = self.unrecognized_phrases[index].1;
            let next = if attempts < usize::MAX {
                attempts + 1
            } else {
                attempts
            };
            self.unrecognized_phrases[index].1 = next;
            proof {
                assert(self.unrecognized_phrases@ =~= old(self).unrecognized_phrases@.update(
                    index as int,
                    (
                        old(self).unrecognized_phrases@[index as int].0,
                        bumped(old(self).unrecognized_phrases@[index as int].1 as nat) as usize,
                    ),
                ));
            }
            let len = self.unrecognized_phrases.len();
            self.current_phrase_idx = Some((index + 1) % len);
        }
        Ok(())
    }
}

// ----------------------------------------------------------------------
// Laws of the drill. Each is proved once and for all over the transition
// relations that the engine's operations are specified by.
// ----------------------------------------------------------------------

/// Advancing never changes how many phrases the round holds: the two pools
/// together keep the round's initial count, until the round is ended.
pub proof fn lemma_pool_size_invariant(
    pre: Game,
    is_correct: bool,
    post: Game,
    r: Result<(), EngineError>,
)
    requires
        pre.wf(),
        advance_rel(pre, is_correct, post, r),
    ensures
        post.pool_total() == pre.pool_total(),
{
}

/// Checking an answer is pure: repeating the same check before advancing
/// leaves the engine exactly as it was and returns the same verdict.
pub proof fn lemma_check_idempotent(
    g0: Game,
    answer: Seq<char>,
    g1: Game,
    r1: Result<bool, EngineError>,
    g2: Game,
    r2: Result<bool, EngineError>,
)
    requires
        check_rel(g0, answer, g1, r1),
        check_rel(g1, answer, g2, r2),
    ensures
        g1 == g0,
        g2 == g0,
        r2 == r1,
{
}

/// Round-robin order. In a round of two phrases, the first answered
/// correctly at once and the second missed once: the drill asks the first,
/// then the second, then the second again (wrapping round), and the last
/// correct answer completes the round.
pub proof fn lemma_round_robin(
    first: Phrase,
    second: Phrase,
    g0: Game,
    g1: Game,
    r1: Result<(), EngineError>,
    g2: Game,
    r2: Result<(), EngineError>,
    g3: Game,
    r3: Result<(), EngineError>,
)
    requires
        g0.unrecognized_phrases@ == seq![(first, 0usize), (second, 0usize)],
        g0.current_phrase_idx == Some(0usize),
        advance_rel(g0, true, g1, r1),
        advance_rel(g1, false, g2, r2),
        advance_rel(g2, true, g3, r3),
    ensures
        current_phrase(g0) == Some(first),
        r1 == Ok::<(), EngineError>(()),
        current_phrase(g1) == Some(second),
        r2 == Ok::<(), EngineError>(()),
        current_phrase(g2) == Some(second),
        r3 == Err::<(), EngineError>(EngineError::RoundComplete),
        current_phrase(g3) is None,
{
    assert(g1.unrecognized_phrases@ =~= seq![(second, 0usize)]);
    assert(g2.unrecognized_phrases@ =~= seq![(second, 1usize)]);
    assert(g3.unrecognized_phrases@ =~= Seq::<(Phrase, usize)>::empty());
}

/// Attempt counting. A phrase missed twice and then answered correctly
/// arrives in the recognised pool carrying exactly two attempts.
pub proof fn lemma_attempt_counting(
    p: Phrase,
    g0: Game,
    g1: Game,
    r1: Result<(), EngineError>,
    g2: Game,
    r2: Result<(), EngineError>,
    g3: Game,
    r3: Result<(), EngineError>,
)
    requires
        g0.unrecognized_phrases@ == seq![(p, 0usize)],
        g0.recognized_phrases@ == Seq::<(Phrase, usize)>::empty(),
        g0.current_phrase_idx == Some(0usize),
        advance_rel(g0, false, g1, r1),
        advance_rel(g1, false, g2, r2),
        advance_rel(g2, true, g3, r3),
    ensures
        g3.recognized_phrases@ == seq![(p, 2usize)],
        r3 == Err::<(), EngineError>(EngineError::RoundComplete),
{
    assert(g1.unrecognized_phrases@ =~= seq![(p, 1usize)]);
    assert(g2.unrecognized_phrases@ =~= seq![(p, 2usize)]);
    assert(g3.recognized_phrases@ =~= seq![(p, 2usize)]);
}

/// Attempt counting, one step at a time, in any round: a miss charges the
/// current phrase exactly one attempt where it stands, and a correct
/// answer moves it out carrying its count over unchanged.
pub proof fn lemma_attempt_step(
    pre: Game,
    is_correct: bool,
    post: Game,
    r: Result<(), EngineError>,
)
    requires
        pre.wf(),
        pre.current_phrase_idx is Some,
        advance_rel(pre, is_correct, post, r),
    ensures
        !is_correct ==> {
            let i = pre.current_phrase_idx->Some_0 as int;
            &&& post.unrecognized_phrases@[i].0 == pre.unrecognized_phrases@[i].0
            &&& post.unrecognized_phrases@[i].1 as nat == bumped(
                pre.unrecognized_phrases@[i].1 as nat,
            )
        },
        is_correct ==> post.recognized_phrases@.last() == pre.unrecognized_phrases@[
            pre.current_phrase_idx->Some_0 as int
        ],
{
}

/// Boundary. A correct answer on the last remaining phrase reports the
/// round complete and unsets the pointer, so no phrase is current any
/// more — which is exactly when the accessors report NoActivePhrase.
pub proof fn lemma_last_phrase_completes_round(
    pre: Game,
    post: Game,
    r: Result<(), EngineError>,
)
    requires
        pre.wf(),
        pre.unrecognized_phrases@.len() == 1,
        advance_rel(pre, true, post, r),
    ensures
        r == Err::<(), EngineError>(EngineError::RoundComplete),
        post.current_phrase_idx is None,
        current_phrase(post) is None,
{
}

} // verus!

