use vstd::prelude::*;

use vstd::string::StringExecFns;

use crate::config::Config;
use crate::database::{Database, Phrase, Phrases};
use crate::text::normalize_text;
use crate::text::normalized;

verus! {

/// The two ways a drill operation can decline to act: no phrase is active
/// (the round has not begun, or just ended), or the pool has emptied and
/// the round is complete. The second is a control signal, not a fault.
#[derive(Debug, Clone, Copy, PartialEq, Eq, Structural)]
pub enum EngineError {
    NoActivePhrase,
    RoundComplete,
}

impl EngineError {
    /// A human-readable account of the signal.
    pub fn message(&self) -> (r: String)
        ensures
            *self == EngineError::NoActivePhrase ==> r@ == "No current phrase index set"@,
            *self == EngineError::RoundComplete ==> r@
                == "No more phrases available to advance to"@,
    {
        match self {
            EngineError::NoActivePhrase => String::from_str("No current phrase index set"),
            EngineError::RoundComplete => String::from_str(
                "No more phrases available to advance to",
            ),
        }
    }
}

/// An attempt counter one higher, frozen at the top of its range.
pub open spec fn bumped(a: nat) -> nat {
    if a < usize::MAX {
        a + 1
    } else {
        a
    }
}

/// Each phrase paired with a zero attempt count, in order.
pub open spec fn with_zero_attempts(ps: Seq<Phrase>) -> Seq<(Phrase, usize)> {
    ps.map_values(|p: Phrase| (p, 0usize))
}

/// The phrases of a pool, stripped of their attempt counts.
pub open spec fn pool_phrases(pool: Seq<(Phrase, usize)>) -> Seq<Phrase> {
    pool.map_values(|e: (Phrase, usize)| e.0)
}

/// Pairing phrases with zero attempts and stripping the counts again
/// gives the phrases back.
pub proof fn lemma_pool_phrases_zero(ps: Seq<Phrase>)
    ensures
        pool_phrases(with_zero_attempts(ps)) == ps,
{
    assert(pool_phrases(with_zero_attempts(ps)) =~= ps);
}

/// The free-standing drill engine: one pool of phrases not yet answered,
/// one pool of recognised ones, and a pointer into the first, with a
/// single accessor that hands the current phrase out whole.
pub struct Engine {
    pub config: Config,
    pub db: Database,
    pub unrecognized_phrases: Vec<(Phrase, usize)>,
    pub recognized_phrases: Vec<(Phrase, usize)>,
    pub current_phrase_idx: Option<usize>,
}

impl Engine {
    /// The pointer names a phrase exactly when there is one to name, and
    /// always one inside the pool.
    pub open spec fn wf(&self) -> bool {
        &&& (self.current_phrase_idx is Some <==> self.unrecognized_phrases@.len() > 0)
        &&& (self.current_phrase_idx matches Some(i) ==> i < self.unrecognized_phrases@.len())
    }

    /// How many phrases the round started with: the two pools together.
    pub open spec fn pool_total(&self) -> int {
        self.unrecognized_phrases@.len() + self.recognized_phrases@.len() as int
    }

    /// A fresh engine over the given store: no round in progress.
    pub fn new(config: Config, db: Database) -> (r: Engine)
        ensures
            r.wf(),
            r.config == config,
            r.db == db,
            r.unrecognized_phrases@.len() == 0,
            r.recognized_phrases@.len() == 0,
            r.current_phrase_idx is None,
    {
        Engine {
            config,
            db,
            unrecognized_phrases: Vec::new(),
            recognized_phrases: Vec::new(),
            current_phrase_idx: None,
        }
    }

    /// Begins a round over the given phrases: each starts unrecognised with
    /// zero attempts, the recognised pool is cleared, and the pointer moves
    /// to the first phrase if there is one.
    pub fn load_round(&mut self, phrases: Phrases)
        ensures
            final(self).wf(),
            final(self).config == old(self).config,
            final(self).db == old(self).db,
            final(self).unrecognized_phrases@ == with_zero_attempts(phrases@),
            final(self).recognized_phrases@.len() == 0,
            final(self).current_phrase_idx == if phrases@.len() > 0 {
                Some(0usize)
            } else {
                None::<usize>
            },
    {
        let ghost all = phrases@;
        let n = phrases.len();
        let mut pool: Vec<(Phrase, usize)> = Vec::new();
        let mut rest = phrases;
        let mut i: usize = 0;
        // walk the phrases in order, pairing each with a zero attempt count
        while i < n
            invariant
                i <= n,
                n == all.len(),
                rest@ == all.skip(i as int),
                pool@ == with_zero_attempts(all.take(i as int)),
            decreases n - i,
        {
            proof {
                assert(rest@.len() == all.len() - i);
            }
            let p = rest.remove(0);
            pool.push((p, 0));
            proof {
                assert(all.skip(i as int).remove(0) =~= all.skip(i + 1));
                assert(all.skip(i as int)[0] == all[i as int]);
                assert(pool@ =~= with_zero_attempts(all.take(i + 1)));
            }
            i = i + 1;
        }
        proof {
            assert(all.take(n as int) =~= all);
        }
        let has_any = pool.len() > 0;
        self.unrecognized_phrases = pool;
        self.recognized_phrases = Vec::new();
        self.current_phrase_idx = if has_any {
            Some(0)
        } else {
            None
        };
    }

    /// Begins a round with phrases sampled from the store, as many as the
    /// configured round size allows and the store holds.
    pub fn start_round(&mut self)
        ensures
            final(self).wf(),
            final(self).config == old(self).config,
            final(self).db == old(self).db,
            final(self).recognized_phrases@.len() == 0,
            final(self).unrecognized_phrases@.len() == if old(self).config.phrases_per_round
                <= old(self).db.records@.len() {
                old(self).config.phrases_per_round as int
            } else {
                old(self).db.records@.len() as int
            },
            forall|k: int|
                0 <= k < final(self).unrecognized_phrases@.len() ==> (
                #[trigger] final(self).unrecognized_phrases@[k]).1 == 0,
            final(self).current_phrase_idx == if final(self).unrecognized_phrases@.len() > 0 {
                Some(0usize)
            } else {
                None::<usize>
            },
            pool_phrases(final(self).unrecognized_phrases@).to_multiset().subset_of(
                old(self).db.records@.to_multiset(),
            ),
    {
        let phrases = self.db.get_phrases(self.config.phrases_per_round);
        let ghost sampled = phrases@;
        self.load_round(phrases);
        proof {
            lemma_pool_phrases_zero(sampled);
        }
    }

    /// The phrase the pointer rests on, None once the round's pool is
    /// empty, and the no-active-phrase fault when the pointer is unset
    /// while phrases remain.
    pub fn get_phrase(&self) -> (r: Result<Option<&Phrase>, EngineError>)
        requires
            self.wf(),
        ensures
            self.unrecognized_phrases@.len() == 0 ==> r == Ok::<Option<&Phrase>, EngineError>(
                None::<&Phrase>,
            ),
            self.unrecognized_phrases@.len() > 0 ==> (r matches Ok(Some(p))
                && self.current_phrase_idx matches Some(i) && *p == self.unrecognized_phrases@[
                i as int].0),
    {
        if self.unrecognized_phrases.len() == 0 {
            return Ok(None);
        }
        match self.current_phrase_idx {
            Some(index) => Ok(Some(&self.unrecognized_phrases[index].0)),
            None => Err(EngineError::NoActivePhrase),
        }
    }

    /// Whether the answer matches the current phrase's translation, after
    /// both are trimmed and lowercased. The engine itself is untouched.
    pub fn check_phrase(&mut self, answer: &String) -> (r: Result<bool, EngineError>)
        requires
            old(self).wf(),
        ensures
            *final(self) == *old(self),
            r is Ok <==> old(self).current_phrase_idx is Some,
            r is Err ==> r == Err::<bool, EngineError>(EngineError::NoActivePhrase),
            old(self).current_phrase_idx matches Some(i) ==> r == Ok::<bool, EngineError>(
                normalized(answer@) == normalized(
                    old(self).unrecognized_phrases@[i as int].0.1@,
                ),
            ),
    {
        let index = match self.current_phrase_idx {
            Some(index) => index,
            None => {
                return Err(EngineError::NoActivePhrase);
            },
        };
        let expected = &self.unrecognized_phrases[index].0.1;
        let answer_norm = normalize_text(answer.as_str());
        let expected_norm = normalize_text(expected.as_str());
        Ok(answer_norm == expected_norm)
    }

    /// Moves the drill one step: a recognised phrase leaves the pool with
    /// its attempt count and the pointer lands on the phrase that slid
    /// into its place (wrapping round); a missed phrase is charged one
    /// attempt and the pointer moves one position round-robin. Emptying
    /// the pool unsets the pointer and signals completion.
    pub fn advance_phrase(&mut self, guessed: bool) -> (r: Result<(), EngineError>)
        requires
            old(self).wf(),
        ensures
            final(self).wf(),
            final(self).config == old(self).config,
            final(self).db == old(self).db,
            old(self).current_phrase_idx is None ==> *final(self) == *old(self) && r == Err::<
                (),
                EngineError,
            >(EngineError::NoActivePhrase),
            old(self).current_phrase_idx matches Some(i)
                ==> final(self).pool_total() == old(self).pool_total(),
            old(self).current_phrase_idx matches Some(i) ==> guessed ==> {
                &&& final(self).unrecognized_phrases@
                    == old(self).unrecognized_phrases@.remove(i as int)
                &&& final(self).recognized_phrases@ == old(self).recognized_phrases@.push(
                    old(self).unrecognized_phrases@[i as int],
                )
                &&& (old(self).unrecognized_phrases@.len() == 1
                    ==> final(self).current_phrase_idx is None && r == Err::<(), EngineError>(
                    EngineError::RoundComplete,
                ))
                &&& (old(self).unrecognized_phrases@.len() > 1 ==> final(self).current_phrase_idx
                    == Some(((i as int) % (old(self).unrecognized_phrases@.len() - 1)) as usize)
                    && r == Ok::<(), EngineError>(()))
            },
            old(self).current_phrase_idx matches Some(i) ==> !guessed ==> {
                &&& final(self).unrecognized_phrases@ == old(self).unrecognized_phrases@.update(
                    i as int,
                    (
                        old(self).unrecognized_phrases@[i as int].0,
                        bumped(old(self).unrecognized_phrases@[i as int].1 as nat) as usize,
                    ),
                )
                &&& final(self).recognized_phrases@ == old(self).recognized_phrases@
                &&& final(self).current_phrase_idx == Some(
                    (((i + 1) as int) % (old(self).unrecognized_phrases@.len() as int)) as usize,
                )
                &&& r == Ok::<(), EngineError>(())
            },
    {
        let index = match self.current_phrase_idx {
            Some(index) => index,
            None => {
                return Err(EngineError::NoActivePhrase);
            },
        };
        proof {
            // the old pool fits in a vector, so its length bounds the index
            assert(old(self).unrecognized_phrases.len() == old(self).unrecognized_phrases@.len());
        }
        if guessed {
            let entry = self.unrecognized_phrases.remove(index);
            self.recognized_phrases.push(entry);
            let len = self.unrecognized_phrases.len();
            if len == 0 {
                self.current_phrase_idx = None;
                return Err(EngineError::RoundComplete);
            }
            self.current_phrase_idx = Some(index % len);
        } else {
            let attempts = self.unrecognized_phrases[index].1;
            let next = if attempts < usize::MAX {
                attempts + 1
            } else {
                attempts
            };
            self.unrecognized_phrases[index].1 = next;
            proof {
                assert(self.unrecognized_phrases@ =~= old(self).unrecognized_phrases@.update(
                    index as int,
                    (
                        old(self).unrecognized_phrases@[index as int].0,
                        bumped(old(self).unrecognized_phrases@[index as int].1 as nat) as usize,
                    ),
                ));
            }
            let len = self.unrecognized_phrases.len();
            self.current_phrase_idx = Some((index + 1) % len);
        }
        Ok(())
    }

    /// Forgets the round entirely: both pools emptied, pointer unset.
    pub fn end_round(&mut self)
        ensures
            final(self).wf(),
            final(self).config == old(self).config,
            final(self).db == old(self).db,
            final(self).unrecognized_phrases@.len() == 0,
            final(self).recognized_phrases@.len() == 0,
            final(self).current_phrase_idx is None,
    {
        self.unrecognized_phrases.clear();
        self.recognized_phrases.clear();
        self.current_phrase_idx = None;
    }
}

} // verus!
