//! Bounded pool of idle synthesizer handles, keyed by model identity.
//!
//! Entries are kept in insertion order, oldest first. Two independent
//! invalidation policies apply: capacity eviction (a checkin into a full
//! pool drops the oldest entry first) and age-based sweeping (a sweep pass
//! drops every entry whose age has reached the staleness threshold).
//!
//! The pool itself is single-threaded data; the embedding program wraps it
//! in a mutual-exclusion lock and keeps the lock's critical sections to
//! these bookkeeping calls alone — never across engine construction or a
//! running synthesis. Evicted and swept handles are returned to the caller,
//! which releases the underlying native resources exactly once.
//!
//! Timestamps are caller-supplied clock readings (any fixed unit); the pool
//! only compares them, so it needs no clock of its own.

use vstd::prelude::*;

use crate::synth::PiperSynth;

verus! {

/// One idle pooled engine instance.
pub struct CachedVoice {
    /// Model identity the handle is bound to.
    pub name: String,
    /// The idle handle, owned by the cache while resident.
    pub synth: PiperSynth,
    /// Clock reading at the moment of checkin.
    pub inserted: u64,
}

/// Some resident entry is bound to `name`.
pub open spec fn has_model(s: Seq<CachedVoice>, name: Seq<char>) -> bool {
    exists|i: int| 0 <= i < s.len() && s[i].name@ == name
}

/// `i` is the position of the oldest resident entry bound to `name`.
pub open spec fn is_first_match(s: Seq<CachedVoice>, name: Seq<char>, i: int) -> bool {
    &&& 0 <= i < s.len()
    &&& s[i].name@ == name
    &&& forall|j: int| 0 <= j < i ==> s[j].name@ != name
}

/// An entry inserted at `inserted` has reached the staleness threshold at
/// time `now`.
pub open spec fn expired(inserted: u64, now: u64, threshold: u64) -> bool {
    inserted + threshold <= now
}

/// The entries a sweep at time `now` keeps, in their original order.
pub open spec fn fresh_only(s: Seq<CachedVoice>, now: u64, threshold: u64) -> Seq<CachedVoice> {
    s.filter(|e: CachedVoice| !expired(e.inserted, now, threshold))
}

/// The handles a sweep at time `now` releases, in their original order.
pub open spec fn swept(s: Seq<CachedVoice>, now: u64, threshold: u64) -> Seq<PiperSynth> {
    s.filter(|e: CachedVoice| expired(e.inserted, now, threshold)).map_values(
        |e: CachedVoice| e.synth,
    )
}

/// Bounded pool of idle handles with oldest-first capacity eviction.
pub struct VoiceCache {
    max_voices: usize,
    voices: Vec<CachedVoice>,
}

impl VoiceCache {
    /// The resident entries, oldest first.
    pub closed spec fn resident(&self) -> Seq<CachedVoice> {
        self.voices@
    }

    /// The capacity bound `max_voices`.
    pub closed spec fn capacity(&self) -> usize {
        self.max_voices
    }

    /// The pool invariant: a positive capacity that the resident count
    /// never exceeds, whatever interleaving of operations produced the
    /// current state.
    pub open spec fn wf(&self) -> bool {
        &&& 1 <= self.capacity()
        &&& self.resident().len() <= self.capacity()
    }

    /// An empty pool with capacity `max_voices`.
    pub fn new(max_voices: usize) -> (c: VoiceCache)
        requires
            1 <= max_voices,
        ensures
            c.wf(),
            c.capacity() == max_voices,
            c.resident() == Seq::<CachedVoice>::empty(),
    {
        VoiceCache { max_voices, voices: Vec::new() }
    }

    /// Number of resident entries.
    pub fn len(&self) -> (n: usize)
        ensures
            n == self.resident().len(),
    {
        self.voices.len()
    }

    /// Checkout: removes and returns the oldest resident handle bound to
    /// `model_name`, or returns `None` on a miss. On a miss the caller
    /// constructs a fresh instance — outside the pool's lock, since
    /// construction time is unbounded.
    pub fn pop_synth(&mut self, model_name: &String) -> (r: Option<PiperSynth>)
        requires
            old(self).wf(),
        ensures
            final(self).wf(),
            final(self).capacity() == old(self).capacity(),
            match r {
                Some(s) => exists|i: int|
                    {
                        &&& #[trigger] is_first_match(old(self).resident(), model_name@, i)
                        &&& s == old(self).resident()[i].synth
                        &&& final(self).resident() == old(self).resident().remove(i)
                    },
                None => {
                    &&& final(self).resident() == old(self).resident()
                    &&& !has_model(old(self).resident(), model_name@)
                },
            },
    {
        let mut i: usize = 0;
        while i < self.voices.len()
            invariant
                old(self).wf(),
                i <= self.voices.len(),
                self.voices@ == old(self).voices@,
                self.max_voices == old(self).max_voices,
                forall|j: int| 0 <= j < i ==> self.voices@[j].name@ != model_name@,
            decreases self.voices.len() - i,
        {
            if self.voices[i].name == *model_name {
                let entry = self.voices.remove(i);
                assert(is_first_match(old(self).resident(), model_name@, i as int));
                return Some(entry.synth);
            }
            i += 1;
        }
        None
    }

    /// Checkin: inserts `synth` as the newest entry, stamped `now`. A full
    /// pool first evicts its oldest entry, whose handle is returned for the
    /// caller to release. Always succeeds; never grows past capacity.
    pub fn push_synth(&mut self, model_name: String, synth: PiperSynth, now: u64) -> (evicted:
        Option<PiperSynth>)
        requires
            old(self).wf(),
        ensures
            final(self).wf(),
            final(self).capacity() == old(self).capacity(),
            ({
                let entry = (CachedVoice { name: model_name, synth, inserted: now });
                if old(self).resident().len() < old(self).capacity() {
                    &&& evicted is None
                    &&& final(self).resident() == old(self).resident().push(entry)
                } else {
                    &&& evicted == Some(old(self).resident()[0].synth)
                    &&& final(self).resident() == old(self).resident().drop_first().push(entry)
                }
            }),
    {
        let evicted = if self.voices.len() == self.max_voices {
            let oldest = self.voices.remove(0);
            proof {
                assert(old(self).voices@.remove(0) =~= old(self).voices@.drop_first());
            }
            Some(oldest.synth)
        } else {
            None
        };
        self.voices.push(CachedVoice { name: model_name, synth, inserted: now });
        evicted
    }

    /// Idle sweep: removes every entry whose age at `now` has reached
    /// `threshold`, keeping the others in order, and returns the removed
    /// handles for the caller to release. One pass is serialized against
    /// checkout and checkin by the embedding lock, so no entry can be swept
    /// while checked out.
    pub fn idle_sweep(&mut self, now: u64, threshold: u64) -> (removed: Vec<PiperSynth>)
        requires
            old(self).wf(),
        ensures
            final(self).wf(),
            final(self).capacity() == old(self).capacity(),
            final(self).resident() == fresh_only(old(self).resident(), now, threshold),
            removed@ == swept(old(self).resident(), now, threshold),
    {
        let ghost orig = self.voices@;
        let ghost k: int = 0;
        let mut removed: Vec<PiperSynth> = Vec::new();
        let mut i: usize = 0;
        while i < self.voices.len()
            invariant
                old(self).wf(),
                self.max_voices == old(self).max_voices,
                orig == old(self).voices@,
                0 <= k <= orig.len(),
                i == fresh_only(orig.subrange(0, k), now, threshold).len(),
                self.voices@ == fresh_only(orig.subrange(0, k), now, threshold) + orig.subrange(
                    k,
                    orig.len() as int,
                ),
                removed@ == swept(orig.subrange(0, k), now, threshold),
            decreases orig.len() - k,
        {
            proof {
                assert(self.voices@[i as int] == orig[k]);
                assert(orig.subrange(0, k + 1) =~= orig.subrange(0, k).push(orig[k]));
                lemma_filter_push(
                    orig.subrange(0, k),
                    |e: CachedVoice| !expired(e.inserted, now, threshold),
                    orig[k],
                );
                lemma_filter_push(
                    orig.subrange(0, k),
                    |e: CachedVoice| expired(e.inserted, now, threshold),
                    orig[k],
                );
            }
            let stale = threshold <= now && self.voices[i].inserted <= now - threshold;
            if stale {
                let entry = self.voices.remove(i);
                removed.push(entry.synth);
                proof {
                    let stale_pred = |e: CachedVoice| expired(e.inserted, now, threshold);
                    assert(self.voices@ =~= fresh_only(orig.subrange(0, k + 1), now, threshold)
                        + orig.subrange(k + 1, orig.len() as int));
                    assert(removed@ =~= orig.subrange(0, k).filter(stale_pred).map_values(
                        |e: CachedVoice| e.synth,
                    ).push(orig[k].synth));
                    assert(removed@ =~= swept(orig.subrange(0, k + 1), now, threshold));
                    k = k + 1;
                }
            } else {
                i += 1;
                proof {
                    assert(self.voices@ =~= fresh_only(orig.subrange(0, k + 1), now, threshold)
                        + orig.subrange(k + 1, orig.len() as int));
                    assert(removed@ =~= swept(orig.subrange(0, k + 1), now, threshold));
                    k = k + 1;
                }
            }
        }
        proof {
            assert(orig.subrange(k, orig.len() as int).len() == 0);
            assert(k == orig.len());
            assert(orig.subrange(0, orig.len() as int) =~= orig);
        }
        removed
    }
}

/// Filtering a sequence extended by one element keeps the element exactly
/// when the predicate holds of it.
proof fn lemma_filter_push<A>(s: Seq<A>, p: spec_fn(A) -> bool, x: A)
    ensures
        s.push(x).filter(p) == if p(x) {
            s.filter(p).push(x)
        } else {
            s.filter(p)
        },
{
    reveal(Seq::filter);
    assert(s.push(x).drop_last() =~= s);
    assert(s.push(x).last() == x);
}

/// Law: a checkout immediately after a checkin of the same model identity,
/// with no eviction or sweep between, hits the pool — some resident entry
/// matches, so no fresh instance is constructed. When no other resident
/// entry shares that identity, the entry found is exactly the one checked
/// in, handle and all.
pub proof fn lemma_checkin_then_checkout(s: Seq<CachedVoice>, e: CachedVoice)
    ensures
        has_model(s.push(e), e.name@),
        (forall|i: int| 0 <= i < s.len() ==> s[i].name@ != e.name@) ==> forall|i: int|
            is_first_match(s.push(e), e.name@, i) ==> s.push(e)[i] == e,
{
    assert(s.push(e)[s.len() as int] == e);
    assert(has_model(s.push(e), e.name@));
    if forall|i: int| 0 <= i < s.len() ==> s[i].name@ != e.name@ {
        assert forall|i: int| is_first_match(s.push(e), e.name@, i) implies s.push(e)[i]
            == e by {
            if i < s.len() {
                assert(s.push(e)[i] == s[i]);
            }
        }
    }
}

/// Law: checkout is exclusive. Once the entry at position `i` is removed,
/// its handle is no longer resident — over a pool of distinct handle
/// identities, no later checkout, concurrent or not, can be handed the
/// same one.
pub proof fn lemma_checkout_exclusive(s: Seq<CachedVoice>, i: int)
    requires
        0 <= i < s.len(),
        forall|p: int, q: int| 0 <= p < q < s.len() ==> s[p].synth.id != s[q].synth.id,
    ensures
        forall|j: int| 0 <= j < s.remove(i).len() ==> s.remove(i)[j].synth.id != s[i].synth.id,
{
    assert forall|j: int| 0 <= j < s.remove(i).len() implies s.remove(i)[j].synth.id
        != s[i].synth.id by {
        if j < i {
            assert(s.remove(i)[j] == s[j]);
        } else {
            assert(s.remove(i)[j] == s[j + 1]);
        }
    }
}

} // verus!
