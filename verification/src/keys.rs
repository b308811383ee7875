//! Commitment-key acquisition.
//!
//! A commitment key is sized setup material tied to one curve, obtained once
//! and reused read-only across setup and proving. Acquisition goes through a
//! cache: a key already held for the curve is reused only after an explicit
//! size check, so an undersized cached key is reported instead of silently
//! handed back; with no cached key, a fresh one of exactly the requested
//! size is generated and cached.

use vstd::prelude::*;

verus! {

/// The curve a commitment key belongs to.
#[derive(Clone, Copy, Debug, PartialEq, Eq, Structural)]
pub enum CurveId {
    /// The primary curve of the folding recursion.
    Bn256,
    /// The secondary curve of the folding recursion.
    Grumpkin,
}

/// A commitment key: setup material for one curve, covering `size` table
/// rows.
#[derive(Clone, Copy, Debug, PartialEq, Eq, Structural)]
pub struct CommitmentKey {
    /// The curve the key was generated for.
    pub curve: CurveId,
    /// The number of rows the key can commit to.
    pub size: usize,
}

/// The keys held so far, one looked up by curve; the first entry for a curve
/// is the one a lookup finds.
#[derive(Clone, Debug)]
pub struct KeyCache {
    /// The cached keys, in the order they were stored.
    pub entries: Vec<CommitmentKey>,
}

/// Acquiring a commitment key failed.
#[derive(Clone, Copy, Debug, PartialEq, Eq, Structural)]
pub enum KeyError {
    /// The cache holds a key for the curve, but it covers fewer rows than
    /// requested.
    Undersized {
        /// The curve the key was requested for.
        curve: CurveId,
        /// The rows the cached key covers.
        cached: usize,
        /// The rows the caller asked for.
        requested: usize,
    },
}

/// The first cached key for the given curve, if any.
pub open spec fn find_key(entries: Seq<CommitmentKey>, curve: CurveId) -> Option<CommitmentKey>
    decreases entries.len(),
{
    if entries.len() == 0 {
        Option::None
    } else if entries[0].curve == curve {
        Option::Some(entries[0])
    } else {
        find_key(entries.drop_first(), curve)
    }
}

/// What acquisition hands back: a hit that is large enough is reused; a hit
/// that is too small is an error; a miss generates a key of exactly the
/// requested size.
pub open spec fn load_result(
    entries: Seq<CommitmentKey>,
    curve: CurveId,
    min_size: nat,
) -> Result<CommitmentKey, KeyError> {
    match find_key(entries, curve) {
        Option::Some(k) => if k.size >= min_size {
            Result::Ok(k)
        } else {
            Result::Err(
                KeyError::Undersized { curve, cached: k.size, requested: min_size as usize },
            )
        },
        Option::None => Result::Ok(CommitmentKey { curve, size: min_size as usize }),
    }
}

impl KeyCache {
    /// An empty cache.
    pub fn new() -> (r: KeyCache)
        ensures
            r.entries@ == Seq::<CommitmentKey>::empty(),
    {
        KeyCache { entries: Vec::new() }
    }

    /// Loads the cached key for `curve`, or generates and caches a fresh one
    /// of size `min_size`. A cached key is handed back only if it covers at
    /// least `min_size` rows; an undersized one is reported, never returned.
    pub fn load_or_setup(&mut self, curve: CurveId, min_size: usize) -> (r: Result<
        CommitmentKey,
        KeyError,
    >)
        ensures
            r == load_result(old(self).entries@, curve, min_size as nat),
            r is Ok ==> r->Ok_0.curve == curve && r->Ok_0.size >= min_size,
            find_key(old(self).entries@, curve) is Some ==> final(self).entries@ == old(
                self,
            ).entries@,
            find_key(old(self).entries@, curve) is None ==> final(self).entries@ == old(
                self,
            ).entries@.push(CommitmentKey { curve, size: min_size }),
            find_key(final(self).entries@, curve) is Some,
    {
        let n = self.entries.len();
        let mut i: usize = 0;
        proof {
            assert(self.entries@.skip(0) =~= self.entries@);
        }
        while i < n
            invariant
                i <= n,
                n == self.entries@.len(),
                find_key(self.entries@.skip(i as int), curve) == find_key(self.entries@, curve),
                forall|j: int| 0 <= j < i ==> (#[trigger] self.entries@[j]).curve != curve,
            decreases n - i,
        {
            let entry = self.entries[i];
            proof {
                assert(self.entries@.skip(i as int)[0] == self.entries@[i as int]);
            }
            if entry.curve == curve {
                if entry.size >= min_size {
                    return Ok(entry);
                }
                return Err(
                    KeyError::Undersized { curve, cached: entry.size, requested: min_size },
                );
            }
            proof {
                assert(self.entries@.skip(i as int).drop_first() =~= self.entries@.skip(
                    i as int + 1,
                ));
            }
            i += 1;
        }
        proof {
            assert(self.entries@.skip(n as int) =~= Seq::<CommitmentKey>::empty());
        }
        let fresh = CommitmentKey { curve, size: min_size };
        self.entries.push(fresh);
        proof {
            lemma_find_key_push(old(self).entries@, curve, fresh);
        }
        Ok(fresh)
    }
}

/// Appending a key for another curve leaves a lookup unchanged.
pub proof fn lemma_find_key_other_curve(
    entries: Seq<CommitmentKey>,
    k: CommitmentKey,
    curve: CurveId,
)
    requires
        k.curve != curve,
    ensures
        find_key(entries.push(k), curve) == find_key(entries, curve),
    decreases entries.len(),
{
    if entries.len() == 0 {
        assert(entries.push(k)[0] == k);
        assert(entries.push(k).drop_first() =~= Seq::<CommitmentKey>::empty());
        assert(find_key(Seq::<CommitmentKey>::empty(), curve) is None);
        assert(find_key(entries.push(k), curve) is None);
    } else {
        assert(entries.push(k)[0] == entries[0]);
        assert(entries.push(k).drop_first() =~= entries.drop_first().push(k));
        lemma_find_key_other_curve(entries.drop_first(), k, curve);
    }
}

/// Appending a key for a curve no earlier entry covers makes it the one a
/// lookup finds.
proof fn lemma_find_key_push(entries: Seq<CommitmentKey>, curve: CurveId, k: CommitmentKey)
    requires
        find_key(entries, curve) is None,
        k.curve == curve,
    ensures
        find_key(entries.push(k), curve) == Option::Some(k),
    decreases entries.len(),
{
    if entries.len() == 0 {
        assert(entries.push(k)[0] == k);
    } else {
        assert(entries.push(k)[0] == entries[0]);
        assert(entries.push(k).drop_first() =~= entries.drop_first().push(k));
        lemma_find_key_push(entries.drop_first(), curve, k);
    }
}

} // verus!
