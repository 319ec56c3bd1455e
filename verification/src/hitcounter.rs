//! The hit-count aggregator's state machine.
//!
//! Reads are counted in memory first and flushed to the store in batches,
//! so the read path never waits on durable storage. The aggregator owns a
//! pending map from short code to hit count and processes two kinds of
//! message: `Hit` adds to the pending count of one code and writes nothing
//! durable; `Commit` drains the whole pending map into the store. A worker
//! loop around a message channel drives these transitions; that loop, the
//! channel and the clock live outside this library's core.

use vstd::prelude::*;
use crate::shortcode::ShortCode;
use crate::clip::Clip;
use crate::store::Store;
use crate::store::bump_code;

verus! {

/// A message to the aggregator.
pub enum HitCountMsg {
    /// Drain the pending counts into the store.
    Commit,
    /// Count `u32` more reads of the clip carrying the code.
    Hit(ShortCode, u32),
}

/// Addition on a pending counter that stops at the largest representable
/// count instead of wrapping.
pub open spec fn sat_add_u32(a: u32, b: u32) -> u32 {
    if a + b > u32::MAX {
        u32::MAX
    } else {
        (a + b) as u32
    }
}

/// The pending entries after one `Hit(code, count)`: the first entry
/// carrying the code grows by `count`; with no such entry, a new one is
/// appended.
pub open spec fn record_spec(
    entries: Seq<(ShortCode, u32)>,
    code: ShortCode,
    count: u32,
) -> Seq<(ShortCode, u32)>
    decreases entries.len(),
{
    if entries.len() == 0 {
        seq![(code, count)]
    } else if entries[0].0@ == code@ {
        seq![(entries[0].0, sat_add_u32(entries[0].1, count))] + entries.drop_first()
    } else {
        seq![entries[0]] + record_spec(entries.drop_first(), code, count)
    }
}

/// The clips after a drained batch of pending counts is applied, front to
/// back.
pub open spec fn apply_pending(clips: Seq<Clip>, entries: Seq<(ShortCode, u32)>) -> Seq<Clip>
    decreases entries.len(),
{
    if entries.len() == 0 {
        clips
    } else {
        apply_pending(bump_code(clips, entries[0].0@, entries[0].1), entries.drop_first())
    }
}

/// The aggregator's in-memory state: the pending hit count of each short
/// code seen since the last flush.
pub struct HitStore {
    entries: Vec<(ShortCode, u32)>,
}

impl HitStore {
    /// The pending entries, in first-seen order.
    pub closed spec fn pending(&self) -> Seq<(ShortCode, u32)> {
        self.entries@
    }

    /// A fresh aggregator with nothing pending.
    pub fn new() -> (r: HitStore)
        ensures
            r.pending() == Seq::<(ShortCode, u32)>::empty(),
    {
        HitStore { entries: Vec::new() }
    }

    /// Records `count` more reads of `code` in memory; nothing durable is
    /// written and the caller never waits on storage.
    pub fn record(&mut self, code: ShortCode, count: u32)
        ensures
            final(self).pending() == record_spec(old(self).pending(), code, count),
    {
        let ghost orig = old(self).pending();
        let n = self.entries.len();
        let mut i: usize = 0;
        while i < n
            invariant
                i <= n,
                n == orig.len(),
                orig == old(self).pending(),
                self.entries@ == orig,
                forall|j: int| 0 <= j < i ==> (#[trigger] orig[j]).0@ != code@,
            decreases n - i,
        {
            let hit = self.entries[i].0.eq_code(&code);
            if hit {
                let cur = self.entries[i].1;
                let bumped = if cur <= u32::MAX - count {
                    cur + count
                } else {
                    u32::MAX
                };
                let kept = self.entries[i].0.clone();
                self.entries[i] = (kept, bumped);
                proof {
                    lemma_record_spec_at(orig, code, count, i as int);
                    assert(self.entries@ =~= record_spec(orig, code, count));
                }
                return ;
            }
            i += 1;
        }
        self.entries.push((code, count));
        proof {
            lemma_record_spec_missing(orig, code, count);
            assert(self.entries@ =~= record_spec(orig, code, count));
        }
    }

    /// Takes the whole pending map out, leaving it empty; hits recorded
    /// after this swap accumulate afresh for the next flush.
    pub fn drain(&mut self) -> (r: Vec<(ShortCode, u32)>)
        ensures
            r@ == old(self).pending(),
            final(self).pending() == Seq::<(ShortCode, u32)>::empty(),
    {
        let mut drained: Vec<(ShortCode, u32)> = Vec::new();
        core::mem::swap(&mut self.entries, &mut drained);
        drained
    }
}

/// Where `record_spec` lands when the first entry carrying the code sits at
/// index `i`: that entry is bumped in place.
proof fn lemma_record_spec_at(entries: Seq<(ShortCode, u32)>, code: ShortCode, count: u32, i: int)
    requires
        0 <= i < entries.len(),
        entries[i].0@ == code@,
        forall|j: int| 0 <= j < i ==> (#[trigger] entries[j]).0@ != code@,
    ensures
        record_spec(entries, code, count) == entries.update(
            i,
            (entries[i].0, sat_add_u32(entries[i].1, count)),
        ),
    decreases entries.len(),
{
    if i == 0 {
        assert(record_spec(entries, code, count) =~= entries.update(
            0,
            (entries[0].0, sat_add_u32(entries[0].1, count)),
        ));
    } else {
        let rest = entries.drop_first();
        assert(forall|j: int| 0 <= j < i - 1 ==> (#[trigger] rest[j]).0@ != code@);
        assert(rest[i - 1] == entries[i]);
        lemma_record_spec_at(rest, code, count, i - 1);
        assert(record_spec(entries, code, count) =~= entries.update(
            i,
            (entries[i].0, sat_add_u32(entries[i].1, count)),
        ));
    }
}

/// Where `record_spec` lands when no entry carries the code: a new entry is
/// appended.
proof fn lemma_record_spec_missing(entries: Seq<(ShortCode, u32)>, code: ShortCode, count: u32)
    requires
        forall|j: int| 0 <= j < entries.len() ==> (#[trigger] entries[j]).0@ != code@,
    ensures
        record_spec(entries, code, count) == entries.push((code, count)),
    decreases entries.len(),
{
    if entries.len() == 0 {
        assert(record_spec(entries, code, count) =~= entries.push((code, count)));
    } else {
        let rest = entries.drop_first();
        assert(forall|j: int| 0 <= j < rest.len() ==> (#[trigger] rest[j]).0@ != code@);
        lemma_record_spec_missing(rest, code, count);
        assert(record_spec(entries, code, count) =~= entries.push((code, count)));
    }
}

/// Flushes the drained pending counts into the store: each pending pair
/// becomes one durable increment, batched inside one visit to the store; a
/// code no stored clip carries is skipped.
pub fn commit_hits(hits: &mut HitStore, store: &mut Store)
    requires
        old(store).wf(),
    ensures
        final(store).wf(),
        final(store).clips_view() == apply_pending(old(store).clips_view(), old(hits).pending()),
        final(store).keys_view() == old(store).keys_view(),
        final(hits).pending() == Seq::<(ShortCode, u32)>::empty(),
{
    let drained = hits.drain();
    let ghost batch = drained@;
    let ghost orig = old(store).clips_view();
    let n = drained.len();
    let mut i: usize = 0;
    proof {
        assert(batch.skip(0) =~= batch);
    }
    while i < n
        invariant
            i <= n,
            n == batch.len(),
            drained@ == batch,
            store.wf(),
            store.keys_view() == old(store).keys_view(),
            apply_pending(orig, batch) == apply_pending(store.clips_view(), batch.skip(i as int)),
        decreases n - i,
    {
        let (code, count) = (drained[i].0.clone(), drained[i].1);
        proof {
            assert(batch.skip(i as int)[0] == batch[i as int]);
            assert(batch.skip(i as int).drop_first() =~= batch.skip(i + 1));
        }
        store.increment_hits(&code, count);
        i += 1;
    }
    proof {
        assert(batch.skip(n as int) =~= Seq::<(ShortCode, u32)>::empty());
    }
}

/// Processes one aggregator message: a `Hit` only grows the pending count
/// of its code, with no durable write observable; a `Commit` drains every
/// pending count into the store.
pub fn process_msg(msg: HitCountMsg, hits: &mut HitStore, store: &mut Store)
    requires
        old(store).wf(),
    ensures
        final(store).wf(),
        final(store).keys_view() == old(store).keys_view(),
        match msg {
            HitCountMsg::Hit(code, count) => {
                &&& *final(store) == *old(store)
                &&& final(hits).pending() == record_spec(old(hits).pending(), code, count)
            },
            HitCountMsg::Commit => {
                &&& final(store).clips_view() == apply_pending(
                    old(store).clips_view(),
                    old(hits).pending(),
                )
                &&& final(hits).pending() == Seq::<(ShortCode, u32)>::empty()
            },
        },
{
    match msg {
        HitCountMsg::Commit => commit_hits(hits, store),
        HitCountMsg::Hit(code, count) => hits.record(code, count),
    }
}

} // verus!
