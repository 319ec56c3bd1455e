//! An in-memory store of clips and API keys with exact contracts.
//!
//! The store owns the rows the rest of the library works against: clips,
//! addressed by their unique short code, and raw API keys. A durable
//! persistence engine sits outside the library; this store states, in its
//! contracts, exactly the behaviour the library relies on.

use vstd::prelude::*;
use crate::clip::Clip;
use crate::field::Content;
use crate::field::Expires;
use crate::field::Hits;
use crate::field::Password;
use crate::field::Title;
use crate::shortcode::ShortCode;

verus! {

/// The first clip carrying `code`, scanning front to back.
pub open spec fn find_code(clips: Seq<Clip>, code: Seq<char>) -> Option<Clip>
    decreases clips.len(),
{
    if clips.len() == 0 {
        None
    } else if clips[0].shortcode@ == code {
        Some(clips[0])
    } else {
        find_code(clips.drop_first(), code)
    }
}

/// Whether some clip carries `code`.
pub open spec fn has_code(clips: Seq<Clip>, code: Seq<char>) -> bool {
    find_code(clips, code) is Some
}

/// No two clips carry the same short code.
pub open spec fn unique_codes(clips: Seq<Clip>) -> bool {
    forall|i: int, j: int|
        0 <= i < j < clips.len() ==> (#[trigger] clips[i]).shortcode@ != (
        #[trigger] clips[j]).shortcode@
}

/// Every clip is well-formed.
pub open spec fn all_wf(clips: Seq<Clip>) -> bool {
    forall|i: int| 0 <= i < clips.len() ==> (#[trigger] clips[i]).wf()
}

/// What `find_code` finds: a clip of the sequence carrying `code`, or
/// nothing exactly when no clip carries `code`.
pub proof fn lemma_find_code(clips: Seq<Clip>, code: Seq<char>)
    ensures
        match find_code(clips, code) {
            Some(c) => c.shortcode@ == code && clips.contains(c),
            None => forall|i: int| 0 <= i < clips.len() ==> (#[trigger] clips[i]).shortcode@ != code,
        },
    decreases clips.len(),
{
    if clips.len() > 0 {
        if clips[0].shortcode@ == code {
            assert(clips.contains(clips[0]));
        } else {
            lemma_find_code(clips.drop_first(), code);
            match find_code(clips.drop_first(), code) {
                Some(c) => {
                    let i = choose|i: int|
                        0 <= i < clips.drop_first().len() && clips.drop_first()[i] == c;
                    assert(clips[i + 1] == c);
                },
                None => {
                    assert forall|i: int|
                        0 <= i < clips.len() implies (#[trigger] clips[i]).shortcode@ != code by {
                        if i > 0 {
                            assert(clips.drop_first()[i - 1] == clips[i]);
                        }
                    }
                },
            }
        }
    }
}

/// When codes are unique, `find_code` returns exactly the clip at any index
/// carrying `code`.
pub proof fn lemma_find_code_at(clips: Seq<Clip>, code: Seq<char>, i: int)
    requires
        unique_codes(clips),
        0 <= i < clips.len(),
        clips[i].shortcode@ == code,
    ensures
        find_code(clips, code) == Some(clips[i]),
    decreases clips.len(),
{
    if i == 0 {
    } else {
        assert(clips[0].shortcode@ != code);
        assert(clips.drop_first()[i - 1] == clips[i]);
        assert(unique_codes(clips.drop_first())) by {
            assert forall|p: int, q: int|
                0 <= p < q < clips.drop_first().len() implies (
            #[trigger] clips.drop_first()[p]).shortcode@ != (
            #[trigger] clips.drop_first()[q]).shortcode@ by {
                assert(clips.drop_first()[p] == clips[p + 1]);
                assert(clips.drop_first()[q] == clips[q + 1]);
            }
        }
        lemma_find_code_at(clips.drop_first(), code, i - 1);
    }
}

/// Every element of a filtered sequence is an element of the original.
pub proof fn lemma_filter_subset<A>(s: Seq<A>, pred: spec_fn(A) -> bool)
    ensures
        forall|i: int| 0 <= i < s.filter(pred).len() ==> s.contains(#[trigger] s.filter(pred)[i]),
    decreases s.len(),
{
    reveal(Seq::filter);
    if s.len() == 0 {
    } else {
        let dl = s.drop_last();
        lemma_filter_subset(dl, pred);
        assert forall|i: int|
            0 <= i < s.filter(pred).len() implies s.contains(#[trigger] s.filter(pred)[i]) by {
            if pred(s.last()) {
                assert(s.filter(pred) == dl.filter(pred).push(s.last()));
            } else {
                assert(s.filter(pred) == dl.filter(pred));
            }
            if i < dl.filter(pred).len() {
                assert(dl.contains(dl.filter(pred)[i]));
                let j = choose|j: int| 0 <= j < dl.len() && dl[j] == dl.filter(pred)[i];
                assert(s[j] == s.filter(pred)[i]);
            } else {
                assert(s.filter(pred)[i] == s.last());
                assert(s[s.len() - 1] == s.last());
            }
        }
    }
}

/// Filtering keeps short codes unique and clips well-formed.
pub proof fn lemma_filter_clips_ok(clips: Seq<Clip>, pred: spec_fn(Clip) -> bool)
    requires
        unique_codes(clips),
        all_wf(clips),
    ensures
        unique_codes(clips.filter(pred)),
        all_wf(clips.filter(pred)),
    decreases clips.len(),
{
    reveal(Seq::filter);
    lemma_filter_subset(clips, pred);
    if clips.len() == 0 {
    } else {
        let dl = clips.drop_last();
        assert(unique_codes(dl) && all_wf(dl)) by {
            assert(forall|i: int| 0 <= i < dl.len() ==> dl[i] == clips[i]);
        }
        lemma_filter_clips_ok(dl, pred);
        lemma_filter_subset(dl, pred);
        let f = clips.filter(pred);
        let fd = dl.filter(pred);
        if pred(clips.last()) {
            assert(f == fd.push(clips.last()));
            assert forall|i: int, j: int|
                0 <= i < j < f.len() implies (#[trigger] f[i]).shortcode@ != (
            #[trigger] f[j]).shortcode@ by {
                if j < fd.len() {
                } else {
                    assert(f[j] == clips.last());
                    assert(dl.contains(fd[i]));
                    let k = choose|k: int| 0 <= k < dl.len() && dl[k] == fd[i];
                    assert(clips[k] == fd[i]);
                    assert(clips[k].shortcode@ != clips[clips.len() - 1].shortcode@);
                }
            }
            assert(all_wf(f)) by {
                assert(clips.last() == clips[clips.len() - 1]);
                assert(forall|i: int| 0 <= i < fd.len() ==> f[i] == fd[i]);
            }
        } else {
            assert(f == fd);
        }
    }
}

/// `c` with its mutable fields replaced; identifier, short code, creation
/// time and hit count stay.
pub open spec fn with_fields(
    c: Clip,
    content: Content,
    title: Title,
    expires: Expires,
    password: Password,
) -> Clip {
    Clip { content, title, expires, password, ..c }
}

/// Addition on a hit counter that stops at the largest representable count
/// instead of wrapping, so a counter never decreases.
pub open spec fn sat_add_u64(a: u64, b: u64) -> u64 {
    if a + b > u64::MAX {
        u64::MAX
    } else {
        (a + b) as u64
    }
}

/// `c` with `count` more hits.
pub open spec fn with_more_hits(c: Clip, count: u32) -> Clip {
    Clip { hits: Hits::spec_new(sat_add_u64(c.hits.value(), count as u64)), ..c }
}

/// `clips` after the clip carrying `code`, if any, had its mutable fields
/// replaced.
pub open spec fn replace_code(
    clips: Seq<Clip>,
    code: Seq<char>,
    content: Content,
    title: Title,
    expires: Expires,
    password: Password,
) -> Seq<Clip> {
    clips.map(
        |i: int, c: Clip|
            if c.shortcode@ == code {
                with_fields(c, content, title, expires, password)
            } else {
                c
            },
    )
}

/// `clips` after the clip carrying `code`, if any, received `count` more
/// hits.
pub open spec fn bump_code(clips: Seq<Clip>, code: Seq<char>, count: u32) -> Seq<Clip> {
    clips.map(
        |i: int, c: Clip|
            if c.shortcode@ == code {
                with_more_hits(c, count)
            } else {
                c
            },
    )
}

/// The clips that are still live at time `now`.
pub open spec fn live_pred(now: int) -> spec_fn(Clip) -> bool {
    |c: Clip| !c.is_expired(now)
}

/// The outcome of removing a stored API key.
#[derive(Debug)]
pub enum RevocationStatus {
    /// The key was present and is gone now.
    Revoked,
    /// The key was not stored.
    NotFound,
}

/// An in-memory store: clips addressed by unique short codes, and raw API
/// keys.
pub struct Store {
    clips: Vec<Clip>,
    api_keys: Vec<Vec<u8>>,
}

impl Store {
    /// The stored clips, in insertion order.
    pub closed spec fn clips_view(&self) -> Seq<Clip> {
        self.clips@
    }

    /// The stored raw API keys, in insertion order.
    pub closed spec fn keys_view(&self) -> Seq<Seq<u8>> {
        self.api_keys.deep_view()
    }

    /// Store invariant: short codes are unique across live clips, and every
    /// stored clip is well-formed.
    pub open spec fn wf(&self) -> bool {
        unique_codes(self.clips_view()) && all_wf(self.clips_view())
    }

    /// An empty store.
    pub fn new() -> (r: Store)
        ensures
            r.wf(),
            r.clips_view() == Seq::<Clip>::empty(),
            r.keys_view() == Seq::<Seq<u8>>::empty(),
    {
        let r = Store { clips: Vec::new(), api_keys: Vec::new() };
        proof {
            assert(r.keys_view() =~= Seq::<Seq<u8>>::empty());
        }
        r
    }

    /// Looks a clip up by its short code.
    pub fn fetch(&self, shortcode: &ShortCode) -> (r: Option<Clip>)
        ensures
            r == find_code(self.clips_view(), shortcode@),
    {
        let n = self.clips.len();
        let mut i: usize = 0;
        proof {
            assert(self.clips@.skip(0) =~= self.clips@);
        }
        while i < n
            invariant
                i <= n,
                n == self.clips@.len(),
                find_code(self.clips@, shortcode@) == find_code(
                    self.clips@.skip(i as int),
                    shortcode@,
                ),
            decreases n - i,
        {
            let c = &self.clips[i];
            if c.shortcode.eq_code(shortcode) {
                proof {
                    assert(self.clips@.skip(i as int)[0] == self.clips@[i as int]);
                }
                return Some(self.clips[i].clone());
            }
            proof {
                assert(self.clips@.skip(i as int).drop_first() =~= self.clips@.skip(i + 1));
                assert(self.clips@.skip(i as int)[0] == self.clips@[i as int]);
            }
            i += 1;
        }
        proof {
            assert(self.clips@.skip(n as int).len() == 0);
        }
        None
    }

    /// Inserts a fully formed clip verbatim. Succeeds exactly when no stored
    /// clip carries the same short code; on a conflict the store is left
    /// unchanged.
    pub fn insert(&mut self, clip: Clip) -> (r: bool)
        requires
            old(self).wf(),
            clip.wf(),
        ensures
            final(self).wf(),
            r == !has_code(old(self).clips_view(), clip.shortcode@),
            r ==> final(self).clips_view() == old(self).clips_view().push(clip),
            !r ==> *final(self) == *old(self),
            final(self).keys_view() == old(self).keys_view(),
    {
        if self.fetch(&clip.shortcode).is_some() {
            return false;
        }
        proof {
            lemma_find_code(self.clips_view(), clip.shortcode@);
            let clips = self.clips_view().push(clip);
            assert forall|i: int, j: int|
                0 <= i < j < clips.len() implies (#[trigger] clips[i]).shortcode@ != (
            #[trigger] clips[j]).shortcode@ by {
                if j < clips.len() - 1 {
                    assert(clips[i] == self.clips_view()[i]);
                    assert(clips[j] == self.clips_view()[j]);
                } else {
                    assert(clips[j] == clip);
                    assert(clips[i] == self.clips_view()[i]);
                }
            }
            assert(all_wf(clips)) by {
                assert(forall|i: int|
                    0 <= i < clips.len() - 1 ==> clips[i] == self.clips_view()[i]);
            }
        }
        self.clips.push(clip);
        true
    }

    /// Replaces the mutable fields of the clip carrying `shortcode`,
    /// preserving its identifier, short code, creation time and hit count,
    /// and returns the updated clip; returns nothing and leaves the store
    /// unchanged when no clip carries the code.
    pub fn replace(
        &mut self,
        shortcode: &ShortCode,
        content: Content,
        title: Title,
        expires: Expires,
        password: Password,
    ) -> (r: Option<Clip>)
        requires
            old(self).wf(),
            content.wf(),
            title.wf(),
            password.wf(),
        ensures
            final(self).wf(),
            final(self).clips_view() == replace_code(
                old(self).clips_view(),
                shortcode@,
                content,
                title,
                expires,
                password,
            ),
            r == (match find_code(old(self).clips_view(), shortcode@) {
                Some(c) => Some(with_fields(c, content, title, expires, password)),
                None => None::<Clip>,
            }),
            final(self).keys_view() == old(self).keys_view(),
    {
        let ghost orig = old(self).clips_view();
        let ghost target = replace_code(orig, shortcode@, content, title, expires, password);
        let n = self.clips.len();
        let mut i: usize = 0;
        while i < n
            invariant
                i <= n,
                n == orig.len(),
                self.clips@ == orig,
                self.api_keys@ == old(self).api_keys@,
                unique_codes(orig),
                all_wf(orig),
                orig == old(self).clips_view(),
                content.wf(),
                title.wf(),
                password.wf(),
                target == replace_code(orig, shortcode@, content, title, expires, password),
                forall|j: int| 0 <= j < i ==> (#[trigger] orig[j]).shortcode@ != shortcode@,
            decreases n - i,
        {
            if self.clips[i].shortcode.eq_code(shortcode) {
                proof {
                    lemma_find_code_at(orig, shortcode@, i as int);
                }
                let mut newc = self.clips[i].clone();
                newc.content = content;
                newc.title = title;
                newc.expires = expires;
                newc.password = password;
                let ret = newc.clone();
                self.clips[i] = newc;
                proof {
                    assert forall|j: int| 0 <= j < n implies self.clips@[j] == target[j] by {
                        assert(target[j] == (if orig[j].shortcode@ == shortcode@ {
                            with_fields(orig[j], content, title, expires, password)
                        } else {
                            orig[j]
                        }));
                        if j != i {
                            assert(orig[j].shortcode@ != orig[i as int].shortcode@);
                        } else {
                            assert(newc == with_fields(orig[j], content, title, expires, password));
                        }
                    }
                    assert(self.clips@ =~= target);
                    assert(unique_codes(self.clips@) && all_wf(self.clips@)) by {
                        assert(forall|j: int|
                            0 <= j < n ==> (#[trigger] self.clips@[j]).shortcode@
                                == orig[j].shortcode@);
                        assert(forall|j: int|
                            0 <= j < n ==> (#[trigger] self.clips@[j]).wf());
                    }
                }
                return Some(ret);
            }
            i += 1;
        }
        proof {
            lemma_find_code(orig, shortcode@);
            if find_code(orig, shortcode@) is Some {
                let c = find_code(orig, shortcode@)->Some_0;
                let k = choose|k: int| 0 <= k < orig.len() && orig[k] == c;
                assert(orig[k].shortcode@ == shortcode@);
            }
            assert forall|j: int| 0 <= j < n implies self.clips@[j] == target[j] by {
                assert(target[j] == (if orig[j].shortcode@ == shortcode@ {
                    with_fields(orig[j], content, title, expires, password)
                } else {
                    orig[j]
                }));
            }
            assert(self.clips@ =~= target);
        }
        None
    }

    /// Adds `count` to the hit counter of the clip carrying `shortcode`;
    /// a code no stored clip carries is ignored. The counter saturates
    /// instead of wrapping, so it never decreases.
    pub fn increment_hits(&mut self, shortcode: &ShortCode, count: u32)
        requires
            old(self).wf(),
        ensures
            final(self).wf(),
            final(self).clips_view() == bump_code(old(self).clips_view(), shortcode@, count),
            final(self).keys_view() == old(self).keys_view(),
    {
        let ghost orig = old(self).clips_view();
        let ghost target = bump_code(orig, shortcode@, count);
        let n = self.clips.len();
        let mut i: usize = 0;
        while i < n
            invariant
                i <= n,
                n == orig.len(),
                self.clips@ == orig,
                self.api_keys@ == old(self).api_keys@,
                unique_codes(orig),
                all_wf(orig),
                orig == old(self).clips_view(),
                target == bump_code(orig, shortcode@, count),
                forall|j: int| 0 <= j < i ==> (#[trigger] orig[j]).shortcode@ != shortcode@,
            decreases n - i,
        {
            if self.clips[i].shortcode.eq_code(shortcode) {
                let mut newc = self.clips[i].clone();
                let h = newc.hits.into_inner();
                let add = count as u64;
                let bumped = if h <= u64::MAX - add {
                    h + add
                } else {
                    u64::MAX
                };
                newc.hits = Hits::new(bumped);
                self.clips[i] = newc;
                proof {
                    assert forall|j: int| 0 <= j < n implies self.clips@[j] == target[j] by {
                        assert(target[j] == (if orig[j].shortcode@ == shortcode@ {
                            with_more_hits(orig[j], count)
                        } else {
                            orig[j]
                        }));
                        if j != i {
                            assert(orig[j].shortcode@ != orig[i as int].shortcode@);
                        } else {
                            assert(newc == with_more_hits(orig[j], count));
                        }
                    }
                    assert(self.clips@ =~= target);
                    assert(unique_codes(self.clips@) && all_wf(self.clips@)) by {
                        assert(forall|j: int|
                            0 <= j < n ==> (#[trigger] self.clips@[j]).shortcode@
                                == orig[j].shortcode@);
                        assert(forall|j: int|
                            0 <= j < n ==> (#[trigger] self.clips@[j]).wf());
                    }
                }
                return ;
            }
            i += 1;
        }
        proof {
            assert forall|j: int| 0 <= j < n implies self.clips@[j] == target[j] by {
                assert(target[j] == (if orig[j].shortcode@ == shortcode@ {
                    with_more_hits(orig[j], count)
                } else {
                    orig[j]
                }));
            }
            assert(self.clips@ =~= target);
        }
    }

    /// Removes every clip whose expiry lies strictly before `now`, leaves
    /// every other clip untouched, and reports how many were removed.
    pub fn delete_expired(&mut self, now: i64) -> (r: u64)
        requires
            old(self).wf(),
        ensures
            final(self).wf(),
            final(self).clips_view() == old(self).clips_view().filter(live_pred(now as int)),
            r as int == old(self).clips_view().len() - final(self).clips_view().len(),
            final(self).keys_view() == old(self).keys_view(),
    {
        let ghost pred = live_pred(now as int);
        let n = self.clips.len();
        let mut kept: Vec<Clip> = Vec::new();
        let mut i: usize = 0;
        proof {
            reveal(Seq::filter);
            assert(self.clips@.subrange(0, 0).filter(pred) =~= Seq::<Clip>::empty());
        }
        while i < n
            invariant
                i <= n,
                n == self.clips@.len(),
                self.clips@ == old(self).clips_view(),
                self.api_keys@ == old(self).api_keys@,
                unique_codes(self.clips@),
                all_wf(self.clips@),
                kept@ == self.clips@.subrange(0, i as int).filter(live_pred(now as int)),
            decreases n - i,
        {
            let c = &self.clips[i];
            proof {
                reveal(Seq::filter);
                assert(self.clips@.subrange(0, i + 1).drop_last() =~= self.clips@.subrange(
                    0,
                    i as int,
                ));
                assert(self.clips@.subrange(0, i + 1).last() == self.clips@[i as int]);
            }
            if !c.expires.is_past(now) {
                let keep = self.clips[i].clone();
                kept.push(keep);
            }
            i += 1;
        }
        proof {
            assert(self.clips@.subrange(0, n as int) =~= self.clips@);
            lemma_filter_clips_ok(self.clips@, pred);
            self.clips@.lemma_filter_len(pred);
        }
        let removed = self.clips.len() - kept.len();
        self.clips = kept;
        removed as u64
    }

    /// Persists a raw API key.
    pub fn put_api_key(&mut self, key: Vec<u8>)
        requires
            old(self).wf(),
        ensures
            final(self).wf(),
            final(self).keys_view() == old(self).keys_view().push(key@),
            final(self).clips_view() == old(self).clips_view(),
    {
        self.api_keys.push(key);
        proof {
            assert(self.keys_view() =~~= old(self).keys_view().push(key@));
        }
    }

    /// Whether a raw API key is stored.
    pub fn key_exists(&self, key: &Vec<u8>) -> (r: bool)
        ensures
            r == self.keys_view().contains(key@),
    {
        let n = self.api_keys.len();
        let mut i: usize = 0;
        while i < n
            invariant
                i <= n,
                n == self.api_keys@.len(),
                forall|j: int| 0 <= j < i ==> self.keys_view()[j] != key@,
            decreases n - i,
        {
            proof {
                assert(self.keys_view()[i as int] =~= self.api_keys@[i as int]@);
            }
            if bytes_eq(&self.api_keys[i], key) {
                proof {
                    assert(self.keys_view()[i as int] == key@);
                }
                return true;
            }
            i += 1;
        }
        false
    }

    /// Removes every stored copy of a raw API key; reports whether any was
    /// stored.
    pub fn delete_api_key(&mut self, key: &Vec<u8>) -> (r: RevocationStatus)
        requires
            old(self).wf(),
        ensures
            final(self).wf(),
            final(self).keys_view() == old(self).keys_view().filter(key_neq(key@)),
            !final(self).keys_view().contains(key@),
            r is Revoked <==> old(self).keys_view().contains(key@),
            final(self).clips_view() == old(self).clips_view(),
    {
        let ghost orig = old(self).keys_view();
        let n = self.api_keys.len();
        let mut kept: Vec<Vec<u8>> = Vec::new();
        let mut found = false;
        let mut i: usize = 0;
        proof {
            reveal(Seq::filter);
            assert(orig.subrange(0, 0).filter(key_neq(key@)) =~= Seq::<Seq<u8>>::empty());
            assert(kept.deep_view() =~= Seq::<Seq<u8>>::empty());
        }
        while i < n
            invariant
                i <= n,
                n == self.api_keys@.len(),
                self.clips@ == old(self).clips@,
                self.api_keys == old(self).api_keys,
                orig == old(self).keys_view(),
                unique_codes(self.clips@),
                all_wf(self.clips@),
                kept.deep_view() == orig.subrange(0, i as int).filter(key_neq(key@)),
                found <==> orig.subrange(0, i as int).contains(key@),
            decreases n - i,
        {
            proof {
                reveal(Seq::filter);
                assert(orig.subrange(0, i + 1).drop_last() =~= orig.subrange(0, i as int));
                assert(orig.subrange(0, i + 1).last() == orig[i as int]);
                assert(orig[i as int] =~= self.api_keys@[i as int]@);
            }
            let ghost kept_before = kept.deep_view();
            if bytes_eq(&self.api_keys[i], key) {
                found = true;
                proof {
                    assert(orig.subrange(0, i + 1)[i as int] == key@);
                }
            } else {
                let copy = self.api_keys[i].clone();
                proof {
                    assert(copy@ == self.api_keys@[i as int]@);
                }
                kept.push(copy);
                proof {
                    assert(kept.deep_view() =~~= kept_before.push(orig[i as int]));
                }
            }
            proof {
                if orig.subrange(0, i + 1).contains(key@) && !orig.subrange(0, i as int).contains(
                    key@,
                ) {
                    let k = choose|k: int|
                        0 <= k < i + 1 && #[trigger] orig.subrange(0, i + 1)[k] == key@;
                    assert(k == i);
                }
            }
            i += 1;
        }
        proof {
            assert(orig.subrange(0, n as int) =~= orig);
            let f = orig.filter(key_neq(key@));
            lemma_filter_subset(orig, key_neq(key@));
            assert(!f.contains(key@)) by {
                if f.contains(key@) {
                    let k = choose|k: int| 0 <= k < f.len() && f[k] == key@;
                    orig.lemma_filter_pred(key_neq(key@), k);
                }
            }
        }
        self.api_keys = kept;
        if found {
            RevocationStatus::Revoked
        } else {
            RevocationStatus::NotFound
        }
    }
}

/// Decides equality of two raw keys.
fn bytes_eq(a: &Vec<u8>, b: &Vec<u8>) -> (r: bool)
    ensures
        r == (a@ == b@),
{
    let r = a.eq(b);
    proof {
        if r {
            assert(a@ =~= b@);
        }
    }
    r
}

/// Keys different from `key`.
pub open spec fn key_neq(key: Seq<u8>) -> spec_fn(Seq<u8>) -> bool {
    |k: Seq<u8>| k != key
}

} // verus!
