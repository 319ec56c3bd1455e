//! The library-wide laws, each stated over the spec functions that the
//! executable functions' contracts use, and proved once and for all.

use vstd::prelude::*;
use crate::clip::Clip;
use crate::hitcounter::apply_pending;
use crate::hitcounter::record_spec;
use crate::service::Access;
use crate::service::spec_access;
use crate::shortcode::ShortCode;
use crate::store::bump_code;
use crate::store::find_code;
use crate::store::has_code;
use crate::store::key_neq;
use crate::store::live_pred;
use crate::store::sat_add_u64;
use crate::store::with_more_hits;

verus! {

/// A clip stored without a password is readable by anyone: whatever
/// password is supplied, or none, access to a live passwordless clip is
/// granted.
pub proof fn lemma_open_clip_always_readable(clip: Clip, pass: Option<Seq<char>>, now: int)
    requires
        !clip.password.spec_has_password(),
        !clip.is_expired(now),
    ensures
        spec_access(Some(clip), pass, now) == Access::Granted(clip),
{
}

/// A clip stored with a password is readable with exactly that password:
/// the matching supplied password is granted access, and any other supplied
/// password, or none, is denied.
pub proof fn lemma_protected_clip_gated(clip: Clip, pass: Option<Seq<char>>, now: int)
    requires
        clip.password.spec_has_password(),
        !clip.is_expired(now),
    ensures
        pass == clip.password@ ==> spec_access(Some(clip), pass, now) == Access::Granted(clip),
        pass != clip.password@ ==> spec_access(Some(clip), pass, now) == Access::Denied,
{
}

/// Looking up a short code that no stored clip carries ends in NotFound,
/// whatever password is supplied.
pub proof fn lemma_unknown_code_not_found(
    clips: Seq<Clip>,
    code: Seq<char>,
    pass: Option<Seq<char>>,
    now: int,
)
    requires
        !has_code(clips, code),
    ensures
        spec_access(find_code(clips, code), pass, now) == Access::NotFound,
{
}

/// Two hits on one code coalesce: recording `a` and then `b` reads of the
/// same code leaves one pending entry carrying their sum and writes nothing
/// durable; the commit that follows applies exactly that one batched
/// increment to the store.
pub proof fn lemma_hits_coalesce_into_one_commit(
    clips: Seq<Clip>,
    code: ShortCode,
    a: u32,
    b: u32,
)
    requires
        a + b <= u32::MAX,
    ensures
        record_spec(record_spec(Seq::<(ShortCode, u32)>::empty(), code, a), code, b) == seq![
            (code, (a + b) as u32),
        ],
        apply_pending(
            clips,
            record_spec(record_spec(Seq::<(ShortCode, u32)>::empty(), code, a), code, b),
        ) == bump_code(clips, code@, (a + b) as u32),
{
    let once = record_spec(Seq::<(ShortCode, u32)>::empty(), code, a);
    assert(once =~= seq![(code, a)]);
    let twice = record_spec(once, code, b);
    assert(twice =~= seq![(code, (a + b) as u32)]);
    assert(twice.drop_first() =~= Seq::<(ShortCode, u32)>::empty());
    assert(apply_pending(clips, twice) == apply_pending(
        bump_code(clips, code@, (a + b) as u32),
        twice.drop_first(),
    ));
}

/// One batched increment raises the durable counter of the clip carrying
/// the code by exactly the batched count (saturating), and leaves the
/// counter of every other clip as it was; no counter ever decreases.
pub proof fn lemma_bump_code_hits(clips: Seq<Clip>, code: Seq<char>, count: u32)
    ensures
        bump_code(clips, code, count).len() == clips.len(),
        forall|i: int|
            0 <= i < clips.len() ==> bump_code(clips, code, count)[i].hits.value() >= (
            #[trigger] clips[i]).hits.value(),
        forall|i: int|
            0 <= i < clips.len() ==> bump_code(clips, code, count)[i].hits.value() == (if (
            #[trigger] clips[i]).shortcode@ == code {
                sat_add_u64(clips[i].hits.value(), count as u64)
            } else {
                clips[i].hits.value()
            }),
{
    assert forall|i: int|
        0 <= i < clips.len() implies bump_code(clips, code, count)[i].hits.value() == (if (
    #[trigger] clips[i]).shortcode@ == code {
        sat_add_u64(clips[i].hits.value(), count as u64)
    } else {
        clips[i].hits.value()
    }) by {
        if clips[i].shortcode@ == code {
            assert(bump_code(clips, code, count)[i] == with_more_hits(clips[i], count));
            crate::field::Hits::lemma_value(sat_add_u64(clips[i].hits.value(), count as u64));
        } else {
            assert(bump_code(clips, code, count)[i] == clips[i]);
        }
    }
}

/// The expiry sweep is exact: after the sweep no expired clip remains, and
/// every clip that was live — a later expiry, or none — is kept.
pub proof fn lemma_delete_expired_exact(clips: Seq<Clip>, now: int)
    ensures
        forall|c: Clip|
            #[trigger] clips.filter(live_pred(now)).contains(c) ==> !c.is_expired(now),
        forall|i: int|
            0 <= i < clips.len() && !(#[trigger] clips[i]).is_expired(now) ==> clips.filter(
                live_pred(now),
            ).contains(clips[i]),
{
    let kept = clips.filter(live_pred(now));
    assert forall|c: Clip| #[trigger] kept.contains(c) implies !c.is_expired(now) by {
        let k = choose|k: int| 0 <= k < kept.len() && kept[k] == c;
        clips.lemma_filter_pred(live_pred(now), k);
    }
    assert forall|i: int|
        0 <= i < clips.len() && !(#[trigger] clips[i]).is_expired(now) implies kept.contains(
        clips[i],
    ) by {
        clips.lemma_filter_contains(live_pred(now), i);
    }
}

/// An issued key validates until it is revoked: a key just persisted is
/// among the stored keys, and after revocation — which removes every stored
/// copy — it is not.
pub proof fn lemma_api_key_lifecycle(keys: Seq<Seq<u8>>, k: Seq<u8>)
    ensures
        keys.push(k).contains(k),
        !keys.push(k).filter(key_neq(k)).contains(k),
{
    assert(keys.push(k)[keys.len() as int] == k);
    let kept = keys.push(k).filter(key_neq(k));
    if kept.contains(k) {
        let i = choose|i: int| 0 <= i < kept.len() && kept[i] == k;
        keys.push(k).lemma_filter_pred(key_neq(k), i);
    }
}

} // verus!
