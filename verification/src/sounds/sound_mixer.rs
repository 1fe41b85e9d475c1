use vstd::prelude::*;

use crate::sound::sat_i16;
use crate::sound::Error;
use crate::sound::NextSample;
use crate::sound::Sound;
use crate::sounds::all_wf;
use crate::sounds::any_batch_rel;
use crate::sounds::any_chans_ok;
use crate::sounds::any_next_rel;
use crate::sounds::any_rate_ok;
use crate::sounds::any_wf;
use crate::sounds::poll_witness;
use crate::sounds::ConstantValueSound;
use crate::sounds::AnySound;
use crate::wrappers::AddSound;
use crate::wrappers::ClearSounds;

verus! {

/// How many `MetadataChanged` reports from one member the mixer absorbs
/// within a single tick before it treats the member as silent for that
/// tick. Bounding the burst keeps the per-tick work of the render path
/// bounded.
pub const MAX_METADATA_REPORTS_PER_TICK: u32 = 8;

/// What polling one mixer member for one tick produced.
///
/// `post` is the member's state afterwards, or `None` when the member
/// was dropped (it failed, or it changed to a format the mixer cannot
/// mix). `contribution` is the sample value contributed to the tick's sum.
/// `finished` says whether the member counted as finished this tick;
/// a dropped member is neutral. `failed` carries the error when the
/// member failed, in which case polling stops for the tick.
pub struct MemberPoll {
    pub post: Option<AnySound>,
    pub contribution: int,
    pub finished: bool,
    pub failed: Option<Error>,
}

/// Always true; used only as a quantifier trigger for a member poll.
pub open spec fn member_witness(p: MemberPoll) -> bool {
    true
}

/// Always true; used only as a quantifier trigger for the outcome of
/// polling a suffix of the member list.
pub open spec fn mix_witness(post: Seq<AnySound>, sum: int, fin: bool, err: Option<Error>) -> bool {
    true
}

/// Polling one member with up to `k` further format reports absorbed.
///
/// The member is polled once. A `Sample` contributes its value; `Paused`
/// contributes silence; `Finished` contributes silence and marks the
/// member finished (it stays, and is polled again next tick); an error
/// drops the member and stops the tick. On `MetadataChanged` the mixer
/// re-reads the member's format: a member whose format no longer matches
/// the mixer's fixed output format is dropped (the mixer performs no
/// conversion), and a matching member is polled again within the tick,
/// up to `k` times, after which it contributes silence for this tick.
pub open spec fn member_meta_chain(m: AnySound, cc: u16, sr: u32, k: nat, p: MemberPoll) -> bool
    decreases k,
{
    exists|m2: AnySound, rf: Result<NextSample, Error>|
        #[trigger] poll_witness(m, m2, rf) && any_next_rel(m, m2, rf) && match rf {
            Ok(NextSample::Sample(v)) => p == (MemberPoll {
                post: Some(m2),
                contribution: v as int,
                finished: false,
                failed: None,
            }),
            Ok(NextSample::Paused) => p == (MemberPoll {
                post: Some(m2),
                contribution: 0,
                finished: false,
                failed: None,
            }),
            Ok(NextSample::Finished) => p == (MemberPoll {
                post: Some(m2),
                contribution: 0,
                finished: true,
                failed: None,
            }),
            Err(e) => p == (MemberPoll {
                post: None,
                contribution: 0,
                finished: false,
                failed: Some(e),
            }),
            Ok(NextSample::MetadataChanged) => {
                ||| p == (MemberPoll { post: None, contribution: 0, finished: true, failed: None })
                ||| {
                    &&& any_chans_ok(m2, cc)
                    &&& any_rate_ok(m2, sr)
                    &&& if k == 0 {
                        p == (MemberPoll {
                            post: Some(m2),
                            contribution: 0,
                            finished: false,
                            failed: None,
                        })
                    } else {
                        member_meta_chain(m2, cc, sr, (k - 1) as nat, p)
                    }
                }
            },
        }
}

/// Polling one member for one tick, with the full format-report budget.
pub open spec fn member_poll_rel(m: AnySound, cc: u16, sr: u32, p: MemberPoll) -> bool {
    member_meta_chain(m, cc, sr, MAX_METADATA_REPORTS_PER_TICK as nat, p)
}

/// Polling every member of `pre` in order for one tick.
///
/// `post` is the surviving member list in order, `sum` the sum of all
/// contributions, `fin` whether every surviving polled member counted as
/// finished, and `err` the first error; polling stops at an error and
/// the members after the failing one are left unpolled.
pub open spec fn mix_poll_rel(
    pre: Seq<AnySound>,
    cc: u16,
    sr: u32,
    post: Seq<AnySound>,
    sum: int,
    fin: bool,
    err: Option<Error>,
) -> bool
    decreases pre.len(),
{
    if pre.len() == 0 {
        post == pre && sum == 0 && fin == true && err is None
    } else {
        exists|p: MemberPoll|
            #[trigger] member_witness(p) && member_poll_rel(pre[0], cc, sr, p) && {
                if p.failed is Some {
                    &&& post == pre.drop_first()
                    &&& sum == 0
                    &&& fin == false
                    &&& err == p.failed
                } else {
                    exists|tpost: Seq<AnySound>, tsum: int, tfin: bool, terr: Option<Error>|
                        #[trigger] mix_witness(tpost, tsum, tfin, terr) && mix_poll_rel(
                            pre.drop_first(),
                            cc,
                            sr,
                            tpost,
                            tsum,
                            tfin,
                            terr,
                        ) && (match p.post {
                            Some(m2) => post == seq![m2] + tpost,
                            None => post == tpost,
                        }) && sum == p.contribution + tsum && fin == (p.finished && tfin) && err
                            == terr
                }
            }
    }
}

/// The transition relation of `next_sample` on a mixer.
///
/// The mixer's own reported format is fixed at construction and never
/// changes. An empty mixer reports `Finished` for the tick only. After
/// the mixer has reported `Finished`, an `add` schedules one
/// `MetadataChanged` tick so a consumer re-reads the format before audio
/// resumes. Otherwise every member is polled once and the contributions
/// are summed and saturated into the 16-bit domain; the mixer reports
/// `Finished` when every surviving member finished, and forwards the
/// first member error after dropping the failing member.
pub open spec fn mixer_next_rel(pre: SoundMixer, post: SoundMixer, r: Result<
    NextSample,
    Error,
>) -> bool {
    &&& post.channel_count == pre.channel_count
    &&& post.sample_rate == pre.sample_rate
    &&& if pre.sounds@.len() == 0 {
        post == (SoundMixer { observed_finished: true, ..pre }) && r == Ok::<NextSample, Error>(
            NextSample::Finished,
        )
    } else if pre.pending_metadata {
        post == (SoundMixer { pending_metadata: false, observed_finished: false, ..pre }) && r
            == Ok::<NextSample, Error>(NextSample::MetadataChanged)
    } else {
        &&& !post.pending_metadata
        &&& exists|sum: int, fin: bool, err: Option<Error>|
            #[trigger] mix_witness(post.sounds@, sum, fin, err) && mix_poll_rel(
                pre.sounds@,
                pre.channel_count,
                pre.sample_rate,
                post.sounds@,
                sum,
                fin,
                err,
            ) && match err {
                Some(e) => r == Err::<NextSample, Error>(e) && !post.observed_finished,
                None => if fin {
                    r == Ok::<NextSample, Error>(NextSample::Finished) && post.observed_finished
                } else {
                    r == Ok::<NextSample, Error>(NextSample::Sample(sat_i16(sum)))
                        && !post.observed_finished
                },
            }
    }
}

/// The transition relation of `on_start_of_batch` on a mixer: the
/// notification is forwarded to every member, in place; membership and
/// flags do not change.
pub open spec fn mixer_batch_rel(pre: SoundMixer, post: SoundMixer) -> bool {
    &&& post.channel_count == pre.channel_count
    &&& post.sample_rate == pre.sample_rate
    &&& post.pending_metadata == pre.pending_metadata
    &&& post.observed_finished == pre.observed_finished
    &&& post.sounds@.len() == pre.sounds@.len()
    &&& forall|i: int|
        0 <= i < pre.sounds@.len() ==> any_batch_rel(#[trigger] pre.sounds@[i], post.sounds@[i])
}

/// Play multiple Sounds at the same time, added together.
///
/// The mixer's reported channel count and sample rate are fixed at
/// construction. Members whose samples are being mixed must produce
/// audio in that format; a member that reports a change to any other
/// format is dropped. The mixer is the root of a sound graph: it owns
/// its members but is not itself a member of another composite.
///
/// `Finished` from the mixer means only that no member produced audio
/// this tick; the mixer stays usable and members can be added at any
/// time.
pub struct SoundMixer {
    pub sounds: Vec<AnySound>,
    pub channel_count: u16,
    pub sample_rate: u32,
    pub pending_metadata: bool,
    pub observed_finished: bool,
}

proof fn lemma_chain_outcome(
    m: AnySound,
    m2: AnySound,
    rf: Result<NextSample, Error>,
    cc: u16,
    sr: u32,
    k: nat,
    p: MemberPoll,
)
    requires
        any_next_rel(m, m2, rf),
        match rf {
            Ok(NextSample::Sample(v)) => p == (MemberPoll {
                post: Some(m2),
                contribution: v as int,
                finished: false,
                failed: None,
            }),
            Ok(NextSample::Paused) => p == (MemberPoll {
                post: Some(m2),
                contribution: 0,
                finished: false,
                failed: None,
            }),
            Ok(NextSample::Finished) => p == (MemberPoll {
                post: Some(m2),
                contribution: 0,
                finished: true,
                failed: None,
            }),
            Err(e) => p == (MemberPoll {
                post: None,
                contribution: 0,
                finished: false,
                failed: Some(e),
            }),
            Ok(NextSample::MetadataChanged) => false,
        },
    ensures
        member_meta_chain(m, cc, sr, k, p),
{
    assert(poll_witness(m, m2, rf));
}

proof fn lemma_chain_meta_drop(m: AnySound, m2: AnySound, cc: u16, sr: u32, k: nat, p: MemberPoll)
    requires
        any_next_rel(m, m2, Ok::<NextSample, Error>(NextSample::MetadataChanged)),
        p == (MemberPoll { post: None, contribution: 0, finished: true, failed: None }),
    ensures
        member_meta_chain(m, cc, sr, k, p),
{
    assert(poll_witness(m, m2, Ok::<NextSample, Error>(NextSample::MetadataChanged)));
}

proof fn lemma_chain_meta_stay(
    m: AnySound,
    m2: AnySound,
    cc: u16,
    sr: u32,
    k: nat,
    p: MemberPoll,
)
    requires
        any_next_rel(m, m2, Ok::<NextSample, Error>(NextSample::MetadataChanged)),
        any_chans_ok(m2, cc),
        any_rate_ok(m2, sr),
        if k == 0 {
            p == (MemberPoll { post: Some(m2), contribution: 0, finished: false, failed: None })
        } else {
            member_meta_chain(m2, cc, sr, (k - 1) as nat, p)
        },
    ensures
        member_meta_chain(m, cc, sr, k, p),
{
    assert(poll_witness(m, m2, Ok::<NextSample, Error>(NextSample::MetadataChanged)));
}

proof fn lemma_mix_poll_failed(
    pre: Seq<AnySound>,
    cc: u16,
    sr: u32,
    post: Seq<AnySound>,
    p: MemberPoll,
    e: Error,
)
    requires
        pre.len() > 0,
        member_poll_rel(pre[0], cc, sr, p),
        p.failed == Some(e),
        post == pre.drop_first(),
    ensures
        mix_poll_rel(pre, cc, sr, post, 0, false, Some(e)),
{
    assert(member_witness(p));
}

proof fn lemma_mix_poll_cons(
    pre: Seq<AnySound>,
    cc: u16,
    sr: u32,
    post: Seq<AnySound>,
    p: MemberPoll,
    tpost: Seq<AnySound>,
    tsum: int,
    tfin: bool,
    terr: Option<Error>,
)
    requires
        pre.len() > 0,
        member_poll_rel(pre[0], cc, sr, p),
        p.failed is None,
        mix_poll_rel(pre.drop_first(), cc, sr, tpost, tsum, tfin, terr),
        match p.post {
            Some(m2) => post == seq![m2] + tpost,
            None => post == tpost,
        },
    ensures
        mix_poll_rel(pre, cc, sr, post, p.contribution + tsum, p.finished && tfin, terr),
{
    assert(member_witness(p));
    assert(mix_witness(tpost, tsum, tfin, terr));
}

proof fn lemma_mixer_polled(
    pre: SoundMixer,
    post: SoundMixer,
    sum: int,
    fin: bool,
    err: Option<Error>,
    r: Result<NextSample, Error>,
)
    requires
        pre.sounds@.len() > 0,
        !pre.pending_metadata,
        post.channel_count == pre.channel_count,
        post.sample_rate == pre.sample_rate,
        !post.pending_metadata,
        mix_poll_rel(pre.sounds@, pre.channel_count, pre.sample_rate, post.sounds@, sum, fin, err),
        match err {
            Some(e) => r == Err::<NextSample, Error>(e) && !post.observed_finished,
            None => if fin {
                r == Ok::<NextSample, Error>(NextSample::Finished) && post.observed_finished
            } else {
                r == Ok::<NextSample, Error>(NextSample::Sample(sat_i16(sum)))
                    && !post.observed_finished
            },
        },
    ensures
        mixer_next_rel(pre, post, r),
{
    assert(mix_witness(post.sounds@, sum, fin, err));
}

/// Poll one member once for this tick, absorbing up to `tries` format
/// reports. Returns `(contribution, finished, kept, failed)`; the caller
/// drops the member unless `kept`.
fn poll_member(m: &mut AnySound, cc: u16, sr: u32, tries: u32) -> (out: (
    i16,
    bool,
    bool,
    Option<Error>,
))
    requires
        any_wf(*old(m)),
    ensures
        any_wf(*final(m)),
        member_meta_chain(
            *old(m),
            cc,
            sr,
            tries as nat,
            MemberPoll {
                post: if out.2 {
                    Some(*final(m))
                } else {
                    None
                },
                contribution: out.0 as int,
                finished: out.1,
                failed: out.3,
            },
        ),
        out.3 is Some ==> out.0 == 0 && !out.1 && !out.2,
    decreases tries,
{
    let ghost m0 = *old(m);
    let rf = m.node_next_sample();
    match rf {
        Ok(NextSample::Sample(v)) => {
            proof {
                lemma_chain_outcome(
                    m0,
                    *m,
                    rf,
                    cc,
                    sr,
                    tries as nat,
                    MemberPoll { post: Some(*m), contribution: v as int, finished: false, failed: None },
                );
            }
            (v, false, true, None)
        },
        Ok(NextSample::Paused) => {
            proof {
                lemma_chain_outcome(
                    m0,
                    *m,
                    rf,
                    cc,
                    sr,
                    tries as nat,
                    MemberPoll { post: Some(*m), contribution: 0, finished: false, failed: None },
                );
            }
            (0, false, true, None)
        },
        Ok(NextSample::Finished) => {
            proof {
                lemma_chain_outcome(
                    m0,
                    *m,
                    rf,
                    cc,
                    sr,
                    tries as nat,
                    MemberPoll { post: Some(*m), contribution: 0, finished: true, failed: None },
                );
            }
            (0, true, true, None)
        },
        Err(e) => {
            proof {
                lemma_chain_outcome(
                    m0,
                    *m,
                    Err::<NextSample, Error>(e),
                    cc,
                    sr,
                    tries as nat,
                    MemberPoll { post: None, contribution: 0, finished: false, failed: Some(e) },
                );
            }
            (0, false, false, Some(e))
        },
        Ok(NextSample::MetadataChanged) => {
            let ghost mid = *m;
            let c2 = m.node_channel_count();
            let r2 = m.node_sample_rate();
            if c2 == cc && r2 == sr {
                if tries == 0 {
                    proof {
                        lemma_chain_meta_stay(
                            m0,
                            mid,
                            cc,
                            sr,
                            tries as nat,
                            MemberPoll {
                                post: Some(*m),
                                contribution: 0,
                                finished: false,
                                failed: None,
                            },
                        );
                    }
                    (0, false, true, None)
                } else {
                    let out = poll_member(m, cc, sr, tries - 1);
                    proof {
                        lemma_chain_meta_stay(
                            m0,
                            mid,
                            cc,
                            sr,
                            tries as nat,
                            MemberPoll {
                                post: if out.2 {
                                    Some(*m)
                                } else {
                                    None
                                },
                                contribution: out.0 as int,
                                finished: out.1,
                                failed: out.3,
                            },
                        );
                    }
                    out
                }
            } else {
                proof {
                    lemma_chain_meta_drop(
                        m0,
                        mid,
                        cc,
                        sr,
                        tries as nat,
                        MemberPoll { post: None, contribution: 0, finished: true, failed: None },
                    );
                }
                (0, true, false, None)
            }
        },
    }
}

/// Poll every member of `sounds` in order for one tick, dropping failed
/// or mismatched members. Returns the summed contributions, whether all
/// surviving members finished, and the first error.
fn poll_members(sounds: &mut Vec<AnySound>, cc: u16, sr: u32) -> (out: (i128, bool, Option<Error>))
    requires
        all_wf(old(sounds)@),
    ensures
        all_wf(final(sounds)@),
        mix_poll_rel(old(sounds)@, cc, sr, final(sounds)@, out.0 as int, out.1, out.2),
        -32768 * old(sounds)@.len() <= out.0 as int <= 32767 * old(sounds)@.len(),
    decreases old(sounds)@.len(),
{
    let ghost pre = sounds@;
    if sounds.len() == 0 {
        return (0, true, None);
    }
    let mut front = sounds.remove(0);
    proof {
        assert(front == pre[0]);
        assert(any_wf(pre[0]));
        assert forall|i: int| 0 <= i < sounds@.len() implies any_wf(#[trigger] sounds@[i]) by {
            assert(sounds@[i] == pre[i + 1]);
            assert(any_wf(pre[i + 1]));
        }
    }
    let (contribution, finished, kept, failed) = poll_member(
        &mut front,
        cc,
        sr,
        MAX_METADATA_REPORTS_PER_TICK,
    );
    let ghost p = MemberPoll {
        post: if kept {
            Some(front)
        } else {
            None
        },
        contribution: contribution as int,
        finished,
        failed,
    };
    match failed {
        Some(e) => {
            proof {
                lemma_mix_poll_failed(pre, cc, sr, sounds@, p, e);
            }
            (0, false, Some(e))
        },
        None => {
            let (tsum, tfin, terr) = poll_members(sounds, cc, sr);
            let ghost tpost = sounds@;
            if kept {
                sounds.insert(0, front);
                proof {
                    assert(sounds@ =~= seq![front] + tpost);
                    assert forall|i: int| 0 <= i < sounds@.len() implies any_wf(
                        #[trigger] sounds@[i],
                    ) by {
                        if i == 0 {
                            assert(any_wf(front));
                        } else {
                            assert(any_wf(tpost[i - 1]));
                        }
                    }
                }
            }
            proof {
                lemma_mix_poll_cons(
                    pre,
                    cc,
                    sr,
                    sounds@,
                    p,
                    tpost,
                    tsum as int,
                    tfin,
                    terr,
                );
                assert(usize::MAX <= u64::MAX);
            }
            let sum: i128 = (contribution as i128) + tsum;
            (sum, finished && tfin, terr)
        },
    }
}

/// A member that is a constant-value source with no pending format
/// change.
pub open spec fn constant_ready(s: AnySound) -> bool {
    s matches AnySound::Constant(c) && !c.metadata_changed
}

/// The sum of the values of a sequence of constant-value members.
pub open spec fn constant_sum(sounds: Seq<AnySound>) -> int
    decreases sounds.len(),
{
    if sounds.len() == 0 {
        0
    } else {
        (match sounds[0] {
            AnySound::Constant(c) => c.value as int,
            _ => 0,
        }) + constant_sum(sounds.drop_first())
    }
}

proof fn lemma_chain_constant(c: ConstantValueSound, cc: u16, sr: u32, k: nat, p: MemberPoll)
    requires
        member_meta_chain(AnySound::Constant(c), cc, sr, k, p),
        !c.metadata_changed,
    ensures
        p == (MemberPoll {
            post: Some(AnySound::Constant(c)),
            contribution: c.value as int,
            finished: false,
            failed: None,
        }),
{
    let m = AnySound::Constant(c);
    let (m2, rf) = choose|m2: AnySound, rf: Result<NextSample, Error>|
        #[trigger] poll_witness(m, m2, rf) && any_next_rel(m, m2, rf) && match rf {
            Ok(NextSample::Sample(v)) => p == (MemberPoll {
                post: Some(m2),
                contribution: v as int,
                finished: false,
                failed: None,
            }),
            Ok(NextSample::Paused) => p == (MemberPoll {
                post: Some(m2),
                contribution: 0,
                finished: false,
                failed: None,
            }),
            Ok(NextSample::Finished) => p == (MemberPoll {
                post: Some(m2),
                contribution: 0,
                finished: true,
                failed: None,
            }),
            Err(e) => p == (MemberPoll {
                post: None,
                contribution: 0,
                finished: false,
                failed: Some(e),
            }),
            Ok(NextSample::MetadataChanged) => {
                ||| p == (MemberPoll { post: None, contribution: 0, finished: true, failed: None })
                ||| {
                    &&& any_chans_ok(m2, cc)
                    &&& any_rate_ok(m2, sr)
                    &&& if k == 0 {
                        p == (MemberPoll {
                            post: Some(m2),
                            contribution: 0,
                            finished: false,
                            failed: None,
                        })
                    } else {
                        member_meta_chain(m2, cc, sr, (k - 1) as nat, p)
                    }
                }
            },
        };
    assert(any_next_rel(m, m2, rf));
    assert(rf == Ok::<NextSample, Error>(NextSample::Sample(c.value)));
    assert(m2 == m);
}

proof fn lemma_constants_poll(
    pre_s: Seq<AnySound>,
    cc: u16,
    sr: u32,
    post_s: Seq<AnySound>,
    sum: int,
    fin: bool,
    err: Option<Error>,
)
    requires
        mix_poll_rel(pre_s, cc, sr, post_s, sum, fin, err),
        forall|i: int| 0 <= i < pre_s.len() ==> constant_ready(#[trigger] pre_s[i]),
    ensures
        post_s == pre_s,
        sum == constant_sum(pre_s),
        err is None,
        pre_s.len() > 0 ==> !fin,
    decreases pre_s.len(),
{
    if pre_s.len() == 0 {
    } else {
        let p = choose|p: MemberPoll|
            #[trigger] member_witness(p) && member_poll_rel(pre_s[0], cc, sr, p) && {
                if p.failed is Some {
                    &&& post_s == pre_s.drop_first()
                    &&& sum == 0
                    &&& fin == false
                    &&& err == p.failed
                } else {
                    exists|tpost: Seq<AnySound>, tsum: int, tfin: bool, terr: Option<Error>|
                        #[trigger] mix_witness(tpost, tsum, tfin, terr) && mix_poll_rel(
                            pre_s.drop_first(),
                            cc,
                            sr,
                            tpost,
                            tsum,
                            tfin,
                            terr,
                        ) && (match p.post {
                            Some(m2) => post_s == seq![m2] + tpost,
                            None => post_s == tpost,
                        }) && sum == p.contribution + tsum && fin == (p.finished && tfin) && err
                            == terr
                }
            };
        assert(constant_ready(pre_s[0]));
        let c = pre_s[0]->Constant_0;
        lemma_chain_constant(c, cc, sr, MAX_METADATA_REPORTS_PER_TICK as nat, p);
        let (tpost, tsum, tfin, terr) = choose|
            tpost: Seq<AnySound>,
            tsum: int,
            tfin: bool,
            terr: Option<Error>,
        |
            #[trigger] mix_witness(tpost, tsum, tfin, terr) && mix_poll_rel(
                pre_s.drop_first(),
                cc,
                sr,
                tpost,
                tsum,
                tfin,
                terr,
            ) && (match p.post {
                Some(m2) => post_s == seq![m2] + tpost,
                None => post_s == tpost,
            }) && sum == p.contribution + tsum && fin == (p.finished && tfin) && err == terr;
        assert(forall|i: int|
            0 <= i < pre_s.drop_first().len() ==> constant_ready(
                #[trigger] pre_s.drop_first()[i],
            ));
        lemma_constants_poll(pre_s.drop_first(), cc, sr, tpost, tsum, tfin, terr);
        assert(post_s =~= pre_s);
    }
}

/// A mixer whose members are constant-value sources with no pending
/// format change emits the saturated sum of their values each tick, and
/// its member set does not change.
pub proof fn lemma_mixer_of_constants(pre: SoundMixer, post: SoundMixer, r: Result<
    NextSample,
    Error,
>)
    requires
        mixer_next_rel(pre, post, r),
        pre.sounds@.len() > 0,
        !pre.pending_metadata,
        forall|i: int| 0 <= i < pre.sounds@.len() ==> constant_ready(#[trigger] pre.sounds@[i]),
    ensures
        r == Ok::<NextSample, Error>(NextSample::Sample(sat_i16(constant_sum(pre.sounds@)))),
        post.sounds@ == pre.sounds@,
{
    let (sum, fin, err) = choose|sum: int, fin: bool, err: Option<Error>|
        #[trigger] mix_witness(post.sounds@, sum, fin, err) && mix_poll_rel(
            pre.sounds@,
            pre.channel_count,
            pre.sample_rate,
            post.sounds@,
            sum,
            fin,
            err,
        ) && match err {
            Some(e) => r == Err::<NextSample, Error>(e) && !post.observed_finished,
            None => if fin {
                r == Ok::<NextSample, Error>(NextSample::Finished) && post.observed_finished
            } else {
                r == Ok::<NextSample, Error>(NextSample::Sample(sat_i16(sum)))
                    && !post.observed_finished
            },
        };
    lemma_constants_poll(pre.sounds@, pre.channel_count, pre.sample_rate, post.sounds@, sum, fin, err);
}

/// A mixer never becomes permanently unusable: once it has reported
/// `Finished`, adding a member schedules exactly one `MetadataChanged`
/// tick — so the consumer re-reads the format — after which sample
/// output resumes; with a constant-value member, the very next tick
/// already carries its value.
pub proof fn lemma_mixer_recovers(
    m0: SoundMixer,
    m1: SoundMixer,
    m2: SoundMixer,
    m3: SoundMixer,
    m4: SoundMixer,
    m5: SoundMixer,
    sound: AnySound,
    r1: Result<NextSample, Error>,
    r4: Result<NextSample, Error>,
    r5: Result<NextSample, Error>,
)
    requires
        m0.sounds@.len() == 0,
        mixer_next_rel(m0, m1, r1),
        <SoundMixer as AddSound>::add_rel(m1, m2, sound),
        mixer_batch_rel(m2, m3),
        mixer_next_rel(m3, m4, r4),
        mixer_next_rel(m4, m5, r5),
        constant_ready(sound),
    ensures
        r1 == Ok::<NextSample, Error>(NextSample::Finished),
        r4 == Ok::<NextSample, Error>(NextSample::MetadataChanged),
        r5 == Ok::<NextSample, Error>(
            NextSample::Sample(sat_i16(sound->Constant_0.value as int)),
        ),
{
    assert(m1.observed_finished);
    assert(m2.pending_metadata);
    assert(m2.sounds@ =~= seq![sound]);
    assert(m3.pending_metadata);
    assert(m3.sounds@.len() == 1);
    assert(any_batch_rel(m2.sounds@[0], m3.sounds@[0]));
    assert(m3.sounds@[0] == sound);
    assert(m4.sounds@ == m3.sounds@);
    assert(!m4.pending_metadata);
    assert(forall|i: int|
        0 <= i < m4.sounds@.len() ==> constant_ready(#[trigger] m4.sounds@[i]));
    lemma_mixer_of_constants(m4, m5, r5);
    assert(m4.sounds@.drop_first().len() == 0);
    assert(constant_sum(m4.sounds@.drop_first()) == 0);
    assert(m4.sounds@[0] == sound);
    assert(constant_sum(m4.sounds@) == sound->Constant_0.value as int);
}

impl SoundMixer {
    /// Create a mixer that reports `channel_count` and `sample_rate` for
    /// its whole lifetime.
    pub fn new(channel_count: u16, sample_rate: u32) -> (r: SoundMixer)
        ensures
            r.sounds@.len() == 0,
            r.channel_count == channel_count,
            r.sample_rate == sample_rate,
            !r.pending_metadata,
            !r.observed_finished,
            r.wf(),
    {
        SoundMixer {
            sounds: Vec::new(),
            channel_count,
            sample_rate,
            pending_metadata: false,
            observed_finished: false,
        }
    }

    /// Add a Sound to be played together with the existing members.
    ///
    /// When the mixer has already reported `Finished`, the next tick
    /// after an `add` reports `MetadataChanged` so the consumer re-reads
    /// the format before audio resumes.
    pub fn add(&mut self, sound: AnySound)
        requires
            old(self).wf(),
            any_wf(sound),
        ensures
            final(self).wf(),
            final(self).sounds@ == old(self).sounds@.push(sound),
            final(self).pending_metadata == (old(self).pending_metadata || old(
                self,
            ).observed_finished),
            final(self).channel_count == old(self).channel_count,
            final(self).sample_rate == old(self).sample_rate,
            final(self).observed_finished == old(self).observed_finished,
    {
        if self.observed_finished {
            self.pending_metadata = true;
        }
        self.sounds.push(sound);
        proof {
            assert forall|i: int| 0 <= i < self.sounds@.len() implies any_wf(
                #[trigger] self.sounds@[i],
            ) by {
                if i < old(self).sounds@.len() {
                    assert(any_wf(old(self).sounds@[i]));
                }
            }
        }
    }

    /// Returns the number of sounds currently in the mixer.
    pub fn len(&self) -> (r: usize)
        ensures
            r == self.sounds@.len(),
    {
        self.sounds.len()
    }
}

impl Sound for SoundMixer {
    open spec fn wf(&self) -> bool {
        all_wf(self.sounds@)
    }

    open spec fn chans_ok(&self, c: u16) -> bool {
        c == self.channel_count
    }

    open spec fn rate_ok(&self, r: u32) -> bool {
        r == self.sample_rate
    }

    open spec fn next_rel(pre: Self, post: Self, r: Result<NextSample, Error>) -> bool {
        mixer_next_rel(pre, post, r)
    }

    open spec fn batch_rel(pre: Self, post: Self) -> bool {
        mixer_batch_rel(pre, post)
    }

    fn channel_count(&self) -> (c: u16) {
        self.channel_count
    }

    fn sample_rate(&self) -> (r: u32) {
        self.sample_rate
    }

    fn next_sample(&mut self) -> (r: Result<NextSample, Error>) {
        if self.sounds.len() == 0 {
            self.observed_finished = true;
            return Ok(NextSample::Finished);
        }
        if self.pending_metadata {
            self.pending_metadata = false;
            self.observed_finished = false;
            return Ok(NextSample::MetadataChanged);
        }
        let ghost pre = *old(self);
        let (sum, fin, err) = poll_members(&mut self.sounds, self.channel_count, self.sample_rate);
        match err {
            Some(e) => {
                self.observed_finished = false;
                proof {
                    lemma_mixer_polled(
                        pre,
                        *self,
                        sum as int,
                        fin,
                        err,
                        Err::<NextSample, Error>(e),
                    );
                }
                Err(e)
            },
            None => {
                if fin {
                    self.observed_finished = true;
                    proof {
                        lemma_mixer_polled(
                            pre,
                            *self,
                            sum as int,
                            fin,
                            err,
                            Ok::<NextSample, Error>(NextSample::Finished),
                        );
                    }
                    Ok(NextSample::Finished)
                } else {
                    self.observed_finished = false;
                    let s = if sum > i16::MAX as i128 {
                        i16::MAX
                    } else if sum < i16::MIN as i128 {
                        i16::MIN
                    } else {
                        sum as i16
                    };
                    proof {
                        lemma_mixer_polled(
                            pre,
                            *self,
                            sum as int,
                            fin,
                            err,
                            Ok::<NextSample, Error>(NextSample::Sample(s)),
                        );
                    }
                    Ok(NextSample::Sample(s))
                }
            },
        }
    }

    fn on_start_of_batch(&mut self) {
        let ghost pre = *old(self);
        let n = self.sounds.len();
        let mut j: usize = 0;
        #[verifier::loop_isolation(false)]
        while j < n
            invariant
                0 <= j <= n,
                n == pre.sounds@.len(),
                self.channel_count == pre.channel_count,
                self.sample_rate == pre.sample_rate,
                self.pending_metadata == pre.pending_metadata,
                self.observed_finished == pre.observed_finished,
                self.sounds@.len() == n,
                all_wf(self.sounds@),
                forall|i: int| 0 <= i < n - j ==> #[trigger] self.sounds@[i] == pre.sounds@[i + j],
                forall|i: int|
                    0 <= i < j ==> any_batch_rel(#[trigger] pre.sounds@[i], self.sounds@[n - j + i]),
            decreases n - j,
        {
            let ghost loop_pre = self.sounds@;
            let mut s = self.sounds.remove(0);
            proof {
                assert(loop_pre[0] == pre.sounds@[j as int]);
                assert(any_wf(loop_pre[0]));
            }
            s.node_on_start_of_batch();
            self.sounds.push(s);
            proof {
                assert forall|i: int| 0 <= i < self.sounds@.len() implies any_wf(
                    #[trigger] self.sounds@[i],
                ) by {
                    if i < self.sounds@.len() - 1 {
                        assert(self.sounds@[i] == loop_pre[i + 1]);
                        assert(any_wf(loop_pre[i + 1]));
                    } else {
                        assert(self.sounds@[i] == s);
                    }
                }
            }
            j = j + 1;
        }
        proof {
            assert forall|i: int| 0 <= i < pre.sounds@.len() implies any_batch_rel(
                #[trigger] pre.sounds@[i],
                self.sounds@[i],
            ) by {
                assert(any_batch_rel(pre.sounds@[i], self.sounds@[n - n + i]));
            }
        }
    }
}

impl AddSound for SoundMixer {
    open spec fn add_rel(pre: Self, post: Self, sound: AnySound) -> bool {
        &&& post.sounds@ == pre.sounds@.push(sound)
        &&& post.pending_metadata == (pre.pending_metadata || pre.observed_finished)
        &&& post.channel_count == pre.channel_count
        &&& post.sample_rate == pre.sample_rate
        &&& post.observed_finished == pre.observed_finished
    }

    fn add(&mut self, sound: AnySound) {
        self.add(sound);
    }
}

impl ClearSounds for SoundMixer {
    open spec fn clear_rel(pre: Self, post: Self) -> bool {
        &&& post.sounds@.len() == 0
        &&& post.channel_count == pre.channel_count
        &&& post.sample_rate == pre.sample_rate
        &&& post.pending_metadata == pre.pending_metadata
        &&& post.observed_finished == pre.observed_finished
    }

    /// Drop every member immediately, including those mid-playback.
    fn clear(&mut self) {
        self.sounds.clear();
    }
}

} // verus!

