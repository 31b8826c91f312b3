//! Which samples meet in the mix, which wait, and what is said of those that were lost.

use std::path::PathBuf;

use vstd::prelude::*;

use crate::audio::{
    adds_up_to, drops, law_the_extent_is_met, mixes_to, samples, AudioFormat, AudioMix,
    AudioSource, InputState, MixState,
};
use crate::capture::{Capture, RingCommand};
use crate::finish::Finishing;
use crate::frame::DmabufDesc;
use crate::start::Startup;
use crate::timeline::Advance;

verus! {

/// Some partial sums lead to what adds up.
proof fn lemma_partial_sums<R, G, S, A: Fn(S, S, G) -> S>(
    accumulate: A,
    silence: S,
    inputs: Seq<InputState<R, G, S>>,
    slot: int,
    count: nat,
    total: S,
) -> (sums: Seq<S>)
    requires
        adds_up_to(accumulate, silence, inputs, slot, count, total),
    ensures
        sums.len() == count + 1,
        sums[0] == silence,
        sums[count as int] == total,
        forall|k: int|
            0 <= k < count ==> if slot < (#[trigger] inputs[k]).pending.len() {
                accumulate.ensures((sums[k], inputs[k].pending[slot], inputs[k].gain), sums[k + 1])
            } else {
                sums[k + 1] == sums[k]
            },
    decreases count,
{
    if count == 0 {
        seq![silence]
    } else {
        let before = (count - 1) as nat;
        let input = inputs[before as int];
        let sum = if slot < input.pending.len() {
            choose|sum: S|
                #![trigger accumulate.ensures((sum, input.pending[slot], input.gain), total)]
                adds_up_to(accumulate, silence, inputs, slot, before, sum)
                    && accumulate.ensures((sum, input.pending[slot], input.gain), total)
        } else {
            total
        };
        let sums = lemma_partial_sums(accumulate, silence, inputs, slot, before, sum);
        let all = sums.push(total);
        assert forall|k: int| 0 <= k < count implies if slot < (#[trigger] inputs[k]).pending.len() {
            accumulate.ensures((all[k], inputs[k].pending[slot], inputs[k].gain), all[k + 1])
        } else {
            all[k + 1] == all[k]
        } by {
            if k < before {
                assert(all[k] == sums[k] && all[k + 1] == sums[k + 1]);
            } else {
                assert(all[k] == sum && all[k + 1] == total);
            }
        }
        all
    }
}

/// What a pump comes to, spelled out.
proof fn lemma_pump<R, G, S, A: Fn(S, S, G) -> S, L: Fn(S) -> S>(
    mix: MixState<R, G, S>,
    drained: Seq<Vec<S>>,
    flush: bool,
    silence: S,
    accumulate: A,
    limit: L,
    after: MixState<R, G, S>,
    mixed: Option<Vec<S>>,
    slots: nat,
)
    requires
        mix.pumps_to(samples(drained), flush, silence, accumulate, limit, after, mixed),
        drained.len() == mix.inputs.len(),
        mixed is Some ==> slots == mixed->0@.len(),
        mixed is None ==> slots == 0,
    ensures
        mixed is None <==> slots == 0,
        after.slack == mix.slack,
        after.inputs.len() == mix.inputs.len(),
        mix.inputs.len() == 0 ==> slots == 0,
        forall|k: int|
            0 <= k < mix.inputs.len() ==> {
                let kept = #[trigger] after.inputs[k];
                let had = mix.inputs[k].pending + drained[k]@;
                &&& kept.label == mix.inputs[k].label
                &&& kept.ring == mix.inputs[k].ring
                &&& kept.gain == mix.inputs[k].gain
                &&& slots <= had.len() ==> kept.pending == had.skip(slots as int)
                &&& slots > had.len() ==> kept.pending.len() == 0
            },
        mix.inputs.len() > 0 ==> exists|k: int|
            0 <= k < mix.inputs.len() && (#[trigger] mix.inputs[k]).pending.len()
                + drained[k]@.len() == slots,
        (forall|i: int, j: int|
            0 <= i < mix.inputs.len() && 0 <= j < mix.inputs.len() ==> (
            #[trigger] mix.inputs[i]).pending.len() + drained[i]@.len() <= (
            #[trigger] mix.inputs[j]).pending.len() + drained[j]@.len() + mix.slack) && !flush
            ==> forall|k: int|
            0 <= k < mix.inputs.len() ==> slots <= (#[trigger] mix.inputs[k]).pending.len()
                + drained[k]@.len(),
        flush || (exists|i: int, j: int|
            0 <= i < mix.inputs.len() && 0 <= j < mix.inputs.len() && (
            #[trigger] mix.inputs[i]).pending.len() + drained[i]@.len() > (
            #[trigger] mix.inputs[j]).pending.len() + drained[j]@.len() + mix.slack)
            ==> forall|k: int|
            0 <= k < mix.inputs.len() ==> (#[trigger] mix.inputs[k]).pending.len()
                + drained[k]@.len() <= slots,
{
    let given = samples(drained);
    let fed = mix.fed(given);
    law_the_extent_is_met(fed.inputs);
    let short = crate::audio::shortest(fed.inputs);
    let long = crate::audio::longest(fed.inputs);
    assert(slots == fed.take(flush));
    assert forall|k: int| 0 <= k < mix.inputs.len() implies (
    #[trigger] mix.inputs[k]).pending.len() + drained[k]@.len() == fed.inputs[k].pending.len()
        && fed.inputs[k].pending == mix.inputs[k].pending + drained[k]@ by {
        assert(given[k] == drained[k]@);
    }
    assert forall|k: int| 0 <= k < mix.inputs.len() implies ({
        let kept = #[trigger] after.inputs[k];
        let had = mix.inputs[k].pending + drained[k]@;
        &&& kept.label == mix.inputs[k].label
        &&& kept.ring == mix.inputs[k].ring
        &&& kept.gain == mix.inputs[k].gain
        &&& slots <= had.len() ==> kept.pending == had.skip(slots as int)
        &&& slots > had.len() ==> kept.pending.len() == 0
    }) by {
        assert(given[k] == drained[k]@);
        assert(after.inputs[k] == fed.consumed(slots).inputs[k]);
    }
    if mix.inputs.len() > 0 {
        let s = choose|k: int|
            0 <= k < fed.inputs.len() && (#[trigger] fed.inputs[k]).pending.len() == short;
        let l = choose|k: int|
            0 <= k < fed.inputs.len() && (#[trigger] fed.inputs[k]).pending.len() == long;
        assert(mix.inputs[s].pending.len() + drained[s]@.len() == short);
        assert(mix.inputs[l].pending.len() + drained[l]@.len() == long);
        assert(long >= short);
        assert forall|k: int| 0 <= k < mix.inputs.len() implies short <= (
        #[trigger] mix.inputs[k]).pending.len() + drained[k]@.len() <= long by {
            assert(fed.inputs[k].pending.len() <= long);
        }
    }
}

/// What a slot of a pump's mix comes to, spelled out.
proof fn lemma_slot<R, G, S, A: Fn(S, S, G) -> S, L: Fn(S) -> S>(
    mix: MixState<R, G, S>,
    drained: Seq<Vec<S>>,
    flush: bool,
    silence: S,
    accumulate: A,
    limit: L,
    after: MixState<R, G, S>,
    mixed: Vec<S>,
    slot: int,
)
    requires
        mix.pumps_to(samples(drained), flush, silence, accumulate, limit, after, Some(mixed)),
        drained.len() == mix.inputs.len(),
        0 <= slot < mixed@.len(),
    ensures
        exists|sums: Seq<S>|
            {
                &&& sums.len() == mix.inputs.len() + 1
                &&& sums[0] == silence
                &&& #[trigger] limit.ensures((sums.last(),), mixed@[slot])
                &&& forall|k: int|
                    0 <= k < mix.inputs.len() ==> {
                        let had = (#[trigger] mix.inputs[k]).pending + drained[k]@;
                        if slot < had.len() {
                            accumulate.ensures(
                                (sums[k], had[slot], mix.inputs[k].gain),
                                sums[k + 1],
                            )
                        } else {
                            sums[k + 1] == sums[k]
                        }
                    }
            },
{
    let given = samples(drained);
    let fed = mix.fed(given);
    let sample = mixed@[slot];
    assert(mixes_to(accumulate, limit, silence, fed.inputs, slot, sample));
    let total = choose|total: S|
        #![trigger limit.ensures((total,), sample)]
        adds_up_to(accumulate, silence, fed.inputs, slot, fed.inputs.len(), total)
            && limit.ensures((total,), sample);
    let sums = lemma_partial_sums(
        accumulate,
        silence,
        fed.inputs,
        slot,
        fed.inputs.len(),
        total,
    );
    assert forall|k: int| 0 <= k < mix.inputs.len() implies ({
        let had = (#[trigger] mix.inputs[k]).pending + drained[k]@;
        if slot < had.len() {
            accumulate.ensures((sums[k], had[slot], mix.inputs[k].gain), sums[k + 1])
        } else {
            sums[k + 1] == sums[k]
        }
    }) by {
        assert(given[k] == drained[k]@);
        assert(fed.inputs[k].pending == mix.inputs[k].pending + drained[k]@);
    }
    assert(limit.ensures((sums.last(),), mixed@[slot]));
}

/// A pump mixes as many slots as some input can fill: the input with the fewest samples
/// while none lags behind another by more than the slack, and the one with the most where
/// one does, or at a flush. What an input had beyond that stays, in order, and nothing
/// else of it changes.
pub proof fn law_a_pump_takes_what_all_inputs_have<R, G: Copy, S: Copy, A: Fn(S, S, G) -> S, L: Fn(S) -> S>(
    mix: &mut AudioMix<R, G, S>,
    drained: Vec<Vec<S>>,
    flush: bool,
    silence: S,
    accumulate: A,
    limit: L,
    mixed: Option<Vec<S>>,
    slots: nat,
)
    requires
        call_ensures(AudioMix::<R, G, S>::pump::<A, L>, (mix, drained, flush, silence, accumulate, limit), mixed),
        drained@.len() == old(mix)@.inputs.len(),
        mixed is Some ==> slots == mixed->0@.len(),
        mixed is None ==> slots == 0,
    ensures
        mixed is None <==> slots == 0,
        final(mix)@.slack == old(mix)@.slack,
        final(mix)@.inputs.len() == old(mix)@.inputs.len(),
        old(mix)@.inputs.len() == 0 ==> slots == 0,
        forall|k: int|
            0 <= k < drained@.len() ==> {
                let input = old(mix)@.inputs[k];
                let kept = #[trigger] final(mix)@.inputs[k];
                let had = input.pending + drained@[k]@;
                &&& kept.label == input.label
                &&& kept.ring == input.ring
                &&& kept.gain == input.gain
                &&& slots <= had.len() ==> kept.pending == had.skip(slots as int)
                &&& slots > had.len() ==> kept.pending.len() == 0
            },
        drained@.len() > 0 ==> exists|k: int|
            0 <= k < drained@.len() && (#[trigger] old(mix)@.inputs[k]).pending.len()
                + drained@[k]@.len() == slots,
        !flush && (forall|i: int, j: int|
            0 <= i < drained@.len() && 0 <= j < drained@.len() ==> (
            #[trigger] old(mix)@.inputs[i]).pending.len() + drained@[i]@.len() <= (
            #[trigger] old(mix)@.inputs[j]).pending.len() + drained@[j]@.len() + old(
                mix,
            )@.slack) ==> forall|k: int|
            0 <= k < drained@.len() ==> slots <= (
            #[trigger] old(mix)@.inputs[k]).pending.len() + drained@[k]@.len(),
        !flush && (exists|i: int, j: int|
            0 <= i < drained@.len() && 0 <= j < drained@.len() && (
            #[trigger] old(mix)@.inputs[i]).pending.len() + drained@[i]@.len() > (
            #[trigger] old(mix)@.inputs[j]).pending.len() + drained@[j]@.len() + old(
                mix,
            )@.slack) ==> forall|k: int|
            0 <= k < drained@.len() ==> (
            #[trigger] old(mix)@.inputs[k]).pending.len() + drained@[k]@.len() <= slots,
        flush ==> forall|k: int|
            0 <= k < drained@.len() ==> (
            #[trigger] old(mix)@.inputs[k]).pending.len() + drained@[k]@.len() <= slots,
{
    lemma_pump(
        old(mix)@,
        drained@,
        flush,
        silence,
        accumulate,
        limit,
        final(mix)@,
        mixed,
        slots,
    );
}

/// Each slot of the mix is the limit of a sum that starts from silence and takes in, one
/// input after another, the sample that the input has in that slot, by its gain. An input
/// that has none there adds nothing.
pub proof fn law_a_slot_is_the_limited_sum<R, G: Copy, S: Copy, A: Fn(S, S, G) -> S, L: Fn(S) -> S>(
    mix: &mut AudioMix<R, G, S>,
    drained: Vec<Vec<S>>,
    flush: bool,
    silence: S,
    accumulate: A,
    limit: L,
    mixed: Vec<S>,
    slot: int,
)
    requires
        call_ensures(AudioMix::<R, G, S>::pump::<A, L>, (mix, drained, flush, silence, accumulate, limit), Some(mixed)),
        drained@.len() == old(mix)@.inputs.len(),
        0 <= slot < mixed@.len(),
    ensures
        exists|sums: Seq<S>|
            {
                &&& sums.len() == drained@.len() + 1
                &&& sums[0] == silence
                &&& #[trigger] limit.ensures((sums.last(),), mixed@[slot])
                &&& forall|k: int|
                    0 <= k < drained@.len() ==> {
                        let had = (#[trigger] old(mix)@.inputs[k]).pending + drained@[k]@;
                        if slot < had.len() {
                            accumulate.ensures(
                                (sums[k], had[slot], old(mix)@.inputs[k].gain),
                                sums[k + 1],
                            )
                        } else {
                            sums[k + 1] == sums[k]
                        }
                    }
            },
{
    lemma_slot(
        old(mix)@,
        drained@,
        flush,
        silence,
        accumulate,
        limit,
        final(mix)@,
        mixed,
        slot,
    );
}

/// The pump of a wakeup mixes as many slots as the input with the fewest samples can fill,
/// or, where one lags behind another by more than the slack, as the one with the most. The
/// rest stays, and nothing but the audio changes.
pub proof fn law_a_wakeup_pumps_what_all_inputs_have<R, G: Copy, S: Copy, A: Fn(S, S, G) -> S, L: Fn(S) -> S>(
    capture: &mut Capture<R, G, S>,
    drained: Vec<Vec<S>>,
    silence: S,
    accumulate: A,
    limit: L,
    mixed: Option<Vec<S>>,
    slots: nat,
)
    requires
        call_ensures(Capture::<R, G, S>::pump::<A, L>, (capture, drained, silence, accumulate, limit), mixed),
        old(capture)@.mix is Some,
        drained@.len() == old(capture)@.mix->0.inputs.len(),
        mixed is Some ==> slots == mixed->0@.len(),
        mixed is None ==> slots == 0,
    ensures
        mixed is None <==> slots == 0,
        final(capture)@.mix is Some,
        !final(capture)@.pump_due,
        final(capture)@.timeline == old(capture)@.timeline,
        final(capture)@.path == old(capture)@.path,
        final(capture)@.importing == old(capture)@.importing,
        final(capture)@.staging == old(capture)@.staging,
        final(capture)@.committed == old(capture)@.committed,
        final(capture)@.mix->0.slack == old(capture)@.mix->0.slack,
        final(capture)@.mix->0.inputs.len() == old(capture)@.mix->0.inputs.len(),
        old(capture)@.mix->0.inputs.len() == 0 ==> slots == 0,
        forall|k: int|
            0 <= k < drained@.len() ==> {
                let input = old(capture)@.mix->0.inputs[k];
                let kept = #[trigger] final(capture)@.mix->0.inputs[k];
                let had = input.pending + drained@[k]@;
                &&& kept.label == input.label
                &&& kept.ring == input.ring
                &&& kept.gain == input.gain
                &&& slots <= had.len() ==> kept.pending == had.skip(slots as int)
                &&& slots > had.len() ==> kept.pending.len() == 0
            },
        drained@.len() > 0 ==> exists|k: int|
            0 <= k < drained@.len() && (#[trigger] old(capture)@.mix->0.inputs[k]).pending.len()
                + drained@[k]@.len() == slots,
        (forall|i: int, j: int|
            0 <= i < drained@.len() && 0 <= j < drained@.len() ==> (
            #[trigger] old(capture)@.mix->0.inputs[i]).pending.len() + drained@[i]@.len() <= (
            #[trigger] old(capture)@.mix->0.inputs[j]).pending.len() + drained@[j]@.len() + old(
                capture,
            )@.mix->0.slack) ==> forall|k: int|
            0 <= k < drained@.len() ==> slots <= (
            #[trigger] old(capture)@.mix->0.inputs[k]).pending.len() + drained@[k]@.len(),
        (exists|i: int, j: int|
            0 <= i < drained@.len() && 0 <= j < drained@.len() && (
            #[trigger] old(capture)@.mix->0.inputs[i]).pending.len() + drained@[i]@.len() > (
            #[trigger] old(capture)@.mix->0.inputs[j]).pending.len() + drained@[j]@.len() + old(
                capture,
            )@.mix->0.slack) ==> forall|k: int|
            0 <= k < drained@.len() ==> (
            #[trigger] old(capture)@.mix->0.inputs[k]).pending.len() + drained@[k]@.len() <= slots,
{
    lemma_pump(
        old(capture)@.mix->0,
        drained@,
        false,
        silence,
        accumulate,
        limit,
        final(capture)@.mix->0,
        mixed,
        slots,
    );
}

/// Each slot that a wakeup mixes is the limit of the sum of what the inputs have there.
pub proof fn law_a_slot_of_a_wakeup_is_the_limited_sum<R, G: Copy, S: Copy, A: Fn(S, S, G) -> S, L: Fn(S) -> S>(
    capture: &mut Capture<R, G, S>,
    drained: Vec<Vec<S>>,
    silence: S,
    accumulate: A,
    limit: L,
    mixed: Vec<S>,
    slot: int,
)
    requires
        call_ensures(Capture::<R, G, S>::pump::<A, L>, (capture, drained, silence, accumulate, limit), Some(mixed)),
        old(capture)@.mix is Some,
        drained@.len() == old(capture)@.mix->0.inputs.len(),
        0 <= slot < mixed@.len(),
    ensures
        exists|sums: Seq<S>|
            {
                &&& sums.len() == drained@.len() + 1
                &&& sums[0] == silence
                &&& #[trigger] limit.ensures((sums.last(),), mixed@[slot])
                &&& forall|k: int|
                    0 <= k < drained@.len() ==> {
                        let had = (#[trigger] old(capture)@.mix->0.inputs[k]).pending + drained@[k]@;
                        if slot < had.len() {
                            accumulate.ensures(
                                (sums[k], had[slot], old(capture)@.mix->0.inputs[k].gain),
                                sums[k + 1],
                            )
                        } else {
                            sums[k + 1] == sums[k]
                        }
                    }
            },
{
    lemma_slot(
        old(capture)@.mix->0,
        drained@,
        false,
        silence,
        accumulate,
        limit,
        final(capture)@.mix->0,
        mixed,
        slot,
    );
}

/// The pump of a closing recording mixes as many slots as the input with the most samples
/// can fill, so that nothing stays.
pub proof fn law_the_last_pump_takes_all_there_is<R, G: Copy, S: Copy, A: Fn(S, S, G) -> S, L: Fn(S) -> S>(
    finishing: &mut Finishing<R, G, S>,
    drained: Vec<Vec<S>>,
    silence: S,
    accumulate: A,
    limit: L,
    mixed: Option<Vec<S>>,
    slots: nat,
)
    requires
        call_ensures(Finishing::<R, G, S>::pump::<A, L>, (finishing, drained, silence, accumulate, limit), mixed),
        old(finishing)@.capture.mix is Some,
        drained@.len() == old(finishing)@.capture.mix->0.inputs.len(),
        mixed is Some ==> slots == mixed->0@.len(),
        mixed is None ==> slots == 0,
    ensures
        mixed is None <==> slots == 0,
        final(finishing)@.capture.mix is Some,
        final(finishing)@.flushed,
        final(finishing)@.step == old(finishing)@.step,
        final(finishing)@.wall_clock_ms == old(finishing)@.wall_clock_ms,
        final(finishing)@.capture.timeline == old(finishing)@.capture.timeline,
        final(finishing)@.capture.path == old(finishing)@.capture.path,
        final(finishing)@.capture.mix->0.slack == old(finishing)@.capture.mix->0.slack,
        final(finishing)@.capture.mix->0.inputs.len() == old(finishing)@.capture.mix->0.inputs.len(),
        old(finishing)@.capture.mix->0.inputs.len() == 0 ==> slots == 0,
        forall|k: int|
            0 <= k < drained@.len() ==> {
                let input = old(finishing)@.capture.mix->0.inputs[k];
                let kept = #[trigger] final(finishing)@.capture.mix->0.inputs[k];
                let had = input.pending + drained@[k]@;
                &&& kept.label == input.label
                &&& kept.ring == input.ring
                &&& kept.gain == input.gain
                &&& slots <= had.len() ==> kept.pending == had.skip(slots as int)
                &&& slots > had.len() ==> kept.pending.len() == 0
            },
        drained@.len() > 0 ==> exists|k: int|
            0 <= k < drained@.len() && (#[trigger] old(finishing)@.capture.mix->0.inputs[k]).pending.len()
                + drained@[k]@.len() == slots,
        forall|k: int|
            0 <= k < drained@.len() ==> (
            #[trigger] old(finishing)@.capture.mix->0.inputs[k]).pending.len() + drained@[k]@.len() <= slots,
{
    lemma_pump(
        old(finishing)@.capture.mix->0,
        drained@,
        true,
        silence,
        accumulate,
        limit,
        final(finishing)@.capture.mix->0,
        mixed,
        slots,
    );
}

/// Each slot that a closing recording mixes is the limit of the sum of what the inputs
/// have there.
pub proof fn law_a_slot_of_the_last_pump_is_the_limited_sum<R, G: Copy, S: Copy, A: Fn(S, S, G) -> S, L: Fn(S) -> S>(
    finishing: &mut Finishing<R, G, S>,
    drained: Vec<Vec<S>>,
    silence: S,
    accumulate: A,
    limit: L,
    mixed: Vec<S>,
    slot: int,
)
    requires
        call_ensures(Finishing::<R, G, S>::pump::<A, L>, (finishing, drained, silence, accumulate, limit), Some(mixed)),
        old(finishing)@.capture.mix is Some,
        drained@.len() == old(finishing)@.capture.mix->0.inputs.len(),
        0 <= slot < mixed@.len(),
    ensures
        exists|sums: Seq<S>|
            {
                &&& sums.len() == drained@.len() + 1
                &&& sums[0] == silence
                &&& #[trigger] limit.ensures((sums.last(),), mixed@[slot])
                &&& forall|k: int|
                    0 <= k < drained@.len() ==> {
                        let had = (#[trigger] old(finishing)@.capture.mix->0.inputs[k]).pending + drained@[k]@;
                        if slot < had.len() {
                            accumulate.ensures(
                                (sums[k], had[slot], old(finishing)@.capture.mix->0.inputs[k].gain),
                                sums[k + 1],
                            )
                        } else {
                            sums[k + 1] == sums[k]
                        }
                    }
            },
{
    lemma_slot(
        old(finishing)@.capture.mix->0,
        drained@,
        true,
        silence,
        accumulate,
        limit,
        final(finishing)@.capture.mix->0,
        mixed,
        slot,
    );
}

/// A recording that was just started waits for an input that lags by up to a quarter of
/// a second: while the inputs differ by no more, a pump takes as many samples as the
/// shortest has, and every input keeps the rest.
pub proof fn law_a_started_recording_waits_a_quarter_of_a_second<
    R,
    G: Copy,
    S: Copy,
    B,
    A: Fn(S, S, G) -> S,
    L: Fn(S) -> S,
>(
    path: PathBuf,
    size: (i32, i32),
    fps: i32,
    bitrate: Option<i64>,
    forced: Option<B>,
    dmabuf_allowed: bool,
    sources: Vec<AudioSource<R, G>>,
    format: AudioFormat,
    dmabuf: Option<DmabufDesc>,
    startup: Startup<R, G, S, B>,
    mark: &mut Capture<R, G, S>,
    wakeup: &mut Capture<R, G, S>,
    pump: &mut Capture<R, G, S>,
    now: u128,
    command: Option<RingCommand>,
    due: Advance,
    drained: Vec<Vec<S>>,
    silence: S,
    accumulate: A,
    limit: L,
    mixed: Option<Vec<S>>,
    slots: nat,
    quarter: int,
)
    requires
        call_ensures(
            Capture::<R, G, S>::start::<B>,
            (
                path,
                size.0,
                size.1,
                fps,
                bitrate,
                forced,
                dmabuf_allowed,
                sources,
                format,
                dmabuf,
            ),
            startup,
        ),
        sources@.len() > 0,
        old(mark)@ == startup@.capture,
        call_ensures(Capture::<R, G, S>::mark_started, (mark, now), command),
        old(wakeup)@ == final(mark)@,
        call_ensures(Capture::<R, G, S>::advance_at, (wakeup, true, now), due),
        old(pump)@.mix == final(wakeup)@.mix,
        call_ensures(
            Capture::<R, G, S>::pump::<A, L>,
            (pump, drained, silence, accumulate, limit),
            mixed,
        ),
        drained@.len() == sources@.len(),
        4 * quarter <= format.sample_rate < 4 * (quarter + 1),
        forall|i: int, j: int|
            0 <= i < drained@.len() && 0 <= j < drained@.len() ==> (
            #[trigger] drained@[i])@.len() <= (#[trigger] drained@[j])@.len() + quarter
                * format.channels,
        mixed is Some ==> slots == mixed->0@.len(),
        mixed is None ==> slots == 0,
    ensures
        forall|k: int| 0 <= k < drained@.len() ==> slots <= (#[trigger] drained@[k])@.len(),
        exists|k: int| 0 <= k < drained@.len() && slots == (#[trigger] drained@[k])@.len(),
        forall|k: int|
            0 <= k < drained@.len() ==> (#[trigger] final(pump)@.mix->0.inputs[k]).pending
                == drained@[k]@.skip(slots as int),
{
    crate::laws::opening::law_a_recording_is_opened_empty(
        path,
        size.0,
        size.1,
        fps,
        bitrate,
        forced,
        dmabuf_allowed,
        sources,
        format,
        dmabuf,
        startup,
        quarter,
    );
    crate::laws::pausing::law_the_first_frame_starts_a_recording(mark, now, command);
    let inputs = old(pump)@.mix->0.inputs;
    assert forall|k: int| 0 <= k < drained@.len() implies (
    #[trigger] inputs[k]).pending.len() == 0 && inputs[k].pending + drained@[k]@ == drained@[k]@ by {
        assert(final(mark)@.mix->0.inputs[k].pending.len() == 0);
        assert(inputs[k].pending + drained@[k]@ =~= drained@[k]@);
    }
    law_a_wakeup_pumps_what_all_inputs_have(
        pump,
        drained,
        silence,
        accumulate,
        limit,
        mixed,
        slots,
    );
    assert forall|k: int| 0 <= k < drained@.len() implies slots <= (
    #[trigger] drained@[k])@.len() by {
        assert(inputs[k].pending.len() == 0);
    }
    let k = choose|k: int|
        0 <= k < drained@.len() && (#[trigger] inputs[k]).pending.len() + drained@[k]@.len()
            == slots;
    assert(drained@[k]@.len() == slots);
}

/// A mix has one input for each source, in order, with the source's label, ring and gain
/// and nothing pending, and the slack it was made with.
pub proof fn law_a_new_mix_has_its_sources<R, G, S>(
    sources: Vec<AudioSource<R, G>>,
    slack: usize,
    mix: AudioMix<R, G, S>,
)
    requires
        call_ensures(AudioMix::<R, G, S>::new, (sources, slack), mix),
    ensures
        mix.slack == slack,
        mix.inputs@.len() == sources@.len(),
        forall|k: int|
            0 <= k < sources@.len() ==> {
                let input = #[trigger] mix.inputs@[k];
                &&& input.label == sources@[k].label
                &&& input.ring == sources@[k].ring
                &&& input.gain == sources@[k].gain
                &&& input.pending@.len() == 0
            },
{
    assert(mix@.inputs.len() == sources@.len());
    assert forall|k: int| 0 <= k < sources@.len() implies ({
        let input = #[trigger] mix.inputs@[k];
        &&& input.label == sources@[k].label
        &&& input.ring == sources@[k].ring
        &&& input.gain == sources@[k].gain
        &&& input.pending@.len() == 0
    }) by {
        assert(mix@.inputs[k] == mix.inputs@[k]@);
    }
}

/// Clearing a mix takes every sample that waits, and nothing else.
pub proof fn law_clearing_takes_the_samples_only<R, G, S>(mix: &mut AudioMix<R, G, S>)
    requires
        call_ensures(AudioMix::<R, G, S>::clear, (mix,), ()),
    ensures
        final(mix)@.slack == old(mix)@.slack,
        final(mix)@.inputs.len() == old(mix)@.inputs.len(),
        forall|k: int|
            0 <= k < old(mix)@.inputs.len() ==> {
                let cleared = #[trigger] final(mix)@.inputs[k];
                let input = old(mix)@.inputs[k];
                &&& cleared.pending.len() == 0
                &&& cleared.label == input.label
                &&& cleared.ring == input.ring
                &&& cleared.gain == input.gain
            },
{
}

/// The places of the counts that are not zero, in order.
proof fn lemma_places<R, G, S>(
    inputs: Seq<InputState<R, G, S>>,
    counts: Seq<u64>,
    upto: int,
) -> (places: Seq<int>)
    requires
        0 <= upto <= inputs.len(),
        counts.len() == inputs.len(),
    ensures
        ({
            let all = Seq::new(inputs.len(), |k: int| (inputs[k].label, counts[k]));
            let lost = all.take(upto).filter(|drop: (&'static str, u64)| drop.1 > 0);
            &&& places.len() == lost.len()
            &&& forall|i: int|
                0 <= i < places.len() ==> 0 <= #[trigger] places[i] < upto && counts[places[i]]
                    > 0 && lost[i] == (inputs[places[i]].label, counts[places[i]])
            &&& forall|i: int, j: int|
                0 <= i < j < places.len() ==> #[trigger] places[i] < #[trigger] places[j]
            &&& forall|k: int|
                0 <= k < upto && #[trigger] counts[k] > 0 ==> places.contains(k)
        }),
    decreases upto,
{
    reveal(Seq::filter);
    let all = Seq::new(inputs.len(), |k: int| (inputs[k].label, counts[k]));
    let loses = |drop: (&'static str, u64)| drop.1 > 0;
    let lost = all.take(upto).filter(loses);
    if upto == 0 {
        assert(all.take(0) =~= Seq::empty());
        Seq::empty()
    } else {
        let before = lemma_places(inputs, counts, upto - 1);
        let front = all.take(upto - 1).filter(loses);
        assert(all.take(upto).drop_last() =~= all.take(upto - 1));
        assert(all.take(upto).last() == (inputs[upto - 1].label, counts[upto - 1]));
        if counts[upto - 1] > 0 {
            let places = before.push(upto - 1);
            assert(lost == front.push((inputs[upto - 1].label, counts[upto - 1])));
            assert forall|k: int| 0 <= k < upto && #[trigger] counts[k] > 0 implies places.contains(
                k,
            ) by {
                if k < upto - 1 {
                    assert(before.contains(k));
                    let i = choose|i: int| 0 <= i < before.len() && before[i] == k;
                    assert(places[i] == k);
                } else {
                    assert(places[before.len() as int] == k);
                }
            }
            places
        } else {
            assert(lost == front);
            before
        }
    }
}

/// What is said of lost samples names every input that lost any, once and in order, with
/// how many it lost, and no other.
pub proof fn law_every_loss_is_named<R, G, S>(
    mix: AudioMix<R, G, S>,
    counts: Vec<u64>,
    dropped: Vec<(&'static str, u64)>,
) -> (places: Seq<int>)
    requires
        call_ensures(AudioMix::<R, G, S>::dropped, (&mix, &counts), dropped),
        counts@.len() == mix@.inputs.len(),
    ensures
        places.len() == dropped@.len(),
        forall|i: int|
            0 <= i < places.len() ==> 0 <= #[trigger] places[i] < counts@.len()
                && counts@[places[i]] > 0 && dropped@[i].0 == mix@.inputs[places[i]].label
                && dropped@[i].1 == counts@[places[i]],
        forall|i: int, j: int|
            0 <= i < j < places.len() ==> #[trigger] places[i] < #[trigger] places[j],
        forall|k: int|
            0 <= k < counts@.len() && #[trigger] counts@[k] > 0 ==> places.contains(k),
{
    let all = Seq::new(mix@.inputs.len(), |k: int| (mix@.inputs[k].label, counts@[k]));
    assert(all.take(all.len() as int) =~= all);
    assert(dropped@ == drops(mix@.inputs, counts@));
    lemma_places(mix@.inputs, counts@, mix@.inputs.len() as int)
}

/// A recording names every input that lost samples, once and in order, with how many it
/// lost, and no other. Without audio it names none.
pub proof fn law_a_recording_names_every_loss<R, G, S>(
    capture: Capture<R, G, S>,
    counts: Vec<u64>,
    dropped: Vec<(&'static str, u64)>,
) -> (places: Seq<int>)
    requires
        call_ensures(Capture::<R, G, S>::dropped_audio, (&capture, &counts), dropped),
        capture@.mix is Some ==> counts@.len() == capture@.mix->0.inputs.len(),
        capture@.mix is None ==> counts@.len() == 0,
    ensures
        places.len() == dropped@.len(),
        forall|i: int|
            0 <= i < places.len() ==> 0 <= #[trigger] places[i] < counts@.len()
                && counts@[places[i]] > 0 && dropped@[i].0
                == capture@.mix->0.inputs[places[i]].label && dropped@[i].1 == counts@[places[i]],
        forall|i: int, j: int|
            0 <= i < j < places.len() ==> #[trigger] places[i] < #[trigger] places[j],
        forall|k: int|
            0 <= k < counts@.len() && #[trigger] counts@[k] > 0 ==> places.contains(k),
{
    match capture@.mix {
        Some(mix) => {
            let all = Seq::new(mix.inputs.len(), |k: int| (mix.inputs[k].label, counts@[k]));
            assert(all.take(all.len() as int) =~= all);
            lemma_places(mix.inputs, counts@, mix.inputs.len() as int)
        },
        None => Seq::empty(),
    }
}

/// A recording has as many audio inputs as its mix, and hands out the ring of each by its
/// number.
pub proof fn law_rings_are_handed_out_by_number<'a, R, G, S>(
    capture: &'a Capture<R, G, S>,
    count: usize,
    k: usize,
    ring: Option<&'a R>,
)
    requires
        call_ensures(Capture::<R, G, S>::audio_inputs, (capture,), count),
        call_ensures(Capture::<R, G, S>::ring, (capture, k), ring),
    ensures
        capture@.mix is None ==> count == 0,
        capture@.mix is Some ==> count == capture@.mix->0.inputs.len(),
        ring is Some <==> k < count,
        ring is Some ==> *ring->0 == capture@.mix->0.inputs[k as int].ring,
{
}

} // verus!
