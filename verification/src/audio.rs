//! The single audio track and everything that is mixed into it.
//!
//! A player that cannot switch tracks plays the default one only, so two
//! captures in two tracks would leave one of them unheard. However many captures
//! there are, they are mixed into one track.
//!
//! Samples and gains are opaque here: the arithmetic on them is handed in by the
//! caller. What is decided here is which samples meet in which slot of the mix,
//! which wait, and that the limit is applied once, to the sum.

use vstd::prelude::*;

verus! {

/// An audio capture to mux alongside the video.
pub struct AudioSource<R, G> {
    /// "system" or "microphone": the label a warning names.
    pub label: &'static str,
    /// Where the capture's samples are drained from.
    pub ring: R,
    /// The multiplier applied before encoding.
    pub gain: G,
    pub bitrate: i64,
}

/// One capture feeding the mix.
pub struct AudioInput<R, G, S> {
    pub label: &'static str,
    pub ring: R,
    pub gain: G,
    /// Samples drained but not yet mixed, because the other inputs had fewer.
    pub pending: Vec<S>,
}

/// What an [`AudioInput`] holds.
#[verifier::ext_equal]
pub ghost struct InputState<R, G, S> {
    pub label: &'static str,
    pub ring: R,
    pub gain: G,
    pub pending: Seq<S>,
}

impl<R, G, S> View for AudioInput<R, G, S> {
    type V = InputState<R, G, S>;

    open spec fn view(&self) -> InputState<R, G, S> {
        InputState {
            label: self.label,
            ring: self.ring,
            gain: self.gain,
            pending: self.pending@,
        }
    }
}

/// The layout of the track's samples.
#[derive(Clone, Copy)]
pub struct AudioFormat {
    pub sample_rate: usize,
    pub channels: usize,
}

impl AudioFormat {
    /// How far one input may lag behind another before it is treated as silent:
    /// a quarter of a second.
    pub open spec fn starve(self) -> int {
        (self.sample_rate / 4) * self.channels
    }

    /// How far one input may lag behind another before it is treated as silent
    /// rather than allowed to stall the track.
    ///
    /// Mixing takes what every input can supply, so that none runs ahead. Taken
    /// literally, one dead input would freeze the whole track. A quarter of a
    /// second is far more than the jitter between two streams of one graph, and
    /// far less than anyone can hear as a gap.
    pub fn starve_samples(&self) -> (samples: usize)
        requires
            self.starve() <= usize::MAX,
        ensures
            samples == self.starve(),
    {
        (self.sample_rate / 4) * self.channels
    }
}

/// The track, and everything mixed into it.
pub struct AudioMix<R, G, S> {
    pub inputs: Vec<AudioInput<R, G, S>>,
    /// How far one input may lag behind another before it counts as silent.
    pub slack: usize,
}

/// What an [`AudioMix`] holds.
#[verifier::ext_equal]
pub ghost struct MixState<R, G, S> {
    pub inputs: Seq<InputState<R, G, S>>,
    pub slack: nat,
}

impl<R, G, S> View for AudioMix<R, G, S> {
    type V = MixState<R, G, S>;

    open spec fn view(&self) -> MixState<R, G, S> {
        MixState {
            inputs: Seq::new(self.inputs@.len(), |k: int| self.inputs@[k]@),
            slack: self.slack as nat,
        }
    }
}

/// The fewest samples that any input holds; none where there is no input.
pub open spec fn shortest<R, G, S>(inputs: Seq<InputState<R, G, S>>) -> nat
    decreases inputs.len(),
{
    if inputs.len() == 0 {
        0
    } else {
        let last = inputs.last().pending.len();
        if inputs.len() == 1 || last < shortest(inputs.drop_last()) {
            last
        } else {
            shortest(inputs.drop_last())
        }
    }
}

/// The most samples that any input holds; none where there is no input.
pub open spec fn longest<R, G, S>(inputs: Seq<InputState<R, G, S>>) -> nat
    decreases inputs.len(),
{
    if inputs.len() == 0 {
        0
    } else {
        let last = inputs.last().pending.len();
        if last > longest(inputs.drop_last()) {
            last
        } else {
            longest(inputs.drop_last())
        }
    }
}

/// Whether `total` is what the first `count` inputs add up to in slot `slot`,
/// taken in order, starting from silence. An input that is too short for the
/// slot adds nothing.
pub open spec fn adds_up_to<R, G, S, A: Fn(S, S, G) -> S>(
    accumulate: A,
    silence: S,
    inputs: Seq<InputState<R, G, S>>,
    slot: int,
    count: nat,
    total: S,
) -> bool
    decreases count,
{
    if count == 0 {
        total == silence
    } else {
        let before = (count - 1) as nat;
        let input = inputs[before as int];
        if slot < input.pending.len() {
            exists|sum: S|
                #![trigger accumulate.ensures((sum, input.pending[slot], input.gain), total)]
                adds_up_to(accumulate, silence, inputs, slot, before, sum)
                    && accumulate.ensures((sum, input.pending[slot], input.gain), total)
        } else {
            adds_up_to(accumulate, silence, inputs, slot, before, total)
        }
    }
}

/// Whether `sample` is what the mix holds in slot `slot`: the sum of all inputs,
/// limited once.
pub open spec fn mixes_to<R, G, S, A: Fn(S, S, G) -> S, L: Fn(S) -> S>(
    accumulate: A,
    limit: L,
    silence: S,
    inputs: Seq<InputState<R, G, S>>,
    slot: int,
    sample: S,
) -> bool {
    exists|total: S|
        #![trigger limit.ensures((total,), sample)]
        adds_up_to(accumulate, silence, inputs, slot, inputs.len(), total) && limit.ensures(
            (total,),
            sample,
        )
}

impl<R, G, S> MixState<R, G, S> {
    /// How many slots a pump mixes. Normally what every input can supply, so
    /// that none runs ahead; where one has fallen far behind, or at the flush,
    /// all that any input has.
    pub open spec fn take(self, flush: bool) -> nat {
        if flush || longest(self.inputs) - shortest(self.inputs) > self.slack {
            longest(self.inputs)
        } else {
            shortest(self.inputs)
        }
    }

    /// The inputs with what was drained for each of them behind what was pending.
    pub open spec fn fed(self, drained: Seq<Seq<S>>) -> Self {
        MixState {
            inputs: Seq::new(
                self.inputs.len(),
                |k: int|
                    InputState {
                        pending: self.inputs[k].pending + drained[k],
                        ..self.inputs[k]
                    },
            ),
            ..self
        }
    }

    /// The inputs without their first `count` samples.
    pub open spec fn consumed(self, count: nat) -> Self {
        MixState {
            inputs: Seq::new(
                self.inputs.len(),
                |k: int|
                    InputState {
                        pending: if count <= self.inputs[k].pending.len() {
                            self.inputs[k].pending.skip(count as int)
                        } else {
                            Seq::empty()
                        },
                        ..self.inputs[k]
                    },
            ),
            ..self
        }
    }

    /// Whether no input has anything pending.
    pub open spec fn nothing_pending(self) -> bool {
        forall|k: int|
            0 <= k < self.inputs.len() ==> (#[trigger] self.inputs[k]).pending.len() == 0
    }

    /// The inputs with nothing pending.
    pub open spec fn cleared(self) -> Self {
        MixState {
            inputs: Seq::new(
                self.inputs.len(),
                |k: int| InputState { pending: Seq::empty(), ..self.inputs[k] },
            ),
            ..self
        }
    }
}

impl<R, G> AudioSource<R, G> {
    /// The input that this source becomes: nothing pending yet.
    pub open spec fn as_input<S>(self) -> InputState<R, G, S> {
        InputState { label: self.label, ring: self.ring, gain: self.gain, pending: Seq::empty() }
    }
}

impl<R, G, S> AudioMix<R, G, S> {
    /// One mix for however many captures there are.
    pub fn new(sources: Vec<AudioSource<R, G>>, slack: usize) -> (mix: Self)
        ensures
            mix@ == (MixState {
                inputs: Seq::new(sources@.len(), |k: int| sources@[k].as_input::<S>()),
                slack: slack as nat,
            }),
    {
        let mut inputs: Vec<AudioInput<R, G, S>> = Vec::new();
        for source in iter: sources
            invariant
                inputs@.len() == iter.index(),
                iter.seq() == sources@,
                forall|k: int|
                    0 <= k < inputs@.len() ==> (#[trigger] inputs@[k])@ == sources@[k].as_input::<
                        S,
                    >(),
        {
            inputs.push(
                AudioInput {
                    label: source.label,
                    ring: source.ring,
                    gain: source.gain,
                    pending: Vec::new(),
                },
            );
        }
        AudioMix { inputs, slack }
    }

    /// Forgets what was drained but not mixed.
    pub fn clear(&mut self)
        ensures
            final(self)@ == old(self)@.cleared(),
    {
        let mut k: usize = 0;
        while k < self.inputs.len()
            invariant
                k <= self.inputs@.len(),
                self.inputs@.len() == old(self).inputs@.len(),
                self.slack == old(self).slack,
                forall|j: int|
                    0 <= j < k ==> (#[trigger] self.inputs@[j])@ == (InputState {
                        pending: Seq::empty(),
                        ..old(self).inputs@[j]@
                    }),
                forall|j: int|
                    k <= j < self.inputs@.len() ==> #[trigger] self.inputs@[j] == old(
                        self,
                    ).inputs@[j],
            decreases self.inputs@.len() - k,
        {
            self.inputs[k].pending.clear();
            k = k + 1;
        }
    }
}

/// The samples in each of the vectors.
pub open spec fn samples<S>(drained: Seq<Vec<S>>) -> Seq<Seq<S>> {
    Seq::new(drained.len(), |k: int| drained[k]@)
}

impl<R, G, S> AudioMix<R, G, S> {
    /// The fewest and the most samples that any input holds.
    fn extent(&self) -> (extent: (usize, usize))
        ensures
            extent.0 == shortest(self@.inputs),
            extent.1 == longest(self@.inputs),
    {
        let mut short: usize = 0;
        let mut long: usize = 0;
        let mut k: usize = 0;
        proof {
            assert(self@.inputs.take(0) =~= Seq::empty());
        }
        while k < self.inputs.len()
            invariant
                k <= self.inputs@.len(),
                short == shortest(self@.inputs.take(k as int)),
                long == longest(self@.inputs.take(k as int)),
            decreases self.inputs@.len() - k,
        {
            let len: usize = self.inputs[k].pending.len();
            proof {
                let seen = self@.inputs.take(k + 1);
                assert(seen.drop_last() =~= self@.inputs.take(k as int));
                assert(seen.last().pending == self.inputs@[k as int].pending@);
            }
            if k == 0 || len < short {
                short = len;
            }
            if len > long {
                long = len;
            }
            k = k + 1;
        }
        proof {
            assert(self@.inputs.take(k as int) =~= self@.inputs);
        }
        (short, long)
    }

    /// Puts what was drained for each input behind what is pending there.
    fn feed(&mut self, drained: Vec<Vec<S>>)
        requires
            drained@.len() == old(self)@.inputs.len(),
        ensures
            final(self)@ == old(self)@.fed(samples(drained@)),
    {
        let ghost given = samples(drained@);
        let mut drained = drained;
        let mut k: usize = 0;
        while k < self.inputs.len()
            invariant
                k <= self.inputs@.len(),
                drained@.len() == given.len() == self.inputs@.len(),
                self.inputs@.len() == old(self).inputs@.len(),
                self.slack == old(self).slack,
                forall|j: int|
                    0 <= j < k ==> (#[trigger] self.inputs@[j])@ == (InputState {
                        pending: old(self).inputs@[j].pending@ + given[j],
                        ..old(self).inputs@[j]@
                    }),
                forall|j: int|
                    k <= j < self.inputs@.len() ==> #[trigger] self.inputs@[j] == old(
                        self,
                    ).inputs@[j],
                forall|j: int| k <= j < drained@.len() ==> #[trigger] drained@[j]@ == given[j],
            decreases self.inputs@.len() - k,
        {
            self.inputs[k].pending.append(&mut drained[k]);
            k = k + 1;
        }
    }

    /// Removes the first `count` samples of each input, or all that it has.
    fn consume(&mut self, count: usize)
        ensures
            final(self)@ == old(self)@.consumed(count as nat),
    {
        let mut k: usize = 0;
        while k < self.inputs.len()
            invariant
                k <= self.inputs@.len(),
                self.inputs@.len() == old(self).inputs@.len(),
                self.slack == old(self).slack,
                forall|j: int|
                    0 <= j < k ==> (#[trigger] self.inputs@[j])@ == old(self)@.consumed(
                        count as nat,
                    ).inputs[j],
                forall|j: int|
                    k <= j < self.inputs@.len() ==> #[trigger] self.inputs@[j] == old(
                        self,
                    ).inputs@[j],
            decreases self.inputs@.len() - k,
        {
            if count <= self.inputs[k].pending.len() {
                let rest: Vec<S> = self.inputs[k].pending.split_off(count);
                self.inputs[k].pending = rest;
            } else {
                self.inputs[k].pending.clear();
            }
            k = k + 1;
        }
    }
}

impl<R, G: Copy, S: Copy> AudioMix<R, G, S> {
    /// The first `take` slots of the mix: summed over the inputs, then limited
    /// once. Limiting each contribution would attenuate the mix whenever one
    /// source alone is near full scale.
    fn mix<A: Fn(S, S, G) -> S, L: Fn(S) -> S>(
        &self,
        take: usize,
        silence: S,
        accumulate: A,
        limit: L,
    ) -> (mixed: Vec<S>)
        requires
            forall|sum: S, sample: S, gain: G| accumulate.requires((sum, sample, gain)),
            forall|sum: S| limit.requires((sum,)),
        ensures
            mixed@.len() == take,
            forall|slot: int|
                0 <= slot < take ==> mixes_to(
                    accumulate,
                    limit,
                    silence,
                    self@.inputs,
                    slot,
                    #[trigger] mixed@[slot],
                ),
    {
        let mut scratch: Vec<S> = Vec::new();
        let mut i: usize = 0;
        while i < take
            invariant
                i <= take,
                scratch@.len() == i,
                forall|slot: int| 0 <= slot < i ==> #[trigger] scratch@[slot] == silence,
            decreases take - i,
        {
            scratch.push(silence);
            i = i + 1;
        }
        let mut k: usize = 0;
        while k < self.inputs.len()
            invariant
                k <= self.inputs@.len(),
                scratch@.len() == take,
                forall|sum: S, sample: S, gain: G| accumulate.requires((sum, sample, gain)),
                forall|slot: int|
                    0 <= slot < take ==> adds_up_to(
                        accumulate,
                        silence,
                        self@.inputs,
                        slot,
                        k as nat,
                        #[trigger] scratch@[slot],
                    ),
            decreases self.inputs@.len() - k,
        {
            let input = &self.inputs[k];
            let n: usize = if input.pending.len() < take {
                input.pending.len()
            } else {
                take
            };
            let ghost before = scratch@;
            let mut i: usize = 0;
            while i < n
                invariant
                    i <= n,
                    n <= take,
                    n <= input.pending@.len(),
                    scratch@.len() == take,
                    before.len() == take,
                    forall|sum: S, sample: S, gain: G| accumulate.requires((sum, sample, gain)),
                    forall|slot: int|
                        0 <= slot < i ==> accumulate.ensures(
                            (before[slot], input.pending@[slot], input.gain),
                            #[trigger] scratch@[slot],
                        ),
                    forall|slot: int|
                        i <= slot < take ==> #[trigger] scratch@[slot] == before[slot],
                decreases n - i,
            {
                let sum: S = accumulate(scratch[i], input.pending[i], input.gain);
                scratch.set(i, sum);
                i = i + 1;
            }
            proof {
                assert forall|slot: int| 0 <= slot < take implies adds_up_to(
                    accumulate,
                    silence,
                    self@.inputs,
                    slot,
                    (k + 1) as nat,
                    #[trigger] scratch@[slot],
                ) by {
                    assert(self@.inputs[k as int] == input@);
                    lemma_one_more_input(
                        accumulate,
                        silence,
                        self@.inputs,
                        slot,
                        k as nat,
                        before[slot],
                        scratch@[slot],
                    );
                }
            }
            k = k + 1;
        }
        let mut i: usize = 0;
        let ghost sums = scratch@;
        while i < take
            invariant
                i <= take,
                scratch@.len() == take,
                sums.len() == take,
                forall|sum: S| limit.requires((sum,)),
                forall|slot: int|
                    0 <= slot < i ==> limit.ensures((sums[slot],), #[trigger] scratch@[slot]),
                forall|slot: int| i <= slot < take ==> #[trigger] scratch@[slot] == sums[slot],
            decreases take - i,
        {
            let limited: S = limit(scratch[i]);
            scratch.set(i, limited);
            i = i + 1;
        }
        proof {
            assert forall|slot: int| 0 <= slot < take implies mixes_to(
                accumulate,
                limit,
                silence,
                self@.inputs,
                slot,
                #[trigger] scratch@[slot],
            ) by {
                assert(adds_up_to(
                    accumulate,
                    silence,
                    self@.inputs,
                    slot,
                    self@.inputs.len(),
                    sums[slot],
                ));
            }
        }
        scratch
    }

    /// Takes what was drained from every input's ring, mixes what the inputs
    /// have in common, and hands out the mix to encode; `None` where there is
    /// nothing to encode.
    ///
    /// `flush` is set once at stop: it mixes whatever remains even when the
    /// inputs are unevenly filled, because there will be no more samples to even
    /// them out.
    pub fn pump<A: Fn(S, S, G) -> S, L: Fn(S) -> S>(
        &mut self,
        drained: Vec<Vec<S>>,
        flush: bool,
        silence: S,
        accumulate: A,
        limit: L,
    ) -> (mixed: Option<Vec<S>>)
        requires
            drained@.len() == old(self)@.inputs.len(),
            forall|sum: S, sample: S, gain: G| accumulate.requires((sum, sample, gain)),
            forall|sum: S| limit.requires((sum,)),
        ensures
            old(self)@.pumps_to(
                samples(drained@),
                flush,
                silence,
                accumulate,
                limit,
                final(self)@,
                mixed,
            ),
    {
        self.feed(drained);
        let ghost fed = self@;
        let (short, long) = self.extent();
        proof {
            lemma_shortest_is_within_longest(fed.inputs);
        }
        let take: usize = if flush || long - short > self.slack {
            long
        } else {
            short
        };
        if take == 0 {
            assert(fed.consumed(0) =~= fed) by {
                assert forall|k: int| 0 <= k < fed.inputs.len() implies fed.consumed(0).inputs[k]
                    =~= #[trigger] fed.inputs[k] by {}
            }
            return None;
        }
        let mixed: Vec<S> = self.mix(take, silence, accumulate, limit);
        self.consume(take);
        Some(mixed)
    }
}

impl<R, G, S> MixState<R, G, S> {
    /// What a pump does: it feeds, mixes [`Self::take`] slots, and keeps the
    /// samples that were not mixed.
    pub open spec fn pumps_to<A: Fn(S, S, G) -> S, L: Fn(S) -> S>(
        self,
        drained: Seq<Seq<S>>,
        flush: bool,
        silence: S,
        accumulate: A,
        limit: L,
        after: Self,
        mixed: Option<Vec<S>>,
    ) -> bool {
        let fed = self.fed(drained);
        let take = fed.take(flush);
        &&& after == fed.consumed(take)
        &&& match mixed {
            None => take == 0,
            Some(mixed) => {
                &&& take > 0
                &&& mixed@.len() == take
                &&& forall|slot: int|
                    0 <= slot < take ==> mixes_to(
                        accumulate,
                        limit,
                        silence,
                        fed.inputs,
                        slot,
                        #[trigger] mixed@[slot],
                    )
            },
        }
    }
}

/// What one more input adds to a slot.
proof fn lemma_one_more_input<R, G, S, A: Fn(S, S, G) -> S>(
    accumulate: A,
    silence: S,
    inputs: Seq<InputState<R, G, S>>,
    slot: int,
    count: nat,
    sum: S,
    total: S,
)
    requires
        adds_up_to(accumulate, silence, inputs, slot, count, sum),
        if slot < inputs[count as int].pending.len() {
            accumulate.ensures(
                (sum, inputs[count as int].pending[slot], inputs[count as int].gain),
                total,
            )
        } else {
            total == sum
        },
    ensures
        adds_up_to(accumulate, silence, inputs, slot, count + 1, total),
{
    assert((count + 1 - 1) as nat == count);
}

/// The fewest samples are no more than the most.
proof fn lemma_shortest_is_within_longest<R, G, S>(inputs: Seq<InputState<R, G, S>>)
    ensures
        shortest(inputs) <= longest(inputs),
    decreases inputs.len(),
{
    if inputs.len() > 0 {
        lemma_shortest_is_within_longest(inputs.drop_last());
    }
}

/// The inputs that lost samples, in order, each with how many it lost.
pub open spec fn drops<R, G, S>(
    inputs: Seq<InputState<R, G, S>>,
    counts: Seq<u64>,
) -> Seq<(&'static str, u64)> {
    Seq::new(inputs.len(), |k: int| (inputs[k].label, counts[k])).filter(
        |drop: (&'static str, u64)| drop.1 > 0,
    )
}

/// The highest bitrate that any source asks for; 128 kbit/s where there is none.
pub open spec fn highest_bitrate<R, G>(sources: Seq<AudioSource<R, G>>) -> i64
    decreases sources.len(),
{
    if sources.len() == 0 {
        128_000
    } else if sources.len() == 1 || sources.last().bitrate > highest_bitrate(sources.drop_last()) {
        sources.last().bitrate
    } else {
        highest_bitrate(sources.drop_last())
    }
}

/// The bitrate of the one audio track.
pub fn track_bitrate<R, G>(sources: &Vec<AudioSource<R, G>>) -> (bitrate: i64)
    ensures
        bitrate == highest_bitrate(sources@),
{
    let mut bitrate: i64 = 128_000;
    let mut k: usize = 0;
    proof {
        assert(sources@.take(0) =~= Seq::empty());
    }
    while k < sources.len()
        invariant
            k <= sources@.len(),
            bitrate == highest_bitrate(sources@.take(k as int)),
        decreases sources@.len() - k,
    {
        proof {
            assert(sources@.take(k + 1).drop_last() =~= sources@.take(k as int));
        }
        if k == 0 || sources[k].bitrate > bitrate {
            bitrate = sources[k].bitrate;
        }
        k = k + 1;
    }
    proof {
        assert(sources@.take(k as int) =~= sources@);
    }
    bitrate
}

impl<R, G, S> AudioMix<R, G, S> {
    /// Samples that the rings had to discard, per input that lost any; `counts`
    /// is what each input's ring reports. Audible, unlike a dropped video frame.
    pub fn dropped(&self, counts: &Vec<u64>) -> (dropped: Vec<(&'static str, u64)>)
        requires
            counts@.len() == self@.inputs.len(),
        ensures
            dropped@ == drops(self@.inputs, counts@),
    {
        let ghost all = Seq::new(
            self@.inputs.len(),
            |k: int| (self@.inputs[k].label, counts@[k]),
        );
        let ghost lost = |drop: (&'static str, u64)| drop.1 > 0;
        let mut dropped: Vec<(&'static str, u64)> = Vec::new();
        let mut k: usize = 0;
        proof {
            reveal(Seq::filter);
            assert(all.take(0).filter(lost) =~= Seq::empty());
        }
        while k < self.inputs.len()
            invariant
                k <= self.inputs@.len(),
                counts@.len() == self.inputs@.len(),
                all == Seq::new(
                    self@.inputs.len(),
                    |k: int| (self@.inputs[k].label, counts@[k]),
                ),
                lost == (|drop: (&'static str, u64)| drop.1 > 0),
                dropped@ == all.take(k as int).filter(lost),
            decreases self.inputs@.len() - k,
        {
            proof {
                reveal(Seq::filter);
                assert(all.take(k + 1).drop_last() =~= all.take(k as int));
                assert(all.take(k + 1).last() == (self.inputs@[k as int].label, counts@[k as int]));
            }
            if counts[k] > 0 {
                dropped.push((self.inputs[k].label, counts[k]));
            }
            k = k + 1;
        }
        proof {
            assert(all.take(k as int) =~= all);
        }
        dropped
    }
}

/// The fewest and the most samples bound what every input holds, and some input
/// holds just that many.
pub proof fn law_the_extent_is_met<R, G, S>(inputs: Seq<InputState<R, G, S>>)
    ensures
        forall|k: int|
            0 <= k < inputs.len() ==> shortest(inputs) <= (#[trigger] inputs[k]).pending.len()
                <= longest(inputs),
        inputs.len() > 0 ==> exists|k: int|
            0 <= k < inputs.len() && (#[trigger] inputs[k]).pending.len() == shortest(inputs),
        inputs.len() > 0 ==> exists|k: int|
            0 <= k < inputs.len() && (#[trigger] inputs[k]).pending.len() == longest(inputs),
    decreases inputs.len(),
{
    if inputs.len() > 0 {
        let front = inputs.drop_last();
        law_the_extent_is_met(front);
        let last = inputs.len() - 1;
        assert(inputs[last] == inputs.last());
        assert(forall|k: int| 0 <= k < front.len() ==> #[trigger] front[k] == inputs[k]);
        assert forall|k: int| 0 <= k < inputs.len() implies shortest(inputs) <= (
        #[trigger] inputs[k]).pending.len() <= longest(inputs) by {
            if k < last {
                assert(front[k] == inputs[k]);
            }
        }
        if front.len() > 0 {
            let s = choose|k: int|
                0 <= k < front.len() && (#[trigger] front[k]).pending.len() == shortest(front);
            let l = choose|k: int|
                0 <= k < front.len() && (#[trigger] front[k]).pending.len() == longest(front);
            if inputs[last].pending.len() < shortest(front) {
                assert(inputs[last].pending.len() == shortest(inputs));
            } else {
                assert(inputs[s] == front[s]);
                assert(inputs[s].pending.len() == shortest(inputs));
            }
            if inputs[last].pending.len() > longest(front) {
                assert(inputs[last].pending.len() == longest(inputs));
            } else {
                assert(inputs[l] == front[l]);
                assert(inputs[l].pending.len() == longest(inputs));
            }
        } else {
            assert(longest(front) == 0);
            assert(inputs[0].pending.len() == shortest(inputs));
            assert(inputs[0].pending.len() == longest(inputs));
        }
    }
}

/// A pump loses no sample and swaps none: what an input had and was fed is what
/// it put into the mix followed by what it still holds.
pub proof fn law_every_sample_is_mixed_or_kept<R, G, S>(
    mix: MixState<R, G, S>,
    drained: Seq<Seq<S>>,
    flush: bool,
    k: int,
)
    requires
        0 <= k < mix.inputs.len(),
    ensures
        ({
            let fed = mix.fed(drained);
            let take = fed.take(flush);
            let had = mix.inputs[k].pending + drained[k];
            let count = if take <= had.len() {
                take
            } else {
                had.len()
            };
            had == had.take(count as int) + fed.consumed(take).inputs[k].pending
        }),
{
    let fed = mix.fed(drained);
    let take = fed.take(flush);
    let had = mix.inputs[k].pending + drained[k];
    assert(fed.inputs[k].pending == had);
    if take <= had.len() {
        assert(had =~= had.take(take as int) + had.skip(take as int));
    } else {
        assert(had =~= had.take(had.len() as int) + Seq::empty());
    }
}

/// While no input lags further than the slack, a pump takes the same number of
/// samples from every input, and each input has that many.
pub proof fn law_no_input_runs_ahead<R, G, S>(mix: MixState<R, G, S>, k: int)
    requires
        longest(mix.inputs) - shortest(mix.inputs) <= mix.slack,
        0 <= k < mix.inputs.len(),
    ensures
        mix.take(false) == shortest(mix.inputs),
        mix.take(false) <= mix.inputs[k].pending.len(),
        mix.consumed(mix.take(false)).inputs[k].pending.len() == mix.inputs[k].pending.len()
            - mix.take(false),
{
    law_the_extent_is_met(mix.inputs);
}

/// An input that has fallen behind by more than the slack cannot freeze the
/// track: everything that any input holds is mixed, and nothing stays pending.
pub proof fn law_a_dead_input_cannot_freeze_the_track<R, G, S>(mix: MixState<R, G, S>, k: int)
    requires
        longest(mix.inputs) - shortest(mix.inputs) > mix.slack,
        0 <= k < mix.inputs.len(),
    ensures
        mix.take(false) == longest(mix.inputs),
        mix.take(false) > 0,
        mix.consumed(mix.take(false)).inputs[k].pending.len() == 0,
{
    law_the_extent_is_met(mix.inputs);
}

/// A flush mixes everything that any input holds and leaves nothing pending.
pub proof fn law_a_flush_leaves_nothing_pending<R, G, S>(mix: MixState<R, G, S>, k: int)
    requires
        0 <= k < mix.inputs.len(),
    ensures
        mix.take(true) == longest(mix.inputs),
        mix.consumed(mix.take(true)).inputs[k].pending.len() == 0,
{
    law_the_extent_is_met(mix.inputs);
}

/// After a pump no input holds back more samples than the slack.
pub proof fn law_what_stays_pending_is_bounded<R, G, S>(
    mix: MixState<R, G, S>,
    flush: bool,
    k: int,
)
    requires
        0 <= k < mix.inputs.len(),
    ensures
        mix.consumed(mix.take(flush)).inputs[k].pending.len() <= mix.slack,
{
    law_the_extent_is_met(mix.inputs);
}

/// The sum of the first `count` inputs in a slot, where adding is a function.
pub open spec fn sum_of<R, G, S>(
    add_scaled: spec_fn(S, S, G) -> S,
    silence: S,
    inputs: Seq<InputState<R, G, S>>,
    slot: int,
    count: nat,
) -> S
    decreases count,
{
    if count == 0 {
        silence
    } else {
        let before = (count - 1) as nat;
        let sum = sum_of(add_scaled, silence, inputs, slot, before);
        let input = inputs[before as int];
        if slot < input.pending.len() {
            add_scaled(sum, input.pending[slot], input.gain)
        } else {
            sum
        }
    }
}

proof fn lemma_sum_is_a_function<R, G, S, A: Fn(S, S, G) -> S>(
    accumulate: A,
    add_scaled: spec_fn(S, S, G) -> S,
    silence: S,
    inputs: Seq<InputState<R, G, S>>,
    slot: int,
    count: nat,
    total: S,
)
    requires
        forall|sum: S, sample: S, gain: G, result: S|
            #[trigger] accumulate.ensures((sum, sample, gain), result) ==> result == add_scaled(
                sum,
                sample,
                gain,
            ),
        adds_up_to(accumulate, silence, inputs, slot, count, total),
    ensures
        total == sum_of(add_scaled, silence, inputs, slot, count),
    decreases count,
{
    if count > 0 {
        let before = (count - 1) as nat;
        let input = inputs[before as int];
        if slot < input.pending.len() {
            let sum = choose|sum: S|
                #![trigger accumulate.ensures((sum, input.pending[slot], input.gain), total)]
                adds_up_to(accumulate, silence, inputs, slot, before, sum)
                    && accumulate.ensures((sum, input.pending[slot], input.gain), total);
            lemma_sum_is_a_function(
                accumulate,
                add_scaled,
                silence,
                inputs,
                slot,
                before,
                sum,
            );
        } else {
            lemma_sum_is_a_function(
                accumulate,
                add_scaled,
                silence,
                inputs,
                slot,
                before,
                total,
            );
        }
    }
}

/// Each slot of the mix carries the contributions of all inputs, summed in order
/// and limited once, at the end.
pub proof fn law_the_mix_is_the_limited_sum<R, G, S, A: Fn(S, S, G) -> S, L: Fn(S) -> S>(
    accumulate: A,
    limit: L,
    add_scaled: spec_fn(S, S, G) -> S,
    limited: spec_fn(S) -> S,
    silence: S,
    inputs: Seq<InputState<R, G, S>>,
    slot: int,
    sample: S,
)
    requires
        forall|sum: S, sample: S, gain: G, result: S|
            #[trigger] accumulate.ensures((sum, sample, gain), result) ==> result == add_scaled(
                sum,
                sample,
                gain,
            ),
        forall|sum: S, result: S| #[trigger]
            limit.ensures((sum,), result) ==> result == limited(sum),
        mixes_to(accumulate, limit, silence, inputs, slot, sample),
    ensures
        sample == limited(sum_of(add_scaled, silence, inputs, slot, inputs.len())),
{
    let total = choose|total: S|
        #![trigger limit.ensures((total,), sample)]
        adds_up_to(accumulate, silence, inputs, slot, inputs.len(), total) && limit.ensures(
            (total,),
            sample,
        );
    lemma_sum_is_a_function(accumulate, add_scaled, silence, inputs, slot, inputs.len(), total);
}

/// Whatever holds of every result of the limit holds of every sample of the mix.
pub proof fn law_the_mix_stays_within_the_limit<R, G, S, A: Fn(S, S, G) -> S, L: Fn(S) -> S>(
    accumulate: A,
    limit: L,
    in_range: spec_fn(S) -> bool,
    silence: S,
    inputs: Seq<InputState<R, G, S>>,
    slot: int,
    sample: S,
)
    requires
        forall|sum: S, result: S| #[trigger] limit.ensures((sum,), result) ==> in_range(result),
        mixes_to(accumulate, limit, silence, inputs, slot, sample),
    ensures
        in_range(sample),
{
}

/// The track's bitrate is one that a source asks for, and none asks for more.
pub proof fn law_the_track_bitrate_is_the_highest<R, G>(sources: Seq<AudioSource<R, G>>)
    requires
        sources.len() > 0,
    ensures
        forall|k: int|
            0 <= k < sources.len() ==> (#[trigger] sources[k]).bitrate <= highest_bitrate(sources),
        exists|k: int|
            0 <= k < sources.len() && (#[trigger] sources[k]).bitrate == highest_bitrate(sources),
    decreases sources.len(),
{
    let front = sources.drop_last();
    assert(sources[sources.len() - 1] == sources.last());
    if front.len() > 0 {
        law_the_track_bitrate_is_the_highest(front);
        let k = choose|k: int|
            0 <= k < front.len() && (#[trigger] front[k]).bitrate == highest_bitrate(front);
        assert(sources[k] == front[k]);
        assert forall|k: int| 0 <= k < sources.len() implies (#[trigger] sources[k]).bitrate
            <= highest_bitrate(sources) by {
            if k < front.len() {
                assert(front[k] == sources[k]);
            }
        }
    }
}

} // verus!
