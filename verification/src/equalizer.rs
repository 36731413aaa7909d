//! An equalizer: an ordered chain of biquad filters sharing one sample rate.
//! Each sample traverses the chain front to back exactly once; the chain may
//! be rebuilt wholesale, appended to, or have one filter removed by position.

use vstd::prelude::*;

use crate::biquad::{
    reset_state, run_out, run_state, spec_new, step_out, step_state, BiquadFilter, FilterConfig,
};

verus! {

/// The chain length always stays within this bound, so that the count can be
/// reported as a 32-bit integer.
pub const MAX_FILTERS: usize = 0x7FFF_FFFF;

/// One filter per configuration, in the same order, all built at the given
/// sample rate.
pub open spec fn filters_of(configs: Seq<FilterConfig>, sample_rate: u64) -> Seq<BiquadFilter> {
    configs.map_values(|c: FilterConfig| spec_new(c, sample_rate))
}

/// The chain after one sample has traversed it: every filter steps once, each
/// fed the previous filter's output.
pub open spec fn chain_state(fs: Seq<BiquadFilter>, x: u64) -> Seq<BiquadFilter>
    decreases fs.len(),
{
    if fs.len() == 0 {
        fs
    } else {
        seq![step_state(fs[0], x)] + chain_state(fs.drop_first(), step_out(fs[0], x))
    }
}

/// The sample that leaves the chain: the input folded through every filter in
/// order. An empty chain returns the input unchanged.
pub open spec fn chain_out(fs: Seq<BiquadFilter>, x: u64) -> u64
    decreases fs.len(),
{
    if fs.len() == 0 {
        x
    } else {
        chain_out(fs.drop_first(), step_out(fs[0], x))
    }
}

/// The chain after a whole sequence of samples has traversed it in order.
pub open spec fn eq_run_state(fs: Seq<BiquadFilter>, xs: Seq<u64>) -> Seq<BiquadFilter>
    decreases xs.len(),
{
    if xs.len() == 0 {
        fs
    } else {
        eq_run_state(chain_state(fs, xs[0]), xs.drop_first())
    }
}

/// The samples that leave the chain for a whole sequence of inputs, every
/// filter's history carried from each sample to the next.
pub open spec fn eq_run_out(fs: Seq<BiquadFilter>, xs: Seq<u64>) -> Seq<u64>
    decreases xs.len(),
{
    if xs.len() == 0 {
        Seq::empty()
    } else {
        seq![chain_out(fs, xs[0])] + eq_run_out(chain_state(fs, xs[0]), xs.drop_first())
    }
}

/// An ordered chain of biquad filters sharing one fixed sample rate.
#[derive(Clone, Debug)]
pub struct Equalizer {
    filters: Vec<BiquadFilter>,
    sample_rate: u64,
}

impl Equalizer {
    /// The chain, in processing order.
    pub closed spec fn filters_seq(self) -> Seq<BiquadFilter> {
        self.filters@
    }

    /// The sample rate fixed at construction.
    pub closed spec fn rate(self) -> u64 {
        self.sample_rate
    }

    /// Well-formedness: every filter in the chain carries the equalizer's
    /// sample rate, and the chain length fits a 32-bit count.
    pub open spec fn wf(self) -> bool {
        self.filters_seq().len() <= MAX_FILTERS && forall|i: int|
            0 <= i < self.filters_seq().len() ==> (#[trigger] self.filters_seq()[i]).sample_rate
                == self.rate()
    }

    /// Builds a chain with one filter per configuration, in list order. An
    /// empty list is valid: the equalizer is then the identity.
    pub fn new(filter_configs: Vec<FilterConfig>, sample_rate: u64) -> (e: Equalizer)
        requires
            filter_configs@.len() <= MAX_FILTERS,
        ensures
            e.filters_seq() == filters_of(filter_configs@, sample_rate),
            e.rate() == sample_rate,
            e.wf(),
    {
        let mut filters: Vec<BiquadFilter> = Vec::new();
        let mut i: usize = 0;
        while i < filter_configs.len()
            invariant
                i <= filter_configs@.len(),
                filters@.len() == i,
                forall|j: int|
                    0 <= j < i ==> filters@[j] == spec_new(filter_configs@[j], sample_rate),
            decreases filter_configs@.len() - i,
        {
            filters.push(BiquadFilter::new(filter_configs[i], sample_rate));
            i += 1;
        }
        proof {
            assert(filters@ =~= filters_of(filter_configs@, sample_rate));
        }
        Equalizer { filters, sample_rate }
    }

    /// Discards the current chain and rebuilds it from the new list, in
    /// order, at the equalizer's sample rate.
    pub fn update_filters(&mut self, filter_configs: Vec<FilterConfig>)
        requires
            filter_configs@.len() <= MAX_FILTERS,
        ensures
            final(self).filters_seq() == filters_of(filter_configs@, old(self).rate()),
            final(self).rate() == old(self).rate(),
            final(self).wf(),
    {
        let rebuilt = Equalizer::new(filter_configs, self.sample_rate);
        self.filters = rebuilt.filters;
    }

    /// Appends one filter, built at the equalizer's sample rate, to the end
    /// of the chain.
    pub fn add_filter(&mut self, config: FilterConfig)
        requires
            old(self).filters_seq().len() < MAX_FILTERS,
        ensures
            final(self).filters_seq() == old(self).filters_seq().push(
                spec_new(config, old(self).rate()),
            ),
            final(self).rate() == old(self).rate(),
            old(self).wf() ==> final(self).wf(),
    {
        let filter = BiquadFilter::new(config, self.sample_rate);
        self.filters.push(filter);
    }

    /// Removes the filter at `index` if the index is within the chain, and
    /// reports whether a removal took place. The remaining filters keep their
    /// relative order; an out-of-range index is a no-op.
    pub fn remove_filter(&mut self, index: i32) -> (removed: bool)
        ensures
            removed == (0 <= index && (index as int) < old(self).filters_seq().len()),
            removed ==> final(self).filters_seq() == old(self).filters_seq().remove(index as int),
            !removed ==> *final(self) == *old(self),
            final(self).rate() == old(self).rate(),
            old(self).wf() ==> final(self).wf(),
    {
        if index >= 0 && (index as usize) < self.filters.len() {
            self.filters.remove(index as usize);
            true
        } else {
            false
        }
    }

    /// Folds one sample through every filter in chain order and returns the
    /// final accumulator. With zero filters the input comes back unchanged.
    pub fn process(&mut self, input: u64) -> (r: u64)
        ensures
            final(self).filters_seq() == chain_state(old(self).filters_seq(), input),
            r == chain_out(old(self).filters_seq(), input),
            final(self).rate() == old(self).rate(),
            old(self).wf() ==> final(self).wf(),
            old(self).filters_seq().len() == 0 ==> r == input,
    {
        let ghost orig = self.filters@;
        let ghost len = self.filters@.len() as int;
        let mut acc = input;
        let mut i: usize = 0;
        proof {
            assert(orig.subrange(0, len) =~= orig);
            assert(self.filters@.subrange(0, 0) + chain_state(orig.subrange(0, len), acc)
                =~= chain_state(orig.subrange(0, len), acc));
        }
        while i < self.filters.len()
            invariant
                i <= len,
                orig.len() == len,
                self.filters@.len() == len,
                self.sample_rate == old(self).sample_rate,
                forall|j: int| i <= j < len ==> self.filters@[j] == orig[j],
                forall|j: int|
                    0 <= j < len ==> (#[trigger] self.filters@[j]).sample_rate
                        == orig[j].sample_rate,
                chain_out(orig, input) == chain_out(orig.subrange(i as int, len), acc),
                chain_state(orig, input) == self.filters@.subrange(0, i as int) + chain_state(
                    orig.subrange(i as int, len),
                    acc,
                ),
            decreases len - i,
        {
            let ghost before = self.filters@;
            let ghost rest = orig.subrange(i as int, len);
            proof {
                assert(rest[0] == orig[i as int]);
                assert(rest.drop_first() =~= orig.subrange(i as int + 1, len));
            }
            let filter = &mut self.filters[i];
            let y = filter.process(acc);
            proof {
                assert(self.filters@ =~= before.update(i as int, step_state(orig[i as int], acc)));
                assert(self.filters@.subrange(0, i as int + 1) =~= before.subrange(0, i as int)
                    + seq![step_state(orig[i as int], acc)]);
                assert((before.subrange(0, i as int) + seq![step_state(orig[i as int], acc)])
                    + chain_state(orig.subrange(i as int + 1, len), step_out(orig[i as int], acc))
                    =~= before.subrange(0, i as int) + (seq![step_state(orig[i as int], acc)]
                    + chain_state(orig.subrange(i as int + 1, len), step_out(orig[i as int], acc))));
            }
            acc = y;
            i += 1;
        }
        proof {
            assert(orig.subrange(len, len) =~= Seq::<BiquadFilter>::empty());
            assert(self.filters@.subrange(0, len) =~= self.filters@);
        }
        acc
    }

    /// Processes a buffer sample by sample, every filter's history carried
    /// across the whole buffer exactly as across repeated single-sample calls.
    pub fn process_buffer(&mut self, buffer: Vec<u64>) -> (out: Vec<u64>)
        ensures
            out@ == eq_run_out(old(self).filters_seq(), buffer@),
            final(self).filters_seq() == eq_run_state(old(self).filters_seq(), buffer@),
            final(self).rate() == old(self).rate(),
            old(self).wf() ==> final(self).wf(),
    {
        let ghost all = buffer@;
        let mut out: Vec<u64> = Vec::new();
        let mut i: usize = 0;
        proof {
            assert(all.subrange(0, all.len() as int) =~= all);
            assert(out@ + eq_run_out(self.filters@, all) =~= eq_run_out(self.filters@, all));
        }
        while i < buffer.len()
            invariant
                i <= buffer.len(),
                buffer@ == all,
                self.sample_rate == old(self).sample_rate,
                old(self).wf() ==> self.wf(),
                eq_run_out(old(self).filters_seq(), all) == out@ + eq_run_out(
                    self.filters@,
                    all.subrange(i as int, all.len() as int),
                ),
                eq_run_state(old(self).filters_seq(), all) == eq_run_state(
                    self.filters@,
                    all.subrange(i as int, all.len() as int),
                ),
            decreases all.len() - i,
        {
            let ghost rest = all.subrange(i as int, all.len() as int);
            let ghost prev = self.filters@;
            proof {
                assert(rest[0] == all[i as int]);
                assert(rest.drop_first() =~= all.subrange(i as int + 1, all.len() as int));
            }
            let y = self.process(buffer[i]);
            out.push(y);
            i += 1;
            proof {
                assert((out@.drop_last() + seq![y]) + eq_run_out(
                    self.filters@,
                    all.subrange(i as int, all.len() as int),
                ) =~= out@.drop_last() + (seq![y] + eq_run_out(
                    self.filters@,
                    all.subrange(i as int, all.len() as int),
                )));
                assert(out@.drop_last() + seq![y] =~= out@);
            }
        }
        proof {
            assert(all.subrange(all.len() as int, all.len() as int) =~= Seq::<u64>::empty());
            assert(out@ + Seq::<u64>::empty() =~= out@);
        }
        out
    }

    /// Resets the history of every filter in the chain; configurations and
    /// coefficients are unaffected.
    pub fn reset(&mut self)
        ensures
            final(self).filters_seq() == old(self).filters_seq().map_values(
                |f: BiquadFilter| reset_state(f),
            ),
            final(self).rate() == old(self).rate(),
            old(self).wf() ==> final(self).wf(),
    {
        let ghost orig = self.filters@;
        let ghost len = self.filters@.len() as int;
        let mut i: usize = 0;
        while i < self.filters.len()
            invariant
                i <= len,
                self.filters@.len() == len,
                self.sample_rate == old(self).sample_rate,
                forall|j: int| i <= j < len ==> self.filters@[j] == orig[j],
                forall|j: int| 0 <= j < i ==> self.filters@[j] == reset_state(orig[j]),
            decreases len - i,
        {
            let filter = &mut self.filters[i];
            filter.reset();
            i += 1;
        }
        proof {
            assert(self.filters@ =~= orig.map_values(|f: BiquadFilter| reset_state(f)));
        }
    }

    /// The current chain length.
    pub fn get_filter_count(&self) -> (n: i32)
        requires
            self.wf(),
        ensures
            n as int == self.filters_seq().len(),
    {
        self.filters.len() as i32
    }
}

/// An equalizer with no filters is the identity on whole buffers as well as
/// on single samples.
pub proof fn lemma_empty_chain_is_identity(xs: Seq<u64>)
    ensures
        eq_run_out(Seq::<BiquadFilter>::empty(), xs) =~= xs,
        eq_run_state(Seq::<BiquadFilter>::empty(), xs) =~= Seq::<BiquadFilter>::empty(),
    decreases xs.len(),
{
    let fs = Seq::<BiquadFilter>::empty();
    if xs.len() > 0 {
        assert(chain_state(fs, xs[0]) == fs);
        assert(chain_out(fs, xs[0]) == xs[0]);
        lemma_empty_chain_is_identity(xs.drop_first());
        assert(seq![xs[0]] + xs.drop_first() =~= xs);
    }
}

/// Splitting the head off a chain: a buffer processed sample by sample
/// through the chain `f` followed by `fs` yields exactly what the rest of the
/// chain yields when handed the whole buffer as `f` alone transforms it, and
/// the filters end in the same states either way.
pub proof fn lemma_chain_head_stages(f: BiquadFilter, fs: Seq<BiquadFilter>, xs: Seq<u64>)
    ensures
        eq_run_out(seq![f] + fs, xs) == eq_run_out(fs, run_out(f, xs)),
        eq_run_state(seq![f] + fs, xs) == seq![run_state(f, xs)] + eq_run_state(
            fs,
            run_out(f, xs),
        ),
    decreases xs.len(),
{
    let cs = seq![f] + fs;
    if xs.len() == 0 {
        assert(run_out(f, xs) =~= Seq::<u64>::empty());
        assert(eq_run_state(cs, xs) =~= seq![run_state(f, xs)] + eq_run_state(fs, run_out(f, xs)));
    } else {
        let x0 = xs[0];
        let rest = xs.drop_first();
        let y0 = step_out(f, x0);
        let fn0 = step_state(f, x0);
        assert(cs[0] == f);
        assert(cs.drop_first() =~= fs);
        // One sample through the chain takes one step through the head.
        assert(chain_out(cs, x0) == chain_out(fs, y0));
        assert(chain_state(cs, x0) == seq![fn0] + chain_state(fs, y0));
        lemma_chain_head_stages(fn0, chain_state(fs, y0), rest);
        // On the staged side, the head's first output leads the buffer that
        // the rest of the chain sees.
        let ro = run_out(fn0, rest);
        assert(run_out(f, xs) == seq![y0] + ro);
        assert((seq![y0] + ro)[0] == y0);
        assert((seq![y0] + ro).drop_first() =~= ro);
        assert(run_state(f, xs) == run_state(fn0, rest));
        assert(eq_run_out(fs, run_out(f, xs)) == seq![chain_out(fs, y0)] + eq_run_out(
            chain_state(fs, y0),
            ro,
        ));
        assert(eq_run_state(fs, run_out(f, xs)) == eq_run_state(chain_state(fs, y0), ro));
        assert(eq_run_out(cs, xs) == seq![chain_out(fs, y0)] + eq_run_out(
            seq![fn0] + chain_state(fs, y0),
            rest,
        ));
        assert(eq_run_state(cs, xs) == eq_run_state(seq![fn0] + chain_state(fs, y0), rest));
    }
}

/// Chaining is equivalent to staging: a buffer processed sample by sample
/// through a two-filter chain yields exactly the samples obtained by running
/// the whole buffer through the first filter and then running that result
/// through the second, and the two filters end in the same states either way.
pub proof fn lemma_two_stage_chain(f1: BiquadFilter, f2: BiquadFilter, xs: Seq<u64>)
    ensures
        eq_run_out(seq![f1, f2], xs) == run_out(f2, run_out(f1, xs)),
        eq_run_state(seq![f1, f2], xs) == seq![run_state(f1, xs), run_state(
            f2,
            run_out(f1, xs),
        )],
{
    let mid = run_out(f1, xs);
    assert(seq![f1, f2] =~= seq![f1] + seq![f2]);
    assert(seq![f2] =~= seq![f2] + Seq::<BiquadFilter>::empty());
    lemma_chain_head_stages(f1, seq![f2], xs);
    lemma_chain_head_stages(f2, Seq::<BiquadFilter>::empty(), mid);
    lemma_empty_chain_is_identity(run_out(f2, mid));
    assert(eq_run_state(seq![f1, f2], xs) =~= seq![run_state(f1, xs), run_state(f2, mid)]);
}

} // verus!
