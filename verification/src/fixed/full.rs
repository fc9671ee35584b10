//! The fixed-layout format's encoder and decoder as they are used: inside the
//! wrappers that check the order of the handles (and, for decoding, bound the
//! nesting depth).
use vstd::prelude::*;
use crate::bin_format::full::DEFAULT_DEPTH_BUDGET;
use crate::decode::depth_budget::{DepthBudgetDecoder, WithDepthBudget};
use crate::decode::poison::{PoisonDecoder, PoisonWrapper as DecodeHandle};
use crate::encode::poison::{PoisonEncoder, PoisonWrapper as EncodeHandle};
use crate::error::{Error, FixedError};
use crate::fixed::decode::{FixedAnyDecoder, SimpleFixedSpecDecoder};
use crate::fixed::encode::SimpleFixedSpecEncoder;
use crate::vu128::VU128_PADDING;

verus! {

/// The decoder of the fixed-layout format with its checks.
pub struct FixedSpecDecoder<'de>(pub PoisonDecoder<DepthBudgetDecoder<SimpleFixedSpecDecoder<'de>>>);

/// Decodes one message of the fixed-layout format.
pub struct FixedDecoderBuilder<'de> {
    inner: FixedSpecDecoder<'de>,
    depth_budget: usize,
}

impl<'de> FixedDecoderBuilder<'de> {
    /// The checked decoder.
    pub closed spec fn decoder(&self) -> PoisonDecoder<DepthBudgetDecoder<SimpleFixedSpecDecoder<'de>>> {
        self.inner.0
    }

    /// The format's decoder inside the checks.
    pub closed spec fn simple(&self) -> SimpleFixedSpecDecoder<'de> {
        self.inner.0.inner().spec_inner()
    }

    /// The depth budget given to the first handle.
    pub closed spec fn depth_budget(&self) -> usize {
        self.depth_budget
    }

    pub fn new(input: &'de [u8]) -> (r: Self)
        ensures
            r.decoder().depth() == 0,
            r.simple().input() == input@,
            r.simple().position() == 0,
            r.depth_budget() == DEFAULT_DEPTH_BUDGET,
    {
        FixedDecoderBuilder {
            inner: FixedSpecDecoder(PoisonDecoder::new(DepthBudgetDecoder::new(SimpleFixedSpecDecoder::new(input)))),
            depth_budget: DEFAULT_DEPTH_BUDGET,
        }
    }

    /// The handle of the message's value, with the whole depth budget.
    pub fn build(&mut self) -> (r: DecodeHandle<WithDepthBudget<FixedAnyDecoder>>)
        requires
            old(self).decoder().depth() < usize::MAX,
        ensures
            final(self).decoder().depth() == old(self).decoder().depth() + 1,
            final(self).simple() == old(self).simple(),
            final(self).depth_budget() == old(self).depth_budget(),
            r.depth() == final(self).decoder().depth(),
            r.inner().budget() == old(self).depth_budget(),
            r.inner().inner() == FixedAnyDecoder::Any,
    {
        let any = WithDepthBudget::new(self.depth_budget, FixedAnyDecoder::Any);
        self.inner.0.start(any)
    }

    /// The checked decoder, to decode with.
    pub fn decoder_mut(&mut self) -> (r: &mut PoisonDecoder<DepthBudgetDecoder<SimpleFixedSpecDecoder<'de>>>)
        ensures
            *r == old(self).decoder(),
            final(self).decoder() == *final(r),
            final(self).depth_budget() == old(self).depth_budget(),
    {
        &mut self.inner.0
    }

    /// Finishes the message: every handle must be closed and only the zero
    /// padding may be left of the input.
    pub fn end(self) -> (r: Result<(), Error>)
        ensures
            self.decoder().depth() != 0 ==> r == Err::<(), Error>(crate::decode::poison::poison_error()),
            self.decoder().depth() == 0 ==> r == (if self.simple().rest().len() > VU128_PADDING {
                Err(Error::Fixed(FixedError::TrailingData))
            } else if exists|i: int| 0 <= i < self.simple().rest().len() && self.simple().rest()[i] != 0u8 {
                Err(Error::Fixed(FixedError::NonZeroPadding))
            } else {
                Ok(())
            }),
    {
        let budgeted = self.inner.0.end()?;
        let simple = budgeted.end()?;
        simple.end()
    }
}

/// The fixed-layout format's decoder, as a type to name the format by.
pub struct FixedDecoder;

/// The encoder of the fixed-layout format with its checks.
pub struct FixedSpecEncoder(pub PoisonEncoder<SimpleFixedSpecEncoder>);

/// Encodes one message of the fixed-layout format.
pub struct FixedEncoderBuilder {
    inner: FixedSpecEncoder,
}

impl FixedEncoderBuilder {
    /// The checked encoder.
    pub closed spec fn encoder(&self) -> PoisonEncoder<SimpleFixedSpecEncoder> {
        self.inner.0
    }

    pub fn new() -> (r: Self)
        ensures
            r.encoder().depth() == 0,
            r.encoder().inner().output() == Seq::<u8>::empty(),
    {
        FixedEncoderBuilder { inner: FixedSpecEncoder(PoisonEncoder::new(SimpleFixedSpecEncoder::new())) }
    }

    /// The handle of the message's value.
    pub fn build(&mut self) -> (r: EncodeHandle<()>)
        requires
            old(self).encoder().depth() < usize::MAX,
        ensures
            final(self).encoder().depth() == old(self).encoder().depth() + 1,
            final(self).encoder().inner() == old(self).encoder().inner(),
            r.depth() == final(self).encoder().depth(),
    {
        self.inner.0.start(())
    }

    /// The checked encoder, to encode with.
    pub fn encoder_mut(&mut self) -> (r: &mut PoisonEncoder<SimpleFixedSpecEncoder>)
        ensures
            *r == old(self).encoder(),
            final(self).encoder() == *final(r),
    {
        &mut self.inner.0
    }

    /// Finishes the message: every handle must be closed; the result is what
    /// was written followed by the zero padding.
    pub fn end(self) -> (r: Result<Vec<u8>, Error>)
        ensures
            self.encoder().depth() != 0 ==> r == Err::<Vec<u8>, Error>(crate::encode::poison::poison_error()),
            self.encoder().depth() == 0 ==> (r matches Ok(v) && v@ == self.encoder().inner().output()
                + Seq::new(VU128_PADDING as nat, |i: int| 0u8)),
    {
        let simple = self.inner.0.end()?;
        simple.end()
    }
}

/// The fixed-layout format's encoder, as a type to name the format by.
pub struct FixedEncoder;

} // verus!
