//! The binary format's encoder and decoder as they are used: the format's
//! simple encoder or decoder inside the wrappers that check the order of the
//! handles (and, for decoding, bound the nesting depth).
use vstd::prelude::*;
use crate::bin_format::decode::{BinAnyDecoder, BinDecoderSchema, SimpleBinDecoder};
use crate::bin_format::encode::{BinEncoderSchema, SimpleBinSpecEncoder};
use crate::decode::depth_budget::{DepthBudgetDecoder, WithDepthBudget};
use crate::decode::poison::{PoisonDecoder, PoisonWrapper as DecodeHandle};
use crate::encode::poison::{PoisonEncoder, PoisonWrapper as EncodeHandle};
use crate::error::Error;
use crate::vu128::VU128_PADDING;

verus! {

/// The decoder of the binary format with its checks.
pub struct BinSpecDecoder<'de>(pub PoisonDecoder<DepthBudgetDecoder<SimpleBinDecoder<'de, 'de>>>);

/// The depth budget that a decoder starts with.
pub const DEFAULT_DEPTH_BUDGET: usize = 100;

/// Decodes one message of the binary format.
pub struct BinDecoderBuilder<'de> {
    inner: BinSpecDecoder<'de>,
    depth_budget: usize,
}

impl<'de> BinDecoderBuilder<'de> {
    /// The checked decoder.
    pub closed spec fn decoder(&self) -> PoisonDecoder<DepthBudgetDecoder<SimpleBinDecoder<'de, 'de>>> {
        self.inner.0
    }

    /// The format's decoder inside the checks.
    pub closed spec fn simple(&self) -> SimpleBinDecoder<'de, 'de> {
        self.inner.0.inner().spec_inner()
    }

    /// The depth budget given to the first handle.
    pub closed spec fn depth_budget(&self) -> usize {
        self.depth_budget
    }

    pub fn new(input: &'de [u8], schema: &'de mut BinDecoderSchema) -> (r: Self)
        ensures
            r.decoder().depth() == 0,
            r.simple().data() == input@,
            r.simple().position() == 0,
            r.simple().defs() == old(schema).defs(),
            r.depth_budget() == DEFAULT_DEPTH_BUDGET,
    {
        BinDecoderBuilder {
            inner: BinSpecDecoder(PoisonDecoder::new(DepthBudgetDecoder::new(SimpleBinDecoder::new(input, schema)))),
            depth_budget: DEFAULT_DEPTH_BUDGET,
        }
    }

    /// The handle of the message's value: it reads from the input, with the
    /// whole depth budget.
    pub fn build(&mut self) -> (r: DecodeHandle<WithDepthBudget<BinAnyDecoder>>)
        requires
            old(self).decoder().depth() < usize::MAX,
        ensures
            final(self).decoder().depth() == old(self).decoder().depth() + 1,
            final(self).simple() == old(self).simple(),
            final(self).depth_budget() == old(self).depth_budget(),
            r.depth() == final(self).decoder().depth(),
            r.inner().budget() == old(self).depth_budget(),
            r.inner().inner() is Read,
    {
        let any = WithDepthBudget::new(self.depth_budget, BinAnyDecoder::Read);
        self.inner.0.start(any)
    }

    /// The checked decoder, to decode with.
    pub fn decoder_mut(&mut self) -> (r: &mut PoisonDecoder<DepthBudgetDecoder<SimpleBinDecoder<'de, 'de>>>)
        ensures
            *r == old(self).decoder(),
            final(self).decoder() == *final(r),
            final(self).depth_budget() == old(self).depth_budget(),
    {
        &mut self.inner.0
    }

    /// Finishes the message: every handle must be closed and only the zero
    /// padding may be left of the input.
    pub fn end(self) -> (r: Result<(), Error>)
        ensures
            self.decoder().depth() != 0 ==> r == Err::<(), Error>(
                crate::decode::poison::poison_error(),
            ),
            self.decoder().depth() == 0 ==> r == (if self.simple().rest().len() > VU128_PADDING {
                Err(Error::BinDecoder(crate::error::BinDecoderError::TrailingData))
            } else if exists|i: int| 0 <= i < self.simple().rest().len() && self.simple().rest()[i] != 0u8 {
                Err(Error::BinDecoder(crate::error::BinDecoderError::NonZeroPadding))
            } else {
                Ok(())
            }),
    {
        let budgeted = self.inner.0.end()?;
        let simple = budgeted.end()?;
        simple.end()
    }
}

/// The binary format's decoder, as a type to name the format by.
pub struct BinDecoder;

/// The encoder of the binary format with its checks.
pub struct BinSpecEncoder<'s>(pub PoisonEncoder<SimpleBinSpecEncoder<'s>>);

/// Encodes one message of the binary format.
pub struct BinEncoderBuilder<'s> {
    inner: BinSpecEncoder<'s>,
}

impl<'s> BinEncoderBuilder<'s> {
    /// The checked encoder.
    pub closed spec fn encoder(&self) -> PoisonEncoder<SimpleBinSpecEncoder<'s>> {
        self.inner.0
    }

    pub fn new(schema: &'s mut BinEncoderSchema) -> (r: Self)
        ensures
            r.encoder().depth() == 0,
            r.encoder().inner().output() == Seq::<u8>::empty(),
            r.encoder().inner().defs() == old(schema).defs(),
    {
        BinEncoderBuilder { inner: BinSpecEncoder(PoisonEncoder::new(SimpleBinSpecEncoder::new(schema))) }
    }

    /// The handle of the message's value.
    pub fn build(&mut self) -> (r: EncodeHandle<()>)
        requires
            old(self).encoder().depth() < usize::MAX,
        ensures
            final(self).encoder().depth() == old(self).encoder().depth() + 1,
            final(self).encoder().inner() == old(self).encoder().inner(),
            r.depth() == final(self).encoder().depth(),
    {
        self.inner.0.start(())
    }

    /// The checked encoder, to encode with.
    pub fn encoder_mut(&mut self) -> (r: &mut PoisonEncoder<SimpleBinSpecEncoder<'s>>)
        ensures
            *r == old(self).encoder(),
            final(self).encoder() == *final(r),
    {
        &mut self.inner.0
    }

    /// Finishes the message: every handle must be closed; the result is what
    /// was written followed by the zero padding.
    pub fn end(self) -> (r: Result<Vec<u8>, Error>)
        ensures
            self.encoder().depth() != 0 ==> r == Err::<Vec<u8>, Error>(
                crate::encode::poison::poison_error(),
            ),
            self.encoder().depth() == 0 ==> (r matches Ok(v) && v@ == self.encoder().inner().output()
                + Seq::new(VU128_PADDING as nat, |i: int| 0u8)),
    {
        let simple = self.inner.0.end()?;
        simple.end()
    }
}

/// The binary format's encoder, as a type to name the format by.
pub struct BinGenEncoder;

} // verus!
