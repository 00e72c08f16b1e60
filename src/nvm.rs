//! Masked writes to non-volatile configuration words (UICR).
//!
//! Programming a non-volatile word can only clear bits: the stored value
//! becomes the bitwise AND of what was there and what was written. Setting a
//! bit back to 1 needs an erase, which this protocol never performs.

use vstd::prelude::*;

verus! {

/// One operation on the non-volatile memory controller, in the order in
/// which the erratum-safe sequence issues them. The whole sequence must run
/// with interrupts disabled.
#[derive(Clone, Copy, Debug, PartialEq, Eq, Structural)]
pub enum NvmcStep {
    /// Switch the controller to write mode.
    EnableWrite,
    /// Poll until the controller reports ready.
    WaitReady,
    /// Store this word at the target address.
    Program(u32),
    /// Data synchronisation barrier.
    Barrier,
    /// Switch the controller back to read-only mode.
    DisableWrite,
}

/// What a masked write has to do.
#[derive(Clone, Copy, Debug, PartialEq, Eq, Structural)]
pub enum NvmWrite {
    /// The masked bits already hold the target: nothing is written.
    Unchanged,
    /// Program this word; bits outside the mask are written as 1 so that
    /// they keep their value.
    Program(u32),
}

/// A masked write that would have to turn a 0 bit into a 1.
#[derive(Clone, Copy, Debug, PartialEq, Eq, Structural)]
pub enum WriteError {
    NeedsErase,
}

/// The masked bits of `current` already equal those of `value`.
pub open spec fn already_set(current: u32, value: u32, mask: u32) -> bool {
    current & mask == value & mask
}

/// Every masked bit that `value` sets is still set in `current`, so the
/// write only clears bits.
pub open spec fn only_clears(current: u32, value: u32, mask: u32) -> bool {
    current & value & mask == value & mask
}

/// The word stored after programming `word` over `current`.
pub open spec fn programmed(current: u32, word: u32) -> u32 {
    current & word
}

/// The value a masked write is meant to leave behind.
pub open spec fn merged(current: u32, value: u32, mask: u32) -> u32 {
    (current & !mask) | (value & mask)
}

/// The erratum-safe controller sequence that programs `word`.
pub open spec fn program_sequence(word: u32) -> Seq<NvmcStep> {
    seq![
        NvmcStep::EnableWrite,
        NvmcStep::WaitReady,
        NvmcStep::Program(word),
        NvmcStep::Barrier,
        NvmcStep::WaitReady,
        NvmcStep::DisableWrite,
        NvmcStep::WaitReady,
    ]
}

/// Decides how to make the bits of `mask` in a word that holds `current`
/// equal to those of `value`.
pub fn uicr_write_masked(current: u32, value: u32, mask: u32) -> (r: Result<NvmWrite, WriteError>)
    ensures
        already_set(current, value, mask) <==> r == Ok::<NvmWrite, WriteError>(NvmWrite::Unchanged),
        (!already_set(current, value, mask) && !only_clears(current, value, mask)) <==> r
            == Err::<NvmWrite, WriteError>(WriteError::NeedsErase),
        (!already_set(current, value, mask) && only_clears(current, value, mask)) <==> r
            == Ok::<NvmWrite, WriteError>(NvmWrite::Program(value | !mask)),
{
    if current & mask == value & mask {
        return Ok(NvmWrite::Unchanged);
    }
    if current & value & mask != value & mask {
        return Err(WriteError::NeedsErase);
    }
    Ok(NvmWrite::Program(value | !mask))
}

/// Decides how to make a whole word that holds `current` equal to `value`.
pub fn uicr_write(current: u32, value: u32) -> (r: Result<NvmWrite, WriteError>)
    ensures
        current == value <==> r == Ok::<NvmWrite, WriteError>(NvmWrite::Unchanged),
        (current != value && current & value != value) <==> r == Err::<NvmWrite, WriteError>(
            WriteError::NeedsErase,
        ),
        (current != value && current & value == value) <==> r == Ok::<NvmWrite, WriteError>(
            NvmWrite::Program(value),
        ),
{
    proof {
        assert(current & 0xFFFF_FFFFu32 == current && value & 0xFFFF_FFFFu32 == value) by (bit_vector);
        assert(current & value & 0xFFFF_FFFFu32 == current & value) by (bit_vector);
        assert(value | !0xFFFF_FFFFu32 == value) by (bit_vector);
    }
    uicr_write_masked(current, value, 0xFFFF_FFFF)
}

/// The controller operations that carry out a planned write.
pub fn controller_steps(w: NvmWrite) -> (r: Vec<NvmcStep>)
    ensures
        w == NvmWrite::Unchanged ==> r@ == Seq::<NvmcStep>::empty(),
        forall|word: u32| w == NvmWrite::Program(word) ==> r@ == program_sequence(word),
{
    match w {
        NvmWrite::Unchanged => Vec::new(),
        NvmWrite::Program(word) => vec![
            NvmcStep::EnableWrite,
            NvmcStep::WaitReady,
            NvmcStep::Program(word),
            NvmcStep::Barrier,
            NvmcStep::WaitReady,
            NvmcStep::DisableWrite,
            NvmcStep::WaitReady,
        ],
    }
}

/// Programming `value | !mask` over a word that only needs bits cleared
/// leaves exactly the merged value.
proof fn lemma_program_merges(current: u32, value: u32, mask: u32)
    requires
        only_clears(current, value, mask),
    ensures
        programmed(current, value | !mask) == merged(current, value, mask),
{
    assert(current & value & mask == value & mask ==> current & (value | !mask) == (current
        & !mask) | (value & mask)) by (bit_vector);
}

/// Whatever a masked write decides, the bits outside the mask keep their
/// value.
pub proof fn lemma_outside_mask_kept(current: u32, value: u32, mask: u32)
    ensures
        merged(current, value, mask) & !mask == current & !mask,
        only_clears(current, value, mask) ==> programmed(current, value | !mask) & !mask == current
            & !mask,
        merged(current, value, mask) & mask == value & mask,
{
    assert(((current & !mask) | (value & mask)) & !mask == current & !mask) by (bit_vector);
    assert(((current & !mask) | (value & mask)) & mask == value & mask) by (bit_vector);
    assert(current & value & mask == value & mask ==> (current & (value | !mask)) & !mask
        == current & !mask) by (bit_vector);
}

/// A model of one non-volatile word. Writes to it return the controller
/// operations that carry them out on the hardware.
pub struct NvmRegister {
    pub word: u32,
}

impl NvmRegister {
    /// Makes the bits of `mask` equal to those of `value`, returning the
    /// controller operations that were issued. A write that would need an
    /// erase is refused and touches nothing.
    pub fn write_masked(&mut self, value: u32, mask: u32) -> (r: Result<Vec<NvmcStep>, WriteError>)
        ensures
            already_set(old(self).word, value, mask) ==> final(self).word == old(self).word,
            already_set(old(self).word, value, mask) ==> r is Ok && r->Ok_0@ == Seq::<
                NvmcStep,
            >::empty(),
            !already_set(old(self).word, value, mask) && !only_clears(old(self).word, value, mask)
                ==> final(self).word == old(self).word && r == Err::<Vec<NvmcStep>, WriteError>(
                WriteError::NeedsErase,
            ),
            !already_set(old(self).word, value, mask) && only_clears(old(self).word, value, mask)
                ==> final(self).word == programmed(old(self).word, value | !mask),
            !already_set(old(self).word, value, mask) && only_clears(old(self).word, value, mask)
                ==> r is Ok && r->Ok_0@ == program_sequence(value | !mask),
            r is Ok ==> final(self).word == merged(old(self).word, value, mask),
            final(self).word & !mask == old(self).word & !mask,
    {
        let plan = uicr_write_masked(self.word, value, mask);
        match plan {
            Err(e) => Err(e),
            Ok(w) => {
                let steps = controller_steps(w);
                if let NvmWrite::Program(word) = w {
                    proof {
                        lemma_program_merges(self.word, value, mask);
                        lemma_outside_mask_kept(self.word, value, mask);
                    }
                    self.word = self.word & word;
                } else {
                    assert(merged(self.word, value, mask) == self.word) by {
                        let c = self.word;
                        assert(c & mask == value & mask ==> (c & !mask) | (value & mask) == c)
                            by (bit_vector);
                    }
                }
                Ok(steps)
            },
        }
    }
}

} // verus!
