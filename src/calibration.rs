//! Repair of the two HFXO calibration words in UICR.
//!
//! A source selector of 1 (TCXO) or a start-up count of 255 on a board with
//! a plain crystal leaves the modem's clock misconfigured. Both words are
//! rewritten with the known-good value; the change only takes effect after a
//! reset.

use vstd::prelude::*;
use crate::nvm::{merged, program_sequence, NvmRegister, NvmcStep};

verus! {

/// Physical address of the UICR HFXOSRC word.
pub const UICR_HFXOSRC: u32 = 0x00FF_801C;

/// Physical address of the UICR HFXOCNT word.
pub const UICR_HFXOCNT: u32 = 0x00FF_8020;

/// Source selector value that marks a misconfigured board.
pub const HFXOSRC_BAD: u32 = 1;

/// Start-up count value that marks a misconfigured board.
pub const HFXOCNT_BAD: u32 = 255;

/// Word written to HFXOSRC to select the crystal.
pub const HFXOSRC_GOOD: u32 = 0;

/// Word written to HFXOCNT: a debounce of 32 * 64 us.
pub const HFXOCNT_GOOD: u32 = 32;

/// The HFXOSRC field: bit 0 of its word.
pub open spec fn hfxosrc_field(word: u32) -> u32 {
    word & 0x01
}

/// The HFXOCNT field: bits 0 to 7 of its word.
pub open spec fn hfxocnt_field(word: u32) -> u32 {
    word & 0xff
}

/// The two UICR words that hold the HFXO calibration.
pub struct Uicr {
    pub hfxosrc: NvmRegister,
    pub hfxocnt: NvmRegister,
}

/// One word programmed during the repair: where, and the controller
/// operations that did it.
pub struct UicrProgramming {
    pub address: u32,
    pub steps: Vec<NvmcStep>,
}

/// What the repair did.
pub struct CalibrationFix {
    /// A reset is required before the new values take effect.
    pub needs_reset: bool,
    /// The words that were programmed, in order.
    pub writes: Vec<UicrProgramming>,
}

pub open spec fn source_is_bad(u: &Uicr) -> bool {
    hfxosrc_field(u.hfxosrc.word) == HFXOSRC_BAD
}

pub open spec fn count_is_bad(u: &Uicr) -> bool {
    hfxocnt_field(u.hfxocnt.word) == HFXOCNT_BAD
}

/// Reads the two calibration fields and rewrites each that holds its known
/// bad value. Returns whether anything was rewritten, which makes a reset
/// mandatory.
pub fn check_and_fix_calibration(uicr: &mut Uicr) -> (r: CalibrationFix)
    ensures
        r.needs_reset == (source_is_bad(old(uicr)) || count_is_bad(old(uicr))),
        r.writes@.len() == (if source_is_bad(old(uicr)) { 1int } else { 0 }) + (if count_is_bad(
            old(uicr),
        ) { 1int } else { 0 }),
        source_is_bad(old(uicr)) ==> final(uicr).hfxosrc.word == HFXOSRC_GOOD,
        !source_is_bad(old(uicr)) ==> final(uicr).hfxosrc.word == old(uicr).hfxosrc.word,
        count_is_bad(old(uicr)) ==> final(uicr).hfxocnt.word == HFXOCNT_GOOD,
        !count_is_bad(old(uicr)) ==> final(uicr).hfxocnt.word == old(uicr).hfxocnt.word,
        source_is_bad(old(uicr)) ==> r.writes@[0].address == UICR_HFXOSRC,
        count_is_bad(old(uicr)) ==> r.writes@[r.writes@.len() - 1].address == UICR_HFXOCNT,
        source_is_bad(old(uicr)) ==> r.writes@[0].steps@ == program_sequence(HFXOSRC_GOOD),
        count_is_bad(old(uicr)) ==> r.writes@[r.writes@.len() - 1].steps@ == program_sequence(
            HFXOCNT_GOOD,
        ),
{
    let mut needs_reset = false;
    let mut writes: Vec<UicrProgramming> = Vec::new();
    let src = uicr.hfxosrc.word & 0x01;
    let cnt = uicr.hfxocnt.word & 0xff;
    if src == HFXOSRC_BAD {
        let w = uicr.hfxosrc.word;
        assert(w & 0x01 == 1 ==> (w & 0u32 & 0xFFFF_FFFFu32 == 0u32 & 0xFFFF_FFFFu32 && w
            & 0xFFFF_FFFFu32 != 0u32 & 0xFFFF_FFFFu32)) by (bit_vector);
        assert(0u32 | !0xFFFF_FFFFu32 == 0u32) by (bit_vector);
        assert(merged(w, 0, 0xFFFF_FFFF) == 0) by {
            assert((w & !0xFFFF_FFFFu32) | (0u32 & 0xFFFF_FFFFu32) == 0) by (bit_vector);
        }
        let steps = match uicr.hfxosrc.write_masked(HFXOSRC_GOOD, 0xFFFF_FFFF) {
            Ok(steps) => steps,
            Err(_) => Vec::new(),
        };
        writes.push(UicrProgramming { address: UICR_HFXOSRC, steps });
        needs_reset = true;
    }
    if cnt == HFXOCNT_BAD {
        let w = uicr.hfxocnt.word;
        assert(w & 0xff == 255 ==> (w & 32u32 & 0xFFFF_FFFFu32 == 32u32 & 0xFFFF_FFFFu32 && w
            & 0xFFFF_FFFFu32 != 32u32 & 0xFFFF_FFFFu32)) by (bit_vector);
        assert(32u32 | !0xFFFF_FFFFu32 == 32u32) by (bit_vector);
        assert(merged(w, 32, 0xFFFF_FFFF) == 32) by {
            assert((w & !0xFFFF_FFFFu32) | (32u32 & 0xFFFF_FFFFu32) == 32) by (bit_vector);
        }
        let steps = match uicr.hfxocnt.write_masked(HFXOCNT_GOOD, 0xFFFF_FFFF) {
            Ok(steps) => steps,
            Err(_) => Vec::new(),
        };
        writes.push(UicrProgramming { address: UICR_HFXOCNT, steps });
        needs_reset = true;
    }
    CalibrationFix { needs_reset, writes }
}

} // verus!
