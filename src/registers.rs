//! Layout of the TRNG register block: register offsets and bit fields.
use vstd::prelude::*;

verus! {

/// A bit field inside a 32-bit register: `width` bits starting at bit `shift`.
#[derive(Clone, Copy, Debug, PartialEq, Eq, Structural)]
pub struct Field {
    pub shift: u32,
    pub width: u32,
}

impl Field {
    /// The field fits inside a 32-bit word and is narrower than the word.
    pub open spec fn wf(self) -> bool {
        &&& 1 <= self.width
        &&& self.width < 32
        &&& self.shift + self.width <= 32
    }
}

/// The bits of a word that belong to field `f`.
pub open spec fn mask_of(f: Field) -> u32 {
    (((1u32 << f.width) - 1) as u32) << f.shift
}

/// The value held in field `f` of `word`.
pub open spec fn field_of(word: u32, f: Field) -> u32 {
    (word >> f.shift) & (((1u32 << f.width) - 1) as u32)
}

/// `v` cut to the width of field `f`.
pub open spec fn truncate_to(v: u32, f: Field) -> u32 {
    v & (((1u32 << f.width) - 1) as u32)
}

proof fn lemma_insert(word: u32, shift: u32, width: u32, v: u32)
    by (bit_vector)
    requires
        1 <= width,
        width < 32,
        shift + width <= 32,
    ensures
        ({
            let low: u32 = ((1u32 << width) - 1) as u32;
            let m: u32 = low << shift;
            let r: u32 = (word & !m) | ((v << shift) & m);
            &&& r & !m == word & !m
            &&& (r >> shift) & low == v & low
        }),
{
}

/// The word left in a register that held `word` after field `f` is written with `v`.
pub open spec fn inserted(word: u32, f: Field, v: u32) -> u32 {
    (word & !mask_of(f)) | ((v << f.shift) & mask_of(f))
}

/// A word whose `width` lowest bits are set.
fn low_bits(width: u32) -> (r: u32)
    requires
        width < 32,
    ensures
        r == ((1u32 << width) - 1) as u32,
{
    assert(1u32 << width >= 1) by (bit_vector)
        requires
            width < 32,
    ;
    (1u32 << width) - 1
}

/// Computes the word that a read-modify-write of field `f` to `v` leaves in a
/// register that held `word`: the field takes the low bits of `v`, every other
/// bit keeps its value.
pub fn insert_field(word: u32, f: Field, v: u32) -> (r: u32)
    requires
        f.wf(),
    ensures
        r == inserted(word, f, v),
        r & !mask_of(f) == word & !mask_of(f),
        field_of(r, f) == truncate_to(v, f),
{
    proof {
        lemma_insert(word, f.shift, f.width, v);
    }
    let low = low_bits(f.width);
    let m: u32 = low << f.shift;
    (word & !m) | ((v << f.shift) & m)
}

proof fn lemma_insert_other(word: u32, fs: u32, fw: u32, gs: u32, gw: u32, v: u32)
    by (bit_vector)
    requires
        1 <= fw,
        fw < 32,
        fs + fw <= 32,
        1 <= gw,
        gw < 32,
        gs + gw <= 32,
        ((((1u32 << fw) - 1) as u32) << fs) & ((((1u32 << gw) - 1) as u32) << gs) == 0,
    ensures
        ({
            let fm: u32 = (((1u32 << fw) - 1) as u32) << fs;
            let r: u32 = (word & !fm) | ((v << fs) & fm);
            (r >> gs) & (((1u32 << gw) - 1) as u32) == (word >> gs) & (((1u32 << gw) - 1) as u32)
        }),
{
}

/// Writing field `f` sets it to the low bits of `v`.
pub proof fn lemma_field_write(word: u32, f: Field, v: u32)
    requires
        f.wf(),
    ensures
        field_of(inserted(word, f, v), f) == truncate_to(v, f),
{
    lemma_insert(word, f.shift, f.width, v);
}

/// Writing field `f` leaves every field `g` that shares no bit with `f` as it was.
pub proof fn lemma_field_kept(word: u32, f: Field, v: u32, g: Field)
    requires
        f.wf(),
        g.wf(),
        mask_of(f) & mask_of(g) == 0,
    ensures
        field_of(inserted(word, f, v), g) == field_of(word, g),
{
    lemma_insert_other(word, f.shift, f.width, g.shift, g.width, v);
}

/// PRGM, RST_DEF and SAMP_MODE share no bit, and the values the driver
/// writes fit their fields.
pub proof fn lemma_field_constants()
    ensures
        mask_of(prgm_spec()) & mask_of(rst_def_spec()) == 0,
        mask_of(rst_def_spec()) & mask_of(prgm_spec()) == 0,
        mask_of(prgm_spec()) & mask_of(samp_mode_spec()) == 0,
        mask_of(samp_mode_spec()) & mask_of(prgm_spec()) == 0,
        mask_of(samp_mode_spec()) & mask_of(rst_def_spec()) == 0,
        truncate_to(0, prgm_spec()) == 0,
        truncate_to(1, prgm_spec()) == 1,
        truncate_to(1, rst_def_spec()) == 1,
        truncate_to(SAMP_MODE_VON, samp_mode_spec()) == SAMP_MODE_VON,
        truncate_to(1, int_ent_val_spec()) == 1,
{
    assert(((((1u32 << 1u32) - 1) as u32) << 16u32) & ((((1u32 << 1u32) - 1) as u32) << 6u32) == 0)
        by (bit_vector);
    assert(((((1u32 << 1u32) - 1) as u32) << 6u32) & ((((1u32 << 1u32) - 1) as u32) << 16u32) == 0)
        by (bit_vector);
    assert(((((1u32 << 1u32) - 1) as u32) << 16u32) & ((((1u32 << 2u32) - 1) as u32) << 0u32) == 0)
        by (bit_vector);
    assert(((((1u32 << 2u32) - 1) as u32) << 0u32) & ((((1u32 << 1u32) - 1) as u32) << 16u32) == 0)
        by (bit_vector);
    assert(((((1u32 << 2u32) - 1) as u32) << 0u32) & ((((1u32 << 1u32) - 1) as u32) << 6u32) == 0)
        by (bit_vector);
    assert((0u32 & (((1u32 << 1u32) - 1) as u32)) == 0) by (bit_vector);
    assert((1u32 & (((1u32 << 1u32) - 1) as u32)) == 1) by (bit_vector);
    assert((2u32 & (((1u32 << 2u32) - 1) as u32)) == 2) by (bit_vector);
}

/// Tells whether field `f` of `word` holds a nonzero value.
pub fn is_set(word: u32, f: Field) -> (r: bool)
    requires
        f.wf(),
    ensures
        r == (field_of(word, f) != 0),
{
    let low = low_bits(f.width);
    ((word >> f.shift) & low) != 0
}

/// Number of 32-bit words in the register block (256 bytes).
pub const BLOCK_WORDS: usize = 64;

/// Number of entropy output registers.
pub const ENT_COUNT: usize = 16;

/// Sample mode value that selects Von Neumann corrected sampling.
pub const SAMP_MODE_VON: u32 = 2;

/// The registers that the driver addresses.
#[derive(Clone, Copy, Debug, PartialEq, Eq, Structural)]
pub enum Reg {
    /// Miscellaneous control (MCTL).
    Mctl,
    /// Statistical check miscellaneous (SCMISC).
    Scmisc,
    /// Status.
    Status,
    /// Entropy word `i`, for `i < 16`.
    Ent(usize),
    /// Interrupt control.
    IntCtrl,
    /// Interrupt mask.
    IntMask,
    /// Interrupt status.
    IntStatus,
}

impl Reg {
    pub open spec fn wf(self) -> bool {
        match self {
            Reg::Ent(i) => i < ENT_COUNT,
            _ => true,
        }
    }

    /// Byte offset of the register from the base of the block.
    pub open spec fn offset_spec(self) -> nat {
        match self {
            Reg::Mctl => 0x000,
            Reg::Scmisc => 0x004,
            Reg::Status => 0x03C,
            Reg::Ent(i) => (0x040 + 4 * i) as nat,
            Reg::IntCtrl => 0x0B4,
            Reg::IntMask => 0x0B8,
            Reg::IntStatus => 0x0BC,
        }
    }

    /// Byte offset of the register from the base of the block.
    pub fn offset(&self) -> (r: usize)
        requires
            self.wf(),
        ensures
            r == self.offset_spec(),
            r % 4 == 0,
            r < 4 * BLOCK_WORDS,
    {
        match self {
            Reg::Mctl => 0x000,
            Reg::Scmisc => 0x004,
            Reg::Status => 0x03C,
            Reg::Ent(i) => 0x040 + 4 * *i,
            Reg::IntCtrl => 0x0B4,
            Reg::IntMask => 0x0B8,
            Reg::IntStatus => 0x0BC,
        }
    }
}

/// MCTL.PRGM: programming mode when 1, run mode when 0.
pub open spec fn prgm_spec() -> Field {
    Field { shift: 16, width: 1 }
}

/// MCTL.ERR: a hardware error was detected.
pub open spec fn err_spec() -> Field {
    Field { shift: 12, width: 1 }
}

/// MCTL.ENT_VAL: the entropy registers hold a valid batch.
pub open spec fn ent_val_spec() -> Field {
    Field { shift: 10, width: 1 }
}

/// MCTL.RST_DEF: reset the statistical check settings to their defaults.
pub open spec fn rst_def_spec() -> Field {
    Field { shift: 6, width: 1 }
}

/// MCTL.SAMP_MODE: the sampling mode.
pub open spec fn samp_mode_spec() -> Field {
    Field { shift: 0, width: 2 }
}

/// ENT_VAL bit of the interrupt control, mask and status registers.
pub open spec fn int_ent_val_spec() -> Field {
    Field { shift: 1, width: 1 }
}

/// HW_ERR bit of the interrupt control, mask and status registers.
pub open spec fn int_hw_err_spec() -> Field {
    Field { shift: 0, width: 1 }
}

pub fn prgm() -> (f: Field)
    ensures
        f == prgm_spec(),
{
    Field { shift: 16, width: 1 }
}

pub fn err() -> (f: Field)
    ensures
        f == err_spec(),
{
    Field { shift: 12, width: 1 }
}

pub fn ent_val() -> (f: Field)
    ensures
        f == ent_val_spec(),
{
    Field { shift: 10, width: 1 }
}

pub fn rst_def() -> (f: Field)
    ensures
        f == rst_def_spec(),
{
    Field { shift: 6, width: 1 }
}

pub fn samp_mode() -> (f: Field)
    ensures
        f == samp_mode_spec(),
{
    Field { shift: 0, width: 2 }
}

pub fn int_ent_val() -> (f: Field)
    ensures
        f == int_ent_val_spec(),
{
    Field { shift: 1, width: 1 }
}

pub fn int_hw_err() -> (f: Field)
    ensures
        f == int_hw_err_spec(),
{
    Field { shift: 0, width: 1 }
}

/// Whether an MCTL value reports a valid entropy batch.
pub open spec fn entropy_valid(mctl: u32) -> bool {
    field_of(mctl, ent_val_spec()) != 0
}

} // verus!
