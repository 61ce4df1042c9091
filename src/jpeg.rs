//! Builders for the parameter buffers of a baseline JPEG decode.
//!
//! They take header fields that a bitstream parser has already extracted and assemble the
//! values that the driver consumes; they never touch the driver themselves.

use vstd::prelude::*;
use crate::shared::{BufferType, SliceParameterBufferBase};
use crate::wire::{le16, le32, push_bytes, push_u16, push_u32, push_zeros, zeros};

verus! {

/// Number of quantization table slots.
pub const NUM_QUANT_SLOTS: usize = 4;

/// Number of entropy (Huffman) table slots: luminance and chrominance.
pub const NUM_HUFFMAN_SLOTS: usize = 2;

/// Capacity for the symbol values of a DC table.
pub const MAX_DC_VALUES: usize = 12;

/// Capacity for the symbol values of an AC table.
pub const MAX_AC_VALUES: usize = 162;

/// Most components a frame may have.
pub const MAX_FRAME_COMPONENTS: usize = 255;

/// Most components a scan may have.
pub const MAX_SCAN_COMPONENTS: usize = 4;

/// Largest sampling factor of a component.
pub const MAX_SAMPLING_FACTOR: u8 = 4;

/// Errors found while assembling parameter buffers, before the driver is involved.
#[derive(Clone, Copy, PartialEq, Eq, Structural, Debug)]
pub enum JpegError {
    /// A quantization table slot at or beyond the slot count.
    InvalidTableSlot,
    /// An entropy table slot at or beyond the slot count.
    InvalidTableDestination,
    /// An entropy table class that is neither DC (0) nor AC (1).
    InvalidTableClass,
    /// More symbol values than the table class holds.
    TableTooLarge,
    /// A sampling factor outside 1 to 4.
    InvalidSamplingFactor,
    /// More components than the frame or scan holds.
    TooManyComponents,
    /// A frame without components, whose macroblock geometry is undefined.
    NoComponents,
    /// A scan component that names no component of the frame.
    UnknownComponent,
    /// An entropy-coded byte range that ends before it starts or does not fit in 32 bits.
    InvalidDataRange,
}

/// 1 for a table that is present, 0 for one that is not.
pub open spec fn load_flag(present: bool) -> u8 {
    if present { 1 } else { 0 }
}

/// The 64 bytes of a quantization table slot; zeros where none was set.
pub open spec fn quant_table_bytes(t: Option<[u8; 64]>) -> Seq<u8> {
    match t {
        Some(a) => a@,
        None => zeros(64),
    }
}

/// The driver layout of the quantization tables: a load flag per slot, the 64 coefficients
/// of each slot, and four reserved 32-bit words.
pub open spec fn iq_matrix_bytes(v: Seq<Option<[u8; 64]>>) -> Seq<u8> {
    seq![load_flag(v[0] is Some), load_flag(v[1] is Some), load_flag(v[2] is Some), load_flag(v[3] is Some)]
        + quant_table_bytes(v[0]) + quant_table_bytes(v[1]) + quant_table_bytes(v[2])
        + quant_table_bytes(v[3]) + zeros(16)
}

/// Quantization tables by destination slot.
pub struct IqMatrixBuffer {
    tables: Vec<Option<[u8; 64]>>,
}

impl IqMatrixBuffer {
    /// The table at each slot, if one was set.
    pub closed spec fn view(&self) -> Seq<Option<[u8; 64]>> {
        self.tables@
    }

    pub closed spec fn wf(&self) -> bool {
        self.tables@.len() == NUM_QUANT_SLOTS
    }

    pub fn new() -> (r: Self)
        ensures
            r.wf(),
            r@ == Seq::new(NUM_QUANT_SLOTS as nat, |i: int| None::<[u8; 64]>),
    {
        let r = IqMatrixBuffer { tables: vec![None, None, None, None] };
        assert(r@ =~= Seq::new(NUM_QUANT_SLOTS as nat, |i: int| None::<[u8; 64]>));
        r
    }

    /// Stores the 64 coefficients of the table with destination `slot`.
    pub fn set_quantization_table(&mut self, slot: u8, values: [u8; 64]) -> (r: Result<(), JpegError>)
        requires
            old(self).wf(),
        ensures
            final(self).wf(),
            slot as usize >= NUM_QUANT_SLOTS ==> r == Err::<(), JpegError>(JpegError::InvalidTableSlot)
                && final(self)@ == old(self)@,
            (slot as usize) < NUM_QUANT_SLOTS ==> r is Ok
                && final(self)@ == old(self)@.update(slot as int, Some(values)),
    {
        if slot as usize >= NUM_QUANT_SLOTS {
            return Err(JpegError::InvalidTableSlot);
        }
        self.tables.set(slot as usize, Some(values));
        Ok(())
    }

    /// The table at `slot`, if the slot exists and a table was set there.
    pub fn quantization_table(&self, slot: u8) -> (r: Option<[u8; 64]>)
        requires
            self.wf(),
        ensures
            (slot as usize) < NUM_QUANT_SLOTS ==> r == self@[slot as int],
            slot as usize >= NUM_QUANT_SLOTS ==> r is None,
    {
        if slot as usize >= NUM_QUANT_SLOTS {
            None
        } else {
            self.tables[slot as usize]
        }
    }

    /// The tables in the layout that the driver reads.
    pub fn to_bytes(&self) -> (r: Vec<u8>)
        requires
            self.wf(),
        ensures
            r@ == iq_matrix_bytes(self@),
    {
        let mut out: Vec<u8> = Vec::new();
        let mut k: usize = 0;
        while k < NUM_QUANT_SLOTS
            invariant
                self.wf(),
                0 <= k <= NUM_QUANT_SLOTS,
                out@ == Seq::new(k as nat, |i: int| load_flag(self@[i] is Some)),
            decreases NUM_QUANT_SLOTS - k,
        {
            out.push(if self.tables[k].is_some() { 1 } else { 0 });
            k += 1;
            assert(out@ =~= Seq::new(k as nat, |i: int| load_flag(self@[i] is Some)));
        }
        let ghost flags = out@;
        let mut k: usize = 0;
        while k < NUM_QUANT_SLOTS
            invariant
                self.wf(),
                0 <= k <= NUM_QUANT_SLOTS,
                out@ == flags + Seq::new(k as nat, |i: int| quant_table_bytes(self@[i])).flatten(),
            decreases NUM_QUANT_SLOTS - k,
        {
            match &self.tables[k] {
                Some(t) => push_bytes(&mut out, t),
                None => push_zeros(&mut out, 64),
            }
            proof {
                let tabs = Seq::new(k as nat, |i: int| quant_table_bytes(self@[i]));
                let tabs2 = Seq::new((k + 1) as nat, |i: int| quant_table_bytes(self@[i]));
                assert(tabs2 =~= tabs.push(quant_table_bytes(self@[k as int])));
                tabs.lemma_flatten_push(quant_table_bytes(self@[k as int]));
                assert(out@ =~= flags + tabs2.flatten());
            }
            k += 1;
        }
        push_zeros(&mut out, 16);
        proof {
            let tabs = Seq::new(4, |i: int| quant_table_bytes(self@[i]));
            assert(tabs =~= seq![quant_table_bytes(self@[0]), quant_table_bytes(self@[1]), quant_table_bytes(self@[2]), quant_table_bytes(self@[3])]);
            lemma_flatten4(quant_table_bytes(self@[0]), quant_table_bytes(self@[1]), quant_table_bytes(self@[2]), quant_table_bytes(self@[3]));
            assert(flags =~= seq![load_flag(self@[0] is Some), load_flag(self@[1] is Some), load_flag(self@[2] is Some), load_flag(self@[3] is Some)]);
            assert(out@ =~= iq_matrix_bytes(self@));
        }
        out
    }
}


/// The class of an entropy table that codes DC coefficients.
pub const CLASS_DC: u8 = 0;

/// The class of an entropy table that codes AC coefficients.
pub const CLASS_AC: u8 = 1;

/// Capacity for symbol values of a table of class `class`.
pub open spec fn value_capacity(class: u8) -> int {
    if class == CLASS_DC {
        MAX_DC_VALUES as int
    } else {
        MAX_AC_VALUES as int
    }
}

/// Where the table of `class` at `slot` is kept.
pub open spec fn entropy_index(class: u8, slot: u8) -> int {
    2 * (slot as int) + (class as int)
}

/// The error, if any, for setting an entropy table of `class` at `slot` with `n` values.
pub open spec fn entropy_table_error(class: u8, slot: u8, n: int) -> Option<JpegError> {
    if class != CLASS_DC && class != CLASS_AC {
        Some(JpegError::InvalidTableClass)
    } else if slot as usize >= NUM_HUFFMAN_SLOTS {
        Some(JpegError::InvalidTableDestination)
    } else if n > value_capacity(class) {
        Some(JpegError::TableTooLarge)
    } else {
        None
    }
}

/// One entropy table: how many codes there are of each length from 1 to 16 bits, and the
/// symbol values in code order.
#[derive(Debug)]
pub struct EntropyTable {
    pub code_lengths: [u8; 16],
    pub values: Vec<u8>,
}

/// The bytes of one entropy table: 16 code counts and the symbol values padded with zeros
/// to `capacity`; all zeros where none was set.
pub open spec fn entropy_table_bytes(t: Option<(Seq<u8>, Seq<u8>)>, capacity: int) -> Seq<u8> {
    match t {
        Some((lengths, values)) => lengths + values + zeros(capacity - values.len()),
        None => zeros(16 + capacity),
    }
}

/// The bytes of one slot: its DC table, its AC table and two bytes of padding.
pub open spec fn huffman_slot_bytes(dc: Option<(Seq<u8>, Seq<u8>)>, ac: Option<(Seq<u8>, Seq<u8>)>) -> Seq<u8> {
    entropy_table_bytes(dc, MAX_DC_VALUES as int) + entropy_table_bytes(ac, MAX_AC_VALUES as int) + zeros(2)
}

/// The driver layout of the entropy tables: a load flag per slot (set when either of its
/// tables is), the two slots, two bytes that align what follows, and four reserved 32-bit
/// words.
pub open spec fn huffman_table_bytes(v: Seq<Option<(Seq<u8>, Seq<u8>)>>) -> Seq<u8> {
    seq![load_flag(v[0] is Some || v[1] is Some), load_flag(v[2] is Some || v[3] is Some)]
        + huffman_slot_bytes(v[0], v[1]) + huffman_slot_bytes(v[2], v[3]) + zeros(2) + zeros(16)
}

fn push_entropy_table(out: &mut Vec<u8>, t: &Option<EntropyTable>, capacity: usize)
    requires
        match *t {
            Some(e) => e.values@.len() <= capacity,
            None => true,
        },
        capacity <= 1000,
    ensures
        final(out)@ == old(out)@ + entropy_table_bytes(entropy_view(*t), capacity as int),
{
    match t {
        Some(e) => {
            push_bytes(out, &e.code_lengths);
            push_bytes(out, e.values.as_slice());
            push_zeros(out, capacity - e.values.len());
            assert(final(out)@ =~= old(out)@ + entropy_table_bytes(entropy_view(*t), capacity as int));
        },
        None => {
            push_zeros(out, 16 + capacity);
        },
    }
}

/// Entropy tables by slot and class.
pub struct HuffmanTableBuffer {
    tables: Vec<Option<EntropyTable>>,
}

/// What is held of an entropy table: code counts and symbol values.
pub open spec fn entropy_view(t: Option<EntropyTable>) -> Option<(Seq<u8>, Seq<u8>)> {
    match t {
        Some(e) => Some((e.code_lengths@, e.values@)),
        None => None,
    }
}

impl HuffmanTableBuffer {
    /// The table at each `entropy_index`, if one was set.
    pub closed spec fn view(&self) -> Seq<Option<(Seq<u8>, Seq<u8>)>> {
        self.tables@.map_values(|t: Option<EntropyTable>| entropy_view(t))
    }

    pub closed spec fn wf(&self) -> bool {
        &&& self.tables@.len() == 2 * NUM_HUFFMAN_SLOTS
        &&& forall|i: int| 0 <= i < 2 * NUM_HUFFMAN_SLOTS ==> match #[trigger] self.tables@[i] {
            Some(e) => e.values@.len() <= value_capacity((i % 2) as u8),
            None => true,
        }
    }

    pub fn new() -> (r: Self)
        ensures
            r.wf(),
            r@ == Seq::new(2 * NUM_HUFFMAN_SLOTS as nat, |i: int| None::<(Seq<u8>, Seq<u8>)>),
    {
        let r = HuffmanTableBuffer { tables: vec![None, None, None, None] };
        assert(r@ =~= Seq::new(2 * NUM_HUFFMAN_SLOTS as nat, |i: int| None::<(Seq<u8>, Seq<u8>)>));
        r
    }

    /// Stores the table of `class` (DC or AC) with destination `slot`.
    pub fn set_table(&mut self, class: u8, slot: u8, code_lengths: [u8; 16], values: Vec<u8>) -> (r: Result<(), JpegError>)
        requires
            old(self).wf(),
        ensures
            final(self).wf(),
            entropy_table_error(class, slot, values@.len() as int) matches Some(e) ==>
                r == Err::<(), JpegError>(e) && final(self)@ == old(self)@,
            entropy_table_error(class, slot, values@.len() as int) is None ==> r is Ok
                && final(self)@ == old(self)@.update(entropy_index(class, slot), Some((code_lengths@, values@))),
    {
        if class != CLASS_DC && class != CLASS_AC {
            return Err(JpegError::InvalidTableClass);
        }
        if slot as usize >= NUM_HUFFMAN_SLOTS {
            return Err(JpegError::InvalidTableDestination);
        }
        let capacity = if class == CLASS_DC { MAX_DC_VALUES } else { MAX_AC_VALUES };
        if values.len() > capacity {
            return Err(JpegError::TableTooLarge);
        }
        let idx = 2 * (slot as usize) + (class as usize);
        let ghost vals = values@;
        self.tables.set(idx, Some(EntropyTable { code_lengths, values }));
        assert(self@ =~= old(self)@.update(entropy_index(class, slot), Some((code_lengths@, vals))));
        assert(forall|i: int| 0 <= i < 2 * NUM_HUFFMAN_SLOTS && i != idx ==> self.tables@[i] == old(self).tables@[i]);
        assert((idx as int % 2) as u8 == class);
        Ok(())
    }

    /// The tables in the layout that the driver reads.
    pub fn to_bytes(&self) -> (r: Vec<u8>)
        requires
            self.wf(),
        ensures
            r@ == huffman_table_bytes(self@),
    {
        let mut out: Vec<u8> = Vec::new();
        out.push(if self.tables[0].is_some() || self.tables[1].is_some() { 1 } else { 0 });
        out.push(if self.tables[2].is_some() || self.tables[3].is_some() { 1 } else { 0 });
        let mut slot: usize = 0;
        let ghost flags = out@;
        assert(flags =~= seq![load_flag(self@[0] is Some || self@[1] is Some), load_flag(self@[2] is Some || self@[3] is Some)]);
        while slot < NUM_HUFFMAN_SLOTS
            invariant
                self.wf(),
                0 <= slot <= NUM_HUFFMAN_SLOTS,
                out@ == flags + Seq::new(slot as nat, |i: int| huffman_slot_bytes(self@[2 * i], self@[2 * i + 1])).flatten(),
            decreases NUM_HUFFMAN_SLOTS - slot,
        {
            assert(((2 * slot as int) % 2) as u8 == CLASS_DC);
            assert(((2 * slot as int + 1) % 2) as u8 == CLASS_AC);
            push_entropy_table(&mut out, &self.tables[2 * slot], MAX_DC_VALUES);
            push_entropy_table(&mut out, &self.tables[2 * slot + 1], MAX_AC_VALUES);
            push_zeros(&mut out, 2);
            proof {
                let f = |i: int| huffman_slot_bytes(self@[2 * i], self@[2 * i + 1]);
                let a = Seq::new(slot as nat, f);
                let b = Seq::new((slot + 1) as nat, f);
                assert(b =~= a.push(f(slot as int)));
                a.lemma_flatten_push(f(slot as int));
                assert(out@ =~= flags + b.flatten());
            }
            slot += 1;
        }
        push_zeros(&mut out, 2);
        push_zeros(&mut out, 16);
        proof {
            let f = |i: int| huffman_slot_bytes(self@[2 * i], self@[2 * i + 1]);
            let a = Seq::new(2, f);
            assert(a =~= Seq::<Seq<u8>>::empty().push(f(0)).push(f(1)));
            Seq::<Seq<u8>>::empty().lemma_flatten_push(f(0));
            Seq::<Seq<u8>>::empty().push(f(0)).lemma_flatten_push(f(1));
            assert(a.flatten() =~= f(0) + f(1));
            assert(out@ =~= huffman_table_bytes(self@));
        }
        out
    }

    /// Stores the DC table with destination `slot`.
    pub fn set_dc_table(&mut self, slot: u8, code_lengths: [u8; 16], values: Vec<u8>) -> (r: Result<(), JpegError>)
        requires
            old(self).wf(),
        ensures
            final(self).wf(),
            entropy_table_error(CLASS_DC, slot, values@.len() as int) matches Some(e) ==>
                r == Err::<(), JpegError>(e) && final(self)@ == old(self)@,
            entropy_table_error(CLASS_DC, slot, values@.len() as int) is None ==> r is Ok
                && final(self)@ == old(self)@.update(entropy_index(CLASS_DC, slot), Some((code_lengths@, values@))),
    {
        self.set_table(CLASS_DC, slot, code_lengths, values)
    }

    /// Stores the AC table with destination `slot`.
    pub fn set_ac_table(&mut self, slot: u8, code_lengths: [u8; 16], values: Vec<u8>) -> (r: Result<(), JpegError>)
        requires
            old(self).wf(),
        ensures
            final(self).wf(),
            entropy_table_error(CLASS_AC, slot, values@.len() as int) matches Some(e) ==>
                r == Err::<(), JpegError>(e) && final(self)@ == old(self)@,
            entropy_table_error(CLASS_AC, slot, values@.len() as int) is None ==> r is Ok
                && final(self)@ == old(self)@.update(entropy_index(CLASS_AC, slot), Some((code_lengths@, values@))),
    {
        self.set_table(CLASS_AC, slot, code_lengths, values)
    }

    /// The table of `class` at `slot`, if both are valid and a table was set there.
    pub fn table(&self, class: u8, slot: u8) -> (r: Option<&EntropyTable>)
        requires
            self.wf(),
        ensures
            (class == CLASS_DC || class == CLASS_AC) && (slot as usize) < NUM_HUFFMAN_SLOTS ==>
                match r {
                    Some(t) => self@[entropy_index(class, slot)] == Some((t.code_lengths@, t.values@)),
                    None => self@[entropy_index(class, slot)] is None,
                },
            !((class == CLASS_DC || class == CLASS_AC) && (slot as usize) < NUM_HUFFMAN_SLOTS) ==> r is None,
    {
        if (class != CLASS_DC && class != CLASS_AC) || slot as usize >= NUM_HUFFMAN_SLOTS {
            return None;
        }
        let idx = 2 * (slot as usize) + (class as usize);
        match &self.tables[idx] {
            Some(t) => Some(t),
            None => None,
        }
    }
}


/// `a / b` rounded up.
pub open spec fn ceil_div(a: int, b: int) -> int {
    (a + b - 1) / b
}

/// Macroblocks in a frame of `width` by `height` pixels whose largest sampling factors are
/// `max_h` and `max_v`: a macroblock covers `8 * max_h` by `8 * max_v` pixels.
pub open spec fn spec_macroblock_count(width: int, height: int, max_h: int, max_v: int) -> int {
    ceil_div(width, 8 * max_h) * ceil_div(height, 8 * max_v)
}

/// The number of macroblocks that cover a `width` by `height` frame.
pub fn macroblock_count(width: u16, height: u16, max_h: u8, max_v: u8) -> (r: u32)
    requires
        max_h >= 1,
        max_v >= 1,
    ensures
        r as int == spec_macroblock_count(width as int, height as int, max_h as int, max_v as int),
{
    let bw: u32 = 8 * (max_h as u32);
    let bh: u32 = 8 * (max_v as u32);
    let cols: u32 = ((width as u32) + bw - 1) / bw;
    let rows: u32 = ((height as u32) + bh - 1) / bh;
    proof {
        let w = width as int + bw - 1;
        let h = height as int + bh - 1;
        assert(w / (bw as int) <= w / 8) by {
            vstd::arithmetic::div_mod::lemma_div_is_ordered_by_denominator(w, 8, bw as int);
        }
        assert(h / (bh as int) <= h / 8) by {
            vstd::arithmetic::div_mod::lemma_div_is_ordered_by_denominator(h, 8, bh as int);
        }
        assert(w / 8 <= 8500);
        assert(h / 8 <= 8500);
        assert(cols <= 8500);
        assert(rows <= 8500);
        assert((cols as int) * (rows as int) <= 8500 * 8500) by (nonlinear_arith)
            requires cols <= 8500, rows <= 8500;
    }
    cols * rows
}

/// One component of a frame.
#[derive(Clone, Copy, PartialEq, Eq, Structural, Debug)]
pub struct FrameComponent {
    pub component_id: u8,
    pub h_sampling_factor: u8,
    pub v_sampling_factor: u8,
    pub quantiser_table_selector: u8,
}

/// The error, if any, for adding `c` to a frame that has `n` components.
pub open spec fn frame_component_error(c: FrameComponent, n: int) -> Option<JpegError> {
    if c.h_sampling_factor < 1 || c.h_sampling_factor > MAX_SAMPLING_FACTOR
        || c.v_sampling_factor < 1 || c.v_sampling_factor > MAX_SAMPLING_FACTOR {
        Some(JpegError::InvalidSamplingFactor)
    } else if c.quantiser_table_selector as usize >= NUM_QUANT_SLOTS {
        Some(JpegError::InvalidTableSlot)
    } else if n >= MAX_FRAME_COMPONENTS {
        Some(JpegError::TooManyComponents)
    } else {
        None
    }
}

/// Largest horizontal sampling factor of the components; 0 when there are none.
pub open spec fn max_h_of(cs: Seq<FrameComponent>) -> int
    decreases cs.len(),
{
    if cs.len() == 0 {
        0
    } else {
        let rest = max_h_of(cs.drop_last());
        let h = cs.last().h_sampling_factor as int;
        if h > rest { h } else { rest }
    }
}

/// Largest vertical sampling factor of the components; 0 when there are none.
pub open spec fn max_v_of(cs: Seq<FrameComponent>) -> int
    decreases cs.len(),
{
    if cs.len() == 0 {
        0
    } else {
        let rest = max_v_of(cs.drop_last());
        let v = cs.last().v_sampling_factor as int;
        if v > rest { v } else { rest }
    }
}

/// The four bytes of a frame component slot; zeros past the last component.
pub open spec fn frame_component_bytes(cs: Seq<FrameComponent>, i: int) -> Seq<u8> {
    if i < cs.len() {
        seq![cs[i].component_id, cs[i].h_sampling_factor, cs[i].v_sampling_factor, cs[i].quantiser_table_selector]
    } else {
        zeros(4)
    }
}

/// The driver layout of the frame parameters: width and height as 16-bit words, 255
/// component slots, the component count, the color space, two bytes that align what
/// follows, and four reserved 32-bit words.
pub open spec fn picture_parameter_bytes(width: u16, height: u16, color_space: u8, cs: Seq<FrameComponent>) -> Seq<u8> {
    le16(width) + le16(height)
        + Seq::new(MAX_FRAME_COMPONENTS as nat, |i: int| frame_component_bytes(cs, i)).flatten()
        + seq![cs.len() as u8, color_space] + zeros(2) + zeros(16)
}

/// Frame-level parameters: geometry, color space and the components.
pub struct PictureParameterBuffer {
    width: u16,
    height: u16,
    color_space: u8,
    components: Vec<FrameComponent>,
    max_h: u8,
    max_v: u8,
}

impl PictureParameterBuffer {
    pub closed spec fn spec_width(&self) -> u16 {
        self.width
    }

    pub closed spec fn spec_height(&self) -> u16 {
        self.height
    }

    pub closed spec fn spec_color_space(&self) -> u8 {
        self.color_space
    }

    pub closed spec fn spec_components(&self) -> Seq<FrameComponent> {
        self.components@
    }

    pub closed spec fn wf(&self) -> bool {
        &&& self.components@.len() <= MAX_FRAME_COMPONENTS
        &&& self.max_h as int == max_h_of(self.components@)
        &&& self.max_v as int == max_v_of(self.components@)
        &&& forall|i: int| 0 <= i < self.components@.len() ==> frame_component_error(
            #[trigger] self.components@[i], 0) is None
    }

    pub fn new(width: u16, height: u16, color_space: u8) -> (r: Self)
        ensures
            r.wf(),
            r.spec_width() == width,
            r.spec_height() == height,
            r.spec_color_space() == color_space,
            r.spec_components().len() == 0,
    {
        PictureParameterBuffer { width, height, color_space, components: Vec::new(), max_h: 0, max_v: 0 }
    }

    /// Appends a component, validating its sampling factors and quantization table slot.
    pub fn add_component(&mut self, c: FrameComponent) -> (r: Result<(), JpegError>)
        requires
            old(self).wf(),
        ensures
            final(self).wf(),
            final(self).spec_width() == old(self).spec_width(),
            final(self).spec_height() == old(self).spec_height(),
            final(self).spec_color_space() == old(self).spec_color_space(),
            frame_component_error(c, old(self).spec_components().len() as int) matches Some(e) ==>
                r == Err::<(), JpegError>(e) && final(self).spec_components() == old(self).spec_components(),
            frame_component_error(c, old(self).spec_components().len() as int) is None ==> r is Ok
                && final(self).spec_components() == old(self).spec_components().push(c),
    {
        if c.h_sampling_factor < 1 || c.h_sampling_factor > MAX_SAMPLING_FACTOR
            || c.v_sampling_factor < 1 || c.v_sampling_factor > MAX_SAMPLING_FACTOR {
            return Err(JpegError::InvalidSamplingFactor);
        }
        if c.quantiser_table_selector as usize >= NUM_QUANT_SLOTS {
            return Err(JpegError::InvalidTableSlot);
        }
        if self.components.len() >= MAX_FRAME_COMPONENTS {
            return Err(JpegError::TooManyComponents);
        }
        let ghost before = self.components@;
        self.components.push(c);
        assert(self.components@.drop_last() =~= before);
        if c.h_sampling_factor > self.max_h {
            self.max_h = c.h_sampling_factor;
        }
        if c.v_sampling_factor > self.max_v {
            self.max_v = c.v_sampling_factor;
        }
        assert forall|i: int| 0 <= i < self.components@.len() implies frame_component_error(
            #[trigger] self.components@[i], 0) is None by {
            if i < before.len() {
                assert(self.components@[i] == before[i]);
            }
        }
        Ok(())
    }

    pub fn width(&self) -> (r: u16)
        ensures
            r == self.spec_width(),
    {
        self.width
    }

    pub fn height(&self) -> (r: u16)
        ensures
            r == self.spec_height(),
    {
        self.height
    }

    pub fn color_space(&self) -> (r: u8)
        ensures
            r == self.spec_color_space(),
    {
        self.color_space
    }

    pub fn components(&self) -> (r: &Vec<FrameComponent>)
        ensures
            r@ == self.spec_components(),
    {
        &self.components
    }

    /// The largest horizontal sampling factor over the components, 0 when there are none.
    pub fn max_h_factor(&self) -> (r: u8)
        requires
            self.wf(),
        ensures
            r as int == max_h_of(self.spec_components()),
    {
        self.max_h
    }

    /// The largest vertical sampling factor over the components, 0 when there are none.
    pub fn max_v_factor(&self) -> (r: u8)
        requires
            self.wf(),
        ensures
            r as int == max_v_of(self.spec_components()),
    {
        self.max_v
    }

    /// The frame parameters in the layout that the driver reads.
    pub fn to_bytes(&self) -> (r: Vec<u8>)
        requires
            self.wf(),
        ensures
            r@ == picture_parameter_bytes(self.spec_width(), self.spec_height(), self.spec_color_space(),
                self.spec_components()),
    {
        let mut out: Vec<u8> = Vec::new();
        push_u16(&mut out, self.width);
        push_u16(&mut out, self.height);
        let ghost head = out@;
        let ghost cs = self.components@;
        let mut i: usize = 0;
        while i < MAX_FRAME_COMPONENTS
            invariant
                self.wf(),
                cs == self.components@,
                0 <= i <= MAX_FRAME_COMPONENTS,
                out@ == head + Seq::new(i as nat, |j: int| frame_component_bytes(cs, j)).flatten(),
            decreases MAX_FRAME_COMPONENTS - i,
        {
            let ghost before = out@;
            if i < self.components.len() {
                let c = self.components[i];
                out.push(c.component_id);
                out.push(c.h_sampling_factor);
                out.push(c.v_sampling_factor);
                out.push(c.quantiser_table_selector);
            } else {
                push_zeros(&mut out, 4);
            }
            assert(out@ =~= before + frame_component_bytes(cs, i as int));
            proof {
                let f = |j: int| frame_component_bytes(cs, j);
                let a = Seq::new(i as nat, f);
                assert(Seq::new((i + 1) as nat, f) =~= a.push(f(i as int)));
                a.lemma_flatten_push(f(i as int));
                assert(out@ =~= head + Seq::new((i + 1) as nat, f).flatten());
            }
            i += 1;
        }
        out.push(self.components.len() as u8);
        out.push(self.color_space);
        push_zeros(&mut out, 2);
        push_zeros(&mut out, 16);
        assert(out@ =~= picture_parameter_bytes(self.spec_width(), self.spec_height(), self.spec_color_space(),
            self.spec_components()));
        out
    }

    /// The number of macroblocks of the frame; `None` when it has no components.
    pub fn macroblock_count(&self) -> (r: Option<u32>)
        requires
            self.wf(),
        ensures
            self.spec_components().len() == 0 ==> r is None,
            self.spec_components().len() > 0 ==> (r matches Some(n) && n as int == spec_macroblock_count(
                self.spec_width() as int,
                self.spec_height() as int,
                max_h_of(self.spec_components()),
                max_v_of(self.spec_components()),
            )),
    {
        if self.components.len() == 0 {
            return None;
        }
        proof {
            lemma_max_positive(self.components@);
        }
        Some(macroblock_count(self.width, self.height, self.max_h, self.max_v))
    }
}

proof fn lemma_max_positive(cs: Seq<FrameComponent>)
    requires
        cs.len() > 0,
        forall|i: int| 0 <= i < cs.len() ==> frame_component_error(#[trigger] cs[i], 0) is None,
    ensures
        max_h_of(cs) >= 1,
        max_v_of(cs) >= 1,
    decreases cs.len(),
{
    assert(frame_component_error(cs[cs.len() - 1], 0) is None);
}


/// One component of a scan, with the entropy tables it is coded with.
#[derive(Clone, Copy, PartialEq, Eq, Structural, Debug)]
pub struct ScanComponent {
    pub component_selector: u8,
    pub dc_table_selector: u8,
    pub ac_table_selector: u8,
}

/// Whether a frame component has the identifier `id`.
pub open spec fn has_component(frame: Seq<FrameComponent>, id: u8) -> bool {
    exists|i: int| 0 <= i < frame.len() && (#[trigger] frame[i]).component_id == id
}

/// The error, if any, of one scan component against the frame's components.
pub open spec fn scan_component_error(c: ScanComponent, frame: Seq<FrameComponent>) -> Option<JpegError> {
    if !has_component(frame, c.component_selector) {
        Some(JpegError::UnknownComponent)
    } else if c.dc_table_selector as usize >= NUM_HUFFMAN_SLOTS || c.ac_table_selector as usize
        >= NUM_HUFFMAN_SLOTS {
        Some(JpegError::InvalidTableDestination)
    } else {
        None
    }
}

/// The error of the first scan component that has one.
pub open spec fn first_scan_error(scan: Seq<ScanComponent>, frame: Seq<FrameComponent>) -> Option<JpegError>
    decreases scan.len(),
{
    if scan.len() == 0 {
        None
    } else {
        match first_scan_error(scan.drop_last(), frame) {
            Some(e) => Some(e),
            None => scan_component_error(scan.last(), frame),
        }
    }
}

/// The error, if any, of building slice parameters for the entropy-coded bytes from
/// `data_start` up to `data_end`.
pub open spec fn slice_error(
    frame: Seq<FrameComponent>,
    data_start: int,
    data_end: int,
    scan: Seq<ScanComponent>,
) -> Option<JpegError> {
    if data_end < data_start || data_end - data_start > u32::MAX {
        Some(JpegError::InvalidDataRange)
    } else if frame.len() == 0 {
        Some(JpegError::NoComponents)
    } else if scan.len() > MAX_SCAN_COMPONENTS {
        Some(JpegError::TooManyComponents)
    } else {
        first_scan_error(scan, frame)
    }
}

/// The three bytes of a scan component slot; zeros past the last component.
pub open spec fn scan_component_bytes(cs: Seq<ScanComponent>, i: int) -> Seq<u8> {
    if i < cs.len() {
        seq![cs[i].component_selector, cs[i].dc_table_selector, cs[i].ac_table_selector]
    } else {
        zeros(3)
    }
}

/// The driver layout of the slice parameters: the three words of the slice data, the
/// slice's horizontal and vertical position as 32-bit words, four scan component slots, the
/// component count, a byte of padding, the restart interval as a 16-bit word, the macroblock
/// count as a 32-bit word, and four reserved 32-bit words.
pub open spec fn slice_parameter_bytes(
    base: SliceParameterBufferBase,
    position: (u32, u32),
    cs: Seq<ScanComponent>,
    restart_interval: u16,
    num_mcus: u32,
) -> Seq<u8> {
    le32(base.spec_size()) + le32(base.spec_offset()) + le32(base.spec_flags().spec_bits())
        + le32(position.0) + le32(position.1)
        + Seq::new(MAX_SCAN_COMPONENTS as nat, |i: int| scan_component_bytes(cs, i)).flatten()
        + seq![cs.len() as u8] + zeros(1) + le16(restart_interval) + le32(num_mcus) + zeros(16)
}

/// Parameters of one slice: where its data lies, its scan components, its restart interval
/// and how many macroblocks it covers.
pub struct SliceParameterBuffer {
    base: SliceParameterBufferBase,
    slice_horizontal_position: u32,
    slice_vertical_position: u32,
    components: Vec<ScanComponent>,
    restart_interval: u16,
    num_mcus: u32,
}

impl SliceParameterBuffer {
    pub closed spec fn spec_base(&self) -> SliceParameterBufferBase {
        self.base
    }

    pub closed spec fn spec_position(&self) -> (u32, u32) {
        (self.slice_horizontal_position, self.slice_vertical_position)
    }

    pub closed spec fn spec_components(&self) -> Seq<ScanComponent> {
        self.components@
    }

    pub closed spec fn spec_restart_interval(&self) -> u16 {
        self.restart_interval
    }

    pub closed spec fn spec_num_mcus(&self) -> u32 {
        self.num_mcus
    }

    pub closed spec fn wf(&self) -> bool {
        self.components@.len() <= MAX_SCAN_COMPONENTS
    }

    /// The slice parameters in the layout that the driver reads.
    pub fn to_bytes(&self) -> (r: Vec<u8>)
        requires
            self.wf(),
        ensures
            r@ == slice_parameter_bytes(self.spec_base(), self.spec_position(), self.spec_components(),
                self.spec_restart_interval(), self.spec_num_mcus()),
    {
        let mut out: Vec<u8> = Vec::new();
        push_u32(&mut out, self.base.slice_data_size());
        push_u32(&mut out, self.base.slice_data_offset());
        push_u32(&mut out, self.base.slice_data_flags().bits());
        push_u32(&mut out, self.slice_horizontal_position);
        push_u32(&mut out, self.slice_vertical_position);
        let ghost head = out@;
        let ghost cs = self.components@;
        let mut i: usize = 0;
        while i < MAX_SCAN_COMPONENTS
            invariant
                cs == self.components@,
                0 <= i <= MAX_SCAN_COMPONENTS,
                out@ == head + Seq::new(i as nat, |j: int| scan_component_bytes(cs, j)).flatten(),
            decreases MAX_SCAN_COMPONENTS - i,
        {
            let ghost before = out@;
            if i < self.components.len() {
                let c = self.components[i];
                out.push(c.component_selector);
                out.push(c.dc_table_selector);
                out.push(c.ac_table_selector);
            } else {
                push_zeros(&mut out, 3);
            }
            assert(out@ =~= before + scan_component_bytes(cs, i as int));
            proof {
                let f = |j: int| scan_component_bytes(cs, j);
                let a = Seq::new(i as nat, f);
                assert(Seq::new((i + 1) as nat, f) =~= a.push(f(i as int)));
                a.lemma_flatten_push(f(i as int));
                assert(out@ =~= head + Seq::new((i + 1) as nat, f).flatten());
            }
            i += 1;
        }
        out.push(self.components.len() as u8);
        push_zeros(&mut out, 1);
        push_u16(&mut out, self.restart_interval);
        push_u32(&mut out, self.num_mcus);
        push_zeros(&mut out, 16);
        assert(out@ =~= slice_parameter_bytes(self.spec_base(), self.spec_position(), self.spec_components(),
            self.spec_restart_interval(), self.spec_num_mcus()));
        out
    }

    pub fn base(&self) -> (r: SliceParameterBufferBase)
        ensures
            r == self.spec_base(),
    {
        self.base
    }

    pub fn slice_horizontal_position(&self) -> (r: u32)
        ensures
            r == self.spec_position().0,
    {
        self.slice_horizontal_position
    }

    pub fn slice_vertical_position(&self) -> (r: u32)
        ensures
            r == self.spec_position().1,
    {
        self.slice_vertical_position
    }

    pub fn components(&self) -> (r: &Vec<ScanComponent>)
        ensures
            r@ == self.spec_components(),
    {
        &self.components
    }

    pub fn restart_interval(&self) -> (r: u16)
        ensures
            r == self.spec_restart_interval(),
    {
        self.restart_interval
    }

    pub fn num_mcus(&self) -> (r: u32)
        ensures
            r == self.spec_num_mcus(),
    {
        self.num_mcus
    }
}

fn has_component_exec(frame: &Vec<FrameComponent>, id: u8) -> (r: bool)
    ensures
        r == has_component(frame@, id),
{
    let mut i: usize = 0;
    while i < frame.len()
        invariant
            0 <= i <= frame@.len(),
            forall|j: int| 0 <= j < i ==> (#[trigger] frame@[j]).component_id != id,
        decreases frame@.len() - i,
    {
        if frame[i].component_id == id {
            return true;
        }
        i += 1;
    }
    false
}

proof fn lemma_first_scan_error_prefix(scan: Seq<ScanComponent>, frame: Seq<FrameComponent>, i: int)
    requires
        0 <= i < scan.len(),
        first_scan_error(scan.take(i), frame) is None,
    ensures
        first_scan_error(scan.take(i + 1), frame) == scan_component_error(scan[i], frame),
{
    assert(scan.take(i + 1).drop_last() =~= scan.take(i));
}

/// Builds the parameters of the one slice that holds the entropy-coded bytes from
/// `data_start` up to `data_end` of the bitstream, decoded with `scan`'s tables.
///
/// The slice starts at the first macroblock and covers all macroblocks of the frame.
pub fn build_slice_parameters(
    frame: &PictureParameterBuffer,
    data_start: usize,
    data_end: usize,
    restart_interval: u16,
    scan: &Vec<ScanComponent>,
) -> (r: Result<SliceParameterBuffer, JpegError>)
    requires
        frame.wf(),
    ensures
        slice_error(frame.spec_components(), data_start as int, data_end as int, scan@) matches Some(e)
            ==> r == Err::<SliceParameterBuffer, JpegError>(e),
        slice_error(frame.spec_components(), data_start as int, data_end as int, scan@) is None ==> (r matches Ok(p) && {
            &&& p.wf()
            &&& p.spec_base().spec_size() == data_end - data_start
            &&& p.spec_base().spec_offset() == 0
            &&& p.spec_base().spec_flags().spec_bits() == crate::shared::SliceDataFlags::ALL
            &&& p.spec_position() == (0u32, 0u32)
            &&& p.spec_components() == scan@
            &&& p.spec_restart_interval() == restart_interval
            &&& p.spec_num_mcus() as int == spec_macroblock_count(
                frame.spec_width() as int,
                frame.spec_height() as int,
                max_h_of(frame.spec_components()),
                max_v_of(frame.spec_components()),
            )
        }),
{
    if data_end < data_start || data_end - data_start > 0xffff_ffff {
        return Err(JpegError::InvalidDataRange);
    }
    let num_mcus = match frame.macroblock_count() {
        Some(n) => n,
        None => {
            return Err(JpegError::NoComponents);
        },
    };
    if scan.len() > MAX_SCAN_COMPONENTS {
        return Err(JpegError::TooManyComponents);
    }
    assert(slice_error(frame.spec_components(), data_start as int, data_end as int, scan@)
        == first_scan_error(scan@, frame.spec_components()));
    let mut components: Vec<ScanComponent> = Vec::new();
    let mut i: usize = 0;
    assert(scan@.take(0).len() == 0);
    while i < scan.len()
        invariant
            frame.wf(),
            0 <= i <= scan@.len(),
            slice_error(frame.spec_components(), data_start as int, data_end as int, scan@)
                == first_scan_error(scan@, frame.spec_components()),
            first_scan_error(scan@.take(i as int), frame.spec_components()) is None,
            components@ == scan@.take(i as int),
        decreases scan@.len() - i,
    {
        let c = scan[i];
        proof {
            lemma_first_scan_error_prefix(scan@, frame.spec_components(), i as int);
        }
        if !has_component_exec(frame.components(), c.component_selector) {
            proof {
                lemma_first_scan_error_extends(scan@, frame.spec_components(), i as int + 1);
            }
            return Err(JpegError::UnknownComponent);
        }
        if c.dc_table_selector as usize >= NUM_HUFFMAN_SLOTS || c.ac_table_selector as usize >= NUM_HUFFMAN_SLOTS {
            proof {
                lemma_first_scan_error_extends(scan@, frame.spec_components(), i as int + 1);
            }
            return Err(JpegError::InvalidTableDestination);
        }
        components.push(c);
        i += 1;
        assert(components@ =~= scan@.take(i as int));
    }
    assert(scan@.take(scan@.len() as int) =~= scan@);
    let size = (data_end - data_start) as u32;
    Ok(SliceParameterBuffer {
        base: SliceParameterBufferBase::new(size),
        slice_horizontal_position: 0,
        slice_vertical_position: 0,
        components,
        restart_interval,
        num_mcus,
    })
}

/// Once a prefix of the scan has an error, the whole scan has that error.
proof fn lemma_first_scan_error_extends(scan: Seq<ScanComponent>, frame: Seq<FrameComponent>, i: int)
    requires
        0 <= i <= scan.len(),
        first_scan_error(scan.take(i), frame) is Some,
    ensures
        first_scan_error(scan, frame) == first_scan_error(scan.take(i), frame),
    decreases scan.len() - i,
{
    if i < scan.len() {
        assert(scan.take(i + 1).drop_last() =~= scan.take(i));
        lemma_first_scan_error_extends(scan, frame, i + 1);
    } else {
        assert(scan.take(i) =~= scan);
    }
}

/// The buffers of one decode, in the order the driver expects them: entropy tables,
/// quantization tables, frame parameters, slice parameters and the slice's entropy-coded
/// bytes. `None` when `slice_data` is not as long as the slice parameters say.
pub fn decode_buffers(
    huffman: &HuffmanTableBuffer,
    iq: &IqMatrixBuffer,
    picture: &PictureParameterBuffer,
    slice: &SliceParameterBuffer,
    slice_data: &[u8],
) -> (r: Option<Vec<(BufferType, Vec<u8>)>>)
    requires
        huffman.wf(),
        iq.wf(),
        picture.wf(),
        slice.wf(),
    ensures
        slice_data@.len() != slice.spec_base().spec_size() ==> r is None,
        slice_data@.len() == slice.spec_base().spec_size() ==> (r matches Some(v) && {
            &&& v@.len() == 5
            &&& v@[0].0 == BufferType::HuffmanTable
            &&& v@[0].1@ == huffman_table_bytes(huffman@)
            &&& v@[1].0 == BufferType::IQMatrix
            &&& v@[1].1@ == iq_matrix_bytes(iq@)
            &&& v@[2].0 == BufferType::PictureParameter
            &&& v@[2].1@ == picture_parameter_bytes(picture.spec_width(), picture.spec_height(),
                picture.spec_color_space(), picture.spec_components())
            &&& v@[3].0 == BufferType::SliceParameter
            &&& v@[3].1@ == slice_parameter_bytes(slice.spec_base(), slice.spec_position(),
                slice.spec_components(), slice.spec_restart_interval(), slice.spec_num_mcus())
            &&& v@[4].0 == BufferType::SliceData
            &&& v@[4].1@ == slice_data@
        }),
{
    if slice_data.len() != slice.base.slice_data_size() as usize {
        return None;
    }
    let mut data: Vec<u8> = Vec::new();
    push_bytes(&mut data, slice_data);
    let mut v: Vec<(BufferType, Vec<u8>)> = Vec::new();
    v.push((BufferType::HuffmanTable, huffman.to_bytes()));
    v.push((BufferType::IQMatrix, iq.to_bytes()));
    v.push((BufferType::PictureParameter, picture.to_bytes()));
    v.push((BufferType::SliceParameter, slice.to_bytes()));
    v.push((BufferType::SliceData, data));
    Some(v)
}

proof fn lemma_flatten4(a: Seq<u8>, b: Seq<u8>, c: Seq<u8>, d: Seq<u8>)
    ensures
        seq![a, b, c, d].flatten() == a + b + c + d,
{
    let s = seq![a, b, c, d];
    assert(seq![a].flatten() =~= a) by {
        assert(seq![a] =~= Seq::<Seq<u8>>::empty().push(a));
        Seq::<Seq<u8>>::empty().lemma_flatten_push(a);
    }
    assert(seq![a, b] =~= seq![a].push(b));
    seq![a].lemma_flatten_push(b);
    assert(seq![a, b, c] =~= seq![a, b].push(c));
    seq![a, b].lemma_flatten_push(c);
    assert(s =~= seq![a, b, c].push(d));
    seq![a, b, c].lemma_flatten_push(d);
    assert(s.flatten() =~= a + b + c + d);
}

/// Quantization tables survive storing: after a table is set at a valid slot, reading that
/// slot gives it back unchanged and every other slot is as before.
pub proof fn lemma_quantization_slot(before: Seq<Option<[u8; 64]>>, slot: u8, values: [u8; 64], other: int)
    requires
        before.len() == NUM_QUANT_SLOTS,
        (slot as usize) < NUM_QUANT_SLOTS,
        0 <= other < NUM_QUANT_SLOTS,
        other != slot,
    ensures
        before.update(slot as int, Some(values))[slot as int] == Some(values),
        before.update(slot as int, Some(values))[other] == before[other],
{
}

/// Entropy tables by slot: every slot at or beyond the slot count is refused for both
/// classes, whatever the table; a valid slot with a table that fits is accepted, and
/// reading it back gives the stored code counts and values unchanged while the other
/// tables stay as they were.
pub proof fn lemma_entropy_slot(
    before: Seq<Option<(Seq<u8>, Seq<u8>)>>,
    class: u8,
    slot: u8,
    lengths: Seq<u8>,
    values: Seq<u8>,
    other: int,
)
    requires
        before.len() == 2 * NUM_HUFFMAN_SLOTS,
        class == CLASS_DC || class == CLASS_AC,
        0 <= other < 2 * NUM_HUFFMAN_SLOTS,
    ensures
        slot as usize >= NUM_HUFFMAN_SLOTS ==> entropy_table_error(class, slot, values.len() as int) == Some(
            JpegError::InvalidTableDestination),
        (slot as usize) < NUM_HUFFMAN_SLOTS && values.len() <= value_capacity(class) ==> {
            &&& entropy_table_error(class, slot, values.len() as int) is None
            &&& 0 <= entropy_index(class, slot) < 2 * NUM_HUFFMAN_SLOTS
            &&& before.update(entropy_index(class, slot), Some((lengths, values)))[entropy_index(class, slot)]
                == Some((lengths, values))
            &&& other != entropy_index(class, slot) ==> before.update(
                entropy_index(class, slot),
                Some((lengths, values)),
            )[other] == before[other]
        },
{
}

/// A frame of at most 16 by 16 pixels whose largest sampling factors are 2 by 2 fits in
/// one macroblock.
pub proof fn lemma_one_macroblock(width: int, height: int)
    requires
        1 <= width <= 16,
        1 <= height <= 16,
    ensures
        spec_macroblock_count(width, height, 2, 2) == 1,
{
    assert(ceil_div(width, 16) == 1);
    assert(ceil_div(height, 16) == 1);
}

} // verus!
