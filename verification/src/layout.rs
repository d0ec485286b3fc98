//! Data-driven bit-field codec.
//!
//! A register layout is a plain value: an ordered list of field
//! descriptors, most significant field first, each giving the field's bit
//! offset, bit width, access capability and reset constant. One generic
//! engine packs a list of raw sub-values into the register byte
//! ([`encode_fields`]) and unpacks a register byte into the sub-values
//! ([`decode_fields`]), for any well-formed layout.
//!
//! Well-formedness ([`RegisterLayout::wf`]) asks the fields to tile the
//! eight register bits exactly: each field starts where the previous one
//! ended, the first field ends at bit 8 and the last starts at bit 0.
//! Reserved spans are explicit fields tagged [`FieldAccess::Reserved`];
//! encoding forces them to their fixed constant and decoding discards
//! whatever the raw byte holds in them.
//!
//! The round-trip laws are proven for every well-formed layout:
//! decoding an encoded value list restores the list
//! ([`lemma_layout_decode_encode`]), and encoding a decoded byte restores
//! the byte whenever its reserved bits sit at their fixed constants
//! ([`lemma_layout_encode_decode`]).

use vstd::arithmetic::div_mod::{
    lemma_breakdown, lemma_fundamental_div_mod, lemma_fundamental_div_mod_converse_div,
    lemma_mod_division_less_than_divisor, lemma_mod_multiples_vanish, lemma_small_mod,
};
use vstd::arithmetic::mul::{
    lemma_mul_inequality, lemma_mul_is_associative, lemma_mul_is_commutative,
    lemma_mul_is_distributive_add_other_way, lemma_mul_is_distributive_sub_other_way,
    lemma_mul_upper_bound,
};
use vstd::arithmetic::power2::{lemma2_to64, lemma_pow2_adds, lemma_pow2_pos, pow2};
use vstd::prelude::*;

verus! {

/// Every occurrence of `x / d` or `x % d` with a positive divisor carries
/// the Euclidean division identity and the remainder bounds.
pub broadcast proof fn lemma_div_mod_split(x: int, d: int)
    requires
        0 < d,
    ensures
        #![trigger x / d]
        #![trigger x % d]
        x == d * (x / d) + x % d,
        0 <= x % d < d,
        0 <= x ==> 0 <= x / d,
{
    lemma_fundamental_div_mod(x, d);
    lemma_mod_division_less_than_divisor(x, d);
    if 0 <= x {
        vstd::arithmetic::div_mod::lemma_div_pos_is_pos(x, d);
    }
}

/// The sub-value `mid` placed at place value `place` between higher bits
/// `hi` and lower bits `lo` is recovered by dividing by its place value
/// and reducing by its span.
pub proof fn lemma_extract_sum(v: int, hi: int, mid: int, lo: int, place: int, span: int)
    requires
        0 < place,
        0 < span,
        0 <= lo < place,
        0 <= mid < span,
        0 <= hi,
        v == (hi * span + mid) * place + lo,
    ensures
        (v / place) % span == mid,
{
    lemma_fundamental_div_mod_converse_div(v, place, hi * span + mid, lo);
    lemma_mul_is_commutative(hi, span);
    lemma_mod_multiples_vanish(hi, mid, span);
    lemma_small_mod(mid as nat, span as nat);
}

/// The bits of `v` below `place * span` split into the sub-value of span
/// `span` at place value `place` and the bits below `place`.
pub proof fn lemma_split_bits(v: int, place: int, span: int)
    requires
        0 <= v,
        0 < place,
        0 < span,
    ensures
        v % (place * span) == ((v / place) % span) * place + v % place,
{
    lemma_breakdown(v, place, span);
    lemma_mul_is_commutative(place, (v / place) % span);
}

/// Access capability of one bit-field within a register.
#[derive(Debug, Clone, Copy, PartialEq, Eq, Structural)]
pub enum FieldAccess {
    /// The field reflects live hardware state; it decodes normally and a
    /// full register image may still be assembled over it.
    ReadOnly,
    /// The field is freely readable and writable.
    ReadWrite,
    /// The field may be written but never decoded; requesting its decoded
    /// value is a capability violation.
    WriteOnly,
    /// The span carries no field: the hardware holds it at a fixed
    /// constant. Encoding forces the constant and decoding discards the
    /// raw bits.
    Reserved,
}

/// A capability violation: an operation was requested that the register
/// map denies statically.
#[derive(Debug, Clone, Copy, PartialEq, Eq, Structural)]
pub enum CapabilityError {
    /// A decoded value was requested of a write-only field.
    DecodeOfWriteOnly,
    /// A write operation was requested against a read-only register.
    WriteToReadOnly,
}

/// One field of a register layout. `bit_offset` is the position of the
/// field's least significant bit within the register byte; the field spans
/// bits `bit_offset .. bit_offset + bit_width`. `reset` is the field's
/// default raw sub-value; for a [`FieldAccess::Reserved`] span it is the
/// fixed constant the hardware holds the bits at.
#[derive(Debug, Clone, Copy, PartialEq, Eq, Structural)]
pub struct FieldDescriptor {
    /// Position of the field's least significant bit.
    pub bit_offset: u8,
    /// Number of bits in the field.
    pub bit_width: u8,
    /// Access capability of the field.
    pub access: FieldAccess,
    /// Default raw sub-value of the field.
    pub reset: u8,
}

impl FieldDescriptor {
    /// The descriptor fits a single eight-bit register and its reset value
    /// fits the field.
    pub open spec fn wf(self) -> bool {
        &&& 1 <= self.bit_width
        &&& self.bit_offset + self.bit_width <= 8
        &&& self.reset < pow2(self.bit_width as nat)
    }

    /// The raw sub-value this field's span holds in `raw`, as a plain
    /// integer.
    pub open spec fn spec_extract_int(self, raw: int) -> int {
        (raw / pow2(self.bit_offset as nat) as int) % pow2(self.bit_width as nat) as int
    }

    /// The raw sub-value this field's span holds in the register byte
    /// `raw`.
    pub open spec fn spec_extract(self, raw: u8) -> u8 {
        self.spec_extract_int(raw as int) as u8
    }

    /// The decoded sub-value of this field: the extracted span, except
    /// that a reserved span decodes to its fixed constant whatever the raw
    /// byte holds there.
    pub open spec fn spec_decode(self, raw: u8) -> u8 {
        if self.access is Reserved {
            self.reset
        } else {
            self.spec_extract(raw)
        }
    }

    /// The contribution of this field to an encoded register byte, given
    /// the sub-value `value`: a reserved span is forced to its constant,
    /// any other field contributes `value` shifted to its offset.
    pub open spec fn spec_contribution(self, value: u8) -> int {
        (if self.access is Reserved {
            self.reset as int
        } else {
            value as int
        }) * pow2(self.bit_offset as nat) as int
    }

    /// Extraction stays within the field's width.
    pub proof fn lemma_extract_int_range(self, raw: int)
        ensures
            0 <= self.spec_extract_int(raw) < pow2(self.bit_width as nat),
    {
        broadcast use lemma_div_mod_split;

        lemma_pow2_pos(self.bit_offset as nat);
        lemma_pow2_pos(self.bit_width as nat);
    }
}

/// The fields tile the bit range `bottom .. top` exactly, most significant
/// field first: the first field ends at `top`, each field starts where the
/// next one ends, and the last field starts at `bottom`.
pub open spec fn spec_tiles(fields: Seq<FieldDescriptor>, top: int, bottom: int) -> bool
    decreases fields.len(),
{
    if fields.len() == 0 {
        top == bottom
    } else {
        &&& fields[0].wf()
        &&& fields[0].bit_offset + fields[0].bit_width == top
        &&& spec_tiles(fields.skip(1), fields[0].bit_offset as int, bottom)
    }
}

/// An ordered sequence of field descriptors covering one eight-bit
/// register, most significant field first.
#[derive(Debug)]
pub struct RegisterLayout {
    /// The field descriptors, most significant field first.
    pub fields: Vec<FieldDescriptor>,
}

impl RegisterLayout {
    /// The layout is well formed: its fields tile all eight register bits.
    pub open spec fn wf(self) -> bool {
        spec_tiles(self.fields@, 8, 0)
    }

    /// No field of the layout is write-only, so the whole register may be
    /// decoded.
    pub open spec fn spec_readable(self) -> bool {
        forall|i: int|
            0 <= i < self.fields@.len() ==> !(#[trigger] self.fields@[i].access is WriteOnly)
    }

    /// The decoded sub-values of all fields of the register byte `raw`, in
    /// layout order.
    pub open spec fn spec_decode(self, raw: u8) -> Seq<u8> {
        Seq::new(self.fields@.len(), |i: int| self.fields@[i].spec_decode(raw))
    }

    /// `values` is a representable list of sub-values for this layout: one
    /// value per field, each fitting its field's width, and each reserved
    /// span holding its fixed constant.
    pub open spec fn spec_values_ok(self, values: Seq<u8>) -> bool {
        spec_values_fit(self.fields@, values)
    }

    /// The register byte encoding the sub-values `values` under this
    /// layout.
    pub open spec fn spec_encode(self, values: Seq<u8>) -> int {
        spec_encode_fields(self.fields@, values)
    }

    /// Every reserved span of the register byte `raw` sits at its fixed
    /// constant.
    pub open spec fn spec_reserved_at_reset(self, raw: u8) -> bool {
        forall|i: int|
            0 <= i < self.fields@.len() && (#[trigger] self.fields@[i].access) is Reserved
                ==> self.fields@[i].spec_extract(raw) == self.fields@[i].reset
    }
}

/// One sub-value per field, each fitting its field's width, and each
/// reserved span holding its fixed constant.
pub open spec fn spec_values_fit(fields: Seq<FieldDescriptor>, values: Seq<u8>) -> bool {
    &&& values.len() == fields.len()
    &&& forall|i: int|
        0 <= i < values.len() ==> (#[trigger] values[i]) < pow2(fields[i].bit_width as nat)
    &&& forall|i: int|
        0 <= i < values.len() && (#[trigger] fields[i].access) is Reserved ==> values[i]
            == fields[i].reset
}

/// The encoded register value of the sub-values `values` under the field
/// list `fields`: the sum of every field's contribution.
pub open spec fn spec_encode_fields(fields: Seq<FieldDescriptor>, values: Seq<u8>) -> int
    decreases fields.len(),
{
    if fields.len() == 0 {
        0
    } else {
        fields[0].spec_contribution(values[0]) + spec_encode_fields(fields.skip(1), values.skip(1))
    }
}

/// Dropping the leading field keeps the remaining sub-values fitting the
/// remaining fields.
proof fn lemma_values_fit_skip(fields: Seq<FieldDescriptor>, values: Seq<u8>)
    requires
        spec_values_fit(fields, values),
        fields.len() > 0,
    ensures
        spec_values_fit(fields.skip(1), values.skip(1)),
{
    assert forall|i: int| 0 <= i < values.skip(1).len() implies (#[trigger] values.skip(1)[i])
        < pow2(fields.skip(1)[i].bit_width as nat) by {
        assert(values.skip(1)[i] == values[i + 1]);
    }
    assert forall|i: int|
        0 <= i < values.skip(1).len() && (#[trigger] fields.skip(1)[i].access) is Reserved implies
        values.skip(1)[i] == fields.skip(1)[i].reset by {
        assert(fields.skip(1)[i] == fields[i + 1]);
        assert(values.skip(1)[i] == values[i + 1]);
    }
}

/// Two raised to any exponent up to eight is at most 256.
proof fn lemma_pow2_le_256(e: nat)
    requires
        e <= 8,
    ensures
        pow2(e) <= 256,
{
    lemma2_to64();
    if e < 8 {
        vstd::arithmetic::power2::lemma_pow2_strictly_increases(e, 8);
    }
}

/// The encoded value of a tiled field list occupies only the tiled bit
/// range: it is nonnegative and at most `pow2(top) - pow2(bottom)`.
proof fn lemma_encode_fields_range(
    fields: Seq<FieldDescriptor>,
    values: Seq<u8>,
    top: int,
    bottom: int,
)
    requires
        spec_tiles(fields, top, bottom),
        spec_values_fit(fields, values),
        0 <= bottom,
    ensures
        0 <= spec_encode_fields(fields, values) <= pow2(top as nat) - pow2(bottom as nat),
    decreases fields.len(),
{
    lemma_pow2_pos(bottom as nat);
    if fields.len() == 0 {
    } else {
        let f0 = fields[0];
        let off0 = f0.bit_offset as nat;
        let w0 = f0.bit_width as nat;
        let p_off = pow2(off0) as int;
        let p_w = pow2(w0) as int;
        let u0 = if f0.access is Reserved {
            f0.reset as int
        } else {
            values[0] as int
        };
        lemma_values_fit_skip(fields, values);
        lemma_encode_fields_range(fields.skip(1), values.skip(1), off0 as int, bottom);
        lemma_pow2_pos(off0);
        lemma_pow2_pos(w0);
        assert(0 <= u0 < p_w);
        vstd::arithmetic::mul::lemma_mul_nonnegative(u0, p_off);
        lemma_mul_inequality(u0, p_w - 1, p_off);
        lemma_mul_is_distributive_sub_other_way(p_off, p_w, 1);
        lemma_pow2_adds(off0, w0);
        lemma_mul_is_commutative(p_w, p_off);
        assert(f0.spec_contribution(values[0]) == u0 * p_off);
        assert(u0 * p_off <= (p_w - 1) * p_off == p_w * p_off - p_off == pow2(top as nat) - p_off);
    }
}

/// Extracting any field of a tiled list from its encoded value — below
/// arbitrary higher bits `hi * pow2(top)` — yields exactly the sub-value
/// that was encoded (the fixed constant for a reserved span).
proof fn lemma_extract_of_encode(
    fields: Seq<FieldDescriptor>,
    values: Seq<u8>,
    top: int,
    bottom: int,
    hi: int,
    i: int,
)
    requires
        spec_tiles(fields, top, bottom),
        spec_values_fit(fields, values),
        0 <= bottom,
        0 <= hi,
        0 <= i < fields.len(),
    ensures
        fields[i].spec_extract_int(hi * pow2(top as nat) + spec_encode_fields(fields, values)) == (
        if fields[i].access is Reserved {
            fields[i].reset as int
        } else {
            values[i] as int
        }),
    decreases i,
{
    let f0 = fields[0];
    let off0 = f0.bit_offset as nat;
    let w0 = f0.bit_width as nat;
    let p_top = pow2(top as nat) as int;
    let p_off = pow2(off0) as int;
    let p_w = pow2(w0) as int;
    let u0 = if f0.access is Reserved {
        f0.reset as int
    } else {
        values[0] as int
    };
    let rest = spec_encode_fields(fields.skip(1), values.skip(1));
    let x = hi * p_top + spec_encode_fields(fields, values);
    lemma_values_fit_skip(fields, values);
    lemma_encode_fields_range(fields.skip(1), values.skip(1), off0 as int, bottom);
    lemma_pow2_pos(bottom as nat);
    lemma_pow2_pos(off0);
    lemma_pow2_pos(w0);
    lemma_pow2_adds(off0, w0);
    let hi2 = hi * p_w + u0;
    assert(hi * p_top == (hi * p_w) * p_off) by {
        lemma_mul_is_commutative(p_off, p_w);
        lemma_mul_is_associative(hi, p_w, p_off);
    }
    assert(hi2 * p_off == (hi * p_w) * p_off + u0 * p_off) by {
        lemma_mul_is_distributive_add_other_way(p_off, hi * p_w, u0);
    }
    assert(x == hi2 * p_off + rest);
    vstd::arithmetic::mul::lemma_mul_nonnegative(hi, p_w);
    if i == 0 {
        assert(0 <= rest < p_off);
        lemma_fundamental_div_mod_converse_div(x, p_off, hi2, rest);
        assert(x / p_off == hi2);
        assert(hi2 == p_w * hi + u0) by {
            lemma_mul_is_commutative(hi, p_w);
        }
        lemma_mod_multiples_vanish(hi, u0, p_w);
        lemma_small_mod(u0 as nat, p_w as nat);
        assert(hi2 % p_w == u0);
    } else {
        lemma_extract_of_encode(fields.skip(1), values.skip(1), off0 as int, bottom, hi2, i - 1);
        assert(fields.skip(1)[i - 1] == fields[i]);
        assert(values.skip(1)[i - 1] == values[i]);
    }
}

/// Law: decoding an encoded register byte restores every sub-value.
/// For any well-formed layout and any representable list of sub-values,
/// the encoded byte fits eight bits and decodes back to the exact list.
pub proof fn lemma_layout_decode_encode(layout: RegisterLayout, values: Seq<u8>)
    requires
        layout.wf(),
        layout.spec_values_ok(values),
    ensures
        0 <= layout.spec_encode(values) < 256,
        layout.spec_decode(layout.spec_encode(values) as u8) == values,
    decreases layout.fields@.len(),
{
    lemma2_to64();
    lemma_encode_fields_range(layout.fields@, values, 8, 0);
    let raw = layout.spec_encode(values) as u8;
    assert forall|i: int| 0 <= i < values.len() implies layout.spec_decode(raw)[i] == values[i] by {
        let f = layout.fields@[i];
        lemma_extract_of_encode(layout.fields@, values, 8, 0, 0, i);
        assert(0 * pow2(8) == 0) by {
            vstd::arithmetic::mul::lemma_mul_basics_2(pow2(8) as int);
        }
        f.lemma_extract_int_range(raw as int);
        lemma_tiles_field_wf(layout.fields@, 8, 0, i);
        lemma_pow2_le_256(f.bit_width as nat);
    }
    assert(layout.spec_decode(raw) =~= values);
}

/// Encoding the extracted sub-values of a tiled field list reproduces the
/// bits of `raw` between `bottom` and `top`, provided every reserved span
/// of `raw` sits at its fixed constant.
proof fn lemma_encode_extracts(fields: Seq<FieldDescriptor>, top: int, bottom: int, raw: u8)
    requires
        spec_tiles(fields, top, bottom),
        0 <= bottom,
        top <= 8,
        forall|i: int|
            0 <= i < fields.len() && (#[trigger] fields[i].access) is Reserved
                ==> fields[i].spec_extract(raw) == fields[i].reset,
    ensures
        spec_encode_fields(fields, Seq::new(fields.len(), |i: int| fields[i].spec_extract(raw)))
            == (raw as int) % (pow2(top as nat) as int) - (raw as int) % (pow2(
            bottom as nat,
        ) as int),
    decreases fields.len(),
{
    let extracts = Seq::new(fields.len(), |i: int| fields[i].spec_extract(raw));
    if fields.len() == 0 {
    } else {
        let f0 = fields[0];
        let off0 = f0.bit_offset as nat;
        let w0 = f0.bit_width as nat;
        let p_off = pow2(off0) as int;
        let p_w = pow2(w0) as int;
        lemma_pow2_pos(off0);
        lemma_pow2_pos(w0);
        lemma_pow2_adds(off0, w0);
        assert forall|i: int|
            0 <= i < fields.skip(1).len() && (#[trigger] fields.skip(1)[i].access) is Reserved
            implies fields.skip(1)[i].spec_extract(raw) == fields.skip(1)[i].reset by {
            assert(fields.skip(1)[i] == fields[i + 1]);
        }
        lemma_encode_extracts(fields.skip(1), off0 as int, bottom, raw);
        assert(extracts.skip(1) =~= Seq::new(
            fields.skip(1).len(),
            |i: int| fields.skip(1)[i].spec_extract(raw),
        ));
        lemma_breakdown(raw as int, p_off, p_w);
        f0.lemma_extract_int_range(raw as int);
        lemma_pow2_le_256(w0);
        assert(extracts[0] as int == f0.spec_extract_int(raw as int));
        assert(f0.spec_contribution(extracts[0]) == f0.spec_extract_int(raw as int) * p_off) by {
            if f0.access is Reserved {
                assert(f0.spec_extract(raw) == f0.reset);
            }
        }
        assert((raw as int) % (p_off * p_w) == p_off * f0.spec_extract_int(raw as int) + (raw as int)
            % p_off);
        lemma_mul_is_commutative(p_off, f0.spec_extract_int(raw as int));
    }
}

/// Law: encoding the decoded sub-values of a register byte restores the
/// byte, for any well-formed layout and any byte whose reserved spans sit
/// at their fixed constants.
pub proof fn lemma_layout_encode_decode(layout: RegisterLayout, raw: u8)
    requires
        layout.wf(),
        layout.spec_reserved_at_reset(raw),
    ensures
        layout.spec_encode(layout.spec_decode(raw)) == raw,
{
    lemma_encode_extracts(layout.fields@, 8, 0, raw);
    lemma2_to64();
    lemma_small_mod(raw as nat, 256);
    assert((raw as int) % 1 == 0) by {
        lemma_mod_division_less_than_divisor(raw as int, 1);
    }
    assert(layout.spec_decode(raw) =~= Seq::new(
        layout.fields@.len(),
        |i: int| layout.fields@[i].spec_extract(raw),
    )) by {
        assert forall|i: int| 0 <= i < layout.fields@.len() implies layout.spec_decode(raw)[i]
            == layout.fields@[i].spec_extract(raw) by {
            if layout.fields@[i].access is Reserved {
                assert(layout.fields@[i].spec_extract(raw) == layout.fields@[i].reset);
            }
        }
    }
}

/// Two raised to `exponent`, for exponents up to eight.
fn pow2_u32(exponent: u8) -> (r: u32)
    requires
        exponent <= 8,
    ensures
        r == pow2(exponent as nat),
{
    let r: u32 = match exponent {
        0 => 1,
        1 => 2,
        2 => 4,
        3 => 8,
        4 => 16,
        5 => 32,
        6 => 64,
        7 => 128,
        _ => 256,
    };
    proof {
        lemma2_to64();
    }
    r
}

/// Extracts the raw sub-value of one field from the register byte `raw`.
fn extract_field(field: &FieldDescriptor, raw: u8) -> (value: u8)
    requires
        field.wf(),
    ensures
        value == field.spec_extract(raw),
        value < pow2(field.bit_width as nat),
{
    let offset_weight = pow2_u32(field.bit_offset);
    let width_weight = pow2_u32(field.bit_width);
    proof {
        broadcast use lemma_div_mod_split;

        lemma_pow2_pos(field.bit_offset as nat);
        lemma_pow2_pos(field.bit_width as nat);
        lemma2_to64();
    }
    let wide = ((raw as u32) / offset_weight) % width_weight;
    wide as u8
}

/// Unpacks a register byte into the decoded sub-values of all fields of
/// the layout, in layout order. Fails with a capability error if and only
/// if some field of the layout is write-only; reserved spans decode to
/// their fixed constants, whatever the byte holds there.
pub fn decode_fields(layout: &RegisterLayout, raw: u8) -> (out: Result<Vec<u8>, CapabilityError>)
    requires
        layout.wf(),
    ensures
        match out {
            Ok(values) => layout.spec_readable() && values@ == layout.spec_decode(raw),
            Err(e) => !layout.spec_readable() && e == CapabilityError::DecodeOfWriteOnly,
        },
{
    let mut values: Vec<u8> = Vec::new();
    let n = layout.fields.len();
    let mut i: usize = 0;
    while i < n
        invariant
            layout.wf(),
            i <= n,
            n == layout.fields@.len(),
            values@.len() == i as int,
            forall|j: int| 0 <= j < i ==> values@[j] == layout.spec_decode(raw)[j],
            forall|j: int|
                0 <= j < i ==> !(#[trigger] layout.fields@[j].access is WriteOnly),
        decreases n - i,
    {
        let field = layout.fields[i];
        proof {
            lemma_tiles_field_wf(layout.fields@, 8, 0, i as int);
        }
        match field.access {
            FieldAccess::WriteOnly => {
                return Err(CapabilityError::DecodeOfWriteOnly);
            },
            FieldAccess::Reserved => {
                values.push(field.reset);
            },
            _ => {
                let value = extract_field(&field, raw);
                values.push(value);
            },
        }
        i += 1;
    }
    proof {
        assert(values@ =~= layout.spec_decode(raw));
    }
    Ok(values)
}

/// Decodes a single field of the layout from the register byte `raw`.
/// Fails with a capability error if and only if the field is write-only.
pub fn decode_field(layout: &RegisterLayout, index: usize, raw: u8) -> (out: Result<
    u8,
    CapabilityError,
>)
    requires
        layout.wf(),
        index < layout.fields@.len(),
    ensures
        match out {
            Ok(value) => !(layout.fields@[index as int].access is WriteOnly) && value
                == layout.fields@[index as int].spec_decode(raw),
            Err(e) => layout.fields@[index as int].access is WriteOnly && e
                == CapabilityError::DecodeOfWriteOnly,
        },
{
    let field = layout.fields[index];
    proof {
        lemma_tiles_field_wf(layout.fields@, 8, 0, index as int);
    }
    match field.access {
        FieldAccess::WriteOnly => Err(CapabilityError::DecodeOfWriteOnly),
        FieldAccess::Reserved => Ok(field.reset),
        _ => Ok(extract_field(&field, raw)),
    }
}

/// Packs one sub-value per field into the encoded register byte. Every
/// field must be supplied — also a read-restricted one, so that a caller
/// can assemble a full register image — and reserved spans are forced to
/// their fixed constants. The result decodes back to the given sub-values.
pub fn encode_fields(layout: &RegisterLayout, values: &Vec<u8>) -> (raw: u8)
    requires
        layout.wf(),
        layout.spec_values_ok(values@),
    ensures
        raw == layout.spec_encode(values@),
        layout.spec_decode(raw) == values@,
{
    let n = layout.fields.len();
    let mut acc: u32 = 0;
    let mut i: usize = n;
    while i > 0
        invariant
            layout.wf(),
            layout.spec_values_ok(values@),
            i <= n,
            n == layout.fields@.len(),
            acc == spec_encode_fields(layout.fields@.skip(i as int), values@.skip(i as int)),
            acc <= 255,
        decreases i,
    {
        i -= 1;
        let field = layout.fields[i];
        proof {
            lemma_tiles_field_wf(layout.fields@, 8, 0, i as int);
        }
        let sub: u32 = match field.access {
            FieldAccess::Reserved => field.reset as u32,
            _ => values[i] as u32,
        };
        let offset_weight = pow2_u32(field.bit_offset);
        proof {
            lemma_pow2_le_256(field.bit_offset as nat);
            lemma_mul_upper_bound(sub as int, 255, offset_weight as int, 256);
            vstd::arithmetic::mul::lemma_mul_nonnegative(sub as int, offset_weight as int);
        }
        let contribution = sub * offset_weight;
        acc = acc + contribution;
        proof {
            let j = i as int;
            assert(layout.fields@.skip(j).skip(1) =~= layout.fields@.skip(j + 1));
            assert(values@.skip(j).skip(1) =~= values@.skip(j + 1));
            assert(layout.fields@.skip(j)[0] == layout.fields@[j]);
            assert(values@.skip(j)[0] == values@[j]);
            let top_j = if j == 0 {
                8int
            } else {
                layout.fields@[j - 1].bit_offset as int
            };
            lemma_tiles_suffix(layout.fields@, 8, 0, j);
            lemma_values_fit_skip_n(layout.fields@, values@, j);
            lemma_encode_fields_range(layout.fields@.skip(j), values@.skip(j), top_j, 0);
            lemma_pow2_le_256(top_j as nat);
            lemma2_to64();
        }
    }
    proof {
        assert(layout.fields@.skip(0) =~= layout.fields@);
        assert(values@.skip(0) =~= values@);
        lemma_layout_decode_encode(*layout, values@);
    }
    acc as u8
}

/// A suffix of a tiled field list tiles the range from the previous
/// field's offset down to the same bottom.
proof fn lemma_tiles_suffix(fields: Seq<FieldDescriptor>, top: int, bottom: int, i: int)
    requires
        spec_tiles(fields, top, bottom),
        0 <= i <= fields.len(),
    ensures
        spec_tiles(
            fields.skip(i),
            if i == 0 {
                top
            } else {
                fields[i - 1].bit_offset as int
            },
            bottom,
        ),
        (if i == 0 {
            top
        } else {
            fields[i - 1].bit_offset as int
        }) <= top,
    decreases i,
{
    if i == 0 {
        assert(fields.skip(0) =~= fields);
    } else if i == 1 {
    } else {
        lemma_tiles_suffix(fields.skip(1), fields[0].bit_offset as int, bottom, i - 1);
        assert(fields.skip(1).skip(i - 1) =~= fields.skip(i));
        assert(fields.skip(1)[i - 2] == fields[i - 1]);
    }
}

/// Dropping any number of leading fields keeps the remaining sub-values
/// fitting the remaining fields.
proof fn lemma_values_fit_skip_n(fields: Seq<FieldDescriptor>, values: Seq<u8>, i: int)
    requires
        spec_values_fit(fields, values),
        0 <= i <= fields.len(),
    ensures
        spec_values_fit(fields.skip(i), values.skip(i)),
    decreases i,
{
    if i > 0 {
        lemma_values_fit_skip(fields, values);
        lemma_values_fit_skip_n(fields.skip(1), values.skip(1), i - 1);
        assert(fields.skip(1).skip(i - 1) =~= fields.skip(i));
        assert(values.skip(1).skip(i - 1) =~= values.skip(i));
    }
}

/// Every field of a tiling field list is well formed and sits inside
/// `bottom .. top`.
proof fn lemma_tiles_field_wf(fields: Seq<FieldDescriptor>, top: int, bottom: int, i: int)
    requires
        spec_tiles(fields, top, bottom),
        0 <= i < fields.len(),
    ensures
        fields[i].wf(),
        bottom <= fields[i].bit_offset,
        fields[i].bit_offset + fields[i].bit_width <= top,
    decreases i,
{
    if i > 0 {
        lemma_tiles_field_wf(fields.skip(1), fields[0].bit_offset as int, bottom, i - 1);
    } else {
        lemma_tiles_bounds(fields.skip(1), fields[0].bit_offset as int, bottom);
    }
}

/// A field list tiles a bit range as soon as the indexed adjacency
/// conditions hold: every field is well formed, each field starts where
/// the previous one ends, the first field ends at `top` and the last
/// starts at `bottom`.
pub proof fn lemma_tiles_from_indexed(fields: Seq<FieldDescriptor>, top: int, bottom: int)
    requires
        forall|i: int| 0 <= i < fields.len() ==> (#[trigger] fields[i]).wf(),
        forall|i: int|
            0 <= i < fields.len() - 1 ==> (#[trigger] fields[i + 1]).bit_offset + fields[
                i + 1
            ].bit_width == fields[i].bit_offset,
        fields.len() == 0 ==> top == bottom,
        fields.len() > 0 ==> fields[0].bit_offset + fields[0].bit_width == top && fields[
            fields.len() - 1
        ].bit_offset == bottom,
    ensures
        spec_tiles(fields, top, bottom),
    decreases fields.len(),
{
    if fields.len() > 0 {
        let rest = fields.skip(1);
        assert forall|i: int| 0 <= i < rest.len() implies (#[trigger] rest[i]).wf() by {
            assert(rest[i] == fields[i + 1]);
        }
        assert forall|i: int| 0 <= i < rest.len() - 1 implies (#[trigger] rest[i + 1]).bit_offset
            + rest[i + 1].bit_width == rest[i].bit_offset by {
            assert(rest[i] == fields[i + 1]);
            assert(rest[i + 1] == fields[i + 2]);
        }
        if rest.len() > 0 {
            assert(rest[0] == fields[1]);
            assert(rest[rest.len() - 1] == fields[fields.len() - 1]);
        }
        lemma_tiles_from_indexed(rest, fields[0].bit_offset as int, bottom);
    }
}

/// A tiled bit range is ordered: its bottom does not exceed its top.
proof fn lemma_tiles_bounds(fields: Seq<FieldDescriptor>, top: int, bottom: int)
    requires
        spec_tiles(fields, top, bottom),
    ensures
        bottom <= top,
    decreases fields.len(),
{
    if fields.len() > 0 {
        lemma_tiles_bounds(fields.skip(1), fields[0].bit_offset as int, bottom);
    }
}

} // verus!
