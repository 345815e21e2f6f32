//! The sensor's factory calibration: decoding the 42-byte calibration block
//! into 18 named coefficients, and the three fixed-point compensation
//! algorithms that convert raw ADC counts into calibrated values.

use vstd::prelude::*;
use vstd::arithmetic::div_mod::{
    lemma_div_nonincreasing, lemma_div_pos_is_pos, lemma_fundamental_div_mod,
    lemma_fundamental_div_mod_converse, lemma_mod_division_less_than_divisor,
};
use vstd::wrapping::{i32_specs, i64_specs};
use crate::arith::{div_i32_tz, div_i64_tz, div_tz_i32, div_tz_i64};
use crate::error::{Error, ErrorKind};

verus! {

/// The 18 factory calibration coefficients of the sensor, decoded from its
/// 42-byte calibration block: three families, for temperature (`t1`..`t3`),
/// pressure (`p1`..`p9`) and humidity (`h1`..`h6`).
#[derive(Debug, Clone, Copy, PartialEq, Eq, Structural)]
pub struct CalibrationData {
    pub t1: u16,
    pub t2: i16,
    pub t3: i16,

    pub p1: u16,
    pub p2: i16,
    pub p3: i16,
    pub p4: i16,
    pub p5: i16,
    pub p6: i16,
    pub p7: i16,
    pub p8: i16,
    pub p9: i16,

    pub h1: u8,
    pub h2: i16,
    pub h3: u8,
    pub h4: i16,
    pub h5: i16,
    pub h6: i8,
}

/// The unsigned 16-bit value stored little-endian in two bytes.
pub open spec fn u16_le(lo: u8, hi: u8) -> int {
    hi * 256 + lo
}

/// The signed 16-bit value stored little-endian in two bytes, read as
/// two's complement.
pub open spec fn i16_le(lo: u8, hi: u8) -> int {
    if hi >= 128 {
        hi * 256 + lo - 65536
    } else {
        hi * 256 + lo
    }
}

/// The signed 8-bit value stored in one byte, read as two's complement.
pub open spec fn i8_val(b: u8) -> int {
    if b >= 128 {
        b - 256
    } else {
        b as int
    }
}

/// The `h4` coefficient packed across two bytes: the first byte shifted left
/// four bits, OR'd with the low nibble of the following byte.
pub open spec fn h4_val(b0: u8, b1: u8) -> int {
    b0 * 16 + b1 % 16
}

/// The `h5` coefficient packed across two bytes: the high nibble of the byte
/// shared with `h4`, OR'd with the following byte shifted left four bits.
pub open spec fn h5_val(b0: u8, b1: u8) -> int {
    b0 / 16 + b1 * 16
}

/// The coefficients held by a 42-byte calibration block: little-endian
/// 16-bit pairs at fixed offsets, three single bytes, and the nibble-packed
/// pair `h4`/`h5`.
pub open spec fn spec_decode(bytes: Seq<u8>) -> CalibrationData {
    CalibrationData {
        t1: u16_le(bytes[0], bytes[1]) as u16,
        t2: i16_le(bytes[2], bytes[3]) as i16,
        t3: i16_le(bytes[4], bytes[5]) as i16,
        p1: u16_le(bytes[6], bytes[7]) as u16,
        p2: i16_le(bytes[8], bytes[9]) as i16,
        p3: i16_le(bytes[10], bytes[11]) as i16,
        p4: i16_le(bytes[12], bytes[13]) as i16,
        p5: i16_le(bytes[14], bytes[15]) as i16,
        p6: i16_le(bytes[16], bytes[17]) as i16,
        p7: i16_le(bytes[18], bytes[19]) as i16,
        p8: i16_le(bytes[20], bytes[21]) as i16,
        p9: i16_le(bytes[22], bytes[23]) as i16,
        h1: bytes[25],
        h2: i16_le(bytes[26], bytes[27]) as i16,
        h3: bytes[28],
        h4: h4_val(bytes[29], bytes[30]) as i16,
        h5: h5_val(bytes[30], bytes[31]) as i16,
        h6: i8_val(bytes[32]) as i8,
    }
}

/// Read the unsigned 16-bit coefficient stored little-endian at offset `i`.
fn read_u16_le(input: &Vec<u8>, i: usize) -> (r: u16)
    requires
        i + 1 < input.len(),
    ensures
        r == u16_le(input@[i as int], input@[i + 1]),
{
    (input[i + 1] as u16) * 256 + (input[i] as u16)
}

/// Read the signed 16-bit coefficient stored little-endian at offset `i`.
fn read_i16_le(input: &Vec<u8>, i: usize) -> (r: i16)
    requires
        i + 1 < input.len(),
    ensures
        r == i16_le(input@[i as int], input@[i + 1]),
{
    let v: u16 = read_u16_le(input, i);
    if v >= 32768 {
        ((v as i32) - 65536) as i16
    } else {
        v as i16
    }
}

/// Read the byte at offset `i` as a signed two's-complement value.
fn read_i8(input: &Vec<u8>, i: usize) -> (r: i8)
    requires
        i < input.len(),
    ensures
        r == i8_val(input@[i as int]),
{
    let b: u8 = input[i];
    if b >= 128 {
        ((b as i32) - 256) as i8
    } else {
        b as i8
    }
}

impl Default for CalibrationData {
    /// All-zero coefficients: the placeholder a driver holds before the
    /// device's calibration block has been decoded.
    fn default() -> (r: CalibrationData)
        ensures
            r == CalibrationData::spec_default(),
    {
        CalibrationData {
            t1: 0, t2: 0, t3: 0,
            p1: 0, p2: 0, p3: 0, p4: 0, p5: 0, p6: 0, p7: 0, p8: 0, p9: 0,
            h1: 0, h2: 0, h3: 0, h4: 0, h5: 0, h6: 0,
        }
    }
}

impl CalibrationData {
    /// All-zero coefficients.
    pub open spec fn spec_default() -> CalibrationData {
        CalibrationData {
            t1: 0, t2: 0, t3: 0,
            p1: 0, p2: 0, p3: 0, p4: 0, p5: 0, p6: 0, p7: 0, p8: 0, p9: 0,
            h1: 0, h2: 0, h3: 0, h4: 0, h5: 0, h6: 0,
        }
    }

    /// Decode the sensor's 42-byte calibration block.
    ///
    /// Decoding is total on 42-byte inputs: it is purely a function of the
    /// bytes and never fails. Any other length is rejected with
    /// [`ErrorKind::InvalidCalibrationLength`] before any coefficient is
    /// read.
    pub fn from_vec(input: Vec<u8>) -> (r: Result<CalibrationData, Error>)
        ensures
            input@.len() == 42 ==> (r matches Ok(c) && c == spec_decode(input@)),
            input@.len() != 42 ==> (r matches Err(e) && e.kind
                == ErrorKind::InvalidCalibrationLength),
    {
        if input.len() != 42 {
            return Err(Error::new(ErrorKind::InvalidCalibrationLength));
        }

        let b29: u8 = input[29];
        let b30: u8 = input[30];
        let b31: u8 = input[31];
        let cal = CalibrationData {
            t1: read_u16_le(&input, 0),
            t2: read_i16_le(&input, 2),
            t3: read_i16_le(&input, 4),

            p1: read_u16_le(&input, 6),
            p2: read_i16_le(&input, 8),
            p3: read_i16_le(&input, 10),
            p4: read_i16_le(&input, 12),
            p5: read_i16_le(&input, 14),
            p6: read_i16_le(&input, 16),
            p7: read_i16_le(&input, 18),
            p8: read_i16_le(&input, 20),
            p9: read_i16_le(&input, 22),

            h1: input[25],
            h2: read_i16_le(&input, 26),
            h3: input[28],
            h4: (b29 as i16) * 16 + (b30 % 16) as i16,
            h5: (b30 / 16) as i16 + (b31 as i16) * 16,
            h6: read_i8(&input, 32),
        };

        Ok(cal)
    }

    /// Encode the coefficients into a 42-byte calibration block that decodes
    /// back to exactly these coefficients: the round trip through
    /// [`spec_decode`] reproduces every field, including the nibble-packed
    /// pair `h4`/`h5`. The bytes the decoder never reads are zero.
    ///
    /// `h4` and `h5` are packed into twelve bits each, so only values in
    /// [0, 4095] (all that decoding can produce) are representable.
    pub fn to_bytes(&self) -> (r: Vec<u8>)
        requires
            0 <= self.h4 <= 4095,
            0 <= self.h5 <= 4095,
        ensures
            r@.len() == 42,
            spec_decode(r@) == *self,
    {
        let mut out: Vec<u8> = Vec::new();
        push_u16_le(&mut out, self.t1);  // offsets 0-1
        push_i16_le(&mut out, self.t2);  // 2-3
        push_i16_le(&mut out, self.t3);  // 4-5
        push_u16_le(&mut out, self.p1);  // 6-7
        push_i16_le(&mut out, self.p2);  // 8-9
        push_i16_le(&mut out, self.p3);  // 10-11
        push_i16_le(&mut out, self.p4);  // 12-13
        push_i16_le(&mut out, self.p5);  // 14-15
        push_i16_le(&mut out, self.p6);  // 16-17
        push_i16_le(&mut out, self.p7);  // 18-19
        push_i16_le(&mut out, self.p8);  // 20-21
        push_i16_le(&mut out, self.p9);  // 22-23
        out.push(0);  // 24, unread
        out.push(self.h1);  // 25
        push_i16_le(&mut out, self.h2);  // 26-27
        out.push(self.h3);  // 28
        push_h4_h5(&mut out, self.h4, self.h5);  // 29-31
        push_i8(&mut out, self.h6);  // 32
        out.push(0);  // 33..41, unread
        out.push(0);
        out.push(0);
        out.push(0);
        out.push(0);
        out.push(0);
        out.push(0);
        out.push(0);
        out.push(0);
        out
    }
}

/// Splitting an unsigned 16-bit value into its little-endian bytes and
/// reassembling them is the identity.
proof fn lemma_u16_split(v: u16)
    ensures
        v % 256 < 256,
        v / 256 < 256,
        u16_le((v % 256) as u8, (v / 256) as u8) == v,
{
    lemma_fundamental_div_mod(v as int, 256);
    lemma_mod_division_less_than_divisor(v as int, 256);
    lemma_div_pos_is_pos(v as int, 256);
}

/// Append an unsigned 16-bit coefficient, little-endian.
fn push_u16_le(out: &mut Vec<u8>, v: u16)
    ensures
        final(out)@.len() == old(out)@.len() + 2,
        forall|j: int| 0 <= j < old(out)@.len() ==> final(out)@[j] == old(out)@[j],
        u16_le(final(out)@[old(out)@.len() as int], final(out)@[old(out)@.len() as int + 1]) == v,
{
    proof {
        lemma_u16_split(v);
    }
    let lo: u8 = (v % 256) as u8;
    let hi: u8 = (v / 256) as u8;
    out.push(lo);
    out.push(hi);
}

/// Append a signed 16-bit coefficient, little-endian two's complement.
fn push_i16_le(out: &mut Vec<u8>, v: i16)
    ensures
        final(out)@.len() == old(out)@.len() + 2,
        forall|j: int| 0 <= j < old(out)@.len() ==> final(out)@[j] == old(out)@[j],
        i16_le(final(out)@[old(out)@.len() as int], final(out)@[old(out)@.len() as int + 1]) == v,
{
    let enc: u16 = if v < 0 {
        ((v as i32) + 65536) as u16
    } else {
        v as u16
    };
    push_u16_le(out, enc);
}

/// Append a signed 8-bit coefficient as its two's-complement byte.
fn push_i8(out: &mut Vec<u8>, v: i8)
    ensures
        final(out)@.len() == old(out)@.len() + 1,
        forall|j: int| 0 <= j < old(out)@.len() ==> final(out)@[j] == old(out)@[j],
        i8_val(final(out)@[old(out)@.len() as int]) == v,
{
    let enc: u8 = if v < 0 {
        ((v as i32) + 256) as u8
    } else {
        v as u8
    };
    out.push(enc);
}

/// Append the three bytes that pack the nibble-aligned pair `h4`/`h5`.
fn push_h4_h5(out: &mut Vec<u8>, h4: i16, h5: i16)
    requires
        0 <= h4 <= 4095,
        0 <= h5 <= 4095,
    ensures
        final(out)@.len() == old(out)@.len() + 3,
        forall|j: int| 0 <= j < old(out)@.len() ==> final(out)@[j] == old(out)@[j],
        h4_val(final(out)@[old(out)@.len() as int], final(out)@[old(out)@.len() as int + 1]) == h4,
        h5_val(final(out)@[old(out)@.len() as int + 1], final(out)@[old(out)@.len() as int + 2]) == h5,
{
    let h4u: u16 = h4 as u16;
    let h5u: u16 = h5 as u16;
    proof {
        lemma_fundamental_div_mod(h4u as int, 16);
        lemma_mod_division_less_than_divisor(h4u as int, 16);
        lemma_div_pos_is_pos(h4u as int, 16);
        lemma_fundamental_div_mod(h5u as int, 16);
        lemma_mod_division_less_than_divisor(h5u as int, 16);
        lemma_div_pos_is_pos(h5u as int, 16);
    }
    let b0: u8 = (h4u / 16) as u8;
    let b1: u8 = ((h5u % 16) * 16 + h4u % 16) as u8;
    let b2: u8 = (h5u / 16) as u8;
    proof {
        lemma_fundamental_div_mod_converse(
            b1 as int,
            16,
            (h5u % 16) as int,
            (h4u % 16) as int,
        );
    }
    out.push(b0);
    out.push(b1);
    out.push(b2);
}

/// Decoding can only produce `h4` and `h5` values in [0, 4095]: they are
/// packed into twelve bits. Every decoded coefficient set therefore
/// satisfies the precondition of [`CalibrationData::to_bytes`], and the
/// encode/decode round trip is total on decoder outputs.
pub proof fn lemma_decoded_nibbles_in_range(bytes: Seq<u8>)
    ensures
        0 <= spec_decode(bytes).h4 <= 4095,
        0 <= spec_decode(bytes).h5 <= 4095,
{
    lemma_mod_division_less_than_divisor(bytes[30] as int, 16);
    lemma_fundamental_div_mod(bytes[30] as int, 16);
    lemma_div_pos_is_pos(bytes[30] as int, 16);
}

/// The temperature fine-value: the shared intermediate of a measurement
/// cycle, computed by temperature compensation in 32-bit signed arithmetic
/// from the raw temperature reading and `t1`..`t3`.
pub open spec fn spec_t_fine(cal: CalibrationData, raw_temperature: i32) -> i32 {
    let var1: i32 = i32_specs::wrapping_mul(
        i32_specs::wrapping_sub(raw_temperature >> 3, (cal.t1 as i32) << 1),
        cal.t2 as i32,
    ) >> 11;
    let d: i32 = i32_specs::wrapping_sub(raw_temperature >> 4, cal.t1 as i32);
    let var2: i32 = i32_specs::wrapping_mul(i32_specs::wrapping_mul(d, d) >> 12, cal.t3 as i32)
        >> 14;
    i32_specs::wrapping_add(var1, var2)
}

/// The reported temperature, in hundredths of a degree, derived from the
/// fine-value.
pub open spec fn spec_temperature(t_fine: i32) -> i32 {
    i32_specs::wrapping_add(i32_specs::wrapping_mul(t_fine, 5), 128) >> 8
}

/// The normalization term of pressure compensation. When it is exactly
/// zero, compensation short-circuits and reports 0 instead of dividing.
pub open spec fn spec_pressure_norm(cal: CalibrationData, t_fine: i32) -> i64 {
    let v: i64 = i64_specs::wrapping_sub(t_fine as i64, 128000);
    let a: i64 = i64_specs::wrapping_add(
        i64_specs::wrapping_mul(i64_specs::wrapping_mul(v, v), cal.p3 as i64) >> 8,
        i64_specs::wrapping_mul(v, cal.p2 as i64) << 12,
    );
    i64_specs::wrapping_mul(i64_specs::wrapping_add(1i64 << 47, a), cal.p1 as i64) >> 33
}

/// The offset term of pressure compensation, built from `p4`..`p6`.
pub open spec fn spec_pressure_offset(cal: CalibrationData, t_fine: i32) -> i64 {
    let v: i64 = i64_specs::wrapping_sub(t_fine as i64, 128000);
    i64_specs::wrapping_add(
        i64_specs::wrapping_add(
            i64_specs::wrapping_mul(i64_specs::wrapping_mul(v, v), cal.p6 as i64),
            i64_specs::wrapping_mul(v, cal.p5 as i64) << 17,
        ),
        (cal.p4 as i64) << 35,
    )
}

/// The compensated pressure, in 1/256 Pa units: the 64-bit signed
/// fixed-point chain of the reference formula, or 0 when the normalization
/// term is zero.
pub open spec fn spec_pressure(cal: CalibrationData, t_fine: i32, raw_pressure: i32) -> u32 {
    let norm: i64 = spec_pressure_norm(cal, t_fine);
    if norm == 0 {
        0u32
    } else {
        let p0: i64 = i64_specs::wrapping_sub(1048576, raw_pressure as i64);
        let press: i64 = div_tz_i64(
            i64_specs::wrapping_mul(
                i64_specs::wrapping_sub(p0 << 31, spec_pressure_offset(cal, t_fine)),
                3125,
            ),
            norm,
        );
        let va: i64 = i64_specs::wrapping_mul(
            i64_specs::wrapping_mul(cal.p9 as i64, press >> 13),
            press >> 13,
        ) >> 25;
        let vb: i64 = i64_specs::wrapping_mul(cal.p8 as i64, press) >> 19;
        let pf: i64 = i64_specs::wrapping_add(
            i64_specs::wrapping_add(i64_specs::wrapping_add(press, va), vb) >> 8,
            (cal.p7 as i64) << 4,
        );
        pf as u32
    }
}

/// The compensated humidity before the final clamps: the 32-bit signed
/// chain of the reference formula with truncating division, from the
/// fine-value, `h1`..`h6` and the raw humidity count.
pub open spec fn spec_humidity_unclamped(cal: CalibrationData, t_fine: i32, raw_humidity: u16) -> i32 {
    let var1: i32 = i32_specs::wrapping_sub(t_fine, 76800);
    let var2: i32 = i32_specs::wrapping_mul(raw_humidity as i32, 16384);
    let var3: i32 = i32_specs::wrapping_mul(cal.h4 as i32, 1048576);
    let var4: i32 = i32_specs::wrapping_mul(cal.h5 as i32, var1);
    let var5: i32 = div_tz_i32(
        i32_specs::wrapping_add(
            i32_specs::wrapping_sub(i32_specs::wrapping_sub(var2, var3), var4),
            16384,
        ),
        32768,
    );
    let var2b: i32 = div_tz_i32(i32_specs::wrapping_mul(var1, cal.h6 as i32), 1024);
    let var3b: i32 = div_tz_i32(i32_specs::wrapping_mul(var1, cal.h3 as i32), 2048);
    let var4b: i32 = i32_specs::wrapping_add(
        div_tz_i32(i32_specs::wrapping_mul(var2b, i32_specs::wrapping_add(var3b, 32768)), 1024),
        2097152,
    );
    let var2c: i32 = div_tz_i32(
        i32_specs::wrapping_add(i32_specs::wrapping_mul(var4b, cal.h2 as i32), 8192),
        16384,
    );
    let var3c: i32 = i32_specs::wrapping_mul(var5, var2c);
    let var4c: i32 = div_tz_i32(
        i32_specs::wrapping_mul(div_tz_i32(var3c, 32768), div_tz_i32(var3c, 32768)),
        128,
    );
    i32_specs::wrapping_sub(var3c, div_tz_i32(i32_specs::wrapping_mul(var4c, cal.h1 as i32), 16))
}

/// The compensated humidity, in 1/1024 %RH units: the unclamped chain,
/// saturated to [0, 419430400], divided by 4096, and capped at 102400.
pub open spec fn spec_humidity(cal: CalibrationData, t_fine: i32, raw_humidity: u16) -> u32 {
    let raw: i32 = spec_humidity_unclamped(cal, t_fine, raw_humidity);
    let clamped: i32 = if raw < 0 {
        0i32
    } else if raw > 419430400 {
        419430400i32
    } else {
        raw
    };
    let humidity: i32 = div_tz_i32(clamped, 4096);
    if humidity > 102400 {
        102400u32
    } else {
        humidity as u32
    }
}

impl CalibrationData {
    /// Temperature compensation: convert a raw temperature reading into
    /// hundredths of a degree, together with the fine-value that pressure
    /// and humidity compensation of the same measurement cycle require.
    pub fn compensate_temperature(&self, raw_temperature: i32) -> (r: (i32, i32))
        ensures
            r.0 == spec_temperature(spec_t_fine(*self, raw_temperature)),
            r.1 == spec_t_fine(*self, raw_temperature),
    {
        let var1: i32 = ((raw_temperature >> 3).wrapping_sub((self.t1 as i32) << 1)).wrapping_mul(
            self.t2 as i32,
        ) >> 11;
        let d: i32 = (raw_temperature >> 4).wrapping_sub(self.t1 as i32);
        let var2: i32 = (d.wrapping_mul(d) >> 12).wrapping_mul(self.t3 as i32) >> 14;
        let t_fine: i32 = var1.wrapping_add(var2);

        let temperature: i32 = t_fine.wrapping_mul(5).wrapping_add(128) >> 8;

        (temperature, t_fine)
    }

    /// Pressure compensation: convert a raw pressure reading into 1/256 Pa
    /// units, given the fine-value of the current measurement cycle.
    /// Reports exactly 0 when the normalization term is zero, avoiding the
    /// division; this is a defined edge case, not an error.
    pub fn compensate_pressure(&self, t_fine: i32, raw_pressure: i32) -> (r: u32)
        ensures
            r == spec_pressure(*self, t_fine, raw_pressure),
            spec_pressure_norm(*self, t_fine) == 0 ==> r == 0,
    {
        let mut var1: i64 = (t_fine as i64).wrapping_sub(128000);
        let mut var2: i64 = var1.wrapping_mul(var1).wrapping_mul(self.p6 as i64);
        var2 = var2.wrapping_add(var1.wrapping_mul(self.p5 as i64) << 17);
        var2 = var2.wrapping_add((self.p4 as i64) << 35);
        var1 = (var1.wrapping_mul(var1).wrapping_mul(self.p3 as i64) >> 8).wrapping_add(
            var1.wrapping_mul(self.p2 as i64) << 12,
        );
        var1 = (1i64 << 47).wrapping_add(var1).wrapping_mul(self.p1 as i64) >> 33;

        if var1 == 0 {
            return 0;
        }

        let mut pressure: i64 = 1048576i64.wrapping_sub(raw_pressure as i64);
        pressure = div_i64_tz((pressure << 31).wrapping_sub(var2).wrapping_mul(3125), var1);
        let va: i64 = (self.p9 as i64).wrapping_mul(pressure >> 13).wrapping_mul(pressure >> 13)
            >> 25;
        let vb: i64 = (self.p8 as i64).wrapping_mul(pressure) >> 19;
        pressure = (pressure.wrapping_add(va).wrapping_add(vb) >> 8).wrapping_add(
            (self.p7 as i64) << 4,
        );

        let r: u32 = #[verifier::truncate] (pressure as u32);
        r
    }

    /// Humidity compensation: convert a raw humidity count into 1/1024 %RH
    /// units, given the fine-value of the current measurement cycle. The
    /// result saturates by design and always lies in [0, 102400].
    pub fn compensate_humidity(&self, t_fine: i32, raw_humidity: u16) -> (r: u32)
        ensures
            r == spec_humidity(*self, t_fine, raw_humidity),
            r <= 102400,
    {
        let var1: i32 = t_fine.wrapping_sub(76800);
        let var2: i32 = (raw_humidity as i32).wrapping_mul(16384);
        let var3: i32 = (self.h4 as i32).wrapping_mul(1048576);
        let var4: i32 = (self.h5 as i32).wrapping_mul(var1);
        let var5: i32 = div_i32_tz(
            var2.wrapping_sub(var3).wrapping_sub(var4).wrapping_add(16384),
            32768,
        );
        let var2b: i32 = div_i32_tz(var1.wrapping_mul(self.h6 as i32), 1024);
        let var3b: i32 = div_i32_tz(var1.wrapping_mul(self.h3 as i32), 2048);
        let var4b: i32 = div_i32_tz(var2b.wrapping_mul(var3b.wrapping_add(32768)), 1024)
            .wrapping_add(2097152);
        let var2c: i32 = div_i32_tz(var4b.wrapping_mul(self.h2 as i32).wrapping_add(8192), 16384);
        let var3c: i32 = var5.wrapping_mul(var2c);
        let var4c: i32 = div_i32_tz(
            div_i32_tz(var3c, 32768).wrapping_mul(div_i32_tz(var3c, 32768)),
            128,
        );
        let var5b: i32 = var3c.wrapping_sub(div_i32_tz(var4c.wrapping_mul(self.h1 as i32), 16));

        let clamped: i32 = if var5b < 0 {
            0
        } else if var5b > 419430400 {
            419430400
        } else {
            var5b
        };

        let humidity: i32 = div_i32_tz(clamped, 4096);
        proof {
            lemma_div_pos_is_pos(clamped as int, 4096);
        }

        if humidity > 102400 {
            102400
        } else {
            humidity as u32
        }
    }
}

/// Pressure compensation reports exactly 0 whenever the normalization term
/// is zero, regardless of the raw reading and the other coefficients: an
/// explicit short-circuit, not a computed near-zero division.
pub proof fn lemma_pressure_zero_norm(cal: CalibrationData, t_fine: i32, raw_pressure: i32)
    requires
        spec_pressure_norm(cal, t_fine) == 0,
    ensures
        spec_pressure(cal, t_fine, raw_pressure) == 0,
{
}

/// Humidity compensation saturates by design: for every fine-value, raw
/// humidity count and coefficient combination, the reported value lies in
/// [0, 102400] (1/1024 %RH units).
pub proof fn lemma_humidity_clamped(cal: CalibrationData, t_fine: i32, raw_humidity: u16)
    ensures
        spec_humidity(cal, t_fine, raw_humidity) <= 102400,
{
    let raw: i32 = spec_humidity_unclamped(cal, t_fine, raw_humidity);
    let clamped: i32 = if raw < 0 {
        0i32
    } else if raw > 419430400 {
        419430400i32
    } else {
        raw
    };
    lemma_div_pos_is_pos(clamped as int, 4096);
    lemma_div_nonincreasing(clamped as int, 4096);
}

} // verus!
