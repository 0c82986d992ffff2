//! Binary codec for headers and sensor messages.
//!
//! Values are laid out little-endian: strings as a 4-byte byte-length
//! followed by their UTF-8 bytes, booleans as one byte, signed integers in
//! two's complement. Encoding and decoding are specified as total
//! functions on byte sequences, and decoding an encoding returns the
//! original value exactly — see the round-trip lemmas at the end.

use vstd::prelude::*;
use vstd::bytes::{
    spec_u16_from_le_bytes,
    spec_u16_to_le_bytes,
    spec_u32_from_le_bytes,
    spec_u32_to_le_bytes,
    spec_u64_from_le_bytes,
    spec_u64_to_le_bytes,
    lemma_auto_spec_u16_to_from_le_bytes,
    lemma_auto_spec_u32_to_from_le_bytes,
    lemma_auto_spec_u64_to_from_le_bytes,
    u16_from_le_bytes,
    u16_to_le_bytes,
    u32_from_le_bytes,
    u32_to_le_bytes,
    u64_from_le_bytes,
    u64_to_le_bytes,
};
use vstd::utf8::{decode_utf8, encode_utf8, valid_utf8};
use vstd::slice::{slice_subrange, slice_to_vec};
use crate::messages::{
    BarometerMessage,
    Header,
    ImuMessage,
    MagnetometerMessage,
    SensorMessage,
};

verus! {

/// Relies on String::from_utf8: it accepts exactly the byte sequences
/// that are valid UTF-8 and decodes them to their characters.
#[verifier::external_body]
fn string_from_utf8(v: Vec<u8>) -> (r: Option<String>)
    ensures
        r is Some <==> valid_utf8(v@),
        r matches Some(s) ==> s@ == decode_utf8(v@),
{
    String::from_utf8(v).ok()
}

/// Casting an i64 through u64 and back is the identity.
proof fn lemma_i64_cast_roundtrip(x: i64)
    ensures
        (x as u64) as i64 == x,
{
    assert(x as u64 as i64 == x) by (bit_vector);
}

/// Casting an i32 through u32 and back is the identity.
proof fn lemma_i32_cast_roundtrip(x: i32)
    ensures
        (x as u32) as i32 == x,
{
    assert(x as u32 as i32 == x) by (bit_vector);
}

/// The encoding of a boolean: one byte, 1 for true and 0 for false.
pub open spec fn spec_encode_bool(b: bool) -> Seq<u8> {
    seq![if b { 1u8 } else { 0u8 }]
}

/// The encoding of a string: the length of its UTF-8 form in 4 bytes,
/// then that form.
pub open spec fn spec_encode_string(s: Seq<char>) -> Seq<u8> {
    spec_u32_to_le_bytes(encode_utf8(s).len() as u32) + encode_utf8(s)
}

/// True when a string fits the codec: its UTF-8 form fits the 4-byte
/// length field.
pub open spec fn spec_string_fits(s: Seq<char>) -> bool {
    encode_utf8(s).len() <= u32::MAX
}

/// Take a u16 from the front of `b`: its value and the remainder.
pub open spec fn spec_take_u16(b: Seq<u8>) -> Option<(u16, Seq<u8>)> {
    if b.len() < 2 {
        None
    } else {
        Some((spec_u16_from_le_bytes(b.take(2)), b.skip(2)))
    }
}

/// Take a u32 from the front of `b`: its value and the remainder.
pub open spec fn spec_take_u32(b: Seq<u8>) -> Option<(u32, Seq<u8>)> {
    if b.len() < 4 {
        None
    } else {
        Some((spec_u32_from_le_bytes(b.take(4)), b.skip(4)))
    }
}

/// Take a u64 from the front of `b`: its value and the remainder.
pub open spec fn spec_take_u64(b: Seq<u8>) -> Option<(u64, Seq<u8>)> {
    if b.len() < 8 {
        None
    } else {
        Some((spec_u64_from_le_bytes(b.take(8)), b.skip(8)))
    }
}

/// Take a boolean from the front of `b`; bytes other than 0 and 1 are
/// rejected.
pub open spec fn spec_take_bool(b: Seq<u8>) -> Option<(bool, Seq<u8>)> {
    if b.len() < 1 {
        None
    } else if b[0] == 1u8 {
        Some((true, b.skip(1)))
    } else if b[0] == 0u8 {
        Some((false, b.skip(1)))
    } else {
        None
    }
}

/// Take a string from the front of `b`: a 4-byte length, then that many
/// bytes of valid UTF-8; anything else is rejected.
pub open spec fn spec_take_string(b: Seq<u8>) -> Option<(Seq<char>, Seq<u8>)> {
    match spec_take_u32(b) {
        None => None,
        Some((n, rest)) => if rest.len() < n {
            None
        } else if !valid_utf8(rest.take(n as int)) {
            None
        } else {
            Some((decode_utf8(rest.take(n as int)), rest.skip(n as int)))
        },
    }
}

/// Taking a u16 from its encoding followed by anything returns the value
/// and that remainder.
proof fn lemma_take_u16_encode(x: u16, rest: Seq<u8>)
    ensures
        spec_take_u16(spec_u16_to_le_bytes(x) + rest) == Some((x, rest)),
{
    lemma_auto_spec_u16_to_from_le_bytes();
    let b = spec_u16_to_le_bytes(x) + rest;
    assert(b.take(2) =~= spec_u16_to_le_bytes(x));
    assert(b.skip(2) =~= rest);
}

/// Taking a u32 from its encoding followed by anything returns the value
/// and that remainder.
proof fn lemma_take_u32_encode(x: u32, rest: Seq<u8>)
    ensures
        spec_take_u32(spec_u32_to_le_bytes(x) + rest) == Some((x, rest)),
{
    lemma_auto_spec_u32_to_from_le_bytes();
    let b = spec_u32_to_le_bytes(x) + rest;
    assert(b.take(4) =~= spec_u32_to_le_bytes(x));
    assert(b.skip(4) =~= rest);
}

/// Taking a u64 from its encoding followed by anything returns the value
/// and that remainder.
proof fn lemma_take_u64_encode(x: u64, rest: Seq<u8>)
    ensures
        spec_take_u64(spec_u64_to_le_bytes(x) + rest) == Some((x, rest)),
{
    lemma_auto_spec_u64_to_from_le_bytes();
    let b = spec_u64_to_le_bytes(x) + rest;
    assert(b.take(8) =~= spec_u64_to_le_bytes(x));
    assert(b.skip(8) =~= rest);
}

/// Taking a boolean from its encoding followed by anything returns the
/// value and that remainder.
proof fn lemma_take_bool_encode(x: bool, rest: Seq<u8>)
    ensures
        spec_take_bool(spec_encode_bool(x) + rest) == Some((x, rest)),
{
    let b = spec_encode_bool(x) + rest;
    assert(b.skip(1) =~= rest);
}

/// Taking a string from its encoding followed by anything returns the
/// string and that remainder.
proof fn lemma_take_string_encode(s: Seq<char>, rest: Seq<u8>)
    requires
        spec_string_fits(s),
    ensures
        spec_take_string(spec_encode_string(s) + rest) == Some((s, rest)),
{
    let bytes = encode_utf8(s);
    let n = bytes.len() as u32;
    let b = spec_encode_string(s) + rest;
    assert(b =~= spec_u32_to_le_bytes(n) + (bytes + rest));
    lemma_take_u32_encode(n, bytes + rest);
    let tail = bytes + rest;
    assert(tail.take(n as int) =~= bytes);
    assert(tail.skip(n as int) =~= rest);
    broadcast use vstd::utf8::encode_utf8_valid_utf8;
    broadcast use vstd::utf8::encode_utf8_decode_utf8;

    assert(valid_utf8(bytes));
    assert(decode_utf8(bytes) == s);
}

/// Read a u16 at `pos`; on success the new position follows the field.
fn take_u16(b: &[u8], pos: usize) -> (r: Option<(u16, usize)>)
    requires
        pos <= b@.len(),
    ensures
        match spec_take_u16(b@.skip(pos as int)) {
            None => r is None,
            Some((v, rest)) => r == Some((v, (b@.len() - rest.len()) as usize))
                && b@.skip((b@.len() - rest.len()) as int) == rest,
        },
{
    if b.len() - pos < 2 {
        return None;
    }
    let v = u16_from_le_bytes(slice_subrange(b, pos, pos + 2));
    proof {
        assert(b@.subrange(pos as int, pos + 2) =~= b@.skip(pos as int).take(2));
        assert(b@.skip(pos as int).skip(2) =~= b@.skip(pos + 2));
    }
    Some((v, pos + 2))
}

/// Read a u32 at `pos`; on success the new position follows the field.
fn take_u32(b: &[u8], pos: usize) -> (r: Option<(u32, usize)>)
    requires
        pos <= b@.len(),
    ensures
        match spec_take_u32(b@.skip(pos as int)) {
            None => r is None,
            Some((v, rest)) => r == Some((v, (b@.len() - rest.len()) as usize))
                && b@.skip((b@.len() - rest.len()) as int) == rest,
        },
{
    if b.len() - pos < 4 {
        return None;
    }
    let v = u32_from_le_bytes(slice_subrange(b, pos, pos + 4));
    proof {
        assert(b@.subrange(pos as int, pos + 4) =~= b@.skip(pos as int).take(4));
        assert(b@.skip(pos as int).skip(4) =~= b@.skip(pos + 4));
    }
    Some((v, pos + 4))
}

/// Read a u64 at `pos`; on success the new position follows the field.
fn take_u64(b: &[u8], pos: usize) -> (r: Option<(u64, usize)>)
    requires
        pos <= b@.len(),
    ensures
        match spec_take_u64(b@.skip(pos as int)) {
            None => r is None,
            Some((v, rest)) => r == Some((v, (b@.len() - rest.len()) as usize))
                && b@.skip((b@.len() - rest.len()) as int) == rest,
        },
{
    if b.len() - pos < 8 {
        return None;
    }
    let v = u64_from_le_bytes(slice_subrange(b, pos, pos + 8));
    proof {
        assert(b@.subrange(pos as int, pos + 8) =~= b@.skip(pos as int).take(8));
        assert(b@.skip(pos as int).skip(8) =~= b@.skip(pos + 8));
    }
    Some((v, pos + 8))
}

/// Read a boolean at `pos`; on success the new position follows the field.
fn take_bool(b: &[u8], pos: usize) -> (r: Option<(bool, usize)>)
    requires
        pos <= b@.len(),
    ensures
        match spec_take_bool(b@.skip(pos as int)) {
            None => r is None,
            Some((v, rest)) => r == Some((v, (b@.len() - rest.len()) as usize))
                && b@.skip((b@.len() - rest.len()) as int) == rest,
        },
{
    if b.len() - pos < 1 {
        return None;
    }
    let byte = b[pos];
    proof {
        assert(b@.skip(pos as int)[0] == b@[pos as int]);
        assert(b@.skip(pos as int).skip(1) =~= b@.skip(pos + 1));
    }
    if byte == 1 {
        Some((true, pos + 1))
    } else if byte == 0 {
        Some((false, pos + 1))
    } else {
        None
    }
}

/// Read a string at `pos`; on success the new position follows the field.
fn take_string(b: &[u8], pos: usize) -> (r: Option<(String, usize)>)
    requires
        pos <= b@.len(),
    ensures
        match spec_take_string(b@.skip(pos as int)) {
            None => r is None,
            Some((v, rest)) => {
                &&& r is Some
                &&& r->Some_0.0@ == v
                &&& r->Some_0.1 == (b@.len() - rest.len()) as usize
                &&& b@.skip((b@.len() - rest.len()) as int) == rest
            },
        },
{
    let (n, pos2) = match take_u32(b, pos) {
        None => {
            return None;
        },
        Some(p) => p,
    };
    if b.len() - pos2 < n as usize {
        proof {
            let rest = b@.skip(pos as int).skip(4);
            assert(rest =~= b@.skip(pos2 as int));
        }
        return None;
    }
    let section = slice_to_vec(slice_subrange(b, pos2, pos2 + n as usize));
    proof {
        let rest = b@.skip(pos as int).skip(4);
        assert(rest =~= b@.skip(pos2 as int));
        assert(rest.take(n as int) =~= b@.subrange(pos2 as int, pos2 + n as int));
        assert(rest.skip(n as int) =~= b@.skip(pos2 + n as int));
    }
    match string_from_utf8(section) {
        None => None,
        Some(s) => Some((s, pos2 + n as usize)),
    }
}

/// Append the encoding of a u16 to `out`.
fn push_u16(out: &mut Vec<u8>, x: u16)
    ensures
        final(out)@ == old(out)@ + spec_u16_to_le_bytes(x),
{
    let mut bytes = u16_to_le_bytes(x);
    out.append(&mut bytes);
}

/// Append the encoding of a u32 to `out`.
fn push_u32(out: &mut Vec<u8>, x: u32)
    ensures
        final(out)@ == old(out)@ + spec_u32_to_le_bytes(x),
{
    let mut bytes = u32_to_le_bytes(x);
    out.append(&mut bytes);
}

/// Append the encoding of a u64 to `out`.
fn push_u64(out: &mut Vec<u8>, x: u64)
    ensures
        final(out)@ == old(out)@ + spec_u64_to_le_bytes(x),
{
    let mut bytes = u64_to_le_bytes(x);
    out.append(&mut bytes);
}

/// Append the encoding of a boolean to `out`.
fn push_bool(out: &mut Vec<u8>, x: bool)
    ensures
        final(out)@ == old(out)@ + spec_encode_bool(x),
{
    out.push(if x { 1 } else { 0 });
    proof {
        assert(final(out)@ =~= old(out)@ + spec_encode_bool(x));
    }
}

/// Append the encoding of a string to `out`; fails without a change when
/// the string does not fit the 4-byte length field.
fn push_string(out: &mut Vec<u8>, s: &str) -> (r: bool)
    ensures
        r == spec_string_fits(s@),
        r ==> final(out)@ == old(out)@ + spec_encode_string(s@),
        !r ==> final(out)@ == old(out)@,
{
    let bytes = s.as_bytes_vec();
    if bytes.len() > u32::MAX as usize {
        return false;
    }
    push_u32(out, bytes.len() as u32);
    let mut bytes = bytes;
    out.append(&mut bytes);
    true
}

/// The content of a header, with strings as character sequences; what
/// the codec preserves.
pub ghost struct HeaderModel {
    pub device_id: Seq<char>,
    pub sensor_id: Seq<char>,
    pub frame_id: Seq<char>,
    pub seq: u64,
    pub t_utc_ns: u64,
    pub t_mono_ns: u64,
    pub pps_locked: bool,
    pub ptp_locked: bool,
    pub clock_err_ppb: i32,
    pub sigma_t_ns: u32,
    pub schema_v: u16,
}

impl Header {
    /// The content of this header.
    pub open spec fn model(self) -> HeaderModel {
        HeaderModel {
            device_id: self.device_id@,
            sensor_id: self.sensor_id@,
            frame_id: self.frame_id@,
            seq: self.seq,
            t_utc_ns: self.t_utc_ns,
            t_mono_ns: self.t_mono_ns,
            pps_locked: self.pps_locked,
            ptp_locked: self.ptp_locked,
            clock_err_ppb: self.clock_err_ppb,
            sigma_t_ns: self.sigma_t_ns,
            schema_v: self.schema_v,
        }
    }
}

/// True when every string of the header fits the codec's length fields.
pub open spec fn spec_header_fits(m: HeaderModel) -> bool {
    &&& spec_string_fits(m.device_id)
    &&& spec_string_fits(m.sensor_id)
    &&& spec_string_fits(m.frame_id)
}

/// The encoding of the numeric tail of a header: every field after the
/// three identity strings, in declaration order.
pub open spec fn spec_encode_header_nums(m: HeaderModel) -> Seq<u8> {
    spec_u64_to_le_bytes(m.seq) + spec_u64_to_le_bytes(m.t_utc_ns) + spec_u64_to_le_bytes(
        m.t_mono_ns,
    ) + spec_encode_bool(m.pps_locked) + spec_encode_bool(m.ptp_locked) + spec_u32_to_le_bytes(
        m.clock_err_ppb as u32,
    ) + spec_u32_to_le_bytes(m.sigma_t_ns) + spec_u16_to_le_bytes(m.schema_v)
}

/// The encoding of a header: its fields in declaration order.
pub open spec fn spec_encode_header(m: HeaderModel) -> Seq<u8> {
    spec_encode_string(m.device_id) + spec_encode_string(m.sensor_id) + spec_encode_string(
        m.frame_id,
    ) + spec_encode_header_nums(m)
}

/// The three timestamps-and-sequence fields of the numeric tail.
pub open spec fn spec_encode_header_times(m: HeaderModel) -> Seq<u8> {
    spec_u64_to_le_bytes(m.seq) + spec_u64_to_le_bytes(m.t_utc_ns) + spec_u64_to_le_bytes(
        m.t_mono_ns,
    )
}

/// The synchronisation fields of the numeric tail.
pub open spec fn spec_encode_header_sync(m: HeaderModel) -> Seq<u8> {
    spec_encode_bool(m.pps_locked) + spec_encode_bool(m.ptp_locked) + spec_u32_to_le_bytes(
        m.clock_err_ppb as u32,
    ) + spec_u32_to_le_bytes(m.sigma_t_ns) + spec_u16_to_le_bytes(m.schema_v)
}

/// Take the sequence number and the two timestamps from the front of `b`.
pub open spec fn spec_take_header_times(b: Seq<u8>) -> Option<((u64, u64, u64), Seq<u8>)> {
    match spec_take_u64(b) {
        None => None,
        Some((seq, b)) => match spec_take_u64(b) {
            None => None,
            Some((t_utc_ns, b)) => match spec_take_u64(b) {
                None => None,
                Some((t_mono_ns, b)) => Some(((seq, t_utc_ns, t_mono_ns), b)),
            },
        },
    }
}

/// Take the synchronisation fields from the front of `b`.
pub open spec fn spec_take_header_sync(b: Seq<u8>) -> Option<
    ((bool, bool, u32, u32, u16), Seq<u8>),
> {
    match spec_take_bool(b) {
        None => None,
        Some((pps_locked, b)) => match spec_take_bool(b) {
            None => None,
            Some((ptp_locked, b)) => match spec_take_u32(b) {
                None => None,
                Some((clock_err, b)) => match spec_take_u32(b) {
                    None => None,
                    Some((sigma_t_ns, b)) => match spec_take_u16(b) {
                        None => None,
                        Some((schema_v, b)) => Some(
                            ((pps_locked, ptp_locked, clock_err, sigma_t_ns, schema_v), b),
                        ),
                    },
                },
            },
        },
    }
}

/// Take the numeric tail of a header from the front of `b`.
pub open spec fn spec_take_header_nums(b: Seq<u8>) -> Option<
    ((u64, u64, u64, bool, bool, u32, u32, u16), Seq<u8>),
> {
    match spec_take_header_times(b) {
        None => None,
        Some(((seq, t_utc_ns, t_mono_ns), b)) => match spec_take_header_sync(b) {
            None => None,
            Some(((pps_locked, ptp_locked, clock_err, sigma_t_ns, schema_v), b)) => Some(
                (
                    (
                        seq,
                        t_utc_ns,
                        t_mono_ns,
                        pps_locked,
                        ptp_locked,
                        clock_err,
                        sigma_t_ns,
                        schema_v,
                    ),
                    b,
                ),
            ),
        },
    }
}

/// Taking the timestamp fields from their encoding followed by anything
/// returns the fields and that remainder.
#[verifier::spinoff_prover]
proof fn lemma_take_header_times_encode(m: HeaderModel, rest: Seq<u8>)
    ensures
        spec_take_header_times(spec_encode_header_times(m) + rest) == Some(
            ((m.seq, m.t_utc_ns, m.t_mono_ns), rest),
        ),
{
    let b2 = spec_u64_to_le_bytes(m.t_mono_ns) + rest;
    let b1 = spec_u64_to_le_bytes(m.t_utc_ns) + b2;
    assert(spec_encode_header_times(m) + rest =~= spec_u64_to_le_bytes(m.seq) + b1);
    lemma_take_u64_encode(m.seq, b1);
    lemma_take_u64_encode(m.t_utc_ns, b2);
    lemma_take_u64_encode(m.t_mono_ns, rest);
}

/// Taking the synchronisation fields from their encoding followed by
/// anything returns the fields and that remainder.
#[verifier::spinoff_prover]
proof fn lemma_take_header_sync_encode(m: HeaderModel, rest: Seq<u8>)
    ensures
        spec_take_header_sync(spec_encode_header_sync(m) + rest) == Some(
            (
                (m.pps_locked, m.ptp_locked, m.clock_err_ppb as u32, m.sigma_t_ns, m.schema_v),
                rest,
            ),
        ),
{
    let b4 = spec_u16_to_le_bytes(m.schema_v) + rest;
    let b3 = spec_u32_to_le_bytes(m.sigma_t_ns) + b4;
    let b2 = spec_u32_to_le_bytes(m.clock_err_ppb as u32) + b3;
    let b1 = spec_encode_bool(m.ptp_locked) + b2;
    assert(spec_encode_header_sync(m) + rest =~= spec_encode_bool(m.pps_locked) + b1);
    lemma_take_bool_encode(m.pps_locked, b1);
    lemma_take_bool_encode(m.ptp_locked, b2);
    lemma_take_u32_encode(m.clock_err_ppb as u32, b3);
    lemma_take_u32_encode(m.sigma_t_ns, b4);
    lemma_take_u16_encode(m.schema_v, rest);
}

/// Taking the numeric tail from its encoding followed by anything returns
/// the fields and that remainder.
#[verifier::spinoff_prover]
proof fn lemma_take_header_nums_encode(m: HeaderModel, rest: Seq<u8>)
    ensures
        spec_take_header_nums(spec_encode_header_nums(m) + rest) == Some(
            (
                (
                    m.seq,
                    m.t_utc_ns,
                    m.t_mono_ns,
                    m.pps_locked,
                    m.ptp_locked,
                    m.clock_err_ppb as u32,
                    m.sigma_t_ns,
                    m.schema_v,
                ),
                rest,
            ),
        ),
{
    let b1 = spec_encode_header_sync(m) + rest;
    assert(spec_encode_header_nums(m) + rest =~= spec_encode_header_times(m) + b1);
    lemma_take_header_times_encode(m, b1);
    lemma_take_header_sync_encode(m, rest);
}

/// Take a header from the front of `b`: its content and the remainder.
#[verifier::opaque]
pub open spec fn spec_take_header(b: Seq<u8>) -> Option<(HeaderModel, Seq<u8>)> {
    match spec_take_string(b) {
        None => None,
        Some((device_id, b)) => match spec_take_string(b) {
            None => None,
            Some((sensor_id, b)) => match spec_take_string(b) {
                None => None,
                Some((frame_id, b)) => match spec_take_header_nums(b) {
                    None => None,
                    Some(
                        (
                            (
                                seq,
                                t_utc_ns,
                                t_mono_ns,
                                pps_locked,
                                ptp_locked,
                                clock_err,
                                sigma_t_ns,
                                schema_v,
                            ),
                            b,
                        ),
                    ) => Some(
                        (
                            HeaderModel {
                                device_id,
                                sensor_id,
                                frame_id,
                                seq,
                                t_utc_ns,
                                t_mono_ns,
                                pps_locked,
                                ptp_locked,
                                clock_err_ppb: clock_err as i32,
                                sigma_t_ns,
                                schema_v,
                            },
                            b,
                        ),
                    ),
                },
            },
        },
    }
}

/// Decoding a header's encoding, followed by anything, returns the header
/// and that remainder: the codec preserves every field.
#[verifier::spinoff_prover]
pub proof fn lemma_take_header_encode(m: HeaderModel, rest: Seq<u8>)
    requires
        spec_header_fits(m),
    ensures
        spec_take_header(spec_encode_header(m) + rest) == Some((m, rest)),
{
    reveal(spec_take_header);
    let b3 = spec_encode_header_nums(m) + rest;
    let b2 = spec_encode_string(m.frame_id) + b3;
    let b1 = spec_encode_string(m.sensor_id) + b2;
    assert(spec_encode_header(m) + rest =~= spec_encode_string(m.device_id) + b1);
    lemma_take_string_encode(m.device_id, b1);
    assert(b1 =~= spec_encode_string(m.sensor_id) + b2);
    lemma_take_string_encode(m.sensor_id, b2);
    assert(b2 =~= spec_encode_string(m.frame_id) + b3);
    lemma_take_string_encode(m.frame_id, b3);
    lemma_take_header_nums_encode(m, rest);
    lemma_i32_cast_roundtrip(m.clock_err_ppb);
}

/// Encode a header; fails only when one of its strings does not fit a
/// 4-byte length field.
pub fn encode_header(h: &Header) -> (r: Option<Vec<u8>>)
    ensures
        r is Some <==> spec_header_fits(h.model()),
        r matches Some(v) ==> v@ == spec_encode_header(h.model()),
{
    let mut out: Vec<u8> = Vec::new();
    if !push_string(&mut out, h.device_id.as_str()) {
        return None;
    }
    if !push_string(&mut out, h.sensor_id.as_str()) {
        return None;
    }
    if !push_string(&mut out, h.frame_id.as_str()) {
        return None;
    }
    push_u64(&mut out, h.seq);
    push_u64(&mut out, h.t_utc_ns);
    push_u64(&mut out, h.t_mono_ns);
    push_bool(&mut out, h.pps_locked);
    push_bool(&mut out, h.ptp_locked);
    proof {
        lemma_i32_cast_roundtrip(h.clock_err_ppb);
    }
    push_u32(&mut out, #[verifier::truncate] (h.clock_err_ppb as u32));
    push_u32(&mut out, h.sigma_t_ns);
    push_u16(&mut out, h.schema_v);
    proof {
        assert(out@ =~= spec_encode_header(h.model()));
    }
    Some(out)
}

/// Decode a header at `pos`; on success the new position follows it.
pub fn decode_header(b: &[u8], pos: usize) -> (r: Option<(Header, usize)>)
    requires
        pos <= b@.len(),
    ensures
        match spec_take_header(b@.skip(pos as int)) {
            None => r is None,
            Some((m, rest)) => {
                &&& r is Some
                &&& r->Some_0.0.model() == m
                &&& rest.len() + pos <= b@.len()
                &&& r->Some_0.1 == (b@.len() - rest.len()) as usize
                &&& b@.skip((b@.len() - rest.len()) as int) == rest
            },
        },
{
    proof {
        reveal(spec_take_header);
    }
    let total: usize = b.len();
    let ghost pre_device_id = b@.skip(pos as int);
    let (device_id, pos) = match take_string(b, pos) {
        None => { return None; },
        Some(p) => p,
    };
    proof {
        assert(b@.skip(pos as int) =~= spec_take_string(pre_device_id)->Some_0.1);
    }
    let ghost pre_sensor_id = b@.skip(pos as int);
    let (sensor_id, pos) = match take_string(b, pos) {
        None => { return None; },
        Some(p) => p,
    };
    proof {
        assert(b@.skip(pos as int) =~= spec_take_string(pre_sensor_id)->Some_0.1);
    }
    let ghost pre_frame_id = b@.skip(pos as int);
    let (frame_id, pos) = match take_string(b, pos) {
        None => { return None; },
        Some(p) => p,
    };
    proof {
        assert(b@.skip(pos as int) =~= spec_take_string(pre_frame_id)->Some_0.1);
    }
    let ghost pre_seq = b@.skip(pos as int);
    let (seq, pos) = match take_u64(b, pos) {
        None => { return None; },
        Some(p) => p,
    };
    proof {
        assert(b@.skip(pos as int) =~= spec_take_u64(pre_seq)->Some_0.1);
    }
    let ghost pre_t_utc_ns = b@.skip(pos as int);
    let (t_utc_ns, pos) = match take_u64(b, pos) {
        None => { return None; },
        Some(p) => p,
    };
    proof {
        assert(b@.skip(pos as int) =~= spec_take_u64(pre_t_utc_ns)->Some_0.1);
    }
    let ghost pre_t_mono_ns = b@.skip(pos as int);
    let (t_mono_ns, pos) = match take_u64(b, pos) {
        None => { return None; },
        Some(p) => p,
    };
    proof {
        assert(b@.skip(pos as int) =~= spec_take_u64(pre_t_mono_ns)->Some_0.1);
    }
    let ghost pre_pps_locked = b@.skip(pos as int);
    let (pps_locked, pos) = match take_bool(b, pos) {
        None => { return None; },
        Some(p) => p,
    };
    proof {
        assert(b@.skip(pos as int) =~= spec_take_bool(pre_pps_locked)->Some_0.1);
    }
    let ghost pre_ptp_locked = b@.skip(pos as int);
    let (ptp_locked, pos) = match take_bool(b, pos) {
        None => { return None; },
        Some(p) => p,
    };
    proof {
        assert(b@.skip(pos as int) =~= spec_take_bool(pre_ptp_locked)->Some_0.1);
    }
    let ghost pre_clock_err = b@.skip(pos as int);
    let (clock_err, pos) = match take_u32(b, pos) {
        None => { return None; },
        Some(p) => p,
    };
    proof {
        assert(b@.skip(pos as int) =~= spec_take_u32(pre_clock_err)->Some_0.1);
    }
    let ghost pre_sigma_t_ns = b@.skip(pos as int);
    let (sigma_t_ns, pos) = match take_u32(b, pos) {
        None => { return None; },
        Some(p) => p,
    };
    proof {
        assert(b@.skip(pos as int) =~= spec_take_u32(pre_sigma_t_ns)->Some_0.1);
    }
    let ghost pre_schema_v = b@.skip(pos as int);
    let (schema_v, pos) = match take_u16(b, pos) {
        None => { return None; },
        Some(p) => p,
    };
    proof {
        assert(b@.skip(pos as int) =~= spec_take_u16(pre_schema_v)->Some_0.1);
    }
    let h = Header {
        device_id,
        sensor_id,
        frame_id,
        seq,
        t_utc_ns,
        t_mono_ns,
        pps_locked,
        ptp_locked,
        clock_err_ppb: #[verifier::truncate] (clock_err as i32),
        sigma_t_ns,
        schema_v,
    };
    Some((h, pos))
}

/// The tag byte that opens the encoding of each message kind.
pub const TAG_IMU: u8 = 1;

/// The tag byte of a magnetometer message.
pub const TAG_MAGNETOMETER: u8 = 2;

/// The tag byte of a barometer message.
pub const TAG_BAROMETER: u8 = 3;

/// The encoding of an i64: its two's complement, little-endian.
pub open spec fn spec_encode_i64(x: i64) -> Seq<u8> {
    spec_u64_to_le_bytes(x as u64)
}

/// Take an i64 from the front of `b`: its value and the remainder.
pub open spec fn spec_take_i64(b: Seq<u8>) -> Option<(i64, Seq<u8>)> {
    match spec_take_u64(b) {
        None => None,
        Some((v, rest)) => Some((v as i64, rest)),
    }
}

/// Taking an i64 from its encoding followed by anything returns the value
/// and that remainder.
proof fn lemma_take_i64_encode(x: i64, rest: Seq<u8>)
    ensures
        spec_take_i64(spec_encode_i64(x) + rest) == Some((x, rest)),
{
    lemma_take_u64_encode(x as u64, rest);
    lemma_i64_cast_roundtrip(x);
}

/// Read an i64 at `pos`; on success the new position follows the field.
fn take_i64(b: &[u8], pos: usize) -> (r: Option<(i64, usize)>)
    requires
        pos <= b@.len(),
    ensures
        match spec_take_i64(b@.skip(pos as int)) {
            None => r is None,
            Some((v, rest)) => r == Some((v, (b@.len() - rest.len()) as usize))
                && b@.skip((b@.len() - rest.len()) as int) == rest,
        },
{
    match take_u64(b, pos) {
        None => None,
        Some((v, pos2)) => Some((#[verifier::truncate] (v as i64), pos2)),
    }
}

/// Append the encoding of an i64 to `out`.
fn push_i64(out: &mut Vec<u8>, x: i64)
    ensures
        final(out)@ == old(out)@ + spec_encode_i64(x),
{
    push_u64(out, #[verifier::truncate] (x as u64));
}

/// The content of a sensor message; what the codec preserves.
pub ghost enum MessageModel {
    Imu { h: HeaderModel, ax: i64, ay: i64, az: i64, gx: i64, gy: i64, gz: i64 },
    Magnetometer { h: HeaderModel, mx: i64, my: i64, mz: i64 },
    Barometer { h: HeaderModel, pressure: i64, temperature: i64, altitude: i64 },
}

impl MessageModel {
    /// The header content of this message.
    pub open spec fn header(self) -> HeaderModel {
        match self {
            MessageModel::Imu { h, .. } => h,
            MessageModel::Magnetometer { h, .. } => h,
            MessageModel::Barometer { h, .. } => h,
        }
    }
}

impl SensorMessage {
    /// The content of this message.
    pub open spec fn model(self) -> MessageModel {
        match self {
            SensorMessage::Imu(m) => MessageModel::Imu {
                h: m.h.model(),
                ax: m.ax,
                ay: m.ay,
                az: m.az,
                gx: m.gx,
                gy: m.gy,
                gz: m.gz,
            },
            SensorMessage::Magnetometer(m) => MessageModel::Magnetometer {
                h: m.h.model(),
                mx: m.mx,
                my: m.my,
                mz: m.mz,
            },
            SensorMessage::Barometer(m) => MessageModel::Barometer {
                h: m.h.model(),
                pressure: m.pressure,
                temperature: m.temperature,
                altitude: m.altitude,
            },
        }
    }
}

/// The encoding of the measurement values of a message, after its header.
pub open spec fn spec_encode_message_body(m: MessageModel) -> Seq<u8> {
    match m {
        MessageModel::Imu { h: _, ax, ay, az, gx, gy, gz } => spec_encode_i64(ax)
            + spec_encode_i64(ay) + spec_encode_i64(az) + spec_encode_i64(gx) + spec_encode_i64(
            gy,
        ) + spec_encode_i64(gz),
        MessageModel::Magnetometer { h: _, mx, my, mz } => spec_encode_i64(mx) + spec_encode_i64(
            my,
        ) + spec_encode_i64(mz),
        MessageModel::Barometer { h: _, pressure, temperature, altitude } => spec_encode_i64(
            pressure,
        ) + spec_encode_i64(temperature) + spec_encode_i64(altitude),
    }
}

/// The tag byte of a message.
pub open spec fn spec_message_tag(m: MessageModel) -> u8 {
    match m {
        MessageModel::Imu { .. } => TAG_IMU,
        MessageModel::Magnetometer { .. } => TAG_MAGNETOMETER,
        MessageModel::Barometer { .. } => TAG_BAROMETER,
    }
}

/// The encoding of a message: its tag, its header, its values.
pub open spec fn spec_encode_message(m: MessageModel) -> Seq<u8> {
    seq![spec_message_tag(m)] + spec_encode_header(m.header()) + spec_encode_message_body(m)
}

/// Take three i64 values from the front of `b`.
pub open spec fn spec_take_i64x3(b: Seq<u8>) -> Option<((i64, i64, i64), Seq<u8>)> {
    match spec_take_i64(b) {
        None => None,
        Some((x, b)) => match spec_take_i64(b) {
            None => None,
            Some((y, b)) => match spec_take_i64(b) {
                None => None,
                Some((z, b)) => Some(((x, y, z), b)),
            },
        },
    }
}

/// Take a message from the front of `b`: its content and the remainder.
pub open spec fn spec_take_message(b: Seq<u8>) -> Option<(MessageModel, Seq<u8>)> {
    if b.len() < 1 {
        None
    } else {
        let tag = b[0];
        match spec_take_header(b.skip(1)) {
            None => None,
            Some((h, b)) => if tag == TAG_IMU {
                match spec_take_i64x3(b) {
                    None => None,
                    Some(((ax, ay, az), b)) => match spec_take_i64x3(b) {
                        None => None,
                        Some(((gx, gy, gz), b)) => Some(
                            (MessageModel::Imu { h, ax, ay, az, gx, gy, gz }, b),
                        ),
                    },
                }
            } else if tag == TAG_MAGNETOMETER {
                match spec_take_i64x3(b) {
                    None => None,
                    Some(((mx, my, mz), b)) => Some(
                        (MessageModel::Magnetometer { h, mx, my, mz }, b),
                    ),
                }
            } else if tag == TAG_BAROMETER {
                match spec_take_i64x3(b) {
                    None => None,
                    Some(((pressure, temperature, altitude), b)) => Some(
                        (MessageModel::Barometer { h, pressure, temperature, altitude }, b),
                    ),
                }
            } else {
                None
            },
        }
    }
}

/// Taking three i64 values from their encodings followed by anything
/// returns the values and that remainder.
proof fn lemma_take_i64x3_encode(x: i64, y: i64, z: i64, rest: Seq<u8>)
    ensures
        spec_take_i64x3(
            spec_encode_i64(x) + spec_encode_i64(y) + spec_encode_i64(z) + rest,
        ) == Some(((x, y, z), rest)),
{
    let b2 = spec_encode_i64(z) + rest;
    let b1 = spec_encode_i64(y) + b2;
    assert(spec_encode_i64(x) + spec_encode_i64(y) + spec_encode_i64(z) + rest =~= spec_encode_i64(
        x,
    ) + b1);
    lemma_take_i64_encode(x, b1);
    lemma_take_i64_encode(y, b2);
    lemma_take_i64_encode(z, rest);
}

/// Decoding a message's encoding, followed by anything, returns the
/// message and that remainder: the codec preserves every field.
#[verifier::rlimit(100)]
#[verifier::spinoff_prover]
pub proof fn lemma_take_message_encode(m: MessageModel, rest: Seq<u8>)
    requires
        spec_header_fits(m.header()),
    ensures
        spec_take_message(spec_encode_message(m) + rest) == Some((m, rest)),
{
    let body = spec_encode_message_body(m);
    let b = spec_encode_message(m) + rest;
    assert(b.skip(1) =~= spec_encode_header(m.header()) + (body + rest));
    lemma_take_header_encode(m.header(), body + rest);
    match m {
        MessageModel::Imu { h: _, ax, ay, az, gx, gy, gz } => {
            let second = spec_encode_i64(gx) + spec_encode_i64(gy) + spec_encode_i64(gz) + rest;
            assert(body + rest =~= spec_encode_i64(ax) + spec_encode_i64(ay) + spec_encode_i64(az)
                + second);
            lemma_take_i64x3_encode(ax, ay, az, second);
            lemma_take_i64x3_encode(gx, gy, gz, rest);
        },
        MessageModel::Magnetometer { h: _, mx, my, mz } => {
            assert(body + rest =~= spec_encode_i64(mx) + spec_encode_i64(my) + spec_encode_i64(mz)
                + rest);
            lemma_take_i64x3_encode(mx, my, mz, rest);
        },
        MessageModel::Barometer { h: _, pressure, temperature, altitude } => {
            assert(body + rest =~= spec_encode_i64(pressure) + spec_encode_i64(temperature)
                + spec_encode_i64(altitude) + rest);
            lemma_take_i64x3_encode(pressure, temperature, altitude, rest);
        },
    }
}

/// Encode a message; fails only when one of its header strings does not
/// fit a 4-byte length field.
pub fn encode_message(m: &SensorMessage) -> (r: Option<Vec<u8>>)
    ensures
        r is Some <==> spec_header_fits(m.model().header()),
        r matches Some(v) ==> v@ == spec_encode_message(m.model()),
{
    let mut out: Vec<u8> = Vec::new();
    match m {
        SensorMessage::Imu(msg) => {
            out.push(TAG_IMU);
            let header_bytes = match encode_header(&msg.h) {
                None => { return None; },
                Some(v) => v,
            };
            let mut header_bytes = header_bytes;
            out.append(&mut header_bytes);
            push_i64(&mut out, msg.ax);
            push_i64(&mut out, msg.ay);
            push_i64(&mut out, msg.az);
            push_i64(&mut out, msg.gx);
            push_i64(&mut out, msg.gy);
            push_i64(&mut out, msg.gz);
        },
        SensorMessage::Magnetometer(msg) => {
            out.push(TAG_MAGNETOMETER);
            let header_bytes = match encode_header(&msg.h) {
                None => { return None; },
                Some(v) => v,
            };
            let mut header_bytes = header_bytes;
            out.append(&mut header_bytes);
            push_i64(&mut out, msg.mx);
            push_i64(&mut out, msg.my);
            push_i64(&mut out, msg.mz);
        },
        SensorMessage::Barometer(msg) => {
            out.push(TAG_BAROMETER);
            let header_bytes = match encode_header(&msg.h) {
                None => { return None; },
                Some(v) => v,
            };
            let mut header_bytes = header_bytes;
            out.append(&mut header_bytes);
            push_i64(&mut out, msg.pressure);
            push_i64(&mut out, msg.temperature);
            push_i64(&mut out, msg.altitude);
        },
    }
    proof {
        assert(out@ =~= spec_encode_message(m.model()));
    }
    Some(out)
}

/// Decode three i64 values at `pos`.
fn take_i64x3(b: &[u8], pos: usize) -> (r: Option<((i64, i64, i64), usize)>)
    requires
        pos <= b@.len(),
    ensures
        match spec_take_i64x3(b@.skip(pos as int)) {
            None => r is None,
            Some((v, rest)) => r == Some((v, (b@.len() - rest.len()) as usize))
                && b@.skip((b@.len() - rest.len()) as int) == rest,
        },
{
    let total: usize = b.len();
    let ghost pre_x = b@.skip(pos as int);
    let (x, pos) = match take_i64(b, pos) {
        None => { return None; },
        Some(p) => p,
    };
    let (y, pos) = match take_i64(b, pos) {
        None => { return None; },
        Some(p) => p,
    };
    let (z, pos) = match take_i64(b, pos) {
        None => { return None; },
        Some(p) => p,
    };
    Some(((x, y, z), pos))
}

/// Decode a message at `pos`; on success the new position follows it.
#[verifier::rlimit(100)]
#[verifier::spinoff_prover]
pub fn decode_message(b: &[u8], pos: usize) -> (r: Option<(SensorMessage, usize)>)
    requires
        pos <= b@.len(),
    ensures
        match spec_take_message(b@.skip(pos as int)) {
            None => r is None,
            Some((m, rest)) => {
                &&& r is Some
                &&& r->Some_0.0.model() == m
                &&& r->Some_0.1 == (b@.len() - rest.len()) as usize
            },
        },
{
    let total: usize = b.len();
    if total - pos < 1 {
        return None;
    }
    let tag = b[pos];
    proof {
        assert(b@.skip(pos as int)[0] == b@[pos as int]);
        assert(b@.skip(pos as int).skip(1) =~= b@.skip(pos + 1));
    }
    let (h, pos2) = match decode_header(b, pos + 1) {
        None => {
            return None;
        },
        Some(p) => p,
    };
    proof {
        assert(b@.skip(pos2 as int) =~= spec_take_header(b@.skip(pos + 1))->Some_0.1);
    }
    if tag == TAG_IMU {
        let ((ax, ay, az), pos3) = match take_i64x3(b, pos2) {
            None => { return None; },
            Some(p) => p,
        };
        let ((gx, gy, gz), pos4) = match take_i64x3(b, pos3) {
            None => { return None; },
            Some(p) => p,
        };
        Some((SensorMessage::Imu(ImuMessage { h, ax, ay, az, gx, gy, gz }), pos4))
    } else if tag == TAG_MAGNETOMETER {
        let ((mx, my, mz), pos3) = match take_i64x3(b, pos2) {
            None => { return None; },
            Some(p) => p,
        };
        Some((SensorMessage::Magnetometer(MagnetometerMessage { h, mx, my, mz }), pos3))
    } else if tag == TAG_BAROMETER {
        let ((pressure, temperature, altitude), pos3) = match take_i64x3(b, pos2) {
            None => { return None; },
            Some(p) => p,
        };
        Some(
            (
                SensorMessage::Barometer(
                    BarometerMessage { h, pressure, temperature, altitude },
                ),
                pos3,
            ),
        )
    } else {
        None
    }
}

/// Payloads derived from a frame round-trip through the codec unchanged:
/// decoding the encoding of any message that `spec_derived_messages`
/// yields returns that message's content exactly.
pub proof fn lemma_derived_payloads_roundtrip(
    frame: crate::frame::SensorDataFrame,
    h: Header,
    altitude_um: i64,
    rest: Seq<u8>,
    k: int,
)
    requires
        spec_header_fits(h.model()),
        0 <= k < crate::scheduler::spec_derived_messages(frame, h, altitude_um).len(),
    ensures
        ({
            let m = crate::scheduler::spec_derived_messages(frame, h, altitude_um)[k].model();
            spec_take_message(spec_encode_message(m) + rest) == Some((m, rest))
        }),
{
    let msg = crate::scheduler::spec_derived_messages(frame, h, altitude_um)[k];
    crate::scheduler::lemma_derived_messages_share_header(frame, h, altitude_um, k);
    assert(msg.model().header() == h.model());
    lemma_take_message_encode(msg.model(), rest);
}

} // verus!
