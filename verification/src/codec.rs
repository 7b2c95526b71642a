//! The wire format shared by the host and the embedded hardware: a stream of
//! back-to-back encoded packets with no framing and no length prefix. Each
//! packet is a one-byte variant tag followed by the variant's body; numeric
//! fields use a base-128 variable-length encoding, so a packet is
//! self-delimiting within a single contiguous read.
//!
//! A decoder parses as many complete packets as a buffer prefix holds and
//! returns the unconsumed suffix; the proofs below show that decoding inverts
//! encoding and that decoding a concatenation of encoded packets recovers
//! exactly the packets that were encoded.
use vstd::prelude::*;
use crate::packet::{
    LogString, Packet, PacketModel, ReportControlTargetsPacket, ReportSensorsPacket,
    ReportLogLinePacket, RequestConnectionPacket, AcceptConnectionPacket, RpmModel,
    LOG_LINE_MAX_BYTES,
};
use crate::percentage::{Percentage, PERCENT_EIGHTHS_MAX};
use crate::rpm::Rpm;
use crate::valve::ValveState;

verus! {

/// Greatest number of bytes a variable-length 32-bit word may occupy.
pub const VARINT_MAX_BYTES: usize = 5;

/// 128 raised to the `k`-th power; the number of values `k` base-128 digits
/// can carry.
pub open spec fn pow128(k: nat) -> nat
    decreases k,
{
    if k == 0 {
        1
    } else {
        128 * pow128((k - 1) as nat)
    }
}

/// The base-128 variable-length encoding of `v`: each byte carries seven low
/// bits of the value, least significant group first, and the high bit of a
/// byte says that more bytes follow.
pub open spec fn spec_encode_varint(v: nat) -> Seq<u8>
    decreases v,
{
    if v < 128 {
        seq![v as u8]
    } else {
        seq![(128 + (v % 128)) as u8] + spec_encode_varint(v / 128)
    }
}

/// Parse a base-128 variable-length number at index `i` of `s`, reading at
/// most `fuel` bytes. Yields the value and the index just past it.
pub open spec fn spec_parse_varint_rec(s: Seq<u8>, i: int, fuel: nat) -> Option<(nat, int)>
    decreases fuel,
{
    if fuel == 0 || i < 0 || i >= s.len() {
        None
    } else if s[i] < 128 {
        Some((s[i] as nat, i + 1))
    } else {
        match spec_parse_varint_rec(s, i + 1, (fuel - 1) as nat) {
            None => None,
            Some((rest, j)) => Some((((s[i] - 128) as nat + 128 * rest), j)),
        }
    }
}

/// Parse a 32-bit word at index `i` of `s`: at most five bytes, and the value
/// must fit in 32 bits.
pub open spec fn spec_parse_varint32(s: Seq<u8>, i: int) -> Option<(u32, int)> {
    match spec_parse_varint_rec(s, i, VARINT_MAX_BYTES as nat) {
        None => None,
        Some((v, j)) => if v <= u32::MAX {
            Some((v as u32, j))
        } else {
            None
        },
    }
}

/// `pow128` is positive.
proof fn lemma_pow128_pos(k: nat)
    ensures
        pow128(k) >= 1,
    decreases k,
{
    if k > 0 {
        lemma_pow128_pos((k - 1) as nat);
    }
}

/// A successful varint parse consumes at least one byte, stays within the
/// buffer, and yields a value below `pow128(fuel)`.
proof fn lemma_parse_varint_rec_bounds(s: Seq<u8>, i: int, fuel: nat)
    ensures
        spec_parse_varint_rec(s, i, fuel) matches Some((v, j)) ==> i < j <= s.len() && v < pow128(
            fuel,
        ),
    decreases fuel,
{
    if fuel > 0 && 0 <= i < s.len() {
        if s[i] < 128 {
            lemma_pow128_pos((fuel - 1) as nat);
        } else {
            lemma_parse_varint_rec_bounds(s, i + 1, (fuel - 1) as nat);
        }
    }
}

/// A value below `pow128(k)` encodes into at most `k` bytes.
proof fn lemma_encode_varint_len(v: nat, k: nat)
    requires
        k >= 1,
        v < pow128(k),
    ensures
        spec_encode_varint(v).len() <= k,
    decreases k,
{
    if v >= 128 {
        if k == 1 {
            assert(pow128(1) == 128 * pow128(0));
            assert(false);
        }
        assert(pow128(k) == 128 * pow128((k - 1) as nat));
        vstd::arithmetic::div_mod::lemma_multiply_divide_lt(
            v as int,
            128,
            pow128((k - 1) as nat) as int,
        );
        lemma_encode_varint_len(v / 128, (k - 1) as nat);
    }
}

/// Any 32-bit value encodes into at most five bytes.
proof fn lemma_encode_varint32_len(v: nat)
    requires
        v <= u32::MAX,
    ensures
        spec_encode_varint(v).len() <= VARINT_MAX_BYTES,
{
    assert(pow128(5) > u32::MAX) by {
        reveal_with_fuel(pow128, 6);
    }
    lemma_encode_varint_len(v, 5);
}

/// Parsing at a position where the encoding of `v` lies yields `v` and
/// consumes exactly its bytes, whatever follows it in the buffer.
proof fn lemma_parse_encoded_varint(s: Seq<u8>, i: int, v: nat, fuel: nat)
    requires
        spec_encode_varint(v).len() <= fuel,
        0 <= i,
        i + spec_encode_varint(v).len() <= s.len(),
        s.subrange(i, i + spec_encode_varint(v).len() as int) == spec_encode_varint(v),
    ensures
        spec_parse_varint_rec(s, i, fuel) == Some((v, i + spec_encode_varint(v).len())),
    decreases v,
{
    let enc = spec_encode_varint(v);
    assert(s[i] == enc[0]);
    if v < 128 {
        assert(spec_parse_varint_rec(s, i, fuel) == Some((v, i + 1)));
    } else {
        let tail = spec_encode_varint(v / 128);
        assert(enc == seq![(128 + (v % 128)) as u8] + tail);
        assert(s[i] == (128 + (v % 128)) as u8);
        assert(s[i] >= 128);
        assert(s.subrange(i + 1, i + 1 + tail.len() as int) == tail) by {
            assert forall|k: int| 0 <= k < tail.len() implies s.subrange(
                i + 1,
                i + 1 + tail.len() as int,
            )[k] == tail[k] by {
                assert(s.subrange(i, i + enc.len() as int)[k + 1] == enc[k + 1]);
            }
            assert(s.subrange(i + 1, i + 1 + tail.len() as int) =~= tail);
        }
        lemma_parse_encoded_varint(s, i + 1, v / 128, (fuel - 1) as nat);
        vstd::arithmetic::div_mod::lemma_fundamental_div_mod(v as int, 128);
        assert((s[i] - 128) as nat + 128 * (v / 128) == v);
    }
}

/// Parsing at a position where the encoding of a 32-bit `v` lies yields `v`.
proof fn lemma_parse_encoded_varint32(s: Seq<u8>, i: int, v: u32)
    requires
        0 <= i,
        i + spec_encode_varint(v as nat).len() <= s.len(),
        s.subrange(i, i + spec_encode_varint(v as nat).len() as int) == spec_encode_varint(
            v as nat,
        ),
    ensures
        spec_parse_varint32(s, i) == Some((v, i + spec_encode_varint(v as nat).len())),
{
    lemma_encode_varint32_len(v as nat);
    lemma_parse_encoded_varint(s, i, v as nat, VARINT_MAX_BYTES as nat);
}

/// Append the variable-length encoding of `v` to `out`.
fn encode_varint(v: u32, out: &mut Vec<u8>)
    ensures
        final(out)@ == old(out)@ + spec_encode_varint(v as nat),
    decreases v,
{
    if v < 128 {
        out.push(v as u8);
        assert(final(out)@ =~= old(out)@ + spec_encode_varint(v as nat));
    } else {
        out.push((128 + (v % 128)) as u8);
        let ghost mid = out@;
        encode_varint(v / 128, out);
        assert(final(out)@ =~= old(out)@ + spec_encode_varint(v as nat));
    }
}

/// Parse a variable-length number at `i`, reading at most `fuel` bytes.
fn parse_varint_rec(s: &[u8], i: usize, fuel: usize) -> (r: Option<(u64, usize)>)
    requires
        fuel <= VARINT_MAX_BYTES,
    ensures
        match spec_parse_varint_rec(s@, i as int, fuel as nat) {
            None => r is None,
            Some((v, j)) => r matches Some((rv, rj)) && rv as nat == v && rj == j,
        },
    decreases fuel,
{
    if fuel == 0 || i >= s.len() {
        return None;
    }
    let b = s[i];
    if b < 128 {
        Some((b as u64, i + 1))
    } else {
        match parse_varint_rec(s, i + 1, fuel - 1) {
            None => None,
            Some((rest, j)) => {
                proof {
                    lemma_parse_varint_rec_bounds(s@, i + 1 as int, (fuel - 1) as nat);
                    lemma_pow128_le5((fuel - 1) as nat);
                }
                Some(((b - 128) as u64 + 128 * rest, j))
            },
        }
    }
}

/// `pow128` of at most four digits stays below `2^35`.
proof fn lemma_pow128_le5(k: nat)
    requires
        k <= 4,
    ensures
        pow128(k) <= 0x10000000,
{
    reveal_with_fuel(pow128, 6);
    if k == 0 {
    } else if k == 1 {
    } else if k == 2 {
    } else if k == 3 {
    } else {
        assert(pow128(4) <= 0x10000000);
    }
}

/// Parse a 32-bit word at `i`: at most five bytes, value below `2^32`.
fn parse_varint32(s: &[u8], i: usize) -> (r: Option<(u32, usize)>)
    ensures
        match spec_parse_varint32(s@, i as int) {
            None => r is None,
            Some((v, j)) => r matches Some((rv, rj)) && rv == v && rj == j,
        },
        r matches Some((rv, rj)) ==> i < rj <= s@.len(),
{
    proof {
        lemma_parse_varint_rec_bounds(s@, i as int, VARINT_MAX_BYTES as nat);
    }
    match parse_varint_rec(s, i, VARINT_MAX_BYTES) {
        None => None,
        Some((v, j)) => {
            if v <= u32::MAX as u64 {
                Some((v as u32, j))
            } else {
                None
            }
        },
    }
}

/// Splitting a subrange known to equal a concatenation yields the two parts.
proof fn lemma_split_subrange(s: Seq<u8>, i: int, a: Seq<u8>, b: Seq<u8>)
    requires
        0 <= i,
        i + a.len() + b.len() <= s.len(),
        s.subrange(i, i + a.len() + b.len()) == a + b,
    ensures
        s.subrange(i, i + a.len() as int) == a,
        s.subrange(i + a.len(), i + a.len() + b.len()) == b,
{
    let whole = s.subrange(i, i + a.len() + b.len());
    assert forall|k: int| 0 <= k < a.len() implies s.subrange(i, i + a.len() as int)[k]
        == a[k] by {
        assert(whole[k] == (a + b)[k]);
    }
    assert forall|k: int| 0 <= k < b.len() implies s.subrange(
        i + a.len(),
        i + a.len() + b.len(),
    )[k] == b[k] by {
        assert(whole[k + a.len()] == (a + b)[k + a.len()]);
    }
    assert(s.subrange(i, i + a.len() as int) =~= a);
    assert(s.subrange(i + a.len(), i + a.len() + b.len()) =~= b);
}

/// The eight-byte connection magic carried by the handshake packets: the
/// ASCII bytes of `ab2dwask`.
pub open spec fn spec_magic() -> Seq<u8> {
    seq![97u8, 98u8, 50u8, 100u8, 119u8, 97u8, 115u8, 107u8]
}

/// Recognize the eight-byte connection magic at index `i` of `s`, yielding
/// the index just past it.
pub open spec fn spec_parse_magic(s: Seq<u8>, i: int) -> Option<int> {
    if 0 <= i && i + 8 <= s.len() && s.subrange(i, i + 8) == spec_magic() {
        Some(i + 8)
    } else {
        None
    }
}

/// Append the eight-byte connection magic to `out`.
fn encode_magic(out: &mut Vec<u8>)
    ensures
        final(out)@ == old(out)@ + spec_magic(),
{
    out.push(97);
    out.push(98);
    out.push(50);
    out.push(100);
    out.push(119);
    out.push(97);
    out.push(115);
    out.push(107);
    assert(final(out)@ =~= old(out)@ + spec_magic());
}

/// Recognize the eight-byte connection magic at `i`.
fn parse_magic(s: &[u8], i: usize) -> (r: Option<usize>)
    ensures
        match spec_parse_magic(s@, i as int) {
            None => r is None,
            Some(j) => r matches Some(rj) && rj == j,
        },
{
    if i >= s.len() || s.len() - i < 8 {
        return None;
    }
    let ok = s[i] == 97 && s[i + 1] == 98 && s[i + 2] == 50 && s[i + 3] == 100 && s[i + 4] == 119
        && s[i + 5] == 97 && s[i + 6] == 115 && s[i + 7] == 107;
    if ok {
        assert(s@.subrange(i as int, i + 8) =~= spec_magic());
        Some(i + 8)
    } else {
        assert(s@.subrange(i as int, i + 8) != spec_magic()) by {
            if s@.subrange(i as int, i + 8) == spec_magic() {
                assert(s@[i as int] == spec_magic()[0]);
                assert(s@[i + 1] == spec_magic()[1]);
                assert(s@[i + 2] == spec_magic()[2]);
                assert(s@[i + 3] == spec_magic()[3]);
                assert(s@[i + 4] == spec_magic()[4]);
                assert(s@[i + 5] == spec_magic()[5]);
                assert(s@[i + 6] == spec_magic()[6]);
                assert(s@[i + 7] == spec_magic()[7]);
            }
        }
        None
    }
}

/// The wire tag of a valve state.
pub open spec fn spec_valve_tag(v: ValveState) -> u32 {
    match v {
        ValveState::Open => 0,
        ValveState::Closed => 1,
        ValveState::Opening => 2,
        ValveState::Closing => 3,
        ValveState::Unknown => 4,
    }
}

/// The valve state a wire tag denotes, if any.
pub open spec fn spec_valve_of_tag(t: u32) -> Option<ValveState> {
    if t == 0 {
        Some(ValveState::Open)
    } else if t == 1 {
        Some(ValveState::Closed)
    } else if t == 2 {
        Some(ValveState::Opening)
    } else if t == 3 {
        Some(ValveState::Closing)
    } else if t == 4 {
        Some(ValveState::Unknown)
    } else {
        None
    }
}

/// The encoding of a valve state: its tag as a variable-length number.
pub open spec fn spec_encode_valve(v: ValveState) -> Seq<u8> {
    spec_encode_varint(spec_valve_tag(v) as nat)
}

/// Parse a valve state at index `i` of `s`.
pub open spec fn spec_parse_valve(s: Seq<u8>, i: int) -> Option<(ValveState, int)> {
    match spec_parse_varint32(s, i) {
        None => None,
        Some((t, j)) => match spec_valve_of_tag(t) {
            None => None,
            Some(v) => Some((v, j)),
        },
    }
}

/// Parsing at a position where the encoding of valve state `v` lies yields
/// `v` and consumes exactly its bytes.
proof fn lemma_parse_encoded_valve(s: Seq<u8>, i: int, v: ValveState)
    requires
        0 <= i,
        i + spec_encode_valve(v).len() <= s.len(),
        s.subrange(i, i + spec_encode_valve(v).len() as int) == spec_encode_valve(v),
    ensures
        spec_parse_valve(s, i) == Some((v, i + spec_encode_valve(v).len())),
{
    lemma_parse_encoded_varint32(s, i, spec_valve_tag(v));
}

/// Append the encoding of a valve state to `out`.
fn encode_valve(v: &ValveState, out: &mut Vec<u8>)
    ensures
        final(out)@ == old(out)@ + spec_encode_valve(*v),
{
    let tag: u32 = match v {
        ValveState::Open => 0,
        ValveState::Closed => 1,
        ValveState::Opening => 2,
        ValveState::Closing => 3,
        ValveState::Unknown => 4,
    };
    encode_varint(tag, out);
}

/// Parse a valve state at `i`.
fn parse_valve(s: &[u8], i: usize) -> (r: Option<(ValveState, usize)>)
    ensures
        match spec_parse_valve(s@, i as int) {
            None => r is None,
            Some((v, j)) => r matches Some((rv, rj)) && rv == v && rj == j,
        },
{
    match parse_varint32(s, i) {
        None => None,
        Some((t, j)) => {
            if t == 0 {
                Some((ValveState::Open, j))
            } else if t == 1 {
                Some((ValveState::Closed, j))
            } else if t == 2 {
                Some((ValveState::Opening, j))
            } else if t == 3 {
                Some((ValveState::Closing, j))
            } else if t == 4 {
                Some((ValveState::Unknown, j))
            } else {
                None
            }
        },
    }
}

/// The encoding of a percentage given as a count of eighths of a percent: a
/// zigzag-folded variable-length number, so that the sign bit of the 16-bit
/// storage word lands in the low bit.
pub open spec fn spec_encode_percent(eighths: int) -> Seq<u8> {
    spec_encode_varint(spec_zigzag(eighths))
}

/// Zigzag-fold a signed value onto the naturals: non-negative values map to
/// the evens, negative ones to the odds.
pub open spec fn spec_zigzag(v: int) -> nat {
    if v >= 0 {
        (2 * v) as nat
    } else {
        (-2 * v - 1) as nat
    }
}

/// Parse a percentage at index `i` of `s`: the zigzag-folded value must lie
/// between 0 and 100 percent.
pub open spec fn spec_parse_percent(s: Seq<u8>, i: int) -> Option<(int, int)> {
    match spec_parse_varint32(s, i) {
        None => None,
        Some((z, j)) => if z % 2 == 0 && z / 2 <= PERCENT_EIGHTHS_MAX {
            Some((z as int / 2, j))
        } else {
            None
        },
    }
}

/// Parsing at a position where the encoding of an in-range percentage lies
/// yields it back and consumes exactly its bytes.
proof fn lemma_parse_encoded_percent(s: Seq<u8>, i: int, eighths: int)
    requires
        0 <= eighths <= PERCENT_EIGHTHS_MAX,
        0 <= i,
        i + spec_encode_percent(eighths).len() <= s.len(),
        s.subrange(i, i + spec_encode_percent(eighths).len() as int) == spec_encode_percent(
            eighths,
        ),
    ensures
        spec_parse_percent(s, i) == Some((eighths, i + spec_encode_percent(eighths).len())),
{
    let z = (2 * eighths) as u32;
    lemma_parse_encoded_varint32(s, i, z);
}

/// Append the encoding of a percentage to `out`.
pub fn encode_percentage(p: &Percentage, out: &mut Vec<u8>)
    ensures
        final(out)@ == old(out)@ + spec_encode_percent(p@),
        0 <= p@ <= PERCENT_EIGHTHS_MAX,
{
    let eighths = p.value();
    encode_varint(2 * (eighths as u32), out);
}

/// Parse a percentage at `i`.
pub fn parse_percentage(s: &[u8], i: usize) -> (r: Option<(Percentage, usize)>)
    ensures
        match spec_parse_percent(s@, i as int) {
            None => r is None,
            Some((e, j)) => r matches Some((p, rj)) && p@ == e && rj == j,
        },
{
    match parse_varint32(s, i) {
        None => None,
        Some((z, j)) => {
            if z % 2 == 0 && z / 2 <= PERCENT_EIGHTHS_MAX as u32 {
                match Percentage::new((z / 2) as i16) {
                    Ok(p) => Some((p, j)),
                    Err(_) => None,
                }
            } else {
                None
            }
        },
    }
}

/// The encoding of an RPM value: its maximum then its current speed, both as
/// variable-length numbers.
pub open spec fn spec_encode_rpm(m: RpmModel) -> Seq<u8> {
    spec_encode_varint(m.max as nat) + spec_encode_varint(m.speed as nat)
}

/// Parse an RPM value at index `i` of `s`: the speed must not exceed the
/// maximum.
pub open spec fn spec_parse_rpm(s: Seq<u8>, i: int) -> Option<(RpmModel, int)> {
    match spec_parse_varint32(s, i) {
        None => None,
        Some((max, j)) => match spec_parse_varint32(s, j) {
            None => None,
            Some((speed, k)) => if speed <= max {
                Some((RpmModel { max: max as int, speed: speed as int }, k))
            } else {
                None
            },
        },
    }
}

/// Parsing at a position where the encoding of a well-formed RPM value lies
/// yields it back and consumes exactly its bytes.
proof fn lemma_parse_encoded_rpm(s: Seq<u8>, i: int, m: RpmModel)
    requires
        m.wf(),
        0 <= i,
        i + spec_encode_rpm(m).len() <= s.len(),
        s.subrange(i, i + spec_encode_rpm(m).len() as int) == spec_encode_rpm(m),
    ensures
        spec_parse_rpm(s, i) == Some((m, i + spec_encode_rpm(m).len())),
{
    let ea = spec_encode_varint(m.max as nat);
    let eb = spec_encode_varint(m.speed as nat);
    lemma_split_subrange(s, i, ea, eb);
    lemma_parse_encoded_varint32(s, i, m.max as u32);
    lemma_parse_encoded_varint32(s, i + ea.len(), m.speed as u32);
}

/// Append the encoding of an RPM value to `out`.
pub fn encode_rpm(rpm: &Rpm, out: &mut Vec<u8>)
    ensures
        final(out)@ == old(out)@ + spec_encode_rpm(rpm@),
        rpm@.wf(),
{
    encode_varint(rpm.max_speed(), out);
    encode_varint(rpm.speed(), out);
    assert(final(out)@ =~= old(out)@ + spec_encode_rpm(rpm@));
}

/// Parse an RPM value at `i`.
pub fn parse_rpm(s: &[u8], i: usize) -> (r: Option<(Rpm, usize)>)
    ensures
        match spec_parse_rpm(s@, i as int) {
            None => r is None,
            Some((m, j)) => r matches Some((rpm, rj)) && rpm@ == m && rj == j,
        },
{
    match parse_varint32(s, i) {
        None => None,
        Some((max, j)) => match parse_varint32(s, j) {
            None => None,
            Some((speed, k)) => {
                match Rpm::new(max, speed) {
                    Ok(rpm) => Some((rpm, k)),
                    Err(_) => None,
                }
            },
        },
    }
}

/// The encoding of a log line: its length then its bytes.
pub open spec fn spec_encode_log_line(line: Seq<u8>) -> Seq<u8> {
    spec_encode_varint(line.len()) + line
}

/// Parse a log line at index `i` of `s`: the length must fit the eight-byte
/// capacity and the bytes must all be present.
pub open spec fn spec_parse_log_line(s: Seq<u8>, i: int) -> Option<(Seq<u8>, int)> {
    match spec_parse_varint32(s, i) {
        None => None,
        Some((n, j)) => if n <= LOG_LINE_MAX_BYTES && j + n <= s.len() {
            Some((s.subrange(j, j + n), j + n))
        } else {
            None
        },
    }
}

/// Parsing at a position where the encoding of a short-enough log line lies
/// yields its bytes back and consumes exactly its encoding.
proof fn lemma_parse_encoded_log_line(s: Seq<u8>, i: int, line: Seq<u8>)
    requires
        line.len() <= LOG_LINE_MAX_BYTES,
        0 <= i,
        i + spec_encode_log_line(line).len() <= s.len(),
        s.subrange(i, i + spec_encode_log_line(line).len() as int) == spec_encode_log_line(line),
    ensures
        spec_parse_log_line(s, i) == Some((line, i + spec_encode_log_line(line).len())),
{
    let ea = spec_encode_varint(line.len());
    lemma_split_subrange(s, i, ea, line);
    lemma_parse_encoded_varint32(s, i, line.len() as u32);
}

/// Append the encoding of a log line to `out`.
fn encode_log_line(line: &LogString, out: &mut Vec<u8>)
    ensures
        final(out)@ == old(out)@ + spec_encode_log_line(line@),
        line@.len() <= LOG_LINE_MAX_BYTES,
{
    let bytes = line.bytes();
    encode_varint(bytes.len() as u32, out);
    let ghost mid = out@;
    let mut k: usize = 0;
    while k < bytes.len()
        invariant
            k <= bytes@.len(),
            bytes@ == line@,
            bytes@.len() <= LOG_LINE_MAX_BYTES,
            out@ == mid + bytes@.subrange(0, k as int),
        decreases bytes@.len() - k,
    {
        out.push(bytes[k]);
        k = k + 1;
        assert(out@ =~= mid + bytes@.subrange(0, k as int));
    }
    assert(out@ =~= old(out)@ + spec_encode_log_line(line@));
}

/// Parse a log line at `i`.
fn parse_log_line(s: &[u8], i: usize) -> (r: Option<(LogString, usize)>)
    ensures
        match spec_parse_log_line(s@, i as int) {
            None => r is None,
            Some((line, j)) => r matches Some((l, rj)) && l@ == line && rj == j,
        },
{
    match parse_varint32(s, i) {
        None => None,
        Some((n, j)) => {
            if n <= LOG_LINE_MAX_BYTES as u32 && (n as usize) <= s.len() - j {
                let end = j + n as usize;
                let mut bytes: Vec<u8> = Vec::new();
                let mut k: usize = j;
                while k < end
                    invariant
                        j <= k <= end,
                        end <= s@.len(),
                        bytes@ == s@.subrange(j as int, k as int),
                    decreases end - k,
                {
                    bytes.push(s[k]);
                    k = k + 1;
                    assert(bytes@ =~= s@.subrange(j as int, k as int));
                }
                match LogString::new(bytes) {
                    Some(l) => Some((l, end)),
                    None => None,
                }
            } else {
                None
            }
        },
    }
}

/// Greatest number of bytes the encoding of any well-formed packet occupies.
pub const MAX_PACKET_BYTES: usize = 128;

/// The encoding of a packet: a one-byte variant tag followed by the
/// variant's body.
pub open spec fn spec_encode_packet(m: PacketModel) -> Seq<u8> {
    match m {
        PacketModel::RequestConnection => seq![0u8] + spec_magic(),
        PacketModel::AcceptConnection => seq![1u8] + spec_magic(),
        PacketModel::ReportSensors { fan, pump, valve } => seq![2u8] + spec_encode_rpm(fan)
            + spec_encode_rpm(pump) + spec_encode_valve(valve),
        PacketModel::ReportControlTargets { fan, pump, valve } => seq![3u8] + spec_encode_percent(
            fan,
        ) + spec_encode_percent(pump) + spec_encode_valve(valve),
        PacketModel::ReportLogLine { line } => seq![4u8] + spec_encode_log_line(line),
    }
}

/// Parse one packet at index `i` of `s`, yielding its value and the index
/// just past it. Anything that is not a complete, well-formed packet fails.
pub open spec fn spec_parse_packet(s: Seq<u8>, i: int) -> Option<(PacketModel, int)> {
    if i < 0 || i >= s.len() {
        None
    } else {
        let t = s[i];
        if t == 0 {
            match spec_parse_magic(s, i + 1) {
                None => None,
                Some(j) => Some((PacketModel::RequestConnection, j)),
            }
        } else if t == 1 {
            match spec_parse_magic(s, i + 1) {
                None => None,
                Some(j) => Some((PacketModel::AcceptConnection, j)),
            }
        } else if t == 2 {
            match spec_parse_rpm(s, i + 1) {
                None => None,
                Some((fan, j)) => match spec_parse_rpm(s, j) {
                    None => None,
                    Some((pump, k)) => match spec_parse_valve(s, k) {
                        None => None,
                        Some((valve, l)) => Some(
                            (PacketModel::ReportSensors { fan, pump, valve }, l),
                        ),
                    },
                },
            }
        } else if t == 3 {
            match spec_parse_percent(s, i + 1) {
                None => None,
                Some((fan, j)) => match spec_parse_percent(s, j) {
                    None => None,
                    Some((pump, k)) => match spec_parse_valve(s, k) {
                        None => None,
                        Some((valve, l)) => Some(
                            (PacketModel::ReportControlTargets { fan, pump, valve }, l),
                        ),
                    },
                },
            }
        } else if t == 4 {
            match spec_parse_log_line(s, i + 1) {
                None => None,
                Some((line, j)) => Some((PacketModel::ReportLogLine { line }, j)),
            }
        } else {
            None
        }
    }
}

/// A successful varint parse stays within the buffer and moves forward.
proof fn lemma_parse_varint32_bounds(s: Seq<u8>, i: int)
    ensures
        spec_parse_varint32(s, i) matches Some((v, j)) ==> i < j <= s.len(),
{
    lemma_parse_varint_rec_bounds(s, i, VARINT_MAX_BYTES as nat);
}

/// A successful packet parse consumes at least one byte, stays within the
/// buffer, and yields a well-formed packet value.
pub proof fn lemma_parse_packet_bounds(s: Seq<u8>, i: int)
    ensures
        spec_parse_packet(s, i) matches Some((m, j)) ==> i < j <= s.len() && m.wf(),
{
    if 0 <= i < s.len() {
        lemma_parse_varint32_bounds(s, i + 1);
        match spec_parse_varint32(s, i + 1) {
            None => {},
            Some((_, j1)) => {
                lemma_parse_varint32_bounds(s, j1);
                match spec_parse_varint32(s, j1) {
                    None => {},
                    Some((_, j2)) => {
                        lemma_parse_varint32_bounds(s, j2);
                        match spec_parse_varint32(s, j2) {
                            None => {},
                            Some((_, j3)) => {
                                lemma_parse_varint32_bounds(s, j3);
                                match spec_parse_varint32(s, j3) {
                                    None => {},
                                    Some((_, j4)) => {
                                        lemma_parse_varint32_bounds(s, j4);
                                    },
                                }
                            },
                        }
                    },
                }
            },
        }
    }
}

/// Parsing at a position where the encoding of a well-formed packet lies
/// yields it back and consumes exactly its bytes, whatever follows it.
pub proof fn lemma_parse_encoded_packet(s: Seq<u8>, i: int, m: PacketModel)
    requires
        m.wf(),
        0 <= i,
        i + spec_encode_packet(m).len() <= s.len(),
        s.subrange(i, i + spec_encode_packet(m).len() as int) == spec_encode_packet(m),
    ensures
        spec_parse_packet(s, i) == Some((m, i + spec_encode_packet(m).len())),
{
    let enc = spec_encode_packet(m);
    match m {
        PacketModel::RequestConnection => {
            assert(enc =~= seq![0u8] + spec_magic());
            lemma_split_subrange(s, i, seq![0u8], spec_magic());
            assert(s[i] == 0) by {
                assert(s.subrange(i, i + 1)[0] == seq![0u8][0]);
            }
        },
        PacketModel::AcceptConnection => {
            assert(enc =~= seq![1u8] + spec_magic());
            lemma_split_subrange(s, i, seq![1u8], spec_magic());
            assert(s[i] == 1) by {
                assert(s.subrange(i, i + 1)[0] == seq![1u8][0]);
            }
        },
        PacketModel::ReportSensors { fan, pump, valve } => {
            let e1 = spec_encode_rpm(fan);
            let e2 = spec_encode_rpm(pump);
            let e3 = spec_encode_valve(valve);
            assert(enc =~= seq![2u8] + (e1 + (e2 + e3)));
            lemma_split_subrange(s, i, seq![2u8], e1 + (e2 + e3));
            lemma_split_subrange(s, i + 1, e1, e2 + e3);
            lemma_split_subrange(s, i + 1 + e1.len(), e2, e3);
            assert(s[i] == 2) by {
                assert(s.subrange(i, i + 1)[0] == seq![2u8][0]);
            }
            lemma_parse_encoded_rpm(s, i + 1, fan);
            lemma_parse_encoded_rpm(s, i + 1 + e1.len(), pump);
            lemma_parse_encoded_valve(s, i + 1 + e1.len() + e2.len(), valve);
        },
        PacketModel::ReportControlTargets { fan, pump, valve } => {
            let e1 = spec_encode_percent(fan);
            let e2 = spec_encode_percent(pump);
            let e3 = spec_encode_valve(valve);
            assert(enc =~= seq![3u8] + (e1 + (e2 + e3)));
            lemma_split_subrange(s, i, seq![3u8], e1 + (e2 + e3));
            lemma_split_subrange(s, i + 1, e1, e2 + e3);
            lemma_split_subrange(s, i + 1 + e1.len(), e2, e3);
            assert(s[i] == 3) by {
                assert(s.subrange(i, i + 1)[0] == seq![3u8][0]);
            }
            lemma_parse_encoded_percent(s, i + 1, fan);
            lemma_parse_encoded_percent(s, i + 1 + e1.len(), pump);
            lemma_parse_encoded_valve(s, i + 1 + e1.len() + e2.len(), valve);
        },
        PacketModel::ReportLogLine { line } => {
            let e1 = spec_encode_log_line(line);
            assert(enc =~= seq![4u8] + e1);
            lemma_split_subrange(s, i, seq![4u8], e1);
            assert(s[i] == 4) by {
                assert(s.subrange(i, i + 1)[0] == seq![4u8][0]);
            }
            lemma_parse_encoded_log_line(s, i + 1, line);
        },
    }
}

/// The encoding of a well-formed packet fits the compile-time buffer bound
/// shared by the host and the embedded hardware.
pub proof fn lemma_encode_packet_len(m: PacketModel)
    requires
        m.wf(),
    ensures
        1 <= spec_encode_packet(m).len() <= MAX_PACKET_BYTES,
{
    match m {
        PacketModel::RequestConnection => {},
        PacketModel::AcceptConnection => {},
        PacketModel::ReportSensors { fan, pump, valve } => {
            lemma_encode_varint32_len(fan.max as nat);
            lemma_encode_varint32_len(fan.speed as nat);
            lemma_encode_varint32_len(pump.max as nat);
            lemma_encode_varint32_len(pump.speed as nat);
        },
        PacketModel::ReportControlTargets { fan, pump, valve } => {
            lemma_encode_varint32_len(spec_zigzag(fan));
            lemma_encode_varint32_len(spec_zigzag(pump));
        },
        PacketModel::ReportLogLine { line } => {
            lemma_encode_varint32_len(line.len());
        },
    }
}

/// Encode one packet into a fresh buffer.
pub fn encode_packet(p: &Packet) -> (out: Vec<u8>)
    ensures
        out@ == spec_encode_packet(p@),
        p@.wf(),
        1 <= out@.len() <= MAX_PACKET_BYTES,
{
    let mut out: Vec<u8> = Vec::new();
    match p {
        Packet::RequestConnection(_) => {
            out.push(0);
            encode_magic(&mut out);
            assert(out@ =~= spec_encode_packet(p@));
        },
        Packet::AcceptConnection(_) => {
            out.push(1);
            encode_magic(&mut out);
            assert(out@ =~= spec_encode_packet(p@));
        },
        Packet::ReportSensors(sp) => {
            out.push(2);
            encode_rpm(&sp.fan_speed_rpm, &mut out);
            encode_rpm(&sp.pump_speed_rpm, &mut out);
            encode_valve(&sp.valve_state, &mut out);
            assert(out@ =~= spec_encode_packet(p@));
        },
        Packet::ReportControlTargets(cp) => {
            out.push(3);
            encode_percentage(&cp.fan_control_percent, &mut out);
            encode_percentage(&cp.pump_control_percent, &mut out);
            encode_valve(&cp.valve_control_state, &mut out);
            assert(out@ =~= spec_encode_packet(p@));
        },
        Packet::ReportLogLine(lp) => {
            out.push(4);
            encode_log_line(&lp.log_line, &mut out);
            assert(out@ =~= spec_encode_packet(p@));
        },
    }
    proof {
        lemma_encode_packet_len(p@);
    }
    out
}

/// Parse one packet at `i`, yielding it and the index just past it.
pub fn parse_packet(s: &[u8], i: usize) -> (r: Option<(Packet, usize)>)
    ensures
        match spec_parse_packet(s@, i as int) {
            None => r is None,
            Some((m, j)) => r matches Some((p, rj)) && p@ == m && rj == j,
        },
        r matches Some((p, rj)) ==> i < rj <= s@.len() && p@.wf(),
{
    proof {
        lemma_parse_packet_bounds(s@, i as int);
    }
    if i >= s.len() {
        return None;
    }
    let t = s[i];
    if t == 0 {
        match parse_magic(s, i + 1) {
            None => None,
            Some(j) => Some((Packet::RequestConnection(RequestConnectionPacket::new()), j)),
        }
    } else if t == 1 {
        match parse_magic(s, i + 1) {
            None => None,
            Some(j) => Some((Packet::AcceptConnection(AcceptConnectionPacket::new()), j)),
        }
    } else if t == 2 {
        match parse_rpm(s, i + 1) {
            None => None,
            Some((fan, j)) => match parse_rpm(s, j) {
                None => None,
                Some((pump, k)) => match parse_valve(s, k) {
                    None => None,
                    Some((valve, l)) => Some(
                        (
                            Packet::ReportSensors(
                                ReportSensorsPacket {
                                    fan_speed_rpm: fan,
                                    pump_speed_rpm: pump,
                                    valve_state: valve,
                                },
                            ),
                            l,
                        ),
                    ),
                },
            },
        }
    } else if t == 3 {
        match parse_percentage(s, i + 1) {
            None => None,
            Some((fan, j)) => match parse_percentage(s, j) {
                None => None,
                Some((pump, k)) => match parse_valve(s, k) {
                    None => None,
                    Some((valve, l)) => Some(
                        (
                            Packet::ReportControlTargets(
                                ReportControlTargetsPacket {
                                    fan_control_percent: fan,
                                    pump_control_percent: pump,
                                    valve_control_state: valve,
                                },
                            ),
                            l,
                        ),
                    ),
                },
            },
        }
    } else if t == 4 {
        match parse_log_line(s, i + 1) {
            None => None,
            Some((line, j)) => Some((Packet::ReportLogLine(ReportLogLinePacket { log_line: line }), j)),
        }
    } else {
        None
    }
}

/// Parse packets greedily from index `i` of `s`: the values of as many
/// complete packets as the buffer holds back to back, and the index of the
/// first byte the last successful parse did not consume.
pub open spec fn spec_decode(s: Seq<u8>, i: int) -> (Seq<PacketModel>, int)
    decreases s.len() - i,
    when 0 <= i <= s.len()
    via spec_decode_dec
{
    match spec_parse_packet(s, i) {
        None => (Seq::empty(), i),
        Some((m, j)) => {
            let (rest, end) = spec_decode(s, j);
            (seq![m] + rest, end)
        },
    }
}

#[via_fn]
proof fn spec_decode_dec(s: Seq<u8>, i: int) {
    lemma_parse_packet_bounds(s, i);
}

/// Greedy decoding never moves backward and never leaves the buffer.
pub proof fn lemma_decode_bounds(s: Seq<u8>, i: int)
    requires
        0 <= i <= s.len(),
    ensures
        i <= spec_decode(s, i).1 <= s.len(),
    decreases s.len() - i,
{
    lemma_parse_packet_bounds(s, i);
    match spec_parse_packet(s, i) {
        None => {},
        Some((m, j)) => {
            lemma_decode_bounds(s, j);
        },
    }
}

/// Decode as many complete packets as a buffer prefix holds, returning them
/// together with the unconsumed suffix. A partially received packet is not
/// an error: its bytes come back in the suffix, to be retried after the next
/// read.
pub fn decode_packets(buffer: &[u8]) -> (r: (Vec<Packet>, Vec<u8>))
    ensures
        r.0@.map_values(|p: Packet| p@) == spec_decode(buffer@, 0).0,
        r.1@ == buffer@.subrange(spec_decode(buffer@, 0).1, buffer@.len() as int),
        forall|k: int| 0 <= k < r.0@.len() ==> (#[trigger] r.0@[k])@.wf(),
{
    let ghost whole = spec_decode(buffer@, 0);
    let mut packets: Vec<Packet> = Vec::new();
    let mut pos: usize = 0;
    loop
        invariant
            pos <= buffer@.len(),
            spec_decode(buffer@, 0).0 == packets@.map_values(|p: Packet| p@) + spec_decode(
                buffer@,
                pos as int,
            ).0,
            spec_decode(buffer@, 0).1 == spec_decode(buffer@, pos as int).1,
            forall|k: int| 0 <= k < packets@.len() ==> (#[trigger] packets@[k])@.wf(),
        ensures
            pos <= buffer@.len(),
            spec_parse_packet(buffer@, pos as int) is None,
            spec_decode(buffer@, 0).0 == packets@.map_values(|p: Packet| p@) + spec_decode(
                buffer@,
                pos as int,
            ).0,
            spec_decode(buffer@, 0).1 == spec_decode(buffer@, pos as int).1,
            forall|k: int| 0 <= k < packets@.len() ==> (#[trigger] packets@[k])@.wf(),
        decreases buffer@.len() - pos,
    {
        match parse_packet(buffer, pos) {
            None => {
                break;
            },
            Some((p, j)) => {
                let ghost before = packets@;
                packets.push(p);
                assert(packets@.map_values(|q: Packet| q@) =~= before.map_values(|q: Packet| q@)
                    + seq![p@]);
                assert(spec_decode(buffer@, 0).0 =~= packets@.map_values(|q: Packet| q@)
                    + spec_decode(buffer@, j as int).0);
                pos = j;
            },
        }
    }
    assert(spec_decode(buffer@, pos as int).0 =~= Seq::<PacketModel>::empty());
    assert(spec_decode(buffer@, 0).0 =~= packets@.map_values(|p: Packet| p@));
    let remainder_slice = vstd::slice::slice_subrange(buffer, pos, buffer.len());
    let remainder = vstd::slice::slice_to_vec(remainder_slice);
    (packets, remainder)
}

/// Decoding inverts encoding for one packet: whatever follows it in the
/// buffer, parsing at the start of an encoded well-formed packet yields that
/// packet back and consumes exactly its bytes.
pub proof fn lemma_packet_round_trip(m: PacketModel, rest: Seq<u8>)
    requires
        m.wf(),
    ensures
        spec_parse_packet(spec_encode_packet(m) + rest, 0) == Some(
            (m, spec_encode_packet(m).len() as int),
        ),
{
    let enc = spec_encode_packet(m);
    let s = enc + rest;
    assert(s.subrange(0, enc.len() as int) =~= enc);
    lemma_parse_encoded_packet(s, 0, m);
}

/// Decoding inverts encoding for a percentage: whatever follows it, parsing
/// at the start of an encoded in-range percentage yields it back.
pub proof fn lemma_percent_round_trip(eighths: int, rest: Seq<u8>)
    requires
        0 <= eighths <= PERCENT_EIGHTHS_MAX,
    ensures
        spec_parse_percent(spec_encode_percent(eighths) + rest, 0) == Some(
            (eighths, spec_encode_percent(eighths).len() as int),
        ),
{
    let enc = spec_encode_percent(eighths);
    let s = enc + rest;
    assert(s.subrange(0, enc.len() as int) =~= enc);
    lemma_parse_encoded_percent(s, 0, eighths);
}

/// Decoding inverts encoding for an RPM value: whatever follows it, parsing
/// at the start of an encoded well-formed RPM value yields both fields back.
pub proof fn lemma_rpm_round_trip(m: RpmModel, rest: Seq<u8>)
    requires
        m.wf(),
    ensures
        spec_parse_rpm(spec_encode_rpm(m) + rest, 0) == Some(
            (m, spec_encode_rpm(m).len() as int),
        ),
{
    let enc = spec_encode_rpm(m);
    let s = enc + rest;
    assert(s.subrange(0, enc.len() as int) =~= enc);
    lemma_parse_encoded_rpm(s, 0, m);
}

/// The back-to-back encodings of a sequence of packets.
pub open spec fn spec_encode_packets(ms: Seq<PacketModel>) -> Seq<u8>
    decreases ms.len(),
{
    if ms.len() == 0 {
        Seq::empty()
    } else {
        spec_encode_packet(ms[0]) + spec_encode_packets(ms.drop_first())
    }
}

/// Greedy decoding recovers every packet of an encoded concatenation: if the
/// bytes at `i` are the encodings of well-formed packets `ms` back to back,
/// and what follows them does not parse as a packet, then decoding from `i`
/// yields exactly `ms` and stops exactly where the concatenation ends.
pub proof fn lemma_decode_encoded_packets_at(s: Seq<u8>, i: int, ms: Seq<PacketModel>)
    requires
        forall|k: int| 0 <= k < ms.len() ==> (#[trigger] ms[k]).wf(),
        0 <= i,
        i + spec_encode_packets(ms).len() <= s.len(),
        s.subrange(i, i + spec_encode_packets(ms).len() as int) == spec_encode_packets(ms),
        spec_parse_packet(s, i + spec_encode_packets(ms).len()) is None,
    ensures
        spec_decode(s, i) == (ms, i + spec_encode_packets(ms).len() as int),
    decreases ms.len(),
{
    let encs = spec_encode_packets(ms);
    if ms.len() == 0 {
        assert(spec_decode(s, i) == (Seq::<PacketModel>::empty(), i));
        assert(ms =~= Seq::<PacketModel>::empty());
    } else {
        let m0 = ms[0];
        let e0 = spec_encode_packet(m0);
        let etail = spec_encode_packets(ms.drop_first());
        assert(encs =~= e0 + etail);
        lemma_split_subrange(s, i, e0, etail);
        lemma_parse_encoded_packet(s, i, m0);
        lemma_decode_encoded_packets_at(s, i + e0.len(), ms.drop_first());
        assert(spec_decode(s, i).0 =~= seq![m0] + ms.drop_first());
        assert(seq![m0] + ms.drop_first() =~= ms);
    }
}

/// What a varint parse sees at position `p.len() + k` of `p + t` is what it
/// sees at position `k` of `t`.
proof fn lemma_translate_varint_rec(p: Seq<u8>, t: Seq<u8>, k: int, fuel: nat)
    requires
        k >= 0,
    ensures
        spec_parse_varint_rec(p + t, p.len() + k, fuel) == (match spec_parse_varint_rec(
            t,
            k,
            fuel,
        ) {
            None => None,
            Some((v, j)) => Some((v, j + p.len())),
        }),
    decreases fuel,
{
    if fuel > 0 && k < t.len() {
        assert((p + t)[p.len() + k] == t[k]);
        if t[k] >= 128 {
            lemma_translate_varint_rec(p, t, k + 1, (fuel - 1) as nat);
        }
    }
}

/// Position translation for a 32-bit varint parse.
proof fn lemma_translate_varint32(p: Seq<u8>, t: Seq<u8>, k: int)
    requires
        k >= 0,
    ensures
        spec_parse_varint32(p + t, p.len() + k) == (match spec_parse_varint32(t, k) {
            None => None,
            Some((v, j)) => Some((v, j + p.len())),
        }),
{
    lemma_translate_varint_rec(p, t, k, VARINT_MAX_BYTES as nat);
}

/// Position translation for the connection magic.
proof fn lemma_translate_magic(p: Seq<u8>, t: Seq<u8>, k: int)
    requires
        k >= 0,
    ensures
        spec_parse_magic(p + t, p.len() + k) == (match spec_parse_magic(t, k) {
            None => None,
            Some(j) => Some(j + p.len()),
        }),
{
    if k + 8 <= t.len() {
        assert((p + t).subrange(p.len() + k, p.len() + k + 8) =~= t.subrange(k, k + 8));
    }
}

/// Position translation for a valve state parse.
proof fn lemma_translate_valve(p: Seq<u8>, t: Seq<u8>, k: int)
    requires
        k >= 0,
    ensures
        spec_parse_valve(p + t, p.len() + k) == (match spec_parse_valve(t, k) {
            None => None,
            Some((v, j)) => Some((v, j + p.len())),
        }),
{
    lemma_translate_varint32(p, t, k);
}

/// Position translation for a percentage parse.
proof fn lemma_translate_percent(p: Seq<u8>, t: Seq<u8>, k: int)
    requires
        k >= 0,
    ensures
        spec_parse_percent(p + t, p.len() + k) == (match spec_parse_percent(t, k) {
            None => None,
            Some((e, j)) => Some((e, j + p.len())),
        }),
{
    lemma_translate_varint32(p, t, k);
}

/// Position translation for an RPM parse.
proof fn lemma_translate_rpm(p: Seq<u8>, t: Seq<u8>, k: int)
    requires
        k >= 0,
    ensures
        spec_parse_rpm(p + t, p.len() + k) == (match spec_parse_rpm(t, k) {
            None => None,
            Some((m, j)) => Some((m, j + p.len())),
        }),
{
    lemma_translate_varint32(p, t, k);
    match spec_parse_varint32(t, k) {
        None => {},
        Some((max, j)) => {
            lemma_parse_varint32_bounds(t, k);
            lemma_translate_varint32(p, t, j);
        },
    }
}

/// Position translation for a log-line parse.
proof fn lemma_translate_log_line(p: Seq<u8>, t: Seq<u8>, k: int)
    requires
        k >= 0,
    ensures
        spec_parse_log_line(p + t, p.len() + k) == (match spec_parse_log_line(t, k) {
            None => None,
            Some((line, j)) => Some((line, j + p.len())),
        }),
{
    lemma_translate_varint32(p, t, k);
    match spec_parse_varint32(t, k) {
        None => {},
        Some((n, j)) => {
            lemma_parse_varint32_bounds(t, k);
            if n <= LOG_LINE_MAX_BYTES && j + n <= t.len() {
                assert((p + t).subrange(p.len() + j, p.len() + j + n) =~= t.subrange(j, j + n));
            }
        },
    }
}

/// What a packet parse sees at position `p.len() + k` of `p + t` is what it
/// sees at position `k` of `t`: parsing looks only at the bytes from its
/// start position onward.
pub proof fn lemma_translate_packet(p: Seq<u8>, t: Seq<u8>, k: int)
    requires
        k >= 0,
    ensures
        spec_parse_packet(p + t, p.len() + k) == (match spec_parse_packet(t, k) {
            None => None,
            Some((m, j)) => Some((m, j + p.len())),
        }),
{
    if k < t.len() {
        assert((p + t)[p.len() + k] == t[k]);
        lemma_translate_magic(p, t, k + 1);
        lemma_translate_rpm(p, t, k + 1);
        lemma_translate_percent(p, t, k + 1);
        lemma_translate_log_line(p, t, k + 1);
        match spec_parse_rpm(t, k + 1) {
            None => {},
            Some((_, j1)) => {
                lemma_parse_rpm_bounds(t, k + 1);
                lemma_translate_rpm(p, t, j1);
                match spec_parse_rpm(t, j1) {
                    None => {},
                    Some((_, j2)) => {
                        lemma_parse_rpm_bounds(t, j1);
                        lemma_translate_valve(p, t, j2);
                    },
                }
            },
        }
        match spec_parse_percent(t, k + 1) {
            None => {},
            Some((_, j1)) => {
                lemma_parse_percent_bounds(t, k + 1);
                lemma_translate_percent(p, t, j1);
                match spec_parse_percent(t, j1) {
                    None => {},
                    Some((_, j2)) => {
                        lemma_parse_percent_bounds(t, j1);
                        lemma_translate_valve(p, t, j2);
                    },
                }
            },
        }
    }
}

/// A successful RPM parse stays within the buffer and moves forward.
proof fn lemma_parse_rpm_bounds(s: Seq<u8>, i: int)
    ensures
        spec_parse_rpm(s, i) matches Some((m, j)) ==> i < j <= s.len(),
{
    lemma_parse_varint32_bounds(s, i);
    match spec_parse_varint32(s, i) {
        None => {},
        Some((_, j1)) => {
            lemma_parse_varint32_bounds(s, j1);
        },
    }
}

/// A successful percentage parse stays within the buffer and moves forward.
proof fn lemma_parse_percent_bounds(s: Seq<u8>, i: int)
    ensures
        spec_parse_percent(s, i) matches Some((e, j)) ==> i < j <= s.len(),
{
    lemma_parse_varint32_bounds(s, i);
}

/// Greedy decoding of a concatenation of encoded well-formed packets
/// followed by a remainder that does not start a valid packet yields exactly
/// the encoded packets and that remainder.
pub proof fn lemma_decode_concatenation(ms: Seq<PacketModel>, r: Seq<u8>)
    requires
        forall|k: int| 0 <= k < ms.len() ==> (#[trigger] ms[k]).wf(),
        spec_parse_packet(r, 0) is None,
    ensures
        spec_decode(spec_encode_packets(ms) + r, 0).0 == ms,
        spec_decode(spec_encode_packets(ms) + r, 0).1 == spec_encode_packets(ms).len(),
        (spec_encode_packets(ms) + r).subrange(
            spec_encode_packets(ms).len() as int,
            (spec_encode_packets(ms) + r).len() as int,
        ) == r,
{
    let encs = spec_encode_packets(ms);
    let s = encs + r;
    lemma_translate_packet(encs, r, 0);
    assert(s.subrange(0, encs.len() as int) =~= encs);
    lemma_decode_encoded_packets_at(s, 0, ms);
    assert(s.subrange(encs.len() as int, s.len() as int) =~= r);
}

} // verus!
