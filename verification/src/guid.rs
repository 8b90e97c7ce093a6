//! 128-bit capability identifiers with their canonical text encoding:
//! five hyphen-separated hex groups of 8, 4, 4, 4 and 12 digits. The first
//! three groups are stored with their bytes in text order, which on the
//! little-endian field layout means the field values are byte-reversed
//! relative to reading each group as a number (the mixed-endian convention).
use vstd::prelude::*;

verus! {

use vstd::string::StringSliceAdditionalSpecFns;

/// A 128-bit identifier, compared by its full bit pattern.
#[derive(Debug, Clone, Copy, PartialEq, Eq, Structural, Hash)]
pub struct Guid {
    pub a: u32,
    pub b: u16,
    pub c: u16,
    pub d: u8,
    pub e: u8,
    pub f: u8,
    pub g: u8,
    pub h: u8,
    pub i: u8,
    pub j: u8,
    pub k: u8,
}

/// Whether a byte is an ASCII hex digit, either case.
pub open spec fn is_hex_digit(c: u8) -> bool {
    (48 <= c && c <= 57) || (65 <= c && c <= 70) || (97 <= c && c <= 102)
}

/// The value of an ASCII hex digit (0 on other bytes).
pub open spec fn hex_val(c: u8) -> int {
    if 48 <= c && c <= 57 {
        c - 48
    } else if 65 <= c && c <= 70 {
        c - 55
    } else if 97 <= c && c <= 102 {
        c - 87
    } else {
        0
    }
}

/// The lower-case ASCII hex digit for a value below 16.
pub open spec fn hex_char(v: int) -> u8 {
    if v < 10 {
        (48 + v) as u8
    } else {
        (87 + v) as u8
    }
}

impl Guid {
    pub fn new(
        a: u32,
        b: u16,
        c: u16,
        d: u8,
        e: u8,
        f: u8,
        g: u8,
        h: u8,
        i: u8,
        j: u8,
        k: u8,
    ) -> (r: Self)
        ensures
            r == (Guid { a, b, c, d, e, f, g, h, i, j, k }),
    {
        Self { a, b, c, d, e, f, g, h, i, j, k }
    }

    /// Builds the identifier from 16 bytes in memory order: the first
    /// four bytes are the low to high bytes of `a`, the next two pairs the
    /// bytes of `b` and `c`, the rest `d` through `k`.
    pub fn from_array(bytes: [u8; 16]) -> (r: Self)
        ensures
            r.a == bytes@[0] + bytes@[1] * 0x100 + bytes@[2] * 0x10000 + bytes@[3] * 0x1000000,
            r.b == bytes@[4] + bytes@[5] * 0x100,
            r.c == bytes@[6] + bytes@[7] * 0x100,
            r.d == bytes@[8],
            r.e == bytes@[9],
            r.f == bytes@[10],
            r.g == bytes@[11],
            r.h == bytes@[12],
            r.i == bytes@[13],
            r.j == bytes@[14],
            r.k == bytes@[15],
    {
        Self {
            a: bytes[0] as u32 + bytes[1] as u32 * 0x100 + bytes[2] as u32 * 0x10000
                + bytes[3] as u32 * 0x1000000,
            b: bytes[4] as u16 + bytes[5] as u16 * 0x100,
            c: bytes[6] as u16 + bytes[7] as u16 * 0x100,
            d: bytes[8],
            e: bytes[9],
            f: bytes[10],
            g: bytes[11],
            h: bytes[12],
            i: bytes[13],
            j: bytes[14],
            k: bytes[15],
        }
    }
}

/// A 32-bit value with its four bytes in the opposite order.
pub open spec fn swap_bytes_u32(v: u32) -> int {
    (v % 0x100) * 0x1000000 + ((v / 0x100) % 0x100) * 0x10000 + ((v / 0x10000) % 0x100) * 0x100
        + v / 0x1000000
}

/// A 16-bit value with its two bytes exchanged.
pub open spec fn swap_bytes_u16(v: u16) -> int {
    (v % 0x100) * 0x100 + v / 0x100
}

pub fn reverse_endianness_u32(value: u32) -> (r: u32)
    ensures
        r == swap_bytes_u32(value),
{
    (value % 0x100) * 0x1000000 + ((value / 0x100) % 0x100) * 0x10000 + ((value / 0x10000) % 0x100)
        * 0x100 + value / 0x1000000
}

pub fn reverse_endianness_u16(value: u16) -> (r: u16)
    ensures
        r == swap_bytes_u16(value),
{
    (value % 0x100) * 0x100 + value / 0x100
}

impl Guid {
    /// Reverses the byte order of the first three fields, converting between
    /// the numeric reading of the first three text groups and the
    /// mixed-endian stored form.
    pub fn reverse_abc_endianness(self) -> (r: Self)
        ensures
            r.a == swap_bytes_u32(self.a),
            r.b == swap_bytes_u16(self.b),
            r.c == swap_bytes_u16(self.c),
            r.d == self.d && r.e == self.e && r.f == self.f && r.g == self.g,
            r.h == self.h && r.i == self.i && r.j == self.j && r.k == self.k,
    {
        Self {
            a: reverse_endianness_u32(self.a),
            b: reverse_endianness_u16(self.b),
            c: reverse_endianness_u16(self.c),
            ..self
        }
    }
}

/// Decodes two ASCII hex digits into one byte, high digit first; absent
/// unless both bytes are hex digits.
pub fn decode_byte(c1: u8, c2: u8) -> (r: Option<u8>)
    ensures
        r == (if is_hex_digit(c1) && is_hex_digit(c2) {
            Some(((hex_val(c1) * 16 + hex_val(c2)) as u8))
        } else {
            None::<u8>
        }),
{
    let upper: u8 = if 48 <= c1 && c1 <= 57 {
        c1 - 48
    } else if 65 <= c1 && c1 <= 70 {
        c1 - 55
    } else if 97 <= c1 && c1 <= 102 {
        c1 - 87
    } else {
        return None;
    };
    let lower: u8 = if 48 <= c2 && c2 <= 57 {
        c2 - 48
    } else if 65 <= c2 && c2 <= 70 {
        c2 - 55
    } else if 97 <= c2 && c2 <= 102 {
        c2 - 87
    } else {
        return None;
    };
    Some(upper * 16 + lower)
}

/// Whether a byte sequence is a syntactically valid identifier text:
/// exactly 36 bytes, hyphens at the four fixed positions, hex digits
/// everywhere else.
pub open spec fn valid_guid_text(s: Seq<u8>) -> bool {
    &&& s.len() == 36
    &&& s[8] == 45 && s[13] == 45 && s[18] == 45 && s[23] == 45
    &&& forall|n: int|
        0 <= n < 36 && n != 8 && n != 13 && n != 18 && n != 23 ==> is_hex_digit(#[trigger] s[n])
}

/// The byte encoded by the hex digit pair starting at position `n`.
pub open spec fn text_pair(s: Seq<u8>, n: int) -> int {
    hex_val(s[n]) * 16 + hex_val(s[n + 1])
}

/// The identifier that a valid text denotes.
pub open spec fn spec_parse(s: Seq<u8>) -> Option<Guid> {
    if valid_guid_text(s) {
        Some(
            Guid {
                a: (text_pair(s, 0) + text_pair(s, 2) * 0x100 + text_pair(s, 4) * 0x10000
                    + text_pair(s, 6) * 0x1000000) as u32,
                b: (text_pair(s, 9) + text_pair(s, 11) * 0x100) as u16,
                c: (text_pair(s, 14) + text_pair(s, 16) * 0x100) as u16,
                d: text_pair(s, 19) as u8,
                e: text_pair(s, 21) as u8,
                f: text_pair(s, 24) as u8,
                g: text_pair(s, 26) as u8,
                h: text_pair(s, 28) as u8,
                i: text_pair(s, 30) as u8,
                j: text_pair(s, 32) as u8,
                k: text_pair(s, 34) as u8,
            },
        )
    } else {
        None
    }
}

impl Guid {
    /// Parses the canonical text form; strict grammar, either digit case;
    /// absent on any malformed input, never a fault.
    pub fn from_str(text: &str) -> (r: Option<Guid>)
        ensures
            r == spec_parse(text.spec_bytes()),
    {
        let s: &[u8] = text.as_bytes();
        if s.len() != 36 {
            return None;
        }
        if s[8] != 45 || s[13] != 45 || s[18] != 45 || s[23] != 45 {
            return None;
        }
        let p0 = match decode_byte(s[0], s[1]) {
            Some(v) => v,
            None => { return None; },
        };
        let p2 = match decode_byte(s[2], s[3]) {
            Some(v) => v,
            None => { return None; },
        };
        let p4 = match decode_byte(s[4], s[5]) {
            Some(v) => v,
            None => { return None; },
        };
        let p6 = match decode_byte(s[6], s[7]) {
            Some(v) => v,
            None => { return None; },
        };
        let p9 = match decode_byte(s[9], s[10]) {
            Some(v) => v,
            None => { return None; },
        };
        let p11 = match decode_byte(s[11], s[12]) {
            Some(v) => v,
            None => { return None; },
        };
        let p14 = match decode_byte(s[14], s[15]) {
            Some(v) => v,
            None => { return None; },
        };
        let p16 = match decode_byte(s[16], s[17]) {
            Some(v) => v,
            None => { return None; },
        };
        let p19 = match decode_byte(s[19], s[20]) {
            Some(v) => v,
            None => { return None; },
        };
        let p21 = match decode_byte(s[21], s[22]) {
            Some(v) => v,
            None => { return None; },
        };
        let p24 = match decode_byte(s[24], s[25]) {
            Some(v) => v,
            None => { return None; },
        };
        let p26 = match decode_byte(s[26], s[27]) {
            Some(v) => v,
            None => { return None; },
        };
        let p28 = match decode_byte(s[28], s[29]) {
            Some(v) => v,
            None => { return None; },
        };
        let p30 = match decode_byte(s[30], s[31]) {
            Some(v) => v,
            None => { return None; },
        };
        let p32 = match decode_byte(s[32], s[33]) {
            Some(v) => v,
            None => { return None; },
        };
        let p34 = match decode_byte(s[34], s[35]) {
            Some(v) => v,
            None => { return None; },
        };
        let bytes: [u8; 16] = [p6, p4, p2, p0, p11, p9, p16, p14, p19, p21, p24, p26, p28, p30,
            p32, p34];
        let r = Guid::from_array(bytes).reverse_abc_endianness();
        proof {
            lemma_swap_bytes_u32_of_sum(p6 as int, p4 as int, p2 as int, p0 as int);
            lemma_swap_bytes_u16_of_sum(p11 as int, p9 as int);
            lemma_swap_bytes_u16_of_sum(p16 as int, p14 as int);
        }
        Some(r)
    }
}

/// The canonical lower-case text of an identifier: 36 bytes, five groups.
pub open spec fn spec_format(g: Guid) -> Seq<u8> {
    let a = g.a as int;
    let b = g.b as int;
    let c = g.c as int;
    seq![
        hex_char((a % 0x100) / 16),
        hex_char((a % 0x100) % 16),
        hex_char(((a / 0x100) % 0x100) / 16),
        hex_char(((a / 0x100) % 0x100) % 16),
        hex_char(((a / 0x10000) % 0x100) / 16),
        hex_char(((a / 0x10000) % 0x100) % 16),
        hex_char((a / 0x1000000) / 16),
        hex_char((a / 0x1000000) % 16),
        45u8,
        hex_char((b % 0x100) / 16),
        hex_char((b % 0x100) % 16),
        hex_char((b / 0x100) / 16),
        hex_char((b / 0x100) % 16),
        45u8,
        hex_char((c % 0x100) / 16),
        hex_char((c % 0x100) % 16),
        hex_char((c / 0x100) / 16),
        hex_char((c / 0x100) % 16),
        45u8,
        hex_char(g.d as int / 16),
        hex_char(g.d as int % 16),
        hex_char(g.e as int / 16),
        hex_char(g.e as int % 16),
        45u8,
        hex_char(g.f as int / 16),
        hex_char(g.f as int % 16),
        hex_char(g.g as int / 16),
        hex_char(g.g as int % 16),
        hex_char(g.h as int / 16),
        hex_char(g.h as int % 16),
        hex_char(g.i as int / 16),
        hex_char(g.i as int % 16),
        hex_char(g.j as int / 16),
        hex_char(g.j as int % 16),
        hex_char(g.k as int / 16),
        hex_char(g.k as int % 16),
    ]
}

/// Appends the two lower-case hex digits of one byte, high digit first.
fn push_hex_pair(out: &mut Vec<u8>, v: u8)
    ensures
        final(out)@ =~= old(out)@ + seq![hex_char(v as int / 16), hex_char(v as int % 16)],
{
    let hi: u8 = v / 16;
    let lo: u8 = v % 16;
    out.push(if hi < 10 { 48 + hi } else { 87 + hi });
    out.push(if lo < 10 { 48 + lo } else { 87 + lo });
}

impl Guid {
    /// The canonical text form: 32 lower-case hex digits in five
    /// hyphen-separated groups of 8, 4, 4, 4 and 12.
    pub fn format(&self) -> (r: Vec<u8>)
        ensures
            r@ == spec_format(*self),
    {
        let mut out: Vec<u8> = Vec::new();
        push_hex_pair(&mut out, (self.a % 0x100) as u8);
        push_hex_pair(&mut out, ((self.a / 0x100) % 0x100) as u8);
        push_hex_pair(&mut out, ((self.a / 0x10000) % 0x100) as u8);
        push_hex_pair(&mut out, (self.a / 0x1000000) as u8);
        out.push(45);
        push_hex_pair(&mut out, (self.b % 0x100) as u8);
        push_hex_pair(&mut out, (self.b / 0x100) as u8);
        out.push(45);
        push_hex_pair(&mut out, (self.c % 0x100) as u8);
        push_hex_pair(&mut out, (self.c / 0x100) as u8);
        out.push(45);
        push_hex_pair(&mut out, self.d);
        push_hex_pair(&mut out, self.e);
        out.push(45);
        push_hex_pair(&mut out, self.f);
        push_hex_pair(&mut out, self.g);
        push_hex_pair(&mut out, self.h);
        push_hex_pair(&mut out, self.i);
        push_hex_pair(&mut out, self.j);
        push_hex_pair(&mut out, self.k);
        proof {
            assert(out@ =~= spec_format(*self));
        }
        out
    }
}

/// The 128-bit pattern of an identifier: the fields packed low to high in
/// field order, each little-endian, as the memory image reads on a
/// little-endian machine.
pub open spec fn spec_to_u128(g: Guid) -> int {
    g.a + g.b * 0x1_0000_0000 + g.c * 0x1_0000_0000_0000 + g.d * 0x1_0000_0000_0000_0000 + g.e
        * 0x100_0000_0000_0000_0000 + g.f * 0x1_0000_0000_0000_0000_0000 + g.g
        * 0x100_0000_0000_0000_0000_0000 + g.h * 0x1_0000_0000_0000_0000_0000_0000 + g.i
        * 0x100_0000_0000_0000_0000_0000_0000 + g.j * 0x1_0000_0000_0000_0000_0000_0000_0000 + g.k
        * 0x100_0000_0000_0000_0000_0000_0000_0000
}

impl Guid {
    /// The identifier's whole bit pattern as one 128-bit integer.
    pub fn to_u128(self) -> (r: u128)
        ensures
            r == spec_to_u128(self),
    {
        self.a as u128 + self.b as u128 * 0x1_0000_0000 + self.c as u128 * 0x1_0000_0000_0000
            + self.d as u128 * 0x1_0000_0000_0000_0000 + self.e as u128
            * 0x100_0000_0000_0000_0000 + self.f as u128 * 0x1_0000_0000_0000_0000_0000 + self.g
            as u128 * 0x100_0000_0000_0000_0000_0000 + self.h as u128
            * 0x1_0000_0000_0000_0000_0000_0000 + self.i as u128
            * 0x100_0000_0000_0000_0000_0000_0000 + self.j as u128
            * 0x1_0000_0000_0000_0000_0000_0000_0000 + self.k as u128
            * 0x100_0000_0000_0000_0000_0000_0000_0000
    }

    /// The identifier whose bit pattern is the given 128-bit integer.
    pub fn from_u128(value: u128) -> (r: Self)
        ensures
            spec_to_u128(r) == value,
    {
        let a: u32 = (value % 0x1_0000_0000) as u32;
        let t1: u128 = value / 0x1_0000_0000;
        let b: u16 = (t1 % 0x1_0000) as u16;
        let t2: u128 = t1 / 0x1_0000;
        let c: u16 = (t2 % 0x1_0000) as u16;
        let t3: u128 = t2 / 0x1_0000;
        let d: u8 = (t3 % 0x100) as u8;
        let t4: u128 = t3 / 0x100;
        let e: u8 = (t4 % 0x100) as u8;
        let t5: u128 = t4 / 0x100;
        let f: u8 = (t5 % 0x100) as u8;
        let t6: u128 = t5 / 0x100;
        let g: u8 = (t6 % 0x100) as u8;
        let t7: u128 = t6 / 0x100;
        let h: u8 = (t7 % 0x100) as u8;
        let t8: u128 = t7 / 0x100;
        let i: u8 = (t8 % 0x100) as u8;
        let t9: u128 = t8 / 0x100;
        let j: u8 = (t9 % 0x100) as u8;
        let k: u8 = (t9 / 0x100) as u8;
        proof {
            let v = value as int;
            lemma_fund_div_mod(v, 0x1_0000_0000);
            lemma_div_bound(v, 0x1_0000_0000, 0x1_0000_0000_0000_0000_0000_0000);
            lemma_fund_div_mod(t1 as int, 0x1_0000);
            lemma_div_bound(t1 as int, 0x1_0000, 0x1_0000_0000_0000_0000_0000);
            lemma_fund_div_mod(t2 as int, 0x1_0000);
            lemma_div_bound(t2 as int, 0x1_0000, 0x1_0000_0000_0000_0000);
            lemma_fund_div_mod(t3 as int, 0x100);
            lemma_div_bound(t3 as int, 0x100, 0x100_0000_0000_0000);
            lemma_fund_div_mod(t4 as int, 0x100);
            lemma_div_bound(t4 as int, 0x100, 0x1_0000_0000_0000);
            lemma_fund_div_mod(t5 as int, 0x100);
            lemma_div_bound(t5 as int, 0x100, 0x100_0000_0000);
            lemma_fund_div_mod(t6 as int, 0x100);
            lemma_div_bound(t6 as int, 0x100, 0x1_0000_0000);
            lemma_fund_div_mod(t7 as int, 0x100);
            lemma_div_bound(t7 as int, 0x100, 0x100_0000);
            lemma_fund_div_mod(t8 as int, 0x100);
            lemma_div_bound(t8 as int, 0x100, 0x1_0000);
            lemma_fund_div_mod(t9 as int, 0x100);
            lemma_div_bound(t9 as int, 0x100, 0x100);
            assert(value == a + t1 * 0x1_0000_0000);
            assert(t1 == b + t2 * 0x1_0000);
            assert(t2 == c + t3 * 0x1_0000);
            assert(t3 == d + t4 * 0x100);
            assert(t4 == e + t5 * 0x100);
            assert(t5 == f + t6 * 0x100);
            assert(t6 == g + t7 * 0x100);
            assert(t7 == h + t8 * 0x100);
            assert(t8 == i + t9 * 0x100);
            assert(t9 == j + k * 0x100);
        }
        Self { a, b, c, d, e, f, g, h, i, j, k }
    }
}

/// Division and remainder recombine to the dividend, with the remainder in
/// range.
proof fn lemma_fund_div_mod(x: int, d: int)
    by (nonlinear_arith)
    requires
        0 <= x,
        0 < d,
    ensures
        x == d * (x / d) + x % d,
        0 <= x % d < d,
        0 <= x / d,
{
}

/// A dividend below `m * d` has a quotient below `m`.
proof fn lemma_div_bound(x: int, d: int, m: int)
    by (nonlinear_arith)
    requires
        0 <= x < m * d,
        0 < d,
        0 < m,
    ensures
        0 <= x / d < m,
{
}

/// Splitting off the low `base` part of a two-part sum reads back both
/// parts.
proof fn lemma_div_mod_split(x: int, lo: int, hi: int, base: int)
    by (nonlinear_arith)
    requires
        x == lo + hi * base,
        0 <= lo < base,
        0 <= hi,
    ensures
        x % base == lo,
        x / base == hi,
{
}

/// Two identifiers with the same 128-bit pattern are the same identifier:
/// equality is decided by the full bit pattern.
pub proof fn lemma_to_u128_injective(g1: Guid, g2: Guid)
    requires
        spec_to_u128(g1) == spec_to_u128(g2),
    ensures
        g1 == g2,
{
    lemma_u128_pack_extract(
        g1.a as int,
        g1.b as int,
        g1.c as int,
        g1.d as int,
        g1.e as int,
        g1.f as int,
        g1.g as int,
        g1.h as int,
        g1.i as int,
        g1.j as int,
        g1.k as int,
    );
    lemma_u128_pack_extract(
        g2.a as int,
        g2.b as int,
        g2.c as int,
        g2.d as int,
        g2.e as int,
        g2.f as int,
        g2.g as int,
        g2.h as int,
        g2.i as int,
        g2.j as int,
        g2.k as int,
    );
}

/// Each field of the packed 128-bit pattern can be read back by a chain of
/// divisions and remainders, so the packing is injective.
proof fn lemma_u128_pack_extract(
    a: int,
    b: int,
    c: int,
    d: int,
    e: int,
    f: int,
    g: int,
    h: int,
    i: int,
    j: int,
    k: int,
)
    requires
        0 <= a < 0x1_0000_0000,
        0 <= b < 0x1_0000,
        0 <= c < 0x1_0000,
        0 <= d < 0x100,
        0 <= e < 0x100,
        0 <= f < 0x100,
        0 <= g < 0x100,
        0 <= h < 0x100,
        0 <= i < 0x100,
        0 <= j < 0x100,
        0 <= k < 0x100,
    ensures
        ({
            let v = a + b * 0x1_0000_0000 + c * 0x1_0000_0000_0000 + d * 0x1_0000_0000_0000_0000 + e
                * 0x100_0000_0000_0000_0000 + f * 0x1_0000_0000_0000_0000_0000 + g
                * 0x100_0000_0000_0000_0000_0000 + h * 0x1_0000_0000_0000_0000_0000_0000 + i
                * 0x100_0000_0000_0000_0000_0000_0000 + j * 0x1_0000_0000_0000_0000_0000_0000_0000 + k
                * 0x100_0000_0000_0000_0000_0000_0000_0000;
            v % 0x1_0000_0000 == a && ((v / 0x1_0000_0000) % 0x1_0000) == b && (((v
                / 0x1_0000_0000) / 0x1_0000) % 0x1_0000) == c && ((((v / 0x1_0000_0000) / 0x1_0000)
                / 0x1_0000) % 0x100) == d && (((((v / 0x1_0000_0000) / 0x1_0000) / 0x1_0000)
                / 0x100) % 0x100) == e && ((((((v / 0x1_0000_0000) / 0x1_0000) / 0x1_0000) / 0x100)
                / 0x100) % 0x100) == f && (((((((v / 0x1_0000_0000) / 0x1_0000) / 0x1_0000) / 0x100)
                / 0x100) / 0x100) % 0x100) == g && ((((((((v / 0x1_0000_0000) / 0x1_0000)
                / 0x1_0000) / 0x100) / 0x100) / 0x100) / 0x100) % 0x100) == h && (((((((((v
                / 0x1_0000_0000) / 0x1_0000) / 0x1_0000) / 0x100) / 0x100) / 0x100) / 0x100)
                / 0x100) % 0x100) == i && ((((((((((v / 0x1_0000_0000) / 0x1_0000) / 0x1_0000)
                / 0x100) / 0x100) / 0x100) / 0x100) / 0x100) / 0x100) % 0x100) == j && (((((((((v
                / 0x1_0000_0000) / 0x1_0000) / 0x1_0000) / 0x100) / 0x100) / 0x100) / 0x100)
                / 0x100) / 0x100) / 0x100 == k
        }),
{
    let r1 = b + c * 0x1_0000 + d * 0x1_0000_0000 + e * 0x100_0000_0000 + f
        * 0x1_0000_0000_0000 + g * 0x100_0000_0000_0000 + h * 0x1_0000_0000_0000_0000 + i
        * 0x100_0000_0000_0000_0000 + j * 0x1_0000_0000_0000_0000_0000 + k
        * 0x100_0000_0000_0000_0000_0000;
    let r2 = c + d * 0x1_0000 + e * 0x100_0000 + f * 0x1_0000_0000 + g * 0x100_0000_0000 + h
        * 0x1_0000_0000_0000 + i * 0x100_0000_0000_0000 + j * 0x1_0000_0000_0000_0000 + k
        * 0x100_0000_0000_0000_0000;
    let r3 = d + e * 0x100 + f * 0x1_0000 + g * 0x100_0000 + h * 0x1_0000_0000 + i
        * 0x100_0000_0000 + j * 0x1_0000_0000_0000 + k * 0x100_0000_0000_0000;
    let r4 = e + f * 0x100 + g * 0x1_0000 + h * 0x100_0000 + i * 0x1_0000_0000 + j
        * 0x100_0000_0000 + k * 0x1_0000_0000_0000;
    let r5 = f + g * 0x100 + h * 0x1_0000 + i * 0x100_0000 + j * 0x1_0000_0000 + k
        * 0x100_0000_0000;
    let r6 = g + h * 0x100 + i * 0x1_0000 + j * 0x100_0000 + k * 0x1_0000_0000;
    let r7 = h + i * 0x100 + j * 0x1_0000 + k * 0x100_0000;
    let r8 = i + j * 0x100 + k * 0x1_0000;
    let r9 = j + k * 0x100;
    let v = a + b * 0x1_0000_0000 + c * 0x1_0000_0000_0000 + d * 0x1_0000_0000_0000_0000 + e
        * 0x100_0000_0000_0000_0000 + f * 0x1_0000_0000_0000_0000_0000 + g
        * 0x100_0000_0000_0000_0000_0000 + h * 0x1_0000_0000_0000_0000_0000_0000 + i
        * 0x100_0000_0000_0000_0000_0000_0000 + j * 0x1_0000_0000_0000_0000_0000_0000_0000 + k
        * 0x100_0000_0000_0000_0000_0000_0000_0000;
    lemma_div_mod_split(v, a, r1, 0x1_0000_0000);
    lemma_div_mod_split(r1, b, r2, 0x1_0000);
    lemma_div_mod_split(r2, c, r3, 0x1_0000);
    lemma_div_mod_split(r3, d, r4, 0x100);
    lemma_div_mod_split(r4, e, r5, 0x100);
    lemma_div_mod_split(r5, f, r6, 0x100);
    lemma_div_mod_split(r6, g, r7, 0x100);
    lemma_div_mod_split(r7, h, r8, 0x100);
    lemma_div_mod_split(r8, i, r9, 0x100);
    lemma_div_mod_split(r9, j, k, 0x100);
}

/// A valid text with every hex digit replaced by its lower-case form.
pub open spec fn canon_guid_text(s: Seq<u8>) -> Seq<u8> {
    Seq::new(
        36,
        |n: int|
            if n == 8 || n == 13 || n == 18 || n == 23 {
                45u8
            } else {
                hex_char(hex_val(s[n]))
            },
    )
}

/// A 32-bit field assembled from four bytes gives those bytes back.
proof fn lemma_u32_byte_extract(b0: int, b1: int, b2: int, b3: int)
    by (nonlinear_arith)
    requires
        0 <= b0 < 256,
        0 <= b1 < 256,
        0 <= b2 < 256,
        0 <= b3 < 256,
    ensures
        (b0 + b1 * 0x100 + b2 * 0x10000 + b3 * 0x1000000) % 0x100 == b0,
        ((b0 + b1 * 0x100 + b2 * 0x10000 + b3 * 0x1000000) / 0x100) % 0x100 == b1,
        ((b0 + b1 * 0x100 + b2 * 0x10000 + b3 * 0x1000000) / 0x10000) % 0x100 == b2,
        (b0 + b1 * 0x100 + b2 * 0x10000 + b3 * 0x1000000) / 0x1000000 == b3,
{
}

/// A 16-bit field assembled from two bytes gives those bytes back.
proof fn lemma_u16_byte_extract(b0: int, b1: int)
    by (nonlinear_arith)
    requires
        0 <= b0 < 256,
        0 <= b1 < 256,
    ensures
        (b0 + b1 * 0x100) % 0x100 == b0,
        (b0 + b1 * 0x100) / 0x100 == b1,
{
}

/// A byte assembled from two hex-digit values gives the digits back.
proof fn lemma_pair_digit_extract(h1: int, h2: int)
    by (nonlinear_arith)
    requires
        0 <= h1 < 16,
        0 <= h2 < 16,
    ensures
        (h1 * 16 + h2) / 16 == h1,
        (h1 * 16 + h2) % 16 == h2,
{
}

/// Round trip: formatting the identifier parsed from any valid text gives
/// the same text with its 32 hex digits normalized to lower case and the
/// hyphens at the same four positions.
#[verifier::rlimit(60)]
pub proof fn lemma_format_parse_roundtrip(s: Seq<u8>, g: Guid)
    requires
        valid_guid_text(s),
        spec_parse(s) == Some(g),
    ensures
        spec_format(g) =~= canon_guid_text(s),
{
    assert forall|n: int| 0 <= n < 36 && n != 8 && n != 13 && n != 18 && n != 23 implies 0 <=
        hex_val(#[trigger] s[n]) < 16 by {
        assert(is_hex_digit(s[n]));
    }
    lemma_u32_byte_extract(text_pair(s, 0), text_pair(s, 2), text_pair(s, 4), text_pair(s, 6));
    lemma_u16_byte_extract(text_pair(s, 9), text_pair(s, 11));
    lemma_u16_byte_extract(text_pair(s, 14), text_pair(s, 16));
    lemma_pair_digit_extract(hex_val(s[0]), hex_val(s[1]));
    lemma_pair_digit_extract(hex_val(s[2]), hex_val(s[3]));
    lemma_pair_digit_extract(hex_val(s[4]), hex_val(s[5]));
    lemma_pair_digit_extract(hex_val(s[6]), hex_val(s[7]));
    lemma_pair_digit_extract(hex_val(s[9]), hex_val(s[10]));
    lemma_pair_digit_extract(hex_val(s[11]), hex_val(s[12]));
    lemma_pair_digit_extract(hex_val(s[14]), hex_val(s[15]));
    lemma_pair_digit_extract(hex_val(s[16]), hex_val(s[17]));
    lemma_pair_digit_extract(hex_val(s[19]), hex_val(s[20]));
    lemma_pair_digit_extract(hex_val(s[21]), hex_val(s[22]));
    lemma_pair_digit_extract(hex_val(s[24]), hex_val(s[25]));
    lemma_pair_digit_extract(hex_val(s[26]), hex_val(s[27]));
    lemma_pair_digit_extract(hex_val(s[28]), hex_val(s[29]));
    lemma_pair_digit_extract(hex_val(s[30]), hex_val(s[31]));
    lemma_pair_digit_extract(hex_val(s[32]), hex_val(s[33]));
    lemma_pair_digit_extract(hex_val(s[34]), hex_val(s[35]));
}

/// The canonical text of any identifier is itself a valid text, so parsing
/// what `format` writes can never fail.
pub proof fn lemma_format_is_valid_text(g: Guid)
    ensures
        valid_guid_text(spec_format(g)),
{
    assert forall|n: int| 0 <= n < 36 && n != 8 && n != 13 && n != 18 && n != 23 implies
        is_hex_digit(#[trigger] spec_format(g)[n]) by {
        assert(forall|v: int| 0 <= v < 16 ==> is_hex_digit(#[trigger] hex_char(v)));
    }
}

impl core::str::FromStr for Guid {
    type Err = ();

    fn from_str(s: &str) -> Result<Self, ()> {
        match Guid::from_str(s) {
            Some(g) => Ok(g),
            None => Err(()),
        }
    }
}

/// Byte-swapping a 32-bit value assembled from four bytes reverses the bytes.
proof fn lemma_swap_bytes_u32_of_sum(b0: int, b1: int, b2: int, b3: int)
    by (nonlinear_arith)
    requires
        0 <= b0 < 256,
        0 <= b1 < 256,
        0 <= b2 < 256,
        0 <= b3 < 256,
    ensures
        swap_bytes_u32((b0 + b1 * 0x100 + b2 * 0x10000 + b3 * 0x1000000) as u32) == b3 + b2 * 0x100
            + b1 * 0x10000 + b0 * 0x1000000,
{
}

/// Byte-swapping a 16-bit value assembled from two bytes exchanges them.
proof fn lemma_swap_bytes_u16_of_sum(b0: int, b1: int)
    by (nonlinear_arith)
    requires
        0 <= b0 < 256,
        0 <= b1 < 256,
    ensures
        swap_bytes_u16((b0 + b1 * 0x100) as u16) == b1 + b0 * 0x100,
{
}

} // verus!
