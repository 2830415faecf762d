//! Text helpers shared by the bus: string equality, decimal rendering and
//! the DJB2-style hash used to derive message and peer identifiers.
use vstd::prelude::*;

verus! {

/// The UTF-8 bytes of a text.
pub open spec fn utf8_of(text: Seq<char>) -> Seq<u8> {
    vstd::utf8::encode_utf8(text)
}

/// DJB2 over bytes: start at 5381, then for every byte multiply by 33 and
/// add the byte, all modulo 2^64.
pub open spec fn djb2(bytes: Seq<u8>) -> u64
    decreases bytes.len(),
{
    if bytes.len() == 0 {
        5381
    } else {
        ((djb2(bytes.drop_last()) * 33 + bytes.last()) % 0x1_0000_0000_0000_0000) as u64
    }
}

/// The short hash of a text: DJB2 over its UTF-8 bytes, reduced below 100 000.
pub open spec fn short_hash(text: Seq<char>) -> u64 {
    djb2(utf8_of(text)) % 100_000
}

/// The character of a decimal digit.
pub open spec fn digit_char(d: nat) -> char {
    if d == 0 {
        '0'
    } else if d == 1 {
        '1'
    } else if d == 2 {
        '2'
    } else if d == 3 {
        '3'
    } else if d == 4 {
        '4'
    } else if d == 5 {
        '5'
    } else if d == 6 {
        '6'
    } else if d == 7 {
        '7'
    } else if d == 8 {
        '8'
    } else {
        '9'
    }
}

/// The decimal rendering of a natural number, without leading zeros.
pub open spec fn decimal_text(n: nat) -> Seq<char>
    decreases n,
{
    if n < 10 {
        seq![digit_char(n)]
    } else {
        decimal_text(n / 10).push(digit_char(n % 10))
    }
}

/// Whether two texts are equal; compares their UTF-8 bytes.
pub fn text_eq(a: &str, b: &str) -> (r: bool)
    ensures
        r == (a@ == b@),
{
    let x = a.as_bytes();
    let y = b.as_bytes();
    proof {
        vstd::utf8::encode_utf8_decode_utf8(a@);
        vstd::utf8::encode_utf8_decode_utf8(b@);
    }
    if x.len() != y.len() {
        return false;
    }
    let mut i: usize = 0;
    while i < x.len()
        invariant
            x@.len() == y@.len(),
            x@ == utf8_of(a@),
            y@ == utf8_of(b@),
            i <= x@.len(),
            forall|j: int| 0 <= j < i ==> x@[j] == y@[j],
        decreases x@.len() - i,
    {
        if x[i] != y[i] {
            return false;
        }
        i = i + 1;
    }
    assert(x@ =~= y@);
    true
}

/// The one-character text of a decimal digit.
fn digit_str(d: u128) -> (s: &'static str)
    requires
        d < 10,
    ensures
        s@ == seq![digit_char(d as nat)],
{
    proof {
        reveal_strlit("0");
        reveal_strlit("1");
        reveal_strlit("2");
        reveal_strlit("3");
        reveal_strlit("4");
        reveal_strlit("5");
        reveal_strlit("6");
        reveal_strlit("7");
        reveal_strlit("8");
        reveal_strlit("9");
    }
    let s = if d == 0 {
        "0"
    } else if d == 1 {
        "1"
    } else if d == 2 {
        "2"
    } else if d == 3 {
        "3"
    } else if d == 4 {
        "4"
    } else if d == 5 {
        "5"
    } else if d == 6 {
        "6"
    } else if d == 7 {
        "7"
    } else if d == 8 {
        "8"
    } else {
        "9"
    };
    assert(s@ =~= seq![digit_char(d as nat)]);
    s
}

/// Renders a number in decimal, as `{}` formatting does.
pub fn decimal_string(n: u128) -> (s: String)
    ensures
        s@ == decimal_text(n as nat),
    decreases n,
{
    if n < 10 {
        String::from_str(digit_str(n))
    } else {
        let mut s = decimal_string(n / 10);
        s.append(digit_str(n % 10));
        s
    }
}

proof fn lemma_djb2_step(h: u64, b: u8)
    ensures
        vstd::wrapping::u64_specs::wrapping_add(vstd::wrapping::u64_specs::wrapping_mul(h, 33), b as u64)
            == ((h * 33 + b) % 0x1_0000_0000_0000_0000) as u64,
{
    let r: int = 0x1_0000_0000_0000_0000;
    let m: int = (h as int * 33) % r;
    assert(0 <= m < r) by (nonlinear_arith)
        requires
            r == 0x1_0000_0000_0000_0000int,
            m == (h as int * 33) % r,
    ;
    assert((h as int * 33 + b as int) % r == (m + b as int) % r) by (nonlinear_arith)
        requires
            r == 0x1_0000_0000_0000_0000int,
            m == (h as int * 33) % r,
    ;
    if m + b >= r {
        assert((m + b as int) % r == m + b - r) by (nonlinear_arith)
            requires
                r <= m + b < 2 * r,
                r > 0,
        ;
    } else {
        assert((m + b as int) % r == m + b) by (nonlinear_arith)
            requires
                0 <= m + b < r,
        ;
    }
}

/// DJB2 over the UTF-8 bytes of `input`, reduced modulo 100 000.
pub fn simple_hash(input: String) -> (h: u64)
    ensures
        h == short_hash(input@),
        h < 100_000,
{
    let bytes = input.as_str().as_bytes();
    let mut hash: u64 = 5381;
    let mut i: usize = 0;
    while i < bytes.len()
        invariant
            bytes@ == utf8_of(input@),
            i <= bytes@.len(),
            hash == djb2(bytes@.take(i as int)),
        decreases bytes@.len() - i,
    {
        let byte = bytes[i];
        proof {
            lemma_djb2_step(hash, byte);
            assert(bytes@.take(i + 1).drop_last() =~= bytes@.take(i as int));
        }
        hash = hash.wrapping_mul(33).wrapping_add(byte as u64);
        i = i + 1;
    }
    assert(bytes@.take(i as int) =~= bytes@);
    hash % 100_000
}

} // verus!
