//! Rendering of numbers into the decimal and hexadecimal text forms the
//! wire protocol uses, with exact specifications.

use vstd::prelude::*;

verus! {

/// The decimal digit character for `d % 10`.
pub open spec fn spec_digit_char(d: nat) -> char {
    ((48 + (d % 10)) as u8) as char
}

/// Decimal text of a natural number, most significant digit first, no
/// leading zeroes (a lone zero for 0).
pub open spec fn spec_dec_nat(n: nat) -> Seq<char>
    decreases n,
{
    if n < 10 {
        seq![spec_digit_char(n)]
    } else {
        spec_dec_nat(n / 10).push(spec_digit_char(n % 10))
    }
}

/// Decimal text of an integer: a `-` sign for negative values, no sign
/// otherwise.
pub open spec fn spec_dec_int(n: int) -> Seq<char> {
    if n < 0 {
        seq!['-'] + spec_dec_nat((-n) as nat)
    } else {
        spec_dec_nat(n as nat)
    }
}

/// `s` left-padded with `'0'` up to width `w`.
pub open spec fn spec_zero_pad(s: Seq<char>, w: nat) -> Seq<char> {
    if s.len() >= w {
        s
    } else {
        Seq::new((w - s.len()) as nat, |i: int| '0') + s
    }
}

/// Sign-aware zero-padded decimal of width four: an explicit sign, then the
/// magnitude zero-padded to three digits.
pub open spec fn spec_signed_dec4(n: int) -> Seq<char> {
    (if n < 0 {
        seq!['-']
    } else {
        seq!['+']
    }) + spec_zero_pad(spec_dec_nat(if n < 0 { (-n) as nat } else { n as nat }), 3)
}

/// The lowercase hexadecimal digit character for `d % 16`.
pub open spec fn spec_hex_digit_char(d: nat) -> char {
    if d % 16 < 10 {
        ((48 + (d % 16)) as u8) as char
    } else {
        ((87 + (d % 16)) as u8) as char
    }
}

/// Four lowercase hexadecimal digits of a 16-bit value, most significant
/// first, zero-padded.
pub open spec fn spec_hex4(n: nat) -> Seq<char> {
    seq![
        spec_hex_digit_char((n / 4096) % 16),
        spec_hex_digit_char((n / 256) % 16),
        spec_hex_digit_char((n / 16) % 16),
        spec_hex_digit_char(n % 16),
    ]
}

/// How many characters the decimal text of `n` has, for the small ranges the
/// zero-padded fields use.
pub proof fn lemma_dec_nat_len(n: nat)
    ensures
        n < 10 ==> spec_dec_nat(n).len() == 1,
        10 <= n < 100 ==> spec_dec_nat(n).len() == 2,
        100 <= n < 1000 ==> spec_dec_nat(n).len() == 3,
        1000 <= n < 10000 ==> spec_dec_nat(n).len() == 4,
        10000 <= n ==> spec_dec_nat(n).len() >= 5,
    decreases n,
{
    if n >= 10 {
        lemma_dec_nat_len(n / 10);
    }
}

/// Relies on `String::push` of std (vstd gives it no specification):
/// appends exactly the given character.
#[verifier::external_body]
pub(crate) fn push_char(s: &mut String, c: char)
    ensures
        final(s)@ == old(s)@.push(c),
{
    s.push(c);
}

/// The characters of a byte sequence, one character per byte.
pub open spec fn spec_chars_of(b: Seq<u8>) -> Seq<char> {
    Seq::new(b.len(), |i: int| b[i] as char)
}

/// Builds a `String` holding one character per byte.
pub fn chars_string(bytes: &Vec<u8>) -> (r: String)
    ensures
        r@ == spec_chars_of(bytes@),
{
    let mut s = String::new();
    let mut i: usize = 0;
    while i < bytes.len()
        invariant
            0 <= i <= bytes@.len(),
            s@ == spec_chars_of(bytes@.take(i as int)),
        decreases bytes@.len() - i,
    {
        push_char(&mut s, bytes[i] as char);
        proof {
            assert(s@ =~= spec_chars_of(bytes@.take(i as int + 1)));
        }
        i = i + 1;
    }
    proof {
        assert(bytes@.take(bytes@.len() as int) =~= bytes@);
    }
    s
}

/// Decimal text of `n`.
pub fn dec_u64(n: u64) -> (r: String)
    ensures
        r@ == spec_dec_nat(n as nat),
    decreases n,
{
    if n < 10 {
        let mut s = String::new();
        push_char(&mut s, (48 + n as u8) as char);
        proof {
            assert(s@ =~= spec_dec_nat(n as nat));
        }
        s
    } else {
        let mut s = dec_u64(n / 10);
        push_char(&mut s, (48 + (n % 10) as u8) as char);
        proof {
            assert(s@ =~= spec_dec_nat(n as nat));
        }
        s
    }
}

/// Decimal text of `n`, with a `-` sign for negative values.
pub fn dec_i64(n: i64) -> (r: String)
    ensures
        r@ == spec_dec_int(n as int),
{
    if n >= 0 {
        dec_u64(n as u64)
    } else {
        let magnitude: u64 = if n == i64::MIN {
            9223372036854775808u64
        } else {
            (-n) as u64
        };
        let mut s = String::new();
        push_char(&mut s, '-');
        let d = dec_u64(magnitude);
        s.append(d.as_str());
        proof {
            assert(s@ =~= spec_dec_int(n as int));
        }
        s
    }
}

/// Decimal text of `n` zero-padded to at least three characters.
pub fn dec_pad3(n: u64) -> (r: String)
    ensures
        r@ == spec_zero_pad(spec_dec_nat(n as nat), 3),
{
    let mut s = String::new();
    if n < 10 {
        s.append("00");
    } else if n < 100 {
        s.append("0");
    }
    let d = dec_u64(n);
    s.append(d.as_str());
    proof {
        lemma_dec_nat_len(n as nat);
        reveal_strlit("00");
        reveal_strlit("0");
        assert(s@ =~= spec_zero_pad(spec_dec_nat(n as nat), 3));
    }
    s
}

/// Decimal text of `n` zero-padded to at least four characters.
pub fn dec_pad4(n: u64) -> (r: String)
    ensures
        r@ == spec_zero_pad(spec_dec_nat(n as nat), 4),
{
    let mut s = String::new();
    if n < 10 {
        s.append("000");
    } else if n < 100 {
        s.append("00");
    } else if n < 1000 {
        s.append("0");
    }
    let d = dec_u64(n);
    s.append(d.as_str());
    proof {
        lemma_dec_nat_len(n as nat);
        reveal_strlit("000");
        reveal_strlit("00");
        reveal_strlit("0");
        assert(s@ =~= spec_zero_pad(spec_dec_nat(n as nat), 4));
    }
    s
}

/// Sign-aware zero-padded decimal of width four.
pub fn dec_signed4(n: i64) -> (r: String)
    ensures
        r@ == spec_signed_dec4(n as int),
{
    let mut s = String::new();
    let magnitude: u64;
    if n < 0 {
        push_char(&mut s, '-');
        magnitude = if n == i64::MIN {
            9223372036854775808u64
        } else {
            (-n) as u64
        };
    } else {
        push_char(&mut s, '+');
        magnitude = n as u64;
    }
    let d = dec_pad3(magnitude);
    s.append(d.as_str());
    proof {
        assert(s@ =~= spec_signed_dec4(n as int));
    }
    s
}

/// Four lowercase hexadecimal digits of `n`.
pub fn hex4(n: u16) -> (r: String)
    ensures
        r@ == spec_hex4(n as nat),
{
    let mut s = String::new();
    push_char(&mut s, hex_digit(((n / 4096) % 16) as u8));
    push_char(&mut s, hex_digit(((n / 256) % 16) as u8));
    push_char(&mut s, hex_digit(((n / 16) % 16) as u8));
    push_char(&mut s, hex_digit((n % 16) as u8));
    proof {
        assert(s@ =~= spec_hex4(n as nat));
    }
    s
}

/// The lowercase hexadecimal digit character for `d`.
pub fn hex_digit(d: u8) -> (r: char)
    requires
        d < 16,
    ensures
        r == spec_hex_digit_char(d as nat),
{
    if d < 10 {
        (48 + d) as char
    } else {
        (87 + d) as char
    }
}

} // verus!
