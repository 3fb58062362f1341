//! Segment encoding for the token wire format. Every token segment is a
//! byte string spelled as lowercase hexadecimal digit pairs, so a
//! segment never contains the segment separator and each segment is
//! independently decodable.

use vstd::prelude::*;
use vstd::arithmetic::div_mod::lemma_fundamental_div_mod;
use vstd::arithmetic::div_mod::lemma_fundamental_div_mod_converse;

verus! {

/// The digit that spells a nibble value, lowercase.
pub open spec fn hex_digit(n: u8) -> u8
    recommends
        n < 16,
{
    if n < 10 {
        (48 + n) as u8
    } else {
        (87 + n) as u8
    }
}

/// Whether a byte is a lowercase hex digit.
pub open spec fn is_hex_digit(c: u8) -> bool {
    (48 <= c && c <= 57) || (97 <= c && c <= 102)
}

/// The nibble a hex digit spells.
pub open spec fn hex_val(c: u8) -> u8
    recommends
        is_hex_digit(c),
{
    if c <= 57 {
        (c - 48) as u8
    } else {
        ((c - 97) + 10) as u8
    }
}

/// The spelling of a byte string: two digits per byte, high nibble
/// first.
pub open spec fn hex_of(b: Seq<u8>) -> Seq<u8>
    decreases b.len(),
{
    if b.len() == 0 {
        Seq::empty()
    } else {
        seq![hex_digit(b[0] / 16), hex_digit(b[0] % 16)] + hex_of(b.skip(1))
    }
}

/// The bytes a segment spells, or nothing unless the segment is wholly
/// made of lowercase hex digit pairs.
pub open spec fn unhex_of(s: Seq<u8>) -> Option<Seq<u8>>
    decreases s.len(),
{
    if s.len() == 0 {
        Some(Seq::empty())
    } else if s.len() == 1 {
        None
    } else if is_hex_digit(s[0]) && is_hex_digit(s[1]) {
        match unhex_of(s.skip(2)) {
            Some(rest) => Some(seq![(hex_val(s[0]) * 16 + hex_val(s[1])) as u8] + rest),
            None => None,
        }
    } else {
        None
    }
}

/// A spelling is twice as long as its bytes.
pub proof fn lemma_hex_of_len(b: Seq<u8>)
    ensures
        hex_of(b).len() == 2 * b.len(),
    decreases b.len(),
{
    if b.len() > 0 {
        lemma_hex_of_len(b.skip(1));
    }
}

/// The digit of a nibble is a digit and reads back as that nibble.
pub proof fn lemma_hex_digit(n: u8)
    requires
        n < 16,
    ensures
        is_hex_digit(hex_digit(n)),
        hex_val(hex_digit(n)) == n,
{
}

/// A valid digit round-trips through its nibble.
pub proof fn lemma_hex_val(c: u8)
    requires
        is_hex_digit(c),
    ensures
        hex_val(c) < 16,
        hex_digit(hex_val(c)) == c,
{
}

/// Every byte of a spelling is a hex digit.
pub proof fn lemma_hex_of_digits(b: Seq<u8>)
    ensures
        forall|i: int| 0 <= i < hex_of(b).len() ==> is_hex_digit(#[trigger] hex_of(b)[i]),
    decreases b.len(),
{
    if b.len() > 0 {
        lemma_hex_of_digits(b.skip(1));
        assert forall|i: int| 0 <= i < hex_of(b).len() implies is_hex_digit(
            #[trigger] hex_of(b)[i],
        ) by {
            if i == 0 {
                lemma_hex_digit(b[0] / 16);
            } else if i == 1 {
                lemma_hex_digit(b[0] % 16);
            } else {
                assert(hex_of(b)[i] == hex_of(b.skip(1))[i - 2]);
            }
        }
    }
}

/// Decoding a spelling gives back exactly its bytes.
pub proof fn lemma_unhex_hex(b: Seq<u8>)
    ensures
        unhex_of(hex_of(b)) == Some(b),
    decreases b.len(),
{
    if b.len() == 0 {
        assert(b =~= Seq::<u8>::empty());
    } else {
        lemma_unhex_hex(b.skip(1));
        let h = hex_of(b);
        let pair = seq![hex_digit(b[0] / 16), hex_digit(b[0] % 16)];
        lemma_hex_of_len(b.skip(1));
        assert(h.skip(2) =~= hex_of(b.skip(1)));
        lemma_hex_digit(b[0] / 16);
        lemma_hex_digit(b[0] % 16);
        lemma_fundamental_div_mod(b[0] as int, 16);
        assert(hex_val(h[0]) * 16 + hex_val(h[1]) == b[0]);
        assert(seq![b[0]] + b.skip(1) =~= b);
    }
}

/// A spelling is the only segment that decodes to its bytes.
pub proof fn lemma_hex_unhex(s: Seq<u8>, b: Seq<u8>)
    requires
        unhex_of(s) == Some(b),
    ensures
        s == hex_of(b),
    decreases s.len(),
{
    if s.len() == 0 {
        assert(b =~= Seq::<u8>::empty());
        assert(s =~= hex_of(b));
    } else {
        let rest = unhex_of(s.skip(2)).unwrap();
        lemma_hex_unhex(s.skip(2), rest);
        let v = (hex_val(s[0]) * 16 + hex_val(s[1])) as u8;
        assert(b == seq![v] + rest);
        lemma_hex_val(s[0]);
        lemma_hex_val(s[1]);
        lemma_fundamental_div_mod_converse(v as int, 16, hex_val(s[0]) as int, hex_val(s[1]) as int);
        assert(b[0] == v);
        assert(b.skip(1) =~= rest);
        assert(s =~= seq![s[0], s[1]] + s.skip(2));
        assert(hex_of(b) == seq![hex_digit(v / 16), hex_digit(v % 16)] + hex_of(rest));
        assert(s == hex_of(b));
    }
}

/// Two byte strings with one spelling are the same string.
pub proof fn lemma_hex_of_injective(a: Seq<u8>, b: Seq<u8>)
    requires
        hex_of(a) == hex_of(b),
    ensures
        a == b,
{
    lemma_unhex_hex(a);
    lemma_unhex_hex(b);
}

/// A segment of odd length decodes to nothing.
pub proof fn lemma_unhex_odd(s: Seq<u8>)
    requires
        s.len() % 2 == 1,
    ensures
        unhex_of(s) is None,
    decreases s.len(),
{
    if s.len() > 1 && is_hex_digit(s[0]) && is_hex_digit(s[1]) {
        lemma_unhex_odd(s.skip(2));
    }
}

/// Appending one byte appends its digit pair to the spelling.
pub proof fn lemma_hex_of_push(b: Seq<u8>, x: u8)
    ensures
        hex_of(b.push(x)) == hex_of(b) + seq![hex_digit(x / 16), hex_digit(x % 16)],
    decreases b.len(),
{
    let pair = seq![hex_digit(x / 16), hex_digit(x % 16)];
    if b.len() == 0 {
        assert(b.push(x)[0] == x);
        assert(b.push(x).skip(1) =~= Seq::<u8>::empty());
        assert(hex_of(b.push(x)) == pair + hex_of(b.push(x).skip(1)));
        assert(hex_of(b.push(x)) =~= hex_of(b) + pair);
    } else {
        lemma_hex_of_push(b.skip(1), x);
        assert(b.push(x).skip(1) =~= b.skip(1).push(x));
        assert(b.push(x)[0] == b[0]);
        let head = seq![hex_digit(b[0] / 16), hex_digit(b[0] % 16)];
        assert(hex_of(b.push(x)) == head + (hex_of(b.skip(1)) + pair));
        assert(head + (hex_of(b.skip(1)) + pair) =~= (head + hex_of(b.skip(1))) + pair);
    }
}

fn hex_digit_exec(n: u8) -> (r: u8)
    requires
        n < 16,
    ensures
        r == hex_digit(n),
{
    if n < 10 {
        48 + n
    } else {
        87 + n
    }
}

fn hex_val_exec(c: u8) -> (r: u8)
    requires
        is_hex_digit(c),
    ensures
        r == hex_val(c),
        r < 16,
{
    if c <= 57 {
        c - 48
    } else {
        (c - 97) + 10
    }
}

fn is_hex_digit_exec(c: u8) -> (r: bool)
    ensures
        r == is_hex_digit(c),
{
    (48 <= c && c <= 57) || (97 <= c && c <= 102)
}

/// Spell a byte string as lowercase hex, two digits for each byte.
pub fn hex_encode(b: &Vec<u8>) -> (r: Vec<u8>)
    ensures
        r@ == hex_of(b@),
{
    let mut out: Vec<u8> = Vec::new();
    let mut i: usize = 0;
    while i < b.len()
        invariant
            i <= b@.len(),
            out@ == hex_of(b@.take(i as int)),
        decreases b@.len() - i,
    {
        let byte = b[i];
        out.push(hex_digit_exec(byte / 16));
        out.push(hex_digit_exec(byte % 16));
        proof {
            lemma_hex_of_push(b@.take(i as int), byte);
            assert(b@.take(i + 1) =~= b@.take(i as int).push(b@[i as int]));
        }
        i = i + 1;
    }
    proof {
        assert(b@.take(b@.len() as int) =~= b@);
    }
    out
}

/// Read a segment back into bytes; nothing unless it is wholly made of
/// lowercase hex digit pairs.
pub fn hex_decode(s: &Vec<u8>) -> (r: Option<Vec<u8>>)
    ensures
        match unhex_of(s@) {
            Some(b) => r matches Some(v) && v@ == b,
            None => r is None,
        },
{
    let n = s.len();
    if n % 2 != 0 {
        proof {
            lemma_unhex_odd(s@);
        }
        return None;
    }
    let mut out: Vec<u8> = Vec::new();
    let mut i: usize = 0;
    proof {
        assert(s@.skip(0) =~= s@);
        assert(forall|rest: Seq<u8>| Seq::<u8>::empty() + rest =~= rest);
    }
    while i < n
        invariant
            n == s@.len(),
            n % 2 == 0,
            i % 2 == 0,
            i <= n,
            unhex_of(s@) == match unhex_of(s@.skip(i as int)) {
                Some(rest) => Some(out@ + rest),
                None => None::<Seq<u8>>,
            },
        decreases n - i,
    {
        let c0 = s[i];
        let c1 = s[i + 1];
        if !(is_hex_digit_exec(c0) && is_hex_digit_exec(c1)) {
            proof {
                assert(s@.skip(i as int)[0] == c0);
                assert(s@.skip(i as int)[1] == c1);
                assert(unhex_of(s@.skip(i as int)) is None);
            }
            return None;
        }
        let v = hex_val_exec(c0) * 16 + hex_val_exec(c1);
        proof {
            assert(s@.skip(i as int)[0] == c0);
            assert(s@.skip(i as int)[1] == c1);
            assert(s@.skip(i as int).skip(2) =~= s@.skip(i + 2));
            assert(unhex_of(s@.skip(i as int)) == match unhex_of(s@.skip(i + 2)) {
                Some(rest) => Some(seq![v] + rest),
                None => None::<Seq<u8>>,
            });
            assert(forall|rest: Seq<u8>|
                out@ + (seq![v] + rest) =~= (out@ + seq![v]) + rest);
            assert(out@.push(v) =~= out@ + seq![v]);
        }
        out.push(v);
        i = i + 2;
    }
    proof {
        assert(s@.skip(n as int) =~= Seq::<u8>::empty());
        assert(out@ + Seq::<u8>::empty() =~= out@);
    }
    Some(out)
}

} // verus!
