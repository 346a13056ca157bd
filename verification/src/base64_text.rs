use vstd::prelude::*;

verus! {

/// The character of a six-bit value in the standard Base64 alphabet
/// (RFC 4648): `A`-`Z`, `a`-`z`, `0`-`9`, `+`, `/`.
pub open spec fn sextet_char(v: int) -> char {
    if v < 26 {
        (65 + v) as char
    } else if v < 52 {
        (97 + (v - 26)) as char
    } else if v < 62 {
        (48 + (v - 52)) as char
    } else if v == 62 {
        '+'
    } else {
        '/'
    }
}

/// The six-bit value of a character of the standard alphabet.
pub open spec fn sextet_value(c: char) -> int {
    let n = c as int;
    if 65 <= n <= 90 {
        n - 65
    } else if 97 <= n <= 122 {
        n - 97 + 26
    } else if 48 <= n <= 57 {
        n - 48 + 52
    } else if c == '+' {
        62
    } else {
        63
    }
}

/// Whether a character belongs to the standard alphabet.
pub open spec fn is_alphabet_char(c: char) -> bool {
    let n = c as int;
    (65 <= n <= 90) || (97 <= n <= 122) || (48 <= n <= 57) || c == '+' || c == '/'
}

/// Standard Base64 with `=` padding: every three bytes become four characters,
/// and a last group of one or two bytes becomes two or three characters and
/// `=` padding up to four.
pub open spec fn base64_standard(b: Seq<u8>) -> Seq<char>
    decreases b.len(),
{
    if b.len() == 0 {
        Seq::empty()
    } else if b.len() == 1 {
        let b0 = b[0] as int;
        seq![sextet_char(b0 / 4), sextet_char((b0 % 4) * 16), '=', '=']
    } else if b.len() == 2 {
        let b0 = b[0] as int;
        let b1 = b[1] as int;
        seq![sextet_char(b0 / 4), sextet_char((b0 % 4) * 16 + b1 / 16), sextet_char((b1 % 16) * 4), '=']
    } else {
        let b0 = b[0] as int;
        let b1 = b[1] as int;
        let b2 = b[2] as int;
        seq![
            sextet_char(b0 / 4),
            sextet_char((b0 % 4) * 16 + b1 / 16),
            sextet_char((b1 % 16) * 4 + b2 / 64),
            sextet_char(b2 % 64),
        ] + base64_standard(b.subrange(3, b.len() as int))
    }
}

/// Reading Base64 text back into bytes, four characters at a time.
pub open spec fn base64_decode(t: Seq<char>) -> Seq<u8>
    decreases t.len(),
{
    if t.len() < 4 {
        Seq::empty()
    } else {
        let v0 = sextet_value(t[0]);
        let v1 = sextet_value(t[1]);
        let v2 = sextet_value(t[2]);
        let v3 = sextet_value(t[3]);
        let group: Seq<u8> = if t[2] == '=' {
            seq![(v0 * 4 + v1 / 16) as u8]
        } else if t[3] == '=' {
            seq![(v0 * 4 + v1 / 16) as u8, ((v1 % 16) * 16 + v2 / 4) as u8]
        } else {
            seq![(v0 * 4 + v1 / 16) as u8, ((v1 % 16) * 16 + v2 / 4) as u8, ((v2 % 4) * 64 + v3) as u8]
        };
        group + base64_decode(t.subrange(4, t.len() as int))
    }
}

/// The length of the Base64 text of `n` bytes.
pub open spec fn base64_len(n: nat) -> nat {
    ((n + 2) / 3 * 4) as nat
}

proof fn lemma_sextet_round_trip(v: int)
    requires
        0 <= v < 64,
    ensures
        sextet_value(sextet_char(v)) == v,
        is_alphabet_char(sextet_char(v)),
        sextet_char(v) != '=',
{
}

/// Base64 text has four characters for every started group of three bytes, all
/// of them from the alphabet or `=`, and decoding it gives back the bytes.
pub proof fn lemma_base64_round_trip(b: Seq<u8>)
    ensures
        base64_standard(b).len() == base64_len(b.len()),
        forall|i: int| 0 <= i < base64_standard(b).len() ==>
            is_alphabet_char(#[trigger] base64_standard(b)[i]) || base64_standard(b)[i] == '=',
        base64_decode(base64_standard(b)) == b,
    decreases b.len(),
{
    let t = base64_standard(b);
    if b.len() == 0 {
    } else if b.len() == 1 {
        let b0 = b[0] as int;
        lemma_sextet_round_trip(b0 / 4);
        lemma_sextet_round_trip((b0 % 4) * 16);
        assert(t.subrange(4, t.len() as int) =~= Seq::<char>::empty());
        assert(base64_decode(Seq::<char>::empty()) =~= Seq::<u8>::empty());
        assert(sextet_value(t[0]) == b0 / 4 && sextet_value(t[1]) == (b0 % 4) * 16);
        assert(t[2] == '=');
        assert((b0 / 4) * 4 + ((b0 % 4) * 16) / 16 == b0) by (nonlinear_arith)
            requires 0 <= b0 < 256;
        assert(base64_decode(t) =~= seq![((b0 / 4) * 4 + ((b0 % 4) * 16) / 16) as u8]);
        assert(base64_decode(t) =~= b);
    } else if b.len() == 2 {
        let b0 = b[0] as int;
        let b1 = b[1] as int;
        lemma_sextet_round_trip(b0 / 4);
        lemma_sextet_round_trip((b0 % 4) * 16 + b1 / 16);
        lemma_sextet_round_trip((b1 % 16) * 4);
        assert(t.subrange(4, t.len() as int) =~= Seq::<char>::empty());
        assert(base64_decode(Seq::<char>::empty()) =~= Seq::<u8>::empty());
        assert(t[2] != '=' && t[3] == '=');
        let v1 = (b0 % 4) * 16 + b1 / 16;
        assert((b0 / 4) * 4 + v1 / 16 == b0 && (v1 % 16) * 16 + ((b1 % 16) * 4) / 4 == b1) by (nonlinear_arith)
            requires 0 <= b0 < 256, 0 <= b1 < 256, v1 == (b0 % 4) * 16 + b1 / 16;
        assert(base64_decode(t) =~= b);
    } else {
        let b0 = b[0] as int;
        let b1 = b[1] as int;
        let b2 = b[2] as int;
        let rest = b.subrange(3, b.len() as int);
        lemma_base64_round_trip(rest);
        lemma_sextet_round_trip(b0 / 4);
        lemma_sextet_round_trip((b0 % 4) * 16 + b1 / 16);
        lemma_sextet_round_trip((b1 % 16) * 4 + b2 / 64);
        lemma_sextet_round_trip(b2 % 64);
        let head = seq![
            sextet_char(b0 / 4),
            sextet_char((b0 % 4) * 16 + b1 / 16),
            sextet_char((b1 % 16) * 4 + b2 / 64),
            sextet_char(b2 % 64),
        ];
        assert(t == head + base64_standard(rest));
        assert(t.subrange(4, t.len() as int) =~= base64_standard(rest));
        assert forall|i: int| 0 <= i < t.len() implies is_alphabet_char(#[trigger] t[i]) || t[i] == '=' by {
            if i >= 4 {
                assert(t[i] == base64_standard(rest)[i - 4]);
            }
        }
        assert(b =~= seq![b[0], b[1], b[2]] + rest);
        assert(base64_decode(t) =~= b);
    }
}

} // verus!
