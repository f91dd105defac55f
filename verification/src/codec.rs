//! Byte-level codecs shared by the pipeline: lower-case hex spelling for the
//! text (JSON-facing) form of payload arguments, and the chain's canonical
//! length-prefixed binary form (ULEB128 length followed by the raw bytes).

use vstd::prelude::*;

verus! {

/// ASCII code of the lower-case hex digit for a nibble below sixteen.
pub open spec fn hex_digit_of(n: u8) -> u8
    recommends
        n < 16,
{
    if n < 10 {
        (48 + n) as u8
    } else {
        (87 + n) as u8
    }
}

/// The byte is an ASCII hex digit, either case.
pub open spec fn is_hex_digit(d: u8) -> bool {
    (48 <= d && d <= 57) || (97 <= d && d <= 102) || (65 <= d && d <= 70)
}

/// Numeric value of an ASCII hex digit.
pub open spec fn hex_value_of(d: u8) -> u8
    recommends
        is_hex_digit(d),
{
    if 48 <= d && d <= 57 {
        (d - 48) as u8
    } else if 97 <= d && d <= 102 {
        (d - 87) as u8
    } else {
        (d - 55) as u8
    }
}

/// Every byte of the string is a hex digit.
pub open spec fn is_hex_seq(s: Seq<u8>) -> bool {
    forall|i: int| 0 <= i < s.len() ==> is_hex_digit(#[trigger] s[i])
}

/// Lower-case hex spelling of a byte string: two digits per byte, high
/// nibble first.
pub open spec fn hex_of(b: Seq<u8>) -> Seq<u8> {
    Seq::new(
        2 * b.len(),
        |i: int|
            if i % 2 == 0 {
                hex_digit_of(b[i / 2] / 16)
            } else {
                hex_digit_of(b[i / 2] % 16)
            },
    )
}

/// Byte string spelled by an even-length string of hex digits.
pub open spec fn unhex(s: Seq<u8>) -> Seq<u8>
    recommends
        s.len() % 2 == 0,
        is_hex_seq(s),
{
    Seq::new(s.len() / 2, |i: int| (16 * hex_value_of(s[2 * i]) + hex_value_of(s[2 * i + 1])) as u8)
}

/// Spelling a nibble and reading it back is the identity.
pub proof fn lemma_hex_digit_round_trip(n: u8)
    requires
        n < 16,
    ensures
        is_hex_digit(hex_digit_of(n)),
        hex_value_of(hex_digit_of(n)) == n,
{
}

/// Hex spelling loses nothing: reading the spelling of any byte string
/// back yields that byte string.
pub proof fn lemma_hex_round_trip(b: Seq<u8>)
    ensures
        hex_of(b).len() == 2 * b.len(),
        hex_of(b).len() % 2 == 0,
        is_hex_seq(hex_of(b)),
        unhex(hex_of(b)) == b,
{
    assert forall|i: int| 0 <= i < hex_of(b).len() implies is_hex_digit(#[trigger] hex_of(b)[i]) by {
        if i % 2 == 0 {
            lemma_hex_digit_round_trip(b[i / 2] / 16);
        } else {
            lemma_hex_digit_round_trip(b[i / 2] % 16);
        }
    }
    assert forall|i: int| 0 <= i < b.len() implies unhex(hex_of(b))[i] == b[i] by {
        let hi = b[i] / 16;
        let lo = b[i] % 16;
        lemma_hex_digit_round_trip(hi);
        lemma_hex_digit_round_trip(lo);
        assert((2 * i) / 2 == i && (2 * i) % 2 == 0 && (2 * i + 1) / 2 == i && (2 * i + 1) % 2
            == 1) by (nonlinear_arith);
        assert(hex_of(b)[2 * i] == hex_digit_of(hi));
        assert(hex_of(b)[2 * i + 1] == hex_digit_of(lo));
        assert(16 * (b[i] / 16) + b[i] % 16 == b[i]) by (nonlinear_arith);
    }
    assert(unhex(hex_of(b)) =~= b);
}

/// Lower-case hex digit of a nibble.
fn hex_digit(n: u8) -> (r: u8)
    requires
        n < 16,
    ensures
        r == hex_digit_of(n),
{
    if n < 10 {
        48 + n
    } else {
        87 + n
    }
}

/// Numeric value of an ASCII hex digit, `None` for any other byte.
fn hex_value(d: u8) -> (r: Option<u8>)
    ensures
        r is Some <==> is_hex_digit(d),
        r is Some ==> r->Some_0 == hex_value_of(d) && r->Some_0 < 16,
{
    if 48 <= d && d <= 57 {
        Some(d - 48)
    } else if 97 <= d && d <= 102 {
        Some(d - 87)
    } else if 65 <= d && d <= 70 {
        Some(d - 55)
    } else {
        None
    }
}

/// Spells a byte string in lower-case hex, two digits per byte.
pub fn hex_encode(b: &Vec<u8>) -> (r: Vec<u8>)
    ensures
        r@ == hex_of(b@),
{
    let mut r: Vec<u8> = Vec::new();
    let mut i: usize = 0;
    while i < b.len()
        invariant
            i <= b@.len(),
            r@.len() == 2 * i,
            forall|j: int| 0 <= j < r@.len() ==> r@[j] == hex_of(b@)[j],
        decreases b@.len() - i,
    {
        let byte = b[i];
        r.push(hex_digit(byte / 16));
        r.push(hex_digit(byte % 16));
        proof {
            assert((2 * i as int) % 2 == 0 && (2 * i as int) / 2 == i as int && (2 * i as int + 1)
                % 2 == 1 && (2 * i as int + 1) / 2 == i as int) by (nonlinear_arith);
        }
        i += 1;
    }
    proof {
        assert(r@ =~= hex_of(b@));
    }
    r
}

/// Reads a string of hex digits back into bytes; `None` exactly when the
/// string has odd length or holds a byte that is no hex digit.
pub fn hex_decode(s: &Vec<u8>) -> (r: Option<Vec<u8>>)
    ensures
        r is Some <==> (s@.len() % 2 == 0 && is_hex_seq(s@)),
        r is Some ==> r->Some_0@ == unhex(s@),
{
    if s.len() % 2 != 0 {
        return None;
    }
    let mut out: Vec<u8> = Vec::new();
    let mut i: usize = 0;
    while i < s.len()
        invariant
            s@.len() % 2 == 0,
            i % 2 == 0,
            i <= s@.len(),
            out@.len() == i / 2,
            forall|j: int| 0 <= j < i ==> is_hex_digit(#[trigger] s@[j]),
            forall|j: int| 0 <= j < out@.len() ==> out@[j] == unhex(s@)[j],
        decreases s@.len() - i,
    {
        let hi = match hex_value(s[i]) {
            Some(v) => v,
            None => {
                return None;
            },
        };
        let lo = match hex_value(s[i + 1]) {
            Some(v) => v,
            None => {
                return None;
            },
        };
        out.push(16 * hi + lo);
        proof {
            let k = i as int / 2;
            assert(2 * k == i as int && 2 * k + 1 == i as int + 1);
            assert(unhex(s@)[k] == (16 * hex_value_of(s@[2 * k]) + hex_value_of(s@[2 * k + 1])) as u8);
        }
        i += 2;
    }
    proof {
        assert(out@ =~= unhex(s@));
    }
    Some(out)
}

/// Text spelling of a byte-string argument: `0x`, then lower-case hex.
pub open spec fn text_of_bytes(b: Seq<u8>) -> Seq<u8> {
    seq![48u8, 120u8] + hex_of(b)
}

/// Spells a byte-string argument for the text boundary.
pub fn text_encode_bytes(b: &Vec<u8>) -> (r: Vec<u8>)
    ensures
        r@ == text_of_bytes(b@),
{
    let mut r: Vec<u8> = Vec::new();
    r.push(48);
    r.push(120);
    let mut digits = hex_encode(b);
    r.append(&mut digits);
    proof {
        assert(r@ =~= text_of_bytes(b@));
    }
    r
}

/// Reads a text argument back: the bytes it spells, or `None` unless it is
/// `0x` followed by an even number of hex digits.
pub open spec fn text_bytes_decoded(s: Seq<u8>) -> Option<Seq<u8>> {
    if s.len() >= 2 && s[0] == 48 && s[1] == 120 && (s.len() - 2) % 2 == 0 && is_hex_seq(s.skip(2)) {
        Some(unhex(s.skip(2)))
    } else {
        None
    }
}

/// The text spelling loses nothing: reading it back yields the bytes.
pub proof fn lemma_text_bytes_round_trip(b: Seq<u8>)
    ensures
        text_bytes_decoded(text_of_bytes(b)) == Some(b),
{
    lemma_hex_round_trip(b);
    assert(text_of_bytes(b).skip(2) =~= hex_of(b));
}

/// ULEB128 spelling of a length: seven value bits per byte, low bits
/// first, the high bit marking continuation.
pub open spec fn uleb128(n: nat) -> Seq<u8>
    decreases n,
{
    if n < 128 {
        seq![n as u8]
    } else {
        seq![(n % 128 + 128) as u8] + uleb128(n / 128)
    }
}

/// Spells a length in ULEB128.
pub fn uleb128_encode(n: usize) -> (r: Vec<u8>)
    ensures
        r@ == uleb128(n as nat),
{
    let mut r: Vec<u8> = Vec::new();
    let mut cur: usize = n;
    while cur >= 128
        invariant
            uleb128(n as nat) == r@ + uleb128(cur as nat),
        decreases cur,
    {
        let b: u8 = (cur % 128 + 128) as u8;
        proof {
            assert(uleb128(cur as nat) == seq![b] + uleb128((cur / 128) as nat));
            assert((r@ + seq![b]) + uleb128((cur / 128) as nat) =~= r@ + (seq![b] + uleb128(
                (cur / 128) as nat,
            )));
        }
        r.push(b);
        cur = cur / 128;
    }
    proof {
        assert(uleb128(cur as nat) == seq![cur as u8]);
        assert(r@ + seq![cur as u8] =~= r@.push(cur as u8));
    }
    r.push(cur as u8);
    r
}

/// Reads one ULEB128 length off the front of a byte string: the value and
/// what follows, or `None` when the string ends inside the length.
pub open spec fn uleb128_decoded(s: Seq<u8>) -> Option<(nat, Seq<u8>)>
    decreases s.len(),
{
    if s.len() == 0 {
        None
    } else if s[0] < 128 {
        Some(((s[0] as nat), s.drop_first()))
    } else {
        match uleb128_decoded(s.drop_first()) {
            Some(p) => Some((((s[0] - 128) as nat + 128 * p.0), p.1)),
            None => None,
        }
    }
}

/// The ULEB128 spelling loses nothing, whatever follows it.
pub proof fn lemma_uleb128_round_trip(n: nat, tail: Seq<u8>)
    ensures
        uleb128_decoded(uleb128(n) + tail) == Some((n, tail)),
    decreases n,
{
    let s = uleb128(n) + tail;
    if n < 128 {
        assert(s[0] == n as u8);
        assert(s.drop_first() =~= tail);
    } else {
        lemma_uleb128_round_trip(n / 128, tail);
        assert(s[0] == (n % 128 + 128) as u8);
        assert(s.drop_first() =~= uleb128(n / 128) + tail);
        assert(n % 128 + 128 * (n / 128) == n) by (nonlinear_arith);
    }
}

/// Canonical binary spelling of a byte-string argument: ULEB128 length,
/// then the raw bytes.
pub open spec fn binary_of_bytes(b: Seq<u8>) -> Seq<u8> {
    uleb128(b.len()) + b
}

/// Spells a byte-string argument for the binary boundary.
pub fn binary_encode_bytes(b: &Vec<u8>) -> (r: Vec<u8>)
    ensures
        r@ == binary_of_bytes(b@),
{
    let mut r = uleb128_encode(b.len());
    r.extend_from_slice(b.as_slice());
    proof {
        assert(r@ =~= binary_of_bytes(b@));
    }
    r
}

/// Reads a length-prefixed byte string off the front: the bytes and what
/// follows, or `None` when the string is too short.
pub open spec fn binary_bytes_decoded(s: Seq<u8>) -> Option<(Seq<u8>, Seq<u8>)> {
    match uleb128_decoded(s) {
        Some(p) => if p.1.len() >= p.0 {
            Some((p.1.take(p.0 as int), p.1.skip(p.0 as int)))
        } else {
            None
        },
        None => None,
    }
}

/// The binary spelling of a byte string loses nothing, whatever follows.
pub proof fn lemma_binary_bytes_round_trip(b: Seq<u8>, tail: Seq<u8>)
    ensures
        binary_bytes_decoded(binary_of_bytes(b) + tail) == Some((b, tail)),
{
    lemma_uleb128_round_trip(b.len(), b + tail);
    assert(binary_of_bytes(b) + tail =~= uleb128(b.len()) + (b + tail));
    assert((b + tail).take(b.len() as int) =~= b);
    assert((b + tail).skip(b.len() as int) =~= tail);
}

/// The blobs of the module-list argument, each length-prefixed, in order.
pub open spec fn binary_of_byte_lists_body(ms: Seq<Seq<u8>>) -> Seq<u8>
    decreases ms.len(),
{
    if ms.len() == 0 {
        Seq::empty()
    } else {
        binary_of_bytes(ms[0]) + binary_of_byte_lists_body(ms.drop_first())
    }
}

/// Canonical binary spelling of the module-list argument: ULEB128 count,
/// then each blob length-prefixed.
pub open spec fn binary_of_byte_lists(ms: Seq<Seq<u8>>) -> Seq<u8> {
    uleb128(ms.len()) + binary_of_byte_lists_body(ms)
}

/// Appending one blob appends exactly its binary spelling.
pub proof fn lemma_byte_lists_body_snoc(s: Seq<Seq<u8>>, x: Seq<u8>)
    ensures
        binary_of_byte_lists_body(s.push(x)) == binary_of_byte_lists_body(s) + binary_of_bytes(x),
    decreases s.len(),
{
    let t = s.push(x);
    assert(t.len() == s.len() + 1);
    if s.len() == 0 {
        assert(t.drop_first() =~= Seq::<Seq<u8>>::empty());
        assert(t[0] == x);
        assert(binary_of_byte_lists_body(t) == binary_of_bytes(x) + binary_of_byte_lists_body(
            Seq::<Seq<u8>>::empty(),
        ));
        assert(binary_of_bytes(x) + Seq::<u8>::empty() =~= binary_of_bytes(x));
        assert(binary_of_byte_lists_body(s) + binary_of_bytes(x) =~= binary_of_bytes(x));
    } else {
        assert(t.drop_first() =~= s.drop_first().push(x));
        assert(t[0] == s[0]);
        assert(binary_of_byte_lists_body(t) == binary_of_bytes(s[0]) + binary_of_byte_lists_body(
            s.drop_first().push(x),
        ));
        lemma_byte_lists_body_snoc(s.drop_first(), x);
        assert(binary_of_bytes(s[0]) + (binary_of_byte_lists_body(s.drop_first())
            + binary_of_bytes(x)) =~= (binary_of_bytes(s[0]) + binary_of_byte_lists_body(
            s.drop_first(),
        )) + binary_of_bytes(x));
        assert(binary_of_byte_lists_body(s) == binary_of_bytes(s[0]) + binary_of_byte_lists_body(
            s.drop_first(),
        ));
    }
}

/// Spells the module-list argument for the binary boundary.
pub fn binary_encode_byte_lists(ms: &Vec<Vec<u8>>) -> (r: Vec<u8>)
    ensures
        r@ == binary_of_byte_lists(ms.deep_view()),
{
    let ghost m = ms.deep_view();
    proof {
        assert(m.len() == ms@.len());
    }
    let mut r = uleb128_encode(ms.len());
    let mut i: usize = 0;
    proof {
        assert(m.take(0) =~= Seq::<Seq<u8>>::empty());
        assert(r@ + Seq::<u8>::empty() =~= r@);
    }
    while i < ms.len()
        invariant
            m == ms.deep_view(),
            m.len() == ms@.len(),
            i <= ms@.len(),
            r@ == uleb128(m.len()) + binary_of_byte_lists_body(m.take(i as int)),
        decreases ms@.len() - i,
    {
        let mut enc = binary_encode_bytes(&ms[i]);
        proof {
            assert(ms@[i as int].deep_view() =~= ms@[i as int]@);
            assert(m[i as int] == ms@[i as int]@);
            lemma_byte_lists_body_snoc(m.take(i as int), m[i as int]);
            assert(m.take(i as int).push(m[i as int]) =~= m.take(i as int + 1));
            assert((uleb128(m.len()) + binary_of_byte_lists_body(m.take(i as int)))
                + binary_of_bytes(m[i as int]) =~= uleb128(m.len()) + (binary_of_byte_lists_body(
                m.take(i as int),
            ) + binary_of_bytes(m[i as int])));
        }
        r.append(&mut enc);
        i += 1;
    }
    proof {
        assert(m.take(i as int) =~= m);
    }
    r
}

/// Reads `k` length-prefixed byte strings off the front.
pub open spec fn binary_items_decoded(s: Seq<u8>, k: nat) -> Option<(Seq<Seq<u8>>, Seq<u8>)>
    decreases k,
{
    if k == 0 {
        Some((Seq::empty(), s))
    } else {
        match binary_bytes_decoded(s) {
            Some(p) => match binary_items_decoded(p.1, (k - 1) as nat) {
                Some(q) => Some((seq![p.0] + q.0, q.1)),
                None => None,
            },
            None => None,
        }
    }
}

/// Reads the module-list argument back: the blobs and what follows.
pub open spec fn binary_byte_lists_decoded(s: Seq<u8>) -> Option<(Seq<Seq<u8>>, Seq<u8>)> {
    match uleb128_decoded(s) {
        Some(p) => binary_items_decoded(p.1, p.0),
        None => None,
    }
}

proof fn lemma_binary_items_round_trip(ms: Seq<Seq<u8>>, tail: Seq<u8>)
    ensures
        binary_items_decoded(binary_of_byte_lists_body(ms) + tail, ms.len()) == Some((ms, tail)),
    decreases ms.len(),
{
    if ms.len() == 0 {
        assert(binary_of_byte_lists_body(ms) + tail =~= tail);
        assert(Seq::<Seq<u8>>::empty() =~= ms);
    } else {
        let rest = ms.drop_first();
        assert(binary_of_byte_lists_body(ms) + tail =~= binary_of_bytes(ms[0])
            + (binary_of_byte_lists_body(rest) + tail));
        lemma_binary_bytes_round_trip(ms[0], binary_of_byte_lists_body(rest) + tail);
        lemma_binary_items_round_trip(rest, tail);
        assert(seq![ms[0]] + rest =~= ms);
    }
}

/// The binary spelling of the module list loses nothing, whatever follows.
pub proof fn lemma_binary_byte_lists_round_trip(ms: Seq<Seq<u8>>, tail: Seq<u8>)
    ensures
        binary_byte_lists_decoded(binary_of_byte_lists(ms) + tail) == Some((ms, tail)),
{
    lemma_uleb128_round_trip(ms.len(), binary_of_byte_lists_body(ms) + tail);
    assert(binary_of_byte_lists(ms) + tail =~= uleb128(ms.len()) + (binary_of_byte_lists_body(ms)
        + tail));
    lemma_binary_items_round_trip(ms, tail);
}

} // verus!
