//! The wire codec for the two address variants that cross the caller's
//! signaling channel.
//!
//! A `SessionDescription` or `Candidate` is carried as a field-tagged
//! textual encoding: a one-character variant tag (`S` or `C`), for a
//! description a one-character kind (`o` for offer, `a` for answer), then
//! the body as a length-prefixed field — the body's character count in
//! canonical decimal, a `:`, and the body itself.  `Bootstrap` and `Label`
//! are local-only configuration and are excluded from the encoding by
//! design.

use vstd::prelude::*;

use crate::addr::AddrModel;
use crate::addr::CandidateModel;
use crate::addr::Candidate;
use crate::addr::SdpKind;
use crate::addr::SessionDescription;
use crate::addr::SessionDescriptionModel;
use crate::addr::WebrtcAddr;
use crate::addr::is_wire_addr;

verus! {

/// Whether `c` is a decimal digit.
pub open spec fn is_digit(c: char) -> bool {
    48 <= c as u32 <= 57
}

/// The numeric value of a digit (and 0 for any other character, so that
/// parsing is total).
pub open spec fn digit_val(c: char) -> nat {
    if is_digit(c) {
        (c as u32 - 48) as nat
    } else {
        0
    }
}

/// The digit character for a value below ten.
pub open spec fn digit_char(d: nat) -> char {
    if d == 0 {
        '0'
    } else if d == 1 {
        '1'
    } else if d == 2 {
        '2'
    } else if d == 3 {
        '3'
    } else if d == 4 {
        '4'
    } else if d == 5 {
        '5'
    } else if d == 6 {
        '6'
    } else if d == 7 {
        '7'
    } else if d == 8 {
        '8'
    } else {
        '9'
    }
}

/// The canonical decimal digits of `n`, most significant first.
pub open spec fn spec_digits(n: nat) -> Seq<char>
    decreases n,
{
    if n < 10 {
        seq![digit_char(n)]
    } else {
        spec_digits(n / 10).push(digit_char(n % 10))
    }
}

/// The value of a digit sequence, most significant first.
pub open spec fn spec_parse_nat(s: Seq<char>) -> nat
    decreases s.len(),
{
    if s.len() == 0 {
        0
    } else {
        spec_parse_nat(s.drop_last()) * 10 + digit_val(s.last())
    }
}

/// A length prefix the decoder accepts: at least one digit, and no leading
/// zero except for `0` itself.
pub open spec fn is_canonical_digits(s: Seq<char>) -> bool {
    &&& s.len() > 0
    &&& forall|i: int| 0 <= i < s.len() ==> is_digit(s[i])
    &&& (s.len() > 1 ==> s[0] != '0')
}

/// A length-prefixed field: the body's character count in canonical
/// decimal, a colon, and the body.
pub open spec fn spec_encode_field(body: Seq<char>) -> Seq<char> {
    spec_digits(body.len()) + seq![':'] + body
}

/// The wire encoding of a (wire-variant) address model.
pub open spec fn spec_encode(a: AddrModel) -> Seq<char>
    recommends
        a is SDP || a is ICE,
{
    match a {
        AddrModel::SDP(desc) => seq![
            'S',
            if desc.kind is Offer {
                'o'
            } else {
                'a'
            },
        ] + spec_encode_field(desc.sdp),
        AddrModel::ICE(candidate) => seq!['C'] + spec_encode_field(candidate.candidate),
        _ => Seq::empty(),
    }
}

/// The single-character string for a digit value.
fn digit_str(d: u8) -> (s: &'static str)
    requires
        d < 10,
    ensures
        s@ == seq![digit_char(d as nat)],
{
    proof {
        reveal_strlit("0");
        reveal_strlit("1");
        reveal_strlit("2");
        reveal_strlit("3");
        reveal_strlit("4");
        reveal_strlit("5");
        reveal_strlit("6");
        reveal_strlit("7");
        reveal_strlit("8");
        reveal_strlit("9");
        assert("0"@ =~= seq![digit_char(0)]);
        assert("1"@ =~= seq![digit_char(1)]);
        assert("2"@ =~= seq![digit_char(2)]);
        assert("3"@ =~= seq![digit_char(3)]);
        assert("4"@ =~= seq![digit_char(4)]);
        assert("5"@ =~= seq![digit_char(5)]);
        assert("6"@ =~= seq![digit_char(6)]);
        assert("7"@ =~= seq![digit_char(7)]);
        assert("8"@ =~= seq![digit_char(8)]);
        assert("9"@ =~= seq![digit_char(9)]);
    }
    match d {
        0 => "0",
        1 => "1",
        2 => "2",
        3 => "3",
        4 => "4",
        5 => "5",
        6 => "6",
        7 => "7",
        8 => "8",
        _ => "9",
    }
}

/// The canonical decimal rendering of `n`.
fn encode_usize(n: usize) -> (s: String)
    ensures
        s@ == spec_digits(n as nat),
    decreases n,
{
    if n < 10 {
        String::from_str(digit_str(n as u8))
    } else {
        let s = encode_usize(n / 10);
        let s = s.concat(digit_str((n % 10) as u8));
        s
    }
}

/// Renders `body` as a length-prefixed field.
fn encode_field(body: &str) -> (r: String)
    ensures
        r@ == spec_encode_field(body@),
{
    let n = body.unicode_len();
    let mut out = encode_usize(n);
    proof {
        reveal_strlit(":");
        assert(":"@ =~= seq![':']);
    }
    out.append(":");
    out.append(body);
    proof {
        assert(out@ =~= spec_encode_field(body@));
    }
    out
}

/// Encodes an address for transport over the caller's signaling channel.
/// Exactly the two wire variants encode; `Bootstrap` and `Label` yield
/// nothing.
pub fn encode_addr(addr: &WebrtcAddr) -> (r: Option<String>)
    ensures
        is_wire_addr(*addr) ==> (r matches Some(s) && s@ == spec_encode(addr@)),
        !is_wire_addr(*addr) ==> r is None,
{
    match addr {
        WebrtcAddr::SDP(desc) => {
            let mut out = match desc.kind {
                SdpKind::Offer => String::from_str("So"),
                SdpKind::Answer => String::from_str("Sa"),
            };
            proof {
                reveal_strlit("So");
                reveal_strlit("Sa");
                assert("So"@ =~= seq!['S', 'o']);
                assert("Sa"@ =~= seq!['S', 'a']);
            }
            let field = encode_field(desc.sdp.as_str());
            out.append(field.as_str());
            proof {
                assert(out@ =~= spec_encode(addr@));
            }
            Some(out)
        },
        WebrtcAddr::ICE(candidate) => {
            let mut out = String::from_str("C");
            proof {
                reveal_strlit("C");
                assert("C"@ =~= seq!['C']);
            }
            let field = encode_field(candidate.candidate.as_str());
            out.append(field.as_str());
            proof {
                assert(out@ =~= spec_encode(addr@));
            }
            Some(out)
        },
        _ => None,
    }
}

/// The number of consecutive digits at position `i` of `s`.
pub open spec fn digit_run(s: Seq<char>, i: int) -> int
    decreases s.len() - i,
{
    if i < 0 || i >= s.len() {
        0
    } else if is_digit(s[i]) {
        1 + digit_run(s, i + 1)
    } else {
        0
    }
}

/// Decodes the length-prefixed field at position `i` of `s`: the field's
/// characters and the position just past them, or nothing if `s` does not
/// carry a canonical length, a colon, and a body of that length there.
pub open spec fn spec_decode_field(s: Seq<char>, i: int) -> Option<(Seq<char>, int)> {
    let d = digit_run(s, i);
    if d == 0 {
        None
    } else {
        let digits = s.subrange(i, i + d);
        if !is_canonical_digits(digits) {
            None
        } else {
            let len = spec_parse_nat(digits) as int;
            if i + d < s.len() && s[i + d] == ':' && i + d + 1 + len <= s.len() {
                Some((s.subrange(i + d + 1, i + d + 1 + len), i + d + 1 + len))
            } else {
                None
            }
        }
    }
}

/// The address model a wire string carries, if it is a well-formed encoding
/// that spans the whole string.
pub open spec fn spec_decode(s: Seq<char>) -> Option<AddrModel> {
    if s.len() >= 2 && s[0] == 'S' && (s[1] == 'o' || s[1] == 'a') {
        match spec_decode_field(s, 2) {
            Some(fj) => if fj.1 == s.len() {
                Some(
                    AddrModel::SDP(
                        SessionDescriptionModel {
                            kind: if s[1] == 'o' {
                                SdpKind::Offer
                            } else {
                                SdpKind::Answer
                            },
                            sdp: fj.0,
                        },
                    ),
                )
            } else {
                None
            },
            None => None,
        }
    } else if s.len() >= 1 && s[0] == 'C' {
        match spec_decode_field(s, 1) {
            Some(fj) => if fj.1 == s.len() {
                Some(AddrModel::ICE(CandidateModel { candidate: fj.0 }))
            } else {
                None
            },
            None => None,
        }
    } else {
        None
    }
}

/// Appending one character multiplies the parsed value by ten and adds the
/// character's digit value.
proof fn lemma_parse_nat_push(s: Seq<char>, c: char)
    ensures
        spec_parse_nat(s.push(c)) == spec_parse_nat(s) * 10 + digit_val(c),
{
    assert(s.push(c).drop_last() =~= s);
}

/// The canonical digits of `n` are canonical: non-empty, all digits, and
/// without a leading zero unless `n` is zero itself.
proof fn lemma_digits_canonical(n: nat)
    ensures
        is_canonical_digits(spec_digits(n)),
        n >= 1 ==> spec_digits(n)[0] != '0',
    decreases n,
{
    if n < 10 {
        assert(spec_digits(n) =~= seq![digit_char(n)]);
    } else {
        lemma_digits_canonical(n / 10);
        let rest = spec_digits(n / 10);
        assert(spec_digits(n) =~= rest.push(digit_char(n % 10)));
        assert(spec_digits(n)[0] == rest[0]);
        assert(forall|i: int|
            0 <= i < spec_digits(n).len() ==> is_digit(
                #[trigger] spec_digits(n)[i],
            )) by {
            assert(forall|i: int|
                0 <= i < rest.len() ==> is_digit(#[trigger] spec_digits(n)[i]));
            assert(is_digit(spec_digits(n)[rest.len() as int]));
        }
    }
}

/// Parsing inverts rendering: the canonical digits of `n` parse back to `n`.
proof fn lemma_parse_digits(n: nat)
    ensures
        spec_parse_nat(spec_digits(n)) == n,
    decreases n,
{
    if n < 10 {
        let s = seq![digit_char(n)];
        assert(s.drop_last() =~= Seq::<char>::empty());
        assert(spec_parse_nat(Seq::<char>::empty()) == 0);
        assert(spec_parse_nat(s) == digit_val(digit_char(n)));
        assert(digit_val(digit_char(n)) == n);
    } else {
        lemma_parse_digits(n / 10);
        lemma_parse_nat_push(spec_digits(n / 10), digit_char(n % 10));
        assert(digit_val(digit_char(n % 10)) == n % 10);
        assert((n / 10) * 10 + n % 10 == n);
    }
}

/// A digit run ends exactly where the digits end: if every character of
/// `s[i..k]` is a digit and `k` is the string's end or a non-digit, the run
/// at `i` has length `k - i`.
proof fn lemma_digit_run_exact(s: Seq<char>, i: int, k: int)
    requires
        0 <= i <= k <= s.len(),
        forall|j: int| i <= j < k ==> is_digit(s[j]),
        k == s.len() || !is_digit(s[k]),
    ensures
        digit_run(s, i) == k - i,
    decreases k - i,
{
    if i < k {
        lemma_digit_run_exact(s, i + 1, k);
    }
}

/// A longer digit prefix never parses to a smaller value.
proof fn lemma_parse_prefix_le(s: Seq<char>, i: int, k: int, j: int)
    requires
        0 <= i <= k <= j <= s.len(),
    ensures
        spec_parse_nat(s.subrange(i, j)) >= spec_parse_nat(s.subrange(i, k)),
    decreases j - k,
{
    if k < j {
        lemma_parse_prefix_le(s, i, k, j - 1);
        assert(s.subrange(i, j).drop_last() =~= s.subrange(i, j - 1));
        lemma_parse_nat_push(s.subrange(i, j - 1), s[j - 1]);
        assert(s.subrange(i, j) =~= s.subrange(i, j - 1).push(s[j - 1]));
    }
}

/// Decoding finds a field exactly where encoding placed it: at position
/// `prefix.len()` of `prefix + spec_encode_field(body)`, the decoded field
/// is `body` and it extends to the end.
proof fn lemma_decode_field_encode(prefix: Seq<char>, body: Seq<char>)
    ensures
        ({
            let s = prefix + spec_encode_field(body);
            spec_decode_field(s, prefix.len() as int) == Some(
                (body, s.len() as int),
            )
        }),
{
    let s = prefix + spec_encode_field(body);
    let i = prefix.len() as int;
    let digits = spec_digits(body.len());
    let d = digits.len() as int;
    lemma_digits_canonical(body.len());
    lemma_parse_digits(body.len());
    assert(s.len() == i + d + 1 + body.len());
    assert(forall|t: int| 0 <= t < d ==> s[i + t] == digits[t]);
    assert(s[i + d] == ':');
    assert(!is_digit(':'));
    assert(forall|j: int| i <= j < i + d ==> is_digit(s[j]));
    lemma_digit_run_exact(s, i, i + d);
    assert(s.subrange(i, i + d) =~= digits);
    assert(s.subrange(i + d + 1, i + d + 1 + body.len() as int) =~= body);
}

/// A digit character is the rendering of its own value.
proof fn lemma_digit_char_of_val(c: char)
    requires
        is_digit(c),
    ensures
        digit_char(digit_val(c)) == c,
{
    let rendered = digit_char(digit_val(c));
    assert(rendered as u32 == c as u32);
    vstd::utf8::char_u32_cast(c, c as u32);
    vstd::utf8::char_u32_cast(rendered, rendered as u32);
}

/// A canonical digit string of more than one digit parses to at least ten.
proof fn lemma_canonical_parse_ge_ten(s: Seq<char>)
    requires
        is_canonical_digits(s),
        s.len() > 1,
    ensures
        spec_parse_nat(s) >= 10,
    decreases s.len(),
{
    let front = s.drop_last();
    assert(is_canonical_digits(front));
    if front.len() == 1 {
        assert(front[0] == s[0]);
        lemma_digit_char_of_val(front[0]);
        assert(digit_val(front[0]) >= 1);
        assert(spec_parse_nat(front) == spec_parse_nat(front.drop_last()) * 10 + digit_val(
            front.last(),
        ));
        assert(front.drop_last() =~= Seq::<char>::empty());
        assert(spec_parse_nat(Seq::<char>::empty()) == 0);
    } else {
        lemma_canonical_parse_ge_ten(front);
    }
}

/// Rendering inverts parsing: a canonical digit string is the canonical
/// rendering of its own value.
proof fn lemma_digits_of_parse(s: Seq<char>)
    requires
        is_canonical_digits(s),
    ensures
        spec_digits(spec_parse_nat(s)) == s,
    decreases s.len(),
{
    let n = spec_parse_nat(s);
    if s.len() == 1 {
        assert(s.drop_last() =~= Seq::<char>::empty());
        assert(spec_parse_nat(Seq::<char>::empty()) == 0);
        assert(n == digit_val(s[0]));
        lemma_digit_char_of_val(s[0]);
        assert(spec_digits(n) =~= s);
    } else {
        let front = s.drop_last();
        assert(is_canonical_digits(front));
        lemma_digits_of_parse(front);
        lemma_canonical_parse_ge_ten(s);
        assert(n == spec_parse_nat(front) * 10 + digit_val(s.last()));
        assert(digit_val(s.last()) < 10);
        assert(n / 10 == spec_parse_nat(front) && n % 10 == digit_val(s.last()));
        lemma_digit_char_of_val(s.last());
        assert(spec_digits(n) == spec_digits(n / 10).push(digit_char(n % 10)));
        assert(spec_digits(n) =~= s);
    }
}

/// A digit run neither undershoots nor overruns: it is non-negative and
/// stays within the string.
proof fn lemma_digit_run_bounds(s: Seq<char>, i: int)
    requires
        0 <= i <= s.len(),
    ensures
        0 <= digit_run(s, i) <= s.len() - i,
    decreases s.len() - i,
{
    if i < s.len() && is_digit(s[i]) {
        lemma_digit_run_bounds(s, i + 1);
    }
}

/// A decoded field occupies exactly one encoded field's worth of the
/// string: the characters from its start to its end position are the
/// canonical encoding of the field.
proof fn lemma_field_canonical(s: Seq<char>, i: int)
    requires
        0 <= i <= s.len(),
        spec_decode_field(s, i) is Some,
    ensures
        ({
            let fj = spec_decode_field(s, i).unwrap();
            &&& i < fj.1 <= s.len()
            &&& s.subrange(i, fj.1) == spec_encode_field(fj.0)
        }),
{
    let d = digit_run(s, i);
    lemma_digit_run_bounds(s, i);
    let digits = s.subrange(i, i + d);
    assert(d > 0) by {
        if d == 0 {
            assert(spec_decode_field(s, i) is None);
        }
    }
    assert(is_canonical_digits(digits)) by {
        if !is_canonical_digits(digits) {
            assert(spec_decode_field(s, i) is None);
        }
    }
    lemma_digits_of_parse(digits);
    let len = spec_parse_nat(digits) as int;
    let fj = spec_decode_field(s, i).unwrap();
    assert(fj.0 == s.subrange(i + d + 1, i + d + 1 + len));
    assert(fj.1 == i + d + 1 + len);
    assert(fj.0.len() == len);
    assert(spec_digits(fj.0.len() as nat) == digits);
    assert(s.subrange(i, fj.1) =~= digits + seq![':'] + fj.0);
}

/// Encodings are canonical: any string the decoder accepts is exactly the
/// encoding of the address it decodes to, so each wire address has one wire
/// form and distinct addresses have distinct forms.
pub proof fn lemma_codec_canonical(s: Seq<char>)
    requires
        spec_decode(s) is Some,
    ensures
        spec_encode(spec_decode(s).unwrap()) == s,
        spec_decode(s).unwrap() is SDP || spec_decode(s).unwrap() is ICE,
{
    let m = spec_decode(s).unwrap();
    if s.len() >= 2 && s[0] == 'S' && (s[1] == 'o' || s[1] == 'a') {
        lemma_field_canonical(s, 2);
        let fj = spec_decode_field(s, 2).unwrap();
        assert(fj.1 == s.len());
        let kind_char: char = if s[1] == 'o' {
            'o'
        } else {
            'a'
        };
        assert(spec_encode(m) == seq!['S', kind_char] + spec_encode_field(fj.0));
        assert(s =~= seq!['S', kind_char] + s.subrange(2, s.len() as int));
        assert(spec_encode(m) == s);
    } else {
        lemma_field_canonical(s, 1);
        let fj = spec_decode_field(s, 1).unwrap();
        assert(fj.1 == s.len());
        assert(spec_encode(m) == seq!['C'] + spec_encode_field(fj.0));
        assert(s =~= seq!['C'] + s.subrange(1, s.len() as int));
        assert(spec_encode(m) == s);
    }
}

/// Round-trip law: decoding the encoding of a wire address yields exactly
/// that address.
pub proof fn lemma_codec_round_trip(a: AddrModel)
    requires
        a is SDP || a is ICE,
    ensures
        spec_decode(spec_encode(a)) == Some(a),
{
    match a {
        AddrModel::SDP(desc) => {
            let tag = seq![
                'S',
                if desc.kind is Offer {
                    'o'
                } else {
                    'a'
                },
            ];
            let s = spec_encode(a);
            assert(s == tag + spec_encode_field(desc.sdp));
            lemma_decode_field_encode(tag, desc.sdp);
            assert(s[0] == 'S');
            assert(s.len() >= 2);
            if desc.kind is Offer {
                assert(s[1] == 'o');
            } else {
                assert(s[1] == 'a');
            }
            assert(spec_decode(s) matches Some(m) && m == a) by {
                let fj = spec_decode_field(s, 2).unwrap();
                assert(fj.0 == desc.sdp);
                assert(fj.1 == s.len());
                assert(spec_decode(s).unwrap() =~= a);
            }
        },
        AddrModel::ICE(candidate) => {
            let tag = seq!['C'];
            let s = spec_encode(a);
            assert(s == tag + spec_encode_field(candidate.candidate));
            lemma_decode_field_encode(tag, candidate.candidate);
            assert(s[0] == 'C');
            assert(s.len() >= 1);
            assert(s[0] != 'S');
            assert(spec_decode(s) matches Some(m) && m == a) by {
                let fj = spec_decode_field(s, 1).unwrap();
                assert(fj.0 == candidate.candidate);
                assert(fj.1 == s.len());
                assert(spec_decode(s).unwrap() =~= a);
            }
        },
        _ => {},
    }
}

/// Whether the character at position `j` is a decimal digit.
fn is_digit_at(s: &str, j: usize) -> (b: bool)
    requires
        j < s@.len(),
    ensures
        b == is_digit(s@[j as int]),
{
    let u = s.get_char(j) as u32;
    48 <= u && u <= 57
}

/// Decodes the length-prefixed field at position `i`, if `s` carries one
/// there: the field and the position just past it.
fn decode_field<'a>(s: &'a str, n: usize, i: usize) -> (r: Option<(&'a str, usize)>)
    requires
        n == s@.len(),
        i <= n,
    ensures
        match spec_decode_field(s@, i as int) {
            Some(fj) => r matches Some(p) && p.0@ == fj.0 && p.1 == fj.1,
            None => r is None,
        },
{
    let mut j: usize = i;
    while j < n && is_digit_at(s, j)
        invariant
            i <= j <= n,
            n == s@.len(),
            forall|t: int| i <= t < j ==> is_digit(s@[t]),
        decreases n - j,
    {
        j = j + 1;
    }
    proof {
        lemma_digit_run_exact(s@, i as int, j as int);
    }
    if j == i {
        return None;
    }
    let first = s.get_char(i);
    if first == '0' && j - i > 1 {
        proof {
            let digits = s@.subrange(i as int, j as int);
            assert(digits[0] == '0');
            assert(!is_canonical_digits(digits));
        }
        return None;
    }
    proof {
        let digits = s@.subrange(i as int, j as int);
        assert(forall|t: int| 0 <= t < digits.len() ==> is_digit(#[trigger] digits[t]));
        assert(is_canonical_digits(digits));
    }
    let mut acc: usize = 0;
    let mut k = i;
    proof {
        assert(s@.subrange(i as int, i as int) =~= Seq::<char>::empty());
    }
    while k < j
        invariant
            i <= k <= j <= n,
            n == s@.len(),
            forall|t: int| i <= t < j ==> is_digit(s@[t]),
            acc == spec_parse_nat(s@.subrange(i as int, k as int)),
            acc <= n,
            digit_run(s@, i as int) == j - i,
            is_canonical_digits(s@.subrange(i as int, j as int)),
        decreases j - k,
    {
        let c = s.get_char(k);
        let dv = (c as u32 - 48) as usize;
        proof {
            assert(is_digit(s@[k as int]));
            assert(dv == digit_val(s@[k as int]));
            assert(s@.subrange(i as int, k as int + 1) =~= s@.subrange(
                i as int,
                k as int,
            ).push(s@[k as int]));
            lemma_parse_nat_push(s@.subrange(i as int, k as int), s@[k as int]);
        }
        if acc > n / 10 || dv > n - acc * 10 {
            // the length prefix already exceeds the string's own length, so
            // no body of that length can follow
            proof {
                let full = s@.subrange(i as int, j as int);
                lemma_parse_prefix_le(s@, i as int, k as int + 1, j as int);
                assert(spec_parse_nat(full) > n);
            }
            return None;
        }
        acc = acc * 10 + dv;
        k = k + 1;
    }
    if j == n {
        return None;
    }
    let colon = s.get_char(j);
    if colon != ':' {
        return None;
    }
    if acc > n - (j + 1) {
        return None;
    }
    let end = j + 1 + acc;
    let field = s.substring_char(j + 1, end);
    proof {
        let fj = spec_decode_field(s@, i as int).unwrap();
        assert(fj.0 =~= field@);
    }
    Some((field, end))
}

/// Decodes a wire string back into an address.  Yields an address exactly
/// when the string is a well-formed encoding spanning its whole length;
/// the result is then a `SessionDescription` or `Candidate` whose fields
/// reproduce the encoded ones.
pub fn decode_addr(s: &str) -> (r: Option<WebrtcAddr>)
    ensures
        match spec_decode(s@) {
            Some(m) => r matches Some(a) && a@ == m,
            None => r is None,
        },
{
    let n = s.unicode_len();
    if n >= 2 && s.get_char(0) == 'S' {
        let kind_char = s.get_char(1);
        if kind_char == 'o' || kind_char == 'a' {
            match decode_field(s, n, 2) {
                Some(p) => {
                    if p.1 == n {
                        let kind = if kind_char == 'o' {
                            SdpKind::Offer
                        } else {
                            SdpKind::Answer
                        };
                        Some(
                            WebrtcAddr::SDP(
                                SessionDescription { kind, sdp: p.0.to_owned() },
                            ),
                        )
                    } else {
                        None
                    }
                },
                None => None,
            }
        } else {
            None
        }
    } else if n >= 1 && s.get_char(0) == 'C' {
        match decode_field(s, n, 1) {
            Some(p) => {
                if p.1 == n {
                    Some(WebrtcAddr::ICE(Candidate { candidate: p.0.to_owned() }))
                } else {
                    None
                }
            },
            None => None,
        }
    } else {
        None
    }
}

} // verus!
