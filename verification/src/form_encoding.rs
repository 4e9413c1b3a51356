//! Form encoding of a payload: percent-escape it, then write every escaped
//! space (`%20`) as `+`.

use curl::easy::Easy;
use vstd::prelude::*;
use vstd::slice::slice_subrange;

verus! {

/// The byte `+`.
pub const PLUS: u8 = 0x2b;

/// The three bytes `%20`.
pub open spec fn escaped_space() -> Seq<u8> {
    seq![0x25u8, 0x32u8, 0x30u8]
}

/// `needle` stands in `haystack` at index `i`.
pub open spec fn occurs_at(haystack: Seq<u8>, needle: Seq<u8>, i: int) -> bool {
    &&& 0 <= i
    &&& i + needle.len() <= haystack.len()
    &&& forall|k: int| 0 <= k < needle.len() ==> haystack[i + k] == #[trigger] needle[k]
}

/// `%20` stands in `s` at index `i`.
pub open spec fn space_at(s: Seq<u8>, i: int) -> bool {
    &&& 0 <= i
    &&& i + 3 <= s.len()
    &&& s[i] == 0x25
    &&& s[i + 1] == 0x32
    &&& s[i + 2] == 0x30
}

/// `s` with every `%20` replaced by `+`, reading from the left; the three
/// bytes of one `%20` are used up by its replacement.
pub open spec fn spaces_as_plus(s: Seq<u8>) -> Seq<u8>
    decreases s.len(),
{
    if s.len() == 0 {
        s
    } else if space_at(s, 0) {
        seq![PLUS] + spaces_as_plus(s.skip(3))
    } else {
        seq![s[0]] + spaces_as_plus(s.skip(1))
    }
}

/// The bytes that percent-escaping leaves as they are: the ASCII digits and
/// letters, and `-`, `.`, `_`, `~`.
pub open spec fn is_unreserved(b: u8) -> bool {
    ||| 0x30 <= b <= 0x39
    ||| 0x41 <= b <= 0x5a
    ||| 0x61 <= b <= 0x7a
    ||| b == 0x2d
    ||| b == 0x2e
    ||| b == 0x5f
    ||| b == 0x7e
}

/// The upper-case hexadecimal digit of a value below sixteen.
pub open spec fn hex_digit(n: u8) -> u8
    recommends
        n < 16,
{
    if n < 10 {
        (0x30 + n) as u8
    } else {
        (0x41 + (n - 10)) as u8
    }
}

/// One byte, percent-escaped: itself where it is unreserved, else `%` and
/// its two hexadecimal digits.
pub open spec fn escaped_byte(b: u8) -> Seq<u8> {
    if is_unreserved(b) {
        seq![b]
    } else {
        seq![0x25u8, hex_digit(b / 16), hex_digit(b % 16)]
    }
}

/// The bytes `s`, percent-escaped one by one.
pub open spec fn percent_escaped(s: Seq<u8>) -> Seq<u8>
    decreases s.len(),
{
    if s.len() == 0 {
        Seq::empty()
    } else {
        escaped_byte(s[0]) + percent_escaped(s.skip(1))
    }
}

/// One byte, form-encoded: a space is `+`, any other byte is percent-escaped.
pub open spec fn form_byte(b: u8) -> Seq<u8> {
    if b == 0x20 {
        seq![PLUS]
    } else {
        escaped_byte(b)
    }
}

/// The bytes `s`, form-encoded one by one.
pub open spec fn form_encoded(s: Seq<u8>) -> Seq<u8>
    decreases s.len(),
{
    if s.len() == 0 {
        Seq::empty()
    } else {
        form_byte(s[0]) + form_encoded(s.skip(1))
    }
}

/// `curl::easy::Easy`, a handle of libcurl. It is only handed on.
#[verifier::external_type_specification]
#[verifier::external_body]
pub struct ExEasy(Easy);

/// `memchr::memmem::find`: the index of the first place where `needle`
/// stands in `haystack`, or `None` where it stands nowhere.
#[verifier::external_body]
fn find_first(haystack: &[u8], needle: &[u8]) -> (found: Option<usize>)
    ensures
        match found {
            Some(i) => occurs_at(haystack@, needle@, i as int) && forall|j: int|
                0 <= j < i ==> !occurs_at(haystack@, needle@, j),
            None => forall|j: int| !occurs_at(haystack@, needle@, j),
        },
{
    memchr::memmem::find(haystack, needle)
}

/// `curl::easy::Easy::url_encode`, which is libcurl's `curl_easy_escape`:
/// every byte that is not unreserved becomes `%` and two upper-case
/// hexadecimal digits, the others stay. The result is handed on as bytes.
/// Two kinds of length are left out. The method casts the length to a C
/// `int`, so one above `i32::MAX` would reach libcurl truncated, and what
/// came back would not be the escaped form of `s`. And libcurl refuses a
/// length above a sixteenth of the address space, which the method answers
/// with a failed assertion.
#[verifier::external_body]
fn url_encode(easy: &mut Easy, s: &[u8]) -> (escaped: Vec<u8>)
    requires
        s@.len() <= i32::MAX,
        s@.len() <= usize::MAX / 16,
    ensures
        escaped@ == percent_escaped(s@),
{
    easy.url_encode(s).into_bytes()
}

/// An occurrence of `%20` as a needle is an occurrence in the pointwise sense.
pub proof fn lemma_space_occurrence(s: Seq<u8>, i: int)
    ensures
        occurs_at(s, escaped_space(), i) <==> space_at(s, i),
{
    let needle = escaped_space();
    assert(needle.len() == 3);
    assert(needle[0] == 0x25 && needle[1] == 0x32 && needle[2] == 0x30);
}

/// Where no `%20` starts before `pos`, the first `pos` bytes stay as they are.
pub proof fn lemma_plain_prefix(s: Seq<u8>, pos: int)
    requires
        0 <= pos <= s.len(),
        forall|j: int| 0 <= j < pos ==> !space_at(s, j),
    ensures
        spaces_as_plus(s) == s.take(pos) + spaces_as_plus(s.skip(pos)),
    decreases pos,
{
    if pos == 0 {
        assert(s.skip(0) =~= s);
        assert(s.take(0) + spaces_as_plus(s) =~= spaces_as_plus(s));
    } else {
        let tail = s.skip(1);
        assert(!space_at(s, 0));
        assert forall|j: int| 0 <= j < pos - 1 implies !space_at(tail, j) by {
            assert(!space_at(s, j + 1));
        }
        lemma_plain_prefix(tail, pos - 1);
        assert(tail.skip(pos - 1) =~= s.skip(pos));
        assert(seq![s[0]] + tail.take(pos - 1) =~= s.take(pos));
        assert(seq![s[0]] + (tail.take(pos - 1) + spaces_as_plus(s.skip(pos))) =~= s.take(pos)
            + spaces_as_plus(s.skip(pos)));
    }
}

/// The result starts with `+` where the input starts with `%20`, and with
/// the input's first byte otherwise; it is empty only for an empty input.
pub proof fn lemma_first_byte(s: Seq<u8>)
    requires
        s.len() > 0,
    ensures
        spaces_as_plus(s).len() > 0,
        spaces_as_plus(s)[0] == if space_at(s, 0) {
            PLUS
        } else {
            s[0]
        },
{
}

/// No `%20` is left in the result.
pub proof fn law_no_escaped_space_left(s: Seq<u8>, i: int)
    ensures
        !space_at(spaces_as_plus(s), i),
    decreases s.len(),
{
    if s.len() == 0 {
    } else if space_at(s, 0) {
        law_no_escaped_space_left(s.skip(3), i - 1);
    } else {
        let t = s.skip(1);
        law_no_escaped_space_left(t, i - 1);
        if i == 0 && space_at(spaces_as_plus(s), 0) {
            assert(spaces_as_plus(s)[1] == spaces_as_plus(t)[0]);
            assert(spaces_as_plus(s)[2] == spaces_as_plus(t)[1]);
            lemma_first_byte(t);
            let u = t.skip(1);
            assert(spaces_as_plus(t) == seq![t[0]] + spaces_as_plus(u));
            assert(spaces_as_plus(t)[1] == spaces_as_plus(u)[0]);
            if u.len() > 0 {
                lemma_first_byte(u);
            }
            assert(space_at(s, 0));
        }
    }
}

/// The result is never longer than the input.
pub proof fn law_never_longer(s: Seq<u8>)
    ensures
        spaces_as_plus(s).len() <= s.len(),
    decreases s.len(),
{
    if s.len() == 0 {
    } else if space_at(s, 0) {
        law_never_longer(s.skip(3));
    } else {
        law_never_longer(s.skip(1));
    }
}

/// Writing `%20` as `+` behind one escaped byte: a space gives `+`, every
/// other byte keeps its escaped form, and what follows is treated alone.
pub proof fn lemma_escaped_byte_then(b: u8, rest: Seq<u8>)
    ensures
        spaces_as_plus(escaped_byte(b) + rest) == form_byte(b) + spaces_as_plus(rest),
{
    let x = escaped_byte(b) + rest;
    if is_unreserved(b) {
        assert(x[0] == b);
        assert(x.skip(1) =~= rest);
    } else if b == 0x20 {
        assert(x[0] == 0x25 && x[1] == 0x32 && x[2] == 0x30);
        assert(x.skip(3) =~= rest);
    } else {
        let h1 = hex_digit(b / 16);
        let h2 = hex_digit(b % 16);
        assert(x[0] == 0x25 && x[1] == h1 && x[2] == h2);
        assert(!(h1 == 0x32 && h2 == 0x30));
        assert(!space_at(x, 0));
        let y = x.skip(1);
        assert(y[0] == h1);
        assert(!space_at(y, 0));
        let z = y.skip(1);
        assert(z[0] == h2);
        assert(!space_at(z, 0));
        assert(z.skip(1) =~= rest);
        assert(spaces_as_plus(z) == seq![h2] + spaces_as_plus(rest));
        assert(spaces_as_plus(y) == seq![h1] + spaces_as_plus(z));
        assert(spaces_as_plus(x) == seq![0x25u8] + spaces_as_plus(y));
        assert(seq![0x25u8] + (seq![h1] + (seq![h2] + spaces_as_plus(rest))) =~= escaped_byte(b)
            + spaces_as_plus(rest));
    }
}

/// Percent-escaping and then writing `%20` as `+` is form encoding: the only
/// `%20` in escaped bytes are the escaped spaces.
pub proof fn law_form_encoding(s: Seq<u8>)
    ensures
        spaces_as_plus(percent_escaped(s)) == form_encoded(s),
    decreases s.len(),
{
    if s.len() > 0 {
        law_form_encoding(s.skip(1));
        lemma_escaped_byte_then(s[0], percent_escaped(s.skip(1)));
    }
}

/// Writes every `%20` of `escaped` as `+`, from the left.
pub fn plus_for_spaces(escaped: &[u8]) -> (out: Vec<u8>)
    ensures
        out@ == spaces_as_plus(escaped@),
{
    let needle: Vec<u8> = vec![0x25u8, 0x32u8, 0x30u8];
    assert(needle@ =~= escaped_space());
    let mut out: Vec<u8> = Vec::new();
    let mut idx: usize = 0;
    proof {
        assert(escaped@.skip(0) =~= escaped@);
        assert(out@ + spaces_as_plus(escaped@) =~= spaces_as_plus(escaped@));
    }
    loop
        invariant
            idx <= escaped@.len(),
            needle@ == escaped_space(),
            out@ + spaces_as_plus(escaped@.skip(idx as int)) == spaces_as_plus(escaped@),
        decreases escaped@.len() - idx,
    {
        let rest = slice_subrange(escaped, idx, escaped.len());
        assert(rest@ =~= escaped@.skip(idx as int));
        let ghost before = out@;
        match find_first(rest, needle.as_slice()) {
            None => {
                out.extend_from_slice(rest);
                proof {
                    assert forall|j: int| 0 <= j < rest@.len() implies !space_at(rest@, j) by {
                        lemma_space_occurrence(rest@, j);
                    }
                    lemma_plain_prefix(rest@, rest@.len() as int);
                    assert(rest@.take(rest@.len() as int) =~= rest@);
                    assert(rest@.skip(rest@.len() as int) =~= Seq::<u8>::empty());
                    assert(rest@ + spaces_as_plus(Seq::<u8>::empty()) =~= rest@);
                    assert(out@ =~= before + rest@);
                }
                return out;
            },
            Some(pos) => {
                let plain = slice_subrange(rest, 0, pos);
                out.extend_from_slice(plain);
                out.push(PLUS);
                proof {
                    assert forall|j: int| 0 <= j < pos implies !space_at(rest@, j) by {
                        lemma_space_occurrence(rest@, j);
                    }
                    lemma_space_occurrence(rest@, pos as int);
                    lemma_plain_prefix(rest@, pos as int);
                    let tail = rest@.skip(pos as int);
                    assert(space_at(tail, 0));
                    assert(tail.skip(3) =~= escaped@.skip(idx + pos + 3));
                    assert(plain@ =~= rest@.take(pos as int));
                    assert(out@ =~= before + plain@ + seq![PLUS]);
                    assert(out@ + spaces_as_plus(tail.skip(3)) =~= before + (plain@ + (seq![PLUS]
                        + spaces_as_plus(tail.skip(3)))));
                }
                idx = idx + pos + 3;
            },
        }
    }
}

/// Form-encodes `payload` with the handle `easy`: percent-escapes it and
/// writes each escaped space as `+`. An empty payload gives an empty result
/// without a call. The payload must be one that libcurl takes: its length
/// fits a C `int` and is at most a sixteenth of the address space.
pub fn curl_escape(easy: &mut Easy, payload: &[u8]) -> (out: Vec<u8>)
    requires
        payload@.len() <= i32::MAX,
        payload@.len() <= usize::MAX / 16,
    ensures
        out@ == form_encoded(payload@),
        out@ == spaces_as_plus(percent_escaped(payload@)),
{
    proof {
        law_form_encoding(payload@);
    }
    if payload.len() == 0 {
        return Vec::new();
    }
    let escaped = url_encode(easy, payload);
    plus_for_spaces(escaped.as_slice())
}

} // verus!
