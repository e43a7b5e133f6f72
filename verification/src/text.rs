//! Text as it crosses the C interface: NUL-terminated strings, UTF-8, and a few renderings.

use std::borrow::Cow;
use std::string::FromUtf8Error;
use vstd::prelude::*;
use vstd::string::*;
use vstd::utf8::*;

verus! {

/// `std::string::FromUtf8Error`, carried through without looking inside.
#[verifier::external_type_specification]
#[verifier::external_body]
pub struct ExFromUtf8Error(std::string::FromUtf8Error);

/// What `str::to_uppercase` makes of a text.
pub uninterp spec fn uppercase(text: Seq<char>) -> Seq<char>;

/// What `String::from_utf8_lossy` makes of a byte sequence.
pub uninterp spec fn utf8_lossy(bytes: Seq<u8>) -> Seq<char>;

/// `String::push` appends one character and leaves the rest as it was.
pub assume_specification[ String::push ](text: &mut String, ch: char)
    ensures
        final(text)@ == old(text)@.push(ch),
;

/// `String::from_utf8` accepts exactly the well-formed UTF-8 sequences, and returns the text that
/// they encode.
pub assume_specification[ String::from_utf8 ](vec: Vec<u8>) -> (r: Result<String, FromUtf8Error>)
    ensures
        r is Ok <==> valid_utf8(vec@),
        r matches Ok(text) ==> text@ == decode_utf8(vec@),
;

/// `String::from_utf8_lossy` is a function of the bytes alone. Well-formed UTF-8 is decoded; in
/// anything else the ill-formed parts are replaced by U+FFFD, so at least one of these occurs.
/// How many of them stand for one ill-formed part is left unsaid.
pub assume_specification<'a>[ String::from_utf8_lossy ](v: &'a [u8]) -> (r: Cow<'a, str>)
    ensures
        r@ == utf8_lossy(v@),
        valid_utf8(v@) ==> r@ == decode_utf8(v@),
        !valid_utf8(v@) ==> r@.contains('\u{FFFD}'),
;

/// `str::to_uppercase` is a function of the text alone. On ASCII text it maps `a` to `z` to `A` to
/// `Z` and keeps every other character; the Unicode mapping of other text is left unsaid.
pub assume_specification[ str::to_uppercase ](text: &str) -> (r: String)
    ensures
        r@ == uppercase(text@),
        is_ascii_chars(text@) ==> r@ == ascii_uppercase(text@),
;

/// The upper-case form of an ASCII letter; every other character is its own.
pub open spec fn ascii_upper(c: char) -> char {
    if 'a' <= c <= 'z' {
        ((c as int) - 32) as char
    } else {
        c
    }
}

/// `ascii_upper`, character by character.
pub open spec fn ascii_uppercase(text: Seq<char>) -> Seq<char> {
    text.map_values(|c: char| ascii_upper(c))
}

/// A text that a C string can hold: no NUL stands in it.
pub open spec fn nul_free(text: Seq<char>) -> bool {
    !text.contains('\0')
}

/// The text without its NUL characters.
pub open spec fn without_nul(text: Seq<char>) -> Seq<char> {
    text.filter(|c: char| c != '\0')
}

/// What a C string that starts at the beginning of `memory` holds: the bytes before the first NUL.
pub open spec fn c_string(memory: Seq<u8>) -> Seq<u8>
    decreases memory.len(),
{
    if memory.len() == 0 || memory[0] == 0 {
        seq![]
    } else {
        seq![memory[0]] + c_string(memory.drop_first())
    }
}

/// `text` is what `bytes` read as UTF-8 give, ill-formed parts replaced by U+FFFD: the text that
/// they encode where they are well-formed, and a text with a replacement in it where not.
pub open spec fn is_lossy_text(text: Seq<char>, bytes: Seq<u8>) -> bool {
    &&& text == utf8_lossy(bytes)
    &&& valid_utf8(bytes) ==> text == decode_utf8(bytes)
    &&& !valid_utf8(bytes) ==> text.contains('\u{FFFD}')
}

/// `parts` in order, with `separator` between each two neighbours.
pub open spec fn joined(parts: Seq<Seq<char>>, separator: Seq<char>) -> Seq<char>
    decreases parts.len(),
{
    if parts.len() == 0 {
        seq![]
    } else if parts.len() == 1 {
        parts[0]
    } else {
        joined(parts.drop_last(), separator) + separator + parts.last()
    }
}

/// The decimal digit of a number below ten.
pub open spec fn digit(n: nat) -> char {
    (48 + n) as char
}

/// The decimal numeral of a number, without leading zeros.
pub open spec fn decimal(n: nat) -> Seq<char>
    decreases n,
{
    if n < 10 {
        seq![digit(n)]
    } else {
        decimal(n / 10).push(digit(n % 10))
    }
}

/// The views of a slice of string slices.
pub open spec fn views(parts: Seq<&str>) -> Seq<Seq<char>> {
    parts.map_values(|part: &str| part@)
}

/// Removes every NUL, so that the rest fits in a C string.
pub fn remove_nul(text: &str) -> (r: String)
    ensures
        r@ == without_nul(text@),
{
    let mut kept = String::new();
    let ghost keep = |c: char| c != '\0';
    assert(text@.take(0).filter(keep) =~= seq![]) by {
        reveal(Seq::filter);
    }
    for c in it: text.chars()
        invariant
            it.seq() == text@,
            keep == (|c: char| c != '\0'),
            kept@ == text@.take(it.index() as int).filter(keep),
    {
        proof {
            let i = it.index() as int;
            reveal(Seq::filter);
            assert(text@.take(i + 1).drop_last() =~= text@.take(i));
            assert(text@.take(i + 1).last() == c);
        }
        if c != '\0' {
            kept.push(c);
        }
    }
    assert(text@.take(text@.len() as int) =~= text@);
    kept
}

/// Whether a C string can hold the text.
pub fn is_nul_free(text: &str) -> (r: bool)
    ensures
        r == nul_free(text@),
{
    let bytes = text.as_bytes();
    proof {
        lemma_utf8_nul(text@);
    }
    let mut i: usize = 0;
    while i < bytes.len()
        invariant
            i <= bytes@.len(),
            forall|j: int| 0 <= j < i ==> #[trigger] bytes@[j] != 0,
            nul_free(text@) <==> !bytes@.contains(0),
        decreases bytes@.len() - i,
    {
        if bytes[i] == 0 {
            assert(bytes@.contains(bytes@[i as int]));
            return false;
        }
        i = i + 1;
    }
    true
}

/// The bytes of a C string at the beginning of `memory`. The NUL that ends it has to be there.
pub fn c_string_bytes(memory: &[u8]) -> (r: Vec<u8>)
    requires
        memory@.contains(0),
    ensures
        r@ == c_string(memory@),
{
    let mut bytes: Vec<u8> = Vec::new();
    let mut i: usize = 0;
    proof {
        assert(memory@.skip(0) =~= memory@);
    }
    while memory[i] != 0
        invariant
            i < memory@.len(),
            memory@.skip(i as int).contains(0),
            bytes@ + c_string(memory@.skip(i as int)) =~= c_string(memory@),
        decreases memory@.len() - i,
    {
        let ghost rest = memory@.skip(i as int);
        proof {
            let k = choose|k: int| 0 <= k < rest.len() && rest[k] == 0;
            assert(rest[0] == memory@[i as int]);
            assert(memory@.skip(i + 1)[k - 1] == 0);
            assert(rest.drop_first() =~= memory@.skip(i + 1));
        }
        bytes.push(memory[i]);
        i = i + 1;
    }
    bytes
}

/// The text of a C string at the beginning of `memory`, ill-formed UTF-8 replaced.
pub fn c_string_text(memory: &[u8]) -> (r: String)
    requires
        memory@.contains(0),
    ensures
        is_lossy_text(r@, c_string(memory@)),
{
    let bytes = c_string_bytes(memory);
    match String::from_utf8_lossy(bytes.as_slice()) {
        Cow::Borrowed(text) => text.to_owned(),
        Cow::Owned(text) => text,
    }
}

/// Joins `parts`, with `separator` between each two neighbours.
pub fn join(parts: &[&str], separator: &str) -> (r: String)
    ensures
        r@ == joined(views(parts@), separator@),
{
    let mut text = String::new();
    let mut i: usize = 0;
    while i < parts.len()
        invariant
            i <= parts@.len(),
            text@ == joined(views(parts@).take(i as int), separator@),
        decreases parts@.len() - i,
    {
        proof {
            let prefix = views(parts@).take(i + 1);
            assert(prefix.drop_last() =~= views(parts@).take(i as int));
            assert(prefix.last() == parts@[i as int]@);
        }
        if i > 0 {
            text.append(separator);
        }
        text.append(parts[i]);
        assert(text@ =~= joined(views(parts@).take(i + 1), separator@));
        i = i + 1;
    }
    assert(views(parts@).take(parts@.len() as int) =~= views(parts@));
    text
}

/// Appends the decimal numeral of `n`.
pub fn push_decimal(text: &mut String, n: u16)
    ensures
        final(text)@ == old(text)@ + decimal(n as nat),
    decreases n,
{
    let last: u16 = n % 10;
    if n >= 10 {
        push_decimal(text, n / 10);
    }
    text.push((48 + last as u8) as char);
    assert(text@ =~= old(text)@ + decimal(n as nat));
}

/// Removing the NULs leaves a text that a C string can hold, and changes nothing where there are
/// none.
pub proof fn lemma_without_nul(text: Seq<char>)
    ensures
        nul_free(without_nul(text)),
        nul_free(text) ==> without_nul(text) == text,
    decreases text.len(),
{
    reveal(Seq::filter);
    if text.len() > 0 {
        let front = text.drop_last();
        lemma_without_nul(front);
        assert(text =~= front.push(text.last()));
        assert forall|c: char| #[trigger] without_nul(text).contains(c) implies c != '\0' by {
            let i = choose|i: int| 0 <= i < without_nul(text).len() && without_nul(text)[i] == c;
            if i < without_nul(front).len() {
                assert(without_nul(front)[i] == c);
            }
        }
        if nul_free(text) {
            assert(text.contains(text.last()));
            assert forall|c: char| front.contains(c) implies c != '\0' by {
                let i = choose|i: int| 0 <= i < front.len() && front[i] == c;
                assert(text[i] == c);
            }
        }
    }
}

/// Joining texts without NULs by a separator without NULs gives a text without NULs.
pub proof fn lemma_joined_nul_free(parts: Seq<Seq<char>>, separator: Seq<char>)
    requires
        forall|i: int| 0 <= i < parts.len() ==> nul_free(#[trigger] parts[i]),
        nul_free(separator),
    ensures
        nul_free(joined(parts, separator)),
    decreases parts.len(),
{
    if parts.len() > 1 {
        let front = joined(parts.drop_last(), separator);
        lemma_joined_nul_free(parts.drop_last(), separator);
        let whole = front + separator + parts.last();
        assert forall|c: char| whole.contains(c) implies c != '\0' by {
            let i = choose|i: int| 0 <= i < whole.len() && whole[i] == c;
            if i < front.len() {
                assert(front[i] == c);
            } else if i < front.len() + separator.len() {
                assert(separator[i - front.len()] == c);
            } else {
                assert(parts.last()[i - front.len() - separator.len()] == c);
            }
        }
    }
}

/// In UTF-8 the byte zero stands for NUL and occurs in no other character.
pub proof fn lemma_utf8_nul(text: Seq<char>)
    ensures
        nul_free(text) <==> !encode_utf8(text).contains(0),
    decreases text.len(),
{
    if text.len() > 0 {
        let rest = text.drop_first();
        let first = text[0];
        let head = encode_scalar(first as u32);
        let tail = encode_utf8(rest);
        lemma_utf8_nul(rest);
        lemma_scalar_nul(first);
        assert(text =~= seq![first] + rest);
        assert(encode_utf8(text) == head + tail);
        if first == '\0' {
            assert(text.contains(first));
            assert(encode_utf8(text)[0] == 0);
        } else {
            assert(nul_free(text) <==> nul_free(rest)) by {
                if rest.contains('\0') {
                    let i = choose|i: int| 0 <= i < rest.len() && rest[i] == '\0';
                    assert(text[i + 1] == '\0');
                }
                if text.contains('\0') {
                    let i = choose|i: int| 0 <= i < text.len() && text[i] == '\0';
                    assert(rest[i - 1] == '\0');
                }
            }
            assert((head + tail).contains(0) <==> tail.contains(0)) by {
                if tail.contains(0) {
                    let i = choose|i: int| 0 <= i < tail.len() && tail[i] == 0;
                    assert((head + tail)[i + head.len()] == 0);
                }
                if (head + tail).contains(0) {
                    let i = choose|i: int| 0 <= i < (head + tail).len() && (head + tail)[i] == 0;
                    if i < head.len() {
                        assert(head[i] == 0);
                    } else {
                        assert(tail[i - head.len()] == 0);
                    }
                }
            }
        }
    }
}

proof fn lemma_scalar_nul(c: char)
    ensures
        c == '\0' ==> encode_scalar(c as u32) == seq![0u8],
        c != '\0' ==> !encode_scalar(c as u32).contains(0),
{
    let v = c as u32;
    char_is_scalar(c);
    assert(v == 0 ==> (v & 0x7F) as u8 == 0) by (bit_vector);
    assert(0 < v <= 0x7F ==> (v & 0x7F) as u8 != 0) by (bit_vector);
    let a = ((v >> 6) & 0x1F) as u8;
    let b = ((v >> 12) & 0x0F) as u8;
    let d = ((v >> 18) & 0x7) as u8;
    let e = (v & 0x3F) as u8;
    let f = ((v >> 6) & 0x3F) as u8;
    let g = ((v >> 12) & 0x3F) as u8;
    assert(0xC0u8 | a != 0) by (bit_vector);
    assert(0xE0u8 | b != 0) by (bit_vector);
    assert(0xF0u8 | d != 0) by (bit_vector);
    assert(0x80u8 | e != 0) by (bit_vector);
    assert(0x80u8 | f != 0) by (bit_vector);
    assert(0x80u8 | g != 0) by (bit_vector);
}

/// A C string ends at the first NUL, whatever stands behind it.
pub proof fn lemma_c_string_ends(bytes: Seq<u8>, behind: Seq<u8>)
    requires
        !bytes.contains(0),
    ensures
        c_string(bytes.push(0) + behind) == bytes,
    decreases bytes.len(),
{
    let memory = bytes.push(0) + behind;
    if bytes.len() > 0 {
        let rest = bytes.drop_first();
        assert(bytes.contains(bytes[0]));
        assert forall|b: u8| rest.contains(b) implies b != 0 by {
            let i = choose|i: int| 0 <= i < rest.len() && rest[i] == b;
            assert(bytes[i + 1] == b);
        }
        lemma_c_string_ends(rest, behind);
        assert(memory.drop_first() =~= rest.push(0) + behind);
        assert(seq![bytes[0]] + rest =~= bytes);
    }
}

/// A text without NULs that is handed over as a C string is read back unchanged.
pub proof fn lemma_c_string_round_trip(text: Seq<char>, behind: Seq<u8>)
    requires
        nul_free(text),
    ensures
        c_string(encode_utf8(text).push(0) + behind) == encode_utf8(text),
        forall|read: Seq<char>|
            is_lossy_text(read, c_string(encode_utf8(text).push(0) + behind)) ==> read == text,
{
    lemma_utf8_nul(text);
    lemma_c_string_ends(encode_utf8(text), behind);
    encode_utf8_valid_utf8(text);
    encode_utf8_decode_utf8(text);
}

} // verus!
