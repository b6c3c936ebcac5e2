//! Request bodies in the `application/x-www-form-urlencoded` syntax.

use vstd::prelude::*;
use vstd::utf8::encode_utf8;

verus! {

/// The bytes that the syntax leaves as they are: letters, digits, `*`, `-`,
/// `.` and `_`.
pub open spec fn unreserved(byte: u8) -> bool {
    ||| byte == 0x2A
    ||| byte == 0x2D
    ||| byte == 0x2E
    ||| byte == 0x5F
    ||| 0x30 <= byte <= 0x39
    ||| 0x41 <= byte <= 0x5A
    ||| 0x61 <= byte <= 0x7A
}

/// The upper-case hexadecimal digit of a number below sixteen.
pub open spec fn hex_digit(nibble: int) -> char {
    if nibble < 10 {
        (0x30 + nibble) as u8 as char
    } else {
        (0x41 + nibble - 10) as u8 as char
    }
}

/// One byte as the syntax writes it: itself, `+` for a space, or `%` and two
/// hexadecimal digits.
pub open spec fn escaped_byte(byte: u8) -> Seq<char> {
    if unreserved(byte) {
        seq![byte as char]
    } else if byte == 0x20 {
        seq!['+']
    } else {
        seq!['%', hex_digit(byte as int / 16), hex_digit(byte as int % 16)]
    }
}

/// The bytes, each as the syntax writes it.
pub open spec fn escaped_bytes(bytes: Seq<u8>) -> Seq<char>
    decreases bytes.len(),
{
    if bytes.len() == 0 {
        Seq::empty()
    } else {
        escaped_bytes(bytes.drop_last()) + escaped_byte(bytes.last())
    }
}

/// A name or a value as the syntax writes it: its UTF-8 bytes, escaped.
pub open spec fn escaped(text: Seq<char>) -> Seq<char> {
    escaped_bytes(encode_utf8(text))
}

/// The body for the pairs: `name=value` for each pair, in the order given,
/// with `&` between each two.
pub open spec fn form_encoded(pairs: Seq<(Seq<char>, Seq<char>)>) -> Seq<char>
    decreases pairs.len(),
{
    if pairs.len() == 0 {
        Seq::empty()
    } else {
        let head = form_encoded(pairs.drop_last());
        let separated = if pairs.len() == 1 {
            head
        } else {
            head.push('&')
        };
        separated + escaped(pairs.last().0) + seq!['='] + escaped(pairs.last().1)
    }
}

/// The character sequences of a slice of pairs, in order.
pub open spec fn pair_texts(pairs: Seq<(&str, &str)>) -> Seq<(Seq<char>, Seq<char>)> {
    pairs.map_values(|pair: (&str, &str)| (pair.0@, pair.1@))
}

/// Calls `url::form_urlencoded::Serializer` on an empty target: `extend_pairs`
/// with the pairs, then `finish`. The serializer appends the pairs in order,
/// each as the escaped name, `=` and the escaped value, with `&` before every
/// pair but the first; a name or a value is escaped byte by byte over its
/// UTF-8 encoding.
#[verifier::external_body]
fn serialize_pairs(pairs: &[(&str, &str)]) -> (body: String)
    ensures
        body@ == form_encoded(pair_texts(pairs@)),
{
    url::form_urlencoded::Serializer::new(String::new()).extend_pairs(pairs).finish()
}

/// Builds the body that carries the pairs, in the order given.
pub fn form_body(pairs: &[(&str, &str)]) -> (body: String)
    ensures
        body@ == form_encoded(pair_texts(pairs@)),
{
    serialize_pairs(pairs)
}

/// The characters that a body is made of: those that stand for themselves,
/// `+` and `%` from the escaping, and `=` and `&` between names and values.
pub open spec fn body_char(c: char) -> bool {
    ||| c == '+'
    ||| c == '%'
    ||| c == '='
    ||| c == '&'
    ||| (c as u32) < 0x80 && unreserved(c as u8)
}

/// A byte is escaped to what stands for itself, `+`, or `%` and two
/// hexadecimal digits.
pub proof fn lemma_escaped_byte_chars(byte: u8)
    ensures
        1 <= escaped_byte(byte).len() <= 3,
        forall|j: int|
            0 <= j < escaped_byte(byte).len() ==> {
                let c = #[trigger] escaped_byte(byte)[j];
                body_char(c) && c != '=' && c != '&'
            },
{
    let high = byte as int / 16;
    let low = byte as int % 16;
    assert(0 <= high < 16 && 0 <= low < 16);
    lemma_hex_digit_stands_for_itself(high);
    lemma_hex_digit_stands_for_itself(low);
    assert((byte as char) as u32 == byte);
    assert((byte as char) as u8 == byte);
}

/// A hexadecimal digit is a digit or one of the letters `A` to `F`.
pub proof fn lemma_hex_digit_stands_for_itself(nibble: int)
    requires
        0 <= nibble < 16,
    ensures
        (hex_digit(nibble) as u32) < 0x80,
        unreserved(hex_digit(nibble) as u8),
{
    let code = if nibble < 10 {
        (0x30 + nibble) as u8
    } else {
        (0x41 + nibble - 10) as u8
    };
    assert(hex_digit(nibble) == code as char);
    assert((code as char) as u32 == code);
    assert((code as char) as u8 == code);
}

/// An escaped text holds no `=` and no `&`, and nothing but what stands for
/// itself, `+`, `%` and hexadecimal digits: wherever a body holds `=` or
/// `&`, a name or a value ends there.
pub proof fn lemma_escaped_chars(bytes: Seq<u8>)
    ensures
        forall|i: int|
            0 <= i < escaped_bytes(bytes).len() ==> {
                let c = #[trigger] escaped_bytes(bytes)[i];
                body_char(c) && c != '=' && c != '&'
            },
    decreases bytes.len(),
{
    if bytes.len() > 0 {
        let head = escaped_bytes(bytes.drop_last());
        let tail = escaped_byte(bytes.last());
        lemma_escaped_chars(bytes.drop_last());
        lemma_escaped_byte_chars(bytes.last());
        assert forall|i: int| 0 <= i < escaped_bytes(bytes).len() implies {
            let c = #[trigger] escaped_bytes(bytes)[i];
            body_char(c) && c != '=' && c != '&'
        } by {
            if i < head.len() {
                assert(escaped_bytes(bytes)[i] == head[i]);
            } else {
                assert(escaped_bytes(bytes)[i] == tail[i - head.len()]);
            }
        }
    }
}

/// A body is made of the characters of the syntax and of no others.
pub proof fn lemma_form_encoded_chars(pairs: Seq<(Seq<char>, Seq<char>)>)
    ensures
        forall|i: int|
            0 <= i < form_encoded(pairs).len() ==> body_char(#[trigger] form_encoded(pairs)[i]),
    decreases pairs.len(),
{
    if pairs.len() > 0 {
        let head = form_encoded(pairs.drop_last());
        let separated = if pairs.len() == 1 {
            head
        } else {
            head.push('&')
        };
        let name = escaped(pairs.last().0);
        let value = escaped(pairs.last().1);
        lemma_form_encoded_chars(pairs.drop_last());
        lemma_escaped_chars(encode_utf8(pairs.last().0));
        lemma_escaped_chars(encode_utf8(pairs.last().1));
        let body = form_encoded(pairs);
        assert(body == separated + name + seq!['='] + value);
        assert forall|i: int| 0 <= i < body.len() implies body_char(#[trigger] body[i]) by {
            if i < separated.len() {
                assert(body[i] == separated[i]);
                if i < head.len() {
                    assert(separated[i] == head[i]);
                }
            } else if i < separated.len() + name.len() {
                assert(body[i] == name[i - separated.len()]);
            } else if i == separated.len() + name.len() {
                assert(body[i] == '=');
            } else {
                assert(body[i] == value[i - separated.len() - name.len() - 1]);
            }
        }
    }
}

/// A body holds as many `=` as there are pairs: one between each name and
/// its value, and none inside them.
pub proof fn lemma_one_equals_sign_per_pair(pairs: Seq<(Seq<char>, Seq<char>)>)
    ensures
        occurrences(form_encoded(pairs), '=') == pairs.len(),
    decreases pairs.len(),
{
    if pairs.len() > 0 {
        let head = form_encoded(pairs.drop_last());
        let separated = if pairs.len() == 1 {
            head
        } else {
            head.push('&')
        };
        let name = escaped(pairs.last().0);
        let value = escaped(pairs.last().1);
        lemma_one_equals_sign_per_pair(pairs.drop_last());
        lemma_escaped_chars(encode_utf8(pairs.last().0));
        lemma_escaped_chars(encode_utf8(pairs.last().1));
        lemma_occurrences_absent(name, '=');
        lemma_occurrences_absent(value, '=');
        if pairs.len() > 1 {
            assert(head.push('&').drop_last() == head);
        }
        assert(occurrences(separated, '=') == pairs.len() - 1);
        lemma_occurrences_concat(separated, name, '=');
        assert(seq!['='].drop_last() == Seq::<char>::empty());
        assert(occurrences(seq!['='], '=') == 1) by {
            reveal_with_fuel(occurrences, 2);
        }
        lemma_occurrences_concat(separated + name, seq!['='], '=');
        lemma_occurrences_concat(separated + name + seq!['='], value, '=');
    }
}

/// How often a character occurs in a text.
pub open spec fn occurrences(text: Seq<char>, c: char) -> nat
    decreases text.len(),
{
    if text.len() == 0 {
        0
    } else {
        occurrences(text.drop_last(), c) + if text.last() == c {
            1nat
        } else {
            0nat
        }
    }
}

proof fn lemma_occurrences_absent(text: Seq<char>, c: char)
    requires
        forall|i: int| 0 <= i < text.len() ==> #[trigger] text[i] != c,
    ensures
        occurrences(text, c) == 0,
    decreases text.len(),
{
    if text.len() > 0 {
        lemma_occurrences_absent(text.drop_last(), c);
    }
}

proof fn lemma_occurrences_concat(a: Seq<char>, b: Seq<char>, c: char)
    ensures
        occurrences(a + b, c) == occurrences(a, c) + occurrences(b, c),
    decreases b.len(),
{
    if b.len() == 0 {
        assert(a + b == a);
    } else {
        assert((a + b).drop_last() == a + b.drop_last());
        lemma_occurrences_concat(a, b.drop_last(), c);
    }
}

} // verus!
