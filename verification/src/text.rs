//! Text helpers shared by the readouts: decimal rendering of numbers and
//! decoding of byte buffers that the operating system filled.

use vstd::prelude::*;
use vstd::utf8::*;

verus! {

/// The character that writes the single decimal digit `digit`.
pub open spec fn digit_char(digit: nat) -> char
    recommends
        digit < 10,
{
    if digit == 0 {
        '0'
    } else if digit == 1 {
        '1'
    } else if digit == 2 {
        '2'
    } else if digit == 3 {
        '3'
    } else if digit == 4 {
        '4'
    } else if digit == 5 {
        '5'
    } else if digit == 6 {
        '6'
    } else if digit == 7 {
        '7'
    } else if digit == 8 {
        '8'
    } else {
        '9'
    }
}

/// The decimal numeral of `value`, most significant digit first, without
/// leading zeros.
pub open spec fn decimal_digits(value: nat) -> Seq<char>
    decreases value,
{
    if value < 10 {
        seq![digit_char(value)]
    } else {
        decimal_digits(value / 10).push(digit_char(value % 10))
    }
}

/// The one-character text of a decimal digit.
fn digit_text(digit: u64) -> (text: &'static str)
    requires
        digit < 10,
    ensures
        text@ == seq![digit_char(digit as nat)],
{
    proof {
        reveal_strlit("0");
        reveal_strlit("1");
        reveal_strlit("2");
        reveal_strlit("3");
        reveal_strlit("4");
        reveal_strlit("5");
        reveal_strlit("6");
        reveal_strlit("7");
        reveal_strlit("8");
        reveal_strlit("9");
    }
    let text = if digit == 0 {
        "0"
    } else if digit == 1 {
        "1"
    } else if digit == 2 {
        "2"
    } else if digit == 3 {
        "3"
    } else if digit == 4 {
        "4"
    } else if digit == 5 {
        "5"
    } else if digit == 6 {
        "6"
    } else if digit == 7 {
        "7"
    } else if digit == 8 {
        "8"
    } else {
        "9"
    };
    assert(text@ =~= seq![digit_char(digit as nat)]);
    text
}

/// Writes `value` in decimal.
pub fn decimal(value: u64) -> (text: String)
    ensures
        text@ == decimal_digits(value as nat),
    decreases value,
{
    if value < 10 {
        digit_text(value).to_owned()
    } else {
        let mut text = decimal(value / 10);
        text.append(digit_text(value % 10));
        assert(text@ =~= decimal_digits(value as nat));
        text
    }
}

/// The detail with which the standard library's UTF-8 decoder rejects
/// `bytes`; meaningful only where `bytes` is not valid UTF-8.
pub uninterp spec fn utf8_error_text(bytes: Seq<u8>) -> Seq<char>;

/// `String::from_utf8`, its error rendered through `Display`.
///
/// Trusted: the call succeeds exactly on valid UTF-8 and then yields the
/// characters that the bytes encode; otherwise the message of the error it
/// returns is a function of the bytes alone.
#[verifier::external_body]
pub(crate) fn decode_text(bytes: Vec<u8>) -> (decoded: Result<String, String>)
    ensures
        match decoded {
            Ok(text) => valid_utf8(bytes@) && text@ == decode_utf8(bytes@),
            Err(detail) => !valid_utf8(bytes@) && detail@ == utf8_error_text(bytes@),
        },
{
    match String::from_utf8(bytes) {
        Ok(text) => Ok(text),
        Err(error) => Err(error.to_string()),
    }
}

/// `String::pop`.
///
/// Trusted: the call removes the last character and returns it, and leaves an
/// empty string empty, returning nothing.
#[verifier::external_body]
pub(crate) fn pop_char(text: &mut String) -> (popped: Option<char>)
    ensures
        final(text)@ == without_last(old(text)@),
        popped == (if old(text)@.len() == 0 {
            None
        } else {
            Some(old(text)@.last())
        }),
{
    text.pop()
}

/// `text` without its last character; the empty text stays empty.
pub open spec fn without_last(text: Seq<char>) -> Seq<char> {
    if text.len() == 0 {
        text
    } else {
        text.drop_last()
    }
}

/// No character of `text` is the null character.
pub open spec fn nul_free(text: Seq<char>) -> bool {
    forall|i: int| 0 <= i < text.len() ==> text[i] != '\0'
}

/// A scalar whose encoding starts with a nonzero byte is not the null
/// character.
proof fn lemma_first_scalar_not_nul(bytes: Seq<u8>)
    requires
        valid_utf8(bytes),
        bytes.len() > 0,
        bytes[0] != 0,
    ensures
        (decode_first_scalar(bytes) as char) != '\0',
{
    let first = decode_first_scalar(bytes) as char;
    if first == '\0' {
        decode_utf8_first_scalar(bytes);
        assert((0u32 & 0x7F) as u8 == 0) by (bit_vector);
        assert(encode_scalar(first as u32) =~= seq![0u8]);
        assert(take_first_scalar(bytes)[0] == bytes[0]);
    }
}

/// Bytes that hold no zero decode to text that holds no null character.
pub proof fn lemma_decoded_text_is_nul_free(bytes: Seq<u8>)
    requires
        valid_utf8(bytes),
        forall|i: int| 0 <= i < bytes.len() ==> bytes[i] != 0,
    ensures
        nul_free(decode_utf8(bytes)),
    decreases bytes.len(),
{
    if bytes.len() != 0 {
        let rest = pop_first_scalar(bytes);
        lemma_first_scalar_not_nul(bytes);
        lemma_decoded_text_is_nul_free(rest);
    }
}

/// Bytes that hold no zero except perhaps in the last place decode to text
/// that, once its last character is removed, holds no null character.
pub proof fn lemma_decoded_text_without_last_is_nul_free(bytes: Seq<u8>)
    requires
        valid_utf8(bytes),
        forall|i: int| 0 <= i < bytes.len() - 1 ==> bytes[i] != 0,
    ensures
        nul_free(without_last(decode_utf8(bytes))),
    decreases bytes.len(),
{
    if bytes.len() != 0 {
        let rest = pop_first_scalar(bytes);
        if rest.len() != 0 {
            lemma_first_scalar_not_nul(bytes);
            lemma_decoded_text_without_last_is_nul_free(rest);
            let head = seq![decode_first_scalar(bytes) as char];
            assert(decode_utf8(rest).len() > 0);
            assert(without_last(decode_utf8(bytes)) =~= head + without_last(decode_utf8(rest)));
        } else {
            assert(decode_utf8(bytes).len() == 1);
        }
    }
}

} // verus!
