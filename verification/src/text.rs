//! Text that crosses the boundary to the host.

use vstd::prelude::*;
use vstd::utf8::{decode_utf8, decode_utf8_encode_utf8, encode_utf8, valid_utf8};

verus! {

/// `String::push` appends the character and leaves what was there.
pub assume_specification[ String::push ](s: &mut String, c: char)
    ensures
        final(s)@ == old(s)@.push(c),
;

/// `std::str::from_utf8` gives the text that the bytes encode, and fails exactly where they
/// are not valid UTF-8.
#[verifier::external_body]
fn str_from_utf8(bytes: &[u8]) -> (text: Option<&str>)
    ensures
        match text {
            Some(text) => valid_utf8(bytes@) && text@ == decode_utf8(bytes@),
            None => !valid_utf8(bytes@),
        },
{
    std::str::from_utf8(bytes).ok()
}

/// The decimal digit for a number below ten.
pub open spec fn digit(n: nat) -> char {
    (48 + n) as char
}

/// A number in decimal notation.
pub open spec fn decimal(n: nat) -> Seq<char>
    decreases n,
{
    if n < 10 {
        seq![digit(n)]
    } else {
        decimal(n / 10).push(digit(n % 10))
    }
}

/// Writes a number in decimal notation.
pub fn to_decimal(n: usize) -> (text: String)
    ensures
        text@ == decimal(n as nat),
    decreases n,
{
    let mut text = if n < 10 {
        String::new()
    } else {
        to_decimal(n / 10)
    };
    text.push((48 + (n % 10) as u8) as char);
    text
}

/// The number that a text stands for in decimal notation, if it is one without needless zeros.
pub open spec fn decimal_value(text: Seq<char>) -> Option<nat>
    decreases text.len(),
{
    if text.len() == 0 || !('0' <= text.last() <= '9') {
        None
    } else if text.len() == 1 {
        Some((text.last() as nat - '0' as nat) as nat)
    } else {
        match decimal_value(text.drop_last()) {
            Some(high) if high > 0 => Some(
                10 * high + (text.last() as nat - '0' as nat) as nat,
            ),
            _ => None,
        }
    }
}

/// The decimal notation of a number stands for it.
pub(crate) proof fn lemma_decimal_value(n: nat)
    ensures
        decimal_value(decimal(n)) == Some(n),
    decreases n,
{
    if n >= 10 {
        lemma_decimal_value(n / 10);
        assert(decimal(n).drop_last() =~= decimal(n / 10));
        assert(decimal(n / 10).len() > 0);
    }
}

/// The text of a number reads back as that number.
pub proof fn law_decimal_reads_back(n: usize, text: String)
    requires
        call_ensures(to_decimal, (n,), text),
    ensures
        decimal_value(text@) == Some(n as nat),
{
    lemma_decimal_value(n as nat);
}

/// The character that stands in for a NUL.
pub const REPLACEMENT: char = '\u{FFFD}';

/// A text with every NUL replaced.
pub open spec fn without_nul(text: Seq<char>) -> Seq<char> {
    text.map_values(
        |c: char|
            if c == '\0' {
                REPLACEMENT
            } else {
                c
            },
    )
}

/// A text made fit to be handed over holds no NUL, and a text that held none is kept as it is.
pub proof fn law_handed_over_text_has_no_nul(text: Seq<char>)
    ensures
        without_nul(text).len() == text.len(),
        !without_nul(text).contains('\0'),
        !text.contains('\0') ==> without_nul(text) == text,
{
    if !text.contains('\0') {
        assert forall|i: int| 0 <= i < text.len() implies without_nul(text)[i] == text[i] by {
            assert(text.contains(text[i]));
        }
        assert(without_nul(text) =~= text);
    }
}

/// Makes a text fit to be handed over as a C string: each NUL in it is replaced.
pub fn callback_cstring(value: &str) -> (text: Option<String>)
    ensures
        text matches Some(text) && text@ == without_nul(value@),
{
    let mut text = String::new();
    for c in chars: value.chars()
        invariant
            chars.seq() == value@,
            text@ == without_nul(value@.take(chars.index() as int)),
    {
        text.push(
            if c == '\0' {
                REPLACEMENT
            } else {
                c
            },
        );
        assert(value@.take(chars.index() + 1) =~= value@.take(chars.index() as int).push(c));
    }
    assert(value@.take(value@.len() as int) =~= value@);
    Some(text)
}

/// Every text can be handed over: it has as many characters as before, each NUL is replaced by
/// U+FFFD, and every other character stays.
pub proof fn law_text_is_handed_over(value: &str, text: Option<String>)
    requires
        call_ensures(callback_cstring, (value,), text),
    ensures
        text is Some,
        text->0@.len() == value@.len(),
        forall|i: int|
            0 <= i < value@.len() ==> #[trigger] text->0@[i] == if value@[i] == '\0' {
                '\u{FFFD}'
            } else {
                value@[i]
            },
{
}

/// The text in an argument: the bytes before the NUL of a C string, or nothing where the host
/// passed a null pointer.
pub open spec fn text_arg(arg: Option<&[u8]>, null_err: i32, utf8_err: i32) -> Result<
    Seq<char>,
    i32,
> {
    match arg {
        None => Err(null_err),
        Some(bytes) => if valid_utf8(bytes@) {
            Ok(decode_utf8(bytes@))
        } else {
            Err(utf8_err)
        },
    }
}

/// Reads the text in an argument.
pub fn parse_string_arg(arg: Option<&[u8]>, null_err: i32, utf8_err: i32) -> (result: Result<
    String,
    i32,
>)
    ensures
        match result {
            Ok(text) => text_arg(arg, null_err, utf8_err) == Ok::<_, i32>(text@),
            Err(e) => text_arg(arg, null_err, utf8_err) == Err::<Seq<char>, _>(e),
        },
{
    match arg {
        None => Err(null_err),
        Some(bytes) => match str_from_utf8(bytes) {
            Some(text) => Ok(text.to_owned()),
            None => Err(utf8_err),
        },
    }
}

/// An argument that is there and valid UTF-8 is read, whatever its length, as the text whose
/// encoding is exactly its bytes. Reading fails only for a null pointer and for bytes that are no
/// valid UTF-8, each with its own code.
pub proof fn law_text_argument_is_read(
    arg: Option<&[u8]>,
    null_err: i32,
    utf8_err: i32,
    result: Result<String, i32>,
)
    requires
        call_ensures(parse_string_arg, (arg, null_err, utf8_err), result),
    ensures
        result is Ok <==> arg is Some && valid_utf8(arg->0@),
        result matches Ok(text) ==> encode_utf8(text@) == arg->0@,
        arg is None ==> result == Err::<String, _>(null_err),
        arg is Some && !valid_utf8(arg->0@) ==> result == Err::<String, _>(utf8_err),
{
    if arg is Some && valid_utf8(arg->0@) {
        decode_utf8_encode_utf8(arg->0@);
    }
}

/// What a panic carried.
pub enum PanicPayload {
    /// A message that is a literal.
    Literal(&'static str),
    /// A message that was put together.
    Message(String),
    /// Anything but a message.
    Other,
}

impl PanicPayload {
    /// The message of the panic.
    pub open spec fn spec_message(self) -> Seq<char> {
        match self {
            PanicPayload::Literal(text) => text@,
            PanicPayload::Message(text) => text@,
            PanicPayload::Other => "non-string panic payload"@,
        }
    }
}

/// Returns the message of a panic.
pub fn panic_message(payload: PanicPayload) -> (message: String)
    ensures
        message@ == payload.spec_message(),
{
    match payload {
        PanicPayload::Literal(text) => text.to_owned(),
        PanicPayload::Message(text) => text,
        PanicPayload::Other => "non-string panic payload".to_owned(),
    }
}

/// A panic with a message gives that message, and one without says so.
pub proof fn law_panic_message_is_kept(payload: PanicPayload, message: String)
    requires
        call_ensures(panic_message, (payload,), message),
    ensures
        payload matches PanicPayload::Literal(text) ==> message@ == text@,
        payload matches PanicPayload::Message(text) ==> message@ == text@,
        payload is Other ==> message@ == "non-string panic payload"@,
{
}

} // verus!
