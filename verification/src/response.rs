//! Responses and their bytes on the wire.

use vstd::prelude::*;
use vstd::utf8::encode_utf8;
use vstd::utf8::is_ascii_chars;
use vstd::utf8::is_ascii_chars_encode_utf8;
use crate::decimal::all_digit_bytes;
use crate::decimal::decimal;
use crate::decimal::decimal_digits;
use crate::decimal::lemma_decimal_digits_are_digits;
use crate::decimal::lemma_number_of_decimal_digits;
use crate::decimal::lemma_three_digits;
use crate::decimal::number_of;
use crate::status::canonical_reason_of;
use crate::status::is_reason_text;
use crate::status::is_status;
use crate::status::StatusCode;

verus! {

/// What the service answers: a status and a text.
#[derive(Debug, Clone, PartialEq, Eq)]
pub struct HttpResponse {
    pub status: StatusCode,
    pub body: String,
}

/// The response with status `status` and body `message`, an empty body
/// where there is no message.
pub fn build_response(status: StatusCode, message: Option<String>) -> (r: HttpResponse)
    ensures
        r.status == status,
        r.body@ == match message {
            Some(text) => text@,
            None => Seq::<char>::empty(),
        },
{
    match message {
        Some(body) => HttpResponse { status, body },
        None => HttpResponse { status, body: String::new() },
    }
}

/// The reason phrase that goes on the wire for `code`: the canonical one,
/// or `Unknown` for a code that has none.
pub open spec fn reason_or_unknown(code: u16) -> Seq<char> {
    match canonical_reason_of(code) {
        Some(reason) => reason,
        None => "Unknown"@,
    }
}

/// The bytes of a response: the status line, the `Content-Length` header
/// with the byte length of the body, a blank line, and the body.
pub open spec fn encoded(code: u16, reason: Seq<char>, body: Seq<char>) -> Seq<u8> {
    encode_utf8("HTTP/1.1 "@) + decimal_digits(code as nat) + encode_utf8(" "@) + encode_utf8(reason)
        + encode_utf8("\r\nContent-Length: "@) + decimal_digits(encode_utf8(body).len())
        + encode_utf8("\r\n\r\n"@) + encode_utf8(body)
}

/// A value that can be written to a connection.
pub trait AsBytes {
    /// The bytes that stand for the value on the wire.
    spec fn wire(&self) -> Seq<u8>;

    /// Writes the value out.
    fn bytes(&self) -> (r: Vec<u8>)
        ensures
            r@ == self.wire(),
    ;
}

/// Appends `part` to `out`.
fn append_bytes(out: &mut Vec<u8>, part: &[u8])
    ensures
        final(out)@ == old(out)@ + part@,
{
    let mut i: usize = 0;
    while i < part.len()
        invariant
            i <= part.len(),
            out@ == old(out)@ + part@.subrange(0, i as int),
        decreases part.len() - i,
    {
        out.push(part[i]);
        i += 1;
    }
    assert(part@.subrange(0, part@.len() as int) =~= part@);
}

/// Writes out a response with the given reason phrase.
pub fn encode(status: StatusCode, reason: &str, body: &str) -> (r: Vec<u8>)
    ensures
        r@ == encoded(status.value(), reason@, body@),
{
    let code: u16 = status.as_u16();
    let content = body.as_bytes();
    let length = decimal(content.len());
    let mut out: Vec<u8> = Vec::new();
    append_bytes(&mut out, "HTTP/1.1 ".as_bytes());
    append_bytes(&mut out, decimal(code as usize).as_slice());
    append_bytes(&mut out, " ".as_bytes());
    append_bytes(&mut out, reason.as_bytes());
    append_bytes(&mut out, "\r\nContent-Length: ".as_bytes());
    append_bytes(&mut out, length.as_slice());
    append_bytes(&mut out, "\r\n\r\n".as_bytes());
    append_bytes(&mut out, content);
    assert(out@ =~= encoded(status.value(), reason@, body@));
    out
}

impl AsBytes for HttpResponse {
    open spec fn wire(&self) -> Seq<u8> {
        encoded(self.status.value(), reason_or_unknown(self.status.value()), self.body@)
    }

    fn bytes(&self) -> (r: Vec<u8>)
        ensures
            parsed_response(r@) == Some(
                ResponseHead { status: self.status.value() as nat, body: encode_utf8(self.body@) },
            ),
    {
        let status = self.status;
        let code: u16 = status.as_u16();
        let reason = match status.canonical_reason() {
            Some(reason) => reason,
            None => {
                proof {
                    reveal_strlit("Unknown");
                }
                "Unknown"
            },
        };
        proof {
            lemma_response_round_trip(code, reason@, self.body@);
        }
        encode(status, reason, self.body.as_str())
    }
}

/// What a reader finds in the bytes of a response.
pub struct ResponseHead {
    /// The status code of the status line.
    pub status: nat,
    /// The bytes after the blank line, as many as `Content-Length` says.
    pub body: Seq<u8>,
}

/// How many bytes of `s` from `from` on come before the next carriage
/// return, or before the end.
pub open spec fn line_len(s: Seq<u8>, from: int) -> nat
    decreases s.len() - from,
{
    if from < 0 || from >= s.len() || s[from] == 13 {
        0
    } else {
        1 + line_len(s, from + 1)
    }
}

/// Whether `part` stands in `s` at `at`.
pub open spec fn stands_at(s: Seq<u8>, at: int, part: Seq<u8>) -> bool {
    0 <= at && at + part.len() <= s.len() && s.subrange(at, at + part.len()) == part
}

/// Reads `bytes` as a response of this service: a status line of version,
/// three-digit code and reason phrase; one `Content-Length` header; a blank
/// line; and a body of exactly the announced length. `None` for anything
/// else.
pub open spec fn parsed_response(bytes: Seq<u8>) -> Option<ResponseHead> {
    let version = encode_utf8("HTTP/1.1 "@);
    let code_at = version.len() as int;
    let reason_at = code_at + 4;
    let field = encode_utf8("\r\nContent-Length: "@);
    let field_at = reason_at + line_len(bytes, reason_at);
    let length_at = field_at + field.len();
    let length_end = length_at + line_len(bytes, length_at);
    let blank = encode_utf8("\r\n\r\n"@);
    let body_at = length_end + blank.len();
    if stands_at(bytes, 0, version) && reason_at <= bytes.len() && all_digit_bytes(
        bytes.subrange(code_at, code_at + 3),
    ) && bytes[code_at + 3] == 32 && stands_at(bytes, field_at, field) && length_at < length_end
        && all_digit_bytes(bytes.subrange(length_at, length_end)) && stands_at(
        bytes,
        length_end,
        blank,
    ) && number_of(bytes.subrange(length_at, length_end)) == bytes.len() - body_at {
        Some(
            ResponseHead {
                status: number_of(bytes.subrange(code_at, code_at + 3)),
                body: bytes.subrange(body_at, bytes.len() as int),
            },
        )
    } else {
        None
    }
}

/// A line of `n` bytes without a carriage return, followed by one, has
/// length `n`.
proof fn lemma_line_len(s: Seq<u8>, from: int, n: nat)
    requires
        0 <= from,
        from + n < s.len(),
        forall|i: int| from <= i < from + n ==> s[i] != 13,
        s[from + n] == 13,
    ensures
        line_len(s, from) == n,
    decreases n,
{
    if n > 0 {
        lemma_line_len(s, from + 1, (n - 1) as nat);
    }
}

/// Where `part` lies between `before` and `after`, it stands there.
proof fn lemma_stands_between(before: Seq<u8>, part: Seq<u8>, after: Seq<u8>)
    ensures
        stands_at(before + part + after, before.len() as int, part),
        forall|i: int|
            0 <= i < part.len() ==> (before + part + after)[before.len() + i] == part[i],
{
    let s = before + part + after;
    assert(s.subrange(before.len() as int, (before.len() + part.len()) as int) =~= part);
}

/// Round trip: the bytes of a response, read back, give the same status
/// code and the same body, whose length is the one announced.
pub proof fn lemma_response_round_trip(code: u16, reason: Seq<char>, body: Seq<char>)
    requires
        is_status(code as int),
        is_reason_text(reason),
    ensures
        parsed_response(encoded(code, reason, body)) == Some(
            ResponseHead { status: code as nat, body: encode_utf8(body) },
        ),
{
    let version = encode_utf8("HTTP/1.1 "@);
    let digits = decimal_digits(code as nat);
    let space = encode_utf8(" "@);
    let phrase = encode_utf8(reason);
    let field = encode_utf8("\r\nContent-Length: "@);
    let content = encode_utf8(body);
    let length = decimal_digits(content.len());
    let blank = encode_utf8("\r\n\r\n"@);
    let bytes = encoded(code, reason, body);

    reveal_strlit(" ");
    reveal_strlit("\r\nContent-Length: ");
    reveal_strlit("\r\n\r\n");
    assert(is_ascii_chars(" "@));
    assert(is_ascii_chars("\r\nContent-Length: "@));
    assert(is_ascii_chars("\r\n\r\n"@));
    assert(is_ascii_chars(reason));
    is_ascii_chars_encode_utf8(" "@);
    is_ascii_chars_encode_utf8("\r\nContent-Length: "@);
    is_ascii_chars_encode_utf8("\r\n\r\n"@);
    is_ascii_chars_encode_utf8(reason);
    assert(space.len() == 1 && space[0] == 32) by {
        assert(" "@[0] as u8 == space[0]);
    }
    assert(field.len() >= 1 && field[0] == 13) by {
        assert("\r\nContent-Length: "@[0] as u8 == field[0]);
    }
    assert(blank.len() >= 1 && blank[0] == 13) by {
        assert("\r\n\r\n"@[0] as u8 == blank[0]);
    }
    assert forall|i: int| 0 <= i < phrase.len() implies phrase[i] != 13 by {
        assert(reason[i] as u8 == phrase[i]);
    }
    lemma_three_digits(code as nat);
    lemma_decimal_digits_are_digits(code as nat);
    lemma_number_of_decimal_digits(code as nat);
    lemma_decimal_digits_are_digits(content.len());
    lemma_number_of_decimal_digits(content.len());

    let code_at = version.len() as int;
    let reason_at = code_at + 4;
    let field_at = reason_at + phrase.len();
    let length_at = field_at + field.len();
    let length_end = length_at + length.len();
    let body_at = length_end + blank.len();

    let e = Seq::<u8>::empty();
    lemma_stands_between(e, version, digits + space + phrase + field + length + blank + content);
    assert(bytes =~= e + version + (digits + space + phrase + field + length + blank + content));
    lemma_stands_between(version, digits, space + phrase + field + length + blank + content);
    assert(bytes =~= version + digits + (space + phrase + field + length + blank + content));
    lemma_stands_between(version + digits, space, phrase + field + length + blank + content);
    assert(bytes =~= version + digits + space + (phrase + field + length + blank + content));
    lemma_stands_between(version + digits + space, phrase, field + length + blank + content);
    assert(bytes =~= version + digits + space + phrase + (field + length + blank + content));
    lemma_stands_between(version + digits + space + phrase, field, length + blank + content);
    assert(bytes =~= version + digits + space + phrase + field + (length + blank + content));
    lemma_stands_between(version + digits + space + phrase + field, length, blank + content);
    assert(bytes =~= version + digits + space + phrase + field + length + (blank + content));
    lemma_stands_between(version + digits + space + phrase + field + length, blank, content);
    lemma_stands_between(version + digits + space + phrase + field + length + blank, content, e);
    assert(bytes =~= version + digits + space + phrase + field + length + blank + content + e);

    assert(bytes[code_at + 3] == 32) by {
        assert(bytes[(version + digits).len() as int + 0] == space[0]);
    }
    assert(line_len(bytes, reason_at) == phrase.len()) by {
        assert(bytes[field_at] == 13) by {
            assert(bytes[(version + digits + space + phrase).len() as int + 0] == field[0]);
        }
        assert forall|i: int| reason_at <= i < reason_at + phrase.len() implies bytes[i] != 13 by {
            assert(bytes[(version + digits + space).len() + (i - reason_at)] == phrase[i - reason_at]);
        }
        lemma_line_len(bytes, reason_at, phrase.len());
    }
    assert(line_len(bytes, length_at) == length.len()) by {
        assert(bytes[length_end] == 13) by {
            assert(bytes[(version + digits + space + phrase + field + length).len() as int + 0] == blank[0]);
        }
        assert forall|i: int| length_at <= i < length_at + length.len() implies bytes[i] != 13 by {
            assert(bytes[(version + digits + space + phrase + field).len() + (i - length_at)]
                == length[i - length_at]);
        }
        lemma_line_len(bytes, length_at, length.len());
    }
    assert(bytes.subrange(code_at, code_at + 3) == digits);
    assert(bytes.subrange(length_at, length_end) == length);
    assert(bytes.subrange(body_at, bytes.len() as int) == content);
}

} // verus!
