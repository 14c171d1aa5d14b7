//! Framing of the one HTTP response the exporter ever sends.
//!
//! The response is a pure function of the body bytes: a fixed status line,
//! a fixed `Content-Type`, a `Content-Length` holding the decimal byte
//! length of the body, `Connection: close`, a blank line, then the body
//! verbatim.

use vstd::prelude::*;
use vstd::string::StrSliceExecFns;
use vstd::string::StringSliceAdditionalSpecFns;

verus! {

/// The status line, `HTTP/1.1 200 OK` with its line ending.
pub open spec fn status_line() -> Seq<u8> {
    "HTTP/1.1 200 OK\r\n".spec_bytes()
}

/// The `Content-Type` header line: the Prometheus exposition text format.
pub open spec fn content_type_line() -> Seq<u8> {
    "Content-Type: text/plain; version=0.0.4; charset=utf-8\r\n".spec_bytes()
}

/// The label that opens the `Content-Length` header.
pub open spec fn content_length_label() -> Seq<u8> {
    "Content-Length: ".spec_bytes()
}

/// Everything between the `Content-Length` digits and the body: the end of
/// that header line, the `Connection: close` line, and the blank line.
pub open spec fn after_length() -> Seq<u8> {
    "\r\nConnection: close\r\n\r\n".spec_bytes()
}

/// The decimal digits of `n`, most significant first, as ASCII bytes.
pub open spec fn decimal_rep(n: nat) -> Seq<u8>
    decreases n,
{
    if n < 10 {
        seq![(n + 48) as u8]
    } else {
        decimal_rep(n / 10).push((n % 10 + 48) as u8)
    }
}

/// The number a sequence of ASCII digits denotes, most significant first.
pub open spec fn decimal_value(digits: Seq<u8>) -> int
    decreases digits.len(),
{
    if digits.len() == 0 {
        0
    } else {
        decimal_value(digits.drop_last()) * 10 + (digits.last() as int - 48)
    }
}

/// The header part of a response whose body has `body_len` bytes, up to and
/// including the blank line.
pub open spec fn header_bytes(body_len: nat) -> Seq<u8> {
    status_line() + content_type_line() + content_length_label() + decimal_rep(body_len)
        + after_length()
}

/// The full response for a given body: the header, then the body verbatim.
pub open spec fn response_bytes(body: Seq<u8>) -> Seq<u8> {
    header_bytes(body.len()) + body
}

/// Every response begins with the status line `HTTP/1.1 200 OK\r\n`,
/// whatever the body holds.
pub proof fn lemma_response_starts_with_status_line(body: Seq<u8>)
    ensures
        response_bytes(body).len() >= status_line().len(),
        response_bytes(body).take(status_line().len() as int) == status_line(),
{
    assert(response_bytes(body).take(status_line().len() as int) =~= status_line());
}

/// The decimal rendering of a number denotes that number again, and is made
/// of ASCII digits alone.
pub proof fn lemma_decimal_rep_value(n: nat)
    ensures
        decimal_value(decimal_rep(n)) == n,
        forall|i: int|
            0 <= i < decimal_rep(n).len() ==> 48 <= #[trigger] decimal_rep(n)[i] <= 57,
    decreases n,
{
    if n < 10 {
        assert(decimal_rep(n) == seq![(n + 48) as u8]);
        assert((n + 48) as u8 as int == n + 48);
        assert(decimal_rep(n).drop_last() =~= Seq::<u8>::empty());
        assert(decimal_value(decimal_rep(n)) == decimal_value(Seq::<u8>::empty()) * 10 + ((n
            + 48) as u8 as int - 48));
    } else {
        lemma_decimal_rep_value(n / 10);
        assert((n % 10 + 48) as u8 as int == n % 10 + 48);
        assert(decimal_rep(n).drop_last() =~= decimal_rep(n / 10));
        assert(decimal_rep(n).last() == (n % 10 + 48) as u8);
        assert(decimal_value(decimal_rep(n)) == decimal_value(decimal_rep(n / 10)) * 10 + (n % 10));
        assert(n / 10 * 10 + n % 10 == n);
    }
}

/// The `Content-Length` header value equals the exact byte length of the
/// bytes that follow the blank line: the response splits into the fixed
/// lines, the decimal digits of the body's length, the blank line, and the
/// body, and those digits denote the body's length again.
pub proof fn lemma_content_length_is_body_length(body: Seq<u8>)
    ensures
        response_bytes(body) == status_line() + content_type_line() + content_length_label()
            + decimal_rep(body.len()) + after_length() + body,
        decimal_value(decimal_rep(body.len())) == body.len(),
{
    lemma_decimal_rep_value(body.len());
    assert(response_bytes(body) =~= status_line() + content_type_line() + content_length_label()
        + decimal_rep(body.len()) + after_length() + body);
}

/// The bytes after the header are the body, byte for byte, for any body
/// including the empty one.
pub proof fn lemma_body_verbatim(body: Seq<u8>)
    ensures
        response_bytes(body).len() == header_bytes(body.len()).len() + body.len(),
        response_bytes(body).skip(header_bytes(body.len()).len() as int) == body,
{
    assert(response_bytes(body).skip(header_bytes(body.len()).len() as int) =~= body);
}

/// Appends the bytes of a string slice to `out`.
fn append_bytes_of(out: &mut Vec<u8>, s: &str)
    ensures
        final(out)@ == old(out)@ + s.spec_bytes(),
{
    let mut bytes = s.as_bytes_vec();
    out.append(&mut bytes);
}

/// The decimal digits of `n`, most significant first, as ASCII bytes.
fn decimal_digits(n: usize) -> (r: Vec<u8>)
    ensures
        r@ == decimal_rep(n as nat),
    decreases n,
{
    if n < 10 {
        let mut r: Vec<u8> = Vec::new();
        r.push(n as u8 + 48);
        proof {
            assert(r@ =~= decimal_rep(n as nat));
        }
        r
    } else {
        let mut r = decimal_digits(n / 10);
        r.push((n % 10) as u8 + 48);
        r
    }
}

/// Composes the complete response around `body`: status line, headers with
/// an exact `Content-Length`, blank line, then the body verbatim.
pub fn render_response(body: &Vec<u8>) -> (r: Vec<u8>)
    ensures
        r@ == response_bytes(body@),
{
    let mut r: Vec<u8> = Vec::new();
    append_bytes_of(&mut r, "HTTP/1.1 200 OK\r\n");
    append_bytes_of(&mut r, "Content-Type: text/plain; version=0.0.4; charset=utf-8\r\n");
    append_bytes_of(&mut r, "Content-Length: ");
    let mut digits = decimal_digits(body.len());
    r.append(&mut digits);
    append_bytes_of(&mut r, "\r\nConnection: close\r\n\r\n");
    let mut body_copy: Vec<u8> = Vec::new();
    let mut i: usize = 0;
    while i < body.len()
        invariant
            i <= body.len(),
            body_copy@ == body@.take(i as int),
        decreases body.len() - i,
    {
        body_copy.push(body[i]);
        i += 1;
    }
    proof {
        assert(body_copy@ =~= body@);
    }
    r.append(&mut body_copy);
    proof {
        assert(r@ =~= response_bytes(body@));
    }
    r
}

} // verus!
