//! The byte-level request classification and response formatting used by
//! the server around the pool.
//!
//! A request is classified by the byte prefix of its request line; the
//! response is the status line, a Content-Length header giving the body's
//! exact length in decimal, a blank line, and the body. The pool itself
//! knows nothing of any of this: these are the compute steps between the
//! socket reads and writes, which stay outside the library.

use vstd::prelude::*;

verus! {

/// What a request asks for, by the prefix of its first line: the root
/// page, the root page after a deliberate delay, or something unknown.
#[derive(Clone, Copy, Debug, PartialEq, Eq, Structural)]
pub enum RequestKind {
    Root,
    Sleep,
    Unknown,
}

/// Which page body the server sends back.
#[derive(Clone, Copy, Debug, PartialEq, Eq, Structural)]
pub enum Page {
    Index,
    NotFound,
}

/// The bytes of `"GET / HTTP/1.1\r\n"`, the request line of a plain
/// fetch of the root page.
pub open spec fn root_request_prefix() -> Seq<u8> {
    seq![71u8, 69u8, 84u8, 32u8, 47u8, 32u8, 72u8, 84u8, 84u8, 80u8, 47u8, 49u8, 46u8, 49u8, 13u8, 10u8]
}

/// The bytes of `"GET /sleep HTTP/1.1\r\n"`, the request line of a
/// fetch that asks for a deliberate delay first.
pub open spec fn sleep_request_prefix() -> Seq<u8> {
    seq![71u8, 69u8, 84u8, 32u8, 47u8, 115u8, 108u8, 101u8, 101u8, 112u8, 32u8, 72u8, 84u8, 84u8, 80u8, 47u8, 49u8, 46u8, 49u8, 13u8, 10u8]
}

/// The bytes of `"HTTP/1.1 200 OK"`.
pub open spec fn status_ok() -> Seq<u8> {
    seq![72u8, 84u8, 84u8, 80u8, 47u8, 49u8, 46u8, 49u8, 32u8, 50u8, 48u8, 48u8, 32u8, 79u8, 75u8]
}

/// The bytes of `"HTTP/1.1 404 NOT FOUND"`.
pub open spec fn status_not_found() -> Seq<u8> {
    seq![72u8, 84u8, 84u8, 80u8, 47u8, 49u8, 46u8, 49u8, 32u8, 52u8, 48u8, 52u8, 32u8, 78u8, 79u8, 84u8, 32u8, 70u8, 79u8, 85u8, 78u8, 68u8]
}

/// The bytes of `"\r\nContent-Length: "`, which follow the status line.
pub open spec fn header_prefix() -> Seq<u8> {
    seq![13u8, 10u8, 67u8, 111u8, 110u8, 116u8, 101u8, 110u8, 116u8, 45u8, 76u8, 101u8, 110u8, 103u8, 116u8, 104u8, 58u8, 32u8]
}

/// Whether `buf` begins with the bytes of `pre`.
pub open spec fn starts_with_spec(buf: Seq<u8>, pre: Seq<u8>) -> bool {
    buf.len() >= pre.len() && buf.subrange(0, pre.len() as int) == pre
}

/// The classification the server gives a raw request buffer: the first
/// matching prefix wins, anything else is unknown.
pub open spec fn classify_spec(buf: Seq<u8>) -> RequestKind {
    if starts_with_spec(buf, root_request_prefix()) {
        RequestKind::Root
    } else if starts_with_spec(buf, sleep_request_prefix()) {
        RequestKind::Sleep
    } else {
        RequestKind::Unknown
    }
}

/// The decimal digits of `n`, most significant first, no sign and no
/// leading zero (a single `"0"` for zero).
pub open spec fn decimal_digits(n: nat) -> Seq<u8>
    decreases n,
{
    if n < 10 {
        seq![(48 + n) as u8]
    } else {
        decimal_digits(n / 10).push((48 + n % 10) as u8)
    }
}

/// The whole response for a status line and a body: status line,
/// Content-Length header giving the body's exact length, blank line,
/// body.
pub open spec fn response_bytes(status: Seq<u8>, body: Seq<u8>) -> Seq<u8> {
    status + header_prefix() + decimal_digits(body.len()) + seq![13u8, 10u8, 13u8, 10u8] + body
}

/// Prefix test on raw bytes.
pub fn starts_with(buf: &[u8], pre: &[u8]) -> (r: bool)
    ensures
        r == starts_with_spec(buf@, pre@),
{
    if buf.len() < pre.len() {
        return false;
    }
    let mut i: usize = 0;
    while i < pre.len()
        invariant
            i <= pre@.len() <= buf@.len(),
            forall|j: int| 0 <= j < i ==> buf@[j] == pre@[j],
        decreases pre@.len() - i,
    {
        if buf[i] != pre[i] {
            proof {
                assert(buf@.subrange(0, pre@.len() as int)[i as int] == buf@[i as int]);
            }
            return false;
        }
        i = i + 1;
    }
    proof {
        assert(buf@.subrange(0, pre@.len() as int) =~= pre@);
    }
    true
}

/// The exec copy of the root-fetch request line.
pub fn root_request_prefix_bytes() -> (v: Vec<u8>)
    ensures
        v@ == root_request_prefix(),
{
    let v: Vec<u8> = vec![71u8, 69u8, 84u8, 32u8, 47u8, 32u8, 72u8, 84u8, 84u8, 80u8, 47u8, 49u8, 46u8, 49u8, 13u8, 10u8];
    proof {
        assert(v@ =~= root_request_prefix());
    }
    v
}

/// The exec copy of the delayed-fetch request line.
pub fn sleep_request_prefix_bytes() -> (v: Vec<u8>)
    ensures
        v@ == sleep_request_prefix(),
{
    let v: Vec<u8> = vec![71u8, 69u8, 84u8, 32u8, 47u8, 115u8, 108u8, 101u8, 101u8, 112u8, 32u8, 72u8, 84u8, 84u8, 80u8, 47u8, 49u8, 46u8, 49u8, 13u8, 10u8];
    proof {
        assert(v@ =~= sleep_request_prefix());
    }
    v
}

/// Classify a raw request buffer by its byte prefix.
pub fn classify_request(buf: &[u8]) -> (k: RequestKind)
    ensures
        k == classify_spec(buf@),
{
    let root = root_request_prefix_bytes();
    let sleep = sleep_request_prefix_bytes();
    if starts_with(buf, root.as_slice()) {
        RequestKind::Root
    } else if starts_with(buf, sleep.as_slice()) {
        RequestKind::Sleep
    } else {
        RequestKind::Unknown
    }
}

/// The page served for each request kind: the not-found page exactly
/// for unknown requests, the index page for the rest.
pub fn page_for(k: RequestKind) -> (p: Page)
    ensures
        p is NotFound <==> k is Unknown,
{
    match k {
        RequestKind::Root => Page::Index,
        RequestKind::Sleep => Page::Index,
        RequestKind::Unknown => Page::NotFound,
    }
}

/// The status line sent for each request kind: the not-found status
/// exactly for unknown requests, the OK status for the rest.
pub fn status_line(k: RequestKind) -> (v: Vec<u8>)
    ensures
        k is Unknown ==> v@ == status_not_found(),
        !(k is Unknown) ==> v@ == status_ok(),
{
    match k {
        RequestKind::Unknown => {
            let v: Vec<u8> = vec![72u8, 84u8, 84u8, 80u8, 47u8, 49u8, 46u8, 49u8, 32u8, 52u8, 48u8, 52u8, 32u8, 78u8, 79u8, 84u8, 32u8, 70u8, 79u8, 85u8, 78u8, 68u8];
            proof {
                assert(v@ =~= status_not_found());
            }
            v
        },
        _ => {
            let v: Vec<u8> = vec![72u8, 84u8, 84u8, 80u8, 47u8, 49u8, 46u8, 49u8, 32u8, 50u8, 48u8, 48u8, 32u8, 79u8, 75u8];
            proof {
                assert(v@ =~= status_ok());
            }
            v
        },
    }
}

/// The decimal digits of `n`, as sent in the Content-Length header.
pub fn decimal_of(n: usize) -> (v: Vec<u8>)
    ensures
        v@ == decimal_digits(n as nat),
    decreases n,
{
    if n < 10 {
        let mut v: Vec<u8> = Vec::new();
        v.push(48u8 + n as u8);
        proof {
            assert(v@ =~= decimal_digits(n as nat));
        }
        v
    } else {
        let mut v = decimal_of(n / 10);
        v.push(48u8 + (n % 10) as u8);
        proof {
            assert(v@ =~= decimal_digits(n as nat));
        }
        v
    }
}

/// Append a copy of `src` behind `dst`.
fn append_bytes(dst: &mut Vec<u8>, src: &[u8])
    ensures
        final(dst)@ == old(dst)@ + src@,
{
    let ghost d0 = dst@;
    let mut i: usize = 0;
    while i < src.len()
        invariant
            d0 == old(dst)@,
            i <= src@.len(),
            dst@ == d0 + src@.subrange(0, i as int),
        decreases src@.len() - i,
    {
        let ghost prev = dst@;
        dst.push(src[i]);
        i = i + 1;
        proof {
            assert(prev.push(src@[i - 1]) =~= d0 + src@.subrange(0, i as int));
        }
    }
    proof {
        assert(d0 + src@.subrange(0, src@.len() as int) =~= d0 + src@);
    }
}

/// Assemble the whole response for a status line and a body: status
/// line, Content-Length header with the body's exact length in decimal,
/// blank line, body.
pub fn build_response(status: &[u8], body: &[u8]) -> (r: Vec<u8>)
    ensures
        r@ == response_bytes(status@, body@),
{
    let mut r: Vec<u8> = Vec::new();
    append_bytes(&mut r, status);
    let header: Vec<u8> = vec![13u8, 10u8, 67u8, 111u8, 110u8, 116u8, 101u8, 110u8, 116u8, 45u8, 76u8, 101u8, 110u8, 103u8, 116u8, 104u8, 58u8, 32u8];
    proof {
        assert(header@ =~= header_prefix());
    }
    append_bytes(&mut r, header.as_slice());
    let digits = decimal_of(body.len());
    append_bytes(&mut r, digits.as_slice());
    let blank: Vec<u8> = vec![13u8, 10u8, 13u8, 10u8];
    proof {
        assert(blank@ =~= seq![13u8, 10u8, 13u8, 10u8]);
    }
    append_bytes(&mut r, blank.as_slice());
    append_bytes(&mut r, body);
    proof {
        assert(r@ =~= response_bytes(status@, body@));
    }
    r
}

} // verus!
