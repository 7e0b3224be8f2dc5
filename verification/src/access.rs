//! The per-request access-log record and its one-line rendering.
//!
//! Exactly one record is built for each completed request, attributed to
//! the fixed logger name; the caller emits the rendered line once, after
//! the response has been produced.

use crate::router::Method;
use crate::scan::dec_bytes;
use crate::scan::push_dec;
use vstd::prelude::*;
use vstd::string::StrSliceExecFns;
use vstd::string::StringSliceAdditionalSpecFns;

verus! {

/// The fixed logger name that access records are attributed to.
pub fn logger_name() -> (r: &'static str)
    ensures
        r@ == "loganalyzer"@,
{
    "loganalyzer"
}

/// One per-request access-log record, built exactly once when a response
/// completes.
pub struct AccessRecord {
    /// The request method.
    pub method: Method,
    /// The full request target.
    pub target: Vec<u8>,
    /// The response status code.
    pub status: u16,
    /// The response body size in bytes.
    pub body_len: u64,
    /// Elapsed wall-clock time, in microseconds.
    pub elapsed_micros: u64,
    /// The peer address.
    pub peer: Vec<u8>,
}

/// The text of a method in a record.
pub open spec fn method_text(m: Method) -> Seq<u8> {
    match m {
        Method::Get => "GET".spec_bytes(),
        Method::Head => "HEAD".spec_bytes(),
        Method::Post => "POST".spec_bytes(),
        Method::Put => "PUT".spec_bytes(),
        Method::Delete => "DELETE".spec_bytes(),
        Method::Options => "OPTIONS".spec_bytes(),
        Method::Patch => "PATCH".spec_bytes(),
        Method::Other => "OTHER".spec_bytes(),
    }
}

/// The method name as bytes.
pub fn method_name(m: Method) -> (r: Vec<u8>)
    ensures
        r@ == method_text(m),
{
    match m {
        Method::Get => "GET".as_bytes_vec(),
        Method::Head => "HEAD".as_bytes_vec(),
        Method::Post => "POST".as_bytes_vec(),
        Method::Put => "PUT".as_bytes_vec(),
        Method::Delete => "DELETE".as_bytes_vec(),
        Method::Options => "OPTIONS".as_bytes_vec(),
        Method::Patch => "PATCH".as_bytes_vec(),
        Method::Other => "OTHER".as_bytes_vec(),
    }
}

/// The one line that a completed request logs: method, target, status,
/// response size in bytes (`B`), elapsed time in microseconds (`us`), and
/// peer address, space-separated.
pub open spec fn access_line_of(r: AccessRecord) -> Seq<u8> {
    method_text(r.method) + seq![0x20u8]  // ' '
     + r.target@ + seq![0x20u8]  // ' '
     + dec_bytes(r.status as int) + seq![0x20u8]  // ' '
     + dec_bytes(r.body_len as int) + seq![0x42u8, 0x20u8]  // "B "
     + dec_bytes(r.elapsed_micros as int) + seq![0x75u8, 0x73u8, 0x20u8]  // "us "
     + r.peer@
}

fn push_bytes(out: &mut Vec<u8>, src: &Vec<u8>)
    ensures
        final(out)@ == old(out)@ + src@,
{
    let mut i: usize = 0;
    while i < src.len()
        invariant
            0 <= i <= src@.len(),
            out@ == old(out)@ + src@.subrange(0, i as int),
        decreases src@.len() - i,
    {
        out.push(src[i]);
        proof {
            assert(old(out)@ + src@.subrange(0, i as int + 1) =~= (old(out)@ + src@.subrange(
                0,
                i as int,
            )).push(src@[i as int]));
        }
        i = i + 1;
    }
    proof {
        assert(old(out)@ + src@.subrange(0, src@.len() as int) =~= old(out)@ + src@);
        assert(out@ =~= old(out)@ + src@);
    }
}

/// Renders the record: the executable form of [`access_line_of`].
pub fn format_access_line(r: &AccessRecord) -> (line: Vec<u8>)
    ensures
        line@ == access_line_of(*r),
{
    let mut out: Vec<u8> = Vec::new();
    let mut m = method_name(r.method);
    out.append(&mut m);
    out.push(0x20);
    push_bytes(&mut out, &r.target);
    out.push(0x20);
    push_dec(&mut out, r.status as u64);
    out.push(0x20);
    push_dec(&mut out, r.body_len);
    out.push(0x42);
    out.push(0x20);
    push_dec(&mut out, r.elapsed_micros);
    out.push(0x75);
    out.push(0x73);
    out.push(0x20);
    push_bytes(&mut out, &r.peer);
    proof {
        assert(out@ =~= access_line_of(*r));
    }
    out
}

} // verus!
