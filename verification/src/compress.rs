//! Payload framing: the remote listener expects every payload as one
//! zlib-compressed byte stream, so a delivery call either sends the compressed
//! payload or — for the probe sentinel — nothing at all.

use vstd::prelude::*;

use crate::ports::is_probe;
use crate::text::str_eq;

verus! {

/// The zlib stream that flate2's default-level encoder produces for the given
/// input bytes.  The encoding is a pure function of the input; its exact bytes
/// are left uninterpreted.
pub uninterp spec fn zlib_of(data: Seq<u8>) -> Seq<u8>;

/// Relies on flate2's `write::ZlibEncoder` (built over an in-memory `Vec`
/// with `Compression::default()`, fed by `write_all`, closed by `finish`):
/// the sink holds one complete zlib stream for exactly the bytes written, a
/// function of the input alone.  The call cannot fail here: the only error
/// sources are the sink's `Write` impl — a `Vec`, which never errors and
/// never accepts zero bytes of a non-empty buffer — and the deflate
/// backend, which rejects only invalid compressor parameters (these are
/// fixed and valid).  The error arm stays for the signature's sake and
/// surfaces the error's text.
#[verifier::external_body]
fn compress_data(data: &[u8]) -> (r: Result<Vec<u8>, String>)
    ensures
        r is Ok,
        r matches Ok(c) ==> c@ == zlib_of(data@),
{
    let mut encoder = flate2::write::ZlibEncoder::new(Vec::new(), flate2::Compression::default());
    if let Err(e) = std::io::Write::write_all(&mut encoder, data) {
        return Err(e.to_string());
    }
    encoder.finish().map_err(|e| e.to_string())
}

/// What one delivery call transmits per accepted connection.
pub enum SendPlan {
    /// Probe only: open the connection, send nothing.
    ProbeOnly,
    /// Transmit these compressed bytes, once per successful connection.
    Send(Vec<u8>),
    /// The payload could not be compressed; every opened connection counts as
    /// a send failure with this error text.
    CompressFailed(String),
}

/// Frames the result of compressing a payload: a successful compression is
/// transmitted as is, and a failed one downgrades every opened connection to
/// a send failure carrying the error text.
pub fn frame_compressed(compressed: Result<Vec<u8>, String>) -> (r: SendPlan)
    ensures
        compressed matches Ok(b) ==> r == SendPlan::Send(b),
        compressed matches Err(e) ==> r == SendPlan::CompressFailed(e),
{
    match compressed {
        Ok(b) => SendPlan::Send(b),
        Err(e) => SendPlan::CompressFailed(e),
    }
}

/// Decides what a delivery call transmits: nothing for the probe sentinel,
/// otherwise the zlib-compressed payload bytes.  Compression of an in-memory
/// payload cannot fail, so every non-probe payload is owed a send plan.
pub fn send_plan(code: &str) -> (r: SendPlan)
    ensures
        is_probe(code@) <==> r is ProbeOnly,
        !is_probe(code@) ==> (r matches SendPlan::Send(b) && b@ == zlib_of(
            vstd::utf8::encode_utf8(code@),
        )),
{
    if str_eq(code, "NULL") {
        SendPlan::ProbeOnly
    } else {
        frame_compressed(compress_data(code.as_bytes()))
    }
}

} // verus!
