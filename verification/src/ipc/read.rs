//! Reassembly of one message frame from the chunks that successive platform
//! reads return, within the endpoint's frame budget.

use vstd::prelude::*;
use crate::error::AppControlError;
use crate::ipc::endpoint::endpoint_error;

verus! {

/// How a platform read call ended.
#[derive(Clone, Copy, Debug, PartialEq, Eq, Structural)]
pub enum ReadCallResult {
    /// The call completed the message.
    Complete,
    /// The message continues beyond this chunk.
    MoreData,
    /// A non-blocking pipe had nothing to read yet.
    NoData,
    /// Any other failure.
    Failed,
}

/// What the read loop does next.
#[derive(Debug)]
pub enum ReadProgress {
    /// Nothing arrived on a non-blocking pipe: wait one slice and read again.
    Retry,
    /// The chunk was kept and the message continues.
    ReadMore,
    /// The chunk was kept and the message is complete.
    Complete,
    /// The read failed.
    Failed(AppControlError),
}

/// The bytes of a message read so far and the limits of the endpoint.
pub struct FrameReader {
    pub output: Vec<u8>,
    pub maximum_read_frame_bytes: usize,
    pub bounded_write_nonblocking: bool,
}

/// `String::from_utf8`: the text of the bytes when they are valid UTF-8, as
/// std documents; `None` otherwise.
#[verifier::external_body]
fn utf8_text(bytes: Vec<u8>) -> (r: Option<String>)
    ensures
        r is Some <==> vstd::utf8::valid_utf8(bytes@),
        r matches Some(s) ==> s@ == vstd::utf8::decode_utf8(bytes@),
{
    String::from_utf8(bytes).ok()
}

impl FrameReader {
    /// A reader with nothing read yet.
    pub fn new(maximum_read_frame_bytes: usize, bounded_write_nonblocking: bool) -> (r: Self)
        ensures
            r.output@ == Seq::<u8>::empty(),
            r.maximum_read_frame_bytes == maximum_read_frame_bytes,
            r.bounded_write_nonblocking == bounded_write_nonblocking,
    {
        FrameReader { output: Vec::new(), maximum_read_frame_bytes, bounded_write_nonblocking }
    }

    /// Takes one read call's outcome: `read` bytes at the start of `chunk`.
    /// A count beyond the buffer, or a message beyond the budget, fails; an
    /// empty successful or no-data read of a non-blocking pipe is retried;
    /// otherwise the bytes are kept and the call's result says whether the
    /// message is complete.
    pub fn accept(&mut self, result: ReadCallResult, chunk: &[u8], read: u32) -> (p: ReadProgress)
        ensures
            final(self).maximum_read_frame_bytes == old(self).maximum_read_frame_bytes,
            final(self).bounded_write_nonblocking == old(self).bounded_write_nonblocking,
            read > chunk@.len() ==> (p matches ReadProgress::Failed(e)
                && e.message@ == "The interactive endpoint returned an invalid read boundary."@),
            read <= chunk@.len() && old(self).bounded_write_nonblocking && read == 0
                && (result == ReadCallResult::Complete || result == ReadCallResult::NoData)
                ==> (p is Retry && final(self).output@ == old(self).output@),
            read <= chunk@.len() && !(old(self).bounded_write_nonblocking && read == 0
                && (result == ReadCallResult::Complete || result == ReadCallResult::NoData))
                && old(self).output@.len() + read > old(self).maximum_read_frame_bytes
                ==> (p matches ReadProgress::Failed(e)
                    && e.message@ == "The interactive endpoint message exceeded its safety boundary."@),
            read <= chunk@.len() && !(old(self).bounded_write_nonblocking && read == 0
                && (result == ReadCallResult::Complete || result == ReadCallResult::NoData))
                && old(self).output@.len() + read <= old(self).maximum_read_frame_bytes
                ==> {
                    &&& final(self).output@ == old(self).output@ + chunk@.take(read as int)
                    &&& result == ReadCallResult::Complete ==> p is Complete
                    &&& result == ReadCallResult::MoreData ==> p is ReadMore
                    &&& (result == ReadCallResult::NoData || result == ReadCallResult::Failed)
                        ==> (p matches ReadProgress::Failed(e)
                            && e.message@ == "The interactive endpoint message could not be read."@)
                },
            p matches ReadProgress::Failed(e) ==> e.code@ == "ISOLATED_WORKER_UNAVAILABLE"@,
    {
        if read as u64 > chunk.len() as u64 {
            return ReadProgress::Failed(endpoint_error("The interactive endpoint returned an invalid read boundary."));
        }
        let n = read as usize;
        if self.bounded_write_nonblocking && n == 0
            && (result == ReadCallResult::Complete || result == ReadCallResult::NoData) {
            return ReadProgress::Retry;
        }
        if n > self.maximum_read_frame_bytes || self.output.len() > self.maximum_read_frame_bytes - n {
            return ReadProgress::Failed(endpoint_error("The interactive endpoint message exceeded its safety boundary."));
        }
        let ghost before = self.output@;
        let mut i: usize = 0;
        while i < n
            invariant
                n <= chunk@.len(),
                i <= n,
                self.output@ == before + chunk@.take(i as int),
                self.maximum_read_frame_bytes == old(self).maximum_read_frame_bytes,
                self.bounded_write_nonblocking == old(self).bounded_write_nonblocking,
            decreases n - i,
        {
            self.output.push(chunk[i]);
            assert(chunk@.take(i + 1) =~= chunk@.take(i as int).push(chunk@[i as int]));
            i = i + 1;
        }
        match result {
            ReadCallResult::Complete => ReadProgress::Complete,
            ReadCallResult::MoreData => ReadProgress::ReadMore,
            _ => ReadProgress::Failed(endpoint_error("The interactive endpoint message could not be read.")),
        }
    }

    /// The completed message's text: it must be non-empty valid UTF-8.
    pub fn finish(self) -> (r: Result<String, AppControlError>)
        ensures
            self.output@.len() == 0 ==> (r matches Err(e)
                && e.message@ == "The interactive endpoint message was empty."@),
            self.output@.len() > 0 && !vstd::utf8::valid_utf8(self.output@) ==> (r matches Err(e)
                && e.message@ == "The interactive endpoint message was not valid UTF-8."@),
            self.output@.len() > 0 && vstd::utf8::valid_utf8(self.output@)
                ==> (r matches Ok(s) && s@ == vstd::utf8::decode_utf8(self.output@)),
            r matches Err(e) ==> e.code@ == "ISOLATED_WORKER_UNAVAILABLE"@,
    {
        if self.output.len() == 0 {
            return Err(endpoint_error("The interactive endpoint message was empty."));
        }
        match utf8_text(self.output) {
            Some(s) => Ok(s),
            None => Err(endpoint_error("The interactive endpoint message was not valid UTF-8.")),
        }
    }
}

} // verus!
