//! Writing a file into a sandbox, from a body in the request or from a channel
//! that the caller streams through.

use crate::encoding::{base64_decoded, decode_base64};
use crate::sandbox_daemon::errors::{fails, SandboxError, SandboxErrorCode};
use crate::sandbox_daemon::fs::adapter::{FsRunner, StreamChannelRef, WriteBody};
use crate::sandbox_daemon::fs::gate::{enter, fs_refusal, fs_target, fs_used};
use crate::sandbox_daemon::fs::proto::{unexpected, unexpected_message, FsReply, FsResult};
use crate::sandbox_daemon::registry::SandboxRegistry;
use crate::text::concat;
use vstd::prelude::*;
use vstd::utf8::encode_utf8;

verus! {

/// What is left of the chunks of a channel, for a reader whose buffer may be
/// smaller than a chunk.
#[derive(Debug, Clone, PartialEq, Eq)]
pub struct ChannelReaderAdapter {
    pending_buf: Vec<u8>,
    eof: bool,
}

impl ChannelReaderAdapter {
    /// The bytes received and not yet read.
    pub closed spec fn pending(&self) -> Seq<u8> {
        self.pending_buf@
    }

    /// Whether the channel has ended.
    pub closed spec fn ended(&self) -> bool {
        self.eof
    }

    /// Nothing received yet.
    pub fn new() -> (r: ChannelReaderAdapter)
        ensures
            r.pending() == Seq::<u8>::empty(),
            !r.ended(),
    {
        ChannelReaderAdapter { pending_buf: Vec::new(), eof: false }
    }

    /// What a read gets without another chunk: as many left-over bytes as fit,
    /// or nothing once the channel has ended. `None` where a chunk is needed.
    pub fn read_pending(&mut self, room: usize) -> (r: Option<Vec<u8>>)
        ensures
            final(self).ended() == old(self).ended(),
            match r {
                Some(out) => {
                    &&& old(self).pending().len() > 0 || old(self).ended()
                    &&& out@ + final(self).pending() == old(self).pending()
                    &&& out@.len() == (if old(self).pending().len() < room {
                        old(self).pending().len()
                    } else {
                        room as nat
                    })
                },
                None => {
                    &&& old(self).pending().len() == 0
                    &&& !old(self).ended()
                    &&& final(self).pending() == old(self).pending()
                },
            },
    {
        if self.pending_buf.len() == 0 {
            if self.eof {
                return Some(Vec::new());
            }
            return None;
        }
        let n: usize = if self.pending_buf.len() < room {
            self.pending_buf.len()
        } else {
            room
        };
        let ghost before = self.pending_buf@;
        let rest = self.pending_buf.split_off(n);
        let mut out: Vec<u8> = Vec::new();
        std::mem::swap(&mut out, &mut self.pending_buf);
        self.pending_buf = rest;
        assert(out@ + self.pending_buf@ == before);
        Some(out)
    }

    /// What a read gets of a chunk: as many bytes as fit; the rest is kept. No
    /// chunk means that the channel has ended.
    pub fn read_chunk(&mut self, chunk: Option<Vec<u8>>, room: usize) -> (r: Vec<u8>)
        requires
            old(self).pending().len() == 0,
        ensures
            match chunk {
                Some(data) => {
                    &&& r@ + final(self).pending() == data@
                    &&& r@.len() == (if data@.len() < room {
                        data@.len()
                    } else {
                        room as nat
                    })
                    &&& final(self).ended() == old(self).ended()
                },
                None => {
                    &&& r@ == Seq::<u8>::empty()
                    &&& final(self).pending() == Seq::<u8>::empty()
                    &&& final(self).ended()
                },
            },
    {
        match chunk {
            Some(data) => {
                let mut data = data;
                let ghost all = data@;
                let n: usize = if data.len() < room {
                    data.len()
                } else {
                    room
                };
                let rest = data.split_off(n);
                self.pending_buf = rest;
                assert(data@ + self.pending_buf@ == all);
                data
            },
            None => {
                self.eof = true;
                Vec::new()
            },
        }
    }
}

/// No byte is lost, doubled or moved: as long as what was delivered and what
/// is pending are together what was received, a read of left-over bytes and a
/// read of a new chunk keep it so, whatever room the reader has.
pub proof fn channel_bytes_are_conserved(
    received: Seq<u8>,
    delivered: Seq<u8>,
    before: Seq<u8>,
    chunk: Seq<u8>,
    out: Seq<u8>,
    after: Seq<u8>,
)
    requires
        received == delivered + before,
    ensures
        out + after == before ==> received == (delivered + out) + after,
        before.len() == 0 && out + after == chunk ==> received + chunk == (delivered + out) + after,
{
    assert((delivered + out) + after == delivered + (out + after));
    if before.len() == 0 {
        assert(delivered + before == delivered);
    }
}

/// The body of a file in a request.
#[derive(Debug, Clone, PartialEq, Eq)]
pub enum WriteContent {
    /// Text, written as it is.
    Utf8(String),
    /// A channel that the caller streams through.
    Stream(StreamChannelRef),
}

/// A file to write.
#[derive(Debug, Clone, PartialEq, Eq)]
pub struct WriteRequest {
    pub sandbox_id: String,
    pub path: String,
    /// Permissions in octal.
    pub mode: String,
    /// Make missing directories.
    pub parents: bool,
    pub content: Option<WriteContent>,
    /// The body in Base64, in place of `content`.
    pub content_b64: Option<String>,
}

/// The permissions of a file where the caller does not say.
pub fn default_mode() -> (r: String)
    ensures
        r@ == "0644"@,
{
    "0644".to_owned()
}

/// What was written.
#[derive(Debug, Clone, PartialEq, Eq)]
pub struct WriteResponse {
    pub bytes_written: u64,
    pub path: String,
}

/// What is wrong with the body of a request, if anything: there must be exactly
/// one, and Base64 must decode.
pub open spec fn body_complaint(
    content: Option<WriteContent>,
    content_b64: Option<String>,
) -> Option<Seq<char>> {
    match (content, content_b64) {
        (Some(_), Some(_)) => Some(
            "set either `content` (string or StreamChannelRef) or `content_b64`, not both"@,
        ),
        (None, None) => Some(
            "missing file body: set `content` (string or StreamChannelRef) or `content_b64`"@,
        ),
        (Some(_), None) => None,
        (None, Some(b64)) => match base64_decoded(b64@) {
            Ok(_) => None,
            Err(e) => Some("content_b64 is not valid base64: "@ + e),
        },
    }
}

/// `body` is the body of a request that has one.
pub open spec fn carries(
    body: WriteBody,
    content: Option<WriteContent>,
    content_b64: Option<String>,
) -> bool {
    match (content, content_b64) {
        (Some(WriteContent::Utf8(s)), _) => body is Inline && body->Inline_0@ == encode_utf8(s@),
        (Some(WriteContent::Stream(c)), _) => body == WriteBody::Channel(c),
        (None, Some(b64)) => body is Inline && base64_decoded(b64@) == Ok::<Seq<u8>, Seq<char>>(
            body->Inline_0@,
        ),
        (None, None) => false,
    }
}

/// A body in Base64, given what decoding it came to.
pub fn body_from_b64(decoded: Result<Vec<u8>, String>) -> (r: Result<WriteBody, SandboxError>)
    ensures
        match decoded {
            Ok(bytes) => r == Ok::<WriteBody, SandboxError>(WriteBody::Inline(bytes)),
            Err(e) => fails(r, SandboxErrorCode::S001, "content_b64 is not valid base64: "@ + e@),
        },
{
    match decoded {
        Ok(bytes) => Ok(WriteBody::Inline(bytes)),
        Err(e) => Err(
            SandboxError::InvalidRequest(concat("content_b64 is not valid base64: ", e.as_str())),
        ),
    }
}

/// The body of a request.
pub fn write_body(content: Option<WriteContent>, content_b64: Option<String>) -> (r: Result<
    WriteBody,
    SandboxError,
>)
    ensures
        match body_complaint(content, content_b64) {
            Some(m) => fails(r, SandboxErrorCode::S001, m),
            None => r is Ok && carries(r->Ok_0, content, content_b64),
        },
{
    match (content, content_b64) {
        (Some(WriteContent::Utf8(s)), None) => {
            let bytes = s.as_str().as_bytes_vec();
            Ok(WriteBody::Inline(bytes))
        },
        (Some(WriteContent::Stream(c)), None) => Ok(WriteBody::Channel(c)),
        (None, Some(b64)) => body_from_b64(decode_base64(b64.as_str())),
        (Some(_), Some(_)) => Err(
            SandboxError::InvalidRequest(
                "set either `content` (string or StreamChannelRef) or `content_b64`, not both".to_owned(),
            ),
        ),
        (None, None) => Err(
            SandboxError::InvalidRequest(
                "missing file body: set `content` (string or StreamChannelRef) or `content_b64`".to_owned(),
            ),
        ),
    }
}

/// `r` is the answer to the caller, given what came back from the sandbox: a
/// failure goes on to the caller, and so does the answer to another question.
pub open spec fn write_answers(
    r: Result<WriteResponse, SandboxError>,
    back: Result<FsReply, SandboxError>,
) -> bool {
    match back {
        Err(e) => r == Err::<WriteResponse, SandboxError>(e),
        Ok(FsReply { result: FsResult::Write { bytes_written, path }, .. }) => r == Ok::<
            WriteResponse,
            SandboxError,
        >(WriteResponse { bytes_written, path }),
        Ok(reply) => fails(r, SandboxErrorCode::S216, unexpected_message("Write"@, reply.shown@)),
    }
}

/// The answer to the caller, given what came back from the sandbox.
pub fn write_response(back: Result<FsReply, SandboxError>) -> (r: Result<
    WriteResponse,
    SandboxError,
>)
    ensures
        write_answers(r, back),
{
    match back {
        Err(e) => Err(e),
        Ok(FsReply { result: FsResult::Write { bytes_written, path }, .. }) => Ok(
            WriteResponse { bytes_written, path },
        ),
        Ok(reply) => Err(SandboxError::FsIo(unexpected("Write", reply.shown.as_str()))),
    }
}

/// Write a file whose body is at hand into a sandbox.
pub fn handle_write_with_reader<R: FsRunner>(
    sandbox_id: String,
    path: String,
    mode: String,
    parents: bool,
    reader: WriteBody,
    registry: &mut SandboxRegistry,
    runner: &R,
    now: u64,
) -> (r: Result<WriteResponse, SandboxError>)
    ensures
        match fs_refusal(sandbox_id@, old(registry)@) {
            Some(why) => fails(r, why.0, why.1) && final(registry)@ == old(registry)@,
            None => {
                &&& final(registry)@ == fs_used(sandbox_id@, old(registry)@, now)
                &&& exists|back: Result<FsReply, SandboxError>| #[trigger]
                    call_ensures(
                        R::fs_write_stream,
                        (
                            runner,
                            fs_target(sandbox_id@, old(registry)@).shell_sock,
                            path,
                            mode,
                            parents,
                            reader,
                        ),
                        back,
                    ) && write_answers(r, back)
            },
        },
{
    let sock = match enter(sandbox_id.as_str(), registry, now) {
        Ok(s) => s,
        Err(e) => return Err(e),
    };
    let back = runner.fs_write_stream(sock, path, mode, parents, reader);
    write_response(back)
}

/// Write a file into a sandbox. The body is looked at before the sandbox is.
pub fn handle_write<R: FsRunner>(
    req: WriteRequest,
    registry: &mut SandboxRegistry,
    runner: &R,
    now: u64,
) -> (r: Result<WriteResponse, SandboxError>)
    ensures
        match body_complaint(req.content, req.content_b64) {
            Some(m) => fails(r, SandboxErrorCode::S001, m) && final(registry)@ == old(registry)@,
            None => match fs_refusal(req.sandbox_id@, old(registry)@) {
                Some(why) => fails(r, why.0, why.1) && final(registry)@ == old(registry)@,
                None => {
                    &&& final(registry)@ == fs_used(req.sandbox_id@, old(registry)@, now)
                    &&& exists|body: WriteBody, back: Result<FsReply, SandboxError>|
                        #![trigger call_ensures(
                            R::fs_write_stream,
                            (
                                runner,
                                fs_target(req.sandbox_id@, old(registry)@).shell_sock,
                                req.path,
                                req.mode,
                                req.parents,
                                body,
                            ),
                            back,
                        )]
                        {
                            &&& carries(body, req.content, req.content_b64)
                            &&& call_ensures(
                                R::fs_write_stream,
                                (
                                    runner,
                                    fs_target(req.sandbox_id@, old(registry)@).shell_sock,
                                    req.path,
                                    req.mode,
                                    req.parents,
                                    body,
                                ),
                                back,
                            )
                            &&& write_answers(r, back)
                        }
                },
            },
        },
{
    let body = match write_body(req.content, req.content_b64) {
        Ok(b) => b,
        Err(e) => return Err(e),
    };
    handle_write_with_reader(
        req.sandbox_id,
        req.path,
        req.mode,
        req.parents,
        body,
        registry,
        runner,
        now,
    )
}

} // verus!
