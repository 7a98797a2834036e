//! The streaming transfer: temporary-path derivation and the bookkeeping of
//! a download that is published atomically.
//!
//! Bytes are first streamed into a temporary file whose name is derived
//! deterministically from the destination ([`derive_temp_path`]), so a crash
//! leaves a recognizably incomplete artifact instead of a truncated final
//! file. A [`Transfer`] tracks one attempt: the phases it moves through, the
//! monotone byte counter, the optional known total, and (as ghost state) the
//! exact bytes streamed so far. The single visibility-changing step is the
//! rename recorded by [`Transfer::publish`]; on failure the temporary file is
//! left in place, never cleaned up, so the bytes written remain recoverable.

use vstd::prelude::*;

use crate::text::tail_after_last;
use crate::text::last_sep_cut;

verus! {

/// The temporary path for a destination: the destination's file name with
/// `.part` inserted before its extension (`a/b/video.mp4` becomes
/// `a/b/video.part.mp4`), or appended when there is no extension
/// (`a/b/video` becomes `a/b/video.part`). A destination without a file
/// name falls back to `video.part.mp4` in the same directory. A file name
/// has an extension when it holds a `.` past its first character.
pub open spec fn spec_temp_path(dest: Seq<char>) -> Seq<char> {
    let name = tail_after_last(dest, '/');
    if name.len() == 0 {
        dest + "video.part.mp4"@
    } else {
        let ext = tail_after_last(name, '.');
        if ext.len() < name.len() - 1 {
            dest.subrange(0, dest.len() - ext.len() - 1) + ".part."@ + ext
        } else {
            dest + ".part"@
        }
    }
}

/// Derives the temporary in-progress path from the destination path.
pub fn derive_temp_path(dest: &str) -> (r: String)
    ensures
        r@ == spec_temp_path(dest@),
{
    let len = dest.unicode_len();
    let cut = last_sep_cut(dest, '/');
    if cut == len {
        let mut r = dest.to_owned();
        r.append("video.part.mp4");
        proof {
            assert(tail_after_last(dest@, '/').len() == 0);
        }
        return r;
    }
    let name = dest.substring_char(cut, len);
    let dcut = last_sep_cut(name, '.');
    proof {
        assert(tail_after_last(dest@, '/') == name@);
        assert(tail_after_last(name@, '.').len() == name@.len() - dcut);
    }
    if dcut > 1 {
        let mut r = dest.substring_char(0, cut + dcut - 1).to_owned();
        r.append(".part.");
        let tail = dest.substring_char(cut + dcut, len);
        r.append(tail);
        proof {
            let ext = tail_after_last(name@, '.');
            assert(ext == name@.subrange(dcut as int, name@.len() as int));
            assert(tail@ =~= ext);
            assert(cut + dcut - 1 == dest@.len() - ext.len() - 1);
            assert(r@ == dest@.subrange(0, dest@.len() - ext.len() - 1) + ".part."@ + ext);
        }
        r
    } else {
        let mut r = dest.to_owned();
        r.append(".part");
        proof {
            let ext = tail_after_last(name@, '.');
            assert(ext.len() == name@.len() - dcut);
            assert(!(ext.len() < name@.len() - 1));
        }
        r
    }
}

/// The total number of bytes across all chunks, in arrival order.
pub open spec fn sum_of_lens(chunks: Seq<Seq<u8>>) -> int
    decreases chunks.len(),
{
    if chunks.len() == 0 {
        0
    } else {
        sum_of_lens(chunks.drop_last()) + chunks.last().len()
    }
}

/// Streaming chunks in arrival order yields exactly their concatenation:
/// however the bytes are split into chunks, the assembled content's length
/// is the sum of the chunk lengths.
pub proof fn lemma_content_length(chunks: Seq<Seq<u8>>)
    ensures
        chunks.flatten().len() == sum_of_lens(chunks),
    decreases chunks.len(),
{
    if chunks.len() > 0 {
        lemma_content_length(chunks.drop_last());
        assert(chunks.drop_last().push(chunks.last()) =~= chunks);
        chunks.drop_last().lemma_flatten_push(chunks.last());
    }
}

/// Where a single transfer attempt stands. `Published` and `Failed` are
/// terminal: there is no retry transition.
#[derive(Clone, Copy, Debug, PartialEq, Eq, Structural)]
pub enum TransferPhase {
    /// Nothing sent yet; request setup may still fail.
    Idle,
    /// The request is out and the response headers have arrived.
    HeadersSent,
    /// Body chunks are arriving and being appended to the temporary file.
    Streaming,
    /// The body ended and the temporary file is flushed and closed.
    Flushed,
    /// The temporary file was renamed to the destination: the one
    /// visibility-changing step.
    Published,
    /// A transport or filesystem error ended the attempt; the temporary
    /// file keeps the bytes streamed so far.
    Failed,
}

/// The bookkeeping of one download attempt.
///
/// The driver performing the actual I/O advances a `Transfer` in lock step:
/// the ghost `chunks` mirror the bytes appended to the temporary file, and
/// `downloaded` is always the length of their concatenation, so the byte
/// counter reported on every phase equals the bytes on disk.
pub struct Transfer {
    /// Where the attempt stands.
    pub phase: TransferPhase,
    /// Bytes appended to the temporary file so far; monotone.
    pub downloaded: u64,
    /// The declared content length, when the response carried one; drives a
    /// determinate progress display, `None` means indeterminate.
    pub total: Option<u64>,
    /// The body chunks streamed so far, in arrival order.
    pub chunks: Ghost<Seq<Seq<u8>>>,
}

impl Transfer {
    /// The bytes the temporary file holds: the chunks' concatenation.
    pub open spec fn content(&self) -> Seq<u8> {
        self.chunks@.flatten()
    }

    /// The byte counter always equals the temporary file's length, and
    /// before the response headers arrive nothing has been written.
    pub open spec fn wf(&self) -> bool {
        &&& self.downloaded as int == self.content().len()
        &&& (self.phase == TransferPhase::Idle || self.phase == TransferPhase::HeadersSent)
            ==> self.chunks@.len() == 0
    }

    /// A fresh attempt: idle, nothing downloaded, no known total.
    pub fn new() -> (t: Transfer)
        ensures
            t.phase == TransferPhase::Idle,
            t.downloaded == 0,
            t.total is None,
            t.chunks@ == Seq::<Seq<u8>>::empty(),
            t.wf(),
    {
        let t = Transfer {
            phase: TransferPhase::Idle,
            downloaded: 0,
            total: None,
            chunks: Ghost(Seq::empty()),
        };
        proof {
            assert(t.chunks@.flatten() =~= Seq::<u8>::empty());
        }
        t
    }

    /// Records that the response headers arrived, with its declared content
    /// length when present.
    pub fn headers_sent(&mut self, total: Option<u64>)
        requires
            old(self).wf(),
            old(self).phase == TransferPhase::Idle,
        ensures
            final(self).phase == TransferPhase::HeadersSent,
            final(self).total == total,
            final(self).downloaded == old(self).downloaded,
            final(self).chunks == old(self).chunks,
            final(self).wf(),
    {
        self.phase = TransferPhase::HeadersSent;
        self.total = total;
    }

    /// Records one body chunk appended to the temporary file: the content
    /// grows by exactly the chunk and the counter by its length.
    pub fn record_chunk(&mut self, chunk: &[u8])
        requires
            old(self).wf(),
            old(self).phase == TransferPhase::HeadersSent || old(self).phase
                == TransferPhase::Streaming,
            old(self).downloaded + chunk@.len() <= u64::MAX,
        ensures
            final(self).phase == TransferPhase::Streaming,
            final(self).chunks@ == old(self).chunks@.push(chunk@),
            final(self).content() == old(self).content() + chunk@,
            final(self).downloaded == old(self).downloaded + chunk@.len(),
            final(self).total == old(self).total,
            final(self).wf(),
    {
        self.phase = TransferPhase::Streaming;
        self.downloaded = self.downloaded + chunk.len() as u64;
        proof {
            self.chunks@.lemma_flatten_push(chunk@);
        }
        self.chunks = Ghost(self.chunks@.push(chunk@));
    }

    /// Records the end of the body: the temporary file is flushed and
    /// closed with its content unchanged.
    pub fn finish_stream(&mut self)
        requires
            old(self).wf(),
            old(self).phase == TransferPhase::HeadersSent || old(self).phase
                == TransferPhase::Streaming,
        ensures
            final(self).phase == TransferPhase::Flushed,
            final(self).downloaded == old(self).downloaded,
            final(self).total == old(self).total,
            final(self).chunks == old(self).chunks,
            final(self).wf(),
    {
        self.phase = TransferPhase::Flushed;
    }

    /// Records the rename of the temporary file to the destination and
    /// returns the byte count: the published file is exactly the streamed
    /// chunks' concatenation, and its length their summed lengths.
    pub fn publish(&mut self) -> (n: u64)
        requires
            old(self).wf(),
            old(self).phase == TransferPhase::Flushed,
        ensures
            final(self).phase == TransferPhase::Published,
            final(self).downloaded == old(self).downloaded,
            final(self).total == old(self).total,
            final(self).chunks == old(self).chunks,
            final(self).wf(),
            n == final(self).downloaded,
            n as int == final(self).content().len(),
            n as int == sum_of_lens(final(self).chunks@),
    {
        self.phase = TransferPhase::Published;
        proof {
            lemma_content_length(self.chunks@);
        }
        self.downloaded
    }

    /// Records a transport or filesystem failure: terminal, and the
    /// temporary file — hence the recorded content — is left exactly as it
    /// was, for diagnosis or manual resumption.
    pub fn fail(&mut self)
        requires
            old(self).wf(),
            old(self).phase != TransferPhase::Published,
        ensures
            final(self).phase == TransferPhase::Failed,
            final(self).downloaded == old(self).downloaded,
            final(self).total == old(self).total,
            final(self).chunks == old(self).chunks,
            final(self).content() == old(self).content(),
            final(self).wf(),
    {
        self.phase = TransferPhase::Failed;
    }
}

} // verus!
