//! The accounts of a streamed download, and the verdict on it.
use vstd::prelude::*;

use crate::error::UpdaterError;

verus! {

/// Sum of the chunk lengths in `chunks`.
pub open spec fn total_len(chunks: Seq<nat>) -> nat
    decreases chunks.len(),
{
    if chunks.len() == 0 {
        0
    } else {
        total_len(chunks.drop_last()) + chunks.last()
    }
}

/// The accounts of one streamed download: the declared length, the file, and
/// the chunks written to it.
///
/// The program streams the body: it writes each chunk to the destination file
/// and reports here what happened, and it stops when `chunk_written` says so.
pub struct Download {
    /// Length of the body as the server declared it.
    pub total_bytes: u64,
    /// Bytes written so far, up to `total_bytes`: the position shown to the user.
    pub bytes_downloaded: u64,
    /// More bytes were written than the server declared.
    pub overrun: bool,
    /// The destination file was created.
    pub file_created: bool,
    /// No further chunk is taken: the stream failed, or a write did.
    pub stopped: bool,
    /// The lengths of the chunks written to the file, in order.
    pub chunks: Ghost<Seq<nat>>,
}

impl Download {
    /// Bytes written to the file in all.
    pub open spec fn bytes_written(&self) -> nat {
        total_len(self.chunks@)
    }

    pub open spec fn wf(&self) -> bool {
        &&& self.overrun == (self.bytes_written() > self.total_bytes)
        &&& self.bytes_downloaded == if self.overrun {
            self.total_bytes as nat
        } else {
            self.bytes_written()
        }
        &&& !self.file_created ==> self.chunks@.len() == 0
    }

    /// Accounts for a body of `content_length` bytes; a body of unknown length
    /// is refused, as its completeness could not be checked.
    pub fn start(content_length: Option<u64>) -> (r: Result<Download, UpdaterError>)
        ensures
            content_length is None <==> r is Err,
            r matches Err(e) ==> e == UpdaterError::SizeUnknown,
            r matches Ok(d) ==> {
                &&& d.wf()
                &&& d.total_bytes == content_length->0
                &&& d.chunks@ == Seq::<nat>::empty()
                &&& d.bytes_downloaded == 0
                &&& !d.file_created
                &&& !d.stopped
            },
    {
        match content_length {
            None => Err(UpdaterError::SizeUnknown),
            Some(total) => Ok(
                Download {
                    total_bytes: total,
                    bytes_downloaded: 0,
                    overrun: false,
                    file_created: false,
                    stopped: false,
                    chunks: Ghost(Seq::empty()),
                },
            ),
        }
    }

    /// Takes note of the attempt to create the destination file; failing to
    /// create it fails the download.
    pub fn file_opened(&mut self, created: bool) -> (r: Result<(), UpdaterError>)
        requires
            old(self).wf(),
        ensures
            final(self).wf(),
            r is Ok <==> created,
            r matches Err(e) ==> e == UpdaterError::Filesystem,
            *final(self) == (Download { file_created: old(self).file_created || created, ..*old(self) }),
    {
        if created {
            self.file_created = true;
            Ok(())
        } else {
            Err(UpdaterError::Filesystem)
        }
    }

    /// Takes note of one chunk of `len` bytes that was written to the file
    /// (`write_ok`) or that could not be; returns whether to take the next one.
    /// A failed write stops the download; so does any chunk before the file
    /// exists or after the download stopped.
    pub fn chunk_written(&mut self, len: u64, write_ok: bool) -> (go_on: bool)
        requires
            old(self).wf(),
        ensures
            final(self).wf(),
            final(self).total_bytes == old(self).total_bytes,
            final(self).file_created == old(self).file_created,
            old(self).bytes_downloaded <= final(self).bytes_downloaded,
            go_on == !final(self).stopped,
            if old(self).stopped || !old(self).file_created {
                *final(self) == (Download { stopped: true, ..*old(self) })
            } else if !write_ok {
                *final(self) == (Download { stopped: true, ..*old(self) })
            } else {
                &&& final(self).chunks@ == old(self).chunks@.push(len as nat)
                &&& !final(self).stopped
            },
    {
        if self.stopped || !self.file_created || !write_ok {
            self.stopped = true;
            return false;
        }
        let ghost before = self.chunks@;
        self.chunks = Ghost(self.chunks@.push(len as nat));
        assert(self.chunks@.drop_last() =~= before);
        if !self.overrun {
            if len > self.total_bytes - self.bytes_downloaded {
                self.overrun = true;
                self.bytes_downloaded = self.total_bytes;
            } else {
                self.bytes_downloaded = self.bytes_downloaded + len;
            }
        }
        true
    }

    /// Takes note that the stream of chunks failed: nothing more is taken.
    pub fn stream_failed(&mut self)
        requires
            old(self).wf(),
        ensures
            final(self).wf(),
            *final(self) == (Download { stopped: true, ..*old(self) }),
    {
        self.stopped = true;
    }

    /// The verdict once the stream ends, by exhaustion or early: success only
    /// where the file was created and exactly the declared number of bytes was
    /// written to it.
    pub fn finish(&self) -> (r: Result<(), UpdaterError>)
        requires
            self.wf(),
        ensures
            r is Ok <==> self.file_created && self.bytes_written() == self.total_bytes,
            r matches Err(e) ==> (e == if self.file_created {
                UpdaterError::IncompleteDownload
            } else {
                UpdaterError::Filesystem
            }),
    {
        if !self.file_created {
            Err(UpdaterError::Filesystem)
        } else if self.overrun || self.bytes_downloaded != self.total_bytes {
            Err(UpdaterError::IncompleteDownload)
        } else {
            Ok(())
        }
    }
}

} // verus!
