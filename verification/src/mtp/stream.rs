//! Download chunking and transfer progress.

use vstd::prelude::*;
use vstd::slice::slice_subrange;
use crate::ptp::pack::bytes_vec;

verus! {

/// Size of the chunks a download yields.
pub const DOWNLOAD_CHUNK_SIZE: usize = 65536;

/// Progress information for transfers.
#[derive(Debug, Clone)]
pub struct Progress {
    /// Bytes transferred so far.
    pub bytes_transferred: u64,
    /// Total bytes (if known).
    pub total_bytes: Option<u64>,
}

/// A downloaded file, handed out in chunks of at most 64 KiB.
pub struct DownloadStream {
    data: Option<Vec<u8>>,
    total_size: u64,
    chunk_size: usize,
    position: u64,
}

impl DownloadStream {
    /// The bytes still held, if any.
    pub closed spec fn held(&self) -> Option<Seq<u8>> {
        match self.data {
            Some(d) => Some(d@),
            None => None,
        }
    }

    /// The number of bytes handed out so far.
    pub closed spec fn position(&self) -> u64 {
        self.position
    }

    /// The total number of bytes of the download.
    pub closed spec fn total(&self) -> u64 {
        self.total_size
    }

    /// Well-formedness: chunks of 64 KiB, the position within the download,
    /// and held bytes that are the whole download.
    pub closed spec fn wf(&self) -> bool {
        &&& self.chunk_size == DOWNLOAD_CHUNK_SIZE
        &&& self.position <= self.total_size
        &&& self.data matches Some(d) ==> d@.len() == self.total_size
    }

    /// Create a stream over the downloaded bytes.
    pub fn new(data: Vec<u8>) -> (r: Self)
        requires
            data@.len() <= u64::MAX,
        ensures
            r.wf(),
            r.held() == Some(data@),
            r.position() == 0,
            r.total() == data@.len(),
    {
        let total_size = data.len() as u64;
        DownloadStream { data: Some(data), total_size, chunk_size: DOWNLOAD_CHUNK_SIZE, position: 0 }
    }

    /// Total size of the download.
    pub fn total_size(&self) -> (r: u64)
        ensures
            r == self.total(),
    {
        self.total_size
    }

    /// All the bytes of the download, or nothing once the stream has given
    /// them out.
    pub fn into_data(self) -> (r: Vec<u8>)
        ensures
            r@ == (match self.held() {
                Some(d) => d,
                None => Seq::empty(),
            }),
    {
        match self.data {
            Some(d) => d,
            None => Vec::new(),
        }
    }

    /// The next chunk and the number of bytes handed out after it, or `None`
    /// when the download is exhausted. A chunk is the next at most 64 KiB
    /// after the bytes handed out so far; the bytes are let go with the last
    /// chunk.
    pub fn next_chunk(&mut self) -> (r: Option<(Vec<u8>, u64)>)
        requires
            old(self).wf(),
        ensures
            final(self).wf(),
            final(self).total() == old(self).total(),
            match old(self).held() {
                None => r is None && final(self).held() is None && final(self).position() == old(self).position(),
                Some(d) => if old(self).position() >= old(self).total() {
                    r is None && final(self).held() is None && final(self).position() == old(self).position()
                } else {
                    let end = chunk_end(d.len() as int, old(self).position() as int);
                    &&& r matches Some((chunk, so_far)) && chunk@ == d.subrange(old(self).position() as int, end)
                        && so_far == end
                    &&& final(self).position() == end
                    &&& final(self).held() == (if end < d.len() { Some(d) } else { None::<Seq<u8>> })
                },
            },
    {
        let data = match self.data.take() {
            Some(d) => d,
            None => return None,
        };
        if self.position >= self.total_size {
            return None;
        }
        let start = self.position as usize;
        let end = if data.len() - start > self.chunk_size { start + self.chunk_size } else { data.len() };
        let chunk = bytes_vec(slice_subrange(data.as_slice(), start, end));
        self.position = end as u64;
        if self.position < self.total_size {
            self.data = Some(data);
        }
        Some((chunk, self.position))
    }
}

/// Where the chunk that starts at `p` ends, in a download of `len` bytes.
pub open spec fn chunk_end(len: int, p: int) -> int {
    if p + DOWNLOAD_CHUNK_SIZE < len {
        p + DOWNLOAD_CHUNK_SIZE
    } else {
        len
    }
}

/// The chunks a download hands out from position `p` on, in order.
pub open spec fn remaining_chunks(d: Seq<u8>, p: int) -> Seq<Seq<u8>>
    decreases d.len() - p,
{
    if p < 0 || p >= d.len() {
        Seq::empty()
    } else {
        seq![d.subrange(p, chunk_end(d.len() as int, p))] + remaining_chunks(d, chunk_end(d.len() as int, p))
    }
}

/// The chunks of a download, from any position on, are nonempty, hold at
/// most 64 KiB each, and run together to exactly the bytes from that
/// position to the end.
pub proof fn lemma_chunks_cover_download(d: Seq<u8>, p: int)
    requires
        0 <= p <= d.len(),
    ensures
        remaining_chunks(d, p).flatten() == d.subrange(p, d.len() as int),
        forall|i: int| 0 <= i < remaining_chunks(d, p).len() ==> 0 < (#[trigger] remaining_chunks(d, p)[i]).len()
            <= DOWNLOAD_CHUNK_SIZE,
    decreases d.len() - p,
{
    if p < d.len() {
        let e = chunk_end(d.len() as int, p);
        lemma_chunks_cover_download(d, e);
        let rest = remaining_chunks(d, e);
        let all = remaining_chunks(d, p);
        assert(all.drop_first() =~= rest);
        assert(d.subrange(p, d.len() as int) =~= d.subrange(p, e) + d.subrange(e, d.len() as int));
        assert forall|i: int| 0 <= i < all.len() implies 0 < (#[trigger] all[i]).len() <= DOWNLOAD_CHUNK_SIZE by {
            if i > 0 {
                assert(all[i] == rest[i - 1]);
            }
        }
    } else {
        assert(d.subrange(p, d.len() as int) =~= Seq::<u8>::empty());
    }
}

} // verus!
