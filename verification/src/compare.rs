//! Chunk-by-chunk comparison of two files: the buffers that the reads fill
//! and the verdict on each pair of chunks.

use vstd::prelude::*;

verus! {

/// The size of the chunks that are read and compared (128 KiB).
pub const FILE_COMPARE_CHUNK_SIZE: usize = 131072;

/// The verdict on a pair of chunks read from the same position of two files.
#[derive(Debug, Clone, Copy, PartialEq, Eq, Structural)]
pub enum ChunkVerdict {
    /// The files differ.
    Different,
    /// Both files ended together with equal contents.
    Equal,
    /// The chunks are equal and both files go on: read the next pair.
    Continue,
}

/// The verdict on chunks `a` and `b`: different lengths or contents mean
/// different files; two empty chunks mean that both files ended together.
pub open spec fn chunk_verdict_spec(a: Seq<u8>, b: Seq<u8>) -> ChunkVerdict {
    if a.len() != b.len() || a != b {
        ChunkVerdict::Different
    } else if a.len() == 0 {
        ChunkVerdict::Equal
    } else {
        ChunkVerdict::Continue
    }
}

/// Reusable buffers for comparing files.
#[derive(Debug)]
pub struct FileComparator {
    pub buf1: Vec<u8>,
    pub buf2: Vec<u8>,
}

impl FileComparator {
    /// A comparator with empty buffers (they grow on first use).
    pub fn new() -> (r: Self)
        ensures
            r.buf1@.len() == 0,
            r.buf2@.len() == 0,
    {
        FileComparator { buf1: Vec::new(), buf2: Vec::new() }
    }

    /// Brings both buffers to the chunk size, keeping a buffer that already
    /// has it as it is.
    pub fn prepare(&mut self)
        ensures
            final(self).buf1@.len() == FILE_COMPARE_CHUNK_SIZE,
            final(self).buf2@.len() == FILE_COMPARE_CHUNK_SIZE,
            old(self).buf1@.len() == FILE_COMPARE_CHUNK_SIZE ==> final(self).buf1@ == old(self).buf1@,
            old(self).buf2@.len() == FILE_COMPARE_CHUNK_SIZE ==> final(self).buf2@ == old(self).buf2@,
    {
        if self.buf1.len() != FILE_COMPARE_CHUNK_SIZE {
            self.buf1.resize(FILE_COMPARE_CHUNK_SIZE, 0);
        }
        if self.buf2.len() != FILE_COMPARE_CHUNK_SIZE {
            self.buf2.resize(FILE_COMPARE_CHUNK_SIZE, 0);
        }
    }

    /// The verdict on the first `n1` bytes of the first buffer and the
    /// first `n2` bytes of the second, as read from the two files.
    pub fn chunk_verdict(&self, n1: usize, n2: usize) -> (r: ChunkVerdict)
        requires
            n1 <= self.buf1@.len(),
            n2 <= self.buf2@.len(),
        ensures
            r == chunk_verdict_spec(self.buf1@.subrange(0, n1 as int), self.buf2@.subrange(0, n2 as int)),
    {
        let ghost a = self.buf1@.subrange(0, n1 as int);
        let ghost b = self.buf2@.subrange(0, n2 as int);
        if n1 != n2 {
            return ChunkVerdict::Different;
        }
        let mut i: usize = 0;
        while i < n1
            invariant
                n1 == n2,
                n1 <= self.buf1@.len(),
                n2 <= self.buf2@.len(),
                i <= n1,
                a == self.buf1@.subrange(0, n1 as int),
                b == self.buf2@.subrange(0, n2 as int),
                forall|j: int| 0 <= j < i ==> self.buf1@[j] == self.buf2@[j],
            decreases n1 - i,
        {
            if self.buf1[i] != self.buf2[i] {
                assert(a[i as int] != b[i as int]);
                return ChunkVerdict::Different;
            }
            i = i + 1;
        }
        assert(a =~= b);
        if n1 == 0 { ChunkVerdict::Equal } else { ChunkVerdict::Continue }
    }
}

/// Comparing a file with an identical copy never finds a difference: equal
/// chunks give `Equal` at the common end and `Continue` before it.
pub proof fn law_equal_chunks_never_differ(a: Seq<u8>)
    ensures
        chunk_verdict_spec(a, a) != ChunkVerdict::Different,
        chunk_verdict_spec(a, a) == (if a.len() == 0 { ChunkVerdict::Equal } else { ChunkVerdict::Continue }),
{
}

} // verus!
