use vstd::prelude::*;

verus! {

/// Why a download attempt failed.
#[derive(Clone, Copy, PartialEq, Eq, Structural, Debug)]
pub enum FetchError {
    /// The HTTP response carried a non-success status.
    Network,
    /// The destination file could not be opened or written.
    Io,
}

/// True when an HTTP status code counts as success (the 2xx range).
pub open spec fn status_is_success(status: u16) -> bool {
    200 <= status < 300
}

/// Decides from the HTTP status code whether the streamed body may be
/// stored; a non-success status is a network failure for this attempt.
pub fn check_status(status: u16) -> (r: Result<(), FetchError>)
    ensures
        r is Ok <==> status_is_success(status),
        r is Err ==> r == Err::<(), FetchError>(FetchError::Network),
{
    if 200 <= status && status < 300 {
        Ok(())
    } else {
        Err(FetchError::Network)
    }
}

/// Running account of a streamed transfer: bytes received so far and the
/// total the server declared, if it declared one.
pub struct TransferProgress {
    /// Bytes received over all chunks so far.
    pub transferred: u64,
    /// Content length announced by the server, when known.
    pub total_expected: Option<u64>,
}

/// Total length of a sequence of chunks.
pub open spec fn sum_lens(chunks: Seq<Seq<u8>>) -> int
    decreases chunks.len(),
{
    if chunks.len() == 0 {
        0
    } else {
        chunks[0].len() + sum_lens(chunks.drop_first())
    }
}

/// All chunks laid end to end, in order: the bytes the destination file
/// holds after the stream is stored.
pub open spec fn concat_chunks(chunks: Seq<Seq<u8>>) -> Seq<u8>
    decreases chunks.len(),
{
    if chunks.len() == 0 {
        Seq::empty()
    } else {
        chunks[0] + concat_chunks(chunks.drop_first())
    }
}

/// The bytes written to the destination are exactly as many as the progress
/// increments report: the concatenation of all chunks has the chunks'
/// summed length.
pub proof fn lemma_written_matches_progress(chunks: Seq<Seq<u8>>)
    ensures
        concat_chunks(chunks).len() == sum_lens(chunks),
    decreases chunks.len(),
{
    if chunks.len() > 0 {
        lemma_written_matches_progress(chunks.drop_first());
    }
}

impl TransferProgress {
    /// A fresh account for one transfer, before any chunk arrived.
    pub fn new(total_expected: Option<u64>) -> (r: TransferProgress)
        ensures
            r.transferred == 0,
            r.total_expected == total_expected,
    {
        TransferProgress { transferred: 0, total_expected }
    }

    /// Records one received chunk of `n` bytes.
    pub fn record_chunk(&mut self, n: u64)
        requires
            old(self).transferred + n <= u64::MAX,
        ensures
            final(self).transferred == old(self).transferred + n,
            final(self).total_expected == old(self).total_expected,
    {
        self.transferred = self.transferred + n;
    }

    /// Reports whether the declared total, if any, has been reached exactly.
    pub fn reached_declared_total(&self) -> (r: bool)
        ensures
            r == (self.total_expected == Some(self.transferred)),
    {
        match self.total_expected {
            Some(t) => t == self.transferred,
            None => false,
        }
    }
}

/// Stores an already-received response body, chunk by chunk, into an
/// in-memory destination, keeping the progress account in step. The result
/// holds every chunk's bytes in arrival order, and the account's transferred
/// count equals the destination's length.
pub fn store_body(chunks: &Vec<Vec<u8>>, progress: &mut TransferProgress) -> (out: Vec<u8>)
    requires
        old(progress).transferred == 0,
        sum_lens(chunks@.map_values(|c: Vec<u8>| c@)) <= u64::MAX,
    ensures
        out@ == concat_chunks(chunks@.map_values(|c: Vec<u8>| c@)),
        final(progress).transferred == sum_lens(chunks@.map_values(|c: Vec<u8>| c@)),
        final(progress).transferred == out@.len(),
        final(progress).total_expected == old(progress).total_expected,
{
    let ghost whole: Seq<Seq<u8>> = chunks@.map_values(|c: Vec<u8>| c@);
    let mut out: Vec<u8> = Vec::new();
    let mut i: usize = 0;
    proof {
        assert(whole.skip(0) =~= whole);
    }
    while i < chunks.len()
        invariant
            0 <= i <= chunks.len(),
            whole == chunks@.map_values(|c: Vec<u8>| c@),
            whole.len() == chunks@.len(),
            sum_lens(whole) <= u64::MAX,
            out@ + concat_chunks(whole.skip(i as int)) =~= concat_chunks(whole),
            progress.transferred + sum_lens(whole.skip(i as int)) == sum_lens(whole),
            progress.transferred == out@.len(),
            progress.total_expected == old(progress).total_expected,
        decreases chunks.len() - i,
    {
        let chunk = &chunks[i];
        proof {
            let rest = whole.skip(i as int);
            assert(rest[0] == whole[i as int]);
            assert(rest.drop_first() =~= whole.skip(i + 1));
            lemma_sum_lens_nonneg(whole.skip(i + 1));
        }
        let ghost out_before: Seq<u8> = out@;
        let mut j: usize = 0;
        while j < chunk.len()
            invariant
                0 <= j <= chunk.len(),
                out@ =~= out_before + chunk@.subrange(0, j as int),
            decreases chunk.len() - j,
        {
            out.push(chunk[j]);
            assert(out@ =~= out_before + chunk@.subrange(0, j + 1));
            j = j + 1;
        }
        assert(out@ =~= out_before + chunk@) by {
            assert(chunk@.subrange(0, chunk@.len() as int) =~= chunk@);
        }
        progress.record_chunk(chunk.len() as u64);
        i = i + 1;
        proof {
            assert(out@ + concat_chunks(whole.skip(i as int)) =~= concat_chunks(whole));
        }
    }
    proof {
        assert(whole.skip(chunks@.len() as int) =~= Seq::<Seq<u8>>::empty());
    }
    out
}

/// The summed length of a chunk sequence is never negative.
proof fn lemma_sum_lens_nonneg(chunks: Seq<Seq<u8>>)
    ensures
        sum_lens(chunks) >= 0,
    decreases chunks.len(),
{
    if chunks.len() > 0 {
        lemma_sum_lens_nonneg(chunks.drop_first());
    }
}

} // verus!
