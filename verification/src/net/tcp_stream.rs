//! TCP streams: the read and write futures they hand out, and the loop of
//! `write_all`.

use vstd::prelude::*;
use crate::net::future::{ReadFuture, WriteFuture};

verus! {

/// A connected TCP stream, known by its file descriptor.
pub struct TcpStream {
    pub file_descriptor: i32,
}

/// Why `write_all` failed.
#[derive(Clone, Copy, Debug, PartialEq, Eq, Structural)]
pub enum WriteAllError {
    /// A write returned zero bytes while some were left to write.
    WriteZero,
    /// A write failed with this error number.
    Os(i32),
}

/// Progress of writing a whole buffer of `total` bytes: the first `written`
/// bytes have been written.
pub struct WriteAll {
    pub file_descriptor: i32,
    pub total: usize,
    pub written: usize,
}

/// What recording the result of one write gives: `None` while bytes remain
/// to be written, the final result otherwise.
pub open spec fn write_all_step(total: usize, written: usize, result: Result<usize, i32>) -> (usize, Option<Result<(), WriteAllError>>) {
    match result {
        Err(e) => (written, Some(Err(WriteAllError::Os(e)))),
        Ok(n) => if n == 0 {
            (written, Some(Err(WriteAllError::WriteZero)))
        } else if written + n == total {
            ((written + n) as usize, Some(Ok(())))
        } else {
            ((written + n) as usize, None)
        },
    }
}

impl TcpStream {
    /// Wraps a connected socket.
    pub fn new(file_descriptor: i32) -> (s: Self)
        ensures
            s.file_descriptor == file_descriptor,
    {
        TcpStream { file_descriptor }
    }

    /// A future reading from this stream into a buffer of `buffer_len` bytes.
    pub fn read(&self, buffer_len: usize) -> (f: ReadFuture)
        ensures
            f.file_descriptor == self.file_descriptor,
            f.buffer_len == buffer_len,
            f.registration is None,
    {
        ReadFuture::new(self.file_descriptor, buffer_len)
    }

    /// A future writing a buffer of `buffer_len` bytes to this stream.
    pub fn write(&self, buffer_len: usize) -> (f: WriteFuture)
        ensures
            f.file_descriptor == self.file_descriptor,
            f.buffer_len == buffer_len,
            f.registration is None,
    {
        WriteFuture::new(self.file_descriptor, buffer_len)
    }

    /// Starts writing a whole buffer of `buffer_len` bytes to this stream.
    pub fn write_all(&self, buffer_len: usize) -> (w: WriteAll)
        ensures
            w.file_descriptor == self.file_descriptor,
            w.total == buffer_len,
            w.written == 0,
    {
        WriteAll { file_descriptor: self.file_descriptor, total: buffer_len, written: 0 }
    }
}

impl WriteAll {
    /// Where the next write starts in the buffer, or `None` once the whole
    /// buffer is written (then `write_all` succeeds).
    pub fn next_write(&self) -> (start: Option<usize>)
        ensures
            start == if self.written < self.total { Some(self.written) } else { None::<usize> },
    {
        if self.written < self.total {
            Some(self.written)
        } else {
            None
        }
    }

    /// The write future for the rest of the buffer.
    pub fn write(&self) -> (f: WriteFuture)
        requires
            self.written <= self.total,
        ensures
            f.file_descriptor == self.file_descriptor,
            f.buffer_len == self.total - self.written,
            f.registration is None,
    {
        WriteFuture::new(self.file_descriptor, self.total - self.written)
    }

    /// Records the result of writing the rest of the buffer: an error ends
    /// `write_all` with it; zero bytes ends it with `WriteZero`; otherwise the
    /// bytes count as written and it succeeds once none remains.
    pub fn record_write(&mut self, result: Result<usize, i32>) -> (done: Option<Result<(), WriteAllError>>)
        requires
            old(self).written < old(self).total,
            match result {
                Ok(n) => n <= old(self).total - old(self).written,
                Err(_) => true,
            },
        ensures
            final(self).file_descriptor == old(self).file_descriptor,
            final(self).total == old(self).total,
            (final(self).written, done) == write_all_step(old(self).total, old(self).written, result),
    {
        match result {
            Err(e) => Some(Err(WriteAllError::Os(e))),
            Ok(n) => {
                if n == 0 {
                    return Some(Err(WriteAllError::WriteZero));
                }
                self.written = self.written + n;
                if self.written == self.total {
                    Some(Ok(()))
                } else {
                    None
                }
            },
        }
    }
}

/// Feeds the results of successive writes to `write_all` from `written`
/// bytes written out of `total`: the result it ends with, if it ends.
pub open spec fn write_all_run(total: usize, written: usize, results: Seq<Result<usize, i32>>) -> Option<Result<(), WriteAllError>>
    decreases results.len(),
{
    if results.len() == 0 {
        None
    } else {
        let (w, done) = write_all_step(total, written, results[0]);
        match done {
            Some(r) => Some(r),
            None => write_all_run(total, w, results.drop_first()),
        }
    }
}

/// Sum of the byte counts of successful writes.
pub open spec fn written_sum(results: Seq<Result<usize, i32>>) -> int
    decreases results.len(),
{
    if results.len() == 0 {
        0
    } else {
        (match results[0] {
            Ok(n) => n as int,
            Err(_) => 0,
        }) + written_sum(results.drop_first())
    }
}

/// `write_all` succeeds once successive writes, each of at least one byte,
/// add up to what remained to be written.
pub proof fn lemma_write_all_succeeds(total: usize, written: usize, results: Seq<Result<usize, i32>>)
    requires
        written < total,
        results.len() > 0,
        forall|i: int| 0 <= i < results.len() ==> (#[trigger] results[i] matches Ok(n) && n > 0),
        written_sum(results) == total - written,
    ensures
        write_all_run(total, written, results) == Some(Ok::<(), WriteAllError>(())),
    decreases results.len(),
{
    let n = results[0]->Ok_0;
    lemma_written_sum_positive(results.drop_first());
    assert forall|i: int| 0 <= i < results.drop_first().len() implies (#[trigger] results.drop_first()[i] matches Ok(m) && m > 0) by {
        assert(results.drop_first()[i] == results[i + 1]);
    }
    if written + n == total {
        assert(write_all_step(total, written, results[0]).1 == Some(Ok::<(), WriteAllError>(())));
    } else {
        assert(results.drop_first().len() > 0);
        lemma_write_all_succeeds(total, (written + n) as usize, results.drop_first());
    }
}

/// A run of successful writes of at least one byte each sums to at least
/// its length.
pub proof fn lemma_written_sum_positive(results: Seq<Result<usize, i32>>)
    requires
        forall|i: int| 0 <= i < results.len() ==> (#[trigger] results[i] matches Ok(n) && n > 0),
    ensures
        written_sum(results) >= results.len(),
    decreases results.len(),
{
    if results.len() > 0 {
        assert forall|i: int| 0 <= i < results.drop_first().len() implies (#[trigger] results.drop_first()[i] matches Ok(m) && m > 0) by {
            assert(results.drop_first()[i] == results[i + 1]);
        }
        lemma_written_sum_positive(results.drop_first());
    }
}

/// A failed write ends `write_all` with that write's error, however much was
/// written before; `write_all` ends successfully only once every byte is
/// written; and it goes on only after a write of at least one byte that
/// leaves some bytes to write.
pub proof fn lemma_write_all_step_outcomes(total: usize, written: usize, result: Result<usize, i32>)
    requires
        written < total,
        match result {
            Ok(n) => n <= total - written,
            Err(_) => true,
        },
    ensures
        result matches Err(e) ==> write_all_step(total, written, result)
            == (written, Some(Err::<(), WriteAllError>(WriteAllError::Os(e)))),
        write_all_step(total, written, result).1 == Some(Ok::<(), WriteAllError>(())) ==> {
            &&& result matches Ok(n)
            &&& written + n == total
            &&& write_all_step(total, written, result).0 == total
        },
        write_all_step(total, written, result).1 is None ==> {
            &&& result matches Ok(n)
            &&& n > 0
            &&& written + n < total
            &&& write_all_step(total, written, result).0 == written + n
        },
        write_all_step(total, written, result).0 <= total,
{
}

/// Whether each write of `results` writes no more than remained (what a
/// write of the rest of the buffer does).
pub open spec fn writes_fit(total: usize, written: usize, results: Seq<Result<usize, i32>>) -> bool
    decreases results.len(),
{
    results.len() == 0 || match results[0] {
        Ok(n) => n <= total - written && writes_fit(total, (written + n) as usize, results.drop_first()),
        Err(_) => true,
    }
}

/// `write_all` never ends successfully with bytes left unwritten: if a run of
/// writes ends in success, its first writes all succeeded and add up to what
/// remained to be written.
pub proof fn lemma_write_all_success_writes_everything(total: usize, written: usize, results: Seq<Result<usize, i32>>)
    requires
        written <= total,
        writes_fit(total, written, results),
        write_all_run(total, written, results) == Some(Ok::<(), WriteAllError>(())),
    ensures
        exists|k: int| 0 < k <= results.len() && written + written_sum(results.take(k)) == total
            && forall|i: int| 0 <= i < k ==> (#[trigger] results[i]) is Ok,
    decreases results.len(),
{
    let (w, done) = write_all_step(total, written, results[0]);
    assert(results[0] is Ok);
    let n = results[0]->Ok_0;
    let one = results.take(1);
    assert(one[0] == results[0]);
    assert(one.drop_first() =~= Seq::<Result<usize, i32>>::empty());
    assert(written_sum(one.drop_first()) == 0);
    assert(written_sum(one) == n);
    if done is Some {
        assert(written + n == total);
        assert(forall|i: int| 0 <= i < 1 ==> (#[trigger] results[i]) is Ok);
    } else {
        let rest = results.drop_first();
        lemma_write_all_success_writes_everything(total, w, rest);
        let k = choose|k: int| 0 < k <= rest.len() && w + written_sum(rest.take(k)) == total
            && forall|i: int| 0 <= i < k ==> (#[trigger] rest[i]) is Ok;
        let longer = results.take(k + 1);
        assert(longer.drop_first() =~= rest.take(k));
        assert(longer[0] == results[0]);
        assert(written_sum(longer) == n + written_sum(rest.take(k)));
        assert forall|i: int| 0 <= i < k + 1 implies (#[trigger] results[i]) is Ok by {
            if i > 0 {
                assert(results[i] == rest[i - 1]);
            }
        }
    }
}

} // verus!
