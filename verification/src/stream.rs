use vstd::prelude::*;
use crate::errors::{ErrorType, TskError};

verus! {

/// Where a bounded stream's seek request starts from: the beginning of the
/// stream, the current cursor, or the end of the stream.
#[derive(Debug, Clone, Copy, PartialEq, Eq, Structural)]
pub enum SeekFrom {
    Start(u64),
    Current(i64),
    End(i64),
}

/// The cursor position a seek request aims at, before any bounds check.
pub open spec fn seek_goal(size: int, cursor: int, pos: SeekFrom) -> int {
    match pos {
        SeekFrom::Start(o) => o as int,
        SeekFrom::Current(o) => cursor + o,
        SeekFrom::End(o) => size + o,
    }
}

/// The cursor a seek request lands on: `None` when the goal leaves `[0, size]`.
/// Out-of-range requests are rejected, never clamped.
pub open spec fn seek_outcome(size: int, cursor: int, pos: SeekFrom) -> Option<int> {
    if 0 <= seek_goal(size, cursor, pos) <= size {
        Some(seek_goal(size, cursor, pos))
    } else {
        None
    }
}

/// Law: a seek whose goal lies past `size`, or before the start, fails in
/// every mode; no out-of-range request is silently clamped to a valid cursor.
pub proof fn lemma_seek_out_of_range_fails(size: int, cursor: int, pos: SeekFrom)
    requires
        seek_goal(size, cursor, pos) > size || seek_goal(size, cursor, pos) < 0,
    ensures
        seek_outcome(size, cursor, pos) is None,
{
}

/// Law: a seek that lands in range moves the cursor to exactly its goal.
pub proof fn lemma_seek_in_range_is_exact(size: int, cursor: int, pos: SeekFrom)
    requires
        0 <= seek_goal(size, cursor, pos) <= size,
    ensures
        seek_outcome(size, cursor, pos) == Some(seek_goal(size, cursor, pos)),
{
}

/// Resolve a seek request against a stream of `size` bytes whose cursor is at
/// `cursor`, exactly as `seek_outcome` describes.
pub(crate) fn seek_target(size: u64, cursor: u64, pos: SeekFrom) -> (r: Result<u64, TskError>)
    requires
        cursor <= size,
    ensures
        match r {
            Ok(n) => seek_outcome(size as int, cursor as int, pos) == Some(n as int) && n <= size,
            Err(e) => seek_outcome(size as int, cursor as int, pos) is None && e.kind
                == ErrorType::SeekRange,
        },
{
    let goal: i128 = match pos {
        SeekFrom::Start(o) => o as i128,
        SeekFrom::Current(o) => cursor as i128 + o as i128,
        SeekFrom::End(o) => size as i128 + o as i128,
    };
    if goal < 0 || goal > size as i128 {
        Err(TskError::seek_range_error("seek goal is outside the stream's bounds".to_owned()))
    } else {
        Ok(goal as u64)
    }
}

/// How many bytes one read call hands back from a stream of `size` bytes
/// whose cursor stands at `cursor`, into a buffer of `buf_len` bytes: the
/// request is clamped to what is left before the end of the stream.
pub open spec fn read_amount(size: int, cursor: int, buf_len: int) -> int {
    if buf_len <= size - cursor {
        buf_len
    } else {
        size - cursor
    }
}

/// Law: reads never overshoot and always make progress. From a cursor inside
/// the stream and a non-empty buffer a read hands back at least one byte, the
/// cursor never passes `size`, and a read at `size` hands back zero bytes —
/// the end of the stream is not an error.
pub proof fn lemma_read_progress(size: int, cursor: int, buf_len: int)
    requires
        0 <= cursor <= size,
        0 <= buf_len,
    ensures
        0 <= read_amount(size, cursor, buf_len) <= buf_len,
        cursor + read_amount(size, cursor, buf_len) <= size,
        cursor < size && buf_len > 0 ==> read_amount(size, cursor, buf_len) > 0,
        cursor == size ==> read_amount(size, cursor, buf_len) == 0,
{
}

/// Law: from cursor zero, a buffer at least as large as the stream is filled
/// with exactly `size` bytes by one read, and the read after it hands back
/// zero bytes rather than failing.
pub proof fn lemma_full_read_then_zero(size: int, buf_len: int)
    requires
        0 <= size <= buf_len,
    ensures
        read_amount(size, 0, buf_len) == size,
        read_amount(size, size, buf_len) == 0,
{
}

/// Copy `src[start..end]` into a fresh vector.
pub(crate) fn copy_range(src: &Vec<u8>, start: usize, end: usize) -> (r: Vec<u8>)
    requires
        start <= end <= src@.len(),
    ensures
        r@ == src@.subrange(start as int, end as int),
{
    let mut out: Vec<u8> = Vec::new();
    let mut i: usize = start;
    while i < end
        invariant
            start <= i <= end <= src@.len(),
            out@ == src@.subrange(start as int, i as int),
        decreases end - i,
    {
        out.push(src[i]);
        i = i + 1;
        proof {
            assert(out@ =~= src@.subrange(start as int, i as int));
        }
    }
    out
}

/// Overwrite `dst[0..n]` with `src[src_start..src_start + n]`, leaving the
/// rest of `dst` unchanged.
pub(crate) fn fill_prefix(dst: &mut Vec<u8>, src: &Vec<u8>, src_start: usize, n: usize)
    requires
        n <= old(dst)@.len(),
        src_start + n <= src@.len(),
    ensures
        final(dst)@.len() == old(dst)@.len(),
        final(dst)@.subrange(0, n as int) == src@.subrange(src_start as int, src_start + n as int),
        final(dst)@.subrange(n as int, final(dst)@.len() as int) == old(dst)@.subrange(
            n as int,
            old(dst)@.len() as int,
        ),
{
    let src_len: usize = src.len();
    let mut i: usize = 0;
    while i < n
        invariant
            i <= n <= dst@.len(),
            dst@.len() == old(dst)@.len(),
            src_start + n <= src_len == src@.len(),
            forall|j: int| 0 <= j < i ==> dst@[j] == src@[src_start + j],
            forall|j: int| i <= j < dst@.len() ==> dst@[j] == old(dst)@[j],
        decreases n - i,
    {
        dst[i] = src[src_start + i];
        i = i + 1;
    }
    proof {
        assert(dst@.subrange(0, n as int) =~= src@.subrange(src_start as int, src_start + n as int));
        assert(dst@.subrange(n as int, dst@.len() as int) =~= old(dst)@.subrange(
            n as int,
            old(dst)@.len() as int,
        ));
    }
}

} // verus!
