//! A mathematical model of the destination file.
//!
//! The receiver opens the destination for write without truncation,
//! seeks to the session's offset and writes the payload chunk by
//! chunk.  This module models the file as a byte sequence and a write
//! as an in-place overwrite that may extend the sequence, and proves
//! the two facts the transfer rests on: chunked writes amount to one
//! contiguous write, and a session that writes the missing suffix of
//! the source on top of a good prefix reconstructs the source exactly.
use vstd::prelude::*;

verus! {

/// The file after writing `data` at position `pos`: bytes before `pos`
/// stay, `data` replaces what it covers, bytes after it stay, and the
/// file grows when the write runs past its end.
pub open spec fn write_at(file: Seq<u8>, pos: int, data: Seq<u8>) -> Seq<u8>
    recommends
        0 <= pos <= file.len(),
{
    if pos + data.len() >= file.len() {
        file.take(pos) + data
    } else {
        file.take(pos) + data + file.skip(pos + data.len())
    }
}

/// A write never shrinks the file: the result holds every old byte's
/// position, and ends exactly at the write's end when the write ran
/// past the old end.
pub proof fn lemma_write_at_len(file: Seq<u8>, pos: int, data: Seq<u8>)
    requires
        0 <= pos <= file.len(),
    ensures
        write_at(file, pos, data).len() == if pos + data.len() >= file.len() {
            pos + data.len()
        } else {
            file.len() as int
        },
{
}

/// Two back-to-back writes are one contiguous write: writing `a` at
/// `pos` and then `b` right after it leaves the same file as writing
/// `a + b` at `pos`.  This is why the receiver may persist the payload
/// in chunks of any size.
pub proof fn lemma_write_at_append(file: Seq<u8>, pos: int, a: Seq<u8>, b: Seq<u8>)
    requires
        0 <= pos <= file.len(),
    ensures
        write_at(write_at(file, pos, a), pos + a.len(), b) == write_at(file, pos, a + b),
{
    let fa = write_at(file, pos, a);
    assert(fa.take(pos + a.len()) =~= file.take(pos) + a);
    if pos + (a + b).len() >= file.len() {
        assert(write_at(fa, pos + a.len(), b) =~= write_at(file, pos, a + b));
    } else {
        assert(fa.skip(pos + a.len() + b.len()) =~= file.skip(pos + (a + b).len()));
        assert(write_at(fa, pos + a.len(), b) =~= write_at(file, pos, a + b));
    }
}

/// The file after writing each chunk in turn, each at the position
/// right after the previous one: how a session's payload actually
/// reaches the destination.
pub open spec fn write_chunks_at(file: Seq<u8>, pos: int, chunks: Seq<Seq<u8>>) -> Seq<u8>
    recommends
        0 <= pos <= file.len(),
    decreases chunks.len(),
{
    if chunks.len() == 0 {
        file
    } else {
        write_chunks_at(
            write_at(file, pos, chunks.first()),
            pos + chunks.first().len(),
            chunks.drop_first(),
        )
    }
}

/// Writing any sequence of chunks one after another leaves the same
/// file as one contiguous write of their concatenation: however the
/// payload was cut into reads, the destination comes out the same.
pub proof fn lemma_write_chunks_at(file: Seq<u8>, pos: int, chunks: Seq<Seq<u8>>)
    requires
        0 <= pos <= file.len(),
    ensures
        write_chunks_at(file, pos, chunks) == write_at(file, pos, chunks.flatten()),
    decreases chunks.len(),
{
    if chunks.len() == 0 {
        assert(write_at(file, pos, chunks.flatten()) =~= file);
    } else {
        let a = chunks.first();
        let fa = write_at(file, pos, a);
        lemma_write_at_len(file, pos, a);
        lemma_write_chunks_at(fa, pos + a.len(), chunks.drop_first());
        lemma_write_at_append(file, pos, a, chunks.drop_first().flatten());
    }
}

/// A completed session reconstructs the source.  If the destination
/// already matches the source up to `pos`, is no longer than the
/// source, and the session wrote exactly the source's bytes from `pos`
/// to its end, the destination is byte-identical to the source.
///
/// With `pos == 0` and an empty destination this is the fresh upload:
/// the destination equals the source, so any checksum of the two
/// agrees.  With `pos` the last acknowledged offset and a destination
/// left behind by an aborted session it is the resume: every
/// acknowledged byte was durably written, so the prefix matches, and
/// rewriting everything from the acknowledged offset onward restores
/// the rest, whatever the aborted session had left there.
pub proof fn lemma_transfer_reconstructs_source(src: Seq<u8>, dest: Seq<u8>, pos: int)
    requires
        0 <= pos <= dest.len() <= src.len(),
        dest.take(pos) == src.take(pos),
    ensures
        write_at(dest, pos, src.skip(pos)) == src,
{
    assert(write_at(dest, pos, src.skip(pos)) =~= src);
}

} // verus!
