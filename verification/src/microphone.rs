use vstd::prelude::*;

verus! {

/// The size of the header at the start of the microphone capture file; PCM
/// data follows it.
pub const MICROPHONE_HEADER_LEN: u64 = 16;

/// The read position in the microphone capture file: the byte offset at
/// which the next read of PCM data starts.
pub struct MicrophoneCursor {
    pub offset: u64,
}

/// Where the next read starts, for a cursor at `offset` and a file of
/// `file_length` bytes: back at the end of the header when the cursor has run
/// past the end of the file (the file was replaced) or the file is shorter
/// than its header, and at the cursor otherwise.
pub open spec fn read_start_for(offset: u64, file_length: u64) -> u64 {
    if offset > file_length || file_length < MICROPHONE_HEADER_LEN {
        MICROPHONE_HEADER_LEN
    } else {
        offset
    }
}

impl MicrophoneCursor {
    /// A cursor at the start of the PCM data.
    pub fn new() -> (r: MicrophoneCursor)
        ensures
            r.offset == MICROPHONE_HEADER_LEN,
    {
        MicrophoneCursor { offset: MICROPHONE_HEADER_LEN }
    }

    /// Settles where the next read starts for a file of `file_length` bytes,
    /// moves the cursor there and returns it.
    pub fn read_start(&mut self, file_length: u64) -> (start: u64)
        ensures
            start == read_start_for(old(self).offset, file_length),
            final(self).offset == start,
    {
        if self.offset > file_length || file_length < MICROPHONE_HEADER_LEN {
            self.offset = MICROPHONE_HEADER_LEN;
        }
        self.offset
    }

    /// Moves the cursor past `count` bytes that were read, wrapping around at
    /// 2^64 as an atomic `fetch_add` does.
    pub fn advance(&mut self, count: usize)
        ensures
            final(self).offset as int == (old(self).offset as int + count as int)
                % 18446744073709551616,
    {
        let sum = self.offset as u128 + count as u128;
        self.offset = (sum % 18446744073709551616u128) as u64;
    }
}

/// Moves the cursor back to the start of the PCM data.
pub fn reset_microphone_cursor(cursor: &mut MicrophoneCursor)
    ensures
        final(cursor).offset == MICROPHONE_HEADER_LEN,
{
    cursor.offset = MICROPHONE_HEADER_LEN;
}

/// The size of the buffer for one read of at most `max_bytes` bytes: never
/// less than one 16-bit sample.
pub fn microphone_buffer_len(max_bytes: usize) -> (r: usize)
    ensures
        r == if max_bytes > 2 { max_bytes } else { 2 },
{
    if max_bytes > 2 {
        max_bytes
    } else {
        2
    }
}

/// From a cursor past the header, a read never starts inside the header, and,
/// when the file holds at least its header, never starts past the end of the
/// file.
pub proof fn lemma_read_start_in_file(offset: u64, file_length: u64)
    requires
        offset >= MICROPHONE_HEADER_LEN,
    ensures
        read_start_for(offset, file_length) >= MICROPHONE_HEADER_LEN,
        file_length >= MICROPHONE_HEADER_LEN ==> read_start_for(offset, file_length)
            <= file_length,
{
}

/// After a reset, the next read starts at the end of the header whatever the
/// length of the file.
pub proof fn lemma_reset_then_read(file_length: u64)
    ensures
        read_start_for(MICROPHONE_HEADER_LEN, file_length) == MICROPHONE_HEADER_LEN,
{
}

/// The total of `counts`.
pub open spec fn total(counts: Seq<nat>) -> nat
    decreases counts.len(),
{
    if counts.len() == 0 {
        0
    } else {
        total(counts.drop_last()) + counts.last()
    }
}

/// The cursor after reads of `counts` bytes from a file of `file_length`
/// bytes, starting at `offset`: each read settles its start
/// (`MicrophoneCursor::read_start`) and moves past what it read
/// (`MicrophoneCursor::advance`).
pub open spec fn offset_after(offset: u64, file_length: u64, counts: Seq<nat>) -> u64
    decreases counts.len(),
{
    if counts.len() == 0 {
        offset
    } else {
        ((read_start_for(offset_after(offset, file_length, counts.drop_last()), file_length)
            + counts.last()) % 18446744073709551616) as u64
    }
}

/// Each read got no more bytes than the file holds past its start.
pub open spec fn reads_within_file(file_length: u64, counts: Seq<nat>) -> bool {
    forall|i: int|
        0 <= i < counts.len() ==> #[trigger] counts[i] <= file_length - read_start_for(
            offset_after(MICROPHONE_HEADER_LEN, file_length, counts.take(i)),
            file_length,
        )
}

/// After a reset, successive reads of an unchanging file that holds at least
/// its header start each where the one before stopped: read `i` starts at the
/// end of the header plus all that was read before it, so no byte of the PCM
/// data is skipped or returned twice, and the header never is.
pub proof fn lemma_reads_after_reset_are_contiguous(file_length: u64, counts: Seq<nat>)
    requires
        file_length >= MICROPHONE_HEADER_LEN,
        reads_within_file(file_length, counts),
    ensures
        forall|i: int|
            0 <= i <= counts.len() ==> read_start_for(
                #[trigger] offset_after(MICROPHONE_HEADER_LEN, file_length, counts.take(i)),
                file_length,
            ) == MICROPHONE_HEADER_LEN + total(counts.take(i)),
        offset_after(MICROPHONE_HEADER_LEN, file_length, counts) == MICROPHONE_HEADER_LEN + total(
            counts,
        ),
    decreases counts.len(),
{
    if counts.len() > 0 {
        let n = counts.len() - 1;
        let prefix = counts.drop_last();
        assert forall|i: int| 0 <= i < prefix.len() implies #[trigger] prefix[i]
            <= file_length - read_start_for(
            offset_after(MICROPHONE_HEADER_LEN, file_length, prefix.take(i)),
            file_length,
        ) by {
            assert(prefix.take(i) =~= counts.take(i));
            assert(prefix[i] == counts[i]);
        }
        lemma_reads_after_reset_are_contiguous(file_length, prefix);
        assert(counts.take(n) =~= prefix);
        assert(counts.take(n + 1) =~= counts);
        let before = offset_after(MICROPHONE_HEADER_LEN, file_length, prefix);
        assert(read_start_for(before, file_length) == MICROPHONE_HEADER_LEN + total(prefix));
        assert(counts[n] <= file_length - read_start_for(
            offset_after(MICROPHONE_HEADER_LEN, file_length, counts.take(n)),
            file_length,
        ));
        assert forall|i: int| 0 <= i <= counts.len() implies read_start_for(
            #[trigger] offset_after(MICROPHONE_HEADER_LEN, file_length, counts.take(i)),
            file_length,
        ) == MICROPHONE_HEADER_LEN + total(counts.take(i)) by {
            if i <= n {
                assert(prefix.take(i) =~= counts.take(i));
            }
        }
    }
}

} // verus!
