//! The drop bridge: turns one OS drop batch — the dropped paths, what a
//! buffered read of each produced, and the cursor position at the drop —
//! into the single UI event the shell emits, or into a fatal error if any
//! path could not be read. Also models the one buffer fill the shell reads
//! from each file, which truncates files larger than the buffer.

use vstd::math::min;
use vstd::prelude::*;

use crate::events::{CursorPoint, ShellError};

verus! {

/// Nominal capacity, in bytes, of the buffer the shell fills once per
/// dropped file. A file larger than this is forwarded truncated.
pub const READ_BUFFER_CAPACITY: usize = 8192;

/// What the host-side read of one dropped path produced: the path as text
/// together with the first buffer fill of the file's contents, or a failure
/// to open or read the file.
#[derive(Debug, PartialEq, Eq)]
pub enum ReadOutcome {
    Loaded { path: String, chunk: Vec<u8> },
    Failed,
}

/// One record of the outbound drop event: the dropped path, the cursor
/// position shared by the whole batch, and the chunks read from the file.
#[derive(Debug, PartialEq, Eq)]
pub struct DropRecord {
    pub path: String,
    pub x_bits: u64,
    pub y_bits: u64,
    pub buffer: Vec<Vec<u8>>,
}

/// The payload of one `drop-files` event: one record per path of the batch,
/// in drop order.
#[derive(Debug, PartialEq, Eq)]
pub struct DropEventPayload {
    pub records: Vec<DropRecord>,
}

/// The name under which the drop payload is emitted to the UI layer.
pub fn drop_event_name() -> (r: &'static str)
    ensures
        r@ == "drop-files"@,
{
    "drop-files"
}

/// Whether every path of the batch was opened and read.
pub open spec fn all_loaded(reads: Seq<ReadOutcome>) -> bool {
    forall|i: int| 0 <= i < reads.len() ==> reads[i] is Loaded
}

/// Whether one outbound record carries exactly what was read for one path,
/// stamped with the batch's shared cursor position: the path's text, the
/// position's bits, and a single chunk equal to the bytes read.
pub open spec fn record_matches(rec: DropRecord, read: ReadOutcome, position: CursorPoint) -> bool {
    &&& read matches ReadOutcome::Loaded { path, chunk }
    &&& rec.path@ == path@
    &&& rec.x_bits == position.x_bits
    &&& rec.y_bits == position.y_bits
    &&& rec.buffer@.len() == 1
    &&& rec.buffer@[0]@ == chunk@
}

/// Assembles the one `drop-files` payload for a drop batch, all-or-nothing:
/// if every path was read, the payload holds one record per path, in order,
/// each stamped with the shared cursor position; if any path failed, no
/// payload is produced at all and the error names the first failing index.
pub fn drop_files(reads: &Vec<ReadOutcome>, position: CursorPoint) -> (r: Result<
    DropEventPayload,
    ShellError,
>)
    ensures
        r is Ok <==> all_loaded(reads@),
        r matches Ok(payload) ==> {
            &&& payload.records@.len() == reads@.len()
            &&& forall|i: int|
                0 <= i < reads@.len() ==> record_matches(
                    #[trigger] payload.records@[i],
                    reads@[i],
                    position,
                )
        },
        r matches Err(e) ==> (e matches ShellError::DropReadFailed { index } && {
            &&& index < reads@.len()
            &&& reads@[index as int] is Failed
            &&& forall|j: int| 0 <= j < index ==> reads@[j] is Loaded
        }),
{
    let mut records: Vec<DropRecord> = Vec::new();
    let mut i: usize = 0;
    while i < reads.len()
        invariant
            i <= reads@.len(),
            records@.len() == i,
            forall|j: int| 0 <= j < i ==> record_matches(#[trigger] records@[j], reads@[j], position),
        decreases reads@.len() - i,
    {
        match &reads[i] {
            ReadOutcome::Loaded { path, chunk } => {
                let path_copy = path.clone();
                let chunk_copy = read_prefix(chunk, chunk.len());
                proof {
                    assert(chunk@.take(chunk@.len() as int) =~= chunk@);
                }
                let mut buffer: Vec<Vec<u8>> = Vec::new();
                buffer.push(chunk_copy);
                let rec = DropRecord {
                    path: path_copy,
                    x_bits: position.x_bits,
                    y_bits: position.y_bits,
                    buffer,
                };
                records.push(rec);
                proof {
                    assert(record_matches(records@[i as int], reads@[i as int], position));
                }
            },
            ReadOutcome::Failed => {
                proof {
                    assert(reads@[i as int] is Failed);
                    assert(!all_loaded(reads@));
                    assert forall|j: int| 0 <= j < i implies reads@[j] is Loaded by {
                        assert(record_matches(records@[j], reads@[j], position));
                    }
                }
                return Err(ShellError::DropReadFailed { index: i });
            },
        }
        i = i + 1;
    }
    proof {
        assert forall|j: int| 0 <= j < reads@.len() implies reads@[j] is Loaded by {
            assert(record_matches(records@[j], reads@[j], position));
        }
        assert(all_loaded(reads@));
    }
    Ok(DropEventPayload { records })
}

/// One buffer fill of a file's contents: the first `capacity` bytes of the
/// file, or all of them if the file is smaller. This is a single fill, not a
/// read-to-completion loop, so a file larger than the buffer comes out
/// strictly shorter than it really is.
pub fn read_prefix(contents: &Vec<u8>, capacity: usize) -> (chunk: Vec<u8>)
    ensures
        chunk@ == contents@.take(min(contents@.len() as int, capacity as int)),
        contents@.len() > capacity ==> chunk@.len() < contents@.len(),
{
    let n = if contents.len() < capacity {
        contents.len()
    } else {
        capacity
    };
    let mut chunk: Vec<u8> = Vec::new();
    let mut i: usize = 0;
    while i < n
        invariant
            i <= n,
            n == min(contents@.len() as int, capacity as int),
            chunk@ == contents@.take(i as int),
        decreases n - i,
    {
        chunk.push(contents[i]);
        proof {
            assert(contents@.take(i + 1 as int) =~= contents@.take(i as int).push(
                contents@[i as int],
            ));
        }
        i = i + 1;
    }
    chunk
}

} // verus!
