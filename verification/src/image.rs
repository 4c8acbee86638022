//! Reading the kernel image chunk by chunk and finding its entry point.

use vstd::prelude::*;
use crate::bytes::{le_u64_at, read_u64_le};
use crate::context::{BootContext, BootContextView};
use crate::error::BootError;

verus! {

/// Bytes in a megabyte, the unit of the progress report.
pub const MB: usize = 0x10_0000;

/// The most that one read asks for.
pub const READ_CHUNK: usize = 0x40_0000;

/// Where the kernel's header holds the address of its entry point.
pub const ENTRY_OFFSET: usize = 0x18;

/// One read to make of the image's source.
#[derive(Clone, Copy, Debug, PartialEq, Eq, Structural)]
pub struct ReadRequest {
    /// Offset into the image of the first byte to read: the number of bytes
    /// read so far.
    pub offset: usize,
    /// The most bytes to read.
    pub capacity: usize,
}

/// How far the read of an image has come.
#[derive(Clone, Copy, Debug, PartialEq, Eq, Structural)]
pub struct Progress {
    /// Whole percent of the advertised length that have been read.
    pub percent: u64,
    /// Whole megabytes that have been read.
    pub megabytes: usize,
}

/// A kernel image with the environment string that goes with it.
pub struct KernelImage {
    /// The bytes of the image.
    pub bytes: Vec<u8>,
    /// The environment string; empty where the source has nothing to tell.
    pub env: Vec<u8>,
}

/// The state of one chunked read of a kernel image.
///
/// The source is read until a read comes back empty. The image is complete
/// only if the bytes read by then are exactly as many as were advertised.
pub struct ImageReader {
    /// The length that the source advertised for the image.
    pub expected: u64,
    /// The bytes read so far.
    pub buffer: Vec<u8>,
    /// Reads so far that brought data.
    pub chunks: usize,
    /// An empty read has ended the image.
    pub finished: bool,
}

/// An [`ImageReader`] as plain values.
pub struct ReaderView {
    /// The length that the source advertised for the image.
    pub expected: u64,
    /// The bytes read so far.
    pub buffer: Seq<u8>,
    /// Reads so far that brought data.
    pub chunks: nat,
    /// An empty read has ended the image.
    pub finished: bool,
}

impl View for ImageReader {
    type V = ReaderView;

    open spec fn view(&self) -> ReaderView {
        ReaderView {
            expected: self.expected,
            buffer: self.buffer@,
            chunks: self.chunks as nat,
            finished: self.finished,
        }
    }
}

/// The reader after it has taken `chunk`: an empty chunk ends the image,
/// anything else is appended and counted, and nothing changes once the image
/// has ended.
pub open spec fn accepted(reader: ReaderView, chunk: Seq<u8>) -> ReaderView {
    if reader.finished || chunk.len() == 0 {
        ReaderView { finished: true, ..reader }
    } else {
        ReaderView { buffer: reader.buffer + chunk, chunks: reader.chunks + 1, ..reader }
    }
}

impl ImageReader {
    /// Every counted read brought at least one byte.
    pub open spec fn wf(&self) -> bool {
        self.chunks <= self.buffer@.len()
    }

    /// Checks [`ImageReader::wf`].
    pub fn is_wf(&self) -> (holds: bool)
        ensures
            holds == self.wf(),
    {
        self.chunks <= self.buffer.len()
    }

    /// Starts the read of an image whose source advertises `expected` bytes.
    pub fn new(expected: u64) -> (reader: ImageReader)
        ensures
            reader.wf(),
            reader@ == started(expected),
    {
        ImageReader { expected, buffer: Vec::new(), chunks: 0, finished: false }
    }

    /// The read to make next: at most [`READ_CHUNK`] bytes from where the
    /// last read ended. `None` once an empty read has ended the image.
    pub fn next_read(&self) -> (request: Option<ReadRequest>)
        ensures
            request == if self.finished {
                None
            } else {
                Some(ReadRequest { offset: self.buffer@.len() as usize, capacity: READ_CHUNK })
            },
    {
        if self.finished {
            None
        } else {
            Some(ReadRequest { offset: self.buffer.len(), capacity: READ_CHUNK })
        }
    }

    /// Takes the bytes that a read brought and says whether to read on.
    ///
    /// An empty `chunk` ends the image. Anything else is appended. Once the
    /// image has ended, nothing changes any more.
    pub fn accept(&mut self, chunk: &[u8]) -> (more: bool)
        requires
            old(self).wf(),
        ensures
            final(self).wf(),
            final(self)@ == accepted(old(self)@, chunk@),
            more == !final(self).finished,
    {
        if self.finished || chunk.len() == 0 {
            self.finished = true;
            return false;
        }
        self.buffer.extend_from_slice(chunk);
        proof {
            assert(self.buffer@ =~= old(self).buffer@ + chunk@);
        }
        assert(self.buffer.len() == self.buffer@.len());
        self.chunks = self.chunks + 1;
        true
    }

    /// How far the read has come, for the progress line.
    ///
    /// There is no percentage of an image that was advertised as empty, nor
    /// one that does not fit the integer.
    pub fn progress(&self) -> (progress: Option<Progress>)
        ensures
            match progress {
                Some(at) => {
                    &&& self.expected > 0
                    &&& self.buffer@.len() * 100 <= u64::MAX
                    &&& at.percent == (self.buffer@.len() * 100) as int / (self.expected as int)
                    &&& at.megabytes == self.buffer@.len() as int / (MB as int)
                },
                None => self.expected == 0 || self.buffer@.len() * 100 > u64::MAX,
            },
    {
        if self.expected == 0 {
            return None;
        }
        let read: usize = self.buffer.len();
        match (read as u64).checked_mul(100) {
            Some(scaled) => Some(Progress { percent: scaled / self.expected, megabytes: read / MB }),
            None => None,
        }
    }

    /// Whether the image is complete: an empty read has ended it and its
    /// length is the advertised one.
    pub open spec fn complete(&self) -> bool {
        self.finished && self.buffer@.len() == self.expected
    }

    /// Hands the image over, together with its environment string `env`,
    /// once it is complete. Fails with [`BootError::InvalidKernel`] exactly
    /// when it is not.
    pub fn finish(self, env: Vec<u8>) -> (image: Result<KernelImage, BootError>)
        ensures
            match image {
                Ok(loaded) => {
                    &&& self.complete()
                    &&& loaded.bytes@ == self.buffer@
                    &&& loaded.env@ == env@
                },
                Err(error) => error == BootError::InvalidKernel && !self.complete(),
            },
    {
        if self.finished && self.buffer.len() as u64 == self.expected {
            Ok(KernelImage { bytes: self.buffer, env })
        } else {
            Err(BootError::InvalidKernel)
        }
    }
}

/// A reader that has read nothing yet of an image of `expected` bytes.
pub open spec fn started(expected: u64) -> ReaderView {
    ReaderView { expected, buffer: Seq::empty(), chunks: 0, finished: false }
}

/// What a source of the bytes `source` hands out when asked for at most
/// `capacity` bytes from `offset` on: as many as it has left.
pub open spec fn handed_out(source: Seq<u8>, offset: nat, capacity: nat) -> Seq<u8> {
    if offset >= source.len() {
        Seq::empty()
    } else if offset + capacity >= source.len() {
        source.subrange(offset as int, source.len() as int)
    } else {
        source.subrange(offset as int, (offset + capacity) as int)
    }
}

/// The reader after it has read `source` to its end, `capacity` bytes at a
/// time, going on from the state `reader`.
pub open spec fn drained(source: Seq<u8>, capacity: nat, reader: ReaderView) -> ReaderView
    decreases source.len() - reader.buffer.len(), if reader.finished { 0nat } else { 1nat },
{
    if reader.finished || reader.buffer.len() > source.len() {
        reader
    } else {
        drained(
            source,
            capacity,
            accepted(reader, handed_out(source, reader.buffer.len(), capacity)),
        )
    }
}

/// How many reads of at most `capacity` bytes it takes to bring `length`
/// bytes.
pub open spec fn chunks_for(length: nat, capacity: nat) -> nat {
    (length + capacity - 1) as nat / capacity
}

proof fn lemma_chunks_for(length: nat, capacity: nat, taken: nat)
    requires
        capacity > 0,
        0 < length,
        taken == if length <= capacity {
            length
        } else {
            capacity
        },
    ensures
        chunks_for(0, capacity) == 0,
        chunks_for(length, capacity) == chunks_for((length - taken) as nat, capacity) + 1,
{
    assert((capacity - 1) / (capacity as int) == 0) by (nonlinear_arith)
        requires
            capacity > 0,
    ;
    if length <= capacity {
        assert((length + capacity - 1) / (capacity as int) == 1) by (nonlinear_arith)
            requires
                0 < length <= capacity,
        ;
    } else {
        assert((length + capacity - 1) / (capacity as int) == (length - capacity + capacity - 1) / (
        capacity as int) + 1) by (nonlinear_arith)
            requires
                capacity > 0,
                length > capacity,
        ;
    }
}

proof fn lemma_drained(source: Seq<u8>, capacity: nat, reader: ReaderView)
    requires
        capacity > 0,
        !reader.finished,
        reader.buffer.len() <= source.len(),
        reader.buffer == source.take(reader.buffer.len() as int),
    ensures
        drained(source, capacity, reader) == (ReaderView {
            buffer: source,
            chunks: reader.chunks + chunks_for((source.len() - reader.buffer.len()) as nat, capacity),
            finished: true,
            ..reader
        }),
    decreases source.len() - reader.buffer.len(),
{
    let read: nat = reader.buffer.len();
    let left: nat = (source.len() - read) as nat;
    let chunk: Seq<u8> = handed_out(source, read, capacity);
    let next: ReaderView = accepted(reader, chunk);
    if left == 0 {
        lemma_chunks_for(1, capacity, 1);
        assert(reader.buffer == source);
        assert(drained(source, capacity, next) == next);
    } else {
        let taken: nat = if left <= capacity {
            left
        } else {
            capacity
        };
        lemma_chunks_for(left, capacity, taken);
        assert(next.buffer == source.take((read + taken) as int));
        lemma_drained(source, capacity, next);
    }
}

/// Reading an image to its end, from a source that hands out what it is
/// asked for as long as it has bytes left, brings exactly the image: the
/// buffer holds all of its bytes, the reads that brought data are as many as
/// the image has chunks, and one more, empty read has ended it. The image is
/// then complete exactly if its length is the advertised one.
pub proof fn lemma_reading_to_the_end(source: Seq<u8>, capacity: nat, expected: u64)
    requires
        capacity > 0,
    ensures
        drained(source, capacity, started(expected)) == (ReaderView {
            expected,
            buffer: source,
            chunks: chunks_for(source.len(), capacity),
            finished: true,
        }),
{
    assert(source.take(0) == Seq::<u8>::empty());
    lemma_drained(source, capacity, started(expected));
}

/// The entry point that an image's header names: the 64-bit little-endian
/// value at [`ENTRY_OFFSET`]. An image that ends before that field has none.
pub open spec fn entry_of(image: Seq<u8>) -> Option<u64> {
    if image.len() < ENTRY_OFFSET + 8 {
        None
    } else {
        Some(le_u64_at(image, ENTRY_OFFSET as int) as u64)
    }
}

/// Reads the entry point from an image's header.
///
/// Fails with [`BootError::InvalidKernel`] exactly when the image ends before
/// the end of the field.
pub fn kernel_entry(image: &[u8]) -> (entry: Result<u64, BootError>)
    ensures
        match entry {
            Ok(address) => entry_of(image@) == Some(address),
            Err(error) => error == BootError::InvalidKernel && entry_of(image@) is None,
        },
{
    if image.len() < ENTRY_OFFSET + 8 {
        Err(BootError::InvalidKernel)
    } else {
        Ok(read_u64_le(image, ENTRY_OFFSET))
    }
}

/// Notes a loaded image in the context: its length and its entry point.
///
/// Fails with [`BootError::InvalidKernel`] exactly when the image has no
/// entry point; the context is then left as it was.
pub fn place_kernel(context: &mut BootContext, image: &[u8]) -> (placed: Result<(), BootError>)
    ensures
        match placed {
            Ok(_) => {
                &&& entry_of(image@) is Some
                &&& final(context)@ == (BootContextView {
                    kernel_size: image@.len() as u64,
                    kernel_entry: entry_of(image@)->0,
                    ..old(context)@
                })
            },
            Err(error) => {
                &&& error == BootError::InvalidKernel
                &&& entry_of(image@) is None
                &&& final(context)@ == old(context)@
            },
        },
{
    match kernel_entry(image) {
        Ok(address) => {
            context.kernel_size = image.len() as u64;
            context.kernel_entry = address;
            Ok(())
        },
        Err(error) => Err(error),
    }
}

/// Notes the environment string in the context: its length.
pub fn place_environment(context: &mut BootContext, env: &[u8])
    ensures
        final(context)@ == (BootContextView { env_size: env@.len() as u64, ..old(context)@ }),
{
    context.env_size = env.len() as u64;
}

} // verus!
