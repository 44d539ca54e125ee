//! A sequential source of bytes, and the two reads that the decoder makes on it.

use crate::error::WavError;
use vstd::prelude::*;
use vstd::slice::slice_subrange;
use vstd::slice::slice_to_vec;

verus! {

/// A source of bytes that is read from front to back, a fixed number of bytes at a time.
pub struct ByteReader<'a> {
    data: &'a [u8],
    position: usize,
}

impl<'a> View for ByteReader<'a> {
    type V = Seq<u8>;

    /// The bytes that have not been read yet, in the order in which they will be read.
    closed spec fn view(&self) -> Seq<u8> {
        self.data@.skip(self.position as int)
    }
}

impl<'a> ByteReader<'a> {
    #[verifier::type_invariant]
    spec fn position_in_bounds(self) -> bool {
        self.position <= self.data@.len()
    }

    /// A reader that has all of `data` before it.
    pub fn new(data: &'a [u8]) -> (reader: Self)
        ensures
            reader@ == data@,
    {
        ByteReader { data, position: 0 }
    }

    /// Reads exactly `count` bytes, or fails if fewer are left. A failed read uses up what
    /// was left.
    pub fn read_exact(&mut self, count: usize) -> (res: Option<&'a [u8]>)
        ensures
            match res {
                Some(bytes) => {
                    &&& count <= old(self)@.len()
                    &&& bytes@ == old(self)@.take(count as int)
                    &&& final(self)@ == old(self)@.skip(count as int)
                },
                None => {
                    &&& count > old(self)@.len()
                    &&& final(self)@ == Seq::<u8>::empty()
                },
            },
    {
        proof {
            use_type_invariant(&*self);
        }
        let left: usize = self.data.len() - self.position;
        if count <= left {
            let start: usize = self.position;
            let bytes = slice_subrange(self.data, start, start + count);
            self.position = start + count;
            Some(bytes)
        } else {
            self.position = self.data.len();
            None
        }
    }
}

/// Reads the next four bytes: one line of the header.
pub fn get_next_byteline(reader: &mut ByteReader) -> (res: Result<[u8; 4], WavError>)
    ensures
        match res {
            Ok(line) => {
                &&& old(reader)@.len() >= 4
                &&& line@ == old(reader)@.take(4)
                &&& final(reader)@ == old(reader)@.skip(4)
            },
            Err(e) => {
                &&& old(reader)@.len() < 4
                &&& e == WavError::TruncatedHeader
                &&& final(reader)@ == Seq::<u8>::empty()
            },
        },
{
    match reader.read_exact(4) {
        Some(bytes) => Ok([bytes[0], bytes[1], bytes[2], bytes[3]]),
        None => Err(WavError::TruncatedHeader),
    }
}

/// Reads the next `chunk_size` bytes of audio data.
pub fn get_next_data_chunk(reader: &mut ByteReader, chunk_size: u8) -> (res: Result<
    Vec<u8>,
    WavError,
>)
    ensures
        match res {
            Ok(chunk) => {
                &&& old(reader)@.len() >= chunk_size
                &&& chunk@ == old(reader)@.take(chunk_size as int)
                &&& final(reader)@ == old(reader)@.skip(chunk_size as int)
            },
            Err(e) => {
                &&& old(reader)@.len() < chunk_size
                &&& e == WavError::TruncatedData
                &&& final(reader)@ == Seq::<u8>::empty()
            },
        },
{
    match reader.read_exact(chunk_size as usize) {
        Some(bytes) => Ok(slice_to_vec(bytes)),
        None => Err(WavError::TruncatedData),
    }
}

} // verus!
