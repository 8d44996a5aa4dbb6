//! Layout and locking discipline of the Shared Record.
//!
//! A Shared Record is one shared-memory segment holding a process-shared
//! reader/writer lock control block followed, at a fixed offset, by the
//! resource's metadata record. Creator and opener compute the same offsets
//! from the same constants, the lock region never overlaps the data region,
//! and the version field can be probed without the lock at its own fixed
//! offset. The bytes of the data region are exactly the encoding below.

use vstd::prelude::*;
use vstd::bytes::*;

use crate::error::IpcError;
use crate::img_data::{
    format_code, format_from_code, lemma_format_code_round_trip, spec_format_code,
    spec_format_from_code, ImgFormat, ShmemDataInternal, ShmemDataModel, IMG_NAME_LEN,
};

verus! {

/// Bytes reserved at the head of the segment for the lock control block.
pub const LOCK_REGION_SIZE: usize = 64;

/// Offset of the metadata record inside the segment.
pub const RECORD_DATA_OFF: usize = 64;

/// Offsets of the record's fields inside the data region.
pub const REC_NAME_OFF: usize = 0;

pub const REC_HANDLE_ID_OFF: usize = IMG_NAME_LEN;

pub const REC_WIDTH_OFF: usize = IMG_NAME_LEN + 4;

pub const REC_HEIGHT_OFF: usize = IMG_NAME_LEN + 8;

pub const REC_FORMAT_OFF: usize = IMG_NAME_LEN + 12;

pub const REC_ALLOC_OFF: usize = IMG_NAME_LEN + 16;

/// Size of the encoded metadata record.
pub const RECORD_DATA_SIZE: usize = IMG_NAME_LEN + 24;

/// Size of the whole segment.
pub const RECORD_SEGMENT_SIZE: usize = RECORD_DATA_OFF + RECORD_DATA_SIZE;

/// Offset, inside the whole segment, of the version field used for the
/// lock-free staleness probe.
pub const RECORD_VERSION_OFF: usize = RECORD_DATA_OFF + REC_HANDLE_ID_OFF;

/// The lock control block and the data region never overlap.
pub proof fn lemma_lock_data_disjoint()
    ensures
        LOCK_REGION_SIZE <= RECORD_DATA_OFF,
        RECORD_DATA_OFF + RECORD_DATA_SIZE == RECORD_SEGMENT_SIZE,
{
}

/// The offset the creating code path lays the record at.
pub fn record_data_offset() -> (r: usize)
    ensures
        r == RECORD_DATA_OFF,
{
    RECORD_DATA_OFF
}

/// Opening a segment checks the locally computed record offset against the
/// creator's; a mismatch is a fatal configuration error.
pub fn validate_data_offset(off: usize) -> (r: Result<(), IpcError>)
    ensures
        r is Ok <==> off == RECORD_DATA_OFF,
        r is Err ==> r->Err_0 == IpcError::LayoutMismatch,
{
    if off == RECORD_DATA_OFF {
        Ok(())
    } else {
        Err(IpcError::LayoutMismatch)
    }
}

/// Bytes of a metadata record inside the segment's data region.
pub open spec fn spec_encode_record_data(d: ShmemDataModel) -> Seq<u8> {
    d.name + spec_u32_to_le_bytes(d.handle_id) + spec_u32_to_le_bytes(d.width)
        + spec_u32_to_le_bytes(d.height) + spec_u32_to_le_bytes(spec_format_code(d.format))
        + spec_u64_to_le_bytes(d.allocation_size)
}

/// Meaning of data-region bytes.
pub open spec fn spec_decode_record_data(b: Seq<u8>) -> Result<ShmemDataModel, IpcError> {
    if b.len() != RECORD_DATA_SIZE {
        Err(IpcError::BadLength)
    } else {
        let code = spec_u32_from_le_bytes(b.subrange(REC_FORMAT_OFF as int, REC_FORMAT_OFF + 4));
        match spec_format_from_code(code) {
            None => Err(IpcError::UnknownFormat),
            Some(f) => Ok(
                ShmemDataModel {
                    name: b.subrange(REC_NAME_OFF as int, REC_NAME_OFF + IMG_NAME_LEN),
                    handle_id: spec_u32_from_le_bytes(
                        b.subrange(REC_HANDLE_ID_OFF as int, REC_HANDLE_ID_OFF + 4),
                    ),
                    width: spec_u32_from_le_bytes(
                        b.subrange(REC_WIDTH_OFF as int, REC_WIDTH_OFF + 4),
                    ),
                    height: spec_u32_from_le_bytes(
                        b.subrange(REC_HEIGHT_OFF as int, REC_HEIGHT_OFF + 4),
                    ),
                    format: f,
                    allocation_size: spec_u64_from_le_bytes(
                        b.subrange(REC_ALLOC_OFF as int, REC_ALLOC_OFF + 8),
                    ),
                },
            ),
        }
    }
}

/// Encode a record for the data region of its segment.
pub fn encode_record_data(d: &ShmemDataInternal) -> (r: Vec<u8>)
    requires
        d@.wf(),
    ensures
        r@ == spec_encode_record_data(d@),
        r@.len() == RECORD_DATA_SIZE,
{
    proof {
        lemma_auto_spec_u32_to_from_le_bytes();
        lemma_auto_spec_u64_to_from_le_bytes();
    }
    let mut out: Vec<u8> = Vec::new();
    out.extend_from_slice(d.name.as_slice());
    let id_bytes = u32_to_le_bytes(d.handle_id);
    out.extend_from_slice(id_bytes.as_slice());
    let w_bytes = u32_to_le_bytes(d.width);
    out.extend_from_slice(w_bytes.as_slice());
    let h_bytes = u32_to_le_bytes(d.height);
    out.extend_from_slice(h_bytes.as_slice());
    let f_bytes = u32_to_le_bytes(format_code(d.format));
    out.extend_from_slice(f_bytes.as_slice());
    let a_bytes = u64_to_le_bytes(d.allocation_size);
    out.extend_from_slice(a_bytes.as_slice());
    proof {
        assert(out@ =~= spec_encode_record_data(d@));
    }
    out
}

/// Decode the data region of a segment back into a record.
pub fn decode_record_data(b: &Vec<u8>) -> (r: Result<ShmemDataInternal, IpcError>)
    ensures
        (match (r, spec_decode_record_data(b@)) {
            (Ok(d), Ok(v)) => d@ == v && d@.wf(),
            (Err(e), Err(v)) => e == v,
            _ => false,
        }),
{
    if b.len() != RECORD_DATA_SIZE {
        return Err(IpcError::BadLength);
    }
    let code = read_rec_u32(b, REC_FORMAT_OFF);
    match format_from_code(code) {
        None => Err(IpcError::UnknownFormat),
        Some(f) => {
            let name = vstd::slice::slice_to_vec(
                vstd::slice::slice_subrange(b.as_slice(), REC_NAME_OFF, REC_NAME_OFF + IMG_NAME_LEN),
            );
            Ok(
                ShmemDataInternal {
                    name,
                    handle_id: read_rec_u32(b, REC_HANDLE_ID_OFF),
                    width: read_rec_u32(b, REC_WIDTH_OFF),
                    height: read_rec_u32(b, REC_HEIGHT_OFF),
                    format: f,
                    allocation_size: read_rec_u64(b, REC_ALLOC_OFF),
                },
            )
        },
    }
}

fn read_rec_u32(b: &Vec<u8>, off: usize) -> (r: u32)
    requires
        off + 4 <= b@.len(),
    ensures
        r == spec_u32_from_le_bytes(b@.subrange(off as int, off + 4)),
{
    let _n: usize = b.len();
    u32_from_le_bytes(vstd::slice::slice_subrange(b.as_slice(), off, off + 4))
}

fn read_rec_u64(b: &Vec<u8>, off: usize) -> (r: u64)
    requires
        off + 8 <= b@.len(),
    ensures
        r == spec_u64_from_le_bytes(b@.subrange(off as int, off + 8)),
{
    let _n: usize = b.len();
    u64_from_le_bytes(vstd::slice::slice_subrange(b.as_slice(), off, off + 8))
}

/// Round trip: decoding the encoding of any well-formed record gives back
/// exactly that record.
pub proof fn lemma_record_data_round_trip(d: ShmemDataModel)
    requires
        d.wf(),
    ensures
        spec_decode_record_data(spec_encode_record_data(d)) == Ok::<ShmemDataModel, IpcError>(d),
{
    lemma_auto_spec_u32_to_from_le_bytes();
    lemma_auto_spec_u64_to_from_le_bytes();
    let b = spec_encode_record_data(d);
    assert(b.len() == RECORD_DATA_SIZE);
    assert(b.subrange(REC_NAME_OFF as int, REC_NAME_OFF + IMG_NAME_LEN) =~= d.name);
    assert(b.subrange(REC_HANDLE_ID_OFF as int, REC_HANDLE_ID_OFF + 4) =~= spec_u32_to_le_bytes(
        d.handle_id,
    ));
    assert(b.subrange(REC_WIDTH_OFF as int, REC_WIDTH_OFF + 4) =~= spec_u32_to_le_bytes(d.width));
    assert(b.subrange(REC_HEIGHT_OFF as int, REC_HEIGHT_OFF + 4) =~= spec_u32_to_le_bytes(d.height));
    assert(b.subrange(REC_FORMAT_OFF as int, REC_FORMAT_OFF + 4) =~= spec_u32_to_le_bytes(
        spec_format_code(d.format),
    ));
    assert(b.subrange(REC_ALLOC_OFF as int, REC_ALLOC_OFF + 8) =~= spec_u64_to_le_bytes(
        d.allocation_size,
    ));
    lemma_format_code_round_trip(d.format);
    assert(spec_decode_record_data(b)->Ok_0 =~= d);
}

/// The whole segment as first written by the creator: a zeroed lock region
/// followed by the encoded record.
pub open spec fn spec_segment_bytes(lock_region: Seq<u8>, d: ShmemDataModel) -> Seq<u8> {
    lock_region + spec_encode_record_data(d)
}

/// Read the version (handle id) of a record straight out of segment bytes,
/// without taking the lock. Advisory only: it answers "has the version
/// changed", never the rest of the metadata.
pub fn read_version_unlocked(segment: &Vec<u8>) -> (r: u32)
    requires
        segment@.len() == RECORD_SEGMENT_SIZE,
    ensures
        r == spec_u32_from_le_bytes(
            segment@.subrange(RECORD_VERSION_OFF as int, RECORD_VERSION_OFF + 4),
        ),
{
    let n: usize = segment.len();
    u32_from_le_bytes(
        vstd::slice::slice_subrange(segment.as_slice(), RECORD_VERSION_OFF, RECORD_VERSION_OFF + 4),
    )
}

/// The unlocked version probe reads exactly the record's version field.
pub proof fn lemma_version_probe(lock_region: Seq<u8>, d: ShmemDataModel)
    requires
        lock_region.len() == RECORD_DATA_OFF,
        d.wf(),
    ensures
        spec_u32_from_le_bytes(
            spec_segment_bytes(lock_region, d).subrange(
                RECORD_VERSION_OFF as int,
                RECORD_VERSION_OFF + 4,
            ),
        ) == d.handle_id,
{
    lemma_auto_spec_u32_to_from_le_bytes();
    let b = spec_segment_bytes(lock_region, d);
    assert(b.subrange(RECORD_VERSION_OFF as int, RECORD_VERSION_OFF + 4) =~= spec_u32_to_le_bytes(
        d.handle_id,
    ));
}

/// Admission state of the process-shared reader/writer lock guarding one
/// Shared Record: how many read guards are outstanding and whether a write
/// guard is.
pub struct RecordLock {
    pub readers: u32,
    pub writer: bool,
}

/// A read guard may be handed out while no writer holds the lock.
pub open spec fn spec_can_read(s: RecordLock) -> bool {
    !s.writer && s.readers < u32::MAX
}

/// A write guard may be handed out only when nobody holds the lock.
pub open spec fn spec_can_write(s: RecordLock) -> bool {
    !s.writer && s.readers == 0
}

impl RecordLock {
    /// A freshly initialized lock: nobody holds it.
    pub fn new() -> (r: RecordLock)
        ensures
            r.readers == 0,
            !r.writer,
            spec_can_write(r),
    {
        RecordLock { readers: 0, writer: false }
    }

    /// One attempt to take a read guard; succeeds exactly when no write
    /// guard is outstanding.
    pub fn try_acquire_read(&mut self) -> (ok: bool)
        ensures
            ok == spec_can_read(*old(self)),
            ok ==> final(self).readers == old(self).readers + 1 && final(self).writer == old(self).writer,
            !ok ==> *final(self) == *old(self),
    {
        if !self.writer && self.readers < u32::MAX {
            self.readers = self.readers + 1;
            true
        } else {
            false
        }
    }

    /// One attempt to take the write guard; succeeds exactly when no guard
    /// of either kind is outstanding.
    pub fn try_acquire_write(&mut self) -> (ok: bool)
        ensures
            ok == spec_can_write(*old(self)),
            ok ==> final(self).writer && final(self).readers == 0,
            !ok ==> *final(self) == *old(self),
    {
        if !self.writer && self.readers == 0 {
            self.writer = true;
            true
        } else {
            false
        }
    }

    /// Return a read guard.
    pub fn release_read(&mut self)
        requires
            old(self).readers > 0,
        ensures
            final(self).readers == old(self).readers - 1,
            final(self).writer == old(self).writer,
    {
        self.readers = self.readers - 1;
    }

    /// Return the write guard.
    pub fn release_write(&mut self)
        requires
            old(self).writer,
        ensures
            !final(self).writer,
            final(self).readers == old(self).readers,
    {
        self.writer = false;
    }
}

/// Any number of read guards may be outstanding at once: while no writer
/// holds the lock, another read guard can always be admitted.
pub proof fn lemma_reads_are_shared(s: RecordLock)
    requires
        !s.writer,
        s.readers + 1 < u32::MAX,
    ensures
        spec_can_read(s),
        spec_can_read(RecordLock { readers: (s.readers + 1) as u32, writer: s.writer }),
{
}

/// A write guard is admitted exactly when every read guard has been returned
/// and no write guard is outstanding; while it is held, no read guard is
/// admitted.
pub proof fn lemma_writer_excludes(s: RecordLock)
    ensures
        s.readers > 0 ==> !spec_can_write(s),
        s.writer ==> !spec_can_write(s) && !spec_can_read(s),
        !s.writer && s.readers == 0 ==> spec_can_write(s),
        s.writer ==> !spec_can_read(s),
{
}

} // verus!
