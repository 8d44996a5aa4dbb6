//! The shared-memory segment behind one Shared Record: creation with the
//! stale-segment recovery policy, opening with the layout check, and the
//! naming the creator and every opener agree on.
//!
//! The mapping itself comes from the `shared_memory` crate; the calls into it
//! stand behind the trusted wrappers at the bottom of this file. Everything
//! decided around them — validation of the resource name, the
//! recover-once-then-fail collision policy, the offset check — is verified.

use vstd::prelude::*;
use vstd::string::StringSliceAdditionalSpecFns;

use crate::error::IpcError;
use crate::img_data::{ShmemDataInternal, ShmemDataModel, IMG_NAME_LEN};
use crate::record::{record_data_offset, validate_data_offset, RECORD_SEGMENT_SIZE};

verus! {

#[verifier::external_type_specification]
#[verifier::external_body]
pub struct ExShmem(shared_memory::Shmem);

/// One mapped Shared Record segment: the OS mapping, the segment's name,
/// whether this process created (and thus owns) it, and — for the creator —
/// the record it must publish first.
pub struct IpcShmem {
    shmem: shared_memory::Shmem,
    name: String,
    owner: bool,
    initial: ShmemDataInternal,
}

/// What the verified world sees of a mapped segment.
#[verifier::ext_equal]
pub struct IpcShmemModel {
    pub name: Seq<char>,
    pub owner: bool,
    pub initial: ShmemDataModel,
}

impl View for IpcShmem {
    type V = IpcShmemModel;

    closed spec fn view(&self) -> IpcShmemModel {
        IpcShmemModel { name: self.name@, owner: self.owner, initial: self.initial@ }
    }
}

impl IpcShmem {
    /// Create or open the segment named `name` for the resource `img_name`.
    ///
    /// Creation sizes the segment for the lock block plus the record and
    /// recovers from a stale name collision exactly once, by force-deleting
    /// the orphaned segment and retrying; a second collision fails the call.
    /// Opening maps the existing segment and checks that this process
    /// computes the record offset the creator used. A resource name that
    /// cannot fit its buffer with a terminator is rejected up front.
    pub fn new(name: &str, img_name: &str, create: bool) -> (r: Result<IpcShmem, IpcError>)
        ensures
            (match r {
                Ok(m) => {
                    &&& img_name.spec_bytes().len() < IMG_NAME_LEN
                    &&& m@.name == name@
                    &&& m@.owner == create
                    &&& m@.initial == ShmemDataModel::spec_empty(img_name.spec_bytes())
                    &&& m@.initial.wf()
                },
                Err(e) => e == IpcError::NameTooLong || e == IpcError::ShmemCollision || e
                    == IpcError::ShmemSetup || e == IpcError::LayoutMismatch,
            }),
            // The one error this function decides by itself comes exactly
            // when its cause is there; the OS-decided errors never wear it.
            (r is Err && r->Err_0 == IpcError::NameTooLong) <==> img_name.spec_bytes().len()
                >= IMG_NAME_LEN,
            // Error routing: a collision is a creation-time outcome and the
            // layout check runs only when opening.
            r is Err && create ==> r->Err_0 != IpcError::LayoutMismatch,
            r is Err && !create ==> r->Err_0 != IpcError::ShmemCollision,
    {
        let initial = match ShmemDataInternal::new_empty(img_name) {
            Ok(d) => d,
            Err(e) => {
                return Err(e);
            },
        };
        let shmem = if create {
            match shmem_create_raw(name, RECORD_SEGMENT_SIZE) {
                Ok(m) => m,
                Err(IpcError::ShmemCollision) => {
                    // A segment with this name exists but nobody owns it:
                    // delete the orphan and retry once; a second collision
                    // is fatal for this call.
                    shmem_force_delete(name);
                    match shmem_create_raw(name, RECORD_SEGMENT_SIZE) {
                        Ok(m) => m,
                        Err(e) => {
                            return Err(e);
                        },
                    }
                },
                Err(e) => {
                    return Err(e);
                },
            }
        } else {
            let m = match shmem_open_raw(name, RECORD_SEGMENT_SIZE) {
                Ok(m) => m,
                Err(e) => {
                    return Err(e);
                },
            };
            // The opener must lay the record at the same offset the creator
            // did; a disagreement is a fatal configuration error.
            match validate_data_offset(record_data_offset()) {
                Ok(()) => m,
                Err(e) => {
                    return Err(e);
                },
            }
        };
        Ok(IpcShmem { shmem, name: name.to_owned(), owner: create, initial })
    }

    /// The segment's name, as creator and openers address it.
    pub fn get_name(&self) -> (r: &str)
        ensures
            r@ == self@.name,
    {
        self.name.as_str()
    }

    /// Whether this process created the segment and unlinks it on drop.
    pub fn is_owner(&self) -> (r: bool)
        ensures
            r == self@.owner,
    {
        self.owner
    }

    /// The record the creator publishes before anyone opens the segment.
    pub fn initial_record(&self) -> (r: &ShmemDataInternal)
        ensures
            r@ == self@.initial,
    {
        &self.initial
    }

    /// The OS mapping, for the unverified layer that binds the lock and the
    /// record bytes to it.
    pub fn raw_mapping(&self) -> &shared_memory::Shmem {
        &self.shmem
    }

    /// How many bytes every Shared Record segment has.
    pub fn segment_len() -> (r: usize)
        ensures
            r == RECORD_SEGMENT_SIZE,
    {
        RECORD_SEGMENT_SIZE
    }
}

/// Relies on shared_memory::ShmemConf::create: maps a fresh OS shared-memory
/// segment of `size` bytes under `os_id`; a name collision is reported as
/// `ShmemError::MappingIdExists`, every other failure as another variant.
#[verifier::external_body]
fn shmem_create_raw(os_id: &str, size: usize) -> (r: Result<shared_memory::Shmem, IpcError>)
    ensures
        r is Err ==> r->Err_0 == IpcError::ShmemCollision || r->Err_0 == IpcError::ShmemSetup,
{
    match shared_memory::ShmemConf::new().os_id(os_id).size(size).create() {
        Ok(m) => Ok(m),
        Err(shared_memory::ShmemError::MappingIdExists) => Err(IpcError::ShmemCollision),
        Err(_) => Err(IpcError::ShmemSetup),
    }
}

/// Relies on shared_memory::ShmemConf::open: maps the existing segment named
/// `os_id`.
#[verifier::external_body]
fn shmem_open_raw(os_id: &str, size: usize) -> (r: Result<shared_memory::Shmem, IpcError>)
    ensures
        r is Err ==> r->Err_0 == IpcError::ShmemSetup,
{
    match shared_memory::ShmemConf::new().os_id(os_id).size(size).open() {
        Ok(m) => Ok(m),
        Err(_) => Err(IpcError::ShmemSetup),
    }
}

/// Relies on shared_memory::Shmem::set_owner: opening a stale segment and
/// taking ownership makes the drop at the end of this call unlink it; a
/// segment that cannot be opened needs no deletion.
#[verifier::external_body]
fn shmem_force_delete(os_id: &str) {
    if let Ok(mut m) = shared_memory::ShmemConf::new().os_id(os_id).open() {
        m.set_owner(true);
    }
}

} // verus!
