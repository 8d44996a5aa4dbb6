//! Client-side logic: building commands, interpreting the broker's replies,
//! the cache of imported resources, and the staleness decisions that keep a
//! client off the transport when its copy is already current.

use vstd::prelude::*;
use vstd::string::StringSliceAdditionalSpecFns;

use crate::error::IpcError;
use crate::img_data::{
    clone_bytes, copy_record, spec_zero_pad, ImgData, ImgFormat, IMG_NAME_LEN,
};
use crate::ipc_commands::{
    CommandMsg, CommandMsgModel, CommCopyImage, CommFindImage, CommInitImage, ResultMsg,
    ResultMsgModel,
};

verus! {

/// Build an `InitImage` command; the resource's segment is named after the
/// resource itself, so the name buffer doubles as the segment-name buffer.
pub fn build_init_command(
    image_name: &str,
    width: u32,
    height: u32,
    format: ImgFormat,
    overwrite_existing: bool,
    gpu_device_uuid: u128,
) -> (r: CommandMsg)
    requires
        image_name.spec_bytes().len() < IMG_NAME_LEN,
    ensures
        r@ matches CommandMsgModel::InitImage(c) && c.image_name == spec_zero_pad(
            image_name.spec_bytes(),
            IMG_NAME_LEN as nat,
        ) && c.shmem_name == c.image_name && c.width == width && c.height == height && c.format
            == format && c.overwrite_existing == overwrite_existing && c.gpu_device_uuid
            == gpu_device_uuid,
        r@.wf(),
{
    let buf = ImgData::convert_shmem_str_to_array(image_name);
    let buf2 = clone_bytes(&buf);
    CommandMsg::InitImage(
        CommInitImage {
            image_name: buf,
            shmem_name: buf2,
            width,
            height,
            format,
            overwrite_existing,
            gpu_device_uuid,
        },
    )
}

/// Build a `FindImage` command.
pub fn build_find_command(image_name: &str, gpu_device_uuid: u128) -> (r: CommandMsg)
    requires
        image_name.spec_bytes().len() < IMG_NAME_LEN,
    ensures
        r@ matches CommandMsgModel::FindImage(c) && c.image_name == spec_zero_pad(
            image_name.spec_bytes(),
            IMG_NAME_LEN as nat,
        ) && c.gpu_device_uuid == gpu_device_uuid,
        r@.wf(),
{
    CommandMsg::FindImage(
        CommFindImage {
            image_name: ImgData::convert_shmem_str_to_array(image_name),
            gpu_device_uuid,
        },
    )
}

/// Build a `CopyImage` command.
pub fn build_copy_command(image_name: &str, gpu_device_uuid: u128) -> (r: CommandMsg)
    requires
        image_name.spec_bytes().len() < IMG_NAME_LEN,
    ensures
        r@ matches CommandMsgModel::CopyImage(c) && c.image_name == spec_zero_pad(
            image_name.spec_bytes(),
            IMG_NAME_LEN as nat,
        ) && c.gpu_device_uuid == gpu_device_uuid,
        r@.wf(),
{
    CommandMsg::CopyImage(
        CommCopyImage {
            image_name: ImgData::convert_shmem_str_to_array(image_name),
            gpu_device_uuid,
        },
    )
}

/// Read an `InitImage` reply: the record when a resource was created, `None`
/// when the broker declined, and a protocol error when the reply answers a
/// different command.
pub fn interpret_init_result(res: &ResultMsg) -> (r: Result<Option<ImgData>, IpcError>)
    ensures
        (match res@ {
            ResultMsgModel::InitImage(ri) => (match r {
                Ok(Some(d)) => ri.image_created && d@ == ri.img_data,
                Ok(None) => !ri.image_created,
                Err(_) => false,
            }),
            _ => r == Err::<Option<ImgData>, IpcError>(IpcError::UnexpectedResult),
        }),
{
    match res {
        ResultMsg::InitImage(ri) => {
            if ri.image_created {
                Ok(
                    Some(
                        ImgData {
                            shmem_name: clone_bytes(&ri.img_data.shmem_name),
                            data: copy_record(&ri.img_data.data),
                        },
                    ),
                )
            } else {
                Ok(None)
            }
        },
        _ => Err(IpcError::UnexpectedResult),
    }
}

/// Read a `FindImage` reply: the record when the resource is tracked, `None`
/// when it is not, and a protocol error when the reply answers a different
/// command.
pub fn interpret_find_result(res: &ResultMsg) -> (r: Result<Option<ImgData>, IpcError>)
    ensures
        (match res@ {
            ResultMsgModel::FindImage(rf) => (match r {
                Ok(Some(d)) => rf.image_found && d@ == rf.img_data,
                Ok(None) => !rf.image_found,
                Err(_) => false,
            }),
            _ => r == Err::<Option<ImgData>, IpcError>(IpcError::UnexpectedResult),
        }),
{
    match res {
        ResultMsg::FindImage(rf) => {
            if rf.image_found {
                Ok(
                    Some(
                        ImgData {
                            shmem_name: clone_bytes(&rf.img_data.shmem_name),
                            data: copy_record(&rf.img_data.data),
                        },
                    ),
                )
            } else {
                Ok(None)
            }
        },
        _ => Err(IpcError::UnexpectedResult),
    }
}

/// An imported copy exists for this name, at the version it was imported at.
pub struct ClientImage {
    pub name: Vec<u8>,
    pub imported_id: u32,
}

/// The client's cache of imported resources, keyed by trimmed resource name.
pub struct ClientCache {
    pub images: Vec<ClientImage>,
}

impl ClientCache {
    pub open spec fn wf(self) -> bool {
        forall|i1: int, i2: int|
            0 <= i1 < i2 < self.images@.len() ==> self.images@[i1].name@ != self.images@[i2].name@
    }

    pub open spec fn spec_has(self, name: Seq<u8>) -> bool {
        exists|i: int| 0 <= i < self.images@.len() && self.images@[i].name@ == name
    }

    pub open spec fn spec_index_of(self, name: Seq<u8>) -> int {
        choose|i: int| 0 <= i < self.images@.len() && self.images@[i].name@ == name
    }

    pub open spec fn spec_imported_id(self, name: Seq<u8>) -> u32 {
        self.images@[self.spec_index_of(name)].imported_id
    }

    pub fn new() -> (r: ClientCache)
        ensures
            r.images@.len() == 0,
            r.wf(),
    {
        ClientCache { images: Vec::new() }
    }

    /// Index of the imported copy of `name`, if any.
    fn find_idx(&self, name: &Vec<u8>) -> (r: Option<usize>)
        requires
            self.wf(),
        ensures
            match r {
                Some(i) => self.spec_has(name@) && i == self.spec_index_of(name@) && i
                    < self.images@.len(),
                None => !self.spec_has(name@),
            },
    {
        let n = self.images.len();
        let mut i: usize = 0;
        while i < n
            invariant
                self.wf(),
                n == self.images@.len(),
                0 <= i <= n,
                forall|k: int| 0 <= k < i ==> self.images@[k].name@ != name@,
            decreases n - i,
        {
            if crate::img_data::bytes_equal(&self.images[i].name, name) {
                proof {
                    assert(self.spec_has(name@));
                    let i2 = self.spec_index_of(name@);
                    assert(self.images@[i2].name@ == name@);
                    if i2 != i {
                        if i2 < i {
                            assert(self.images@[i2].name@ != name@);
                        } else {
                            assert(self.images@[i as int].name@ != self.images@[i2].name@);
                        }
                    }
                }
                return Some(i);
            }
            i = i + 1;
        }
        proof {
            if self.spec_has(name@) {
                let i2 = self.spec_index_of(name@);
                assert(self.images@[i2].name@ != name@);
            }
        }
        None
    }

    /// Whether a lookup must go over the transport: a forced lookup always
    /// does, an unforced one only when no imported copy exists. An unforced
    /// lookup of a cached name is answered locally, with no round trip.
    pub fn find_needs_round_trip(&self, name: &Vec<u8>, force_update: bool) -> (r: bool)
        requires
            self.wf(),
        ensures
            r == (force_update || !self.spec_has(name@)),
    {
        if force_update {
            true
        } else {
            match self.find_idx(name) {
                Some(_) => false,
                None => true,
            }
        }
    }

    /// Record that a copy of `name` was imported at version `imported_id`,
    /// replacing any older imported copy of the same name.
    pub fn note_imported(&mut self, name: Vec<u8>, imported_id: u32)
        requires
            old(self).wf(),
        ensures
            final(self).wf(),
            final(self).spec_has(name@),
            final(self).spec_imported_id(name@) == imported_id,
            forall|other: Seq<u8>|
                other != name@ ==> (final(self).spec_has(other) == old(self).spec_has(other)),
            forall|other: Seq<u8>|
                other != name@ && old(self).spec_has(other) ==> final(self).spec_imported_id(other)
                    == old(self).spec_imported_id(other),
    {
        let ghost oldc = *self;
        let entry = ClientImage { name, imported_id };
        let ghost e = entry;
        let ghost nm = e.name@;
        let idx_opt = self.find_idx(&entry.name);
        match idx_opt {
            Some(i) => {
                self.images[i] = entry;
                proof {
                    assert(self.images@ =~= oldc.images@.update(i as int, e));
                    assert forall|k: int| 0 <= k < self.images@.len() implies (
                    #[trigger] self.images@[k]).name@ == oldc.images@[k].name@ by {
                        if k == i {
                            assert(oldc.images@[i as int].name@ == nm);
                        }
                    }
                    assert(self.wf());
                    assert(self.spec_has(nm));
                    let k2 = self.spec_index_of(nm);
                    if k2 != i {
                        assert(self.images@[k2].name@ == self.images@[i as int].name@);
                        assert(false);
                    }
                    assert(self.spec_imported_id(nm) == imported_id);
                    assert forall|other: Seq<u8>| other != nm implies (self.spec_has(other)
                        == oldc.spec_has(other)) by {
                        if self.spec_has(other) {
                            let k = self.spec_index_of(other);
                            assert(oldc.images@[k].name@ == other);
                        }
                        if oldc.spec_has(other) {
                            let k = oldc.spec_index_of(other);
                            assert(self.images@[k].name@ == other);
                        }
                    }
                    assert forall|other: Seq<u8>| other != nm && oldc.spec_has(other) implies
                        self.spec_imported_id(other) == oldc.spec_imported_id(other) by {
                        let k = oldc.spec_index_of(other);
                        assert(self.images@[k].name@ == other);
                        let k2 = self.spec_index_of(other);
                        if k2 != k {
                            if k2 < k {
                                assert(self.images@[k2].name@ != self.images@[k].name@);
                            } else {
                                assert(self.images@[k].name@ != self.images@[k2].name@);
                            }
                        }
                        assert(k2 != i);
                    }
                }
            },
            None => {
                self.images.push(entry);
                proof {
                    assert(self.images@ =~= oldc.images@.push(e));
                    let last = self.images@.len() - 1;
                    assert forall|i1: int, i2: int|
                        0 <= i1 < i2 < self.images@.len() implies (
                    #[trigger] self.images@[i1]).name@ != (#[trigger] self.images@[i2]).name@ by {
                        if i2 == last {
                            assert(oldc.images@[i1].name@ != nm);
                        }
                    }
                    assert(self.images@[last].name@ == nm);
                    assert(self.spec_has(nm));
                    let k2 = self.spec_index_of(nm);
                    if k2 != last {
                        assert(self.images@[k2].name@ != self.images@[last].name@);
                        assert(false);
                    }
                    assert(self.spec_imported_id(nm) == imported_id);
                    assert forall|other: Seq<u8>| other != nm implies (self.spec_has(other)
                        == oldc.spec_has(other)) by {
                        if self.spec_has(other) {
                            let k = self.spec_index_of(other);
                            assert(k != last);
                            assert(oldc.images@[k].name@ == other);
                        }
                        if oldc.spec_has(other) {
                            let k = oldc.spec_index_of(other);
                            assert(self.images@[k].name@ == other);
                        }
                    }
                    assert forall|other: Seq<u8>| other != nm && oldc.spec_has(other) implies
                        self.spec_imported_id(other) == oldc.spec_imported_id(other) by {
                        let k = oldc.spec_index_of(other);
                        assert(self.images@[k].name@ == other);
                        let k2 = self.spec_index_of(other);
                        if k2 != k {
                            if k2 < k {
                                assert(self.images@[k2].name@ != self.images@[k].name@);
                            } else {
                                assert(self.images@[k].name@ != self.images@[k2].name@);
                            }
                        }
                    }
                }
            },
        }
    }

    /// The version the cached copy of `name` was imported at, if any.
    pub fn imported_id(&self, name: &Vec<u8>) -> (r: Option<u32>)
        requires
            self.wf(),
        ensures
            match r {
                Some(v) => self.spec_has(name@) && v == self.spec_imported_id(name@),
                None => !self.spec_has(name@),
            },
    {
        match self.find_idx(name) {
            Some(i) => Some(self.images[i].imported_id),
            None => None,
        }
    }

    /// Whether the broker has republished this resource since the client
    /// imported its copy: the advisory version probe against the imported
    /// version. Equality means the copy is current.
    pub fn is_update_available(record_version: u32, imported_id: u32) -> (r: bool)
        ensures
            r == (record_version != imported_id),
    {
        record_version != imported_id
    }
}

} // verus!
