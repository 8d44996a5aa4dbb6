//! The broker's resource registry and its command handlers.
//!
//! The registry maps a resource name to the set of per-device copies of that
//! resource; every copy carries the Shared Record the broker publishes for it.
//! `handle_init` implements the overwrite policy and the whole-name version
//! bump, `handle_find` answers lookups without touching anything, and
//! `plan_copy` names the devices a cross-device propagation must write to.
//! The graphics backend is an outside collaborator: the sizes of its
//! allocations enter `handle_init` as arguments, and the handlers are correct
//! for every value the backend may hand back.

use vstd::prelude::*;

use crate::img_data::{
    bytes_equal, clone_bytes, copy_record, has_terminator, lemma_trim_no_zeros, spec_trim_name,
    spec_zero_pad, zero_pad_to, ImgData, ImgDataModel, ShmemDataInternal, ShmemDataModel,
    IMG_NAME_LEN,
};
use crate::ipc_commands::{
    CommCopyImage, CommFindImage, CommFindImageModel, CommInitImage, ResultFindImage,
    ResultFindImageModel, ResultInitImage,
};

verus! {

/// One device's copy of a resource: the Shared Record the broker publishes
/// for it, under the segment name every importer opens.
pub struct ServerImageData {
    pub shmem_name: Vec<u8>,
    pub data: ShmemDataInternal,
}

#[verifier::ext_equal]
pub struct ServerImageModel {
    pub shmem_name: Seq<u8>,
    pub data: ShmemDataModel,
}

impl View for ServerImageData {
    type V = ServerImageModel;

    open spec fn view(&self) -> ServerImageModel {
        ServerImageModel { shmem_name: self.shmem_name@, data: self.data@ }
    }
}

impl ServerImageModel {
    pub open spec fn wf(self) -> bool {
        self.shmem_name.len() == IMG_NAME_LEN && self.data.wf()
    }
}

/// A resource copy keyed by the identity of the device that owns it.
pub struct DeviceEntry {
    pub gpu_device_uuid: u128,
    pub image: ServerImageData,
}

#[verifier::ext_equal]
pub struct DeviceModel {
    pub gpu_device_uuid: u128,
    pub image: ServerImageModel,
}

impl View for DeviceEntry {
    type V = DeviceModel;

    open spec fn view(&self) -> DeviceModel {
        DeviceModel { gpu_device_uuid: self.gpu_device_uuid, image: self.image@ }
    }
}

/// All device copies of one named resource.
pub struct NamedEntry {
    pub name: Vec<u8>,
    pub images: Vec<DeviceEntry>,
}

#[verifier::ext_equal]
pub struct NamedModel {
    pub name: Seq<u8>,
    pub images: Seq<DeviceModel>,
}

/// The models of a sequence of device copies.
pub open spec fn spec_devices(images: Seq<DeviceEntry>) -> Seq<DeviceModel> {
    Seq::new(images.len(), |j: int| images[j]@)
}

/// The models of a sequence of named entries.
pub open spec fn spec_entries(entries: Seq<NamedEntry>) -> Seq<NamedModel> {
    Seq::new(entries.len(), |i: int| entries[i]@)
}

impl View for NamedEntry {
    type V = NamedModel;

    open spec fn view(&self) -> NamedModel {
        NamedModel { name: self.name@, images: spec_devices(self.images@) }
    }
}

/// The broker's registry: resource name, then device identity, to the
/// record and segment published for that copy.
pub struct Registry {
    pub shmem_prefix: Vec<u8>,
    pub entries: Vec<NamedEntry>,
}

#[verifier::ext_equal]
pub struct RegistryModel {
    pub shmem_prefix: Seq<u8>,
    pub entries: Seq<NamedModel>,
}

impl View for Registry {
    type V = RegistryModel;

    open spec fn view(&self) -> RegistryModel {
        RegistryModel { shmem_prefix: self.shmem_prefix@, entries: spec_entries(self.entries@) }
    }
}

impl NamedModel {
    /// Every copy of the resource carries the segment name the creator chose
    /// and the resource's own name in its record, device keys are unique.
    pub open spec fn wf(self, prefix: Seq<u8>) -> bool {
        &&& self.name.len() + prefix.len() < IMG_NAME_LEN
        &&& forall|k: int| 0 <= k < self.name.len() ==> self.name[k] != 0
        &&& forall|j1: int, j2: int|
            0 <= j1 < j2 < self.images.len() ==> self.images[j1].gpu_device_uuid
                != self.images[j2].gpu_device_uuid
        &&& forall|j: int|
            0 <= j < self.images.len() ==> {
                &&& (#[trigger] self.images[j]).image.wf()
                &&& self.images[j].image.shmem_name == spec_zero_pad(
                    prefix + self.name,
                    IMG_NAME_LEN as nat,
                )
                &&& self.images[j].image.data.name == spec_zero_pad(self.name, IMG_NAME_LEN as nat)
            }
    }

    pub open spec fn spec_has_device(self, dev: u128) -> bool {
        exists|j: int| 0 <= j < self.images.len() && self.images[j].gpu_device_uuid == dev
    }

    pub open spec fn spec_device_index(self, dev: u128) -> int {
        choose|j: int| 0 <= j < self.images.len() && self.images[j].gpu_device_uuid == dev
    }

    pub open spec fn spec_image(self, dev: u128) -> ServerImageModel {
        self.images[self.spec_device_index(dev)].image
    }
}

impl RegistryModel {
    pub open spec fn wf(self) -> bool {
        &&& forall|k: int| 0 <= k < self.shmem_prefix.len() ==> self.shmem_prefix[k] != 0
        &&& forall|i1: int, i2: int|
            0 <= i1 < i2 < self.entries.len() ==> self.entries[i1].name != self.entries[i2].name
        &&& forall|i: int|
            0 <= i < self.entries.len() ==> (#[trigger] self.entries[i]).wf(self.shmem_prefix)
    }

    pub open spec fn spec_has_name(self, name: Seq<u8>) -> bool {
        exists|i: int| 0 <= i < self.entries.len() && self.entries[i].name == name
    }

    pub open spec fn spec_name_index(self, name: Seq<u8>) -> int {
        choose|i: int| 0 <= i < self.entries.len() && self.entries[i].name == name
    }

    pub open spec fn spec_has_device(self, name: Seq<u8>, dev: u128) -> bool {
        self.spec_has_name(name) && self.entries[self.spec_name_index(name)].spec_has_device(dev)
    }

    /// The record the broker holds for `name` on device `dev`.
    pub open spec fn spec_image(self, name: Seq<u8>, dev: u128) -> ServerImageModel {
        self.entries[self.spec_name_index(name)].spec_image(dev)
    }

    /// The published version of `name` on `dev`.
    pub open spec fn spec_version(self, name: Seq<u8>, dev: u128) -> u32 {
        self.spec_image(name, dev).data.handle_id
    }
}

/// Looking anything up in a fresh registry finds nothing.
pub proof fn lemma_empty_registry_finds_nothing(reg: RegistryModel, name: Seq<u8>, dev: u128)
    requires
        reg.entries.len() == 0,
    ensures
        !reg.spec_has_name(name),
        !reg.spec_has_device(name, dev),
{
}

/// Bridge from a structural position in the registry to the observation
/// functions: the entry at a position is the one every lookup returns.
pub proof fn lemma_image_at(reg: RegistryModel, i: int, j: int)
    requires
        reg.wf(),
        0 <= i < reg.entries.len(),
        0 <= j < reg.entries[i].images.len(),
    ensures
        reg.spec_has_name(reg.entries[i].name),
        reg.spec_name_index(reg.entries[i].name) == i,
        reg.spec_has_device(reg.entries[i].name, reg.entries[i].images[j].gpu_device_uuid),
        reg.entries[i].spec_device_index(reg.entries[i].images[j].gpu_device_uuid) == j,
        reg.spec_image(reg.entries[i].name, reg.entries[i].images[j].gpu_device_uuid)
            == reg.entries[i].images[j].image,
{
    let name = reg.entries[i].name;
    let dev = reg.entries[i].images[j].gpu_device_uuid;
    assert(reg.spec_has_name(name));
    let i2 = reg.spec_name_index(name);
    assert(reg.entries[i2].name == name);
    if i2 != i {
        if i2 < i {
            assert(reg.entries[i2].name != reg.entries[i].name);
        } else {
            assert(reg.entries[i].name != reg.entries[i2].name);
        }
    }
    assert(i2 == i);
    assert(reg.entries[i].spec_has_device(dev));
    let j2 = reg.entries[i].spec_device_index(dev);
    assert(reg.entries[i].images[j2].gpu_device_uuid == dev);
    if j2 != j {
        if j2 < j {
            assert(reg.entries[i].images[j2].gpu_device_uuid
                != reg.entries[i].images[j].gpu_device_uuid);
        } else {
            assert(reg.entries[i].images[j].gpu_device_uuid
                != reg.entries[i].images[j2].gpu_device_uuid);
        }
    }
}

/// What a lookup answers: found exactly when the trimmed name is tracked on
/// the asking device, and then the copy's record and segment name; a
/// negative answer carries the default record.
pub open spec fn spec_find_result(reg: RegistryModel, cmd: CommFindImageModel) -> ResultFindImageModel {
    let name = spec_trim_name(cmd.image_name);
    if reg.spec_has_device(name, cmd.gpu_device_uuid) {
        let img = reg.spec_image(name, cmd.gpu_device_uuid);
        ResultFindImageModel {
            image_found: true,
            img_data: ImgDataModel { shmem_name: img.shmem_name, data: img.data },
        }
    } else {
        ResultFindImageModel { image_found: false, img_data: ImgDataModel::spec_default() }
    }
}

impl Registry {
    /// An empty registry for segments named `prefix + resource name`.
    pub fn new(shmem_prefix: Vec<u8>) -> (r: Registry)
        requires
            forall|k: int| 0 <= k < shmem_prefix@.len() ==> shmem_prefix@[k] != 0,
        ensures
            r@.shmem_prefix == shmem_prefix@,
            r@.entries.len() == 0,
            r@.wf(),
    {
        let r = Registry { shmem_prefix, entries: Vec::new() };
        proof {
            assert(r@.entries =~= Seq::<NamedModel>::empty());
        }
        r
    }

    /// Index of the entry tracking `name`, if any.
    fn find_name_idx(&self, name: &Vec<u8>) -> (r: Option<usize>)
        requires
            self@.wf(),
        ensures
            match r {
                Some(i) => self@.spec_has_name(name@) && i == self@.spec_name_index(name@) && i
                    < self@.entries.len(),
                None => !self@.spec_has_name(name@),
            },
    {
        let n = self.entries.len();
        let mut i: usize = 0;
        while i < n
            invariant
                self@.wf(),
                n == self@.entries.len(),
                0 <= i <= n,
                forall|k: int| 0 <= k < i ==> self@.entries[k].name != name@,
            decreases n - i,
        {
            if bytes_equal(&self.entries[i].name, name) {
                proof {
                    assert(self@.entries[i as int].name == name@);
                    assert(self@.spec_has_name(name@));
                    let i2 = self@.spec_name_index(name@);
                    assert(self@.entries[i2].name == name@);
                    if i2 != i {
                        if i2 < i {
                            assert(self@.entries[i2].name != name@);
                        } else {
                            assert(self@.entries[i as int].name != self@.entries[i2].name);
                        }
                    }
                }
                return Some(i);
            }
            i = i + 1;
        }
        proof {
            if self@.spec_has_name(name@) {
                let i2 = self@.spec_name_index(name@);
                assert(self@.entries[i2].name != name@);
            }
        }
        None
    }

    /// Index of the copy owned by `dev` among one name's copies, if any.
    fn find_dev_idx(images: &Vec<DeviceEntry>, dev: u128) -> (r: Option<usize>)
        ensures
            match r {
                Some(j) => j < images@.len() && spec_devices(images@)[j as int].gpu_device_uuid
                    == dev,
                None => forall|k: int|
                    0 <= k < images@.len() ==> spec_devices(images@)[k].gpu_device_uuid != dev,
            },
    {
        let n = images.len();
        let mut j: usize = 0;
        while j < n
            invariant
                n == images@.len(),
                0 <= j <= n,
                forall|k: int| 0 <= k < j ==> spec_devices(images@)[k].gpu_device_uuid != dev,
            decreases n - j,
        {
            if images[j].gpu_device_uuid == dev {
                return Some(j);
            }
            j = j + 1;
        }
        None
    }

    /// Answer a lookup: read the asking device's copy of the named resource,
    /// or report that there is none. Absence is a normal outcome, not an
    /// error, and the registry is left untouched.
    pub fn handle_find(&self, cmd: &CommFindImage) -> (r: ResultFindImage)
        requires
            self@.wf(),
            has_terminator(cmd.image_name@),
        ensures
            r@ == spec_find_result(self@, cmd@),
            r@.image_found <==> self@.spec_has_device(
                spec_trim_name(cmd.image_name@),
                cmd.gpu_device_uuid,
            ),
    {
        let name = ImgData::convert_shmem_array_to_str(&cmd.image_name);
        match self.find_name_idx(&name) {
            None => ResultFindImage { image_found: false, img_data: ImgData::default() },
            Some(i) => {
                match Self::find_dev_idx(&self.entries[i].images, cmd.gpu_device_uuid) {
                    None => {
                        proof {
                            let nm = spec_trim_name(cmd.image_name@);
                            if self@.spec_has_device(nm, cmd.gpu_device_uuid) {
                                let j = self@.entries[i as int].spec_device_index(
                                    cmd.gpu_device_uuid,
                                );
                                assert(self@.entries[i as int].images[j].gpu_device_uuid
                                    != cmd.gpu_device_uuid);
                            }
                        }
                        ResultFindImage { image_found: false, img_data: ImgData::default() }
                    },
                    Some(j) => {
                        let e = &self.entries[i].images[j];
                        proof {
                            lemma_image_at(self@, i as int, j as int);
                        }
                        ResultFindImage {
                            image_found: true,
                            img_data: ImgData {
                                shmem_name: clone_bytes(&e.image.shmem_name),
                                data: copy_record(&e.image.data),
                            },
                        }
                    },
                }
            },
        }
    }

    /// The devices currently tracking the named resource, in registry order.
    /// These are exactly the backend allocations an Init must resize.
    pub fn devices_tracking(&self, image_name: &Vec<u8>) -> (r: Vec<u128>)
        requires
            self@.wf(),
            has_terminator(image_name@),
        ensures
            ({
                let name = spec_trim_name(image_name@);
                if self@.spec_has_name(name) {
                    let imgs = self@.entries[self@.spec_name_index(name)].images;
                    r@.len() == imgs.len() && forall|j: int|
                        0 <= j < imgs.len() ==> r@[j] == imgs[j].gpu_device_uuid
                } else {
                    r@.len() == 0
                }
            }),
    {
        let name = ImgData::convert_shmem_array_to_str(image_name);
        let mut out: Vec<u128> = Vec::new();
        match self.find_name_idx(&name) {
            None => out,
            Some(i) => {
                let imgs = &self.entries[i].images;
                let n = imgs.len();
                let mut j: usize = 0;
                while j < n
                    invariant
                        n == imgs@.len(),
                        0 <= j <= n,
                        out@.len() == j,
                        forall|k: int|
                            0 <= k < j ==> out@[k] == spec_devices(imgs@)[k].gpu_device_uuid,
                    decreases n - j,
                {
                    out.push(imgs[j].gpu_device_uuid);
                    j = j + 1;
                }
                out
            },
        }
    }

    /// The record currently held for the named resource on one device: what
    /// the broker publishes into that device's Shared Record segment.
    pub fn record_of(&self, image_name: &Vec<u8>, dev: u128) -> (r: Option<ShmemDataInternal>)
        requires
            self@.wf(),
            has_terminator(image_name@),
        ensures
            (match r {
                Some(d) => self@.spec_has_device(spec_trim_name(image_name@), dev) && d@
                    == self@.spec_image(spec_trim_name(image_name@), dev).data,
                None => !self@.spec_has_device(spec_trim_name(image_name@), dev),
            }),
    {
        let ghost name_s = spec_trim_name(image_name@);
        let name = ImgData::convert_shmem_array_to_str(image_name);
        match self.find_name_idx(&name) {
            None => None,
            Some(i) => {
                match Self::find_dev_idx(&self.entries[i].images, dev) {
                    None => {
                        proof {
                            if self@.spec_has_device(name_s, dev) {
                                let j = self@.entries[i as int].spec_device_index(dev);
                                assert(self@.entries[i as int].images[j].gpu_device_uuid != dev);
                            }
                        }
                        None
                    },
                    Some(j) => {
                        proof {
                            lemma_image_at(self@, i as int, j as int);
                        }
                        Some(copy_record(&self.entries[i].images[j].image.data))
                    },
                }
            },
        }
    }
}


/// How an Init reshapes one device's copy: same segment and resource name,
/// the command's geometry, the backend's allocation size, and the version
/// bumped by one.
pub open spec fn spec_resized_image(
    old_img: ServerImageModel,
    width: u32,
    height: u32,
    format: crate::img_data::ImgFormat,
    alloc: u64,
) -> ServerImageModel {
    ServerImageModel {
        shmem_name: old_img.shmem_name,
        data: ShmemDataModel {
            name: old_img.data.name,
            handle_id: (old_img.data.handle_id + 1) as u32,
            width,
            height,
            format,
            allocation_size: alloc,
        },
    }
}

/// The copy first installed for a device that did not track the resource yet:
/// a fresh Shared Record under the deterministic segment name.
pub open spec fn spec_fresh_image(prefix: Seq<u8>, name: Seq<u8>) -> ServerImageModel {
    ServerImageModel {
        shmem_name: spec_zero_pad(prefix + name, IMG_NAME_LEN as nat),
        data: ShmemDataModel::spec_empty(name),
    }
}

/// The allocation list names a device.
pub open spec fn spec_alloc_has(a: Seq<(u128, u64)>, d: u128) -> bool {
    exists|k: int| 0 <= k < a.len() && a[k].0 == d
}

/// The allocation the list gives a device.
pub open spec fn spec_alloc_at(a: Seq<(u128, u64)>, d: u128) -> u64 {
    a[choose|k: int| 0 <= k < a.len() && a[k].0 == d].1
}

/// Each device appears at most once in an allocation list.
pub open spec fn spec_alloc_distinct(a: Seq<(u128, u64)>) -> bool {
    forall|k1: int, k2: int| 0 <= k1 < k2 < a.len() ==> a[k1].0 != a[k2].0
}

/// Find the allocation size recorded for a device.
fn lookup_alloc(a: &Vec<(u128, u64)>, d: u128) -> (r: Option<u64>)
    requires
        spec_alloc_distinct(a@),
    ensures
        match r {
            Some(v) => spec_alloc_has(a@, d) && v == spec_alloc_at(a@, d),
            None => !spec_alloc_has(a@, d),
        },
{
    let n = a.len();
    let mut k: usize = 0;
    while k < n
        invariant
            spec_alloc_distinct(a@),
            n == a@.len(),
            0 <= k <= n,
            forall|m: int| 0 <= m < k ==> a@[m].0 != d,
        decreases n - k,
    {
        if a[k].0 == d {
            proof {
                assert(spec_alloc_has(a@, d));
                let k2 = choose|m: int| 0 <= m < a@.len() && a@[m].0 == d;
                if k2 != k {
                    if k2 < k {
                        assert(a@[k2].0 != d);
                    } else {
                        assert(a@[k as int].0 != a@[k2].0);
                    }
                }
            }
            return Some(a[k].1);
        }
        k = k + 1;
    }
    None
}

impl Registry {
    /// Create or overwrite the named resource, as `InitImage` asks.
    ///
    /// If the asking device already tracks the name and overwrite was not
    /// requested, this is a no-op reporting "not created" and the registry is
    /// left exactly as it was. Otherwise every device tracking the name gets
    /// its copy recreated at the command's geometry with its version bumped
    /// by one, the asking device getting a fresh copy (bumped from version
    /// zero to one) if it had none, and the asking device's new record is
    /// returned for export. `alloc_sizes` holds the allocation size the
    /// graphics backend reported for each device's recreated resource.
    pub fn handle_init(&mut self, cmd: &CommInitImage, alloc_sizes: &Vec<(u128, u64)>) -> (r:
        ResultInitImage)
        requires
            old(self)@.wf(),
            cmd@.wf(),
            has_terminator(cmd.image_name@),
            spec_trim_name(cmd.image_name@).len() + old(self)@.shmem_prefix.len() < IMG_NAME_LEN,
            spec_alloc_distinct(alloc_sizes@),
            spec_alloc_has(alloc_sizes@, cmd.gpu_device_uuid),
            forall|d: u128|
                old(self)@.spec_has_device(spec_trim_name(cmd.image_name@), d) ==> spec_alloc_has(
                    alloc_sizes@,
                    d,
                ),
            forall|d: u128|
                old(self)@.spec_has_device(spec_trim_name(cmd.image_name@), d) ==> old(self)@.spec_version(spec_trim_name(cmd.image_name@), d) < u32::MAX,
        ensures
            ({
                let name = spec_trim_name(cmd.image_name@);
                let was_there = old(self)@.spec_has_device(name, cmd.gpu_device_uuid);
                let created = !was_there || cmd.overwrite_existing;
                &&& r@.image_created == created
                &&& !created ==> final(self)@ == old(self)@ && r@.img_data
                    == ImgDataModel::spec_default()
                &&& created ==> {
                    &&& final(self)@.wf()
                    &&& final(self)@.shmem_prefix == old(self)@.shmem_prefix
                    &&& forall|d: u128|
                        final(self)@.spec_has_device(name, d) <==> (old(self)@.spec_has_device(
                            name,
                            d,
                        ) || d == cmd.gpu_device_uuid)
                    &&& forall|d: u128|
                        old(self)@.spec_has_device(name, d) ==> final(self)@.spec_image(name, d)
                            == spec_resized_image(
                            old(self)@.spec_image(name, d),
                            cmd.width,
                            cmd.height,
                            cmd.format,
                            spec_alloc_at(alloc_sizes@, d),
                        )
                    &&& forall|d: u128|
                        old(self)@.spec_has_device(name, d) ==> final(self)@.spec_version(name, d)
                            == old(self)@.spec_version(name, d) + 1
                    &&& !was_there ==> final(self)@.spec_image(name, cmd.gpu_device_uuid)
                        == spec_resized_image(
                        spec_fresh_image(old(self)@.shmem_prefix, name),
                        cmd.width,
                        cmd.height,
                        cmd.format,
                        spec_alloc_at(alloc_sizes@, cmd.gpu_device_uuid),
                    )
                    &&& !was_there ==> final(self)@.spec_version(name, cmd.gpu_device_uuid) == 1
                    &&& r@.img_data.shmem_name == final(self)@.spec_image(
                        name,
                        cmd.gpu_device_uuid,
                    ).shmem_name
                    &&& r@.img_data.data == final(self)@.spec_image(name, cmd.gpu_device_uuid).data
                    &&& spec_find_result(
                        final(self)@,
                        CommFindImageModel {
                            image_name: cmd.image_name@,
                            gpu_device_uuid: cmd.gpu_device_uuid,
                        },
                    ) == (ResultFindImageModel { image_found: true, img_data: r@.img_data })
                    &&& old(self)@.spec_has_name(name) ==> final(self)@.entries.len() == old(self)@.entries.len()
                    &&& !old(self)@.spec_has_name(name) ==> final(self)@.entries.len() == old(self)@.entries.len() + 1
                    &&& forall|i: int|
                        0 <= i < old(self)@.entries.len() && old(self)@.entries[i].name != name
                            ==> final(self)@.entries[i] == old(self)@.entries[i]
                }
            }),
    {
        let ghost old_reg = self@;
        let ghost name_s = spec_trim_name(cmd.image_name@);
        proof {
            crate::img_data::lemma_trim_no_zeros(cmd.image_name@);
        }
        let name = ImgData::convert_shmem_array_to_str(&cmd.image_name);
        let ni_opt = self.find_name_idx(&name);
        let mut was_there = false;
        if let Some(i) = ni_opt {
            if let Some(j) = Self::find_dev_idx(&self.entries[i].images, cmd.gpu_device_uuid) {
                was_there = true;
                proof {
                    lemma_image_at(old_reg, i as int, j as int);
                }
            } else {
                proof {
                    if old_reg.spec_has_device(name_s, cmd.gpu_device_uuid) {
                        let jd = old_reg.entries[i as int].spec_device_index(cmd.gpu_device_uuid);
                        assert(old_reg.entries[i as int].images[jd].gpu_device_uuid
                            != cmd.gpu_device_uuid);
                    }
                }
            }
        }
        proof {
            assert(was_there == old_reg.spec_has_device(name_s, cmd.gpu_device_uuid));
        }
        if was_there && !cmd.overwrite_existing {
            return ResultInitImage { image_created: false, img_data: ImgData::default() };
        }
        // Take the tracked copies of this name out of the registry (or start
        // an empty set for a new name).
        let (entry_name, mut images, ni): (Vec<u8>, Vec<DeviceEntry>, usize) = match ni_opt {
            Some(i) => {
                let e = self.entries.remove(i);
                (e.name, e.images, i)
            },
            None => (clone_bytes(&name), Vec::new(), self.entries.len()),
        };
        let ghost base_images = images@;
        // A device that did not track the resource yet gets a fresh Shared
        // Record under the deterministic segment name.
        if !was_there {
            let mut shname = clone_bytes(&self.shmem_prefix);
            shname.extend_from_slice(name.as_slice());
            zero_pad_to(&mut shname, IMG_NAME_LEN);
            let mut name_buf = clone_bytes(&name);
            zero_pad_to(&mut name_buf, IMG_NAME_LEN);
            let fresh = DeviceEntry {
                gpu_device_uuid: cmd.gpu_device_uuid,
                image: ServerImageData {
                    shmem_name: shname,
                    data: ShmemDataInternal {
                        name: name_buf,
                        handle_id: 0,
                        width: 0,
                        height: 0,
                        format: crate::img_data::ImgFormat::Undefined,
                        allocation_size: 0,
                    },
                },
            };
            proof {
                assert(fresh@.image =~= spec_fresh_image(old_reg.shmem_prefix, name_s));
            }
            images.push(fresh);
        }
        // Recreate every device's copy at the new geometry, bumping its
        // version: the read-modify-write that the record's write lock guards.
        proof {
            assert forall|k: int| 0 <= k < images@.len() implies spec_alloc_has(
                alloc_sizes@,
                (#[trigger] images@[k])@.gpu_device_uuid,
            ) && images@[k]@.image.data.handle_id < u32::MAX by {
                if k < base_images.len() {
                    let oni = old_reg.spec_name_index(name_s);
                    assert(base_images[k]@ == old_reg.entries[oni].images[k]);
                    lemma_image_at(old_reg, oni, k);
                }
            }
        }
        let n = images.len();
        let mut new_images: Vec<DeviceEntry> = Vec::new();
        let mut j: usize = 0;
        while j < n
            invariant
                n == images@.len(),
                0 <= j <= n,
                new_images@.len() == j,
                spec_alloc_distinct(alloc_sizes@),
                cmd@.wf(),
                forall|k: int|
                    0 <= k < n ==> spec_alloc_has(
                        alloc_sizes@,
                        (#[trigger] images@[k])@.gpu_device_uuid,
                    ),
                forall|k: int|
                    0 <= k < n ==> (#[trigger] images@[k])@.image.data.handle_id < u32::MAX,
                forall|k: int|
                    0 <= k < j ==> (#[trigger] new_images@[k])@.gpu_device_uuid
                        == images@[k]@.gpu_device_uuid,
                forall|k: int|
                    0 <= k < j ==> (#[trigger] new_images@[k])@.image == spec_resized_image(
                        images@[k]@.image,
                        cmd.width,
                        cmd.height,
                        cmd.format,
                        spec_alloc_at(alloc_sizes@, images@[k]@.gpu_device_uuid),
                    ),
            decreases n - j,
        {
            let d = images[j].gpu_device_uuid;
            let alloc = match lookup_alloc(alloc_sizes, d) {
                Some(v) => v,
                None => {
                    proof {
                        assert(false);
                    }
                    0
                },
            };
            let e = &images[j];
            let updated = DeviceEntry {
                gpu_device_uuid: d,
                image: ServerImageData {
                    shmem_name: clone_bytes(&e.image.shmem_name),
                    data: ShmemDataInternal {
                        name: clone_bytes(&e.image.data.name),
                        handle_id: e.image.data.handle_id + 1,
                        width: cmd.width,
                        height: cmd.height,
                        format: cmd.format,
                        allocation_size: alloc,
                    },
                },
            };
            proof {
                assert(updated@.image =~= spec_resized_image(
                    images@[j as int]@.image,
                    cmd.width,
                    cmd.height,
                    cmd.format,
                    spec_alloc_at(alloc_sizes@, d),
                ));
            }
            new_images.push(updated);
            j = j + 1;
        }
        // The asking device's new record is what the broker hands back for
        // export.
        let dj = match Self::find_dev_idx(&new_images, cmd.gpu_device_uuid) {
            Some(dj) => dj,
            None => {
                proof {
                    if was_there {
                        let oni = old_reg.spec_name_index(name_s);
                        let jd = old_reg.entries[oni].spec_device_index(cmd.gpu_device_uuid);
                        lemma_image_at(old_reg, oni, jd);
                        assert(spec_devices(new_images@)[jd].gpu_device_uuid
                            != cmd.gpu_device_uuid);
                    } else {
                        assert(spec_devices(new_images@)[n - 1].gpu_device_uuid
                            != cmd.gpu_device_uuid);
                    }
                    assert(false);
                }
                0
            },
        };
        let rimg = ImgData {
            shmem_name: clone_bytes(&new_images[dj].image.shmem_name),
            data: copy_record(&new_images[dj].image.data),
        };
        let new_entry = NamedEntry { name: entry_name, images: new_images };
        match ni_opt {
            Some(i) => {
                self.entries.insert(i, new_entry);
            },
            None => {
                self.entries.push(new_entry);
            },
        }
        let res = ResultInitImage { image_created: true, img_data: rimg };
        proof {
            let had_name = old_reg.spec_has_name(name_s);
            let prefix = old_reg.shmem_prefix;
            let nin = ni as int;
            let new_reg = self@;
            let nm = new_reg.entries[nin];
            let base = spec_devices(base_images);
            let imgs = spec_devices(images@);
            let nb = base.len() as int;
            // Structure of the final entry sequence.
            if had_name {
                assert(new_reg.entries =~= old_reg.entries.update(nin, nm));
            } else {
                assert(new_reg.entries =~= old_reg.entries.push(nm));
            }
            assert(nm.name == name_s);
            // The copies the update loop started from: the old tracked set,
            // plus a fresh copy for the asking device when it had none.
            if had_name {
                assert(old_reg.entries[nin].images =~= base);
            }
            if !was_there {
                assert(imgs =~= base.push(
                    DeviceModel {
                        gpu_device_uuid: cmd.gpu_device_uuid,
                        image: spec_fresh_image(prefix, name_s),
                    },
                ));
            } else {
                assert(imgs =~= base);
            }
            assert(nm.images.len() == imgs.len());
            // Device keys are kept, records are resized.
            assert forall|k: int|
                0 <= k < imgs.len() implies (#[trigger] nm.images[k]).gpu_device_uuid
                == imgs[k].gpu_device_uuid && nm.images[k].image == spec_resized_image(
                imgs[k].image,
                cmd.width,
                cmd.height,
                cmd.format,
                spec_alloc_at(alloc_sizes@, imgs[k].gpu_device_uuid),
            ) by {}
            // Well-formedness of the rebuilt entry.
            assert(nm.wf(prefix)) by {
                assert forall|j1: int, j2: int|
                    0 <= j1 < j2 < nm.images.len() implies nm.images[j1].gpu_device_uuid
                    != nm.images[j2].gpu_device_uuid by {
                    if had_name && j2 < nb {
                        assert(old_reg.entries[nin].wf(prefix));
                        assert(base[j1].gpu_device_uuid != base[j2].gpu_device_uuid);
                    }
                }
                assert forall|j: int| 0 <= j < nm.images.len() implies {
                    &&& (#[trigger] nm.images[j]).image.wf()
                    &&& nm.images[j].image.shmem_name == spec_zero_pad(
                        prefix + name_s,
                        IMG_NAME_LEN as nat,
                    )
                    &&& nm.images[j].image.data.name == spec_zero_pad(name_s, IMG_NAME_LEN as nat)
                } by {
                    if j < nb {
                        assert(old_reg.entries[nin].wf(prefix));
                        assert(base[j].image.wf());
                    } else {
                        assert(imgs[j].image == spec_fresh_image(prefix, name_s));
                    }
                    assert(spec_zero_pad(prefix + name_s, IMG_NAME_LEN as nat).len()
                        == IMG_NAME_LEN);
                    assert(spec_zero_pad(name_s, IMG_NAME_LEN as nat).len() == IMG_NAME_LEN);
                }
            }
            // Well-formedness of the whole registry.
            assert(new_reg.wf()) by {
                assert forall|i1: int, i2: int|
                    0 <= i1 < i2 < new_reg.entries.len() implies new_reg.entries[i1].name
                    != new_reg.entries[i2].name by {
                    if !had_name && i2 == new_reg.entries.len() - 1 {
                        assert(old_reg.entries[i1].name != name_s);
                    }
                }
                assert forall|i: int|
                    0 <= i < new_reg.entries.len() implies (#[trigger] new_reg.entries[i]).wf(
                    new_reg.shmem_prefix,
                ) by {
                    if i != nin {
                        assert(new_reg.entries[i] == old_reg.entries[i]);
                        assert(old_reg.entries[i].wf(prefix));
                    }
                }
            }
            lemma_image_at(new_reg, nin, dj as int);
            assert(new_reg.spec_name_index(name_s) == nin);
            assert(new_reg.spec_image(name_s, cmd.gpu_device_uuid) == nm.images[dj as int].image);
            assert(res@.img_data.shmem_name == nm.images[dj as int].image.shmem_name);
            assert(res@.img_data.data =~= nm.images[dj as int].image.data);
            // The device set of this name gained at most the asking device.
            assert forall|d: u128| new_reg.spec_has_device(name_s, d) implies (
            old_reg.spec_has_device(name_s, d) || d == cmd.gpu_device_uuid) by {
                let jd = new_reg.entries[nin].spec_device_index(d);
                assert(nm.images[jd].gpu_device_uuid == d);
                assert(imgs[jd].gpu_device_uuid == d);
                if jd < nb {
                    if had_name {
                        lemma_image_at(old_reg, nin, jd);
                    }
                } else {
                    assert(d == cmd.gpu_device_uuid);
                }
            }
            assert forall|d: u128|
                (old_reg.spec_has_device(name_s, d) || d == cmd.gpu_device_uuid) implies
                new_reg.spec_has_device(name_s, d) by {
                if old_reg.spec_has_device(name_s, d) {
                    let oni = old_reg.spec_name_index(name_s);
                    let jd = old_reg.entries[oni].spec_device_index(d);
                    lemma_image_at(old_reg, oni, jd);
                    assert(base[jd].gpu_device_uuid == d);
                    assert(nm.images[jd].gpu_device_uuid == d);
                    lemma_image_at(new_reg, nin, jd);
                } else {
                    lemma_image_at(new_reg, nin, dj as int);
                }
            }
            // Every previously tracked copy was resized with its version
            // bumped by one.
            assert forall|d: u128| old_reg.spec_has_device(name_s, d) implies new_reg.spec_image(
                name_s,
                d,
            ) == spec_resized_image(
                old_reg.spec_image(name_s, d),
                cmd.width,
                cmd.height,
                cmd.format,
                spec_alloc_at(alloc_sizes@, d),
            ) by {
                let oni = old_reg.spec_name_index(name_s);
                let jd = old_reg.entries[oni].spec_device_index(d);
                lemma_image_at(old_reg, oni, jd);
                assert(oni == nin);
                assert(base[jd].gpu_device_uuid == d);
                assert(old_reg.spec_image(name_s, d) == base[jd].image);
                assert(imgs[jd].image == base[jd].image);
                lemma_image_at(new_reg, nin, jd);
            }
            // A device that had no copy got a fresh one at version one.
            if !was_there {
                let jd = nb;
                assert(imgs[jd].gpu_device_uuid == cmd.gpu_device_uuid);
                assert(imgs[jd].image == spec_fresh_image(prefix, name_s));
                lemma_image_at(new_reg, nin, jd);
                assert(new_reg.spec_image(name_s, cmd.gpu_device_uuid) == spec_resized_image(
                    spec_fresh_image(prefix, name_s),
                    cmd.width,
                    cmd.height,
                    cmd.format,
                    spec_alloc_at(alloc_sizes@, cmd.gpu_device_uuid),
                ));
            }
            // A lookup for the same name and device now reports exactly the
            // record this call returned.
            assert(spec_find_result(
                new_reg,
                CommFindImageModel {
                    image_name: cmd.image_name@,
                    gpu_device_uuid: cmd.gpu_device_uuid,
                },
            ) =~= (ResultFindImageModel { image_found: true, img_data: res@.img_data }));
        }
        res
    }
}


/// The devices a cross-device propagation must write to: all copies of the
/// name except the source's own.
pub struct CopyPlan {
    pub source_device: Option<u128>,
    pub targets: Vec<u128>,
}

impl Registry {
    /// Plan a `CopyImage`: if fewer than two devices track the name, or the
    /// asking device holds no copy to read from, nothing is to be done;
    /// otherwise the asking device's copy is the source and every other
    /// tracked device is a target, each exactly once.
    pub fn plan_copy(&self, cmd: &CommCopyImage) -> (r: CopyPlan)
        requires
            self@.wf(),
            has_terminator(cmd.image_name@),
        ensures
            ({
                let name = spec_trim_name(cmd.image_name@);
                let active = self@.spec_has_name(name) && self@.entries[self@.spec_name_index(
                    name,
                )].images.len() >= 2 && self@.spec_has_device(name, cmd.gpu_device_uuid);
                &&& (r.source_device is Some) == active
                &&& active ==> {
                    &&& r.source_device == Some(cmd.gpu_device_uuid)
                    &&& r.targets@.len() == self@.entries[self@.spec_name_index(name)].images.len()
                        - 1
                    &&& forall|k: int| 0 <= k < r.targets@.len() ==> r.targets@[k] != cmd.gpu_device_uuid
                    &&& forall|k1: int, k2: int|
                        0 <= k1 < k2 < r.targets@.len() ==> r.targets@[k1] != r.targets@[k2]
                    &&& forall|d: u128|
                        self@.spec_has_device(name, d) && d != cmd.gpu_device_uuid ==> exists|k: int|
                            0 <= k < r.targets@.len() && r.targets@[k] == d
                    &&& forall|k: int|
                        0 <= k < r.targets@.len() ==> self@.spec_has_device(name, #[trigger] r.targets@[k])
                }
                &&& !active ==> r.targets@.len() == 0
            }),
    {
        let ghost name_s = spec_trim_name(cmd.image_name@);
        let name = ImgData::convert_shmem_array_to_str(&cmd.image_name);
        let ni = match self.find_name_idx(&name) {
            None => {
                return CopyPlan { source_device: None, targets: Vec::new() };
            },
            Some(i) => i,
        };
        let imgs = &self.entries[ni].images;
        let n = imgs.len();
        if n <= 1 {
            return CopyPlan { source_device: None, targets: Vec::new() };
        }
        let js = match Self::find_dev_idx(imgs, cmd.gpu_device_uuid) {
            None => {
                proof {
                    if self@.spec_has_device(name_s, cmd.gpu_device_uuid) {
                        let jd = self@.entries[ni as int].spec_device_index(cmd.gpu_device_uuid);
                        assert(self@.entries[ni as int].images[jd].gpu_device_uuid
                            != cmd.gpu_device_uuid);
                    }
                }
                return CopyPlan { source_device: None, targets: Vec::new() };
            },
            Some(j) => j,
        };
        proof {
            lemma_image_at(self@, ni as int, js as int);
        }
        let ghost iv = spec_devices(imgs@);
        let mut targets: Vec<u128> = Vec::new();
        let mut j: usize = 0;
        while j < n
            invariant
                self@.wf(),
                ni < self@.entries.len(),
                iv == self@.entries[ni as int].images,
                n == iv.len(),
                n == imgs@.len(),
                iv == spec_devices(imgs@),
                js < n,
                iv[js as int].gpu_device_uuid == cmd.gpu_device_uuid,
                0 <= j <= n,
                targets@.len() == if j <= js {
                    j as int
                } else {
                    j - 1
                },
                forall|k: int|
                    0 <= k < targets@.len() ==> targets@[k] == iv[if k < js {
                        k
                    } else {
                        k + 1
                    }].gpu_device_uuid,
            decreases n - j,
        {
            if j != js {
                targets.push(imgs[j].gpu_device_uuid);
            }
            j = j + 1;
        }
        let r = CopyPlan { source_device: Some(cmd.gpu_device_uuid), targets };
        proof {
            assert(self@.spec_name_index(name_s) == ni) by {
                lemma_image_at(self@, ni as int, js as int);
            }
            let tv = r.targets@;
            assert forall|k1: int, k2: int| 0 <= k1 < k2 < tv.len() implies tv[k1] != tv[k2] by {
                let p1: int = if k1 < js {
                    k1
                } else {
                    k1 + 1
                };
                let p2: int = if k2 < js {
                    k2
                } else {
                    k2 + 1
                };
                assert(p1 < p2 < n);
                assert(iv[p1].gpu_device_uuid != iv[p2].gpu_device_uuid);
            }
            assert forall|k: int| 0 <= k < tv.len() implies tv[k] != cmd.gpu_device_uuid by {
                let p: int = if k < js {
                    k
                } else {
                    k + 1
                };
                assert(p != js);
                if p < js {
                    assert(iv[p].gpu_device_uuid != iv[js as int].gpu_device_uuid);
                } else {
                    assert(iv[js as int].gpu_device_uuid != iv[p].gpu_device_uuid);
                }
            }
            assert forall|d: u128|
                self@.spec_has_device(name_s, d) && d != cmd.gpu_device_uuid implies exists|k: int|
                0 <= k < tv.len() && tv[k] == d by {
                let jd = self@.entries[ni as int].spec_device_index(d);
                assert(iv[jd].gpu_device_uuid == d);
                assert(jd != js);
                let k: int = if jd < js {
                    jd
                } else {
                    jd - 1
                };
                assert(tv[k] == d);
            }
            assert forall|k: int| 0 <= k < tv.len() implies self@.spec_has_device(
                name_s,
                #[trigger] tv[k],
            ) by {
                let p: int = if k < js {
                    k
                } else {
                    k + 1
                };
                lemma_image_at(self@, ni as int, p);
            }
        }
        r
    }
}

} // verus!
