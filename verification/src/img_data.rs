//! Image metadata as it travels between processes: pixel formats, fixed-size
//! name buffers, and the versioned record published for each shared resource.

use vstd::prelude::*;
use vstd::string::StringSliceAdditionalSpecFns;

verus! {

/// Length in bytes of every name buffer on the wire and in the shared record.
pub const IMG_NAME_LEN: usize = 1024;

/// Pixel formats understood by both sides of the channel.
#[derive(Clone, Copy, Debug, PartialEq, Eq, Structural)]
pub enum ImgFormat {
    R8G8B8A8,
    R8G8B8,
    B8G8R8A8,
    B8G8R8,
    Undefined,
}

impl Default for ImgFormat {
    fn default() -> (r: Self)
        ensures
            r == ImgFormat::Undefined,
    {
        ImgFormat::Undefined
    }
}

/// Wire code of a pixel format.
pub open spec fn spec_format_code(f: ImgFormat) -> u32 {
    match f {
        ImgFormat::R8G8B8A8 => 0,
        ImgFormat::R8G8B8 => 1,
        ImgFormat::B8G8R8A8 => 2,
        ImgFormat::B8G8R8 => 3,
        ImgFormat::Undefined => 4,
    }
}

/// Pixel format named by a wire code, if any.
pub open spec fn spec_format_from_code(c: u32) -> Option<ImgFormat> {
    if c == 0 {
        Some(ImgFormat::R8G8B8A8)
    } else if c == 1 {
        Some(ImgFormat::R8G8B8)
    } else if c == 2 {
        Some(ImgFormat::B8G8R8A8)
    } else if c == 3 {
        Some(ImgFormat::B8G8R8)
    } else if c == 4 {
        Some(ImgFormat::Undefined)
    } else {
        None
    }
}

pub proof fn lemma_format_code_round_trip(f: ImgFormat)
    ensures
        spec_format_from_code(spec_format_code(f)) == Some(f),
{
}

pub fn format_code(f: ImgFormat) -> (c: u32)
    ensures
        c == spec_format_code(f),
{
    match f {
        ImgFormat::R8G8B8A8 => 0,
        ImgFormat::R8G8B8 => 1,
        ImgFormat::B8G8R8A8 => 2,
        ImgFormat::B8G8R8 => 3,
        ImgFormat::Undefined => 4,
    }
}

pub fn format_from_code(c: u32) -> (r: Option<ImgFormat>)
    ensures
        r == spec_format_from_code(c),
{
    if c == 0 {
        Some(ImgFormat::R8G8B8A8)
    } else if c == 1 {
        Some(ImgFormat::R8G8B8)
    } else if c == 2 {
        Some(ImgFormat::B8G8R8A8)
    } else if c == 3 {
        Some(ImgFormat::B8G8R8)
    } else if c == 4 {
        Some(ImgFormat::Undefined)
    } else {
        None
    }
}

/// `s` extended with zero bytes up to length `n`.
pub open spec fn spec_zero_pad(s: Seq<u8>, n: nat) -> Seq<u8> {
    s + Seq::new(if s.len() <= n { (n - s.len()) as nat } else { 0 }, |i: int| 0u8)
}

/// Index of the first zero byte of `s`, if one exists.
pub open spec fn spec_first_zero(s: Seq<u8>) -> Option<int>
    decreases s.len(),
{
    if s.len() == 0 {
        None
    } else if s[0] == 0 {
        Some(0)
    } else {
        match spec_first_zero(s.drop_first()) {
            None => None,
            Some(j) => Some(j + 1),
        }
    }
}

/// A name buffer is terminated when it holds at least one zero byte.
pub open spec fn has_terminator(s: Seq<u8>) -> bool {
    spec_first_zero(s) is Some
}

/// The name stored in a buffer: everything before the first zero byte.
pub open spec fn spec_trim_name(s: Seq<u8>) -> Seq<u8> {
    match spec_first_zero(s) {
        Some(i) => s.subrange(0, i),
        None => s,
    }
}

/// The first zero byte is at `i` exactly when `s[i]` is zero and nothing
/// before it is.
pub proof fn lemma_first_zero_at(s: Seq<u8>, i: int)
    requires
        0 <= i < s.len(),
        s[i] == 0,
        forall|j: int| 0 <= j < i ==> s[j] != 0,
    ensures
        spec_first_zero(s) == Some(i),
    decreases s.len(),
{
    if i > 0 {
        lemma_first_zero_at(s.drop_first(), i - 1);
    }
}

/// A buffer without zero bytes has no terminator.
pub proof fn lemma_first_zero_none(s: Seq<u8>)
    requires
        forall|j: int| 0 <= j < s.len() ==> s[j] != 0,
    ensures
        spec_first_zero(s) == None::<int>,
    decreases s.len(),
{
    if s.len() > 0 {
        lemma_first_zero_none(s.drop_first());
    }
}

/// Every position before the first zero holds a non-zero byte, and the first
/// zero position holds a zero.
pub proof fn lemma_first_zero_inv(s: Seq<u8>)
    requires
        spec_first_zero(s) is Some,
    ensures
        0 <= spec_first_zero(s)->Some_0 < s.len(),
        s[spec_first_zero(s)->Some_0] == 0,
        forall|j: int| 0 <= j < spec_first_zero(s)->Some_0 ==> s[j] != 0,
    decreases s.len(),
{
    if s.len() > 0 && s[0] != 0 {
        lemma_first_zero_inv(s.drop_first());
        let i = spec_first_zero(s)->Some_0;
        assert forall|j: int| 0 <= j < i implies s[j] != 0 by {
            if j > 0 {
                assert(s.drop_first()[j - 1] != 0);
            }
        }
    }
}

/// Padding a zero-free name into a buffer and trimming it back is the
/// identity.
pub proof fn lemma_trim_of_pad(s: Seq<u8>, n: nat)
    requires
        s.len() < n,
        forall|j: int| 0 <= j < s.len() ==> s[j] != 0,
    ensures
        spec_trim_name(spec_zero_pad(s, n)) == s,
{
    let p = spec_zero_pad(s, n);
    lemma_first_zero_at(p, s.len() as int);
    assert(spec_trim_name(p) =~= s);
}

/// A buffer with any zero byte in it has a terminator.
pub proof fn lemma_zero_means_terminated(s: Seq<u8>, j: int)
    requires
        0 <= j < s.len(),
        s[j] == 0,
    ensures
        has_terminator(s),
    decreases s.len(),
{
    if s[0] != 0 {
        lemma_zero_means_terminated(s.drop_first(), j - 1);
    }
}

/// A name laid into a strictly larger buffer is always terminated: the
/// padding supplies a zero byte even when the name itself has none.
pub proof fn lemma_pad_has_terminator(s: Seq<u8>, n: nat)
    requires
        s.len() < n,
    ensures
        has_terminator(spec_zero_pad(s, n)),
{
    let p = spec_zero_pad(s, n);
    assert(p[s.len() as int] == 0);
    lemma_zero_means_terminated(p, s.len() as int);
}

/// A trimmed name never holds a zero byte and is shorter than its buffer.
pub proof fn lemma_trim_no_zeros(s: Seq<u8>)
    requires
        has_terminator(s),
    ensures
        spec_trim_name(s).len() < s.len(),
        forall|k: int| 0 <= k < spec_trim_name(s).len() ==> spec_trim_name(s)[k] != 0,
{
    lemma_first_zero_inv(s);
}

/// The record kept in the shared-memory segment for one resource: its name
/// plus the version and geometry of its current backend allocation.
pub struct ShmemDataInternal {
    pub name: Vec<u8>,
    pub handle_id: u32,
    pub width: u32,
    pub height: u32,
    pub format: ImgFormat,
    pub allocation_size: u64,
}

/// Mathematical image of a `ShmemDataInternal`.
#[verifier::ext_equal]
pub struct ShmemDataModel {
    pub name: Seq<u8>,
    pub handle_id: u32,
    pub width: u32,
    pub height: u32,
    pub format: ImgFormat,
    pub allocation_size: u64,
}

impl View for ShmemDataInternal {
    type V = ShmemDataModel;

    open spec fn view(&self) -> ShmemDataModel {
        ShmemDataModel {
            name: self.name@,
            handle_id: self.handle_id,
            width: self.width,
            height: self.height,
            format: self.format,
            allocation_size: self.allocation_size,
        }
    }
}

impl ShmemDataModel {
    pub open spec fn wf(self) -> bool {
        self.name.len() == IMG_NAME_LEN
    }

    /// The record as first published for a resource named `name`.
    pub open spec fn spec_empty(name: Seq<u8>) -> ShmemDataModel {
        ShmemDataModel {
            name: spec_zero_pad(name, IMG_NAME_LEN as nat),
            handle_id: 0,
            width: 0,
            height: 0,
            format: ImgFormat::Undefined,
            allocation_size: 0,
        }
    }
}

impl ShmemDataInternal {
    pub fn new(
        name: Vec<u8>,
        handle_id: u32,
        width: u32,
        height: u32,
        format: ImgFormat,
        allocation_size: u64,
    ) -> (r: ShmemDataInternal)
        requires
            name@.len() == IMG_NAME_LEN,
        ensures
            r@ == (ShmemDataModel { name: name@, handle_id, width, height, format, allocation_size }),
            r@.wf(),
    {
        ShmemDataInternal { name, handle_id, width, height, format, allocation_size }
    }

    /// A fresh record for `img_name`; rejected when the name cannot fit its
    /// buffer together with a terminator.
    pub fn new_empty(img_name: &str) -> (r: Result<ShmemDataInternal, crate::error::IpcError>)
        ensures
            match r {
                Ok(d) => img_name.spec_bytes().len() < IMG_NAME_LEN && d@
                    == ShmemDataModel::spec_empty(img_name.spec_bytes()) && d@.wf(),
                Err(e) => img_name.spec_bytes().len() >= IMG_NAME_LEN && e
                    == crate::error::IpcError::NameTooLong,
            },
    {
        let byte_len = img_name.as_bytes().len();
        if byte_len >= IMG_NAME_LEN {
            Err(crate::error::IpcError::NameTooLong)
        } else {
            let name = ImgData::convert_shmem_str_to_array(img_name);
            Ok(
                ShmemDataInternal {
                    name,
                    handle_id: 0,
                    width: 0,
                    height: 0,
                    format: ImgFormat::Undefined,
                    allocation_size: 0,
                },
            )
        }
    }
}

impl Default for ShmemDataInternal {
    fn default() -> (r: Self)
        ensures
            r@ == (ShmemDataModel {
                name: Seq::new(IMG_NAME_LEN as nat, |i: int| 0u8),
                handle_id: 0,
                width: 0,
                height: 0,
                format: ImgFormat::Undefined,
                allocation_size: 0,
            }),
            r@.wf(),
    {
        let name: Vec<u8> = zeroed_name_buf();
        ShmemDataInternal {
            name,
            handle_id: 0,
            width: 0,
            height: 0,
            format: ImgFormat::Undefined,
            allocation_size: 0,
        }
    }
}

/// An owned copy of a byte buffer.
pub fn clone_bytes(v: &Vec<u8>) -> (r: Vec<u8>)
    ensures
        r@ == v@,
{
    vstd::slice::slice_to_vec(v.as_slice())
}

/// An owned copy of a record.
pub fn copy_record(d: &ShmemDataInternal) -> (r: ShmemDataInternal)
    ensures
        r@ == d@,
{
    ShmemDataInternal {
        name: clone_bytes(&d.name),
        handle_id: d.handle_id,
        width: d.width,
        height: d.height,
        format: d.format,
        allocation_size: d.allocation_size,
    }
}

/// Append zero bytes until the buffer reaches `target` bytes.
pub fn zero_pad_to(buf: &mut Vec<u8>, target: usize)
    requires
        old(buf)@.len() <= target,
    ensures
        final(buf)@ == spec_zero_pad(old(buf)@, target as nat),
        final(buf)@.len() == target,
{
    let ghost orig = buf@;
    while buf.len() < target
        invariant
            orig.len() <= buf@.len() <= target,
            buf@.subrange(0, orig.len() as int) == orig,
            forall|j: int| orig.len() <= j < buf@.len() ==> buf@[j] == 0,
        decreases target - buf.len(),
    {
        buf.push(0u8);
        proof {
            assert(buf@.subrange(0, orig.len() as int) =~= orig);
        }
    }
    proof {
        assert(buf@ =~= spec_zero_pad(orig, target as nat));
    }
}

/// Compare two byte buffers for equality.
pub fn bytes_equal(a: &Vec<u8>, b: &Vec<u8>) -> (r: bool)
    ensures
        r <==> a@ == b@,
{
    if a.len() != b.len() {
        proof {
            assert(a@.len() != b@.len());
        }
        return false;
    }
    let n = a.len();
    let mut i: usize = 0;
    while i < n
        invariant
            n == a@.len(),
            n == b@.len(),
            0 <= i <= n,
            forall|k: int| 0 <= k < i ==> a@[k] == b@[k],
        decreases n - i,
    {
        if a[i] != b[i] {
            return false;
        }
        i = i + 1;
    }
    proof {
        assert(a@ =~= b@);
    }
    true
}

/// A name buffer holding only zero bytes.
pub fn zeroed_name_buf() -> (r: Vec<u8>)
    ensures
        r@ == Seq::new(IMG_NAME_LEN as nat, |i: int| 0u8),
{
    let r: Vec<u8> = vec![0u8; IMG_NAME_LEN];
    proof {
        assert(r@ =~= Seq::new(IMG_NAME_LEN as nat, |i: int| 0u8));
    }
    r
}

/// A resource's record together with the name of the shared-memory segment
/// that publishes it.
pub struct ImgData {
    pub shmem_name: Vec<u8>,
    pub data: ShmemDataInternal,
}

/// Mathematical image of an `ImgData`.
#[verifier::ext_equal]
pub struct ImgDataModel {
    pub shmem_name: Seq<u8>,
    pub data: ShmemDataModel,
}

impl View for ImgData {
    type V = ImgDataModel;

    open spec fn view(&self) -> ImgDataModel {
        ImgDataModel { shmem_name: self.shmem_name@, data: self.data@ }
    }
}

impl ImgDataModel {
    pub open spec fn wf(self) -> bool {
        self.shmem_name.len() == IMG_NAME_LEN && self.data.wf()
    }

    pub open spec fn spec_default() -> ImgDataModel {
        ImgDataModel {
            shmem_name: Seq::new(IMG_NAME_LEN as nat, |i: int| 0u8),
            data: ShmemDataModel {
                name: Seq::new(IMG_NAME_LEN as nat, |i: int| 0u8),
                handle_id: 0,
                width: 0,
                height: 0,
                format: ImgFormat::Undefined,
                allocation_size: 0,
            },
        }
    }
}

impl ImgData {
    pub fn new(
        shmem_name: Vec<u8>,
        image_name: Vec<u8>,
        handle_id: u32,
        width: u32,
        height: u32,
        format: ImgFormat,
        allocation_size: u64,
    ) -> (r: ImgData)
        requires
            shmem_name@.len() == IMG_NAME_LEN,
            image_name@.len() == IMG_NAME_LEN,
        ensures
            r@ == (ImgDataModel {
                shmem_name: shmem_name@,
                data: ShmemDataModel {
                    name: image_name@,
                    handle_id,
                    width,
                    height,
                    format,
                    allocation_size,
                },
            }),
            r@.wf(),
    {
        ImgData {
            shmem_name,
            data: ShmemDataInternal::new(image_name, handle_id, width, height, format, allocation_size),
        }
    }

    pub fn from_shmem_data_internal(shmem_name: Vec<u8>, shmem_data_internal: ShmemDataInternal) -> (r:
        ImgData)
        ensures
            r@ == (ImgDataModel { shmem_name: shmem_name@, data: shmem_data_internal@ }),
    {
        ImgData { shmem_name, data: shmem_data_internal }
    }

    /// Lay a textual name into a fixed-size, zero-padded buffer.
    pub fn convert_shmem_str_to_array(shmem_name: &str) -> (r: Vec<u8>)
        requires
            shmem_name.spec_bytes().len() < IMG_NAME_LEN,
        ensures
            r@ == spec_zero_pad(shmem_name.spec_bytes(), IMG_NAME_LEN as nat),
            r@.len() == IMG_NAME_LEN,
    {
        let bytes = shmem_name.as_bytes();
        let mut buf = vstd::slice::slice_to_vec(bytes);
        let ghost orig = shmem_name.spec_bytes();
        while buf.len() < IMG_NAME_LEN
            invariant
                orig.len() <= buf@.len() <= IMG_NAME_LEN,
                buf@.subrange(0, orig.len() as int) == orig,
                forall|j: int| orig.len() <= j < buf@.len() ==> buf@[j] == 0,
            decreases IMG_NAME_LEN - buf.len(),
        {
            buf.push(0u8);
            proof {
                assert(buf@.subrange(0, orig.len() as int) =~= orig);
            }
        }
        proof {
            assert(buf@ =~= spec_zero_pad(orig, IMG_NAME_LEN as nat));
        }
        buf
    }

    /// Read the name back out of a zero-terminated buffer.
    pub fn convert_shmem_array_to_str(shmem_name: &Vec<u8>) -> (r: Vec<u8>)
        requires
            has_terminator(shmem_name@),
        ensures
            r@ == spec_trim_name(shmem_name@),
    {
        let mut i: usize = 0;
        let n = shmem_name.len();
        loop
            invariant
                has_terminator(shmem_name@),
                n == shmem_name@.len(),
                0 <= i <= shmem_name@.len(),
                forall|j: int| 0 <= j < i ==> shmem_name@[j] != 0,
            ensures
                0 <= i < shmem_name@.len(),
                shmem_name@[i as int] == 0,
                forall|j: int| 0 <= j < i ==> shmem_name@[j] != 0,
            decreases shmem_name@.len() - i,
        {
            proof {
                lemma_first_zero_inv(shmem_name@);
                let k = spec_first_zero(shmem_name@)->Some_0;
                if i > k {
                    assert(shmem_name@[k] != 0);
                }
                assert(i <= k && k < shmem_name@.len());
            }
            if shmem_name[i] == 0 {
                break;
            }
            proof {
                assert(i < shmem_name@.len());
            }
            i = i + 1;
        }
        proof {
            lemma_first_zero_at(shmem_name@, i as int);
        }
        let trimmed = vstd::slice::slice_to_vec(
            vstd::slice::slice_subrange(shmem_name.as_slice(), 0, i),
        )        ;
        trimmed
    }
}

impl Default for ImgData {
    fn default() -> (r: Self)
        ensures
            r@ == ImgDataModel::spec_default(),
            r@.wf(),
    {
        ImgData { shmem_name: zeroed_name_buf(), data: ShmemDataInternal::default() }
    }
}

} // verus!
