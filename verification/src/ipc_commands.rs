//! Byte-exact wire codec for the request/response envelopes.
//!
//! Every envelope is a fixed-size byte string: a four-byte tag followed by the
//! payload of its variant, zero-padded up to the size of the largest variant.
//! All fields sit at fixed offsets in little-endian order, so the encoding of
//! a message is identical across processes; the receiver always reads exactly
//! one envelope before interpreting the tag, and an unrecognized tag or
//! format code is a protocol error.

use vstd::prelude::*;
use vstd::bytes::*;

use crate::error::IpcError;
use crate::img_data::{
    format_code, format_from_code, lemma_format_code_round_trip, spec_format_code,
    spec_format_from_code, spec_zero_pad, zeroed_name_buf, ImgData, ImgDataModel, ImgFormat,
    ShmemDataInternal, ShmemDataModel, IMG_NAME_LEN,
};

verus! {

/// Wire codes of the command tags.
pub const TAG_INIT_IMAGE: u32 = 0;

pub const TAG_FIND_IMAGE: u32 = 1;

pub const TAG_COPY_IMAGE: u32 = 2;

/// Offsets of the fields of an `InitImage` command envelope.
pub const CMD_NAME_OFF: usize = 4;

pub const CMD_SHMEM_OFF: usize = 4 + IMG_NAME_LEN;

pub const CMD_WIDTH_OFF: usize = 4 + 2 * IMG_NAME_LEN;

pub const CMD_HEIGHT_OFF: usize = 8 + 2 * IMG_NAME_LEN;

pub const CMD_FORMAT_OFF: usize = 12 + 2 * IMG_NAME_LEN;

pub const CMD_OVERWRITE_OFF: usize = 16 + 2 * IMG_NAME_LEN;

pub const CMD_UUID_OFF: usize = 17 + 2 * IMG_NAME_LEN;

/// Offsets of the fields of a `FindImage` or `CopyImage` command envelope.
pub const CMD_FIND_UUID_OFF: usize = 4 + IMG_NAME_LEN;

pub const CMD_FIND_PAYLOAD_END: usize = 20 + IMG_NAME_LEN;

/// Every command envelope has the size of the largest variant.
pub const COMMAND_MSG_SIZE: usize = 33 + 2 * IMG_NAME_LEN;

/// Offsets of the fields of a result envelope.
pub const RES_FLAG_OFF: usize = 4;

pub const RES_SHMEM_OFF: usize = 5;

pub const RES_NAME_OFF: usize = 5 + IMG_NAME_LEN;

pub const RES_HANDLE_ID_OFF: usize = 5 + 2 * IMG_NAME_LEN;

pub const RES_WIDTH_OFF: usize = 9 + 2 * IMG_NAME_LEN;

pub const RES_HEIGHT_OFF: usize = 13 + 2 * IMG_NAME_LEN;

pub const RES_FORMAT_OFF: usize = 17 + 2 * IMG_NAME_LEN;

pub const RES_ALLOC_OFF: usize = 21 + 2 * IMG_NAME_LEN;

/// Every result envelope has the size of the largest variant.
pub const RESULT_MSG_SIZE: usize = 29 + 2 * IMG_NAME_LEN;

/// The tags of the closed command set.
#[derive(Clone, Copy, Debug, PartialEq, Eq, Structural)]
pub enum CommandTag {
    InitImage,
    FindImage,
    CopyImage,
}

pub open spec fn spec_tag_code(t: CommandTag) -> u32 {
    match t {
        CommandTag::InitImage => TAG_INIT_IMAGE,
        CommandTag::FindImage => TAG_FIND_IMAGE,
        CommandTag::CopyImage => TAG_COPY_IMAGE,
    }
}

/// Request that a resource be created (or recreated) at the given geometry.
pub struct CommInitImage {
    pub image_name: Vec<u8>,
    pub shmem_name: Vec<u8>,
    pub width: u32,
    pub height: u32,
    pub format: ImgFormat,
    pub overwrite_existing: bool,
    pub gpu_device_uuid: u128,
}

#[verifier::ext_equal]
pub struct CommInitImageModel {
    pub image_name: Seq<u8>,
    pub shmem_name: Seq<u8>,
    pub width: u32,
    pub height: u32,
    pub format: ImgFormat,
    pub overwrite_existing: bool,
    pub gpu_device_uuid: u128,
}

impl View for CommInitImage {
    type V = CommInitImageModel;

    open spec fn view(&self) -> CommInitImageModel {
        CommInitImageModel {
            image_name: self.image_name@,
            shmem_name: self.shmem_name@,
            width: self.width,
            height: self.height,
            format: self.format,
            overwrite_existing: self.overwrite_existing,
            gpu_device_uuid: self.gpu_device_uuid,
        }
    }
}

impl CommInitImageModel {
    pub open spec fn wf(self) -> bool {
        self.image_name.len() == IMG_NAME_LEN && self.shmem_name.len() == IMG_NAME_LEN
    }
}

/// Request for the current record of a named resource on one device.
pub struct CommFindImage {
    pub image_name: Vec<u8>,
    pub gpu_device_uuid: u128,
}

#[verifier::ext_equal]
pub struct CommFindImageModel {
    pub image_name: Seq<u8>,
    pub gpu_device_uuid: u128,
}

impl View for CommFindImage {
    type V = CommFindImageModel;

    open spec fn view(&self) -> CommFindImageModel {
        CommFindImageModel { image_name: self.image_name@, gpu_device_uuid: self.gpu_device_uuid }
    }
}

impl CommFindImageModel {
    pub open spec fn wf(self) -> bool {
        self.image_name.len() == IMG_NAME_LEN
    }
}

impl Default for CommFindImage {
    fn default() -> (r: Self)
        ensures
            r@.image_name == Seq::new(IMG_NAME_LEN as nat, |i: int| 0u8),
            r@.gpu_device_uuid == 0,
    {
        CommFindImage { image_name: zeroed_name_buf(), gpu_device_uuid: 0 }
    }
}

/// Request that a resource's contents be propagated from one device to every
/// other device tracking it.
pub struct CommCopyImage {
    pub image_name: Vec<u8>,
    pub gpu_device_uuid: u128,
}

#[verifier::ext_equal]
pub struct CommCopyImageModel {
    pub image_name: Seq<u8>,
    pub gpu_device_uuid: u128,
}

impl View for CommCopyImage {
    type V = CommCopyImageModel;

    open spec fn view(&self) -> CommCopyImageModel {
        CommCopyImageModel { image_name: self.image_name@, gpu_device_uuid: self.gpu_device_uuid }
    }
}

impl CommCopyImageModel {
    pub open spec fn wf(self) -> bool {
        self.image_name.len() == IMG_NAME_LEN
    }
}

impl Default for CommCopyImage {
    fn default() -> (r: Self)
        ensures
            r@.image_name == Seq::new(IMG_NAME_LEN as nat, |i: int| 0u8),
            r@.gpu_device_uuid == 0,
    {
        CommCopyImage { image_name: zeroed_name_buf(), gpu_device_uuid: 0 }
    }
}

/// Reserved request to rename a resource; not part of the wire tag set.
pub struct CommRenameImage {
    pub old_image_name: Vec<u8>,
    pub new_image_name: Vec<u8>,
}

/// Reserved reply to a rename request; not part of the wire tag set.
pub struct ResultRenameImage {
    pub image_found: bool,
    pub img_data: ImgData,
}

/// A command envelope: the closed set of requests a client may send.
pub enum CommandMsg {
    InitImage(CommInitImage),
    FindImage(CommFindImage),
    CopyImage(CommCopyImage),
}

#[verifier::ext_equal]
pub enum CommandMsgModel {
    InitImage(CommInitImageModel),
    FindImage(CommFindImageModel),
    CopyImage(CommCopyImageModel),
}

impl View for CommandMsg {
    type V = CommandMsgModel;

    open spec fn view(&self) -> CommandMsgModel {
        match self {
            CommandMsg::InitImage(c) => CommandMsgModel::InitImage(c@),
            CommandMsg::FindImage(c) => CommandMsgModel::FindImage(c@),
            CommandMsg::CopyImage(c) => CommandMsgModel::CopyImage(c@),
        }
    }
}

impl CommandMsgModel {
    pub open spec fn wf(self) -> bool {
        match self {
            CommandMsgModel::InitImage(c) => c.wf(),
            CommandMsgModel::FindImage(c) => c.wf(),
            CommandMsgModel::CopyImage(c) => c.wf(),
        }
    }

    pub open spec fn spec_tag(self) -> CommandTag {
        match self {
            CommandMsgModel::InitImage(_) => CommandTag::InitImage,
            CommandMsgModel::FindImage(_) => CommandTag::FindImage,
            CommandMsgModel::CopyImage(_) => CommandTag::CopyImage,
        }
    }
}

impl CommandMsg {
    /// The tag that names this envelope's variant on the wire.
    pub fn tag(&self) -> (t: CommandTag)
        ensures
            t == self@.spec_tag(),
    {
        match self {
            CommandMsg::InitImage(_) => CommandTag::InitImage,
            CommandMsg::FindImage(_) => CommandTag::FindImage,
            CommandMsg::CopyImage(_) => CommandTag::CopyImage,
        }
    }
}

impl Default for CommandMsg {
    fn default() -> (r: Self)
        ensures
            r@.spec_tag() == CommandTag::FindImage,
    {
        CommandMsg::FindImage(CommFindImage::default())
    }
}

/// Reply to `InitImage`: whether a resource was (re)created, and its record.
pub struct ResultInitImage {
    pub image_created: bool,
    pub img_data: ImgData,
}

#[verifier::ext_equal]
pub struct ResultInitImageModel {
    pub image_created: bool,
    pub img_data: ImgDataModel,
}

impl View for ResultInitImage {
    type V = ResultInitImageModel;

    open spec fn view(&self) -> ResultInitImageModel {
        ResultInitImageModel { image_created: self.image_created, img_data: self.img_data@ }
    }
}

impl ResultInitImageModel {
    pub open spec fn wf(self) -> bool {
        self.img_data.wf()
    }
}

/// Reply to `FindImage`: whether the resource is tracked, and its record.
pub struct ResultFindImage {
    pub image_found: bool,
    pub img_data: ImgData,
}

#[verifier::ext_equal]
pub struct ResultFindImageModel {
    pub image_found: bool,
    pub img_data: ImgDataModel,
}

impl View for ResultFindImage {
    type V = ResultFindImageModel;

    open spec fn view(&self) -> ResultFindImageModel {
        ResultFindImageModel { image_found: self.image_found, img_data: self.img_data@ }
    }
}

impl ResultFindImageModel {
    pub open spec fn wf(self) -> bool {
        self.img_data.wf()
    }
}

/// A result envelope: the closed set of replies the broker may send.
pub enum ResultMsg {
    InitImage(ResultInitImage),
    FindImage(ResultFindImage),
}

#[verifier::ext_equal]
pub enum ResultMsgModel {
    InitImage(ResultInitImageModel),
    FindImage(ResultFindImageModel),
}

impl View for ResultMsg {
    type V = ResultMsgModel;

    open spec fn view(&self) -> ResultMsgModel {
        match self {
            ResultMsg::InitImage(r) => ResultMsgModel::InitImage(r@),
            ResultMsg::FindImage(r) => ResultMsgModel::FindImage(r@),
        }
    }
}

impl ResultMsgModel {
    pub open spec fn wf(self) -> bool {
        match self {
            ResultMsgModel::InitImage(r) => r.wf(),
            ResultMsgModel::FindImage(r) => r.wf(),
        }
    }

    pub open spec fn spec_tag(self) -> CommandTag {
        match self {
            ResultMsgModel::InitImage(_) => CommandTag::InitImage,
            ResultMsgModel::FindImage(_) => CommandTag::FindImage,
        }
    }
}

impl ResultMsg {
    /// The tag that names this envelope's variant on the wire.
    pub fn tag(&self) -> (t: CommandTag)
        ensures
            t == self@.spec_tag(),
    {
        match self {
            ResultMsg::InitImage(_) => CommandTag::InitImage,
            ResultMsg::FindImage(_) => CommandTag::FindImage,
        }
    }
}

impl Default for ResultMsg {
    fn default() -> (r: Self)
        ensures
            r@.spec_tag() == CommandTag::FindImage,
            r@ matches ResultMsgModel::FindImage(f) && !f.image_found && f.img_data
                == ImgDataModel::spec_default(),
    {
        ResultMsg::FindImage(ResultFindImage { image_found: false, img_data: ImgData::default() })
    }
}

/// The single byte that encodes a boolean on the wire.
pub open spec fn spec_bool_byte(b: bool) -> u8 {
    if b {
        1u8
    } else {
        0u8
    }
}

/// Bytes of an `InitImage` command envelope.
pub open spec fn spec_encode_init(c: CommInitImageModel) -> Seq<u8> {
    spec_u32_to_le_bytes(TAG_INIT_IMAGE) + c.image_name + c.shmem_name + spec_u32_to_le_bytes(
        c.width,
    ) + spec_u32_to_le_bytes(c.height) + spec_u32_to_le_bytes(spec_format_code(c.format)) + seq![
        spec_bool_byte(c.overwrite_existing),
    ] + spec_u128_to_le_bytes(c.gpu_device_uuid)
}

/// Bytes of a `FindImage` or `CopyImage` command envelope.
pub open spec fn spec_encode_lookup(tag: u32, name: Seq<u8>, uuid: u128) -> Seq<u8> {
    spec_zero_pad(
        spec_u32_to_le_bytes(tag) + name + spec_u128_to_le_bytes(uuid),
        COMMAND_MSG_SIZE as nat,
    )
}

/// Bytes of a command envelope.
pub open spec fn spec_encode_command(m: CommandMsgModel) -> Seq<u8> {
    match m {
        CommandMsgModel::InitImage(c) => spec_encode_init(c),
        CommandMsgModel::FindImage(c) => spec_encode_lookup(
            TAG_FIND_IMAGE,
            c.image_name,
            c.gpu_device_uuid,
        ),
        CommandMsgModel::CopyImage(c) => spec_encode_lookup(
            TAG_COPY_IMAGE,
            c.image_name,
            c.gpu_device_uuid,
        ),
    }
}

/// Bytes of a resource record inside a result envelope.
pub open spec fn spec_encode_img_data(d: ImgDataModel) -> Seq<u8> {
    d.shmem_name + d.data.name + spec_u32_to_le_bytes(d.data.handle_id) + spec_u32_to_le_bytes(
        d.data.width,
    ) + spec_u32_to_le_bytes(d.data.height) + spec_u32_to_le_bytes(spec_format_code(d.data.format))
        + spec_u64_to_le_bytes(d.data.allocation_size)
}

/// Bytes of a result envelope.
pub open spec fn spec_encode_result(m: ResultMsgModel) -> Seq<u8> {
    match m {
        ResultMsgModel::InitImage(r) => spec_u32_to_le_bytes(TAG_INIT_IMAGE) + seq![
            spec_bool_byte(r.image_created),
        ] + spec_encode_img_data(r.img_data),
        ResultMsgModel::FindImage(r) => spec_u32_to_le_bytes(TAG_FIND_IMAGE) + seq![
            spec_bool_byte(r.image_found),
        ] + spec_encode_img_data(r.img_data),
    }
}

/// Meaning of command-envelope bytes.
pub open spec fn spec_decode_command(b: Seq<u8>) -> Result<CommandMsgModel, IpcError> {
    if b.len() != COMMAND_MSG_SIZE {
        Err(IpcError::BadLength)
    } else {
        let tag = spec_u32_from_le_bytes(b.subrange(0, 4));
        if tag == TAG_INIT_IMAGE {
            let code = spec_u32_from_le_bytes(
                b.subrange(CMD_FORMAT_OFF as int, CMD_FORMAT_OFF + 4),
            );
            match spec_format_from_code(code) {
                Some(f) => Ok(
                    CommandMsgModel::InitImage(
                        CommInitImageModel {
                            image_name: b.subrange(CMD_NAME_OFF as int, CMD_NAME_OFF + IMG_NAME_LEN),
                            shmem_name: b.subrange(
                                CMD_SHMEM_OFF as int,
                                CMD_SHMEM_OFF + IMG_NAME_LEN,
                            ),
                            width: spec_u32_from_le_bytes(
                                b.subrange(CMD_WIDTH_OFF as int, CMD_WIDTH_OFF + 4),
                            ),
                            height: spec_u32_from_le_bytes(
                                b.subrange(CMD_HEIGHT_OFF as int, CMD_HEIGHT_OFF + 4),
                            ),
                            format: f,
                            overwrite_existing: b[CMD_OVERWRITE_OFF as int] != 0,
                            gpu_device_uuid: spec_u128_from_le_bytes(
                                b.subrange(CMD_UUID_OFF as int, CMD_UUID_OFF + 16),
                            ),
                        },
                    ),
                ),
                None => Err(IpcError::UnknownFormat),
            }
        } else if tag == TAG_FIND_IMAGE {
            Ok(
                CommandMsgModel::FindImage(
                    CommFindImageModel {
                        image_name: b.subrange(CMD_NAME_OFF as int, CMD_NAME_OFF + IMG_NAME_LEN),
                        gpu_device_uuid: spec_u128_from_le_bytes(
                            b.subrange(CMD_FIND_UUID_OFF as int, CMD_FIND_UUID_OFF + 16),
                        ),
                    },
                ),
            )
        } else if tag == TAG_COPY_IMAGE {
            Ok(
                CommandMsgModel::CopyImage(
                    CommCopyImageModel {
                        image_name: b.subrange(CMD_NAME_OFF as int, CMD_NAME_OFF + IMG_NAME_LEN),
                        gpu_device_uuid: spec_u128_from_le_bytes(
                            b.subrange(CMD_FIND_UUID_OFF as int, CMD_FIND_UUID_OFF + 16),
                        ),
                    },
                ),
            )
        } else {
            Err(IpcError::UnknownTag)
        }
    }
}

/// Meaning of the record bytes inside a result envelope.
pub open spec fn spec_decode_img_data(b: Seq<u8>, f: ImgFormat) -> ImgDataModel {
    ImgDataModel {
        shmem_name: b.subrange(RES_SHMEM_OFF as int, RES_SHMEM_OFF + IMG_NAME_LEN),
        data: ShmemDataModel {
            name: b.subrange(RES_NAME_OFF as int, RES_NAME_OFF + IMG_NAME_LEN),
            handle_id: spec_u32_from_le_bytes(
                b.subrange(RES_HANDLE_ID_OFF as int, RES_HANDLE_ID_OFF + 4),
            ),
            width: spec_u32_from_le_bytes(b.subrange(RES_WIDTH_OFF as int, RES_WIDTH_OFF + 4)),
            height: spec_u32_from_le_bytes(b.subrange(RES_HEIGHT_OFF as int, RES_HEIGHT_OFF + 4)),
            format: f,
            allocation_size: spec_u64_from_le_bytes(
                b.subrange(RES_ALLOC_OFF as int, RES_ALLOC_OFF + 8),
            ),
        },
    }
}

/// Meaning of result-envelope bytes.
pub open spec fn spec_decode_result(b: Seq<u8>) -> Result<ResultMsgModel, IpcError> {
    if b.len() != RESULT_MSG_SIZE {
        Err(IpcError::BadLength)
    } else {
        let tag = spec_u32_from_le_bytes(b.subrange(0, 4));
        let code = spec_u32_from_le_bytes(b.subrange(RES_FORMAT_OFF as int, RES_FORMAT_OFF + 4));
        if tag != TAG_INIT_IMAGE && tag != TAG_FIND_IMAGE {
            Err(IpcError::UnknownTag)
        } else {
            match spec_format_from_code(code) {
                None => Err(IpcError::UnknownFormat),
                Some(f) => {
                    let flag = b[RES_FLAG_OFF as int] != 0;
                    let d = spec_decode_img_data(b, f);
                    if tag == TAG_INIT_IMAGE {
                        Ok(
                            ResultMsgModel::InitImage(
                                ResultInitImageModel { image_created: flag, img_data: d },
                            ),
                        )
                    } else {
                        Ok(
                            ResultMsgModel::FindImage(
                                ResultFindImageModel { image_found: flag, img_data: d },
                            ),
                        )
                    }
                },
            }
        }
    }
}

/// Append the little-endian bytes of a `u32`.
fn push_u32(buf: &mut Vec<u8>, v: u32)
    ensures
        final(buf)@ == old(buf)@ + spec_u32_to_le_bytes(v),
{
    let bytes = u32_to_le_bytes(v);
    buf.extend_from_slice(bytes.as_slice());
}

/// Append the little-endian bytes of a `u64`.
fn push_u64(buf: &mut Vec<u8>, v: u64)
    ensures
        final(buf)@ == old(buf)@ + spec_u64_to_le_bytes(v),
{
    let bytes = u64_to_le_bytes(v);
    buf.extend_from_slice(bytes.as_slice());
}

/// Append the little-endian bytes of a `u128`.
fn push_u128(buf: &mut Vec<u8>, v: u128)
    ensures
        final(buf)@ == old(buf)@ + spec_u128_to_le_bytes(v),
{
    let bytes = u128_to_le_bytes(v);
    buf.extend_from_slice(bytes.as_slice());
}

/// Append zero bytes until the buffer reaches `target` bytes.
fn pad_to(buf: &mut Vec<u8>, target: usize)
    requires
        old(buf)@.len() <= target,
    ensures
        final(buf)@ == spec_zero_pad(old(buf)@, target as nat),
        final(buf)@.len() == target,
{
    let ghost orig = buf@;
    while buf.len() < target
        invariant
            orig.len() <= buf@.len() <= target,
            buf@.subrange(0, orig.len() as int) == orig,
            forall|j: int| orig.len() <= j < buf@.len() ==> buf@[j] == 0,
        decreases target - buf.len(),
    {
        buf.push(0u8);
        proof {
            assert(buf@.subrange(0, orig.len() as int) =~= orig);
        }
    }
    proof {
        assert(buf@ =~= spec_zero_pad(orig, target as nat));
    }
}

/// Read a `u32` laid out at `off`.
fn read_u32_at(buf: &Vec<u8>, off: usize) -> (r: u32)
    requires
        off + 4 <= buf@.len(),
    ensures
        r == spec_u32_from_le_bytes(buf@.subrange(off as int, off + 4)),
{
    let _n: usize = buf.len();
    u32_from_le_bytes(vstd::slice::slice_subrange(buf.as_slice(), off, off + 4))
}

/// Read a `u64` laid out at `off`.
fn read_u64_at(buf: &Vec<u8>, off: usize) -> (r: u64)
    requires
        off + 8 <= buf@.len(),
    ensures
        r == spec_u64_from_le_bytes(buf@.subrange(off as int, off + 8)),
{
    let _n: usize = buf.len();
    u64_from_le_bytes(vstd::slice::slice_subrange(buf.as_slice(), off, off + 8))
}

/// Read a `u128` laid out at `off`.
fn read_u128_at(buf: &Vec<u8>, off: usize) -> (r: u128)
    requires
        off + 16 <= buf@.len(),
    ensures
        r == spec_u128_from_le_bytes(buf@.subrange(off as int, off + 16)),
{
    let _n: usize = buf.len();
    u128_from_le_bytes(vstd::slice::slice_subrange(buf.as_slice(), off, off + 16))
}

/// Copy `len` bytes laid out at `off` into an owned buffer.
fn read_bytes_at(buf: &Vec<u8>, off: usize, len: usize) -> (r: Vec<u8>)
    requires
        off + len <= buf@.len(),
    ensures
        r@ == buf@.subrange(off as int, off + len),
{
    let _n: usize = buf.len();
    vstd::slice::slice_to_vec(vstd::slice::slice_subrange(buf.as_slice(), off, off + len))
}

/// Encode a command envelope into its fixed-size byte string.
pub fn encode_command(m: &CommandMsg) -> (r: Vec<u8>)
    requires
        m@.wf(),
    ensures
        r@ == spec_encode_command(m@),
        r@.len() == COMMAND_MSG_SIZE,
{
    proof {
        lemma_auto_spec_u32_to_from_le_bytes();
        lemma_auto_spec_u128_to_from_le_bytes();
    }
    match m {
        CommandMsg::InitImage(c) => {
            let mut out = u32_to_le_bytes(TAG_INIT_IMAGE);
            out.extend_from_slice(c.image_name.as_slice());
            out.extend_from_slice(c.shmem_name.as_slice());
            push_u32(&mut out, c.width);
            push_u32(&mut out, c.height);
            push_u32(&mut out, format_code(c.format));
            out.push(if c.overwrite_existing {
                1u8
            } else {
                0u8
            });
            push_u128(&mut out, c.gpu_device_uuid);
            proof {
                assert(out@ =~= spec_encode_command(m@));
            }
            out
        },
        CommandMsg::FindImage(c) => {
            let mut out = u32_to_le_bytes(TAG_FIND_IMAGE);
            out.extend_from_slice(c.image_name.as_slice());
            push_u128(&mut out, c.gpu_device_uuid);
            pad_to(&mut out, COMMAND_MSG_SIZE);
            proof {
                assert(out@ =~= spec_encode_command(m@));
            }
            out
        },
        CommandMsg::CopyImage(c) => {
            let mut out = u32_to_le_bytes(TAG_COPY_IMAGE);
            out.extend_from_slice(c.image_name.as_slice());
            push_u128(&mut out, c.gpu_device_uuid);
            pad_to(&mut out, COMMAND_MSG_SIZE);
            proof {
                assert(out@ =~= spec_encode_command(m@));
            }
            out
        },
    }
}

/// Encode a result envelope into its fixed-size byte string.
pub fn encode_result(m: &ResultMsg) -> (r: Vec<u8>)
    requires
        m@.wf(),
    ensures
        r@ == spec_encode_result(m@),
        r@.len() == RESULT_MSG_SIZE,
{
    proof {
        lemma_auto_spec_u32_to_from_le_bytes();
        lemma_auto_spec_u64_to_from_le_bytes();
    }
    let (tag, flag, d) = match m {
        ResultMsg::InitImage(r) => (TAG_INIT_IMAGE, r.image_created, &r.img_data),
        ResultMsg::FindImage(r) => (TAG_FIND_IMAGE, r.image_found, &r.img_data),
    };
    let mut out = u32_to_le_bytes(tag);
    out.push(if flag {
        1u8
    } else {
        0u8
    });
    out.extend_from_slice(d.shmem_name.as_slice());
    out.extend_from_slice(d.data.name.as_slice());
    push_u32(&mut out, d.data.handle_id);
    push_u32(&mut out, d.data.width);
    push_u32(&mut out, d.data.height);
    push_u32(&mut out, format_code(d.data.format));
    push_u64(&mut out, d.data.allocation_size);
    proof {
        assert(out@ =~= spec_encode_result(m@));
    }
    out
}

/// Decode a command envelope; exactly the inverse of `encode_command` on
/// well-formed envelopes, and an error on anything outside the closed set.
pub fn decode_command(buf: &Vec<u8>) -> (r: Result<CommandMsg, IpcError>)
    ensures
        (match (r, spec_decode_command(buf@)) {
            (Ok(m), Ok(v)) => m@ == v && m@.wf(),
            (Err(e), Err(v)) => e == v,
            _ => false,
        }),
{
    if buf.len() != COMMAND_MSG_SIZE {
        return Err(IpcError::BadLength);
    }
    let tag = read_u32_at(buf, 0);
    if tag == TAG_INIT_IMAGE {
        let code = read_u32_at(buf, CMD_FORMAT_OFF);
        match format_from_code(code) {
            Some(f) => {
                let c = CommInitImage {
                    image_name: read_bytes_at(buf, CMD_NAME_OFF, IMG_NAME_LEN),
                    shmem_name: read_bytes_at(buf, CMD_SHMEM_OFF, IMG_NAME_LEN),
                    width: read_u32_at(buf, CMD_WIDTH_OFF),
                    height: read_u32_at(buf, CMD_HEIGHT_OFF),
                    format: f,
                    overwrite_existing: buf[CMD_OVERWRITE_OFF] != 0,
                    gpu_device_uuid: read_u128_at(buf, CMD_UUID_OFF),
                };
                Ok(CommandMsg::InitImage(c))
            },
            None => Err(IpcError::UnknownFormat),
        }
    } else if tag == TAG_FIND_IMAGE {
        Ok(
            CommandMsg::FindImage(
                CommFindImage {
                    image_name: read_bytes_at(buf, CMD_NAME_OFF, IMG_NAME_LEN),
                    gpu_device_uuid: read_u128_at(buf, CMD_FIND_UUID_OFF),
                },
            ),
        )
    } else if tag == TAG_COPY_IMAGE {
        Ok(
            CommandMsg::CopyImage(
                CommCopyImage {
                    image_name: read_bytes_at(buf, CMD_NAME_OFF, IMG_NAME_LEN),
                    gpu_device_uuid: read_u128_at(buf, CMD_FIND_UUID_OFF),
                },
            ),
        )
    } else {
        Err(IpcError::UnknownTag)
    }
}

/// Decode a result envelope; exactly the inverse of `encode_result` on
/// well-formed envelopes, and an error on anything outside the closed set.
pub fn decode_result(buf: &Vec<u8>) -> (r: Result<ResultMsg, IpcError>)
    ensures
        (match (r, spec_decode_result(buf@)) {
            (Ok(m), Ok(v)) => m@ == v && m@.wf(),
            (Err(e), Err(v)) => e == v,
            _ => false,
        }),
{
    if buf.len() != RESULT_MSG_SIZE {
        return Err(IpcError::BadLength);
    }
    let tag = read_u32_at(buf, 0);
    let code = read_u32_at(buf, RES_FORMAT_OFF);
    if tag != TAG_INIT_IMAGE && tag != TAG_FIND_IMAGE {
        return Err(IpcError::UnknownTag);
    }
    match format_from_code(code) {
        None => Err(IpcError::UnknownFormat),
        Some(f) => {
            let flag = buf[RES_FLAG_OFF] != 0;
            let d = ImgData {
                shmem_name: read_bytes_at(buf, RES_SHMEM_OFF, IMG_NAME_LEN),
                data: ShmemDataInternal {
                    name: read_bytes_at(buf, RES_NAME_OFF, IMG_NAME_LEN),
                    handle_id: read_u32_at(buf, RES_HANDLE_ID_OFF),
                    width: read_u32_at(buf, RES_WIDTH_OFF),
                    height: read_u32_at(buf, RES_HEIGHT_OFF),
                    format: f,
                    allocation_size: read_u64_at(buf, RES_ALLOC_OFF),
                },
            };
            if tag == TAG_INIT_IMAGE {
                Ok(ResultMsg::InitImage(ResultInitImage { image_created: flag, img_data: d }))
            } else {
                Ok(ResultMsg::FindImage(ResultFindImage { image_found: flag, img_data: d }))
            }
        },
    }
}

/// Round trip: decoding the encoding of any well-formed command envelope
/// gives back exactly that envelope.
pub proof fn lemma_command_round_trip(m: CommandMsgModel)
    requires
        m.wf(),
    ensures
        spec_decode_command(spec_encode_command(m)) == Ok::<CommandMsgModel, IpcError>(m),
{
    lemma_auto_spec_u32_to_from_le_bytes();
    lemma_auto_spec_u128_to_from_le_bytes();
    let b = spec_encode_command(m);
    match m {
        CommandMsgModel::InitImage(c) => {
            assert(b.len() == COMMAND_MSG_SIZE);
            assert(b.subrange(0, 4) =~= spec_u32_to_le_bytes(TAG_INIT_IMAGE));
            assert(b.subrange(CMD_NAME_OFF as int, CMD_NAME_OFF + IMG_NAME_LEN) =~= c.image_name);
            assert(b.subrange(CMD_SHMEM_OFF as int, CMD_SHMEM_OFF + IMG_NAME_LEN) =~= c.shmem_name);
            assert(b.subrange(CMD_WIDTH_OFF as int, CMD_WIDTH_OFF + 4) =~= spec_u32_to_le_bytes(
                c.width,
            ));
            assert(b.subrange(CMD_HEIGHT_OFF as int, CMD_HEIGHT_OFF + 4) =~= spec_u32_to_le_bytes(
                c.height,
            ));
            assert(b.subrange(CMD_FORMAT_OFF as int, CMD_FORMAT_OFF + 4) =~= spec_u32_to_le_bytes(
                spec_format_code(c.format),
            ));
            assert(b[CMD_OVERWRITE_OFF as int] == spec_bool_byte(c.overwrite_existing));
            assert(b.subrange(CMD_UUID_OFF as int, CMD_UUID_OFF + 16) =~= spec_u128_to_le_bytes(
                c.gpu_device_uuid,
            ));
            lemma_format_code_round_trip(c.format);
            assert(spec_decode_command(b)->Ok_0 =~= m);
        },
        CommandMsgModel::FindImage(c) => {
            let body = spec_u32_to_le_bytes(TAG_FIND_IMAGE) + c.image_name + spec_u128_to_le_bytes(
                c.gpu_device_uuid,
            );
            assert(body.len() == CMD_FIND_PAYLOAD_END);
            assert(b.len() == COMMAND_MSG_SIZE);
            assert(b.subrange(0, 4) =~= spec_u32_to_le_bytes(TAG_FIND_IMAGE));
            assert(b.subrange(CMD_NAME_OFF as int, CMD_NAME_OFF + IMG_NAME_LEN) =~= c.image_name);
            assert(b.subrange(CMD_FIND_UUID_OFF as int, CMD_FIND_UUID_OFF + 16)
                =~= spec_u128_to_le_bytes(c.gpu_device_uuid));
            assert(spec_decode_command(b)->Ok_0 =~= m);
        },
        CommandMsgModel::CopyImage(c) => {
            let body = spec_u32_to_le_bytes(TAG_COPY_IMAGE) + c.image_name + spec_u128_to_le_bytes(
                c.gpu_device_uuid,
            );
            assert(body.len() == CMD_FIND_PAYLOAD_END);
            assert(b.len() == COMMAND_MSG_SIZE);
            assert(b.subrange(0, 4) =~= spec_u32_to_le_bytes(TAG_COPY_IMAGE));
            assert(b.subrange(CMD_NAME_OFF as int, CMD_NAME_OFF + IMG_NAME_LEN) =~= c.image_name);
            assert(b.subrange(CMD_FIND_UUID_OFF as int, CMD_FIND_UUID_OFF + 16)
                =~= spec_u128_to_le_bytes(c.gpu_device_uuid));
            assert(spec_decode_command(b)->Ok_0 =~= m);
        },
    }
}

/// Round trip: decoding the encoding of any well-formed result envelope
/// gives back exactly that envelope.
pub proof fn lemma_result_round_trip(m: ResultMsgModel)
    requires
        m.wf(),
    ensures
        spec_decode_result(spec_encode_result(m)) == Ok::<ResultMsgModel, IpcError>(m),
{
    lemma_auto_spec_u32_to_from_le_bytes();
    lemma_auto_spec_u64_to_from_le_bytes();
    let b = spec_encode_result(m);
    let (tag, flag, d) = match m {
        ResultMsgModel::InitImage(r) => (TAG_INIT_IMAGE, r.image_created, r.img_data),
        ResultMsgModel::FindImage(r) => (TAG_FIND_IMAGE, r.image_found, r.img_data),
    };
    assert(b.len() == RESULT_MSG_SIZE);
    assert(b.subrange(0, 4) =~= spec_u32_to_le_bytes(tag));
    assert(b[RES_FLAG_OFF as int] == spec_bool_byte(flag));
    assert(b.subrange(RES_SHMEM_OFF as int, RES_SHMEM_OFF + IMG_NAME_LEN) =~= d.shmem_name);
    assert(b.subrange(RES_NAME_OFF as int, RES_NAME_OFF + IMG_NAME_LEN) =~= d.data.name);
    assert(b.subrange(RES_HANDLE_ID_OFF as int, RES_HANDLE_ID_OFF + 4) =~= spec_u32_to_le_bytes(
        d.data.handle_id,
    ));
    assert(b.subrange(RES_WIDTH_OFF as int, RES_WIDTH_OFF + 4) =~= spec_u32_to_le_bytes(
        d.data.width,
    ));
    assert(b.subrange(RES_HEIGHT_OFF as int, RES_HEIGHT_OFF + 4) =~= spec_u32_to_le_bytes(
        d.data.height,
    ));
    assert(b.subrange(RES_FORMAT_OFF as int, RES_FORMAT_OFF + 4) =~= spec_u32_to_le_bytes(
        spec_format_code(d.data.format),
    ));
    assert(b.subrange(RES_ALLOC_OFF as int, RES_ALLOC_OFF + 8) =~= spec_u64_to_le_bytes(
        d.data.allocation_size,
    ));
    lemma_format_code_round_trip(d.data.format);
    assert(spec_decode_result(b)->Ok_0 =~= m);
}

} // verus!
