use vstd::prelude::*;
use vstd::string::StringExecFns;

use crate::attrs::{
    get_access_time, get_create_time, get_file_mode, get_file_size, get_filetype, get_modify_time,
    mode_of, size_of, time_of, type_of, AttrId, FAttr4, NFSFType4,
};
use crate::error::NfscrsJniError;
use crate::time::{checked_millis, NfsTime};

verus! {

broadcast use {vstd::string::axiom_spec_iter, vstd::string::next_postcondition};

pub open spec fn is_absolute(s: Seq<char>) -> bool {
    s.len() > 0 && s[0] == '/'
}

/// A path that starts from the filesystem root.
#[derive(Debug)]
pub struct AbsolutePath {
    path: String,
}

fn first_char(s: &str) -> (r: Option<char>)
    ensures
        r == (if s@.len() > 0 { Some(s@[0]) } else { None::<char> }),
{
    let mut it = s.chars();
    it.next()
}

impl AbsolutePath {
    pub closed spec fn view(&self) -> Seq<char> {
        self.path@
    }

    pub open spec fn wf(&self) -> bool {
        is_absolute(self@)
    }

    /// Validates `path`: it must start with `/`.
    pub fn try_from(path: String) -> (r: Result<AbsolutePath, NfscrsJniError>)
        ensures
            is_absolute(path@) <==> r is Ok,
            r matches Ok(p) ==> p@ == path@ && p.wf(),
            r matches Err(e) ==> e matches NfscrsJniError::InvalidArgument(m) && m@
                == "not absolute path: "@ + path@,
    {
        if first_char(path.as_str()) == Some('/') {
            Ok(AbsolutePath { path })
        } else {
            Err(
                NfscrsJniError::InvalidArgument(
                    String::from_str("not absolute path: ").concat(path.as_str()),
                ),
            )
        }
    }

    /// The path text.
    pub fn as_str(&self) -> (r: &str)
        ensures
            r@ == self@,
    {
        self.path.as_str()
    }
}

/// Bit of the open-options mask that asks for reading.
pub const READ_BIT_NUM: i32 = 0;
/// Bit of the open-options mask that asks for writing.
pub const WRITE_BIT_NUM: i32 = 1;
/// Bit of the open-options mask that asks to create a missing file.
pub const CREATE_BIT_NUM: i32 = 2;
/// Bit of the open-options mask that asks to truncate the file.
pub const TRUNCATE_BIT_NUM: i32 = 3;

/// How a file is to be opened.
#[derive(Clone, Copy, Debug, PartialEq, Eq, Structural)]
pub struct OpenOptions {
    pub read: bool,
    pub write: bool,
    pub create: bool,
    pub truncate: bool,
}

/// Whether bit `k` of `i` is set.
pub open spec fn mask_bit(i: i32, k: i32) -> bool {
    i & (1i32 << k) != 0
}

/// Decodes the open-options mask: bit 0 read, bit 1 write, bit 2 create,
/// bit 3 truncate; the other bits are ignored.
pub fn int_to_open_options(i: i32) -> (r: OpenOptions)
    ensures
        r.read == mask_bit(i, READ_BIT_NUM),
        r.write == mask_bit(i, WRITE_BIT_NUM),
        r.create == mask_bit(i, CREATE_BIT_NUM),
        r.truncate == mask_bit(i, TRUNCATE_BIT_NUM),
{
    OpenOptions {
        read: i & (1i32 << READ_BIT_NUM) != 0,
        write: i & (1i32 << WRITE_BIT_NUM) != 0,
        create: i & (1i32 << CREATE_BIT_NUM) != 0,
        truncate: i & (1i32 << TRUNCATE_BIT_NUM) != 0,
    }
}

/// The snapshot of a file's attributes handed to the host.
#[derive(Clone, Copy, Debug, PartialEq, Eq, Structural)]
pub struct FileAttributes {
    pub access_time_ms: i64,
    pub modify_time_ms: i64,
    pub create_time_ms: i64,
    pub is_regular: bool,
    pub is_directory: bool,
    pub is_symlink: bool,
    pub is_other: bool,
    pub size: u64,
    pub mode: i32,
}

/// The response holds all six core attributes.
pub open spec fn has_core(fa: FAttr4) -> bool {
    &&& time_of(fa, AttrId::TimeAccess) is Some
    &&& time_of(fa, AttrId::TimeModify) is Some
    &&& time_of(fa, AttrId::TimeCreate) is Some
    &&& type_of(fa) is Some
    &&& size_of(fa) is Some
    &&& mode_of(fa) is Some
}

/// Every time of the response converts to milliseconds without overflow.
pub open spec fn times_fit(fa: FAttr4) -> bool {
    &&& time_of(fa, AttrId::TimeAccess)->0.millis_fit()
    &&& time_of(fa, AttrId::TimeModify)->0.millis_fit()
    &&& time_of(fa, AttrId::TimeCreate)->0.millis_fit()
}

/// The first core attribute, in the order type, size, mode, access time,
/// modify time, creation time, that the response lacks.
pub open spec fn first_missing(fa: FAttr4) -> AttrId {
    if type_of(fa) is None {
        AttrId::Type
    } else if size_of(fa) is None {
        AttrId::Size
    } else if mode_of(fa) is None {
        AttrId::Mode
    } else if time_of(fa, AttrId::TimeAccess) is None {
        AttrId::TimeAccess
    } else if time_of(fa, AttrId::TimeModify) is None {
        AttrId::TimeModify
    } else {
        AttrId::TimeCreate
    }
}

/// The first time, in the order access, modify, creation, whose
/// millisecond count does not fit in 64 bits.
pub open spec fn first_unfit(fa: FAttr4) -> AttrId {
    if !time_of(fa, AttrId::TimeAccess)->0.millis_fit() {
        AttrId::TimeAccess
    } else if !time_of(fa, AttrId::TimeModify)->0.millis_fit() {
        AttrId::TimeModify
    } else {
        AttrId::TimeCreate
    }
}

/// The snapshot that a complete response describes.
pub open spec fn snapshot_of(fa: FAttr4) -> FileAttributes {
    let t = type_of(fa)->0;
    FileAttributes {
        access_time_ms: time_of(fa, AttrId::TimeAccess)->0.millis() as i64,
        modify_time_ms: time_of(fa, AttrId::TimeModify)->0.millis() as i64,
        create_time_ms: time_of(fa, AttrId::TimeCreate)->0.millis() as i64,
        is_regular: t == NFSFType4::NF4REG,
        is_directory: t == NFSFType4::NF4DIR,
        is_symlink: t == NFSFType4::NF4LNK,
        is_other: t != NFSFType4::NF4REG && t != NFSFType4::NF4DIR && t != NFSFType4::NF4LNK,
        size: size_of(fa)->0,
        mode: mode_of(fa)->0 as i32,
    }
}

fn millis_of(t: NfsTime, id: AttrId) -> (r: Result<i64, NfscrsJniError>)
    ensures
        t.millis_fit() <==> r is Ok,
        r matches Ok(m) ==> m == t.millis(),
        r matches Err(e) ==> e == NfscrsJniError::TimeOutOfRange(id),
{
    match checked_millis(t) {
        Some(m) => Ok(m),
        None => Err(NfscrsJniError::TimeOutOfRange(id)),
    }
}

/// Decodes an attribute response into the host snapshot. Fails with
/// `AttributeMissing` when one of the six core attributes is absent, and
/// with `TimeOutOfRange` when a time does not fit in 64-bit milliseconds.
pub fn decode_attributes(fattr4: &FAttr4) -> (r: Result<FileAttributes, NfscrsJniError>)
    ensures
        r is Ok <==> has_core(*fattr4) && times_fit(*fattr4),
        r matches Ok(a) ==> a == snapshot_of(*fattr4),
        !has_core(*fattr4) ==> r == Err::<FileAttributes, NfscrsJniError>(
            NfscrsJniError::AttributeMissing(first_missing(*fattr4)),
        ),
        has_core(*fattr4) && !times_fit(*fattr4) ==> r == Err::<FileAttributes, NfscrsJniError>(
            NfscrsJniError::TimeOutOfRange(first_unfit(*fattr4)),
        ),
{
    let filetype = match get_filetype(fattr4) {
        Ok(t) => t,
        Err(e) => return Err(e),
    };
    let size = match get_file_size(fattr4) {
        Ok(n) => n,
        Err(e) => return Err(e),
    };
    let mode = match get_file_mode(fattr4) {
        Ok(m) => m,
        Err(e) => return Err(e),
    };
    let access = match get_access_time(fattr4) {
        Ok(t) => t,
        Err(e) => return Err(e),
    };
    let modify = match get_modify_time(fattr4) {
        Ok(t) => t,
        Err(e) => return Err(e),
    };
    let create = match get_create_time(fattr4) {
        Ok(t) => t,
        Err(e) => return Err(e),
    };
    let access_ms = match millis_of(access, AttrId::TimeAccess) {
        Ok(m) => m,
        Err(e) => return Err(e),
    };
    let modify_ms = match millis_of(modify, AttrId::TimeModify) {
        Ok(m) => m,
        Err(e) => return Err(e),
    };
    let create_ms = match millis_of(create, AttrId::TimeCreate) {
        Ok(m) => m,
        Err(e) => return Err(e),
    };
    let is_regular = filetype == NFSFType4::NF4REG;
    let is_directory = filetype == NFSFType4::NF4DIR;
    let is_symlink = filetype == NFSFType4::NF4LNK;
    Ok(
        FileAttributes {
            access_time_ms: access_ms,
            modify_time_ms: modify_ms,
            create_time_ms: create_ms,
            is_regular,
            is_directory,
            is_symlink,
            is_other: !is_regular && !is_directory && !is_symlink,
            size,
            mode: mode as i32,
        },
    )
}

/// The size of a file from an attribute response, as the host's signed
/// 64-bit length.
pub fn get_file_size_from_attrs(fattr4: &FAttr4) -> (r: Result<i64, NfscrsJniError>)
    ensures
        size_of(*fattr4) is Some <==> r is Ok,
        r matches Ok(n) ==> n == size_of(*fattr4)->0 as i64,
        r matches Err(e) ==> e == NfscrsJniError::AttributeMissing(AttrId::Size),
{
    match get_file_size(fattr4) {
        Ok(n) => Ok(n as i64),
        Err(e) => Err(e),
    }
}

/// What a write does next: finish at once with a count, or hand the engine
/// the first `n` bytes of the buffer.
#[derive(Clone, Copy, Debug, PartialEq, Eq, Structural)]
pub enum WriteStep {
    Done(i32),
    CallEngine(usize),
}

/// Decides a write of at most `limit` bytes. A limit that is not positive
/// completes with a count of zero and no engine call; otherwise the engine
/// is handed exactly `limit` bytes.
pub fn write_step(limit: i32) -> (r: WriteStep)
    ensures
        limit <= 0 ==> r == WriteStep::Done(0),
        limit > 0 ==> r == WriteStep::CallEngine(limit as usize),
{
    if limit <= 0 {
        WriteStep::Done(0)
    } else {
        WriteStep::CallEngine(limit as usize)
    }
}

/// Copies the first `limit` bytes of `buf`: the staged strategy, which hands
/// the engine the same bytes as reading `buf[..limit]` in place.
pub fn staged_copy(buf: &[u8], limit: usize) -> (r: Vec<u8>)
    requires
        limit <= buf@.len(),
    ensures
        r@ == buf@.subrange(0, limit as int),
{
    let mut v: Vec<u8> = Vec::with_capacity(limit);
    let mut i: usize = 0;
    while i < limit
        invariant
            i <= limit <= buf@.len(),
            v@ == buf@.subrange(0, i as int),
        decreases limit - i,
    {
        v.push(buf[i]);
        assert(buf@.subrange(0, i + 1) =~= buf@.subrange(0, i as int).push(buf@[i as int]));
        i = i + 1;
    }
    v
}

/// The outcome of a read as the host sees it.
#[derive(Debug)]
pub struct FileReadResult {
    pub data: Vec<u8>,
    pub count: i32,
    pub eof: bool,
}

/// The read capacity of a host buffer; a negative capacity is refused.
pub fn read_capacity(capacity: i32) -> (r: Result<usize, NfscrsJniError>)
    ensures
        capacity >= 0 <==> r is Ok,
        r matches Ok(n) ==> n == capacity,
        r matches Err(e) ==> e is InvalidArgument,
{
    if capacity < 0 {
        Err(NfscrsJniError::InvalidArgument(String::from_str("negative buffer capacity")))
    } else {
        Ok(capacity as usize)
    }
}

/// Checks what the engine returned for a read of at most `capacity` bytes.
/// A short read is a result, not an error; more bytes than were asked for
/// is refused.
pub fn read_file(capacity: usize, data: Vec<u8>, eof: bool) -> (r: Result<
    FileReadResult,
    NfscrsJniError,
>)
    ensures
        data@.len() <= capacity && data@.len() <= i32::MAX <==> r is Ok,
        r matches Ok(res) ==> {
            &&& res.data@ == data@
            &&& res.count == data@.len()
            &&& res.count <= capacity
            &&& res.eof == eof
        },
        r matches Err(e) ==> e is NFSCRSJNIError,
{
    if data.len() > capacity || data.len() > i32::MAX as usize {
        Err(NfscrsJniError::NFSCRSJNIError(String::from_str("read returned more than requested")))
    } else {
        let count = data.len() as i32;
        Ok(FileReadResult { data, count, eof })
    }
}

/// The count of a write as the host's signed 32-bit integer: whatever the
/// engine reports it wrote, which may be less than it was handed. A count
/// that does not fit is refused.
pub fn write_file(written: u32) -> (r: Result<i32, NfscrsJniError>)
    ensures
        written <= i32::MAX <==> r is Ok,
        r matches Ok(n) ==> n == written,
        r matches Err(e) ==> e is NFSCRSJNIError,
{
    if written > i32::MAX as u32 {
        Err(NfscrsJniError::NFSCRSJNIError(String::from_str("write count out of range")))
    } else {
        Ok(written as i32)
    }
}

} // verus!
