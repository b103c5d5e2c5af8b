use vstd::prelude::*;

use crate::error::NfscrsJniError;
use crate::time::NfsTime;

verus! {

/// The attributes that this layer requests from the engine.
#[derive(Clone, Copy, Debug, PartialEq, Eq, Structural)]
pub enum AttrId {
    TimeAccess,
    TimeModify,
    TimeCreate,
    Type,
    Size,
    Mode,
}

/// Protocol attribute numbers: bit `n` of a request bitmap asks for attribute `n`.
pub const FATTR4_TYPE: u32 = 1;
pub const FATTR4_SIZE: u32 = 4;
pub const FATTR4_MODE: u32 = 33;
pub const FATTR4_TIME_ACCESS: u32 = 47;
pub const FATTR4_TIME_CREATE: u32 = 50;
pub const FATTR4_TIME_MODIFY: u32 = 53;

/// Bits of the first bitmap word that name an attribute of `AttrId`.
pub const KNOWN_WORD0: u32 = 0x12;
/// Bits of the second bitmap word that name an attribute of `AttrId`.
pub const KNOWN_WORD1: u32 = 0x248002;

impl AttrId {
    pub open spec fn number(self) -> u32 {
        match self {
            AttrId::TimeAccess => FATTR4_TIME_ACCESS,
            AttrId::TimeModify => FATTR4_TIME_MODIFY,
            AttrId::TimeCreate => FATTR4_TIME_CREATE,
            AttrId::Type => FATTR4_TYPE,
            AttrId::Size => FATTR4_SIZE,
            AttrId::Mode => FATTR4_MODE,
        }
    }

    /// The protocol number of this attribute.
    pub fn attr_number(&self) -> (r: u32)
        ensures
            r == self.number(),
    {
        match self {
            AttrId::TimeAccess => FATTR4_TIME_ACCESS,
            AttrId::TimeModify => FATTR4_TIME_MODIFY,
            AttrId::TimeCreate => FATTR4_TIME_CREATE,
            AttrId::Type => FATTR4_TYPE,
            AttrId::Size => FATTR4_SIZE,
            AttrId::Mode => FATTR4_MODE,
        }
    }
}

/// A request bitmap of two 32-bit words: bit `n % 32` of word `n / 32` asks
/// for attribute `n`.
#[derive(Clone, Copy, Debug, PartialEq, Eq, Structural)]
pub struct Bitmap4 {
    pub word0: u32,
    pub word1: u32,
}

pub open spec fn bit_of(w: u32, b: u32) -> bool {
    w & (1u32 << b) != 0
}

impl Bitmap4 {
    /// Whether protocol attribute `n` is requested.
    pub open spec fn has_bit(self, n: u32) -> bool {
        if n < 32 {
            bit_of(self.word0, n)
        } else if n < 64 {
            bit_of(self.word1, (n - 32) as u32)
        } else {
            false
        }
    }

    /// Only bits of the attributes in `AttrId` are set.
    pub open spec fn wf(self) -> bool {
        self.word0 & !KNOWN_WORD0 == 0 && self.word1 & !KNOWN_WORD1 == 0
    }

    /// The set of attributes that the bitmap requests.
    pub open spec fn view(self) -> Set<AttrId> {
        Set::new(|id: AttrId| self.has_bit(id.number()))
    }

    /// An empty request.
    pub fn new() -> (r: Bitmap4)
        ensures
            r.wf(),
            r@ == Set::<AttrId>::empty(),
    {
        let r = Bitmap4 { word0: 0, word1: 0 };
        assert forall|b: u32| b < 32 implies !bit_of(0u32, b) by {
            assert(0u32 & (1u32 << b) == 0) by (bit_vector);
        }
        assert(0u32 & !KNOWN_WORD0 == 0) by (bit_vector);
        assert(0u32 & !KNOWN_WORD1 == 0) by (bit_vector);
        assert(r@ =~= Set::<AttrId>::empty());
        r
    }

    /// Whether the bitmap requests attribute `id`.
    pub fn requests(&self, id: AttrId) -> (r: bool)
        ensures
            r == self@.contains(id),
    {
        let n = id.attr_number();
        if n < 32 {
            self.word0 & (1u32 << n) != 0
        } else {
            self.word1 & (1u32 << (n - 32)) != 0
        }
    }

    /// Adds one attribute to the request.
    pub fn set_bitmap(&mut self, id: AttrId)
        requires
            old(self).wf(),
        ensures
            final(self).wf(),
            final(self)@ == old(self)@.insert(id),
    {
        let n = id.attr_number();
        let ghost before = *self;
        if n < 32 {
            let m: u32 = 1u32 << n;
            proof { lemma_or_bit_in_known(self.word0, n, KNOWN_WORD0); }
            self.word0 = self.word0 | m;
        } else {
            let b: u32 = n - 32;
            let m: u32 = 1u32 << b;
            proof { lemma_or_bit_in_known(self.word1, b, KNOWN_WORD1); }
            self.word1 = self.word1 | m;
        }
        assert forall|other: AttrId| #[trigger] self.has_bit(other.number()) == (
        before.has_bit(other.number()) || other == id) by {
            let k = other.number();
            if k < 32 && n < 32 {
                lemma_or_bit(before.word0, n, k);
            } else if k >= 32 && n >= 32 {
                lemma_or_bit(before.word1, (n - 32) as u32, (k - 32) as u32);
            }
        }
        assert(self@ =~= before@.insert(id));
    }
}

/// Setting bit `i` changes bit `j` only where `i == j`.
pub proof fn lemma_or_bit(w: u32, i: u32, j: u32)
    requires
        i < 32,
        j < 32,
    ensures
        bit_of(w | (1u32 << i), j) == (bit_of(w, j) || i == j),
{
    assert((w | (1u32 << i)) & (1u32 << j) != 0 <==> (w & (1u32 << j) != 0 || i == j))
        by (bit_vector)
        requires
            i < 32,
            j < 32,
    ;
}

proof fn lemma_or_bit_in_known(w: u32, b: u32, known: u32)
    requires
        w & !known == 0,
        (known == KNOWN_WORD0 && (b == 1 || b == 4)) || (known == KNOWN_WORD1 && (b == 1 || b
            == 15 || b == 18 || b == 21)),
    ensures
        (w | (1u32 << b)) & !known == 0,
{
    assert((w | (1u32 << b)) & !known == 0) by (bit_vector)
        requires
            w & !known == 0,
            (known == 0x12u32 && (b == 1u32 || b == 4u32)) || (known == 0x248002u32 && (b
                == 1u32 || b == 15u32 || b == 18u32 || b == 21u32)),
    ;
}

/// Builds the bitmap that requests exactly the attributes listed in `ids`.
pub fn build_request_bitmap(ids: &Vec<AttrId>) -> (r: Bitmap4)
    ensures
        r.wf(),
        r@ == ids@.to_set(),
{
    let mut r = Bitmap4::new();
    let mut i: usize = 0;
    while i < ids.len()
        invariant
            i <= ids.len(),
            r.wf(),
            r@ == ids@.subrange(0, i as int).to_set(),
        decreases ids.len() - i,
    {
        let ghost prev = ids@.subrange(0, i as int);
        r.set_bitmap(ids[i]);
        assert(ids@.subrange(0, i + 1) =~= prev.push(ids@[i as int]));
        proof {
            prev.lemma_push_to_set_commute(ids@[i as int]);
        }
        i = i + 1;
    }
    assert(ids@.subrange(0, ids.len() as int) =~= ids@);
    r
}

/// The core attributes that an attribute read asks for.
pub open spec fn core_attrs() -> Set<AttrId> {
    set![
        AttrId::TimeAccess,
        AttrId::TimeModify,
        AttrId::TimeCreate,
        AttrId::Type,
        AttrId::Size,
        AttrId::Mode,
    ]
}

/// The bitmap that requests the six core attributes.
pub fn basic_attr_bitmap() -> (r: Bitmap4)
    ensures
        r.wf(),
        r@ == core_attrs(),
{
    let mut r = Bitmap4::new();
    r.set_bitmap(AttrId::TimeAccess);
    r.set_bitmap(AttrId::TimeModify);
    r.set_bitmap(AttrId::TimeCreate);
    r.set_bitmap(AttrId::Type);
    r.set_bitmap(AttrId::Size);
    r.set_bitmap(AttrId::Mode);
    assert(r@ =~= core_attrs());
    r
}

/// Two well-formed bitmaps that request the same attributes are equal.
pub proof fn lemma_bitmap_determined_by_set(a: Bitmap4, b: Bitmap4)
    requires
        a.wf(),
        b.wf(),
        a@ == b@,
    ensures
        a == b,
{
    assert forall|id: AttrId| #[trigger] a.has_bit(id.number()) == b.has_bit(id.number()) by {
        assert(a@.contains(id) == a.has_bit(id.number()));
        assert(b@.contains(id) == b.has_bit(id.number()));
    }
    assert(a.has_bit(AttrId::Type.number()) == b.has_bit(AttrId::Type.number()));
    assert(a.has_bit(AttrId::Size.number()) == b.has_bit(AttrId::Size.number()));
    assert(a.has_bit(AttrId::Mode.number()) == b.has_bit(AttrId::Mode.number()));
    assert(a.has_bit(AttrId::TimeAccess.number()) == b.has_bit(AttrId::TimeAccess.number()));
    assert(a.has_bit(AttrId::TimeCreate.number()) == b.has_bit(AttrId::TimeCreate.number()));
    assert(a.has_bit(AttrId::TimeModify.number()) == b.has_bit(AttrId::TimeModify.number()));
    let (x0, y0, x1, y1) = (a.word0, b.word0, a.word1, b.word1);
    assert(x0 == y0) by (bit_vector)
        requires
            x0 & !0x12u32 == 0,
            y0 & !0x12u32 == 0,
            (x0 & (1u32 << 1u32) != 0) == (y0 & (1u32 << 1u32) != 0),
            (x0 & (1u32 << 4u32) != 0) == (y0 & (1u32 << 4u32) != 0),
    ;
    assert(x1 == y1) by (bit_vector)
        requires
            x1 & !0x248002u32 == 0,
            y1 & !0x248002u32 == 0,
            (x1 & (1u32 << 1u32) != 0) == (y1 & (1u32 << 1u32) != 0),
            (x1 & (1u32 << 15u32) != 0) == (y1 & (1u32 << 15u32) != 0),
            (x1 & (1u32 << 18u32) != 0) == (y1 & (1u32 << 18u32) != 0),
            (x1 & (1u32 << 21u32) != 0) == (y1 & (1u32 << 21u32) != 0),
    ;
}

/// Requesting the same attributes, in any order and with any repetition,
/// yields equal bitmaps.
pub proof fn lemma_request_bitmap_order_independent(
    a: Seq<AttrId>,
    b: Seq<AttrId>,
    ra: Bitmap4,
    rb: Bitmap4,
)
    requires
        a.to_set() == b.to_set(),
        ra.wf(),
        rb.wf(),
        ra@ == a.to_set(),
        rb@ == b.to_set(),
    ensures
        ra == rb,
{
    lemma_bitmap_determined_by_set(ra, rb);
}

/// The object types that the engine reports.
#[derive(Clone, Copy, Debug, PartialEq, Eq, Structural)]
pub enum NFSFType4 {
    NF4REG,
    NF4DIR,
    NF4BLK,
    NF4CHR,
    NF4LNK,
    NF4SOCK,
    NF4FIFO,
    NF4ATTRDIR,
    NF4NAMEDATTR,
}

/// One attribute value of an engine response; the variant names the attribute.
#[derive(Clone, Copy, Debug, PartialEq, Eq, Structural)]
pub enum FAttr4Type {
    TimeAccess(NfsTime),
    TimeModify(NfsTime),
    TimeCreate(NfsTime),
    Type(NFSFType4),
    Size(u64),
    Mode(u32),
}

impl FAttr4Type {
    pub open spec fn id(self) -> AttrId {
        match self {
            FAttr4Type::TimeAccess(_) => AttrId::TimeAccess,
            FAttr4Type::TimeModify(_) => AttrId::TimeModify,
            FAttr4Type::TimeCreate(_) => AttrId::TimeCreate,
            FAttr4Type::Type(_) => AttrId::Type,
            FAttr4Type::Size(_) => AttrId::Size,
            FAttr4Type::Mode(_) => AttrId::Mode,
        }
    }

    /// The attribute that this value belongs to.
    pub fn attr_id(&self) -> (r: AttrId)
        ensures
            r == self.id(),
    {
        match self {
            FAttr4Type::TimeAccess(_) => AttrId::TimeAccess,
            FAttr4Type::TimeModify(_) => AttrId::TimeModify,
            FAttr4Type::TimeCreate(_) => AttrId::TimeCreate,
            FAttr4Type::Type(_) => AttrId::Type,
            FAttr4Type::Size(_) => AttrId::Size,
            FAttr4Type::Mode(_) => AttrId::Mode,
        }
    }
}

/// The first value in `s` that belongs to attribute `id`.
pub open spec fn lookup(s: Seq<FAttr4Type>, id: AttrId) -> Option<FAttr4Type>
    decreases s.len(),
{
    if s.len() == 0 {
        None
    } else if s[0].id() == id {
        Some(s[0])
    } else {
        lookup(s.drop_first(), id)
    }
}

proof fn lemma_lookup_has_id(s: Seq<FAttr4Type>, id: AttrId)
    ensures
        lookup(s, id) is Some ==> lookup(s, id)->0.id() == id,
    decreases s.len(),
{
    if s.len() > 0 && s[0].id() != id {
        lemma_lookup_has_id(s.drop_first(), id);
    }
}

/// A sparse attribute response: the values that the engine returned.
#[derive(Clone, Debug)]
pub struct FAttr4 {
    pub values: Vec<FAttr4Type>,
}

impl FAttr4 {
    /// The value of attribute `id`, if the response holds one.
    pub open spec fn get(&self, id: AttrId) -> Option<FAttr4Type> {
        lookup(self.values@, id)
    }

    /// Looks up attribute `id` in the response.
    pub fn fetch_attr(&self, id: AttrId) -> (r: Option<FAttr4Type>)
        ensures
            r == self.get(id),
            r is Some ==> r->0.id() == id,
    {
        proof {
            lemma_lookup_has_id(self.values@, id);
        }
        assert(self.values@.subrange(0, self.values@.len() as int) =~= self.values@);
        let mut i: usize = 0;
        while i < self.values.len()
            invariant
                i <= self.values.len(),
                lookup(self.values@.subrange(i as int, self.values@.len() as int), id) == lookup(
                    self.values@,
                    id,
                ),
            decreases self.values.len() - i,
        {
            let ghost rest = self.values@.subrange(i as int, self.values@.len() as int);
            let v = self.values[i];
            if v.attr_id() == id {
                return Some(v);
            }
            assert(rest.drop_first() =~= self.values@.subrange(i + 1, self.values@.len() as int));
            i = i + 1;
        }
        None
    }
}

pub open spec fn time_of(fa: FAttr4, id: AttrId) -> Option<NfsTime> {
    match fa.get(id) {
        Some(FAttr4Type::TimeAccess(t)) => Some(t),
        Some(FAttr4Type::TimeModify(t)) => Some(t),
        Some(FAttr4Type::TimeCreate(t)) => Some(t),
        _ => None,
    }
}

pub open spec fn type_of(fa: FAttr4) -> Option<NFSFType4> {
    match fa.get(AttrId::Type) {
        Some(FAttr4Type::Type(t)) => Some(t),
        _ => None,
    }
}

pub open spec fn size_of(fa: FAttr4) -> Option<u64> {
    match fa.get(AttrId::Size) {
        Some(FAttr4Type::Size(n)) => Some(n),
        _ => None,
    }
}

pub open spec fn mode_of(fa: FAttr4) -> Option<u32> {
    match fa.get(AttrId::Mode) {
        Some(FAttr4Type::Mode(m)) => Some(m),
        _ => None,
    }
}

fn fetch_time(fattr4: &FAttr4, id: AttrId) -> (r: Result<NfsTime, NfscrsJniError>)
    requires
        id == AttrId::TimeAccess || id == AttrId::TimeModify || id == AttrId::TimeCreate,
    ensures
        match r {
            Ok(t) => time_of(*fattr4, id) == Some(t),
            Err(e) => time_of(*fattr4, id) is None && e == NfscrsJniError::AttributeMissing(id),
        },
{
    match fattr4.fetch_attr(id) {
        Some(FAttr4Type::TimeAccess(t)) => Ok(t),
        Some(FAttr4Type::TimeModify(t)) => Ok(t),
        Some(FAttr4Type::TimeCreate(t)) => Ok(t),
        _ => Err(NfscrsJniError::AttributeMissing(id)),
    }
}

/// The last-access time of the response, or `AttributeMissing`.
pub fn get_access_time(fattr4: &FAttr4) -> (r: Result<NfsTime, NfscrsJniError>)
    ensures
        match r {
            Ok(t) => time_of(*fattr4, AttrId::TimeAccess) == Some(t),
            Err(e) => time_of(*fattr4, AttrId::TimeAccess) is None && e
                == NfscrsJniError::AttributeMissing(AttrId::TimeAccess),
        },
{
    fetch_time(fattr4, AttrId::TimeAccess)
}

/// The last-modification time of the response, or `AttributeMissing`.
pub fn get_modify_time(fattr4: &FAttr4) -> (r: Result<NfsTime, NfscrsJniError>)
    ensures
        match r {
            Ok(t) => time_of(*fattr4, AttrId::TimeModify) == Some(t),
            Err(e) => time_of(*fattr4, AttrId::TimeModify) is None && e
                == NfscrsJniError::AttributeMissing(AttrId::TimeModify),
        },
{
    fetch_time(fattr4, AttrId::TimeModify)
}

/// The creation time of the response, or `AttributeMissing`.
pub fn get_create_time(fattr4: &FAttr4) -> (r: Result<NfsTime, NfscrsJniError>)
    ensures
        match r {
            Ok(t) => time_of(*fattr4, AttrId::TimeCreate) == Some(t),
            Err(e) => time_of(*fattr4, AttrId::TimeCreate) is None && e
                == NfscrsJniError::AttributeMissing(AttrId::TimeCreate),
        },
{
    fetch_time(fattr4, AttrId::TimeCreate)
}

/// The object type of the response, or `AttributeMissing`.
pub fn get_filetype(fattr4: &FAttr4) -> (r: Result<NFSFType4, NfscrsJniError>)
    ensures
        match r {
            Ok(t) => type_of(*fattr4) == Some(t),
            Err(e) => type_of(*fattr4) is None && e == NfscrsJniError::AttributeMissing(
                AttrId::Type,
            ),
        },
{
    match fattr4.fetch_attr(AttrId::Type) {
        Some(FAttr4Type::Type(t)) => Ok(t),
        _ => Err(NfscrsJniError::AttributeMissing(AttrId::Type)),
    }
}

/// The size in bytes of the response, or `AttributeMissing`.
pub fn get_file_size(fattr4: &FAttr4) -> (r: Result<u64, NfscrsJniError>)
    ensures
        match r {
            Ok(n) => size_of(*fattr4) == Some(n),
            Err(e) => size_of(*fattr4) is None && e == NfscrsJniError::AttributeMissing(
                AttrId::Size,
            ),
        },
{
    match fattr4.fetch_attr(AttrId::Size) {
        Some(FAttr4Type::Size(n)) => Ok(n),
        _ => Err(NfscrsJniError::AttributeMissing(AttrId::Size)),
    }
}

/// The permission and type bits of the response, or `AttributeMissing`.
pub fn get_file_mode(fattr4: &FAttr4) -> (r: Result<u32, NfscrsJniError>)
    ensures
        match r {
            Ok(m) => mode_of(*fattr4) == Some(m),
            Err(e) => mode_of(*fattr4) is None && e == NfscrsJniError::AttributeMissing(
                AttrId::Mode,
            ),
        },
{
    match fattr4.fetch_attr(AttrId::Mode) {
        Some(FAttr4Type::Mode(m)) => Ok(m),
        _ => Err(NfscrsJniError::AttributeMissing(AttrId::Mode)),
    }
}

} // verus!
