//! Identifiers of programs, messages and memory pages.
use vstd::prelude::*;
use vstd::std_specs::cmp::PartialEqSpec;

verus! {

/// Number of bytes in a program or message identifier.
pub const ID_LEN: usize = 32;

/// Byte `i` of the little-endian form of `v`.
pub open spec fn le_byte(v: u64, i: int) -> u8 {
    if i == 0 {
        (v % 0x100) as u8
    } else if i == 1 {
        ((v / 0x100) % 0x100) as u8
    } else if i == 2 {
        ((v / 0x1_0000) % 0x100) as u8
    } else if i == 3 {
        ((v / 0x100_0000) % 0x100) as u8
    } else if i == 4 {
        ((v / 0x1_0000_0000) % 0x100) as u8
    } else if i == 5 {
        ((v / 0x100_0000_0000) % 0x100) as u8
    } else if i == 6 {
        ((v / 0x1_0000_0000_0000) % 0x100) as u8
    } else {
        ((v / 0x100_0000_0000_0000) % 0x100) as u8
    }
}

/// The eight little-endian bytes of `v`.
pub open spec fn le_bytes(v: u64) -> Seq<u8> {
    Seq::new(8, |i: int| le_byte(v, i))
}

/// The eight little-endian bytes of `v`.
pub fn to_le_bytes(v: u64) -> (bytes: [u8; 8])
    ensures
        bytes@ == le_bytes(v),
{
    let bytes: [u8; 8] = [
        (v % 0x100) as u8,
        ((v / 0x100) % 0x100) as u8,
        ((v / 0x1_0000) % 0x100) as u8,
        ((v / 0x100_0000) % 0x100) as u8,
        ((v / 0x1_0000_0000) % 0x100) as u8,
        ((v / 0x100_0000_0000) % 0x100) as u8,
        ((v / 0x1_0000_0000_0000) % 0x100) as u8,
        ((v / 0x100_0000_0000_0000) % 0x100) as u8,
    ];
    assert(bytes@ =~= le_bytes(v));
    bytes
}

/// Dividing by a power of 256 and then by 256 divides by the next power.
proof fn div_again(v: u64)
    ensures
        (v / 0x100) / 0x100 == v / 0x1_0000,
        (v / 0x1_0000) / 0x100 == v / 0x100_0000,
        (v / 0x100_0000) / 0x100 == v / 0x1_0000_0000,
        (v / 0x1_0000_0000) / 0x100 == v / 0x100_0000_0000,
        (v / 0x100_0000_0000) / 0x100 == v / 0x1_0000_0000_0000,
        (v / 0x1_0000_0000_0000) / 0x100 == v / 0x100_0000_0000_0000,
        v / 0x100_0000_0000_0000 < 0x100,
{
}

/// Two numbers with the same little-endian bytes are the same number.
pub proof fn le_bytes_injective(a: u64, b: u64)
    requires
        le_bytes(a) == le_bytes(b),
    ensures
        a == b,
{
    div_again(a);
    div_again(b);
    assert forall|i: int| 0 <= i < 8 implies le_byte(a, i) == le_byte(b, i) by {
        assert(le_bytes(a)[i] == le_byte(a, i));
        assert(le_bytes(b)[i] == le_byte(b, i));
    }
    assert(a / 0x100_0000_0000_0000 == b / 0x100_0000_0000_0000) by {
        assert(le_byte(a, 7) == le_byte(b, 7));
    }
    assert(a / 0x1_0000_0000_0000 == b / 0x1_0000_0000_0000) by {
        assert(le_byte(a, 6) == le_byte(b, 6));
    }
    assert(a / 0x100_0000_0000 == b / 0x100_0000_0000) by {
        assert(le_byte(a, 5) == le_byte(b, 5));
    }
    assert(a / 0x1_0000_0000 == b / 0x1_0000_0000) by {
        assert(le_byte(a, 4) == le_byte(b, 4));
    }
    assert(a / 0x100_0000 == b / 0x100_0000) by {
        assert(le_byte(a, 3) == le_byte(b, 3));
    }
    assert(a / 0x1_0000 == b / 0x1_0000) by {
        assert(le_byte(a, 2) == le_byte(b, 2));
    }
    assert(a / 0x100 == b / 0x100) by {
        assert(le_byte(a, 1) == le_byte(b, 1));
    }
    assert(le_byte(a, 0) == le_byte(b, 0));
}

/// The little-endian bytes of a number, weighted by their places, make it up.
pub proof fn le_bytes_make_the_number(v: u64)
    ensures
        le_bytes(v).len() == 8,
        v == le_bytes(v)[0] + le_bytes(v)[1] * 0x100 + le_bytes(v)[2] * 0x1_0000 + le_bytes(v)[3]
            * 0x100_0000 + le_bytes(v)[4] * 0x1_0000_0000 + le_bytes(v)[5] * 0x100_0000_0000
            + le_bytes(v)[6] * 0x1_0000_0000_0000 + le_bytes(v)[7] * 0x100_0000_0000_0000,
{
    div_again(v);
}

/// Identifiers are equal if and only if all their bytes are.
pub proof fn identifiers_are_their_bytes(a: ProgramId, b: ProgramId, c: MessageId, d: MessageId)
    ensures
        a.eq_spec(&b) <==> a.bytes@ == b.bytes@,
        c.eq_spec(&d) <==> c.bytes@ == d.bytes@,
{
    if a.bytes@ == b.bytes@ {
        assert(a.bytes =~= b.bytes);
    }
    if c.bytes@ == d.bytes@ {
        assert(c.bytes =~= d.bytes);
    }
}

/// Whether two identifiers have the same bytes.
fn same_bytes(a: &[u8; 32], b: &[u8; 32]) -> (same: bool)
    ensures
        same == (*a == *b),
{
    let mut i: usize = 0;
    while i < ID_LEN
        invariant
            i <= ID_LEN,
            forall|j: int| 0 <= j < i ==> a@[j] == b@[j],
        decreases ID_LEN - i,
    {
        if a[i] != b[i] {
            assert(a@[i as int] != b@[i as int]);
            return false;
        }
        i = i + 1;
    }
    assert(*a =~= *b);
    true
}

/// Copies an identifier out of a byte string of its length.
fn id_from_slice(slice: &[u8]) -> (bytes: [u8; 32])
    requires
        slice@.len() == ID_LEN,
    ensures
        bytes@ == slice@,
{
    let mut bytes: [u8; 32] = [0u8; 32];
    let mut i: usize = 0;
    while i < ID_LEN
        invariant
            i <= ID_LEN,
            slice@.len() == ID_LEN,
            forall|j: int| 0 <= j < i ==> bytes@[j] == slice@[j],
        decreases ID_LEN - i,
    {
        bytes[i] = slice[i];
        i = i + 1;
    }
    assert(bytes@ =~= slice@);
    bytes
}

/// Identifier of a program.
///
/// The identifier whose bytes are all zero belongs to the system: messages
/// addressed to it are logged and never executed.
#[derive(Clone, Copy, Debug)]
pub struct ProgramId {
    pub bytes: [u8; 32],
}

impl ProgramId {
    /// The identifier of the system.
    pub open spec fn system() -> ProgramId {
        ProgramId {
            bytes: [
                0, 0, 0, 0, 0, 0, 0, 0,
                0, 0, 0, 0, 0, 0, 0, 0,
                0, 0, 0, 0, 0, 0, 0, 0,
                0, 0, 0, 0, 0, 0, 0, 0,
            ],
        }
    }

    /// Bytes of the identifier.
    pub fn as_slice(&self) -> (slice: &[u8])
        ensures
            slice@ == self.bytes@,
    {
        self.bytes.as_slice()
    }

    /// Identifier with the given bytes.
    pub fn from_slice(slice: &[u8]) -> (id: ProgramId)
        requires
            slice@.len() == ID_LEN,
        ensures
            id.bytes@ == slice@,
    {
        ProgramId { bytes: id_from_slice(slice) }
    }
}

impl Default for ProgramId {
    /// The identifier of the system.
    fn default() -> (id: ProgramId)
        ensures
            id == ProgramId::system(),
    {
        let bytes: [u8; 32] = [0u8; 32];
        assert(bytes =~= ProgramId::system().bytes);
        ProgramId { bytes }
    }
}

impl PartialEq for ProgramId {
    fn eq(&self, other: &ProgramId) -> (same: bool) {
        same_bytes(&self.bytes, &other.bytes)
    }
}

impl vstd::std_specs::cmp::PartialEqSpecImpl for ProgramId {
    open spec fn obeys_eq_spec() -> bool {
        true
    }

    open spec fn eq_spec(&self, other: &ProgramId) -> bool {
        *self == *other
    }
}

impl From<u64> for ProgramId {
    /// Identifier whose first eight bytes hold `v` in little-endian order,
    /// the others being zero.
    fn from(v: u64) -> (id: ProgramId) {
        let le: [u8; 8] = to_le_bytes(v);
        ProgramId {
            bytes: [
                le[0], le[1], le[2], le[3], le[4], le[5], le[6], le[7],
                0, 0, 0, 0, 0, 0, 0, 0,
                0, 0, 0, 0, 0, 0, 0, 0,
                0, 0, 0, 0, 0, 0, 0, 0,
            ],
        }
    }
}

impl vstd::std_specs::convert::FromSpecImpl<u64> for ProgramId {
    open spec fn obeys_from_spec() -> bool {
        true
    }

    open spec fn from_spec(v: u64) -> ProgramId {
        ProgramId {
            bytes: [
                le_byte(v, 0), le_byte(v, 1), le_byte(v, 2), le_byte(v, 3),
                le_byte(v, 4), le_byte(v, 5), le_byte(v, 6), le_byte(v, 7),
                0, 0, 0, 0, 0, 0, 0, 0,
                0, 0, 0, 0, 0, 0, 0, 0,
                0, 0, 0, 0, 0, 0, 0, 0,
            ],
        }
    }
}

/// Identifier of a message.
#[derive(Clone, Copy, Debug)]
pub struct MessageId {
    pub bytes: [u8; 32],
}

impl MessageId {
    /// Bytes of the identifier.
    pub fn as_slice(&self) -> (slice: &[u8])
        ensures
            slice@ == self.bytes@,
    {
        self.bytes.as_slice()
    }

    /// Identifier with the given bytes.
    pub fn from_slice(slice: &[u8]) -> (id: MessageId)
        requires
            slice@.len() == ID_LEN,
        ensures
            id.bytes@ == slice@,
    {
        MessageId { bytes: id_from_slice(slice) }
    }
}

impl PartialEq for MessageId {
    fn eq(&self, other: &MessageId) -> (same: bool) {
        same_bytes(&self.bytes, &other.bytes)
    }
}

impl vstd::std_specs::cmp::PartialEqSpecImpl for MessageId {
    open spec fn obeys_eq_spec() -> bool {
        true
    }

    open spec fn eq_spec(&self, other: &MessageId) -> bool {
        *self == *other
    }
}

/// Number of a memory page.
#[derive(Clone, Copy, Debug, PartialEq, Eq, Structural)]
pub struct PageNumber {
    pub raw: u32,
}

impl PageNumber {
    /// The number itself.
    pub fn raw(&self) -> (raw: u32)
        ensures
            raw == self.raw,
    {
        self.raw
    }
}

impl From<u32> for PageNumber {
    fn from(raw: u32) -> (page: PageNumber) {
        PageNumber { raw }
    }
}

impl vstd::std_specs::convert::FromSpecImpl<u32> for PageNumber {
    open spec fn obeys_from_spec() -> bool {
        true
    }

    open spec fn from_spec(raw: u32) -> PageNumber {
        PageNumber { raw }
    }
}

} // verus!
