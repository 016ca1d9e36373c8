//! Sovereign account derivation.
//!
//! A remote chain is represented locally by a sovereign account: an address
//! derived deterministically from the chain's identity, with no signing key.
//! The codec writes a magic byte prefix (a distinct literal for the relay
//! chain, a type tag followed by the little-endian chain number for a
//! parachain) and zero-pads to the fixed address width. Recognition checks
//! the prefix, decodes the payload, and rejects any address with a nonzero
//! byte after the decoded payload.

use vstd::prelude::*;

verus! {

/// Width in bytes of every account address handled by this library.
pub const ADDRESS_WIDTH: usize = 32;

/// A fixed-width account address.
#[derive(Debug)]
pub struct Address {
    bytes: Vec<u8>,
}

impl View for Address {
    type V = Seq<u8>;

    closed spec fn view(&self) -> Seq<u8> {
        self.bytes@
    }
}

impl Address {
    /// An address is well formed when it has exactly the fixed width.
    pub open spec fn wf(self) -> bool {
        self@.len() == ADDRESS_WIDTH
    }

    /// Wraps raw bytes of the fixed width as an address.
    pub fn from_bytes(bytes: Vec<u8>) -> (r: Address)
        requires
            bytes@.len() == ADDRESS_WIDTH,
        ensures
            r@ == bytes@,
            r.wf(),
    {
        Address { bytes }
    }

    /// Exposes the raw bytes of the address.
    pub fn as_bytes(&self) -> (r: &Vec<u8>)
        ensures
            r@ == self@,
    {
        &self.bytes
    }
}

impl Clone for Address {
    fn clone(&self) -> (r: Self)
        ensures
            r@ == self@,
    {
        let mut bytes: Vec<u8> = Vec::new();
        let mut i: usize = 0;
        while i < self.bytes.len()
            invariant
                i <= self.bytes@.len(),
                bytes@ == self.bytes@.take(i as int),
            decreases self.bytes@.len() - i,
        {
            bytes.push(self.bytes[i]);
            i = i + 1;
            proof {
                assert(bytes@ =~= self.bytes@.take(i as int));
            }
        }
        proof {
            assert(bytes@ =~= self.bytes@);
        }
        Address { bytes }
    }
}

impl PartialEq for Address {
    fn eq(&self, other: &Address) -> (r: bool) {
        if self.bytes.len() != other.bytes.len() {
            return false;
        }
        let mut i: usize = 0;
        while i < self.bytes.len()
            invariant
                i <= self.bytes@.len(),
                self.bytes@.len() == other.bytes@.len(),
                forall|j: int| 0 <= j < i ==> self.bytes@[j] == other.bytes@[j],
            decreases self.bytes@.len() - i,
        {
            if self.bytes[i] != other.bytes[i] {
                return false;
            }
            i = i + 1;
        }
        proof {
            assert(self.bytes@ =~= other.bytes@);
        }
        true
    }
}

impl vstd::std_specs::cmp::PartialEqSpecImpl for Address {
    open spec fn obeys_eq_spec() -> bool {
        true
    }

    open spec fn eq_spec(&self, other: &Address) -> bool {
        self@ == other@
    }
}

/// Identity of a remote chain: the central relay chain, or a sibling
/// parachain with its numeric identifier.
#[derive(Clone, Copy, PartialEq, Eq, Structural, Debug)]
pub enum ChainId {
    Relay,
    Parachain(u32),
}

/// Magic prefix of the relay chain's sovereign account.
pub open spec fn relay_prefix() -> Seq<u8> {
    seq![82u8, 101u8, 108u8, 97u8, 121u8]
}

/// Type tag that precedes a parachain number in a sovereign account.
pub open spec fn para_prefix() -> Seq<u8> {
    seq![112u8, 97u8, 114u8, 97u8]
}

/// Little-endian byte encoding of a parachain number.
pub open spec fn le_bytes(id: u32) -> Seq<u8> {
    seq![
        (id & 0xff) as u8,
        ((id >> 8u32) & 0xff) as u8,
        ((id >> 16u32) & 0xff) as u8,
        ((id >> 24u32) & 0xff) as u8,
    ]
}

/// The parachain number read back from its little-endian bytes.
pub open spec fn spec_le_u32(b0: u8, b1: u8, b2: u8, b3: u8) -> u32 {
    (b0 as u32) | ((b1 as u32) << 8u32) | ((b2 as u32) << 16u32) | ((b3 as u32) << 24u32)
}

/// A run of zero bytes.
pub open spec fn seq_zeros(n: nat) -> Seq<u8> {
    Seq::new(n, |i: int| 0u8)
}

/// Zero-pads an encoded prefix and payload to the address width, or
/// truncates it when it is too long.
pub open spec fn pad_or_truncate(s: Seq<u8>) -> Seq<u8> {
    if s.len() >= ADDRESS_WIDTH {
        s.take(ADDRESS_WIDTH as int)
    } else {
        s + seq_zeros((ADDRESS_WIDTH - s.len()) as nat)
    }
}

/// The address bytes of a chain's sovereign account.
pub open spec fn spec_derive(c: ChainId) -> Seq<u8> {
    match c {
        ChainId::Relay => pad_or_truncate(relay_prefix()),
        ChainId::Parachain(id) => pad_or_truncate(para_prefix() + le_bytes(id)),
    }
}

/// Whether the address bytes begin with the relay chain's magic prefix.
pub open spec fn has_relay_prefix(s: Seq<u8>) -> bool {
    s.len() == ADDRESS_WIDTH && s[0] == 82u8 && s[1] == 101u8 && s[2] == 108u8 && s[3] == 97u8
        && s[4] == 121u8
}

/// Whether the address bytes begin with the parachain type tag.
pub open spec fn has_para_prefix(s: Seq<u8>) -> bool {
    s.len() == ADDRESS_WIDTH && s[0] == 112u8 && s[1] == 97u8 && s[2] == 114u8 && s[3] == 97u8
}

/// Whether every byte from position `k` on is zero.
pub open spec fn trailing_zero(s: Seq<u8>, k: int) -> bool {
    forall|i: int| k <= i < s.len() ==> s[i] == 0u8
}

/// The chain, if any, whose sovereign account has these address bytes.
pub open spec fn spec_recognize(s: Seq<u8>) -> Option<ChainId> {
    if has_relay_prefix(s) {
        if trailing_zero(s, 5) {
            Some(ChainId::Relay)
        } else {
            None
        }
    } else if has_para_prefix(s) {
        if trailing_zero(s, 8) {
            Some(ChainId::Parachain(spec_le_u32(s[4], s[5], s[6], s[7])))
        } else {
            None
        }
    } else {
        None
    }
}

/// Derives the sovereign account that represents a remote chain locally.
/// Total and deterministic: every chain id yields exactly one address.
pub fn derive(chain: &ChainId) -> (r: Address)
    ensures
        r.wf(),
        r@ == spec_derive(*chain),
{
    let ghost target: Seq<u8> = spec_derive(*chain);
    let mut bytes: Vec<u8> = Vec::new();
    match chain {
        ChainId::Relay => {
            bytes.push(82u8);
            bytes.push(101u8);
            bytes.push(108u8);
            bytes.push(97u8);
            bytes.push(121u8);
            proof {
                assert(bytes@ =~= target.take(5));
            }
        },
        ChainId::Parachain(id) => {
            bytes.push(112u8);
            bytes.push(97u8);
            bytes.push(114u8);
            bytes.push(97u8);
            bytes.push((*id & 0xff) as u8);
            bytes.push(((*id >> 8u32) & 0xff) as u8);
            bytes.push(((*id >> 16u32) & 0xff) as u8);
            bytes.push(((*id >> 24u32) & 0xff) as u8);
            proof {
                assert(bytes@ =~= target.take(8));
            }
        },
    }
    while bytes.len() < ADDRESS_WIDTH
        invariant
            bytes@.len() <= ADDRESS_WIDTH,
            target.len() == ADDRESS_WIDTH,
            bytes@ == target.take(bytes@.len() as int),
            forall|i: int| bytes@.len() <= i < ADDRESS_WIDTH ==> target[i] == 0u8,
        decreases ADDRESS_WIDTH - bytes@.len(),
    {
        bytes.push(0u8);
        proof {
            assert(bytes@ =~= target.take(bytes@.len() as int));
        }
    }
    proof {
        assert(bytes@ =~= target);
    }
    Address::from_bytes(bytes)
}

/// Decides whether an address is the sovereign account of some remote
/// chain, and of which. Rejects addresses without a known magic prefix and
/// addresses with a nonzero byte after the decoded payload.
pub fn recognize(addr: &Address) -> (r: Option<ChainId>)
    requires
        addr.wf(),
    ensures
        r == spec_recognize(addr@),
{
    let b = &addr.bytes;
    if b[0] == 82u8 && b[1] == 101u8 && b[2] == 108u8 && b[3] == 97u8 && b[4] == 121u8 {
        if all_zero_from(b, 5) {
            Some(ChainId::Relay)
        } else {
            None
        }
    } else if b[0] == 112u8 && b[1] == 97u8 && b[2] == 114u8 && b[3] == 97u8 {
        if all_zero_from(b, 8) {
            let id = (b[4] as u32) | ((b[5] as u32) << 8u32) | ((b[6] as u32) << 16u32) | (
            (b[7] as u32) << 24u32);
            Some(ChainId::Parachain(id))
        } else {
            None
        }
    } else {
        None
    }
}

/// Reports whether every byte of the buffer from position `k` on is zero.
fn all_zero_from(b: &Vec<u8>, k: usize) -> (r: bool)
    requires
        k <= b@.len(),
    ensures
        r == trailing_zero(b@, k as int),
{
    let mut i: usize = k;
    while i < b.len()
        invariant
            k <= i <= b@.len(),
            forall|j: int| k <= j < i ==> b@[j] == 0u8,
        decreases b@.len() - i,
    {
        if b[i] != 0 {
            return false;
        }
        i = i + 1;
    }
    true
}

/// Identifier of the relay chain, the central chain whose sovereign
/// account receives every relay-bound debit.
#[derive(Clone, Copy, PartialEq, Eq, Structural, Hash, Debug)]
pub struct RelayId;

impl Default for RelayId {
    fn default() -> (r: Self)
        ensures
            r == RelayId,
    {
        RelayId
    }
}

impl RelayId {
    /// The relay chain's sovereign account address.
    pub fn into_account(&self) -> (r: Address)
        ensures
            r.wf(),
            r@ == spec_derive(ChainId::Relay),
    {
        derive(&ChainId::Relay)
    }

    /// Recovers the relay chain identity from its sovereign account, and
    /// from no other address.
    pub fn try_from_account(x: &Address) -> (r: Option<RelayId>)
        requires
            x.wf(),
        ensures
            r == (if spec_recognize(x@) == Some(ChainId::Relay) {
                Some(RelayId)
            } else {
                None::<RelayId>
            }),
    {
        match recognize(x) {
            Some(ChainId::Relay) => Some(RelayId),
            _ => None,
        }
    }
}

/// Reading a parachain number back from its little-endian bytes restores
/// the number.
proof fn lemma_le_round_trip(id: u32)
    ensures
        spec_le_u32(
            (id & 0xff) as u8,
            ((id >> 8u32) & 0xff) as u8,
            ((id >> 16u32) & 0xff) as u8,
            ((id >> 24u32) & 0xff) as u8,
        ) == id,
{
    assert((((id & 0xff) as u8) as u32 |

    ((((id >> 8u32) & 0xff) as u8) as u32) << 8u32 | ((((id >> 16u32) & 0xff) as u8) as u32)
        << 16u32 | ((((id >> 24u32) & 0xff) as u8) as u32) << 24u32) == id) by (bit_vector);
}

/// Sovereign account derivation is deterministic: equal chain ids always
/// yield equal addresses.
pub proof fn lemma_derive_deterministic(a: ChainId, b: ChainId)
    requires
        a == b,
    ensures
        spec_derive(a) == spec_derive(b),
{
}

/// Round trip: recognizing the address derived for a chain gives back
/// exactly that chain.
pub proof fn lemma_recognize_derive(c: ChainId)
    ensures
        spec_recognize(spec_derive(c)) == Some(c),
{
    let s = spec_derive(c);
    match c {
        ChainId::Relay => {
            assert(s.len() == ADDRESS_WIDTH);
            assert(has_relay_prefix(s));
            assert(trailing_zero(s, 5));
        },
        ChainId::Parachain(id) => {
            assert(s.len() == ADDRESS_WIDTH);
            assert(s[0] == 112u8);
            assert(!has_relay_prefix(s));
            assert(has_para_prefix(s));
            assert(trailing_zero(s, 8));
            assert(s[4] == (id & 0xff) as u8);
            assert(s[5] == ((id >> 8u32) & 0xff) as u8);
            assert(s[6] == ((id >> 16u32) & 0xff) as u8);
            assert(s[7] == ((id >> 24u32) & 0xff) as u8);
            lemma_le_round_trip(id);
        },
    }
}

/// An address without a magic prefix, or with a nonzero byte after the
/// decoded payload, is recognized as no chain's sovereign account.
pub proof fn lemma_recognize_rejects(s: Seq<u8>)
    requires
        s.len() == ADDRESS_WIDTH,
        (!has_relay_prefix(s) && !has_para_prefix(s)) || (has_relay_prefix(s) && !trailing_zero(
            s,
            5,
        )) || (has_para_prefix(s) && !trailing_zero(s, 8)),
    ensures
        spec_recognize(s) is None,
{
}

} // verus!
