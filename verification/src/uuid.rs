//! Wallet identifiers.
//!
//! A `CustomUuid` is a 16-byte identifier built from one fresh draw of the
//! randomness source. The draw's bytes are kept as they are except that the
//! version and variant marker bits of the random-identifier layout are
//! stamped into bytes 6 and 8.
use vstd::prelude::*;
use crate::errors::CallFailure;
use crate::support::take_prefix;

verus! {

/// Byte 6 of a draft identifier with the version marker stamped in.
pub open spec fn version_byte(b: u8) -> u8 {
    (b & 0x0f) | 0x40
}

/// Byte 8 of a draft identifier with the variant marker stamped in.
pub open spec fn variant_byte(b: u8) -> u8 {
    (b & 0x3f) | 0x80
}

/// The identifier bytes obtained from 16 random bytes: the draw unchanged,
/// except for the version and variant markers.
pub open spec fn stamped_id_bytes(s: Seq<u8>) -> Seq<u8>
    recommends
        s.len() == 16,
{
    s.update(6, version_byte(s[6])).update(8, variant_byte(s[8]))
}

/// Failures of wallet-identifier generation.
#[derive(Debug)]
pub enum CustomUuidError {
    /// The cross-service call to the randomness source was rejected.
    CanisterError(CallFailure),
    /// The randomness source answered with fewer than 16 bytes.
    InvalidRandomBytesLength,
}

/// A 16-byte wallet identifier drawn from secure randomness at creation.
/// Immutable; the unique primary key of the wallet registry.
#[derive(Debug)]
pub struct CustomUuid {
    pub(crate) bytes: Vec<u8>,
}

impl View for CustomUuid {
    type V = Seq<u8>;

    open(crate) spec fn view(&self) -> Seq<u8> {
        self.bytes@
    }
}

impl CustomUuid {
    /// Every identifier holds exactly 16 bytes.
    pub open spec fn wf(&self) -> bool {
        self@.len() == 16
    }

    /// Build an identifier from exactly 16 random bytes: the bytes are kept
    /// as drawn, with the version and variant markers stamped in.
    pub fn new(random_bytes: [u8; 16]) -> (r: Self)
        ensures
            r@ == stamped_id_bytes(random_bytes@),
            r.wf(),
    {
        let mut bytes: Vec<u8> = Vec::new();
        let mut i: usize = 0;
        while i < 16
            invariant
                i <= 16,
                bytes@ == random_bytes@.subrange(0, i as int),
            decreases 16 - i,
        {
            bytes.push(random_bytes[i]);
            i += 1;
            proof {
                assert(bytes@ =~= random_bytes@.subrange(0, i as int));
            }
        }
        proof {
            assert(bytes@ =~= random_bytes@);
        }
        let id = CustomUuid { bytes: stamp_markers(bytes) };
        id
    }

    /// Build an identifier from a fresh draw of the randomness source,
    /// using the first 16 of the drawn bytes. Fails if the draw is shorter.
    pub fn from_random_bytes(random_bytes: &Vec<u8>) -> (r: Result<Self, CustomUuidError>)
        ensures
            random_bytes@.len() < 16 ==> (r matches Err(
                CustomUuidError::InvalidRandomBytesLength,
            )),
            random_bytes@.len() >= 16 ==> (r matches Ok(id) && id@ == stamped_id_bytes(
                random_bytes@.subrange(0, 16),
            ) && id.wf()),
    {
        if random_bytes.len() < 16 {
            Err(CustomUuidError::InvalidRandomBytesLength)
        } else {
            let prefix = take_prefix(random_bytes, 16);
            Ok(CustomUuid { bytes: stamp_markers(prefix) })
        }
    }

    /// Wrap the 16 bytes of an identifier handed back by a caller that
    /// received it from this registry earlier. No markers are stamped: the
    /// bytes already are an identifier.
    pub fn from_bytes(bytes: Vec<u8>) -> (r: Self)
        requires
            bytes@.len() == 16,
        ensures
            r@ == bytes@,
            r.wf(),
    {
        CustomUuid { bytes }
    }

    /// The identifier's bytes.
    pub fn as_bytes(&self) -> (r: &Vec<u8>)
        ensures
            r@ == self@,
    {
        &self.bytes
    }

    /// Whether two identifiers hold the same bytes.
    pub fn same_as(&self, other: &CustomUuid) -> (r: bool)
        ensures
            r == (self@ == other@),
    {
        crate::support::bytes_eq(&self.bytes, &other.bytes)
    }

    /// A copy of this identifier.
    pub fn duplicate(&self) -> (r: CustomUuid)
        ensures
            r@ == self@,
    {
        CustomUuid { bytes: crate::support::clone_bytes(&self.bytes) }
    }
}

/// Stamp the version and variant markers into a 16-byte draw.
fn stamp_markers(v: Vec<u8>) -> (r: Vec<u8>)
    requires
        v@.len() == 16,
    ensures
        r@ == stamped_id_bytes(v@),
{
    let mut r = v;
    let b6 = r[6];
    r.set(6, (b6 & 0x0f) | 0x40);
    let b8 = r[8];
    r.set(8, (b8 & 0x3f) | 0x80);
    r
}

} // verus!
