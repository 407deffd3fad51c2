//! The block entity: one immutable unit of a hash-chained ledger.

use vstd::prelude::*;
use vstd::string::StringExecFns;

use crate::decimal::{decimal_digits, u64_to_decimal};

verus! {

/// The placeholder identity that [`Block::new`] installs as `hash` until a
/// real hashing collaborator is integrated. A block's `hash` must be treated
/// as not-yet-computed as long as it equals this value.
pub open spec fn placeholder_hash() -> Seq<char> {
    "temp_hash"@
}

/// The sentinel `previous_hash` of a genesis block, standing for "no
/// predecessor". It is a single digit, which no real content hash produces,
/// so a future chain validator can tell genesis from a corrupt link.
pub open spec fn genesis_sentinel() -> Seq<char> {
    "0"@
}

/// One immutable record of a block-chained ledger.
///
/// [`Block::new`] is the sole construction path, and no mutation API is
/// exposed: a block keeps the values it was constructed with. The fields are
/// readable through the accessor methods, for inspection by a future
/// chain-validation component.
pub struct Block {
    id: u64,
    data: String,
    previous_hash: String,
    hash: String,
}

impl Block {
    /// Sequence position of the block within its chain; a genesis block has
    /// position 0.
    pub closed spec fn spec_id(self) -> u64 {
        self.id
    }

    /// Payload carried by the block; this layer imposes no constraint on it.
    pub closed spec fn spec_data(self) -> Seq<char> {
        self.data@
    }

    /// The identity hash of the chain's prior block, or [`genesis_sentinel`]
    /// for a genesis block.
    pub closed spec fn spec_previous_hash(self) -> Seq<char> {
        self.previous_hash@
    }

    /// The block's own identity. Currently always [`placeholder_hash`]: it
    /// is not derived from the other fields until a hashing collaborator
    /// exists.
    pub closed spec fn spec_hash(self) -> Seq<char> {
        self.hash@
    }

    /// Every block carries the placeholder identity: construction installs
    /// it, and immutability keeps it.
    #[verifier::type_invariant]
    spec fn placeholder_identity(self) -> bool {
        self.hash@ == placeholder_hash()
    }

    /// The sole construction path: assembles a block holding the three
    /// inputs verbatim and installs the placeholder identity. Construction
    /// is total: it performs no validation and never fails.
    pub fn new(id: u64, data: String, previous_hash: String) -> (r: Block)
        ensures
            r.spec_id() == id,
            r.spec_data() == data@,
            r.spec_previous_hash() == previous_hash@,
            r.spec_hash() == placeholder_hash(),
    {
        let temp_hash = String::from_str("temp_hash");

        Block { id, data, previous_hash, hash: temp_hash }
    }

    /// The block's sequence position.
    pub fn id(&self) -> (r: u64)
        ensures
            r == self.spec_id(),
    {
        self.id
    }

    /// The block's payload.
    pub fn data(&self) -> (r: &str)
        ensures
            r@ == self.spec_data(),
    {
        self.data.as_str()
    }

    /// The identity hash of the block's predecessor.
    pub fn previous_hash(&self) -> (r: &str)
        ensures
            r@ == self.spec_previous_hash(),
    {
        self.previous_hash.as_str()
    }

    /// The block's own identity. Whatever the other fields hold, this is the
    /// placeholder value until a real hashing collaborator is integrated.
    pub fn hash(&self) -> (r: &str)
        ensures
            r@ == self.spec_hash(),
            r@ == placeholder_hash(),
    {
        proof {
            use_type_invariant(self);
        }
        self.hash.as_str()
    }

    /// The block's fields in one fixed human-readable line:
    /// `ID: <id>, Data: <data>, Hash: <hash>`.
    pub open spec fn display_seq(self) -> Seq<char> {
        "ID: "@ + decimal_digits(self.spec_id() as nat) + ", Data: "@ + self.spec_data()
            + ", Hash: "@ + self.spec_hash()
    }

    /// Builds the line that [`Self::display_seq`] describes, for a driver to
    /// print.
    pub fn display_line(&self) -> (r: String)
        ensures
            r@ == self.display_seq(),
    {
        let mut line = String::from_str("ID: ");
        let digits = u64_to_decimal(self.id);
        line.append(digits.as_str());
        line.append(", Data: ");
        line.append(self.data.as_str());
        line.append(", Hash: ");
        line.append(self.hash.as_str());
        proof {
            assert(line@ =~= self.display_seq());
        }
        line
    }
}

} // verus!
