//! The hash relation: a prover knows an 80-byte preimage whose double
//! SHA-256 equals a public digest.
//!
//! The circuit's own work is the decomposition of the preimage into 640
//! boolean variables and the bit-order correction around the hash gadget
//! (see `bits`); the gadget itself and the packing of its output into public
//! inputs belong to the proof scheme's gadget library.

use vstd::prelude::*;
use crate::bits::{bit_at, bits_le_of_bytes};

verus! {

/// An input truncated or zero-filled to exactly 80 bytes.
pub open spec fn normalized(input: Seq<u8>) -> Seq<u8> {
    Seq::new(80, |i: int| if i < input.len() { input[i] } else { 0u8 })
}

/// Truncates an input to its first 80 bytes, or zero-fills it up to 80
/// bytes, so that it can serve as the witness of the hash relation.
pub fn normalize_preimage(input: &Vec<u8>) -> (r: Vec<u8>)
    ensures
        r@ == normalized(input@),
        r@.len() == 80,
{
    let mut out: Vec<u8> = Vec::new();
    let mut i: usize = 0;
    while i < 80
        invariant
            i <= 80,
            out@.len() == i,
            forall|j: int| 0 <= j < i && j < input@.len() ==> out@[j] == input@[j],
            forall|j: int| input@.len() <= j < i ==> out@[j] == 0u8,
        decreases 80 - i,
    {
        if i < input.len() {
            out.push(input[i]);
        } else {
            out.push(0u8);
        }
        i += 1;
    }
    proof {
        assert(out@ =~= normalized(input@));
    }
    out
}

/// The hash-relation circuit, carrying its optional 80-byte witness.
pub struct HashCircuit {
    pub preimage: Option<[u8; 80]>,
}

impl HashCircuit {
    /// An assigned circuit, ready for proving.
    pub fn new(preimage: [u8; 80]) -> (r: Self)
        ensures
            r.preimage == Some(preimage),
    {
        let preimage = Some(preimage);
        Self { preimage }
    }

    /// The values of the circuit's 640 boolean variables: the preimage's
    /// bits, least-significant first within each byte, or all unassigned
    /// when the circuit carries no witness.
    pub fn preimage_bit_values(&self) -> (r: Vec<Option<bool>>)
        ensures
            r@.len() == 640,
            self.preimage is None ==> forall|i: int| 0 <= i < 640 ==> r@[i] is None,
            self.preimage matches Some(p) ==> forall|i: int|
                0 <= i < 640 ==> r@[i] == Some(bits_le_of_bytes(p@)[i]),
    {
        let mut out: Vec<Option<bool>> = Vec::new();
        match &self.preimage {
            None => {
                let mut i: usize = 0;
                while i < 640
                    invariant
                        i <= 640,
                        out@.len() == i,
                        forall|j: int| 0 <= j < i ==> out@[j] is None,
                    decreases 640 - i,
                {
                    out.push(None);
                    i += 1;
                }
            },
            Some(p) => {
                let mut i: usize = 0;
                while i < 640
                    invariant
                        i <= 640,
                        out@.len() == i,
                        p@.len() == 80,
                        forall|j: int| 0 <= j < i ==> out@[j] == Some(bit_at(p@[j / 8], j % 8)),
                    decreases 640 - i,
                {
                    let b = p[i / 8];
                    out.push(Some((b >> ((i % 8) as u8)) & 1u8 == 1u8));
                    i += 1;
                }
            },
        }
        out
    }
}

impl Default for HashCircuit {
    /// An unassigned circuit, as handed to trusted setup.
    fn default() -> (r: Self)
        ensures
            r.preimage is None,
    {
        Self { preimage: None }
    }
}

} // verus!
