use vstd::prelude::*;

use vstd::bytes::{
    lemma_auto_spec_u64_to_from_le_bytes, spec_u64_from_le_bytes, spec_u64_to_le_bytes,
    u64_from_le_bytes, u64_to_le_bytes,
};
use vstd::slice::{slice_index_get, slice_subrange};

use crate::errors::AriaError;
use crate::identity::Identity;

verus! {

/// The closed set of operation requests the engine accepts, decoded from a
/// byte payload: a one-byte tag followed by the variant's payload.
#[derive(Debug, Clone, Copy, PartialEq, Eq, Structural)]
pub enum ARIAInstruction {
    /// Create the mint record; the signing caller becomes the authority.
    InitializeMint,
    /// Create `amount` new base units and credit them to a destination.
    MintTokens { amount: u64 },
    /// Open (or replace) a proposal to hand the mint authority over.
    ProposeAuthorityTransfer { new_authority: Identity },
    /// Take the mint authority, as the proposed principal.
    AcceptAuthorityTransfer,
    /// Withdraw any in-flight proposal.
    CancelAuthorityTransfer,
}

/// The 32-byte wire form of an identity: its four words, each in
/// little-endian byte order, least-significant word first.
pub open spec fn spec_identity_to_bytes(id: Identity) -> Seq<u8> {
    spec_u64_to_le_bytes(id.w0) + spec_u64_to_le_bytes(id.w1) + spec_u64_to_le_bytes(id.w2)
        + spec_u64_to_le_bytes(id.w3)
}

/// The identity read back from 32 wire bytes.
pub open spec fn spec_identity_from_bytes(s: Seq<u8>) -> Identity
    recommends
        s.len() == 32,
{
    Identity {
        w0: spec_u64_from_le_bytes(s.subrange(0, 8)),
        w1: spec_u64_from_le_bytes(s.subrange(8, 16)),
        w2: spec_u64_from_le_bytes(s.subrange(16, 24)),
        w3: spec_u64_from_le_bytes(s.subrange(24, 32)),
    }
}

/// The canonical byte encoding of an operation request: tag byte 0 through
/// 4 in declaration order, then the payload fields in order, integers in
/// little-endian byte order.
pub open spec fn spec_encode(ins: ARIAInstruction) -> Seq<u8> {
    match ins {
        ARIAInstruction::InitializeMint => seq![0u8],
        ARIAInstruction::MintTokens { amount } => seq![1u8] + spec_u64_to_le_bytes(amount),
        ARIAInstruction::ProposeAuthorityTransfer { new_authority } => seq![2u8]
            + spec_identity_to_bytes(new_authority),
        ARIAInstruction::AcceptAuthorityTransfer => seq![3u8],
        ARIAInstruction::CancelAuthorityTransfer => seq![4u8],
    }
}

/// The decoding relation: `Some` exactly on the canonical encodings, with
/// no trailing bytes tolerated; `None` on every malformed payload.
pub open spec fn spec_decode(data: Seq<u8>) -> Option<ARIAInstruction> {
    if data.len() == 0 {
        None
    } else if data[0] == 0u8 {
        if data.len() == 1 {
            Some(ARIAInstruction::InitializeMint)
        } else {
            None
        }
    } else if data[0] == 1u8 {
        if data.len() == 9 {
            Some(
                ARIAInstruction::MintTokens {
                    amount: spec_u64_from_le_bytes(data.subrange(1, 9)),
                },
            )
        } else {
            None
        }
    } else if data[0] == 2u8 {
        if data.len() == 33 {
            Some(
                ARIAInstruction::ProposeAuthorityTransfer {
                    new_authority: spec_identity_from_bytes(data.subrange(1, 33)),
                },
            )
        } else {
            None
        }
    } else if data[0] == 3u8 {
        if data.len() == 1 {
            Some(ARIAInstruction::AcceptAuthorityTransfer)
        } else {
            None
        }
    } else if data[0] == 4u8 {
        if data.len() == 1 {
            Some(ARIAInstruction::CancelAuthorityTransfer)
        } else {
            None
        }
    } else {
        None
    }
}

/// Appends the 32 wire bytes of `id` to `out`.
fn push_identity_bytes(out: &mut Vec<u8>, id: &Identity)
    ensures
        final(out)@ == old(out)@ + spec_identity_to_bytes(*id),
{
    let mut b0 = u64_to_le_bytes(id.w0);
    out.append(&mut b0);
    let mut b1 = u64_to_le_bytes(id.w1);
    out.append(&mut b1);
    let mut b2 = u64_to_le_bytes(id.w2);
    out.append(&mut b2);
    let mut b3 = u64_to_le_bytes(id.w3);
    out.append(&mut b3);
    proof {
        assert(out@ =~= old(out)@ + spec_identity_to_bytes(*id));
    }
}

/// Serializes an operation request into its canonical byte encoding.
pub fn encode_instruction(ins: &ARIAInstruction) -> (out: Vec<u8>)
    ensures
        out@ == spec_encode(*ins),
{
    let mut out: Vec<u8> = Vec::new();
    match ins {
        ARIAInstruction::InitializeMint => {
            out.push(0u8);
            proof {
                assert(out@ =~= seq![0u8]);
            }
        },
        ARIAInstruction::MintTokens { amount } => {
            out.push(1u8);
            let mut bytes = u64_to_le_bytes(*amount);
            out.append(&mut bytes);
            proof {
                assert(out@ =~= seq![1u8] + spec_u64_to_le_bytes(*amount));
            }
        },
        ARIAInstruction::ProposeAuthorityTransfer { new_authority } => {
            out.push(2u8);
            push_identity_bytes(&mut out, new_authority);
            proof {
                assert(out@ =~= seq![2u8] + spec_identity_to_bytes(*new_authority));
            }
        },
        ARIAInstruction::AcceptAuthorityTransfer => {
            out.push(3u8);
            proof {
                assert(out@ =~= seq![3u8]);
            }
        },
        ARIAInstruction::CancelAuthorityTransfer => {
            out.push(4u8);
            proof {
                assert(out@ =~= seq![4u8]);
            }
        },
    }
    out
}

/// Reads an identity from the 32 bytes of `data` starting at `start`.
fn read_identity(data: &[u8], start: usize) -> (id: Identity)
    requires
        start + 32 <= data@.len(),
    ensures
        id == spec_identity_from_bytes(data@.subrange(start as int, start + 32)),
{
    // Binding the slice length to a machine word lets the index sums below
    // stay within `usize`.
    let _len = data.len();
    let w0 = u64_from_le_bytes(slice_subrange(data, start, start + 8));
    let w1 = u64_from_le_bytes(slice_subrange(data, start + 8, start + 16));
    let w2 = u64_from_le_bytes(slice_subrange(data, start + 16, start + 24));
    let w3 = u64_from_le_bytes(slice_subrange(data, start + 24, start + 32));
    proof {
        let s = data@.subrange(start as int, start + 32);
        assert(data@.subrange(start as int, start + 8) =~= s.subrange(0, 8));
        assert(data@.subrange(start + 8, start + 16) =~= s.subrange(8, 16));
        assert(data@.subrange(start + 16, start + 24) =~= s.subrange(16, 24));
        assert(data@.subrange(start + 24, start + 32) =~= s.subrange(24, 32));
    }
    Identity { w0, w1, w2, w3 }
}

/// Parses a byte payload into an operation request.  Succeeds exactly on
/// the canonical encodings; every malformed payload is rejected before any
/// handler runs.
pub fn decode_instruction(data: &[u8]) -> (r: Result<ARIAInstruction, AriaError>)
    ensures
        match r {
            Ok(ins) => spec_decode(data@) == Some(ins),
            Err(e) => {
                &&& spec_decode(data@) is None
                &&& e == AriaError::InvalidInstructionData
            },
        },
{
    let n = data.len();
    if n == 0 {
        return Err(AriaError::InvalidInstructionData);
    }
    let tag = *slice_index_get(data, 0);
    if tag == 0 {
        if n == 1 {
            Ok(ARIAInstruction::InitializeMint)
        } else {
            Err(AriaError::InvalidInstructionData)
        }
    } else if tag == 1 {
        if n == 9 {
            let amount = u64_from_le_bytes(slice_subrange(data, 1, 9));
            Ok(ARIAInstruction::MintTokens { amount })
        } else {
            Err(AriaError::InvalidInstructionData)
        }
    } else if tag == 2 {
        if n == 33 {
            let new_authority = read_identity(data, 1);
            proof {
                assert(data@.subrange(1, 33) =~= data@.subrange(1int, 1int + 32));
            }
            Ok(ARIAInstruction::ProposeAuthorityTransfer { new_authority })
        } else {
            Err(AriaError::InvalidInstructionData)
        }
    } else if tag == 3 {
        if n == 1 {
            Ok(ARIAInstruction::AcceptAuthorityTransfer)
        } else {
            Err(AriaError::InvalidInstructionData)
        }
    } else if tag == 4 {
        if n == 1 {
            Ok(ARIAInstruction::CancelAuthorityTransfer)
        } else {
            Err(AriaError::InvalidInstructionData)
        }
    } else {
        Err(AriaError::InvalidInstructionData)
    }
}

/// Round trip: decoding the canonical encoding of any of the five
/// operation variants yields the original value.
pub proof fn lemma_encode_decode_round_trip(ins: ARIAInstruction)
    ensures
        spec_decode(spec_encode(ins)) == Some(ins),
{
    lemma_auto_spec_u64_to_from_le_bytes();
    match ins {
        ARIAInstruction::InitializeMint => {},
        ARIAInstruction::MintTokens { amount } => {
            let s = spec_encode(ins);
            assert(s.subrange(1, 9) =~= spec_u64_to_le_bytes(amount));
        },
        ARIAInstruction::ProposeAuthorityTransfer { new_authority } => {
            let s = spec_encode(ins);
            let b = spec_identity_to_bytes(new_authority);
            assert(s.subrange(1, 33) =~= b);
            assert(b.subrange(0, 8) =~= spec_u64_to_le_bytes(new_authority.w0));
            assert(b.subrange(8, 16) =~= spec_u64_to_le_bytes(new_authority.w1));
            assert(b.subrange(16, 24) =~= spec_u64_to_le_bytes(new_authority.w2));
            assert(b.subrange(24, 32) =~= spec_u64_to_le_bytes(new_authority.w3));
            assert(spec_identity_from_bytes(b) == new_authority);
        },
        ARIAInstruction::AcceptAuthorityTransfer => {},
        ARIAInstruction::CancelAuthorityTransfer => {},
    }
}

/// Canonicity: the decoder accepts nothing but canonical encodings, so a
/// payload that decodes at all re-encodes to exactly the same bytes.
pub proof fn lemma_decode_canonical(data: Seq<u8>, ins: ARIAInstruction)
    requires
        spec_decode(data) == Some(ins),
    ensures
        spec_encode(ins) == data,
{
    lemma_auto_spec_u64_to_from_le_bytes();
    if data[0] == 0u8 {
        assert(spec_encode(ins) =~= data);
    } else if data[0] == 1u8 {
        let amount = spec_u64_from_le_bytes(data.subrange(1, 9));
        assert(spec_u64_to_le_bytes(amount) =~= data.subrange(1, 9));
        assert(spec_encode(ins) =~= data);
    } else if data[0] == 2u8 {
        let s = data.subrange(1, 33);
        let id = spec_identity_from_bytes(s);
        assert(spec_u64_to_le_bytes(id.w0) =~= s.subrange(0, 8));
        assert(spec_u64_to_le_bytes(id.w1) =~= s.subrange(8, 16));
        assert(spec_u64_to_le_bytes(id.w2) =~= s.subrange(16, 24));
        assert(spec_u64_to_le_bytes(id.w3) =~= s.subrange(24, 32));
        assert(spec_identity_to_bytes(id) =~= s);
        assert(spec_encode(ins) =~= data);
    } else if data[0] == 3u8 {
        assert(spec_encode(ins) =~= data);
    } else {
        assert(spec_encode(ins) =~= data);
    }
}

} // verus!
