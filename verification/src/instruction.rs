use vstd::prelude::*;
use vstd::bytes::*;
use vstd::slice::{slice_subrange, slice_to_vec};
use vstd::assert_seqs_equal;
use crate::error::EchoError;

verus! {

/// The five requests a caller can make, decoded from the instruction
/// payload. `data` is the payload to copy into a buffer; `buffer_size` is
/// a requested account capacity in bytes; `buffer_seed` and `price` feed
/// the deterministic address derivation.
pub enum EchoInstruction {
    /// Unauthenticated write into a fresh, all-zero buffer.
    Echo { data: Vec<u8> },
    /// Create an authority-bound buffer derived from the requester.
    InitializeAuthorizedEcho { buffer_seed: u64, buffer_size: u64 },
    /// Authenticated write gated by address re-derivation.
    AuthorizedEcho { data: Vec<u8> },
    /// Create a pay-per-write buffer bound to a token mint.
    InitializeVendingMachineEcho { price: u64, buffer_size: u64 },
    /// Paid write gated by a token burn of exactly the stored price.
    VendingMachineEcho { data: Vec<u8> },
}

/// An instruction is encodable when its payload length fits in the 4-byte
/// length prefix of the wire form.
pub open spec fn spec_wf_instruction(inst: EchoInstruction) -> bool {
    match inst {
        EchoInstruction::Echo { data } => data@.len() <= u32::MAX,
        EchoInstruction::InitializeAuthorizedEcho { .. } => true,
        EchoInstruction::AuthorizedEcho { data } => data@.len() <= u32::MAX,
        EchoInstruction::InitializeVendingMachineEcho { .. } => true,
        EchoInstruction::VendingMachineEcho { data } => data@.len() <= u32::MAX,
    }
}

/// The wire form of a request: a one-byte variant tag, then the fields in
/// order; byte sequences carry a 4-byte little-endian length prefix and
/// numeric fields are 8-byte little-endian.
pub open spec fn spec_encode_instruction(inst: EchoInstruction) -> Seq<u8> {
    match inst {
        EchoInstruction::Echo { data } => seq![0u8] + spec_u32_to_le_bytes(
            data@.len() as u32,
        ) + data@,
        EchoInstruction::InitializeAuthorizedEcho { buffer_seed, buffer_size } => seq![1u8]
            + spec_u64_to_le_bytes(buffer_seed) + spec_u64_to_le_bytes(buffer_size),
        EchoInstruction::AuthorizedEcho { data } => seq![2u8] + spec_u32_to_le_bytes(
            data@.len() as u32,
        ) + data@,
        EchoInstruction::InitializeVendingMachineEcho { price, buffer_size } => seq![3u8]
            + spec_u64_to_le_bytes(price) + spec_u64_to_le_bytes(buffer_size),
        EchoInstruction::VendingMachineEcho { data } => seq![4u8] + spec_u32_to_le_bytes(
            data@.len() as u32,
        ) + data@,
    }
}

/// Some well-formed instruction encodes to `s`.
pub open spec fn spec_decodable(s: Seq<u8>) -> bool {
    exists|inst: EchoInstruction|
        spec_wf_instruction(inst) && s == #[trigger] spec_encode_instruction(inst)
}

/// Decodes an instruction payload. Succeeds exactly on the byte strings
/// that some well-formed request encodes to, and then returns that
/// request; everything else is rejected as malformed before any account
/// is touched.
pub fn parse_instruction(input: &[u8]) -> (r: Result<EchoInstruction, EchoError>)
    ensures
        match r {
            Ok(inst) => spec_wf_instruction(inst) && input@ == spec_encode_instruction(inst),
            Err(e) => e == EchoError::MalformedInput && !spec_decodable(input@),
        },
{
    proof {
        lemma_auto_spec_u32_to_from_le_bytes();
        lemma_auto_spec_u64_to_from_le_bytes();
    }
    if input.len() == 0 {
        proof {
            lemma_not_decodable(input@);
        }
        return Err(EchoError::MalformedInput);
    }
    let tag = *vstd::slice::slice_index_get(input, 0);
    if tag == 0 || tag == 2 || tag == 4 {
        if input.len() < 5 {
            proof {
                lemma_not_decodable(input@);
            }
            return Err(EchoError::MalformedInput);
        }
        let declared = u32_from_le_bytes(slice_subrange(input, 1, 5));
        if (declared as usize) != input.len() - 5 {
            proof {
                lemma_not_decodable(input@);
            }
            return Err(EchoError::MalformedInput);
        }
        let data: Vec<u8> = slice_to_vec(slice_subrange(input, 5, input.len()));
        let inst = if tag == 0 {
            EchoInstruction::Echo { data }
        } else if tag == 2 {
            EchoInstruction::AuthorizedEcho { data }
        } else {
            EchoInstruction::VendingMachineEcho { data }
        };
        proof {
            assert_seqs_equal!(input@ == spec_encode_instruction(inst));
        }
        Ok(inst)
    } else if tag == 1 || tag == 3 {
        if input.len() != 17 {
            proof {
                lemma_not_decodable(input@);
            }
            return Err(EchoError::MalformedInput);
        }
        let first = u64_from_le_bytes(slice_subrange(input, 1, 9));
        let second = u64_from_le_bytes(slice_subrange(input, 9, 17));
        let inst = if tag == 1 {
            EchoInstruction::InitializeAuthorizedEcho {
                buffer_seed: first,
                buffer_size: second,
            }
        } else {
            EchoInstruction::InitializeVendingMachineEcho { price: first, buffer_size: second }
        };
        proof {
            assert_seqs_equal!(input@ == spec_encode_instruction(inst));
        }
        Ok(inst)
    } else {
        proof {
            lemma_not_decodable(input@);
        }
        Err(EchoError::MalformedInput)
    }
}

/// A byte string that fails the parser's structural checks is not the
/// encoding of any well-formed instruction.
proof fn lemma_not_decodable(s: Seq<u8>)
    requires
        s.len() == 0 || (s.len() >= 1 && s[0] != 0 && s[0] != 1 && s[0] != 2 && s[0] != 3 && s[0]
            != 4) || (s.len() >= 1 && (s[0] == 0 || s[0] == 2 || s[0] == 4) && (s.len() < 5 || (
        s.len() >= 5 && spec_u32_from_le_bytes(s.subrange(1, 5)) != s.len() - 5))) || (s.len() >= 1
            && (s[0] == 1 || s[0] == 3) && s.len() != 17),
    ensures
        !spec_decodable(s),
{
    lemma_auto_spec_u32_to_from_le_bytes();
    lemma_auto_spec_u64_to_from_le_bytes();
    assert forall|inst: EchoInstruction|
        spec_wf_instruction(inst) implies s != #[trigger] spec_encode_instruction(inst) by {
        let e = spec_encode_instruction(inst);
        if s == e {
            match inst {
                EchoInstruction::Echo { data } => {
                    lemma_payload_variant_shape(s, 0u8, data@);
                },
                EchoInstruction::AuthorizedEcho { data } => {
                    lemma_payload_variant_shape(s, 2u8, data@);
                },
                EchoInstruction::VendingMachineEcho { data } => {
                    lemma_payload_variant_shape(s, 4u8, data@);
                },
                EchoInstruction::InitializeAuthorizedEcho { buffer_seed, buffer_size } => {
                    assert(e.len() == 17);
                    assert(s[0] == 1);
                },
                EchoInstruction::InitializeVendingMachineEcho { price, buffer_size } => {
                    assert(e.len() == 17);
                    assert(s[0] == 3);
                },
            }
        }
    }
}

/// Helper for the rejection proof of the payload-carrying variants: if `s`
/// equals `tag ++ len-prefix ++ data`, then `s` starts with `tag`, has at
/// least 5 bytes, and its length prefix accounts for exactly the rest.
proof fn lemma_payload_variant_shape(s: Seq<u8>, tag: u8, data: Seq<u8>)
    requires
        data.len() <= u32::MAX,
        s == seq![tag] + spec_u32_to_le_bytes(data.len() as u32) + data,
    ensures
        s.len() >= 5,
        s[0] == tag,
        spec_u32_from_le_bytes(s.subrange(1, 5)) == s.len() - 5,
{
    lemma_auto_spec_u32_to_from_le_bytes();
    assert(s.len() == 5 + data.len());
    assert_seqs_equal!(s.subrange(1, 5) == spec_u32_to_le_bytes(data.len() as u32));
}

} // verus!
