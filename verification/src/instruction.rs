//! The instructions of the sale program as they arrive: a tag of eight
//! bytes that tells the operation, then its arguments as integers of eight
//! bytes with the lowest first.

use vstd::bytes::{
    lemma_auto_spec_u64_to_from_le_bytes, spec_u64_from_le_bytes, spec_u64_to_le_bytes,
    u64_from_le_bytes, u64_to_le_bytes,
};
use vstd::prelude::*;
use vstd::slice::slice_subrange;

verus! {

/// An instruction to the sale program.
#[derive(Clone, Copy, Debug, PartialEq, Eq, Structural)]
pub enum Instruction {
    /// Open a sale at a price per token and a limit per purchase.
    Initialize { per_token_price: u64, purchase_limit: u64 },
    /// Admit a buyer.
    Whitelist,
    /// Buy a number of tokens.
    BuyToken { number_of_tokens: u64 },
    /// End the sale.
    EndSale,
}

/// The tag of `initialize`: the first eight bytes of the SHA-256 digest of
/// `global:initialize`.
pub open spec fn initialize_tag() -> Seq<u8> {
    seq![175u8, 175u8, 109u8, 31u8, 13u8, 152u8, 155u8, 237u8]
}

/// The tag of `whitelist`: the first eight bytes of the SHA-256 digest of
/// `global:whitelist`.
pub open spec fn whitelist_tag() -> Seq<u8> {
    seq![0u8, 143u8, 193u8, 93u8, 69u8, 29u8, 183u8, 140u8]
}

/// The tag of `buy_token`: the first eight bytes of the SHA-256 digest of
/// `global:buy_token`.
pub open spec fn buy_token_tag() -> Seq<u8> {
    seq![138u8, 127u8, 14u8, 91u8, 38u8, 87u8, 115u8, 105u8]
}

/// The tag of `end_sale`: the first eight bytes of the SHA-256 digest of
/// `global:end_sale`.
pub open spec fn end_sale_tag() -> Seq<u8> {
    seq![37u8, 239u8, 52u8, 17u8, 120u8, 44u8, 213u8, 125u8]
}

/// The bytes in which an instruction is sent.
pub open spec fn encode(instruction: Instruction) -> Seq<u8> {
    match instruction {
        Instruction::Initialize { per_token_price, purchase_limit } => initialize_tag()
            + spec_u64_to_le_bytes(per_token_price) + spec_u64_to_le_bytes(purchase_limit),
        Instruction::Whitelist => whitelist_tag(),
        Instruction::BuyToken { number_of_tokens } => buy_token_tag() + spec_u64_to_le_bytes(
            number_of_tokens,
        ),
        Instruction::EndSale => end_sale_tag(),
    }
}

/// The instruction that `data` carry, if they carry one: a known tag,
/// followed by exactly the arguments of its operation.
pub open spec fn decode(data: Seq<u8>) -> Option<Instruction> {
    if data.len() < 8 {
        None
    } else if data.subrange(0, 8) == initialize_tag() && data.len() == 24 {
        Some(
            Instruction::Initialize {
                per_token_price: spec_u64_from_le_bytes(data.subrange(8, 16)),
                purchase_limit: spec_u64_from_le_bytes(data.subrange(16, 24)),
            },
        )
    } else if data.subrange(0, 8) == whitelist_tag() && data.len() == 8 {
        Some(Instruction::Whitelist)
    } else if data.subrange(0, 8) == buy_token_tag() && data.len() == 16 {
        Some(Instruction::BuyToken { number_of_tokens: spec_u64_from_le_bytes(data.subrange(8, 16)) })
    } else if data.subrange(0, 8) == end_sale_tag() && data.len() == 8 {
        Some(Instruction::EndSale)
    } else {
        None
    }
}

/// An instruction that was sent arrives as the instruction that it was.
pub proof fn lemma_instruction_arrives(instruction: Instruction)
    ensures
        decode(encode(instruction)) == Some(instruction),
{
    lemma_auto_spec_u64_to_from_le_bytes();
    let data = encode(instruction);
    assert(initialize_tag()[0] == 175 && whitelist_tag()[0] == 0 && buy_token_tag()[0] == 138
        && end_sale_tag()[0] == 37);
    match instruction {
        Instruction::Initialize { per_token_price, purchase_limit } => {
            assert(data.subrange(0, 8) =~= initialize_tag());
            assert(data.subrange(8, 16) =~= spec_u64_to_le_bytes(per_token_price));
            assert(data.subrange(16, 24) =~= spec_u64_to_le_bytes(purchase_limit));
        },
        Instruction::Whitelist => {
            assert(data.subrange(0, 8) =~= whitelist_tag());
        },
        Instruction::BuyToken { number_of_tokens } => {
            assert(data.subrange(0, 8) =~= buy_token_tag());
            assert(data.subrange(8, 16) =~= spec_u64_to_le_bytes(number_of_tokens));
        },
        Instruction::EndSale => {
            assert(data.subrange(0, 8) =~= end_sale_tag());
        },
    }
}

/// Whether `data` begin with the eight bytes of `tag`.
fn tagged(data: &[u8], tag: &[u8; 8]) -> (tagged: bool)
    requires
        data@.len() >= 8,
    ensures
        tagged == (data@.subrange(0, 8) == tag@),
{
    let mut i: usize = 0;
    while i < 8
        invariant
            i <= 8 <= data@.len(),
            forall|j: int| 0 <= j < i ==> data@[j] == tag@[j],
        decreases 8 - i,
    {
        if data[i] != tag[i] {
            assert(data@.subrange(0, 8)[i as int] != tag@[i as int]);
            return false;
        }
        i += 1;
    }
    assert(data@.subrange(0, 8) =~= tag@);
    true
}

impl Instruction {
    /// The instruction that `data` carry, if they carry one.
    pub fn from_bytes(data: &[u8]) -> (instruction: Option<Instruction>)
        ensures
            instruction == decode(data@),
    {
        if data.len() < 8 {
            return None;
        }
        let initialize: [u8; 8] = [175, 175, 109, 31, 13, 152, 155, 237];
        let whitelist: [u8; 8] = [0, 143, 193, 93, 69, 29, 183, 140];
        let buy_token: [u8; 8] = [138, 127, 14, 91, 38, 87, 115, 105];
        let end_sale: [u8; 8] = [37, 239, 52, 17, 120, 44, 213, 125];
        assert(initialize@ =~= initialize_tag() && whitelist@ =~= whitelist_tag() && buy_token@
            =~= buy_token_tag() && end_sale@ =~= end_sale_tag());
        if tagged(data, &initialize) && data.len() == 24 {
            Some(
                Instruction::Initialize {
                    per_token_price: u64_from_le_bytes(slice_subrange(data, 8, 16)),
                    purchase_limit: u64_from_le_bytes(slice_subrange(data, 16, 24)),
                },
            )
        } else if tagged(data, &whitelist) && data.len() == 8 {
            Some(Instruction::Whitelist)
        } else if tagged(data, &buy_token) && data.len() == 16 {
            Some(
                Instruction::BuyToken {
                    number_of_tokens: u64_from_le_bytes(slice_subrange(data, 8, 16)),
                },
            )
        } else if tagged(data, &end_sale) && data.len() == 8 {
            Some(Instruction::EndSale)
        } else {
            None
        }
    }

    /// The bytes in which the instruction is sent.
    pub fn to_bytes(&self) -> (data: Vec<u8>)
        ensures
            data@ == encode(*self),
    {
        match *self {
            Instruction::Initialize { per_token_price, purchase_limit } => {
                let mut data: Vec<u8> = vec![175u8, 175u8, 109u8, 31u8, 13u8, 152u8, 155u8, 237u8];
                let mut price = u64_to_le_bytes(per_token_price);
                let mut limit = u64_to_le_bytes(purchase_limit);
                data.append(&mut price);
                data.append(&mut limit);
                data
            },
            Instruction::Whitelist => vec![0u8, 143u8, 193u8, 93u8, 69u8, 29u8, 183u8, 140u8],
            Instruction::BuyToken { number_of_tokens } => {
                let mut data: Vec<u8> = vec![138u8, 127u8, 14u8, 91u8, 38u8, 87u8, 115u8, 105u8];
                let mut number = u64_to_le_bytes(number_of_tokens);
                data.append(&mut number);
                data
            },
            Instruction::EndSale => vec![37u8, 239u8, 52u8, 17u8, 120u8, 44u8, 213u8, 125u8],
        }
    }
}

} // verus!
