use vstd::prelude::*;

verus! {

/// A reward credited in a block.
#[derive(Debug, Clone, PartialEq, Eq, PartialOrd)]
pub struct Rewards {
    /// The account that received the reward (`pubkey` on the wire)
    pub public_key: String,
    pub lamports: i64,
    pub post_balance: u64,
    pub reward_type: RewardType,
    pub commission: Option<u8>,
}

/// The kinds of reward.
#[derive(Debug, Clone, PartialEq, Eq, PartialOrd)]
pub enum RewardType {
    Fee,
    Rent,
    Staking,
    Voting,
}

/// The instructions that an instruction of a transaction invoked.
#[derive(Debug, Clone, PartialEq, Eq, PartialOrd)]
pub struct InnerInstructions {
    pub index: u8,
    pub instructions: Vec<Instruction>,
}

/// One instruction: the program it calls, the accounts it reads and its data.
#[derive(Debug, Clone, PartialEq, Eq, PartialOrd)]
pub struct Instruction {
    pub program_id_index: u8,
    pub accounts: Vec<u8>,
    pub data: String,
}

/// An account that a transaction refers to, with its permissions.
#[derive(Debug, Clone, PartialEq, Eq, PartialOrd)]
pub struct AccountMeta {
    /// The account (`pubkey` on the wire)
    pub public_key: String,
    pub is_signer: bool,
    pub is_writable: bool,
}

/// The addresses that a transaction loaded from lookup tables.
#[derive(Debug, Clone, PartialEq, Eq, PartialOrd)]
pub struct LoadedAddresses {
    pub writable: Vec<String>,
    pub readonly: Vec<String>,
}

/// The data that a transaction returned, with the program that returned it.
#[derive(Debug, Clone, PartialEq, Eq, PartialOrd)]
pub struct TransactionReturnData {
    pub program_id: String,
    pub data: Vec<u8>,
}

} // verus!
