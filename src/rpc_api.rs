use vstd::prelude::*;

verus! {

/// The account information that `getAccountInfo` returns.
#[derive(Debug)]
pub struct GetAccountInfo {
    /// The data of the account and the encoding it is given in.
    pub data: (String, String),
    pub executable: bool,
    pub lamports: u64,
    /// The program that owns the account, in base 58.
    pub owner: String,
    pub rent_epoch: u64,
}

} // verus!
