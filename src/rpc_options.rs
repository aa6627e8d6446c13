use vstd::prelude::*;
use vstd::string::*;

verus! {

/// Configures the Solana RPC cluster to connect to.
#[derive(Debug, Clone, Copy, PartialEq, Eq, Structural, PartialOrd, Ord)]
pub enum Cluster {
    /// A locally run Solana test validator
    LocalNet,
    /// Connect to the developer cluster
    DevNet,
    /// Connect to the testnet cluster for staging
    TestNet,
    /// Connect to the production cluster
    MainNetBeta,
}

/// The base URL of each cluster.
pub open spec fn cluster_url(c: Cluster) -> Seq<char> {
    match c {
        Cluster::LocalNet => "https://127.0.0.1:8899"@,
        Cluster::DevNet => "https://api.devnet.solana.com"@,
        Cluster::TestNet => "https://api.testnet.solana.com"@,
        Cluster::MainNetBeta => "https://api.mainnet-beta.solana.com"@,
    }
}

impl Cluster {
    /// Convert the cluster selected to a URL
    pub fn url<'a>(&self) -> (r: &'a str)
        ensures
            r@ == cluster_url(*self),
    {
        match self {
            Cluster::LocalNet => "https://127.0.0.1:8899",
            Cluster::DevNet => "https://api.devnet.solana.com",
            Cluster::TestNet => "https://api.testnet.solana.com",
            Cluster::MainNetBeta => "https://api.mainnet-beta.solana.com",
        }
    }
}

impl Default for Cluster {
    fn default() -> (r: Cluster)
        ensures
            r == Cluster::DevNet,
    {
        Cluster::DevNet
    }
}

/// The name under which text gives a value of a small enumeration: its lower-case form.
pub uninterp spec fn lower_of(s: Seq<char>) -> Seq<char>;

/// Relies on `str::to_lowercase`: the lower-case form of the text, which depends
/// on its characters alone.
#[verifier::external_body]
fn lowercase(s: &str) -> (r: String)
    ensures
        r@ == lower_of(s@),
{
    s.to_lowercase()
}

/// The commitment metric aims to give clients a measure of the network confirmation
/// and stake levels on a particular block.
#[derive(Debug, Clone, Copy, PartialEq, Eq, Structural, PartialOrd, Ord)]
pub enum Commitment {
    /// A block is processed by RPC servers
    Processed,
    /// A block is has been confirmed
    Confirmed,
    /// A block has been finalized
    Finalized,
    /// The commitment level provided is invalid
    InvalidCommitment,
}

/// The commitment that a lower-case name stands for; any other name is the sentinel.
pub open spec fn commitment_of(lower: Seq<char>) -> Commitment {
    if lower == "processed"@ {
        Commitment::Processed
    } else if lower == "confirmed"@ {
        Commitment::Confirmed
    } else if lower == "finalized"@ {
        Commitment::Finalized
    } else {
        Commitment::InvalidCommitment
    }
}

/// The name of each commitment.
pub open spec fn commitment_name(c: Commitment) -> Seq<char> {
    match c {
        Commitment::Processed => "processed"@,
        Commitment::Confirmed => "confirmed"@,
        Commitment::Finalized => "finalized"@,
        Commitment::InvalidCommitment => "invalid_commitment"@,
    }
}

impl Commitment {
    /// The commitment named by text that is already in lower case; the sentinel
    /// `InvalidCommitment` for a name that is not known.
    pub fn from_lowercase(lower: &str) -> (r: Commitment)
        ensures
            r == commitment_of(lower@),
    {
        let s = String::from_str(lower);
        if s == String::from_str("processed") {
            Commitment::Processed
        } else if s == String::from_str("confirmed") {
            Commitment::Confirmed
        } else if s == String::from_str("finalized") {
            Commitment::Finalized
        } else {
            Commitment::InvalidCommitment
        }
    }

    /// The name of the commitment, as the node expects it.
    pub fn as_str(&self) -> (r: &'static str)
        ensures
            r@ == commitment_name(*self),
    {
        match self {
            Commitment::Processed => "processed",
            Commitment::Confirmed => "confirmed",
            Commitment::Finalized => "finalized",
            Commitment::InvalidCommitment => "invalid_commitment",
        }
    }
}

impl Default for Commitment {
    fn default() -> (r: Commitment)
        ensures
            r == Commitment::Finalized,
    {
        Commitment::Finalized
    }
}

impl<'a> From<&'a str> for Commitment {
    /// Names are read without regard to case.
    fn from(value: &'a str) -> (r: Commitment)
        ensures
            r == commitment_of(lower_of(value@)),
    {
        let lower = lowercase(value);
        Commitment::from_lowercase(lower.as_str())
    }
}

impl<'a> vstd::std_specs::convert::FromSpecImpl<&'a str> for Commitment {
    open spec fn obeys_from_spec() -> bool {
        true
    }

    open spec fn from_spec(v: &'a str) -> Commitment {
        commitment_of(lower_of(v@))
    }
}

/// The encoding for the data format
#[derive(Debug, Clone, Copy, PartialEq, Eq, Structural, PartialOrd, Ord)]
pub enum Encoding {
    /// Base58 encoding
    Base58,
    /// Base64 Encoding
    Base64,
    /// The encoding provided is not supported yet
    UnsupportedEncoding,
}

/// The encoding that a lower-case name stands for; any other name is the sentinel.
pub open spec fn encoding_of(lower: Seq<char>) -> Encoding {
    if lower == "base58"@ {
        Encoding::Base58
    } else if lower == "base64"@ {
        Encoding::Base64
    } else {
        Encoding::UnsupportedEncoding
    }
}

/// The name of each encoding.
pub open spec fn encoding_name(e: Encoding) -> Seq<char> {
    match e {
        Encoding::Base58 => "base58"@,
        Encoding::Base64 => "base64"@,
        Encoding::UnsupportedEncoding => "unsupported_encoding"@,
    }
}

impl Encoding {
    /// The encoding named by text that is already in lower case; the sentinel
    /// `UnsupportedEncoding` for a name that is not known.
    pub fn from_lowercase(lower: &str) -> (r: Encoding)
        ensures
            r == encoding_of(lower@),
    {
        let s = String::from_str(lower);
        if s == String::from_str("base58") {
            Encoding::Base58
        } else if s == String::from_str("base64") {
            Encoding::Base64
        } else {
            Encoding::UnsupportedEncoding
        }
    }

    /// The name of the encoding, as the node expects it.
    pub fn as_str(&self) -> (r: &'static str)
        ensures
            r@ == encoding_name(*self),
    {
        match self {
            Encoding::Base58 => "base58",
            Encoding::Base64 => "base64",
            Encoding::UnsupportedEncoding => "unsupported_encoding",
        }
    }
}

impl<'a> From<&'a str> for Encoding {
    /// Names are read without regard to case.
    fn from(value: &'a str) -> (r: Encoding)
        ensures
            r == encoding_of(lower_of(value@)),
    {
        let lower = lowercase(value);
        Encoding::from_lowercase(lower.as_str())
    }
}

impl<'a> vstd::std_specs::convert::FromSpecImpl<&'a str> for Encoding {
    open spec fn obeys_from_spec() -> bool {
        true
    }

    open spec fn from_spec(v: &'a str) -> Encoding {
        encoding_of(lower_of(v@))
    }
}

/// Each known commitment is read back from its own name.
pub proof fn lemma_commitment_name_round_trip(c: Commitment)
    requires
        c != Commitment::InvalidCommitment,
    ensures
        commitment_of(commitment_name(c)) == c,
{
    reveal_strlit("processed");
    reveal_strlit("confirmed");
    reveal_strlit("finalized");
    assert("confirmed"@[0] != "processed"@[0]);
    assert("finalized"@[0] != "processed"@[0]);
    assert("finalized"@[0] != "confirmed"@[0]);
}

/// Each known encoding is read back from its own name.
pub proof fn lemma_encoding_name_round_trip(e: Encoding)
    requires
        e != Encoding::UnsupportedEncoding,
    ensures
        encoding_of(encoding_name(e)) == e,
{
    reveal_strlit("base58");
    reveal_strlit("base64");
    assert("base64"@[4] != "base58"@[4]);
}

} // verus!
