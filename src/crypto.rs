//! Configured cryptocurrency wallets, dispatched by their kind tag.

use vstd::prelude::*;

verus! {

/// A bitcoin wallet: a display name and an address.
pub struct Bitcoin {
    pub name: String,
    pub address: String,
}

impl Bitcoin {
    pub fn new(name: String, address: String) -> (r: Bitcoin)
        ensures
            r.name@ == name@,
            r.address@ == address@,
    {
        Bitcoin { name, address }
    }
}

/// A wallet of one of the supported kinds.
pub enum Crypto {
    Bitcoin(Bitcoin),
}

impl Crypto {
    /// The kind tag that selects this variant.
    pub fn kind(&self) -> (r: &str)
        ensures
            r@ == "bitcoin"@,
    {
        match self {
            Crypto::Bitcoin(_) => "bitcoin",
        }
    }

    pub fn name(&self) -> (r: &str)
        ensures
            r@ == match self {
                Crypto::Bitcoin(b) => b.name@,
            },
    {
        match self {
            Crypto::Bitcoin(b) => b.name.as_str(),
        }
    }

    pub fn address(&self) -> (r: &str)
        ensures
            r@ == match self {
                Crypto::Bitcoin(b) => b.address@,
            },
    {
        match self {
            Crypto::Bitcoin(b) => b.address.as_str(),
        }
    }
}

/// A wallet as configured: its kind tag, name and address.
pub struct CryptoConfig {
    pub kind: String,
    pub name: String,
    pub address: String,
}

impl CryptoConfig {
    /// The wallet of the configured kind; an error naming the kind where it is
    /// not supported.
    pub fn build(self) -> (r: Result<Crypto, String>)
        ensures
            r is Ok <==> self.kind@ == "bitcoin"@,
            r matches Ok(c) ==> (c matches Crypto::Bitcoin(b) && b.name@ == self.name@
                && b.address@ == self.address@),
            r matches Err(m) ==> m@ == "Unknown crypto kind: "@ + self.kind@,
    {
        let bitcoin = "bitcoin".to_owned();
        if self.kind.eq(&bitcoin) {
            Ok(Crypto::Bitcoin(Bitcoin::new(self.name, self.address)))
        } else {
            let message = String::from_str("Unknown crypto kind: ");
            Err(message.concat(self.kind.as_str()))
        }
    }
}

} // verus!
