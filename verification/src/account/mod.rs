//! Player accounts: offline profiles only.
pub mod offline;

use crate::account::offline::OfflineProfile;
use vstd::prelude::*;

verus! {

#[derive(Debug, Clone)]
pub enum Account {
    Offline(OfflineProfile),
}

impl Account {
    pub fn username(&self) -> (r: &str)
        ensures
            r@ == (match self {
                Account::Offline(p) => p.username@,
            }),
    {
        match self {
            Account::Offline(p) => p.username.as_str(),
        }
    }

    /// The account's UUID, as its 16 bytes.
    pub fn uuid(&self) -> (r: [u8; 16])
        ensures
            r == (match self {
                Account::Offline(p) => p.uuid,
            }),
    {
        match self {
            Account::Offline(p) => p.uuid,
        }
    }

    /// Every account is an offline one.
    pub fn is_offline(&self) -> (r: bool)
        ensures
            r,
    {
        true
    }
}

} // verus!
