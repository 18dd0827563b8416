//! Chains and the users on them.

use vstd::prelude::*;
use vstd::std_specs::cmp::PartialEqSpecImpl;
use crate::error::ContractError;
use crate::token::is_valid_id;
use crate::token::valid_id;

verus! {

/// The label of a participating chain. A label is checked with
/// [`ChainUid::validate`] before it is used to register or resolve a chain.
#[derive(Debug)]
pub struct ChainUid {
    uid: String,
}

impl View for ChainUid {
    type V = Seq<char>;

    closed spec fn view(&self) -> Seq<char> {
        self.uid@
    }
}

impl Clone for ChainUid {
    fn clone(&self) -> (r: ChainUid)
        ensures
            r == *self,
    {
        ChainUid { uid: self.uid.clone() }
    }
}

impl PartialEq for ChainUid {
    fn eq(&self, other: &ChainUid) -> (r: bool) {
        self.uid == other.uid
    }
}

impl Eq for ChainUid {}

impl PartialEqSpecImpl for ChainUid {
    open spec fn obeys_eq_spec() -> bool {
        true
    }

    open spec fn eq_spec(&self, other: &ChainUid) -> bool {
        self@ == other@
    }
}

impl ChainUid {
    /// Whether the label passes validation.
    pub open spec fn is_valid(self) -> bool {
        valid_id(self@)
    }

    /// The label `uid`, not yet validated.
    pub fn new(uid: String) -> (r: ChainUid)
        ensures
            r@ == uid@,
    {
        ChainUid { uid }
    }

    /// The label `uid`, if it passes validation.
    pub fn create(uid: String) -> (r: Result<ChainUid, ContractError>)
        ensures
            valid_id(uid@) ==> r is Ok && r->Ok_0@ == uid@,
            !valid_id(uid@) ==> r == Err::<ChainUid, ContractError>(ContractError::InvalidChainId),
    {
        if is_valid_id(uid.as_str()) {
            Ok(ChainUid { uid })
        } else {
            Err(ContractError::InvalidChainId)
        }
    }

    /// This label again, if it passes validation.
    pub fn validate(&self) -> (r: Result<&ChainUid, ContractError>)
        ensures
            self.is_valid() ==> r == Ok::<&ChainUid, ContractError>(self),
            !self.is_valid() ==> r == Err::<&ChainUid, ContractError>(ContractError::InvalidChainId),
    {
        if is_valid_id(self.uid.as_str()) {
            Ok(self)
        } else {
            Err(ContractError::InvalidChainId)
        }
    }

    /// The label's text.
    pub fn as_str(&self) -> (r: &str)
        ensures
            r@ == self@,
    {
        self.uid.as_str()
    }
}

/// An address on a chain.
#[derive(Debug, PartialEq, Eq)]
pub struct CrossChainUser {
    pub chain_uid: ChainUid,
    pub address: String,
}

impl Clone for CrossChainUser {
    fn clone(&self) -> (r: CrossChainUser)
        ensures
            r == *self,
    {
        CrossChainUser { chain_uid: self.chain_uid.clone(), address: self.address.clone() }
    }
}

/// A claimant of released funds, with the most that it may receive.
#[derive(Debug, PartialEq, Eq)]
pub struct CrossChainUserWithLimit {
    pub user: CrossChainUser,
    /// `None` puts no cap on what the claimant receives.
    pub limit: Option<u128>,
}

impl Clone for CrossChainUserWithLimit {
    fn clone(&self) -> (r: CrossChainUserWithLimit)
        ensures
            r == *self,
    {
        CrossChainUserWithLimit { user: self.user.clone(), limit: self.limit }
    }
}

} // verus!
