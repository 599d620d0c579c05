//! The connection descriptor a successful provisioning call returns.

use vstd::prelude::*;

verus! {

/// Connection credentials and addresses for a freshly provisioned
/// database, usable immediately. Immutable once produced; nothing is
/// cached, so every call may carry newly generated credentials.
#[derive(Clone, Debug, PartialEq, Eq)]
pub struct ProvisionResult {
    pub engine: String,
    pub username: String,
    pub password: String,
    pub database_name: String,
    pub address_private: String,
    pub address_public: String,
    pub port: String,
}

/// The mathematical image of a [`ProvisionResult`].
pub struct AbsProvisionResult {
    pub engine: Seq<char>,
    pub username: Seq<char>,
    pub password: Seq<char>,
    pub database_name: Seq<char>,
    pub address_private: Seq<char>,
    pub address_public: Seq<char>,
    pub port: Seq<char>,
}

impl View for ProvisionResult {
    type V = AbsProvisionResult;

    open spec fn view(&self) -> AbsProvisionResult {
        AbsProvisionResult {
            engine: self.engine@,
            username: self.username@,
            password: self.password@,
            database_name: self.database_name@,
            address_private: self.address_private@,
            address_public: self.address_public@,
            port: self.port@,
        }
    }
}

} // verus!
