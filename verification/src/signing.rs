//! The signing and validation interfaces that token issuers and verifiers
//! implement, and a generic value provider.

use vstd::prelude::*;

verus! {

/// `anyhow::Error`, the error that signers and validators report; carried
/// through unread.
#[verifier::external_type_specification]
#[verifier::external_body]
pub struct ExAnyhowError(anyhow::Error);

/// Issues a token for a set of claims.
pub trait Sign<T>: Send + Sync + 'static {
    fn sign(&self, claims: &T) -> Result<String, anyhow::Error>;
}

/// Checks a token and yields the claims it carries.
pub trait Validate<T>: Send + Sync + 'static {
    /// Whether `verdict` is an answer the validator gives for `token`. A
    /// validator that does not say counts every verdict as possible.
    closed spec fn answers(&self, token: Seq<char>, verdict: Result<T, anyhow::Error>) -> bool {
        true
    }

    /// The claims that `token` carries, or why it is refused.
    fn validate(&self, token: &str) -> (r: Result<T, anyhow::Error>)
        ensures
            self.answers(token@, r),
    ;
}

/// Supplies a value on demand.
pub trait Provider<T> {
    fn provide(&self) -> T;
}

} // verus!
