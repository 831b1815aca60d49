//! Migration between contract versions: a contract migrates only from a
//! stored record of its own name, and records its version when the stored
//! one is older.
use vstd::prelude::*;

verus! {

/// Where both strings parse as semantic versions (`semver::Version`), whether
/// the first precedes the second in semver's order; `None` where one does
/// not parse.
pub uninterp spec fn semver_precedes(a: Seq<char>, b: Seq<char>) -> Option<bool>;

/// Parses both strings with `semver::Version::from_str` and compares them
/// with `semver::Version`'s `<`.
#[verifier::external_body]
pub(crate) fn version_precedes(a: &str, b: &str) -> (r: Option<bool>)
    ensures
        r == semver_precedes(a@, b@),
{
    match (a.parse::<semver::Version>(), b.parse::<semver::Version>()) {
        (Ok(x), Ok(y)) => Some(x < y),
        _ => None,
    }
}

/// Why a migration is refused.
#[derive(Clone, Debug, PartialEq, Eq)]
pub enum MigrateError {
    /// The stored record is of another contract.
    MigrationError { storage_contract_name: String, contract_name: String },
    /// A version does not parse.
    SemVer,
}

/// Decides a migration from the stored name and version to this contract's:
/// refused when the names differ or a version does not parse; else whether
/// the stored version is older, so that the new one is recorded.
pub fn migrate_version(stored_name: &String, stored_version: &String, contract_name: &String, contract_version: &String) -> (r: Result<bool, MigrateError>)
    ensures
        stored_name@ != contract_name@ ==> r is Err && (r->Err_0 matches MigrateError::MigrationError {
            storage_contract_name,
            contract_name: name,
        } && storage_contract_name@ == stored_name@ && name@ == contract_name@),
        stored_name@ == contract_name@ ==> match semver_precedes(stored_version@, contract_version@) {
            None => r == Err::<bool, MigrateError>(MigrateError::SemVer),
            Some(older) => r == Ok::<bool, MigrateError>(older),
        },
{
    if !stored_name.eq(contract_name) {
        return Err(
            MigrateError::MigrationError { storage_contract_name: stored_name.clone(), contract_name: contract_name.clone() },
        );
    }
    match version_precedes(stored_version.as_str(), contract_version.as_str()) {
        Some(older) => Ok(older),
        None => Err(MigrateError::SemVer),
    }
}

} // verus!
