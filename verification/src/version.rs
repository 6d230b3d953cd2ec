//! Moving a marketplace that is already set up to the code at hand.

use cosmwasm_std::MemoryStorage;
use cosmwasm_std::StdError;
use vstd::prelude::*;

use crate::contract::well_formed;
use crate::contract::CONTRACT_NAME;
use crate::contract::CONTRACT_VERSION;
use crate::error::ContractError;
use crate::host::Response;
use crate::msg::QueryMsg;
use crate::state::Ledger;
use crate::storage::ledger_of;
use crate::storage::version_load;
use crate::storage::version_save;

verus! {

/// How a recorded version stands to the version of the code at hand.
#[derive(Clone, Copy, Debug, PartialEq, Eq)]
pub enum VersionOrder {
    Older,
    Same,
    Newer,
}

/// How the semantic version `stored` stands to the semantic version
/// `current` in the order of versions, in which two versions that differ in
/// their build metadata alone differ too; `None` where one of the two texts
/// is not a semantic version.
pub uninterp spec fn version_order(stored: Seq<char>, current: Seq<char>) -> Option<VersionOrder>;

/// The error with the given text and no other detail.
pub uninterp spec fn generic_error(text: Seq<char>) -> StdError;

/// `semver::Version::parse` on both texts, and `Ord::cmp` on the two
/// versions: how the first stands to the second in the order that `Version`
/// derives, which goes by the numbers, then by the pre-release, then by the
/// build metadata.
#[verifier::external_body]
pub(crate) fn compare_versions(stored: &str, current: &str) -> (r: Option<VersionOrder>)
    ensures
        r == version_order(stored@, current@),
{
    match (semver::Version::parse(stored), semver::Version::parse(current)) {
        (Ok(stored), Ok(current)) => Some(
            match stored.cmp(&current) {
                std::cmp::Ordering::Less => VersionOrder::Older,
                std::cmp::Ordering::Equal => VersionOrder::Same,
                std::cmp::Ordering::Greater => VersionOrder::Newer,
            },
        ),
        _ => None,
    }
}

/// `cosmwasm_std::StdError::generic_err`: the error that holds the text and
/// nothing else.
#[verifier::external_body]
pub(crate) fn generic_err(text: &str) -> (e: StdError)
    ensures
        e == generic_error(text@),
{
    StdError::generic_err(text)
}

/// Whether `r` is the rejection with the given text.
pub open spec fn rejected_with(r: Result<Response, ContractError>, text: Seq<char>) -> bool {
    r matches Err(ContractError::Std(e)) && e == generic_error(text)
}

/// Whether `r` is a response without messages and without attributes.
pub open spec fn empty_response(r: Result<Response, ContractError>) -> bool {
    r matches Ok(response) && response@.messages.len() == 0 && response@.attributes.len() == 0
}

/// What a migration does once the version recorded is known to be of this
/// contract and has been compared to that of the code. It is rejected where
/// one of the two is not a semantic version, and where the version recorded
/// is newer than the code. Where the two are the same, nothing is written.
/// Else the version of the code is recorded.
pub open spec fn migration_spec(
    before: Ledger,
    order: Option<VersionOrder>,
    after: Ledger,
    r: Result<Response, ContractError>,
) -> bool {
    match order {
        None => rejected_with(r, "Invalid contract version"@) && after == before,
        Some(VersionOrder::Newer) => rejected_with(
            r,
            "Cannot upgrade to a previous contract version"@,
        ) && after == before,
        Some(VersionOrder::Same) => empty_response(r) && after == before,
        Some(VersionOrder::Older) => empty_response(r) && after == before.with_version(
            CONTRACT_NAME@,
            CONTRACT_VERSION@,
        ),
    }
}

/// Carries a migration out, given how the version recorded stands to that of
/// the code.
pub fn complete_migration(store: &mut MemoryStorage, order: Option<VersionOrder>) -> (r: Result<
    Response,
    ContractError,
>)
    requires
        well_formed(*old(store)),
    ensures
        well_formed(*final(store)),
        migration_spec(ledger_of(*old(store)), order, ledger_of(*final(store)), r),
{
    match order {
        None => Err(ContractError::Std(generic_err("Invalid contract version"))),
        Some(VersionOrder::Newer) => Err(
            ContractError::Std(generic_err("Cannot upgrade to a previous contract version")),
        ),
        Some(VersionOrder::Same) => Ok(Response::new()),
        Some(VersionOrder::Older) => match version_save(store, CONTRACT_NAME, CONTRACT_VERSION) {
            Ok(_) => Ok(Response::new()),
            Err(e) => Err(ContractError::Std(e)),
        },
    }
}

/// What a migration does. It is rejected where no version is recorded and
/// where the version recorded is that of another contract; else it goes by
/// how the version recorded stands to that of the code. The two ledgers and
/// the configuration stay as they are.
pub open spec fn migrate_spec(
    before: Ledger,
    after: Ledger,
    r: Result<Response, ContractError>,
) -> bool {
    match before.version {
        None => r matches Err(e) && e is Std && after == before,
        Some((contract, version)) => if contract != CONTRACT_NAME@ {
            rejected_with(r, "Cannot upgrade to a different contract"@) && after == before
        } else {
            migration_spec(before, version_order(version, CONTRACT_VERSION@), after, r)
        },
    }
}

/// Moves the marketplace to the version of the code at hand.
pub fn migrate(store: &mut MemoryStorage, _msg: QueryMsg) -> (r: Result<Response, ContractError>)
    requires
        well_formed(*old(store)),
    ensures
        well_formed(*final(store)),
        migrate_spec(ledger_of(*old(store)), ledger_of(*final(store)), r),
{
    let (contract, version) = match version_load(store) {
        Ok(found) => found,
        Err(e) => {
            return Err(ContractError::Std(e));
        },
    };
    if contract != CONTRACT_NAME.to_string() {
        return Err(ContractError::Std(generic_err("Cannot upgrade to a different contract")));
    }
    let order = compare_versions(version.as_str(), CONTRACT_VERSION);
    complete_migration(store, order)
}

} // verus!
