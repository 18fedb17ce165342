//! Deciding what to do about the newest published release of the game: update when
//! it is newer than the running version, nothing when it is the same, and say so
//! when the running version is ahead of it.
use vstd::prelude::*;

use std::cmp::Ordering;

use crate::text::{concat, owned};

verus! {

/// How the newest release stands to the running version, by semver precedence.
#[derive(Debug, Clone, Copy, PartialEq, Eq, Structural)]
pub enum VersionOrder {
    Newer,
    Same,
    Older,
}

/// What `semver` makes of two version texts: `Version::parse` of each and, when
/// both parse, how the first compares to the second under `Version`'s ordering;
/// otherwise the error text of the first one that does not parse.
pub uninterp spec fn spec_compare_versions(latest: Seq<char>, current: Seq<char>) -> Result<
    VersionOrder,
    Seq<char>,
>;

/// Parses both texts with `semver::Version::parse` (the newest release first) and
/// compares them with `Version`'s `Ord`, which orders by major, minor and patch
/// numbers, then pre-release, then build metadata. The contract only says that the
/// outcome, and the error text when a text does not parse, are a function of the
/// two texts; the semver grammar and precedence rules are left unsaid.
#[verifier::external_body]
fn compare_versions(latest: &str, current: &str) -> (r: Result<VersionOrder, String>)
    ensures
        match r {
            Ok(o) => spec_compare_versions(latest@, current@) == Ok::<VersionOrder, Seq<char>>(o),
            Err(e) => spec_compare_versions(latest@, current@) == Err::<VersionOrder, Seq<char>>(e@),
        },
{
    let (l, c) = match (semver::Version::parse(latest), semver::Version::parse(current)) {
        (Ok(l), Ok(c)) => (l, c),
        (Err(e), _) | (_, Err(e)) => return Err(e.to_string()),
    };
    match l.cmp(&c) {
        Ordering::Greater => Ok(VersionOrder::Newer),
        Ordering::Equal => Ok(VersionOrder::Same),
        Ordering::Less => Ok(VersionOrder::Older),
    }
}

/// What to do about the newest release.
#[derive(Debug, Clone, Copy, PartialEq, Eq, Structural)]
pub enum UpdateVerdict {
    /// No release is published.
    NoRelease,
    /// The release is newer: install it.
    Update,
    /// The running version is the newest.
    UpToDate,
    /// The running version is newer than any release.
    Ahead,
}

/// The verdict for a release that stands in `order` to the running version.
pub open spec fn verdict_of(order: VersionOrder) -> UpdateVerdict {
    match order {
        VersionOrder::Newer => UpdateVerdict::Update,
        VersionOrder::Same => UpdateVerdict::UpToDate,
        VersionOrder::Older => UpdateVerdict::Ahead,
    }
}

/// The verdict for a release that stands in `order` to the running version.
pub fn verdict_for(order: VersionOrder) -> (v: UpdateVerdict)
    ensures
        v == verdict_of(order),
{
    match order {
        VersionOrder::Newer => UpdateVerdict::Update,
        VersionOrder::Same => UpdateVerdict::UpToDate,
        VersionOrder::Older => UpdateVerdict::Ahead,
    }
}

/// The verdict on the newest release, if any, for the running version `current`,
/// or the error text of a version that does not parse.
pub open spec fn release_verdict(newest: Option<&str>, current: &str) -> Result<
    UpdateVerdict,
    Seq<char>,
> {
    match newest {
        None => Ok(UpdateVerdict::NoRelease),
        Some(latest) => match spec_compare_versions(latest@, current@) {
            Ok(order) => Ok(verdict_of(order)),
            Err(e) => Err(e),
        },
    }
}

/// Decides what to do about the newest release `newest` (none when nothing is
/// published) while running version `current`.
pub fn check_release(newest: Option<&str>, current: &str) -> (r: Result<UpdateVerdict, String>)
    ensures
        match r {
            Ok(v) => release_verdict(newest, current) == Ok::<UpdateVerdict, Seq<char>>(v),
            Err(e) => release_verdict(newest, current) == Err::<UpdateVerdict, Seq<char>>(e@),
        },
{
    match newest {
        None => Ok(UpdateVerdict::NoRelease),
        Some(latest) => match compare_versions(latest, current) {
            Ok(order) => Ok(verdict_for(order)),
            Err(e) => Err(e),
        },
    }
}

/// The line shown for a verdict on the release `newest`.
pub open spec fn verdict_text(v: UpdateVerdict, newest: Seq<char>) -> Seq<char> {
    match v {
        UpdateVerdict::NoRelease => "No new updates found."@,
        UpdateVerdict::Update => "Updating to new version: "@ + newest,
        UpdateVerdict::UpToDate => "Current version is up to date."@,
        UpdateVerdict::Ahead => "You're in the future."@,
    }
}

/// The line shown for a verdict on the release `newest`.
pub fn verdict_line(v: UpdateVerdict, newest: &str) -> (s: String)
    ensures
        s@ == verdict_text(v, newest@),
{
    match v {
        UpdateVerdict::NoRelease => owned("No new updates found."),
        UpdateVerdict::Update => concat("Updating to new version: ", newest),
        UpdateVerdict::UpToDate => owned("Current version is up to date."),
        UpdateVerdict::Ahead => owned("You're in the future."),
    }
}

} // verus!
