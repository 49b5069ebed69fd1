//! The filter that every listed object passes before anything is done with it.

use vstd::prelude::*;

use crate::policy::Policy;
use crate::text::{begins_with, chars_of, has_hidden_segment, hidden, starts_with};
use crate::time::{minutes_of, whole_minutes};

verus! {

/// What a run sweeps.
#[derive(Clone, Copy, Debug, PartialEq, Eq, Structural)]
pub enum SweepMode {
    /// The whole store. Nothing is deleted.
    Full,
    /// The staging area. What has been processed is deleted from it.
    Staging,
}

/// Why an object is passed over. None of these is an error.
#[derive(Clone, Copy, Debug, PartialEq, Eq, Structural)]
pub enum SkipReason {
    /// The key is empty.
    EmptyKey,
    /// The key ends with a slash.
    Directory,
    /// A path segment of the key begins with a dot.
    Hidden,
    /// A full sweep met an object of the staging area.
    Staged,
    /// The object is younger than the settle time.
    Unsettled,
    /// The object is older than the abandon threshold, and this is not the
    /// minute in which it is tried again.
    Abandoned,
}

/// The mode of a run that is given a prefix: a full sweep for the empty
/// prefix, a staging sweep for any other.
pub open spec fn mode_of(prefix: Seq<char>) -> SweepMode {
    if prefix.len() == 0 {
        SweepMode::Full
    } else {
        SweepMode::Staging
    }
}

/// Why the object with this key and age in seconds is passed over, if it is.
/// Where several reasons hold, the first in the order of [`SkipReason`] is
/// given.
pub open spec fn skip_reason(policy: Policy, key: Seq<char>, mode: SweepMode, age: int) -> Option<
    SkipReason,
> {
    if key.len() == 0 {
        Some(SkipReason::EmptyKey)
    } else if key.last() == '/' {
        Some(SkipReason::Directory)
    } else if has_hidden_segment(key) {
        Some(SkipReason::Hidden)
    } else if mode == SweepMode::Full {
        if begins_with(key, policy.staging_prefix@) {
            Some(SkipReason::Staged)
        } else {
            None
        }
    } else if age < policy.settle_seconds {
        Some(SkipReason::Unsettled)
    } else if age >= policy.abandon_seconds && whole_minutes(age) % (policy.retry_minutes as int)
        != 0 {
        Some(SkipReason::Abandoned)
    } else {
        None
    }
}

/// The freshness filter of a staging sweep. An object younger than the
/// settle time is always passed over. One that has reached the abandon
/// threshold is passed over unless its age in whole minutes is a multiple of
/// the retry cadence; where it is processed, its age is such a multiple.
pub proof fn lemma_freshness_filter(policy: Policy, key: Seq<char>, age: int)
    requires
        policy.valid(),
    ensures
        age < policy.settle_seconds ==> skip_reason(policy, key, SweepMode::Staging, age) is Some,
        age >= policy.abandon_seconds && whole_minutes(age) % (policy.retry_minutes as int) != 0
            ==> skip_reason(policy, key, SweepMode::Staging, age) is Some,
        age >= policy.abandon_seconds && skip_reason(policy, key, SweepMode::Staging, age) is None
            ==> whole_minutes(age) % (policy.retry_minutes as int) == 0,
        skip_reason(policy, key, SweepMode::Staging, age) is None ==> age >= policy.settle_seconds,
{
}

/// A full sweep pays no regard to age, and never takes up a staged object.
pub proof fn lemma_full_sweep(policy: Policy, key: Seq<char>, age: int, other: int)
    ensures
        skip_reason(policy, key, SweepMode::Full, age) == skip_reason(
            policy,
            key,
            SweepMode::Full,
            other,
        ),
        begins_with(key, policy.staging_prefix@) ==> skip_reason(policy, key, SweepMode::Full, age)
            is Some,
{
}

impl SweepMode {
    /// The mode of a run that is given a prefix.
    pub fn for_prefix(prefix: &str) -> (mode: SweepMode)
        ensures
            mode == mode_of(prefix@),
    {
        if prefix.unicode_len() == 0 {
            SweepMode::Full
        } else {
            SweepMode::Staging
        }
    }

    /// Whether objects are deleted once they have been processed.
    pub fn deletes(&self) -> (deletes: bool)
        ensures
            deletes == (*self == SweepMode::Staging),
    {
        match self {
            SweepMode::Full => false,
            SweepMode::Staging => true,
        }
    }
}

/// Decides whether an object is passed over, from its key and its age in
/// seconds.
pub fn eligibility(policy: &Policy, key: &str, mode: SweepMode, age: i128) -> (reason: Option<
    SkipReason,
>)
    requires
        policy.valid(),
    ensures
        reason == skip_reason(*policy, key@, mode, age as int),
{
    let chars = chars_of(key);
    if chars.len() == 0 {
        return Some(SkipReason::EmptyKey);
    }
    if chars[chars.len() - 1] == '/' {
        return Some(SkipReason::Directory);
    }
    if hidden(key) {
        return Some(SkipReason::Hidden);
    }
    match mode {
        SweepMode::Full => {
            if starts_with(key, policy.staging_prefix.as_str()) {
                Some(SkipReason::Staged)
            } else {
                None
            }
        },
        SweepMode::Staging => {
            if age < policy.settle_seconds as i128 {
                Some(SkipReason::Unsettled)
            } else if age >= policy.abandon_seconds as i128 && minutes_of(age) % (
            policy.retry_minutes as i128) != 0 {
                Some(SkipReason::Abandoned)
            } else {
                None
            }
        },
    }
}

} // verus!
