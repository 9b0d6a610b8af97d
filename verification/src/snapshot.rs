//! Snapshot cache states and timeout policies, with their wire names.

use vstd::prelude::*;

verus! {

/// What a read of a snapshot that times out returns.
#[derive(Debug, Clone, Copy, PartialEq, Eq, Structural)]
pub enum SnapshotOnTimeoutPolicy {
    ReturnStale,
    Fail,
}

impl SnapshotOnTimeoutPolicy {
    /// The wire name of the policy.
    pub open spec fn name(self) -> Seq<char> {
        match self {
            SnapshotOnTimeoutPolicy::ReturnStale => "return_stale"@,
            SnapshotOnTimeoutPolicy::Fail => "fail"@,
        }
    }

    /// The wire name of the policy.
    pub fn as_str(self) -> (r: &'static str)
        ensures
            r@ == self.name(),
    {
        match self {
            SnapshotOnTimeoutPolicy::ReturnStale => "return_stale",
            SnapshotOnTimeoutPolicy::Fail => "fail",
        }
    }
}

/// The state of the cached copy of a snapshot.
#[derive(Debug, Clone, Copy, PartialEq, Eq, Structural)]
pub enum SnapshotCacheState {
    Cold,
    Warming,
    Hot,
    Error,
}

impl SnapshotCacheState {
    /// The wire name of the state.
    pub open spec fn name(self) -> Seq<char> {
        match self {
            SnapshotCacheState::Cold => "cold"@,
            SnapshotCacheState::Warming => "warming"@,
            SnapshotCacheState::Hot => "hot"@,
            SnapshotCacheState::Error => "error"@,
        }
    }

    /// The wire name of the state.
    pub fn as_str(self) -> (r: &'static str)
        ensures
            r@ == self.name(),
    {
        match self {
            SnapshotCacheState::Cold => "cold",
            SnapshotCacheState::Warming => "warming",
            SnapshotCacheState::Hot => "hot",
            SnapshotCacheState::Error => "error",
        }
    }
}

/// Distinct timeout policies have distinct wire names.
pub proof fn law_timeout_policy_names_distinct(a: SnapshotOnTimeoutPolicy, b: SnapshotOnTimeoutPolicy)
    requires
        a.name() == b.name(),
    ensures
        a == b,
{
    reveal_strlit("return_stale");
    reveal_strlit("fail");
    assert("return_stale"@.len() == 12);
    assert("fail"@.len() == 4);
    match (a, b) {
        (SnapshotOnTimeoutPolicy::ReturnStale, SnapshotOnTimeoutPolicy::Fail) => {
            assert(a.name().len() != b.name().len());
        },
        (SnapshotOnTimeoutPolicy::Fail, SnapshotOnTimeoutPolicy::ReturnStale) => {
            assert(a.name().len() != b.name().len());
        },
        _ => {},
    }
}

/// Distinct cache states have distinct wire names.
pub proof fn law_cache_state_names_distinct(a: SnapshotCacheState, b: SnapshotCacheState)
    requires
        a.name() == b.name(),
    ensures
        a == b,
{
    reveal_strlit("cold");
    reveal_strlit("warming");
    reveal_strlit("hot");
    reveal_strlit("error");
    assert("cold"@.len() == 4);
    assert("warming"@.len() == 7);
    assert("hot"@.len() == 3);
    assert("error"@.len() == 5);
    if a != b {
        assert(a.name().len() != b.name().len());
    }
}

} // verus!
