//! What the runtime supervisor starts: one adapter per app, each with its own session.

use vstd::prelude::*;
use crate::runtime::{AppfsRuntimeCliArgs, AppfsBridgeConfig, BridgeRuntimeOptions, copy_opt_string};
use crate::session::{
    SESSION_ID_PREFIX, session_id_of_draw, is_generated_session_id, is_lower_hex_digit, is_uuid_v4_simple_text,
    new_v4_simple_hex, session_id_from_uuid_hex,
};

verus! {

/// The values with which the supervisor starts the adapter of one app.
#[derive(Debug, Clone, PartialEq, Eq)]
pub struct AppfsAdapterLaunch {
    pub app_id: String,
    pub session_id: String,
    pub bridge_config: AppfsBridgeConfig,
}

fn copy_bridge_config(b: &AppfsBridgeConfig) -> (r: AppfsBridgeConfig)
    ensures
        r == *b,
{
    AppfsBridgeConfig {
        adapter_http_endpoint: copy_opt_string(&b.adapter_http_endpoint),
        adapter_http_timeout_ms: b.adapter_http_timeout_ms,
        adapter_grpc_endpoint: copy_opt_string(&b.adapter_grpc_endpoint),
        adapter_grpc_timeout_ms: b.adapter_grpc_timeout_ms,
        runtime_options: BridgeRuntimeOptions {
            max_retries: b.runtime_options.max_retries,
            initial_backoff_ms: b.runtime_options.initial_backoff_ms,
            max_backoff_ms: b.runtime_options.max_backoff_ms,
            circuit_breaker_failures: b.runtime_options.circuit_breaker_failures,
            circuit_breaker_cooldown_ms: b.runtime_options.circuit_breaker_cooldown_ms,
        },
    }
}

/// At least eight ASCII characters, from which a session id can be cut.
pub open spec fn usable_uuid_text(s: Seq<char>) -> bool {
    &&& s.len() >= 8
    &&& forall|i: int| 0 <= i < 8 ==> (#[trigger] s[i]) as u32 <= 0x7f
}

/// The session id of an app: the given one, or else `sess-` followed by the first eight
/// characters of the UUID drawn for that app.
pub open spec fn session_for(given: Option<String>, draw: Seq<char>) -> Seq<char> {
    match given {
        Some(s) => s@,
        None => session_id_of_draw(draw),
    }
}

/// A launch as plain values: app id, session id, bridge configuration.
pub open spec fn launch_view(l: AppfsAdapterLaunch) -> (Seq<char>, Seq<char>, AppfsBridgeConfig) {
    (l.app_id@, l.session_id@, l.bridge_config)
}

/// The launches planned for `args` when app `i` is given UUID draw `draws[i]`: each app
/// keeps its id, gets its own session, and runs with the shared bridge configuration;
/// the bridge arguments of the entries play no part.
pub open spec fn planned_launches(
    args: Seq<AppfsRuntimeCliArgs>,
    bridge: AppfsBridgeConfig,
    draws: Seq<Seq<char>>,
) -> Seq<(Seq<char>, Seq<char>, AppfsBridgeConfig)> {
    Seq::new(
        args.len(),
        |i: int| (args[i].app_id@, session_for(args[i].session_id, draws[i]), bridge),
    )
}

/// One launch per app, in order, with `uuid_draws[i]` as the UUID text from which app
/// `i`'s session id is made when none is given.
pub fn plan_adapter_launches_with_draws(
    runtime_args: &Vec<AppfsRuntimeCliArgs>,
    bridge_config: &AppfsBridgeConfig,
    uuid_draws: &Vec<String>,
) -> (r: Vec<AppfsAdapterLaunch>)
    requires
        uuid_draws@.len() == runtime_args@.len(),
        forall|i: int|
            0 <= i < runtime_args@.len() && runtime_args@[i].session_id is None
                ==> usable_uuid_text(#[trigger] uuid_draws@[i]@),
    ensures
        r@.len() == runtime_args@.len(),
        forall|i: int|
            0 <= i < r@.len() ==> launch_view(#[trigger] r@[i]) == planned_launches(
                runtime_args@,
                *bridge_config,
                uuid_draws.deep_view(),
            )[i],
{
    let n = runtime_args.len();
    let ghost planned = planned_launches(runtime_args@, *bridge_config, uuid_draws.deep_view());
    let mut out: Vec<AppfsAdapterLaunch> = Vec::new();
    let mut i: usize = 0;
    while i < n
        invariant
            n == runtime_args@.len(),
            n == uuid_draws@.len(),
            planned == planned_launches(runtime_args@, *bridge_config, uuid_draws.deep_view()),
            forall|k: int|
                0 <= k < n && runtime_args@[k].session_id is None ==> usable_uuid_text(
                    #[trigger] uuid_draws@[k]@,
                ),
            i <= n,
            out@.len() == i,
            forall|k: int| 0 <= k < i ==> launch_view(#[trigger] out@[k]) == planned[k],
        decreases n - i,
    {
        let runtime = &runtime_args[i];
        let session_id = match &runtime.session_id {
            Some(s) => s.clone(),
            None => {
                assert(usable_uuid_text(uuid_draws@[i as int]@));
                session_id_from_uuid_hex(uuid_draws[i].as_str())
            },
        };
        let launch = AppfsAdapterLaunch {
            app_id: runtime.app_id.clone(),
            session_id,
            bridge_config: copy_bridge_config(bridge_config),
        };
        assert(uuid_draws.deep_view()[i as int] == uuid_draws@[i as int]@);
        assert(launch_view(launch) == planned[i as int]);
        out.push(launch);
        i = i + 1;
    }
    out
}

/// One launch per app, in order: the app's id, its given session id or else one made
/// from a UUID drawn for that app alone, and the shared bridge configuration.
pub fn plan_adapter_launches(
    runtime_args: Vec<AppfsRuntimeCliArgs>,
    bridge_config: &AppfsBridgeConfig,
) -> (r: Vec<AppfsAdapterLaunch>)
    ensures
        r@.len() == runtime_args@.len(),
        exists|draws: Seq<Seq<char>>|
            #![trigger planned_launches(runtime_args@, *bridge_config, draws)]
            {
                &&& draws.len() == runtime_args@.len()
                &&& forall|i: int|
                    0 <= i < draws.len() && runtime_args@[i].session_id is None
                        ==> is_uuid_v4_simple_text(#[trigger] draws[i])
                &&& forall|i: int|
                    0 <= i < r@.len() ==> launch_view(#[trigger] r@[i]) == planned_launches(
                        runtime_args@,
                        *bridge_config,
                        draws,
                    )[i]
            },
        forall|i: int|
            0 <= i < r@.len() ==> {
                &&& (#[trigger] r@[i]).app_id@ == runtime_args@[i].app_id@
                &&& r@[i].bridge_config == *bridge_config
                &&& match runtime_args@[i].session_id {
                    Some(s) => r@[i].session_id@ == s@,
                    None => is_generated_session_id(r@[i].session_id@),
                }
            },
{
    let n = runtime_args.len();
    let mut draws: Vec<String> = Vec::new();
    let mut i: usize = 0;
    while i < n
        invariant
            n == runtime_args@.len(),
            i <= n,
            draws@.len() == i,
            forall|k: int|
                0 <= k < i && runtime_args@[k].session_id is None ==> is_uuid_v4_simple_text(
                    #[trigger] draws@[k]@,
                ),
        decreases n - i,
    {
        if runtime_args[i].session_id.is_none() {
            draws.push(new_v4_simple_hex());
        } else {
            draws.push(String::new());
        }
        i = i + 1;
    }
    let r = plan_adapter_launches_with_draws(&runtime_args, bridge_config, &draws);
    proof {
        let d = draws.deep_view();
        let planned = planned_launches(runtime_args@, *bridge_config, d);
        reveal_strlit("sess-");
        assert forall|k: int| 0 <= k < d.len() && runtime_args@[k].session_id is None implies
            is_uuid_v4_simple_text(#[trigger] d[k]) by {
            assert(d[k] == draws@[k]@);
        }
        assert forall|k: int| 0 <= k < r@.len() implies {
            &&& (#[trigger] r@[k]).app_id@ == runtime_args@[k].app_id@
            &&& r@[k].bridge_config == *bridge_config
            &&& match runtime_args@[k].session_id {
                Some(s) => r@[k].session_id@ == s@,
                None => is_generated_session_id(r@[k].session_id@),
            }
        } by {
            assert(launch_view(r@[k]) == planned[k]);
            assert(r@[k].app_id@ == runtime_args@[k].app_id@);
            if runtime_args@[k].session_id is None {
                let sid = r@[k].session_id@;
                assert(d[k] == draws@[k]@);
                assert(sid.subrange(0, 5) =~= SESSION_ID_PREFIX@);
                assert forall|j: int| 5 <= j < 13 implies is_lower_hex_digit(#[trigger] sid[j]) by {
                    assert(sid[j] == d[k][j - 5]);
                }
            }
        }
    }
    r
}

/// The launches depend on the runtime entries only through their app ids and session
/// ids: the entries' own bridge arguments are ignored in favour of the shared
/// configuration.
pub proof fn law_launches_ignore_entry_bridge(
    a: Seq<AppfsRuntimeCliArgs>,
    b: Seq<AppfsRuntimeCliArgs>,
    bridge: AppfsBridgeConfig,
    draws: Seq<Seq<char>>,
)
    requires
        a.len() == b.len(),
        forall|i: int|
            0 <= i < a.len() ==> (#[trigger] a[i]).app_id@ == b[i].app_id@ && a[i].session_id
                == b[i].session_id,
    ensures
        planned_launches(a, bridge, draws) == planned_launches(b, bridge, draws),
{
    assert(planned_launches(a, bridge, draws) =~= planned_launches(b, bridge, draws));
}

/// Each app without a given session id gets the session made from its own draw: two such
/// apps whose draws differ in their first eight characters get different sessions.
pub proof fn law_generated_sessions_follow_own_draws(
    args: Seq<AppfsRuntimeCliArgs>,
    bridge: AppfsBridgeConfig,
    draws: Seq<Seq<char>>,
    i: int,
    j: int,
)
    requires
        0 <= i < args.len(),
        0 <= j < args.len(),
        draws.len() == args.len(),
        args[i].session_id is None,
        args[j].session_id is None,
        usable_uuid_text(draws[i]),
        usable_uuid_text(draws[j]),
        draws[i].subrange(0, 8) != draws[j].subrange(0, 8),
    ensures
        planned_launches(args, bridge, draws)[i].1 != planned_launches(args, bridge, draws)[j].1,
{
    reveal_strlit("sess-");
    let si = planned_launches(args, bridge, draws)[i].1;
    let sj = planned_launches(args, bridge, draws)[j].1;
    assert(si.subrange(5, 13) =~= draws[i].subrange(0, 8));
    assert(sj.subrange(5, 13) =~= draws[j].subrange(0, 8));
}

} // verus!
