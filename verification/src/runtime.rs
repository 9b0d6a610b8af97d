//! Per-app runtime arguments, bridge configuration, and the plan that the adapter
//! command runs.

use vstd::prelude::*;
use std::path::PathBuf;
use crate::app_ids::{
    AppfsArgsError, normalized_app_ids, no_blank_app_id, law_normalize_refuses_only_blank_ids, normalize_appfs_app_ids,
    law_normalized_app_ids_are_distinct_and_trimmed,
};

verus! {

/// `std::path::PathBuf`, carried through unread.
#[verifier::external_type_specification]
#[verifier::external_body]
pub struct ExPathBuf(PathBuf);

/// `<PathBuf as Clone>::clone`: nothing is claimed of the copy, which is only carried
/// through.
pub assume_specification[ <PathBuf as Clone>::clone ](p: &PathBuf) -> PathBuf;

/// The shortest interval, in milliseconds, at which the runtime polls its adapters.
pub const MIN_POLL_MS: u64 = 50;

/// The app that the adapter command serves when no app id is given.
pub const DEFAULT_SERVE_APP_ID: &'static str = "aiim";

/// The command-line arguments of the AppFS adapter command.
#[derive(Debug, Clone)]
pub struct AppfsServeArgs {
    pub root: PathBuf,
    pub app_id: Option<String>,
    pub app_ids: Vec<String>,
    pub session_id: Option<String>,
    pub poll_ms: u64,
    pub adapter_http_endpoint: Option<String>,
    pub adapter_http_timeout_ms: u64,
    pub adapter_grpc_endpoint: Option<String>,
    pub adapter_grpc_timeout_ms: u64,
    pub adapter_bridge_max_retries: u32,
    pub adapter_bridge_initial_backoff_ms: u64,
    pub adapter_bridge_max_backoff_ms: u64,
    pub adapter_bridge_circuit_breaker_failures: u32,
    pub adapter_bridge_circuit_breaker_cooldown_ms: u64,
}

/// The bridge settings that every app of one runtime shares.
#[derive(Debug, Clone, PartialEq, Eq)]
pub struct AppfsBridgeCliArgs {
    pub adapter_http_endpoint: Option<String>,
    pub adapter_http_timeout_ms: u64,
    pub adapter_grpc_endpoint: Option<String>,
    pub adapter_grpc_timeout_ms: u64,
    pub adapter_bridge_max_retries: u32,
    pub adapter_bridge_initial_backoff_ms: u64,
    pub adapter_bridge_max_backoff_ms: u64,
    pub adapter_bridge_circuit_breaker_failures: u32,
    pub adapter_bridge_circuit_breaker_cooldown_ms: u64,
}

/// The arguments of the runtime of one app.
#[derive(Debug, Clone, PartialEq, Eq)]
pub struct AppfsRuntimeCliArgs {
    pub app_id: String,
    pub session_id: Option<String>,
    pub bridge: AppfsBridgeCliArgs,
}

/// Retry and circuit-breaker settings of a bridge connection.
#[derive(Debug, Clone, Copy, PartialEq, Eq, Structural)]
pub struct BridgeRuntimeOptions {
    pub max_retries: u32,
    pub initial_backoff_ms: u64,
    pub max_backoff_ms: u64,
    pub circuit_breaker_failures: u32,
    pub circuit_breaker_cooldown_ms: u64,
}

impl BridgeRuntimeOptions {
    /// The options as given on the command line.
    pub fn from_cli(
        max_retries: u32,
        initial_backoff_ms: u64,
        max_backoff_ms: u64,
        circuit_breaker_failures: u32,
        circuit_breaker_cooldown_ms: u64,
    ) -> (r: Self)
        ensures
            r == (BridgeRuntimeOptions {
                max_retries,
                initial_backoff_ms,
                max_backoff_ms,
                circuit_breaker_failures,
                circuit_breaker_cooldown_ms,
            }),
    {
        BridgeRuntimeOptions {
            max_retries,
            initial_backoff_ms,
            max_backoff_ms,
            circuit_breaker_failures,
            circuit_breaker_cooldown_ms,
        }
    }
}

/// The bridge endpoints and runtime options of an adapter.
#[derive(Debug, Clone, PartialEq, Eq)]
pub struct AppfsBridgeConfig {
    pub adapter_http_endpoint: Option<String>,
    pub adapter_http_timeout_ms: u64,
    pub adapter_grpc_endpoint: Option<String>,
    pub adapter_grpc_timeout_ms: u64,
    pub runtime_options: BridgeRuntimeOptions,
}

pub(crate) fn copy_opt_string(o: &Option<String>) -> (r: Option<String>)
    ensures
        r == *o,
{
    match o {
        Some(s) => Some(s.clone()),
        None => None,
    }
}

fn copy_bridge_args(b: &AppfsBridgeCliArgs) -> (r: AppfsBridgeCliArgs)
    ensures
        r == *b,
{
    AppfsBridgeCliArgs {
        adapter_http_endpoint: copy_opt_string(&b.adapter_http_endpoint),
        adapter_http_timeout_ms: b.adapter_http_timeout_ms,
        adapter_grpc_endpoint: copy_opt_string(&b.adapter_grpc_endpoint),
        adapter_grpc_timeout_ms: b.adapter_grpc_timeout_ms,
        adapter_bridge_max_retries: b.adapter_bridge_max_retries,
        adapter_bridge_initial_backoff_ms: b.adapter_bridge_initial_backoff_ms,
        adapter_bridge_max_backoff_ms: b.adapter_bridge_max_backoff_ms,
        adapter_bridge_circuit_breaker_failures: b.adapter_bridge_circuit_breaker_failures,
        adapter_bridge_circuit_breaker_cooldown_ms: b.adapter_bridge_circuit_breaker_cooldown_ms,
    }
}

/// What building the per-app runtime arguments gives: the error of app id
/// normalisation; a refusal when one session id is given for several apps; otherwise
/// one entry per normalised app id, in order, each with the given session id and bridge.
pub open spec fn runtime_args_outcome(
    ids: Result<Seq<Seq<char>>, AppfsArgsError>,
    session_id: Option<String>,
    bridge: AppfsBridgeCliArgs,
    r: Result<Vec<AppfsRuntimeCliArgs>, AppfsArgsError>,
) -> bool {
    match ids {
        Err(e) => r == Err::<Vec<AppfsRuntimeCliArgs>, AppfsArgsError>(e),
        Ok(ids) => if ids.len() > 1 && session_id is Some {
            r == Err::<Vec<AppfsRuntimeCliArgs>, AppfsArgsError>(
                AppfsArgsError::SharedSessionIdAcrossApps,
            )
        } else {
            match r {
                Ok(v) => {
                    &&& v@.len() == ids.len()
                    &&& forall|i: int|
                        0 <= i < ids.len() ==> {
                            &&& (#[trigger] v@[i]).app_id@ == ids[i]
                            &&& v@[i].session_id == session_id
                            &&& v@[i].bridge == bridge
                        }
                },
                Err(_) => false,
            }
        },
    }
}

/// A session id given on the command line is handed to at most one app, and no two
/// apps of one runtime share an app id.
pub proof fn law_runtime_args_isolate_apps(
    primary: Option<Seq<char>>,
    extras: Seq<Seq<char>>,
    default_id: Option<Seq<char>>,
    session_id: Option<String>,
    bridge: AppfsBridgeCliArgs,
    args: Vec<AppfsRuntimeCliArgs>,
)
    requires
        runtime_args_outcome(
            normalized_app_ids(primary, extras, default_id),
            session_id,
            bridge,
            Ok(args),
        ),
    ensures
        session_id is Some ==> args@.len() <= 1,
        forall|i: int, j: int| 0 <= i < j < args@.len() ==> args@[i].app_id@ != args@[j].app_id@,
{
    let ids = normalized_app_ids(primary, extras, default_id)->Ok_0;
    law_normalized_app_ids_are_distinct_and_trimmed(primary, extras, default_id, ids);
    assert forall|i: int, j: int| 0 <= i < j < args@.len() implies args@[i].app_id@
        != args@[j].app_id@ by {
        assert(args@[i].app_id@ == ids[i]);
        assert(args@[j].app_id@ == ids[j]);
    }
}

/// Building the runtime arguments passes on an error of app id normalisation unchanged,
/// refuses exactly when one session id is given for more than one app, and otherwise
/// gives one entry per app id, in order, each with the given session id and bridge.
pub proof fn law_runtime_args_refuse_only_shared_sessions(
    ids: Result<Seq<Seq<char>>, AppfsArgsError>,
    session_id: Option<String>,
    bridge: AppfsBridgeCliArgs,
    r: Result<Vec<AppfsRuntimeCliArgs>, AppfsArgsError>,
)
    requires
        runtime_args_outcome(ids, session_id, bridge, r),
    ensures
        ids is Err ==> r == Err::<Vec<AppfsRuntimeCliArgs>, AppfsArgsError>(ids->Err_0),
        ids is Ok ==> (r is Err <==> (ids->Ok_0.len() > 1 && session_id is Some)),
        ids is Ok && r is Err ==> r == Err::<Vec<AppfsRuntimeCliArgs>, AppfsArgsError>(
            AppfsArgsError::SharedSessionIdAcrossApps,
        ),
        r is Ok ==> {
            &&& ids is Ok
            &&& r->Ok_0@.len() == ids->Ok_0.len()
            &&& forall|i: int|
                0 <= i < ids->Ok_0.len() ==> {
                    &&& (#[trigger] r->Ok_0@[i]).app_id@ == ids->Ok_0[i]
                    &&& r->Ok_0@[i].session_id == session_id
                    &&& r->Ok_0@[i].bridge == bridge
                }
        },
{
}

/// The poll interval is the larger of the requested interval and `MIN_POLL_MS`: never
/// shorter than either, and equal to one of them.
pub proof fn law_poll_interval_is_max_of_request_and_minimum(poll_ms: u64)
    ensures
        poll_interval_of(poll_ms) >= poll_ms,
        poll_interval_of(poll_ms) >= MIN_POLL_MS,
        poll_interval_of(poll_ms) == poll_ms || poll_interval_of(poll_ms) == MIN_POLL_MS,
{
}

/// The bridge configuration takes every bridge argument over unchanged, each into the
/// field of the same name.
pub proof fn law_bridge_config_takes_arguments_over(args: AppfsBridgeCliArgs)
    ensures
        bridge_config_of(args).adapter_http_endpoint == args.adapter_http_endpoint,
        bridge_config_of(args).adapter_http_timeout_ms == args.adapter_http_timeout_ms,
        bridge_config_of(args).adapter_grpc_endpoint == args.adapter_grpc_endpoint,
        bridge_config_of(args).adapter_grpc_timeout_ms == args.adapter_grpc_timeout_ms,
        bridge_config_of(args).runtime_options.max_retries == args.adapter_bridge_max_retries,
        bridge_config_of(args).runtime_options.initial_backoff_ms
            == args.adapter_bridge_initial_backoff_ms,
        bridge_config_of(args).runtime_options.max_backoff_ms == args.adapter_bridge_max_backoff_ms,
        bridge_config_of(args).runtime_options.circuit_breaker_failures
            == args.adapter_bridge_circuit_breaker_failures,
        bridge_config_of(args).runtime_options.circuit_breaker_cooldown_ms
            == args.adapter_bridge_circuit_breaker_cooldown_ms,
{
}

/// Normalises the app ids and gives each app its runtime arguments; one session id
/// cannot be shared by several apps.
pub fn build_runtime_cli_args(
    primary_app_id: Option<String>,
    extra_app_ids: Vec<String>,
    session_id: Option<String>,
    bridge: AppfsBridgeCliArgs,
    default_app_id: Option<&str>,
) -> (r: Result<Vec<AppfsRuntimeCliArgs>, AppfsArgsError>)
    ensures
        runtime_args_outcome(
            normalized_app_ids(
                primary_app_id.deep_view(),
                extra_app_ids.deep_view(),
                default_app_id.deep_view(),
            ),
            session_id,
            bridge,
            r,
        ),
        (session_id is None && no_blank_app_id(
            primary_app_id.deep_view(),
            extra_app_ids.deep_view(),
            default_app_id.deep_view(),
        )) ==> r is Ok,
        r == Err::<Vec<AppfsRuntimeCliArgs>, AppfsArgsError>(
            AppfsArgsError::SharedSessionIdAcrossApps,
        ) ==> session_id is Some,
        (normalized_app_ids(
            primary_app_id.deep_view(),
            extra_app_ids.deep_view(),
            default_app_id.deep_view(),
        ) is Ok && normalized_app_ids(
            primary_app_id.deep_view(),
            extra_app_ids.deep_view(),
            default_app_id.deep_view(),
        )->Ok_0.len() <= 1) ==> r is Ok,
{
    proof {
        law_normalize_refuses_only_blank_ids(
            primary_app_id.deep_view(),
            extra_app_ids.deep_view(),
            default_app_id.deep_view(),
        );
    }
    let ghost ids_spec = normalized_app_ids(
        primary_app_id.deep_view(),
        extra_app_ids.deep_view(),
        default_app_id.deep_view(),
    );
    let app_ids = match normalize_appfs_app_ids(primary_app_id, extra_app_ids, default_app_id) {
        Ok(ids) => ids,
        Err(e) => {
            return Err(e);
        },
    };
    if app_ids.len() > 1 && session_id.is_some() {
        return Err(AppfsArgsError::SharedSessionIdAcrossApps);
    }
    let n = app_ids.len();
    let mut out: Vec<AppfsRuntimeCliArgs> = Vec::new();
    let mut i: usize = 0;
    while i < n
        invariant
            n == app_ids.len(),
            i <= n,
            out@.len() == i,
            forall|k: int|
                0 <= k < i ==> {
                    &&& (#[trigger] out@[k]).app_id@ == app_ids.deep_view()[k]
                    &&& out@[k].session_id == session_id
                    &&& out@[k].bridge == bridge
                },
        decreases n - i,
    {
        let entry = AppfsRuntimeCliArgs {
            app_id: app_ids[i].clone(),
            session_id: copy_opt_string(&session_id),
            bridge: copy_bridge_args(&bridge),
        };
        out.push(entry);
        i = i + 1;
    }
    Ok(out)
}

/// The bridge configuration made from the bridge arguments: endpoints and timeouts as
/// given, and the retry and circuit-breaker options taken over unchanged.
pub open spec fn bridge_config_of(args: AppfsBridgeCliArgs) -> AppfsBridgeConfig {
    AppfsBridgeConfig {
        adapter_http_endpoint: args.adapter_http_endpoint,
        adapter_http_timeout_ms: args.adapter_http_timeout_ms,
        adapter_grpc_endpoint: args.adapter_grpc_endpoint,
        adapter_grpc_timeout_ms: args.adapter_grpc_timeout_ms,
        runtime_options: BridgeRuntimeOptions {
            max_retries: args.adapter_bridge_max_retries,
            initial_backoff_ms: args.adapter_bridge_initial_backoff_ms,
            max_backoff_ms: args.adapter_bridge_max_backoff_ms,
            circuit_breaker_failures: args.adapter_bridge_circuit_breaker_failures,
            circuit_breaker_cooldown_ms: args.adapter_bridge_circuit_breaker_cooldown_ms,
        },
    }
}

/// The bridge configuration that the runtime hands to each adapter.
pub fn build_appfs_bridge_config(args: AppfsBridgeCliArgs) -> (r: AppfsBridgeConfig)
    ensures
        r == bridge_config_of(args),
        r.adapter_http_endpoint == args.adapter_http_endpoint,
        r.adapter_http_timeout_ms == args.adapter_http_timeout_ms,
        r.adapter_grpc_endpoint == args.adapter_grpc_endpoint,
        r.adapter_grpc_timeout_ms == args.adapter_grpc_timeout_ms,
        r.runtime_options.max_retries == args.adapter_bridge_max_retries,
        r.runtime_options.initial_backoff_ms == args.adapter_bridge_initial_backoff_ms,
        r.runtime_options.max_backoff_ms == args.adapter_bridge_max_backoff_ms,
        r.runtime_options.circuit_breaker_failures == args.adapter_bridge_circuit_breaker_failures,
        r.runtime_options.circuit_breaker_cooldown_ms
            == args.adapter_bridge_circuit_breaker_cooldown_ms,
{
    let bridge_runtime_options = BridgeRuntimeOptions::from_cli(
        args.adapter_bridge_max_retries,
        args.adapter_bridge_initial_backoff_ms,
        args.adapter_bridge_max_backoff_ms,
        args.adapter_bridge_circuit_breaker_failures,
        args.adapter_bridge_circuit_breaker_cooldown_ms,
    );
    AppfsBridgeConfig {
        adapter_http_endpoint: args.adapter_http_endpoint,
        adapter_http_timeout_ms: args.adapter_http_timeout_ms,
        adapter_grpc_endpoint: args.adapter_grpc_endpoint,
        adapter_grpc_timeout_ms: args.adapter_grpc_timeout_ms,
        runtime_options: bridge_runtime_options,
    }
}

/// The bridge arguments that the adapter command reads from its command line.
pub open spec fn bridge_args_of(args: AppfsServeArgs) -> AppfsBridgeCliArgs {
    AppfsBridgeCliArgs {
        adapter_http_endpoint: args.adapter_http_endpoint,
        adapter_http_timeout_ms: args.adapter_http_timeout_ms,
        adapter_grpc_endpoint: args.adapter_grpc_endpoint,
        adapter_grpc_timeout_ms: args.adapter_grpc_timeout_ms,
        adapter_bridge_max_retries: args.adapter_bridge_max_retries,
        adapter_bridge_initial_backoff_ms: args.adapter_bridge_initial_backoff_ms,
        adapter_bridge_max_backoff_ms: args.adapter_bridge_max_backoff_ms,
        adapter_bridge_circuit_breaker_failures: args.adapter_bridge_circuit_breaker_failures,
        adapter_bridge_circuit_breaker_cooldown_ms: args.adapter_bridge_circuit_breaker_cooldown_ms,
    }
}

/// The poll interval that the runtime uses: the requested one, but no shorter than
/// `MIN_POLL_MS`.
pub open spec fn poll_interval_of(poll_ms: u64) -> u64 {
    if poll_ms < MIN_POLL_MS {
        MIN_POLL_MS
    } else {
        poll_ms
    }
}

/// Everything the adapter command needs to start serving.
#[derive(Debug)]
pub struct AppfsServePlan {
    pub root: PathBuf,
    pub runtime_args: Vec<AppfsRuntimeCliArgs>,
    pub bridge_config: AppfsBridgeConfig,
    pub poll_interval_ms: u64,
}

/// The decisions of the adapter command before it starts its adapters: the per-app
/// runtime arguments (serving `DEFAULT_SERVE_APP_ID` when no app id is given), the shared
/// bridge configuration, and the poll interval.
pub fn prepare_appfs_serve(args: AppfsServeArgs) -> (r: Result<AppfsServePlan, AppfsArgsError>)
    ensures
        runtime_args_outcome(
            normalized_app_ids(
                args.app_id.deep_view(),
                args.app_ids.deep_view(),
                Some(DEFAULT_SERVE_APP_ID@),
            ),
            args.session_id,
            bridge_args_of(args),
            match r {
                Ok(plan) => Ok(plan.runtime_args),
                Err(e) => Err(e),
            },
        ),
        r matches Ok(plan) ==> {
            &&& plan.root == args.root
            &&& plan.bridge_config == bridge_config_of(bridge_args_of(args))
            &&& plan.poll_interval_ms == poll_interval_of(args.poll_ms)
            &&& plan.poll_interval_ms >= args.poll_ms
            &&& plan.poll_interval_ms >= MIN_POLL_MS
            &&& (args.poll_ms >= MIN_POLL_MS ==> plan.poll_interval_ms == args.poll_ms)
            &&& plan.bridge_config.adapter_http_timeout_ms == args.adapter_http_timeout_ms
            &&& plan.bridge_config.adapter_grpc_timeout_ms == args.adapter_grpc_timeout_ms
        },
{
    let ghost spec_args = args;
    let AppfsServeArgs {
        root,
        app_id,
        app_ids,
        session_id,
        poll_ms,
        adapter_http_endpoint,
        adapter_http_timeout_ms,
        adapter_grpc_endpoint,
        adapter_grpc_timeout_ms,
        adapter_bridge_max_retries,
        adapter_bridge_initial_backoff_ms,
        adapter_bridge_max_backoff_ms,
        adapter_bridge_circuit_breaker_failures,
        adapter_bridge_circuit_breaker_cooldown_ms,
    } = args;
    let bridge = AppfsBridgeCliArgs {
        adapter_http_endpoint,
        adapter_http_timeout_ms,
        adapter_grpc_endpoint,
        adapter_grpc_timeout_ms,
        adapter_bridge_max_retries,
        adapter_bridge_initial_backoff_ms,
        adapter_bridge_max_backoff_ms,
        adapter_bridge_circuit_breaker_failures,
        adapter_bridge_circuit_breaker_cooldown_ms,
    };
    assert(bridge == bridge_args_of(spec_args));
    let runtime_args = match build_runtime_cli_args(
        app_id,
        app_ids,
        session_id,
        copy_bridge_args(&bridge),
        Some(DEFAULT_SERVE_APP_ID),
    ) {
        Ok(v) => v,
        Err(e) => {
            return Err(e);
        },
    };
    let bridge_config = build_appfs_bridge_config(bridge);
    let poll_interval_ms = if poll_ms < MIN_POLL_MS {
        MIN_POLL_MS
    } else {
        poll_ms
    };
    Ok(AppfsServePlan { root, runtime_args, bridge_config, poll_interval_ms })
}

} // verus!
