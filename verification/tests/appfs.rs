use appfs::serve_loop::{next_adapter_loop_action, AdapterLoopAction, AdapterLoopEvent};
use appfs::app_ids::{normalize_appfs_app_ids, AppfsArgsError};
use appfs::connector::{not_supported_structure_sync, APPFS_CONNECTOR_SDK_VERSION, NOT_SUPPORTED};
use appfs::runtime::{
    build_appfs_bridge_config, build_runtime_cli_args, prepare_appfs_serve, AppfsBridgeCliArgs,
    AppfsServeArgs, BridgeRuntimeOptions, MIN_POLL_MS,
};
use appfs::session::{normalize_appfs_session_id, session_id_from_uuid_hex};
use appfs::snapshot::{SnapshotCacheState, SnapshotOnTimeoutPolicy};
use appfs::supervisor::plan_adapter_launches;
use appfs::text::trim_to_string;
use std::path::PathBuf;

fn bridge_args() -> AppfsBridgeCliArgs {
    AppfsBridgeCliArgs {
        adapter_http_endpoint: None,
        adapter_http_timeout_ms: 5_000,
        adapter_grpc_endpoint: None,
        adapter_grpc_timeout_ms: 5_000,
        adapter_bridge_max_retries: 2,
        adapter_bridge_initial_backoff_ms: 100,
        adapter_bridge_max_backoff_ms: 1_000,
        adapter_bridge_circuit_breaker_failures: 5,
        adapter_bridge_circuit_breaker_cooldown_ms: 3_000,
    }
}

fn serve_args(app_id: Option<&str>, app_ids: Vec<&str>, session_id: Option<&str>, poll_ms: u64) -> AppfsServeArgs {
    AppfsServeArgs {
        root: PathBuf::from("/app"),
        app_id: app_id.map(|s| s.to_string()),
        app_ids: app_ids.into_iter().map(|s| s.to_string()).collect(),
        session_id: session_id.map(|s| s.to_string()),
        poll_ms,
        adapter_http_endpoint: Some("http://127.0.0.1:8080".to_string()),
        adapter_http_timeout_ms: 5000,
        adapter_grpc_endpoint: None,
        adapter_grpc_timeout_ms: 7000,
        adapter_bridge_max_retries: 2,
        adapter_bridge_initial_backoff_ms: 100,
        adapter_bridge_max_backoff_ms: 1000,
        adapter_bridge_circuit_breaker_failures: 5,
        adapter_bridge_circuit_breaker_cooldown_ms: 3000,
    }
}

fn is_lower_hex(c: char) -> bool {
    c.is_ascii_digit() || ('a'..='f').contains(&c)
}

#[test]
fn normalize_app_ids_defaults_and_deduplicates() {
    let app_ids = normalize_appfs_app_ids(
        Some("aiim".to_string()),
        vec![" notion ".into(), "aiim".into()],
        Some("default"),
    )
    .expect("normalize app ids");
    assert_eq!(app_ids, vec!["aiim".to_string(), "notion".to_string()]);

    let defaulted =
        normalize_appfs_app_ids(None, Vec::new(), Some("aiim")).expect("default app id");
    assert_eq!(defaulted, vec!["aiim".to_string()]);
}

#[test]
fn multi_app_runtime_rejects_single_shared_session_id() {
    let err = build_runtime_cli_args(
        Some("aiim".to_string()),
        vec!["notion".to_string()],
        Some("sess-shared".to_string()),
        bridge_args(),
        None,
    )
    .expect_err("multi-app shared session must be rejected");
    assert!(err.message().contains("single shared --session-id"));
}

#[test]
fn normalize_app_ids_rejects_blank_ids() {
    let err = normalize_appfs_app_ids(Some("aiim".to_string()), vec!["   ".into()], None)
        .expect_err("blank extra id");
    assert_eq!(err, AppfsArgsError::EmptyAppId);
    assert_eq!(err.message(), "app id cannot be empty");

    let err = normalize_appfs_app_ids(Some("\t\n".to_string()), vec!["notion".into()], None)
        .expect_err("blank primary id");
    assert_eq!(err, AppfsArgsError::EmptyAppId);

    let err = normalize_appfs_app_ids(None, Vec::new(), Some("  ")).expect_err("blank default");
    assert_eq!(err, AppfsArgsError::EmptyAppId);

    let err = normalize_appfs_app_ids(None, vec!["".into()], Some("aiim")).expect_err("empty id");
    assert_eq!(err, AppfsArgsError::EmptyAppId);
}

#[test]
fn normalize_app_ids_without_ids_or_default_is_empty() {
    let ids = normalize_appfs_app_ids(None, Vec::new(), None).expect("no ids");
    assert!(ids.is_empty());
}

#[test]
fn normalize_app_ids_ignores_default_when_ids_given() {
    let ids = normalize_appfs_app_ids(None, vec!["b".into(), " a".into(), "b ".into(), "a".into()], Some("c"))
        .expect("ids");
    assert_eq!(ids, vec!["b".to_string(), "a".to_string()]);
}

#[test]
fn normalize_app_ids_is_idempotent() {
    let first = normalize_appfs_app_ids(
        Some(" x ".to_string()),
        vec!["y".into(), "x".into(), "\u{3000}z\u{a0}".into()],
        Some("d"),
    )
    .expect("first");
    assert_eq!(first, vec!["x".to_string(), "y".to_string(), "z".to_string()]);
    let second = normalize_appfs_app_ids(None, first.clone(), Some("d")).expect("second");
    assert_eq!(second, first);
}

#[test]
fn trim_removes_unicode_white_space_only_at_the_ends() {
    assert_eq!(trim_to_string("  a b  "), "a b");
    assert_eq!(trim_to_string("\u{2003}\u{85}id\u{2029}\u{202f}"), "id");
    assert_eq!(trim_to_string("\u{200b}id"), "\u{200b}id");
    assert_eq!(trim_to_string(" \t\r\n"), "");
    assert_eq!(trim_to_string(""), "");
    assert_eq!(trim_to_string("été "), "été");
}

#[test]
fn runtime_args_share_session_and_bridge() {
    let args = build_runtime_cli_args(
        None,
        vec!["notion".to_string()],
        Some("sess-1".to_string()),
        bridge_args(),
        Some("aiim"),
    )
    .expect("single app with session");
    assert_eq!(args.len(), 1);
    assert_eq!(args[0].app_id, "notion");
    assert_eq!(args[0].session_id.as_deref(), Some("sess-1"));
    assert_eq!(args[0].bridge, bridge_args());

    let args = build_runtime_cli_args(
        Some("aiim".to_string()),
        vec!["notion".to_string(), "aiim".to_string()],
        None,
        bridge_args(),
        None,
    )
    .expect("two apps without session");
    let ids: Vec<&str> = args.iter().map(|a| a.app_id.as_str()).collect();
    assert_eq!(ids, vec!["aiim", "notion"]);
    assert!(args.iter().all(|a| a.session_id.is_none() && a.bridge == bridge_args()));
}

#[test]
fn runtime_args_propagate_empty_app_id_error() {
    let err = build_runtime_cli_args(None, vec![" ".to_string()], None, bridge_args(), None)
        .expect_err("blank id");
    assert_eq!(err, AppfsArgsError::EmptyAppId);
}

#[test]
fn runtime_args_with_session_and_duplicate_ids_are_accepted() {
    let args = build_runtime_cli_args(
        Some("aiim".to_string()),
        vec![" aiim ".to_string()],
        Some("sess-x".to_string()),
        bridge_args(),
        None,
    )
    .expect("duplicates collapse to one app");
    assert_eq!(args.len(), 1);
}

#[test]
fn bridge_config_keeps_endpoints_and_options() {
    let mut args = bridge_args();
    args.adapter_http_endpoint = Some("http://h".to_string());
    args.adapter_grpc_endpoint = Some("grpc://g".to_string());
    let config = build_appfs_bridge_config(args);
    assert_eq!(config.adapter_http_endpoint.as_deref(), Some("http://h"));
    assert_eq!(config.adapter_grpc_endpoint.as_deref(), Some("grpc://g"));
    assert_eq!(config.adapter_http_timeout_ms, 5_000);
    assert_eq!(config.adapter_grpc_timeout_ms, 5_000);
    assert_eq!(
        config.runtime_options,
        BridgeRuntimeOptions {
            max_retries: 2,
            initial_backoff_ms: 100,
            max_backoff_ms: 1_000,
            circuit_breaker_failures: 5,
            circuit_breaker_cooldown_ms: 3_000,
        }
    );
    assert_eq!(
        BridgeRuntimeOptions::from_cli(1, 2, 3, 4, 5),
        BridgeRuntimeOptions {
            max_retries: 1,
            initial_backoff_ms: 2,
            max_backoff_ms: 3,
            circuit_breaker_failures: 4,
            circuit_breaker_cooldown_ms: 5,
        }
    );
}

#[test]
fn serve_plan_defaults_to_aiim_and_clamps_poll_interval() {
    let plan = prepare_appfs_serve(serve_args(None, vec![], None, 10)).expect("plan");
    assert_eq!(plan.root, PathBuf::from("/app"));
    assert_eq!(plan.poll_interval_ms, MIN_POLL_MS);
    assert_eq!(plan.runtime_args.len(), 1);
    assert_eq!(plan.runtime_args[0].app_id, "aiim");
    assert_eq!(plan.bridge_config.adapter_http_endpoint.as_deref(), Some("http://127.0.0.1:8080"));
    assert_eq!(plan.bridge_config.adapter_grpc_timeout_ms, 7000);
    assert_eq!(plan.runtime_args[0].bridge.adapter_grpc_timeout_ms, 7000);

    let plan = prepare_appfs_serve(serve_args(Some("notion"), vec![], Some("sess-9"), 250)).expect("plan");
    assert_eq!(plan.poll_interval_ms, 250);
    assert_eq!(plan.runtime_args[0].app_id, "notion");
    assert_eq!(plan.runtime_args[0].session_id.as_deref(), Some("sess-9"));
}

#[test]
fn serve_plan_refuses_shared_session() {
    let err = prepare_appfs_serve(serve_args(Some("aiim"), vec!["notion"], Some("sess-1"), 100))
        .expect_err("shared session");
    assert_eq!(err, AppfsArgsError::SharedSessionIdAcrossApps);
}

#[test]
fn session_id_is_kept_or_generated() {
    assert_eq!(normalize_appfs_session_id(Some("sess-given".to_string())), "sess-given");
    assert_eq!(normalize_appfs_session_id(Some(String::new())), "");
    let generated = normalize_appfs_session_id(None);
    assert_eq!(generated.len(), 13);
    assert!(generated.starts_with("sess-"));
    assert!(generated[5..].chars().all(is_lower_hex));
}

#[test]
fn session_id_from_uuid_takes_first_eight_digits() {
    assert_eq!(session_id_from_uuid_hex("0123456789abcdef0123456789abcdef"), "sess-01234567");
    assert_eq!(session_id_from_uuid_hex("deadbeef"), "sess-deadbeef");
}

#[test]
fn adapter_launches_keep_ids_and_isolate_sessions() {
    let runtime_args = build_runtime_cli_args(
        Some("aiim".to_string()),
        vec!["notion".to_string()],
        None,
        bridge_args(),
        None,
    )
    .expect("runtime args");
    let config = build_appfs_bridge_config(bridge_args());
    let launches = plan_adapter_launches(runtime_args, &config);
    assert_eq!(launches.len(), 2);
    assert_eq!(launches[0].app_id, "aiim");
    assert_eq!(launches[1].app_id, "notion");
    for launch in &launches {
        assert_eq!(launch.bridge_config, config);
        assert_eq!(launch.session_id.len(), 13);
        assert!(launch.session_id.starts_with("sess-"));
    }

    let runtime_args = build_runtime_cli_args(
        Some("aiim".to_string()),
        Vec::new(),
        Some("sess-fixed".to_string()),
        bridge_args(),
        None,
    )
    .expect("runtime args");
    let launches = plan_adapter_launches(runtime_args, &config);
    assert_eq!(launches[0].session_id, "sess-fixed");
}

#[test]
fn snapshot_names() {
    assert_eq!(SnapshotOnTimeoutPolicy::ReturnStale.as_str(), "return_stale");
    assert_eq!(SnapshotOnTimeoutPolicy::Fail.as_str(), "fail");
    assert_eq!(SnapshotCacheState::Cold.as_str(), "cold");
    assert_eq!(SnapshotCacheState::Warming.as_str(), "warming");
    assert_eq!(SnapshotCacheState::Hot.as_str(), "hot");
    assert_eq!(SnapshotCacheState::Error.as_str(), "error");
}

#[test]
fn structure_sync_not_supported_error() {
    let err = not_supported_structure_sync();
    assert_eq!(err.code, NOT_SUPPORTED);
    assert_eq!(err.message, "app structure sync is not supported by this connector");
    assert!(!err.retryable);
    assert!(err.details.is_none());
    assert_eq!(APPFS_CONNECTOR_SDK_VERSION, "0.4.0");
}

#[test]
fn white_space_class_matches_std() {
    for u in 0u32..=0x10ffff {
        if let Some(c) = char::from_u32(u) {
            assert_eq!(appfs::text::char_is_whitespace(c), c.is_whitespace(), "{u:#x}");
        }
    }
}

#[test]
fn launches_take_sessions_from_their_own_draws() {
    let runtime_args = build_runtime_cli_args(
        Some("aiim".to_string()),
        vec!["notion".to_string(), "extra".to_string()],
        None,
        bridge_args(),
        None,
    )
    .expect("runtime args");
    let config = build_appfs_bridge_config(bridge_args());
    let draws = vec![
        "11111111aaaa4aaa8aaaaaaaaaaaaaaa".to_string(),
        "22222222bbbb4bbb9bbbbbbbbbbbbbbb".to_string(),
        "33333333cccc4cccaccccccccccccccc".to_string(),
    ];
    let launches = appfs::supervisor::plan_adapter_launches_with_draws(&runtime_args, &config, &draws);
    let sessions: Vec<&str> = launches.iter().map(|l| l.session_id.as_str()).collect();
    assert_eq!(sessions, vec!["sess-11111111", "sess-22222222", "sess-33333333"]);
    let ids: Vec<&str> = launches.iter().map(|l| l.app_id.as_str()).collect();
    assert_eq!(ids, vec!["aiim", "notion", "extra"]);

    let mut with_other_bridge = runtime_args.clone();
    with_other_bridge[1].bridge.adapter_http_timeout_ms = 1;
    let again = appfs::supervisor::plan_adapter_launches_with_draws(&with_other_bridge, &config, &draws);
    assert_eq!(again, launches);
}

#[test]
fn given_session_ignores_draw() {
    let runtime_args = build_runtime_cli_args(
        Some("aiim".to_string()),
        Vec::new(),
        Some("sess-given".to_string()),
        bridge_args(),
        None,
    )
    .expect("runtime args");
    let config = build_appfs_bridge_config(bridge_args());
    let launches =
        appfs::supervisor::plan_adapter_launches_with_draws(&runtime_args, &config, &vec![String::new()]);
    assert_eq!(launches[0].session_id, "sess-given");
}

#[test]
fn generated_sessions_differ_per_app() {
    let runtime_args = build_runtime_cli_args(
        Some("a".to_string()),
        vec!["b".to_string(), "c".to_string()],
        None,
        bridge_args(),
        None,
    )
    .expect("runtime args");
    let config = build_appfs_bridge_config(bridge_args());
    let launches = plan_adapter_launches(runtime_args, &config);
    let mut sessions: Vec<&str> = launches.iter().map(|l| l.session_id.as_str()).collect();
    sessions.sort();
    sessions.dedup();
    assert_eq!(sessions.len(), 3);
}

#[test]
fn serve_loop_actions() {
    assert_eq!(next_adapter_loop_action(AdapterLoopEvent::Interrupted), AdapterLoopAction::Stop);
    assert_eq!(next_adapter_loop_action(AdapterLoopEvent::Tick), AdapterLoopAction::PollAdapters);
    assert_eq!(next_adapter_loop_action(AdapterLoopEvent::PollSucceeded), AdapterLoopAction::Wait);
    assert_eq!(
        next_adapter_loop_action(AdapterLoopEvent::PollFailed),
        AdapterLoopAction::ReportPollErrorAndContinue
    );
}

#[test]
fn serve_args_clone_keeps_fields() {
    let args = serve_args(Some("aiim"), vec!["notion"], None, 75);
    let copy = args.clone();
    assert_eq!(copy.root, args.root);
    assert_eq!(copy.app_ids, args.app_ids);
    assert_eq!(copy.poll_ms, 75);
}
