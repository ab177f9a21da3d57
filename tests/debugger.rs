use zed_php::xdebug::{
    asset_name_for, highest_cached_version, release_outcome, select_release_asset, version_directory_for, AttachRequest,
    ConfigValue, DebugConfig, DebugRequest, LaunchRequest, Release, ReleaseAsset, RequestKind, VersionAction,
    XDebug,
};

fn s(v: &str) -> String {
    v.to_string()
}

fn asset(name: &str, url: &str) -> ReleaseAsset {
    ReleaseAsset { name: s(name), download_url: s(url) }
}

#[test]
fn asset_name_drops_leading_v() {
    assert_eq!(asset_name_for("v1.35.0"), "php-debug-1.35.0.vsix");
    assert_eq!(asset_name_for("1.35.0"), "php-debug-1.35.0.vsix");
}

#[test]
fn release_asset_is_the_first_with_the_name() {
    let release = Release {
        version: s("v1.2.0"),
        assets: vec![
            asset("other.zip", "u0"),
            asset("php-debug-1.2.0.vsix", "u1"),
            asset("php-debug-1.2.0.vsix", "u2"),
        ],
    };
    let (a, v) = select_release_asset(release).unwrap();
    assert_eq!(v, "v1.2.0");
    assert_eq!(a.download_url, "u1");
}

#[test]
fn release_without_matching_asset_fails() {
    let release = Release { version: s("v2.0.0"), assets: vec![asset("php-debug-1.0.0.vsix", "u")] };
    match select_release_asset(release) {
        Err(e) => assert_eq!(e, "no asset found matching \"php-debug-2.0.0.vsix\""),
        Ok(_) => panic!("expected an error"),
    }
}

#[test]
fn highest_cached_version_wins() {
    let entries = vec![s("Xdebug_1.2.0"), s("junk"), s("Xdebug_1.3.0")];
    assert_eq!(highest_cached_version(&entries), Some(s("1.3.0")));
    let entries = vec![s("Xdebug_1.3.0"), s("Xdebug_1.2.0")];
    assert_eq!(highest_cached_version(&entries), Some(s("1.3.0")));
    assert_eq!(highest_cached_version(&vec![s("other")]), None);
    assert_eq!(highest_cached_version(&vec![]), None);
}

#[test]
fn fallback_commits_highest_cached_version() {
    let mut x = XDebug::new();
    assert!(matches!(x.plan_version(Err(s("offline"))), VersionAction::ScanCache { .. }));
    x.commit_highest_cached(&vec![s("Xdebug_1.2.0"), s("Xdebug_1.3.0")]);
    assert_eq!(x.current_version(), Some(s("1.3.0")));
}

#[test]
fn version_is_committed_once() {
    let mut x = XDebug::new();
    assert_eq!(x.current_version(), None);
    x.commit_version(s("1.2.0"));
    x.commit_version(s("1.3.0"));
    x.commit_highest_cached(&vec![s("Xdebug_9.9.9")]);
    assert_eq!(x.current_version(), Some(s("1.2.0")));
    assert!(matches!(x.plan_version(Err(s("e"))), VersionAction::Ready));
}

#[test]
fn install_plan_names_versioned_directory() {
    let x = XDebug::new();
    match x.plan_version(Ok((asset("php-debug-1.3.0.vsix", "https://h/a.vsix"), s("v1.3.0")))) {
        VersionAction::Install { version, download_url, cache_root, output_dir } => {
            assert_eq!(version, "v1.3.0");
            assert_eq!(download_url, "https://h/a.vsix");
            assert_eq!(cache_root, "Xdebug");
            assert_eq!(output_dir, "Xdebug/Xdebug_v1.3.0");
        }
        _ => panic!("expected an install"),
    }
    assert_eq!(version_directory_for("1.0"), "Xdebug/Xdebug_1.0");
}

#[test]
fn adapter_directory_sources() {
    let mut x = XDebug::new();
    assert_eq!(
        x.adapter_directory(None, &s("/work")),
        Err(s("no installed version of Xdebug found"))
    );
    assert_eq!(x.adapter_directory(Some(s("/mine")), &s("/work")), Ok(s("/mine")));
    x.commit_version(s("1.3.0"));
    assert_eq!(x.adapter_directory(None, &s("/work")), Ok(s("/work/Xdebug/Xdebug_1.3.0")));
}

#[test]
fn request_kind_accepts_launch_only() {
    let x = XDebug::new();
    assert_eq!(x.dap_request_kind(Some(s("launch"))), Ok(RequestKind::Launch));
    assert_eq!(x.dap_request_kind(Some(s("attach"))), Err(s("Invalid config")));
    assert_eq!(x.dap_request_kind(None), Err(s("Invalid config")));
}

#[test]
fn installed_binary_arguments() {
    let x = XDebug::new();
    let l = x.get_installed_binary(&s("/a/Xdebug_1.3.0"), 8123, Some(s("launch"))).unwrap();
    assert_eq!(l.request, RequestKind::Launch);
    assert_eq!(l.args, vec![s("/a/Xdebug_1.3.0/extension/out/phpDebug.js"), s("--server=8123")]);
    assert!(x.get_installed_binary(&s("/a"), 1, Some(s("attach"))).is_err());
}

#[test]
fn attach_is_refused() {
    let x = XDebug::new();
    let config = DebugConfig {
        label: s("l"),
        adapter: s("Xdebug"),
        request: DebugRequest::Attach(AttachRequest { process_id: Some(7) }),
        stop_on_entry: Some(true),
    };
    match x.dap_config_to_scenario(config) {
        Err(e) => assert_eq!(e, "Php adapter doesn't support attaching"),
        Ok(_) => panic!("attach must be refused"),
    }
}

#[test]
fn launch_keeps_fields_under_their_keys() {
    let x = XDebug::new();
    let config = DebugConfig {
        label: s("Run app"),
        adapter: s("Xdebug"),
        request: DebugRequest::Launch(LaunchRequest {
            program: s("app.php"),
            cwd: Some(s("/proj")),
            args: vec![s("--flag")],
            envs: vec![(s("A"), s("1"))],
        }),
        stop_on_entry: Some(true),
    };
    let sc = x.dap_config_to_scenario(config).unwrap();
    assert_eq!(sc.adapter, "Xdebug");
    assert_eq!(sc.label, "Run app");
    let keys: Vec<&str> = sc.config.iter().map(|(k, _)| k.as_str()).collect();
    assert_eq!(keys, vec!["program", "cwd", "args", "env", "stopOnEntry"]);
    assert!(matches!(&sc.config[0].1, ConfigValue::Text(p) if p == "app.php"));
    assert!(matches!(&sc.config[1].1, ConfigValue::Text(c) if c == "/proj"));
    assert!(matches!(&sc.config[2].1, ConfigValue::List(a) if *a == vec![s("--flag")]));
    assert!(matches!(&sc.config[3].1, ConfigValue::Object(e) if *e == vec![(s("A"), s("1"))]));
    assert!(matches!(&sc.config[4].1, ConfigValue::Bool(true)));
}

#[test]
fn launch_defaults() {
    let x = XDebug::new();
    let config = DebugConfig {
        label: s("l"),
        adapter: s("Xdebug"),
        request: DebugRequest::Launch(LaunchRequest { program: s("a.php"), cwd: None, args: vec![], envs: vec![] }),
        stop_on_entry: None,
    };
    let sc = x.dap_config_to_scenario(config).unwrap();
    assert!(matches!(&sc.config[1].1, ConfigValue::Null));
    assert!(matches!(&sc.config[4].1, ConfigValue::Bool(false)));
}

#[test]
fn release_query_error_comes_back_unchanged() {
    assert!(matches!(release_outcome(Err(s("rate limited"))), Err(e) if e == "rate limited"));
    let release = Release { version: s("1.0.0"), assets: vec![asset("php-debug-1.0.0.vsix", "u")] };
    let (a, v) = release_outcome(Ok(release)).unwrap();
    assert_eq!((a.name.as_str(), v.as_str()), ("php-debug-1.0.0.vsix", "1.0.0"));
}
