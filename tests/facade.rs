use zed_php::extension::{
    check_adapter, language_server_for, unsupported_adapter_error, LanguageServer, PhpExtension,
};
use zed_php::platform::{phpactor_command, sanitize_path_for, Os};

fn s(v: &str) -> String {
    v.to_string()
}

#[test]
fn windows_path_loses_leading_separators_only() {
    assert_eq!(sanitize_path_for(Os::Windows, s("/C:/x/phpactor.phar")), "C:/x/phpactor.phar");
    assert_eq!(sanitize_path_for(Os::Windows, s("//C:/x")), "C:/x");
    assert_eq!(sanitize_path_for(Os::Linux, s("/C:/x")), "/C:/x");
    assert_eq!(sanitize_path_for(Os::Mac, s("/usr/x")), "/usr/x");
    for p in ["C:/x", "rel/a", ""] {
        assert_eq!(sanitize_path_for(Os::Windows, s(p)), sanitize_path_for(Os::Linux, s(p)));
    }
}

#[test]
fn phpactor_runs_through_php_on_windows() {
    let c = phpactor_command(Os::Windows, s("phpactor.phar"), Some(s("C:/php/php.exe")), s("/C:/b/phpactor.phar"))
        .unwrap();
    assert_eq!(c.command, "C:/php/php.exe");
    assert_eq!(c.args, vec![s("C:/b/phpactor.phar"), s("language-server")]);
    assert_eq!(
        phpactor_command(Os::Windows, s("p"), None, s("/a")).err(),
        Some(s("php not found"))
    );
    let c = phpactor_command(Os::Linux, s("/bin/phpactor"), None, s("/x")).unwrap();
    assert_eq!(c.command, "/bin/phpactor");
    assert_eq!(c.args, vec![s("language-server")]);
}

#[test]
fn language_servers_by_identity() {
    assert_eq!(language_server_for(&s("psalm")), Ok(LanguageServer::Psalm));
    assert_eq!(language_server_for(&s("phpactor")), Ok(LanguageServer::Phpactor));
    assert_eq!(language_server_for(&s("foo")), Err(s("unknown language server: foo")));
}

#[test]
fn only_xdebug_adapter_is_served() {
    assert_eq!(check_adapter("get_dap_binary", &s("Xdebug")), Ok(()));
    assert_eq!(
        check_adapter("dap_request_kind", &s("gdb")),
        Err(s("PHP extension does not support unknown adapter in `dap_request_kind`: gdb (supported: [Xdebug])"))
    );
}

#[test]
fn psalm_resolver_made_once() {
    let mut ext = PhpExtension::new();
    assert!(ext.psalm.is_none());
    ext.ensure_psalm();
    ext.ensure_psalm();
    assert!(ext.psalm.is_some());
    assert_eq!(ext.xdebug.current_version(), None);
}

#[test]
fn adapter_error_names_the_adapter_given() {
    assert_eq!(
        unsupported_adapter_error("get_dap_binary", &s("Xdebug")),
        "PHP extension does not support unknown adapter in `get_dap_binary`: Xdebug (supported: [Xdebug])"
    );
}

#[test]
fn workspace_configuration_only_for_made_psalm() {
    let mut ext = PhpExtension::new();
    assert!(!ext.serves_workspace_configuration(&s("psalm")));
    ext.ensure_psalm();
    assert!(ext.serves_workspace_configuration(&s("psalm")));
    assert!(!ext.serves_workspace_configuration(&s("phpactor")));
}
