use serena_context_server::command::{
    error_message, prepare_launch, sanitize_windows_path, synthesize_command, LaunchError, Os,
};
use serena_context_server::discovery::{
    discovery_failure_message, discovery_start, discovery_step, fallback_candidates,
    which_candidates, DiscoveryEvent, DiscoveryState,
};
use serena_context_server::paths::validate_python_path;
use serena_context_server::version::is_valid_python_version;
use serena_context_server::SerenaContextServerExtension;
use serena_context_server::PACKAGE_NAME;

#[test]
fn test_validate_python_path() {
    // Valid paths
    assert!(validate_python_path("/usr/bin/python3.11"));
    assert!(validate_python_path("/opt/homebrew/bin/python3.12"));
    assert!(validate_python_path("python3.11"));
    assert!(validate_python_path("python3.12"));
    assert!(validate_python_path("python"));

    // Invalid paths
    assert!(!validate_python_path(""));
    assert!(!validate_python_path("path\0with\0null"));
    assert!(!validate_python_path(&"x".repeat(1001))); // Too long
    assert!(!validate_python_path("/etc/../passwd")); // Path traversal
    assert!(!validate_python_path("//malicious//path")); // Double slashes
    assert!(!validate_python_path("malicious-executable")); // Suspicious name
}

#[test]
fn test_is_valid_python_version() {
    // Valid Python 3.11 versions (system needs 3.11 OR 3.12, not both)
    assert!(is_valid_python_version("Python 3.11.0"));
    assert!(is_valid_python_version("Python 3.11.5"));
    assert!(is_valid_python_version("Python 3.11 (default, Oct  5 2023)"));
    assert!(is_valid_python_version("Python 3.11"));
    assert!(is_valid_python_version("  Python 3.11.7  ")); // With whitespace

    // Valid Python 3.12 versions
    assert!(is_valid_python_version("Python 3.12.0"));
    assert!(is_valid_python_version("Python 3.12.1"));
    assert!(is_valid_python_version("Python 3.12 (main, Dec  7 2023)"));

    // Invalid versions - should NOT match
    assert!(!is_valid_python_version("Python 3.10.0"));
    assert!(!is_valid_python_version("Python 3.13.0"));
    assert!(!is_valid_python_version("Python 2.7.0"));
    assert!(!is_valid_python_version("Python 3.9.0"));
    assert!(!is_valid_python_version("Python 3.110.0")); // Edge case - should not match
    assert!(!is_valid_python_version("Python 3.120.0")); // Edge case - should not match
    assert!(!is_valid_python_version("Some Python 3.11.0 thing")); // Doesn't start with "Python 3.11"
}

#[test]
fn test_extension_initialization() {
    let _extension = SerenaContextServerExtension::new();
    // Extension should initialize without panicking
}

#[test]
fn test_package_name_constant() {
    assert_eq!(PACKAGE_NAME, "serena-agent");
}

#[test]
fn test_path_length_boundary() {
    // 999 characters of a name that mentions python is still acceptable;
    // 1000 is not.
    let mut long_ok = "python".to_string();
    long_ok.push_str(&"x".repeat(993));
    assert_eq!(long_ok.chars().count(), 999);
    assert!(validate_python_path(&long_ok));
    long_ok.push('x');
    assert!(!validate_python_path(&long_ok));
}

#[test]
fn test_traversal_rejected_despite_python() {
    assert!(!validate_python_path("/usr/bin/../python3.11"));
    assert!(!validate_python_path("//python"));
    assert!(!validate_python_path("python/.."));
}

#[test]
fn test_version_prefix_plus_boundary_rule() {
    assert!(is_valid_python_version("Python 3.11.7"));
    assert!(is_valid_python_version("Python 3.12 (main, build info)"));
    assert!(!is_valid_python_version("Python 3.110.0"));
    assert!(!is_valid_python_version("Python 3.9.0"));
    assert!(!is_valid_python_version("Python 3.13.0"));
}

#[test]
fn test_version_boundary_characters() {
    // A dot or white space may follow the accepted prefix; anything else
    // must not match.
    assert!(is_valid_python_version("Python 3.11\t(tagged)"));
    assert!(!is_valid_python_version("Python 3.11a"));
    assert!(!is_valid_python_version("Python 3.115"));
    assert!(!is_valid_python_version(""));
    assert!(!is_valid_python_version("   "));
}

#[test]
fn test_override_used_verbatim() {
    // A path that would fail discovery's own validation is still used when
    // it arrives as an explicit override.
    assert!(!validate_python_path("/custom/tool"));
    let cmd = synthesize_command("/custom/tool", Os::Linux, false, vec![]).unwrap();
    assert_eq!(cmd.command, "/custom/tool");
    assert_eq!(cmd.args, vec!["-m", "serena", "start-mcp-server"]);

    let cmd = synthesize_command("/custom/python", Os::Linux, false, vec![]).unwrap();
    assert_eq!(cmd.command, "/custom/python");
}

#[test]
fn test_launcher_strategy() {
    // Companion launcher present: the artifact is the executable and the
    // sole argument is the server-start token.
    let cmd = synthesize_command("/usr/bin/python3.11", Os::Linux, true, vec![]).unwrap();
    assert_eq!(cmd.command, "/usr/bin/serena");
    assert_eq!(cmd.args, vec!["start-mcp-server"]);

    // Companion launcher absent: module invocation through the interpreter.
    let cmd = synthesize_command("/usr/bin/python3.11", Os::Linux, false, vec![]).unwrap();
    assert_eq!(cmd.command, "/usr/bin/python3.11");
    assert_eq!(cmd.args, vec!["-m", "serena", "start-mcp-server"]);
}

#[test]
fn test_prepare_launch_script_paths() {
    let (sanitized, script) = prepare_launch("/opt/homebrew/bin/python3.12", Os::Linux).unwrap();
    assert_eq!(sanitized, "/opt/homebrew/bin/python3.12");
    assert_eq!(script, "/opt/homebrew/bin/serena");

    // A bare interpreter name has no directory part: the companion artifact
    // is probed under its bare name too.
    let (sanitized, script) = prepare_launch("python3.11", Os::Linux).unwrap();
    assert_eq!(sanitized, "python3.11");
    assert_eq!(script, "serena");
}

#[test]
fn test_synthesis_idempotent() {
    let env = vec![
        ("SERENA_LOG_LEVEL".to_string(), "debug".to_string()),
        ("A".to_string(), "1".to_string()),
    ];
    let a = synthesize_command("/usr/bin/python3.12", Os::Mac, false, env.clone()).unwrap();
    let b = synthesize_command("/usr/bin/python3.12", Os::Mac, false, env.clone()).unwrap();
    assert_eq!(a.command, b.command);
    assert_eq!(a.args, b.args);
    assert_eq!(a.env, b.env);
}

#[test]
fn test_env_passthrough_preserves_order_and_duplicates() {
    let env = vec![
        ("B".to_string(), "2".to_string()),
        ("A".to_string(), "1".to_string()),
        ("B".to_string(), "3".to_string()),
    ];
    let cmd = synthesize_command("/usr/bin/python3.11", Os::Linux, false, env.clone()).unwrap();
    assert_eq!(cmd.env, env);
}

#[test]
fn test_discovery_end_to_end() {
    // No override; the environment has python3.12 on the search path
    // reporting Python 3.12.1; no companion launcher artifact present.
    let s = discovery_start();
    assert!(matches!(s, DiscoveryState::ResolveName { index: 0 }));
    let s = discovery_step(
        s,
        DiscoveryEvent::WhichOutcome {
            resolved: Some("/usr/bin/python3.12".to_string()),
        },
    );
    assert!(matches!(s, DiscoveryState::ProbeResolved { .. }));
    let s = discovery_step(
        s,
        DiscoveryEvent::VersionOutcome {
            output: Some("Python 3.12.1".to_string()),
        },
    );
    let path = match s {
        DiscoveryState::Accepted { path } => path,
        _ => panic!("expected an accepted candidate"),
    };
    assert_eq!(path, "/usr/bin/python3.12");

    let cmd = synthesize_command(&path, Os::Linux, false, vec![]).unwrap();
    assert_eq!(cmd.command, "/usr/bin/python3.12");
    assert_eq!(cmd.args, vec!["-m", "serena", "start-mcp-server"]);
    assert!(cmd.env.is_empty());
}

#[test]
fn test_discovery_rejects_bad_resolution_and_version() {
    // A resolved path that fails validation is skipped without probing.
    let s = discovery_start();
    let s = discovery_step(
        s,
        DiscoveryEvent::WhichOutcome {
            resolved: Some("//bad//path".to_string()),
        },
    );
    assert!(matches!(s, DiscoveryState::ResolveName { index: 1 }));
    // A probe reporting the wrong version rejects its candidate.
    let s = discovery_step(
        s,
        DiscoveryEvent::WhichOutcome {
            resolved: Some("/usr/bin/python3.13".to_string()),
        },
    );
    assert!(matches!(s, DiscoveryState::ProbeResolved { .. }));
    let s = discovery_step(
        s,
        DiscoveryEvent::VersionOutcome {
            output: Some("Python 3.13.0".to_string()),
        },
    );
    // Both search-path names are exhausted: the first fallback candidate is
    // probed next.
    assert!(matches!(s, DiscoveryState::ProbeFallback { index: 0 }));
}

#[test]
fn test_discovery_fallback_acceptance() {
    let s = discovery_start();
    let s = discovery_step(s, DiscoveryEvent::WhichOutcome { resolved: None });
    let s = discovery_step(s, DiscoveryEvent::WhichOutcome { resolved: None });
    assert!(matches!(s, DiscoveryState::ProbeFallback { index: 0 }));
    let s = discovery_step(
        s,
        DiscoveryEvent::VersionOutcome {
            output: Some("Python 3.11.0".to_string()),
        },
    );
    match s {
        DiscoveryState::Accepted { path } => assert_eq!(path, "/opt/homebrew/bin/python3.11"),
        _ => panic!("expected an accepted candidate"),
    }
}

#[test]
fn test_discovery_exhaustion_and_message() {
    let mut s = discovery_start();
    s = discovery_step(s, DiscoveryEvent::WhichOutcome { resolved: None });
    s = discovery_step(s, DiscoveryEvent::WhichOutcome { resolved: None });
    for _ in 0..8 {
        assert!(matches!(s, DiscoveryState::ProbeFallback { .. }));
        s = discovery_step(s, DiscoveryEvent::VersionOutcome { output: None });
    }
    assert!(matches!(s, DiscoveryState::Failed));

    let expected = "Python 3.11 or 3.12 not found in any of these locations: \
/opt/homebrew/bin/python3.11, /opt/homebrew/bin/python3.12, /usr/local/bin/python3.11, \
/usr/local/bin/python3.12, python3.11, python3.12, python3, python. \n\n\
Serena requires Python 3.11 OR 3.12 (either version works).\n\n\
To fix this issue:\n\
1. Install Python 3.11: brew install python@3.11\n\
2. Or install Python 3.12: brew install python@3.12  \n\
3. Or specify custom path in Zed settings: {\"python_executable\": \"/path/to/python3.11\"}";
    assert_eq!(discovery_failure_message(), expected);
    assert_eq!(error_message(&LaunchError::DiscoveryFailure), expected);
}

#[test]
fn test_candidate_lists() {
    assert_eq!(which_candidates(), vec!["python3.12", "python3.11"]);
    assert_eq!(
        fallback_candidates(),
        vec![
            "/opt/homebrew/bin/python3.11",
            "/opt/homebrew/bin/python3.12",
            "/usr/local/bin/python3.11",
            "/usr/local/bin/python3.12",
            "python3.11",
            "python3.12",
            "python3",
            "python",
        ]
    );
}

#[test]
fn test_empty_override_rejected() {
    match synthesize_command("", Os::Linux, false, vec![]) {
        Err(e) => assert_eq!(e, LaunchError::EmptyExecutable),
        Ok(_) => panic!("an empty override must not produce a command"),
    }
    assert_eq!(
        error_message(&LaunchError::EmptyExecutable),
        "Python executable path cannot be empty"
    );
}

#[test]
fn test_parentless_path_rejected() {
    match synthesize_command("/", Os::Linux, false, vec![]) {
        Err(e) => assert_eq!(e, LaunchError::PathResolution),
        Ok(_) => panic!("a parentless path must not produce a command"),
    }
    // On Windows the sanitizer can strip the path down to nothing first.
    match synthesize_command("///", Os::Windows, false, vec![]) {
        Err(e) => assert_eq!(e, LaunchError::PathResolution),
        Ok(_) => panic!("a parentless path must not produce a command"),
    }
    assert_eq!(
        error_message(&LaunchError::PathResolution),
        "Could not determine Python directory"
    );
}

#[test]
fn test_sanitize_windows_path() {
    assert_eq!(
        sanitize_windows_path("/C:/py/python.exe".to_string(), Os::Windows),
        "C:/py/python.exe"
    );
    assert_eq!(
        sanitize_windows_path("//C:/py/python.exe".to_string(), Os::Windows),
        "C:/py/python.exe"
    );
    assert_eq!(
        sanitize_windows_path("C:/py/python.exe".to_string(), Os::Windows),
        "C:/py/python.exe"
    );
    assert_eq!(
        sanitize_windows_path("/usr/bin/python3.11".to_string(), Os::Linux),
        "/usr/bin/python3.11"
    );
    assert_eq!(
        sanitize_windows_path("/usr/bin/python3.11".to_string(), Os::Mac),
        "/usr/bin/python3.11"
    );
}
