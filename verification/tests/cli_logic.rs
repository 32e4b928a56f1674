use aether::capabilities::{CPUArchitecture, TaskCapabilities};
use aether::client::{
    bearer, cancel_url, check_task_path, encode_task_file, expect_status, login_url, submission_request,
    task_url, tasks_url, PathStatus,
};
use aether::commands::{SupportedArchs, SupportedPriorities};
use aether::config::{AetherConfig, BrokerProfile};
use aether::error::CliError;
use aether::task::TaskPriority;
use aether::tui::{Action, AppState, KeyCode, Mode, Panel, PanelDirection};
use aether::widgets::menu;
use aether::widgets::{MenuSection, ProfileContent, ProfileSection, ProfileSelectionPopup};
use aether::worker::decode_task_code;

fn parse_error(r: Result<(), CliError>) -> String {
    match r {
        Err(CliError::ParseTask(m)) => m,
        _ => panic!("expected a task file error"),
    }
}

#[test]
fn non_existant_file_returns_err() {
    // A path that does not exist cannot be made canonical.
    assert!(check_task_path(PathStatus::Unresolvable).is_err());
    assert_eq!(parse_error(check_task_path(PathStatus::Unresolvable)), "Could not canonicalize provided path.");
}

#[test]
fn non_python_file_returns_err() {
    let r = check_task_path(PathStatus::Present { extension: Some("toml".to_string()) });
    assert!(r.is_err());
    assert_eq!(parse_error(r), "Task file must be a python file!");
}

#[test]
fn encode_correct_file_in_base_64() {
    // A temporary file named with the prefix "py" has no extension at all.
    assert!(check_task_path(PathStatus::Present { extension: None }).is_ok());
    let res = encode_task_file(Some("import time; time.sleep(30)\n".to_string()));
    assert!(res.is_ok());
    assert_eq!(res.unwrap(), "aW1wb3J0IHRpbWU7IHRpbWUuc2xlZXAoMzApCg==");
}

#[test]
fn task_file_errors() {
    assert!(check_task_path(PathStatus::Present { extension: Some("py".to_string()) }).is_ok());
    assert_eq!(parse_error(check_task_path(PathStatus::Unknown)), "Path does not exist.");
    assert_eq!(parse_error(check_task_path(PathStatus::Missing)), "The provided file path must exist!");
    match encode_task_file(None) {
        Err(CliError::ParseTask(m)) => assert_eq!(m, "Could not read file contents."),
        _ => panic!("expected a read error"),
    }
}

#[test]
fn submitted_code_reaches_the_worker_unchanged() {
    let text = "print('héllo')\n";
    let field = encode_task_file(Some(text.to_string())).unwrap();
    assert_eq!(decode_task_code(&field), Some(text.to_string()));
}

#[test]
fn submission_maps_choices() {
    let r = submission_request("job", "Y29kZQ==", SupportedPriorities::Low, true, SupportedArchs::Aarch64);
    assert_eq!(r.name, "job");
    assert_eq!(r.code_b64, "Y29kZQ==");
    assert_eq!(r.priority, TaskPriority::Low);
    assert_eq!(r.capabilities, Some(TaskCapabilities { gpu: true, arch: CPUArchitecture::Aarch64 }));
    let p: TaskPriority = SupportedPriorities::High.into();
    assert_eq!(p, TaskPriority::High);
    let a: CPUArchitecture = SupportedArchs::Any.into();
    assert_eq!(a, CPUArchitecture::Any);
}

#[test]
fn urls_and_headers() {
    assert_eq!(tasks_url("127.0.0.1", 8080), "http://127.0.0.1:8080/api/v1/tasks");
    assert_eq!(task_url("h", 1, "abc"), "http://h:1/api/v1/tasks/abc");
    assert_eq!(cancel_url("h", 80, "abc"), "http://h:80/api/v1/tasks/abc/cancel");
    assert_eq!(login_url("10.0.0.2", 0), "http://10.0.0.2:0/api/v1/auth/login");
    assert_eq!(bearer("tok"), "Bearer tok");
}

#[test]
fn unexpected_status_is_an_error() {
    assert!(expect_status(201, 201).is_ok());
    assert!(matches!(expect_status(404, 200), Err(CliError::UnexpectedStatusCode(404))));
}

fn config_with(name: &str, active: Option<&str>) -> AetherConfig {
    let mut cfg = AetherConfig::empty();
    cfg.profiles.insert(name.to_string(), BrokerProfile::new("127.0.0.1", 8080, "fake-jwt"));
    cfg.active = active.map(|a| a.to_string());
    cfg
}

#[test]
fn profile_new_keeps_fields() {
    let p = BrokerProfile::new("127.0.0.1", 8080, "fake-jwt");
    assert_eq!(p.broker_ip, "127.0.0.1");
    assert_eq!(p.broker_api_port, 8080);
    assert_eq!(p.token, Some("fake-jwt".to_string()));
}

#[test]
fn resolve_prefers_command_line() {
    let p = BrokerProfile::resolve(Some("1.2.3.4".to_string()), Some(9), Some("t".to_string()), || {
        panic!("the configuration is not read")
    })
    .unwrap();
    assert_eq!(p.broker_ip, "1.2.3.4");
    assert_eq!(p.broker_api_port, 9);
    assert_eq!(p.token, Some("t".to_string()));
}

#[test]
fn resolve_falls_back_to_active_profile() {
    let p = BrokerProfile::resolve(Some("1.2.3.4".to_string()), None, None, || {
        Ok(config_with("sample_server", Some("sample_server")))
    })
    .unwrap();
    assert_eq!(p.broker_ip, "127.0.0.1");
    assert_eq!(p.broker_api_port, 8080);

    let none_active = BrokerProfile::resolve(None, None, None, || Ok(config_with("s", None)));
    match none_active {
        Err(CliError::BrokerProfileResolveError(m)) => assert_eq!(m, "There's no active default profile."),
        _ => panic!("expected a resolve error"),
    }
    let dangling = BrokerProfile::resolve(None, None, None, || Ok(config_with("s", Some("other"))));
    match dangling {
        Err(CliError::BrokerProfileResolveError(m)) => {
            assert_eq!(m, "Could not get active profile for unexpected reasons.")
        }
        _ => panic!("expected a resolve error"),
    }
    let unreadable = BrokerProfile::resolve(None, None, None, || Err(CliError::InvalidHomeDir));
    assert!(matches!(unreadable, Err(CliError::InvalidHomeDir)));
}

#[test]
fn tui_keys() {
    let mut s = AppState::new(AetherConfig::empty());
    assert!(s.current_panel == Panel::Menu);
    s.handle_key_event(KeyCode::Up, false);
    assert!(s.current_panel == Panel::Menu);
    s.handle_key_event(KeyCode::Up, true);
    assert!(s.current_panel == Panel::Profile);
    s.handle_key_event(KeyCode::Enter, false);
    assert!(s.action == Action::ProfileSelection);
    s.handle_key_event(KeyCode::Left, true);
    assert!(s.current_panel == Panel::Profile);
    s.handle_key_event(KeyCode::Esc, false);
    assert!(s.current_panel == Panel::NoPanel);
    assert!(s.action == Action::NoAction);
    assert!(s.mode == Mode::Default);
    s.handle_key_event(KeyCode::Enter, false);
    assert!(s.action == Action::NoAction);
    s.handle_key_event(KeyCode::Down, true);
    assert!(s.current_panel == Panel::Menu);
    s.handle_key_event(KeyCode::Char('q'), false);
    assert!(!s.should_quit);
    s.handle_key_event(KeyCode::Char('q'), true);
    assert!(s.should_quit);
    s.handle_panel_changes(PanelDirection::Up);
    assert!(s.current_panel == Panel::Profile);
}

#[test]
fn widgets_show_the_active_profile() {
    let cfg = config_with("sample_server", Some("sample_server"));
    let section = ProfileSection::new(&cfg, true);
    assert!(section.active());
    match section.content() {
        ProfileContent::Details { name, broker_ip, broker_port } => {
            assert_eq!(name, "sample_server");
            assert_eq!(broker_ip, "127.0.0.1");
            assert_eq!(broker_port, "8080");
        }
        ProfileContent::NoActiveProfile => panic!("expected details"),
    }
    let none = config_with("s", None);
    assert!(matches!(ProfileSection::new(&none, false).content(), ProfileContent::NoActiveProfile));
    assert!(!MenuSection::new(false).active());
    assert!(menu::MenuSection::new(true).active());
}

#[test]
fn popup_measures_lines() {
    let empty = AetherConfig::empty();
    assert_eq!(ProfileSelectionPopup::new(&empty).max_line_len(), None);
    assert_eq!(ProfileSelectionPopup::new(&empty).num_profiles(), 0);
    let mut cfg = config_with("sample_server", None);
    cfg.profiles.insert("é".to_string(), BrokerProfile::new("10.0.0.1", 80, "x"));
    let popup = ProfileSelectionPopup::new(&cfg);
    // "sample_server: 127.0.0.1:8080" and "é: 10.0.0.1:80"
    assert_eq!(popup.max_line_len(), Some("sample_server: 127.0.0.1:8080".len()));
    assert_eq!(popup.num_profiles(), 2);
    let mut small = AetherConfig::empty();
    small.profiles.insert("é".to_string(), BrokerProfile::new("10.0.0.1", 80, "x"));
    assert_eq!(ProfileSelectionPopup::new(&small).max_line_len(), Some("é: 10.0.0.1:80".len()));
}

#[test]
fn readme_hello_task_is_encoded_as_shown() {
    let hello = "import time\nprint(\"Hello from Aether! 🚀\")\ntime.sleep(1)\nprint(\"Task completed successfully!\")\n";
    assert_eq!(
        encode_task_file(Some(hello.to_string())).unwrap(),
        "aW1wb3J0IHRpbWUKcHJpbnQoIkhlbGxvIGZyb20gQWV0aGVyISDwn5qAIikKdGltZS5zbGVlcCgxKQpwcmludCgiVGFzayBjb21wbGV0ZWQgc3VjY2Vzc2Z1bGx5ISIpCg=="
    );
}
