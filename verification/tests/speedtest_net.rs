use speedtest::provider::TestInfo;
use speedtest::providers::speedtest_net::{
    classify_line, cli_download_link, get_speedtest_cli_path, setup_step, speedtest_archive_path,
    speedtest_binary_path, speedtest_cli_args, speedtest_cli_installed, supported_arch, test_info,
    Interface, LineKind, ProviderError, ServerInfo, SetupStep, SpeedtestNetProvider, TestStartInfo,
};
use speedtest::utils::{app_data_dir, starts_with};

#[test]
fn classifies_each_message_type() {
    assert_eq!(classify_line("{\"type\":\"testStart\",\"timestamp\":\"t\"}"), LineKind::TestStart);
    assert_eq!(classify_line("{\"type\":\"download\",\"download\":{}}"), LineKind::Download);
    assert_eq!(classify_line("{\"type\":\"upload\",\"upload\":{}}"), LineKind::Upload);
    assert_eq!(classify_line("{\"type\":\"result\",\"result\":{}}"), LineKind::Result);
}

#[test]
fn ignores_untyped_and_unknown_lines() {
    assert_eq!(classify_line(""), LineKind::Ignored);
    assert_eq!(classify_line("Speedtest by Ookla"), LineKind::Ignored);
    assert_eq!(classify_line("{\"timestamp\":\"t\",\"type\":\"download\"}"), LineKind::Ignored);
    assert_eq!(classify_line("{\"type\":\"ping\",\"ping\":{}}"), LineKind::Ignored);
    assert_eq!(classify_line("{\"type\":\"log\"}"), LineKind::Ignored);
    assert_eq!(classify_line("{\"type"), LineKind::Ignored);
    assert_eq!(classify_line(" {\"type\":\"result\"}"), LineKind::Ignored);
    // the type must be followed by its closing quote
    assert_eq!(classify_line("{\"type\":\"downloads\"}"), LineKind::Ignored);
}

#[test]
fn classification_reads_only_the_prefix() {
    assert_eq!(classify_line("{\"type\":\"result\""), LineKind::Result);
    assert_eq!(classify_line("{\"type\":\"upload\"garbage"), LineKind::Upload);
    assert_eq!(classify_line("{\"type\":\"download\"é"), LineKind::Download);
}

#[test]
fn prefix_test_is_exact() {
    assert!(starts_with("abc", ""));
    assert!(starts_with("abc", "abc"));
    assert!(starts_with("abcd", "abc"));
    assert!(!starts_with("ab", "abc"));
    assert!(!starts_with("abd", "abc"));
    assert!(starts_with("éa", "é"));
}

#[test]
fn paths_are_built_under_the_data_directory() {
    let data = app_data_dir("/home/user");
    assert_eq!(data, "/home/user/.local/share/speedtest");
    let cli = get_speedtest_cli_path(&data);
    assert_eq!(cli, "/home/user/.local/share/speedtest/speedtest_net");
    assert_eq!(speedtest_binary_path(&cli), "/home/user/.local/share/speedtest/speedtest_net/speedtest");
    assert_eq!(speedtest_archive_path(&data), "/home/user/.local/share/speedtest/speedtest.tgz");
}

#[test]
fn download_link_names_the_architecture() {
    assert_eq!(supported_arch(), "x86_64");
    assert_eq!(
        cli_download_link(supported_arch()),
        "https://install.speedtest.net/app/cli/ookla-speedtest-1.2.0-linux-x86_64.tgz"
    );
    assert_eq!(
        cli_download_link("aarch64"),
        "https://install.speedtest.net/app/cli/ookla-speedtest-1.2.0-linux-aarch64.tgz"
    );
}

#[test]
fn tool_arguments() {
    assert_eq!(
        speedtest_cli_args(),
        vec!["--accept-license", "--accept-gdpr", "--format=json", "--progress=yes"]
    );
}

#[test]
fn cli_not_installed_in_missing_directory() {
    assert!(!speedtest_cli_installed("/nonexistent/speedtest-data-dir"));
}

#[test]
fn provider_identity() {
    let p = SpeedtestNetProvider::new();
    assert_eq!(p.get_name(), "speedtest.net");
    assert_eq!(p.get_website(), "https://speedtest.net/");
    assert_eq!(p.pid(), None);
}

#[test]
fn stop_without_test_is_refused() {
    let mut p = SpeedtestNetProvider::new();
    assert_eq!(p.stop_test(), Err(ProviderError::NoTestRunning));
    assert_eq!(ProviderError::NoTestRunning.message(), "No test running");
    assert_eq!(p.pid(), None);
}

#[test]
fn stop_after_launch_returns_the_process() {
    let mut p = SpeedtestNetProvider::new();
    assert_eq!(p.start_test(), Ok(()));
    p.test_launched(4242);
    assert_eq!(p.pid(), Some(4242));
    assert_eq!(p.start_test(), Err(ProviderError::TestAlreadyRunning));
    assert_eq!(ProviderError::TestAlreadyRunning.message(), "Test already running");
    assert_eq!(p.stop_test(), Ok(4242));
    assert_eq!(p.pid(), None);
    assert_eq!(p.stop_test(), Err(ProviderError::NoTestRunning));
    assert_eq!(p.start_test(), Ok(()));
}

#[test]
fn copies_of_a_provider_are_independent() {
    let mut p = SpeedtestNetProvider::new();
    let q = p;
    p.test_launched(7);
    assert_eq!(p.pid(), Some(7));
    assert_eq!(q.pid(), None);
}

#[test]
fn setup_steps() {
    assert_eq!(setup_step(true, true, false), SetupStep::Finish);
    assert_eq!(setup_step(true, false, false), SetupStep::Finish);
    assert_eq!(setup_step(false, false, false), SetupStep::Download);
    assert_eq!(setup_step(false, true, false), SetupStep::Extract);
    assert_eq!(setup_step(false, true, true), SetupStep::Extract);
    assert_eq!(setup_step(false, false, true), SetupStep::Finish);
    assert_eq!(setup_step(true, true, true), SetupStep::Extract);
}

#[test]
fn start_message_to_test_info() {
    let start = TestStartInfo {
        timestamp: "2024-01-01T00:00:00Z".to_string(),
        isp: "Example ISP".to_string(),
        interface: Interface { external_ip: "203.0.113.7".to_string() },
        server: ServerInfo {
            host: "speed.example.net".to_string(),
            name: "Example".to_string(),
            location: "Berlin".to_string(),
            country: "Germany".to_string(),
        },
    };
    let info: TestInfo = test_info(start);
    assert_eq!(info.isp, "Example ISP");
    assert_eq!(info.external_ip, "203.0.113.7");
    assert_eq!(info.host, "speed.example.net");
    assert_eq!(info.name, "Example");
    assert_eq!(info.location, "Berlin");
    assert_eq!(info.country, "Germany");
}
