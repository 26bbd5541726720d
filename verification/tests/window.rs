use speedtest::progress_bar::large_font_size;
use speedtest::provider::{TestInfo, TestResultInfo};
use speedtest::window::{DetailRow, Gauge, WindowEvent, WindowState};

fn info(isp: &str, name: &str, country: &str, location: &str, ip: &str) -> TestInfo {
    TestInfo {
        isp: isp.to_string(),
        external_ip: ip.to_string(),
        host: "host.example.net".to_string(),
        name: name.to_string(),
        location: location.to_string(),
        country: country.to_string(),
    }
}

fn finished(down: i32, up: i32, url: Option<&str>) -> WindowEvent {
    WindowEvent::Finished(TestResultInfo {
        download_bandwidth: down,
        upload_bandwidth: up,
        result_url: url.map(|u| u.to_string()),
    })
}

fn row_texts(w: &WindowState) -> Vec<String> {
    w.rows()
        .iter()
        .map(|r| match r {
            DetailRow::Location(s) => format!("location:{}", s),
            DetailRow::PublicIp(s) => format!("ip:{}", s),
            DetailRow::ResultUrl => "result".to_string(),
        })
        .collect()
}

#[test]
fn window_as_built() {
    let w = WindowState::new();
    assert!(w.start_enabled());
    assert_eq!(w.isp(), "");
    assert_eq!(w.server(), "");
    assert_eq!(w.download_bandwidth(), 0);
    assert_eq!(w.upload_bandwidth(), 0);
    assert_eq!(w.gauge(), Gauge::Blank);
    assert!(!w.details_revealed());
    assert!(w.rows().is_empty());
    assert_eq!(w.result_url(), None);
}

#[test]
fn test_start_fills_in_the_server() {
    let mut w = WindowState::new();
    w.apply(WindowEvent::TestStarted(info("Example ISP", "Example", "Germany", "Berlin", "203.0.113.7")));
    assert!(!w.start_enabled());
    assert_eq!(w.isp(), "Example ISP");
    assert_eq!(w.server(), "Example");
    assert_eq!(w.gauge(), Gauge::Cleared);
    assert!(!w.details_revealed());
    assert_eq!(row_texts(&w), vec!["location:Germany, Berlin", "ip:203.0.113.7"]);
}

#[test]
fn progress_updates_its_label_and_the_gauge() {
    let mut w = WindowState::new();
    w.apply(WindowEvent::TestStarted(info("I", "S", "C", "L", "1.2.3.4")));
    w.apply(WindowEvent::Download { bandwidth: 12_500_000 });
    assert_eq!(w.download_bandwidth(), 12_500_000);
    assert_eq!(w.upload_bandwidth(), 0);
    assert_eq!(w.gauge(), Gauge::Measuring(12_500_000));
    assert!(!w.start_enabled());
    w.apply(WindowEvent::Upload { bandwidth: 2_500_000 });
    assert_eq!(w.download_bandwidth(), 12_500_000);
    assert_eq!(w.upload_bandwidth(), 2_500_000);
    assert_eq!(w.gauge(), Gauge::Measuring(2_500_000));
    assert!(!w.start_enabled());
    assert_eq!(w.isp(), "I");
}

#[test]
fn finish_reveals_the_result() {
    let mut w = WindowState::new();
    w.apply(WindowEvent::TestStarted(info("I", "S", "C", "L", "1.2.3.4")));
    w.apply(WindowEvent::Download { bandwidth: 100 });
    w.apply(finished(11_000_000, 3_000_000, Some("https://www.speedtest.net/result/c/abc")));
    assert!(w.start_enabled());
    assert!(w.details_revealed());
    assert_eq!(w.download_bandwidth(), 11_000_000);
    assert_eq!(w.upload_bandwidth(), 3_000_000);
    assert_eq!(w.gauge(), Gauge::Finished);
    assert_eq!(w.result_url(), Some("https://www.speedtest.net/result/c/abc"));
    assert_eq!(row_texts(&w), vec!["location:C, L", "ip:1.2.3.4", "result"]);
}

#[test]
fn finish_without_address_adds_no_result_row() {
    let mut w = WindowState::new();
    w.apply(WindowEvent::TestStarted(info("I", "S", "C", "L", "1.2.3.4")));
    w.apply(finished(1, 2, None));
    assert_eq!(w.result_url(), None);
    assert_eq!(row_texts(&w), vec!["location:C, L", "ip:1.2.3.4"]);
    assert!(w.details_revealed());
}

#[test]
fn new_test_clears_the_previous_result() {
    let mut w = WindowState::new();
    w.apply(WindowEvent::TestStarted(info("I", "S", "C", "L", "1.2.3.4")));
    w.apply(finished(10, 20, Some("u1")));
    w.apply(WindowEvent::TestStarted(info("J", "T", "D", "M", "5.6.7.8")));
    assert!(!w.start_enabled());
    assert!(!w.details_revealed());
    assert_eq!(w.download_bandwidth(), 0);
    assert_eq!(w.upload_bandwidth(), 0);
    assert_eq!(w.gauge(), Gauge::Cleared);
    assert_eq!(w.isp(), "J");
    assert_eq!(w.server(), "T");
    // the earlier test's rows stay; only the result row is taken out
    assert_eq!(
        row_texts(&w),
        vec!["location:C, L", "ip:1.2.3.4", "location:D, M", "ip:5.6.7.8"]
    );
    // the result row keeps its last address until a new one arrives
    assert_eq!(w.result_url(), Some("u1"));
    w.apply(finished(30, 40, Some("u2")));
    assert_eq!(w.result_url(), Some("u2"));
    assert_eq!(
        row_texts(&w),
        vec!["location:C, L", "ip:1.2.3.4", "location:D, M", "ip:5.6.7.8", "result"]
    );
}

#[test]
fn result_row_is_listed_once() {
    let mut w = WindowState::new();
    w.apply(finished(1, 2, Some("a")));
    w.apply(finished(3, 4, Some("b")));
    assert_eq!(row_texts(&w), vec!["result"]);
    assert_eq!(w.result_url(), Some("b"));
}

#[test]
fn large_caption_font_sizes() {
    assert_eq!(large_font_size(0), 56);
    assert_eq!(large_font_size(1), 56);
    assert_eq!(large_font_size(3), 56);
    assert_eq!(large_font_size(4), 40);
    assert_eq!(large_font_size(5), 36);
    assert_eq!(large_font_size(9), 20);
    assert_eq!(large_font_size(10), 16);
    assert_eq!(large_font_size(11), 16);
    assert_eq!(large_font_size(usize::MAX), 16);
}

#[test]
fn large_caption_font_never_grows() {
    let mut prev = large_font_size(0);
    for len in 0..64 {
        let size = large_font_size(len);
        assert!(size <= prev);
        assert!((16..=56).contains(&size));
        prev = size;
    }
}
