use vstd::prelude::*;

use crate::provider::{TestInfo, TestResultInfo};

verus! {

/// What the circular gauge shows: its fill and its large caption.
#[derive(Debug, Clone, Copy, PartialEq, Eq, Structural)]
pub enum Gauge {
    /// The widget as built: empty fill, empty caption.
    Blank,
    /// Cleared for a new test: empty fill, caption `0.00`.
    Cleared,
    /// A measurement in progress at the given bandwidth (bytes per second):
    /// fill and caption follow that bandwidth.
    Measuring(i32),
    /// The test has finished: empty fill, caption `0`.
    Finished,
}

/// A row of the details list.
#[derive(Debug)]
pub enum DetailRow {
    /// "Country and location", with the subtitle `country, location`.
    Location(String),
    /// "Public IP address", with the address.
    PublicIp(String),
    /// "Result URL"; its subtitle is the window's current result address.
    ResultUrl,
}

/// A row of the details list, by its text.
pub enum RowView {
    Location(Seq<char>),
    PublicIp(Seq<char>),
    ResultUrl,
}

impl View for DetailRow {
    type V = RowView;

    open spec fn view(&self) -> RowView {
        match self {
            DetailRow::Location(s) => RowView::Location(s@),
            DetailRow::PublicIp(s) => RowView::PublicIp(s@),
            DetailRow::ResultUrl => RowView::ResultUrl,
        }
    }
}

/// The rows of a details list, by their text.
pub open spec fn row_views(rows: Seq<DetailRow>) -> Seq<RowView> {
    rows.map_values(|r: DetailRow| r@)
}

/// A message from a running test, as the window receives it.
pub enum WindowEvent {
    /// The test has started against a server.
    TestStarted(TestInfo),
    /// Download progress at the given bandwidth (bytes per second).
    Download { bandwidth: i32 },
    /// Upload progress at the given bandwidth (bytes per second).
    Upload { bandwidth: i32 },
    /// The test has finished.
    Finished(TestResultInfo),
}

/// Everything the main window shows.
pub struct WindowView {
    /// Whether the "start test" button can be pressed.
    pub start_enabled: bool,
    /// Subtitle of the provider row.
    pub isp: Seq<char>,
    /// Subtitle of the server row.
    pub server: Seq<char>,
    /// Bandwidth (bytes per second) shown by the download label.
    pub download_bandwidth: i32,
    /// Bandwidth (bytes per second) shown by the upload label.
    pub upload_bandwidth: i32,
    pub gauge: Gauge,
    /// Whether the details list is revealed.
    pub details_revealed: bool,
    /// The rows of the details list, in order.
    pub rows: Seq<RowView>,
    /// Subtitle of the result row, once a result address has arrived.
    pub result_url: Option<Seq<char>>,
}

/// The state of the main window.
pub struct WindowState {
    start_enabled: bool,
    isp: String,
    server: String,
    download_bandwidth: i32,
    upload_bandwidth: i32,
    gauge: Gauge,
    details_revealed: bool,
    rows: Vec<DetailRow>,
    result_url: Option<String>,
}

impl View for WindowState {
    type V = WindowView;

    closed spec fn view(&self) -> WindowView {
        WindowView {
            start_enabled: self.start_enabled,
            isp: self.isp@,
            server: self.server@,
            download_bandwidth: self.download_bandwidth,
            upload_bandwidth: self.upload_bandwidth,
            gauge: self.gauge,
            details_revealed: self.details_revealed,
            rows: row_views(self.rows@),
            result_url: match self.result_url {
                Some(u) => Some(u@),
                None => None,
            },
        }
    }
}

/// The details list without the result row.
pub open spec fn without_result_row(rows: Seq<RowView>) -> Seq<RowView> {
    rows.filter(|r: RowView| r != RowView::ResultUrl)
}

/// The subtitle of the location row for a started test.
pub open spec fn location_text(info: TestInfo) -> Seq<char> {
    info.country@ + ", "@ + info.location@
}

/// The window cleared for a new test: button enabled, details hidden,
/// subtitles empty, both labels at zero, gauge cleared, result row taken out
/// of the list. The location and address rows of earlier tests stay.
pub open spec fn cleared(v: WindowView) -> WindowView {
    WindowView {
        start_enabled: true,
        isp: Seq::empty(),
        server: Seq::empty(),
        download_bandwidth: 0,
        upload_bandwidth: 0,
        gauge: Gauge::Cleared,
        details_revealed: false,
        rows: without_result_row(v.rows),
        result_url: v.result_url,
    }
}

/// What the window shows after receiving `e`.
pub open spec fn next_view(v: WindowView, e: WindowEvent) -> WindowView {
    match e {
        WindowEvent::TestStarted(info) => {
            let c = cleared(v);
            WindowView {
                start_enabled: false,
                isp: info.isp@,
                server: info.name@,
                rows: c.rows + seq![
                    RowView::Location(location_text(info)),
                    RowView::PublicIp(info.external_ip@),
                ],
                ..c
            }
        },
        WindowEvent::Download { bandwidth } => WindowView {
            download_bandwidth: bandwidth,
            gauge: Gauge::Measuring(bandwidth),
            ..v
        },
        WindowEvent::Upload { bandwidth } => WindowView {
            upload_bandwidth: bandwidth,
            gauge: Gauge::Measuring(bandwidth),
            ..v
        },
        WindowEvent::Finished(result) => WindowView {
            start_enabled: true,
            download_bandwidth: result.download_bandwidth,
            upload_bandwidth: result.upload_bandwidth,
            gauge: Gauge::Finished,
            details_revealed: true,
            rows: match result.result_url {
                Some(_) => if v.rows.contains(RowView::ResultUrl) {
                    v.rows
                } else {
                    v.rows.push(RowView::ResultUrl)
                },
                None => v.rows,
            },
            result_url: match result.result_url {
                Some(u) => Some(u@),
                None => v.result_url,
            },
            ..v
        },
    }
}

/// The window as built, before any message.
pub open spec fn initial_view() -> WindowView {
    WindowView {
        start_enabled: true,
        isp: Seq::empty(),
        server: Seq::empty(),
        download_bandwidth: 0,
        upload_bandwidth: 0,
        gauge: Gauge::Blank,
        details_revealed: false,
        rows: Seq::empty(),
        result_url: None,
    }
}

/// The result row appears at most once in the details list, and only once a
/// result address is known.
pub open spec fn well_formed(v: WindowView) -> bool {
    &&& forall|i: int, j: int|
        0 <= i < j < v.rows.len() ==> !(#[trigger] v.rows[i] == RowView::ResultUrl && #[trigger] v.rows[j]
            == RowView::ResultUrl)
    &&& v.rows.contains(RowView::ResultUrl) ==> v.result_url is Some
}

proof fn lemma_without_result_row_has_none(rows: Seq<RowView>)
    ensures
        !without_result_row(rows).contains(RowView::ResultUrl),
{
    let f = without_result_row(rows);
    if f.contains(RowView::ResultUrl) {
        let i = choose|i: int| 0 <= i < f.len() && f[i] == RowView::ResultUrl;
        rows.lemma_filter_pred(|r: RowView| r != RowView::ResultUrl, i);
    }
}

/// The window as built is well formed, and every message keeps it so: the
/// result row is never listed twice and never without an address.
pub proof fn lemma_messages_keep_window_well_formed(v: WindowView, e: WindowEvent)
    requires
        well_formed(v),
    ensures
        well_formed(initial_view()),
        well_formed(next_view(v, e)),
{
    let n = next_view(v, e);
    match e {
        WindowEvent::TestStarted(info) => {
            lemma_without_result_row_has_none(v.rows);
            let f = without_result_row(v.rows);
            assert forall|i: int| 0 <= i < n.rows.len() implies n.rows[i] != RowView::ResultUrl by {
                if i < f.len() {
                    assert(n.rows[i] == f[i]);
                }
            }
        },
        WindowEvent::Finished(result) => {
            if result.result_url is Some && !v.rows.contains(RowView::ResultUrl) {
                assert forall|i: int, j: int|
                    0 <= i < j < n.rows.len() implies !(#[trigger] n.rows[i] == RowView::ResultUrl
                    && #[trigger] n.rows[j] == RowView::ResultUrl) by {
                    assert(n.rows[i] == v.rows[i]);
                }
            }
        },
        _ => {},
    }
}

/// A new test takes the previous result off the window: the button is
/// disabled, the details are hidden, both labels read zero and the details
/// list holds no result row, but ends with the new location and address rows.
pub proof fn lemma_test_start_clears_previous_result(v: WindowView, info: TestInfo)
    ensures
        ({
            let n = next_view(v, WindowEvent::TestStarted(info));
            &&& !n.start_enabled
            &&& !n.details_revealed
            &&& n.download_bandwidth == 0 && n.upload_bandwidth == 0
            &&& n.gauge == Gauge::Cleared
            &&& !n.rows.contains(RowView::ResultUrl)
            &&& n.rows.len() >= 2
            &&& n.rows[n.rows.len() - 2] == RowView::Location(location_text(info))
            &&& n.rows[n.rows.len() - 1] == RowView::PublicIp(info.external_ip@)
        }),
{
    let n = next_view(v, WindowEvent::TestStarted(info));
    let f = without_result_row(v.rows);
    lemma_without_result_row_has_none(v.rows);
    if n.rows.contains(RowView::ResultUrl) {
        let i = choose|i: int| 0 <= i < n.rows.len() && n.rows[i] == RowView::ResultUrl;
        assert(i < f.len() ==> n.rows[i] == f[i]);
    }
}

/// A finished test re-enables the button, reveals the details and shows both
/// final bandwidths; with a result address the list then holds the result
/// row exactly once, showing that address.
pub proof fn lemma_finish_shows_result(v: WindowView, result: TestResultInfo)
    requires
        well_formed(v),
    ensures
        ({
            let n = next_view(v, WindowEvent::Finished(result));
            &&& n.start_enabled
            &&& n.details_revealed
            &&& n.download_bandwidth == result.download_bandwidth
            &&& n.upload_bandwidth == result.upload_bandwidth
            &&& n.gauge == Gauge::Finished
            &&& (result.result_url matches Some(u) ==> {
                &&& n.result_url == Some(u@)
                &&& n.rows.contains(RowView::ResultUrl)
                &&& forall|i: int, j: int|
                    0 <= i < j < n.rows.len() ==> !(#[trigger] n.rows[i] == RowView::ResultUrl
                        && #[trigger] n.rows[j] == RowView::ResultUrl)
            })
        }),
{
    lemma_messages_keep_window_well_formed(v, WindowEvent::Finished(result));
    let n = next_view(v, WindowEvent::Finished(result));
    if result.result_url is Some && !v.rows.contains(RowView::ResultUrl) {
        assert(n.rows[n.rows.len() - 1] == RowView::ResultUrl);
    }
}

/// A finished test changes only the button, the two bandwidth labels, the
/// gauge, the details' visibility and the result row: the provider and server
/// subtitles, the rows already listed and a previous result address (when
/// no new one comes) all stay. The details list only ever grows at its end.
pub proof fn lemma_finish_keeps_subtitles_and_rows(v: WindowView, result: TestResultInfo)
    ensures
        ({
            let n = next_view(v, WindowEvent::Finished(result));
            &&& n.isp == v.isp
            &&& n.server == v.server
            &&& n == WindowView {
                start_enabled: true,
                download_bandwidth: result.download_bandwidth,
                upload_bandwidth: result.upload_bandwidth,
                gauge: Gauge::Finished,
                details_revealed: true,
                rows: n.rows,
                result_url: n.result_url,
                ..v
            }
            &&& v.rows.is_prefix_of(n.rows)
            &&& n.rows.len() <= v.rows.len() + 1
            &&& (result.result_url is None ==> n.rows == v.rows && n.result_url == v.result_url)
        }),
{
    let n = next_view(v, WindowEvent::Finished(result));
    assert(v.rows =~= n.rows.subrange(0, v.rows.len() as int));
}

/// The subtitles set when a test starts are still shown once it has run: after
/// a start message and any progress and finish messages, the provider row
/// shows the test's provider and the server row its server.
pub proof fn lemma_subtitles_survive_the_test(
    v: WindowView,
    info: TestInfo,
    down: i32,
    up: i32,
    result: TestResultInfo,
)
    ensures
        ({
            let s = next_view(v, WindowEvent::TestStarted(info));
            let d = next_view(s, WindowEvent::Download { bandwidth: down });
            let u = next_view(d, WindowEvent::Upload { bandwidth: up });
            let f = next_view(u, WindowEvent::Finished(result));
            &&& s.isp == info.isp@ && s.server == info.name@
            &&& d.isp == info.isp@ && d.server == info.name@
            &&& u.isp == info.isp@ && u.server == info.name@
            &&& f.isp == info.isp@ && f.server == info.name@
        }),
{
    let s = next_view(v, WindowEvent::TestStarted(info));
    let d = next_view(s, WindowEvent::Download { bandwidth: down });
    let u = next_view(d, WindowEvent::Upload { bandwidth: up });
    lemma_finish_keeps_subtitles_and_rows(u, result);
}

/// Progress messages move only their own label and the gauge: the button,
/// the subtitles, the other label and the details stay as they were.
pub proof fn lemma_progress_touches_only_its_label(v: WindowView, bandwidth: i32)
    ensures
        ({
            let d = next_view(v, WindowEvent::Download { bandwidth });
            &&& d.download_bandwidth == bandwidth
            &&& d.gauge == Gauge::Measuring(bandwidth)
            &&& d == WindowView { download_bandwidth: bandwidth, gauge: Gauge::Measuring(bandwidth), ..v }
        }),
        ({
            let u = next_view(v, WindowEvent::Upload { bandwidth });
            &&& u.upload_bandwidth == bandwidth
            &&& u.gauge == Gauge::Measuring(bandwidth)
            &&& u == WindowView { upload_bandwidth: bandwidth, gauge: Gauge::Measuring(bandwidth), ..v }
        }),
{
}

fn is_result_row(row: &DetailRow) -> (b: bool)
    ensures
        b == (row@ == RowView::ResultUrl),
{
    match row {
        DetailRow::ResultUrl => true,
        _ => false,
    }
}

fn has_result_row(rows: &Vec<DetailRow>) -> (b: bool)
    ensures
        b == row_views(rows@).contains(RowView::ResultUrl),
{
    let mut i: usize = 0;
    while i < rows.len()
        invariant
            i <= rows@.len(),
            forall|j: int| 0 <= j < i ==> rows@[j]@ != RowView::ResultUrl,
        decreases rows@.len() - i,
    {
        if is_result_row(&rows[i]) {
            assert(row_views(rows@)[i as int] == RowView::ResultUrl);
            return true;
        }
        i = i + 1;
    }
    assert forall|j: int| 0 <= j < row_views(rows@).len() implies row_views(rows@)[j]
        != RowView::ResultUrl by {
        assert(rows@[j]@ != RowView::ResultUrl);
    }
    false
}

/// Takes the result row out of `rows`, keeping the others in order.
fn drop_result_row(rows: Vec<DetailRow>) -> (kept: Vec<DetailRow>)
    ensures
        row_views(kept@) == without_result_row(row_views(rows@)),
{
    let ghost all = row_views(rows@);
    let ghost n = rows@.len();
    let mut rest = rows;
    let mut kept: Vec<DetailRow> = Vec::new();
    let ghost mut k: int = 0;
    while rest.len() > 0
        invariant
            0 <= k <= n,
            n == all.len(),
            all == row_views(rows@),
            rest@.len() == n - k,
            row_views(rest@) == all.subrange(k, n as int),
            row_views(kept@) == without_result_row(all.take(k)),
        decreases rest@.len(),
    {
        let ghost before = rest@;
        proof {
            assert(row_views(before)[0] == all[k]);
        }
        let row = rest.remove(0);
        proof {
            assert(row@ == all[k]);
            assert(all.take(k + 1).drop_last() == all.take(k));
            assert(all.take(k + 1).last() == all[k]);
            reveal_with_fuel(Seq::filter, 1);
            assert forall|j: int| 0 <= j < rest@.len() implies row_views(rest@)[j] == all[k + 1
                + j] by {
                assert(rest@[j] == before[j + 1]);
                assert(row_views(before)[j + 1] == all.subrange(k, n as int)[j + 1]);
            }
            assert(row_views(rest@) =~= all.subrange(k + 1, n as int));
        }
        if !is_result_row(&row) {
            kept.push(row);
            proof {
                assert(row_views(kept@) == row_views(kept@).drop_last().push(row@));
            }
        }
        proof {
            k = k + 1;
        }
    }
    assert(all.take(k) == all);
    kept
}

impl WindowState {
    /// The window as built, before any message.
    pub fn new() -> (s: WindowState)
        ensures
            s@ == initial_view(),
            well_formed(s@),
    {
        let s = WindowState {
            start_enabled: true,
            isp: String::new(),
            server: String::new(),
            download_bandwidth: 0,
            upload_bandwidth: 0,
            gauge: Gauge::Blank,
            details_revealed: false,
            rows: Vec::new(),
            result_url: None,
        };
        assert(row_views(s.rows@) == Seq::<RowView>::empty());
        s
    }

    /// Whether the "start test" button can be pressed.
    pub fn start_enabled(&self) -> (b: bool)
        ensures
            b == self@.start_enabled,
    {
        self.start_enabled
    }

    /// Subtitle of the provider row.
    pub fn isp(&self) -> (s: &str)
        ensures
            s@ == self@.isp,
    {
        self.isp.as_str()
    }

    /// Subtitle of the server row.
    pub fn server(&self) -> (s: &str)
        ensures
            s@ == self@.server,
    {
        self.server.as_str()
    }

    /// Bandwidth (bytes per second) shown by the download label.
    pub fn download_bandwidth(&self) -> (b: i32)
        ensures
            b == self@.download_bandwidth,
    {
        self.download_bandwidth
    }

    /// Bandwidth (bytes per second) shown by the upload label.
    pub fn upload_bandwidth(&self) -> (b: i32)
        ensures
            b == self@.upload_bandwidth,
    {
        self.upload_bandwidth
    }

    /// What the gauge shows.
    pub fn gauge(&self) -> (g: Gauge)
        ensures
            g == self@.gauge,
    {
        self.gauge
    }

    /// Whether the details list is revealed.
    pub fn details_revealed(&self) -> (b: bool)
        ensures
            b == self@.details_revealed,
    {
        self.details_revealed
    }

    /// The rows of the details list, in order.
    pub fn rows(&self) -> (rows: &Vec<DetailRow>)
        ensures
            row_views(rows@) == self@.rows,
    {
        &self.rows
    }

    /// Subtitle of the result row, once a result address has arrived.
    pub fn result_url(&self) -> (u: Option<&str>)
        ensures
            match u {
                Some(s) => self@.result_url == Some(s@),
                None => self@.result_url is None,
            },
    {
        match &self.result_url {
            Some(u) => Some(u.as_str()),
            None => None,
        }
    }

    /// Clears the window for a new test.
    fn clear(&mut self)
        ensures
            final(self)@ == cleared(old(self)@),
    {
        self.details_revealed = false;
        self.start_enabled = true;
        self.isp = String::new();
        self.server = String::new();
        self.download_bandwidth = 0;
        self.upload_bandwidth = 0;
        self.gauge = Gauge::Cleared;
        let mut rows: Vec<DetailRow> = Vec::new();
        std::mem::swap(&mut rows, &mut self.rows);
        self.rows = drop_result_row(rows);
    }

    /// Updates the window for a message from the running test.
    pub fn apply(&mut self, event: WindowEvent)
        ensures
            final(self)@ == next_view(old(self)@, event),
            well_formed(old(self)@) ==> well_formed(final(self)@),
            match event {
                WindowEvent::TestStarted(info) => final(self)@.isp == info.isp@
                    && final(self)@.server == info.name@,
                _ => final(self)@.isp == old(self)@.isp && final(self)@.server == old(
                    self,
                )@.server,
            },
    {
        proof {
            if well_formed(self@) {
                lemma_messages_keep_window_well_formed(self@, event);
            }
        }
        match event {
            WindowEvent::TestStarted(info) => {
                let ghost g = info;
                self.clear();
                let TestInfo { isp, external_ip, host: _, name, location, country } = info;
                self.start_enabled = false;
                self.isp = isp;
                self.server = name;
                let mut location_line = country;
                location_line.append(", ");
                location_line.append(location.as_str());
                let ghost before = self.rows@;
                self.rows.push(DetailRow::Location(location_line));
                self.rows.push(DetailRow::PublicIp(external_ip));
                proof {
                    assert(self.rows@ == before + seq![
                        DetailRow::Location(location_line),
                        DetailRow::PublicIp(external_ip),
                    ]);
                    assert(row_views(self.rows@) == row_views(before) + seq![
                        RowView::Location(location_text(g)),
                        RowView::PublicIp(g.external_ip@),
                    ]);
                }
            },
            WindowEvent::Download { bandwidth } => {
                self.download_bandwidth = bandwidth;
                self.gauge = Gauge::Measuring(bandwidth);
            },
            WindowEvent::Upload { bandwidth } => {
                self.upload_bandwidth = bandwidth;
                self.gauge = Gauge::Measuring(bandwidth);
            },
            WindowEvent::Finished(result) => {
                self.start_enabled = true;
                self.download_bandwidth = result.download_bandwidth;
                self.upload_bandwidth = result.upload_bandwidth;
                self.gauge = Gauge::Finished;
                self.details_revealed = true;
                match result.result_url {
                    Some(url) => {
                        self.result_url = Some(url);
                        if !has_result_row(&self.rows) {
                            let ghost before = self.rows@;
                            self.rows.push(DetailRow::ResultUrl);
                            assert(row_views(self.rows@) == row_views(before).push(
                                RowView::ResultUrl,
                            ));
                        }
                    },
                    None => {},
                }
            },
        }
    }
}

} // verus!
