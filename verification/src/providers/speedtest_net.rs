use vstd::prelude::*;

use crate::provider::TestInfo;
use crate::utils::{path_exists, starts_with};

verus! {

/// Why the provider refused a request.
#[derive(Debug, Clone, Copy, PartialEq, Eq, Structural)]
pub enum ProviderError {
    /// A stop was asked for while no test runs.
    NoTestRunning,
    /// A start was asked for while a test runs.
    TestAlreadyRunning,
}

impl ProviderError {
    /// The message the provider reports for this refusal.
    pub fn message(&self) -> (m: &'static str)
        ensures
            m@ == match self {
                ProviderError::NoTestRunning => "No test running"@,
                ProviderError::TestAlreadyRunning => "Test already running"@,
            },
    {
        match self {
            ProviderError::NoTestRunning => "No test running",
            ProviderError::TestAlreadyRunning => "Test already running",
        }
    }
}

/// The speedtest.net provider, which drives Ookla's command-line tool. Its
/// state is the process id of the tool while a test runs.
#[derive(Clone, Copy)]
pub struct SpeedtestNetProvider {
    pid: Option<u32>,
}

impl View for SpeedtestNetProvider {
    type V = Option<u32>;

    closed spec fn view(&self) -> Option<u32> {
        self.pid
    }
}

/// What a stop request answers, for a provider whose running tool is `pid`.
pub open spec fn stop_outcome(pid: Option<u32>) -> Result<u32, ProviderError> {
    match pid {
        Some(p) => Ok(p),
        None => Err(ProviderError::NoTestRunning),
    }
}

/// What a start request answers, for a provider whose running tool is `pid`.
pub open spec fn start_outcome(pid: Option<u32>) -> Result<(), ProviderError> {
    match pid {
        Some(_) => Err(ProviderError::TestAlreadyRunning),
        None => Ok(()),
    }
}

impl SpeedtestNetProvider {
    /// A provider with no test running.
    pub fn new() -> (p: SpeedtestNetProvider)
        ensures
            p@ == None::<u32>,
    {
        SpeedtestNetProvider { pid: None }
    }

    /// The provider's display name.
    pub fn get_name(&self) -> (name: &'static str)
        ensures
            name@ == "speedtest.net"@,
    {
        "speedtest.net"
    }

    /// The provider's web site.
    pub fn get_website(&self) -> (site: &'static str)
        ensures
            site@ == "https://speedtest.net/"@,
    {
        "https://speedtest.net/"
    }

    /// The process id of the running tool, if a test runs.
    pub fn pid(&self) -> (p: Option<u32>)
        ensures
            p == self@,
    {
        self.pid
    }

    /// Asks to stop the running test. On success the provider forgets the
    /// tool, and the answer is the process id that the caller must terminate.
    pub fn stop_test(&mut self) -> (r: Result<u32, ProviderError>)
        ensures
            r == stop_outcome(old(self)@),
            final(self)@ == None::<u32>,
    {
        match self.pid {
            Some(p) => {
                self.pid = None;
                Ok(p)
            },
            None => Err(ProviderError::NoTestRunning),
        }
    }

    /// Asks to start a test: granted exactly when none runs. The provider is
    /// unchanged; the caller launches the tool and reports it with
    /// [`Self::test_launched`].
    pub fn start_test(&self) -> (r: Result<(), ProviderError>)
        ensures
            r == start_outcome(self@),
    {
        match self.pid {
            Some(_) => Err(ProviderError::TestAlreadyRunning),
            None => Ok(()),
        }
    }

    /// Records that the tool runs as process `pid`.
    pub fn test_launched(&mut self, pid: u32)
        ensures
            final(self)@ == Some(pid),
    {
        self.pid = Some(pid);
    }
}

/// A provider that launched a tool is stopped with that tool's id, and is then
/// idle: a second stop is refused and a start is granted.
pub proof fn lemma_stop_after_launch(pid: u32)
    ensures
        stop_outcome(Some(pid)) == Ok::<u32, ProviderError>(pid),
        stop_outcome(None) == Err::<u32, ProviderError>(ProviderError::NoTestRunning),
        start_outcome(None) == Ok::<(), ProviderError>(()),
        start_outcome(Some(pid)) == Err::<(), ProviderError>(ProviderError::TestAlreadyRunning),
{
}

/// Directory, under the application's data directory, into which the tool is
/// unpacked.
pub fn get_speedtest_cli_path(app_data_dir: &str) -> (path: String)
    ensures
        path@ == app_data_dir@ + "/speedtest_net"@,
{
    let mut path = String::from_str(app_data_dir);
    path.append("/speedtest_net");
    path
}

/// Whether the tool's directory exists under the application's data
/// directory. The answer comes from the file system.
pub fn speedtest_cli_installed(app_data_dir: &str) -> bool {
    let path = get_speedtest_cli_path(app_data_dir);
    path_exists(path.as_str())
}

/// The tool's executable inside the directory `cli_path`.
pub fn speedtest_binary_path(cli_path: &str) -> (path: String)
    ensures
        path@ == cli_path@ + "/speedtest"@,
{
    let mut path = String::from_str(cli_path);
    path.append("/speedtest");
    path
}

/// Where the downloaded archive of the tool is kept, under the application's
/// data directory.
pub fn speedtest_archive_path(app_data_dir: &str) -> (path: String)
    ensures
        path@ == app_data_dir@ + "/speedtest.tgz"@,
{
    let mut path = String::from_str(app_data_dir);
    path.append("/speedtest.tgz");
    path
}

/// The only architecture the tool is downloaded for.
pub fn supported_arch() -> (arch: &'static str)
    ensures
        arch@ == "x86_64"@,
{
    "x86_64"
}

/// Address of the tool's archive for the architecture `arch`.
pub fn cli_download_link(arch: &str) -> (link: String)
    ensures
        link@ == "https://install.speedtest.net/app/cli/ookla-speedtest-1.2.0-linux-"@ + arch@
            + ".tgz"@,
{
    let mut link = String::from_str("https://install.speedtest.net/app/cli/ookla-speedtest-1.2.0-linux-");
    link.append(arch);
    link.append(".tgz");
    link
}

/// The arguments the tool is run with: accept its terms, report in JSON,
/// report progress.
pub fn speedtest_cli_args() -> (args: Vec<&'static str>)
    ensures
        args@.len() == 4,
        args@[0]@ == "--accept-license"@,
        args@[1]@ == "--accept-gdpr"@,
        args@[2]@ == "--format=json"@,
        args@[3]@ == "--progress=yes"@,
{
    let mut args: Vec<&'static str> = Vec::new();
    args.push("--accept-license");
    args.push("--accept-gdpr");
    args.push("--format=json");
    args.push("--progress=yes");
    args
}

/// The next thing to do while making sure the tool is available.
#[derive(Debug, Clone, Copy, PartialEq, Eq, Structural)]
pub enum SetupStep {
    /// Nothing more to do.
    Finish,
    /// Download the archive.
    Download,
    /// Unpack the archive into the tool's directory.
    Extract,
}

/// The next setup step, given whether the tool's executable exists, whether
/// its archive exists, and whether a download has just been made. Before any
/// download: an existing executable ends setup, a missing archive is
/// downloaded, an existing one unpacked. After a download the archive is
/// unpacked if it is there.
pub open spec fn spec_setup_step(binary_present: bool, archive_present: bool, downloaded: bool) -> SetupStep {
    if downloaded {
        if archive_present { SetupStep::Extract } else { SetupStep::Finish }
    } else if binary_present {
        SetupStep::Finish
    } else if !archive_present {
        SetupStep::Download
    } else {
        SetupStep::Extract
    }
}

/// Decides the next setup step (see [`spec_setup_step`]).
pub fn setup_step(binary_present: bool, archive_present: bool, downloaded: bool) -> (step: SetupStep)
    ensures
        step == spec_setup_step(binary_present, archive_present, downloaded),
{
    if downloaded {
        if archive_present { SetupStep::Extract } else { SetupStep::Finish }
    } else if binary_present {
        SetupStep::Finish
    } else if !archive_present {
        SetupStep::Download
    } else {
        SetupStep::Extract
    }
}

/// Which message a line of the tool's output carries.
#[derive(Debug, Clone, Copy, PartialEq, Eq, Structural)]
pub enum LineKind {
    /// Not a typed JSON message, or one of a type the application ignores.
    Ignored,
    TestStart,
    Download,
    Upload,
    Result,
}

/// The kind of an output line, by how it begins: a line that does not open a
/// JSON object with a `type` key is ignored; otherwise the type that follows
/// decides.
pub open spec fn line_kind(line: Seq<char>) -> LineKind {
    if !"{\"type"@.is_prefix_of(line) {
        LineKind::Ignored
    } else if "{\"type\":\"testStart\""@.is_prefix_of(line) {
        LineKind::TestStart
    } else if "{\"type\":\"download\""@.is_prefix_of(line) {
        LineKind::Download
    } else if "{\"type\":\"upload\""@.is_prefix_of(line) {
        LineKind::Upload
    } else if "{\"type\":\"result\""@.is_prefix_of(line) {
        LineKind::Result
    } else {
        LineKind::Ignored
    }
}

proof fn lemma_prefix_char(p: Seq<char>, l: Seq<char>, i: int)
    requires
        p.is_prefix_of(l),
        0 <= i < p.len(),
    ensures
        l[i] == p[i],
{
    assert(p[i] == l.subrange(0, p.len() as int)[i]);
}

proof fn lemma_prefix_trans(a: Seq<char>, b: Seq<char>, c: Seq<char>)
    requires
        a.is_prefix_of(b),
        b.is_prefix_of(c),
    ensures
        a.is_prefix_of(c),
{
    assert forall|i: int| 0 <= i < a.len() implies a[i] == c.subrange(0, a.len() as int)[i] by {
        lemma_prefix_char(a, b, i);
        lemma_prefix_char(b, c, i);
    }
    assert(a =~= c.subrange(0, a.len() as int));
}

/// A line's kind is decided by which typed prefix it begins with, whatever
/// follows and however long it is: a line beginning with the test-start,
/// download, upload or result prefix has that kind, and a line is ignored
/// exactly when it begins with none of the four. No line begins with two of
/// them.
pub proof fn lemma_line_kind_by_prefix(line: Seq<char>)
    ensures
        (line_kind(line) == LineKind::TestStart) == "{\"type\":\"testStart\""@.is_prefix_of(line),
        (line_kind(line) == LineKind::Download) == "{\"type\":\"download\""@.is_prefix_of(line),
        (line_kind(line) == LineKind::Upload) == "{\"type\":\"upload\""@.is_prefix_of(line),
        (line_kind(line) == LineKind::Result) == "{\"type\":\"result\""@.is_prefix_of(line),
        (line_kind(line) == LineKind::Ignored) == (!"{\"type\":\"testStart\""@.is_prefix_of(line)
            && !"{\"type\":\"download\""@.is_prefix_of(line)
            && !"{\"type\":\"upload\""@.is_prefix_of(line)
            && !"{\"type\":\"result\""@.is_prefix_of(line)),
{
    let tp = "{\"type"@;
    let ts = "{\"type\":\"testStart\""@;
    let dl = "{\"type\":\"download\""@;
    let ul = "{\"type\":\"upload\""@;
    let rs = "{\"type\":\"result\""@;
    reveal_strlit("{\"type");
    reveal_strlit("{\"type\":\"testStart\"");
    reveal_strlit("{\"type\":\"download\"");
    reveal_strlit("{\"type\":\"upload\"");
    reveal_strlit("{\"type\":\"result\"");
    assert(tp =~= ts.subrange(0, 6));
    assert(tp =~= dl.subrange(0, 6));
    assert(tp =~= ul.subrange(0, 6));
    assert(tp =~= rs.subrange(0, 6));
    if ts.is_prefix_of(line) {
        lemma_prefix_trans(tp, ts, line);
        lemma_prefix_char(ts, line, 9);
    }
    if dl.is_prefix_of(line) {
        lemma_prefix_trans(tp, dl, line);
        lemma_prefix_char(dl, line, 9);
    }
    if ul.is_prefix_of(line) {
        lemma_prefix_trans(tp, ul, line);
        lemma_prefix_char(ul, line, 9);
    }
    if rs.is_prefix_of(line) {
        lemma_prefix_trans(tp, rs, line);
        lemma_prefix_char(rs, line, 9);
    }
}

/// Whatever follows a typed prefix, the line has that prefix's kind.
pub proof fn lemma_typed_line_kind(rest: Seq<char>)
    ensures
        line_kind("{\"type\":\"testStart\""@ + rest) == LineKind::TestStart,
        line_kind("{\"type\":\"download\""@ + rest) == LineKind::Download,
        line_kind("{\"type\":\"upload\""@ + rest) == LineKind::Upload,
        line_kind("{\"type\":\"result\""@ + rest) == LineKind::Result,
{
    let ts = "{\"type\":\"testStart\""@;
    let dl = "{\"type\":\"download\""@;
    let ul = "{\"type\":\"upload\""@;
    let rs = "{\"type\":\"result\""@;
    assert(ts =~= (ts + rest).subrange(0, ts.len() as int));
    assert(dl =~= (dl + rest).subrange(0, dl.len() as int));
    assert(ul =~= (ul + rest).subrange(0, ul.len() as int));
    assert(rs =~= (rs + rest).subrange(0, rs.len() as int));
    lemma_line_kind_by_prefix(ts + rest);
    lemma_line_kind_by_prefix(dl + rest);
    lemma_line_kind_by_prefix(ul + rest);
    lemma_line_kind_by_prefix(rs + rest);
}

/// Classifies a line of the tool's output (see [`line_kind`]): by its typed
/// prefix alone, whatever its length.
pub fn classify_line(line: &str) -> (kind: LineKind)
    ensures
        kind == line_kind(line@),
        (kind == LineKind::TestStart) == "{\"type\":\"testStart\""@.is_prefix_of(line@),
        (kind == LineKind::Download) == "{\"type\":\"download\""@.is_prefix_of(line@),
        (kind == LineKind::Upload) == "{\"type\":\"upload\""@.is_prefix_of(line@),
        (kind == LineKind::Result) == "{\"type\":\"result\""@.is_prefix_of(line@),
{
    proof {
        lemma_line_kind_by_prefix(line@);
    }
    if !starts_with(line, "{\"type") {
        LineKind::Ignored
    } else if starts_with(line, "{\"type\":\"testStart\"") {
        LineKind::TestStart
    } else if starts_with(line, "{\"type\":\"download\"") {
        LineKind::Download
    } else if starts_with(line, "{\"type\":\"upload\"") {
        LineKind::Upload
    } else if starts_with(line, "{\"type\":\"result\"") {
        LineKind::Result
    } else {
        LineKind::Ignored
    }
}

/// The network interface part of a test-start message.
pub struct Interface {
    pub external_ip: String,
}

/// The server part of a test-start message.
pub struct ServerInfo {
    pub host: String,
    pub name: String,
    pub location: String,
    pub country: String,
}

/// The tool's test-start message.
pub struct TestStartInfo {
    pub timestamp: String,
    pub isp: String,
    pub interface: Interface,
    pub server: ServerInfo,
}

/// What a test-start message tells the application.
pub fn test_info(start: TestStartInfo) -> (info: TestInfo)
    ensures
        info.isp == start.isp,
        info.external_ip == start.interface.external_ip,
        info.host == start.server.host,
        info.name == start.server.name,
        info.location == start.server.location,
        info.country == start.server.country,
{
    TestInfo {
        isp: start.isp,
        external_ip: start.interface.external_ip,
        host: start.server.host,
        name: start.server.name,
        location: start.server.location,
        country: start.server.country,
    }
}

} // verus!
