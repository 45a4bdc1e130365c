//! The layout of the diagnostics reports shown on the terminal dashboard and
//! printed by the command line, and the state of a monitoring session.
//!
//! A report is a list of lines; each line names what it shows and carries
//! the values it shows. Rendering a line into text and colour is left to the
//! front end, which formats the durations and the loss and mean latency
//! derived from the ping counts.

use crate::models::{DiagnosticResult, DnsResult, HttpResult, PingStats, TcpResult};
use crate::text::{join, joined, views};
use vstd::prelude::*;

verus! {

/// The four checks of a round.
#[derive(Debug, Clone, Copy, PartialEq, Eq, Structural)]
pub enum Section {
    Ping,
    Dns,
    Tcp,
    Http,
}

/// The colour in which an HTTP status is shown.
#[derive(Debug, Clone, Copy, PartialEq, Eq, Structural)]
pub enum Tone {
    /// A success status.
    Good,
    /// A client or server error status.
    Bad,
    /// Any other status, or no status.
    Caution,
}

/// One line of a report.
#[derive(Debug, Clone, PartialEq, Eq)]
pub enum ReportLine {
    /// The number and time of the round.
    RunHeader { run_number: u32, timestamp: String },
    /// An empty line.
    Blank,
    /// The title of a check on the dashboard.
    SectionTitle(Section),
    /// The announcement of a check on the command line.
    SectionIntro(Section),
    /// A check that could not run, with the error's text.
    SectionError { section: Section, message: String },
    /// Replies received out of probes sent (the loss is derived from these).
    PingPackets { received: u32, transmitted: u32 },
    /// The fastest and slowest reply, and the total latency of `received`
    /// replies (the mean is derived from these).
    PingLatency { min_ms: u64, max_ms: u64, total_ms: u128, received: u32 },
    /// No probe of `transmitted` got a reply.
    PingAllLost { transmitted: u32 },
    /// The time a successful resolution took.
    DnsTime { ms: u64 },
    /// The addresses found, joined with ", ".
    DnsAddresses { list: String },
    /// The resolution of `hostname` found nothing after `ms`.
    DnsFailed { hostname: String, ms: u64 },
    /// The connection attempt to `port`.
    TcpStatus { port: u16, success: bool, ms: u64 },
    /// The status line of the request and the time to its first byte.
    HttpStatus { text: String, ms: u64, tone: Tone },
    /// How to leave the dashboard.
    QuitHint,
}

/// A report line with its texts as sequences of characters.
pub enum LineView {
    RunHeader { run_number: u32, timestamp: Seq<char> },
    Blank,
    SectionTitle(Section),
    SectionIntro(Section),
    SectionError { section: Section, message: Seq<char> },
    PingPackets { received: u32, transmitted: u32 },
    PingLatency { min_ms: u64, max_ms: u64, total_ms: u128, received: u32 },
    PingAllLost { transmitted: u32 },
    DnsTime { ms: u64 },
    DnsAddresses { list: Seq<char> },
    DnsFailed { hostname: Seq<char>, ms: u64 },
    TcpStatus { port: u16, success: bool, ms: u64 },
    HttpStatus { text: Seq<char>, ms: u64, tone: Tone },
    QuitHint,
}

impl View for ReportLine {
    type V = LineView;

    open spec fn view(&self) -> LineView {
        match self {
            ReportLine::RunHeader { run_number, timestamp } => LineView::RunHeader {
                run_number: *run_number,
                timestamp: timestamp@,
            },
            ReportLine::Blank => LineView::Blank,
            ReportLine::SectionTitle(s) => LineView::SectionTitle(*s),
            ReportLine::SectionIntro(s) => LineView::SectionIntro(*s),
            ReportLine::SectionError { section, message } => LineView::SectionError {
                section: *section,
                message: message@,
            },
            ReportLine::PingPackets { received, transmitted } => LineView::PingPackets {
                received: *received,
                transmitted: *transmitted,
            },
            ReportLine::PingLatency { min_ms, max_ms, total_ms, received } => LineView::PingLatency {
                min_ms: *min_ms,
                max_ms: *max_ms,
                total_ms: *total_ms,
                received: *received,
            },
            ReportLine::PingAllLost { transmitted } => LineView::PingAllLost {
                transmitted: *transmitted,
            },
            ReportLine::DnsTime { ms } => LineView::DnsTime { ms: *ms },
            ReportLine::DnsAddresses { list } => LineView::DnsAddresses { list: list@ },
            ReportLine::DnsFailed { hostname, ms } => LineView::DnsFailed {
                hostname: hostname@,
                ms: *ms,
            },
            ReportLine::TcpStatus { port, success, ms } => LineView::TcpStatus {
                port: *port,
                success: *success,
                ms: *ms,
            },
            ReportLine::HttpStatus { text, ms, tone } => LineView::HttpStatus {
                text: text@,
                ms: *ms,
                tone: *tone,
            },
            ReportLine::QuitHint => LineView::QuitHint,
        }
    }
}

/// The views of a list of report lines.
pub open spec fn line_views(lines: Seq<ReportLine>) -> Seq<LineView> {
    lines.map_values(|l: ReportLine| l@)
}

/// The colour of an HTTP status: success statuses good, error statuses bad,
/// anything else (no status included) a caution.
pub open spec fn tone_of(code: Option<u16>) -> Tone {
    match code {
        Some(c) => if 200 <= c < 300 {
            Tone::Good
        } else if c >= 400 {
            Tone::Bad
        } else {
            Tone::Caution
        },
        None => Tone::Caution,
    }
}

/// The lines that show ping statistics: counts and latencies when a reply
/// arrived, else the loss of every probe.
pub open spec fn ping_body(p: PingStats) -> Seq<LineView> {
    if p.received > 0 {
        seq![
            LineView::PingPackets { received: p.received, transmitted: p.transmitted },
            LineView::PingLatency {
                min_ms: match p.min_latency_ms {
                    Some(v) => v,
                    None => 0,
                },
                max_ms: match p.max_latency_ms {
                    Some(v) => v,
                    None => 0,
                },
                total_ms: p.total_latency_ms,
                received: p.received,
            },
        ]
    } else {
        seq![LineView::PingAllLost { transmitted: p.transmitted }]
    }
}

/// The lines that show a resolution: time and addresses when some address
/// was found, else the failure.
pub open spec fn dns_body(d: DnsResult) -> Seq<LineView> {
    if d.ips@.len() > 0 {
        seq![
            LineView::DnsTime { ms: d.resolve_time_ms },
            LineView::DnsAddresses { list: joined(views(d.ips@), ", "@) },
        ]
    } else {
        seq![LineView::DnsFailed { hostname: d.hostname@, ms: d.resolve_time_ms }]
    }
}

/// The line that shows a connection attempt.
pub open spec fn tcp_body(t: TcpResult) -> Seq<LineView> {
    seq![LineView::TcpStatus { port: t.port, success: t.success, ms: t.duration_ms }]
}

/// The line that shows a request.
pub open spec fn http_body(h: HttpResult) -> Seq<LineView> {
    seq![LineView::HttpStatus { text: h.status_text@, ms: h.ttfb_ms, tone: tone_of(h.status_code) }]
}

/// A dashboard section: its title, its body and an empty line, or nothing
/// for a check that did not run.
pub open spec fn dashboard_section(s: Section, body: Option<Seq<LineView>>) -> Seq<LineView> {
    match body {
        Some(b) => seq![LineView::SectionTitle(s)] + b + seq![LineView::Blank],
        None => Seq::empty(),
    }
}

/// The dashboard section of the ping check, if it ran.
pub open spec fn dashboard_ping(p: Option<PingStats>) -> Seq<LineView> {
    dashboard_section(
        Section::Ping,
        match p {
            Some(p) => Some(ping_body(p)),
            None => None,
        },
    )
}

/// The dashboard section of the DNS check, if it ran.
pub open spec fn dashboard_dns(d: Option<DnsResult>) -> Seq<LineView> {
    dashboard_section(
        Section::Dns,
        match d {
            Some(d) => Some(dns_body(d)),
            None => None,
        },
    )
}

/// The dashboard section of the TCP check, if it ran.
pub open spec fn dashboard_tcp(t: Option<TcpResult>) -> Seq<LineView> {
    dashboard_section(
        Section::Tcp,
        match t {
            Some(t) => Some(tcp_body(t)),
            None => None,
        },
    )
}

/// The dashboard section of the HTTP check, if it ran.
pub open spec fn dashboard_http(h: Option<HttpResult>) -> Seq<LineView> {
    dashboard_section(
        Section::Http,
        match h {
            Some(h) => Some(http_body(h)),
            None => None,
        },
    )
}

/// The dashboard view of a round: its header, an empty line, a section for
/// each check that ran, and the hint on how to quit.
pub open spec fn dashboard_layout(r: DiagnosticResult) -> Seq<LineView> {
    seq![LineView::RunHeader { run_number: r.run_number, timestamp: r.timestamp@ }, LineView::Blank]
        + dashboard_ping(r.ping) + dashboard_dns(r.dns) + dashboard_tcp(r.tcp) + dashboard_http(
        r.http,
    ) + seq![LineView::QuitHint]
}

/// A command line section: the announcement of the check and its body, or
/// the error that stopped it.
pub open spec fn console_section(s: Section, body: Result<Seq<LineView>, Seq<char>>) -> Seq<
    LineView,
> {
    match body {
        Ok(b) => seq![LineView::SectionIntro(s)] + b,
        Err(e) => seq![LineView::SectionError { section: s, message: e }],
    }
}

/// The command line section of the ping check.
pub open spec fn console_ping(p: Result<PingStats, String>) -> Seq<LineView> {
    console_section(
        Section::Ping,
        match p {
            Ok(p) => Ok(ping_body(p)),
            Err(e) => Err(e@),
        },
    )
}

/// The command line section of the DNS check.
pub open spec fn console_dns(d: Result<DnsResult, String>) -> Seq<LineView> {
    console_section(
        Section::Dns,
        match d {
            Ok(d) => Ok(dns_body(d)),
            Err(e) => Err(e@),
        },
    )
}

/// The command line section of the TCP check.
pub open spec fn console_tcp(t: Result<TcpResult, String>) -> Seq<LineView> {
    console_section(
        Section::Tcp,
        match t {
            Ok(t) => Ok(tcp_body(t)),
            Err(e) => Err(e@),
        },
    )
}

/// The command line section of the HTTP check.
pub open spec fn console_http(h: Result<HttpResult, String>) -> Seq<LineView> {
    console_section(
        Section::Http,
        match h {
            Ok(h) => Ok(http_body(h)),
            Err(e) => Err(e@),
        },
    )
}

/// The command line report of a round: its header and a section for each
/// check, in the order ping, DNS, TCP, HTTP.
pub open spec fn console_layout(
    run_number: u32,
    time: Seq<char>,
    ping: Result<PingStats, String>,
    dns: Result<DnsResult, String>,
    tcp: Result<TcpResult, String>,
    http: Result<HttpResult, String>,
) -> Seq<LineView> {
    seq![LineView::RunHeader { run_number: run_number, timestamp: time }] + console_ping(ping)
        + console_dns(dns) + console_tcp(tcp) + console_http(http)
}


/// Statuses are coloured by class: every success status (200 to 299) is
/// good, every client or server error (400 and above) is bad, and the
/// informational and redirection statuses, as well as a missing status, are
/// a caution.
pub proof fn lemma_tone_classes()
    ensures
        forall|c: u16| 200 <= c < 300 ==> #[trigger] tone_of(Some(c)) == Tone::Good,
        forall|c: u16| c >= 400 ==> #[trigger] tone_of(Some(c)) == Tone::Bad,
        forall|c: u16| c < 200 ==> #[trigger] tone_of(Some(c)) == Tone::Caution,
        forall|c: u16| 300 <= c < 400 ==> #[trigger] tone_of(Some(c)) == Tone::Caution,
        tone_of(None) == Tone::Caution,
{
}

/// The packet-count line of ping statistics `p`.
pub open spec fn packets_line(p: PingStats) -> LineView {
    LineView::PingPackets { received: p.received, transmitted: p.transmitted }
}

/// The latency line of ping statistics `p`: the fastest and slowest reply
/// (0 where none is recorded) and the total latency of the replies.
pub open spec fn latency_line(p: PingStats) -> LineView {
    LineView::PingLatency {
        min_ms: match p.min_latency_ms {
            Some(v) => v,
            None => 0,
        },
        max_ms: match p.max_latency_ms {
            Some(v) => v,
            None => 0,
        },
        total_ms: p.total_latency_ms,
        received: p.received,
    }
}

/// The line that reports every probe of `p` lost.
pub open spec fn all_lost_line(p: PingStats) -> LineView {
    LineView::PingAllLost { transmitted: p.transmitted }
}

/// The ping section of a console report shows the packet counts and the
/// latencies of a run in which some reply arrived, and reports every probe
/// lost only for a run without a reply; a ping that could not run shows its
/// error in place of the section.
pub proof fn lemma_console_ping_section(
    run_number: u32,
    time: Seq<char>,
    p: PingStats,
    dns: Result<DnsResult, String>,
    tcp: Result<TcpResult, String>,
    http: Result<HttpResult, String>,
    e: String,
)
    ensures
        console_layout(run_number, time, Ok(p), dns, tcp, http)[1] == LineView::SectionIntro(
            Section::Ping,
        ),
        p.received > 0 ==> console_layout(run_number, time, Ok(p), dns, tcp, http)[2]
            == packets_line(p),
        p.received > 0 ==> console_layout(run_number, time, Ok(p), dns, tcp, http)[3]
            == latency_line(p),
        p.received > 0 ==> console_layout(run_number, time, Ok(p), dns, tcp, http)[4]
            != all_lost_line(p),
        p.received == 0 ==> console_layout(run_number, time, Ok(p), dns, tcp, http)[2]
            == all_lost_line(p),
        p.received == 0 ==> console_layout(run_number, time, Ok(p), dns, tcp, http)[3]
            != all_lost_line(p),
        console_layout(run_number, time, Err(e), dns, tcp, http)[1] == (LineView::SectionError {
            section: Section::Ping,
            message: e@,
        }),
{
    let l = console_layout(run_number, time, Ok(p), dns, tcp, http);
    let rest = console_dns(dns) + console_tcp(tcp) + console_http(http);
    let head = seq![LineView::RunHeader { run_number: run_number, timestamp: time }];
    assert(l =~= head + console_ping(Ok(p)) + rest);
    assert(rest.len() >= 1);
    assert(rest[0] is SectionIntro || rest[0] is SectionError);
    let le = console_layout(run_number, time, Err(e), dns, tcp, http);
    assert(le =~= head + console_ping(Err(e)) + rest);
}

/// The ping section of the dashboard shows the packet counts and the
/// latencies of a run in which some reply arrived, and reports every probe
/// lost only for a run without a reply.
pub proof fn lemma_dashboard_ping_section(r: DiagnosticResult, p: PingStats)
    requires
        r.ping == Some(p),
    ensures
        dashboard_layout(r)[2] == LineView::SectionTitle(Section::Ping),
        p.received > 0 ==> dashboard_layout(r)[3] == packets_line(p),
        p.received > 0 ==> dashboard_layout(r)[4] == latency_line(p),
        p.received > 0 ==> dashboard_layout(r)[5] == LineView::Blank,
        p.received == 0 ==> dashboard_layout(r)[3] == all_lost_line(p),
        p.received == 0 ==> dashboard_layout(r)[4] == LineView::Blank,
{
    let head = seq![
        LineView::RunHeader { run_number: r.run_number, timestamp: r.timestamp@ },
        LineView::Blank,
    ];
    let rest = dashboard_dns(r.dns) + dashboard_tcp(r.tcp) + dashboard_http(r.http) + seq![
        LineView::QuitHint,
    ];
    assert(dashboard_layout(r) =~= head + dashboard_ping(r.ping) + rest);
}

/// The DNS, TCP and HTTP sections of a report, each an announcement (console)
/// or a title (dashboard) followed by its body:
/// - a resolution that found addresses shows its time and the addresses
///   joined with ", "; one that found none shows the failure with the
///   hostname and time;
/// - a connection attempt shows its port, outcome and time;
/// - a request shows its status line, time and the colour of its status;
/// - a check that could not run shows its error on the console.
pub proof fn lemma_report_sections(
    d: DnsResult,
    t: TcpResult,
    h: HttpResult,
    e: String,
)
    ensures
        d.ips@.len() > 0 ==> console_dns(Ok(d)) == seq![
            LineView::SectionIntro(Section::Dns),
            LineView::DnsTime { ms: d.resolve_time_ms },
            LineView::DnsAddresses { list: joined(views(d.ips@), ", "@) },
        ],
        d.ips@.len() == 0 ==> console_dns(Ok(d)) == seq![
            LineView::SectionIntro(Section::Dns),
            LineView::DnsFailed { hostname: d.hostname@, ms: d.resolve_time_ms },
        ],
        d.ips@.len() > 0 ==> dashboard_dns(Some(d)) == seq![
            LineView::SectionTitle(Section::Dns),
            LineView::DnsTime { ms: d.resolve_time_ms },
            LineView::DnsAddresses { list: joined(views(d.ips@), ", "@) },
            LineView::Blank,
        ],
        d.ips@.len() == 0 ==> dashboard_dns(Some(d)) == seq![
            LineView::SectionTitle(Section::Dns),
            LineView::DnsFailed { hostname: d.hostname@, ms: d.resolve_time_ms },
            LineView::Blank,
        ],
        console_tcp(Ok(t)) == seq![
            LineView::SectionIntro(Section::Tcp),
            LineView::TcpStatus { port: t.port, success: t.success, ms: t.duration_ms },
        ],
        dashboard_tcp(Some(t)) == seq![
            LineView::SectionTitle(Section::Tcp),
            LineView::TcpStatus { port: t.port, success: t.success, ms: t.duration_ms },
            LineView::Blank,
        ],
        console_http(Ok(h)) == seq![
            LineView::SectionIntro(Section::Http),
            LineView::HttpStatus {
                text: h.status_text@,
                ms: h.ttfb_ms,
                tone: tone_of(h.status_code),
            },
        ],
        dashboard_http(Some(h)) == seq![
            LineView::SectionTitle(Section::Http),
            LineView::HttpStatus {
                text: h.status_text@,
                ms: h.ttfb_ms,
                tone: tone_of(h.status_code),
            },
            LineView::Blank,
        ],
        console_dns(Err(e)) == seq![
            LineView::SectionError { section: Section::Dns, message: e@ },
        ],
        console_tcp(Err(e)) == seq![
            LineView::SectionError { section: Section::Tcp, message: e@ },
        ],
        console_http(Err(e)) == seq![
            LineView::SectionError { section: Section::Http, message: e@ },
        ],
        dashboard_dns(None) == Seq::<LineView>::empty(),
        dashboard_tcp(None) == Seq::<LineView>::empty(),
        dashboard_http(None) == Seq::<LineView>::empty(),
{
    assert(console_dns(Ok(d)) =~= seq![LineView::SectionIntro(Section::Dns)] + dns_body(d));
    assert(dashboard_dns(Some(d)) =~= seq![LineView::SectionTitle(Section::Dns)] + dns_body(d)
        + seq![LineView::Blank]);
    if d.ips@.len() > 0 {
        assert(console_dns(Ok(d)) =~= seq![
            LineView::SectionIntro(Section::Dns),
            LineView::DnsTime { ms: d.resolve_time_ms },
            LineView::DnsAddresses { list: joined(views(d.ips@), ", "@) },
        ]);
        assert(dashboard_dns(Some(d)) =~= seq![
            LineView::SectionTitle(Section::Dns),
            LineView::DnsTime { ms: d.resolve_time_ms },
            LineView::DnsAddresses { list: joined(views(d.ips@), ", "@) },
            LineView::Blank,
        ]);
    } else {
        assert(console_dns(Ok(d)) =~= seq![
            LineView::SectionIntro(Section::Dns),
            LineView::DnsFailed { hostname: d.hostname@, ms: d.resolve_time_ms },
        ]);
        assert(dashboard_dns(Some(d)) =~= seq![
            LineView::SectionTitle(Section::Dns),
            LineView::DnsFailed { hostname: d.hostname@, ms: d.resolve_time_ms },
            LineView::Blank,
        ]);
    }
    assert(console_tcp(Ok(t)) =~= seq![
        LineView::SectionIntro(Section::Tcp),
        LineView::TcpStatus { port: t.port, success: t.success, ms: t.duration_ms },
    ]);
    assert(dashboard_tcp(Some(t)) =~= seq![
        LineView::SectionTitle(Section::Tcp),
        LineView::TcpStatus { port: t.port, success: t.success, ms: t.duration_ms },
        LineView::Blank,
    ]);
    assert(console_http(Ok(h)) =~= seq![
        LineView::SectionIntro(Section::Http),
        LineView::HttpStatus { text: h.status_text@, ms: h.ttfb_ms, tone: tone_of(h.status_code) },
    ]);
    assert(dashboard_http(Some(h)) =~= seq![
        LineView::SectionTitle(Section::Http),
        LineView::HttpStatus { text: h.status_text@, ms: h.ttfb_ms, tone: tone_of(h.status_code) },
        LineView::Blank,
    ]);
}

/// The colour of an HTTP status.
pub fn http_tone(code: Option<u16>) -> (t: Tone)
    ensures
        t == tone_of(code),
        code matches Some(c) && 200 <= c && c < 300 ==> t == Tone::Good,
        code matches Some(c) && c >= 400 ==> t == Tone::Bad,
        code matches Some(c) && c < 200 ==> t == Tone::Caution,
        code matches Some(c) && 300 <= c && c < 400 ==> t == Tone::Caution,
        code is None ==> t == Tone::Caution,
{
    proof {
        lemma_tone_classes();
    }
    match code {
        Some(c) => if c >= 200 && c < 300 {
            Tone::Good
        } else if c >= 400 {
            Tone::Bad
        } else {
            Tone::Caution
        },
        None => Tone::Caution,
    }
}

fn push_line(lines: &mut Vec<ReportLine>, l: ReportLine)
    ensures
        line_views(final(lines)@) == line_views(old(lines)@).push(l@),
{
    lines.push(l);
    assert(line_views(lines@) =~= line_views(old(lines)@).push(l@));
}

fn push_ping_body(lines: &mut Vec<ReportLine>, p: &PingStats)
    ensures
        line_views(final(lines)@) == line_views(old(lines)@) + ping_body(*p),
{
    let ghost start = line_views(lines@);
    if p.received > 0 {
        push_line(lines, ReportLine::PingPackets { received: p.received, transmitted: p.transmitted });
        let min_ms = match p.min_latency_ms {
            Some(v) => v,
            None => 0,
        };
        let max_ms = match p.max_latency_ms {
            Some(v) => v,
            None => 0,
        };
        push_line(
            lines,
            ReportLine::PingLatency {
                min_ms,
                max_ms,
                total_ms: p.total_latency_ms,
                received: p.received,
            },
        );
    } else {
        push_line(lines, ReportLine::PingAllLost { transmitted: p.transmitted });
    }
    assert(line_views(lines@) =~= start + ping_body(*p));
}

fn push_dns_body(lines: &mut Vec<ReportLine>, d: &DnsResult)
    ensures
        line_views(final(lines)@) == line_views(old(lines)@) + dns_body(*d),
{
    let ghost start = line_views(lines@);
    if d.ips.len() > 0 {
        push_line(lines, ReportLine::DnsTime { ms: d.resolve_time_ms });
        let list = join(&d.ips, ", ");
        push_line(lines, ReportLine::DnsAddresses { list });
    } else {
        push_line(lines, ReportLine::DnsFailed { hostname: d.hostname.clone(), ms: d.resolve_time_ms });
    }
    assert(line_views(lines@) =~= start + dns_body(*d));
}

fn push_tcp_body(lines: &mut Vec<ReportLine>, t: &TcpResult)
    ensures
        line_views(final(lines)@) == line_views(old(lines)@) + tcp_body(*t),
{
    let ghost start = line_views(lines@);
    push_line(lines, ReportLine::TcpStatus { port: t.port, success: t.success, ms: t.duration_ms });
    assert(line_views(lines@) =~= start + tcp_body(*t));
}

fn push_http_body(lines: &mut Vec<ReportLine>, h: &HttpResult)
    ensures
        line_views(final(lines)@) == line_views(old(lines)@) + http_body(*h),
{
    let ghost start = line_views(lines@);
    push_line(
        lines,
        ReportLine::HttpStatus {
            text: h.status_text.clone(),
            ms: h.ttfb_ms,
            tone: http_tone(h.status_code),
        },
    );
    assert(line_views(lines@) =~= start + http_body(*h));
}

fn push_dashboard_ping(lines: &mut Vec<ReportLine>, p: &Option<PingStats>)
    ensures
        line_views(final(lines)@) == line_views(old(lines)@) + dashboard_ping(*p),
{
    let ghost start = line_views(lines@);
    match p {
        Some(p) => {
            push_line(lines, ReportLine::SectionTitle(Section::Ping));
            push_ping_body(lines, p);
            push_line(lines, ReportLine::Blank);
        },
        None => {},
    }
    assert(line_views(lines@) =~= start + dashboard_ping(*p));
}

fn push_dashboard_dns(lines: &mut Vec<ReportLine>, d: &Option<DnsResult>)
    ensures
        line_views(final(lines)@) == line_views(old(lines)@) + dashboard_dns(*d),
{
    let ghost start = line_views(lines@);
    match d {
        Some(d) => {
            push_line(lines, ReportLine::SectionTitle(Section::Dns));
            push_dns_body(lines, d);
            push_line(lines, ReportLine::Blank);
        },
        None => {},
    }
    assert(line_views(lines@) =~= start + dashboard_dns(*d));
}

fn push_dashboard_tcp(lines: &mut Vec<ReportLine>, t: &Option<TcpResult>)
    ensures
        line_views(final(lines)@) == line_views(old(lines)@) + dashboard_tcp(*t),
{
    let ghost start = line_views(lines@);
    match t {
        Some(t) => {
            push_line(lines, ReportLine::SectionTitle(Section::Tcp));
            push_tcp_body(lines, t);
            push_line(lines, ReportLine::Blank);
        },
        None => {},
    }
    assert(line_views(lines@) =~= start + dashboard_tcp(*t));
}

fn push_dashboard_http(lines: &mut Vec<ReportLine>, h: &Option<HttpResult>)
    ensures
        line_views(final(lines)@) == line_views(old(lines)@) + dashboard_http(*h),
{
    let ghost start = line_views(lines@);
    match h {
        Some(h) => {
            push_line(lines, ReportLine::SectionTitle(Section::Http));
            push_http_body(lines, h);
            push_line(lines, ReportLine::Blank);
        },
        None => {},
    }
    assert(line_views(lines@) =~= start + dashboard_http(*h));
}

/// The dashboard view of a round.
pub fn build_tui_content(result: &DiagnosticResult) -> (lines: Vec<ReportLine>)
    ensures
        line_views(lines@) == dashboard_layout(*result),
{
    let mut lines: Vec<ReportLine> = Vec::new();
    assert(line_views(lines@) =~= Seq::<LineView>::empty());
    push_line(
        &mut lines,
        ReportLine::RunHeader { run_number: result.run_number, timestamp: result.timestamp.clone() },
    );
    push_line(&mut lines, ReportLine::Blank);
    push_dashboard_ping(&mut lines, &result.ping);
    push_dashboard_dns(&mut lines, &result.dns);
    push_dashboard_tcp(&mut lines, &result.tcp);
    push_dashboard_http(&mut lines, &result.http);
    push_line(&mut lines, ReportLine::QuitHint);
    assert(line_views(lines@) =~= dashboard_layout(*result));
    lines
}


fn push_console_error(lines: &mut Vec<ReportLine>, section: Section, e: &String)
    ensures
        line_views(final(lines)@) == line_views(old(lines)@) + seq![
            LineView::SectionError { section: section, message: e@ },
        ],
{
    let ghost start = line_views(lines@);
    push_line(lines, ReportLine::SectionError { section, message: e.clone() });
    assert(line_views(lines@) =~= start + seq![
        LineView::SectionError { section: section, message: e@ },
    ]);
}

fn push_console_ping(lines: &mut Vec<ReportLine>, p: &Result<PingStats, String>)
    ensures
        line_views(final(lines)@) == line_views(old(lines)@) + console_ping(*p),
{
    let ghost start = line_views(lines@);
    match p {
        Ok(p) => {
            push_line(lines, ReportLine::SectionIntro(Section::Ping));
            push_ping_body(lines, p);
        },
        Err(e) => push_console_error(lines, Section::Ping, e),
    }
    assert(line_views(lines@) =~= start + console_ping(*p));
}

fn push_console_dns(lines: &mut Vec<ReportLine>, d: &Result<DnsResult, String>)
    ensures
        line_views(final(lines)@) == line_views(old(lines)@) + console_dns(*d),
{
    let ghost start = line_views(lines@);
    match d {
        Ok(d) => {
            push_line(lines, ReportLine::SectionIntro(Section::Dns));
            push_dns_body(lines, d);
        },
        Err(e) => push_console_error(lines, Section::Dns, e),
    }
    assert(line_views(lines@) =~= start + console_dns(*d));
}

fn push_console_tcp(lines: &mut Vec<ReportLine>, t: &Result<TcpResult, String>)
    ensures
        line_views(final(lines)@) == line_views(old(lines)@) + console_tcp(*t),
{
    let ghost start = line_views(lines@);
    match t {
        Ok(t) => {
            push_line(lines, ReportLine::SectionIntro(Section::Tcp));
            push_tcp_body(lines, t);
        },
        Err(e) => push_console_error(lines, Section::Tcp, e),
    }
    assert(line_views(lines@) =~= start + console_tcp(*t));
}

fn push_console_http(lines: &mut Vec<ReportLine>, h: &Result<HttpResult, String>)
    ensures
        line_views(final(lines)@) == line_views(old(lines)@) + console_http(*h),
{
    let ghost start = line_views(lines@);
    match h {
        Ok(h) => {
            push_line(lines, ReportLine::SectionIntro(Section::Http));
            push_http_body(lines, h);
        },
        Err(e) => push_console_error(lines, Section::Http, e),
    }
    assert(line_views(lines@) =~= start + console_http(*h));
}

/// The command line report of round `run_number` started at `time`.
pub fn console_report(
    run_number: u32,
    time: &str,
    ping: &Result<PingStats, String>,
    dns: &Result<DnsResult, String>,
    tcp: &Result<TcpResult, String>,
    http: &Result<HttpResult, String>,
) -> (lines: Vec<ReportLine>)
    ensures
        line_views(lines@) == console_layout(run_number, time@, *ping, *dns, *tcp, *http),
{
    let mut lines: Vec<ReportLine> = Vec::new();
    assert(line_views(lines@) =~= Seq::<LineView>::empty());
    push_line(&mut lines, ReportLine::RunHeader { run_number, timestamp: time.to_owned() });
    push_console_ping(&mut lines, ping);
    push_console_dns(&mut lines, dns);
    push_console_tcp(&mut lines, tcp);
    push_console_http(&mut lines, http);
    assert(line_views(lines@) =~= console_layout(run_number, time@, *ping, *dns, *tcp, *http));
    lines
}

/// The number of rounds the dashboard keeps.
pub const HISTORY_LIMIT: usize = 20;

/// The rounds kept after `r` is added to `kept`: the most recent ones, at
/// most `HISTORY_LIMIT` of them, oldest first.
pub open spec fn history_after(kept: Seq<DiagnosticResult>, r: DiagnosticResult) -> Seq<
    DiagnosticResult,
> {
    if kept.len() + 1 > HISTORY_LIMIT {
        kept.push(r).drop_first()
    } else {
        kept.push(r)
    }
}

/// The dashboard keeps the most recent rounds: after a round is added to at
/// most `HISTORY_LIMIT` kept ones, the newest is last, at most
/// `HISTORY_LIMIT` are kept, and they are the latest of all rounds in order.
pub proof fn lemma_history_keeps_latest(kept: Seq<DiagnosticResult>, r: DiagnosticResult)
    requires
        kept.len() <= HISTORY_LIMIT,
    ensures
        history_after(kept, r).len() == (if kept.len() < HISTORY_LIMIT {
            (kept.len() + 1) as int
        } else {
            HISTORY_LIMIT as int
        }),
        history_after(kept, r).last() == r,
        forall|i: int|
            0 <= i < history_after(kept, r).len() ==> #[trigger] history_after(kept, r)[i]
                == kept.push(r)[kept.len() + 1 - history_after(kept, r).len() + i],
{
}

/// The state of a monitoring session: the number of the last round and the
/// most recent rounds.
pub struct Dashboard {
    run_number: u32,
    results: Vec<DiagnosticResult>,
}

impl Dashboard {
    /// The number of the last round started (0 before the first).
    pub closed spec fn run_number(&self) -> u32 {
        self.run_number
    }

    /// The rounds kept, oldest first.
    pub closed spec fn history(&self) -> Seq<DiagnosticResult> {
        self.results@
    }

    /// At most `HISTORY_LIMIT` rounds are kept.
    pub closed spec fn wf(&self) -> bool {
        self.results.len() <= HISTORY_LIMIT
    }

    /// A session before its first round.
    pub fn new() -> (d: Self)
        ensures
            d.wf(),
            d.run_number() == 0,
            d.history() == Seq::<DiagnosticResult>::empty(),
    {
        Dashboard { run_number: 0, results: Vec::new() }
    }

    /// The number of the last round started (0 before the first).
    pub fn last_run(&self) -> (n: u32)
        ensures
            n == self.run_number(),
    {
        self.run_number
    }

    /// Starts the next round and returns its number.
    pub fn next_run(&mut self) -> (n: u32)
        requires
            old(self).run_number() < u32::MAX,
        ensures
            n == old(self).run_number() + 1,
            final(self).run_number() == n,
            final(self).history() == old(self).history(),
            final(self).wf() == old(self).wf(),
    {
        self.run_number = self.run_number + 1;
        self.run_number
    }

    /// Keeps round `r`, dropping the oldest one when more than
    /// `HISTORY_LIMIT` would be kept.
    pub fn record(&mut self, r: DiagnosticResult)
        requires
            old(self).wf(),
        ensures
            final(self).wf(),
            final(self).run_number() == old(self).run_number(),
            final(self).history() == history_after(old(self).history(), r),
    {
        self.results.push(r);
        if self.results.len() > HISTORY_LIMIT {
            self.results.remove(0);
        }
    }

    /// The number of rounds kept.
    pub fn kept(&self) -> (n: usize)
        ensures
            n == self.history().len(),
    {
        self.results.len()
    }
}

/// Whether a key event asks to leave the dashboard: a press of `q`.
pub fn is_quit_key(pressed: bool, key: Option<char>) -> (r: bool)
    ensures
        r == (pressed && key == Some('q')),
{
    match key {
        Some(c) => pressed && c == 'q',
        None => false,
    }
}

/// Whether a session limited to `limit_secs` seconds (0 for no limit) is
/// over after `elapsed_ns` nanoseconds.
pub fn duration_reached(limit_secs: u64, elapsed_ns: u128) -> (r: bool)
    ensures
        r == (limit_secs > 0 && elapsed_ns >= limit_secs * 1_000_000_000),
{
    limit_secs > 0 && elapsed_ns >= (limit_secs as u128) * 1_000_000_000
}

} // verus!
