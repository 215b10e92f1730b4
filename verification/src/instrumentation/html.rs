//! The HTML latency report of the latency demo.
use vstd::prelude::*;
use vstd::string::StringExecFns;
use crate::clocks::format::{decimal, push_decimal};
use crate::instrumentation::reporter::Snapshot;

verus! {

/// The page written when no event was measured.
pub const NO_EVENTS_PAGE: &'static str = "<!DOCTYPE html><html><body><h1>No events recorded</h1></body></html>";

/// The document head with its style sheet, up to the opening of the page
/// container.
pub const REPORT_HEAD: &'static str = r##"<!DOCTYPE html>
<html>
<head>
<meta charset="UTF-8">
<meta name="viewport" content="width=device-width, initial-scale=1">
<title>Latency Report</title>
<style>
* { box-sizing: border-box; }
body {
    font-family: -apple-system, BlinkMacSystemFont, "Segoe UI", Roboto, Helvetica, Arial, sans-serif;
    background: #f5f7fa;
    color: #2d3748;
    margin: 0;
    padding: 40px 20px;
    line-height: 1.6;
}
.container {
    max-width: 960px;
    margin: 0 auto;
}
h1 {
    font-size: 2rem;
    font-weight: 600;
    margin: 0 0 8px 0;
    color: #1a202c;
}
.subtitle {
    color: #718096;
    font-size: 0.95rem;
    margin: 0 0 24px 0;
}
.cards {
    display: grid;
    grid-template-columns: repeat(auto-fit, minmax(140px, 1fr));
    gap: 16px;
    margin-bottom: 32px;
}
.card {
    background: #fff;
    border-radius: 10px;
    padding: 16px 20px;
    box-shadow: 0 1px 3px rgba(0,0,0,0.08);
    border: 1px solid #e2e8f0;
}
.card-label {
    font-size: 0.75rem;
    text-transform: uppercase;
    letter-spacing: 0.05em;
    color: #a0aec0;
    margin: 0 0 4px 0;
}
.card-value {
    font-size: 1.4rem;
    font-weight: 700;
    color: #2d3748;
    margin: 0;
}
h2 {
    font-size: 1.25rem;
    font-weight: 600;
    margin: 32px 0 12px 0;
    color: #1a202c;
}
svg {
    background: #fff;
    border-radius: 10px;
    box-shadow: 0 1px 3px rgba(0,0,0,0.08);
    border: 1px solid #e2e8f0;
    display: block;
    width: 100%;
    height: auto;
    padding: 16px;
}
</style>
</head>
<body>
<div class="container">
"##;

/// Rendering of an optional latency in a card: its decimal form, or `-`.
pub open spec fn card_value_text(v: Option<u64>) -> Seq<char> {
    match v {
        Some(n) => decimal(n as nat),
        None => "-"@,
    }
}

/// A statistic card: the label above the value in milliseconds.
pub open spec fn card_text(label: Seq<char>, v: Option<u64>) -> Seq<char> {
    "<div class=\"card\">"@ + "<p class=\"card-label\">"@ + label + "</p><p class=\"card-value\">"@ + card_value_text(v)
        + " ms</p>"@ + "</div>\n"@
}

/// The report page for `total_events` measured events with the statistics
/// of `s` and the two charts.
pub open spec fn latency_report_text(total_events: usize, s: Snapshot, scatter_svg: Seq<char>, histogram_svg: Seq<char>) -> Seq<char> {
    if total_events == 0 {
        NO_EVENTS_PAGE@
    } else {
        REPORT_HEAD@ + "<h1>Latency Report</h1>\n<p class=\"subtitle\">Total events: "@ + decimal(total_events as nat)
            + "</p>\n"@ + "<div class=\"cards\">\n"@ + card_text("Min"@, s.min) + card_text("P50"@, s.p50)
            + card_text("P95"@, s.p95) + card_text("P99"@, s.p99) + card_text("Max"@, s.max) + "</div>\n"@
            + "<h2>Latency Over Time</h2>\n"@ + scatter_svg + "<h2>Latency Histogram</h2>\n"@ + histogram_svg
            + "</div>\n</body>\n</html>\n"@
    }
}

fn push_card(html: &mut String, label: &str, v: Option<u64>)
    ensures
        final(html)@ == old(html)@ + card_text(label@, v),
{
    html.append("<div class=\"card\">");
    html.append("<p class=\"card-label\">");
    html.append(label);
    html.append("</p><p class=\"card-value\">");
    match v {
        Some(n) => push_decimal(html, n),
        None => html.append("-"),
    }
    html.append(" ms</p>");
    html.append("</div>\n");
}

/// The HTML latency report: a page with the number of events, a card per
/// statistic of `snapshot`, and the scatter plot and histogram charts; or a
/// short page saying that no event was recorded.
pub fn latency_report_html(total_events: usize, snapshot: &Snapshot, scatter_svg: &str, histogram_svg: &str) -> (r: String)
    ensures
        r@ == latency_report_text(total_events, *snapshot, scatter_svg@, histogram_svg@),
{
    if total_events == 0 {
        return String::from_str(NO_EVENTS_PAGE);
    }
    let mut html = String::from_str(REPORT_HEAD);
    html.append("<h1>Latency Report</h1>\n<p class=\"subtitle\">Total events: ");
    push_decimal(&mut html, total_events as u64);
    html.append("</p>\n");
    html.append("<div class=\"cards\">\n");
    push_card(&mut html, "Min", snapshot.min);
    push_card(&mut html, "P50", snapshot.p50);
    push_card(&mut html, "P95", snapshot.p95);
    push_card(&mut html, "P99", snapshot.p99);
    push_card(&mut html, "Max", snapshot.max);
    html.append("</div>\n");
    html.append("<h2>Latency Over Time</h2>\n");
    html.append(scatter_svg);
    html.append("<h2>Latency Histogram</h2>\n");
    html.append(histogram_svg);
    html.append("</div>\n</body>\n</html>\n");
    html
}

/// `page` contains `fragment` somewhere.
pub open spec fn contains_text(page: Seq<char>, fragment: Seq<char>) -> bool {
    exists|i: int|
        0 <= i && i + fragment.len() <= page.len() && #[trigger] page.subrange(i, i + fragment.len()) == fragment
}

/// A statistic shown under its label: the label, then the value in
/// milliseconds (`-` when absent).
pub open spec fn statistic_shown(label: Seq<char>, v: Option<u64>) -> Seq<char> {
    "<p class=\"card-label\">"@ + label + "</p><p class=\"card-value\">"@ + (match v {
        Some(n) => decimal(n as nat),
        None => "-"@,
    }) + " ms</p>"@
}

proof fn lemma_contains_middle(p: Seq<char>, f: Seq<char>, q: Seq<char>)
    ensures
        contains_text(p + f + q, f),
{
    assert((p + f + q).subrange(p.len() as int, (p.len() + f.len()) as int) =~= f);
}

proof fn lemma_contains_prepend(a: Seq<char>, b: Seq<char>, f: Seq<char>)
    requires
        contains_text(b, f),
    ensures
        contains_text(a + b, f),
{
    let i = choose|i: int| 0 <= i && i + f.len() <= b.len() && #[trigger] b.subrange(i, i + f.len()) == f;
    assert((a + b).subrange(a.len() + i, a.len() + i + f.len()) =~= b.subrange(i, i + f.len()));
}

proof fn lemma_contains_append(a: Seq<char>, b: Seq<char>, f: Seq<char>)
    requires
        contains_text(a, f),
    ensures
        contains_text(a + b, f),
{
    let i = choose|i: int| 0 <= i && i + f.len() <= a.len() && #[trigger] a.subrange(i, i + f.len()) == f;
    assert((a + b).subrange(i, i + f.len()) =~= a.subrange(i, i + f.len()));
}

/// Each statistic card of a report shows the snapshot field it is labelled
/// with: the page for a nonzero number of events shows the minimum under
/// `Min`, the median under `P50`, the 95th and 99th percentiles under `P95`
/// and `P99`, and the maximum under `Max`.
#[verifier::rlimit(30)]
pub proof fn lemma_cards_show_their_statistics(
    total_events: usize,
    s: Snapshot,
    scatter_svg: Seq<char>,
    histogram_svg: Seq<char>,
)
    requires
        total_events > 0,
    ensures
        ({
            let page = latency_report_text(total_events, s, scatter_svg, histogram_svg);
            &&& contains_text(page, statistic_shown("Min"@, s.min))
            &&& contains_text(page, statistic_shown("P50"@, s.p50))
            &&& contains_text(page, statistic_shown("P95"@, s.p95))
            &&& contains_text(page, statistic_shown("P99"@, s.p99))
            &&& contains_text(page, statistic_shown("Max"@, s.max))
        }),
{
    let d = "<div class=\"card\">"@;
    let e = "</div>\n"@;
    let c0 = card_text("Min"@, s.min);
    let c1 = card_text("P50"@, s.p50);
    let c2 = card_text("P95"@, s.p95);
    let c3 = card_text("P99"@, s.p99);
    let c4 = card_text("Max"@, s.max);
    let f0 = statistic_shown("Min"@, s.min);
    let f1 = statistic_shown("P50"@, s.p50);
    let f2 = statistic_shown("P95"@, s.p95);
    let f3 = statistic_shown("P99"@, s.p99);
    let f4 = statistic_shown("Max"@, s.max);
    let x0 = REPORT_HEAD@;
    let x1 = x0 + "<h1>Latency Report</h1>\n<p class=\"subtitle\">Total events: "@;
    let x2 = x1 + decimal(total_events as nat);
    let x3 = x2 + "</p>\n"@;
    let x4 = x3 + "<div class=\"cards\">\n"@;
    let x5 = x4 + c0;
    let x6 = x5 + c1;
    let x7 = x6 + c2;
    let x8 = x7 + c3;
    let x9 = x8 + c4;
    let x10 = x9 + "</div>\n"@;
    let x11 = x10 + "<h2>Latency Over Time</h2>\n"@;
    let x12 = x11 + scatter_svg;
    let x13 = x12 + "<h2>Latency Histogram</h2>\n"@;
    let x14 = x13 + histogram_svg;
    let x15 = x14 + "</div>\n</body>\n</html>\n"@;
    assert(x15 == latency_report_text(total_events, s, scatter_svg, histogram_svg));
    assert(c0 =~= d + f0 + e);
    lemma_contains_middle(d, f0, e);
    lemma_contains_prepend(x4, c0, f0);
    lemma_contains_append(x5, c1, f0);
    lemma_contains_append(x6, c2, f0);
    lemma_contains_append(x7, c3, f0);
    lemma_contains_append(x8, c4, f0);
    lemma_contains_append(x9, "</div>\n"@, f0);
    lemma_contains_append(x10, "<h2>Latency Over Time</h2>\n"@, f0);
    lemma_contains_append(x11, scatter_svg, f0);
    lemma_contains_append(x12, "<h2>Latency Histogram</h2>\n"@, f0);
    lemma_contains_append(x13, histogram_svg, f0);
    lemma_contains_append(x14, "</div>\n</body>\n</html>\n"@, f0);
    assert(c1 =~= d + f1 + e);
    lemma_contains_middle(d, f1, e);
    lemma_contains_prepend(x5, c1, f1);
    lemma_contains_append(x6, c2, f1);
    lemma_contains_append(x7, c3, f1);
    lemma_contains_append(x8, c4, f1);
    lemma_contains_append(x9, "</div>\n"@, f1);
    lemma_contains_append(x10, "<h2>Latency Over Time</h2>\n"@, f1);
    lemma_contains_append(x11, scatter_svg, f1);
    lemma_contains_append(x12, "<h2>Latency Histogram</h2>\n"@, f1);
    lemma_contains_append(x13, histogram_svg, f1);
    lemma_contains_append(x14, "</div>\n</body>\n</html>\n"@, f1);
    assert(c2 =~= d + f2 + e);
    lemma_contains_middle(d, f2, e);
    lemma_contains_prepend(x6, c2, f2);
    lemma_contains_append(x7, c3, f2);
    lemma_contains_append(x8, c4, f2);
    lemma_contains_append(x9, "</div>\n"@, f2);
    lemma_contains_append(x10, "<h2>Latency Over Time</h2>\n"@, f2);
    lemma_contains_append(x11, scatter_svg, f2);
    lemma_contains_append(x12, "<h2>Latency Histogram</h2>\n"@, f2);
    lemma_contains_append(x13, histogram_svg, f2);
    lemma_contains_append(x14, "</div>\n</body>\n</html>\n"@, f2);
    assert(c3 =~= d + f3 + e);
    lemma_contains_middle(d, f3, e);
    lemma_contains_prepend(x7, c3, f3);
    lemma_contains_append(x8, c4, f3);
    lemma_contains_append(x9, "</div>\n"@, f3);
    lemma_contains_append(x10, "<h2>Latency Over Time</h2>\n"@, f3);
    lemma_contains_append(x11, scatter_svg, f3);
    lemma_contains_append(x12, "<h2>Latency Histogram</h2>\n"@, f3);
    lemma_contains_append(x13, histogram_svg, f3);
    lemma_contains_append(x14, "</div>\n</body>\n</html>\n"@, f3);
    assert(c4 =~= d + f4 + e);
    lemma_contains_middle(d, f4, e);
    lemma_contains_prepend(x8, c4, f4);
    lemma_contains_append(x9, "</div>\n"@, f4);
    lemma_contains_append(x10, "<h2>Latency Over Time</h2>\n"@, f4);
    lemma_contains_append(x11, scatter_svg, f4);
    lemma_contains_append(x12, "<h2>Latency Histogram</h2>\n"@, f4);
    lemma_contains_append(x13, histogram_svg, f4);
    lemma_contains_append(x14, "</div>\n</body>\n</html>\n"@, f4);
}

} // verus!
