//! Reports: a list of endpoints as an XML document or an HTML page.

use crate::text::{chars_of, string_of};
use crate::types::{views, Endpoint, EndpointType, EndpointView};
use vstd::prelude::*;
use vstd::string::StringExecFns;

verus! {

/// What stands for a character in XML and HTML text.
pub open spec fn entity(c: char) -> Seq<char> {
    if c == '&' {
        "&amp;"@
    } else if c == '<' {
        "&lt;"@
    } else if c == '>' {
        "&gt;"@
    } else if c == '"' {
        "&quot;"@
    } else if c == '\'' {
        "&apos;"@
    } else {
        seq![c]
    }
}

/// A text with each of its characters replaced by what stands for it.
pub open spec fn escaped(s: Seq<char>) -> Seq<char>
    decreases s.len(),
{
    if s.len() == 0 {
        Seq::empty()
    } else {
        escaped(s.drop_last()) + entity(s.last())
    }
}

/// The decimal digit of a number below ten.
pub open spec fn digit(n: int) -> char {
    if n == 0 {
        '0'
    } else if n == 1 {
        '1'
    } else if n == 2 {
        '2'
    } else if n == 3 {
        '3'
    } else if n == 4 {
        '4'
    } else if n == 5 {
        '5'
    } else if n == 6 {
        '6'
    } else if n == 7 {
        '7'
    } else if n == 8 {
        '8'
    } else {
        '9'
    }
}

/// A number in decimal notation.
pub open spec fn decimal(n: nat) -> Seq<char>
    decreases n,
{
    if n < 10 {
        seq![digit(n as int)]
    } else {
        decimal(n / 10).push(digit((n % 10) as int))
    }
}

/// The name of an endpoint type as reports show it.
pub open spec fn type_label(t: EndpointType) -> Seq<char> {
    match t {
        EndpointType::Rest => "Rest"@,
        EndpointType::GraphQL => "GraphQL"@,
        EndpointType::WebSocket => "WebSocket"@,
        EndpointType::Unknown => "Unknown"@,
    }
}

/// The style class of an endpoint type in the HTML page.
pub open spec fn badge_class(t: EndpointType) -> Seq<char> {
    match t {
        EndpointType::Rest => "badge-rest"@,
        EndpointType::GraphQL => "badge-graphql"@,
        EndpointType::WebSocket => "badge-websocket"@,
        EndpointType::Unknown => "badge-unknown"@,
    }
}

/// A text, or a dash where there is none.
pub open spec fn or_dash(text: Option<Seq<char>>) -> Seq<char> {
    match text {
        Some(t) => t,
        None => "-"@,
    }
}

/// The XML element of one endpoint: its URL, its method where it has
/// one, its type, and its source where it has one.
pub open spec fn xml_element(e: EndpointView) -> Seq<char> {
    "\n  <endpoint>"@ + "\n    <url>"@ + escaped(e.url) + "</url>"@ + match e.method {
        Some(m) => "\n    <method>"@ + escaped(m) + "</method>"@,
        None => Seq::empty(),
    } + "\n    <type>"@ + type_label(e.endpoint_type) + "</type>"@ + match e.source {
        Some(s) => "\n    <source>"@ + escaped(s) + "</source>"@,
        None => Seq::empty(),
    } + "\n  </endpoint>"@
}

/// The XML elements of a list of endpoints, one after the other.
pub open spec fn xml_elements(es: Seq<EndpointView>) -> Seq<char>
    decreases es.len(),
{
    if es.len() == 0 {
        Seq::empty()
    } else {
        xml_elements(es.drop_last()) + xml_element(es.last())
    }
}

/// The XML document of a list of endpoints.
pub open spec fn xml_document(es: Seq<EndpointView>) -> Seq<char> {
    "<?xml version=\"1.0\" encoding=\"UTF-8\"?>"@ + "\n<endpoints>"@ + xml_elements(es)
        + "\n</endpoints>"@
}

/// The table row of one endpoint in the HTML page: URL, type, method,
/// and source with line; a dash stands for what is not known.
pub open spec fn html_row(e: EndpointView) -> Seq<char> {
    "                <tr>\n                    <td>"@ + escaped(e.url)
        + "</td>\n                    <td><span class=\"badge "@ + badge_class(e.endpoint_type)
        + "\">"@ + type_label(e.endpoint_type) + "</span></td>\n                    <td>"@
        + escaped(or_dash(e.method)) + "</td>\n                    <td>"@ + escaped(
        or_dash(e.source),
    ) + ":"@ + match e.line {
        Some(l) => decimal(l as nat),
        None => "-"@,
    } + "</td>\n                </tr>\n"@
}

/// The table rows of a list of endpoints.
pub open spec fn html_rows(es: Seq<EndpointView>) -> Seq<char>
    decreases es.len(),
{
    if es.len() == 0 {
        Seq::empty()
    } else {
        html_rows(es.drop_last()) + html_row(es.last())
    }
}

/// The HTML page of a list of endpoints.
pub open spec fn html_page(es: Seq<EndpointView>) -> Seq<char> {
    HTML_HEAD@ + html_rows(es) + HTML_TAIL@
}

/// The HTML page up to the rows of its table.
pub const HTML_HEAD: &'static str = r#"<!DOCTYPE html>
<html>
<head>
    <title>Endpointo Report</title>
    <style>
        body { font-family: 'Segoe UI', Tahoma, Geneva, Verdana, sans-serif; margin: 20px; background-color: #f5f5f5; }
        h1 { color: #333; }
        .container { background: white; padding: 20px; border-radius: 8px; box-shadow: 0 2px 4px rgba(0,0,0,0.1); }
        table { width: 100%; border-collapse: collapse; margin-top: 20px; }
        th, td { padding: 12px; text-align: left; border-bottom: 1px solid #ddd; }
        th { background-color: #f8f9fa; color: #333; cursor: pointer; }
        tr:hover { background-color: #f1f1f1; }
        .badge { padding: 4px 8px; border-radius: 4px; font-size: 0.85em; font-weight: bold; }
        .badge-rest { background: #e3f2fd; color: #1976d2; }
        .badge-graphql { background: #f3e5f5; color: #7b1fa2; }
        .badge-websocket { background: #e8f5e9; color: #388e3c; }
        .badge-unknown { background: #eeeeee; color: #616161; }
        #search { padding: 10px; width: 300px; margin-bottom: 10px; border: 1px solid #ccc; border-radius: 4px; }
    </style>
</head>
<body>
    <div class="container">
        <h1>Endpointo Scan Report</h1>
        <input type="text" id="search" onkeyup="filterTable()" placeholder="Search URLs, methods, sources...">
        <table id="resultsTable">
            <thead>
                <tr>
                    <th onclick="sortTable(0)">URL</th>
                    <th onclick="sortTable(1)">Type</th>
                    <th onclick="sortTable(2)">Method</th>
                    <th onclick="sortTable(3)">Source</th>
                </tr>
            </thead>
            <tbody>
"#;

/// The HTML page after the rows of its table.
pub const HTML_TAIL: &'static str = r#"            </tbody>
        </table>
    </div>

    <script>
        function filterTable() {
            var input, filter, table, tr, td, i, j, found;
            input = document.getElementById("search");
            filter = input.value.toUpperCase();
            table = document.getElementById("resultsTable");
            tr = table.getElementsByTagName("tr");
            for (i = 1; i < tr.length; i++) {
                found = false;
                td = tr[i].getElementsByTagName("td");
                for (j = 0; j < td.length; j++) {
                    if (td[j].textContent.toUpperCase().indexOf(filter) > -1) {
                        found = true;
                        break;
                    }
                }
                tr[i].style.display = found ? "" : "none";
            }
        }

        function sortTable(n) {
            var table, rows, switching, i, x, y, shouldSwitch, dir, switchcount = 0;
            table = document.getElementById("resultsTable");
            switching = true;
            dir = "asc";
            while (switching) {
                switching = false;
                rows = table.rows;
                for (i = 1; i < (rows.length - 1); i++) {
                    shouldSwitch = false;
                    x = rows[i].getElementsByTagName("TD")[n];
                    y = rows[i + 1].getElementsByTagName("TD")[n];
                    if (dir == "asc") {
                        if (x.innerHTML.toLowerCase() > y.innerHTML.toLowerCase()) { shouldSwitch = true; break; }
                    } else if (dir == "desc") {
                        if (x.innerHTML.toLowerCase() < y.innerHTML.toLowerCase()) { shouldSwitch = true; break; }
                    }
                }
                if (shouldSwitch) {
                    rows[i].parentNode.insertBefore(rows[i + 1], rows[i]);
                    switching = true;
                    switchcount ++;
                } else if (switchcount == 0 && dir == "asc") {
                    dir = "desc";
                    switching = true;
                }
            }
        }
    </script>
</body>
</html>"#;

/// Escapes the characters that are special in XML and HTML.
pub fn escape_xml(s: &str) -> (r: String)
    ensures
        r@ == escaped(s@),
{
    let chars = chars_of(s);
    let mut out: Vec<char> = Vec::new();
    let mut i: usize = 0;
    while i < chars.len()
        invariant
            i <= chars.len(),
            chars@ == s@,
            out@ == escaped(chars@.take(i as int)),
        decreases chars.len() - i,
    {
        proof {
            let next = chars@.take(i + 1);
            assert(next.drop_last() == chars@.take(i as int));
        }
        let c = chars[i];
        if c == '&' {
            let mut e = chars_of("&amp;");
            out.append(&mut e);
        } else if c == '<' {
            let mut e = chars_of("&lt;");
            out.append(&mut e);
        } else if c == '>' {
            let mut e = chars_of("&gt;");
            out.append(&mut e);
        } else if c == '"' {
            let mut e = chars_of("&quot;");
            out.append(&mut e);
        } else if c == '\'' {
            let mut e = chars_of("&apos;");
            out.append(&mut e);
        } else {
            out.push(c);
        }
        i += 1;
    }
    assert(chars@.take(chars@.len() as int) == chars@);
    string_of(&out)
}

/// The decimal digit of a number below ten.
fn digit_of(n: usize) -> (r: char)
    requires
        n < 10,
    ensures
        r == digit(n as int),
{
    if n == 0 {
        '0'
    } else if n == 1 {
        '1'
    } else if n == 2 {
        '2'
    } else if n == 3 {
        '3'
    } else if n == 4 {
        '4'
    } else if n == 5 {
        '5'
    } else if n == 6 {
        '6'
    } else if n == 7 {
        '7'
    } else if n == 8 {
        '8'
    } else {
        '9'
    }
}

/// A number in decimal notation.
pub fn decimal_of(n: usize) -> (r: String)
    ensures
        r@ == decimal(n as nat),
{
    let mut digits: Vec<char> = Vec::new();
    let mut rest: usize = n;
    while rest >= 10
        invariant
            decimal(n as nat) == decimal(rest as nat) + backwards(digits@),
        decreases rest,
    {
        let d = digit_of(rest % 10);
        proof {
            assert(decimal((rest / 10) as nat).push(d) + backwards(digits@) =~= decimal(
                (rest / 10) as nat,
            ) + (seq![d] + backwards(digits@)));
        }
        digits.push(d);
        rest = rest / 10;
    }
    let mut out: Vec<char> = Vec::new();
    out.push(digit_of(rest));
    let mut k: usize = digits.len();
    while k > 0
        invariant
            k <= digits.len(),
            out@ == decimal(rest as nat) + backwards(digits@).take(digits@.len() - k),
        decreases k,
    {
        k -= 1;
        proof {
            let b = backwards(digits@);
            let done = digits@.len() - k - 1;
        }
        out.push(digits[k]);
    }
    string_of(&out)
}

/// The digits in the opposite order.
pub open spec fn backwards(digits: Seq<char>) -> Seq<char> {
    Seq::new(digits.len(), |i: int| digits[digits.len() - 1 - i])
}

/// The name of an endpoint type as reports show it.
pub fn type_label_of(t: EndpointType) -> (r: &'static str)
    ensures
        r@ == type_label(t),
{
    match t {
        EndpointType::Rest => "Rest",
        EndpointType::GraphQL => "GraphQL",
        EndpointType::WebSocket => "WebSocket",
        EndpointType::Unknown => "Unknown",
    }
}

/// The XML element of one endpoint.
fn element_of(endpoint: &Endpoint) -> (r: String)
    ensures
        r@ == xml_element(endpoint@),
{
    let mut xml = String::from_str("\n  <endpoint>");
    xml.append("\n    <url>");
    xml.append(escape_xml(endpoint.url.as_str()).as_str());
    xml.append("</url>");
    match &endpoint.method {
        Some(m) => {
            let mut part = String::from_str("\n    <method>");
            part.append(escape_xml(m.as_str()).as_str());
            part.append("</method>");
            xml.append(part.as_str());
        },
        None => {},
    }
    xml.append("\n    <type>");
    xml.append(type_label_of(endpoint.endpoint_type));
    xml.append("</type>");
    match &endpoint.source {
        Some(s) => {
            let mut part = String::from_str("\n    <source>");
            part.append(escape_xml(s.as_str()).as_str());
            part.append("</source>");
            xml.append(part.as_str());
        },
        None => {},
    }
    xml.append("\n  </endpoint>");
    xml
}

/// The endpoints as an XML document.
pub fn serialize_xml(endpoints: &Vec<Endpoint>) -> (r: String)
    ensures
        r@ == xml_document(views(endpoints@)),
{
    let ghost all = views(endpoints@);
    let mut body = String::new();
    let mut i: usize = 0;
    while i < endpoints.len()
        invariant
            i <= endpoints.len(),
            all == views(endpoints@),
            body@ == xml_elements(all.take(i as int)),
        decreases endpoints.len() - i,
    {
        proof {
            let next = all.take(i + 1);
            assert(next.drop_last() == all.take(i as int));
        }
        body.append(element_of(&endpoints[i]).as_str());
        i += 1;
    }
    assert(all.take(endpoints@.len() as int) == all);
    let mut xml = String::from_str("<?xml version=\"1.0\" encoding=\"UTF-8\"?>");
    xml.append("\n<endpoints>");
    xml.append(body.as_str());
    xml.append("\n</endpoints>");
    xml
}

/// The table row of one endpoint.
fn row_of(endpoint: &Endpoint) -> (r: String)
    ensures
        r@ == html_row(endpoint@),
{
    let class = match endpoint.endpoint_type {
        EndpointType::Rest => "badge-rest",
        EndpointType::GraphQL => "badge-graphql",
        EndpointType::WebSocket => "badge-websocket",
        EndpointType::Unknown => "badge-unknown",
    };
    let method = match &endpoint.method {
        Some(m) => escape_xml(m.as_str()),
        None => escape_xml("-"),
    };
    let source = match &endpoint.source {
        Some(s) => escape_xml(s.as_str()),
        None => escape_xml("-"),
    };
    let line = match endpoint.line {
        Some(l) => decimal_of(l),
        None => String::from_str("-"),
    };
    let mut row = String::from_str("                <tr>\n                    <td>");
    row.append(escape_xml(endpoint.url.as_str()).as_str());
    row.append("</td>\n                    <td><span class=\"badge ");
    row.append(class);
    row.append("\">");
    row.append(type_label_of(endpoint.endpoint_type));
    row.append("</span></td>\n                    <td>");
    row.append(method.as_str());
    row.append("</td>\n                    <td>");
    row.append(source.as_str());
    row.append(":");
    row.append(line.as_str());
    row.append("</td>\n                </tr>\n");
    row
}

/// The endpoints as an HTML page with a table that can be searched and
/// sorted.
pub fn serialize_html(endpoints: &Vec<Endpoint>) -> (r: String)
    ensures
        r@ == html_page(views(endpoints@)),
{
    let ghost all = views(endpoints@);
    let mut html = String::from_str(HTML_HEAD);
    let mut i: usize = 0;
    while i < endpoints.len()
        invariant
            i <= endpoints.len(),
            all == views(endpoints@),
            html@ == HTML_HEAD@ + html_rows(all.take(i as int)),
        decreases endpoints.len() - i,
    {
        proof {
            let next = all.take(i + 1);
            assert(next.drop_last() == all.take(i as int));
        }
        html.append(row_of(&endpoints[i]).as_str());
        i += 1;
    }
    assert(all.take(endpoints@.len() as int) == all);
    html.append(HTML_TAIL);
    html
}

} // verus!
