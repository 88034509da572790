use endpointo::output::{decimal_of, escape_xml, serialize_html, serialize_xml, HTML_HEAD, HTML_TAIL};
use endpointo::types::{Endpoint, EndpointType};

#[test]
fn special_characters_are_escaped_once() {
    assert_eq!(escape_xml("a&b<c>d\"e'f"), "a&amp;b&lt;c&gt;d&quot;e&apos;f");
    assert_eq!(escape_xml("&amp;"), "&amp;amp;");
    assert_eq!(escape_xml(""), "");
    assert_eq!(escape_xml("plain \u{e9}"), "plain \u{e9}");
}

#[test]
fn escaping_agrees_with_successive_replacement() {
    for s in ["<a href=\"x\">'&'</a>", "&&&", "<<>>", "no specials", "&lt;"] {
        let expected = s
            .replace('&', "&amp;")
            .replace('<', "&lt;")
            .replace('>', "&gt;")
            .replace('"', "&quot;")
            .replace('\'', "&apos;");
        assert_eq!(escape_xml(s), expected);
    }
}

#[test]
fn numbers_are_written_in_decimal() {
    for n in [0usize, 1, 9, 10, 11, 42, 99, 100, 101, 1000, 65535, 1234567890, usize::MAX] {
        assert_eq!(decimal_of(n), n.to_string());
    }
}

fn sample() -> Vec<Endpoint> {
    vec![
        Endpoint::new("/api/a?x=1&y=<2>".to_string(), EndpointType::Rest)
            .with_method("GET")
            .with_source("app.js")
            .with_line(12),
        Endpoint::new("wss://h/feed".to_string(), EndpointType::WebSocket),
        Endpoint::new("/graphql".to_string(), EndpointType::GraphQL).with_source("a'b"),
    ]
}

#[test]
fn xml_document_lists_each_endpoint() {
    let expected = [
        "<?xml version=\"1.0\" encoding=\"UTF-8\"?>\n",
        "<endpoints>\n",
        "  <endpoint>\n",
        "    <url>/api/a?x=1&amp;y=&lt;2&gt;</url>\n",
        "    <method>GET</method>\n",
        "    <type>Rest</type>\n",
        "    <source>app.js</source>\n",
        "  </endpoint>\n",
        "  <endpoint>\n",
        "    <url>wss://h/feed</url>\n",
        "    <type>WebSocket</type>\n",
        "  </endpoint>\n",
        "  <endpoint>\n",
        "    <url>/graphql</url>\n",
        "    <type>GraphQL</type>\n",
        "    <source>a&apos;b</source>\n",
        "  </endpoint>\n",
        "</endpoints>",
    ]
    .concat();
    assert_eq!(serialize_xml(&sample()), expected);
    assert_eq!(
        serialize_xml(&Vec::new()),
        "<?xml version=\"1.0\" encoding=\"UTF-8\"?>\n<endpoints>\n</endpoints>"
    );
}

#[test]
fn html_page_has_a_row_for_each_endpoint() {
    let rows = [
        "                <tr>\n",
        "                    <td>/api/a?x=1&amp;y=&lt;2&gt;</td>\n",
        "                    <td><span class=\"badge badge-rest\">Rest</span></td>\n",
        "                    <td>GET</td>\n",
        "                    <td>app.js:12</td>\n",
        "                </tr>\n",
        "                <tr>\n",
        "                    <td>wss://h/feed</td>\n",
        "                    <td><span class=\"badge badge-websocket\">WebSocket</span></td>\n",
        "                    <td>-</td>\n",
        "                    <td>-:-</td>\n",
        "                </tr>\n",
        "                <tr>\n",
        "                    <td>/graphql</td>\n",
        "                    <td><span class=\"badge badge-graphql\">GraphQL</span></td>\n",
        "                    <td>-</td>\n",
        "                    <td>a&apos;b:-</td>\n",
        "                </tr>\n",
    ]
    .concat();
    assert_eq!(serialize_html(&sample()), format!("{}{}{}", HTML_HEAD, rows, HTML_TAIL));
    let empty = serialize_html(&Vec::new());
    assert!(empty.starts_with("<!DOCTYPE html>"));
    assert!(empty.ends_with("</html>"));
    assert_eq!(empty, format!("{}{}", HTML_HEAD, HTML_TAIL));
    let unknown = serialize_html(&vec![Endpoint::new("/x".to_string(), EndpointType::Unknown)]);
    assert!(unknown.contains("<span class=\"badge badge-unknown\">Unknown</span>"));
}
