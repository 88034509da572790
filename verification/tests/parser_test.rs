use endpointo::parser::filters::EndpointFilter;
use endpointo::parser::js_parser::JsParser;
use endpointo::parser::patterns::{select_urls, PatternMatcher};
use endpointo::parser::sourcemap::{endpoints_of_sources, SourceMapExtractor};
use endpointo::parser::Parser;
use endpointo::types::{Endpoint, EndpointType};

fn capture(text: &str) -> Option<(usize, String)> {
    Some((0, text.to_string()))
}

#[test]
fn select_urls_cuts_quotes_filters_sorts_and_drops_repeats() {
    let caps = vec![
        capture("/v2/zeta"),
        capture("\"/api/users\""),
        None,
        capture("/api/logo.png"),
        capture("/v1"),
        capture("//x"),
        capture("/api/users"),
        capture("`/api/alpha'"),
    ];
    assert_eq!(select_urls(&caps), vec!["/api/alpha", "/api/users", "/v2/zeta"]);
}

#[test]
fn select_urls_of_nothing_is_empty() {
    assert_eq!(select_urls(&vec![]), Vec::<String>::new());
    assert_eq!(select_urls(&vec![None, capture("\"\"")]), Vec::<String>::new());
}

#[test]
fn valid_url_refuses_short_text_and_static_assets() {
    let m = PatternMatcher::new().unwrap();
    assert!(m.is_valid_url("/api"));
    assert!(!m.is_valid_url("/ap"));
    assert!(!m.is_valid_url(""));
    for ext in [".jpg", ".png", ".gif", ".css", ".woff", ".ttf", ".ico"] {
        assert!(!m.is_valid_url(&format!("/api/file{}", ext)));
        assert!(m.is_valid_url(&format!("/api/file{}/x", ext)));
    }
    assert!(m.is_valid_url("/api/file.js"));
    assert!(m.is_valid_url("\u{e9}\u{e9}\u{e9}\u{e9}"));
    assert!(!m.is_valid_url("\u{1F600}\u{1F600}\u{1F600}"));
}

#[test]
fn find_urls_is_sorted_without_repeats_and_without_assets() {
    let m = PatternMatcher::new().unwrap();
    let content = r#"
        a("/v1/b"); a('/api/a'); a("/v1/b"); img("https://cdn.example.com/logo.png");
        b("//cdn.example.com/lib.js"); c("/graphql");
    "#;
    assert_eq!(
        m.find_urls(content),
        vec!["//cdn.example.com/lib.js", "/api/a", "/graphql", "/v1/b"]
    );
}

#[test]
fn find_api_endpoints_classifies_and_labels() {
    let m = PatternMatcher::new().unwrap();
    let found = m.find_api_endpoints(r#"x = "/api/items";"#, Some("app.js"));
    assert_eq!(found.len(), 1);
    assert_eq!(found[0].url, "/api/items");
    assert_eq!(found[0].endpoint_type, EndpointType::Rest);
    assert_eq!(found[0].source, Some("app.js".to_string()));
    assert_eq!(found[0].method, None);
    assert_eq!(found[0].params, None);

    let found = m.find_api_endpoints("ws = open(wss://live.example.com/feed)", None);
    assert_eq!(found.len(), 1);
    assert_eq!(found[0].url, "wss://live.example.com/feed)");
    assert_eq!(found[0].endpoint_type, EndpointType::WebSocket);
    assert_eq!(found[0].source, None);

    let found = m.find_api_endpoints(r#"u = '/gateway/graphql'"#, None);
    assert!(found.iter().all(|e| e.endpoint_type == EndpointType::GraphQL));
    assert!(found.iter().any(|e| e.url == "/gateway/graphql"));
}

#[test]
fn find_api_endpoints_goes_pattern_by_pattern() {
    let m = PatternMatcher::new().unwrap();
    let found = m.find_api_endpoints(r#"a("/data/x"); b("/api/y");"#, None);
    let urls: Vec<&str> = found.iter().map(|e| e.url.as_str()).collect();
    assert_eq!(urls, vec!["/api/y", "/data/x"]);
}

#[test]
fn method_is_found_near_the_match_in_upper_case() {
    let m = PatternMatcher::new().unwrap();
    let content = r#"send(post, "/api/items")"#;
    let found = m.find_api_endpoints(content, None);
    assert_eq!(found.len(), 1);
    assert_eq!(found[0].method, Some("POST".to_string()));
    assert_eq!(m.find_http_method_near(content, 11), Some("POST".to_string()));
    assert_eq!(m.find_http_method_near("nothing here", 3), None);
}

#[test]
fn method_is_looked_for_within_a_hundred_characters() {
    let m = PatternMatcher::new().unwrap();
    let near = format!("DELETE {}\"/api/items\"", "x".repeat(93));
    assert_eq!(m.find_api_endpoints(&near, None)[0].method, Some("DELETE".to_string()));
    let far = format!("DELETE {}\"/api/items\"", "x".repeat(100));
    assert_eq!(m.find_api_endpoints(&far, None)[0].method, None);
    let after = format!("\"/api/items\"{} PUT ", "x".repeat(60));
    assert_eq!(m.find_api_endpoints(&after, None)[0].method, Some("PUT".to_string()));
    let late = format!("\"/api/items\"{} PUT ", "x".repeat(100));
    assert_eq!(m.find_api_endpoints(&late, None)[0].method, None);
}

#[test]
fn method_window_counts_characters_not_bytes() {
    let m = PatternMatcher::new().unwrap();
    let content = format!("PATCH {}\"/api/items\"", "\u{e9}".repeat(93));
    let found = m.find_api_endpoints(&content, None);
    assert_eq!(found.len(), 1);
    assert_eq!(found[0].method, Some("PATCH".to_string()));
    let content = format!("\u{1F600}\u{1F600} get(\"/api/a\"); {} \"/api/b\"", "\u{4e2d}".repeat(120));
    let found = m.find_api_endpoints(&content, None);
    assert_eq!(found.len(), 2);
    assert_eq!(found[0].method, Some("GET".to_string()));
    assert_eq!(found[1].method, None);
}

#[test]
fn endpoint_type_of_a_url() {
    let p = Parser::new().unwrap();
    assert_eq!(p.determine_endpoint_type("/graphql"), EndpointType::GraphQL);
    assert_eq!(p.determine_endpoint_type("/x/gql"), EndpointType::GraphQL);
    assert_eq!(p.determine_endpoint_type("ws://graphql.example.com"), EndpointType::GraphQL);
    assert_eq!(p.determine_endpoint_type("ws://h/x"), EndpointType::WebSocket);
    assert_eq!(p.determine_endpoint_type("wss://h/api/x"), EndpointType::WebSocket);
    assert_eq!(p.determine_endpoint_type("/api/x"), EndpointType::Rest);
    assert_eq!(p.determine_endpoint_type("/v1/x"), EndpointType::Rest);
    assert_eq!(p.determine_endpoint_type("https://h/v2/x"), EndpointType::Rest);
    assert_eq!(p.determine_endpoint_type("/api"), EndpointType::Unknown);
    assert_eq!(p.determine_endpoint_type("/v3/x"), EndpointType::Unknown);
    assert_eq!(p.determine_endpoint_type("xws://h"), EndpointType::Unknown);
}

#[test]
fn query_parameter_names() {
    let p = Parser::new().unwrap();
    let names = |v: &[&str]| Some(v.iter().map(|s| s.to_string()).collect::<Vec<String>>());
    assert_eq!(p.extract_params("/api/x?a=1&b=2"), names(&["a", "b"]));
    assert_eq!(p.extract_params("/api/x?a=1&&c"), names(&["a", "c"]));
    assert_eq!(p.extract_params("/api/x?flag"), names(&["flag"]));
    assert_eq!(p.extract_params("/api/x?=v"), names(&[""]));
    assert_eq!(p.extract_params("/api/x?a=b=c"), names(&["a"]));
    assert_eq!(p.extract_params("/api/x?a=1?b=2&c"), names(&["a", "c"]));
    assert_eq!(p.extract_params("/api/x?"), None);
    assert_eq!(p.extract_params("/api/x?&&"), None);
    assert_eq!(p.extract_params("/api/x"), None);
}

#[test]
fn parse_js_finds_the_rest_endpoints_of_a_script() {
    let p = Parser::new().unwrap();
    let text = r#"fetch("https://api.example.com/users"); axios.get("/api/v1/posts");"#;
    let found = p.parse_js(text, None).unwrap();
    assert!(found.len() >= 2);
    let users = found.iter().find(|e| e.url == "https://api.example.com/users").unwrap();
    assert_eq!(users.endpoint_type, EndpointType::Unknown);
    let posts: Vec<&Endpoint> = found.iter().filter(|e| e.url == "/api/v1/posts").collect();
    assert!(!posts.is_empty());
    assert!(posts.iter().all(|e| e.endpoint_type == EndpointType::Rest));
}

#[test]
fn parse_js_classifies_api_hosts_with_paths_as_rest() {
    let p = Parser::new().unwrap();
    let text = r#"fetch("https://api.example.com/api/users"); axios.get("/api/v1/posts");"#;
    let found = p.parse_js(text, None).unwrap();
    for url in ["https://api.example.com/api/users", "/api/v1/posts"] {
        let hits: Vec<&Endpoint> = found.iter().filter(|e| e.url == url).collect();
        assert!(!hits.is_empty());
        assert!(hits.iter().all(|e| e.endpoint_type == EndpointType::Rest));
    }
}

#[test]
fn parse_js_finds_graphql() {
    let p = Parser::new().unwrap();
    let text = "gql` query GetUser { user { id name } } ` fetch(\"/graphql\", {method: \"POST\", body})";
    let found = p.parse_js(text, None).unwrap();
    assert!(found.iter().any(|e| e.endpoint_type == EndpointType::GraphQL));
    let whole_line = found.iter().find(|e| e.url == text).unwrap();
    assert_eq!(whole_line.endpoint_type, EndpointType::GraphQL);
}

#[test]
fn parse_js_orders_the_rules_and_labels_everything() {
    let p = Parser::new().unwrap();
    let text = "const q = gql`x`;\n  call('/graphql?op=a&v=2')  \nput('/api/items')";
    let found = p.parse_js(text, Some("bundle.js")).unwrap();
    assert!(found.iter().all(|e| e.source == Some("bundle.js".to_string())));
    assert!(found.iter().all(|e| !e.url.is_empty()));
    let urls: Vec<&str> = found.iter().map(|e| e.url.as_str()).collect();
    assert_eq!(
        urls,
        vec![
            "/api/items",
            "/graphql?op=a&v=2",
            "/api/items",
            "/graphql?op=a&v=2",
            "call('/graphql?op=a&v=2')"
        ]
    );
    assert_eq!(found[1].params, Some(vec!["op".to_string(), "v".to_string()]));
    assert_eq!(found[1].endpoint_type, EndpointType::GraphQL);
    assert_eq!(found[0].params, None);
    assert_eq!(found[2].method, Some("PUT".to_string()));
    assert_eq!(found[4].endpoint_type, EndpointType::GraphQL);
    assert_eq!(found[4].method, None);
}

#[test]
fn parse_js_of_nothing_is_empty() {
    let p = Parser::new().unwrap();
    assert!(p.parse_js("", None).unwrap().is_empty());
    assert!(p.parse_js("let x = 1;", Some("a.js")).unwrap().is_empty());
}

#[test]
fn generic_rule_never_gives_a_static_asset() {
    let p = Parser::new().unwrap();
    let text = "https://h.example.com/a.css https://h.example.com/b.woff \"https://h.example.com/c.ico\" https://h.example.com/c";
    let found = p.parse_js(text, None).unwrap();
    let urls: Vec<&str> = found.iter().map(|e| e.url.as_str()).collect();
    assert_eq!(urls, vec!["https://h.example.com/c"]);
}

#[test]
fn filter_matches_substrings() {
    let f = EndpointFilter::new();
    assert!(f.matches("/api/users", "users"));
    assert!(f.matches("/api/users", ""));
    assert!(!f.matches("/api/users", "user/"));
}

#[test]
fn deduplicate_keeps_the_first_of_each_url_and_method() {
    let f = EndpointFilter::new();
    let e = |url: &str, method: Option<&str>, source: &str| {
        let e = Endpoint::new(url.to_string(), EndpointType::Rest).with_source(source);
        match method {
            Some(m) => e.with_method(m),
            None => e,
        }
    };
    let mut list = vec![
        e("/a", None, "1"),
        e("/a", Some("GET"), "2"),
        e("/b", None, "3"),
        e("/a", None, "4"),
        e("/a", Some("GET"), "5"),
        e("/a", Some("POST"), "6"),
        e("/b", None, "7"),
    ];
    f.deduplicate(&mut list);
    let sources: Vec<&str> = list.iter().map(|e| e.source.as_deref().unwrap()).collect();
    assert_eq!(sources, vec!["1", "2", "3", "6"]);
    let mut empty: Vec<Endpoint> = Vec::new();
    f.deduplicate(&mut empty);
    assert!(empty.is_empty());
}

#[test]
fn js_parser_lists_urls_then_graphql_lines() {
    let p = JsParser::new().unwrap();
    let text = "query {\n  x = '/v1/query'  \nfetch('/api/a')";
    let found = p.parse(text);
    let urls: Vec<&str> = found.iter().map(|e| e.url.as_str()).collect();
    assert_eq!(urls, vec!["/api/a", "/v1/query", "x = '/v1/query'"]);
    assert_eq!(found[0].endpoint_type, EndpointType::Rest);
    assert_eq!(found[2].endpoint_type, EndpointType::GraphQL);
    assert!(found.iter().all(|e| e.source.is_none() && e.method.is_none()));
    let plain = p.parse("x = '/graphql/a'");
    assert_eq!(plain.len(), 1);
}

#[test]
fn minified_goes_by_size_and_lines() {
    let p = JsParser::new().unwrap();
    assert!(!p.is_minified(""));
    assert!(!p.is_minified(&"x".repeat(99)));
    assert!(p.is_minified(&"x".repeat(100)));
    let five_short = format!("{}\n", "x".repeat(30)).repeat(5);
    assert!(!p.is_minified(&five_short));
    let four_short = format!("{}\n", "x".repeat(30)).repeat(4);
    assert!(p.is_minified(&four_short));
    let five_long = format!("{}\n", "x".repeat(199)).repeat(5);
    assert!(!p.is_minified(&five_long));
    let five_longer = format!("{}\n", "x".repeat(200)).repeat(5);
    assert!(p.is_minified(&five_longer));
    assert!(p.is_minified(&"\u{e9}".repeat(50)));
}

#[test]
fn sourcemap_url_is_taken_from_the_last_marker_line() {
    let x = SourceMapExtractor::new();
    assert_eq!(
        x.extract_sourcemap_url("a();\n//# sourceMappingURL=old.map\nb();\n//# sourceMappingURL= app.js.map \n"),
        Some("app.js.map".to_string())
    );
    assert_eq!(
        x.extract_sourcemap_url("//# sourceMappingURL=a sourceMappingURL=b"),
        Some("a sourceMappingURL=b".to_string())
    );
    assert_eq!(x.extract_sourcemap_url("//# sourceMappingURL="), Some(String::new()));
    assert_eq!(x.extract_sourcemap_url("no marker here"), None);
    assert_eq!(x.extract_sourcemap_url(""), None);
}

#[test]
fn sourcemap_lists_every_source_it_names() {
    let x = SourceMapExtractor::new();
    let map = r#"{"version":3,"sources":["a.js","b.js","c.js"],"sourcesContent":["x",null,"z"],"names":[],"mappings":""}"#;
    let found = x.parse_sourcemap(map).unwrap();
    let urls: Vec<&str> = found.iter().map(|e| e.url.as_str()).collect();
    assert_eq!(urls, vec!["a.js", "b.js", "c.js"]);
    assert!(found.iter().all(|e| e.source == Some("sourcemap".to_string())));
    assert!(found.iter().all(|e| e.endpoint_type == EndpointType::Unknown));
    assert!(found.iter().all(|e| e.method.is_none() && e.metadata.is_none()));
    let bare = r#"{"version":3,"sources":["a.js"],"names":[],"mappings":""}"#;
    let found = x.parse_sourcemap(bare).unwrap();
    assert_eq!(found.len(), 1);
    assert_eq!(found[0].url, "a.js");
    let none = r#"{"version":3,"sources":[],"names":[],"mappings":""}"#;
    assert!(x.parse_sourcemap(none).unwrap().is_empty());
    assert!(x.parse_sourcemap("not a source map").unwrap().is_empty());
    assert!(x.parse_sourcemap("").unwrap().is_empty());
}

#[test]
fn endpoints_of_sources_gives_one_endpoint_for_each_name() {
    let names = vec!["a".to_string(), "b".to_string(), String::new()];
    let found = endpoints_of_sources(&names);
    let urls: Vec<&str> = found.iter().map(|e| e.url.as_str()).collect();
    assert_eq!(urls, vec!["a", "b", ""]);
    assert!(found.iter().all(|e| e.source == Some("sourcemap".to_string())));
    assert!(endpoints_of_sources(&Vec::new()).is_empty());
}

#[test]
fn find_urls_sorts_as_strings_sort() {
    let m = PatternMatcher::new().unwrap();
    let content = "/api/\u{e9} /api/z /api/Z /api/a /api/\u{1F600} /api/\u{ffff} /api/aa";
    let found = m.find_urls(content);
    let mut expected = found.clone();
    expected.sort();
    expected.dedup();
    assert_eq!(found, expected);
    assert_eq!(found.len(), 7);
}

#[test]
fn deduplicating_twice_changes_nothing_more() {
    let f = EndpointFilter::new();
    let mut list = vec![
        Endpoint::new("/a".to_string(), EndpointType::Rest),
        Endpoint::new("/b".to_string(), EndpointType::Rest),
        Endpoint::new("/a".to_string(), EndpointType::GraphQL),
    ];
    f.deduplicate(&mut list);
    assert_eq!(list.len(), 2);
    assert_eq!(list[0].endpoint_type, EndpointType::Rest);
    f.deduplicate(&mut list);
    assert_eq!(list.len(), 2);
}

#[test]
fn sourcemap_names_carry_the_source_root() {
    let x = SourceMapExtractor::new();
    let map = r#"{"version":3,"sourceRoot":"webpack://","sources":["src/a.js"],"names":[],"mappings":""}"#;
    let found = x.parse_sourcemap(map).unwrap();
    assert_eq!(found.len(), 1);
    assert_eq!(found[0].url, "webpack://src/a.js");
}
