use cloudflare::{
    decoded, response_text, ARecord, ApiError, Cloudflare, Ipv4Addr, ListRecordsRequest, MXRecord,
    Method, PerformOptions, RecordMessage, TXTRecord,
};

fn options(path: &str, body: Option<Option<String>>) -> PerformOptions<Option<String>> {
    PerformOptions { path: path.to_string(), params: None, body }
}

#[test]
fn api_error_carries_its_message() {
    let error = ApiError::new("connection refused");
    assert_eq!(error.message(), "connection refused");
    assert_eq!(error.to_string(), "ApiError:connection refused");
    assert_eq!(ApiError::new("").to_string(), "ApiError:");
    assert_eq!(error.clone().message(), "connection refused");
}

#[test]
fn the_default_client_is_rooted_at_the_normal_form_of_the_api_address() {
    let client = Cloudflare::default();
    assert_eq!(client.base_url(), "https://api.cloudflare.com/");
    assert_eq!(client.bearer_token(), "Bearer ");
}

#[test]
fn a_client_can_be_rooted_at_a_given_address() {
    let client = Cloudflare::from_base_url(Some("https://api.example.com/".to_string()));
    assert_eq!(client.base_url(), "https://api.example.com/");
    let fallback = Cloudflare::from_base_url(None);
    assert_eq!(fallback.base_url(), "https://api.cloudflare.com");
    assert_eq!(
        fallback.url("zones").map_err(|e| e.to_string()),
        Ok("https://api.cloudflare.com/client/v4/zones".to_string())
    );
}

#[test]
fn credentials_are_set_on_a_copy() {
    let client = Cloudflare::default().with_email("me@example.com").with_token("SECRET");
    assert_eq!(client.bearer_token(), "Bearer SECRET");
    assert_eq!(client.base_url(), "https://api.cloudflare.com/");
    let other = client.clone().with_token("other");
    assert_eq!(other.bearer_token(), "Bearer other");
    assert_eq!(client.bearer_token(), "Bearer SECRET");
}

#[test]
fn verify_token_answers_with_the_empty_status() {
    let status = Cloudflare::default().with_token("t").verify_token();
    match status {
        Ok(token) => {
            assert_eq!(token.result.id, "");
            assert_eq!(token.result.status, "");
        }
        Err(error) => panic!("{}", error.to_string()),
    }
}

#[test]
fn url_composes_and_checks_the_address() {
    let client = Cloudflare::default();
    let with = client.url("/zones/1/dns_records").map_err(|e| e.to_string());
    let without = client.url("zones/1/dns_records").map_err(|e| e.to_string());
    assert_eq!(with, Ok("https://api.cloudflare.com/client/v4/zones/1/dns_records".to_string()));
    assert_eq!(with, without);
}

#[test]
fn url_reports_what_the_parser_says_of_a_bad_address() {
    let client = Cloudflare::default();
    match client.url("zones/a b") {
        Ok(address) => panic!("accepted {}", address),
        Err(error) => assert_eq!(error.message(), "invalid uri character"),
    }
}

#[test]
fn a_checked_address_is_the_address_or_the_complaint() {
    match Cloudflare::checked_address("https://h/p".to_string(), None) {
        Ok(address) => assert_eq!(address, "https://h/p"),
        Err(error) => panic!("{}", error.to_string()),
    }
    match Cloudflare::checked_address("https://h/p".to_string(), Some("no".to_string())) {
        Ok(address) => panic!("accepted {}", address),
        Err(error) => assert_eq!(error.message(), "no"),
    }
}

#[test]
fn perform_builds_a_request_with_one_authorization_header() {
    let client = Cloudflare::default().with_token("tok");
    let request = match client.perform(Method::Put, "/zones/z/dns_records/r", Some(vec![1, 2, 3]))
    {
        Ok(request) => request,
        Err(error) => panic!("{}", error.to_string()),
    };
    assert_eq!(request.method, Method::Put);
    assert_eq!(request.uri, "https://api.cloudflare.com/client/v4/zones/z/dns_records/r");
    assert_eq!(request.headers, vec![("Authorization".to_string(), "Bearer tok".to_string())]);
    assert_eq!(request.body, vec![1, 2, 3]);
}

#[test]
fn perform_without_a_body_sends_an_empty_one() {
    let client = Cloudflare::default().with_token("tok");
    let request = match client.perform(Method::Get, "zones", None) {
        Ok(request) => request,
        Err(error) => panic!("{}", error.to_string()),
    };
    assert_eq!(request.method, Method::Get);
    assert!(request.body.is_empty());
    assert_eq!(request.headers.len(), 1);
}

#[test]
fn perform_refuses_a_credential_that_cannot_stand_in_a_header() {
    for bad in ["a\nb", "a\rb", "\u{0}", "\u{7f}", "x\u{1f}"] {
        let client = Cloudflare::default().with_token(bad);
        match client.perform(Method::Get, "zones", None) {
            Ok(_) => panic!("accepted {:?}", bad),
            Err(error) => assert_eq!(error.message(), "failed to parse header value"),
        }
    }
}

#[test]
fn perform_accepts_tabs_and_text_beyond_ascii_in_the_credential() {
    for good in ["", "a\tb", "a b", "~", "zürich", "日本"] {
        let client = Cloudflare::default().with_token(good);
        match client.perform(Method::Get, "zones", None) {
            Ok(request) => assert_eq!(request.headers[0].1, format!("Bearer {}", good)),
            Err(error) => panic!("refused {:?}: {}", good, error.to_string()),
        }
    }
}

#[test]
fn perform_reports_a_bad_address_before_a_bad_credential() {
    let client = Cloudflare::default().with_token("a\nb");
    match client.perform(Method::Get, "a b", None) {
        Ok(_) => panic!("accepted"),
        Err(error) => assert_eq!(error.message(), "invalid uri character"),
    }
}

#[test]
fn perform_json_sends_the_json_text_as_bytes() {
    let client = Cloudflare::default().with_token("tok");
    let json = "{\"type\":\"A\",\"content\":\"1.2.3.4\"}".to_string();
    let request =
        match client.perform_json(Method::Put, options("zones/z", Some(Some(json.clone())))) {
            Ok(request) => request,
            Err(error) => panic!("{}", error.to_string()),
        };
    assert_eq!(request.body, json.into_bytes());
    assert_eq!(request.method, Method::Put);
    assert_eq!(request.uri, "https://api.cloudflare.com/client/v4/zones/z");
}

#[test]
fn perform_json_sends_text_beyond_ascii_in_utf8() {
    let client = Cloudflare::default();
    let request = match client.perform_json(Method::Put, options("p", Some(Some("é".to_string()))))
    {
        Ok(request) => request,
        Err(error) => panic!("{}", error.to_string()),
    };
    assert_eq!(request.body, vec![0xc3, 0xa9]);
}

#[test]
fn perform_json_goes_on_with_an_empty_body_when_the_body_had_no_json_form() {
    let client = Cloudflare::default();
    let request = match client.perform_json(Method::Put, options("p", Some(None))) {
        Ok(request) => request,
        Err(error) => panic!("{}", error.to_string()),
    };
    assert!(request.body.is_empty());
}

#[test]
fn perform_json_without_a_body_sends_an_empty_one() {
    let client = Cloudflare::default();
    let request = match client.perform_json(Method::Get, options("p", None)) {
        Ok(request) => request,
        Err(error) => panic!("{}", error.to_string()),
    };
    assert!(request.body.is_empty());
    assert_eq!(request.method, Method::Get);
}

#[test]
fn perform_json_reports_a_bad_address() {
    let client = Cloudflare::default();
    match client.perform_json(Method::Get, options("a b", None)) {
        Ok(_) => panic!("accepted"),
        Err(error) => assert_eq!(error.to_string(), "ApiError:invalid uri character"),
    }
}

#[test]
fn response_text_reads_utf8() {
    assert_eq!(response_text(Some(b"{\"success\":true}".to_vec())), "{\"success\":true}");
    assert_eq!(response_text(Some(vec![0x68, 0xc3, 0xa9])), "hé");
    assert_eq!(response_text(Some(vec![])), "");
}

#[test]
fn response_text_reads_bytes_that_are_no_utf8_as_nothing() {
    assert_eq!(response_text(Some(vec![0xff, 0xfe, 0x41])), "");
    assert_eq!(response_text(Some(vec![0xc3])), "");
    assert_eq!(response_text(Some(vec![0xed, 0xa0, 0x80])), "");
}

#[test]
fn response_text_reads_a_missing_body_as_nothing() {
    assert_eq!(response_text(None), "");
}

#[test]
fn decoded_hands_a_parsed_value_on() {
    match decoded::<u32>(Ok(7)) {
        Ok(value) => assert_eq!(value, 7),
        Err(error) => panic!("{}", error.to_string()),
    }
}

#[test]
fn decoded_turns_the_parsers_complaint_into_an_error() {
    match decoded::<u32>(Err("expected value at line 1 column 1".to_string())) {
        Ok(value) => panic!("accepted {}", value),
        Err(error) => {
            assert_eq!(error.message(), "error parsing json:expected value at line 1 column 1")
        }
    }
}

#[test]
fn a_reply_that_is_no_json_ends_in_an_error() {
    for reply in ["<html>oops</html>", "", "{\"success\":", "not json"] {
        let text = response_text(Some(reply.as_bytes().to_vec()));
        let parsed = serde_json::from_str::<serde_json::Value>(&text).map_err(|e| e.to_string());
        match decoded(parsed) {
            Ok(value) => panic!("accepted {:?} as {}", reply, value),
            Err(error) => assert!(error.message().starts_with("error parsing json:")),
        }
    }
}

#[test]
fn a_reply_that_is_no_utf8_ends_in_an_error() {
    let text = response_text(Some(vec![0xff, 0xff]));
    let parsed = serde_json::from_str::<serde_json::Value>(&text).map_err(|e| e.to_string());
    match decoded(parsed) {
        Ok(value) => panic!("accepted {}", value),
        Err(error) => assert_eq!(
            error.message(),
            "error parsing json:EOF while parsing a value at line 1 column 0"
        ),
    }
}

#[test]
fn list_records_asks_for_the_records_of_the_zone() {
    let dns = Cloudflare::default().with_token("tok").dns();
    let call = dns.list_records(ListRecordsRequest { zone_id: "z1".to_string(), page: 3 });
    assert_eq!(call.method, Method::Get);
    assert_eq!(call.options.path, "zones/z1/dns_records");
    assert!(call.options.params.is_none());
    assert!(call.options.body.is_none());
    assert_eq!(call.client.bearer_token(), "Bearer tok");
}

#[test]
fn list_records_does_not_use_the_page() {
    let dns = Cloudflare::default().dns();
    let first = dns.list_records(ListRecordsRequest { zone_id: "z".to_string(), page: 1 });
    let ninth = dns.list_records(ListRecordsRequest { zone_id: "z".to_string(), page: 9 });
    assert_eq!(first.options.path, ninth.options.path);
    assert!(first.options.params.is_none() && ninth.options.params.is_none());
}

#[test]
fn get_record_asks_for_the_record() {
    let dns = Cloudflare::default().with_token("tok").dns();
    let call = dns.get_record("z1", "r1");
    assert_eq!(call.method, Method::Get);
    assert_eq!(call.options.path, "zones/z1/dns_records/r1");
    assert!(call.options.params.is_none());
    assert!(call.options.body.is_none());
    let encoded = PerformOptions { path: call.options.path, params: None, body: None };
    match call.client.perform_json(call.method, encoded) {
        Ok(request) => {
            assert_eq!(request.method, Method::Get);
            assert_eq!(request.uri, "https://api.cloudflare.com/client/v4/zones/z1/dns_records/r1");
            assert_eq!(
                request.headers,
                vec![("Authorization".to_string(), "Bearer tok".to_string())]
            );
            assert!(request.body.is_empty());
        }
        Err(error) => panic!("{}", error.to_string()),
    }
}

#[test]
fn overwrite_record_sends_the_record_without_its_server_owned_fields() {
    let record = ARecord {
        id: Some("r1".to_string()),
        zone_id: Some("z1".to_string()),
        zone_name: Some("example.com".to_string()),
        meta: Some(serde_json::Value::Bool(true)),
        content: Some(Ipv4Addr { octets: [1, 2, 3, 4] }),
        name: Some("www".to_string()),
        ..ARecord::default()
    };
    let call = Cloudflare::default().with_token("tok").dns().overwrite_record("z1", "r1", record);
    assert_eq!(call.method, Method::Put);
    assert_eq!(call.options.path, "zones/z1/dns_records/r1");
    assert!(call.options.params.is_none());
    assert_eq!(call.client.bearer_token(), "Bearer tok");
    match call.options.body {
        Some(RecordMessage::A(body)) => {
            assert!(body.id.is_none());
            assert!(body.zone_id.is_none());
            assert!(body.zone_name.is_none());
            assert!(body.meta.is_none());
            assert_eq!(body.content, Some(Ipv4Addr { octets: [1, 2, 3, 4] }));
            assert_eq!(body.name, Some("www".to_string()));
        }
        _ => panic!("the body is no A record"),
    }
}

#[test]
fn overwrite_record_takes_a_record_of_the_union_too() {
    let record = RecordMessage::MX(MXRecord {
        id: Some("r".to_string()),
        priority: Some(5),
        ..MXRecord::default()
    });
    let call = Cloudflare::default().dns().overwrite_record("z", "r", record);
    match call.options.body {
        Some(RecordMessage::MX(body)) => {
            assert!(body.id.is_none());
            assert_eq!(body.priority, Some(5));
        }
        _ => panic!("the body is no MX record"),
    }
    let text = TXTRecord { content: Some("hello".to_string()), ..TXTRecord::default() };
    let call = Cloudflare::default().dns().overwrite_record("z", "r", text);
    match call.options.body {
        Some(RecordMessage::TXT(body)) => assert_eq!(body.content, Some("hello".to_string())),
        _ => panic!("the body is no TXT record"),
    }
}
