use contact_export::AppConfig;
use contact_export::Contact;
use contact_export::ConfigError;
use contact_export::Data;
use contact_export::DecodeError;
use contact_export::Entity;
use contact_export::ExportError;
use contact_export::PhoneNumbers;
use contact_export::Root;
use contact_export::count_query;
use contact_export::csv_encode;
use contact_export::csv_for_entities_response;
use contact_export::decode_entities;
use contact_export::fetch_body_for_count_response;
use contact_export::fetch_query;
use contact_export::flatten;
use contact_export::request_headers;

#[test]
fn test_strucs() {
    let test: Root = Root {
        data: Data {
            phone_numbers: PhoneNumbers {
                entities: vec![Entity {
                    number: "123".to_string(),
                    contact: Contact {
                        name: "test".to_string(),
                    },
                }],
            },
        },
    };

    assert_eq!(test.data.phone_numbers.entities[0].number, "123");
    assert_eq!(test.data.phone_numbers.entities[0].contact.name, "test");
}

#[test]
fn config_accepts_non_empty_fields() {
    let c = AppConfig::new(
        "https://example.test/api/graphql".to_string(),
        "key".to_string(),
        String::new(),
    )
    .unwrap();
    assert!(c.url.len() > 0);
    assert!(c.api_key.len() > 0);
    assert_eq!(c.url, "https://example.test/api/graphql");
    assert_eq!(c.api_key, "key");
    assert_eq!(c.data, "");
}

#[test]
fn config_rejects_empty_url() {
    let r = AppConfig::new(String::new(), "key".to_string(), String::new());
    assert!(matches!(r, Err(ConfigError::EmptyUrl)));
}

#[test]
fn config_rejects_empty_api_key() {
    let r = AppConfig::new("u".to_string(), String::new(), String::new());
    assert!(matches!(r, Err(ConfigError::EmptyApiKey)));
}

#[test]
fn config_clone_keeps_fields() {
    let c = AppConfig::new("u".to_string(), "k".to_string(), "d".to_string()).unwrap();
    let d = c.clone();
    assert_eq!(d.url, "u");
    assert_eq!(d.api_key, "k");
    assert_eq!(d.data, "d");
}

#[test]
fn headers_carry_content_type_and_key() {
    let c = AppConfig::new("u".to_string(), "test".to_string(), String::new()).unwrap();
    let h = request_headers(&c);
    assert_eq!(h.len(), 2);
    assert_eq!(h[0].0, "Content-Type");
    assert_eq!(h[0].1, "application/json");
    assert_eq!(h[1].0, "Authorization");
    assert_eq!(h[1].1, "test");
}

#[test]
fn count_query_is_the_fixed_body() {
    let q = count_query();
    assert_eq!(
        q,
        "{\"query\": \"{\\r\\n  phone_numbers(paginator: {page: 1, records_per_page: 1}) {\\r\\n    page_info {\\r\\n total_pages }\\r\\n}}\"}"
    );
    // The body itself is valid JSON with a single query field.
    let v: serde_json::Value = serde_json::from_str(&q).unwrap();
    assert!(v.get("query").is_some());
}

#[test]
fn fetch_query_carries_the_count() {
    let q = fetch_query(7);
    assert!(q.contains("records_per_page: 7"));
    assert_eq!(
        q,
        "{\"query\": \"{\\r\\n  phone_numbers(paginator: {page: 1, records_per_page: 7}) {\\r\\n    entities {\\r\\n      number\\r\\n      contact {\\r\\n        name\\r\\n      }\\r\\n    }\\r\\n  }\\r\\n}\"}"
    );
    let v: serde_json::Value = serde_json::from_str(&q).unwrap();
    assert!(v.get("query").is_some());
}

#[test]
fn fetch_query_renders_larger_and_negative_counts() {
    assert!(fetch_query(120).contains("records_per_page: 120"));
    assert!(fetch_query(0).contains("records_per_page: 0"));
    assert!(fetch_query(-3).contains("records_per_page: -3"));
    assert!(fetch_query(i64::MAX).contains("records_per_page: 9223372036854775807"));
    assert!(fetch_query(i64::MIN).contains("records_per_page: -9223372036854775808"));
}

#[test]
fn count_response_yields_fetch_body_with_that_count() {
    let resp = "{\"data\":{\"phone_numbers\":{\"page_info\":{\"total_pages\":7}}}}";
    let body = fetch_body_for_count_response(resp).unwrap();
    assert_eq!(body, fetch_query(7));
    assert!(body.contains("records_per_page: 7"));
}

#[test]
fn count_response_without_integer_is_rejected() {
    let resp = "{\"data\":{\"phone_numbers\":{\"page_info\":{\"total_pages\":\"seven\"}}}}";
    assert!(matches!(
        fetch_body_for_count_response(resp),
        Err(DecodeError::Shape)
    ));
    let resp = "{\"data\":{\"phone_numbers\":{}}}";
    assert!(matches!(
        fetch_body_for_count_response(resp),
        Err(DecodeError::Shape)
    ));
    assert!(matches!(
        fetch_body_for_count_response("not json"),
        Err(DecodeError::Syntax)
    ));
}

#[test]
fn one_entity_deserializes() {
    let resp =
        "{\"data\":{\"phone_numbers\":{\"entities\":[{\"number\":\"123\",\"contact\":{\"name\":\"test\"}}]}}}";
    let root = decode_entities(resp).unwrap();
    assert_eq!(root.data.phone_numbers.entities.len(), 1);
    assert_eq!(root.data.phone_numbers.entities[0].number, "123");
    assert_eq!(root.data.phone_numbers.entities[0].contact.name, "test");
}

#[test]
fn flatten_keeps_order_and_fields() {
    let root = Root {
        data: Data {
            phone_numbers: PhoneNumbers {
                entities: vec![
                    Entity {
                        number: "5551234".to_string(),
                        contact: Contact {
                            name: "Alice".to_string(),
                        },
                    },
                    Entity {
                        number: "5559999".to_string(),
                        contact: Contact {
                            name: "Bob".to_string(),
                        },
                    },
                ],
            },
        },
    };
    let pairs = flatten(&root);
    assert_eq!(pairs.len(), 2);
    assert_eq!(pairs[0], ("Alice".to_string(), "5551234".to_string()));
    assert_eq!(pairs[1], ("Bob".to_string(), "5559999".to_string()));
}

#[test]
fn flatten_of_empty_list_is_empty() {
    let root = Root {
        data: Data {
            phone_numbers: PhoneNumbers { entities: vec![] },
        },
    };
    assert_eq!(flatten(&root).len(), 0);
}

#[test]
fn csv_two_rows_exact_bytes() {
    let pairs = vec![
        ("Alice".to_string(), "5551234".to_string()),
        ("Bob".to_string(), "5559999".to_string()),
    ];
    let bytes = csv_encode(&pairs).unwrap();
    assert_eq!(bytes, b"number,name\n5551234,Alice\n5559999,Bob\n".to_vec());
}

#[test]
fn csv_of_no_pairs_is_header_only() {
    let bytes = csv_encode(&vec![]).unwrap();
    assert_eq!(bytes, b"number,name\n".to_vec());
}

#[test]
fn csv_quotes_fields_that_need_it() {
    let pairs = vec![
        ("Smith, John".to_string(), "555".to_string()),
        ("An \"alias\"".to_string(), "556".to_string()),
        ("Line\nBreak".to_string(), "557".to_string()),
    ];
    let bytes = csv_encode(&pairs).unwrap();
    let text = String::from_utf8(bytes).unwrap();
    assert_eq!(
        text,
        "number,name\n555,\"Smith, John\"\n556,\"An \"\"alias\"\"\"\n557,\"Line\nBreak\"\n"
    );
}

#[test]
fn csv_passes_empty_fields_through() {
    let pairs = vec![(String::new(), String::new())];
    let bytes = csv_encode(&pairs).unwrap();
    assert_eq!(bytes, b"number,name\n,\n".to_vec());
}

#[test]
fn entities_response_becomes_csv() {
    let resp =
        "{\"data\":{\"phone_numbers\":{\"entities\":[{\"number\":\"5551234\",\"contact\":{\"name\":\"Alice\"}},{\"number\":\"5559999\",\"contact\":{\"name\":\"Bob\"}}]}}}";
    let bytes = csv_for_entities_response(resp).unwrap();
    assert_eq!(bytes, b"number,name\n5551234,Alice\n5559999,Bob\n".to_vec());
}

#[test]
fn malformed_response_aborts_without_output() {
    // The data key is missing: the run must stop with a decode error and
    // hand back no document at all.
    let resp = "{\"phone_numbers\":{\"entities\":[]}}";
    let r = csv_for_entities_response(resp);
    assert!(matches!(
        r,
        Err(ExportError::Decode(DecodeError::Shape))
    ));
    // Invalid JSON is told apart from a shape mismatch.
    let r = csv_for_entities_response("{not json");
    assert!(matches!(
        r,
        Err(ExportError::Decode(DecodeError::Syntax))
    ));
    // An entity without a contact name is a shape mismatch too.
    let resp = "{\"data\":{\"phone_numbers\":{\"entities\":[{\"number\":\"1\",\"contact\":{}}]}}}";
    assert!(matches!(
        csv_for_entities_response(resp),
        Err(ExportError::Decode(DecodeError::Shape))
    ));
}

#[test]
fn error_messages_name_the_failure() {
    assert_eq!(
        ConfigError::EmptyUrl.message(),
        "configuration url is empty"
    );
    assert_eq!(
        DecodeError::Syntax.message(),
        "response is not valid JSON"
    );
    assert_eq!(
        ExportError::Decode(DecodeError::Shape).message(),
        "response JSON does not have the expected shape"
    );
}
