use workos::errors::WorkOsError;
use workos::json::JsonValue;
use workos::json::parse_json;
use workos::model::ConnectionState;
use workos::model::ConnectionType;
use workos::model::connection_state_of;
use workos::model::connection_type_of;
use workos::sso::HttpResponse;
use workos::sso::bearer;
use workos::sso::connection_url;
use workos::sso::interpret_connection_response;
use workos::sso::interpret_profile_response;
use workos::sso::interpret_token_response;
use workos::sso::profile_url;
use workos::sso::token_body;
use workos::sso::token_url;
use workos::workos::WorkOs;

fn resp(status: u16, body: &str) -> HttpResponse {
    HttpResponse { status, body: body.to_string() }
}

#[test]
fn token_exchange_scenario_decodes_every_field() {
    let body = r#"{"access_token":"TOK1","profile":{"id":"prof_1","idp_id":"conn_1","connection_id":"conn_1","connection_type":"CasSAML","email":"a@b.com"}}"#;
    let result = interpret_token_response(&resp(200, body));
    let value = result.unwrap();
    assert_eq!(value.access_token, "TOK1");
    assert_eq!(value.profile.id, "prof_1");
    assert_eq!(value.profile.idp_id, "conn_1");
    assert_eq!(value.profile.connection_id, "conn_1");
    assert_eq!(value.profile.connection_type, ConnectionType::CasSAML);
    assert_eq!(value.profile.email, "a@b.com");
}

#[test]
fn connection_scenario_missing_organization_id_decodes_as_absent() {
    let body = r#"{"id":"conn_x","name":"N","state":"Draft","connection_type":"ADFSSAML","created_at":"2024-01-01","updated_at":"2024-01-02"}"#;
    let result = interpret_connection_response(&resp(200, body));
    let value = result.unwrap();
    assert_eq!(value.id, "conn_x");
    assert_eq!(value.organization_id, None);
    assert_eq!(value.name, "N");
    assert_eq!(value.state, ConnectionState::Draft);
    assert_eq!(value.connection_type, ConnectionType::ADFSSAML);
    assert_eq!(value.created_at, "2024-01-01");
    assert_eq!(value.updated_at, "2024-01-02");
}

#[test]
fn connection_null_organization_id_decodes_as_absent() {
    let body = r#"{"id":"conn_x","organization_id":null,"name":"N","state":"Active","connection_type":"OktaSAML","created_at":"c","updated_at":"u"}"#;
    let value = interpret_connection_response(&resp(200, body)).unwrap();
    assert_eq!(value.organization_id, None);
    assert_eq!(value.state, ConnectionState::Active);
}

#[test]
fn non_success_status_wins_over_any_body() {
    let good = r#"{"id":"p","idp_id":"i","connection_id":"c","connection_type":"OktaSAML","email":"e"}"#;
    for status in [100u16, 199, 300, 301, 404, 500] {
        let result = interpret_profile_response(&resp(status, good));
        match result {
            Err(WorkOsError::RequestError(m)) => {
                assert_eq!(m, format!("Request failed with status: {}", status));
            },
            other => panic!("expected a request error, got {:?}", other),
        }
    }
}

#[test]
fn malformed_json_fails_to_decode() {
    for body in ["", "{", "{\"id\":}", "not json", "{\"a\":1} trailing", "{\"a\":01}"] {
        let result = interpret_profile_response(&resp(200, body));
        assert!(
            matches!(result, Err(WorkOsError::DeserializationError(_))),
            "body {:?} should fail",
            body
        );
    }
}

#[test]
fn unknown_connection_type_fails_to_decode() {
    let body = r#"{"id":"p","idp_id":"i","connection_id":"c","connection_type":"FooSAML","email":"e"}"#;
    let result = interpret_profile_response(&resp(200, body));
    assert!(matches!(result, Err(WorkOsError::DeserializationError(_))));
}

#[test]
fn unknown_connection_state_fails_to_decode() {
    let body = r#"{"id":"c","name":"n","state":"Sleeping","connection_type":"OktaSAML","created_at":"c","updated_at":"u"}"#;
    let result = interpret_connection_response(&resp(200, body));
    assert!(matches!(result, Err(WorkOsError::DeserializationError(_))));
}

#[test]
fn missing_field_fails_to_decode() {
    let body = r#"{"id":"p","idp_id":"i","connection_type":"OktaSAML","email":"e"}"#;
    let result = interpret_profile_response(&resp(200, body));
    assert!(matches!(result, Err(WorkOsError::DeserializationError(_))));
}

#[test]
fn unknown_fields_are_ignored() {
    let body = r#"{"object":"profile","id":"p","idp_id":"i","connection_id":"c","connection_type":"GoogleOAuth","email":"e","raw_attributes":{"x":[1,2,true,null]}}"#;
    let value = interpret_profile_response(&resp(200, body)).unwrap();
    assert_eq!(value.id, "p");
    assert_eq!(value.connection_type, ConnectionType::GoogleOAuth);
}

#[test]
fn string_escapes_decode_in_fields() {
    let body = "{\"id\":\"a\\\"b\",\"idp_id\":\"tab\\there\",\"connection_id\":\"slash\\\\\",\"connection_type\":\"MagicLink\",\"email\":\"x\\ny\"}";
    let value = interpret_profile_response(&resp(200, body)).unwrap();
    assert_eq!(value.id, "a\"b");
    assert_eq!(value.idp_id, "tab\there");
    assert_eq!(value.connection_id, "slash\\");
    assert_eq!(value.email, "x\ny");
}

#[test]
fn parse_json_reads_every_value_shape() {
    let text = r#" {"s":"v","n":-10.5e2,"b":true,"z":null,"a":["x",{"k":false}]} "#;
    let parsed = parse_json(text);
    match parsed {
        Some(JsonValue::Object(members)) => {
            assert_eq!(members.len(), 5);
            assert_eq!(members[0].0, "s");
            assert!(matches!(members[1].1, JsonValue::Number(ref raw) if raw == "-10.5e2"));
            assert!(matches!(members[2].1, JsonValue::Bool(true)));
            assert!(matches!(members[3].1, JsonValue::Null));
            assert!(matches!(members[4].1, JsonValue::Array(_)));
        },
        other => panic!("expected an object, got {:?}", other),
    }
}

#[test]
fn parse_json_refuses_broken_documents() {
    for text in ["[1,", "{\"a\" 1}", "\"unterminated", "tru", "1e", "--1", "{\"a\":\"\\q\"}"] {
        assert!(parse_json(text).is_none(), "text {:?} should be refused", text);
    }
}

#[test]
fn request_pieces_are_built_exactly() {
    assert_eq!(token_url("http://h"), "http://h/sso/token");
    assert_eq!(profile_url("http://h"), "http://h/sso/profile");
    assert_eq!(connection_url("http://h", "conn_1"), "http://h/connections/conn_1");
    assert_eq!(bearer("tok"), "Bearer tok");
    assert_eq!(
        token_body("client_1", "secret", "code_1"),
        r#"{"client_id":"client_1","client_secret":"secret","code":"code_1","grant_type":"authorization_code"}"#
    );
}

#[test]
fn token_body_escapes_its_inputs() {
    let body = token_body("a\"b", "s\\t", "c\u{0001}d");
    assert_eq!(
        body,
        "{\"client_id\":\"a\\\"b\",\"client_secret\":\"s\\\\t\",\"code\":\"c\\u0001d\",\"grant_type\":\"authorization_code\"}"
    );
}

#[test]
fn api_key_is_missing_until_set_and_then_returned_exactly() {
    let mut workos = WorkOs::new("secret");
    assert_eq!(workos.base_url, "https://api.workos.com/");
    match workos.get_api_key() {
        Err(WorkOsError::ConfigurationError(m)) => {
            assert_eq!(m, "WORKOS_API_KEY should be set");
        },
        other => panic!("expected a configuration error, got {:?}", other),
    }
    workos.set_api_key("first");
    assert_eq!(workos.get_api_key().unwrap(), "first");
    workos.set_api_key("second");
    assert_eq!(workos.get_api_key().unwrap(), "second");
}

#[test]
fn configuration_error_message_text() {
    let err = WorkOsError::ConfigurationError("WORKOS_API_KEY should be set".to_string());
    assert_eq!(err.message(), "Invalid input: WORKOS_API_KEY should be set");
}

#[test]
fn every_provider_string_maps_to_its_variant() {
    let cases = [
        ("ADFSSAML", ConnectionType::ADFSSAML),
        ("AdpOidc", ConnectionType::AdpOidc),
        ("Auth0SAML", ConnectionType::Auth0SAML),
        ("AzureSAML", ConnectionType::AzureSAML),
        ("CasSAML", ConnectionType::CasSAML),
        ("ClassLinkSAML", ConnectionType::ClassLinkSAML),
        ("CloudflareSAML", ConnectionType::CloudflareSAML),
        ("CyberArkSAML", ConnectionType::CyberArkSAML),
        ("DuoSAML", ConnectionType::DuoSAML),
        ("GenericOIDC", ConnectionType::GenericOIDC),
        ("GenericSAML", ConnectionType::GenericSAML),
        ("GoogleOAuth", ConnectionType::GoogleOAuth),
        ("GoogleSAML", ConnectionType::GoogleSAML),
        ("JumpCloudSAML", ConnectionType::JumpCloudSAML),
        ("KeycloakSAML", ConnectionType::KeycloakSAML),
        ("LastPassSAML", ConnectionType::LastPassSAML),
        ("LoginGovOidc", ConnectionType::LoginGovOidc),
        ("MagicLink", ConnectionType::MagicLink),
        ("MicrosoftOAuth", ConnectionType::MicrosoftOAuth),
        ("MiniOrangeSAML", ConnectionType::MiniOrangeSAML),
        ("NetIqSAML", ConnectionType::NetIqSAML),
        ("OktaSAML", ConnectionType::OktaSAML),
        ("OneLoginSAML", ConnectionType::OneLoginSAML),
        ("OracleSAML", ConnectionType::OracleSAML),
        ("PingFederateSAML", ConnectionType::PingFederateSAML),
        ("PingOneSAML", ConnectionType::PingOneSAML),
        ("RipplingSAML", ConnectionType::RipplingSAML),
        ("SalesforceSAML", ConnectionType::SalesforceSAML),
        ("ShibbolethGenericSAML", ConnectionType::ShibbolethGenericSAML),
        ("ShibbolethSAML", ConnectionType::ShibbolethSAML),
        ("SimpleSamlPhpSAML", ConnectionType::SimpleSamlPhpSAML),
        ("VMwareSAML", ConnectionType::VMwareSAML),
    ];
    for (name, variant) in cases {
        assert_eq!(connection_type_of(name), Some(variant), "string {:?}", name);
    }
    assert_eq!(connection_type_of("adfssaml"), None);
    assert_eq!(connection_type_of("OktaSAML "), None);
    assert_eq!(connection_type_of(""), None);
}

#[test]
fn every_state_string_maps_to_its_variant() {
    assert_eq!(connection_state_of("Draft"), Some(ConnectionState::Draft));
    assert_eq!(connection_state_of("Active"), Some(ConnectionState::Active));
    assert_eq!(connection_state_of("Inactive"), Some(ConnectionState::Inactive));
    assert_eq!(connection_state_of("Validating"), Some(ConnectionState::Validating));
    assert_eq!(connection_state_of("draft"), None);
    assert_eq!(connection_state_of(""), None);
}

#[test]
fn unicode_escapes_decode_in_fields() {
    let body = "{\"id\":\"\\u0041\\u004a\",\"idp_id\":\"\\u00e9\",\"connection_id\":\"\\uD83D\\uDE00\",\"connection_type\":\"MagicLink\",\"email\":\"x\\u0009y\"}";
    let value = interpret_profile_response(&resp(200, body)).unwrap();
    assert_eq!(value.id, "AJ");
    assert_eq!(value.idp_id, "\u{00e9}");
    assert_eq!(value.connection_id, "\u{1F600}");
    assert_eq!(value.email, "x\ty");
}

#[test]
fn bad_unicode_escapes_are_refused() {
    for text in [
        "\"\\u12\"",
        "\"\\u12G4\"",
        "\"\\uD800\"",
        "\"\\uDC00x\"",
        "\"\\uD83Dx\"",
        "\"\\uD83D\\uD83D\"",
        "\"\\uD83D\\n\"",
    ] {
        assert!(parse_json(text).is_none(), "text {:?} should be refused", text);
    }
}
