use workos::errors::WorkOsError;
use workos::model::ConnectionState;
use workos::sso::HttpResponse;
use workos::sso::Sso;
use workos::sso::interpret_connection_response;
use workos::sso::interpret_profile_response;
use workos::sso::interpret_token_response;
use workos::workos::WorkOs;

// These tests drive each operation's response interpreter directly with the
// responses that a mock endpoint would return, so they need no network; the
// transport wrapper contributes nothing to how a response is decoded.

#[test]
fn test_can_get_profile_and_access_token() {
    let response = HttpResponse {
        status: 201,
        body: r#"{
                "access_token": "01DMEK0J53CVMC32CK5SE0KZ8Q",
                "profile": {
                    "id": "prof_01DMC79VCBZ0NY2099737PSVF1",
                    "idp_id": "conn_01E4ZCR3C56J083X43JQXF3JK5",
                    "connection_id": "conn_01E4ZCR3C56J083X43JQXF3JK5",
                    "connection_type": "CasSAML",
                    "email": "alan@foo-corp.com"
                }
            }"#
            .to_string(),
    };

    let result = interpret_token_response(&response);

    assert!(result.is_ok());
    let response = result.unwrap();

    assert_eq!(response.access_token, "01DMEK0J53CVMC32CK5SE0KZ8Q");
    assert_eq!(response.profile.id, "prof_01DMC79VCBZ0NY2099737PSVF1");
    assert_eq!(response.profile.idp_id, "conn_01E4ZCR3C56J083X43JQXF3JK5");
}

#[test]
fn test_can_get_profile() {
    let response = HttpResponse {
        status: 200,
        body: r#"{
                "id": "prof_01DMC79VCBZ0NY2099737PSVF1",
                "idp_id": "conn_01E4ZCR3C56J083X43JQXF3JK5",
                "connection_id": "conn_01E4ZCR3C56J083X43JQXF3JK5",
                "connection_type": "CasSAML",
                "email": "alan@foo-corp.com"
            }"#
            .to_string(),
    };

    let result = interpret_profile_response(&response);
    assert!(result.is_ok());

    let response = result.unwrap();
    assert_eq!(response.id, "prof_01DMC79VCBZ0NY2099737PSVF1");
}

#[test]
fn test_can_get_connection() {
    let response = HttpResponse {
        status: 200,
        body: r#"{
                "id": "prof_01DMC79VCBZ0NY2099737PSVF1",
                "organization_id": "conn_01E4ZCR3C56J083X43JQXF3JK5",
                "name": "connection name",
                "state": "Draft",
                "connection_type": "ADFSSAML",
                "created_at": "2024-01-01 00:00:00",
                "updated_at": "2024-01-01 00:00:00"
            }"#
            .to_string(),
    };

    let result = interpret_connection_response(&response);
    assert!(result.is_ok());

    let response = result.unwrap();
    assert_eq!(response.id, "prof_01DMC79VCBZ0NY2099737PSVF1");
    assert_eq!(response.state, ConnectionState::Draft);
}

#[test]
fn get_connection_without_api_key_gives_configuration_error() {
    let workos = WorkOs::new_with_url("some-key", "http://127.0.0.1:1");
    let sso = Sso::new(workos);
    let result = sso.get_connection("conn_x");
    match result {
        Err(WorkOsError::ConfigurationError(m)) => {
            assert_eq!(m, "WORKOS_API_KEY should be set");
        },
        other => panic!("expected a configuration error, got {:?}", other),
    }
}
