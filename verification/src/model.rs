use vstd::prelude::*;

use crate::json::Json;
use crate::json::JsonValue;
use crate::json::lookup;
use crate::json::spec_lookup;
use crate::text::str_eq;

verus! {

/// The identity providers that a connection can go through; each variant
/// matches one provider string exactly, and unknown strings are refused.
#[derive(Debug, Clone, Copy, PartialEq, Eq, Structural)]
pub enum ConnectionType {
    ADFSSAML,
    AdpOidc,
    Auth0SAML,
    AzureSAML,
    CasSAML,
    ClassLinkSAML,
    CloudflareSAML,
    CyberArkSAML,
    DuoSAML,
    GenericOIDC,
    GenericSAML,
    GoogleOAuth,
    GoogleSAML,
    JumpCloudSAML,
    KeycloakSAML,
    LastPassSAML,
    LoginGovOidc,
    MagicLink,
    MicrosoftOAuth,
    MiniOrangeSAML,
    NetIqSAML,
    OktaSAML,
    OneLoginSAML,
    OracleSAML,
    PingFederateSAML,
    PingOneSAML,
    RipplingSAML,
    SalesforceSAML,
    ShibbolethGenericSAML,
    ShibbolethSAML,
    SimpleSamlPhpSAML,
    VMwareSAML,
}

/// The lifecycle state of a connection.
#[derive(Debug, Clone, Copy, PartialEq, Eq, Structural)]
pub enum ConnectionState {
    Draft,
    Active,
    Inactive,
    Validating,
}

/// The connection type that the given provider string names, if any.
pub open spec fn spec_connection_type_of(s: Seq<char>) -> Option<ConnectionType> {
    if s == "ADFSSAML"@ {
        Some(ConnectionType::ADFSSAML)
    } else if s == "AdpOidc"@ {
        Some(ConnectionType::AdpOidc)
    } else if s == "Auth0SAML"@ {
        Some(ConnectionType::Auth0SAML)
    } else if s == "AzureSAML"@ {
        Some(ConnectionType::AzureSAML)
    } else if s == "CasSAML"@ {
        Some(ConnectionType::CasSAML)
    } else if s == "ClassLinkSAML"@ {
        Some(ConnectionType::ClassLinkSAML)
    } else if s == "CloudflareSAML"@ {
        Some(ConnectionType::CloudflareSAML)
    } else if s == "CyberArkSAML"@ {
        Some(ConnectionType::CyberArkSAML)
    } else if s == "DuoSAML"@ {
        Some(ConnectionType::DuoSAML)
    } else if s == "GenericOIDC"@ {
        Some(ConnectionType::GenericOIDC)
    } else if s == "GenericSAML"@ {
        Some(ConnectionType::GenericSAML)
    } else if s == "GoogleOAuth"@ {
        Some(ConnectionType::GoogleOAuth)
    } else if s == "GoogleSAML"@ {
        Some(ConnectionType::GoogleSAML)
    } else if s == "JumpCloudSAML"@ {
        Some(ConnectionType::JumpCloudSAML)
    } else if s == "KeycloakSAML"@ {
        Some(ConnectionType::KeycloakSAML)
    } else if s == "LastPassSAML"@ {
        Some(ConnectionType::LastPassSAML)
    } else if s == "LoginGovOidc"@ {
        Some(ConnectionType::LoginGovOidc)
    } else if s == "MagicLink"@ {
        Some(ConnectionType::MagicLink)
    } else if s == "MicrosoftOAuth"@ {
        Some(ConnectionType::MicrosoftOAuth)
    } else if s == "MiniOrangeSAML"@ {
        Some(ConnectionType::MiniOrangeSAML)
    } else if s == "NetIqSAML"@ {
        Some(ConnectionType::NetIqSAML)
    } else if s == "OktaSAML"@ {
        Some(ConnectionType::OktaSAML)
    } else if s == "OneLoginSAML"@ {
        Some(ConnectionType::OneLoginSAML)
    } else if s == "OracleSAML"@ {
        Some(ConnectionType::OracleSAML)
    } else if s == "PingFederateSAML"@ {
        Some(ConnectionType::PingFederateSAML)
    } else if s == "PingOneSAML"@ {
        Some(ConnectionType::PingOneSAML)
    } else if s == "RipplingSAML"@ {
        Some(ConnectionType::RipplingSAML)
    } else if s == "SalesforceSAML"@ {
        Some(ConnectionType::SalesforceSAML)
    } else if s == "ShibbolethGenericSAML"@ {
        Some(ConnectionType::ShibbolethGenericSAML)
    } else if s == "ShibbolethSAML"@ {
        Some(ConnectionType::ShibbolethSAML)
    } else if s == "SimpleSamlPhpSAML"@ {
        Some(ConnectionType::SimpleSamlPhpSAML)
    } else if s == "VMwareSAML"@ {
        Some(ConnectionType::VMwareSAML)
    } else {
        None
    }
}

/// Maps a provider string to its connection type; unknown strings give `None`.
pub fn connection_type_of(s: &str) -> (r: Option<ConnectionType>)
    ensures
        r == spec_connection_type_of(s@),
{
    if str_eq(s, "ADFSSAML") {
        Some(ConnectionType::ADFSSAML)
    } else if str_eq(s, "AdpOidc") {
        Some(ConnectionType::AdpOidc)
    } else if str_eq(s, "Auth0SAML") {
        Some(ConnectionType::Auth0SAML)
    } else if str_eq(s, "AzureSAML") {
        Some(ConnectionType::AzureSAML)
    } else if str_eq(s, "CasSAML") {
        Some(ConnectionType::CasSAML)
    } else if str_eq(s, "ClassLinkSAML") {
        Some(ConnectionType::ClassLinkSAML)
    } else if str_eq(s, "CloudflareSAML") {
        Some(ConnectionType::CloudflareSAML)
    } else if str_eq(s, "CyberArkSAML") {
        Some(ConnectionType::CyberArkSAML)
    } else if str_eq(s, "DuoSAML") {
        Some(ConnectionType::DuoSAML)
    } else if str_eq(s, "GenericOIDC") {
        Some(ConnectionType::GenericOIDC)
    } else if str_eq(s, "GenericSAML") {
        Some(ConnectionType::GenericSAML)
    } else if str_eq(s, "GoogleOAuth") {
        Some(ConnectionType::GoogleOAuth)
    } else if str_eq(s, "GoogleSAML") {
        Some(ConnectionType::GoogleSAML)
    } else if str_eq(s, "JumpCloudSAML") {
        Some(ConnectionType::JumpCloudSAML)
    } else if str_eq(s, "KeycloakSAML") {
        Some(ConnectionType::KeycloakSAML)
    } else if str_eq(s, "LastPassSAML") {
        Some(ConnectionType::LastPassSAML)
    } else if str_eq(s, "LoginGovOidc") {
        Some(ConnectionType::LoginGovOidc)
    } else if str_eq(s, "MagicLink") {
        Some(ConnectionType::MagicLink)
    } else if str_eq(s, "MicrosoftOAuth") {
        Some(ConnectionType::MicrosoftOAuth)
    } else if str_eq(s, "MiniOrangeSAML") {
        Some(ConnectionType::MiniOrangeSAML)
    } else if str_eq(s, "NetIqSAML") {
        Some(ConnectionType::NetIqSAML)
    } else if str_eq(s, "OktaSAML") {
        Some(ConnectionType::OktaSAML)
    } else if str_eq(s, "OneLoginSAML") {
        Some(ConnectionType::OneLoginSAML)
    } else if str_eq(s, "OracleSAML") {
        Some(ConnectionType::OracleSAML)
    } else if str_eq(s, "PingFederateSAML") {
        Some(ConnectionType::PingFederateSAML)
    } else if str_eq(s, "PingOneSAML") {
        Some(ConnectionType::PingOneSAML)
    } else if str_eq(s, "RipplingSAML") {
        Some(ConnectionType::RipplingSAML)
    } else if str_eq(s, "SalesforceSAML") {
        Some(ConnectionType::SalesforceSAML)
    } else if str_eq(s, "ShibbolethGenericSAML") {
        Some(ConnectionType::ShibbolethGenericSAML)
    } else if str_eq(s, "ShibbolethSAML") {
        Some(ConnectionType::ShibbolethSAML)
    } else if str_eq(s, "SimpleSamlPhpSAML") {
        Some(ConnectionType::SimpleSamlPhpSAML)
    } else if str_eq(s, "VMwareSAML") {
        Some(ConnectionType::VMwareSAML)
    } else {
        None
    }
}

/// The connection state that the given string names, if any.
pub open spec fn spec_connection_state_of(s: Seq<char>) -> Option<ConnectionState> {
    if s == "Draft"@ {
        Some(ConnectionState::Draft)
    } else if s == "Active"@ {
        Some(ConnectionState::Active)
    } else if s == "Inactive"@ {
        Some(ConnectionState::Inactive)
    } else if s == "Validating"@ {
        Some(ConnectionState::Validating)
    } else {
        None
    }
}

/// Maps a state string to its connection state; unknown strings give `None`.
pub fn connection_state_of(s: &str) -> (r: Option<ConnectionState>)
    ensures
        r == spec_connection_state_of(s@),
{
    if str_eq(s, "Draft") {
        Some(ConnectionState::Draft)
    } else if str_eq(s, "Active") {
        Some(ConnectionState::Active)
    } else if str_eq(s, "Inactive") {
        Some(ConnectionState::Inactive)
    } else if str_eq(s, "Validating") {
        Some(ConnectionState::Validating)
    } else {
        None
    }
}

/// The model of a [`Profile`].
pub struct ProfileView {
    pub id: Seq<char>,
    pub idp_id: Seq<char>,
    pub connection_id: Seq<char>,
    pub connection_type: ConnectionType,
    pub email: Seq<char>,
}

/// A user profile, as returned by the profile and token-exchange endpoints.
#[derive(Debug)]
pub struct Profile {
    pub id: String,
    pub idp_id: String,
    pub connection_id: String,
    pub connection_type: ConnectionType,
    pub email: String,
}

impl View for Profile {
    type V = ProfileView;

    open spec fn view(&self) -> ProfileView {
        ProfileView {
            id: self.id@,
            idp_id: self.idp_id@,
            connection_id: self.connection_id@,
            connection_type: self.connection_type,
            email: self.email@,
        }
    }
}

/// The model of a [`ProfileAndToken`].
pub struct ProfileAndTokenView {
    pub access_token: Seq<char>,
    pub profile: ProfileView,
}

/// An access token together with the profile it belongs to; produced only by
/// the token-exchange endpoint.
#[derive(Debug)]
pub struct ProfileAndToken {
    pub access_token: String,
    pub profile: Profile,
}

impl View for ProfileAndToken {
    type V = ProfileAndTokenView;

    open spec fn view(&self) -> ProfileAndTokenView {
        ProfileAndTokenView { access_token: self.access_token@, profile: self.profile@ }
    }
}

/// The model of a [`Connection`].
pub struct ConnectionView {
    pub id: Seq<char>,
    pub organization_id: Option<Seq<char>>,
    pub name: Seq<char>,
    pub state: ConnectionState,
    pub connection_type: ConnectionType,
    pub created_at: Seq<char>,
    pub updated_at: Seq<char>,
}

/// A connection record, as returned by the connection endpoint.  The
/// organization id may be absent; the timestamps are kept as text.
#[derive(Debug)]
pub struct Connection {
    pub id: String,
    pub organization_id: Option<String>,
    pub name: String,
    pub state: ConnectionState,
    pub connection_type: ConnectionType,
    pub created_at: String,
    pub updated_at: String,
}

impl View for Connection {
    type V = ConnectionView;

    open spec fn view(&self) -> ConnectionView {
        ConnectionView {
            id: self.id@,
            organization_id: match self.organization_id {
                Some(ref s) => Some(s@),
                None => None,
            },
            name: self.name@,
            state: self.state,
            connection_type: self.connection_type,
            created_at: self.created_at@,
            updated_at: self.updated_at@,
        }
    }
}

/// An optional string field: an absent member or a JSON null both stand for
/// "no value"; any other shape than a string is refused.
pub open spec fn spec_opt_text(o: Option<Json>) -> Option<Option<Seq<char>>> {
    match o {
        None => Some(None),
        Some(Json::Null) => Some(None),
        Some(Json::Text(t)) => Some(Some(t)),
        Some(_) => None,
    }
}

/// The profile that a JSON value describes: an object whose `id`, `idp_id`,
/// `connection_id` and `email` members are strings and whose
/// `connection_type` member names a known provider.
pub open spec fn spec_profile_of_json(j: Json) -> Option<ProfileView> {
    match j {
        Json::Object(m) => match (
            spec_lookup(m, "id"@),
            spec_lookup(m, "idp_id"@),
            spec_lookup(m, "connection_id"@),
            spec_lookup(m, "connection_type"@),
            spec_lookup(m, "email"@),
        ) {
            (
                Some(Json::Text(id)),
                Some(Json::Text(idp_id)),
                Some(Json::Text(connection_id)),
                Some(Json::Text(ct)),
                Some(Json::Text(email)),
            ) => match spec_connection_type_of(ct) {
                Some(connection_type) => Some(
                    ProfileView { id, idp_id, connection_id, connection_type, email },
                ),
                None => None,
            },
            _ => None,
        },
        _ => None,
    }
}

/// Decodes a profile out of a JSON value.
pub fn profile_of_json(j: &JsonValue) -> (r: Option<Profile>)
    ensures
        match r {
            Some(p) => spec_profile_of_json(j@) == Some(p@),
            None => spec_profile_of_json(j@) is None,
        },
{
    match j {
        JsonValue::Object(m) => {
            let id = match lookup(m, "id") {
                Some(JsonValue::Text(s)) => s.clone(),
                _ => {
                    return None;
                },
            };
            let idp_id = match lookup(m, "idp_id") {
                Some(JsonValue::Text(s)) => s.clone(),
                _ => {
                    return None;
                },
            };
            let connection_id = match lookup(m, "connection_id") {
                Some(JsonValue::Text(s)) => s.clone(),
                _ => {
                    return None;
                },
            };
            let ct = match lookup(m, "connection_type") {
                Some(JsonValue::Text(s)) => s.clone(),
                _ => {
                    return None;
                },
            };
            let email = match lookup(m, "email") {
                Some(JsonValue::Text(s)) => s.clone(),
                _ => {
                    return None;
                },
            };
            let connection_type = match connection_type_of(ct.as_str()) {
                Some(t) => t,
                None => {
                    return None;
                },
            };
            Some(Profile { id, idp_id, connection_id, connection_type, email })
        },
        _ => None,
    }
}

/// The token-exchange payload that a JSON value describes: an object whose
/// `access_token` member is a string and whose `profile` member is a profile.
pub open spec fn spec_profile_and_token_of_json(j: Json) -> Option<ProfileAndTokenView> {
    match j {
        Json::Object(m) => match (spec_lookup(m, "access_token"@), spec_lookup(m, "profile"@)) {
            (Some(Json::Text(access_token)), Some(pj)) => match spec_profile_of_json(pj) {
                Some(profile) => Some(ProfileAndTokenView { access_token, profile }),
                None => None,
            },
            _ => None,
        },
        _ => None,
    }
}

/// Decodes an access token and its profile out of a JSON value.
pub fn profile_and_token_of_json(j: &JsonValue) -> (r: Option<ProfileAndToken>)
    ensures
        match r {
            Some(p) => spec_profile_and_token_of_json(j@) == Some(p@),
            None => spec_profile_and_token_of_json(j@) is None,
        },
{
    match j {
        JsonValue::Object(m) => {
            let access_token = match lookup(m, "access_token") {
                Some(JsonValue::Text(s)) => s.clone(),
                _ => {
                    return None;
                },
            };
            let profile = match lookup(m, "profile") {
                Some(pj) => match profile_of_json(pj) {
                    Some(p) => p,
                    None => {
                        return None;
                    },
                },
                None => {
                    return None;
                },
            };
            Some(ProfileAndToken { access_token, profile })
        },
        _ => None,
    }
}

/// The connection that a JSON value describes: an object whose `id`, `name`,
/// `created_at` and `updated_at` members are strings, whose `state` and
/// `connection_type` members name known values, and whose `organization_id`
/// member is a string, null, or absent.
pub open spec fn spec_connection_of_json(j: Json) -> Option<ConnectionView> {
    match j {
        Json::Object(m) => match (
            spec_lookup(m, "id"@),
            spec_lookup(m, "name"@),
            spec_lookup(m, "state"@),
            spec_lookup(m, "connection_type"@),
            spec_lookup(m, "created_at"@),
            spec_lookup(m, "updated_at"@),
        ) {
            (
                Some(Json::Text(id)),
                Some(Json::Text(name)),
                Some(Json::Text(st)),
                Some(Json::Text(ct)),
                Some(Json::Text(created_at)),
                Some(Json::Text(updated_at)),
            ) => match (
                spec_connection_state_of(st),
                spec_connection_type_of(ct),
                spec_opt_text(spec_lookup(m, "organization_id"@)),
            ) {
                (Some(state), Some(connection_type), Some(organization_id)) => Some(
                    ConnectionView {
                        id,
                        organization_id,
                        name,
                        state,
                        connection_type,
                        created_at,
                        updated_at,
                    },
                ),
                _ => None,
            },
            _ => None,
        },
        _ => None,
    }
}

/// Decodes a connection record out of a JSON value.
pub fn connection_of_json(j: &JsonValue) -> (r: Option<Connection>)
    ensures
        match r {
            Some(c) => spec_connection_of_json(j@) == Some(c@),
            None => spec_connection_of_json(j@) is None,
        },
{
    match j {
        JsonValue::Object(m) => {
            let id = match lookup(m, "id") {
                Some(JsonValue::Text(s)) => s.clone(),
                _ => {
                    return None;
                },
            };
            let name = match lookup(m, "name") {
                Some(JsonValue::Text(s)) => s.clone(),
                _ => {
                    return None;
                },
            };
            let st = match lookup(m, "state") {
                Some(JsonValue::Text(s)) => s.clone(),
                _ => {
                    return None;
                },
            };
            let ct = match lookup(m, "connection_type") {
                Some(JsonValue::Text(s)) => s.clone(),
                _ => {
                    return None;
                },
            };
            let created_at = match lookup(m, "created_at") {
                Some(JsonValue::Text(s)) => s.clone(),
                _ => {
                    return None;
                },
            };
            let updated_at = match lookup(m, "updated_at") {
                Some(JsonValue::Text(s)) => s.clone(),
                _ => {
                    return None;
                },
            };
            let state = match connection_state_of(st.as_str()) {
                Some(t) => t,
                None => {
                    return None;
                },
            };
            let connection_type = match connection_type_of(ct.as_str()) {
                Some(t) => t,
                None => {
                    return None;
                },
            };
            let organization_id = match lookup(m, "organization_id") {
                None => None,
                Some(JsonValue::Null) => None,
                Some(JsonValue::Text(s)) => Some(s.clone()),
                Some(_) => {
                    return None;
                },
            };
            Some(
                Connection {
                    id,
                    organization_id,
                    name,
                    state,
                    connection_type,
                    created_at,
                    updated_at,
                },
            )
        },
        _ => None,
    }
}

} // verus!
