use emsys_cli::context::AppContext;
use emsys_cli::infrastructure::api::{
    api_base_url, bearer_value, company_header, request_url, response_message, ApiErrorResponse,
};
use emsys_cli::infrastructure::auth::{firebase_error, parse_expiry, AuthError};
use emsys_cli::infrastructure::chart_account::ChartAccount;
use emsys_cli::infrastructure::config::{
    is_mongodb_object_id, normalize_optional, AppConfig, ConfigError, ConfigVar,
};
use emsys_cli::infrastructure::invoice::Invoice;
use emsys_cli::infrastructure::json::JsonValue;

fn config(
    api_url: &str,
    company_id: Option<&str>,
    key: &str,
    project: &str,
) -> Result<AppConfig, ConfigError> {
    AppConfig::from_values(
        api_url.into(),
        company_id.map(|c| c.to_string()),
        key.into(),
        project.into(),
    )
}

#[test]
fn accepts_valid_configuration() {
    let config = config(
        "http://localhost:8080",
        Some("64d5c0b0d1eab2aaf30b1818"),
        "firebase-key",
        "emsys-project",
    )
    .expect("valid config should pass");

    assert_eq!(config.api_url, "http://localhost:8080");
    assert_eq!(config.company_id.as_deref(), Some("64d5c0b0d1eab2aaf30b1818"));
    assert_eq!(config.firebase.project_id, "emsys-project");
}

#[test]
fn accepts_configuration_without_company() {
    let config = config("https://api.embarqueros.com", None, "firebase-key", "emsys-project")
        .expect("company is optional until a tenant request is made");

    assert_eq!(config.company_id, None);
}

#[test]
fn treats_empty_company_as_not_configured() {
    let config = config("https://api.embarqueros.com", Some("   "), "firebase-key", "emsys-project")
        .expect("empty optional company should be ignored");

    assert_eq!(config.company_id, None);
}

#[test]
fn rejects_invalid_api_url() {
    let error = config("localhost:8080", None, "firebase-key", "emsys-project")
        .expect_err("invalid URL should fail");

    assert_eq!(error, ConfigError::Invalid(ConfigVar::ApiUrl));
    assert_eq!(ConfigVar::ApiUrl.name(), "EMSYS_API_URL");
}

#[test]
fn rejects_invalid_company_id() {
    let error = config(
        "https://api.embarqueros.com",
        Some("not-an-object-id"),
        "firebase-key",
        "emsys-project",
    )
    .expect_err("invalid company ID should fail");

    assert_eq!(error, ConfigError::Invalid(ConfigVar::CompanyId));
    assert_eq!(ConfigVar::CompanyId.name(), "EMSYS_COMPANY_ID");
}

#[test]
fn rejects_empty_firebase_key() {
    let error = config("https://api.embarqueros.com", None, "   ", "emsys-project")
        .expect_err("empty Firebase key should fail");

    assert_eq!(error, ConfigError::Invalid(ConfigVar::FirebaseWebApiKey));
    assert_eq!(ConfigVar::FirebaseWebApiKey.name(), "FIREBASE_WEB_API_KEY");
}

#[test]
fn rejects_empty_project_id() {
    let error = config("https://api.embarqueros.com", None, "firebase-key", "")
        .expect_err("empty project ID should fail");

    assert_eq!(error, ConfigError::Invalid(ConfigVar::FirebaseProjectId));
    assert_eq!(ConfigVar::FirebaseProjectId.name(), "FIREBASE_PROJECT_ID");
}

#[test]
fn trims_company_and_reports_errors() {
    let config = config(
        "https://api.embarqueros.com",
        Some("  64d5c0b0d1eab2aaf30b1818 "),
        "firebase-key",
        "emsys-project",
    )
    .expect("trimmed company should pass");
    assert_eq!(config.company_id.as_deref(), Some("64d5c0b0d1eab2aaf30b1818"));
    assert_eq!(config.validate(), Ok(()));
    assert_eq!(normalize_optional(Some(" a ".into())), Some("a".to_string()));
    assert_eq!(normalize_optional(Some("\t\n".into())), None);
    assert_eq!(normalize_optional(None), None);
    assert!(is_mongodb_object_id("64D5C0B0D1EAB2AAF30B1818"));
    assert!(!is_mongodb_object_id("64d5c0b0d1eab2aaf30b181"));
    assert!(!is_mongodb_object_id("64d5c0b0d1eab2aaf30b181g"));
    assert_eq!(
        ConfigError::Invalid(ConfigVar::ApiUrl).message(),
        "invalid configuration value: EMSYS_API_URL"
    );
    assert_eq!(
        ConfigError::Missing(ConfigVar::FirebaseProjectId).message(),
        "missing required environment variable: FIREBASE_PROJECT_ID"
    );
    let context = AppContext::new(config);
    assert_eq!(context.config.api_url, "https://api.embarqueros.com");
}

#[test]
fn parses_expiry_seconds() {
    assert_eq!(parse_expiry("3600").expect("valid expiry"), 3600);
}

#[test]
fn rejects_invalid_expiry() {
    assert!(matches!(parse_expiry("invalid"), Err(AuthError::InvalidExpiry)));
}

#[test]
fn reads_expiry_as_std_does() {
    for text in ["0", "+7", "18446744073709551615", "18446744073709551616", "", "+", "-1", " 1", "1 "]
    {
        let expected = text.parse::<u64>().ok();
        assert_eq!(parse_expiry(text).ok(), expected, "{text:?}");
    }
}

#[test]
fn reports_firebase_errors() {
    let error = firebase_error(400, Some("INVALID_PASSWORD".into()));
    assert_eq!(error.message(), "Firebase authentication failed (400): INVALID_PASSWORD");
    let error = firebase_error(503, None);
    assert_eq!(
        error,
        AuthError::Firebase { status: 503, message: "unknown Firebase authentication error".into() }
    );
    assert_eq!(AuthError::InvalidExpiry.message(), "Firebase returned an invalid expiresIn value");
}

#[test]
fn builds_v1_request_url() {
    let base = api_base_url("https://api.embarqueros.com");
    assert_eq!(request_url(&base, "/users/me"), "https://api.embarqueros.com/v1/users/me");
}

#[test]
fn request_url_drops_extra_slashes() {
    let base = api_base_url("https://api.embarqueros.com//");
    assert_eq!(base, "https://api.embarqueros.com");
    assert_eq!(request_url(&base, "users/me"), "https://api.embarqueros.com/v1/users/me");
    assert_eq!(request_url(&base, "//journals"), "https://api.embarqueros.com/v1/journals");
}

#[test]
fn authenticated_request_adds_bearer_token_only() {
    assert_eq!(bearer_value("test-token"), "Bearer test-token");
}

#[test]
fn tenant_authenticated_request_adds_auth_and_company_headers() {
    assert_eq!(bearer_value("test-token"), "Bearer test-token");
    assert_eq!(company_header(), "x-company-id");
}

#[test]
fn reads_api_error_messages() {
    let body = ApiErrorResponse { message: "Request failed".into(), error: "not found".into() };
    assert_eq!(response_message(Some(body), "fallback"), "not found");
    let body = ApiErrorResponse { message: "Request failed".into(), error: String::new() };
    assert_eq!(response_message(Some(body), "fallback"), "Request failed");
    let body = ApiErrorResponse { message: String::new(), error: String::new() };
    assert_eq!(response_message(Some(body), "fallback"), "fallback");
    assert_eq!(response_message(None, "fallback"), "fallback");
}

#[test]
fn labels_accounts_and_invoice_ids() {
    let account = ChartAccount {
        id: 1,
        name: "Cash".into(),
        display_name: "  ".into(),
        account_type: "ASSET".into(),
        system_account: true,
    };
    assert_eq!(account.label(), "Cash");
    let account = ChartAccount { display_name: "Cash on Hand".into(), ..account };
    assert_eq!(account.label(), "Cash on Hand");
    let invoice = Invoice {
        id: JsonValue::Number("12".into()),
        number: "A-1".into(),
        cost: 0,
        payment: 0,
        balance: 0,
        discount: 0,
    };
    assert_eq!(invoice.id_string(), "12");
    assert_eq!(JsonValue::Text { value: "x".into(), json: "\"x\"".into() }.display_text(), "\"x\"");
    assert_eq!(JsonValue::Null.display_text(), "null");
}

#[test]
fn accepted_configuration_rebuilds_unchanged() {
    let first = config(
        "https://api.embarqueros.com",
        Some(" 64d5c0b0d1eab2aaf30b1818\t"),
        "firebase-key",
        "emsys-project",
    )
    .expect("valid config should pass");
    let again = AppConfig::from_values(
        first.api_url.clone(),
        first.company_id.clone(),
        first.firebase.web_api_key.clone(),
        first.firebase.project_id.clone(),
    )
    .expect("an accepted configuration stays accepted");
    assert_eq!(again, first);
    assert_eq!(normalize_optional(normalize_optional(Some("  x ".into()))), Some("x".to_string()));
}
