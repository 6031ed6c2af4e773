use mesh::auth::{
    allowed_patterns_from, extract_xml_field, matches_arn_pattern, skip_validation_from, AuthPlan, DefaultAuthService,
};
use mesh::types::IamAuthRequest;

fn service(patterns: Vec<String>) -> DefaultAuthService {
    DefaultAuthService::new(patterns, false)
}

#[test]
fn test_arn_pattern_matching() {
    let auth_service = service(vec!["arn:aws:iam::*:role/MyRole".to_string()]);

    assert!(auth_service.matches_arn_pattern(
        "arn:aws:iam::123456789012:role/MyRole",
        "arn:aws:iam::123456789012:role/MyRole"
    ));

    assert!(auth_service.matches_arn_pattern(
        "arn:aws:iam::123456789012:role/MyRole",
        "arn:aws:iam::*:role/MyRole"
    ));

    assert!(!auth_service.matches_arn_pattern(
        "arn:aws:iam::123456789012:role/MyRole",
        "arn:aws:iam::123456789012:role/OtherRole"
    ));
}

#[test]
fn test_role_allowed() {
    let auth_service = service(vec!["arn:aws:iam::*:role/MyRole".to_string()]);

    assert!(auth_service.is_role_allowed("arn:aws:iam::123456789012:role/MyRole"));
    assert!(!auth_service.is_role_allowed("arn:aws:iam::123456789012:role/OtherRole"));
}

#[test]
fn test_wildcard_all_allowed() {
    let auth_service = service(vec!["*".to_string()]);

    assert!(auth_service.is_role_allowed("arn:aws:iam::123456789012:role/AnyRole"));
}

#[test]
fn empty_allow_list_allows_any_arn() {
    let auth_service = service(vec![]);
    assert!(auth_service.is_role_allowed("arn:aws:iam::999999999999:user/someone"));
    assert!(auth_service.is_role_allowed(""));
}

#[test]
fn glob_is_anchored_at_both_ends() {
    assert!(!matches_arn_pattern("xarn:a", "arn:a"));
    assert!(!matches_arn_pattern("arn:ab", "arn:a"));
    assert!(matches_arn_pattern("aba", "*a"));
    assert!(matches_arn_pattern("arn:aws:iam::1:role/x/y", "arn:*:role/*"));
    assert!(!matches_arn_pattern("arn:aws:iam::1:user/x", "arn:*:role/*"));
    assert!(matches_arn_pattern("", "*"));
    assert!(matches_arn_pattern("", "**"));
    assert!(!matches_arn_pattern("", "a*"));
    assert!(matches_arn_pattern("abcbc", "a*bc"));
}

#[test]
fn xml_fields_are_extracted() {
    let body = "<GetCallerIdentityResponse><GetCallerIdentityResult><Arn>arn:aws:iam::1:role/R</Arn><UserId>AID:s</UserId><Account>123</Account></GetCallerIdentityResult></GetCallerIdentityResponse>";
    assert_eq!(extract_xml_field(body, "Arn"), Some("arn:aws:iam::1:role/R".to_string()));
    assert_eq!(extract_xml_field(body, "Account"), Some("123".to_string()));
    assert_eq!(extract_xml_field(body, "UserId"), Some("AID:s".to_string()));
    assert_eq!(extract_xml_field(body, "Missing"), None);
    assert_eq!(extract_xml_field("<Arn>open only", "Arn"), None);
}

#[test]
fn sts_reply_decides_the_handshake() {
    let auth_service = service(vec!["arn:aws:iam::*:role/MyRole".to_string()]);
    let ok_body = "<Arn>arn:aws:iam::123456789012:role/MyRole</Arn><Account>123456789012</Account><UserId>U1</UserId>";
    let r = auth_service.sts_reply_outcome(200, "200 OK", ok_body);
    assert!(r.success);
    let id = r.identity.unwrap();
    assert_eq!(id.arn, "arn:aws:iam::123456789012:role/MyRole");
    assert_eq!(id.account_id, "123456789012");
    assert_eq!(id.user_id, "U1");
    assert_eq!(id.principal_type, "AssumedRole");

    let other = "<Arn>arn:aws:iam::1:role/Other</Arn><Account>1</Account><UserId>U</UserId>";
    let r = auth_service.sts_reply_outcome(200, "200 OK", other);
    assert!(!r.success);
    assert_eq!(r.error.as_deref(), Some("Role not allowed"));

    let r = auth_service.sts_reply_outcome(200, "200 OK", "<Arn>x</Arn>");
    assert_eq!(r.error.as_deref(), Some("Failed to parse STS identity"));

    let r = auth_service.sts_reply_outcome(403, "403 Forbidden", ok_body);
    assert_eq!(r.error.as_deref(), Some("STS call failed with status: 403 Forbidden"));
    assert!(r.identity.is_none());

    let r = auth_service.call_failed_outcome("refused");
    assert_eq!(r.error.as_deref(), Some("STS call failed: refused"));
    let r = auth_service.invalid_url_outcome("bad");
    assert_eq!(r.error.as_deref(), Some("Invalid presigned URL: bad"));
}

#[test]
fn authenticate_plans_the_handshake() {
    let request = |url: Option<&str>| IamAuthRequest {
        presigned_url: url.map(|u| u.to_string()),
        region: "us-east-1".to_string(),
        arn: None,
        account_id: None,
        user_id: None,
    };
    let skip = DefaultAuthService::new(vec![], true);
    match skip.authenticate(&request(None)) {
        AuthPlan::Respond(r) => {
            assert!(r.success);
            assert_eq!(r.identity.unwrap().account_id, "000000000000");
        }
        AuthPlan::FetchIdentity(_) => panic!("skip mode answers at once"),
    }
    let strict = DefaultAuthService::new(vec![], false);
    match strict.authenticate(&request(None)) {
        AuthPlan::Respond(r) => assert_eq!(r.error.as_deref(), Some("No presigned URL provided")),
        AuthPlan::FetchIdentity(_) => panic!("nothing to fetch"),
    }
    match strict.authenticate(&request(Some("https://sts.example/?a=1"))) {
        AuthPlan::FetchIdentity(u) => assert_eq!(u, "https://sts.example/?a=1"),
        AuthPlan::Respond(_) => panic!("the URL must be fetched"),
    }
}

#[test]
fn settings_configure_the_service() {
    assert_eq!(allowed_patterns_from(None), vec!["*".to_string()]);
    assert_eq!(
        allowed_patterns_from(Some("arn:aws:iam::*:role/A, arn:aws:iam::1:role/B")),
        vec!["arn:aws:iam::*:role/A".to_string(), "arn:aws:iam::1:role/B".to_string()]
    );
    assert!(skip_validation_from(Some("TRUE")));
    assert!(!skip_validation_from(Some("yes")));
    assert!(!skip_validation_from(None));
}
