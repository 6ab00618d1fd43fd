use apigw_authorizer::arn::{parse_method_arn, split_str, ArnError};
use apigw_authorizer::policy::{APIGatewayPolicyBuilder, Effect, Method};

#[test]
fn parse_extracts_context_fields() {
    let parts = parse_method_arn(
        "arn:aws:execute-api:us-east-1:123456789012:abcdef/prod/GET/users/list",
    )
    .unwrap();
    assert_eq!(parts.region, "us-east-1");
    assert_eq!(parts.account_id, "123456789012");
    assert_eq!(parts.api_id, "abcdef");
    assert_eq!(parts.stage, "prod");
}

#[test]
fn parse_accepts_exactly_two_slash_segments() {
    let parts = parse_method_arn("arn:aws:execute-api:eu-west-2:000:api42/beta").unwrap();
    assert_eq!(parts.region, "eu-west-2");
    assert_eq!(parts.account_id, "000");
    assert_eq!(parts.api_id, "api42");
    assert_eq!(parts.stage, "beta");
}

#[test]
fn parse_rejects_too_few_colon_segments() {
    let r = parse_method_arn("arn:aws:execute-api:us-east-1:123456789012");
    assert!(matches!(r, Err(ArnError::MalformedArn)));
}

#[test]
fn parse_rejects_too_few_slash_segments() {
    let r = parse_method_arn("arn:aws:execute-api:us-east-1:123456789012:abcdef");
    assert!(matches!(r, Err(ArnError::MalformedArn)));
}

#[test]
fn parse_rejects_empty_input() {
    let r = parse_method_arn("");
    assert!(matches!(r, Err(ArnError::MalformedArn)));
}

#[test]
fn split_keeps_empty_pieces() {
    let pieces = split_str("a:b::c", ':');
    assert_eq!(pieces, vec!["a", "b", "", "c"]);
}

#[test]
fn split_of_empty_string_is_one_empty_piece() {
    let pieces = split_str("", ':');
    assert_eq!(pieces, vec![""]);
}

#[test]
fn split_keeps_trailing_empty_piece() {
    let pieces = split_str("abc/", '/');
    assert_eq!(pieces, vec!["abc", ""]);
}

#[test]
fn deny_all_methods_yields_one_wildcard_deny() {
    let doc = APIGatewayPolicyBuilder::new("us-east-1", "123456789012", "abcdef", "prod")
        .deny_all_methods()
        .build();
    assert_eq!(doc.version, "2012-10-17");
    assert_eq!(doc.statement.len(), 1);
    let stmt = &doc.statement[0];
    assert!(stmt.effect == Effect::Deny);
    assert_eq!(stmt.action, vec!["execute-api:Invoke"]);
    assert_eq!(
        stmt.resource,
        vec!["arn:aws:execute-api:us-east-1:123456789012:abcdef/prod/*/*"]
    );
}

#[test]
fn allow_all_methods_yields_one_wildcard_allow() {
    let doc = APIGatewayPolicyBuilder::new("us-east-1", "123456789012", "abcdef", "prod")
        .allow_all_methods()
        .build();
    assert_eq!(doc.statement.len(), 1);
    let stmt = &doc.statement[0];
    assert!(stmt.effect == Effect::Allow);
    assert_eq!(
        stmt.resource,
        vec!["arn:aws:execute-api:us-east-1:123456789012:abcdef/prod/*/*"]
    );
}

#[test]
fn equal_grants_are_never_merged() {
    let doc = APIGatewayPolicyBuilder::new("us-east-1", "123456789012", "abcdef", "prod")
        .add_method(Effect::Allow, Method::Get, "/users")
        .add_method(Effect::Allow, Method::Get, "/users")
        .build();
    assert_eq!(doc.statement.len(), 2);
    let expected = "arn:aws:execute-api:us-east-1:123456789012:abcdef/prod/GET/users";
    assert_eq!(doc.statement[0].resource, vec![expected]);
    assert_eq!(doc.statement[1].resource, vec![expected]);
}

#[test]
fn leading_slash_is_trimmed_exactly_once() {
    let doc = APIGatewayPolicyBuilder::new("us-east-1", "123456789012", "abcdef", "prod")
        .add_method(Effect::Allow, Method::Get, "//users")
        .build();
    assert_eq!(
        doc.statement[0].resource,
        vec!["arn:aws:execute-api:us-east-1:123456789012:abcdef/prod/GET//users"]
    );
}

#[test]
fn path_without_leading_slash_is_kept_as_given() {
    let doc = APIGatewayPolicyBuilder::new("us-east-1", "123456789012", "abcdef", "prod")
        .add_method(Effect::Allow, Method::Get, "users")
        .build();
    assert_eq!(
        doc.statement[0].resource,
        vec!["arn:aws:execute-api:us-east-1:123456789012:abcdef/prod/GET/users"]
    );
}

#[test]
fn statements_keep_grant_call_order() {
    let doc = APIGatewayPolicyBuilder::new("r", "a", "i", "s")
        .allow_method(Method::Get, "/first")
        .deny_method(Method::Post, "/second")
        .allow_method(Method::Delete, "/third")
        .build();
    assert_eq!(doc.statement.len(), 3);
    assert!(doc.statement[0].effect == Effect::Allow);
    assert_eq!(doc.statement[0].resource, vec!["arn:aws:execute-api:r:a:i/s/GET/first"]);
    assert!(doc.statement[1].effect == Effect::Deny);
    assert_eq!(doc.statement[1].resource, vec!["arn:aws:execute-api:r:a:i/s/POST/second"]);
    assert!(doc.statement[2].effect == Effect::Allow);
    assert_eq!(doc.statement[2].resource, vec!["arn:aws:execute-api:r:a:i/s/DELETE/third"]);
}

#[test]
fn version_is_constant_whatever_the_grants() {
    let empty = APIGatewayPolicyBuilder::new("r", "a", "i", "s").build();
    assert_eq!(empty.version, "2012-10-17");
    assert_eq!(empty.statement.len(), 0);

    let three = APIGatewayPolicyBuilder::new("r", "a", "i", "s")
        .allow_all_methods()
        .deny_method(Method::Head, "/x")
        .allow_method(Method::Options, "/y")
        .build();
    assert_eq!(three.version, "2012-10-17");
}

#[test]
fn every_method_serializes_to_its_verb_token() {
    assert_eq!(Method::Get.token(), "GET");
    assert_eq!(Method::Post.token(), "POST");
    assert_eq!(Method::Put.token(), "PUT");
    assert_eq!(Method::Delete.token(), "DELETE");
    assert_eq!(Method::Patch.token(), "PATCH");
    assert_eq!(Method::Head.token(), "HEAD");
    assert_eq!(Method::Options.token(), "OPTIONS");
    assert_eq!(Method::All.token(), "*");
}

#[test]
fn every_statement_grants_the_invoke_action() {
    let doc = APIGatewayPolicyBuilder::new("r", "a", "i", "s")
        .allow_method(Method::Patch, "/p")
        .deny_all_methods()
        .build();
    for stmt in &doc.statement {
        assert_eq!(stmt.action, vec!["execute-api:Invoke"]);
    }
}
