//! The interceptor applied to a real outbound request object of the
//! underlying client library, converted exactly as the surrounding code
//! converts it.

use aws_smithy_runtime_api::http::Request;
use root_s3::add_root_auth;
use root_s3::OutboundRequest;
use root_s3::RootConfig;

fn intercept_real_request(req: &mut Request<()>, config: &Option<RootConfig>, project_id: Option<i32>) {
    let mut model = OutboundRequest::new(req.uri().to_string());
    add_root_auth(&mut model, config, project_id).unwrap();
    for (name, value) in model.headers {
        req.headers_mut().append(name, value);
    }
    req.set_uri(model.uri).unwrap();
}

#[test]
fn real_request_is_rewritten_in_proxy_mode() {
    let mut req: Request<()> = Request::new(());
    req.set_uri("https://host/b1/k1".to_string()).unwrap();
    let config = Some(RootConfig { api_key: "abc".to_string(), org_id: 7 });

    intercept_real_request(&mut req, &config, Some(42));

    assert_eq!(req.uri(), "https://host/api/v1/organisations/7/projects/42/s3/b1/k1");
    assert_eq!(req.headers().get("x-api-key"), Some("abc"));
}

#[test]
fn real_request_stays_as_built_in_direct_mode() {
    let mut req: Request<()> = Request::new(());
    req.set_uri("https://host/b1/k1".to_string()).unwrap();

    intercept_real_request(&mut req, &None, Some(42));

    assert_eq!(req.uri(), "https://host/b1/k1");
    assert!(req.headers().get("x-api-key").is_none());
}
