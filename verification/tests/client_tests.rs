//! Client construction in both authentication modes, interception through
//! the client, number rendering, error wrapping, and the copy source.

use root_s3::client::copy_source_of;
use root_s3::client::signing_keys;
use root_s3::numfmt::i32_to_decimal;
use root_s3::numfmt::u64_to_decimal;
use root_s3::wrap_service_error;
use root_s3::Client;
use root_s3::Error;
use root_s3::Operation;
use root_s3::OutboundRequest;
use root_s3::S3Credentials;
use root_s3::MAX_CONCURRENT;

fn credentials() -> S3Credentials {
    S3Credentials {
        access_key_id: "AK".to_string(),
        secret_access_key: "SK".to_string(),
        session_token: None,
        expiration: None,
        region: "weur".to_string(),
    }
}

#[test]
fn proxy_client_holds_config_and_full_gate() {
    let c = Client::new("http://localhost:9000".to_string(), "abc".to_string(), 7).unwrap();
    let config = c.config.as_ref().unwrap();
    assert_eq!(config.api_key, "abc");
    assert_eq!(config.org_id, 7);
    assert!(c.credentials.is_none());
    assert_eq!(c.endpoint, "http://localhost:9000");
    assert_eq!(c.gate.capacity, MAX_CONCURRENT);
    assert_eq!(c.gate.available, MAX_CONCURRENT);
}

#[test]
fn direct_client_holds_credentials_and_no_config() {
    let c = Client::new_from_s3_credentials("http://localhost:9000".to_string(), credentials())
        .unwrap();
    assert!(c.config.is_none());
    let held = c.credentials.as_ref().unwrap();
    assert_eq!(held.access_key_id, "AK");
    assert_eq!(held.secret_access_key, "SK");
    assert_eq!(held.region, "weur");
}

#[test]
fn invalid_endpoint_is_rejected_at_construction() {
    let r = Client::new("localhost:9000".to_string(), "abc".to_string(), 7);
    assert!(matches!(r, Err(Error::InvalidUrl)));
    let r = Client::new_from_s3_credentials("".to_string(), credentials());
    assert!(matches!(r, Err(Error::InvalidUrl)));
}

#[test]
fn client_intercepts_end_to_end() {
    let c = Client::new("https://host".to_string(), "abc".to_string(), 7).unwrap();
    let mut req = OutboundRequest::new("https://host/".to_string());
    c.intercept(&mut req, Some(42)).unwrap();
    assert_eq!(req.uri, "https://host/api/v1/organisations/7/projects/42/s3");
    assert_eq!(req.headers.len(), 1);
    assert_eq!(req.headers[0].0, "x-api-key");
    assert_eq!(req.headers[0].1, "abc");
}

#[test]
fn direct_client_intercepts_as_no_op() {
    let c = Client::new_from_s3_credentials("https://host".to_string(), credentials()).unwrap();
    let mut req = OutboundRequest::new("https://host/b/k".to_string());
    c.intercept(&mut req, Some(42)).unwrap();
    assert_eq!(req.uri, "https://host/b/k");
    assert!(req.headers.is_empty());
}

#[test]
fn signing_keys_follow_the_mode() {
    let (access, secret) = signing_keys(&Some(credentials()));
    assert_eq!(access, "AK");
    assert_eq!(secret, "SK");
    let (access, secret) = signing_keys(&None);
    assert_eq!(access, "");
    assert_eq!(secret, "");
}

#[test]
fn copy_source_joins_bucket_and_key() {
    assert_eq!(copy_source_of("b1", "dir/k1"), "b1/dir/k1");
}

#[test]
fn decimal_rendering_is_exact() {
    assert_eq!(i32_to_decimal(0), "0");
    assert_eq!(i32_to_decimal(7), "7");
    assert_eq!(i32_to_decimal(42), "42");
    assert_eq!(i32_to_decimal(-13), "-13");
    assert_eq!(i32_to_decimal(i32::MAX), "2147483647");
    assert_eq!(i32_to_decimal(i32::MIN), "-2147483648");
    assert_eq!(u64_to_decimal(0), "0");
    assert_eq!(u64_to_decimal(1234567890), "1234567890");
    assert_eq!(u64_to_decimal(u64::MAX), "18446744073709551615");
}

#[test]
fn each_operation_gets_its_own_error_variant() {
    let msg = || "m".to_string();
    assert!(matches!(
        wrap_service_error(Operation::CreateBucket, msg()),
        Error::ErrCreateBucket(m) if m == "m"
    ));
    assert!(matches!(
        wrap_service_error(Operation::DeleteBucket, msg()),
        Error::ErrDeleteBucket(m) if m == "m"
    ));
    assert!(matches!(
        wrap_service_error(Operation::ListBuckets, msg()),
        Error::ErrListBuckets(m) if m == "m"
    ));
    assert!(matches!(
        wrap_service_error(Operation::PutObject, msg()),
        Error::ErrPutObject(m) if m == "m"
    ));
    assert!(matches!(
        wrap_service_error(Operation::CopyObject, msg()),
        Error::ErrCopyObject(m) if m == "m"
    ));
    assert!(matches!(
        wrap_service_error(Operation::GetObject, msg()),
        Error::ErrGetObject(m) if m == "m"
    ));
    assert!(matches!(
        wrap_service_error(Operation::HeadObject, msg()),
        Error::ErrGetHeadObject(m) if m == "m"
    ));
    assert!(matches!(
        wrap_service_error(Operation::DeleteObject, msg()),
        Error::ErrDeleteObject(m) if m == "m"
    ));
    assert!(matches!(
        wrap_service_error(Operation::ListObjects, msg()),
        Error::ErrListObjects(m) if m == "m"
    ));
}
