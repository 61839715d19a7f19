use base64::Engine;
use internet_identity::assets::{
    asset_headers, content_security_policy_header, fixup_html, get_assets,
    js_setup_script_sri_hash, security_headers, ContentEncoding, ContentType,
    JS_SETUP_SCRIPT,
};
use sha2::Digest;

#[test]
fn csp_matches_the_required_policy() {
    let csp = content_security_policy_header();
    let re = regex::Regex::new(
        "^default-src 'none';\
connect-src 'self' https://identity.internetcomputer.org https://icp-api.io https://\\*\\.icp0.io https://\\*\\.ic0.app;\
img-src 'self' data:;\
script-src 'sha256-[a-zA-Z0-9/=+]+' 'unsafe-inline' 'unsafe-eval' 'strict-dynamic' https:;\
base-uri 'none';\
form-action 'none';\
style-src 'self' 'unsafe-inline' https://fonts\\.googleapis\\.com;\
style-src-elem 'self' 'unsafe-inline' https://fonts\\.googleapis\\.com;\
font-src https://fonts\\.gstatic\\.com;\
upgrade-insecure-requests;\
frame-ancestors 'none';$",
    )
    .unwrap();
    assert!(re.is_match(&csp), "{csp}");
}

#[test]
fn security_headers_are_complete() {
    let headers = security_headers();
    let get = |name: &str| headers.iter().find(|(n, _)| n == name).map(|(_, v)| v.clone()).unwrap();
    assert_eq!(get("X-Frame-Options"), "DENY");
    assert_eq!(get("X-Content-Type-Options"), "nosniff");
    assert_eq!(get("Referrer-Policy"), "same-origin");
    assert!(get("Permissions-Policy").starts_with("accelerometer=(),ambient-light-sensor=()"));
    assert!(get("Permissions-Policy").ends_with("xr-spatial-tracking=()"));
    assert_eq!(get("Content-Security-Policy"), content_security_policy_header());
}

#[test]
fn sri_hash_is_base64_sha256_of_setup_script() {
    let digest = sha2::Sha256::digest(JS_SETUP_SCRIPT.as_bytes());
    let expected = format!("sha256-{}", base64::engine::general_purpose::STANDARD.encode(digest));
    assert_eq!(js_setup_script_sri_hash(), expected);
    assert_eq!(js_setup_script_sri_hash().len(), 7 + 44);
}

#[test]
fn fixup_html_injects_script_and_csp() {
    let html = "<head><meta replaceme-with-csp/></head><body><script id=\"setupJs\"></script></body>";
    let out = fixup_html(html, "rdmx6-jaaaa-aaaaa-aaadq-cai");
    assert!(out.contains(&format!(
        "<script data-canister-id=\"rdmx6-jaaaa-aaaaa-aaadq-cai\" id=\"setupJs\">{JS_SETUP_SCRIPT}</script>"
    )));
    assert!(out.contains(&format!(
        "<meta http-equiv=\"Content-Security-Policy\" content=\"{}\" />",
        content_security_policy_header()
    )));
    assert!(!out.contains("replaceme-with-csp"));
}

#[test]
fn assets_are_listed_with_types() {
    let assets = get_assets(b"index".to_vec(), b"about".to_vec(), b"js".to_vec(), b"css".to_vec(), b"webp".to_vec(), b"ico".to_vec());
    let paths: Vec<&str> = assets.iter().map(|a| a.0.as_str()).collect();
    assert_eq!(paths, vec!["/", "/about", "/index.html", "/index.js", "/index.css", "/loader.webp", "/favicon.ico", "/.well-known/ic-domains"]);
    assert_eq!(assets[0].1, b"index".to_vec());
    assert_eq!(assets[2].1, b"index".to_vec());
    assert_eq!(assets[3].2, ContentEncoding::GZip);
    assert_eq!(assets[3].3, ContentType::JS);
    assert_eq!(assets[7].1, b"identity.internetcomputer.org".to_vec());
    assert_eq!(assets[7].3, ContentType::OCTETSTREAM);
}

#[test]
fn asset_headers_by_encoding() {
    assert_eq!(asset_headers(ContentEncoding::Identity, ContentType::HTML), vec![("Content-Type".to_string(), "text/html".to_string())]);
    assert_eq!(
        asset_headers(ContentEncoding::GZip, ContentType::JS),
        vec![("Content-Encoding".to_string(), "gzip".to_string()), ("Content-Type".to_string(), "text/javascript".to_string())]
    );
    assert_eq!(ContentType::WEBP.to_mime_type_string(), "image/webp");
    assert_eq!(ContentType::ICO.to_mime_type_string(), "image/vnd.microsoft.icon");
    assert_eq!(ContentType::CSS.to_mime_type_string(), "text/css");
    assert_eq!(ContentType::OCTETSTREAM.to_mime_type_string(), "application/octet-stream");
}
