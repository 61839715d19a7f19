//! The static assets, the response headers that go with them, and the content security
//! policy that admits the setup script.

use vstd::prelude::*;
use vstd::string::*;
use base64::Engine;
use sha2::Digest;

verus! {

#[derive(Clone, Copy, Debug, PartialEq, Eq, Structural)]
pub enum ContentEncoding {
    Identity,
    GZip,
}

#[derive(Clone, Copy, Debug, PartialEq, Eq, Structural)]
pub enum ContentType {
    HTML,
    JS,
    ICO,
    WEBP,
    CSS,
    OCTETSTREAM,
}

/// A header name and value.
pub type HeaderField = (String, String);

/// An asset: its path, content, encoding and type.
pub type Asset = (String, Vec<u8>, ContentEncoding, ContentType);

/// The script that loads `index.js`, placed in the setup `<script>` tag.
pub const JS_SETUP_SCRIPT: &'static str = "let s = document.createElement('script');s.async = true;s.src = 'index.js';document.head.appendChild(s);";

/// The placeholder `<script>` tag of the HTML pages.
pub const SETUP_JS_PLACEHOLDER: &'static str = "<script id=\"setupJs\"></script>";

/// The placeholder `<meta>` tag of the HTML pages that takes the content security policy.
pub const CSP_PLACEHOLDER: &'static str = "<meta replaceme-with-csp/>";

/// The content security policy up to the hash of the setup script.
pub const CSP_HEAD: &'static str = "default-src 'none';connect-src 'self' https://identity.internetcomputer.org https://icp-api.io https://*.icp0.io https://*.ic0.app;img-src 'self' data:;script-src '";

/// The content security policy after the hash of the setup script.
pub const CSP_TAIL: &'static str = "' 'unsafe-inline' 'unsafe-eval' 'strict-dynamic' https:;base-uri 'none';form-action 'none';style-src 'self' 'unsafe-inline' https://fonts.googleapis.com;style-src-elem 'self' 'unsafe-inline' https://fonts.googleapis.com;font-src https://fonts.gstatic.com;upgrade-insecure-requests;frame-ancestors 'none';";

/// The value of the `Permissions-Policy` header: every feature denied but the clipboard
/// write, credential get and synchronous XHR of the page itself.
pub const PERMISSIONS_POLICY: &'static str = "accelerometer=(),ambient-light-sensor=(),autoplay=(),battery=(),camera=(),clipboard-read=(),clipboard-write=(self),conversion-measurement=(),cross-origin-isolated=(),display-capture=(),document-domain=(),encrypted-media=(),execution-while-not-rendered=(),execution-while-out-of-viewport=(),focus-without-user-activation=(),fullscreen=(),gamepad=(),geolocation=(),gyroscope=(),hid=(),idle-detection=(),interest-cohort=(),keyboard-map=(),magnetometer=(),microphone=(),midi=(),navigation-override=(),payment=(),picture-in-picture=(),publickey-credentials-get=(self),screen-wake-lock=(),serial=(),speaker-selection=(),sync-script=(),sync-xhr=(self),trust-token-redemption=(),usb=(),vertical-scroll=(),web-share=(),window-placement=(),xr-spatial-tracking=()";

/// The content of `/.well-known/ic-domains`.
pub const IC_DOMAINS: &'static str = "identity.internetcomputer.org";

/// SHA-256 digest of a byte string.
pub uninterp spec fn sha256_of(data: Seq<u8>) -> Seq<u8>;

/// Standard base64 encoding, with padding, of a byte string.
pub uninterp spec fn base64_of(data: Seq<u8>) -> Seq<char>;

/// `s` with every occurrence of `from` replaced by `to`.
pub uninterp spec fn replace_all_of(s: Seq<char>, from: Seq<char>, to: Seq<char>) -> Seq<char>;

/// Relies on `sha2::Sha256::digest`: the 32-byte SHA-256 digest of `data`.
#[verifier::external_body]
pub(crate) fn sha256(data: &[u8]) -> (r: Vec<u8>)
    ensures
        r@ == sha256_of(data@),
        r@.len() == 32,
{
    sha2::Sha256::digest(data).to_vec()
}

/// Relies on `base64::engine::general_purpose::STANDARD.encode`: standard base64 with
/// padding, four characters for each started group of three bytes.
#[verifier::external_body]
fn base64_encode(data: &[u8]) -> (r: String)
    ensures
        r@ == base64_of(data@),
        r@.len() == 4 * ((data@.len() + 2) / 3),
{
    base64::engine::general_purpose::STANDARD.encode(data)
}

/// Relies on `str::replace`: every occurrence of `from` in `s` replaced by `to`.
#[verifier::external_body]
fn replace_all(s: &str, from: &str, to: &str) -> (r: String)
    ensures
        r@ == replace_all_of(s@, from@, to@),
{
    s.replace(from, to)
}

/// The MIME type of a content type.
pub open spec fn mime_type(t: ContentType) -> Seq<char> {
    match t {
        ContentType::HTML => "text/html"@,
        ContentType::JS => "text/javascript"@,
        ContentType::ICO => "image/vnd.microsoft.icon"@,
        ContentType::WEBP => "image/webp"@,
        ContentType::CSS => "text/css"@,
        ContentType::OCTETSTREAM => "application/octet-stream"@,
    }
}

impl ContentType {
    /// The MIME type, as sent in the `Content-Type` header.
    pub fn to_mime_type_string(&self) -> (r: String)
        ensures
            r@ == mime_type(*self),
    {
        let s = match self {
            ContentType::HTML => "text/html",
            ContentType::JS => "text/javascript",
            ContentType::ICO => "image/vnd.microsoft.icon",
            ContentType::WEBP => "image/webp",
            ContentType::CSS => "text/css",
            ContentType::OCTETSTREAM => "application/octet-stream",
        };
        String::from_str(s)
    }
}

/// A header field from two literals.
fn header(name: &str, value: &str) -> (r: HeaderField)
    ensures
        r.0@ == name@,
        r.1@ == value@,
{
    (String::from_str(name), String::from_str(value))
}

/// The headers an asset is served with: `Content-Encoding: gzip` for a compressed
/// asset, then its `Content-Type`.
pub fn asset_headers(encoding: ContentEncoding, content_type: ContentType) -> (r: Vec<HeaderField>)
    ensures
        encoding == ContentEncoding::Identity ==> r@.len() == 1,
        encoding == ContentEncoding::GZip ==> r@.len() == 2 && r@[0].0@ == "Content-Encoding"@
            && r@[0].1@ == "gzip"@,
        r@.last().0@ == "Content-Type"@,
        r@.last().1@ == mime_type(content_type),
{
    let mut headers: Vec<HeaderField> = Vec::new();
    match encoding {
        ContentEncoding::Identity => {},
        ContentEncoding::GZip => {
            headers.push(header("Content-Encoding", "gzip"));
        },
    }
    headers.push((String::from_str("Content-Type"), content_type.to_mime_type_string()));
    headers
}

/// The SRI hash of the setup script, as the content security policy names it.
pub open spec fn setup_script_sri(script: Seq<char>) -> Seq<char> {
    "sha256-"@ + base64_of(sha256_of(vstd::utf8::encode_utf8(script)))
}

/// The SRI hash of the setup script: `sha256-` and the base64 of its SHA-256 digest.
pub fn js_setup_script_sri_hash() -> (r: String)
    ensures
        r@ == setup_script_sri(JS_SETUP_SCRIPT@),
{
    let digest = sha256(JS_SETUP_SCRIPT.as_bytes());
    let encoded = base64_encode(digest.as_slice());
    String::from_str("sha256-").concat(encoded.as_str())
}

/// The content security policy for pages whose setup script has SRI hash `sri`.
pub open spec fn content_security_policy(sri: Seq<char>) -> Seq<char> {
    CSP_HEAD@ + sri + CSP_TAIL@
}

/// The value of the `Content-Security-Policy` header.
pub fn content_security_policy_header() -> (r: String)
    ensures
        r@ == content_security_policy(setup_script_sri(JS_SETUP_SCRIPT@)),
{
    let sri = js_setup_script_sri_hash();
    String::from_str(CSP_HEAD).concat(sri.as_str()).concat(CSP_TAIL)
}

/// The security headers every HTTP response carries.
pub fn security_headers() -> (r: Vec<HeaderField>)
    ensures
        r@.len() == 5,
        r@[0].0@ == "X-Frame-Options"@ && r@[0].1@ == "DENY"@,
        r@[1].0@ == "X-Content-Type-Options"@ && r@[1].1@ == "nosniff"@,
        r@[2].0@ == "Referrer-Policy"@ && r@[2].1@ == "same-origin"@,
        r@[3].0@ == "Permissions-Policy"@ && r@[3].1@ == PERMISSIONS_POLICY@,
        r@[4].0@ == "Content-Security-Policy"@ && r@[4].1@ == content_security_policy(
            setup_script_sri(JS_SETUP_SCRIPT@),
        ),
{
    let mut headers: Vec<HeaderField> = Vec::new();
    headers.push(header("X-Frame-Options", "DENY"));
    headers.push(header("X-Content-Type-Options", "nosniff"));
    headers.push(header("Referrer-Policy", "same-origin"));
    headers.push(header("Permissions-Policy", PERMISSIONS_POLICY));
    headers.push((String::from_str("Content-Security-Policy"), content_security_policy_header()));
    headers
}

/// The setup `<script>` tag for a canister.
pub open spec fn setup_script_tag(canister_id: Seq<char>) -> Seq<char> {
    "<script data-canister-id=\""@ + canister_id + "\" id=\"setupJs\">"@ + JS_SETUP_SCRIPT@
        + "</script>"@
}

/// The content security policy `<meta>` tag.
pub open spec fn csp_meta_tag() -> Seq<char> {
    "<meta http-equiv=\"Content-Security-Policy\" content=\""@ + content_security_policy(
        setup_script_sri(JS_SETUP_SCRIPT@),
    ) + "\" />"@
}

/// An HTML page made ready to serve: the setup script placeholder replaced by the
/// script tag carrying `canister_id`, then the policy placeholder by the content
/// security policy `<meta>` tag.
pub fn fixup_html(html: &str, canister_id: &str) -> (r: String)
    ensures
        r@ == replace_all_of(
            replace_all_of(html@, SETUP_JS_PLACEHOLDER@, setup_script_tag(canister_id@)),
            CSP_PLACEHOLDER@,
            csp_meta_tag(),
        ),
{
    let script = String::from_str("<script data-canister-id=\"").concat(canister_id).concat(
        "\" id=\"setupJs\">",
    ).concat(JS_SETUP_SCRIPT).concat("</script>");
    let html = replace_all(html, SETUP_JS_PLACEHOLDER, script.as_str());
    let csp = content_security_policy_header();
    let meta = String::from_str("<meta http-equiv=\"Content-Security-Policy\" content=\"").concat(
        csp.as_str(),
    ).concat("\" />");
    replace_all(html.as_str(), CSP_PLACEHOLDER, meta.as_str())
}

/// An asset entry.
fn asset(path: &str, content: Vec<u8>, encoding: ContentEncoding, content_type: ContentType) -> (r:
    Asset)
    ensures
        r.0@ == path@,
        r.1 == content,
        r.2 == encoding,
        r.3 == content_type,
{
    (String::from_str(path), content, encoding, content_type)
}

/// A byte slice copied into a vector.
pub(crate) fn slice_to_vec(b: &[u8]) -> (r: Vec<u8>)
    ensures
        r@ == b@,
{
    let mut r: Vec<u8> = Vec::new();
    let mut i: usize = 0;
    while i < b.len()
        invariant
            0 <= i <= b@.len(),
            r@ == b@.subrange(0, i as int),
        decreases b@.len() - i,
    {
        r.push(b[i]);
        i = i + 1;
        assert(r@ =~= b@.subrange(0, i as int));
    }
    assert(b@.subrange(0, b@.len() as int) =~= b@);
    r
}

/// A copy of a byte string.
fn copy_bytes(b: &Vec<u8>) -> (r: Vec<u8>)
    ensures
        r@ == b@,
{
    let r = b.clone();
    assert(r@ =~= b@);
    r
}

/// All assets, from the prepared pages and the bundled files; `index.html` is served at
/// `/` too.
pub fn get_assets(
    index_html: Vec<u8>,
    about_html: Vec<u8>,
    index_js_gz: Vec<u8>,
    index_css: Vec<u8>,
    loader_webp: Vec<u8>,
    favicon_ico: Vec<u8>,
) -> (r: [Asset; 8])
    ensures
        r@[0].0@ == "/"@ && r@[0].1@ == index_html@ && r@[0].2 == ContentEncoding::Identity
            && r@[0].3 == ContentType::HTML,
        r@[1].0@ == "/about"@ && r@[1].1@ == about_html@ && r@[1].2 == ContentEncoding::Identity
            && r@[1].3 == ContentType::HTML,
        r@[2].0@ == "/index.html"@ && r@[2].1@ == index_html@ && r@[2].2
            == ContentEncoding::Identity && r@[2].3 == ContentType::HTML,
        r@[3].0@ == "/index.js"@ && r@[3].1@ == index_js_gz@ && r@[3].2 == ContentEncoding::GZip
            && r@[3].3 == ContentType::JS,
        r@[4].0@ == "/index.css"@ && r@[4].1@ == index_css@ && r@[4].2
            == ContentEncoding::Identity && r@[4].3 == ContentType::CSS,
        r@[5].0@ == "/loader.webp"@ && r@[5].1@ == loader_webp@ && r@[5].2
            == ContentEncoding::Identity && r@[5].3 == ContentType::WEBP,
        r@[6].0@ == "/favicon.ico"@ && r@[6].1@ == favicon_ico@ && r@[6].2
            == ContentEncoding::Identity && r@[6].3 == ContentType::ICO,
        r@[7].0@ == "/.well-known/ic-domains"@ && r@[7].1@ == IC_DOMAINS.spec_bytes()
            && r@[7].2 == ContentEncoding::Identity && r@[7].3 == ContentType::OCTETSTREAM,
{
    let index_copy = copy_bytes(&index_html);
    let domains = slice_to_vec(IC_DOMAINS.as_bytes());
    [
        asset("/", index_copy, ContentEncoding::Identity, ContentType::HTML),
        asset("/about", about_html, ContentEncoding::Identity, ContentType::HTML),
        asset("/index.html", index_html, ContentEncoding::Identity, ContentType::HTML),
        asset("/index.js", index_js_gz, ContentEncoding::GZip, ContentType::JS),
        asset("/index.css", index_css, ContentEncoding::Identity, ContentType::CSS),
        asset("/loader.webp", loader_webp, ContentEncoding::Identity, ContentType::WEBP),
        asset("/favicon.ico", favicon_ico, ContentEncoding::Identity, ContentType::ICO),
        asset(
            "/.well-known/ic-domains",
            domains,
            ContentEncoding::Identity,
            ContentType::OCTETSTREAM,
        ),
    ]
}

} // verus!
