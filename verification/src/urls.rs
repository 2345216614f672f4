//! The URLs that the feedback actions open: two fixed ones and two built
//! from the percent-encoded system specs.

use crate::percent::{percent_decode_chars, percent_encode, percent_encoding_of};
use crate::system_specs::SystemSpecs;
use vstd::prelude::*;
use vstd::string::StringExecFns;
use vstd::utf8::{decode_utf8, encode_utf8};

verus! {

/// The project repository.
pub open spec fn neopilot_repo_url_spec() -> Seq<char> {
    "https://github.com/khulnasoft-lab/neopilot"@
}

/// The fixed URL that the open-repository action opens.
pub fn neopilot_repo_url() -> (r: &'static str)
    ensures
        r@ == neopilot_repo_url_spec(),
{
    "https://github.com/khulnasoft-lab/neopilot"
}

/// Where a feature request is filed.
pub open spec fn request_feature_url_spec() -> Seq<char> {
    "https://github.com/khulnasoft-lab/neopilot/discussions/new/choose"@
}

/// The fixed URL that the request-feature action opens.
pub fn request_feature_url() -> (r: &'static str)
    ensures
        r@ == request_feature_url_spec(),
{
    "https://github.com/khulnasoft-lab/neopilot/discussions/new/choose"
}

/// The fixed part of the bug-report URL, up to and including `environment=`.
pub open spec fn bug_report_url_prefix() -> Seq<char> {
    "https://github.com/khulnasoft-lab/neopilot/issues/new?template=10_bug_report.yml&environment="@
}

/// The bug-report URL: the fixed template with the percent-encoded specs
/// embedded as the `environment` query parameter.
pub open spec fn file_bug_report_url_spec(specs: Seq<char>) -> Seq<char> {
    bug_report_url_prefix() + percent_encoding_of(specs)
}

/// Builds the bug-report URL for the given specs.
pub fn file_bug_report_url(specs: &SystemSpecs) -> (r: String)
    ensures
        r@ == file_bug_report_url_spec(specs@),
{
    let mut url =
        "https://github.com/khulnasoft-lab/neopilot/issues/new?template=10_bug_report.yml&environment=".to_owned();
    let enc = percent_encode(specs.canonical_text().as_str());
    url.append(enc.as_str());
    url
}

/// The fixed introductory lines of the feedback email body.
pub open spec fn email_body_prefix() -> Seq<char> {
    "\n\nSystem Information:\n\n"@
}

/// The email body: the fixed introductory lines followed by the specs,
/// percent-encoded as one URL component.
pub open spec fn email_body_spec(specs: Seq<char>) -> Seq<char> {
    percent_encoding_of(email_body_prefix() + specs)
}

/// Builds the percent-encoded body of the feedback email.
pub fn email_body(specs: &SystemSpecs) -> (r: String)
    ensures
        r@ == email_body_spec(specs@),
{
    let mut body = "\n\nSystem Information:\n\n".to_owned();
    body.append(specs.canonical_text().as_str());
    percent_encode(body.as_str())
}

/// The fixed part of the mail URL, up to and including `body=`.
pub open spec fn email_url_prefix() -> Seq<char> {
    "mailto:hi@neopilot.dev?body="@
}

/// The mail URL: the maintainers' address with the encoded email body as
/// the `body` query parameter.
pub open spec fn email_neopilot_url_spec(specs: Seq<char>) -> Seq<char> {
    email_url_prefix() + email_body_spec(specs)
}

/// Builds the mail URL for the given specs.
pub fn email_neopilot_url(specs: &SystemSpecs) -> (r: String)
    ensures
        r@ == email_neopilot_url_spec(specs@),
{
    let mut url = "mailto:hi@neopilot.dev?body=".to_owned();
    let body = email_body(specs);
    url.append(body.as_str());
    url
}

/// The bug-report URL carries the specs without loss: it is the fixed
/// prefix followed by the percent-encoding of the specs, and decoding that
/// query parameter gives back the specs' UTF-8 bytes, which decode to the
/// specs string exactly.
pub proof fn lemma_bug_report_url_round_trip(specs: Seq<char>)
    ensures
        ({
            let url = file_bug_report_url_spec(specs);
            let n = bug_report_url_prefix().len() as int;
            &&& url.take(n) == bug_report_url_prefix()
            &&& percent_decode_chars(url.skip(n)) == Some(encode_utf8(specs))
            &&& decode_utf8(encode_utf8(specs)) == specs
        }),
{
    let url = file_bug_report_url_spec(specs);
    let n = bug_report_url_prefix().len() as int;
    assert(url.take(n) =~= bug_report_url_prefix());
    assert(url.skip(n) =~= percent_encoding_of(specs));
    crate::percent::lemma_percent_round_trip(specs);
}

/// The email body carries the specs without loss: decoding it gives back
/// exactly the fixed introductory lines followed by the specs string.
pub proof fn lemma_email_body_round_trip(specs: Seq<char>)
    ensures
        percent_decode_chars(email_body_spec(specs)) == Some(
            encode_utf8(email_body_prefix() + specs),
        ),
        decode_utf8(encode_utf8(email_body_prefix() + specs)) == email_body_prefix() + specs,
{
    crate::percent::lemma_percent_round_trip(email_body_prefix() + specs);
}

} // verus!
