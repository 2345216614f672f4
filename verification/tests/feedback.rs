use feedback::actions::{effect_for, Effect, FeedbackAction};
use feedback::percent::percent_decode;
use feedback::system_specs::SystemSpecs;
use feedback::urls::{email_body, email_neopilot_url, file_bug_report_url, neopilot_repo_url, request_feature_url};

const BUG_REPORT_PREFIX: &str =
    "https://github.com/khulnasoft-lab/neopilot/issues/new?template=10_bug_report.yml&environment=";
const EMAIL_PREFIX: &str = "mailto:hi@neopilot.dev?body=";
const BODY_INTRO: &str = "\n\nSystem Information:\n\n";

#[test]
fn bug_report_url_encodes_reserved_characters_exactly() {
    let specs = SystemSpecs::new(String::from("OS: Linux\nCPU: x86_64"));
    let url = file_bug_report_url(&specs);
    assert_eq!(
        url,
        "https://github.com/khulnasoft-lab/neopilot/issues/new?template=10_bug_report.yml\
         &environment=OS%3A%20Linux%0ACPU%3A%20x86_64"
    );
    assert!(url.contains("environment=OS%3A%20Linux%0ACPU%3A%20x86_64"));
}

#[test]
fn bug_report_environment_round_trips() {
    let s = "OS: Linux & more\nGPU: none + extras ~tilde~";
    let url = file_bug_report_url(&SystemSpecs::new(String::from(s)));
    assert!(url.starts_with(BUG_REPORT_PREFIX));
    let param = &url[BUG_REPORT_PREFIX.len()..];
    let decoded = urlencoding::decode(param).unwrap();
    assert_eq!(decoded, s);
    let bytes = percent_decode(param).unwrap();
    assert_eq!(bytes, s.as_bytes());
}

#[test]
fn bug_report_environment_round_trips_non_ascii() {
    let s = "OS: Linux\nKeyboard: AZERTY (résumé)";
    let url = file_bug_report_url(&SystemSpecs::new(String::from(s)));
    let param = &url[BUG_REPORT_PREFIX.len()..];
    assert!(param.contains("%C3%A9"));
    assert_eq!(urlencoding::decode(param).unwrap(), s);
    assert_eq!(percent_decode(param).unwrap(), s.as_bytes());
}

#[test]
fn unreserved_characters_pass_through_unescaped() {
    let s = "AZaz09-._~";
    let url = file_bug_report_url(&SystemSpecs::new(String::from(s)));
    let param = &url[BUG_REPORT_PREFIX.len()..];
    assert_eq!(param, s);
}

#[test]
fn empty_specs_leave_query_parameter_empty() {
    let url = file_bug_report_url(&SystemSpecs::new(String::new()));
    assert_eq!(url, BUG_REPORT_PREFIX);
}

#[test]
fn email_body_decodes_to_intro_plus_specs() {
    let s = "OS: Linux\nMemory: 16 GiB & swap";
    let body = email_body(&SystemSpecs::new(String::from(s)));
    let mut expected = String::from(BODY_INTRO);
    expected.push_str(s);
    assert_eq!(urlencoding::decode(&body).unwrap(), expected);
    assert_eq!(percent_decode(&body).unwrap(), expected.as_bytes());
}

#[test]
fn email_url_is_mailto_with_encoded_body() {
    let s = "OS: Linux";
    let specs = SystemSpecs::new(String::from(s));
    let url = email_neopilot_url(&specs);
    assert!(url.starts_with(EMAIL_PREFIX));
    assert_eq!(&url[EMAIL_PREFIX.len()..], email_body(&specs));
    assert_eq!(url, "mailto:hi@neopilot.dev?body=%0A%0ASystem%20Information%3A%0A%0AOS%3A%20Linux");
}

#[test]
fn fixed_urls_are_constant() {
    assert_eq!(neopilot_repo_url(), "https://github.com/khulnasoft-lab/neopilot");
    assert_eq!(
        request_feature_url(),
        "https://github.com/khulnasoft-lab/neopilot/discussions/new/choose"
    );
}

#[test]
fn request_feature_and_open_repo_ignore_specs() {
    let a = SystemSpecs::new(String::from("anything"));
    let b = SystemSpecs::new(String::from("something else entirely"));
    for action in [FeedbackAction::RequestFeature, FeedbackAction::OpenNeopilotRepo] {
        let ua = match effect_for(&action, &a) {
            Effect::OpenUrl { url } => url,
            _ => panic!("expected a URL effect"),
        };
        let ub = match effect_for(&action, &b) {
            Effect::OpenUrl { url } => url,
            _ => panic!("expected a URL effect"),
        };
        assert_eq!(ua, ub);
    }
}

#[test]
fn copy_action_puts_exactly_the_specs_on_the_clipboard() {
    let s = " OS: Linux \nshell: zsh ";
    let specs = SystemSpecs::new(String::from(s));
    match effect_for(&FeedbackAction::CopySystemSpecsIntoClipboard, &specs) {
        Effect::CopyToClipboard { clipboard_text, prompt_title, prompt_detail } => {
            assert_eq!(clipboard_text, s);
            assert_eq!(prompt_title, "Copied into clipboard");
            assert_eq!(prompt_detail, s);
        }
        _ => panic!("expected a clipboard effect"),
    }
}

#[test]
fn interleaved_actions_do_not_disturb_each_other() {
    let a = SystemSpecs::new(String::from("OS: Linux\nCPU: x86_64"));
    let b = SystemSpecs::new(String::from("OS: macOS\nCPU: arm64"));
    let e1 = effect_for(&FeedbackAction::FileBugReport, &a);
    let e2 = effect_for(&FeedbackAction::EmailNeopilot, &b);
    let e3 = effect_for(&FeedbackAction::FileBugReport, &a);
    let u1 = match e1 {
        Effect::OpenUrl { url } => url,
        _ => panic!("expected a URL effect"),
    };
    let u2 = match e2 {
        Effect::OpenUrl { url } => url,
        _ => panic!("expected a URL effect"),
    };
    let u3 = match e3 {
        Effect::OpenUrl { url } => url,
        _ => panic!("expected a URL effect"),
    };
    assert_eq!(u1, u3);
    assert_eq!(u1, file_bug_report_url(&a));
    assert_eq!(u2, email_neopilot_url(&b));
    assert!(u2.starts_with(EMAIL_PREFIX));
}

#[test]
fn decoder_rejects_malformed_input() {
    assert_eq!(percent_decode("%2"), None);
    assert_eq!(percent_decode("%ZZ"), None);
    assert_eq!(percent_decode("abc%"), None);
    assert_eq!(percent_decode("\u{20AC}"), None);
}

#[test]
fn decoder_accepts_plain_and_escaped_text() {
    assert_eq!(percent_decode("").unwrap(), b"");
    assert_eq!(percent_decode("abc").unwrap(), b"abc");
    assert_eq!(percent_decode("a%20b").unwrap(), b"a b");
    assert_eq!(percent_decode("%41%42%43").unwrap(), b"ABC");
    assert_eq!(percent_decode("%c3%A9").unwrap(), "é".as_bytes());
}

#[test]
fn system_specs_keep_their_text() {
    let s = "OS: Linux";
    let specs = SystemSpecs::new(String::from(s));
    assert_eq!(specs.canonical_text(), s);
    assert_eq!(specs.to_text(), s);
}
