//! The feedback actions and the one side effect each of them asks the host
//! to perform.
//!
//! The host registers one handler per action on every new window; a handler
//! gathers the system specs where its action needs them and then performs
//! exactly one side effect. The decision of which side effect, and with what
//! payload, is made here; the host only carries it out.

use crate::system_specs::SystemSpecs;
use crate::urls::{
    email_neopilot_url, email_neopilot_url_spec, file_bug_report_url, file_bug_report_url_spec,
    neopilot_repo_url, neopilot_repo_url_spec, request_feature_url, request_feature_url_spec,
};
use vstd::prelude::*;

verus! {

/// The commands the host can dispatch to the feedback handlers.
#[derive(Clone, Copy, PartialEq, Eq, Structural, Debug)]
pub enum FeedbackAction {
    CopySystemSpecsIntoClipboard,
    RequestFeature,
    FileBugReport,
    EmailNeopilot,
    OpenNeopilotRepo,
}

/// The one side effect an action asks the host for: either write text to
/// the clipboard and then show an informational prompt, or open a URL.
pub enum Effect {
    CopyToClipboard { clipboard_text: String, prompt_title: String, prompt_detail: String },
    OpenUrl { url: String },
}

/// The title of the confirmation prompt after a clipboard write.
pub open spec fn copied_prompt_title() -> Seq<char> {
    "Copied into clipboard"@
}

/// What effect an action must produce, given the specs string in force at
/// its invocation. The copy action puts exactly the specs on the clipboard
/// and shows them again in the prompt; the request-feature and
/// open-repository effects are fixed URLs that do not depend on the specs.
pub open spec fn effect_matches(action: FeedbackAction, specs: Seq<char>, e: Effect) -> bool {
    match action {
        FeedbackAction::CopySystemSpecsIntoClipboard => {
            &&& e matches Effect::CopyToClipboard {
                clipboard_text,
                prompt_title,
                prompt_detail,
            }
            &&& clipboard_text@ == specs
            &&& prompt_title@ == copied_prompt_title()
            &&& prompt_detail@ == specs
        },
        FeedbackAction::RequestFeature => {
            &&& e matches Effect::OpenUrl { url }
            &&& url@ == request_feature_url_spec()
        },
        FeedbackAction::FileBugReport => {
            &&& e matches Effect::OpenUrl { url }
            &&& url@ == file_bug_report_url_spec(specs)
        },
        FeedbackAction::EmailNeopilot => {
            &&& e matches Effect::OpenUrl { url }
            &&& url@ == email_neopilot_url_spec(specs)
        },
        FeedbackAction::OpenNeopilotRepo => {
            &&& e matches Effect::OpenUrl { url }
            &&& url@ == neopilot_repo_url_spec()
        },
    }
}

/// Decides the side effect of one action invocation. Each invocation builds
/// its payload from the specs snapshot it was handed and from nothing else,
/// so no two invocations share any mutable state.
pub fn effect_for(action: &FeedbackAction, specs: &SystemSpecs) -> (e: Effect)
    ensures
        effect_matches(*action, specs@, e),
{
    match action {
        FeedbackAction::CopySystemSpecsIntoClipboard => {
            let text = specs.to_text();
            Effect::CopyToClipboard {
                clipboard_text: text,
                prompt_title: "Copied into clipboard".to_owned(),
                prompt_detail: specs.to_text(),
            }
        },
        FeedbackAction::RequestFeature => Effect::OpenUrl {
            url: request_feature_url().to_owned(),
        },
        FeedbackAction::FileBugReport => Effect::OpenUrl { url: file_bug_report_url(specs) },
        FeedbackAction::EmailNeopilot => Effect::OpenUrl { url: email_neopilot_url(specs) },
        FeedbackAction::OpenNeopilotRepo => Effect::OpenUrl {
            url: neopilot_repo_url().to_owned(),
        },
    }
}

/// An invocation's payload is fully determined by its own action and its
/// own specs snapshot: two effects that meet the same action's contract for
/// the same specs carry identical payloads. No other invocation, running
/// before, after or interleaved, can change what an action puts on the
/// clipboard or which URL it opens.
pub proof fn lemma_effect_determined(
    action: FeedbackAction,
    specs: Seq<char>,
    e1: Effect,
    e2: Effect,
)
    requires
        effect_matches(action, specs, e1),
        effect_matches(action, specs, e2),
    ensures
        match (e1, e2) {
            (
                Effect::OpenUrl { url: u1 },
                Effect::OpenUrl { url: u2 },
            ) => u1@ == u2@,
            (
                Effect::CopyToClipboard {
                    clipboard_text: t1,
                    prompt_title: p1,
                    prompt_detail: d1,
                },
                Effect::CopyToClipboard {
                    clipboard_text: t2,
                    prompt_title: p2,
                    prompt_detail: d2,
                },
            ) => t1@ == t2@ && p1@ == p2@ && d1@ == d2@,
            _ => false,
        },
{
}

/// The request-feature and open-repository actions open one fixed URL each,
/// whatever specs were in force: any two effects of such an action carry
/// the same URL.
pub proof fn lemma_fixed_url_actions(
    action: FeedbackAction,
    specs1: Seq<char>,
    specs2: Seq<char>,
    e1: Effect,
    e2: Effect,
)
    requires
        action == FeedbackAction::RequestFeature || action == FeedbackAction::OpenNeopilotRepo,
        effect_matches(action, specs1, e1),
        effect_matches(action, specs2, e2),
    ensures
        e1 matches Effect::OpenUrl { url: u1 } && e2 matches Effect::OpenUrl { url: u2 }
            && u1@ == u2@,
{
}

} // verus!
