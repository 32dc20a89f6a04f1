//! The diagnostic text: an introductory line quoting the developer's
//! justification and, when link generation is enabled, a pre-filled bug-report
//! URL built against the configured tracker.

use crate::Registry;
use crate::encoding::{encode_component, encoded_text};
use vstd::prelude::*;
use vstd::string::StringExecFns;

verus! {

/// The introductory line of every diagnostic, quoting the justification.
pub open spec fn intro_text(why: Seq<char>) -> Seq<char> {
    "During development this potential error has been marked as not likely to occur because `"@
        + why + "`"@
}

/// The title of the bug report to be opened.
pub open spec fn issue_title_text(why: Seq<char>) -> Seq<char> {
    "Unexpected state as `"@ + why + "`"@
}

/// The failure detail fenced as a literal code block, a blank line before it.
pub open spec fn fenced_detail_text(error: Seq<char>) -> Seq<char> {
    "\n\n```\n"@ + error + "\n```"@
}

/// The body of the bug report: a placeholder instruction, then the failure
/// detail fenced as a literal code block.
pub open spec fn issue_body_text(error: Seq<char>) -> Seq<char> {
    "<Please replace this placeholder with a brief description what command you tried to run>"@
        + fenced_detail_text(error)
}

/// The bug-report link: when a tracker URL is configured, its address followed
/// by the percent-encoded title and body query parameters; otherwise a fixed
/// notice that no tracker was configured.
pub open spec fn issue_url_text(
    why: Seq<char>,
    error: Seq<char>,
    tracker: Option<Seq<char>>,
) -> Seq<char> {
    match tracker {
        Option::Some(url) => url + "/issues/new?title="@ + encoded_text(issue_title_text(why))
            + "&body="@ + encoded_text(issue_body_text(error)),
        Option::None => "The developer didn't provide the GitHub repository URL \u{1f62d}"@,
    }
}

/// The whole diagnostic: empty on the success shape; on the failure shape the
/// introductory line, followed — only when link generation is enabled — by the
/// invitation to click, the bug-report link, and the guidance text.
pub open spec fn message_text(
    why: Seq<char>,
    detail: Option<Seq<char>>,
    with_link: bool,
    tracker: Option<Seq<char>>,
) -> Seq<char> {
    match detail {
        Option::None => Seq::<char>::empty(),
        Option::Some(error) => if with_link {
            intro_text(why)
                + "\nPlease click the link below to automatically open a GitHub issue:\n\n"@
                + issue_url_text(why, error, tracker)
                + "\n\nPlease describe what you were doing when it occurred. Details below will be automatically included"@
        } else {
            intro_text(why)
        },
    }
}

/// Builds the bug-report link for a justification and a rendered failure
/// detail, against the tracker URL held by `registry`.
pub fn issue_ctor_url(why: &str, error: &str, registry: &Registry) -> (r: String)
    ensures
        r@ == issue_url_text(why@, error@, registry@),
{
    match registry.get() {
        Some(url) => {
            let title = String::from_str("Unexpected state as `").concat(why).concat("`");
            let body = String::from_str(
                "<Please replace this placeholder with a brief description what command you tried to run>",
            ).concat("\n\n```\n").concat(error).concat("\n```");
            proof {
                assert(body@ =~= issue_body_text(error@));
            }
            let encoded_title = encode_component(title.as_str());
            let encoded_body = encode_component(body.as_str());
            url.clone().concat("/issues/new?title=").concat(encoded_title.as_str()).concat(
                "&body=",
            ).concat(encoded_body.as_str())
        },
        None => String::from_str(
            "The developer didn't provide the GitHub repository URL \u{1f62d}",
        ),
    }
}

/// Builds the diagnostic text for a justification and an optional rendered
/// failure detail. An absent detail is the success shape and yields the empty
/// string; `with_link` is the link-generation switch.
pub fn cant_happen_fmt(why: &str, detail: Option<&str>, with_link: bool, registry: &Registry) -> (r:
    String)
    ensures
        r@ == message_text(why@, detail.deep_view(), with_link, registry@),
{
    match detail {
        None => String::new(),
        Some(error) => {
            let intro = String::from_str(
                "During development this potential error has been marked as not likely to occur because `",
            ).concat(why).concat("`");
            if with_link {
                let link = issue_ctor_url(why, error, registry);
                intro.concat(
                    "\nPlease click the link below to automatically open a GitHub issue:\n\n",
                ).concat(link.as_str()).concat(
                    "\n\nPlease describe what you were doing when it occurred. Details below will be automatically included",
                )
            } else {
                intro
            }
        },
    }
}

/// The diagnostic for a failure begins with the introductory line, and so
/// always contains the justification verbatim, right after the line's fixed
/// prefix.
pub proof fn lemma_message_contains_justification(
    why: Seq<char>,
    error: Seq<char>,
    with_link: bool,
    tracker: Option<Seq<char>>,
)
    ensures
        ({
            let m = message_text(why, Option::Some(error), with_link, tracker);
            let i = "During development this potential error has been marked as not likely to occur because `"@.len() as int;
            intro_text(why).len() <= m.len() && m.subrange(0, intro_text(why).len() as int)
                == intro_text(why) && 0 <= i && i + why.len() <= m.len() && m.subrange(
                i,
                i + why.len(),
            ) == why
        }),
{
    let m = message_text(why, Option::Some(error), with_link, tracker);
    let prefix =
        "During development this potential error has been marked as not likely to occur because `"@;
    let i = prefix.len() as int;
    assert(m.subrange(0, intro_text(why).len() as int) =~= intro_text(why));
    assert(m.subrange(i, i + why.len()) =~= why);
}

/// With link generation enabled, the diagnostic for a failure carries the
/// bug-report link verbatim, right after the invitation to click: with a
/// tracker configured that is its address, the `/issues/new` route and the
/// percent-encoded title and body parameters; without one it is the fixed
/// "not configured" notice.
pub proof fn lemma_message_contains_link(
    why: Seq<char>,
    error: Seq<char>,
    tracker: Option<Seq<char>>,
)
    ensures
        ({
            let m = message_text(why, Option::Some(error), true, tracker);
            let link = issue_url_text(why, error, tracker);
            let i = intro_text(why).len() as int
                + "\nPlease click the link below to automatically open a GitHub issue:\n\n"@.len() as int;
            0 <= i && i + link.len() <= m.len() && m.subrange(i, i + link.len()) == link
        }),
{
    let m = message_text(why, Option::Some(error), true, tracker);
    let link = issue_url_text(why, error, tracker);
    let i = intro_text(why).len() as int
        + "\nPlease click the link below to automatically open a GitHub issue:\n\n"@.len() as int;
    assert(m.subrange(i, i + link.len()) =~= link);
}

/// The bug-report body quotes the rendered failure detail verbatim, fenced as
/// a literal code block: the body ends with a blank line, an opening fence,
/// the detail, and a closing fence.
pub proof fn lemma_body_fences_detail(error: Seq<char>)
    ensures
        ({
            let body = issue_body_text(error);
            let fenced = fenced_detail_text(error);
            fenced.len() <= body.len() && body.subrange(
                body.len() - fenced.len(),
                body.len() as int,
            ) == fenced
        }),
{
    let body = issue_body_text(error);
    let fenced = fenced_detail_text(error);
    assert(body.subrange(body.len() - fenced.len(), body.len() as int) =~= fenced);
}

} // verus!
