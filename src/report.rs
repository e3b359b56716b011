//! The link under which a user can report a catalog that no longer parses.

use vstd::prelude::*;
use vstd::string::StringExecFns;

verus! {

/// Where new issues of this tool are opened.
pub const BUG_REPORT_URL: &'static str = "https://github.com/marblenix/minecraft_downloader/issues/new";

/// A string in `application/x-www-form-urlencoded` form, its UTF-8 bytes escaped.
pub uninterp spec fn form_urlencoded_of(s: Seq<char>) -> Seq<char>;

/// Relies on `form_urlencoded::byte_serialize` (re-exported by url): the
/// `application/x-www-form-urlencoded` form of the string's bytes, which depends on them alone.
#[verifier::external_body]
fn form_encode(s: &str) -> (r: String)
    ensures
        r@ == form_urlencoded_of(s@),
{
    url::form_urlencoded::byte_serialize(s.as_bytes()).collect()
}

/// The issue link for a report with this title, labelled `bug` and `tag`.
pub open spec fn bug_report_link(title: Seq<char>, tag: Seq<char>) -> Seq<char> {
    BUG_REPORT_URL@
        + "?assignees="@ + form_urlencoded_of("marblenix"@)
        + "&labels="@ + form_urlencoded_of("bug,"@ + tag)
        + "&template="@ + form_urlencoded_of("bug_report.md"@)
        + "&title="@ + form_urlencoded_of(title)
}

/// Builds the issue link for a bug report with `title`, labelled `bug` and `tag`.
pub fn bug_report_url(title: &str, tag: &str) -> (r: String)
    ensures
        r@ == bug_report_link(title@, tag@),
{
    let labels = "bug,".to_owned().concat(tag);
    let mut url = BUG_REPORT_URL.to_owned();
    url.append("?assignees=");
    url.append(form_encode("marblenix").as_str());
    url.append("&labels=");
    url.append(form_encode(labels.as_str()).as_str());
    url.append("&template=");
    url.append(form_encode("bug_report.md").as_str());
    url.append("&title=");
    url.append(form_encode(title).as_str());
    url
}

} // verus!
