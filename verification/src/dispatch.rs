//! The route table: from the segments of a request's path to what is done.
//!
//! A path is matched by the number of its segments first and by its first
//! segment second, so a pattern with a category never competes with one
//! without.

use crate::archive::{get_field_source_zip, get_source_zip, resolved_path};
use crate::catchers::general_not_found;
use crate::ident::without_suffix;
use crate::routes::{
    abs, abs_field, about, feeling_lucky, get_field_html, get_field_log, get_html, get_log, pdf,
    pdf_field, vanity_style, vanity_style_field, Redirect, NEW_HOME,
};
use vstd::prelude::*;
use vstd::string::StringExecFns;

verus! {

/// What a request is answered with.
#[derive(Clone, Debug, PartialEq, Eq)]
pub enum Action {
    /// Send the client to an address on the new host.
    Redirect(Redirect),
    /// Serve the source archive stored at this place; nothing is served where
    /// the identifier has no place.
    Source(Option<String>),
    /// Serve the crawler policy.
    Robots,
}

/// An `Action` as plain text.
pub enum ActionView {
    Redirect(Seq<char>),
    Source(Option<Seq<char>>),
    Robots,
}

impl View for Action {
    type V = ActionView;

    open spec fn view(&self) -> ActionView {
        match self {
            Action::Redirect(r) => ActionView::Redirect(r@),
            Action::Source(Some(path)) => ActionView::Source(Some(path@)),
            Action::Source(None) => ActionView::Source(None),
            Action::Robots => ActionView::Robots,
        }
    }
}

/// The answer to a path that no pattern matches.
pub open spec fn unmatched() -> ActionView {
    ActionView::Redirect(NEW_HOME@)
}

/// The answer to a path of one segment.
pub open spec fn fixed_page_action(page: Seq<char>) -> ActionView {
    if page == "feeling_lucky"@ {
        ActionView::Redirect(NEW_HOME@ + "/feeling_lucky"@)
    } else if page == "robots.txt"@ {
        ActionView::Robots
    } else {
        unmatched()
    }
}

/// The answer to a path of two segments: a route family and an identifier.
pub open spec fn plain_action(root: Seq<char>, family: Seq<char>, id: Seq<char>) -> ActionView {
    if family == "html"@ || family == "abs"@ || family == "papers"@ {
        ActionView::Redirect(NEW_HOME@ + "/html/"@ + id)
    } else if family == "pdf"@ {
        ActionView::Redirect(NEW_HOME@ + "/html/"@ + without_suffix(id, ".pdf"@))
    } else if family == "log"@ {
        ActionView::Redirect(NEW_HOME@ + "/log/"@ + id)
    } else if family == "source"@ {
        ActionView::Source(resolved_path(root, Seq::empty(), without_suffix(id, ".zip"@)))
    } else {
        unmatched()
    }
}

/// The answer to a path of three segments: a route family, a category and an
/// identifier.
pub open spec fn field_action(
    root: Seq<char>,
    family: Seq<char>,
    field: Seq<char>,
    id: Seq<char>,
) -> ActionView {
    if family == "html"@ {
        ActionView::Redirect(NEW_HOME@ + "/"@ + field + "/"@ + id)
    } else if family == "abs"@ || family == "papers"@ {
        ActionView::Redirect(NEW_HOME@ + "/html/"@ + field + "/"@ + id)
    } else if family == "pdf"@ {
        ActionView::Redirect(
            NEW_HOME@ + "/html/"@ + field + "/"@ + without_suffix(id, ".pdf"@),
        )
    } else if family == "log"@ {
        ActionView::Redirect(NEW_HOME@ + "/log/"@ + field + "/"@ + id)
    } else if family == "source"@ {
        ActionView::Source(resolved_path(root, field, without_suffix(id, ".zip"@)))
    } else {
        unmatched()
    }
}

/// The route table: the answer to the path whose segments are `segments`,
/// with archives stored under `root`.
pub open spec fn route_action(root: Seq<char>, segments: Seq<String>) -> ActionView {
    if segments.len() == 0 {
        ActionView::Redirect(NEW_HOME@)
    } else if segments.len() == 1 {
        fixed_page_action(segments[0]@)
    } else if segments.len() == 2 {
        plain_action(root, segments[0]@, segments[1]@)
    } else if segments.len() == 3 {
        field_action(root, segments[0]@, segments[1]@, segments[2]@)
    } else {
        unmatched()
    }
}

fn is_word(segment: &String, word: &str) -> (same: bool)
    ensures
        same == (segment@ == word@),
{
    let w = String::from_str(word);
    *segment == w
}

fn dispatch_fixed_page(page: &String) -> (action: Action)
    ensures
        action@ == fixed_page_action(page@),
{
    if is_word(page, "feeling_lucky") {
        Action::Redirect(feeling_lucky())
    } else if is_word(page, "robots.txt") {
        Action::Robots
    } else {
        Action::Redirect(general_not_found())
    }
}

fn dispatch_plain(root: &str, family: &String, id: &String) -> (action: Action)
    ensures
        action@ == plain_action(root@, family@, id@),
{
    let id = id.as_str();
    if is_word(family, "html") {
        Action::Redirect(get_html(id))
    } else if is_word(family, "abs") {
        Action::Redirect(abs(id))
    } else if is_word(family, "papers") {
        Action::Redirect(vanity_style(id))
    } else if is_word(family, "pdf") {
        Action::Redirect(pdf(String::from_str(id)))
    } else if is_word(family, "log") {
        Action::Redirect(get_log(id))
    } else if is_word(family, "source") {
        Action::Source(get_source_zip(root, id))
    } else {
        Action::Redirect(general_not_found())
    }
}

fn dispatch_field(root: &str, family: &String, field: &String, id: &String) -> (action: Action)
    ensures
        action@ == field_action(root@, family@, field@, id@),
{
    let field = field.as_str();
    let id = id.as_str();
    if is_word(family, "html") {
        Action::Redirect(get_field_html(field, id))
    } else if is_word(family, "abs") {
        Action::Redirect(abs_field(field, id))
    } else if is_word(family, "papers") {
        Action::Redirect(vanity_style_field(field, id))
    } else if is_word(family, "pdf") {
        Action::Redirect(pdf_field(field, String::from_str(id)))
    } else if is_word(family, "log") {
        Action::Redirect(get_field_log(field, id))
    } else if is_word(family, "source") {
        Action::Source(get_field_source_zip(root, field, id))
    } else {
        Action::Redirect(general_not_found())
    }
}

/// Answers the request for the path whose segments are `segments`, with
/// archives stored under `root`. Every path has an answer: one that no
/// pattern matches is sent to the root of the new host.
pub fn dispatch(root: &str, segments: &Vec<String>) -> (action: Action)
    ensures
        action@ == route_action(root@, segments@),
{
    if segments.len() == 0 {
        Action::Redirect(about())
    } else if segments.len() == 1 {
        dispatch_fixed_page(&segments[0])
    } else if segments.len() == 2 {
        dispatch_plain(root, &segments[0], &segments[1])
    } else if segments.len() == 3 {
        dispatch_field(root, &segments[0], &segments[1], &segments[2])
    } else {
        Action::Redirect(general_not_found())
    }
}

/// `word` is the first segment of a pattern with parameters.
pub open spec fn is_route_family(word: Seq<char>) -> bool {
    word == "html"@ || word == "abs"@ || word == "papers"@ || word == "pdf"@ || word == "log"@
        || word == "source"@
}

/// A path that no pattern matches is sent to the root of the new host: one
/// of more than three segments, one of two or three segments whose first
/// names no route family, and one of a single segment that is no fixed page.
pub proof fn lemma_unmatched_goes_home(root: Seq<char>, segments: Seq<String>)
    requires
        segments.len() > 3 || (segments.len() >= 2 && !is_route_family(segments[0]@)) || (
        segments.len() == 1 && segments[0]@ != "feeling_lucky"@ && segments[0]@ != "robots.txt"@),
    ensures
        route_action(root, segments) == ActionView::Redirect(NEW_HOME@),
{
}

/// The pattern is chosen by the number of segments: a path of two segments
/// is answered without category and one of three with its second segment as
/// the category, whatever the segments hold.
pub proof fn lemma_segment_count_decides(root: Seq<char>, segments: Seq<String>)
    ensures
        segments.len() == 2 ==> route_action(root, segments) == plain_action(
            root,
            segments[0]@,
            segments[1]@,
        ),
        segments.len() == 3 ==> route_action(root, segments) == field_action(
            root,
            segments[0]@,
            segments[1]@,
            segments[2]@,
        ),
{
}

/// Whatever the storage root, only the answers of the source routes depend
/// on it.
pub proof fn lemma_redirects_ignore_root(
    root_a: Seq<char>,
    root_b: Seq<char>,
    segments: Seq<String>,
)
    requires
        !(route_action(root_a, segments) is Source),
    ensures
        route_action(root_b, segments) == route_action(root_a, segments),
{
}

} // verus!
