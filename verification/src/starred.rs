//! The starred-messages page: which starred messages match the search, and
//! what the list shows while loading, when empty, and on errors.

use vstd::prelude::*;
use crate::chat_state::{str_view, string_view};
use crate::text;

verus! {

/// A starred message as the page lists it: the chat's name and the
/// message's text.
pub struct StarredHit {
    pub chat_name: String,
    pub preview: String,
}

/// Whether a hit whose lower-cased name and text are `name` and `preview`
/// matches the lower-cased search `q`: every hit matches an empty search.
pub open spec fn starred_match(name: Seq<char>, preview: Seq<char>, q: Seq<char>) -> bool {
    q.len() == 0 || text::has_infix(name, q) || text::has_infix(preview, q)
}

/// The indices of the hits that match, in order.
pub open spec fn matching_indices(names: Seq<Seq<char>>, previews: Seq<Seq<char>>, q: Seq<char>) -> Seq<
    usize,
>
    decreases names.len(),
{
    if names.len() == 0 {
        seq![]
    } else {
        let n = (names.len() - 1) as int;
        let p = matching_indices(names.drop_last(), previews.take(n), q);
        if starred_match(names[n], previews[n], q) {
            p.push(n as usize)
        } else {
            p
        }
    }
}

/// The hits that match the lower-cased search `q`, given each hit's name
/// and text lower-cased.
pub fn starred_matching(names_lower: &[String], previews_lower: &[String], q: &str) -> (r: Vec<usize>)
    requires
        names_lower@.len() == previews_lower@.len(),
    ensures
        r@ == matching_indices(
            names_lower@.map_values(|s: String| s@),
            previews_lower@.map_values(|s: String| s@),
            q@,
        ),
{
    let ghost names = names_lower@.map_values(|s: String| s@);
    let ghost previews = previews_lower@.map_values(|s: String| s@);
    let qv = text::chars_of(q);
    let mut out: Vec<usize> = Vec::new();
    for i in 0..names_lower.len()
        invariant
            names_lower@.len() == previews_lower@.len(),
            names == names_lower@.map_values(|s: String| s@),
            previews == previews_lower@.map_values(|s: String| s@),
            qv@ == q@,
            out@ == matching_indices(names.take(i as int), previews.take(i as int), q@),
    {
        let ghost nt = names.take(i + 1);
        assert(nt.drop_last() == names.take(i as int));
        assert(previews.take(i + 1).take(i as int) == previews.take(i as int));
        let name = text::chars_of(names_lower[i].as_str());
        let preview = text::chars_of(previews_lower[i].as_str());
        let hit = qv.len() == 0 || text::contains_chars(name.as_slice(), qv.as_slice())
            || text::contains_chars(preview.as_slice(), qv.as_slice());
        if hit {
            out.push(i);
        }
    }
    assert(names.take(names.len() as int) == names);
    assert(previews.take(previews.len() as int) == previews);
    out
}

/// The hits that match the search box's text: trimmed and lower-cased,
/// and looked for in each hit's lower-cased name and text.
pub fn filter_starred(hits: &[StarredHit], search: &str) -> (r: Vec<usize>)
    ensures
        r@ == matching_indices(
            hits@.map_values(|h: StarredHit| text::lowercase(h.chat_name@)),
            hits@.map_values(|h: StarredHit| text::lowercase(h.preview@)),
            text::lowercase(text::trimmed(search@)),
        ),
{
    let chars = text::chars_of(search);
    let t = text::trim_chars(chars.as_slice());
    let trimmed = text::string_from_chars(t.as_slice());
    let q = text::to_lowercase(trimmed.as_str());
    let mut names: Vec<String> = Vec::new();
    let mut previews: Vec<String> = Vec::new();
    for i in 0..hits.len()
        invariant
            names@.len() == i,
            previews@.len() == i,
            names@.map_values(|s: String| s@) == hits@.take(i as int).map_values(
                |h: StarredHit| text::lowercase(h.chat_name@),
            ),
            previews@.map_values(|s: String| s@) == hits@.take(i as int).map_values(
                |h: StarredHit| text::lowercase(h.preview@),
            ),
    {
        let ghost n0 = names@;
        let ghost p0 = previews@;
        names.push(text::to_lowercase(hits[i].chat_name.as_str()));
        previews.push(text::to_lowercase(hits[i].preview.as_str()));
        assert(hits@.take(i + 1) == hits@.take(i as int).push(hits@[i as int]));
        assert(names@.map_values(|s: String| s@) == n0.map_values(|s: String| s@).push(
            names@[i as int]@,
        ));
        assert(previews@.map_values(|s: String| s@) == p0.map_values(|s: String| s@).push(
            previews@[i as int]@,
        ));
    }
    assert(hits@.take(hits@.len() as int) == hits@);
    starred_matching(names.as_slice(), previews.as_slice(), q.as_str())
}

/// The title and detail of a notice.
pub open spec fn notice_view(n: Option<(&'static str, String)>) -> Option<(Seq<char>, Seq<char>)> {
    match n {
        Some(p) => Some((p.0@, p.1@)),
        None => None,
    }
}

/// What the starred list shows besides its rows.
pub struct StarredListView {
    /// A message in place of (or before) the rows: title and detail.
    pub notice: Option<(&'static str, String)>,
    /// The matching rows are listed.
    pub show_rows: bool,
    /// A row to load more starred messages follows.
    pub load_more: bool,
    /// An error shown after the rows.
    pub trailing_error: Option<String>,
}

/// What the starred list shows: while nothing is loaded, that it loads, an
/// error, or that nothing is starred; with hits but no match, that nothing
/// matches (and the load-more row when more exist); otherwise the rows,
/// the load-more row when more exist, and any error after them.
pub fn starred_list_view(
    any_hits: bool,
    loading: bool,
    error: Option<&str>,
    any_match: bool,
    has_more: bool,
) -> (r: StarredListView)
    ensures
        !any_hits && loading ==> notice_view(r.notice) == Some(
            ("Loading starred messages"@, "Reading starred messages from this account."@),
        ) && !r.show_rows && !r.load_more && r.trailing_error is None,
        !any_hits && !loading ==> notice_view(r.notice) == Some(
            match error {
                Some(e) => ("Couldn't load starred messages"@, e@),
                None => ("No starred messages"@, "Star a message in a chat to find it here."@),
            },
        ) && !r.show_rows && !r.load_more && r.trailing_error is None,
        any_hits && !any_match ==> notice_view(r.notice) == Some(
            ("No matching starred messages"@, "Try a different name or preview."@),
        ) && !r.show_rows && r.load_more == has_more && r.trailing_error is None,
        any_hits && any_match ==> r.notice is None && r.show_rows && r.load_more == has_more
            && string_view(r.trailing_error) == str_view(error),
{
    if !any_hits && loading {
        StarredListView {
            notice: Some(("Loading starred messages", String::from_str("Reading starred messages from this account."))),
            show_rows: false,
            load_more: false,
            trailing_error: None,
        }
    } else if !any_hits {
        let notice = match error {
            Some(e) => ("Couldn't load starred messages", e.to_string()),
            None => ("No starred messages", String::from_str("Star a message in a chat to find it here.")),
        };
        StarredListView { notice: Some(notice), show_rows: false, load_more: false, trailing_error: None }
    } else if !any_match {
        StarredListView {
            notice: Some(("No matching starred messages", String::from_str("Try a different name or preview."))),
            show_rows: false,
            load_more: has_more,
            trailing_error: None,
        }
    } else {
        let trailing_error = match error {
            Some(e) => Some(e.to_string()),
            None => None,
        };
        StarredListView { notice: None, show_rows: true, load_more: has_more, trailing_error }
    }
}

/// The label of the load-more row.
pub fn load_more_label(loading: bool) -> (r: &'static str)
    ensures
        r@ == (if loading { "Loading more…"@ } else { "Load more starred messages"@ }),
{
    if loading {
        "Loading more…"
    } else {
        "Load more starred messages"
    }
}

} // verus!
