//! Deep links of the `mux` scheme: from the text of a URL to the payload that
//! the front end is sent.

use vstd::prelude::*;
use crate::text::{chars_of, prefixed, same_text, text_view};

verus! {

/// What a deep link asks for.
#[derive(Debug, Clone, PartialEq, Eq)]
pub struct DeepLinkPayload {
    pub payload_type: String,
    pub project: Option<String>,
    pub project_path: Option<String>,
    pub project_id: Option<String>,
    pub prompt: Option<String>,
    pub section_id: Option<String>,
}

/// A payload as contracts see it.
pub struct DeepLinkView {
    pub payload_type: Seq<char>,
    pub project: Option<Seq<char>>,
    pub project_path: Option<Seq<char>>,
    pub project_id: Option<Seq<char>>,
    pub prompt: Option<Seq<char>>,
    pub section_id: Option<Seq<char>>,
}

impl View for DeepLinkPayload {
    type V = DeepLinkView;

    open spec fn view(&self) -> DeepLinkView {
        DeepLinkView {
            payload_type: self.payload_type@,
            project: text_view(self.project),
            project_path: text_view(self.project_path),
            project_id: text_view(self.project_id),
            prompt: text_view(self.prompt),
            section_id: text_view(self.section_id),
        }
    }
}

/// The parts of a parsed URL that a deep link is read from: the scheme, the
/// path, and the pairs of the query, decoded, in their order.
#[derive(Debug, Clone, PartialEq, Eq)]
pub struct UrlParts {
    pub scheme: String,
    pub path: String,
    pub query: Vec<(String, String)>,
}

/// The parts of a URL as contracts see them.
pub struct UrlPartsView {
    pub scheme: Seq<char>,
    pub path: Seq<char>,
    pub query: Seq<(Seq<char>, Seq<char>)>,
}

/// The pairs of a query as contracts see them.
pub open spec fn pairs_view(query: Seq<(String, String)>) -> Seq<(Seq<char>, Seq<char>)> {
    Seq::new(query.len(), |i: int| (query[i].0@, query[i].1@))
}

impl View for UrlParts {
    type V = UrlPartsView;

    open spec fn view(&self) -> UrlPartsView {
        UrlPartsView { scheme: self.scheme@, path: self.path@, query: pairs_view(self.query@) }
    }
}

/// The outcome of parsing a URL as contracts see it.
pub open spec fn parsed_view(parsed: Result<UrlParts, String>) -> Result<UrlPartsView, Seq<char>> {
    match parsed {
        Ok(parts) => Ok(parts@),
        Err(e) => Err(e@),
    }
}

/// The outcome of reading a deep link as contracts see it.
pub open spec fn outcome_view(r: Result<DeepLinkPayload, String>) -> Result<
    DeepLinkView,
    Seq<char>,
> {
    match r {
        Ok(payload) => Ok(payload@),
        Err(e) => Err(e@),
    }
}

/// What `url::Url::parse` makes of `input`: the parts of the URL, or the
/// words of the parse error.
pub uninterp spec fn url_parse(input: Seq<char>) -> Result<UrlPartsView, Seq<char>>;

/// Calls `url::Url::parse` and reads the scheme, the path and the query pairs
/// off the parsed URL. Trusted: the result is what the `url` crate gives for
/// this input, which depends on the input alone; a parse error comes back as
/// its own words.
#[verifier::external_body]
pub(crate) fn split_url(input: &str) -> (r: Result<UrlParts, String>)
    ensures
        parsed_view(r) == url_parse(input@),
{
    match url::Url::parse(input) {
        Ok(parsed) => Ok(
            UrlParts {
                scheme: parsed.scheme().to_string(),
                path: parsed.path().to_string(),
                query: parsed.query_pairs().map(|(k, v)| (k.into_owned(), v.into_owned())).collect(),
            },
        ),
        Err(e) => Err(e.to_string()),
    }
}

/// `s` without its trailing slashes.
pub open spec fn trim_end_slashes(s: Seq<char>) -> Seq<char>
    decreases s.len(),
{
    if s.len() > 0 && s.last() == '/' {
        trim_end_slashes(s.drop_last())
    } else {
        s
    }
}

/// The value of the first pair of the query whose key is `key`, unless that
/// value is empty.
pub open spec fn query_param(query: Seq<(Seq<char>, Seq<char>)>, key: Seq<char>) -> Option<
    Seq<char>,
>
    decreases query.len(),
{
    if query.len() == 0 {
        None
    } else if query[0].0 == key {
        if query[0].1.len() > 0 {
            Some(query[0].1)
        } else {
            None
        }
    } else {
        query_param(query.skip(1), key)
    }
}

/// The payload of a parsed URL. The scheme must be `mux` and the path, apart
/// from trailing slashes, `/chat/new`.
pub open spec fn deep_link_of(parsed: Result<UrlPartsView, Seq<char>>) -> Result<
    DeepLinkView,
    Seq<char>,
> {
    match parsed {
        Err(e) => Err("Invalid URL: "@ + e),
        Ok(parts) => if parts.scheme != "mux"@ {
            Err("Protocol must be 'mux'"@)
        } else if trim_end_slashes(parts.path) != "/chat/new"@ {
            Err("Unsupported path: "@ + trim_end_slashes(parts.path))
        } else {
            Ok(
                DeepLinkView {
                    payload_type: "new_chat"@,
                    project: query_param(parts.query, "project"@),
                    project_path: query_param(parts.query, "projectPath"@),
                    project_id: query_param(parts.query, "projectId"@),
                    prompt: query_param(parts.query, "prompt"@),
                    section_id: query_param(parts.query, "sectionId"@),
                },
            )
        },
    }
}

/// Looks up a parameter in the decoded pairs of a query.
pub fn get_query_param(query: &Vec<(String, String)>, key: &str) -> (value: Option<String>)
    ensures
        text_view(value) == query_param(pairs_view(query@), key@),
{
    let ghost pairs = pairs_view(query@);
    let mut i: usize = 0;
    assert(pairs.skip(0) =~= pairs);
    while i < query.len()
        invariant
            i <= query.len(),
            pairs == pairs_view(query@),
            query_param(pairs, key@) == query_param(pairs.skip(i as int), key@),
        decreases query.len() - i,
    {
        assert(pairs.skip(i as int)[0] == pairs[i as int]);
        assert(pairs.skip(i as int).skip(1) =~= pairs.skip(i as int + 1));
        if same_text(query[i].0.as_str(), key) {
            if query[i].1.as_str().is_empty() {
                return None;
            }
            return Some(query[i].1.clone());
        }
        i = i + 1;
    }
    None
}

/// The payload for a URL that was parsed, or the words for why there is none.
pub fn deep_link_from_parts(parsed: Result<UrlParts, String>) -> (r: Result<
    DeepLinkPayload,
    String,
>)
    ensures
        outcome_view(r) == deep_link_of(parsed_view(parsed)),
{
    let parts: UrlParts = match parsed {
        Ok(parts) => parts,
        Err(e) => {
            return Err(prefixed("Invalid URL: ", e.as_str()));
        },
    };
    if !same_text(parts.scheme.as_str(), "mux") {
        return Err(String::from_str("Protocol must be 'mux'"));
    }
    let chars: Vec<char> = chars_of(parts.path.as_str());
    let mut end: usize = chars.len();
    assert(chars@.take(end as int) =~= chars@);
    while end > 0 && chars[end - 1] == '/'
        invariant
            end <= chars.len(),
            trim_end_slashes(chars@) == trim_end_slashes(chars@.take(end as int)),
        decreases end,
    {
        assert(chars@.take(end as int).drop_last() =~= chars@.take(end as int - 1));
        end = end - 1;
    }
    let normalized: &str = parts.path.as_str().substring_char(0, end);
    assert(normalized@ =~= trim_end_slashes(parts.path@));
    if !same_text(normalized, "/chat/new") {
        return Err(prefixed("Unsupported path: ", normalized));
    }
    Ok(
        DeepLinkPayload {
            payload_type: String::from_str("new_chat"),
            project: get_query_param(&parts.query, "project"),
            project_path: get_query_param(&parts.query, "projectPath"),
            project_id: get_query_param(&parts.query, "projectId"),
            prompt: get_query_param(&parts.query, "prompt"),
            section_id: get_query_param(&parts.query, "sectionId"),
        },
    )
}

/// Reads a deep link. Supported is `mux:` with the path `/chat/new` and the
/// parameters `project`, `projectPath`, `projectId`, `prompt` and `sectionId`.
pub fn parse_deep_link(url_str: &str) -> (r: Result<DeepLinkPayload, String>)
    ensures
        outcome_view(r) == deep_link_of(url_parse(url_str@)),
{
    deep_link_from_parts(split_url(url_str))
}

/// Calls `std::path::Path::exists`. Trusted, and nothing is claimed of the
/// answer: it depends on what is on disk.
#[verifier::external_body]
pub(crate) fn path_exists(path: &str) -> (exists: bool) {
    std::path::Path::new(path).exists()
}

/// Calls `std::path::Path::is_dir`. Trusted, and nothing is claimed of the
/// answer: it depends on what is on disk.
#[verifier::external_body]
pub(crate) fn path_is_dir(path: &str) -> (is_dir: bool) {
    std::path::Path::new(path).is_dir()
}

/// The words for a project path that is not there.
pub open spec fn missing_path_text(path: Seq<char>) -> Seq<char> {
    "Path does not exist: "@ + path
}

/// The words for a project path that is no directory.
pub open spec fn not_a_directory_text(path: Seq<char>) -> Seq<char> {
    "Path is not a directory: "@ + path
}

/// The verdict on a project path, from what the file system says of it.
pub fn project_path_verdict(path: &str, exists: bool, is_dir: bool) -> (r: Result<(), String>)
    ensures
        match r {
            Ok(()) => exists && is_dir,
            Err(e) => !(exists && is_dir) && e@ == (if !exists {
                missing_path_text(path@)
            } else {
                not_a_directory_text(path@)
            }),
        },
{
    if !exists {
        return Err(prefixed("Path does not exist: ", path));
    }
    if !is_dir {
        return Err(prefixed("Path is not a directory: ", path));
    }
    Ok(())
}

/// Checks that a project path names a directory that is there. Whatever the
/// file system holds, a failure is one of the two that
/// `project_path_verdict` gives.
pub fn validate_project_path(path: &str) -> (r: Result<(), String>)
    ensures
        r matches Err(e) ==> e@ == missing_path_text(path@) || e@ == not_a_directory_text(path@),
{
    if !path_exists(path) {
        return project_path_verdict(path, false, false);
    }
    project_path_verdict(path, true, path_is_dir(path))
}

/// Reads a deep link and checks its project path, if it names one. The
/// payload that comes back is the one to send to the front end. A link that
/// cannot be read fails with the words of `deep_link_of`; one that names no
/// project path succeeds; for one that names a path the file system decides.
pub fn handle_deep_link(url: &str) -> (r: Result<DeepLinkPayload, String>)
    ensures
        match deep_link_of(url_parse(url@)) {
            Err(e) => outcome_view(r) == Err::<DeepLinkView, Seq<char>>(e),
            Ok(payload) => match r {
                Ok(sent) => sent@ == payload,
                Err(e) => payload.project_path matches Some(path) && (e@ == missing_path_text(path)
                    || e@ == not_a_directory_text(path)),
            },
        },
{
    let payload: DeepLinkPayload = match parse_deep_link(url) {
        Ok(payload) => payload,
        Err(e) => {
            return Err(e);
        },
    };
    match &payload.project_path {
        Some(path) => match validate_project_path(path.as_str()) {
            Ok(()) => {},
            Err(e) => {
                return Err(e);
            },
        },
        None => {},
    }
    Ok(payload)
}

} // verus!
