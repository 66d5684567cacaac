//! The organization-style provider: one request for the organization's
//! repositories, each turned into one entry.

use vstd::prelude::*;

use crate::json::{json_as_array, json_as_str, json_doc_of, json_error_string, json_field,
    json_from_str, json_get, json_is_null, json_str_field, json_view_of, JsonView};
use crate::provider::http::{json_failed, json_failed_message, page_verdict, spec_page_verdict,
    HttpEvent, PageVerdict, PageVerdictView};
use crate::provider::{entries_for_projects, entries_match_records, MirrorResult, ProjectRecord,
    ProjectRecordView, Provider};

verus! {

/// The organization-style provider's configuration.
#[derive(Debug, Clone, PartialEq, Eq)]
pub struct GitHub {
    /// The forge's API base URL.
    pub url: String,
    /// The organization whose repositories are mirrored.
    pub org: String,
    /// Use HTTP clone URLs as destinations instead of SSH ones.
    pub use_http: bool,
    /// The token the driver sends in the forge's auth header, when set.
    pub private_token: Option<String>,
    /// The user agent the driver must send: the forge rejects requests
    /// without one.
    pub useragent: String,
}

impl Provider for GitHub {
    /// The label is `<provider_url>/<organization>`, the same shape as
    /// the group-style provider's; the API path under `/orgs/` is not
    /// part of it.
    open spec fn label_view(&self) -> Seq<char> {
        self.url@ + "/"@ + self.org@
    }

    fn get_label(&self) -> (r: String)
        ensures
            r@ == self.label_view(),
    {
        let mut s = self.url.clone();
        s.append("/");
        s.append(self.org.as_str());
        s
    }
}

/// The organization's repository catalog endpoint.
pub open spec fn repos_url_view(base: Seq<char>, org: Seq<char>) -> Seq<char> {
    base + "/orgs/"@ + org + "/repos"@
}

/// The media type the driver must send in the Accept header, pinning the
/// v3 API.
pub fn accept_header() -> (r: String)
    ensures
        r@ == "application/vnd.github.v3+json"@,
{
    String::from_str("application/vnd.github.v3+json")
}

impl GitHub {
    /// The one URL this provider requests.
    pub fn repos_url(&self) -> (r: String)
        ensures
            r@ == repos_url_view(self.url@, self.org@),
    {
        let mut s = self.url.clone();
        s.append("/orgs/");
        s.append(self.org.as_str());
        s.append("/repos");
        s
    }

    /// The enumeration, decided by the one response: a failed send or a
    /// bad status is terminal with the classified message — 401 hints at
    /// the token variable — an unreadable body is terminal with the JSON
    /// message, and otherwise every listed repository becomes one entry.
    pub fn get_mirror_repos(&self, event: HttpEvent) -> (r: core::result::Result<
        Vec<MirrorResult>,
        String,
    >)
        ensures
            spec_page_verdict(
                repos_url_view(self.url@, self.org@),
                "GITHUB_PRIVATE_TOKEN"@,
                event@,
            ) matches PageVerdictView::Failed(m) ==> (r matches Err(e) && e@ == m),
            spec_page_verdict(
                repos_url_view(self.url@, self.org@),
                "GITHUB_PRIVATE_TOKEN"@,
                event@,
            ) matches PageVerdictView::Page { body, more } ==> (match spec_repos_parse(body) {
                Some(recs) => r matches Ok(entries) && entries_match_records(
                    entries@,
                    recs,
                    self.use_http,
                ),
                None => r matches Err(e) && (exists|cause: Seq<char>|
                    e@ == json_failed_message(cause)),
            }),
    {
        let url = self.repos_url();
        match page_verdict(url.as_str(), "GITHUB_PRIVATE_TOKEN", event) {
            PageVerdict::Failed(msg) => Err(msg),
            PageVerdict::Page { body, more: _ } => {
                match parse_repos_page(body.as_str()) {
                    Err(msg) => Err(msg),
                    Ok(recs) => Ok(entries_for_projects(&recs, self.use_http)),
                }
            },
        }
    }
}

/// The description one repository object carries: empty when the field
/// is absent or null, its text when it is a string.
pub open spec fn repo_desc_of(v: JsonView) -> Option<Seq<char>> {
    match json_field(v, "description"@) {
        None => Some(Seq::empty()),
        Some(dv) => match dv {
            JsonView::Null => Some(Seq::empty()),
            JsonView::Str(s) => Some(s),
            _ => None,
        },
    }
}

/// The record one repository object carries, when it has its description
/// and string `url`, `ssh_url` and `clone_url`.
pub open spec fn repo_record_of(v: JsonView) -> Option<ProjectRecordView> {
    match (
        repo_desc_of(v),
        json_str_field(v, "url"@),
        json_str_field(v, "ssh_url"@),
        json_str_field(v, "clone_url"@),
    ) {
        (Some(description), Some(web_url), Some(ssh_url), Some(http_url)) => Some(
            ProjectRecordView { description, web_url, ssh_url, http_url },
        ),
        _ => None,
    }
}

/// The record, with an empty one standing in where there is none.
pub open spec fn repo_or_empty(o: Option<ProjectRecordView>) -> ProjectRecordView {
    match o {
        Some(r) => r,
        None => ProjectRecordView {
            description: Seq::empty(),
            web_url: Seq::empty(),
            ssh_url: Seq::empty(),
            http_url: Seq::empty(),
        },
    }
}

/// What one catalog page lists: the records in order, when the document
/// is a list of repository objects.
pub open spec fn spec_repo_page(doc: JsonView) -> Option<Seq<ProjectRecordView>> {
    match doc {
        JsonView::Array(items) => if forall|i: int|
            0 <= i < items.len() ==> repo_record_of(#[trigger] items[i]) is Some {
            Some(Seq::new(items.len(), |i: int| repo_or_empty(repo_record_of(items[i]))))
        } else {
            None
        },
        _ => None,
    }
}

/// What one catalog page body parses to.
pub open spec fn spec_repos_parse(body: Seq<char>) -> Option<Seq<ProjectRecordView>> {
    match json_doc_of(body) {
        Some(doc) => spec_repo_page(doc),
        None => None,
    }
}

/// Reads the repository list: a JSON list of objects, each with an
/// optional string `description` — absent or null reads as empty — and a
/// string `url`, `ssh_url` and `clone_url` — exactly
/// [`spec_repos_parse`] of the body, with the JSON failure message
/// otherwise.
fn parse_repos_page(body: &str) -> (r: core::result::Result<Vec<ProjectRecord>, String>)
    ensures
        (match spec_repos_parse(body@) {
            Some(recs) => r matches Ok(v) && v.deep_view() == recs,
            None => r matches Err(e) && (exists|cause: Seq<char>|
                e@ == json_failed_message(cause)),
        }),
{
    let doc = match json_from_str(body) {
        Ok(doc) => doc,
        Err(e) => {
            return Err(json_failed(json_error_string(&e).as_str()));
        },
    };
    let ghost dv = json_view_of(doc);
    let items = match json_as_array(&doc) {
        None => {
            return Err(json_failed("expected a list of repositories"));
        },
        Some(items) => items,
    };
    let ghost elems: Seq<JsonView> = (match dv {
        JsonView::Array(es) => es,
        _ => arbitrary(),
    });
    let mut recs: Vec<ProjectRecord> = Vec::new();
    let mut i: usize = 0;
    #[verifier::loop_isolation(false)]
    while i < items.len()
        invariant
            i <= items@.len(),
            forall|j: int| 0 <= j < i ==> repo_record_of(#[trigger] elems[j]) is Some,
            recs.deep_view() == Seq::new(
                i as nat,
                |j: int| repo_or_empty(repo_record_of(elems[j])),
            ),
        decreases items@.len() - i,
    {
        let description = match json_get(&items[i], "description") {
            None => {
                let s = String::new();
                proof {
                    assert(s@ =~= Seq::<char>::empty());
                }
                s
            },
            Some(v) => {
                if json_is_null(v) {
                    let s = String::new();
                    proof {
                        assert(s@ =~= Seq::<char>::empty());
                    }
                    s
                } else {
                    match json_as_str(v) {
                        None => {
                            proof {
                                assert(repo_desc_of(elems[i as int]) is None);
                            }
                            return Err(
                                json_failed("invalid type: field `description` is not a string"),
                            );
                        },
                        Some(s) => s,
                    }
                }
            },
        };
        proof {
            assert(repo_desc_of(elems[i as int]) == Some(description@));
        }
        let web_url = match required_str(&items[i], "url") {
            Err(msg) => {
                return Err(msg);
            },
            Ok(s) => s,
        };
        let ssh_url = match required_str(&items[i], "ssh_url") {
            Err(msg) => {
                return Err(msg);
            },
            Ok(s) => s,
        };
        let http_url = match required_str(&items[i], "clone_url") {
            Err(msg) => {
                return Err(msg);
            },
            Ok(s) => s,
        };
        let rec = ProjectRecord { description, web_url, ssh_url, http_url };
        proof {
            assert(rec.deep_view() =~~= repo_or_empty(repo_record_of(elems[i as int])));
        }
        let ghost pre = recs.deep_view();
        recs.push(rec);
        proof {
            assert(recs.deep_view() =~~= pre.push(rec.deep_view()));
            assert(pre.push(rec.deep_view()) =~~= Seq::new(
                (i + 1) as nat,
                |j: int| repo_or_empty(repo_record_of(elems[j])),
            ));
        }
        i = i + 1;
    }
    proof {
        assert(recs.deep_view() =~~= Seq::new(
            elems.len(),
            |j: int| repo_or_empty(repo_record_of(elems[j])),
        ));
    }
    Ok(recs)
}

/// Reads one required string field of a JSON object.
fn required_str(item: &serde_json::Value, key: &str) -> (r: core::result::Result<String, String>)
    ensures
        (match json_str_field(json_view_of(*item), key@) {
            Some(s) => r matches Ok(v) && v@ == s,
            None => r matches Err(e) && (exists|cause: Seq<char>|
                e@ == json_failed_message(cause)),
        }),
{
    match json_get(item, key) {
        None => Err(json_failed("missing repository field")),
        Some(v) => match json_as_str(v) {
            None => Err(json_failed("invalid type: repository field is not a string")),
            Some(s) => Ok(s),
        },
    }
}

} // verus!
