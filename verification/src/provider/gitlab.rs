//! The group-style provider: it discovers a group's descendant subgroups,
//! pages each group's project catalog, and turns every project into one
//! entry. Discovery failures fall back to the root group alone; a failure
//! while fetching projects is terminal for the enumeration.

use vstd::prelude::*;

use crate::json::{
    json_as_array, json_as_str, json_as_u64, json_doc_of, json_error_string, json_field,
    json_from_str, json_get, json_str_field, json_view_of, JsonView,
};
use crate::numfmt::{dec_nat, u64_to_dec};
use crate::provider::http::{json_failed, json_failed_message, page_verdict, spec_page_verdict,
    HttpEvent, PageVerdict, PageVerdictView};
use crate::provider::{entries_for_projects, entries_match_records, MirrorResult, ProjectRecord,
    ProjectRecordView, Provider};

verus! {

/// The group-style provider's configuration.
#[derive(Debug, Clone, PartialEq, Eq)]
pub struct GitLab {
    /// The forge's base URL.
    pub url: String,
    /// The root group whose projects are mirrored.
    pub group: String,
    /// Use HTTP clone URLs as destinations instead of SSH ones.
    pub use_http: bool,
    /// The token the driver sends in the forge's auth header, when set.
    pub private_token: Option<String>,
    /// Discover and include all descendant subgroups.
    pub recursive: bool,
}

impl Provider for GitLab {
    open spec fn label_view(&self) -> Seq<char> {
        self.url@ + "/"@ + self.group@
    }

    fn get_label(&self) -> (r: String)
        ensures
            r@ == self.label_view(),
    {
        let mut s = self.url.clone();
        s.append("/");
        s.append(self.group.as_str());
        s
    }
}

/// The subgroups endpoint for one group.
pub open spec fn subgroups_url_view(base: Seq<char>, id: Seq<char>) -> Seq<char> {
    base + "/api/v4/groups/"@ + id + "/subgroups"@
}

/// The projects endpoint for one group.
pub open spec fn projects_url_view(base: Seq<char>, id: Seq<char>) -> Seq<char> {
    base + "/api/v4/groups/"@ + id + "/projects"@
}

/// One page of an endpoint: one hundred items per page.
pub open spec fn paged_url_view(url: Seq<char>, page: u32) -> Seq<char> {
    url + "?per_page=100&page="@ + dec_nat(page as nat)
}

fn subgroups_url(base: &str, id: &str) -> (r: String)
    ensures
        r@ == subgroups_url_view(base@, id@),
{
    let mut s = base.to_owned();
    s.append("/api/v4/groups/");
    s.append(id);
    s.append("/subgroups");
    s
}

fn projects_url(base: &str, id: &str) -> (r: String)
    ensures
        r@ == projects_url_view(base@, id@),
{
    let mut s = base.to_owned();
    s.append("/api/v4/groups/");
    s.append(id);
    s.append("/projects");
    s
}

fn paged_url(url: String, page: u32) -> (r: String)
    ensures
        r@ == paged_url_view(url@, page),
{
    let mut s = url;
    s.append("?per_page=100&page=");
    s.append(u64_to_dec(page as u64).as_str());
    s
}

/// Where the enumeration stands.
pub enum GitLabState {
    /// Discovering descendant groups, depth first: `current` is the group
    /// whose subgroups page `page` is being fetched, `children` what its
    /// earlier pages listed, `stack` the groups still to expand (next on
    /// top), and `groups` the finished groups in pre-order.
    Discover {
        stack: Vec<String>,
        groups: Vec<String>,
        current: String,
        page: u32,
        children: Vec<u64>,
    },
    /// Fetching each group's projects: page `page` of group `idx` is
    /// being fetched, and `projects` holds everything collected so far.
    FetchProjects { groups: Vec<String>, idx: usize, page: u32, projects: Vec<ProjectRecord> },
    /// The enumeration is over: the entries, or its terminal error.
    Finished(core::result::Result<Vec<MirrorResult>, String>),
}

/// What the driver must do next.
pub enum GitLabAction<'a> {
    /// Request this URL — with the private token in the `PRIVATE-TOKEN`
    /// header when one is configured — and report an [`HttpEvent`].
    Request(String),
    /// Nothing: enumeration ended with this result.
    Finish(&'a core::result::Result<Vec<MirrorResult>, String>),
}

/// A state is well formed when its group index is in range.
pub open spec fn gitlab_state_wf(state: GitLabState) -> bool {
    match state {
        GitLabState::FetchProjects { groups, idx, .. } => idx < groups@.len(),
        _ => true,
    }
}

/// The URL a state requests.
pub open spec fn spec_request_url(provider: GitLab, state: GitLabState) -> Seq<char> {
    match state {
        GitLabState::Discover { current, page, .. } => paged_url_view(
            subgroups_url_view(provider.url@, current@),
            page,
        ),
        GitLabState::FetchProjects { groups, idx, page, .. } => paged_url_view(
            projects_url_view(provider.url@, groups@[idx as int]@),
            page,
        ),
        GitLabState::Finished(_) => ""@,
    }
}

/// The fallback shape discovery failures produce: fetching the root
/// group's projects from the first page, with nothing collected.
pub open spec fn is_fallback_state(next: GitLabState, root: Seq<char>) -> bool {
    next matches GitLabState::FetchProjects { groups, idx, page, projects } && groups.deep_view()
        == seq![root] && idx == 0 && page == 1 && projects@.len() == 0
}

/// The children of a finished group as queued for expansion: their
/// decimal names, first child on top of the stack, so that the walk
/// stays depth first in discovery order.
pub open spec fn queued_children(ids: Seq<u64>) -> Seq<Seq<char>> {
    Seq::new(ids.len(), |i: int| crate::numfmt::dec_nat(ids[ids.len() - 1 - i] as nat))
}

/// Whether `next` is the state after closing the group `current`, whose
/// pages listed the children `ids`: the group is recorded after those
/// closed before it, its children are queued on top of the stack, and
/// the walk moves to the topmost queued group from its first page — or,
/// with none queued, to fetching the recorded groups' projects in order.
pub open spec fn group_closed(
    next: GitLabState,
    stack: Seq<Seq<char>>,
    groups: Seq<Seq<char>>,
    current: Seq<char>,
    ids: Seq<u64>,
) -> bool {
    let queued = stack + queued_children(ids);
    let recorded = groups.push(current);
    if queued.len() > 0 {
        next matches GitLabState::Discover {
            stack: s2,
            groups: g2,
            current: c2,
            page: p2,
            children: ch2,
        } && s2.deep_view() == queued.drop_last() && g2.deep_view() == recorded && c2@
            == queued.last() && p2 == 1 && ch2@.len() == 0
    } else {
        next matches GitLabState::FetchProjects { groups: g2, idx, page, projects } && g2.deep_view()
            == recorded && idx == 0 && page == 1 && projects@.len() == 0
    }
}

impl GitLab {
    /// Starts the enumeration: with discovery when the provider is
    /// recursive, else straight at the root group's projects.
    pub fn enumerate_start(&self) -> (state: GitLabState)
        ensures
            gitlab_state_wf(state),
            self.recursive ==> (state matches GitLabState::Discover {
                stack,
                groups,
                current,
                page,
                children,
            } && stack@.len() == 0 && groups@.len() == 0 && current@ == self.group@ && page == 1
                && children@.len() == 0),
            !self.recursive ==> (state matches GitLabState::FetchProjects {
                groups,
                idx,
                page,
                projects,
            } && groups.deep_view() == seq![self.group@] && idx == 0 && page == 1 && projects@.len()
                == 0),
    {
        if self.recursive {
            GitLabState::Discover {
                stack: Vec::new(),
                groups: Vec::new(),
                current: self.group.clone(),
                page: 1,
                children: Vec::new(),
            }
        } else {
            let mut groups: Vec<String> = Vec::new();
            groups.push(self.group.clone());
            proof {
                assert(groups.deep_view() =~~= seq![self.group@]);
            }
            GitLabState::FetchProjects { groups, idx: 0, page: 1, projects: Vec::new() }
        }
    }

    /// Reads the requested action off the state.
    pub fn enumerate_action<'a>(&self, state: &'a GitLabState) -> (a: GitLabAction<'a>)
        requires
            gitlab_state_wf(*state),
        ensures
            !(state is Finished) ==> (a matches GitLabAction::Request(url) && url@
                == spec_request_url(*self, *state)),
            state matches GitLabState::Finished(res) ==> (a matches GitLabAction::Finish(r) && r
                == res),
    {
        match state {
            GitLabState::Discover { current, page, .. } => GitLabAction::Request(
                paged_url(subgroups_url(self.url.as_str(), current.as_str()), *page),
            ),
            GitLabState::FetchProjects { groups, idx, page, .. } => GitLabAction::Request(
                paged_url(projects_url(self.url.as_str(), groups[*idx].as_str()), *page),
            ),
            GitLabState::Finished(res) => GitLabAction::Finish(res),
        }
    }

    /// The fallback when subgroup discovery fails anywhere: the root
    /// group alone, never an aborted run.
    fn fallback(&self) -> (state: GitLabState)
        ensures
            state matches GitLabState::FetchProjects { groups, idx, page, projects } && groups.deep_view()
                == seq![self.group@] && idx == 0 && page == 1 && projects@.len() == 0,
            gitlab_state_wf(state),
    {
        let mut groups: Vec<String> = Vec::new();
        groups.push(self.group.clone());
        proof {
            assert(groups.deep_view() =~~= seq![self.group@]);
        }
        GitLabState::FetchProjects { groups, idx: 0, page: 1, projects: Vec::new() }
    }

    /// Drives the enumeration one step further on one response.
    ///
    /// During discovery every failure — a failed send, a bad status, an
    /// unreadable page — falls back to the root group alone, so discovery
    /// never ends the enumeration. While
    /// fetching projects the same failures are terminal, with the
    /// classified message; an unreadable body is terminal with the JSON
    /// message. A finished enumeration stays finished.
    pub fn enumerate_step(&self, state: GitLabState, event: HttpEvent) -> (next: GitLabState)
        requires
            gitlab_state_wf(state),
        ensures
            gitlab_state_wf(next),
            state matches GitLabState::Discover { .. } ==> !(next is Finished),
            state matches GitLabState::Discover { .. } ==> (spec_page_verdict(
                spec_request_url(*self, state),
                "GITLAB_PRIVATE_TOKEN"@,
                event@,
            ) matches PageVerdictView::Failed(_) ==> is_fallback_state(next, self.group@)),
            state matches GitLabState::Discover { stack, groups, current, page, children } ==> (
            spec_page_verdict(
                spec_request_url(*self, state),
                "GITLAB_PRIVATE_TOKEN"@,
                event@,
            ) matches PageVerdictView::Page { body, more } ==> (match spec_groups_parse(body) {
                None => is_fallback_state(next, self.group@),
                Some(ids) => if more && page < u32::MAX - 1 {
                    next matches GitLabState::Discover {
                        stack: s2,
                        groups: g2,
                        current: c2,
                        page: p2,
                        children: ch2,
                    } && s2 == stack && g2 == groups && c2 == current && p2 == page + 1 && ch2@
                        == children@ + ids
                } else {
                    group_closed(next, stack.deep_view(), groups.deep_view(), current@, children@
                        + ids)
                },
            })),
            state matches GitLabState::FetchProjects { .. } ==> (spec_page_verdict(
                spec_request_url(*self, state),
                "GITLAB_PRIVATE_TOKEN"@,
                event@,
            ) matches PageVerdictView::Failed(m) ==> (next matches GitLabState::Finished(res)
                && (res matches Err(e) && e@ == m))),
            state matches GitLabState::FetchProjects { groups, idx, page, projects } ==> (
            spec_page_verdict(
                spec_request_url(*self, state),
                "GITLAB_PRIVATE_TOKEN"@,
                event@,
            ) matches PageVerdictView::Page { body, more } ==> (match spec_projects_parse(body) {
                None => next matches GitLabState::Finished(res) && (res matches Err(e) && (
                exists|cause: Seq<char>| e@ == json_failed_message(cause))),
                Some(recs) => if more && page < u32::MAX - 1 {
                    next matches GitLabState::FetchProjects {
                        groups: g2,
                        idx: i2,
                        page: p2,
                        projects: pr2,
                    } && g2 == groups && i2 == idx && p2 == page + 1 && pr2.deep_view()
                        == projects.deep_view() + recs
                } else if idx + 1 < groups@.len() {
                    next matches GitLabState::FetchProjects {
                        groups: g2,
                        idx: i2,
                        page: p2,
                        projects: pr2,
                    } && g2 == groups && i2 == idx + 1 && p2 == 1 && pr2.deep_view()
                        == projects.deep_view() + recs
                } else {
                    next matches GitLabState::Finished(res) && (res matches Ok(entries)
                        && entries_match_records(
                        entries@,
                        projects.deep_view() + recs,
                        self.use_http,
                    ))
                },
            })),
            state matches GitLabState::Finished(res) ==> next == state,
    {
        match state {
            GitLabState::Discover { stack, groups, current, page, mut children } => {
                let url = paged_url(subgroups_url(self.url.as_str(), current.as_str()), page);
                match page_verdict(url.as_str(), "GITLAB_PRIVATE_TOKEN", event) {
                    PageVerdict::Failed(_) => self.fallback(),
                    PageVerdict::Page { body, more } => {
                        match parse_groups(body.as_str()) {
                            Err(_) => self.fallback(),
                            Ok(mut ids) => {
                                children.append(&mut ids);
                                if more && page < u32::MAX - 1 {
                                    GitLabState::Discover {
                                        stack,
                                        groups,
                                        current,
                                        page: page + 1,
                                        children,
                                    }
                                } else {
                                    self.finish_group(stack, groups, current, children)
                                }
                            },
                        }
                    },
                }
            },
            GitLabState::FetchProjects { groups, idx, page, mut projects } => {
                let glen = groups.len();
                let url = paged_url(projects_url(self.url.as_str(), groups[idx].as_str()), page);
                match page_verdict(url.as_str(), "GITLAB_PRIVATE_TOKEN", event) {
                    PageVerdict::Failed(msg) => GitLabState::Finished(Err(msg)),
                    PageVerdict::Page { body, more } => {
                        match parse_projects_page(body.as_str()) {
                            Err(msg) => GitLabState::Finished(Err(msg)),
                            Ok(mut recs) => {
                                let ghost pre = projects.deep_view();
                                let ghost added = recs.deep_view();
                                projects.append(&mut recs);
                                proof {
                                    assert(projects.deep_view() =~~= pre + added);
                                }
                                if more && page < u32::MAX - 1 {
                                    GitLabState::FetchProjects {
                                        groups,
                                        idx,
                                        page: page + 1,
                                        projects,
                                    }
                                } else if idx + 1 < glen {
                                    GitLabState::FetchProjects {
                                        groups,
                                        idx: idx + 1,
                                        page: 1,
                                        projects,
                                    }
                                } else {
                                    GitLabState::Finished(
                                        Ok(entries_for_projects(&projects, self.use_http)),
                                    )
                                }
                            },
                        }
                    },
                }
            },
            GitLabState::Finished(res) => GitLabState::Finished(res),
        }
    }

    /// Closes one discovered group: records it, queues its children —
    /// next one first, so that the walk stays depth first — and moves on
    /// to the next group, or to the projects once none is left.
    fn finish_group(
        &self,
        stack: Vec<String>,
        groups: Vec<String>,
        current: String,
        children: Vec<u64>,
    ) -> (next: GitLabState)
        ensures
            gitlab_state_wf(next),
            !(next is Finished),
            group_closed(next, stack.deep_view(), groups.deep_view(), current@, children@),
    {
        let ghost stack0 = stack.deep_view();
        let ghost groups0 = groups.deep_view();
        let mut stack = stack;
        let mut groups = groups;
        let ghost current_view = current@;
        groups.push(current);
        proof {
            assert(groups.deep_view() =~~= groups0.push(current_view));
        }
        let mut k: usize = children.len();
        #[verifier::loop_isolation(false)]
        while k > 0
            invariant
                k <= children@.len(),
                stack.deep_view() == stack0 + queued_children(children@).take(
                    (children@.len() - k) as int,
                ),
            decreases k,
        {
            k = k - 1;
            let ghost pre = stack.deep_view();
            stack.push(u64_to_dec(children[k]));
            proof {
                assert(stack.deep_view() =~~= pre.push(dec_nat(children@[k as int] as nat)));
                assert(queued_children(children@)[(children@.len() - 1 - k) as int] == dec_nat(
                    children@[k as int] as nat,
                ));
                assert(stack.deep_view() =~~= stack0 + queued_children(children@).take(
                    (children@.len() - k) as int,
                ));
            }
        }
        let ghost queued = stack0 + queued_children(children@);
        proof {
            assert(queued_children(children@).take(children@.len() as int) =~= queued_children(
                children@,
            ));
            assert(stack.deep_view() =~= queued);
        }
        let ghost full = stack.deep_view();
        match stack.pop() {
            Some(nxt) => {
                proof {
                    assert(full.len() > 0);
                    assert(nxt.deep_view() == full.last());
                    assert(stack.deep_view() =~~= full.drop_last());
                }
                GitLabState::Discover {
                    stack,
                    groups,
                    current: nxt,
                    page: 1,
                    children: Vec::new(),
                }
            },
            None => {
                proof {
                    assert(queued.len() == 0);
                }
                GitLabState::FetchProjects { groups, idx: 0, page: 1, projects: Vec::new() }
            },
        }
    }
}

/// The subgroup id one catalog item carries, when it is an object with a
/// numeric `id`.
pub open spec fn group_id_of(v: JsonView) -> Option<u64> {
    match json_field(v, "id"@) {
        Some(JsonView::UInt(n)) => Some(n),
        _ => None,
    }
}

/// The id, with zero standing in where there is none.
pub open spec fn group_id_or_zero(v: JsonView) -> u64 {
    match group_id_of(v) {
        Some(n) => n,
        None => 0,
    }
}

/// What one subgroups page lists: the ids in order, when the document is
/// a list of objects each carrying a numeric `id`.
pub open spec fn spec_group_page(doc: JsonView) -> Option<Seq<u64>> {
    match doc {
        JsonView::Array(items) => if forall|i: int|
            0 <= i < items.len() ==> group_id_of(#[trigger] items[i]) is Some {
            Some(Seq::new(items.len(), |i: int| group_id_or_zero(items[i])))
        } else {
            None
        },
        _ => None,
    }
}

/// What one subgroups page body parses to.
pub open spec fn spec_groups_parse(body: Seq<char>) -> Option<Seq<u64>> {
    match json_doc_of(body) {
        Some(doc) => spec_group_page(doc),
        None => None,
    }
}

/// Reads one subgroups page: a JSON list of objects, each with a numeric
/// `id` — exactly [`spec_groups_parse`] of the body, with the JSON
/// failure message otherwise.
fn parse_groups(body: &str) -> (r: core::result::Result<Vec<u64>, String>)
    ensures
        (match spec_groups_parse(body@) {
            Some(ids) => r matches Ok(v) && v@ == ids,
            None => r matches Err(e) && (exists|cause: Seq<char>|
                e@ == json_failed_message(cause)),
        }),
{
    let doc = match json_from_str(body) {
        Ok(doc) => doc,
        Err(e) => {
            return Err(json_failed(json_error_string(&e).as_str()));
        },
    };
    let ghost dv = json_view_of(doc);
    let items = match json_as_array(&doc) {
        None => {
            return Err(json_failed("expected a list of groups"));
        },
        Some(items) => items,
    };
    let ghost elems: Seq<JsonView> = (match dv {
        JsonView::Array(es) => es,
        _ => arbitrary(),
    });
    let mut ids: Vec<u64> = Vec::new();
    let mut i: usize = 0;
    #[verifier::loop_isolation(false)]
    while i < items.len()
        invariant
            i <= items@.len(),
            forall|j: int| 0 <= j < i ==> group_id_of(#[trigger] elems[j]) is Some,
            ids@ == Seq::new(i as nat, |j: int| group_id_or_zero(elems[j])),
        decreases items@.len() - i,
    {
        let id = match json_get(&items[i], "id") {
            None => {
                proof {
                    assert(group_id_of(elems[i as int]) is None);
                }
                return Err(json_failed("missing field `id`"));
            },
            Some(v) => match json_as_u64(v) {
                None => {
                    proof {
                        assert(group_id_of(elems[i as int]) is None);
                    }
                    return Err(json_failed("invalid type: field `id` is not an integer"));
                },
                Some(id) => id,
            },
        };
        proof {
            assert(group_id_of(elems[i as int]) == Some(id));
        }
        ids.push(id);
        proof {
            assert(ids@ =~= Seq::new((i + 1) as nat, |j: int| group_id_or_zero(elems[j])));
        }
        i = i + 1;
    }
    proof {
        assert(spec_group_page(dv) == Some(Seq::new(elems.len(), |j: int| group_id_or_zero(elems[j]))));
        assert(ids@ =~= Seq::new(elems.len(), |j: int| group_id_or_zero(elems[j])));
    }
    Ok(ids)
}

/// The record one catalog item carries, when it is an object with string
/// `description`, `web_url`, `ssh_url_to_repo` and `http_url_to_repo`.
pub open spec fn project_record_of(v: JsonView) -> Option<ProjectRecordView> {
    match (
        json_str_field(v, "description"@),
        json_str_field(v, "web_url"@),
        json_str_field(v, "ssh_url_to_repo"@),
        json_str_field(v, "http_url_to_repo"@),
    ) {
        (Some(description), Some(web_url), Some(ssh_url), Some(http_url)) => Some(
            ProjectRecordView { description, web_url, ssh_url, http_url },
        ),
        _ => None,
    }
}

/// The record, with an empty one standing in where there is none.
pub open spec fn record_or_empty(o: Option<ProjectRecordView>) -> ProjectRecordView {
    match o {
        Some(r) => r,
        None => ProjectRecordView {
            description: Seq::empty(),
            web_url: Seq::empty(),
            ssh_url: Seq::empty(),
            http_url: Seq::empty(),
        },
    }
}

/// What one projects page lists: the records in order, when the document
/// is a list of project objects.
pub open spec fn spec_project_page(doc: JsonView) -> Option<Seq<ProjectRecordView>> {
    match doc {
        JsonView::Array(items) => if forall|i: int|
            0 <= i < items.len() ==> project_record_of(#[trigger] items[i]) is Some {
            Some(Seq::new(items.len(), |i: int| record_or_empty(project_record_of(items[i]))))
        } else {
            None
        },
        _ => None,
    }
}

/// What one projects page body parses to.
pub open spec fn spec_projects_parse(body: Seq<char>) -> Option<Seq<ProjectRecordView>> {
    match json_doc_of(body) {
        Some(doc) => spec_project_page(doc),
        None => None,
    }
}

/// Reads one projects page: a JSON list of objects, each with a string
/// `description`, `web_url`, `ssh_url_to_repo` and `http_url_to_repo` —
/// exactly [`spec_projects_parse`] of the body, with the JSON failure
/// message otherwise.
fn parse_projects_page(body: &str) -> (r: core::result::Result<Vec<ProjectRecord>, String>)
    ensures
        (match spec_projects_parse(body@) {
            Some(recs) => r matches Ok(v) && v.deep_view() == recs,
            None => r matches Err(e) && (exists|cause: Seq<char>|
                e@ == json_failed_message(cause)),
        }),
{
    let doc = match json_from_str(body) {
        Ok(doc) => doc,
        Err(e) => {
            return Err(json_failed(json_error_string(&e).as_str()));
        },
    };
    let ghost dv = json_view_of(doc);
    let items = match json_as_array(&doc) {
        None => {
            return Err(json_failed("expected a list of projects"));
        },
        Some(items) => items,
    };
    let ghost elems: Seq<JsonView> = (match dv {
        JsonView::Array(es) => es,
        _ => arbitrary(),
    });
    let mut recs: Vec<ProjectRecord> = Vec::new();
    let mut i: usize = 0;
    #[verifier::loop_isolation(false)]
    while i < items.len()
        invariant
            i <= items@.len(),
            forall|j: int| 0 <= j < i ==> project_record_of(#[trigger] elems[j]) is Some,
            recs.deep_view() == Seq::new(
                i as nat,
                |j: int| record_or_empty(project_record_of(elems[j])),
            ),
        decreases items@.len() - i,
    {
        let description = match required_str(&items[i], "description") {
            Err(msg) => {
                return Err(msg);
            },
            Ok(s) => s,
        };
        let web_url = match required_str(&items[i], "web_url") {
            Err(msg) => {
                return Err(msg);
            },
            Ok(s) => s,
        };
        let ssh_url = match required_str(&items[i], "ssh_url_to_repo") {
            Err(msg) => {
                return Err(msg);
            },
            Ok(s) => s,
        };
        let http_url = match required_str(&items[i], "http_url_to_repo") {
            Err(msg) => {
                return Err(msg);
            },
            Ok(s) => s,
        };
        proof {
            assert(project_record_of(elems[i as int]) == Some(
                ProjectRecordView {
                    description: description@,
                    web_url: web_url@,
                    ssh_url: ssh_url@,
                    http_url: http_url@,
                },
            ));
        }
        let rec = ProjectRecord { description, web_url, ssh_url, http_url };
        proof {
            assert(rec.deep_view() =~~= record_or_empty(project_record_of(elems[i as int])));
        }
        let ghost pre = recs.deep_view();
        recs.push(rec);
        proof {
            assert(recs.deep_view() =~~= pre.push(rec.deep_view()));
            assert(pre.push(rec.deep_view()) =~~= Seq::new(
                (i + 1) as nat,
                |j: int| record_or_empty(project_record_of(elems[j])),
            ));
        }
        i = i + 1;
    }
    proof {
        assert(recs.deep_view() =~~= Seq::new(
            elems.len(),
            |j: int| record_or_empty(project_record_of(elems[j])),
        ));
    }
    Ok(recs)
}

/// Reads one required string field of a JSON object.
fn required_str(item: &serde_json::Value, key: &str) -> (r: core::result::Result<String, String>)
    ensures
        (match json_str_field(json_view_of(*item), key@) {
            Some(s) => r matches Ok(v) && v@ == s,
            None => r matches Err(e) && (exists|cause: Seq<char>|
                e@ == json_failed_message(cause)),
        }),
{
    match json_get(item, key) {
        None => Err(json_failed("missing project field")),
        Some(v) => match json_as_str(v) {
            None => Err(json_failed("invalid type: project field is not a string")),
            Some(s) => Ok(s),
        },
    }
}

} // verus!
