//! The jobs a provider hands to the engine, and the parsing of a
//! project's free-text description into one such job.

pub mod github;
pub mod gitlab;
pub mod http;

use vstd::prelude::*;

use crate::yaml::YamlView;

verus! {

/// A representation of a mirror job from origin to destination.
#[derive(Debug, Clone, PartialEq, Eq)]
pub struct Mirror {
    pub origin: String,
    pub destination: String,
    pub refspec: Option<Vec<String>>,
    pub lfs: bool,
}

/// The model of a [`Mirror`].
#[verifier::ext_equal]
pub struct MirrorView {
    pub origin: Seq<char>,
    pub destination: Seq<char>,
    pub refspec: Option<Seq<Seq<char>>>,
    pub lfs: bool,
}

impl View for Mirror {
    type V = MirrorView;

    open spec fn view(&self) -> MirrorView {
        MirrorView {
            origin: self.origin@,
            destination: self.destination@,
            refspec: self.refspec.deep_view(),
            lfs: self.lfs,
        }
    }
}

impl DeepView for Mirror {
    type V = MirrorView;

    open spec fn deep_view(&self) -> MirrorView {
        self.view()
    }
}

/// Why an enumerated project yields no mirror job.
#[derive(Debug, Clone, PartialEq, Eq)]
pub enum MirrorError {
    /// The project's description could not be read as a job description;
    /// carries the project URL and the cause.
    Description(String, String),
    /// The project asked to be skipped; carries the project URL.
    Skip(String),
}

/// The model of a [`MirrorError`].
pub enum MirrorErrorView {
    Description(Seq<char>, Seq<char>),
    Skip(Seq<char>),
}

impl View for MirrorError {
    type V = MirrorErrorView;

    open spec fn view(&self) -> MirrorErrorView {
        match self {
            MirrorError::Description(url, cause) => MirrorErrorView::Description(url@, cause@),
            MirrorError::Skip(url) => MirrorErrorView::Skip(url@),
        }
    }
}

impl DeepView for MirrorError {
    type V = MirrorErrorView;

    open spec fn deep_view(&self) -> MirrorErrorView {
        self.view()
    }
}

/// The one-line description of a [`MirrorError`].
pub open spec fn mirror_error_message(e: MirrorErrorView) -> Seq<char> {
    match e {
        MirrorErrorView::Description(_, cause) => "could not parse project description: "@ + cause,
        MirrorErrorView::Skip(_) => "entry explicitly skipped"@,
    }
}

impl MirrorError {
    /// Renders the error as one line of text.
    pub fn message(&self) -> (r: String)
        ensures
            r@ == mirror_error_message(self@),
    {
        match self {
            MirrorError::Description(_, cause) => {
                let mut s = String::from_str("could not parse project description: ");
                s.append(cause.as_str());
                s
            },
            MirrorError::Skip(_) => String::from_str("entry explicitly skipped"),
        }
    }
}

/// One entry of a provider's enumeration: a mirror job, or the reason
/// there is none.
pub type MirrorResult = core::result::Result<Mirror, MirrorError>;

/// The model of a [`MirrorResult`].
pub open spec fn entry_view(entry: MirrorResult) -> core::result::Result<
    MirrorView,
    MirrorErrorView,
> {
    match entry {
        Ok(m) => Ok(m@),
        Err(e) => Err(e@),
    }
}

/// Default value used for the `lfs` field of a project description when
/// the field is absent.
pub fn bool_true() -> (r: bool)
    ensures
        r,
{
    true
}

/// One project of the upstream catalog, reduced to the fields the engine
/// consumes.
#[derive(Debug, Clone, PartialEq, Eq)]
pub struct ProjectRecord {
    /// The free-text description that may hold a job description.
    pub description: String,
    /// The project's page URL, used to name skips and parse errors.
    pub web_url: String,
    /// The SSH clone URL: the default destination.
    pub ssh_url: String,
    /// The HTTP clone URL: the destination when HTTP is asked for.
    pub http_url: String,
}

/// The model of a [`ProjectRecord`].
#[verifier::ext_equal]
pub struct ProjectRecordView {
    pub description: Seq<char>,
    pub web_url: Seq<char>,
    pub ssh_url: Seq<char>,
    pub http_url: Seq<char>,
}

impl View for ProjectRecord {
    type V = ProjectRecordView;

    open spec fn view(&self) -> ProjectRecordView {
        ProjectRecordView {
            description: self.description@,
            web_url: self.web_url@,
            ssh_url: self.ssh_url@,
            http_url: self.http_url@,
        }
    }
}

impl DeepView for ProjectRecord {
    type V = ProjectRecordView;

    open spec fn deep_view(&self) -> ProjectRecordView {
        self.view()
    }
}

/// What reading one project description yields: the four fields with
/// their defaults applied, or the cause of the failure. A description
/// without an origin is a failure.
#[derive(Debug, Clone, PartialEq, Eq)]
pub enum DescParse {
    Parsed { origin: String, skip: bool, refspec: Option<Vec<String>>, lfs: bool },
    Invalid(String),
}

/// The model of a [`DescParse`].
#[verifier::ext_equal]
pub enum DescParseView {
    Parsed { origin: Seq<char>, skip: bool, refspec: Option<Seq<Seq<char>>>, lfs: bool },
    Invalid(Seq<char>),
}

impl View for DescParse {
    type V = DescParseView;

    open spec fn view(&self) -> DescParseView {
        match self {
            DescParse::Parsed { origin, skip, refspec, lfs } => DescParseView::Parsed {
                origin: origin@,
                skip: *skip,
                refspec: refspec.deep_view(),
                lfs: *lfs,
            },
            DescParse::Invalid(cause) => DescParseView::Invalid(cause@),
        }
    }
}

/// The value a document holds under a string key, when it is a mapping
/// that has it.
pub open spec fn field_of(doc: YamlView, key: Seq<char>) -> Option<YamlView> {
    match doc {
        YamlView::Mapping(m) => if m.contains_key(key) {
            Some(m[key])
        } else {
            None
        },
        _ => None,
    }
}

/// The text of a string document; empty for anything else.
pub open spec fn str_of(v: YamlView) -> Seq<char> {
    match v {
        YamlView::Str(s) => s,
        _ => Seq::empty(),
    }
}

/// Whether every element of a sequence document is a string.
pub open spec fn all_strs(items: Seq<YamlView>) -> bool {
    forall|i: int| 0 <= i < items.len() ==> (#[trigger] items[i]) is Str
}

/// The texts of a sequence of string documents.
pub open spec fn str_seq_of(items: Seq<YamlView>) -> Seq<Seq<char>> {
    items.map_values(|v: YamlView| str_of(v))
}

/// How the `lfs` field, with its default, completes a parse that has its
/// origin, skip and refspec.
pub open spec fn spec_desc_lfs(
    doc: YamlView,
    origin: Seq<char>,
    skip: bool,
    refspec: Option<Seq<Seq<char>>>,
) -> DescParseView {
    match field_of(doc, "lfs"@) {
        None => DescParseView::Parsed { origin, skip, refspec, lfs: true },
        Some(lv) => match lv {
            YamlView::Bool(lfs) => DescParseView::Parsed { origin, skip, refspec, lfs },
            _ => DescParseView::Invalid("invalid type: field `lfs` is not a boolean"@),
        },
    }
}

/// How the `refspec` field completes a parse that has its origin and
/// skip: absent or null means none; a sequence must be all strings.
pub open spec fn spec_desc_refspec(doc: YamlView, origin: Seq<char>, skip: bool) -> DescParseView {
    match field_of(doc, "refspec"@) {
        None => spec_desc_lfs(doc, origin, skip, None),
        Some(rv) => match rv {
            YamlView::Null => spec_desc_lfs(doc, origin, skip, None),
            YamlView::Sequence(items) => if all_strs(items) {
                spec_desc_lfs(doc, origin, skip, Some(str_seq_of(items)))
            } else {
                DescParseView::Invalid("invalid type: `refspec` element is not a string"@)
            },
            _ => DescParseView::Invalid("invalid type: field `refspec` is not a sequence"@),
        },
    }
}

/// What reading one parsed description document yields: a required
/// string `origin`, an optional boolean `skip` (false unless given), an
/// optional all-string `refspec` sequence, an optional boolean `lfs`
/// (true unless given); the first field that is missing or of the wrong
/// kind decides the failure.
pub open spec fn spec_desc_of(doc: YamlView) -> DescParseView {
    match field_of(doc, "origin"@) {
        None => DescParseView::Invalid("missing field `origin`"@),
        Some(ov) => match ov {
            YamlView::Str(origin) => match field_of(doc, "skip"@) {
                None => spec_desc_refspec(doc, origin, false),
                Some(sv) => match sv {
                    YamlView::Bool(skip) => spec_desc_refspec(doc, origin, skip),
                    _ => DescParseView::Invalid("invalid type: field `skip` is not a boolean"@),
                },
            },
            _ => DescParseView::Invalid("invalid type: field `origin` is not a string"@),
        },
    }
}

/// Reads a project description: a YAML mapping with a required `origin`,
/// an optional `skip` (false unless given), an optional `refspec` list of
/// strings, and an optional `lfs` (true unless given). Anything else is
/// invalid, with the cause as text: exactly [`spec_desc_of`] of the
/// parsed document, or invalid with the parser's cause when the text is
/// not YAML.
fn parse_desc(description: &str) -> (r: DescParse)
    ensures
        (match crate::yaml::yaml_doc_of(description@) {
            Some(doc) => r@ == spec_desc_of(doc),
            None => r@ is Invalid,
        }),
{
    let doc = match crate::yaml::yaml_from_str(description) {
        Ok(doc) => doc,
        Err(e) => {
            return DescParse::Invalid(crate::yaml::yaml_error_string(&e));
        },
    };
    let ghost dv = crate::yaml::yaml_view_of(doc);
    let origin = match crate::yaml::yaml_get(&doc, "origin") {
        None => {
            return DescParse::Invalid(String::from_str("missing field `origin`"));
        },
        Some(v) => match crate::yaml::yaml_as_str(v) {
            None => {
                return DescParse::Invalid(String::from_str("invalid type: field `origin` is not a string"));
            },
            Some(s) => s,
        },
    };
    let skip = match crate::yaml::yaml_get(&doc, "skip") {
        None => false,
        Some(v) => match crate::yaml::yaml_as_bool(v) {
            None => {
                return DescParse::Invalid(String::from_str("invalid type: field `skip` is not a boolean"));
            },
            Some(b) => b,
        },
    };
    let refspec = match crate::yaml::yaml_get(&doc, "refspec") {
        None => None,
        Some(v) => {
            if crate::yaml::yaml_is_null(v) {
                None
            } else {
                match crate::yaml::yaml_as_sequence(v) {
                    None => {
                        return DescParse::Invalid(String::from_str("invalid type: field `refspec` is not a sequence"));
                    },
                    Some(items) => {
                        let ghost elems: Seq<YamlView> = (match crate::yaml::yaml_view_of(*v) {
                            YamlView::Sequence(es) => es,
                            _ => arbitrary(),
                        });
                        let mut specs: Vec<String> = Vec::new();
                        let mut i: usize = 0;
                        #[verifier::loop_isolation(false)]
                        while i < items.len()
                            invariant
                                i <= items@.len(),
                                items@.len() == elems.len(),
                                forall|j: int|
                                    0 <= j < elems.len() ==> crate::yaml::yaml_view_of(
                                        #[trigger] items@[j],
                                    ) == elems[j],
                                forall|j: int| 0 <= j < i ==> (#[trigger] elems[j]) is Str,
                                specs.deep_view() == str_seq_of(elems.take(i as int)),
                            decreases items@.len() - i,
                        {
                            match crate::yaml::yaml_as_str(&items[i]) {
                                None => {
                                    proof {
                                        assert(!((elems[i as int]) is Str));
                                        assert(!all_strs(elems));
                                    }
                                    return DescParse::Invalid(String::from_str("invalid type: `refspec` element is not a string"));
                                },
                                Some(s) => {
                                    proof {
                                        assert(elems[i as int] == YamlView::Str(s@));
                                        assert(str_seq_of(elems.take(i + 1int)) =~~= str_seq_of(
                                            elems.take(i as int),
                                        ).push(s@));
                                    }
                                    specs.push(s);
                                    proof {
                                        assert(specs.deep_view() =~~= str_seq_of(
                                            elems.take(i + 1int),
                                        ));
                                    }
                                },
                            }
                            i = i + 1;
                        }
                        proof {
                            assert(all_strs(elems));
                            assert(elems.take(elems.len() as int) =~= elems);
                            assert(specs.deep_view() =~~= str_seq_of(elems));
                        }
                        Some(specs)
                    },
                }
            }
        },
    };
    let lfs = match crate::yaml::yaml_get(&doc, "lfs") {
        None => bool_true(),
        Some(v) => match crate::yaml::yaml_as_bool(v) {
            None => {
                return DescParse::Invalid(String::from_str("invalid type: field `lfs` is not a boolean"));
            },
            Some(b) => b,
        },
    };
    DescParse::Parsed { origin, skip, refspec, lfs }
}

/// The entry a parsed description dictates for a project: the failure
/// cause routed as a parse error under the project URL, a skip under the
/// project URL, or the mirror job — origin from the description,
/// destination the project's HTTP clone URL when HTTP is asked for and
/// its SSH URL otherwise.
pub open spec fn spec_entry_of(
    parse: DescParseView,
    rec: ProjectRecordView,
    use_http: bool,
) -> core::result::Result<MirrorView, MirrorErrorView> {
    match parse {
        DescParseView::Invalid(cause) => Err(MirrorErrorView::Description(rec.web_url, cause)),
        DescParseView::Parsed { origin, skip, refspec, lfs } => {
            if skip {
                Err(MirrorErrorView::Skip(rec.web_url))
            } else {
                Ok(
                    MirrorView {
                        origin: origin,
                        destination: if use_http {
                            rec.http_url
                        } else {
                            rec.ssh_url
                        },
                        refspec: refspec,
                        lfs: lfs,
                    },
                )
            }
        },
    }
}

/// The same, over an executable parse and record.
pub open spec fn spec_entry_for(
    parse: DescParse,
    rec: ProjectRecord,
    use_http: bool,
) -> core::result::Result<MirrorView, MirrorErrorView> {
    spec_entry_of(parse@, rec@, use_http)
}

/// Routes one parsed description to its entry.
pub fn entry_for(parse: DescParse, rec: &ProjectRecord, use_http: bool) -> (r: MirrorResult)
    ensures
        entry_view(r) == spec_entry_for(parse, *rec, use_http),
{
    match parse {
        DescParse::Invalid(cause) => Err(MirrorError::Description(rec.web_url.clone(), cause)),
        DescParse::Parsed { origin, skip, refspec, lfs } => {
            if skip {
                Err(MirrorError::Skip(rec.web_url.clone()))
            } else {
                Ok(
                    Mirror {
                        origin,
                        destination: if use_http {
                            rec.http_url.clone()
                        } else {
                            rec.ssh_url.clone()
                        },
                        refspec,
                        lfs,
                    },
                )
            }
        },
    }
}

/// Whether an entry is the one the project's description dictates: the
/// entry of the parsed description when the description is YAML, and a
/// parse error under the project URL when it is not.
pub open spec fn entry_matches_record(
    entry: MirrorResult,
    rec: ProjectRecordView,
    use_http: bool,
) -> bool {
    match crate::yaml::yaml_doc_of(rec.description) {
        Some(doc) => entry_view(entry) == spec_entry_of(spec_desc_of(doc), rec, use_http),
        None => entry matches Err(MirrorError::Description(url, _)) && url@ == rec.web_url,
    }
}

/// Whether each entry is the one its project's description dictates.
pub open spec fn entries_match_records(
    entries: Seq<MirrorResult>,
    recs: Seq<ProjectRecordView>,
    use_http: bool,
) -> bool {
    entries.len() == recs.len() && (forall|i: int|
        0 <= i < recs.len() ==> entry_matches_record(#[trigger] entries[i], recs[i], use_http))
}

/// Turns one catalog project into its entry by reading its description:
/// the entry the description dictates, per [`entry_matches_record`].
/// Whatever the description says, a skip or a parse error is reported
/// under the project's URL, and a mirror job's destination is the
/// project's HTTP clone URL when HTTP is asked for and its SSH URL
/// otherwise.
pub fn project_entry(rec: &ProjectRecord, use_http: bool) -> (r: MirrorResult)
    ensures
        entry_matches_record(r, rec@, use_http),
        r matches Err(e) ==> ((e matches MirrorError::Skip(url) && url@ == rec.web_url@) || (
        e matches MirrorError::Description(url, _) && url@ == rec.web_url@)),
        r matches Ok(m) ==> m.destination@ == (if use_http {
            rec.http_url@
        } else {
            rec.ssh_url@
        }),
{
    let parse = parse_desc(rec.description.as_str());
    entry_for(parse, rec, use_http)
}

/// Whether an entry is routed as [`project_entry`] promises for its
/// project: skips and parse errors under the project URL, mirror jobs to
/// the clone URL the `use_http` choice picks.
pub open spec fn entry_routes(entry: MirrorResult, rec: ProjectRecord, use_http: bool) -> bool {
    match entry {
        Err(MirrorError::Skip(url)) => url@ == rec.web_url@,
        Err(MirrorError::Description(url, _)) => url@ == rec.web_url@,
        Ok(m) => m.destination@ == if use_http {
            rec.http_url@
        } else {
            rec.ssh_url@
        },
    }
}

/// Turns every catalog project into its entry, in order: each entry is
/// the one its project's description dictates.
pub fn entries_for_projects(projects: &Vec<ProjectRecord>, use_http: bool) -> (r: Vec<
    MirrorResult,
>)
    ensures
        r@.len() == projects@.len(),
        entries_match_records(r@, projects.deep_view(), use_http),
        forall|i: int|
            0 <= i < r@.len() ==> entry_routes(#[trigger] r@[i], projects@[i], use_http),
{
    let mut r: Vec<MirrorResult> = Vec::new();
    let mut i: usize = 0;
    while i < projects.len()
        invariant
            i <= projects@.len(),
            r@.len() == i,
            projects.deep_view().len() == projects@.len(),
            forall|j: int|
                0 <= j < i ==> entry_matches_record(
                    #[trigger] r@[j],
                    projects.deep_view()[j],
                    use_http,
                ),
            forall|j: int| 0 <= j < i ==> entry_routes(#[trigger] r@[j], projects@[j], use_http),
        decreases projects@.len() - i,
    {
        r.push(project_entry(&projects[i], use_http));
        i = i + 1;
    }
    r
}

/// A source of mirror jobs. Enumeration itself needs the network, so it
/// is driven outside the library; the label names the catalog in metrics
/// and log lines.
pub trait Provider {
    /// The model of this provider's label.
    spec fn label_view(&self) -> Seq<char>;

    /// The label under which this provider's runs are reported.
    fn get_label(&self) -> (r: String)
        ensures
            r@ == self.label_view(),
    ;
}

} // verus!
