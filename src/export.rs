//! Rendering a content record into an artifact and placing it under an
//! output root. The directory creation and the write itself belong to the
//! caller, which receives a plan with absolute paths.
use crate::error::CoreError;
use crate::json::{pretty_json, pretty_json_of, pretty_text, text_field, text_field_of};
use crate::normalize::{normalize, pascal_case};
use crate::template::{java_source, java_source_of, kind_name_of, segment_of, suffix_of, ContentKind};
use vstd::prelude::*;
use vstd::string::*;

verus! {

/// A user-authored record of one content kind. `id` is the record's `id`
/// field where it holds a string; `data` is the whole record.
pub struct ContentRecord {
    pub kind: ContentKind,
    pub id: Option<String>,
    pub data: serde_json::Value,
}

/// Where an export goes: a package qualifier and the root of a source tree.
pub struct ExportTarget {
    pub namespace: String,
    pub output_root: String,
}

/// One rendered file, relative to an output root.
pub struct GeneratedArtifact {
    pub relative_dir: String,
    pub file_name: String,
    pub contents: String,
}

/// What the caller must do to land an artifact: create `directory`, then
/// write `contents` to `file_path`.
pub struct ExportPlan {
    pub directory: String,
    pub file_path: String,
    pub contents: String,
}

/// The record's id as text, empty where it has none.
pub open spec fn id_text(r: ContentRecord) -> Seq<char> {
    match r.id {
        Some(s) => s@,
        None => Seq::empty(),
    }
}

/// The normalised id of the record.
pub open spec fn type_name_of(r: ContentRecord) -> Seq<char> {
    pascal_case(id_text(r))
}

/// A record can be rendered only where its id normalises to something.
pub open spec fn valid_id(r: ContentRecord) -> bool {
    type_name_of(r).len() > 0
}

pub open spec fn class_name_of(r: ContentRecord) -> Seq<char> {
    type_name_of(r) + suffix_of(r.kind)
}

/// The artifact's directory relative to the output root.
pub open spec fn dir_of(kind: ContentKind, ns: Seq<char>) -> Seq<char> {
    if kind == ContentKind::Recipe {
        "src/main/resources/data/"@ + ns + "/recipes"@
    } else {
        "src/main/java/com/"@ + ns + "/"@ + segment_of(kind)
    }
}

pub open spec fn file_name_of(r: ContentRecord) -> Seq<char> {
    if r.kind == ContentKind::Recipe {
        id_text(r) + ".json"@
    } else {
        class_name_of(r) + ".java"@
    }
}

/// A recipe is its own record, pretty-printed; a code kind is its class.
pub open spec fn contents_of(r: ContentRecord, ns: Seq<char>) -> Seq<char> {
    if r.kind == ContentKind::Recipe {
        pretty_json_of(r.data)
    } else {
        java_source_of(r.kind, ns, class_name_of(r))
    }
}

/// `rel` placed under `root`, with one separator between them.
pub open spec fn join_path(root: Seq<char>, rel: Seq<char>) -> Seq<char> {
    if root.len() == 0 {
        rel
    } else if root.last() == '/' {
        root + rel
    } else {
        root + "/"@ + rel
    }
}

pub open spec fn plan_dir_of(r: ContentRecord, t: ExportTarget) -> Seq<char> {
    join_path(t.output_root@, dir_of(r.kind, t.namespace@))
}

pub open spec fn plan_file_of(r: ContentRecord, t: ExportTarget) -> Seq<char> {
    plan_dir_of(r, t) + "/"@ + file_name_of(r)
}

/// The file name a plain save of the record proposes.
pub open spec fn save_name_of(r: ContentRecord) -> Seq<char> {
    match r.id {
        Some(s) => s@ + ".json"@,
        None => kind_name_of(r.kind) + ".json"@,
    }
}

/// Joins `rel` under `root`.
pub fn join_path_exec(root: &str, rel: &str) -> (r: String)
    ensures
        r@ == join_path(root@, rel@),
{
    let n = root.unicode_len();
    let mut out = String::from_str(root);
    if n > 0 && root.get_char(n - 1) != '/' {
        out.append("/");
    }
    out.append(rel);
    out
}

/// Renders `record` for `target`. Refuses, before anything else, a record
/// whose id normalises to nothing; any other record renders.
pub fn render(record: &ContentRecord, target: &ExportTarget) -> (r: Result<GeneratedArtifact, CoreError>)
    ensures
        match r {
            Ok(a) => {
                &&& valid_id(*record)
                &&& a.relative_dir@ == dir_of(record.kind, target.namespace@)
                &&& a.file_name@ == file_name_of(*record)
                &&& a.contents@ == contents_of(*record, target.namespace@)
            },
            Err(e) => e is InvalidIdentifier && !valid_id(*record),
        },
        valid_id(*record) ==> r is Ok,
{
    let base_name = match &record.id {
        Some(id) => normalize(id.as_str()),
        None => String::new(),
    };
    if base_name.as_str().unicode_len() == 0 {
        return Err(CoreError::InvalidIdentifier);
    }
    let ns = target.namespace.as_str();
    let kind = record.kind;
    if kind == ContentKind::Recipe {
        let mut dir = String::from_str("src/main/resources/data/");
        dir.append(ns);
        dir.append("/recipes");
        let mut file_name = match &record.id {
            Some(id) => id.clone(),
            None => String::new(),
        };
        file_name.append(".json");
        match pretty_json(&record.data) {
            Ok(contents) => Ok(GeneratedArtifact { relative_dir: dir, file_name, contents }),
            Err(cause) => Err(CoreError::Serialization(cause)),
        }
    } else {
        let mut dir = String::from_str("src/main/java/com/");
        dir.append(ns);
        dir.append("/");
        dir.append(kind.segment());
        let class = base_name.concat(kind.class_suffix());
        let contents = java_source(kind, ns, class.as_str());
        let file_name = class.concat(".java");
        Ok(GeneratedArtifact { relative_dir: dir, file_name, contents })
    }
}

/// Renders `record` and places it under `target.output_root`.
pub fn plan_export(record: &ContentRecord, target: &ExportTarget) -> (r: Result<ExportPlan, CoreError>)
    ensures
        match r {
            Ok(p) => {
                &&& valid_id(*record)
                &&& p.directory@ == plan_dir_of(*record, *target)
                &&& p.file_path@ == plan_file_of(*record, *target)
                &&& p.contents@ == contents_of(*record, target.namespace@)
            },
            Err(e) => e is InvalidIdentifier && !valid_id(*record),
        },
        valid_id(*record) ==> r is Ok,
{
    let a = render(record, target)?;
    let directory = join_path_exec(target.output_root.as_str(), a.relative_dir.as_str());
    let mut file_path = directory.clone();
    file_path.append("/");
    file_path.append(a.file_name.as_str());
    Ok(ExportPlan { directory, file_path, contents: a.contents })
}

/// The file name proposed when the record is saved as a plain document:
/// `<id>.json`, or `<kind>.json` where the record has no id.
pub fn default_save_name(record: &ContentRecord) -> (r: String)
    ensures
        r@ == save_name_of(*record),
{
    let mut name = match &record.id {
        Some(id) => id.clone(),
        None => String::from_str(record.kind.kind_name()),
    };
    name.append(".json");
    name
}

/// The text a plain save of the record writes: the record, pretty-printed.
pub fn save_text(record: &ContentRecord) -> (r: String)
    ensures
        r@ == pretty_json_of(record.data),
{
    pretty_text(&record.data)
}

impl ContentRecord {
    /// The record `data` of kind `kind`, its id read from its `id` field.
    pub fn from_data(kind: ContentKind, data: serde_json::Value) -> (r: ContentRecord)
        ensures
            r.kind == kind,
            r.data == data,
            match r.id {
                Some(s) => text_field_of(data, "id"@) == Some(s@),
                None => text_field_of(data, "id"@) is None,
            },
    {
        let id = text_field(&data, "id");
        ContentRecord { kind, id, data }
    }
}

/// Exporting the same record to the same target twice lands the same bytes
/// at the same path: the plan depends on the kind, the id, the record's data,
/// the namespace and the output root alone.
pub proof fn lemma_export_reproducible(r1: ContentRecord, r2: ContentRecord, t1: ExportTarget, t2: ExportTarget)
    requires
        r1.kind == r2.kind,
        id_text(r1) == id_text(r2),
        r1.data == r2.data,
        t1.namespace@ == t2.namespace@,
        t1.output_root@ == t2.output_root@,
    ensures
        valid_id(r1) == valid_id(r2),
        plan_dir_of(r1, t1) == plan_dir_of(r2, t2),
        plan_file_of(r1, t1) == plan_file_of(r2, t2),
        contents_of(r1, t1.namespace@) == contents_of(r2, t2.namespace@),
{
}

} // verus!
