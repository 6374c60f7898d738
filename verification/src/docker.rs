//! The engine's answers, as plain values.
//!
//! The layer that talks to the container engine reduces each reply to
//! the plain records here; everything the views derive from a reply is
//! computed — and specified — in this module. The network calls
//! themselves live outside the library.

use vstd::prelude::*;
use crate::format::{
    format_containers_count, format_created, format_image_id, format_image_name, format_size,
    format_time_ago, spec_format_age, spec_format_created, spec_format_image_id,
    spec_format_size,
};
use crate::text::{dec_str, trim_leading, without_leading};

verus! {

/// A failed query against the engine, carrying its report. Refresh
/// failures are never fatal: the views keep their previous rows.
#[derive(Debug, Clone, PartialEq, Eq)]
pub struct QueryError {
    pub message: String,
}

/// One image as the engine lists it, reduced to plain values.
#[derive(Debug, Clone, PartialEq, Eq)]
pub struct ImageRecord {
    /// The full identifier, `"sha256:..."` form.
    pub id: String,
    /// Every repository tag of the image.
    pub repo_tags: Vec<String>,
    /// Size in bytes; negative when not known.
    pub size: i64,
    /// Creation time, seconds since the epoch.
    pub created: i64,
    /// Containers using the image; negative when not computed.
    pub containers: i64,
}

/// One row of the images table, fully formatted for display.
#[derive(Debug, Clone, PartialEq, Eq)]
pub struct ImageInfo {
    /// Full identifier, kept for operations on the image.
    pub id: String,
    /// Shortened identifier for the table.
    pub display_id: String,
    /// `"nginx:latest"`, or `"<none>:<none>"` for an untagged image.
    pub repo_tag: String,
    /// `"142.3 MB"` style.
    pub size_formatted: String,
    /// `"2d"` style.
    pub created_ago: String,
    /// `"3"`, or `"-"` when not computed.
    pub containers_count: String,
}

/// The row built from one listed image at one moment.
pub open spec fn image_info_matches(r: ImageInfo, rec: ImageRecord, now: int) -> bool {
    &&& r.id@ == rec.id@
    &&& r.display_id@ == spec_format_image_id(rec.id@)
    &&& r.repo_tag@ == if rec.repo_tags@.len() > 0 {
        rec.repo_tags@[0]@
    } else {
        "<none>:<none>"@
    }
    &&& r.size_formatted@ == spec_format_size(rec.size as int)
    &&& r.created_ago@ == spec_format_age(now - rec.created)
    &&& r.containers_count@ == if rec.containers >= 0 {
        dec_str(rec.containers as nat)
    } else {
        "-"@
    }
}

/// Build one row of the images table from a listed image, with `now`
/// (seconds since the epoch) fixing the rendered age.
pub fn image_info_from_record(rec: &ImageRecord, now: i64) -> (r: ImageInfo)
    ensures
        image_info_matches(r, *rec, now as int),
{
    ImageInfo {
        id: rec.id.clone(),
        display_id: format_image_id(&rec.id),
        repo_tag: format_image_name(&rec.repo_tags),
        size_formatted: format_size(rec.size),
        created_ago: format_time_ago(rec.created, now),
        containers_count: format_containers_count(rec.containers),
    }
}

/// Build the rows of the images table from a listing, in the listed
/// order.
pub fn image_infos(records: &Vec<ImageRecord>, now: i64) -> (r: Vec<ImageInfo>)
    ensures
        r@.len() == records@.len(),
        forall|i: int|
            0 <= i < records@.len() ==> image_info_matches(r@[i], records@[i], now as int),
{
    let mut r: Vec<ImageInfo> = Vec::new();
    let mut i: usize = 0;
    while i < records.len()
        invariant
            i <= records@.len(),
            r@.len() == i,
            forall|k: int| 0 <= k < i ==> image_info_matches(r@[k], records@[k], now as int),
        decreases records@.len() - i,
    {
        r.push(image_info_from_record(&records[i], now));
        i = i + 1;
    }
    r
}

/// Everything the inspect modal reads from the engine's detail reply,
/// reduced to plain values; `None` stands for a field the engine left
/// out.
#[derive(Debug, Clone, PartialEq, Eq)]
pub struct InspectRecord {
    pub id: Option<String>,
    pub repo_tags: Option<Vec<String>>,
    pub size: Option<i64>,
    pub created: Option<String>,
    pub architecture: Option<String>,
    pub os: Option<String>,
    pub env: Option<Vec<String>>,
    pub exposed_ports: Option<Vec<String>>,
    pub working_dir: Option<String>,
    pub entrypoint: Option<Vec<String>>,
    pub cmd: Option<Vec<String>>,
    pub labels: Option<Vec<(String, String)>>,
}

/// The detail record shown by the inspect modal, fully formatted.
#[derive(Debug, Clone, PartialEq, Eq)]
pub struct ImageInspectDetails {
    pub id: String,
    pub repo_tags: Vec<String>,
    pub size_formatted: String,
    pub created_formatted: String,
    pub architecture: String,
    pub os: String,
    pub env: Vec<String>,
    pub exposed_ports: Vec<String>,
    pub working_dir: String,
    pub entrypoint: Vec<String>,
    pub cmd: Vec<String>,
    pub labels: Vec<(String, String)>,
}

/// An optional field, or empty where the engine left it out.
pub open spec fn field_or_empty<A>(f: Option<Seq<A>>) -> Seq<A> {
    match f {
        Option::Some(s) => s,
        Option::None => Seq::empty(),
    }
}

/// An optional field, or `"Unknown"` where the engine left it out.
pub open spec fn field_or_unknown(f: Option<Seq<char>>) -> Seq<char> {
    match f {
        Option::Some(s) => s,
        Option::None => "Unknown"@,
    }
}

/// The details built from one inspect reply.
pub open spec fn inspect_details_match(r: ImageInspectDetails, rec: InspectRecord) -> bool {
    &&& r.id@ == field_or_empty(rec.id.deep_view())
    &&& r.repo_tags.deep_view() == field_or_empty(rec.repo_tags.deep_view())
    &&& r.size_formatted@ == spec_format_size(
        match rec.size {
            Option::Some(s) => s as int,
            Option::None => 0int,
        },
    )
    &&& r.created_formatted@ == spec_format_created(rec.created.deep_view())
    &&& r.architecture@ == field_or_unknown(rec.architecture.deep_view())
    &&& r.os@ == field_or_unknown(rec.os.deep_view())
    &&& r.env.deep_view() == field_or_empty(rec.env.deep_view())
    &&& r.exposed_ports.deep_view() == field_or_empty(rec.exposed_ports.deep_view())
    &&& r.working_dir@ == field_or_empty(rec.working_dir.deep_view())
    &&& r.entrypoint.deep_view() == field_or_empty(rec.entrypoint.deep_view())
    &&& r.cmd.deep_view() == field_or_empty(rec.cmd.deep_view())
    &&& r.labels.deep_view() == field_or_empty(rec.labels.deep_view())
}

/// An optional field, or a fresh empty collection where the engine left
/// it out.
fn vec_or_empty<T: DeepView>(f: Option<Vec<T>>) -> (r: Vec<T>)
    ensures
        r.deep_view() == field_or_empty(f.deep_view()),
{
    match f {
        Option::Some(v) => v,
        Option::None => {
            let v: Vec<T> = Vec::new();
            proof {
                assert(v.deep_view() =~= Seq::<T::V>::empty());
            }
            v
        },
    }
}

/// An optional field, or the empty string where the engine left it out.
fn string_or_empty(f: Option<String>) -> (r: String)
    ensures
        r@ == field_or_empty(f.deep_view()),
{
    match f {
        Option::Some(s) => s,
        Option::None => String::new(),
    }
}

/// An optional field, or `"Unknown"` where the engine left it out.
fn string_or_unknown(f: Option<String>) -> (r: String)
    ensures
        r@ == field_or_unknown(f.deep_view()),
{
    match f {
        Option::Some(s) => s,
        Option::None => "Unknown".to_owned(),
    }
}

/// Build the formatted inspect details from the engine's reply.
pub fn image_inspect_details(rec: InspectRecord) -> (r: ImageInspectDetails)
    ensures
        inspect_details_match(r, rec),
{
    let size: i64 = match &rec.size {
        Option::Some(s) => *s,
        Option::None => 0,
    };
    ImageInspectDetails {
        id: string_or_empty(rec.id),
        repo_tags: vec_or_empty(rec.repo_tags),
        size_formatted: format_size(size),
        created_formatted: format_created(&rec.created),
        architecture: string_or_unknown(rec.architecture),
        os: string_or_unknown(rec.os),
        env: vec_or_empty(rec.env),
        exposed_ports: vec_or_empty(rec.exposed_ports),
        working_dir: string_or_empty(rec.working_dir),
        entrypoint: vec_or_empty(rec.entrypoint),
        cmd: vec_or_empty(rec.cmd),
        labels: vec_or_empty(rec.labels),
    }
}

/// The display names of listed containers: the first reported name of
/// each, leading slashes stripped; a container with no names is skipped.
pub open spec fn spec_display_names(lists: Seq<Seq<Seq<char>>>) -> Seq<Seq<char>>
    decreases lists.len(),
{
    if lists.len() == 0 {
        Seq::empty()
    } else {
        let init = spec_display_names(lists.drop_last());
        if lists.last().len() > 0 {
            init.push(without_leading(lists.last()[0], '/'))
        } else {
            init
        }
    }
}

/// Reduce the name lists of a container listing to one display name per
/// named container.
pub fn container_display_names(lists: &Vec<Vec<String>>) -> (r: Vec<String>)
    ensures
        r.deep_view() == spec_display_names(lists.deep_view()),
{
    let ghost all = lists.deep_view();
    let mut r: Vec<String> = Vec::new();
    let mut i: usize = 0;
    while i < lists.len()
        invariant
            all == lists.deep_view(),
            all.len() == lists@.len(),
            i <= lists@.len(),
            r.deep_view() == spec_display_names(all.subrange(0, i as int)),
        decreases lists@.len() - i,
    {
        proof {
            assert(all.subrange(0, i + 1).drop_last() =~= all.subrange(0, i as int));
            assert(all.subrange(0, i + 1).last() == all[i as int]);
            assert(all[i as int] == lists@[i as int].deep_view());
        }
        if lists[i].len() > 0 {
            let name = trim_leading(lists[i][0].as_str(), '/');
            r.push(name);
        }
        i = i + 1;
    }
    proof {
        assert(all.subrange(0, lists@.len() as int) =~= all);
    }
    r
}

/// The names present in a listing: entries the engine reported without a
/// name are skipped.
pub open spec fn spec_present_names(names: Seq<Option<Seq<char>>>) -> Seq<Seq<char>>
    decreases names.len(),
{
    if names.len() == 0 {
        Seq::empty()
    } else {
        let init = spec_present_names(names.drop_last());
        match names.last() {
            Option::Some(n) => init.push(n),
            Option::None => init,
        }
    }
}

/// Keep the names present in a listing, in the listed order.
pub fn present_names(names: &Vec<Option<String>>) -> (r: Vec<String>)
    ensures
        r.deep_view() == spec_present_names(names.deep_view()),
{
    let ghost all = names.deep_view();
    let mut r: Vec<String> = Vec::new();
    let mut i: usize = 0;
    while i < names.len()
        invariant
            all == names.deep_view(),
            all.len() == names@.len(),
            i <= names@.len(),
            r.deep_view() == spec_present_names(all.subrange(0, i as int)),
        decreases names@.len() - i,
    {
        proof {
            assert(all.subrange(0, i + 1).drop_last() =~= all.subrange(0, i as int));
            assert(all.subrange(0, i + 1).last() == all[i as int]);
            assert(all[i as int] == names@[i as int].deep_view());
        }
        match &names[i] {
            Option::Some(n) => {
                r.push(n.clone());
            },
            Option::None => {},
        }
        i = i + 1;
    }
    proof {
        assert(all.subrange(0, names@.len() as int) =~= all);
    }
    r
}

/// The status of the first listed container, or `"Unknown"` where the
/// listing is empty or its first entry carries no status.
pub open spec fn spec_first_status(statuses: Seq<Option<Seq<char>>>) -> Seq<char> {
    if statuses.len() > 0 {
        match statuses[0] {
            Option::Some(s) => s,
            Option::None => "Unknown"@,
        }
    } else {
        "Unknown"@
    }
}

/// Reduce a filtered container listing to the status string of its first
/// entry.
pub fn first_status_or_unknown(statuses: &Vec<Option<String>>) -> (r: String)
    ensures
        r@ == spec_first_status(statuses.deep_view()),
{
    if statuses.len() > 0 {
        match &statuses[0] {
            Option::Some(s) => s.clone(),
            Option::None => "Unknown".to_owned(),
        }
    } else {
        "Unknown".to_owned()
    }
}

} // verus!
