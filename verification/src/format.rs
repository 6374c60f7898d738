//! The pure text formatting behind the table columns of the views:
//! byte sizes, ages, container counts, image names and identifiers, and
//! creation timestamps.

use vstd::prelude::*;
use vstd::utf8::is_ascii_chars;
use crate::text::{dec_digit, dec_str, digit_str, u64_to_string};

verus! {

/// A size in tenths of a unit, rounded to the nearest tenth (half away
/// from zero).
pub open spec fn size_tenths(b: nat, unit: nat) -> nat
    recommends
        unit > 0,
{
    (10 * b + unit / 2) / unit
}

/// `"12.3 KB"` from 123 tenths and `" KB"`.
pub open spec fn tenths_with_unit(tenths: nat, suffix: Seq<char>) -> Seq<char> {
    dec_str(tenths / 10) + "."@ + seq![dec_digit(tenths % 10)] + suffix
}

/// A byte count rendered for a table column: `"-"` for a negative count,
/// a plain byte count below one kibibyte, and otherwise one decimal in
/// the largest binary unit at or below the value, up to terabytes.
pub open spec fn spec_format_size(bytes: int) -> Seq<char> {
    if bytes < 0 {
        "-"@
    } else if bytes < 1024 {
        dec_str(bytes as nat) + " B"@
    } else if bytes < 1024 * 1024 {
        tenths_with_unit(size_tenths(bytes as nat, 1024), " KB"@)
    } else if bytes < 1024 * 1024 * 1024 {
        tenths_with_unit(size_tenths(bytes as nat, 1024 * 1024), " MB"@)
    } else if bytes < 1024 * 1024 * 1024 * 1024 {
        tenths_with_unit(size_tenths(bytes as nat, 1024 * 1024 * 1024), " GB"@)
    } else {
        tenths_with_unit(size_tenths(bytes as nat, 1024 * 1024 * 1024 * 1024), " TB"@)
    }
}

/// Render a size in tenths of a unit, one decimal place.
fn render_tenths(tenths: u64, suffix: &str) -> (r: String)
    ensures
        r@ == tenths_with_unit(tenths as nat, suffix@),
{
    u64_to_string(tenths / 10).concat(".").concat(digit_str(tenths % 10)).concat(suffix)
}

/// Format a byte count as the engine reports it, `"142.3 MB"` style;
/// a negative count (the engine's "not known") renders as `"-"`.
pub fn format_size(bytes: i64) -> (r: String)
    ensures
        r@ == spec_format_size(bytes as int),
{
    if bytes < 0 {
        return "-".to_owned();
    }
    let b = bytes as u64;
    if b < 1024 {
        u64_to_string(b).concat(" B")
    } else if b < 1024 * 1024 {
        render_tenths((10 * b + 512) / 1024, " KB")
    } else if b < 1024 * 1024 * 1024 {
        render_tenths((10 * b + 1024 * 512) / (1024 * 1024), " MB")
    } else if b < 1024 * 1024 * 1024 * 1024 {
        render_tenths((10 * b + 1024 * 1024 * 512) / (1024 * 1024 * 1024), " GB")
    } else {
        let wide: u128 = (10 * (b as u128) + 1024 * 1024 * 1024 * 512) / (1024 * 1024 * 1024
            * 1024);
        assert(wide < 0x8000000) by {
            assert(10 * (b as int) + 1024 * 1024 * 1024 * 512 < 0x8000000 * (1024 * 1024 * 1024
                * 1024));
        }
        render_tenths(wide as u64, " TB")
    }
}

/// An age rendered for a table column: the elapsed seconds in the largest
/// round unit, `"< 1m"` below a minute, then minutes, hours, days,
/// months of thirty days, and years of 365 days.
pub open spec fn spec_format_age(diff: int) -> Seq<char> {
    if diff < 60 {
        "< 1m"@
    } else if diff < 3600 {
        dec_str((diff / 60) as nat) + "m"@
    } else if diff < 86400 {
        dec_str((diff / 3600) as nat) + "h"@
    } else if diff < 2592000 {
        dec_str((diff / 86400) as nat) + "d"@
    } else if diff < 31536000 {
        dec_str((diff / 2592000) as nat) + "mo"@
    } else {
        dec_str((diff / 31536000) as nat) + "y"@
    }
}

/// Format how long ago `timestamp` lies before `now`, both in seconds
/// since the epoch. A timestamp in the future renders as `"< 1m"`.
pub fn format_time_ago(timestamp: i64, now: i64) -> (r: String)
    ensures
        r@ == spec_format_age(now - timestamp),
{
    let diff: i128 = now as i128 - timestamp as i128;
    if diff < 60 {
        "< 1m".to_owned()
    } else if diff < 3600 {
        u64_to_string((diff / 60) as u64).concat("m")
    } else if diff < 86400 {
        u64_to_string((diff / 3600) as u64).concat("h")
    } else if diff < 2592000 {
        u64_to_string((diff / 86400) as u64).concat("d")
    } else if diff < 31536000 {
        u64_to_string((diff / 2592000) as u64).concat("mo")
    } else {
        u64_to_string((diff / 31536000) as u64).concat("y")
    }
}

/// A container count rendered for a table column: the number itself, or
/// `"-"` when the engine reports it as negative (not computed).
pub fn format_containers_count(count: i64) -> (r: String)
    ensures
        count >= 0 ==> r@ == dec_str(count as nat),
        count < 0 ==> r@ == "-"@,
{
    if count >= 0 {
        u64_to_string(count as u64)
    } else {
        "-".to_owned()
    }
}

/// The display name of an image: its first repository tag, or
/// `"<none>:<none>"` for an untagged image.
pub fn format_image_name(repo_tags: &Vec<String>) -> (r: String)
    ensures
        repo_tags@.len() > 0 ==> r@ == repo_tags@[0]@,
        repo_tags@.len() == 0 ==> r@ == "<none>:<none>"@,
{
    if repo_tags.len() > 0 {
        repo_tags[0].clone()
    } else {
        "<none>:<none>".to_owned()
    }
}

/// An image identifier shortened for display: for the usual
/// `"sha256:<digest>"` form, twelve digest characters and an ellipsis;
/// anything too short (or not ASCII) is shown whole.
pub open spec fn spec_format_image_id(s: Seq<char>) -> Seq<char> {
    if s.len() >= 19 && is_ascii_chars(s) {
        s.subrange(7, 19) + "..."@
    } else {
        s
    }
}

/// Shorten an image identifier for display.
pub fn format_image_id(id: &String) -> (r: String)
    ensures
        r@ == spec_format_image_id(id@),
{
    if id.as_str().is_ascii() && id.as_str().unicode_len() >= 19 {
        id.as_str().substring_ascii(7, 19).to_owned().concat("...")
    } else {
        id.clone()
    }
}

/// The UTC rendering (`"2015-02-18 23:16:09 UTC"` style) of an RFC 3339
/// date-and-time string, `None` where the string is not one. What chrono
/// computes here depends on the characters alone.
pub uninterp spec fn rfc3339_utc_display(s: Seq<char>) -> Option<Seq<char>>;

/// Relies on chrono's `DateTime::parse_from_rfc3339` and the `"%Y-%m-%d
/// %H:%M:%S UTC"` formatting of the parsed instant in UTC: both are
/// functions of the input string alone.
#[verifier::external_body]
fn rfc3339_to_utc_string(s: &str) -> (r: Option<String>)
    ensures
        r.deep_view() == rfc3339_utc_display(s@),
{
    match chrono::DateTime::parse_from_rfc3339(s) {
        Ok(dt) => Some(
            dt.with_timezone(&chrono::Utc).format("%Y-%m-%d %H:%M:%S UTC").to_string(),
        ),
        Err(_) => None,
    }
}

/// A creation timestamp rendered for the inspect view: the UTC rendering
/// of the reported RFC 3339 string; the string itself where it does not
/// parse; `"Unknown"` where the engine reported none.
pub open spec fn spec_format_created(created: Option<Seq<char>>) -> Seq<char> {
    match created {
        Option::None => "Unknown"@,
        Option::Some(s) => match rfc3339_utc_display(s) {
            Option::Some(t) => t,
            Option::None => s,
        },
    }
}

/// Format the creation timestamp that the engine reported for an image.
pub fn format_created(created: &Option<String>) -> (r: String)
    ensures
        r@ == spec_format_created(created.deep_view()),
{
    match created {
        Option::None => "Unknown".to_owned(),
        Option::Some(s) => match rfc3339_to_utc_string(s.as_str()) {
            Option::Some(t) => t,
            Option::None => s.clone(),
        },
    }
}

} // verus!
