//! How the address of a call is put together: the base URL, the fixed
//! segment `client/{version}/`, and the path of the resource, with exactly
//! one slash where two parts meet.

use vstd::prelude::*;
use vstd::string::*;

use crate::text::Text;
use crate::Version;

verus! {

/// `s` without the slashes at its end.
pub open spec fn trim_end_slashes(s: Text) -> Text
    decreases s.len(),
{
    if s.len() > 0 && s.last() == '/' {
        trim_end_slashes(s.drop_last())
    } else {
        s
    }
}

/// `s` without the slashes at its start.
pub open spec fn trim_start_slashes(s: Text) -> Text
    decreases s.len(),
{
    if s.len() > 0 && s.first() == '/' {
        trim_start_slashes(s.drop_first())
    } else {
        s
    }
}

/// The address of the resource at `path` under `base`, for the API version
/// with the tag `version`.
pub open spec fn composed(base: Text, version: Text, path: Text) -> Text {
    trim_end_slashes(base) + "/client/"@ + version + "/"@ + trim_start_slashes(path)
}

/// The path of the records of a zone.
pub open spec fn records_path(zone_id: Text) -> Text {
    "zones/"@ + zone_id + "/dns_records"@
}

/// The path of one record of a zone.
pub open spec fn record_path(zone_id: Text, record_id: Text) -> Text {
    records_path(zone_id) + "/"@ + record_id
}

/// Trimming leaves a text that does not end with a slash, and takes nothing
/// but slashes away.
pub proof fn trim_end_slashes_trims(s: Text)
    ensures
        trim_end_slashes(s).len() == 0 || trim_end_slashes(s).last() != '/',
        trim_end_slashes(s).len() <= s.len(),
        trim_end_slashes(s) == s.subrange(0, trim_end_slashes(s).len() as int),
        forall|i: int| trim_end_slashes(s).len() <= i < s.len() ==> s[i] == '/',
    decreases s.len(),
{
    if s.len() > 0 && s.last() == '/' {
        let shorter = s.drop_last();
        trim_end_slashes_trims(shorter);
        let kept = trim_end_slashes(shorter).len() as int;
        assert(shorter.subrange(0, kept) == s.subrange(0, kept));
        assert forall|i: int| trim_end_slashes(s).len() <= i < s.len() implies s[i] == '/' by {
            if i < shorter.len() {
                assert(shorter[i] == s[i]);
            }
        }
    } else {
        assert(s.subrange(0, s.len() as int) == s);
    }
}

/// Trimming leaves a text that does not start with a slash, and takes
/// nothing but slashes away.
pub proof fn trim_start_slashes_trims(s: Text)
    ensures
        trim_start_slashes(s).len() == 0 || trim_start_slashes(s).first() != '/',
        trim_start_slashes(s).len() <= s.len(),
        trim_start_slashes(s) == s.subrange(
            s.len() - trim_start_slashes(s).len(),
            s.len() as int,
        ),
        forall|i: int| 0 <= i < s.len() - trim_start_slashes(s).len() ==> s[i] == '/',
    decreases s.len(),
{
    if s.len() > 0 && s.first() == '/' {
        let shorter = s.drop_first();
        trim_start_slashes_trims(shorter);
        let dropped = shorter.len() - trim_start_slashes(shorter).len();
        assert(shorter.subrange(dropped, shorter.len() as int) == s.subrange(
            dropped + 1,
            s.len() as int,
        ));
        assert forall|i: int| 0 <= i < s.len() - trim_start_slashes(s).len() implies s[i]
            == '/' by {
            if i > 0 {
                assert(shorter[i - 1] == s[i]);
            }
        }
    } else {
        assert(s.subrange(0, s.len() as int) == s);
    }
}

/// A text that holds slashes and nothing else.
pub open spec fn only_slashes(s: Text) -> bool {
    forall|i: int| 0 <= i < s.len() ==> s[i] == '/'
}

/// Slashes added at the end of a text are trimmed away with the rest.
pub proof fn trim_end_slashes_absorbs(s: Text, slashes: Text)
    requires
        only_slashes(slashes),
    ensures
        trim_end_slashes(s + slashes) == trim_end_slashes(s),
    decreases slashes.len(),
{
    if slashes.len() == 0 {
        assert(s + slashes == s);
    } else {
        assert((s + slashes).last() == slashes.last());
        assert((s + slashes).drop_last() == s + slashes.drop_last());
        trim_end_slashes_absorbs(s, slashes.drop_last());
    }
}

/// Slashes added at the start of a text are trimmed away with the rest.
pub proof fn trim_start_slashes_absorbs(slashes: Text, s: Text)
    requires
        only_slashes(slashes),
    ensures
        trim_start_slashes(slashes + s) == trim_start_slashes(s),
    decreases slashes.len(),
{
    if slashes.len() == 0 {
        assert(slashes + s == s);
    } else {
        assert((slashes + s).first() == slashes.first());
        assert((slashes + s).drop_first() == slashes.drop_first() + s);
        trim_start_slashes_absorbs(slashes.drop_first(), s);
    }
}

/// The composed address does not depend on slashes at the end of the base or
/// at the start of the path: however many stand there, the parts are joined
/// by one.
pub proof fn composition_ignores_boundary_slashes(
    base: Text,
    version: Text,
    path: Text,
    trailing: Text,
    leading: Text,
)
    requires
        only_slashes(trailing),
        only_slashes(leading),
    ensures
        composed(base + trailing, version, leading + path) == composed(base, version, path),
{
    trim_end_slashes_absorbs(base, trailing);
    trim_start_slashes_absorbs(leading, path);
}

/// The part of `s` that is left when the slashes at its end are taken away.
pub fn trim_end(s: &str) -> (trimmed: &str)
    ensures
        trimmed@ == trim_end_slashes(s@),
{
    let mut end: usize = s.unicode_len();
    assert(s@.subrange(0, end as int) == s@);
    while end > 0 && s.get_char(end - 1) == '/'
        invariant
            end <= s@.len(),
            trim_end_slashes(s@) == trim_end_slashes(s@.subrange(0, end as int)),
        decreases end,
    {
        assert(s@.subrange(0, end as int).drop_last() == s@.subrange(0, end - 1));
        end = end - 1;
    }
    s.substring_char(0, end)
}

/// The part of `s` that is left when the slashes at its start are taken
/// away.
pub fn trim_start(s: &str) -> (trimmed: &str)
    ensures
        trimmed@ == trim_start_slashes(s@),
{
    let len: usize = s.unicode_len();
    let mut start: usize = 0;
    assert(s@.subrange(0, len as int) == s@);
    while start < len && s.get_char(start) == '/'
        invariant
            start <= len,
            len == s@.len(),
            trim_start_slashes(s@) == trim_start_slashes(s@.subrange(start as int, len as int)),
        decreases len - start,
    {
        assert(s@.subrange(start as int, len as int).drop_first() == s@.subrange(
            start + 1,
            len as int,
        ));
        start = start + 1;
    }
    s.substring_char(start, len)
}

/// Puts the address of a call together: the base without the slashes at its
/// end, `/client/`, the version's tag, a slash, and the path without the
/// slashes at its start.
pub fn compose(base: &str, version: Version, path: &str) -> (address: String)
    ensures
        address@ == composed(base@, version.tag(), path@),
{
    let mut address = trim_end(base).to_string();
    address.append("/client/");
    address.append(version.to_string().as_str());
    address.append("/");
    address.append(trim_start(path));
    address
}

/// The path under which the records of the zone `zone_id` are listed.
pub fn records_path_of(zone_id: &str) -> (path: String)
    ensures
        path@ == records_path(zone_id@),
{
    let mut path = "zones/".to_string();
    path.append(zone_id);
    path.append("/dns_records");
    path
}

/// The path of the record `record_id` of the zone `zone_id`.
pub fn record_path_of(zone_id: &str, record_id: &str) -> (path: String)
    ensures
        path@ == record_path(zone_id@, record_id@),
{
    let mut path = records_path_of(zone_id);
    path.append("/");
    path.append(record_id);
    path
}

} // verus!
