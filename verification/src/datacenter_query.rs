//! Reading material codes and sizes out of specification-component names.
//!
//! A specification name has the shape `/SPEC/CODE:PARAM,SIZE`, for example
//! `/VMB1/CPP00102:P,50`: the material code is the part between the second
//! `/` and the `:`, and the size is the second comma-separated parameter.
//! Combined names (holding ` OF `) carry neither.
use vstd::prelude::*;
use vstd::hash_map::StringHashMap;
use crate::text::{chars_of, has_substring, split_chars, split_on, str_contains, string_of, trim_chars, trim_of};

verus! {

/// The segment after the second `/` of a specification name; none for a
/// combined name or one with fewer than two `/`.
pub open spec fn spre_segment(name: Seq<char>) -> Option<Seq<char>> {
    if has_substring(name, " OF "@) {
        None
    } else if split_on(name, '/').len() < 3 {
        None
    } else {
        Some(split_on(name, '/')[2])
    }
}

/// The material code of a specification name: the segment after the second
/// `/`, up to its first `:`; none when the segment has no `:`.
pub open spec fn spre_material_code(name: Seq<char>) -> Option<Seq<char>> {
    match spre_segment(name) {
        Some(seg) => if split_on(seg, ':').len() < 2 {
            None
        } else {
            Some(split_on(seg, ':')[0])
        },
        None => None,
    }
}

/// The size key of a specification name: the second comma-separated item
/// of the parameters after the `:`, trimmed.
pub open spec fn spre_size_key(name: Seq<char>) -> Option<Seq<char>> {
    match spre_segment(name) {
        Some(seg) => if split_on(seg, ':').len() < 2 {
            None
        } else if split_on(split_on(seg, ':')[1], ',').len() < 2 {
            None
        } else {
            Some(trim_of(split_on(split_on(seg, ':')[1], ',')[1]))
        },
        None => None,
    }
}

/// The pieces of the segment after the second `/`, split at `:`.
fn segment_parts(spre_name: &str) -> (r: Option<Vec<Vec<char>>>)
    ensures
        match spre_segment(spre_name@) {
            Some(seg) => r matches Some(parts) && parts.deep_view() == split_on(seg, ':'),
            None => r is None,
        },
{
    if str_contains(spre_name, " OF ") {
        return None;
    }
    let cs = chars_of(spre_name);
    let parts = split_chars(&cs, '/');
    if parts.len() < 3 {
        return None;
    }
    assert(parts.deep_view()[2] == parts[2]@);
    Some(split_chars(&parts[2], ':'))
}

/// The material code of a specification name, for example `CPP00102` for
/// `/VMB1/CPP00102:P,50`.
pub fn split_spre_material_code(spre_name: &str) -> (r: Option<String>)
    ensures
        match spre_material_code(spre_name@) {
            Some(code) => r matches Some(s) && s@ == code,
            None => r is None,
        },
{
    match segment_parts(spre_name) {
        Some(parts) => {
            if parts.len() < 2 {
                None
            } else {
                assert(parts.deep_view()[0] == parts[0]@);
                Some(string_of(&parts[0]))
            }
        },
        None => None,
    }
}

/// The size entry of `size_map` for a specification name, for example the
/// entry under `50` for `/VMB1/CPP00102:P,50`; none when the name has no
/// size or the map has no entry for it.
pub fn get_spre_size_from_map(spre_name: &str, size_map: &StringHashMap<String>) -> (r: Option<
    String,
>)
    ensures
        match spre_size_key(spre_name@) {
            Some(key) => if size_map@.contains_key(key) {
                r == Some(size_map@[key])
            } else {
                r is None
            },
            None => r is None,
        },
{
    match segment_parts(spre_name) {
        Some(parts) => {
            if parts.len() < 2 {
                return None;
            }
            assert(parts.deep_view()[1] == parts[1]@);
            let items = split_chars(&parts[1], ',');
            if items.len() < 2 {
                return None;
            }
            assert(items.deep_view()[1] == items[1]@);
            let key = string_of(&trim_chars(&items[1]));
            match size_map.get(key.as_str()) {
                Some(v) => Some(v.clone()),
                None => None,
            }
        },
        None => None,
    }
}

} // verus!
