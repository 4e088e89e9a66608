//! Which named streams of a file are deleted, and how deletions are counted.
//!
//! A stream is listed as `:name:$DATA`; the primary content stream is
//! `::$DATA` and is never deleted.
use vstd::prelude::*;
use vstd::string::*;

use crate::text::{joined, joined4, same_text};

verus! {

/// `s` without its leading `:` characters.
pub open spec fn trim_leading_colons(s: Seq<char>) -> Seq<char>
    decreases s.len(),
{
    if s.len() > 0 && s[0] == ':' {
        trim_leading_colons(s.drop_first())
    } else {
        s
    }
}

/// `s` without its trailing `:$DATA` suffixes.
pub open spec fn trim_data_suffix(s: Seq<char>) -> Seq<char>
    decreases s.len(),
{
    if s.len() >= 6 && s.subrange(s.len() - 6, s.len() as int) == ":$DATA"@ {
        trim_data_suffix(s.subrange(0, s.len() - 6))
    } else {
        s
    }
}

/// The primary content stream, or an empty name: never deleted.
pub open spec fn is_primary_stream(name: Seq<char>) -> bool {
    name == "::$DATA"@ || name.len() == 0
}

/// The path by which the stream `name` of the file at `path` is deleted.
pub open spec fn stream_path(path: Seq<char>, name: Seq<char>) -> Seq<char> {
    path + ":"@ + trim_data_suffix(trim_leading_colons(name))
}

/// The paths to delete, in order, for the streams `names` of `path`.
pub open spec fn delete_targets(path: Seq<char>, names: Seq<Seq<char>>) -> Seq<Seq<char>>
    decreases names.len(),
{
    if names.len() == 0 {
        seq![]
    } else if is_primary_stream(names.last()) {
        delete_targets(path, names.drop_last())
    } else {
        delete_targets(path, names.drop_last()).push(stream_path(path, names.last()))
    }
}

/// How many of `outcomes` are successes.
pub open spec fn count_true(outcomes: Seq<bool>) -> nat
    decreases outcomes.len(),
{
    if outcomes.len() == 0 {
        0
    } else {
        count_true(outcomes.drop_last()) + if outcomes.last() { 1nat } else { 0nat }
    }
}

/// Streams that carry document and download properties.
pub open spec fn property_stream_names() -> Seq<Seq<char>> {
    seq![
        "Zone.Identifier"@,
        "\x05SummaryInformation"@,
        "\x05DocumentSummaryInformation"@,
        "Afp_AfpInfo"@,
        "encryptable"@,
        "OECustomProperty"@,
    ]
}

/// `s` without its leading `:` characters.
fn trim_colons(s: &str) -> (r: &str)
    ensures
        r@ == trim_leading_colons(s@),
{
    let n = s.unicode_len();
    let mut i: usize = 0;
    assert(s@.subrange(0, n as int) =~= s@);
    while i < n && s.get_char(i) == ':'
        invariant
            i <= n,
            n == s@.len(),
            trim_leading_colons(s@) == trim_leading_colons(s@.subrange(i as int, n as int)),
        decreases n - i,
    {
        assert(s@.subrange(i as int, n as int).drop_first() =~= s@.subrange(i + 1, n as int));
        i = i + 1;
    }
    s.substring_char(i, n)
}

/// `s` without its trailing `:$DATA` suffixes.
fn trim_suffix(s: &str) -> (r: &str)
    ensures
        r@ == trim_data_suffix(s@),
{
    let mut end = s.unicode_len();
    assert(s@.subrange(0, end as int) =~= s@);
    loop
        invariant
            end <= s@.len(),
            trim_data_suffix(s@) == trim_data_suffix(s@.subrange(0, end as int)),
        ensures
            trim_data_suffix(s@) == s@.subrange(0, end as int),
        decreases end,
    {
        let ghost t = s@.subrange(0, end as int);
        assert(t.len() == end);
        if end < 6 {
            break;
        }
        let tail = s.substring_char(end - 6, end);
        assert(t.subrange(end - 6, end as int) =~= tail@);
        let matched = same_text(tail, ":$DATA");
        assert(t.subrange(t.len() - 6, t.len() as int) == tail@);
        if !matched {
            assert(t.subrange(t.len() - 6, t.len() as int) != ":$DATA"@);
            break;
        }
        assert(t.subrange(0, end - 6) =~= s@.subrange(0, end - 6));
        assert(trim_data_suffix(t) == trim_data_suffix(t.subrange(0, t.len() - 6)));
        end = end - 6;
    }
    s.substring_char(0, end)
}

/// The deletion path of stream `name` of `path`, or `None` for the primary
/// stream.
pub fn stream_delete_target(path: &str, name: &str) -> (r: Option<String>)
    ensures
        is_primary_stream(name@) ==> r is None,
        !is_primary_stream(name@) ==> (r matches Some(t) && t@ == stream_path(path@, name@)),
{
    if same_text(name, "::$DATA") || name.unicode_len() == 0 {
        return None;
    }
    let bare = trim_suffix(trim_colons(name));
    let t = joined4(path, ":", bare, "");
    proof {
        reveal_strlit("");
        assert(t@ =~= stream_path(path@, name@));
    }
    Some(t)
}

/// The paths to delete for the named streams `names` of `path`, in order;
/// the primary stream is left out.
pub fn stream_delete_targets(path: &str, names: &Vec<String>) -> (r: Vec<String>)
    ensures
        r@.map_values(|t: String| t@) == delete_targets(path@, names@.map_values(|n: String| n@)),
{
    let mut out: Vec<String> = Vec::new();
    let mut i: usize = 0;
    while i < names.len()
        invariant
            i <= names@.len(),
            out@.map_values(|t: String| t@) == delete_targets(
                path@,
                names@.map_values(|n: String| n@).subrange(0, i as int),
            ),
        decreases names@.len() - i,
    {
        let ghost all = names@.map_values(|n: String| n@);
        assert(all.subrange(0, i + 1).drop_last() =~= all.subrange(0, i as int));
        assert(all.subrange(0, i + 1).last() == names@[i as int]@);
        match stream_delete_target(path, names[i].as_str()) {
            Some(t) => {
                out.push(t);
                assert(out@.map_values(|t: String| t@) =~= delete_targets(
                    path@,
                    all.subrange(0, i as int),
                ).push(stream_path(path@, names@[i as int]@)));
            },
            None => {},
        }
        i = i + 1;
    }
    assert(names@.map_values(|n: String| n@).subrange(0, i as int) =~= names@.map_values(
        |n: String| n@,
    ));
    out
}

/// How many deletions succeeded; a failed one is simply not counted.
pub fn count_removed(outcomes: &Vec<bool>) -> (r: usize)
    ensures
        r == count_true(outcomes@),
{
    let mut n: usize = 0;
    let mut i: usize = 0;
    while i < outcomes.len()
        invariant
            i <= outcomes@.len(),
            n == count_true(outcomes@.subrange(0, i as int)),
            n <= i,
        decreases outcomes@.len() - i,
    {
        assert(outcomes@.subrange(0, i + 1).drop_last() =~= outcomes@.subrange(0, i as int));
        if outcomes[i] {
            n = n + 1;
        }
        i = i + 1;
    }
    assert(outcomes@.subrange(0, i as int) =~= outcomes@);
    n
}

/// The paths of the property-carrying streams of `path`, in order.
pub fn property_stream_paths(path: &str) -> (r: Vec<String>)
    ensures
        r@.map_values(|t: String| t@) == property_stream_names().map_values(
            |n: Seq<char>| path@ + ":"@ + n,
        ),
{
    let names: Vec<&str> = vec![
        "Zone.Identifier",
        "\x05SummaryInformation",
        "\x05DocumentSummaryInformation",
        "Afp_AfpInfo",
        "encryptable",
        "OECustomProperty",
    ];
    assert(names@.map_values(|n: &str| n@) =~= property_stream_names());
    let mut out: Vec<String> = Vec::new();
    let mut i: usize = 0;
    while i < names.len()
        invariant
            i <= names@.len(),
            names@.map_values(|n: &str| n@) == property_stream_names(),
            out@.map_values(|t: String| t@) == property_stream_names().subrange(
                0,
                i as int,
            ).map_values(|n: Seq<char>| path@ + ":"@ + n),
        decreases names@.len() - i,
    {
        let p = joined4(path, ":", names[i], "");
        proof {
            reveal_strlit("");
            assert(names@[i as int]@ == property_stream_names()[i as int]);
            assert(p@ =~= path@ + ":"@ + names@[i as int]@);
        }
        let ghost prev = out@.map_values(|t: String| t@);
        out.push(p);
        assert(out@.map_values(|t: String| t@) =~= prev.push(p@));
        assert(property_stream_names().subrange(0, i + 1).map_values(
            |n: Seq<char>| path@ + ":"@ + n,
        ) =~= property_stream_names().subrange(0, i as int).map_values(
            |n: Seq<char>| path@ + ":"@ + n,
        ).push(path@ + ":"@ + property_stream_names()[i as int]));
        i = i + 1;
    }
    assert(property_stream_names().subrange(0, i as int) =~= property_stream_names());
    out
}

/// A file whose listed streams are all primary has nothing to delete, and
/// counting the deletions of nothing gives zero, however often it is done.
pub proof fn lemma_no_secondary_streams_removes_nothing(path: Seq<char>, names: Seq<Seq<char>>)
    requires
        forall|k: int| 0 <= k < names.len() ==> is_primary_stream(#[trigger] names[k]),
    ensures
        delete_targets(path, names).len() == 0,
        count_true(Seq::<bool>::empty()) == 0,
    decreases names.len(),
{
    if names.len() > 0 {
        assert(is_primary_stream(names[names.len() - 1]));
        lemma_no_secondary_streams_removes_nothing(path, names.drop_last());
    }
}

} // verus!
