//! Blanking the text of named elements in an XML document held as bytes.
//!
//! An element `<name attrs>content</name>` becomes `<name attrs></name>`: the
//! opening tag is kept as written, the content goes, the closing tag stays.
//! The opening tag must be `<name>` or `<name` followed by white space, so
//! `<dc:title>` never matches an element called `dc:titleX`; a self-closing
//! tag is left alone.
use vstd::prelude::*;
use vstd::string::*;

verus! {

/// The bytes of an ASCII text.
pub open spec fn ascii(s: Seq<char>) -> Seq<u8> {
    s.map_values(|c: char| c as u8)
}

/// `p` occurs in `s` at position `i`.
pub open spec fn occurs_at(s: Seq<u8>, i: int, p: Seq<u8>) -> bool {
    0 <= i && i + p.len() <= s.len() && s.subrange(i, i + p.len()) == p
}

/// The first position at or after `from` at which `p` occurs in `s`.
pub open spec fn find_from(s: Seq<u8>, from: int, p: Seq<u8>) -> Option<int>
    decreases s.len() + 1 - from,
{
    if from < 0 || from + p.len() > s.len() {
        None
    } else if occurs_at(s, from, p) {
        Some(from)
    } else {
        find_from(s, from + 1, p)
    }
}

/// Space, tab, line feed or carriage return.
pub open spec fn is_space(b: u8) -> bool {
    b == 32u8 || b == 9u8 || b == 10u8 || b == 13u8
}

/// `<name`
pub open spec fn open_prefix(name: Seq<u8>) -> Seq<u8> {
    seq![60u8] + name
}

/// `</name>`
pub open spec fn close_tag(name: Seq<u8>) -> Seq<u8> {
    seq![60u8, 47u8] + name + seq![62u8]
}

/// Where the opening tag of element `name` that starts at `i` ends (just past
/// its `>`), if one starts there.
pub open spec fn open_tag_end(s: Seq<u8>, i: int, name: Seq<u8>) -> Option<int> {
    let k = i + 1 + name.len();
    if occurs_at(s, i, open_prefix(name)) && k < s.len() {
        if s[k] == 62u8 {
            Some(k + 1)
        } else if is_space(s[k]) {
            match find_from(s, k, seq![62u8]) {
                Some(g) => if s[g - 1] != 47u8 {
                    Some(g + 1)
                } else {
                    None
                },
                None => None,
            }
        } else {
            None
        }
    } else {
        None
    }
}

/// For an element `name` that starts at `i`: where its opening tag ends and
/// where the first closing tag after it ends.
pub open spec fn element_at(s: Seq<u8>, i: int, name: Seq<u8>) -> Option<(int, int)> {
    match open_tag_end(s, i, name) {
        Some(o) => match find_from(s, o, close_tag(name)) {
            Some(c) => Some((o, c + close_tag(name).len())),
            None => None,
        },
        None => None,
    }
}

/// `s` from position `i` on, with the content of every element `name` removed.
pub open spec fn blank_from(s: Seq<u8>, i: int, name: Seq<u8>) -> Seq<u8>
    decreases s.len() - i,
{
    if i < 0 || i >= s.len() {
        seq![]
    } else {
        match element_at(s, i, name) {
            Some((o, e)) if i < e <= s.len() => s.subrange(i, o) + close_tag(name) + blank_from(
                s,
                e,
                name,
            ),
            _ => seq![s[i]] + blank_from(s, i + 1, name),
        }
    }
}

/// `s` with the content of every element `name` removed.
pub open spec fn blank(s: Seq<u8>, name: Seq<u8>) -> Seq<u8> {
    blank_from(s, 0, name)
}

/// `s` with the elements of `names` blanked, one name after the other.
pub open spec fn blank_all(s: Seq<u8>, names: Seq<Seq<char>>) -> Seq<u8>
    decreases names.len(),
{
    if names.len() == 0 {
        s
    } else {
        blank(blank_all(s, names.drop_last()), ascii(names.last()))
    }
}

/// The document-summary elements: author, last modified by, title, subject,
/// comments, keywords, category and content status.
pub open spec fn core_element_names() -> Seq<Seq<char>> {
    seq![
        "dc:creator"@,
        "cp:lastModifiedBy"@,
        "dc:title"@,
        "dc:subject"@,
        "dc:description"@,
        "cp:keywords"@,
        "cp:category"@,
        "cp:contentStatus"@,
    ]
}

/// The application elements: company, manager and hyperlink base.
pub open spec fn app_element_names() -> Seq<Seq<char>> {
    seq!["Company"@, "Manager"@, "HyperlinkBase"@]
}

proof fn lemma_find_from_bounds(s: Seq<u8>, from: int, p: Seq<u8>)
    ensures
        find_from(s, from, p) matches Some(c) ==> from <= c && c + p.len() <= s.len()
            && occurs_at(s, c, p),
    decreases s.len() + 1 - from,
{
    if !(from < 0 || from + p.len() > s.len()) && !occurs_at(s, from, p) {
        lemma_find_from_bounds(s, from + 1, p);
    }
}

proof fn lemma_element_bounds(s: Seq<u8>, i: int, name: Seq<u8>)
    ensures
        element_at(s, i, name) matches Some((o, e)) ==> 0 <= i < o <= e <= s.len(),
{
    let k = i + 1 + name.len();
    lemma_find_from_bounds(s, k, seq![62u8]);
    if let Some(o) = open_tag_end(s, i, name) {
        lemma_find_from_bounds(s, o, close_tag(name));
    }
}

/// The bytes of the ASCII text `s`.
fn name_bytes(s: &str) -> (r: &[u8])
    requires
        s.is_ascii(),
    ensures
        r@ == ascii(s@),
{
    proof {
        broadcast use is_ascii_spec_bytes;
    }
    let r = s.as_bytes();
    assert(r@ =~= ascii(s@));
    r
}

/// Appends `s[from..to]` to `out`.
fn push_range(out: &mut Vec<u8>, s: &[u8], from: usize, to: usize)
    requires
        from <= to <= s@.len(),
    ensures
        final(out)@ == old(out)@ + s@.subrange(from as int, to as int),
{
    let mut j = from;
    while j < to
        invariant
            from <= j <= to,
            to <= s@.len(),
            out@ == old(out)@ + s@.subrange(from as int, j as int),
        decreases to - j,
    {
        out.push(s[j]);
        j = j + 1;
        assert(out@ =~= old(out)@ + s@.subrange(from as int, j as int));
    }
}

/// Whether `p` occurs in `s` at `i`.
fn occurs_at_exec(s: &[u8], i: usize, p: &[u8]) -> (r: bool)
    ensures
        r == occurs_at(s@, i as int, p@),
{
    let n = s.len();
    if i > n || p.len() > s.len() - i {
        return false;
    }
    let mut j: usize = 0;
    while j < p.len()
        invariant
            j <= p@.len(),
            i + p@.len() <= s@.len(),
            s@.len() == n,
            forall|k: int| 0 <= k < j ==> s@[i + k] == p@[k],
        decreases p@.len() - j,
    {
        if s[i + j] != p[j] {
            assert(s@.subrange(i as int, i + p@.len())[j as int] != p@[j as int]);
            return false;
        }
        j = j + 1;
    }
    assert(s@.subrange(i as int, i + p@.len()) =~= p@);
    true
}

/// The first position at or after `from` at which `p` occurs in `s`.
fn find_from_exec(s: &[u8], from: usize, p: &[u8]) -> (r: Option<usize>)
    requires
        p@.len() > 0,
    ensures
        r matches Some(c) ==> find_from(s@, from as int, p@) == Some(c as int),
        r is None ==> find_from(s@, from as int, p@) is None,
{
    let mut j = from;
    while j < s.len() && p.len() <= s.len() - j
        invariant
            from <= j,
            p@.len() > 0,
            find_from(s@, from as int, p@) == find_from(s@, j as int, p@),
        decreases s@.len() - j,
    {
        if occurs_at_exec(s, j, p) {
            return Some(j);
        }
        j = j + 1;
    }
    None
}

/// The opening and closing bounds of an element `name` that starts at `i`.
fn element_at_exec(s: &[u8], i: usize, name: &[u8], open: &[u8], close: &[u8]) -> (r: Option<
    (usize, usize),
>)
    requires
        open@ == open_prefix(name@),
        close@ == close_tag(name@),
        i < s@.len(),
    ensures
        r matches Some((o, e)) ==> element_at(s@, i as int, name@) == Some((o as int, e as int)),
        r is None ==> element_at(s@, i as int, name@) is None,
{
    let n = s.len();
    proof {
        lemma_element_bounds(s@, i as int, name@);
        lemma_find_from_bounds(s@, (i + 1 + name@.len()) as int, seq![62u8]);
    }
    if !occurs_at_exec(s, i, open) {
        return None;
    }
    let k = i + open.len();
    if k >= s.len() {
        return None;
    }
    let o: usize;
    if s[k] == 62u8 {
        o = k + 1;
    } else if s[k] == 32u8 || s[k] == 9u8 || s[k] == 10u8 || s[k] == 13u8 {
        let gt: Vec<u8> = vec![62u8];
        assert(gt@ =~= seq![62u8]);
        match find_from_exec(s, k, gt.as_slice()) {
            Some(g) => {
                if s[g - 1] == 47u8 {
                    return None;
                }
                o = g + 1;
            },
            None => {
                return None;
            },
        }
    } else {
        return None;
    }
    assert(open_tag_end(s@, i as int, name@) == Some(o as int));
    proof {
        lemma_find_from_bounds(s@, o as int, close@);
    }
    match find_from_exec(s, o, close) {
        Some(c) => Some((o, c + close.len())),
        None => None,
    }
}

/// `s` with the content of every element `name` removed.
pub fn blank_element(s: &[u8], name: &[u8]) -> (r: Vec<u8>)
    ensures
        r@ == blank(s@, name@),
{
    let mut open: Vec<u8> = vec![60u8];
    let mut name_copy: Vec<u8> = Vec::new();
    push_range(&mut name_copy, name, 0, name.len());
    assert(name@.subrange(0, name@.len() as int) =~= name@);
    let mut close: Vec<u8> = vec![60u8, 47u8];
    push_range(&mut open, name, 0, name.len());
    push_range(&mut close, name, 0, name.len());
    close.push(62u8);
    assert(open@ =~= open_prefix(name@));
    assert(close@ =~= close_tag(name@));
    let mut out: Vec<u8> = Vec::new();
    let mut i: usize = 0;
    while i < s.len()
        invariant
            i <= s@.len(),
            open@ == open_prefix(name@),
            close@ == close_tag(name@),
            out@ + blank_from(s@, i as int, name@) == blank_from(s@, 0, name@),
        decreases s@.len() - i,
    {
        proof {
            lemma_element_bounds(s@, i as int, name@);
        }
        let ghost before = out@;
        match element_at_exec(s, i, name, open.as_slice(), close.as_slice()) {
            Some((o, e)) => {
                push_range(&mut out, s, i, o);
                push_range(&mut out, close.as_slice(), 0, close.len());
                assert(close@.subrange(0, close@.len() as int) =~= close@);
                assert(out@ + blank_from(s@, e as int, name@) =~= before + blank_from(
                    s@,
                    i as int,
                    name@,
                ));
                i = e;
            },
            None => {
                out.push(s[i]);
                assert(out@ + blank_from(s@, i + 1, name@) =~= before + blank_from(
                    s@,
                    i as int,
                    name@,
                ));
                i = i + 1;
            },
        }
    }
    assert(out@ + blank_from(s@, i as int, name@) =~= out@);
    out
}

/// `s` with the elements named in `names` blanked, in order.
fn blank_elements(s: Vec<u8>, names: &Vec<&str>) -> (r: Vec<u8>)
    requires
        forall|k: int| 0 <= k < names@.len() ==> is_ascii(#[trigger] names@[k]),
    ensures
        r@ == blank_all(s@, names@.map_values(|n: &str| n@)),
{
    let mut out = s;
    let mut k: usize = 0;
    while k < names.len()
        invariant
            k <= names@.len(),
            forall|j: int| 0 <= j < names@.len() ==> is_ascii(#[trigger] names@[j]),
            out@ == blank_all(s@, names@.map_values(|n: &str| n@).subrange(0, k as int)),
        decreases names@.len() - k,
    {
        let ghost all = names@.map_values(|n: &str| n@);
        let name = name_bytes(names[k]);
        out = blank_element(out.as_slice(), name);
        assert(all.subrange(0, k + 1).drop_last() =~= all.subrange(0, k as int));
        k = k + 1;
    }
    assert(names@.map_values(|n: &str| n@).subrange(0, k as int) =~= names@.map_values(
        |n: &str| n@,
    ));
    out
}

/// The document-summary part with author, last modified by, title, subject,
/// comments, keywords, category and content status blanked.
pub fn clean_core_xml(content: Vec<u8>) -> (r: Vec<u8>)
    ensures
        r@ == blank_all(content@, core_element_names()),
{
    let names: Vec<&str> = vec![
        "dc:creator",
        "cp:lastModifiedBy",
        "dc:title",
        "dc:subject",
        "dc:description",
        "cp:keywords",
        "cp:category",
        "cp:contentStatus",
    ];
    proof {
        reveal_strlit("dc:creator");
        reveal_strlit("cp:lastModifiedBy");
        reveal_strlit("dc:title");
        reveal_strlit("dc:subject");
        reveal_strlit("dc:description");
        reveal_strlit("cp:keywords");
        reveal_strlit("cp:category");
        reveal_strlit("cp:contentStatus");
        assert(names@.map_values(|n: &str| n@) =~= core_element_names());
    }
    blank_elements(content, &names)
}

/// The application part with company, manager and hyperlink base blanked.
pub fn clean_app_xml(content: Vec<u8>) -> (r: Vec<u8>)
    ensures
        r@ == blank_all(content@, app_element_names()),
{
    let names: Vec<&str> = vec!["Company", "Manager", "HyperlinkBase"];
    proof {
        reveal_strlit("Company");
        reveal_strlit("Manager");
        reveal_strlit("HyperlinkBase");
        assert(names@.map_values(|n: &str| n@) =~= app_element_names());
    }
    blank_elements(content, &names)
}

} // verus!
