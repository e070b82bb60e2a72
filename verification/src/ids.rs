//! Identifier rules: slugs for workspace ids, target ids, required values
//! and path segments, and TOML string quoting.
use vstd::prelude::*;
use crate::error::Error;
use crate::text::{
    ascii_lower, ascii_lower_exec, chars_of, contains_char, has_char, is_ascii_alphanumeric,
    is_ascii_alphanumeric_exec, is_ascii_digit, is_ascii_lower, is_ascii_upper, is_white_space,
    owned, push_char, seq_eq, string_of, trim, trim_chars, trim_end, trim_start, trim_str,
};

verus! {

broadcast use vstd::string::group_string_axioms;

// ---------------------------------------------------------------------------
// Slugs
// ---------------------------------------------------------------------------

/// The slug character for one (already trimmed) input character: ASCII
/// letters are lower-cased, letters, digits, `_` and `.` are kept, and
/// every other character becomes `-`.
pub open spec fn slug_char(c: char) -> char {
    let l = ascii_lower(c);
    if is_ascii_alphanumeric(l) || l == '_' || l == '.' {
        l
    } else {
        '-'
    }
}

/// `s` with every run of `-` shortened to a single `-`.
pub open spec fn collapse_dashes(s: Seq<char>) -> Seq<char>
    decreases s.len(),
{
    if s.len() == 0 {
        Seq::empty()
    } else {
        let rest = collapse_dashes(s.drop_last());
        if s.last() == '-' && s.len() >= 2 && s[s.len() - 2] == '-' {
            rest
        } else {
            rest.push(s.last())
        }
    }
}

/// The characters that are stripped from both ends of a slug.
pub open spec fn is_slug_edge(c: char) -> bool {
    c == '-' || c == '.' || c == '_'
}

pub open spec fn strip_edges_start(s: Seq<char>) -> Seq<char>
    decreases s.len(),
{
    if s.len() > 0 && is_slug_edge(s[0]) {
        strip_edges_start(s.drop_first())
    } else {
        s
    }
}

pub open spec fn strip_edges_end(s: Seq<char>) -> Seq<char>
    decreases s.len(),
{
    if s.len() > 0 && is_slug_edge(s.last()) {
        strip_edges_end(s.drop_last())
    } else {
        s
    }
}

/// The slug of `v` before the fallback for an empty slug.
pub open spec fn slug_core(v: Seq<char>) -> Seq<char> {
    strip_edges_end(strip_edges_start(collapse_dashes(trim(v).map_values(|c: char| slug_char(c)))))
}

/// The slug of `v`: trimmed, lower-cased, reduced to letters, digits, `_`,
/// `.` and single dashes, stripped of `-`, `.` and `_` at both ends, and
/// `workspace` when nothing is left.
pub open spec fn slugify_spec(v: Seq<char>) -> Seq<char> {
    if slug_core(v).len() == 0 {
        "workspace"@
    } else {
        slug_core(v)
    }
}

/// The characters a slug is made of.
pub open spec fn is_slug_alphabet(c: char) -> bool {
    is_ascii_digit(c) || is_ascii_lower(c) || c == '_' || c == '.' || c == '-'
}

/// What every slug is: non-empty, made of the slug alphabet, without `--`,
/// and neither starting nor ending with `-`, `.` or `_`.
pub open spec fn is_slug(s: Seq<char>) -> bool {
    &&& s.len() > 0
    &&& forall|i: int| 0 <= i < s.len() ==> is_slug_alphabet(#[trigger] s[i])
    &&& forall|i: int| 0 <= i < s.len() - 1 ==> !(#[trigger] s[i] == '-' && s[i + 1] == '-')
    &&& !is_slug_edge(s[0])
    &&& !is_slug_edge(s.last())
}

/// The rule target ids follow: an ASCII letter or digit first, then ASCII
/// letters, digits, `_`, `.` and `-`.
pub open spec fn valid_target_id(s: Seq<char>) -> bool {
    &&& s.len() > 0
    &&& is_ascii_alphanumeric(s[0])
    &&& forall|i: int|
        1 <= i < s.len() ==> (is_ascii_alphanumeric(#[trigger] s[i]) || s[i] == '_' || s[i]
            == '.' || s[i] == '-')
}

fn slug_char_exec(c: char) -> (r: char)
    ensures
        r == slug_char(c),
{
    let l = ascii_lower_exec(c);
    if is_ascii_alphanumeric_exec(l) || l == '_' || l == '.' {
        l
    } else {
        '-'
    }
}

fn is_slug_edge_exec(c: char) -> (r: bool)
    ensures
        r == is_slug_edge(c),
{
    c == '-' || c == '.' || c == '_'
}

proof fn lemma_strip_start_step(s: Seq<char>, i: int)
    requires
        0 <= i < s.len(),
        is_slug_edge(s[i]),
    ensures
        strip_edges_start(s.subrange(i, s.len() as int)) == strip_edges_start(
            s.subrange(i + 1, s.len() as int),
        ),
{
    assert(s.subrange(i, s.len() as int).drop_first() =~= s.subrange(i + 1, s.len() as int));
}

proof fn lemma_strip_end_step(s: Seq<char>, j: int)
    requires
        0 < j <= s.len(),
        is_slug_edge(s[j - 1]),
    ensures
        strip_edges_end(s.subrange(0, j)) == strip_edges_end(s.subrange(0, j - 1)),
{
    assert(s.subrange(0, j).drop_last() =~= s.subrange(0, j - 1));
}

/// `v` with `-`, `.` and `_` removed from both ends.
fn strip_edges(v: &Vec<char>) -> (r: Vec<char>)
    ensures
        r@ == strip_edges_end(strip_edges_start(v@)),
{
    let mut start: usize = 0;
    assert(v@.subrange(0, v@.len() as int) =~= v@);
    while start < v.len() && is_slug_edge_exec(v[start])
        invariant
            start <= v.len(),
            strip_edges_start(v@) == strip_edges_start(v@.subrange(start as int, v@.len() as int)),
        decreases v.len() - start,
    {
        proof {
            lemma_strip_start_step(v@, start as int);
        }
        start = start + 1;
    }
    let ghost t = v@.subrange(start as int, v@.len() as int);
    assert(t.subrange(0, t.len() as int) =~= t);
    let mut end: usize = v.len();
    while end > start && is_slug_edge_exec(v[end - 1])
        invariant
            start <= end <= v.len(),
            t == v@.subrange(start as int, v@.len() as int),
            strip_edges_end(t) == strip_edges_end(t.subrange(0, end - start)),
        decreases end,
    {
        proof {
            lemma_strip_end_step(t, end - start);
        }
        end = end - 1;
    }
    let mut r: Vec<char> = Vec::new();
    let mut k: usize = start;
    while k < end
        invariant
            start <= k <= end <= v.len(),
            r@ == v@.subrange(start as int, k as int),
        decreases end - k,
    {
        r.push(v[k]);
        k = k + 1;
        assert(r@ =~= v@.subrange(start as int, k as int));
    }
    assert(t.subrange(0, end - start) =~= v@.subrange(start as int, end as int));
    r
}

/// The slug of `value`; see [`slugify_spec`]. Workspace ids and target ids
/// derived from names are made with it.
pub fn slugify_id(value: &str) -> (r: String)
    ensures
        r@ == slugify_spec(value@),
        is_slug(r@),
        valid_target_id(r@),
{
    let chars = chars_of(value);
    let trimmed = trim_chars(&chars);
    let ghost mapped = trimmed@.map_values(|c: char| slug_char(c));
    let mut slug: Vec<char> = Vec::new();
    let mut previous_dash = false;
    let mut i: usize = 0;
    while i < trimmed.len()
        invariant
            i <= trimmed.len(),
            mapped == trimmed@.map_values(|c: char| slug_char(c)),
            slug@ == collapse_dashes(mapped.subrange(0, i as int)),
            previous_dash == (i > 0 && mapped[i - 1] == '-'),
        decreases trimmed.len() - i,
    {
        let next = slug_char_exec(trimmed[i]);
        let ghost pre = mapped.subrange(0, i as int);
        let ghost cur = mapped.subrange(0, i + 1);
        assert(cur.drop_last() =~= pre);
        assert(cur.last() == next);
        if next == '-' {
            if !previous_dash {
                slug.push(next);
            }
            previous_dash = true;
        } else {
            slug.push(next);
            previous_dash = false;
        }
        i = i + 1;
    }
    assert(mapped.subrange(0, trimmed@.len() as int) =~= mapped);
    let stripped = strip_edges(&slug);
    proof {
        lemma_slug_core_is_slug_or_empty(value@);
        reveal_strlit("workspace");
    }
    if stripped.len() == 0 {
        let r = owned("workspace");
        proof {
            lemma_workspace_is_slug();
            lemma_slug_valid_target_id(r@);
        }
        r
    } else {
        let r = string_of(&stripped);
        proof {
            lemma_slug_valid_target_id(r@);
        }
        r
    }
}

proof fn lemma_workspace_is_slug()
    ensures
        is_slug("workspace"@),
{
    reveal_strlit("workspace");
    let s = "workspace"@;
    assert(s.len() == 9);
    assert forall|i: int| 0 <= i < s.len() implies is_slug_alphabet(#[trigger] s[i]) by {
        assert(is_ascii_lower(s[i]));
    }
}

proof fn lemma_collapse_alphabet(s: Seq<char>)
    requires
        forall|i: int| 0 <= i < s.len() ==> is_slug_alphabet(#[trigger] s[i]),
    ensures
        forall|i: int|
            0 <= i < collapse_dashes(s).len() ==> is_slug_alphabet(#[trigger] collapse_dashes(s)[i]),
        forall|i: int|
            0 <= i < collapse_dashes(s).len() - 1 ==> !(#[trigger] collapse_dashes(s)[i] == '-'
                && collapse_dashes(s)[i + 1] == '-'),
        collapse_dashes(s).len() > 0 ==> collapse_dashes(s).last() == s.last(),
    decreases s.len(),
{
    if s.len() > 0 {
        let rest = s.drop_last();
        lemma_collapse_alphabet(rest);
        let cr = collapse_dashes(rest);
        if s.last() == '-' && s.len() >= 2 && s[s.len() - 2] == '-' {
            assert(rest.last() == s[s.len() - 2]);
        } else {
            let c = cr.push(s.last());
            assert forall|i: int| 0 <= i < c.len() - 1 implies !(#[trigger] c[i] == '-' && c[i
                + 1] == '-') by {
                if i == c.len() - 2 {
                    assert(cr.last() == rest.last());
                }
            }
        }
    }
}

proof fn lemma_strip_start_props(s: Seq<char>)
    ensures
        exists|k: int| 0 <= k <= s.len() && strip_edges_start(s) == s.subrange(k, s.len() as int),
        strip_edges_start(s).len() > 0 ==> !is_slug_edge(strip_edges_start(s)[0]),
    decreases s.len(),
{
    if s.len() > 0 && is_slug_edge(s[0]) {
        lemma_strip_start_props(s.drop_first());
        let k = choose|k: int|
            0 <= k <= s.drop_first().len() && strip_edges_start(s.drop_first())
                == s.drop_first().subrange(k, s.drop_first().len() as int);
        assert(s.drop_first().subrange(k, s.drop_first().len() as int) =~= s.subrange(
            k + 1,
            s.len() as int,
        ));
    } else {
        assert(s.subrange(0, s.len() as int) =~= s);
    }
}

proof fn lemma_strip_end_props(s: Seq<char>)
    ensures
        exists|k: int| 0 <= k <= s.len() && strip_edges_end(s) == s.subrange(0, k),
        strip_edges_end(s).len() > 0 ==> !is_slug_edge(strip_edges_end(s).last()),
        s.len() > 0 && !is_slug_edge(s[0]) ==> strip_edges_end(s).len() > 0,
    decreases s.len(),
{
    if s.len() > 0 && is_slug_edge(s.last()) {
        lemma_strip_end_props(s.drop_last());
        let k = choose|k: int|
            0 <= k <= s.drop_last().len() && strip_edges_end(s.drop_last())
                == s.drop_last().subrange(0, k);
        assert(s.drop_last().subrange(0, k) =~= s.subrange(0, k));
        if s.len() > 0 && !is_slug_edge(s[0]) {
            assert(s.len() >= 2);
            assert(s.drop_last()[0] == s[0]);
        }
    } else {
        assert(s.subrange(0, s.len() as int) =~= s);
    }
}

/// The slug core, when not empty, is a slug.
proof fn lemma_slug_core_is_slug_or_empty(v: Seq<char>)
    ensures
        slug_core(v).len() > 0 ==> is_slug(slug_core(v)),
{
    let m = trim(v).map_values(|c: char| slug_char(c));
    assert forall|i: int| 0 <= i < m.len() implies is_slug_alphabet(#[trigger] m[i]) by {
        let c = trim(v)[i];
        let l = ascii_lower(c);
        assert(m[i] == slug_char(c));
        if is_ascii_upper(c) {
            assert(is_ascii_lower(l));
        }
    }
    lemma_collapse_alphabet(m);
    let c = collapse_dashes(m);
    lemma_strip_start_props(c);
    let a = strip_edges_start(c);
    let ka = choose|k: int| 0 <= k <= c.len() && a == c.subrange(k, c.len() as int);
    lemma_strip_end_props(a);
    let b = strip_edges_end(a);
    let kb = choose|k: int| 0 <= k <= a.len() && b == a.subrange(0, k);
    if b.len() > 0 {
        assert forall|i: int| 0 <= i < b.len() implies is_slug_alphabet(#[trigger] b[i]) by {
            assert(b[i] == c[ka + i]);
        }
        assert forall|i: int| 0 <= i < b.len() - 1 implies !(#[trigger] b[i] == '-' && b[i + 1]
            == '-') by {
            assert(b[i] == c[ka + i]);
            assert(b[i + 1] == c[ka + i + 1]);
        }
        assert(b[0] == a[0]);
    }
}

/// Every slug is a valid target id.
proof fn lemma_slug_valid_target_id(s: Seq<char>)
    requires
        is_slug(s),
    ensures
        valid_target_id(s),
{
    assert(is_slug_alphabet(s[0]));
    assert forall|i: int| 1 <= i < s.len() implies (is_ascii_alphanumeric(#[trigger] s[i]) || s[i]
        == '_' || s[i] == '.' || s[i] == '-') by {
        assert(is_slug_alphabet(s[i]));
    }
}

proof fn lemma_trim_start_noop(s: Seq<char>)
    requires
        s.len() > 0 ==> !is_white_space(s[0]),
    ensures
        trim_start(s) == s,
{
}

proof fn lemma_trim_end_noop(s: Seq<char>)
    requires
        s.len() > 0 ==> !is_white_space(s.last()),
    ensures
        trim_end(s) == s,
{
}

proof fn lemma_collapse_noop(s: Seq<char>)
    requires
        forall|i: int| 0 <= i < s.len() - 1 ==> !(#[trigger] s[i] == '-' && s[i + 1] == '-'),
    ensures
        collapse_dashes(s) == s,
    decreases s.len(),
{
    if s.len() > 0 {
        let rest = s.drop_last();
        assert forall|i: int| 0 <= i < rest.len() - 1 implies !(#[trigger] rest[i] == '-' && rest[i
            + 1] == '-') by {
            assert(rest[i] == s[i]);
            assert(rest[i + 1] == s[i + 1]);
        }
        lemma_collapse_noop(rest);
        if s.len() >= 2 {
            assert(!(s[s.len() - 2] == '-' && s[s.len() - 1] == '-'));
        }
        assert(rest.push(s.last()) =~= s);
    }
}

/// A slug is its own slug core.
proof fn lemma_slug_core_fixed(s: Seq<char>)
    requires
        is_slug(s),
    ensures
        slug_core(s) == s,
{
    assert(is_slug_alphabet(s[0]));
    assert(is_slug_alphabet(s.last()));
    lemma_trim_start_noop(s);
    lemma_trim_end_noop(s);
    assert(trim(s) == s);
    let m = s.map_values(|c: char| slug_char(c));
    assert forall|i: int| 0 <= i < s.len() implies #[trigger] m[i] == s[i] by {
        assert(is_slug_alphabet(s[i]));
    }
    assert(m =~= s);
    lemma_collapse_noop(s);
}

/// Making a slug of a slug changes nothing: `slugify_id` is idempotent.
pub proof fn law_slugify_idempotent(v: Seq<char>)
    ensures
        slugify_spec(slugify_spec(v)) == slugify_spec(v),
        is_slug(slugify_spec(v)),
        valid_target_id(slugify_spec(v)),
{
    lemma_slug_core_is_slug_or_empty(v);
    lemma_workspace_is_slug();
    let s = slugify_spec(v);
    lemma_slug_core_fixed(s);
    lemma_slug_valid_target_id(s);
}

// ---------------------------------------------------------------------------
// Target ids
// ---------------------------------------------------------------------------

/// Checks a target id against [`valid_target_id`].
pub fn validate_target_id(target_id: &str) -> (r: Result<(), Error>)
    ensures
        r is Ok <==> valid_target_id(target_id@),
        r matches Err(e) ==> e matches Error::InvalidTargetId { target_id: t } && t@
            == target_id@,
{
    let v = chars_of(target_id);
    if v.len() == 0 || !is_ascii_alphanumeric_exec(v[0]) {
        return Err(Error::InvalidTargetId { target_id: owned(target_id) });
    }
    let mut i: usize = 1;
    while i < v.len()
        invariant
            1 <= i <= v.len(),
            v@ == target_id@,
            forall|k: int|
                1 <= k < i ==> (is_ascii_alphanumeric(#[trigger] v@[k]) || v@[k] == '_' || v@[k]
                    == '.' || v@[k] == '-'),
        decreases v.len() - i,
    {
        let c = v[i];
        if !(is_ascii_alphanumeric_exec(c) || c == '_' || c == '.' || c == '-') {
            return Err(Error::InvalidTargetId { target_id: owned(target_id) });
        }
        i = i + 1;
    }
    Ok(())
}

// ---------------------------------------------------------------------------
// Required values and path segments
// ---------------------------------------------------------------------------

/// `value` trimmed, or [`Error::Required`] naming `name` when nothing is left.
pub fn required(value: &str, name: &str) -> (r: Result<String, Error>)
    ensures
        r matches Ok(s) ==> s@ == trim(value@) && s@.len() > 0,
        r is Err <==> trim(value@).len() == 0,
        r matches Err(e) ==> e matches Error::Required { name: n } && n@ == name@,
{
    let t = trim_str(value);
    if t.as_str().unicode_len() == 0 {
        return Err(Error::Required { name: owned(name) });
    }
    Ok(t)
}

/// Whether a (trimmed) value can serve as one path segment: it is neither
/// `.` nor `..` and holds no `/` or `\`.
pub open spec fn is_plain_segment(s: Seq<char>) -> bool {
    &&& s != seq!['.']
    &&& s != seq!['.', '.']
    &&& !contains_char(s, '/')
    &&& !contains_char(s, '\\')
}

/// `value` trimmed, when it is non-empty and a plain path segment.
pub fn path_segment(value: &str, name: &str) -> (r: Result<String, Error>)
    ensures
        r matches Ok(s) ==> s@ == trim(value@),
        r is Ok <==> trim(value@).len() > 0 && is_plain_segment(trim(value@)),
        r matches Err(e) ==> (trim(value@).len() == 0 && (e matches Error::Required { name: n }
            && n@ == name@)) || (trim(value@).len() > 0 && (e matches Error::NotPlainId { name: n }
            && n@ == name@)),
{
    let trimmed = required(value, name)?;
    let v = chars_of(trimmed.as_str());
    let mut dot: Vec<char> = Vec::new();
    dot.push('.');
    let mut dotdot: Vec<char> = Vec::new();
    dotdot.push('.');
    dotdot.push('.');
    assert(dot@ =~= seq!['.']);
    assert(dotdot@ =~= seq!['.', '.']);
    if seq_eq(&v, &dot) || seq_eq(&v, &dotdot) || has_char(&v, '/') || has_char(&v, '\\') {
        return Err(Error::NotPlainId { name: owned(name) });
    }
    Ok(trimmed)
}

// ---------------------------------------------------------------------------
// TOML quoting
// ---------------------------------------------------------------------------

/// The escaped form of one character inside a TOML basic string, as the
/// workspace writer escapes it: `\` and `"` get a backslash.
pub open spec fn toml_escape_char(c: char) -> Seq<char> {
    if c == '\\' {
        seq!['\\', '\\']
    } else if c == '"' {
        seq!['\\', '"']
    } else {
        seq![c]
    }
}

pub open spec fn toml_escape(s: Seq<char>) -> Seq<char>
    decreases s.len(),
{
    if s.len() == 0 {
        Seq::empty()
    } else {
        toml_escape(s.drop_last()) + toml_escape_char(s.last())
    }
}

/// `value` as a TOML basic string: escaped and wrapped in double quotes.
pub open spec fn toml_quote_spec(s: Seq<char>) -> Seq<char> {
    seq!['"'] + toml_escape(s) + seq!['"']
}

/// Quotes `value` as a TOML basic string; see [`toml_quote_spec`].
pub fn toml_quote(value: &str) -> (r: String)
    ensures
        r@ == toml_quote_spec(value@),
{
    let v = chars_of(value);
    let mut out = String::new();
    push_char(&mut out, '"');
    let mut i: usize = 0;
    while i < v.len()
        invariant
            i <= v.len(),
            out@ == seq!['"'] + toml_escape(v@.subrange(0, i as int)),
        decreases v.len() - i,
    {
        let c = v[i];
        if c == '\\' {
            push_char(&mut out, '\\');
            push_char(&mut out, '\\');
        } else if c == '"' {
            push_char(&mut out, '\\');
            push_char(&mut out, '"');
        } else {
            push_char(&mut out, c);
        }
        let ghost cur = v@.subrange(0, i + 1);
        assert(cur.drop_last() =~= v@.subrange(0, i as int));
        i = i + 1;
        assert(out@ =~= seq!['"'] + toml_escape(v@.subrange(0, i as int)));
    }
    push_char(&mut out, '"');
    assert(v@.subrange(0, v@.len() as int) =~= v@);
    out
}

} // verus!
