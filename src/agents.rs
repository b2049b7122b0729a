//! Agent definitions: validation of the front matter of a definition file and
//! the tool list it declares.

use vstd::prelude::*;

use crate::subagent::trim;
use crate::subagent::trimmed_of;

verus! {

/// Joins `ps` with a comma between neighbours.
pub open spec fn joined(ps: Seq<Seq<char>>) -> Seq<char>
    decreases ps.len(),
{
    if ps.len() <= 1 {
        if ps.len() == 0 {
            Seq::empty()
        } else {
            ps[0]
        }
    } else {
        joined(ps.drop_last()) + seq![','] + ps.last()
    }
}

pub open spec fn views(ss: Seq<String>) -> Seq<Seq<char>> {
    ss.map_values(|s: String| s@)
}

/// Relies on `str::split` with a `char` pattern: the pieces between the commas
/// of `s`, in order, at least one.
#[verifier::external_body]
fn split_commas(s: &str) -> (r: Vec<String>)
    ensures
        r@.len() >= 1,
        joined(views(r@)) == s@,
        forall|i: int| 0 <= i < r@.len() ==> !(#[trigger] r@[i])@.contains(','),
{
    s.split(',').map(|p| p.to_string()).collect()
}

/// The trimmed pieces of `ps` that are not empty, in order.
pub open spec fn kept_tools(ps: Seq<Seq<char>>) -> Seq<Seq<char>>
    decreases ps.len(),
{
    if ps.len() == 0 {
        Seq::empty()
    } else {
        let t = trimmed_of(ps.last());
        if t.len() > 0 {
            kept_tools(ps.drop_last()).push(t)
        } else {
            kept_tools(ps.drop_last())
        }
    }
}

/// The tool names of a comma-separated list, each trimmed, empty ones left out.
/// `pieces` are the pieces between the commas of `list`.
pub open spec fn tool_list_of(pieces: Seq<Seq<char>>, list: Seq<char>) -> bool {
    &&& pieces.len() >= 1
    &&& joined(pieces) == list
    &&& forall|i: int| 0 <= i < pieces.len() ==> !(#[trigger] pieces[i]).contains(',')
}

/// Splits a comma-separated tool list into trimmed, non-empty names.
pub fn parse_tool_list(list: &str) -> (r: Vec<String>)
    ensures
        exists|pieces: Seq<Seq<char>>|
            tool_list_of(pieces, list@) && #[trigger] kept_tools(pieces) == views(r@),
{
    let parts = split_commas(list);
    let ghost pieces = views(parts@);
    let mut out: Vec<String> = Vec::new();
    let mut i: usize = 0;
    while i < parts.len()
        invariant
            i <= parts@.len(),
            pieces == views(parts@),
            views(out@) == kept_tools(pieces.subrange(0, i as int)),
        decreases parts@.len() - i,
    {
        let t = trim(parts[i].as_str());
        let ghost before = out@;
        assert(pieces.subrange(0, i + 1).drop_last() =~= pieces.subrange(0, i as int));
        assert(pieces[i as int] == parts@[i as int]@);
        if !t.is_empty() {
            out.push(t.to_string());
            assert(views(out@) =~= views(before).push(t@));
        }
        i += 1;
    }
    assert(pieces.subrange(0, parts@.len() as int) =~= pieces);
    assert forall|k: int| 0 <= k < pieces.len() implies !(#[trigger] pieces[k]).contains(',') by {
        assert(pieces[k] == parts@[k]@);
    }
    assert(tool_list_of(pieces, list@));
    out
}

/// Relies on `str::chars`: the characters of `s` in order.
#[verifier::external_body]
fn chars_of(s: &str) -> (r: Vec<char>)
    ensures
        r@ == s@,
{
    s.chars().collect()
}

/// Relies on collecting characters into a `String`: the same characters.
#[verifier::external_body]
fn string_of(cs: &Vec<char>) -> (r: String)
    ensures
        r@ == cs@,
{
    cs.iter().collect()
}

/// `pat` occurs in `s` at index `i`.
pub open spec fn occurs_at(s: Seq<char>, pat: Seq<char>, i: int) -> bool {
    0 <= i && i + pat.len() <= s.len() && s.subrange(i, i + pat.len()) == pat
}

/// `i` is the first index at which `pat` occurs in `s`.
pub open spec fn first_at(s: Seq<char>, pat: Seq<char>, i: int) -> bool {
    occurs_at(s, pat, i) && forall|j: int| 0 <= j < i ==> !#[trigger] occurs_at(s, pat, j)
}

pub open spec fn no_occurrence(s: Seq<char>, pat: Seq<char>) -> bool {
    forall|j: int| !#[trigger] occurs_at(s, pat, j)
}

/// `s` without its leading newlines.
pub open spec fn strip_newlines(s: Seq<char>) -> Seq<char>
    decreases s.len(),
{
    if s.len() > 0 && s[0] == '\n' {
        strip_newlines(s.drop_first())
    } else {
        s
    }
}

/// `s` without its leading repetitions of `---`.
pub open spec fn strip_dashes(s: Seq<char>) -> Seq<char>
    decreases s.len(),
{
    if s.len() >= 3 && s[0] == '-' && s[1] == '-' && s[2] == '-' {
        strip_dashes(s.subrange(3, s.len() as int))
    } else {
        s
    }
}

pub open spec fn opening() -> Seq<char> {
    seq!['-', '-', '-', '\n']
}

pub open spec fn closing() -> Seq<char> {
    seq!['\n', '-', '-', '-', '\n']
}

pub open spec fn closing_crlf() -> Seq<char> {
    seq!['\n', '-', '-', '-', '\r', '\n']
}

/// `end` is where the front matter in `rest` (the text after the opening line)
/// ends: the first closing line, or else the first one ending in `\r\n`.
pub open spec fn front_matter_end(rest: Seq<char>, end: int) -> bool {
    first_at(rest, closing(), end) || (no_occurrence(rest, closing()) && first_at(
        rest,
        closing_crlf(),
        end,
    ))
}

fn matches_at(s: &Vec<char>, pat: &Vec<char>, i: usize) -> (r: bool)
    ensures
        r == occurs_at(s@, pat@, i as int),
{
    if i > s.len() || pat.len() > s.len() - i {
        return false;
    }
    let n = s.len();
    let mut k: usize = 0;
    while k < pat.len()
        invariant
            k <= pat@.len(),
            n == s@.len(),
            i + pat@.len() <= n,
            forall|m: int| 0 <= m < k ==> s@[i + m] == pat@[m],
        decreases pat@.len() - k,
    {
        if s[i + k] != pat[k] {
            assert(s@.subrange(i as int, i + pat@.len())[k as int] != pat@[k as int]);
            return false;
        }
        k += 1;
    }
    assert(s@.subrange(i as int, i + pat@.len()) =~= pat@);
    true
}

fn find_first(s: &Vec<char>, pat: &Vec<char>) -> (r: Option<usize>)
    ensures
        match r {
            Some(i) => first_at(s@, pat@, i as int),
            None => no_occurrence(s@, pat@),
        },
{
    let mut i: usize = 0;
    while i < s.len()
        invariant
            i <= s@.len(),
            forall|j: int| 0 <= j < i ==> !#[trigger] occurs_at(s@, pat@, j),
        decreases s@.len() - i,
    {
        if matches_at(s, pat, i) {
            return Some(i);
        }
        i += 1;
    }
    if matches_at(s, pat, i) {
        return Some(i);
    }
    assert forall|j: int| !#[trigger] occurs_at(s@, pat@, j) by {
        if j > i {
            assert(!(j + pat@.len() <= s@.len()));
        }
    }
    None
}

fn copy_range(s: &Vec<char>, from: usize, to: usize) -> (r: Vec<char>)
    requires
        from <= to <= s@.len(),
    ensures
        r@ == s@.subrange(from as int, to as int),
{
    let mut out: Vec<char> = Vec::new();
    let mut k: usize = from;
    while k < to
        invariant
            from <= k <= to,
            to <= s@.len(),
            out@ == s@.subrange(from as int, k as int),
        decreases to - k,
    {
        out.push(s[k]);
        assert(out@ =~= s@.subrange(from as int, k + 1));
        k += 1;
    }
    out
}

/// Splits the text of a definition file into its front matter and its body.
/// The trimmed text must open with a `---` line; the front matter runs up to
/// the closing `---` line, and the body is what follows it, trimmed.
pub fn split_front_matter(text: &str) -> (r: Option<(String, String)>)
    ensures
        ({
            let t = trimmed_of(text@);
            let rest = t.subrange(4, t.len() as int);
            match r {
                None => !occurs_at(t, opening(), 0) || (no_occurrence(rest, closing())
                    && no_occurrence(rest, closing_crlf())),
                Some((yaml, body)) => {
                    &&& occurs_at(t, opening(), 0)
                    &&& exists|end: int|
                        #[trigger] front_matter_end(rest, end) && yaml@ == rest.subrange(0, end)
                            && body@ == trimmed_of(
                            strip_dashes(strip_newlines(rest.subrange(end, rest.len() as int))),
                        )
                },
            }
        }),
{
    let t = chars_of(trim(text));
    let open_pat: Vec<char> = vec!['-', '-', '-', '\n'];
    assert(open_pat@ =~= opening());
    if !matches_at(&t, &open_pat, 0) {
        return None;
    }
    let n = t.len();
    let rest = copy_range(&t, 4, n);
    let close_pat: Vec<char> = vec!['\n', '-', '-', '-', '\n'];
    let crlf_pat: Vec<char> = vec!['\n', '-', '-', '-', '\r', '\n'];
    assert(close_pat@ =~= closing());
    assert(crlf_pat@ =~= closing_crlf());
    let end = match find_first(&rest, &close_pat) {
        Some(e) => e,
        None => match find_first(&rest, &crlf_pat) {
            Some(e) => e,
            None => {
                return None;
            },
        },
    };
    assert(front_matter_end(rest@, end as int));
    let m = rest.len();
    let yaml = copy_range(&rest, 0, end);
    let ghost after = rest@.subrange(end as int, m as int);
    let mut k: usize = end;
    while k < m && rest[k] == '\n'
        invariant
            end <= k <= m,
            m == rest@.len(),
            strip_newlines(after) == strip_newlines(rest@.subrange(k as int, m as int)),
        decreases m - k,
    {
        assert(rest@.subrange(k as int, m as int).drop_first() =~= rest@.subrange(k + 1, m as int));
        k += 1;
    }
    assert(strip_newlines(after) == rest@.subrange(k as int, m as int));
    while m - k >= 3 && rest[k] == '-' && rest[k + 1] == '-' && rest[k + 2] == '-'
        invariant
            end <= k <= m,
            m == rest@.len(),
            strip_dashes(strip_newlines(after)) == strip_dashes(rest@.subrange(k as int, m as int)),
        decreases m - k,
    {
        assert(rest@.subrange(k as int, m as int).subrange(3, m - k) =~= rest@.subrange(
            k + 3,
            m as int,
        ));
        k += 3;
    }
    assert(strip_dashes(strip_newlines(after)) == rest@.subrange(k as int, m as int));
    let tail = copy_range(&rest, k, m);
    let body_all = string_of(&tail);
    let body = trim(body_all.as_str()).to_string();
    Some((string_of(&yaml), body))
}

/// The fields of a definition file's front matter.
#[derive(Clone, Debug, Default, PartialEq, Eq)]
pub struct FrontMatter {
    pub name: Option<String>,
    pub description: Option<String>,
    pub model: Option<String>,
    pub color: Option<String>,
    /// A comma-separated list of tools; absent, the agent inherits all tools.
    pub tools: Option<String>,
}

/// An agent definition.
#[derive(Clone, Debug, PartialEq, Eq)]
pub struct AgentDef {
    pub name: String,
    pub description: String,
    pub prompt: String,
    pub model: Option<String>,
    /// `None` inherits all tools.
    pub tools: Option<Vec<String>>,
}

/// The text of a field, empty when absent.
pub open spec fn text_or_empty(o: Option<String>) -> Seq<char> {
    match o {
        Some(s) => s@,
        None => Seq::empty(),
    }
}

/// Builds the definition that `fm` and the body `prompt` describe: it needs a
/// non-empty name and description.
pub fn agent_from_front_matter(fm: FrontMatter, prompt: String) -> (r: Option<AgentDef>)
    ensures
        r is None <==> (text_or_empty(fm.name).len() == 0 || text_or_empty(fm.description).len()
            == 0),
        match r {
            Some(d) => {
                &&& d.name@ == text_or_empty(fm.name)
                &&& d.description@ == text_or_empty(fm.description)
                &&& d.prompt == prompt
                &&& d.model == fm.model
                &&& match fm.tools {
                    None => d.tools is None,
                    Some(t) => match d.tools {
                        Some(l) => exists|pieces: Seq<Seq<char>>|
                            tool_list_of(pieces, t@) && #[trigger] kept_tools(pieces) == views(
                                l@,
                            ),
                        None => false,
                    },
                }
            },
            None => true,
        },
{
    let name = match fm.name {
        Some(n) => n,
        None => String::new(),
    };
    let description = match fm.description {
        Some(d) => d,
        None => String::new(),
    };
    if name.as_str().is_empty() || description.as_str().is_empty() {
        return None;
    }
    let tools = match &fm.tools {
        Some(t) => Some(parse_tool_list(t.as_str())),
        None => None,
    };
    Some(AgentDef { name, description, prompt, model: fm.model, tools })
}

} // verus!
