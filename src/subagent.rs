//! The delegation tool: resolves a request to a configured subagent and the
//! tools it may use.

use vstd::prelude::*;

verus! {

/// What `str::trim` returns for a string.
pub uninterp spec fn trimmed_of(s: Seq<char>) -> Seq<char>;

/// What `str::to_lowercase` returns for a string.
pub uninterp spec fn lower_of(s: Seq<char>) -> Seq<char>;

/// Relies on `str::trim`: leading and trailing whitespace removed, a result
/// that depends on the characters alone.
#[verifier::external_body]
pub(crate) fn trim(s: &str) -> (r: &str)
    ensures
        r@ == trimmed_of(s@),
{
    s.trim()
}

/// Relies on `str::to_lowercase`: the lowercase mapping of each character, a
/// result that depends on the characters alone.
#[verifier::external_body]
fn lowercase(s: &str) -> (r: String)
    ensures
        r@ == lower_of(s@),
{
    s.to_lowercase()
}

/// Relies on `format!` writing each `str` argument as it is, one after the other.
#[verifier::external_body]
fn concat(a: &str, b: &str) -> (r: String)
    ensures
        r@ == a@ + b@,
{
    format!("{a}{b}")
}

/// The internal tool name that a normalized (trimmed, lowercase) tool name
/// stands for: friendly names map to internal ones, any other name to itself.
pub open spec fn alias_of(s: Seq<char>) -> Seq<char> {
    if s == "bash"@ || s == "shell"@ {
        "unified_exec"@
    } else if s == "grep"@ {
        "grep_files"@
    } else if s == "read"@ {
        "read_file"@
    } else if s == "glob"@ || s == "list"@ {
        "list_dir"@
    } else {
        s
    }
}

/// The internal tool name for a tool name as written in an agent definition.
pub open spec fn mapped_tool(s: Seq<char>) -> Seq<char> {
    alias_of(lower_of(trimmed_of(s)))
}

/// Maps a normalized tool name to the internal tool it stands for.
pub fn map_lowered_alias(name: &str) -> (r: String)
    ensures
        r@ == alias_of(name@),
{
    let n = name.to_string();
    if n == "bash".to_string() || n == "shell".to_string() {
        "unified_exec".to_string()
    } else if n == "grep".to_string() {
        "grep_files".to_string()
    } else if n == "read".to_string() {
        "read_file".to_string()
    } else if n == "glob".to_string() || n == "list".to_string() {
        "list_dir".to_string()
    } else {
        n
    }
}

/// Maps a tool name as written (any case, surrounding whitespace) to the
/// internal tool it stands for.
pub fn map_tool_alias(input: &str) -> (r: String)
    ensures
        r@ == mapped_tool(input@),
{
    let t = trim(input);
    let l = lowercase(t);
    map_lowered_alias(l.as_str())
}

/// A configured subagent, already validated.
#[derive(Clone, Debug, PartialEq, Eq)]
pub struct SubagentDef {
    pub name: String,
    pub description: String,
    pub prompt: String,
    pub model: Option<String>,
    /// The tools it may use; `None` inherits all.
    pub tools: Option<Vec<String>>,
}

/// The arguments of a delegation request.
#[derive(Clone, Debug, PartialEq, Eq)]
pub struct DelegateArgs {
    pub name: String,
    pub prompt: String,
}

/// A resolved delegation: which subagent runs which prompt, on which model
/// override, with which tools.
#[derive(Clone, Debug, PartialEq, Eq)]
pub struct Delegation {
    pub name: String,
    pub prompt: String,
    pub model: Option<String>,
    /// Distinct internal tool names; `None` inherits all.
    pub allowed_tools: Option<Vec<String>>,
}

/// Why a tool call failed.
#[derive(Clone, Debug, PartialEq, Eq)]
pub enum FunctionCallError {
    /// The call cannot proceed at all.
    Fatal(String),
    /// The model is told what was wrong and may retry.
    RespondToModel(String),
}

/// Some of the first `n` tool names maps to the internal name `x`.
pub open spec fn mapped_from(x: Seq<char>, tools: Seq<String>, n: int) -> bool {
    exists|b: int| 0 <= b < n && x == mapped_tool((#[trigger] tools[b])@)
}

/// Some entry of `out` is `x`.
pub open spec fn names_in(out: Seq<String>, x: Seq<char>) -> bool {
    exists|a: int| 0 <= a < out.len() && (#[trigger] out[a])@ == x
}

/// The entries of `out` are distinct.
pub open spec fn distinct_names(out: Seq<String>) -> bool {
    forall|i: int, j: int|
        0 <= i < out.len() && 0 <= j < out.len() && i != j ==> (#[trigger] out[i])@ != (
        #[trigger] out[j])@
}

/// `out` lists each internal name of the first `n` entries of `tools` once.
pub open spec fn lists_mapped_upto(out: Seq<String>, tools: Seq<String>, n: int) -> bool {
    &&& distinct_names(out)
    &&& forall|i: int| 0 <= i < out.len() ==> mapped_from((#[trigger] out[i])@, tools, n)
    &&& forall|j: int| 0 <= j < n ==> names_in(out, mapped_tool((#[trigger] tools[j])@))
}

/// `out` lists each internal name of `tools` once.
pub open spec fn lists_mapped(out: Seq<String>, tools: Seq<String>) -> bool {
    lists_mapped_upto(out, tools, tools.len() as int)
}

/// The distinct internal tool names of `tools`, in order of first appearance.
pub fn allowed_tool_names(tools: &Vec<String>) -> (r: Vec<String>)
    ensures
        lists_mapped(r@, tools@),
{
    let mut out: Vec<String> = Vec::new();
    let mut j: usize = 0;
    while j < tools.len()
        invariant
            j <= tools@.len(),
            lists_mapped_upto(out@, tools@, j as int),
        decreases tools@.len() - j,
    {
        let m = map_tool_alias(tools[j].as_str());
        let mut k: usize = 0;
        let mut seen = false;
        while k < out.len()
            invariant
                k <= out@.len(),
                seen ==> names_in(out@, m@),
                !seen ==> forall|a: int| 0 <= a < k ==> (#[trigger] out@[a])@ != m@,
            decreases out@.len() - k,
        {
            if out[k] == m {
                seen = true;
            }
            k += 1;
        }
        let ghost prev = out@;
        if !seen {
            out.push(m);
        }
        proof {
            assert(mapped_from(m@, tools@, j + 1));
            assert forall|i: int| 0 <= i < out@.len() implies mapped_from(
                (#[trigger] out@[i])@,
                tools@,
                j + 1,
            ) by {
                if i < prev.len() {
                    assert(out@[i] == prev[i]);
                    let b = choose|b: int|
                        0 <= b < j && prev[i]@ == mapped_tool((#[trigger] tools@[b])@);
                    assert(0 <= b < j + 1 && out@[i]@ == mapped_tool(tools@[b]@));
                }
            }
            assert forall|b: int| 0 <= b < j + 1 implies names_in(
                out@,
                mapped_tool((#[trigger] tools@[b])@),
            ) by {
                if b < j {
                    let a = choose|a: int|
                        0 <= a < prev.len() && (#[trigger] prev[a])@ == mapped_tool(tools@[b]@);
                    assert(out@[a] == prev[a]);
                } else if !seen {
                    assert(out@[prev.len() as int]@ == mapped_tool(tools@[b]@));
                }
            }
            assert forall|x: int, y: int|
                0 <= x < out@.len() && 0 <= y < out@.len() && x != y implies (
                #[trigger] out@[x])@ != (#[trigger] out@[y])@ by {
                if x < prev.len() {
                    assert(out@[x] == prev[x]);
                }
                if y < prev.len() {
                    assert(out@[y] == prev[y]);
                }
            }
        }
        j += 1;
    }
    out
}

/// The tool that delegates a prompt to a configured subagent.
#[derive(Debug, Default)]
pub struct SubagentHandler;

/// `i` is the first definition named `name`.
pub open spec fn first_named(defs: Seq<SubagentDef>, name: Seq<char>, i: int) -> bool {
    &&& 0 <= i < defs.len()
    &&& defs[i].name@ == name
    &&& forall|k: int| 0 <= k < i ==> (#[trigger] defs[k]).name@ != name
}

/// `d` delegates `args` to the definition `def`.
pub open spec fn delegates(d: Delegation, args: DelegateArgs, def: SubagentDef) -> bool {
    &&& d.name == def.name
    &&& d.prompt == args.prompt
    &&& d.model == def.model
    &&& match def.tools {
        None => d.allowed_tools is None,
        Some(t) => match d.allowed_tools {
            Some(l) => lists_mapped(l@, t@),
            None => false,
        },
    }
}

impl SubagentHandler {
    /// Resolves a delegation request. `args` is `None` when the call did not
    /// carry function arguments, and holds the decoding error's text when they
    /// did not decode.
    pub fn handle(
        &self,
        args: Option<Result<DelegateArgs, String>>,
        subagents: &Vec<SubagentDef>,
    ) -> (r: Result<Delegation, FunctionCallError>)
        ensures
            match args {
                None => match r {
                    Err(FunctionCallError::Fatal(m)) => m@
                        == "delegate_to_subagent requires function payload"@,
                    _ => false,
                },
                Some(Err(e)) => match r {
                    Err(FunctionCallError::RespondToModel(m)) => m@
                        == "invalid arguments for delegate_to_subagent: "@ + e@,
                    _ => false,
                },
                Some(Ok(a)) => match r {
                    Ok(d) => exists|i: int|
                        first_named(subagents@, a.name@, i) && delegates(
                            d,
                            a,
                            #[trigger] subagents@[i],
                        ),
                    Err(FunctionCallError::RespondToModel(m)) => {
                        &&& forall|i: int|
                            0 <= i < subagents@.len() ==> (#[trigger] subagents@[i]).name@
                                != a.name@
                        &&& m@ == "unknown subagent `"@ + a.name@ + "`"@
                    },
                    _ => false,
                },
            },
    {
        match args {
            None => Err(
                FunctionCallError::Fatal(
                    "delegate_to_subagent requires function payload".to_string(),
                ),
            ),
            Some(Err(e)) => Err(
                FunctionCallError::RespondToModel(
                    concat("invalid arguments for delegate_to_subagent: ", e.as_str()),
                ),
            ),
            Some(Ok(a)) => Self::resolve(a, subagents),
        }
    }

    /// Delegates `a` to the first definition with its name.
    fn resolve(a: DelegateArgs, subagents: &Vec<SubagentDef>) -> (r: Result<
        Delegation,
        FunctionCallError,
    >)
        ensures
            match r {
                Ok(d) => exists|i: int|
                    first_named(subagents@, a.name@, i) && delegates(d, a, #[trigger] subagents@[i]),
                Err(FunctionCallError::RespondToModel(m)) => {
                    &&& forall|i: int|
                        0 <= i < subagents@.len() ==> (#[trigger] subagents@[i]).name@ != a.name@
                    &&& m@ == "unknown subagent `"@ + a.name@ + "`"@
                },
                _ => false,
            },
    {
        let mut i: usize = 0;
        while i < subagents.len()
            invariant
                i <= subagents@.len(),
                forall|k: int| 0 <= k < i ==> (#[trigger] subagents@[k]).name@ != a.name@,
            decreases subagents@.len() - i,
        {
            if subagents[i].name == a.name {
                let agent = &subagents[i];
                let model = match &agent.model {
                    Some(m) => Some(m.clone()),
                    None => None,
                };
                let allowed_tools = match &agent.tools {
                    Some(list) => Some(allowed_tool_names(list)),
                    None => None,
                };
                let d = Delegation {
                    name: agent.name.clone(),
                    prompt: a.prompt.clone(),
                    model,
                    allowed_tools,
                };
                assert(first_named(subagents@, a.name@, i as int));
                assert(delegates(d, a, subagents@[i as int]));
                return Ok(d);
            }
            i += 1;
        }
        Err(
            FunctionCallError::RespondToModel(
                concat(concat("unknown subagent `", a.name.as_str()).as_str(), "`"),
            ),
        )
    }
}

} // verus!
