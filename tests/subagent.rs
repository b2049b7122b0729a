use codex_turns::agents::agent_from_front_matter;
use codex_turns::agents::parse_tool_list;
use codex_turns::agents::split_front_matter;
use codex_turns::agents::AgentDef;
use codex_turns::agents::FrontMatter;
use codex_turns::subagent::allowed_tool_names;
use codex_turns::subagent::map_lowered_alias;
use codex_turns::subagent::map_tool_alias;
use codex_turns::subagent::DelegateArgs;
use codex_turns::subagent::Delegation;
use codex_turns::subagent::FunctionCallError;
use codex_turns::subagent::SubagentDef;
use codex_turns::subagent::SubagentHandler;

#[test]
fn tool_aliases_map_to_internal_names() {
    assert_eq!(map_tool_alias(" Bash "), "unified_exec");
    assert_eq!(map_tool_alias("shell"), "unified_exec");
    assert_eq!(map_tool_alias("GREP"), "grep_files");
    assert_eq!(map_tool_alias("Read"), "read_file");
    assert_eq!(map_tool_alias("glob"), "list_dir");
    assert_eq!(map_tool_alias("\tlist\n"), "list_dir");
    assert_eq!(map_tool_alias("  Custom_Tool "), "custom_tool");
    assert_eq!(map_tool_alias("mcp__srv__x"), "mcp__srv__x");
    assert_eq!(map_lowered_alias("read"), "read_file");
    assert_eq!(map_lowered_alias("Read"), "Read");
}

#[test]
fn allowed_tools_are_distinct() {
    let tools = vec!["Bash".to_string(), "shell".to_string(), "read".to_string(), "bash ".to_string()];
    assert_eq!(allowed_tool_names(&tools), vec!["unified_exec".to_string(), "read_file".to_string()]);
    assert!(allowed_tool_names(&Vec::new()).is_empty());
}

fn defs() -> Vec<SubagentDef> {
    vec![
        SubagentDef {
            name: "researcher".to_string(),
            description: "finds things".to_string(),
            prompt: "system".to_string(),
            model: Some("m1".to_string()),
            tools: Some(vec!["Read".to_string(), "grep".to_string()]),
        },
        SubagentDef {
            name: "researcher".to_string(),
            description: "shadowed".to_string(),
            prompt: "other".to_string(),
            model: None,
            tools: None,
        },
        SubagentDef {
            name: "writer".to_string(),
            description: "writes".to_string(),
            prompt: "system".to_string(),
            model: None,
            tools: None,
        },
    ]
}

#[test]
fn handler_requires_function_payload() {
    let h = SubagentHandler;
    assert_eq!(
        h.handle(None, &defs()),
        Err(FunctionCallError::Fatal("delegate_to_subagent requires function payload".to_string()))
    );
}

#[test]
fn handler_reports_bad_arguments() {
    let h = SubagentHandler;
    assert_eq!(
        h.handle(Some(Err("missing field `name`".to_string())), &defs()),
        Err(FunctionCallError::RespondToModel(
            "invalid arguments for delegate_to_subagent: missing field `name`".to_string()
        ))
    );
}

#[test]
fn handler_reports_unknown_subagent() {
    let h = SubagentHandler;
    let args = DelegateArgs { name: "nobody".to_string(), prompt: "p".to_string() };
    assert_eq!(
        h.handle(Some(Ok(args)), &defs()),
        Err(FunctionCallError::RespondToModel("unknown subagent `nobody`".to_string()))
    );
}

#[test]
fn handler_delegates_to_first_match() {
    let h = SubagentHandler;
    let args = DelegateArgs { name: "researcher".to_string(), prompt: "look up x".to_string() };
    assert_eq!(
        h.handle(Some(Ok(args)), &defs()),
        Ok(Delegation {
            name: "researcher".to_string(),
            prompt: "look up x".to_string(),
            model: Some("m1".to_string()),
            allowed_tools: Some(vec!["read_file".to_string(), "grep_files".to_string()]),
        })
    );
    let args = DelegateArgs { name: "writer".to_string(), prompt: "p".to_string() };
    let d = h.handle(Some(Ok(args)), &defs()).unwrap();
    assert_eq!(d.allowed_tools, None);
    assert_eq!(d.model, None);
}

#[test]
fn tool_list_is_split_and_trimmed() {
    assert_eq!(parse_tool_list(" Read, ,grep ,"), vec!["Read".to_string(), "grep".to_string()]);
    assert!(parse_tool_list("").is_empty());
    assert_eq!(parse_tool_list("a,b"), vec!["a".to_string(), "b".to_string()]);
}

#[test]
fn front_matter_needs_name_and_description() {
    let fm = FrontMatter { name: Some("a".to_string()), ..Default::default() };
    assert_eq!(agent_from_front_matter(fm, "body".to_string()), None);
    let fm = FrontMatter {
        name: Some(String::new()),
        description: Some("d".to_string()),
        ..Default::default()
    };
    assert_eq!(agent_from_front_matter(fm, "body".to_string()), None);
    let fm = FrontMatter {
        name: Some("a".to_string()),
        description: Some("d".to_string()),
        model: Some("m".to_string()),
        color: Some("red".to_string()),
        tools: Some("bash, read".to_string()),
    };
    assert_eq!(
        agent_from_front_matter(fm, "body".to_string()),
        Some(AgentDef {
            name: "a".to_string(),
            description: "d".to_string(),
            prompt: "body".to_string(),
            model: Some("m".to_string()),
            tools: Some(vec!["bash".to_string(), "read".to_string()]),
        })
    );
}

#[test]
fn front_matter_is_split_from_body() {
    let text = "\n---\nname: a\ndescription: d\n---\n\nYou are helpful.\n  ";
    assert_eq!(
        split_front_matter(text),
        Some(("name: a\ndescription: d".to_string(), "You are helpful.".to_string()))
    );
    let crlf = "---\nname: a\n---\r\nbody";
    assert_eq!(split_front_matter(crlf), Some(("name: a".to_string(), "body".to_string())));
    assert_eq!(split_front_matter("no header\n---\n"), None);
    assert_eq!(split_front_matter("---\nname: a\nno close"), None);
}
