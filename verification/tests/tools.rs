use esptools::error::ToolError;
use esptools::tool::Tool;

#[test]
fn iter_lists_every_tool_in_ordinal_order() {
    let tools = Tool::iter();
    assert_eq!(
        tools,
        vec![Tool::EspTool, Tool::EspSecure, Tool::EspEfuse, Tool::EspIdfNvs]
    );
    for (index, tool) in tools.iter().enumerate() {
        assert_eq!(tool.ordinal(), index);
    }
}

#[test]
fn basenames() {
    assert_eq!(Tool::EspTool.basename(), "esptool");
    assert_eq!(Tool::EspSecure.basename(), "espsecure");
    assert_eq!(Tool::EspEfuse.basename(), "espefuse");
    assert_eq!(Tool::EspIdfNvs.basename(), "espidfnvs");
}

#[test]
fn names_on_windows_end_in_exe() {
    assert_eq!(Tool::EspTool.name(true), "esptool.exe");
    assert_eq!(Tool::EspSecure.name(true), "espsecure.exe");
    assert_eq!(Tool::EspEfuse.name(true), "espefuse.exe");
    assert_eq!(Tool::EspIdfNvs.name(true), "espidfnvs.exe");
    for tool in Tool::iter() {
        assert_eq!(tool.name(true), format!("{}.exe", tool.basename()));
    }
}

#[test]
fn names_elsewhere_are_the_basenames() {
    for tool in Tool::iter() {
        assert_eq!(tool.name(false), tool.basename());
    }
}

#[test]
fn commands_select_their_tool() {
    assert!(Tool::EspTool.cmd_matches("tool"));
    assert!(Tool::EspTool.cmd_matches("flash"));
    assert!(Tool::EspSecure.cmd_matches("secure"));
    assert!(Tool::EspEfuse.cmd_matches("efuse"));
    assert!(Tool::EspIdfNvs.cmd_matches("idfnvs"));
    assert!(!Tool::EspTool.cmd_matches("secure"));
    assert!(!Tool::EspSecure.cmd_matches("tool"));
    assert!(!Tool::EspEfuse.cmd_matches("flash"));
    assert!(!Tool::EspIdfNvs.cmd_matches("nvs"));
    assert!(!Tool::EspTool.cmd_matches(""));
    assert!(!Tool::EspTool.cmd_matches("tool "));
    assert!(!Tool::EspTool.cmd_matches("esptool"));
}

#[test]
fn commands_ignore_ascii_case() {
    assert!(Tool::EspTool.cmd_matches("TOOL"));
    assert!(Tool::EspTool.cmd_matches("Flash"));
    assert!(Tool::EspSecure.cmd_matches("SeCuRe"));
    assert!(Tool::EspEfuse.cmd_matches("EFUSE"));
    assert!(Tool::EspIdfNvs.cmd_matches("IdfNvs"));
    assert!(!Tool::EspTool.cmd_matches("TÖOL"));
}

#[test]
fn from_command_finds_the_tool() {
    assert_eq!(Tool::from_command("tool"), Some(Tool::EspTool));
    assert_eq!(Tool::from_command("FLASH"), Some(Tool::EspTool));
    assert_eq!(Tool::from_command("secure"), Some(Tool::EspSecure));
    assert_eq!(Tool::from_command("efuse"), Some(Tool::EspEfuse));
    assert_eq!(Tool::from_command("idfnvs"), Some(Tool::EspIdfNvs));
    assert_eq!(Tool::from_command("unknown"), None);
    assert_eq!(Tool::from_command(""), None);
}

#[test]
fn from_command_agrees_with_cmd_matches() {
    for word in ["tool", "flash", "secure", "efuse", "idfnvs", "Tool", "x", "--version"] {
        let selected: Vec<Tool> = Tool::iter().into_iter().filter(|tool| tool.cmd_matches(word)).collect();
        assert!(selected.len() <= 1);
        assert_eq!(Tool::from_command(word), selected.first().copied());
    }
}

#[test]
fn command_descriptions() {
    assert_eq!(Tool::EspTool.cmd_description(), "`tool` (or `flash`)");
    assert_eq!(Tool::EspSecure.cmd_description(), "`secure`");
    assert_eq!(Tool::EspEfuse.cmd_description(), "`efuse`");
    assert_eq!(Tool::EspIdfNvs.cmd_description(), "`idfnvs`");
}

#[test]
fn error_messages() {
    assert_eq!(ToolError::ContainerMalformed.message(), "the tool archive is malformed");
    assert_eq!(ToolError::EntryNotFound.message(), "the tool is missing from the archive");
    assert_eq!(ToolError::IoFailure.message(), "reading or writing the tool failed");
    assert_eq!(ToolError::MountFailed.message(), "no cache directory is available for the tool");
    assert_eq!(ToolError::AlreadyMounted.message(), "the tools are already mounted");
    assert_eq!(ToolError::SpawnFailed.message(), "the tool could not be started");
}

#[test]
fn tools_are_ordered_by_ordinal() {
    let mut paths = std::collections::BTreeMap::new();
    paths.insert(esptools::Tool::EspIdfNvs, "d");
    paths.insert(esptools::Tool::EspTool, "a");
    paths.insert(esptools::Tool::EspEfuse, "c");
    paths.insert(esptools::Tool::EspSecure, "b");
    let keys: Vec<Tool> = paths.keys().copied().collect();
    assert_eq!(keys, Tool::iter());
    for pair in Tool::iter().windows(2) {
        assert!(pair[0] < pair[1]);
        assert!(pair[0].ordinal() < pair[1].ordinal());
    }
}
