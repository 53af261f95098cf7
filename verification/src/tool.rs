use vstd::prelude::*;

use crate::index::text_equals;

verus! {

/// A character with the letters `A..=Z` turned into `a..=z`.
pub open spec fn ascii_lower(c: char) -> char {
    if 'A' <= c && c <= 'Z' {
        ((c as u8 + 32) as u8) as char
    } else {
        c
    }
}

/// A text with its ASCII letters in lower case; every other character stays.
pub open spec fn lowered(text: Seq<char>) -> Seq<char> {
    text.map_values(|c: char| ascii_lower(c))
}

/// `str::to_ascii_lowercase`: a copy in which the letters `A..=Z` are `a..=z`
/// and every other character is unchanged.
#[verifier::external_body]
fn to_ascii_lowercase(text: &str) -> (lower: String)
    ensures
        lower@ == lowered(text@),
{
    text.to_ascii_lowercase()
}

/// The tools that can be bundled.
#[derive(Copy, Clone, Debug, PartialEq, Eq, Structural, PartialOrd, Ord, Hash)]
pub enum Tool {
    /// The flashing utility.
    EspTool,
    /// The signing utility.
    EspSecure,
    /// The fuse utility.
    EspEfuse,
    /// The partition generator for non-volatile storage.
    EspIdfNvs,
}

impl Tool {
    /// The base file name of the tool, the same on every platform.
    pub open spec fn spec_basename(self) -> Seq<char> {
        match self {
            Tool::EspTool => "esptool"@,
            Tool::EspSecure => "espsecure"@,
            Tool::EspEfuse => "espefuse"@,
            Tool::EspIdfNvs => "espidfnvs"@,
        }
    }

    /// The position of the tool in [`Tool::iter`]: dense, starting at 0.
    pub open spec fn spec_ordinal(self) -> nat {
        match self {
            Tool::EspTool => 0,
            Tool::EspSecure => 1,
            Tool::EspEfuse => 2,
            Tool::EspIdfNvs => 3,
        }
    }

    /// Every tool, in the order of the ordinals.
    pub open spec fn all() -> Seq<Tool> {
        seq![Tool::EspTool, Tool::EspSecure, Tool::EspEfuse, Tool::EspIdfNvs]
    }

    /// The file name of the tool on the platform: the base name, followed by
    /// `.exe` on Windows.
    pub open spec fn spec_name(self, windows: bool) -> Seq<char> {
        if windows {
            self.spec_basename() + ".exe"@
        } else {
            self.spec_basename()
        }
    }

    /// Whether a command word, in lower case already, selects the tool.
    pub open spec fn spec_keyword(self, word: Seq<char>) -> bool {
        match self {
            Tool::EspTool => word == "tool"@ || word == "flash"@,
            Tool::EspSecure => word == "secure"@,
            Tool::EspEfuse => word == "efuse"@,
            Tool::EspIdfNvs => word == "idfnvs"@,
        }
    }

    /// Whether a command word selects the tool, whatever the case of its
    /// letters.
    pub open spec fn spec_cmd_matches(self, cmd: Seq<char>) -> bool {
        self.spec_keyword(lowered(cmd))
    }

    /// The command words of the tool as they are shown to the user.
    pub open spec fn spec_cmd_description(self) -> Seq<char> {
        match self {
            Tool::EspTool => "`tool` (or `flash`)"@,
            Tool::EspSecure => "`secure`"@,
            Tool::EspEfuse => "`efuse`"@,
            Tool::EspIdfNvs => "`idfnvs`"@,
        }
    }

    /// Whether a command word selects the tool. The case of letters is ignored.
    pub fn cmd_matches(&self, cmd: &str) -> (selected: bool)
        ensures
            selected == self.spec_cmd_matches(cmd@),
    {
        let lower = to_ascii_lowercase(cmd);
        let word = lower.as_str();
        match self {
            Tool::EspTool => text_equals(word, "tool") || text_equals(word, "flash"),
            Tool::EspSecure => text_equals(word, "secure"),
            Tool::EspEfuse => text_equals(word, "efuse"),
            Tool::EspIdfNvs => text_equals(word, "idfnvs"),
        }
    }

    /// The command words of the tool as they are shown to the user.
    pub fn cmd_description(&self) -> (text: &'static str)
        ensures
            text@ == self.spec_cmd_description(),
    {
        match self {
            Tool::EspTool => "`tool` (or `flash`)",
            Tool::EspSecure => "`secure`",
            Tool::EspEfuse => "`efuse`",
            Tool::EspIdfNvs => "`idfnvs`",
        }
    }

    /// The tool that a command word selects, if it selects one.
    pub fn from_command(cmd: &str) -> (selected: Option<Tool>)
        ensures
            match selected {
                Some(tool) => tool.spec_cmd_matches(cmd@),
                None => forall|tool: Tool| !tool.spec_cmd_matches(cmd@),
            },
    {
        if Tool::EspTool.cmd_matches(cmd) {
            Some(Tool::EspTool)
        } else if Tool::EspSecure.cmd_matches(cmd) {
            Some(Tool::EspSecure)
        } else if Tool::EspEfuse.cmd_matches(cmd) {
            Some(Tool::EspEfuse)
        } else if Tool::EspIdfNvs.cmd_matches(cmd) {
            Some(Tool::EspIdfNvs)
        } else {
            None
        }
    }

    /// The stable ordinal of the tool, which indexes per-tool tables.
    pub fn ordinal(&self) -> (index: usize)
        ensures
            index == self.spec_ordinal(),
            index < Tool::all().len(),
            Tool::all()[index as int] == *self,
    {
        match self {
            Tool::EspTool => 0,
            Tool::EspSecure => 1,
            Tool::EspEfuse => 2,
            Tool::EspIdfNvs => 3,
        }
    }

    /// Return every tool once, each at the index that is its ordinal
    pub fn iter() -> (tools: Vec<Tool>)
        ensures
            tools@ == Tool::all(),
    {
        let mut tools: Vec<Tool> = Vec::new();
        tools.push(Tool::EspTool);
        tools.push(Tool::EspSecure);
        tools.push(Tool::EspEfuse);
        tools.push(Tool::EspIdfNvs);
        assert(tools@ =~= Tool::all());
        tools
    }

    /// Return the base file name of the tool
    pub fn basename(&self) -> (text: &'static str)
        ensures
            text@ == self.spec_basename(),
    {
        match self {
            Tool::EspTool => "esptool",
            Tool::EspSecure => "espsecure",
            Tool::EspEfuse => "espefuse",
            Tool::EspIdfNvs => "espidfnvs",
        }
    }

    /// Return the file name of the tool
    pub fn name(&self, windows: bool) -> (text: &'static str)
        ensures
            text@ == self.spec_name(windows),
    {
        if windows {
            proof {
                reveal_strlit(".exe");
                reveal_strlit("esptool");
                reveal_strlit("espsecure");
                reveal_strlit("espefuse");
                reveal_strlit("espidfnvs");
                reveal_strlit("esptool.exe");
                reveal_strlit("espsecure.exe");
                reveal_strlit("espefuse.exe");
                reveal_strlit("espidfnvs.exe");
            }
            let text = match self {
                Tool::EspTool => "esptool.exe",
                Tool::EspSecure => "espsecure.exe",
                Tool::EspEfuse => "espefuse.exe",
                Tool::EspIdfNvs => "espidfnvs.exe",
            };
            assert(text@ =~= self.spec_basename() + ".exe"@);
            text
        } else {
            self.basename()
        }
    }
}

/// The ordinals are dense and each names one tool: a table with one slot per
/// tool, indexed by ordinal, holds every tool exactly once.
pub proof fn lemma_ordinals_are_dense(tool: Tool, other: Tool)
    ensures
        tool.spec_ordinal() < Tool::all().len(),
        Tool::all()[tool.spec_ordinal() as int] == tool,
        tool.spec_ordinal() == other.spec_ordinal() <==> tool == other,
{
}

/// A command word selects at most one tool.
pub proof fn lemma_command_selects_one_tool(cmd: Seq<char>, tool: Tool, other: Tool)
    requires
        tool.spec_cmd_matches(cmd),
        other.spec_cmd_matches(cmd),
    ensures
        tool == other,
{
    reveal_strlit("tool");
    reveal_strlit("flash");
    reveal_strlit("secure");
    reveal_strlit("efuse");
    reveal_strlit("idfnvs");
    assert("tool"@.len() == 4 && "flash"@.len() == 5 && "efuse"@.len() == 5);
    assert("secure"@.len() == 6 && "idfnvs"@.len() == 6);
    assert("flash"@[0] == 'f' && "efuse"@[0] == 'e');
    assert("secure"@[0] == 's' && "idfnvs"@[0] == 'i');
}

/// Lower and upper case select alike: a command word selects the tools that
/// its lower-case form selects.
pub proof fn lemma_command_ignores_case(cmd: Seq<char>, tool: Tool)
    ensures
        tool.spec_cmd_matches(cmd) == tool.spec_cmd_matches(lowered(cmd)),
{
    assert(lowered(lowered(cmd)) =~= lowered(cmd));
}

} // verus!
