//! Reading the configuration of a monorepo: the tasks that `turbo.json`
//! defines, and the workspaces that `package.json` lists.

use vstd::prelude::*;
use crate::json::{
    elements, json_parse, json_tree, json_trees, lookup, member, member_names, parse_document,
    JsonTree,
};
use crate::jsonc::{strip_json_comments, stripped};
use crate::tools::{internal_error, invalid_request, ToolError, ToolErrorKind, ToolErrorView};

verus! {

/// The two files that may hold the configuration of a monorepo.
#[derive(Clone, Copy, Debug, PartialEq, Eq, Structural)]
pub enum ConfigFile {
    /// `turbo.json`
    Json,
    /// `turbo.jsonc`
    Jsonc,
}

impl ConfigFile {
    /// The name of the file.
    pub open spec fn name(self) -> Seq<char> {
        match self {
            ConfigFile::Json => "turbo.json"@,
            ConfigFile::Jsonc => "turbo.jsonc"@,
        }
    }

    /// The name of the file.
    pub fn file_name(self) -> (name: &'static str)
        ensures
            name@ == self.name(),
    {
        match self {
            ConfigFile::Json => "turbo.json",
            ConfigFile::Jsonc => "turbo.jsonc",
        }
    }
}

/// Which of the two files configures a directory, given which of them it
/// holds: `turbo.json` where it is there, else `turbo.jsonc` where that is
/// there, else neither.
pub fn choose_config_file(has_json: bool, has_jsonc: bool) -> (chosen: Option<ConfigFile>)
    ensures
        chosen == if has_json {
            Some(ConfigFile::Json)
        } else if has_jsonc {
            Some(ConfigFile::Jsonc)
        } else {
            None
        },
{
    if has_json {
        Some(ConfigFile::Json)
    } else if has_jsonc {
        Some(ConfigFile::Jsonc)
    } else {
        None
    }
}

/// What a configuration text parses to once its comments are removed: the
/// tree of the document, or the parser's text for what is wrong with it.
pub open spec fn config_of(text: Seq<char>) -> Result<JsonTree, Seq<char>> {
    json_parse(vstd::utf8::encode_utf8(stripped(text)))
}

/// Parses the text of a `turbo.json`, which may hold comments.
pub fn read_config(text: &str) -> (config: Result<serde_json::Value, ToolError>)
    ensures
        match config {
            Ok(document) => config_of(text@) == Ok::<JsonTree, Seq<char>>(json_tree(document)),
            Err(error) => config_of(text@) is Err && error@ == internal_error(
                "Failed to parse turbo.json: "@ + config_of(text@)->Err_0,
            ),
        },
{
    let plain = strip_json_comments(text);
    match parse_document(plain.as_str().as_bytes()) {
        Ok(document) => Ok(document),
        Err(cause) => Err(
            ToolError::prefixed(
                ToolErrorKind::InternalError,
                "Failed to parse turbo.json: ",
                cause.as_str(),
            ),
        ),
    }
}

/// The table of tasks of a configuration: its member `tasks`, or, where it
/// has none, its member `pipeline`, as older configurations call it.
pub open spec fn task_table(config: JsonTree) -> Option<JsonTree> {
    if config.has_member("tasks"@) {
        Some(config.member("tasks"@))
    } else if config.has_member("pipeline"@) {
        Some(config.member("pipeline"@))
    } else {
        None
    }
}

/// The names of the tasks that a configuration defines. A table that is no
/// object defines none.
pub open spec fn task_name_set(config: JsonTree) -> Set<Seq<char>> {
    match task_table(config) {
        Some(table) => match table.member_names() {
            Some(names) => names,
            None => Set::empty(),
        },
        None => Set::empty(),
    }
}

/// The configuration of one task, if the configuration defines the task.
pub open spec fn task_config(config: JsonTree, task: Seq<char>) -> Option<JsonTree> {
    match task_table(config) {
        Some(table) => if table.has_member(task) {
            Some(table.member(task))
        } else {
            None
        },
        None => None,
    }
}

/// The error for a task that the configuration does not define.
pub open spec fn task_not_found(task: Seq<char>) -> ToolErrorView {
    invalid_request("Task '"@ + task + "' not found"@)
}

/// The workspaces that a `package.json` lists: its member `workspaces` where
/// that is an array, else the member `packages` of that member where that is
/// an array, else none.
pub open spec fn workspaces(package: JsonTree) -> Seq<JsonTree> {
    let listed = package.member("workspaces"@);
    match listed.elements() {
        Some(patterns) => patterns,
        None => match listed.member("packages"@).elements() {
            Some(patterns) => patterns,
            None => Seq::empty(),
        },
    }
}

/// The table of tasks of a configuration.
fn find_task_table<'a>(config: &'a serde_json::Value) -> (table: Option<&'a serde_json::Value>)
    ensures
        match table {
            Some(table) => task_table(json_tree(*config)) == Some(json_tree(*table)),
            None => task_table(json_tree(*config)) is None,
        },
{
    match lookup(config, "tasks") {
        Some(table) => Some(table),
        None => lookup(config, "pipeline"),
    }
}

/// The names of the tasks that a configuration defines, each once. Their
/// order is that in which the parser keeps them.
pub fn task_names(config: &serde_json::Value) -> (names: Vec<String>)
    ensures
        names.deep_view().to_set() == task_name_set(json_tree(*config)),
        names.deep_view().no_duplicates(),
{
    let found = match find_task_table(config) {
        Some(table) => member_names(table),
        None => None,
    };
    match found {
        Some(names) => names,
        None => {
            let names: Vec<String> = Vec::new();
            assert(names.deep_view() =~= Seq::<Seq<char>>::empty());
            assert(names.deep_view().to_set() =~= Set::<Seq<char>>::empty());
            names
        },
    }
}

/// The configuration of the task `task`, or the error that says the
/// configuration defines no such task.
pub fn find_task_config<'a>(config: &'a serde_json::Value, task: &str) -> (found: Result<
    &'a serde_json::Value,
    ToolError,
>)
    ensures
        match found {
            Ok(found) => task_config(json_tree(*config), task@) == Some(json_tree(*found)),
            Err(error) => task_config(json_tree(*config), task@) is None && error@
                == task_not_found(task@),
        },
{
    let found = match find_task_table(config) {
        Some(table) => lookup(table, task),
        None => None,
    };
    match found {
        Some(found) => Ok(found),
        None => Err(
            ToolError::enclosed(ToolErrorKind::InvalidRequest, "Task '", task, "' not found"),
        ),
    }
}

/// The trees of the documents of a list, where there is one.
pub open spec fn listed_trees(patterns: Option<&Vec<serde_json::Value>>) -> Seq<JsonTree> {
    match patterns {
        Some(patterns) => json_trees(patterns@),
        None => Seq::empty(),
    }
}

/// The workspaces that a parsed `package.json` lists; nothing stands for
/// none.
pub fn workspace_patterns<'a>(package: &'a serde_json::Value) -> (patterns: Option<
    &'a Vec<serde_json::Value>,
>)
    ensures
        listed_trees(patterns) == workspaces(json_tree(*package)),
{
    let listed = member(package, "workspaces");
    match elements(listed) {
        Some(patterns) => Some(patterns),
        None => elements(member(listed, "packages")),
    }
}

} // verus!
