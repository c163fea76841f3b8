//! What the tools of the monorepo server take and give, and the decisions
//! they make before and after they run the build tool.

use vstd::prelude::*;

verus! {

/// What the `run_task` tool takes.
#[derive(Debug, PartialEq, Eq)]
pub struct RunTaskParams {
    /// The tasks to run, such as `build`, `test` or `lint`.
    pub tasks: Vec<String>,
    /// A filter that selects the packages to run the tasks for.
    pub filter: Option<String>,
    /// Whether to show what would be run and run nothing.
    pub dry_run: bool,
}

/// What the `get_task_config` tool takes.
#[derive(Debug, PartialEq, Eq)]
pub struct GetTaskConfigParams {
    /// The name of the task whose configuration is asked for.
    pub task: String,
}

/// What the `set_workdir` tool takes.
#[derive(Debug, PartialEq, Eq)]
pub struct SetWorkdirParams {
    /// The path to make the working directory.
    pub path: String,
}

/// A task of the monorepo and what its configuration says of it.
#[derive(Debug, PartialEq, Eq)]
pub struct TaskInfo {
    pub name: String,
    pub depends_on: Option<Vec<String>>,
    pub inputs: Option<Vec<String>>,
    pub outputs: Option<Vec<String>>,
    pub cache: Option<bool>,
    pub persistent: Option<bool>,
}

/// A package of the monorepo.
#[derive(Debug, PartialEq, Eq)]
pub struct PackageInfo {
    pub name: String,
    pub path: String,
    pub scripts: Option<Vec<String>>,
}

/// Whose fault a failed tool call is.
#[derive(Clone, Copy, Debug, PartialEq, Eq, Structural)]
pub enum ToolErrorKind {
    /// The caller asked for something that cannot be done.
    InvalidRequest,
    /// The server could not do what was asked.
    InternalError,
}

/// A failed tool call: whose fault it is, and the text for the caller.
#[derive(Debug, PartialEq, Eq)]
pub struct ToolError {
    pub kind: ToolErrorKind,
    pub message: String,
}

/// [`ToolError`] as a mathematical value.
pub struct ToolErrorView {
    pub kind: ToolErrorKind,
    pub message: Seq<char>,
}

impl View for ToolError {
    type V = ToolErrorView;

    open spec fn view(&self) -> ToolErrorView {
        ToolErrorView { kind: self.kind, message: self.message@ }
    }
}

/// A request that cannot be done, with the reason.
pub open spec fn invalid_request(message: Seq<char>) -> ToolErrorView {
    ToolErrorView { kind: ToolErrorKind::InvalidRequest, message }
}

/// Something the server could not do, with the reason.
pub open spec fn internal_error(message: Seq<char>) -> ToolErrorView {
    ToolErrorView { kind: ToolErrorKind::InternalError, message }
}

impl ToolError {
    /// An error of the given kind whose text is `head` followed by `detail`.
    pub fn prefixed(kind: ToolErrorKind, head: &str, detail: &str) -> (error: ToolError)
        ensures
            error@ == (ToolErrorView { kind, message: head@ + detail@ }),
    {
        let mut message = String::from_str(head);
        message.append(detail);
        ToolError { kind, message }
    }

    /// An error of the given kind whose text is `detail` between `head` and
    /// `tail`.
    pub fn enclosed(kind: ToolErrorKind, head: &str, detail: &str, tail: &str) -> (error:
        ToolError)
        ensures
            error@ == (ToolErrorView { kind, message: head@ + detail@ + tail@ }),
    {
        let mut message = String::from_str(head);
        message.append(detail);
        message.append(tail);
        ToolError { kind, message }
    }
}

/// The arguments that run the given tasks: `run`, the tasks in their order,
/// then the filter if there is one, then the dry-run flag if it is set.
pub open spec fn run_arguments(
    tasks: Seq<Seq<char>>,
    filter: Option<Seq<char>>,
    dry_run: bool,
) -> Seq<Seq<char>> {
    seq!["run"@] + tasks + (match filter {
        Some(filter) => seq!["--filter"@, filter],
        None => Seq::empty(),
    }) + (if dry_run {
        seq!["--dry-run"@]
    } else {
        Seq::empty()
    })
}

/// The view of a list of arguments or an error.
pub open spec fn arguments_view(r: Result<Vec<String>, ToolError>) -> Result<
    Seq<Seq<char>>,
    ToolErrorView,
> {
    match r {
        Ok(arguments) => Ok(arguments.deep_view()),
        Err(error) => Err(error@),
    }
}

/// The arguments to hand to the build tool for a `run_task` call. A call
/// that names no task is refused.
pub fn run_task_arguments(params: &RunTaskParams) -> (arguments: Result<Vec<String>, ToolError>)
    ensures
        arguments_view(arguments) == if params.tasks.len() == 0 {
            Err::<Seq<Seq<char>>, ToolErrorView>(invalid_request("No tasks specified"@))
        } else {
            Ok(run_arguments(params.tasks.deep_view(), params.filter.deep_view(), params.dry_run))
        },
{
    if params.tasks.len() == 0 {
        return Err(
            ToolError {
                kind: ToolErrorKind::InvalidRequest,
                message: String::from_str("No tasks specified"),
            },
        );
    }
    let mut arguments: Vec<String> = Vec::new();
    arguments.push(String::from_str("run"));
    assert(arguments.deep_view() =~= seq!["run"@] + params.tasks.deep_view().take(0));
    let mut i: usize = 0;
    while i < params.tasks.len()
        invariant
            i <= params.tasks.len(),
            arguments.deep_view() == seq!["run"@] + params.tasks.deep_view().take(i as int),
        decreases params.tasks.len() - i,
    {
        let ghost before = arguments.deep_view();
        arguments.push(params.tasks[i].clone());
        assert(arguments.deep_view() =~= before.push(params.tasks[i as int]@));
        assert(params.tasks.deep_view().take(i + 1) =~= params.tasks.deep_view().take(
            i as int,
        ).push(params.tasks[i as int]@));
        assert(arguments.deep_view() =~= seq!["run"@] + params.tasks.deep_view().take(i + 1));
        i += 1;
    }
    assert(params.tasks.deep_view().take(i as int) =~= params.tasks.deep_view());
    let ghost listed = arguments.deep_view();
    match &params.filter {
        Some(filter) => {
            arguments.push(String::from_str("--filter"));
            arguments.push(filter.clone());
            assert(arguments.deep_view() =~= listed + seq!["--filter"@, filter@]);
        },
        None => {
            assert(arguments.deep_view() =~= listed + Seq::<Seq<char>>::empty());
        },
    }
    let ghost filtered = arguments.deep_view();
    if params.dry_run {
        arguments.push(String::from_str("--dry-run"));
        assert(arguments.deep_view() =~= filtered + seq!["--dry-run"@]);
    } else {
        assert(arguments.deep_view() =~= filtered + Seq::<Seq<char>>::empty());
    }
    Ok(arguments)
}

/// Why a path cannot be the working directory, if it cannot: it has to
/// exist, and to be a directory. `shown` is the path as the caller is to see
/// it.
pub open spec fn workdir_objection(exists: bool, is_dir: bool, shown: Seq<char>) -> Option<
    ToolErrorView,
> {
    if !exists {
        Some(invalid_request("Path does not exist: "@ + shown))
    } else if !is_dir {
        Some(invalid_request("Path is not a directory: "@ + shown))
    } else {
        None
    }
}

/// The view of an error, if there is one.
pub open spec fn objection_view(r: Option<ToolError>) -> Option<ToolErrorView> {
    match r {
        Some(error) => Some(error@),
        None => None,
    }
}

/// Decides whether a path can be the working directory, given what the file
/// system says of it.
pub fn check_workdir(exists: bool, is_dir: bool, shown: &str) -> (objection: Option<ToolError>)
    ensures
        objection_view(objection) == workdir_objection(exists, is_dir, shown@),
{
    if !exists {
        Some(ToolError::prefixed(ToolErrorKind::InvalidRequest, "Path does not exist: ", shown))
    } else if !is_dir {
        Some(
            ToolError::prefixed(ToolErrorKind::InvalidRequest, "Path is not a directory: ", shown),
        )
    } else {
        None
    }
}

} // verus!
