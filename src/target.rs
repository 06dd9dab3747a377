//! Resolution of the backend to launch, from the build mode and what was
//! found on disk.

use vstd::prelude::*;

verus! {

/// Interpreter of the project's virtual environment, relative to the working
/// directory of a development run.
pub const LOCAL_INTERPRETER: &'static str = "../../../.venv/bin/python";

/// Interpreter looked up on the system search path when the project has none.
pub const SYSTEM_INTERPRETER: &'static str = "python3";

/// Entry script of the backend, handed to the interpreter in development runs.
pub const BACKEND_SCRIPT: &'static str = "../../backend/run_backend.py";

/// The working directory, as a directory path: it stands for an empty
/// executable directory, so that the sidecar is never taken for a bare name.
pub const CURRENT_DIR: &'static str = ".";

/// File name of the self-contained backend binary shipped beside the
/// application's executable.
pub const SIDECAR_NAME: &'static str = "pi-backend";

/// What the resolver knows of its surroundings. The variant is the build mode.
#[derive(Clone, Debug, PartialEq, Eq)]
pub enum Environment {
    /// A development build; whether the project-local interpreter exists.
    Development { local_interpreter_present: bool },
    /// A packaged build; the directory that holds the running executable.
    Packaged { exe_dir: String },
}

/// The executable part of a target, by how the operating system finds it.
#[derive(Clone, Debug, PartialEq, Eq)]
pub enum Program {
    /// A path taken relative to the working directory.
    ProjectRelative(String),
    /// A bare name looked up on the system search path.
    SearchPath(String),
    /// A file inside a given directory.
    InDirectory { dir: String, file: String },
}

/// Mathematical model of a `Program`.
pub enum ProgramModel {
    ProjectRelative(Seq<char>),
    SearchPath(Seq<char>),
    InDirectory { dir: Seq<char>, file: Seq<char> },
}

impl View for Program {
    type V = ProgramModel;

    open spec fn view(&self) -> ProgramModel {
        match self {
            Program::ProjectRelative(p) => ProgramModel::ProjectRelative(p@),
            Program::SearchPath(n) => ProgramModel::SearchPath(n@),
            Program::InDirectory { dir, file } => ProgramModel::InDirectory { dir: dir@, file: file@ },
        }
    }
}

/// A resolved description of what to execute: a program and its arguments.
#[derive(Clone, Debug, PartialEq, Eq)]
pub struct BackendTarget {
    pub program: Program,
    pub args: Vec<String>,
}

/// Mathematical model of a `BackendTarget`.
pub struct TargetModel {
    pub program: ProgramModel,
    pub args: Seq<Seq<char>>,
}

impl View for BackendTarget {
    type V = TargetModel;

    open spec fn view(&self) -> TargetModel {
        TargetModel { program: self.program@, args: self.args@.map_values(|a: String| a@) }
    }
}

/// The target of a development run: the project's interpreter where it
/// exists, else the system's, always with the backend's entry script.
pub open spec fn development_target(local_interpreter_present: bool) -> TargetModel {
    TargetModel {
        program: if local_interpreter_present {
            ProgramModel::ProjectRelative(LOCAL_INTERPRETER@)
        } else {
            ProgramModel::SearchPath(SYSTEM_INTERPRETER@)
        },
        args: seq![BACKEND_SCRIPT@],
    }
}

/// The directory named by `exe_dir`: the working directory, written `.`,
/// where the text is empty.
pub open spec fn directory_path(exe_dir: Seq<char>) -> Seq<char> {
    if exe_dir.len() == 0 {
        CURRENT_DIR@
    } else {
        exe_dir
    }
}

/// The target of a packaged run: the sidecar binary in the executable's
/// directory, with no arguments.
pub open spec fn packaged_target(exe_dir: Seq<char>) -> TargetModel {
    TargetModel {
        program: ProgramModel::InDirectory { dir: directory_path(exe_dir), file: SIDECAR_NAME@ },
        args: Seq::empty(),
    }
}

/// The target that an environment resolves to.
pub open spec fn resolved(env: Environment) -> TargetModel {
    match env {
        Environment::Development { local_interpreter_present } => development_target(
            local_interpreter_present,
        ),
        Environment::Packaged { exe_dir } => packaged_target(exe_dir@),
    }
}

/// Resolves the target of a development run.
pub fn resolve_development(local_interpreter_present: bool) -> (t: BackendTarget)
    ensures
        t@ == development_target(local_interpreter_present),
{
    let program = if local_interpreter_present {
        Program::ProjectRelative(LOCAL_INTERPRETER.to_owned())
    } else {
        Program::SearchPath(SYSTEM_INTERPRETER.to_owned())
    };
    let args = vec![BACKEND_SCRIPT.to_owned()];
    let t = BackendTarget { program, args };
    assert(t@.args =~= seq![BACKEND_SCRIPT@]);
    t
}

/// Resolves the target of a packaged run whose executable lies in `exe_dir`.
pub fn resolve_packaged(exe_dir: &str) -> (t: BackendTarget)
    ensures
        t@ == packaged_target(exe_dir@),
{
    let dir = if exe_dir.is_empty() {
        CURRENT_DIR.to_owned()
    } else {
        exe_dir.to_owned()
    };
    let t = BackendTarget {
        program: Program::InDirectory { dir, file: SIDECAR_NAME.to_owned() },
        args: Vec::new(),
    };
    assert(t@.args =~= Seq::<Seq<char>>::empty());
    t
}

/// Resolves the target for an environment. Resolution always yields a
/// target; whether its program exists is left to the launch.
pub fn resolve(env: &Environment) -> (t: BackendTarget)
    ensures
        t@ == resolved(*env),
{
    match env {
        Environment::Development { local_interpreter_present } => resolve_development(
            *local_interpreter_present,
        ),
        Environment::Packaged { exe_dir } => resolve_packaged(exe_dir.as_str()),
    }
}

/// What `std::path::Path::parent` gives for a path: the path without its
/// final component, or `None` where it ends in a root or prefix or is empty.
pub uninterp spec fn parent_of(path: Seq<char>) -> Option<Seq<char>>;

/// A relative path of a single component: no separator and no drive prefix.
pub open spec fn is_single_component(path: Seq<char>) -> bool {
    &&& path.len() > 0
    &&& forall|i: int| 0 <= i < path.len() ==> path[i] != '/' && path[i] != '\\' && path[i] != ':'
}

/// Relies on `std::path::Path::parent`: its result depends on the path alone,
/// is a leading part of the path's text, is `None` for the empty path, and is
/// the empty path for a relative path of one component.
#[verifier::external_body]
fn path_parent(path: &str) -> (r: Option<String>)
    ensures
        r matches Some(d) ==> parent_of(path@) == Some(d@) && d@.len() <= path@.len() && d@
            == path@.subrange(0, d@.len() as int),
        r is None ==> parent_of(path@) is None,
        path@.len() == 0 ==> r is None,
        is_single_component(path@) ==> r is Some && r->0@.len() == 0,
{
    match std::path::Path::new(path).parent() {
        Some(d) => Some(d.to_string_lossy().into_owned()),
        None => None,
    }
}

/// The directory that holds the executable at `exe_path`: its parent path,
/// which is a leading part of its text, or `None` where it has no parent.
pub fn executable_dir(exe_path: &str) -> (r: Option<String>)
    ensures
        r matches Some(d) ==> parent_of(exe_path@) == Some(d@) && d@.len() <= exe_path@.len() && d@
            == exe_path@.subrange(0, d@.len() as int),
        r is None ==> parent_of(exe_path@) is None,
        exe_path@.len() == 0 ==> r is None,
        is_single_component(exe_path@) ==> r is Some && r->0@.len() == 0,
{
    path_parent(exe_path)
}

/// In every development run the project-local interpreter is chosen exactly
/// when it exists, and the system interpreter exactly when it does not; the
/// entry script is passed either way.
pub proof fn lemma_local_interpreter_preferred(env: Environment)
    requires
        env is Development,
    ensures
        env->local_interpreter_present ==> resolved(env).program == ProgramModel::ProjectRelative(
            LOCAL_INTERPRETER@,
        ),
        !env->local_interpreter_present ==> resolved(env).program == ProgramModel::SearchPath(
            SYSTEM_INTERPRETER@,
        ),
        resolved(env).args == seq![BACKEND_SCRIPT@],
{
}

/// In every packaged run the program is the sidecar inside the directory of
/// the running executable, a directory path that is never empty: never a name
/// on the search path, never a path relative to the working directory, and it
/// gets no arguments.
pub proof fn lemma_sidecar_beside_executable(env: Environment)
    requires
        env is Packaged,
    ensures
        resolved(env).program == (ProgramModel::InDirectory {
            dir: directory_path(env->exe_dir@),
            file: SIDECAR_NAME@,
        }),
        directory_path(env->exe_dir@).len() > 0,
        env->exe_dir@.len() > 0 ==> directory_path(env->exe_dir@) == env->exe_dir@,
        !(resolved(env).program is SearchPath),
        !(resolved(env).program is ProjectRelative),
        resolved(env).args.len() == 0,
{
    reveal_strlit(".");
}

} // verus!
