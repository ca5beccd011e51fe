use vstd::prelude::*;
use crate::paths::{join_path, lies_in, plain_name, verbatim_like};

verus! {

/// The arguments of one run, once validated.
pub struct RunConfig {
    pub input_apk: String,
    pub output_apk: String,
    pub cert: Option<String>,
    pub key: Option<String>,
}

/// Why a run is refused before any work starts.
#[derive(PartialEq, Eq, Structural, Clone, Copy, Debug)]
pub enum ValidationError {
    /// The input APK does not exist or is not a regular file.
    InputMissing,
    /// Only one of the certificate and the key was given.
    UnpairedCredentials,
}

/// The output path of a run: the one given, else the input path itself.
pub open spec fn output_or_input(output_apk: Option<String>, input_apk: String) -> String {
    match output_apk {
        Some(o) => o,
        None => input_apk,
    }
}

/// Checks the arguments of a run. `input_is_file` is whether the input APK path
/// names an existing regular file.
pub fn validate_run(
    input_apk: String,
    input_is_file: bool,
    output_apk: Option<String>,
    cert: Option<String>,
    key: Option<String>,
) -> (r: Result<RunConfig, ValidationError>)
    ensures
        !input_is_file ==> r == Err::<RunConfig, ValidationError>(ValidationError::InputMissing),
        input_is_file && cert.is_some() != key.is_some() ==> r == Err::<RunConfig, ValidationError>(
            ValidationError::UnpairedCredentials,
        ),
        input_is_file && cert.is_some() == key.is_some() ==> (r matches Ok(c) && c.input_apk == input_apk
            && c.output_apk == output_or_input(output_apk, input_apk) && c.cert == cert && c.key == key),
{
    if !input_is_file {
        return Err(ValidationError::InputMissing);
    }
    if cert.is_some() != key.is_some() {
        return Err(ValidationError::UnpairedCredentials);
    }
    let output_apk = match output_apk {
        Some(o) => o,
        None => input_apk.clone(),
    };
    Ok(RunConfig { input_apk, output_apk, cert, key })
}

/// The stages of a run, in the only order in which they are entered.
#[derive(PartialEq, Eq, Structural, Clone, Copy, Debug)]
pub enum Stage {
    StageWorkspace,
    WriteUnpackAssets,
    ResolveForUnpack,
    Unpack,
    AwaitOperator,
    Repack,
    CleanUnpackAssets,
    WriteSignAssets,
    ResolveForSign,
    Sign,
    CleanSignAssets,
    Publish,
    Teardown,
    Done,
}

/// The position of a stage in the run.
pub open spec fn rank(s: Stage) -> nat {
    match s {
        Stage::StageWorkspace => 0,
        Stage::WriteUnpackAssets => 1,
        Stage::ResolveForUnpack => 2,
        Stage::Unpack => 3,
        Stage::AwaitOperator => 4,
        Stage::Repack => 5,
        Stage::CleanUnpackAssets => 6,
        Stage::WriteSignAssets => 7,
        Stage::ResolveForSign => 8,
        Stage::Sign => 9,
        Stage::CleanSignAssets => 10,
        Stage::Publish => 11,
        Stage::Teardown => 12,
        Stage::Done => 13,
    }
}

/// What went wrong in a failed stage.
#[derive(PartialEq, Eq, Structural, Clone, Copy, Debug)]
pub enum FailureKind {
    /// A directory or a file could not be created or written.
    Allocation,
    /// No runtime executable was found; nothing was started.
    Resolution,
    /// The runtime could not be started.
    Spawn,
    /// The external tool ended with this exit code (`None`: ended by a signal).
    ToolExit(Option<i32>),
    /// The operator's confirmation could not be read.
    Console,
    /// The signed APK could not be copied to the output path.
    Copy,
}

/// The first failure of a run, and the stage where it happened.
#[derive(PartialEq, Eq, Structural, Clone, Copy, Debug)]
pub struct Failure {
    pub stage: Stage,
    pub kind: FailureKind,
}

/// The three invocations of the external tools.
#[derive(PartialEq, Eq, Structural, Clone, Copy, Debug)]
pub enum ToolCall {
    /// Decode the input APK into the unpacked directory.
    Decode,
    /// Encode the unpacked directory into the intermediate APK.
    Encode,
    /// Sign the intermediate APK in place.
    Sign,
}

/// What the driver of a run is asked to do next.
#[derive(PartialEq, Eq, Structural, Clone, Copy, Debug)]
pub enum Action {
    /// Create a fresh workspace directory and report its path.
    CreateWorkspace,
    /// Write the decode/encode tool archive to its workspace path.
    WriteDecodeTool,
    /// Locate the runtime executable.
    ResolveRuntime,
    /// Run the runtime on a tool archive with the arguments of this call.
    RunTool(ToolCall),
    /// Show the unpacked directory and wait for one line from the console.
    AwaitOperator,
    /// Remove the decode/encode tool archive and the unpacked directory.
    CleanUnpackAssets,
    /// Write the signing tool archive, and the debug credentials flagged here.
    WriteSignAssets { debug_cert: bool, debug_key: bool },
    /// Remove the signing tool archive, and the debug credentials flagged here.
    CleanSignAssets { debug_cert: bool, debug_key: bool },
    /// Copy the intermediate APK to the output path, replacing what is there.
    Publish,
    /// Remove the workspace and everything in it.
    Teardown,
    /// The run is over: it succeeded exactly when there is no failure.
    Finish(Option<Failure>),
}

/// What came of the last action.
pub enum Outcome {
    /// The action succeeded.
    Completed,
    /// The action failed.
    Failed,
    /// The workspace was created at this path.
    WorkspaceCreated(String),
    /// The runtime executable is at this path.
    RuntimeFound(String),
    /// No runtime executable was found.
    RuntimeMissing,
    /// The tool ran and ended with this exit code (`None`: ended by a signal).
    Exited(Option<i32>),
    /// The runtime could not be started.
    SpawnFailed,
}

/// The failure that a tool invocation's outcome stands for, if any.
pub open spec fn tool_failure(o: Outcome) -> Option<FailureKind> {
    match o {
        Outcome::Exited(Some(0i32)) => None,
        Outcome::Exited(c) => Some(FailureKind::ToolExit(c)),
        _ => Some(FailureKind::Spawn),
    }
}

/// The failure that an outcome raises in stage `s`, if any. Cleanup stages
/// raise none: a cleanup that fails does not mask the result of the run.
pub open spec fn raised(s: Stage, o: Outcome) -> Option<FailureKind> {
    match s {
        Stage::StageWorkspace => if o is WorkspaceCreated { None } else { Some(FailureKind::Allocation) },
        Stage::WriteUnpackAssets | Stage::WriteSignAssets => if o is Completed { None } else { Some(FailureKind::Allocation) },
        Stage::ResolveForUnpack | Stage::ResolveForSign => if o is RuntimeFound { None } else { Some(FailureKind::Resolution) },
        Stage::Unpack | Stage::Repack | Stage::Sign => tool_failure(o),
        Stage::AwaitOperator => if o is Completed { None } else { Some(FailureKind::Console) },
        Stage::Publish => if o is Completed { None } else { Some(FailureKind::Copy) },
        _ => None,
    }
}

/// The stage that follows `s` on outcome `o`; `failed` is whether the run had
/// already failed before this step.
pub open spec fn next_stage(s: Stage, failed: bool, o: Outcome) -> Stage {
    let bad = raised(s, o) is Some;
    match s {
        Stage::StageWorkspace => if bad { Stage::Done } else { Stage::WriteUnpackAssets },
        Stage::WriteUnpackAssets => if bad { Stage::CleanUnpackAssets } else { Stage::ResolveForUnpack },
        Stage::ResolveForUnpack => if bad { Stage::CleanUnpackAssets } else { Stage::Unpack },
        Stage::Unpack => if bad { Stage::CleanUnpackAssets } else { Stage::AwaitOperator },
        Stage::AwaitOperator => if bad { Stage::CleanUnpackAssets } else { Stage::Repack },
        Stage::Repack => Stage::CleanUnpackAssets,
        Stage::CleanUnpackAssets => if failed { Stage::Teardown } else { Stage::WriteSignAssets },
        Stage::WriteSignAssets => if bad { Stage::CleanSignAssets } else { Stage::ResolveForSign },
        Stage::ResolveForSign => if bad { Stage::CleanSignAssets } else { Stage::Sign },
        Stage::Sign => Stage::CleanSignAssets,
        Stage::CleanSignAssets => if failed { Stage::Teardown } else { Stage::Publish },
        Stage::Publish => Stage::Teardown,
        Stage::Teardown => Stage::Done,
        Stage::Done => Stage::Done,
    }
}

/// The first failure of the run after a step: an earlier one is kept.
pub open spec fn next_failure(s: Stage, f: Option<Failure>, o: Outcome) -> Option<Failure> {
    match f {
        Some(f) => Some(f),
        None => match raised(s, o) {
            Some(k) => Some(Failure { stage: s, kind: k }),
            None => None,
        },
    }
}

/// The action asked for in stage `s`; `cert_given` and `key_given` say whether
/// the operator supplied a certificate and a key.
pub open spec fn action_of(s: Stage, f: Option<Failure>, cert_given: bool, key_given: bool) -> Action {
    match s {
        Stage::StageWorkspace => Action::CreateWorkspace,
        Stage::WriteUnpackAssets => Action::WriteDecodeTool,
        Stage::ResolveForUnpack | Stage::ResolveForSign => Action::ResolveRuntime,
        Stage::Unpack => Action::RunTool(ToolCall::Decode),
        Stage::AwaitOperator => Action::AwaitOperator,
        Stage::Repack => Action::RunTool(ToolCall::Encode),
        Stage::CleanUnpackAssets => Action::CleanUnpackAssets,
        Stage::WriteSignAssets => Action::WriteSignAssets { debug_cert: !cert_given, debug_key: !key_given },
        Stage::Sign => Action::RunTool(ToolCall::Sign),
        Stage::CleanSignAssets => Action::CleanSignAssets { debug_cert: !cert_given, debug_key: !key_given },
        Stage::Publish => Action::Publish,
        Stage::Teardown => Action::Teardown,
        Stage::Done => Action::Finish(f),
    }
}

/// The files and directories of a run inside its workspace.
pub struct Layout {
    pub workspace: String,
    pub decode_tool: String,
    pub sign_tool: String,
    pub unpacked: String,
    pub intermediate: String,
    pub debug_cert: String,
    pub debug_key: String,
}

impl Layout {
    /// Every path of the layout lies directly below the workspace, under its own
    /// name, where the workspace has no verbatim prefix.
    pub open spec fn valid(&self) -> bool {
        !verbatim_like(self.workspace@) ==> self.in_workspace()
    }

    /// Every path of the layout lies directly below the workspace, under its own name.
    pub open spec fn in_workspace(&self) -> bool {
        &&& lies_in(self.decode_tool@, self.workspace@, "apktool.jar"@)
        &&& lies_in(self.sign_tool@, self.workspace@, "apksigner.jar"@)
        &&& lies_in(self.unpacked@, self.workspace@, "unpacked"@)
        &&& lies_in(self.intermediate@, self.workspace@, "intermediate.apk"@)
        &&& lies_in(self.debug_cert@, self.workspace@, "debug_cert.crt"@)
        &&& lies_in(self.debug_key@, self.workspace@, "debug_key.pk8"@)
    }

    /// The layout of a run whose workspace is `workspace`.
    pub fn new(workspace: String) -> (r: Layout)
        ensures
            r.workspace == workspace,
            r.valid(),
    {
        proof {
            reveal_strlit("apktool.jar");
            reveal_strlit("apksigner.jar");
            reveal_strlit("unpacked");
            reveal_strlit("intermediate.apk");
            reveal_strlit("debug_cert.crt");
            reveal_strlit("debug_key.pk8");
        }
        assert(plain_name("apktool.jar"@));
        assert(plain_name("apksigner.jar"@));
        assert(plain_name("unpacked"@));
        assert(plain_name("intermediate.apk"@));
        assert(plain_name("debug_cert.crt"@));
        assert(plain_name("debug_key.pk8"@));
        let decode_tool = join_path(workspace.as_str(), "apktool.jar");
        let sign_tool = join_path(workspace.as_str(), "apksigner.jar");
        let unpacked = join_path(workspace.as_str(), "unpacked");
        let intermediate = join_path(workspace.as_str(), "intermediate.apk");
        let debug_cert = join_path(workspace.as_str(), "debug_cert.crt");
        let debug_key = join_path(workspace.as_str(), "debug_key.pk8");
        Layout { workspace, decode_tool, sign_tool, unpacked, intermediate, debug_cert, debug_key }
    }
}

/// The stages in which a run that has failed can stand: the cleanups and the end.
pub open spec fn after_failure(s: Stage) -> bool {
    s == Stage::CleanUnpackAssets || s == Stage::CleanSignAssets || s == Stage::Teardown || s == Stage::Done
}

/// The stages that run the external tool with a resolved runtime.
pub open spec fn needs_runtime(s: Stage) -> bool {
    s == Stage::Unpack || s == Stage::AwaitOperator || s == Stage::Repack || s == Stage::Sign
}

/// One run of the pipeline, driven from outside: the driver performs
/// `action()`, then hands what came of it to `advance`.
pub struct Pipeline {
    config: RunConfig,
    stage: Stage,
    failure: Option<Failure>,
    layout: Option<Layout>,
    runtime: Option<String>,
}

impl Pipeline {
    /// The validated arguments of the run.
    pub closed spec fn spec_config(&self) -> RunConfig {
        self.config
    }

    /// The stage the run stands in.
    pub closed spec fn spec_stage(&self) -> Stage {
        self.stage
    }

    /// The first failure of the run, if any.
    pub closed spec fn spec_failure(&self) -> Option<Failure> {
        self.failure
    }

    /// The workspace layout, once the workspace exists.
    pub closed spec fn spec_layout(&self) -> Option<Layout> {
        self.layout
    }

    /// The runtime resolved last, if any.
    pub closed spec fn spec_runtime(&self) -> Option<String> {
        self.runtime
    }

    /// Whether the operator supplied a certificate and a key.
    pub open spec fn credentials_given(&self) -> (bool, bool) {
        (self.spec_config().cert is Some, self.spec_config().key is Some)
    }

    /// The action asked for in the current state.
    pub open spec fn spec_action(&self) -> Action {
        action_of(self.spec_stage(), self.spec_failure(), self.credentials_given().0, self.credentials_given().1)
    }

    /// Between the creation of the workspace and its removal the layout exists;
    /// the tool stages have a runtime; a failed run stands only in a cleanup
    /// stage or at the end.
    pub closed spec fn wf(&self) -> bool {
        &&& (1 <= rank(self.stage) <= 12 ==> self.layout is Some)
        &&& (self.layout matches Some(l) ==> l.valid())
        &&& (needs_runtime(self.stage) ==> self.runtime is Some)
        &&& (self.failure is Some ==> after_failure(self.stage))
    }

    /// A run of `config` that has not started yet.
    pub fn new(config: RunConfig) -> (r: Pipeline)
        ensures
            r.wf(),
            r.spec_config() == config,
            r.spec_stage() == Stage::StageWorkspace,
            r.spec_failure() is None,
            r.spec_layout() is None,
            r.spec_runtime() is None,
    {
        Pipeline { config, stage: Stage::StageWorkspace, failure: None, layout: None, runtime: None }
    }

    /// The validated arguments of the run.
    pub fn config(&self) -> (r: &RunConfig)
        ensures
            *r == self.spec_config(),
    {
        &self.config
    }

    /// The stage the run stands in.
    pub fn stage(&self) -> (r: Stage)
        ensures
            r == self.spec_stage(),
    {
        self.stage
    }

    /// The first failure of the run, if any.
    pub fn failure(&self) -> (r: Option<Failure>)
        ensures
            r == self.spec_failure(),
    {
        self.failure
    }

    /// The workspace layout, once the workspace exists.
    pub fn layout(&self) -> (r: Option<&Layout>)
        ensures
            r is Some == self.spec_layout() is Some,
            r matches Some(l) ==> *l == self.spec_layout()->0,
    {
        self.layout.as_ref()
    }

    /// The runtime resolved last, if any.
    pub fn runtime(&self) -> (r: Option<&String>)
        ensures
            r is Some == self.spec_runtime() is Some,
            r matches Some(rt) ==> *rt == self.spec_runtime()->0,
    {
        self.runtime.as_ref()
    }

    /// What the driver is to do next.
    pub fn action(&self) -> (r: Action)
        ensures
            r == self.spec_action(),
    {
        match self.stage {
            Stage::StageWorkspace => Action::CreateWorkspace,
            Stage::WriteUnpackAssets => Action::WriteDecodeTool,
            Stage::ResolveForUnpack | Stage::ResolveForSign => Action::ResolveRuntime,
            Stage::Unpack => Action::RunTool(ToolCall::Decode),
            Stage::AwaitOperator => Action::AwaitOperator,
            Stage::Repack => Action::RunTool(ToolCall::Encode),
            Stage::CleanUnpackAssets => Action::CleanUnpackAssets,
            Stage::WriteSignAssets => Action::WriteSignAssets {
                debug_cert: self.config.cert.is_none(),
                debug_key: self.config.key.is_none(),
            },
            Stage::Sign => Action::RunTool(ToolCall::Sign),
            Stage::CleanSignAssets => Action::CleanSignAssets {
                debug_cert: self.config.cert.is_none(),
                debug_key: self.config.key.is_none(),
            },
            Stage::Publish => Action::Publish,
            Stage::Teardown => Action::Teardown,
            Stage::Done => Action::Finish(self.failure),
        }
    }

    /// The certificate used to sign: the operator's, else the debug one in the workspace.
    pub open spec fn spec_cert_path(&self) -> Seq<char> {
        match self.spec_config().cert {
            Some(c) => c@,
            None => self.spec_layout()->0.debug_cert@,
        }
    }

    /// The key used to sign: the operator's, else the debug one in the workspace.
    pub open spec fn spec_key_path(&self) -> Seq<char> {
        match self.spec_config().key {
            Some(k) => k@,
            None => self.spec_layout()->0.debug_key@,
        }
    }

    /// The tool archive that a call runs.
    pub open spec fn spec_archive(&self, call: ToolCall) -> Seq<char> {
        match call {
            ToolCall::Sign => self.spec_layout()->0.sign_tool@,
            _ => self.spec_layout()->0.decode_tool@,
        }
    }

    /// The arguments that follow the archive in a call.
    pub open spec fn spec_tool_args(&self, call: ToolCall) -> Seq<Seq<char>> {
        let l = self.spec_layout()->0;
        match call {
            ToolCall::Decode => seq!["d"@, self.spec_config().input_apk@, "-o"@, l.unpacked@],
            ToolCall::Encode => seq!["b"@, l.unpacked@, "-o"@, l.intermediate@],
            ToolCall::Sign => seq![
                "sign"@,
                "--key"@,
                self.spec_key_path(),
                "--cert"@,
                self.spec_cert_path(),
                l.intermediate@,
            ],
        }
    }

    /// The certificate used to sign.
    pub fn cert_path(&self) -> (r: String)
        requires
            self.spec_layout() is Some,
        ensures
            r@ == self.spec_cert_path(),
    {
        match &self.config.cert {
            Some(c) => c.clone(),
            None => self.layout.as_ref().unwrap().debug_cert.clone(),
        }
    }

    /// The key used to sign.
    pub fn key_path(&self) -> (r: String)
        requires
            self.spec_layout() is Some,
        ensures
            r@ == self.spec_key_path(),
    {
        match &self.config.key {
            Some(k) => k.clone(),
            None => self.layout.as_ref().unwrap().debug_key.clone(),
        }
    }

    /// The tool archive that a call runs.
    pub fn tool_archive(&self, call: ToolCall) -> (r: String)
        requires
            self.spec_layout() is Some,
        ensures
            r@ == self.spec_archive(call),
    {
        let l = self.layout.as_ref().unwrap();
        match call {
            ToolCall::Sign => l.sign_tool.clone(),
            _ => l.decode_tool.clone(),
        }
    }

    /// The arguments that follow the archive in a call.
    pub fn tool_args(&self, call: ToolCall) -> (r: Vec<String>)
        requires
            self.spec_layout() is Some,
        ensures
            r@.len() == self.spec_tool_args(call).len(),
            forall|i: int| 0 <= i < r@.len() ==> #[trigger] r@[i]@ == self.spec_tool_args(call)[i],
    {
        let l = self.layout.as_ref().unwrap();
        let r = match call {
            ToolCall::Decode => vec![
                "d".to_owned(),
                self.config.input_apk.clone(),
                "-o".to_owned(),
                l.unpacked.clone(),
            ],
            ToolCall::Encode => vec!["b".to_owned(), l.unpacked.clone(), "-o".to_owned(), l.intermediate.clone()],
            ToolCall::Sign => vec![
                "sign".to_owned(),
                "--key".to_owned(),
                self.key_path(),
                "--cert".to_owned(),
                self.cert_path(),
                l.intermediate.clone(),
            ],
        };
        assert(r@.len() == self.spec_tool_args(call).len());
        r
    }

    /// Moves the run on by what came of the last action: the next stage, the
    /// first failure, the workspace once created and the runtime once found.
    pub fn advance(&mut self, o: Outcome)
        requires
            old(self).wf(),
        ensures
            final(self).wf(),
            final(self).spec_layout() matches Some(l) ==> l.valid(),
            final(self).spec_config() == old(self).spec_config(),
            final(self).spec_stage() == next_stage(old(self).spec_stage(), old(self).spec_failure() is Some, o),
            final(self).spec_failure() == next_failure(old(self).spec_stage(), old(self).spec_failure(), o),
            old(self).spec_stage() == Stage::StageWorkspace && o is WorkspaceCreated ==> (final(self).spec_layout() matches Some(l)
                && o == Outcome::WorkspaceCreated(l.workspace)),
            !(old(self).spec_stage() == Stage::StageWorkspace && o is WorkspaceCreated) ==> final(self).spec_layout()
                == old(self).spec_layout(),
            (old(self).spec_stage() == Stage::ResolveForUnpack || old(self).spec_stage() == Stage::ResolveForSign)
                && o is RuntimeFound ==> o == Outcome::RuntimeFound(final(self).spec_runtime()->0),
            !((old(self).spec_stage() == Stage::ResolveForUnpack || old(self).spec_stage() == Stage::ResolveForSign)
                && o is RuntimeFound) ==> final(self).spec_runtime() == old(self).spec_runtime(),
    {
        let stage = self.stage;
        let failed = self.failure.is_some();
        let kind = raised_by(stage, &o);
        let bad = kind.is_some();
        if self.failure.is_none() {
            if let Some(k) = kind {
                self.failure = Some(Failure { stage, kind: k });
            }
        }
        self.stage = match stage {
            Stage::StageWorkspace => if bad { Stage::Done } else { Stage::WriteUnpackAssets },
            Stage::WriteUnpackAssets => if bad { Stage::CleanUnpackAssets } else { Stage::ResolveForUnpack },
            Stage::ResolveForUnpack => if bad { Stage::CleanUnpackAssets } else { Stage::Unpack },
            Stage::Unpack => if bad { Stage::CleanUnpackAssets } else { Stage::AwaitOperator },
            Stage::AwaitOperator => if bad { Stage::CleanUnpackAssets } else { Stage::Repack },
            Stage::Repack => Stage::CleanUnpackAssets,
            Stage::CleanUnpackAssets => if failed { Stage::Teardown } else { Stage::WriteSignAssets },
            Stage::WriteSignAssets => if bad { Stage::CleanSignAssets } else { Stage::ResolveForSign },
            Stage::ResolveForSign => if bad { Stage::CleanSignAssets } else { Stage::Sign },
            Stage::Sign => Stage::CleanSignAssets,
            Stage::CleanSignAssets => if failed { Stage::Teardown } else { Stage::Publish },
            Stage::Publish => Stage::Teardown,
            Stage::Teardown => Stage::Done,
            Stage::Done => Stage::Done,
        };
        match o {
            Outcome::WorkspaceCreated(ws) => {
                if stage == Stage::StageWorkspace {
                    self.layout = Some(Layout::new(ws));
                }
            },
            Outcome::RuntimeFound(rt) => {
                if stage == Stage::ResolveForUnpack || stage == Stage::ResolveForSign {
                    self.runtime = Some(rt);
                }
            },
            _ => {},
        }
    }
}

/// The failure that an outcome raises in stage `s`, if any.
fn raised_by(s: Stage, o: &Outcome) -> (r: Option<FailureKind>)
    ensures
        r == raised(s, *o),
{
    match s {
        Stage::StageWorkspace => if matches!(o, Outcome::WorkspaceCreated(_)) { None } else { Some(FailureKind::Allocation) },
        Stage::WriteUnpackAssets | Stage::WriteSignAssets => if matches!(o, Outcome::Completed) { None } else { Some(FailureKind::Allocation) },
        Stage::ResolveForUnpack | Stage::ResolveForSign => if matches!(o, Outcome::RuntimeFound(_)) { None } else { Some(FailureKind::Resolution) },
        Stage::Unpack | Stage::Repack | Stage::Sign => match o {
            Outcome::Exited(Some(c)) => if *c == 0 { None } else { Some(FailureKind::ToolExit(Some(*c))) },
            Outcome::Exited(None) => Some(FailureKind::ToolExit(None)),
            _ => Some(FailureKind::Spawn),
        },
        Stage::AwaitOperator => if matches!(o, Outcome::Completed) { None } else { Some(FailureKind::Console) },
        Stage::Publish => if matches!(o, Outcome::Completed) { None } else { Some(FailureKind::Copy) },
        _ => None,
    }
}

} // verus!
