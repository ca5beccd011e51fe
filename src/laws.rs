use vstd::prelude::*;
use crate::pipeline::{
    action_of, after_failure, next_failure, next_stage, rank, tool_failure, Action, Failure,
    FailureKind, Outcome, Pipeline, Stage, ToolCall,
};
use crate::paths::{lies_in, verbatim_like};

verus! {

/// Every step moves a run that has not ended to a later stage, so every run
/// ends after at most thirteen steps.
pub proof fn stages_advance(s: Stage, failed: bool, o: Outcome)
    requires
        s != Stage::Done,
    ensures
        rank(next_stage(s, failed, o)) > rank(s),
{
}

/// Once the workspace exists, a run ends only through the teardown stage, whose
/// action removes the workspace; it ends straight away only when the workspace
/// could not be created.
pub proof fn workspace_always_removed(s: Stage, failed: bool, o: Outcome, f: Option<Failure>, cert_given: bool, key_given: bool)
    ensures
        s != Stage::StageWorkspace && s != Stage::Teardown && s != Stage::Done ==> next_stage(s, failed, o) != Stage::Done,
        s == Stage::StageWorkspace && next_stage(s, failed, o) == Stage::Done ==> !(o is WorkspaceCreated),
        action_of(Stage::Teardown, f, cert_given, key_given) == Action::Teardown,
{
}

/// A run that has failed keeps its first failure, only cleans up from then on,
/// and never again runs a tool or publishes.
pub proof fn failure_stops_the_tools(s: Stage, f: Option<Failure>, o: Outcome, cert_given: bool, key_given: bool)
    requires
        f is Some,
        after_failure(s),
    ensures
        next_failure(s, f, o) == f,
        after_failure(next_stage(s, true, o)),
        !(action_of(s, f, cert_given, key_given) is RunTool),
        action_of(s, f, cert_given, key_given) != Action::Publish,
{
}

/// A decode that does not exit with status zero is the run's failure; the run
/// goes to clean up the unpack assets and from there straight to teardown.
pub proof fn decode_failure_skips_the_rest(o: Outcome, later: Outcome)
    requires
        tool_failure(o) is Some,
    ensures
        next_stage(Stage::Unpack, false, o) == Stage::CleanUnpackAssets,
        next_failure(Stage::Unpack, None, o) == Some(Failure { stage: Stage::Unpack, kind: tool_failure(o)->0 }),
        next_stage(Stage::CleanUnpackAssets, true, later) == Stage::Teardown,
{
}

/// When no runtime is found, the run fails with a resolution error and goes to
/// clean up, without asking for any tool to be run.
pub proof fn missing_runtime_spawns_nothing(s: Stage, cert_given: bool, key_given: bool)
    requires
        s == Stage::ResolveForUnpack || s == Stage::ResolveForSign,
    ensures
        next_failure(s, None, Outcome::RuntimeMissing) == Some(Failure { stage: s, kind: FailureKind::Resolution }),
        next_stage(s, false, Outcome::RuntimeMissing) == Stage::CleanUnpackAssets || next_stage(s, false, Outcome::RuntimeMissing)
            == Stage::CleanSignAssets,
        !(action_of(
            next_stage(s, false, Outcome::RuntimeMissing),
            next_failure(s, None, Outcome::RuntimeMissing),
            cert_given,
            key_given,
        ) is RunTool),
{
}

/// With a certificate and a key supplied, no action writes or removes a debug
/// credential, and signing uses the supplied files.
pub proof fn operator_credentials_untouched(p: Pipeline, s: Stage, f: Option<Failure>)
    ensures
        !(action_of(s, f, true, true) matches Action::WriteSignAssets { debug_cert, debug_key } && (debug_cert || debug_key)),
        !(action_of(s, f, true, true) matches Action::CleanSignAssets { debug_cert, debug_key } && (debug_cert || debug_key)),
        p.spec_config().cert matches Some(c) ==> p.spec_cert_path() == c@,
        p.spec_config().key matches Some(k) ==> p.spec_key_path() == k@,
{
}

/// With neither a certificate nor a key supplied, both debug credentials are
/// written for signing, every signing step leads on to their removal, and the
/// removal covers both.
pub proof fn debug_credentials_written_then_removed(o: Outcome, f: Option<Failure>)
    ensures
        action_of(Stage::WriteSignAssets, None, false, false) == (Action::WriteSignAssets { debug_cert: true, debug_key: true }),
        action_of(Stage::CleanSignAssets, f, false, false) == (Action::CleanSignAssets { debug_cert: true, debug_key: true }),
        next_stage(Stage::WriteSignAssets, false, o) == Stage::ResolveForSign || next_stage(Stage::WriteSignAssets, false, o)
            == Stage::CleanSignAssets,
        next_stage(Stage::ResolveForSign, false, o) == Stage::Sign || next_stage(Stage::ResolveForSign, false, o)
            == Stage::CleanSignAssets,
        next_stage(Stage::Sign, false, o) == Stage::CleanSignAssets,
{
}

/// The stages a run passes through, from stage `s` with first failure `f`,
/// when its actions come out as `os`: the stage before each outcome, then the
/// stage after the last.
pub open spec fn stages_visited(s: Stage, f: Option<Failure>, os: Seq<Outcome>) -> Seq<Stage>
    decreases os.len(),
{
    if os.len() == 0 {
        seq![s]
    } else {
        seq![s] + stages_visited(next_stage(s, f is Some, os[0]), next_failure(s, f, os[0]), os.drop_first())
    }
}

proof fn visited_shape(s: Stage, f: Option<Failure>, os: Seq<Outcome>)
    ensures
        stages_visited(s, f, os).len() == os.len() + 1,
        stages_visited(s, f, os)[0] == s,
    decreases os.len(),
{
    if os.len() > 0 {
        visited_shape(next_stage(s, f is Some, os[0]), next_failure(s, f, os[0]), os.drop_first());
    }
}

proof fn visited_reaches_done(s: Stage, f: Option<Failure>, os: Seq<Outcome>)
    requires
        os.len() + rank(s) >= 13,
    ensures
        stages_visited(s, f, os).last() == Stage::Done,
    decreases os.len(),
{
    visited_shape(s, f, os);
    if os.len() > 0 {
        let s2 = next_stage(s, f is Some, os[0]);
        let f2 = next_failure(s, f, os[0]);
        if s != Stage::Done {
            stages_advance(s, f is Some, os[0]);
        }
        visited_reaches_done(s2, f2, os.drop_first());
        visited_shape(s2, f2, os.drop_first());
        assert(stages_visited(s, f, os).last() == stages_visited(s2, f2, os.drop_first()).last());
    }
}

proof fn visited_passes_teardown(s: Stage, f: Option<Failure>, os: Seq<Outcome>)
    requires
        s != Stage::StageWorkspace,
        s != Stage::Done,
        stages_visited(s, f, os).last() == Stage::Done,
    ensures
        stages_visited(s, f, os).contains(Stage::Teardown),
    decreases os.len(),
{
    visited_shape(s, f, os);
    let v = stages_visited(s, f, os);
    if s == Stage::Teardown {
        assert(v[0] == Stage::Teardown);
    } else {
        assert(os.len() > 0);
        let s2 = next_stage(s, f is Some, os[0]);
        let f2 = next_failure(s, f, os[0]);
        let rest = stages_visited(s2, f2, os.drop_first());
        visited_shape(s2, f2, os.drop_first());
        assert(v.last() == rest.last());
        visited_passes_teardown(s2, f2, os.drop_first());
        let j = choose|j: int| 0 <= j < rest.len() && rest[j] == Stage::Teardown;
        assert(v[j + 1] == Stage::Teardown);
    }
}

/// Whatever the outcomes of its actions, a run ends within thirteen steps, and
/// a run whose workspace was created passes through the teardown stage, whose
/// action removes the workspace, before it ends.
pub proof fn every_run_removes_its_workspace(os: Seq<Outcome>, cert_given: bool, key_given: bool)
    requires
        os.len() >= 13,
    ensures
        stages_visited(Stage::StageWorkspace, None, os).last() == Stage::Done,
        os[0] is WorkspaceCreated ==> stages_visited(Stage::StageWorkspace, None, os).contains(Stage::Teardown),
        action_of(Stage::Teardown, None, cert_given, key_given) == Action::Teardown,
{
    visited_reaches_done(Stage::StageWorkspace, None, os);
    visited_shape(Stage::StageWorkspace, None, os);
    if os[0] is WorkspaceCreated {
        let s2 = next_stage(Stage::StageWorkspace, false, os[0]);
        let f2 = next_failure(Stage::StageWorkspace, None, os[0]);
        let v = stages_visited(Stage::StageWorkspace, None, os);
        let rest = stages_visited(s2, f2, os.drop_first());
        visited_shape(s2, f2, os.drop_first());
        assert(v.last() == rest.last());
        visited_passes_teardown(s2, f2, os.drop_first());
        let j = choose|j: int| 0 <= j < rest.len() && rest[j] == Stage::Teardown;
        assert(v[j + 1] == Stage::Teardown);
    }
}

/// From a failed state, whatever the outcomes of its actions, a run only stands
/// in cleanup stages or at the end: no later action runs a tool or publishes.
pub proof fn failed_run_only_cleans_up(s: Stage, f: Option<Failure>, os: Seq<Outcome>)
    requires
        f is Some,
        after_failure(s),
    ensures
        forall|i: int| 0 <= i < stages_visited(s, f, os).len() ==> after_failure(#[trigger] stages_visited(s, f, os)[i]),
    decreases os.len(),
{
    visited_shape(s, f, os);
    if os.len() > 0 {
        let s2 = next_stage(s, true, os[0]);
        let f2 = next_failure(s, f, os[0]);
        failure_stops_the_tools(s, f, os[0], true, true);
        failed_run_only_cleans_up(s2, f2, os.drop_first());
        let v = stages_visited(s, f, os);
        let rest = stages_visited(s2, f2, os.drop_first());
        assert forall|i: int| 0 <= i < v.len() implies after_failure(#[trigger] v[i]) by {
            if i > 0 {
                assert(v[i] == rest[i - 1]);
            }
        }
    }
}

/// Once the workspace exists, the tool calls run the archives written in it and
/// name its files: the unpacked directory, the intermediate APK and, where the
/// operator supplied none, the debug certificate and key; supplied credentials
/// are named as given.
pub proof fn tool_calls_name_workspace_files(p: Pipeline)
    requires
        p.spec_layout() matches Some(l) && l.valid() && !verbatim_like(l.workspace@),
    ensures
        ({
            let ws = p.spec_layout()->0.workspace@;
            &&& lies_in(p.spec_archive(ToolCall::Decode), ws, "apktool.jar"@)
            &&& lies_in(p.spec_archive(ToolCall::Encode), ws, "apktool.jar"@)
            &&& lies_in(p.spec_archive(ToolCall::Sign), ws, "apksigner.jar"@)
            &&& lies_in(p.spec_tool_args(ToolCall::Decode)[3], ws, "unpacked"@)
            &&& lies_in(p.spec_tool_args(ToolCall::Encode)[1], ws, "unpacked"@)
            &&& lies_in(p.spec_tool_args(ToolCall::Encode)[3], ws, "intermediate.apk"@)
            &&& lies_in(p.spec_tool_args(ToolCall::Sign)[5], ws, "intermediate.apk"@)
            &&& (p.spec_config().key is None ==> lies_in(p.spec_tool_args(ToolCall::Sign)[2], ws, "debug_key.pk8"@))
            &&& (p.spec_config().cert is None ==> lies_in(p.spec_tool_args(ToolCall::Sign)[4], ws, "debug_cert.crt"@))
            &&& (p.spec_config().key matches Some(k) ==> p.spec_tool_args(ToolCall::Sign)[2] == k@)
            &&& (p.spec_config().cert matches Some(c) ==> p.spec_tool_args(ToolCall::Sign)[4] == c@)
        }),
{
}

} // verus!
