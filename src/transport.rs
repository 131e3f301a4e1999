use vstd::prelude::*;
use vstd::string::*;

verus! {

/// Where crash reports are posted.
pub const INGESTION_URL: &'static str = "https://in.appcenter.ms/logs?Api-Version=1.0.0";

/// The install identifier sent with every report; the same for every install.
pub const INSTALL_ID: &'static str = "00000000-0000-0000-0000-000000000001";

/// How long a delivery may wait for the connection, in seconds.
pub const CONNECT_TIMEOUT_SECS: u64 = 4;

/// The headers of a delivery request, in the order they are sent.
pub fn request_headers(app_secret: &str) -> (r: Vec<(String, String)>)
    ensures
        r@.len() == 3,
        r@[0].0@ == "Content-Type"@ && r@[0].1@ == "application/json"@,
        r@[1].0@ == "app-secret"@ && r@[1].1@ == app_secret@,
        r@[2].0@ == "install-id"@ && r@[2].1@ == INSTALL_ID@,
{
    let mut r: Vec<(String, String)> = Vec::new();
    r.push((String::from_str("Content-Type"), String::from_str("application/json")));
    r.push((String::from_str("app-secret"), String::from_str(app_secret)));
    r.push((String::from_str("install-id"), String::from_str(INSTALL_ID)));
    r
}

/// One step of the failure handler.
#[derive(PartialEq, Eq, Structural, Clone, Copy)]
pub enum HookAction {
    /// Build the crash report of the failure.
    BuildReport,
    /// Run the enrichment callback on the report.
    RunCallback,
    /// Serialize the report and make one delivery attempt.
    Deliver,
    /// Hand the failure to the handler that was installed before.
    RunPreviousHook,
}

/// The steps of the failure handler in the order they run.
pub open spec fn plan_of(has_callback: bool) -> Seq<HookAction> {
    if has_callback {
        seq![HookAction::BuildReport, HookAction::RunCallback, HookAction::Deliver, HookAction::RunPreviousHook]
    } else {
        seq![HookAction::BuildReport, HookAction::Deliver, HookAction::RunPreviousHook]
    }
}

/// The steps the failure handler takes for one failure. No step depends on
/// the outcome of an earlier one, so a failed delivery changes nothing.
pub fn handler_plan(has_callback: bool) -> (r: Vec<HookAction>)
    ensures
        r@ == plan_of(has_callback),
{
    let mut r: Vec<HookAction> = Vec::new();
    r.push(HookAction::BuildReport);
    if has_callback {
        r.push(HookAction::RunCallback);
    }
    r.push(HookAction::Deliver);
    r.push(HookAction::RunPreviousHook);
    assert(r@ =~= plan_of(has_callback));
    r
}

/// The failure handler builds the report first and runs the previous handler
/// exactly once, as its last step, whether or not there is a callback and
/// whatever came of the delivery.
pub proof fn lemma_previous_hook_runs_once_last(has_callback: bool)
    ensures
        plan_of(has_callback)[0] == HookAction::BuildReport,
        plan_of(has_callback).last() == HookAction::RunPreviousHook,
        forall|i: int|
            0 <= i < plan_of(has_callback).len() - 1 ==> #[trigger] plan_of(has_callback)[i]
                != HookAction::RunPreviousHook,
        plan_of(has_callback).filter(|a: HookAction| a == HookAction::RunPreviousHook).len() == 1,
{
    let p = plan_of(has_callback);
    reveal_with_fuel(Seq::filter, 5);
    if has_callback {
        assert(p.drop_last().drop_last().drop_last().drop_last() =~= Seq::empty());
        assert(p.drop_last().drop_last().drop_last() =~= seq![HookAction::BuildReport]);
        assert(p.drop_last().drop_last() =~= seq![HookAction::BuildReport, HookAction::RunCallback]);
        assert(p.drop_last() =~= seq![HookAction::BuildReport, HookAction::RunCallback, HookAction::Deliver]);
    } else {
        assert(p.drop_last().drop_last().drop_last() =~= Seq::empty());
        assert(p.drop_last().drop_last() =~= seq![HookAction::BuildReport]);
        assert(p.drop_last() =~= seq![HookAction::BuildReport, HookAction::Deliver]);
    }
}

} // verus!
