//! The run as a linear pipeline: each stage either succeeds and hands on to
//! the next, or fails and ends the run.
use vstd::prelude::*;

use crate::args::{arg_views, is_help_request};
use crate::text::has_substring;
use crate::Failure;

verus! {

/// The stages of one run, in order, and the two ends.
#[derive(Debug, Clone, Copy, PartialEq, Eq, Structural)]
pub enum Stage {
    Configure,
    ResolveArgs,
    Search,
    Download,
    DecodeSave,
    Done,
    Terminated,
}

/// The stage after `stage` ends with `outcome`: the next one in order on
/// success, `Terminated` on any failure. Both ends are final.
pub open spec fn next_stage(stage: Stage, outcome: Option<Failure>) -> Stage {
    match stage {
        Stage::Done => Stage::Done,
        Stage::Terminated => Stage::Terminated,
        _ => if outcome is Some {
            Stage::Terminated
        } else {
            match stage {
                Stage::Configure => Stage::ResolveArgs,
                Stage::ResolveArgs => Stage::Search,
                Stage::Search => Stage::Download,
                Stage::Download => Stage::DecodeSave,
                _ => Stage::Done,
            }
        },
    }
}

/// The stage reached from `stage` after the stages ahead end with
/// `outcomes`, one after another.
pub open spec fn stage_after(stage: Stage, outcomes: Seq<Option<Failure>>) -> Stage
    decreases outcomes.len(),
{
    if outcomes.len() == 0 {
        stage
    } else {
        stage_after(next_stage(stage, outcomes[0]), outcomes.drop_first())
    }
}

/// The stages that send a request over the network.
pub open spec fn uses_network(stage: Stage) -> bool {
    stage == Stage::Search || stage == Stage::Download
}

/// Moves the run on from `stage`, which ended with `outcome`.
pub fn advance(stage: Stage, outcome: Option<Failure>) -> (r: Stage)
    ensures
        r == next_stage(stage, outcome),
{
    match stage {
        Stage::Done => Stage::Done,
        Stage::Terminated => Stage::Terminated,
        _ => {
            if outcome.is_some() {
                Stage::Terminated
            } else {
                match stage {
                    Stage::Configure => Stage::ResolveArgs,
                    Stage::ResolveArgs => Stage::Search,
                    Stage::Search => Stage::Download,
                    Stage::Download => Stage::DecodeSave,
                    _ => Stage::Done,
                }
            }
        },
    }
}

/// A run that has terminated stays terminated, whatever comes after.
pub proof fn terminated_is_final(outcomes: Seq<Option<Failure>>)
    ensures
        stage_after(Stage::Terminated, outcomes) == Stage::Terminated,
    decreases outcomes.len(),
{
    if outcomes.len() > 0 {
        terminated_is_final(outcomes.drop_first());
    }
}

/// A first argument that holds "-h" anywhere, with any number of arguments
/// after it, is a request for the usage text; resolving the arguments then
/// fails, the run terminates, and no stage after it uses the network.
pub proof fn help_request_makes_no_request(args: Seq<String>, outcomes: Seq<Option<Failure>>)
    requires
        args.len() >= 2,
        has_substring(args[1]@, "-h"@),
    ensures
        is_help_request(arg_views(args)),
        !uses_network(
            stage_after(Stage::ResolveArgs, seq![Some(Failure::HelpRequested)] + outcomes),
        ),
{
    assert(arg_views(args)[1] == args[1]@);
    let all = seq![Some(Failure::HelpRequested)] + outcomes;
    assert(all.drop_first() =~= outcomes);
    assert(all[0] == Some(Failure::HelpRequested));
    terminated_is_final(outcomes);
}

/// A search that fails, an authentication failure among them, ends the run
/// before any download is attempted.
pub proof fn failed_search_never_downloads(e: Failure, outcomes: Seq<Option<Failure>>)
    ensures
        stage_after(Stage::Search, seq![Some(e)] + outcomes) != Stage::Download,
{
    let all = seq![Some(e)] + outcomes;
    assert(all.drop_first() =~= outcomes);
    assert(all[0] == Some(e));
    terminated_is_final(outcomes);
}

} // verus!
