//! Sway takes keyboard settings at run time through `swaymsg`, for all input
//! devices of the keyboard type. It checks layout and variant together after
//! every change, so a variant left from before can have a new layout
//! refused: the backend clears the variant first.

use vstd::prelude::*;
use vstd::string::*;
use crate::command::{Invocation, InvocationView};
use crate::step::{
    follow,
    lemma_single_effect,
    next_step,
    outcome_result,
    plan_new,
    plan_push,
    Effect,
    EffectView,
    OutcomeView,
    Session,
    Step,
    StepView,
};

verus! {

/// The invocation that gives `setting` the `value` on all keyboards.
pub open spec fn sway_input(setting: Seq<char>, value: Seq<char>) -> InvocationView {
    InvocationView { program: "swaymsg"@, args: seq!["input"@, "type:keyboard"@, setting, value] }
}

/// What the Sway backend does: it always sets the variant to the empty
/// value first, then the layout, where one is given, and then the variant,
/// where one is given.
pub open spec fn sway_plan(layout: Option<Seq<char>>, variant: Option<Seq<char>>) -> Seq<
    EffectView,
> {
    seq![EffectView::Run(sway_input("xkb_variant"@, "''"@))] + (match layout {
        Some(layout) => seq![EffectView::Run(sway_input("xkb_layout"@, layout))],
        None => Seq::empty(),
    }) + (match variant {
        Some(variant) => seq![EffectView::Run(sway_input("xkb_variant"@, variant))],
        None => Seq::empty(),
    })
}

/// A request that names neither a layout nor a variant still clears the
/// variant, and sets nothing: the clearing is the only effect that is ever
/// asked for, and the request succeeds exactly when it went through.
pub proof fn lemma_sway_empty_request(outcomes: Seq<OutcomeView>)
    ensures
        sway_plan(None, None) == seq![EffectView::Run(sway_input("xkb_variant"@, "''"@))],
        outcomes.len() == 0 ==> next_step(sway_plan(None, None), outcomes) == StepView::Perform(
            EffectView::Run(sway_input("xkb_variant"@, "''"@)),
        ),
        outcomes.len() > 0 ==> next_step(sway_plan(None, None), outcomes) == StepView::Finished(
            outcome_result(outcomes[0]),
        ),
{
    let clearing = EffectView::Run(sway_input("xkb_variant"@, "''"@));
    lemma_single_effect(clearing, outcomes);
}

fn set_input(setting: &str, value: &str) -> (invocation: Invocation)
    ensures
        invocation@ == sway_input(setting@, value@),
{
    let invocation = Invocation::new("swaymsg").arg("input").arg("type:keyboard").arg(setting).arg(
        value,
    );
    assert(invocation@.args =~= sway_input(setting@, value@).args);
    invocation
}

/// The next step of the Sway backend: it follows [`sway_plan`].
pub fn set_keymap_sway(layout: Option<String>, variant: Option<String>, session: &Session) -> (step:
    Step)
    ensures
        step@ == next_step(sway_plan(layout.deep_view(), variant.deep_view()), session@.outcomes),
{
    let mut plan = plan_new();
    plan_push(&mut plan, Effect::Run(set_input("xkb_variant", "''")));
    if let Some(layout) = layout {
        plan_push(&mut plan, Effect::Run(set_input("xkb_layout", layout.as_str())));
    }
    if let Some(variant) = variant {
        plan_push(&mut plan, Effect::Run(set_input("xkb_variant", variant.as_str())));
    }
    follow(plan, &session.outcomes)
}

} // verus!
