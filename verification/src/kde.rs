//! KDE Plasma keeps the keyboard configuration in `kxkbrc`. Its own tool
//! `kwriteconfig6` writes a key there and tells the desktop of the change.

use vstd::prelude::*;
use vstd::string::*;
use crate::command::{Invocation, InvocationView};
use crate::step::{
    follow,
    lemma_single_effect,
    next_step,
    outcome_result,
    plan_new,
    plan_push,
    Effect,
    EffectView,
    OutcomeView,
    Session,
    Step,
    StepView,
};

verus! {

/// The invocation that writes `value` under `key` in the keyboard layout
/// group.
pub open spec fn kde_write(key: Seq<char>, value: Seq<char>) -> InvocationView {
    InvocationView {
        program: "kwriteconfig6"@,
        args: seq!["--file"@, "kxkbrc"@, "--group"@, "Layout"@, "--key"@, key, value],
    }
}

/// What the KDE backend does: it writes the layout, where one is given, as
/// the whole layout list, and then the variant, where one is given, as the
/// whole variant list. What the lists held before is not read.
pub open spec fn kde_plan(layout: Option<Seq<char>>, variant: Option<Seq<char>>) -> Seq<
    EffectView,
> {
    (match layout {
        Some(layout) => seq![EffectView::Run(kde_write("LayoutList"@, layout))],
        None => Seq::empty(),
    }) + (match variant {
        Some(variant) => seq![EffectView::Run(kde_write("VariantList"@, variant))],
        None => Seq::empty(),
    })
}

/// A request that names a variant and no layout writes the variant list
/// and nothing else: that one write is the only effect that is ever asked
/// for, its key is not the key of the layout list, and the request succeeds
/// exactly when it went through.
pub proof fn lemma_kde_variant_alone(variant: Seq<char>, outcomes: Seq<OutcomeView>)
    ensures
        kde_plan(None, Some(variant)) == seq![
            EffectView::Run(kde_write("VariantList"@, variant)),
        ],
        kde_write("VariantList"@, variant).args[5] != "LayoutList"@,
        outcomes.len() == 0 ==> next_step(kde_plan(None, Some(variant)), outcomes)
            == StepView::Perform(EffectView::Run(kde_write("VariantList"@, variant))),
        outcomes.len() > 0 ==> next_step(kde_plan(None, Some(variant)), outcomes)
            == StepView::Finished(outcome_result(outcomes[0])),
{
    reveal_strlit("VariantList");
    reveal_strlit("LayoutList");
    let write = EffectView::Run(kde_write("VariantList"@, variant));
    assert("VariantList"@[0] != "LayoutList"@[0]);
    lemma_single_effect(write, outcomes);
}

fn write_config(key: &str, value: &str) -> (invocation: Invocation)
    ensures
        invocation@ == kde_write(key@, value@),
{
    let invocation = Invocation::new("kwriteconfig6").arg("--file").arg("kxkbrc").arg(
        "--group",
    ).arg("Layout").arg("--key").arg(key).arg(value);
    assert(invocation@.args =~= kde_write(key@, value@).args);
    invocation
}

/// The next step of the KDE backend: it follows [`kde_plan`].
pub fn set_keymap_kde(layout: Option<String>, variant: Option<String>, session: &Session) -> (step:
    Step)
    ensures
        step@ == next_step(kde_plan(layout.deep_view(), variant.deep_view()), session@.outcomes),
{
    let mut plan = plan_new();
    if let Some(layout) = layout {
        plan_push(&mut plan, Effect::Run(write_config("LayoutList", layout.as_str())));
    }
    if let Some(variant) = variant {
        plan_push(&mut plan, Effect::Run(write_config("VariantList", variant.as_str())));
    }
    follow(plan, &session.outcomes)
}

} // verus!
