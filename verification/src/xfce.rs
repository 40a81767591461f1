//! Xfce keeps the keyboard layout in the `keyboard-layout` channel of
//! `xfconf-query`. It ignores what stands there as long as the property
//! `/Default/XkbDisable` is set, so the backend unsets that one first.

use vstd::prelude::*;
use vstd::string::*;
use crate::command::{Invocation, InvocationView};
use crate::step::{follow, next_step, plan_new, plan_push, Effect, EffectView, Session, Step};

verus! {

/// The invocation that sets `property` of the keyboard layout channel to
/// `value`.
pub open spec fn xfce_set(property: Seq<char>, value: Seq<char>) -> InvocationView {
    InvocationView {
        program: "xfconf-query"@,
        args: seq!["-c"@, "keyboard-layout"@, "-p"@, property, "-s"@, value],
    }
}

/// What the Xfce backend does: it always unsets the guard first, then
/// writes the layout, where one is given, and then the variant, where one is
/// given.
pub open spec fn xfce_plan(layout: Option<Seq<char>>, variant: Option<Seq<char>>) -> Seq<
    EffectView,
> {
    seq![EffectView::Run(xfce_set("/Default/XkbDisable"@, "false"@))] + (match layout {
        Some(layout) => seq![EffectView::Run(xfce_set("/Default/XkbLayout"@, layout))],
        None => Seq::empty(),
    }) + (match variant {
        Some(variant) => seq![EffectView::Run(xfce_set("/Default/XkbVariant"@, variant))],
        None => Seq::empty(),
    })
}

fn set_property(property: &str, value: &str) -> (invocation: Invocation)
    ensures
        invocation@ == xfce_set(property@, value@),
{
    let invocation = Invocation::new("xfconf-query").arg("-c").arg("keyboard-layout").arg("-p").arg(
        property,
    ).arg("-s").arg(value);
    assert(invocation@.args =~= xfce_set(property@, value@).args);
    invocation
}

/// The next step of the Xfce backend: it follows [`xfce_plan`].
pub fn set_keymap_xfce(layout: Option<String>, variant: Option<String>, session: &Session) -> (step:
    Step)
    ensures
        step@ == next_step(xfce_plan(layout.deep_view(), variant.deep_view()), session@.outcomes),
{
    let mut plan = plan_new();
    plan_push(&mut plan, Effect::Run(set_property("/Default/XkbDisable", "false")));
    if let Some(layout) = layout {
        plan_push(&mut plan, Effect::Run(set_property("/Default/XkbLayout", layout.as_str())));
    }
    if let Some(variant) = variant {
        plan_push(&mut plan, Effect::Run(set_property("/Default/XkbVariant", variant.as_str())));
    }
    follow(plan, &session.outcomes)
}

} // verus!
