//! GNOME keeps its keyboard layouts as an ordered list of input sources and,
//! apart from it, the index of the source in use. Setting a keymap means to
//! make sure that the source is in the list and to point the index at it.
//! Both are reached through `gsettings`.

use vstd::prelude::*;
use vstd::string::*;
use crate::command::{Invocation, InvocationView};
use crate::error::{ErrorKind, KeymapError, KeymapErrorView};
use crate::sources::{append_source, appended, decode, find_source, parse_gnome_output, position};
use crate::step::{
    follow,
    next_step,
    plan_new,
    plan_push,
    Effect,
    EffectView,
    Outcome,
    OutcomeView,
    Session,
    Step,
    StepView,
};
use crate::text::{decimal_digits, unsigned_decimal};

verus! {

/// The invocation that asks for the list of input sources.
pub open spec fn gnome_query() -> InvocationView {
    InvocationView {
        program: "gsettings"@,
        args: seq!["get"@, "org.gnome.desktop.input-sources"@, "sources"@],
    }
}

/// The invocation that writes `value` under `key` of the input sources.
pub open spec fn gnome_write(key: Seq<char>, value: Seq<char>) -> InvocationView {
    InvocationView {
        program: "gsettings"@,
        args: seq!["set"@, "org.gnome.desktop.input-sources"@, key, value],
    }
}

/// What the GNOME backend does for a layout and a variant. It asks for the
/// list of input sources first. Once the list is there, it looks for the
/// source with this layout and this variant. Where the list has it, the
/// backend points the index at its position. Where it has not, the backend
/// writes the list back with the source added at its end, and then points
/// the index at the length the list had, which is where the new source
/// stands.
pub open spec fn gnome_plan(
    layout: Seq<char>,
    variant: Option<Seq<char>>,
    outcomes: Seq<OutcomeView>,
) -> Seq<EffectView> {
    let query = seq![EffectView::Capture(gnome_query())];
    if outcomes.len() > 0 && outcomes[0] is Completed {
        let listed = outcomes[0]->Completed_0;
        let sources = decode(listed);
        match position(sources, (layout, variant)) {
            Some(index) => query + seq![
                EffectView::Run(gnome_write("current"@, decimal_digits(index as nat))),
            ],
            None => query + seq![
                EffectView::Run(gnome_write("sources"@, appended(listed, layout, variant))),
                EffectView::Run(gnome_write("current"@, decimal_digits(sources.len()))),
            ],
        }
    } else {
        query
    }
}

/// The failure of a request that names no layout.
pub open spec fn gnome_needs_layout() -> KeymapErrorView {
    KeymapErrorView {
        kind: ErrorKind::InvalidRequest,
        message: "Setting the gnome keymap requires a layout"@,
    }
}

/// The next step of the GNOME backend. A request without a layout is refused
/// at once. Any other follows [`gnome_plan`]: the first effect that fails
/// ends the request, also the rewriting of the list, after which the index
/// is left alone.
pub open spec fn gnome_step(
    layout: Option<Seq<char>>,
    variant: Option<Seq<char>>,
    outcomes: Seq<OutcomeView>,
) -> StepView {
    match layout {
        Some(layout) => next_step(gnome_plan(layout, variant, outcomes), outcomes),
        None => StepView::Finished(Err(gnome_needs_layout())),
    }
}

fn read_sources() -> (invocation: Invocation)
    ensures
        invocation@ == gnome_query(),
{
    let invocation = Invocation::new("gsettings").arg("get").arg(
        "org.gnome.desktop.input-sources",
    ).arg("sources");
    assert(invocation@.args =~= gnome_query().args);
    invocation
}

fn write_setting(key: &str, value: &str) -> (invocation: Invocation)
    ensures
        invocation@ == gnome_write(key@, value@),
{
    let invocation = Invocation::new("gsettings").arg("set").arg(
        "org.gnome.desktop.input-sources",
    ).arg(key).arg(value);
    assert(invocation@.args =~= gnome_write(key@, value@).args);
    invocation
}

/// The next step of the GNOME backend, as [`gnome_step`] defines it.
pub fn set_keymap_gnome(layout: Option<String>, variant: Option<String>, session: &Session) -> (step:
    Step)
    ensures
        step@ == gnome_step(layout.deep_view(), variant.deep_view(), session@.outcomes),
{
    let layout = match layout {
        Some(layout) => layout,
        None => {
            return Step::Finished(
                Err(
                    KeymapError::new(
                        ErrorKind::InvalidRequest,
                        "Setting the gnome keymap requires a layout",
                    ),
                ),
            );
        },
    };
    let mut plan = plan_new();
    plan_push(&mut plan, Effect::Capture(read_sources()));
    if session.outcomes.len() > 0 {
        match &session.outcomes[0] {
            Outcome::Completed(listed) => {
                let sources = parse_gnome_output(listed.as_str());
                match find_source(&sources, &layout, &variant) {
                    Some(index) => {
                        let current = unsigned_decimal(index as u64);
                        plan_push(&mut plan, Effect::Run(write_setting("current", current.as_str())));
                    },
                    None => {
                        let text = append_source(listed.as_str(), layout.as_str(), &variant);
                        plan_push(&mut plan, Effect::Run(write_setting("sources", text.as_str())));
                        let current = unsigned_decimal(sources.len() as u64);
                        plan_push(&mut plan, Effect::Run(write_setting("current", current.as_str())));
                    },
                }
            },
            Outcome::Failed(_) => {
            },
        }
    }
    follow(plan, &session.outcomes)
}

} // verus!
