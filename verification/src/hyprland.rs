//! Hyprland reads its keyboard settings from its configuration file, in
//! which a later assignment overrides an earlier one. The backend adds the
//! new assignments at the end of the file and has the compositor read the
//! file again.

use vstd::prelude::*;
use vstd::string::*;
use crate::command::{Invocation, InvocationView};
use crate::step::{
    follow,
    next_step,
    plan_new,
    plan_push,
    ConfigAppend,
    ConfigAppendView,
    Effect,
    EffectView,
    Session,
    Step,
};

verus! {

/// The assignments for the fields that are given: one line for the layout,
/// then one for the variant.
pub open spec fn hyprland_fragment(layout: Option<Seq<char>>, variant: Option<Seq<char>>) -> Seq<
    char,
> {
    (match layout {
        Some(layout) => "input:kb_layout = "@ + layout + "\n"@,
        None => Seq::empty(),
    }) + (match variant {
        Some(variant) => "input:kb_variant = "@ + variant + "\n"@,
        None => Seq::empty(),
    })
}

/// The text that is added to the file: the assignments between a line that
/// marks their begin and one that marks their end.
pub open spec fn hyprland_block(fragment: Seq<char>) -> Seq<char> {
    "\n# --- Begin setwlkeymap generated ---\n"@ + fragment
        + "# --- End setwlkeymap generated ---\n"@
}

/// Where the file is: `hypr/hyprland.conf` below the directory that
/// `XDG_CONFIG_HOME` names, or below `~/.config` where it names none.
pub open spec fn hyprland_append(text: Seq<char>) -> ConfigAppendView {
    ConfigAppendView {
        home_variable: "XDG_CONFIG_HOME"@,
        default_home: "~/.config"@,
        path: seq!["hypr"@, "hyprland.conf"@],
        text,
    }
}

/// The invocation that has the compositor read its configuration again.
pub open spec fn hyprland_reload() -> InvocationView {
    InvocationView { program: "hyprctl"@, args: seq!["reload"@] }
}

/// What the Hyprland backend does. With neither layout nor variant there is
/// nothing to do. Otherwise the block is added at the end of the file, and
/// then the compositor is told to read the file again. Blocks that were
/// added before stay in the file: each request adds one more.
pub open spec fn hyprland_plan(layout: Option<Seq<char>>, variant: Option<Seq<char>>) -> Seq<
    EffectView,
> {
    let fragment = hyprland_fragment(layout, variant);
    if fragment.len() == 0 {
        Seq::empty()
    } else {
        seq![
            EffectView::AppendConfig(hyprland_append(hyprland_block(fragment))),
            EffectView::Run(hyprland_reload()),
        ]
    }
}

fn append_to_config(text: String) -> (append: ConfigAppend)
    ensures
        append@ == hyprland_append(text@),
{
    let mut path: Vec<String> = Vec::new();
    path.push(String::from_str("hypr"));
    path.push(String::from_str("hyprland.conf"));
    assert(path.deep_view() =~= seq!["hypr"@, "hyprland.conf"@]);
    ConfigAppend {
        home_variable: String::from_str("XDG_CONFIG_HOME"),
        default_home: String::from_str("~/.config"),
        path,
        text,
    }
}

fn reload() -> (invocation: Invocation)
    ensures
        invocation@ == hyprland_reload(),
{
    let invocation = Invocation::new("hyprctl").arg("reload");
    invocation
}

/// The next step of the Hyprland backend: it follows [`hyprland_plan`].
pub fn set_keymap_hyprland(
    layout: Option<String>,
    variant: Option<String>,
    session: &Session,
) -> (step: Step)
    ensures
        step@ == next_step(
            hyprland_plan(layout.deep_view(), variant.deep_view()),
            session@.outcomes,
        ),
{
    let mut config = String::new();
    if let Some(layout) = layout {
        config.append("input:kb_layout = ");
        config.append(layout.as_str());
        config.append("\n");
    }
    if let Some(variant) = variant {
        config.append("input:kb_variant = ");
        config.append(variant.as_str());
        config.append("\n");
    }
    assert(config@ =~= hyprland_fragment(layout.deep_view(), variant.deep_view()));
    let mut plan = plan_new();
    if !config.as_str().is_empty() {
        let mut block = String::from_str("\n# --- Begin setwlkeymap generated ---\n");
        block.append(config.as_str());
        block.append("# --- End setwlkeymap generated ---\n");
        plan_push(&mut plan, Effect::AppendConfig(append_to_config(block)));
        plan_push(&mut plan, Effect::Run(reload()));
    }
    follow(plan, &session.outcomes)
}

} // verus!
