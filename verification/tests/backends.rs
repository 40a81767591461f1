use setwlkbmap::cinnamon::set_keymap_cinnamon;
use setwlkbmap::command::Invocation;
use setwlkbmap::cosmic::set_keymap_cosmic_epoch;
use setwlkbmap::desktop::DesktopEnvironment;
use setwlkbmap::error::{ErrorKind, KeymapError};
use setwlkbmap::gnome::set_keymap_gnome;
use setwlkbmap::hyprland::set_keymap_hyprland;
use setwlkbmap::kde::set_keymap_kde;
use setwlkbmap::step::{ConfigAppend, Effect, Outcome, Session, Step, XkbUpdate};
use setwlkbmap::sway::set_keymap_sway;
use setwlkbmap::xfce::set_keymap_xfce;
use setwlkbmap::SetKeymap;

type Backend = fn(Option<String>, Option<String>, &Session) -> Step;

fn text(value: &str) -> Option<String> {
    Some(value.to_string())
}

fn done() -> Outcome {
    Outcome::Completed(String::new())
}

fn output(value: &str) -> Outcome {
    Outcome::Completed(value.to_string())
}

fn failure(message: &str) -> KeymapError {
    KeymapError::new(ErrorKind::NonZeroExit, message)
}

fn failed(message: &str) -> Outcome {
    Outcome::Failed(failure(message))
}

fn command(program: &str, args: &[&str]) -> Invocation {
    let mut invocation = Invocation::new(program);
    for arg in args {
        invocation = invocation.arg(arg);
    }
    invocation
}

fn run(program: &str, args: &[&str]) -> Effect {
    Effect::Run(command(program, args))
}

/// Plays the caller: hands the backend the outcomes of `script` one by one,
/// and collects the effects it asks for. The result is `None` where the
/// script ran out before the request was over.
fn drive(
    backend: Backend,
    layout: Option<&str>,
    variant: Option<&str>,
    script: Vec<Outcome>,
) -> (Vec<Effect>, Option<Result<(), KeymapError>>) {
    let mut session = Session::new(true);
    let mut effects = Vec::new();
    let mut script = script.into_iter();
    loop {
        let step = backend(layout.map(String::from), variant.map(String::from), &session);
        match step {
            Step::Finished(result) => return (effects, Some(result)),
            Step::Perform(effect) => {
                effects.push(effect);
                match script.next() {
                    Some(outcome) => session.record(outcome),
                    None => return (effects, None),
                }
            }
        }
    }
}

fn kde(key: &str, value: &str) -> Effect {
    run("kwriteconfig6", &["--file", "kxkbrc", "--group", "Layout", "--key", key, value])
}

#[test]
fn kde_writes_layout_then_variant() {
    assert_eq!(
        drive(set_keymap_kde, Some("de"), Some("nodeadkeys"), vec![done(), done()]),
        (vec![kde("LayoutList", "de"), kde("VariantList", "nodeadkeys")], Some(Ok(())))
    );
    assert_eq!(
        drive(set_keymap_kde, Some("de"), None, vec![done()]),
        (vec![kde("LayoutList", "de")], Some(Ok(())))
    );
}

#[test]
fn kde_with_a_variant_alone_writes_the_variant_alone() {
    assert_eq!(
        drive(set_keymap_kde, None, Some("dvorak"), vec![done()]),
        (vec![kde("VariantList", "dvorak")], Some(Ok(())))
    );
    assert_eq!(
        drive(set_keymap_kde, None, Some("dvorak"), vec![failed("no")]),
        (vec![kde("VariantList", "dvorak")], Some(Err(failure("no"))))
    );
}

#[test]
fn kde_stops_at_the_first_failure() {
    assert_eq!(
        drive(set_keymap_kde, Some("de"), Some("nodeadkeys"), vec![failed("no"), done()]),
        (vec![kde("LayoutList", "de")], Some(Err(failure("no"))))
    );
    assert_eq!(
        drive(set_keymap_kde, Some("de"), Some("nodeadkeys"), vec![done(), failed("late")]),
        (
            vec![kde("LayoutList", "de"), kde("VariantList", "nodeadkeys")],
            Some(Err(failure("late")))
        )
    );
}

#[test]
fn kde_with_nothing_to_write_has_succeeded() {
    assert_eq!(drive(set_keymap_kde, None, None, vec![]), (vec![], Some(Ok(()))));
}

fn xfce(property: &str, value: &str) -> Effect {
    run("xfconf-query", &["-c", "keyboard-layout", "-p", property, "-s", value])
}

#[test]
fn xfce_unsets_the_guard_first() {
    assert_eq!(
        drive(set_keymap_xfce, Some("fr"), Some("oss"), vec![done(), done(), done()]),
        (
            vec![
                xfce("/Default/XkbDisable", "false"),
                xfce("/Default/XkbLayout", "fr"),
                xfce("/Default/XkbVariant", "oss")
            ],
            Some(Ok(()))
        )
    );
    assert_eq!(
        drive(set_keymap_xfce, None, Some("oss"), vec![done(), done()]),
        (
            vec![xfce("/Default/XkbDisable", "false"), xfce("/Default/XkbVariant", "oss")],
            Some(Ok(()))
        )
    );
    assert_eq!(
        drive(set_keymap_xfce, None, None, vec![done()]),
        (vec![xfce("/Default/XkbDisable", "false")], Some(Ok(())))
    );
}

#[test]
fn xfce_writes_nothing_when_the_guard_stays() {
    assert_eq!(
        drive(set_keymap_xfce, Some("fr"), Some("oss"), vec![failed("guard")]),
        (vec![xfce("/Default/XkbDisable", "false")], Some(Err(failure("guard"))))
    );
}

fn sway(setting: &str, value: &str) -> Effect {
    run("swaymsg", &["input", "type:keyboard", setting, value])
}

#[test]
fn sway_clears_the_variant_first() {
    assert_eq!(
        drive(set_keymap_sway, Some("de"), Some("us"), vec![done(), done(), done()]),
        (
            vec![sway("xkb_variant", "''"), sway("xkb_layout", "de"), sway("xkb_variant", "us")],
            Some(Ok(()))
        )
    );
}

#[test]
fn sway_with_an_empty_request_only_clears_the_variant() {
    assert_eq!(
        drive(set_keymap_sway, None, None, vec![done()]),
        (vec![sway("xkb_variant", "''")], Some(Ok(())))
    );
    assert_eq!(
        drive(set_keymap_sway, None, None, vec![failed("no")]),
        (vec![sway("xkb_variant", "''")], Some(Err(failure("no"))))
    );
    assert_eq!(drive(set_keymap_sway, None, None, vec![]), (vec![sway("xkb_variant", "''")], None));
}

#[test]
fn sway_stops_at_the_first_failure() {
    assert_eq!(
        drive(set_keymap_sway, Some("de"), Some("us"), vec![done(), failed("layout")]),
        (vec![sway("xkb_variant", "''"), sway("xkb_layout", "de")], Some(Err(failure("layout"))))
    );
}

fn hyprland_append(text: &str) -> Effect {
    Effect::AppendConfig(ConfigAppend {
        home_variable: "XDG_CONFIG_HOME".to_string(),
        default_home: "~/.config".to_string(),
        path: vec!["hypr".to_string(), "hyprland.conf".to_string()],
        text: text.to_string(),
    })
}

#[test]
fn hyprland_appends_a_marked_block_and_reloads() {
    assert_eq!(
        drive(set_keymap_hyprland, Some("de"), Some("neo"), vec![done(), done()]),
        (
            vec![
                hyprland_append(
                    "\n# --- Begin setwlkeymap generated ---\ninput:kb_layout = de\ninput:kb_variant = neo\n# --- End setwlkeymap generated ---\n"
                ),
                run("hyprctl", &["reload"])
            ],
            Some(Ok(()))
        )
    );
    assert_eq!(
        drive(set_keymap_hyprland, None, Some("neo"), vec![done(), done()]).0[0],
        hyprland_append(
            "\n# --- Begin setwlkeymap generated ---\ninput:kb_variant = neo\n# --- End setwlkeymap generated ---\n"
        )
    );
    assert_eq!(
        drive(set_keymap_hyprland, Some(""), None, vec![done(), done()]).0[0],
        hyprland_append(
            "\n# --- Begin setwlkeymap generated ---\ninput:kb_layout = \n# --- End setwlkeymap generated ---\n"
        )
    );
}

#[test]
fn hyprland_with_an_empty_request_touches_nothing() {
    assert_eq!(drive(set_keymap_hyprland, None, None, vec![]), (vec![], Some(Ok(()))));
}

#[test]
fn hyprland_does_not_reload_what_it_could_not_write() {
    let error = ConfigAppend::open_failure("/hypr/hyprland.conf");
    let (effects, result) =
        drive(set_keymap_hyprland, Some("de"), None, vec![Outcome::Failed(error.clone())]);
    assert_eq!(effects.len(), 1);
    assert_eq!(result, Some(Err(error)));
    let (effects, result) = drive(set_keymap_hyprland, Some("de"), None, vec![done(), failed("reload")]);
    assert_eq!(effects.len(), 2);
    assert_eq!(result, Some(Err(failure("reload"))));
}

fn gnome_query() -> Effect {
    Effect::Capture(command("gsettings", &["get", "org.gnome.desktop.input-sources", "sources"]))
}

fn gnome_set(key: &str, value: &str) -> Effect {
    run("gsettings", &["set", "org.gnome.desktop.input-sources", key, value])
}

#[test]
fn gnome_needs_a_layout() {
    let expected = KeymapError::new(
        ErrorKind::InvalidRequest,
        "Setting the gnome keymap requires a layout",
    );
    assert_eq!(drive(set_keymap_gnome, None, Some("eng"), vec![]), (vec![], Some(Err(expected.clone()))));
    assert_eq!(drive(set_keymap_gnome, None, None, vec![]), (vec![], Some(Err(expected))));
}

#[test]
fn gnome_points_at_a_source_that_is_listed() {
    let listed = "[('xkb', 'us'), ('xkb', 'ca+eng')]\n";
    assert_eq!(
        drive(set_keymap_gnome, Some("ca"), Some("eng"), vec![output(listed), done()]),
        (vec![gnome_query(), gnome_set("current", "1")], Some(Ok(())))
    );
    assert_eq!(
        drive(set_keymap_gnome, Some("us"), None, vec![output(listed), done()]),
        (vec![gnome_query(), gnome_set("current", "0")], Some(Ok(())))
    );
}

#[test]
fn gnome_adds_a_source_that_is_not_listed() {
    let listed = "[('xkb', 'us'), ('xkb', 'ca+eng')]\n";
    assert_eq!(
        drive(set_keymap_gnome, Some("ca"), None, vec![output(listed), done(), done()]),
        (
            vec![
                gnome_query(),
                gnome_set("sources", "[('xkb', 'us'), ('xkb', 'ca+eng'), ('xkb', 'ca')]\n"),
                gnome_set("current", "2")
            ],
            Some(Ok(()))
        )
    );
    assert_eq!(
        drive(set_keymap_gnome, Some("de"), Some("nodeadkeys"), vec![output(""), done(), done()]),
        (
            vec![
                gnome_query(),
                gnome_set("sources", "[('xkb', 'de+nodeadkeys')]"),
                gnome_set("current", "0")
            ],
            Some(Ok(()))
        )
    );
}

#[test]
fn gnome_counts_past_nine_sources() {
    let mut listed = String::from("[");
    for i in 0..12 {
        if i > 0 {
            listed.push_str(", ");
        }
        listed.push_str(&format!("('xkb', 'l{i}')"));
    }
    listed.push(']');
    assert_eq!(
        drive(set_keymap_gnome, Some("l11"), None, vec![output(&listed), done()]).0[1],
        gnome_set("current", "11")
    );
    assert_eq!(
        drive(set_keymap_gnome, Some("new"), None, vec![output(&listed), done(), done()]).0[2],
        gnome_set("current", "12")
    );
}

#[test]
fn gnome_stops_when_the_list_cannot_be_read() {
    assert_eq!(
        drive(set_keymap_gnome, Some("de"), None, vec![failed("query")]),
        (vec![gnome_query()], Some(Err(failure("query"))))
    );
}

#[test]
fn gnome_leaves_the_index_alone_when_the_list_cannot_be_written() {
    assert_eq!(
        drive(set_keymap_gnome, Some("de"), None, vec![output("[('xkb', 'us')]"), failed("write")]),
        (
            vec![gnome_query(), gnome_set("sources", "[('xkb', 'us'), ('xkb', 'de')]")],
            Some(Err(failure("write")))
        )
    );
}

#[test]
fn gnome_reports_a_failure_to_set_the_index() {
    assert_eq!(
        drive(set_keymap_gnome, Some("us"), None, vec![output("[('xkb', 'us')]"), failed("index")]).1,
        Some(Err(failure("index")))
    );
    assert_eq!(
        drive(
            set_keymap_gnome,
            Some("de"),
            None,
            vec![output("[('xkb', 'us')]"), done(), failed("index")]
        )
        .1,
        Some(Err(failure("index")))
    );
}

fn cinnamon_message() -> String {
    "As of June 2025 cinnamon wayland is still experimental and doesn't yet support switching\n the keyboard layout. You can check if that's still the case by opening the keyboard settings dialog\n and looking for an 'Layout' tab. In case this changed consider opening an issue or submitting a\n patch at https://github.com/derdilla/setwlkbmap.".to_string()
}

#[test]
fn cinnamon_always_refuses() {
    let expected = KeymapError { kind: ErrorKind::UnsupportedOperation, message: cinnamon_message() };
    assert_eq!(
        set_keymap_cinnamon(text("us"), text("intl"), &Session::new(false)),
        Step::Finished(Err(expected.clone()))
    );
    assert_eq!(drive(set_keymap_cinnamon, None, None, vec![done()]), (vec![], Some(Err(expected))));
}

#[test]
fn cosmic_epoch_refuses_where_the_store_is_out_of_reach() {
    assert_eq!(
        set_keymap_cosmic_epoch(text("us"), None, &Session::new(false)),
        Step::Finished(Err(KeymapError::new(
            ErrorKind::UnsupportedOperation,
            "COSMIC epoch support was disabled during build."
        )))
    );
}

#[test]
fn cosmic_epoch_updates_the_keyboard_entry() {
    let update = Effect::UpdateXkbConfig(XkbUpdate {
        store: "com.system76.CosmicComp".to_string(),
        version: 1,
        key: "xkb_config".to_string(),
        layout: text("us"),
        variant: None,
    });
    assert_eq!(
        drive(set_keymap_cosmic_epoch, Some("us"), None, vec![done()]),
        (vec![update.clone()], Some(Ok(())))
    );
    assert_eq!(
        drive(set_keymap_cosmic_epoch, Some("us"), None, vec![failed("store")]),
        (vec![update], Some(Err(failure("store"))))
    );
}

const ALL: [DesktopEnvironment; 23] = [
    DesktopEnvironment::Cinnamon,
    DesktopEnvironment::Cosmic,
    DesktopEnvironment::CosmicEpoch,
    DesktopEnvironment::Dde,
    DesktopEnvironment::Ede,
    DesktopEnvironment::Endless,
    DesktopEnvironment::Enlightenment,
    DesktopEnvironment::Gnome,
    DesktopEnvironment::Hyprland,
    DesktopEnvironment::Kde,
    DesktopEnvironment::Lxde,
    DesktopEnvironment::Lxqt,
    DesktopEnvironment::MacOs,
    DesktopEnvironment::Mate,
    DesktopEnvironment::Old,
    DesktopEnvironment::Pantheon,
    DesktopEnvironment::Razor,
    DesktopEnvironment::Rox,
    DesktopEnvironment::Sway,
    DesktopEnvironment::Tde,
    DesktopEnvironment::Unity,
    DesktopEnvironment::Windows,
    DesktopEnvironment::Xfce,
];

#[test]
fn dispatch_goes_to_the_backend_of_the_environment() {
    let session = Session::new(false);
    let cases: [(DesktopEnvironment, Backend); 7] = [
        (DesktopEnvironment::Cinnamon, set_keymap_cinnamon),
        (DesktopEnvironment::CosmicEpoch, set_keymap_cosmic_epoch),
        (DesktopEnvironment::Gnome, set_keymap_gnome),
        (DesktopEnvironment::Hyprland, set_keymap_hyprland),
        (DesktopEnvironment::Kde, set_keymap_kde),
        (DesktopEnvironment::Sway, set_keymap_sway),
        (DesktopEnvironment::Xfce, set_keymap_xfce),
    ];
    for (desktop, backend) in cases {
        assert!(desktop.has_backend());
        assert_eq!(
            desktop.set_keymap(text("de"), text("neo"), &session),
            backend(text("de"), text("neo"), &session),
            "{desktop:?}"
        );
    }
    assert_eq!(
        DesktopEnvironment::Kde.set_keymap(text("de"), None, &session),
        Step::Perform(kde("LayoutList", "de"))
    );
}

#[test]
fn dispatch_without_a_backend_is_unimplemented() {
    let mut without = 0;
    for desktop in ALL {
        if desktop.has_backend() {
            continue;
        }
        without += 1;
        assert_eq!(
            desktop.set_keymap(text("us"), None, &Session::new(true)),
            Step::Finished(Err(KeymapError {
                kind: ErrorKind::Unimplemented(desktop),
                message: format!("settings keymap unimplemented for {desktop:?}"),
            }))
        );
        assert_eq!(KeymapError::unimplemented(desktop).kind, ErrorKind::Unimplemented(desktop));
    }
    assert_eq!(without, 16);
}

#[test]
fn names_are_the_names_of_the_tags() {
    for desktop in ALL {
        assert_eq!(desktop.name(), format!("{desktop:?}"));
    }
}

#[test]
fn every_request_is_over_after_three_effects() {
    let requests = [(None, None), (Some("de"), None), (None, Some("neo")), (Some("de"), Some("neo"))];
    let outcomes = [done(), output("[('xkb', 'us')]"), failed("no")];
    for desktop in ALL {
        for (layout, variant) in requests {
            for first in 0..3 {
                for second in 0..3 {
                    let mut session = Session::new(true);
                    let mut performed = 0;
                    loop {
                        let step = desktop.set_keymap(
                            layout.map(String::from),
                            variant.map(String::from),
                            &session,
                        );
                        match step {
                            Step::Finished(_) => break,
                            Step::Perform(_) => {
                                let pick = [first, second, 0][performed.min(2)];
                                performed += 1;
                                session.record(outcomes[pick].clone());
                            }
                        }
                        assert!(performed <= 3, "{desktop:?}");
                    }
                }
            }
        }
    }
}
