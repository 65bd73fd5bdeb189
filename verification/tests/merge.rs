use gnome_randr::binary64::Binary64;
use gnome_randr::display_config::models::{KnownModeProperties, LogicalMonitor, Mode, PhysicalMonitor};
use gnome_randr::display_config::monitor_models::{
    Displacement, MonitorDescription, Orientation, Rotation, Transform,
};
use gnome_randr::display_config::{ApplyConfig, ApplyMonitor, DisplayConfig, KnownProperties, LayoutMode};
use gnome_randr::modify::{
    build_apply_configs, handle, is_ambiguous, sets_primary, Action, ActionOptions,
    CommandOptions, DisplacementAction, Field, ModeAction, OrientationAction, Outcome,
    PrimaryAction, ScaleAction,
};
use gnome_randr::Error;

fn float(value: f64) -> Binary64 {
    Binary64::from_bits(value.to_bits())
}

fn mode(id: &str, width: i32, height: i32, is_current: bool) -> Mode {
    Mode {
        id: id.to_string(),
        width,
        height,
        refresh_rate: float(60.0),
        preferred_scale: float(1.0),
        supported_scales: vec![float(1.0), float(2.0)],
        known_properties: KnownModeProperties { is_current, is_preferred: false },
        properties: vec![],
    }
}

fn physical(connector: &str, modes: Vec<Mode>) -> PhysicalMonitor {
    PhysicalMonitor {
        connector: connector.to_string(),
        vendor: "VND".to_string(),
        product: "Panel".to_string(),
        serial: "0001".to_string(),
        modes,
        properties: vec![],
    }
}

fn description(connector: &str) -> MonitorDescription {
    MonitorDescription::from((
        connector.to_string(),
        "VND".to_string(),
        "Panel".to_string(),
        "0001".to_string(),
    ))
}

fn normal() -> Orientation {
    Orientation { rotation: Rotation::Normal, flipped: false }
}

fn logical(x: i32, y: i32, primary: bool, connectors: &[&str]) -> LogicalMonitor {
    LogicalMonitor {
        transform: Transform {
            displacement: Displacement { x, y, scale: float(1.0) },
            orientation: normal(),
        },
        primary,
        monitors: connectors.iter().map(|c| description(c)).collect(),
        properties: vec![],
    }
}

fn known() -> KnownProperties {
    KnownProperties {
        supports_mirroring: true,
        layout_mode: LayoutMode::Logical,
        supports_changing_layout_mode: false,
        global_scale_required: false,
    }
}

/// HDMI-1 (primary) to the left of eDP-1.
fn two_monitors() -> DisplayConfig {
    DisplayConfig {
        serial: 5,
        monitors: vec![
            physical(
                "HDMI-1",
                vec![mode("1920x1080@60", 1920, 1080, true), mode("1280x720@60", 1280, 720, false)],
            ),
            physical(
                "eDP-1",
                vec![mode("1366x768@60", 1366, 768, false), mode("2560x1440@60", 2560, 1440, true)],
            ),
        ],
        logical_monitors: vec![
            logical(0, 0, true, &["HDMI-1"]),
            logical(1920, 0, false, &["eDP-1"]),
        ],
        known_properties: known(),
        properties: vec![],
    }
}

#[test]
fn set_primary_moves_the_flag() {
    let config = two_monitors();
    let actions = vec![Action::SetPrimary(PrimaryAction {})];
    let configs = build_apply_configs(&config, "eDP-1", &actions).unwrap();
    assert_eq!(configs.len(), 2);
    assert_eq!(configs[0].monitors, vec![ApplyMonitor { connector: "HDMI-1", mode_id: "1920x1080@60" }]);
    assert!(!configs[0].primary);
    assert_eq!(configs[1].monitors, vec![ApplyMonitor { connector: "eDP-1", mode_id: "2560x1440@60" }]);
    assert!(configs[1].primary);
    assert_eq!(configs.iter().filter(|c| c.primary).count(), 1);
}

#[test]
fn set_primary_on_the_primary_keeps_one_primary() {
    let config = two_monitors();
    let actions = vec![Action::SetPrimary(PrimaryAction {})];
    let configs = build_apply_configs(&config, "HDMI-1", &actions).unwrap();
    assert_eq!(configs.len(), 2);
    assert!(configs[0].primary);
    assert!(!configs[1].primary);
}

#[test]
fn other_monitors_keep_their_geometry() {
    let config = two_monitors();
    let turned = Orientation { rotation: Rotation::Left, flipped: true };
    let actions = vec![Action::SetOrientation(OrientationAction { orientation: turned })];
    let configs = build_apply_configs(&config, "eDP-1", &actions).unwrap();
    assert_eq!(
        configs,
        vec![
            ApplyConfig {
                transform: config.logical_monitors[0].transform,
                primary: true,
                monitors: vec![ApplyMonitor { connector: "HDMI-1", mode_id: "1920x1080@60" }],
            },
            ApplyConfig {
                transform: Transform {
                    displacement: Displacement { x: 1920, y: 0, scale: float(1.0) },
                    orientation: turned,
                },
                primary: false,
                monitors: vec![ApplyMonitor { connector: "eDP-1", mode_id: "2560x1440@60" }],
            },
        ]
    );
}

#[test]
fn no_actions_give_the_unchanged_configuration() {
    let config = two_monitors();
    let configs = build_apply_configs(&config, "HDMI-1", &vec![]).unwrap();
    assert_eq!(configs.len(), config.logical_monitors.len());
    for (built, logical) in configs.iter().zip(config.logical_monitors.iter()) {
        assert_eq!(built.transform, logical.transform);
        assert_eq!(built.primary, logical.primary);
    }
}

#[test]
fn later_actions_override_earlier_ones() {
    let config = two_monitors();
    let actions = vec![
        Action::SetMode(ModeAction { mode: "1366x768@60" }),
        Action::SetScale(ScaleAction { scale: float(2.0) }),
        Action::SetDisplacement(DisplacementAction {
            displacement: Displacement { x: 10, y: 20, scale: float(1.5) },
        }),
        Action::SetMode(ModeAction { mode: "2560x1440@60" }),
        Action::SetScale(ScaleAction { scale: float(1.25) }),
    ];
    let configs = build_apply_configs(&config, "eDP-1", &actions).unwrap();
    assert_eq!(
        configs[1],
        ApplyConfig {
            transform: Transform {
                displacement: Displacement { x: 10, y: 20, scale: float(1.25) },
                orientation: normal(),
            },
            primary: false,
            monitors: vec![ApplyMonitor { connector: "eDP-1", mode_id: "2560x1440@60" }],
        }
    );
    assert!(configs[0].primary);
}

#[test]
fn each_action_changes_its_own_field_only() {
    let config = two_monitors();
    let (logical, physical) = config.search("eDP-1").unwrap();
    let seed = ApplyConfig::from(logical, physical).unwrap();

    let mut turned = seed.clone();
    let orientation = Orientation { rotation: Rotation::Inverted, flipped: false };
    OrientationAction { orientation }.apply(&mut turned, physical);
    assert_eq!(turned.transform.orientation, orientation);
    assert_eq!(turned.transform.displacement, seed.transform.displacement);
    assert_eq!(turned.primary, seed.primary);
    assert_eq!(turned.monitors, seed.monitors);

    let mut moved = seed.clone();
    let displacement = Displacement { x: -5, y: 7, scale: float(2.0) };
    DisplacementAction { displacement }.apply(&mut moved, physical);
    assert_eq!(moved.transform.displacement, displacement);
    assert_eq!(moved.transform.orientation, seed.transform.orientation);

    let mut scaled = seed.clone();
    ScaleAction { scale: float(3.0) }.apply(&mut scaled, physical);
    assert_eq!(
        scaled.transform.displacement,
        Displacement { x: 1920, y: 0, scale: float(3.0) }
    );

    let mut switched = seed.clone();
    ModeAction { mode: "1366x768@60" }.apply(&mut switched, physical);
    assert_eq!(switched.monitors, vec![ApplyMonitor { connector: "eDP-1", mode_id: "1366x768@60" }]);
    assert_eq!(switched.transform, seed.transform);

    let mut promoted = seed.clone();
    PrimaryAction {}.apply(&mut promoted, physical);
    assert!(promoted.primary);
    assert_eq!(promoted.monitors, seed.monitors);
}

#[test]
fn unknown_connector_is_not_found() {
    let config = two_monitors();
    let actions = vec![Action::SetPrimary(PrimaryAction {})];
    assert_eq!(build_apply_configs(&config, "DP-9", &actions), Err(Error::NotFound));
}

#[test]
fn connector_without_logical_monitor_is_not_found() {
    let mut config = two_monitors();
    config.monitors.push(physical("DP-2", vec![mode("800x600@60", 800, 600, true)]));
    let actions = vec![Action::SetPrimary(PrimaryAction {})];
    assert_eq!(build_apply_configs(&config, "DP-2", &actions), Err(Error::NotFound));
}

#[test]
fn target_without_current_mode_fails() {
    let mut config = two_monitors();
    config.monitors[1].modes[1].known_properties.is_current = false;
    let actions = vec![Action::SetPrimary(PrimaryAction {})];
    assert_eq!(build_apply_configs(&config, "eDP-1", &actions), Err(Error::NoCurrentMode));
}

#[test]
fn other_monitor_without_current_mode_fails() {
    let mut config = two_monitors();
    config.monitors[0].modes[0].known_properties.is_current = false;
    let actions = vec![Action::SetPrimary(PrimaryAction {})];
    assert_eq!(build_apply_configs(&config, "eDP-1", &actions), Err(Error::NoCurrentMode));
}

#[test]
fn unresolvable_logical_monitor_is_skipped() {
    let mut config = two_monitors();
    config.logical_monitors.insert(1, logical(0, 1080, false, &["VGA-1"]));
    config.logical_monitors.push(logical(0, 2000, false, &[]));
    let actions = vec![Action::SetScale(ScaleAction { scale: float(2.0) })];
    let configs = build_apply_configs(&config, "eDP-1", &actions).unwrap();
    assert_eq!(configs.len(), 2);
    assert_eq!(configs[0].monitors[0].connector, "HDMI-1");
    assert_eq!(configs[1].monitors[0].connector, "eDP-1");
    assert_eq!(configs[1].transform.displacement.scale, float(2.0));
}

#[test]
fn snapshot_order_is_kept() {
    let mut config = two_monitors();
    config.monitors.insert(0, physical("DP-3", vec![mode("640x480@60", 640, 480, true)]));
    config.logical_monitors.push(logical(0, 1080, false, &["DP-3"]));
    let actions = vec![Action::SetPrimary(PrimaryAction {})];
    let configs = build_apply_configs(&config, "DP-3", &actions).unwrap();
    let connectors: Vec<&str> = configs.iter().map(|c| c.monitors[0].connector).collect();
    assert_eq!(connectors, vec!["HDMI-1", "eDP-1", "DP-3"]);
    let primary: Vec<bool> = configs.iter().map(|c| c.primary).collect();
    assert_eq!(primary, vec![false, false, true]);
}

#[test]
fn a_mirrored_group_is_kept_with_its_first_monitor() {
    let mut config = two_monitors();
    config.monitors.push(physical("DP-3", vec![mode("1920x1080@60", 1920, 1080, true)]));
    config.logical_monitors[0] = logical(0, 0, true, &["HDMI-1", "DP-3"]);
    let actions = vec![Action::SetScale(ScaleAction { scale: float(2.0) })];
    let configs = build_apply_configs(&config, "eDP-1", &actions).unwrap();
    assert_eq!(configs.len(), 2);
    assert_eq!(configs[0].monitors, vec![ApplyMonitor { connector: "HDMI-1", mode_id: "1920x1080@60" }]);
}

#[test]
fn the_first_current_mode_counts() {
    let mut config = two_monitors();
    config.monitors[1].modes[0].known_properties.is_current = true;
    let (logical, physical) = config.search("eDP-1").unwrap();
    let seed = ApplyConfig::from(logical, physical).unwrap();
    assert_eq!(seed.monitors, vec![ApplyMonitor { connector: "eDP-1", mode_id: "1366x768@60" }]);
}

fn options<'a>(connector: &'a str, actions: ActionOptions<'a>) -> CommandOptions<'a> {
    CommandOptions { connector, actions, persistent: false, dry_run: false }
}

fn nothing<'a>() -> ActionOptions<'a> {
    ActionOptions { rotation: None, mode: None, primary: false, scale: None, displacement: None }
}

#[test]
fn options_become_actions_in_a_fixed_order() {
    let turned = Orientation { rotation: Rotation::Right, flipped: false };
    let displacement = Displacement { x: 1, y: 2, scale: float(1.0) };
    let all = ActionOptions {
        rotation: Some(turned),
        mode: Some("1366x768@60"),
        primary: true,
        scale: Some(float(2.0)),
        displacement: Some(displacement),
    };
    assert_eq!(
        all.actions(),
        vec![
            Action::SetOrientation(OrientationAction { orientation: turned }),
            Action::SetMode(ModeAction { mode: "1366x768@60" }),
            Action::SetPrimary(PrimaryAction {}),
            Action::SetScale(ScaleAction { scale: float(2.0) }),
            Action::SetDisplacement(DisplacementAction { displacement }),
        ]
    );
    assert_eq!(nothing().actions(), vec![]);
    let only_scale = ActionOptions { scale: Some(float(2.0)), ..nothing() };
    assert_eq!(only_scale.actions(), vec![Action::SetScale(ScaleAction { scale: float(2.0) })]);
}

#[test]
fn a_request_without_changes_comes_to_nothing() {
    let config = two_monitors();
    assert_eq!(handle(&options("eDP-1", nothing()), &config), Ok(Outcome::NoChanges));
}

#[test]
fn a_request_for_an_unknown_connector_fails_first() {
    let config = two_monitors();
    assert_eq!(handle(&options("DP-9", nothing()), &config), Err(Error::NotFound));
    let primary = ActionOptions { primary: true, ..nothing() };
    assert_eq!(handle(&options("DP-9", primary), &config), Err(Error::NotFound));
}

#[test]
fn a_dry_run_shows_the_target_only() {
    let config = two_monitors();
    let request = CommandOptions {
        connector: "eDP-1",
        actions: ActionOptions { primary: true, mode: Some("1366x768@60"), ..nothing() },
        persistent: true,
        dry_run: true,
    };
    assert_eq!(
        handle(&request, &config),
        Ok(Outcome::DryRun(ApplyConfig {
            transform: config.logical_monitors[1].transform,
            primary: true,
            monitors: vec![ApplyMonitor { connector: "eDP-1", mode_id: "1366x768@60" }],
        }))
    );
}

#[test]
fn a_request_comes_to_the_whole_list() {
    let config = two_monitors();
    let request = CommandOptions {
        connector: "eDP-1",
        actions: ActionOptions { primary: true, ..nothing() },
        persistent: true,
        dry_run: false,
    };
    let actions = vec![Action::SetPrimary(PrimaryAction {})];
    assert_eq!(
        handle(&request, &config),
        Ok(Outcome::Apply {
            configs: build_apply_configs(&config, "eDP-1", &actions).unwrap(),
            persistent: true,
        })
    );
}

#[test]
fn a_request_on_a_monitor_without_current_mode_fails() {
    let mut config = two_monitors();
    config.monitors[1].modes[1].known_properties.is_current = false;
    let primary = ActionOptions { primary: true, ..nothing() };
    assert_eq!(handle(&options("eDP-1", primary), &config), Err(Error::NoCurrentMode));
    let dry = CommandOptions { dry_run: true, ..options("eDP-1", primary) };
    assert_eq!(handle(&dry, &config), Err(Error::NoCurrentMode));
    assert_eq!(handle(&options("eDP-1", nothing()), &config), Ok(Outcome::NoChanges));
}

#[test]
fn search_finds_the_pair() {
    let config = two_monitors();
    let (logical, physical) = config.search("eDP-1").unwrap();
    assert_eq!(logical, &config.logical_monitors[1]);
    assert_eq!(physical, &config.monitors[1]);
    let (logical, physical) = config.search("HDMI-1").unwrap();
    assert_eq!(logical, &config.logical_monitors[0]);
    assert_eq!(physical, &config.monitors[0]);
}

#[test]
fn search_misses_the_absent() {
    let mut config = two_monitors();
    assert!(config.search("DP-9").is_none());
    assert!(config.search("").is_none());
    assert!(config.search("edp-1").is_none());
    // A physical monitor that no logical monitor shows is not found either.
    config.monitors.push(physical("DP-2", vec![]));
    assert!(config.search("DP-2").is_none());
    // Nor is a connector that a logical monitor lists without a physical monitor.
    config.logical_monitors.push(logical(0, 0, false, &["VGA-1"]));
    assert!(config.search("VGA-1").is_none());
}

#[test]
fn search_finds_a_monitor_inside_a_mirrored_group() {
    let mut config = two_monitors();
    config.monitors.push(physical("DP-3", vec![mode("1920x1080@60", 1920, 1080, true)]));
    config.logical_monitors[0] = logical(0, 0, true, &["HDMI-1", "DP-3"]);
    let (logical, physical) = config.search("DP-3").unwrap();
    assert_eq!(logical, &config.logical_monitors[0]);
    assert_eq!(physical, &config.monitors[2]);
    assert_eq!(config.physical_position("DP-3"), Some(2));
    assert_eq!(config.logical_position("DP-3"), Some(0));
    assert_eq!(config.logical_position("DP-9"), None);
    assert!(config.logical_monitors[0].shows("DP-3"));
    assert!(!config.logical_monitors[1].shows("DP-3"));
}

#[test]
fn the_request_carries_the_serial_of_the_snapshot() {
    let config = two_monitors();
    let actions = vec![Action::SetPrimary(PrimaryAction {})];
    let configs = build_apply_configs(&config, "eDP-1", &actions).unwrap();
    let request = config.apply_monitors_config(&configs, false);
    assert_eq!(request.serial, 5);
    assert_eq!(request.method, 1);
    assert_eq!(
        request.logical_monitors,
        vec![
            (0, 0, float(1.0), 0, false, vec![("HDMI-1", "1920x1080@60")]),
            (1920, 0, float(1.0), 0, true, vec![("eDP-1", "2560x1440@60")]),
        ]
    );
    assert_eq!(config.apply_monitors_config(&configs, true).method, 2);
}

#[test]
fn a_configuration_is_laid_out_in_wire_order() {
    let config = ApplyConfig {
        transform: Transform {
            displacement: Displacement { x: -3, y: 9, scale: float(1.5) },
            orientation: Orientation { rotation: Rotation::Left, flipped: true },
        },
        primary: true,
        monitors: vec![
            ApplyMonitor { connector: "DP-1", mode_id: "a" },
            ApplyMonitor { connector: "DP-2", mode_id: "b" },
        ],
    };
    assert_eq!(config.serialize(), (-3, 9, float(1.5), 7, true, vec![("DP-1", "a"), ("DP-2", "b")]));
    assert_eq!(config.monitors[1].serialize(), ("DP-2", "b"));
}

#[test]
fn a_logical_monitor_is_laid_out_with_one_mode_for_all() {
    let monitor = logical(4, 5, false, &["DP-1", "DP-2"]);
    assert_eq!(
        monitor.to_result("1024x768@60"),
        (4, 5, float(1.0), 0, false, vec![("DP-1", "1024x768@60"), ("DP-2", "1024x768@60")])
    );
}

#[test]
fn a_copy_of_a_logical_monitor_lacks_the_properties() {
    let mut monitor = logical(4, 5, true, &["DP-1"]);
    monitor.properties.push(gnome_randr::display_config::property::Property {
        key: "presentation".to_string(),
        number: Some(1),
        text: "true".to_string(),
    });
    let copy = monitor.clone();
    assert_eq!(copy.transform, monitor.transform);
    assert_eq!(copy.primary, monitor.primary);
    assert_eq!(copy.monitors, monitor.monitors);
    assert!(copy.properties.is_empty());
}

#[test]
fn a_sound_snapshot_is_consistent() {
    assert!(two_monitors().is_consistent());
    let mut config = two_monitors();
    config.monitors.push(physical("DP-3", vec![]));
    config.logical_monitors[0] = logical(0, 0, true, &["HDMI-1", "DP-3"]);
    assert!(config.is_consistent());
    let empty = DisplayConfig {
        serial: 0,
        monitors: vec![],
        logical_monitors: vec![],
        known_properties: known(),
        properties: vec![],
    };
    assert!(empty.is_consistent());
}

#[test]
fn a_dangling_connector_is_inconsistent() {
    let mut config = two_monitors();
    config.logical_monitors.push(logical(0, 0, false, &["VGA-1"]));
    assert!(!config.is_consistent());
    assert!(!config.has_sole_physical("VGA-1"));
}

#[test]
fn a_connector_with_two_physical_monitors_is_inconsistent() {
    let mut config = two_monitors();
    config.monitors.push(physical("eDP-1", vec![mode("x", 1, 1, true)]));
    assert!(!config.is_consistent());
    assert!(!config.has_sole_physical("eDP-1"));
    assert!(config.has_sole_physical("HDMI-1"));
}

#[test]
fn a_logical_monitor_without_monitors_is_inconsistent() {
    let mut config = two_monitors();
    config.logical_monitors.push(logical(0, 0, false, &[]));
    assert!(!config.is_consistent());
}

#[test]
fn two_primaries_are_inconsistent() {
    let mut config = two_monitors();
    assert!(config.has_one_primary_at_most());
    config.logical_monitors[1].primary = true;
    assert!(!config.has_one_primary_at_most());
    assert!(!config.is_consistent());
    config.logical_monitors[0].primary = false;
    config.logical_monitors[1].primary = false;
    assert!(config.has_one_primary_at_most());
    assert!(config.is_consistent());
}

#[test]
fn two_current_modes_are_inconsistent() {
    let mut config = two_monitors();
    assert!(config.monitors[1].has_one_current_mode_at_most());
    config.monitors[1].modes[0].known_properties.is_current = true;
    assert!(!config.monitors[1].has_one_current_mode_at_most());
    assert!(!config.is_consistent());
    config.monitors[1].modes[0].known_properties.is_current = false;
    config.monitors[1].modes[1].known_properties.is_current = false;
    assert!(config.monitors[1].has_one_current_mode_at_most());
    assert!(config.is_consistent());
}

#[test]
fn a_consistent_snapshot_gives_one_entry_per_logical_monitor() {
    let mut config = two_monitors();
    config.monitors.push(physical("DP-3", vec![mode("640x480@60", 640, 480, true)]));
    config.logical_monitors.insert(0, logical(-640, 0, false, &["DP-3"]));
    assert!(config.is_consistent());
    for target in ["HDMI-1", "eDP-1", "DP-3"] {
        let position = config.logical_position(target).unwrap();
        let changing = vec![
            Action::SetScale(ScaleAction { scale: float(2.0) }),
            Action::SetPrimary(PrimaryAction {}),
        ];
        let configs = build_apply_configs(&config, target, &changing).unwrap();
        assert_eq!(configs.len(), config.logical_monitors.len());
        for (i, built) in configs.iter().enumerate() {
            assert_eq!(built.primary, i == position);
            if i != position {
                assert_eq!(built.transform, config.logical_monitors[i].transform);
            }
        }
        let keeping = vec![Action::SetScale(ScaleAction { scale: float(2.0) })];
        let configs = build_apply_configs(&config, target, &keeping).unwrap();
        assert_eq!(configs.len(), config.logical_monitors.len());
        for (i, built) in configs.iter().enumerate() {
            assert_eq!(built.primary, config.logical_monitors[i].primary);
        }
    }
}

#[test]
fn changes_to_the_same_field_are_ambiguous() {
    let scale = Action::SetScale(ScaleAction { scale: float(2.0) });
    let displacement = Action::SetDisplacement(DisplacementAction {
        displacement: Displacement { x: 0, y: 0, scale: float(1.0) },
    });
    let mode = Action::SetMode(ModeAction { mode: "a" });
    let other_mode = Action::SetMode(ModeAction { mode: "b" });
    let primary = Action::SetPrimary(PrimaryAction {});
    let turn = Action::SetOrientation(OrientationAction { orientation: normal() });
    assert!(!is_ambiguous(&vec![]));
    assert!(!is_ambiguous(&vec![scale]));
    assert!(!is_ambiguous(&vec![turn, mode, primary, scale]));
    assert!(!is_ambiguous(&vec![turn, mode, primary, displacement]));
    assert!(is_ambiguous(&vec![scale, displacement]));
    assert!(is_ambiguous(&vec![displacement, turn, scale]));
    assert!(is_ambiguous(&vec![mode, primary, other_mode]));
    assert!(is_ambiguous(&vec![primary, primary]));
    assert!(is_ambiguous(&vec![turn, mode, turn]));
    assert_eq!(scale.field(), Field::Displacement);
    assert_eq!(displacement.field(), Field::Displacement);
    assert_eq!(mode.field(), Field::Mode);
    assert_eq!(primary.field(), Field::Primary);
    assert_eq!(turn.field(), Field::Orientation);
}

#[test]
fn a_primary_action_is_noticed() {
    let scale = Action::SetScale(ScaleAction { scale: float(2.0) });
    let primary = Action::SetPrimary(PrimaryAction {});
    assert!(!sets_primary(&vec![]));
    assert!(!sets_primary(&vec![scale]));
    assert!(sets_primary(&vec![scale, primary]));
    assert!(sets_primary(&vec![primary, scale]));
}
