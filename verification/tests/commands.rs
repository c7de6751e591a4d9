use aim_calibrate::calculations::FovAngle;
use aim_calibrate::commands::{
    convert_sens, get_app_settings, get_initial_values, get_yaw_values, save_game_yaw,
    set_app_settings, set_current_page, set_user_settings, set_yaw_values, YawMode,
};
use aim_calibrate::error::{MathError, SettingsError};
use aim_calibrate::fixed::Fixed;
use aim_calibrate::hotkeys::ShortcutCommand;
use aim_calibrate::models::{AppSettings, GameYaw, UserSettings, YawStuff};
use aim_calibrate::mouse_tracker::{AppState, CalibrationPage, MouseTracker};

fn fx(raw: i64) -> Fixed {
    Fixed::new(raw)
}

fn keys(names: [&str; 4]) -> Vec<String> {
    names.iter().map(|name| name.to_string()).collect()
}

fn rebinding(names: [&str; 4]) -> Vec<ShortcutCommand> {
    vec![
        ShortcutCommand::UnregisterAll,
        ShortcutCommand::Register { index: 0, key: names[0].to_string() },
        ShortcutCommand::Register { index: 1, key: names[1].to_string() },
        ShortcutCommand::Register { index: 2, key: names[2].to_string() },
        ShortcutCommand::Register { index: 3, key: names[3].to_string() },
    ]
}

fn blank() -> UserSettings {
    let level = FovAngle { degrees: fx(0), half_tan: fx(0) };
    UserSettings {
        cm360: fx(0),
        dpi: 0,
        normal_fov: level,
        scoped_fov: level,
        game_sens: fx(0),
        game_fov: fx(0),
    }
}

#[test]
fn user_settings_change_only_where_given() {
    let mut state = blank();
    set_user_settings(Some(fx(30_000_000_000)), Some(800), None, None, None, None, &mut state);
    assert_eq!(state, UserSettings { cm360: fx(30_000_000_000), dpi: 800, ..blank() });
    let wide = FovAngle { degrees: fx(103_000_000_000), half_tan: fx(1_257_172_330) };
    let tight = FovAngle { degrees: fx(45_000_000_000), half_tan: fx(414_213_562) };
    set_user_settings(
        None,
        None,
        Some(wide),
        Some(tight),
        Some(fx(2_000_000_000)),
        Some(fx(90_000_000_000)),
        &mut state,
    );
    let full = UserSettings {
        cm360: fx(30_000_000_000),
        dpi: 800,
        normal_fov: wide,
        scoped_fov: tight,
        game_sens: fx(2_000_000_000),
        game_fov: fx(90_000_000_000),
    };
    assert_eq!(state, full);
    set_user_settings(None, None, None, None, None, None, &mut state);
    assert_eq!(state, full);
    assert_eq!(get_initial_values(&state), full);
}

#[test]
fn app_settings_change_only_where_given() {
    let mut state = AppSettings::default();
    assert_eq!(
        set_app_settings(Some(fx(2_500_000_000)), None, &mut state),
        Ok(rebinding(["F1", "F2", "F3", "F4"]))
    );
    assert_eq!(
        state,
        AppSettings { turn_speed: fx(2_500_000_000), hotkeys: keys(["F1", "F2", "F3", "F4"]) }
    );
    assert_eq!(
        set_app_settings(None, Some(keys(["A", "B", "C", "D"])), &mut state),
        Ok(rebinding(["A", "B", "C", "D"]))
    );
    assert_eq!(
        state,
        AppSettings { turn_speed: fx(2_500_000_000), hotkeys: keys(["A", "B", "C", "D"]) }
    );
    assert_eq!(set_app_settings(None, None, &mut state), Ok(rebinding(["A", "B", "C", "D"])));
    assert_eq!(
        state,
        AppSettings { turn_speed: fx(2_500_000_000), hotkeys: keys(["A", "B", "C", "D"]) }
    );
    assert_eq!(
        set_app_settings(Some(fx(1)), Some(keys(["F5", "F6", "F7", "F8"])), &mut state),
        Ok(rebinding(["F5", "F6", "F7", "F8"]))
    );
    assert_eq!(state, AppSettings { turn_speed: fx(1), hotkeys: keys(["F5", "F6", "F7", "F8"]) });
    assert_eq!(get_app_settings(&state), state);
    assert!(state.is_valid());
}

#[test]
fn hotkeys_of_other_than_four_are_refused() {
    let mut state = AppSettings::default();
    for count in [0usize, 1, 3, 5, 9] {
        let hotkeys: Vec<String> = (0..count).map(|i| format!("F{}", i + 5)).collect();
        assert_eq!(
            set_app_settings(Some(fx(3_000_000_000)), Some(hotkeys), &mut state),
            Err(SettingsError::HotkeyCount)
        );
        assert_eq!(state, AppSettings::default());
    }
}

#[test]
fn a_turn_speed_that_is_not_positive_is_refused() {
    let mut state = AppSettings::default();
    for speed in [0i64, -1, -1_000_000_000, i64::MIN] {
        assert_eq!(
            set_app_settings(Some(fx(speed)), Some(keys(["A", "B", "C", "D"])), &mut state),
            Err(SettingsError::TurnSpeed)
        );
        assert_eq!(state, AppSettings::default());
    }
    // the turn speed is looked at first
    assert_eq!(
        set_app_settings(Some(fx(0)), Some(vec![]), &mut state),
        Err(SettingsError::TurnSpeed)
    );
}

#[test]
fn default_settings() {
    let state = AppSettings::default();
    assert_eq!(state.turn_speed, fx(1_000_000_000));
    assert_eq!(state.hotkeys, keys(["F1", "F2", "F3", "F4"]));
    assert!(state.is_valid());
    assert!(!AppSettings { turn_speed: fx(0), hotkeys: keys(["F1", "F2", "F3", "F4"]) }.is_valid());
    assert!(!AppSettings { turn_speed: fx(1), hotkeys: vec![] }.is_valid());
}

#[test]
fn a_new_sensitivity_moves_the_estimate_and_its_limits() {
    let mut state = YawStuff::new();
    state.seed(360).unwrap();
    let expected = YawStuff {
        sens: fx(2_000_000_000),
        counts: 360,
        inc: fx(1_000_000_000),
        yaw: fx(500_000_000),
        lower_limit: fx(450_000_000),
        upper_limit: fx(550_000_000),
    };
    assert_eq!(set_yaw_values(Some(fx(2_000_000_000)), &mut state), Ok(expected));
    assert_eq!(state, expected);
    assert_eq!(get_yaw_values(&state), expected);
}

#[test]
fn without_a_sensitivity_the_limits_are_reset() {
    let mut state = YawStuff::new();
    state.seed(360).unwrap();
    state.narrow(aim_calibrate::bisection::Narrow::Down).unwrap();
    let expected = YawStuff {
        sens: fx(1_000_000_000),
        counts: 379,
        inc: fx(950_000_000),
        yaw: fx(950_000_000),
        lower_limit: fx(855_000_000),
        upper_limit: fx(1_045_000_000),
    };
    assert_eq!(set_yaw_values(None, &mut state), Ok(expected));
    assert_eq!(state, expected);
}

#[test]
fn a_sensitivity_of_zero_changes_nothing() {
    let mut state = YawStuff::new();
    state.seed(360).unwrap();
    let before = state;
    assert_eq!(set_yaw_values(Some(fx(0)), &mut state), Err(MathError::DivisionByZero));
    assert_eq!(state, before);
}

#[test]
fn a_game_is_saved_with_the_current_yaw() {
    let mut state = YawStuff::new();
    state.seed(16363).unwrap();
    let mut games = vec![GameYaw { name: "Quake".to_string(), yaw: fx(22_000_000) }];
    save_game_yaw("Arena".to_string(), None, &state, &mut games);
    assert_eq!(
        games,
        vec![
            GameYaw { name: "Quake".to_string(), yaw: fx(22_000_000) },
            GameYaw { name: "Arena".to_string(), yaw: fx(22_000_856) },
        ]
    );
}

#[test]
fn a_game_is_saved_with_the_yaw_given() {
    let state = YawStuff::new();
    let mut games = Vec::new();
    save_game_yaw("Overwatch".to_string(), Some(fx(6_600_000)), &state, &mut games);
    save_game_yaw("Overwatch".to_string(), Some(fx(-1)), &state, &mut games);
    save_game_yaw(String::new(), None, &state, &mut games);
    assert_eq!(
        games,
        vec![
            GameYaw { name: "Overwatch".to_string(), yaw: fx(6_600_000) },
            GameYaw { name: "Overwatch".to_string(), yaw: fx(-1) },
            GameYaw { name: String::new(), yaw: fx(0) },
        ]
    );
    assert_eq!(games[0].clone(), games[0]);
}

#[test]
fn the_page_changes_and_the_capture_stays() {
    let mut state = AppState::new();
    state.tracker = MouseTracker { tracking: true, count: 55 };
    set_current_page("measure_yaw".to_string(), &mut state);
    assert_eq!(
        state,
        AppState {
            current_page: CalibrationPage::MeasureYaw,
            tracker: MouseTracker { tracking: true, count: 55 },
        }
    );
    set_current_page("scoped_sensitivity".to_string(), &mut state);
    assert_eq!(state.current_page, CalibrationPage::ScopedSensitivity);
    set_current_page("measure_fov".to_string(), &mut state);
    assert_eq!(state.current_page, CalibrationPage::MeasureFov);
    set_current_page("main_sensitivity".to_string(), &mut state);
    assert_eq!(state.current_page, CalibrationPage::MainSensitivity);
    set_current_page("about".to_string(), &mut state);
    assert_eq!(state.current_page, CalibrationPage::Unknown);
    assert_eq!(state.tracker, MouseTracker { tracking: true, count: 55 });
}

#[test]
fn yaw_of_360_is_the_raw_counts_mode() {
    assert_eq!(YawMode::from_yaw(fx(360_000_000_000)), YawMode::RawCounts);
    assert_eq!(YawMode::from_yaw(fx(22_000_000)), YawMode::YawScaled(fx(22_000_000)));
    assert_eq!(YawMode::from_yaw(fx(359_999_999_999)), YawMode::YawScaled(fx(359_999_999_999)));
    assert_eq!(YawMode::RawCounts.degrees(), fx(360_000_000_000));
    assert_eq!(YawMode::YawScaled(fx(6_600_000)).degrees(), fx(6_600_000));
}

#[test]
fn convert_between_two_scaled_games() {
    let source = YawMode::YawScaled(fx(22_000_000));
    let quake = YawMode::YawScaled(fx(6_600_000));
    assert_eq!(convert_sens(800, fx(1_000_000_000), source, 1600, quake), Ok(fx(1_666_666_667)));
    assert_eq!(convert_sens(800, fx(1_000_000_000), source, 800, source), Ok(fx(1_000_000_000)));
    assert_eq!(convert_sens(800, fx(0), source, 800, source), Err(MathError::DivisionByZero));
    assert_eq!(
        convert_sens(0, fx(1_000_000_000), source, 800, source),
        Err(MathError::DivisionByZero)
    );
}

#[test]
fn convert_from_and_to_raw_counts() {
    let source = YawMode::YawScaled(fx(22_000_000));
    // from raw counts: the number is the travel, the result the sensitivity at the new DPI
    assert_eq!(
        convert_sens(800, fx(40_000_000_000), YawMode::RawCounts, 1600, source),
        Ok(fx(649_431_818))
    );
    // to raw counts: the result is the travel at the old DPI
    assert_eq!(
        convert_sens(800, fx(1_000_000_000), source, 1600, YawMode::RawCounts),
        Ok(fx(51_954_545_455))
    );
    // both: the travel of a game that turns 360 degrees per count
    assert_eq!(
        convert_sens(800, fx(1_000_000_000), YawMode::RawCounts, 1600, YawMode::RawCounts),
        Ok(fx(3_175_000))
    );
}
