use autolight::refresh::AccentChange;
use autolight::refresh::Step;
use autolight::regkey::RegistryPermission;
use autolight::regkey::StoreKey;
use autolight::regkey::StoreValue;
use autolight::regkey::StoreWrite;
use autolight::theme::set_theme;
use autolight::theme::ThemeVariant;

#[test]
fn invert_swaps_dark_and_light() {
    assert_eq!(ThemeVariant::Dark.invert(), ThemeVariant::Light);
    assert_eq!(ThemeVariant::Light.invert(), ThemeVariant::Dark);
}

#[test]
fn invert_twice_is_identity() {
    assert_eq!(ThemeVariant::Dark.invert().invert(), ThemeVariant::Dark);
    assert_eq!(ThemeVariant::Light.invert().invert(), ThemeVariant::Light);
}

#[test]
fn flags_are_zero_for_dark_and_one_for_light() {
    assert_eq!(ThemeVariant::Dark.flag(), 0);
    assert_eq!(ThemeVariant::Light.flag(), 1);
}

fn plan_with_flag(flag: u32) -> Vec<Step> {
    vec![
        Step::Write(StoreWrite { value: StoreValue::AppsUseLightTheme, data: flag }),
        Step::Write(StoreWrite { value: StoreValue::SystemUsesLightTheme, data: flag }),
        Step::ReadAccent,
        Step::WriteAccent(AccentChange::Nudge),
        Step::Pause { millis: 10 },
        Step::WriteAccent(AccentChange::Restore),
        Step::Broadcast,
    ]
}

#[test]
fn dark_writes_zero_to_both_flags_and_then_refreshes() {
    assert_eq!(set_theme(ThemeVariant::Dark), plan_with_flag(0));
}

#[test]
fn light_writes_one_to_both_flags_and_then_refreshes() {
    assert_eq!(set_theme(ThemeVariant::Light), plan_with_flag(1));
}

#[test]
fn both_flags_are_written_before_the_refresh_begins() {
    for variant in [ThemeVariant::Dark, ThemeVariant::Light] {
        let plan = set_theme(variant);
        let last_flag = plan.iter().rposition(|step| matches!(step, Step::Write(_))).unwrap();
        let first_other = plan.iter().position(|step| !matches!(step, Step::Write(_))).unwrap();
        assert_eq!(last_flag, 1);
        assert_eq!(first_other, 2);
        assert_eq!(plan[first_other], Step::ReadAccent);
        assert_eq!(plan.last(), Some(&Step::Broadcast));
    }
}

#[test]
fn repeated_dark_gives_the_same_two_values() {
    let mut apps: u32 = 7;
    let mut system: u32 = 9;
    let mut accent: u32 = 0xff_00_00_00;
    for _ in 0..3 {
        let mut kept: Option<u32> = None;
        for step in set_theme(ThemeVariant::Dark) {
            match step {
                Step::Write(write) => match write.value {
                    StoreValue::AppsUseLightTheme => apps = write.data,
                    StoreValue::SystemUsesLightTheme => system = write.data,
                    StoreValue::AccentColor => panic!("the flags are not the accent colour"),
                },
                Step::ReadAccent => kept = Some(accent),
                Step::WriteAccent(change) => accent = change.write(kept.unwrap()).data,
                Step::Pause { .. } | Step::Broadcast => {}
            }
        }
        assert_eq!((apps, system), (0, 0));
        assert_eq!(accent, 0xff_00_00_00);
    }
}

#[test]
fn theme_values_live_under_the_personalisation_key() {
    for step in set_theme(ThemeVariant::Light) {
        if let Step::Write(write) = step {
            assert_eq!(write.value.key(), StoreKey::Personalize);
            assert!(write.value.key().permission().allows_write());
        }
    }
    assert_eq!(
        StoreKey::Personalize.path(),
        "SOFTWARE\\Microsoft\\Windows\\CurrentVersion\\Themes\\Personalize"
    );
    assert_eq!(StoreKey::Personalize.permission(), RegistryPermission::Write);
}

#[test]
fn value_names() {
    assert_eq!(StoreValue::AppsUseLightTheme.name(), "AppsUseLightTheme");
    assert_eq!(StoreValue::SystemUsesLightTheme.name(), "SystemUsesLightTheme");
    assert_eq!(StoreValue::AccentColor.name(), "AccentColor");
}

#[test]
fn accent_colour_lives_under_the_compositor_key() {
    assert_eq!(StoreValue::AccentColor.key(), StoreKey::Compositor);
    assert_eq!(StoreKey::Compositor.path(), "SOFTWARE\\Microsoft\\Windows\\DWM");
    assert_eq!(StoreKey::Compositor.permission(), RegistryPermission::ReadWrite);
}

#[test]
fn permissions() {
    assert!(RegistryPermission::Read.allows_read());
    assert!(!RegistryPermission::Read.allows_write());
    assert!(!RegistryPermission::Write.allows_read());
    assert!(RegistryPermission::Write.allows_write());
    assert!(RegistryPermission::ReadWrite.allows_read());
    assert!(RegistryPermission::ReadWrite.allows_write());
}
