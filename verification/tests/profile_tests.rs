use launch_orchestrator::profile::{
    base_env, locale_env_vars, steps_for, sync_env_vars, Architecture, DriveMapping, EnvVar,
    EnvironmentProfile, LoaderMode, LocaleTag, SyncMode, VirtualDesktop,
};

fn profile(fix_launch_dialog: bool, sync: SyncMode, locale: LocaleTag) -> EnvironmentProfile {
    EnvironmentProfile {
        runtime_root: "/opt/runtime".to_owned(),
        architecture: Architecture::Win64,
        loader: LoaderMode::Current,
        prefix_dir: "/home/user/.prefix".to_owned(),
        sync,
        locale,
        virtual_desktop: VirtualDesktop { enabled: false, width: 1920, height: 1080 },
        drives: vec![DriveMapping {
            letter: 'g',
            host_path: "/games".to_owned(),
            in_program_folder: true,
        }],
        fix_launch_dialog,
        env_vars: vec![EnvVar { key: "MANGOHUD".to_owned(), value: "1".to_owned() }],
    }
}

fn words(v: &[String]) -> Vec<&str> {
    v.iter().map(|s| s.as_str()).collect()
}

#[test]
fn steps_with_workaround_enabled() {
    let steps = steps_for(&profile(true, SyncMode::ESync, LocaleTag::System));
    assert_eq!(steps.len(), 2);
    assert_eq!(steps[0].name, "configure launch dialog override");
    assert_eq!(
        words(&steps[0].command),
        vec!["reg", "add", "HKCU\\Software\\Wine\\DllOverrides", "/v", "krsdkexternal.exe", "/f"]
    );
    assert_eq!(steps[1].name, "force compatibility mode");
    assert_eq!(words(&steps[1].command), vec!["winecfg", "-v", "win7"]);
    for s in &steps {
        assert_eq!(s.env.len(), 1);
        assert_eq!(s.env[0].key, "WINEESYNC");
        assert_eq!(s.env[0].value, "1");
    }
}

#[test]
fn steps_with_workaround_disabled() {
    let steps = steps_for(&profile(false, SyncMode::Off, LocaleTag::System));
    assert_eq!(
        words(&steps[0].command),
        vec![
            "reg",
            "delete",
            "HKCU\\Software\\Wine\\DllOverrides",
            "/v",
            "krsdkexternal.exe",
            "/f"
        ]
    );
    assert!(steps[0].env.is_empty());
    assert!(steps[1].env.is_empty());
}

#[test]
fn sync_env_vars_per_mode() {
    assert!(sync_env_vars(SyncMode::Off).is_empty());
    let e = sync_env_vars(SyncMode::ESync);
    assert_eq!(e.len(), 1);
    assert_eq!((e[0].key.as_str(), e[0].value.as_str()), ("WINEESYNC", "1"));
    let f = sync_env_vars(SyncMode::FSync);
    assert_eq!((f[0].key.as_str(), f[0].value.as_str()), ("WINEFSYNC", "1"));
}

#[test]
fn locale_env_vars_per_tag() {
    assert!(locale_env_vars(LocaleTag::System).is_empty());
    let e = locale_env_vars(LocaleTag::English);
    assert_eq!((e[0].key.as_str(), e[0].value.as_str()), ("LANG", "en_US.UTF-8"));
    let k = locale_env_vars(LocaleTag::Korean);
    assert_eq!((k[0].key.as_str(), k[0].value.as_str()), ("LANG", "ko_KR.UTF-8"));
}

#[test]
fn base_env_order_and_contents() {
    let p = profile(true, SyncMode::FSync, LocaleTag::Japanese);
    let env = base_env(&p);
    let pairs: Vec<(&str, &str)> =
        env.iter().map(|e| (e.key.as_str(), e.value.as_str())).collect();
    assert_eq!(
        pairs,
        vec![
            ("WINEPREFIX", "/home/user/.prefix"),
            ("WINEARCH", "win64"),
            ("LANG", "ja_JP.UTF-8"),
            ("MANGOHUD", "1"),
        ]
    );
}

#[test]
fn base_env_without_locale_override() {
    let p = profile(false, SyncMode::Off, LocaleTag::System);
    let env = base_env(&p);
    assert_eq!(env.len(), 3);
    assert_eq!(env[0].key, "WINEPREFIX");
    assert_eq!(env[1].key, "WINEARCH");
    assert_eq!(env[2].key, "MANGOHUD");
}

#[test]
fn env_var_duplicate_keeps_key_and_value() {
    let e = EnvVar { key: "A".to_owned(), value: "b".to_owned() };
    let d = e.duplicate();
    assert_eq!(d, e);
}
