//! The resolved compatibility-layer settings and the fixed preparation steps.
//!
//! A profile is built from configuration at the start of each attempt and is
//! read-only for its duration. From it the library derives the ordered list of
//! preparation steps and the process environment the attempt runs under; the
//! caller executes both.

use vstd::prelude::*;

verus! {

/// The architecture tag the compatibility layer is set up for.
#[derive(Debug, Clone, Copy, PartialEq, Eq, Structural)]
pub enum Architecture {
    Win32,
    Win64,
}

/// Which loader binary the compatibility layer starts programs with.
#[derive(Debug, Clone, Copy, PartialEq, Eq, Structural)]
pub enum LoaderMode {
    /// Whatever the runtime root provides by default.
    Default,
    /// The currently selected runtime binary itself.
    Current,
}

/// The synchronization primitive the layer uses; exactly one is active.
#[derive(Debug, Clone, Copy, PartialEq, Eq, Structural)]
pub enum SyncMode {
    Off,
    ESync,
    FSync,
}

/// The locale the program runs under; exactly one is active.
#[derive(Debug, Clone, Copy, PartialEq, Eq, Structural)]
pub enum LocaleTag {
    System,
    English,
    Russian,
    German,
    Portuguese,
    Polish,
    French,
    Spanish,
    Chinese,
    Japanese,
    Korean,
}

/// Virtual-desktop enablement and geometry.
#[derive(Debug, Clone, Copy, PartialEq, Eq, Structural)]
pub struct VirtualDesktop {
    pub enabled: bool,
    pub width: u32,
    pub height: u32,
}

/// One drive mapping: a logical letter, the host path it points at, and
/// whether it maps the program's own folder.
#[derive(Debug, Clone, PartialEq, Eq)]
pub struct DriveMapping {
    pub letter: char,
    pub host_path: String,
    pub in_program_folder: bool,
}

/// One process environment variable.
#[derive(Debug, Clone, PartialEq, Eq)]
pub struct EnvVar {
    pub key: String,
    pub value: String,
}

impl EnvVar {
    /// A copy with the same key and value.
    pub fn duplicate(&self) -> (r: EnvVar)
        ensures
            r.key@ == self.key@,
            r.value@ == self.value@,
    {
        EnvVar { key: self.key.clone(), value: self.value.clone() }
    }
}

/// The key/value views of an environment list, for contracts.
pub open spec fn env_view(v: Seq<EnvVar>) -> Seq<(Seq<char>, Seq<char>)> {
    v.map_values(|e: EnvVar| (e.key@, e.value@))
}

/// Resolved compatibility-layer settings for one launch attempt.
#[derive(Debug, Clone, PartialEq, Eq)]
pub struct EnvironmentProfile {
    /// Root path of the compatibility-layer runtime.
    pub runtime_root: String,
    pub architecture: Architecture,
    pub loader: LoaderMode,
    /// The isolated filesystem root the layer emulates an installation in.
    pub prefix_dir: String,
    pub sync: SyncMode,
    pub locale: LocaleTag,
    pub virtual_desktop: VirtualDesktop,
    pub drives: Vec<DriveMapping>,
    /// Whether the known launch-dialog rendering workaround is applied.
    pub fix_launch_dialog: bool,
    /// Extra process environment variables, applied last.
    pub env_vars: Vec<EnvVar>,
}

/// One ordered unit of pre-start configuration. Every step aborts the attempt
/// on failure; none is best-effort.
#[derive(Debug, Clone, PartialEq, Eq)]
pub struct LaunchStep {
    /// The step's name, used in failure reports.
    pub name: String,
    /// The command and its arguments, run under the compatibility layer.
    pub command: Vec<String>,
    /// Environment variables this step adds over the attempt's base
    /// environment.
    pub env: Vec<EnvVar>,
}

/// The views of a command's words, for contracts.
pub open spec fn words_view(v: Seq<String>) -> Seq<Seq<char>> {
    v.map_values(|s: String| s@)
}

/// The environment variables a synchronization mode asks for.
pub open spec fn sync_env_pairs(s: SyncMode) -> Seq<(Seq<char>, Seq<char>)> {
    match s {
        SyncMode::Off => Seq::empty(),
        SyncMode::ESync => seq![("WINEESYNC"@, "1"@)],
        SyncMode::FSync => seq![("WINEFSYNC"@, "1"@)],
    }
}

/// The environment variables a synchronization mode asks for.
pub fn sync_env_vars(s: SyncMode) -> (r: Vec<EnvVar>)
    ensures
        env_view(r@) == sync_env_pairs(s),
{
    let mut r: Vec<EnvVar> = Vec::new();
    match s {
        SyncMode::Off => {}
        SyncMode::ESync => {
            r.push(EnvVar { key: "WINEESYNC".to_owned(), value: "1".to_owned() });
        }
        SyncMode::FSync => {
            r.push(EnvVar { key: "WINEFSYNC".to_owned(), value: "1".to_owned() });
        }
    }
    proof {
        assert(env_view(r@) =~= sync_env_pairs(s));
    }
    r
}

/// The environment-variable value of an architecture tag.
pub open spec fn arch_tag(a: Architecture) -> Seq<char> {
    match a {
        Architecture::Win32 => "win32"@,
        Architecture::Win64 => "win64"@,
    }
}

/// The locale setting a tag asks for, if it overrides the system's.
pub open spec fn locale_pairs(l: LocaleTag) -> Seq<(Seq<char>, Seq<char>)> {
    match l {
        LocaleTag::System => Seq::empty(),
        LocaleTag::English => seq![("LANG"@, "en_US.UTF-8"@)],
        LocaleTag::Russian => seq![("LANG"@, "ru_RU.UTF-8"@)],
        LocaleTag::German => seq![("LANG"@, "de_DE.UTF-8"@)],
        LocaleTag::Portuguese => seq![("LANG"@, "pt_PT.UTF-8"@)],
        LocaleTag::Polish => seq![("LANG"@, "pl_PL.UTF-8"@)],
        LocaleTag::French => seq![("LANG"@, "fr_FR.UTF-8"@)],
        LocaleTag::Spanish => seq![("LANG"@, "es_ES.UTF-8"@)],
        LocaleTag::Chinese => seq![("LANG"@, "zh_CN.UTF-8"@)],
        LocaleTag::Japanese => seq![("LANG"@, "ja_JP.UTF-8"@)],
        LocaleTag::Korean => seq![("LANG"@, "ko_KR.UTF-8"@)],
    }
}

/// The locale setting a tag asks for, if it overrides the system's.
pub fn locale_env_vars(l: LocaleTag) -> (r: Vec<EnvVar>)
    ensures
        env_view(r@) == locale_pairs(l),
{
    let mut r: Vec<EnvVar> = Vec::new();
    let value: Option<&str> = match l {
        LocaleTag::System => None,
        LocaleTag::English => Some("en_US.UTF-8"),
        LocaleTag::Russian => Some("ru_RU.UTF-8"),
        LocaleTag::German => Some("de_DE.UTF-8"),
        LocaleTag::Portuguese => Some("pt_PT.UTF-8"),
        LocaleTag::Polish => Some("pl_PL.UTF-8"),
        LocaleTag::French => Some("fr_FR.UTF-8"),
        LocaleTag::Spanish => Some("es_ES.UTF-8"),
        LocaleTag::Chinese => Some("zh_CN.UTF-8"),
        LocaleTag::Japanese => Some("ja_JP.UTF-8"),
        LocaleTag::Korean => Some("ko_KR.UTF-8"),
    };
    if let Some(v) = value {
        r.push(EnvVar { key: "LANG".to_owned(), value: v.to_owned() });
    }
    proof {
        assert(env_view(r@) =~= locale_pairs(l));
    }
    r
}

/// The words of the registry-override command: it adds the known dynamic
/// library override when the workaround is wanted, and deletes it otherwise.
pub open spec fn registry_override_words(enable: bool) -> Seq<Seq<char>> {
    seq![
        "reg"@,
        if enable { "add"@ } else { "delete"@ },
        "HKCU\\Software\\Wine\\DllOverrides"@,
        "/v"@,
        "krsdkexternal.exe"@,
        "/f"@,
    ]
}

/// The words of the compatibility-mode command that works around the in-game
/// browser rendering as a black window.
pub open spec fn compatibility_mode_words() -> Seq<Seq<char>> {
    seq!["winecfg"@, "-v"@, "win7"@]
}

/// The fixed, ordered list of preparation steps an attempt runs: first the
/// registry override for the launch dialog, then the compatibility-mode
/// switch. Both run under the synchronization mode's environment. Steps
/// execute strictly in this order and every failure aborts the attempt.
pub fn steps_for(p: &EnvironmentProfile) -> (steps: Vec<LaunchStep>)
    ensures
        steps@.len() == 2,
        steps@[0].name@ == "configure launch dialog override"@,
        words_view(steps@[0].command@) == registry_override_words(p.fix_launch_dialog),
        env_view(steps@[0].env@) == sync_env_pairs(p.sync),
        steps@[1].name@ == "force compatibility mode"@,
        words_view(steps@[1].command@) == compatibility_mode_words(),
        env_view(steps@[1].env@) == sync_env_pairs(p.sync),
{
    let mut registry: Vec<String> = Vec::new();
    registry.push("reg".to_owned());
    if p.fix_launch_dialog {
        registry.push("add".to_owned());
    } else {
        registry.push("delete".to_owned());
    }
    registry.push("HKCU\\Software\\Wine\\DllOverrides".to_owned());
    registry.push("/v".to_owned());
    registry.push("krsdkexternal.exe".to_owned());
    registry.push("/f".to_owned());
    proof {
        assert(words_view(registry@) =~= registry_override_words(p.fix_launch_dialog));
    }

    let mut compatibility: Vec<String> = Vec::new();
    compatibility.push("winecfg".to_owned());
    compatibility.push("-v".to_owned());
    compatibility.push("win7".to_owned());
    proof {
        assert(words_view(compatibility@) =~= compatibility_mode_words());
    }

    let mut steps: Vec<LaunchStep> = Vec::new();
    steps.push(LaunchStep {
        name: "configure launch dialog override".to_owned(),
        command: registry,
        env: sync_env_vars(p.sync),
    });
    steps.push(LaunchStep {
        name: "force compatibility mode".to_owned(),
        command: compatibility,
        env: sync_env_vars(p.sync),
    });
    steps
}

/// The base process environment of an attempt: the prefix, the architecture,
/// the locale override if any, and the profile's own variables, applied last.
pub open spec fn base_env_pairs(p: EnvironmentProfile) -> Seq<(Seq<char>, Seq<char>)> {
    seq![("WINEPREFIX"@, p.prefix_dir@), ("WINEARCH"@, arch_tag(p.architecture))]
        + locale_pairs(p.locale) + env_view(p.env_vars@)
}

/// Compute the base process environment of an attempt.
pub fn base_env(p: &EnvironmentProfile) -> (r: Vec<EnvVar>)
    ensures
        env_view(r@) == base_env_pairs(*p),
{
    let mut r: Vec<EnvVar> = Vec::new();
    r.push(EnvVar { key: "WINEPREFIX".to_owned(), value: p.prefix_dir.clone() });
    let arch = match p.architecture {
        Architecture::Win32 => "win32",
        Architecture::Win64 => "win64",
    };
    r.push(EnvVar { key: "WINEARCH".to_owned(), value: arch.to_owned() });
    let mut locale = locale_env_vars(p.locale);
    r.append(&mut locale);
    let ghost head = seq![
        ("WINEPREFIX"@, p.prefix_dir@),
        ("WINEARCH"@, arch_tag(p.architecture)),
    ] + locale_pairs(p.locale);
    proof {
        assert(env_view(r@) =~= head);
    }
    let mut i: usize = 0;
    while i < p.env_vars.len()
        invariant
            i <= p.env_vars.len(),
            env_view(r@) =~= head + env_view(p.env_vars@.take(i as int)),
        decreases p.env_vars.len() - i,
    {
        let e = p.env_vars[i].duplicate();
        let ghost prev = r@;
        let ghost j = i as int;
        r.push(e);
        proof {
            assert(env_view(r@) =~= env_view(prev).push((e.key@, e.value@)));
            assert(p.env_vars@.take(j + 1) =~= p.env_vars@.take(j).push(p.env_vars@[j]));
            assert(env_view(p.env_vars@.take(j + 1)) =~= env_view(p.env_vars@.take(j)).push(
                (e.key@, e.value@),
            ));
            assert(env_view(r@) =~= head + env_view(p.env_vars@.take(j + 1)));
        }
        i += 1;
    }
    proof {
        assert(p.env_vars@.take(p.env_vars@.len() as int) =~= p.env_vars@);
        assert(env_view(r@) =~= base_env_pairs(*p));
    }
    r
}

} // verus!
