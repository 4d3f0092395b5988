use vstd::prelude::*;

use crate::native::NativeDirs;
use crate::native::NativeDirsView;
use crate::native::home_dir;
use crate::native::os_cache_dir;
use crate::native::os_data_dir;
use crate::native::os_data_local_dir;
use crate::paths::ends_with_segment;
use crate::paths::suffix_path;
use crate::paths::suffixed;
use crate::platform::Platform;
use crate::platform::UiMode;
use crate::platform::uses_xdg;
use crate::xdg::XdgEnv;
use crate::xdg::XdgEnvView;
use crate::xdg::pick_base;
use crate::xdg::xdg_base;

verus! {

/// The four directories an application should use for its own files. All
/// four are produced together by one resolution call and never mutated.
#[derive(Clone, Debug)]
pub struct AppDirs {
    pub cache_dir: String,
    pub config_dir: String,
    pub data_dir: String,
    pub state_dir: String,
}

pub ghost struct AppDirsView {
    pub cache_dir: Seq<char>,
    pub config_dir: Seq<char>,
    pub data_dir: Seq<char>,
    pub state_dir: Seq<char>,
}

impl View for AppDirs {
    type V = AppDirsView;

    open spec fn view(&self) -> AppDirsView {
        AppDirsView {
            cache_dir: self.cache_dir@,
            config_dir: self.config_dir@,
            data_dir: self.data_dir@,
            state_dir: self.state_dir@,
        }
    }
}

impl DeepView for AppDirs {
    type V = AppDirsView;

    open spec fn deep_view(&self) -> AppDirsView {
        self.view()
    }
}

/// The Apple-graphical branch: the native cache base and the native
/// application-support base carry the name suffix, and the config and state
/// directories are aliases of the resolved data directory. The home
/// directory, the cache base and the data base must all resolve.
pub open spec fn apple_graphical_app_dirs_spec(
    name: Option<Seq<char>>,
    home: Option<Seq<char>>,
    native: NativeDirsView,
) -> Option<AppDirsView> {
    match (home, native.cache, native.data) {
        (Some(_), Some(cache), Some(data)) => {
            let support = suffixed(data, name);
            Some(
                AppDirsView {
                    cache_dir: suffixed(cache, name),
                    config_dir: support,
                    data_dir: support,
                    state_dir: support,
                },
            )
        },
        _ => None,
    }
}

/// The Windows branch: the config directory is rooted under the roaming data
/// base while the cache, data and state directories are rooted under the
/// local data base. The home directory and both bases must all resolve.
pub open spec fn windows_app_dirs_spec(
    name: Option<Seq<char>>,
    home: Option<Seq<char>>,
    native: NativeDirsView,
) -> Option<AppDirsView> {
    match (home, native.data, native.data_local) {
        (Some(_), Some(roaming), Some(local)) => {
            let local_data = suffixed(local, name);
            Some(
                AppDirsView {
                    cache_dir: local_data,
                    config_dir: suffixed(roaming, name),
                    data_dir: local_data,
                    state_dir: local_data,
                },
            )
        },
        _ => None,
    }
}

/// The XDG branch: each of the four categories takes its base from the
/// corresponding environment variable when that holds a non-empty absolute
/// path, and from a fixed default under the home directory otherwise; the
/// name is then appended to each base independently. Only the home directory
/// must resolve.
pub open spec fn xdg_app_dirs_spec(
    name: Option<Seq<char>>,
    home: Option<Seq<char>>,
    env: XdgEnvView,
) -> Option<AppDirsView> {
    match home {
        Some(h) => Some(
            AppDirsView {
                cache_dir: suffixed(xdg_base(env.cache_home, h, ".cache"@), name),
                config_dir: suffixed(xdg_base(env.config_home, h, ".config"@), name),
                data_dir: suffixed(xdg_base(env.data_home, h, ".local/share"@), name),
                state_dir: suffixed(xdg_base(env.state_home, h, ".local/state"@), name),
            },
        ),
        None => None,
    }
}

/// The whole decision tree: Apple in graphical mode uses the Library
/// folders, Windows uses the AppData folders whatever the UI mode, and every
/// other combination follows the XDG convention.
pub open spec fn app_dirs_spec(
    platform: Platform,
    ui_mode: UiMode,
    name: Option<Seq<char>>,
    home: Option<Seq<char>>,
    native: NativeDirsView,
    env: XdgEnvView,
) -> Option<AppDirsView> {
    if uses_xdg(platform, ui_mode) {
        xdg_app_dirs_spec(name, home, env)
    } else if platform is Apple {
        apple_graphical_app_dirs_spec(name, home, native)
    } else {
        windows_app_dirs_spec(name, home, native)
    }
}

/// Resolves the Apple-graphical branch from the given home directory and
/// native bases.
pub fn apple_graphical_dirs(
    name: Option<&str>,
    home: Option<&String>,
    native: &NativeDirs,
) -> (r: Option<AppDirs>)
    ensures
        r.deep_view() == apple_graphical_app_dirs_spec(name.deep_view(), home.deep_view(), native@),
{
    match (home, &native.cache, &native.data) {
        (Some(_), Some(cache), Some(data)) => {
            let support = suffix_path(data, name);
            Some(
                AppDirs {
                    cache_dir: suffix_path(cache, name),
                    config_dir: support.clone(),
                    data_dir: support.clone(),
                    state_dir: support,
                },
            )
        },
        _ => None,
    }
}

/// Resolves the Windows branch from the given home directory and native
/// bases.
pub fn windows_dirs(name: Option<&str>, home: Option<&String>, native: &NativeDirs) -> (r: Option<
    AppDirs,
>)
    ensures
        r.deep_view() == windows_app_dirs_spec(name.deep_view(), home.deep_view(), native@),
{
    match (home, &native.data, &native.data_local) {
        (Some(_), Some(roaming), Some(local)) => {
            let local_data = suffix_path(local, name);
            Some(
                AppDirs {
                    cache_dir: local_data.clone(),
                    config_dir: suffix_path(roaming, name),
                    data_dir: local_data.clone(),
                    state_dir: local_data,
                },
            )
        },
        _ => None,
    }
}

/// Resolves the XDG branch from the given home directory and environment
/// snapshot.
pub fn xdg_dirs(name: Option<&str>, home: Option<&String>, env: &XdgEnv) -> (r: Option<AppDirs>)
    ensures
        r.deep_view() == xdg_app_dirs_spec(name.deep_view(), home.deep_view(), env@),
{
    match home {
        Some(h) => {
            let cache_base = pick_base(&env.cache_home, h.as_str(), ".cache");
            let config_base = pick_base(&env.config_home, h.as_str(), ".config");
            let data_base = pick_base(&env.data_home, h.as_str(), ".local/share");
            let state_base = pick_base(&env.state_home, h.as_str(), ".local/state");
            Some(
                AppDirs {
                    cache_dir: suffix_path(&cache_base, name),
                    config_dir: suffix_path(&config_base, name),
                    data_dir: suffix_path(&data_base, name),
                    state_dir: suffix_path(&state_base, name),
                },
            )
        },
        None => None,
    }
}

/// Resolves the four application directories for the given platform, UI
/// mode, optional application name, home directory, native bases and
/// environment snapshot, following the decision tree of `app_dirs_spec`.
pub fn resolve_app_dirs(
    platform: Platform,
    ui_mode: UiMode,
    name: Option<&str>,
    home: Option<&String>,
    native: &NativeDirs,
    env: &XdgEnv,
) -> (r: Option<AppDirs>)
    ensures
        r.deep_view() == app_dirs_spec(
            platform,
            ui_mode,
            name.deep_view(),
            home.deep_view(),
            native@,
            env@,
        ),
        home is None ==> r is None,
{
    match platform {
        Platform::Apple => match ui_mode {
            UiMode::Graphical => apple_graphical_dirs(name, home, native),
            UiMode::CommandLine => xdg_dirs(name, home, env),
        },
        Platform::Windows => windows_dirs(name, home, native),
        Platform::Xdg => xdg_dirs(name, home, env),
    }
}

impl AppDirs {
    /// Resolves the four application directories for an application named
    /// `name` (taken as-is when present) on `platform` in `ui_mode`, against
    /// the environment snapshot `env`; the home directory and the OS-native
    /// bases are obtained from the operating system. Returns `None` exactly
    /// when the branch for `platform` and `ui_mode` cannot obtain a base it
    /// requires. Whatever the operating system supplied: when a name was
    /// given, each resolved directory ends with it as its final segment, and
    /// on the Apple-graphical branch the config and state directories equal
    /// the data directory.
    pub fn new(name: Option<&str>, ui_mode: UiMode, platform: Platform, env: &XdgEnv) -> (r:
        Option<AppDirs>)
        ensures
            r matches Some(d) ==> (name matches Some(n) ==> {
                &&& ends_with_segment(d@.cache_dir, n@)
                &&& ends_with_segment(d@.config_dir, n@)
                &&& ends_with_segment(d@.data_dir, n@)
                &&& ends_with_segment(d@.state_dir, n@)
            }),
            platform is Apple && ui_mode is Graphical ==> (r matches Some(d) ==> {
                &&& d@.config_dir == d@.data_dir
                &&& d@.state_dir == d@.data_dir
            }),
    {
        let home = home_dir();
        let native = NativeDirs {
            cache: os_cache_dir(),
            data: os_data_dir(),
            data_local: os_data_local_dir(),
        };
        let home_ref = home.as_ref();
        let r = resolve_app_dirs(platform, ui_mode, name, home_ref, &native, env);
        proof {
            if let Some(nm) = name {
                crate::laws::lemma_app_dirs_name_suffix(
                    platform,
                    ui_mode,
                    nm@,
                    home_ref.deep_view(),
                    native@,
                    env@,
                );
            }
        }
        r
    }
}

} // verus!
