//! The general laws of the resolvers, each stated over the spec functions
//! that the executable functions' contracts pin their results to.

use vstd::prelude::*;

use crate::app_dirs::AppDirsView;
use crate::app_dirs::app_dirs_spec;
use crate::app_dirs::apple_graphical_app_dirs_spec;
use crate::app_dirs::windows_app_dirs_spec;
use crate::native::NativeDirsView;
use crate::native::NativeUserDirsView;
use crate::paths::ends_with_segment;
use crate::paths::is_absolute;
use crate::paths::join_seq;
use crate::paths::lemma_suffixed_ends_with_segment;
use crate::paths::lemma_suffixed_rooted_under;
use crate::paths::rooted_under;
use crate::paths::suffixed;
use crate::platform::Platform;
use crate::platform::UiMode;
use crate::platform::uses_xdg;
use crate::user_dirs::user_dirs_spec;
use crate::xdg::XdgEnvView;
use crate::xdg::xdg_base;

verus! {

/// On every XDG-convention combination of platform and UI mode, a set
/// environment variable that holds a non-empty absolute path is taken
/// verbatim as the config base: with no name to append, the resolved config
/// directory is that value itself.
pub proof fn lemma_xdg_config_env_override(
    platform: Platform,
    ui_mode: UiMode,
    home: Seq<char>,
    native: NativeDirsView,
    env: XdgEnvView,
    v: Seq<char>,
)
    requires
        uses_xdg(platform, ui_mode),
        env.config_home == Some(v),
        is_absolute(v),
    ensures
        app_dirs_spec(platform, ui_mode, None, Some(home), native, env) matches Some(d)
            && d.config_dir == v,
{
}

/// On every XDG-convention combination of platform and UI mode, an unset,
/// empty or relative config environment variable is treated as absent: with
/// no name to append, the resolved config directory is the fixed default
/// `.config` under the home directory.
pub proof fn lemma_xdg_config_default(
    platform: Platform,
    ui_mode: UiMode,
    home: Seq<char>,
    native: NativeDirsView,
    env: XdgEnvView,
)
    requires
        uses_xdg(platform, ui_mode),
        match env.config_home {
            Some(v) => !is_absolute(v),
            None => true,
        },
    ensures
        app_dirs_spec(platform, ui_mode, None, Some(home), native, env) matches Some(d)
            && d.config_dir == join_seq(home, ".config"@),
{
}

/// Appending is positional-suffix: on every branch that resolves at all, a
/// present name stands at the end of each of the four resolved directories
/// as its final path segment.
pub proof fn lemma_app_dirs_name_suffix(
    platform: Platform,
    ui_mode: UiMode,
    n: Seq<char>,
    home: Option<Seq<char>>,
    native: NativeDirsView,
    env: XdgEnvView,
)
    ensures
        app_dirs_spec(platform, ui_mode, Some(n), home, native, env) matches Some(d) ==> {
            &&& ends_with_segment(d.cache_dir, n)
            &&& ends_with_segment(d.config_dir, n)
            &&& ends_with_segment(d.data_dir, n)
            &&& ends_with_segment(d.state_dir, n)
        },
{
    if app_dirs_spec(platform, ui_mode, Some(n), home, native, env) is Some {
        if uses_xdg(platform, ui_mode) {
            let h = home->0;
            lemma_suffixed_ends_with_segment(xdg_base(env.cache_home, h, ".cache"@), n);
            lemma_suffixed_ends_with_segment(xdg_base(env.config_home, h, ".config"@), n);
            lemma_suffixed_ends_with_segment(xdg_base(env.data_home, h, ".local/share"@), n);
            lemma_suffixed_ends_with_segment(xdg_base(env.state_home, h, ".local/state"@), n);
        } else if platform is Apple {
            lemma_suffixed_ends_with_segment(native.cache->0, n);
            lemma_suffixed_ends_with_segment(native.data->0, n);
        } else {
            lemma_suffixed_ends_with_segment(native.data->0, n);
            lemma_suffixed_ends_with_segment(native.data_local->0, n);
        }
    }
}

/// The Apple-graphical aliasing invariant: whenever that branch resolves,
/// the config and state directories equal the data directory, and the data
/// directory is the native application-support base with the name appended.
pub proof fn lemma_apple_graphical_aliasing(
    name: Option<Seq<char>>,
    home: Option<Seq<char>>,
    native: NativeDirsView,
)
    ensures
        apple_graphical_app_dirs_spec(name, home, native) matches Some(d) ==> {
            &&& d.config_dir == d.data_dir
            &&& d.state_dir == d.data_dir
            &&& native.data matches Some(support) && d.data_dir == suffixed(support, name)
        },
{
}

/// The Windows asymmetry: whenever that branch resolves, the config
/// directory is the roaming base with the name appended — and so stays rooted
/// under the roaming base — while the cache, data and state directories are
/// all the local base with the name appended, rooted under the local base.
pub proof fn lemma_windows_roaming_local_split(
    name: Option<Seq<char>>,
    home: Option<Seq<char>>,
    native: NativeDirsView,
)
    ensures
        windows_app_dirs_spec(name, home, native) matches Some(d) ==> {
            &&& native.data matches Some(roaming) && d.config_dir == suffixed(roaming, name)
                && rooted_under(d.config_dir, roaming)
            &&& native.data_local matches Some(local) && d.cache_dir == suffixed(local, name)
                && d.data_dir == suffixed(local, name) && d.state_dir == suffixed(local, name)
                && rooted_under(d.data_dir, local)
        },
{
    if windows_app_dirs_spec(name, home, native) is Some {
        let roaming = native.data->0;
        let local = native.data_local->0;
        lemma_suffixed_rooted_under(roaming, name);
        lemma_suffixed_rooted_under(local, name);
    }
}

/// Resolution is idempotent: two application-directory results obtained from
/// identical arguments and an unchanged environment snapshot are equal.
pub proof fn lemma_app_dirs_idempotent(
    r1: Option<AppDirsView>,
    r2: Option<AppDirsView>,
    platform: Platform,
    ui_mode: UiMode,
    name: Option<Seq<char>>,
    home: Option<Seq<char>>,
    native: NativeDirsView,
    env: XdgEnvView,
)
    requires
        r1 == app_dirs_spec(platform, ui_mode, name, home, native, env),
        r2 == app_dirs_spec(platform, ui_mode, name, home, native, env),
    ensures
        r1 == r2,
{
}

/// An unresolvable home directory makes the application-directory resolver
/// return nothing on every branch.
pub proof fn lemma_app_dirs_need_home(
    platform: Platform,
    ui_mode: UiMode,
    name: Option<Seq<char>>,
    native: NativeDirsView,
    env: XdgEnvView,
)
    ensures
        app_dirs_spec(platform, ui_mode, name, None, native, env) is None,
{
}

/// An unresolvable home directory makes the user-folder resolver return
/// nothing, whatever the native queries would have answered.
pub proof fn lemma_user_dirs_need_home(platform: Platform, native: NativeUserDirsView)
    ensures
        user_dirs_spec(platform, None, native) is None,
{
}

/// When the native query for the videos folder yields nothing, its fallback
/// is `Movies` under the home directory on Apple platforms and `Videos`
/// under the home directory everywhere else.
pub proof fn lemma_video_fallback(
    platform: Platform,
    home: Seq<char>,
    native: NativeUserDirsView,
)
    requires
        native.video is None,
    ensures
        user_dirs_spec(platform, Some(home), native) matches Some(u) && u.video_dir == join_seq(
            home,
            if platform is Apple {
                "Movies"@
            } else {
                "Videos"@
            },
        ),
{
}

} // verus!
