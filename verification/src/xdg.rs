use vstd::prelude::*;

use crate::paths::is_absolute;
use crate::paths::is_absolute_path;
use crate::paths::join_path;
use crate::paths::join_seq;

verus! {

/// A snapshot of the four XDG base-directory environment variables, taken by
/// the caller at resolution time. A field is `Some` exactly when the variable
/// is set, with the value it holds; the resolver itself never touches the
/// process environment.
#[derive(Clone, Debug)]
pub struct XdgEnv {
    pub cache_home: Option<String>,
    pub config_home: Option<String>,
    pub data_home: Option<String>,
    pub state_home: Option<String>,
}

pub ghost struct XdgEnvView {
    pub cache_home: Option<Seq<char>>,
    pub config_home: Option<Seq<char>>,
    pub data_home: Option<Seq<char>>,
    pub state_home: Option<Seq<char>>,
}

impl View for XdgEnv {
    type V = XdgEnvView;

    open spec fn view(&self) -> XdgEnvView {
        XdgEnvView {
            cache_home: self.cache_home.deep_view(),
            config_home: self.config_home.deep_view(),
            data_home: self.data_home.deep_view(),
            state_home: self.state_home.deep_view(),
        }
    }
}

/// The XDG override rule for one category: the environment value wins when it
/// is a non-empty absolute path, and otherwise — set but empty, set but
/// relative, or unset — the fixed default under the home directory is used.
pub open spec fn xdg_base(
    env_val: Option<Seq<char>>,
    home: Seq<char>,
    default_rel: Seq<char>,
) -> Seq<char> {
    match env_val {
        Some(v) => if is_absolute(v) {
            v
        } else {
            join_seq(home, default_rel)
        },
        None => join_seq(home, default_rel),
    }
}

/// Picks the base path of one category under the XDG convention: `env_val`
/// when it holds a non-empty absolute path, else `home`/`default_rel`.
pub fn pick_base(env_val: &Option<String>, home: &str, default_rel: &str) -> (r: String)
    ensures
        r@ == xdg_base(env_val.deep_view(), home@, default_rel@),
{
    match env_val {
        Some(v) => match is_absolute_path(v.as_str()) {
            Some(p) => p,
            None => join_path(home, default_rel),
        },
        None => join_path(home, default_rel),
    }
}

} // verus!
