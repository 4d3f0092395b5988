//! Cross-platform resolution of application directories (cache, config,
//! data, state) and of the well-known user folders (Desktop, Documents,
//! Downloads, Music, Pictures, Public, Videos).
//!
//! The platform convention ({Apple, Windows, XDG-like}), the UI mode and the
//! XDG environment variables are injected as plain values, so every branch of
//! the decision tree can be exercised on any host; the OS-native base
//! directories come from the operating system through `dirs_next`.

pub mod app_dirs;
pub mod laws;
pub mod native;
pub mod paths;
pub mod platform;
pub mod user_dirs;
pub mod xdg;

pub use app_dirs::AppDirs;
pub use app_dirs::resolve_app_dirs;
pub use native::NativeDirs;
pub use native::NativeUserDirs;
pub use native::home_dir;
pub use paths::is_absolute_path;
pub use paths::join_path;
pub use platform::Platform;
pub use platform::UiMode;
pub use user_dirs::UserDirs;
pub use user_dirs::resolve_user_dirs;
pub use xdg::XdgEnv;
