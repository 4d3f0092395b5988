use platform_dirs::NativeUserDirs;
use platform_dirs::Platform;
use platform_dirs::UserDirs;
use platform_dirs::home_dir;
use platform_dirs::resolve_user_dirs;

fn no_native() -> NativeUserDirs {
    NativeUserDirs {
        desktop: None,
        document: None,
        download: None,
        audio: None,
        picture: None,
        public: None,
        video: None,
    }
}

#[test]
fn test_music_dir() {
    let music_dir = format!("{}/Music", home_dir().unwrap());
    let user_dirs = UserDirs::new(Platform::Xdg).unwrap();
    assert!(user_dirs.music_dir == music_dir);
}

#[test]
fn test_user_dirs_defaults() {
    let home = String::from("/home/u");
    let dirs = resolve_user_dirs(Platform::Xdg, Some(&home), &no_native()).unwrap();
    assert_eq!(dirs.desktop_dir, "/home/u/Desktop");
    assert_eq!(dirs.document_dir, "/home/u/Documents");
    assert_eq!(dirs.download_dir, "/home/u/Downloads");
    assert_eq!(dirs.music_dir, "/home/u/Music");
    assert_eq!(dirs.picture_dir, "/home/u/Pictures");
    assert_eq!(dirs.public_dir, "/home/u/Public");
    assert_eq!(dirs.video_dir, "/home/u/Videos");
}

#[test]
fn test_video_fallback_apple() {
    let home = String::from("/Users/u");
    let dirs = resolve_user_dirs(Platform::Apple, Some(&home), &no_native()).unwrap();
    assert_eq!(dirs.video_dir, "/Users/u/Movies");
}

#[test]
fn test_video_fallback_elsewhere() {
    let home = String::from("/home/u");
    let xdg = resolve_user_dirs(Platform::Xdg, Some(&home), &no_native()).unwrap();
    assert_eq!(xdg.video_dir, "/home/u/Videos");
    let windows = resolve_user_dirs(Platform::Windows, Some(&home), &no_native()).unwrap();
    assert_eq!(windows.video_dir, "/home/u/Videos");
}

#[test]
fn test_native_query_wins_independently() {
    // One relocated folder is taken from the native query; every other folder
    // independently falls back to its fixed name under the home directory.
    let home = String::from("/home/u");
    let native = NativeUserDirs {
        document: Some(String::from("/srv/shared/Paperwork")),
        ..no_native()
    };
    let dirs = resolve_user_dirs(Platform::Xdg, Some(&home), &native).unwrap();
    assert_eq!(dirs.document_dir, "/srv/shared/Paperwork");
    assert_eq!(dirs.desktop_dir, "/home/u/Desktop");
    assert_eq!(dirs.music_dir, "/home/u/Music");
}

#[test]
fn test_native_video_wins_over_fallback() {
    let home = String::from("/Users/u");
    let native = NativeUserDirs { video: Some(String::from("/Users/u/Clips")), ..no_native() };
    let dirs = resolve_user_dirs(Platform::Apple, Some(&home), &native).unwrap();
    assert_eq!(dirs.video_dir, "/Users/u/Clips");
}

#[test]
fn test_user_dirs_no_home() {
    let native = NativeUserDirs { desktop: Some(String::from("/tmp/Desktop")), ..no_native() };
    for platform in [Platform::Apple, Platform::Windows, Platform::Xdg] {
        assert!(resolve_user_dirs(platform, None, &native).is_none());
    }
}
