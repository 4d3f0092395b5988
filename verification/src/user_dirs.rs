use vstd::prelude::*;

use crate::native::NativeUserDirs;
use crate::native::NativeUserDirsView;
use crate::native::home_dir;
use crate::native::os_audio_dir;
use crate::native::os_desktop_dir;
use crate::native::os_document_dir;
use crate::native::os_download_dir;
use crate::native::os_picture_dir;
use crate::native::os_public_dir;
use crate::native::os_video_dir;
use crate::paths::join_path;
use crate::paths::join_seq;
use crate::platform::Platform;

verus! {

/// The seven well-known personal folders. All seven are produced together by
/// one resolution call and never mutated.
#[derive(Clone, Debug)]
pub struct UserDirs {
    pub desktop_dir: String,
    pub document_dir: String,
    pub download_dir: String,
    pub music_dir: String,
    pub picture_dir: String,
    pub public_dir: String,
    pub video_dir: String,
}

pub ghost struct UserDirsView {
    pub desktop_dir: Seq<char>,
    pub document_dir: Seq<char>,
    pub download_dir: Seq<char>,
    pub music_dir: Seq<char>,
    pub picture_dir: Seq<char>,
    pub public_dir: Seq<char>,
    pub video_dir: Seq<char>,
}

impl View for UserDirs {
    type V = UserDirsView;

    open spec fn view(&self) -> UserDirsView {
        UserDirsView {
            desktop_dir: self.desktop_dir@,
            document_dir: self.document_dir@,
            download_dir: self.download_dir@,
            music_dir: self.music_dir@,
            picture_dir: self.picture_dir@,
            public_dir: self.public_dir@,
            video_dir: self.video_dir@,
        }
    }
}

impl DeepView for UserDirs {
    type V = UserDirsView;

    open spec fn deep_view(&self) -> UserDirsView {
        self.view()
    }
}

/// One folder's rule: the native well-known-folder query wins when it yields
/// a path, and the fixed name under the home directory is the fallback.
pub open spec fn folder_or(native: Option<Seq<char>>, home: Seq<char>, fixed: Seq<char>) -> Seq<
    char,
> {
    match native {
        Some(p) => p,
        None => join_seq(home, fixed),
    }
}

/// The fixed fallback name of the videos folder: `Movies` on Apple
/// platforms, `Videos` everywhere else. No other folder's fallback name
/// depends on the platform.
pub open spec fn video_fixed_name(platform: Platform) -> Seq<char> {
    if platform is Apple {
        "Movies"@
    } else {
        "Videos"@
    }
}

/// The whole user-folder resolution: it requires only a resolvable home
/// directory, and each of the seven folders independently takes the native
/// query's answer or falls back to its fixed name under the home directory.
pub open spec fn user_dirs_spec(
    platform: Platform,
    home: Option<Seq<char>>,
    native: NativeUserDirsView,
) -> Option<UserDirsView> {
    match home {
        Some(h) => Some(
            UserDirsView {
                desktop_dir: folder_or(native.desktop, h, "Desktop"@),
                document_dir: folder_or(native.document, h, "Documents"@),
                download_dir: folder_or(native.download, h, "Downloads"@),
                music_dir: folder_or(native.audio, h, "Music"@),
                picture_dir: folder_or(native.picture, h, "Pictures"@),
                public_dir: folder_or(native.public, h, "Public"@),
                video_dir: folder_or(native.video, h, video_fixed_name(platform)),
            },
        ),
        None => None,
    }
}

/// Resolves one folder: the native query's answer when there is one, else
/// `home`/`fixed`.
fn folder_or_default(native: &Option<String>, home: &String, fixed: &str) -> (r: String)
    ensures
        r@ == folder_or(native.deep_view(), home@, fixed@),
{
    match native {
        Some(p) => p.clone(),
        None => join_path(home.as_str(), fixed),
    }
}

/// Resolves the seven well-known user folders for the given platform from
/// the given home directory and native query answers, following
/// `user_dirs_spec`.
pub fn resolve_user_dirs(
    platform: Platform,
    home: Option<&String>,
    native: &NativeUserDirs,
) -> (r: Option<UserDirs>)
    ensures
        r.deep_view() == user_dirs_spec(platform, home.deep_view(), native@),
        home is None ==> r is None,
{
    match home {
        Some(h) => {
            let video_fixed: &str = match platform {
                Platform::Apple => "Movies",
                _ => "Videos",
            };
            Some(
                UserDirs {
                    desktop_dir: folder_or_default(&native.desktop, h, "Desktop"),
                    document_dir: folder_or_default(&native.document, h, "Documents"),
                    download_dir: folder_or_default(&native.download, h, "Downloads"),
                    music_dir: folder_or_default(&native.audio, h, "Music"),
                    picture_dir: folder_or_default(&native.picture, h, "Pictures"),
                    public_dir: folder_or_default(&native.public, h, "Public"),
                    video_dir: folder_or_default(&native.video, h, video_fixed),
                },
            )
        },
        None => None,
    }
}

impl UserDirs {
    /// Resolves the seven well-known user folders on `platform`; the home
    /// directory and the native well-known-folder answers are obtained from
    /// the operating system. Returns `None` exactly when the home directory
    /// cannot be resolved: each folder has a fixed fallback, so no native
    /// query failure can fail the call.
    pub fn new(platform: Platform) -> Option<UserDirs> {
        let home = home_dir();
        let native = NativeUserDirs {
            desktop: os_desktop_dir(),
            document: os_document_dir(),
            download: os_download_dir(),
            audio: os_audio_dir(),
            picture: os_picture_dir(),
            public: os_public_dir(),
            video: os_video_dir(),
        };
        resolve_user_dirs(platform, home.as_ref(), &native)
    }
}

} // verus!
