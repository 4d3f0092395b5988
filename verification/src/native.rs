use vstd::prelude::*;

verus! {

/// The OS-native base directories that the application-directory decision
/// tree consults: the cache base and the roaming data base (Apple's
/// `~/Library/Caches` and `~/Library/Application Support`, Windows'
/// `AppData\Local` and `AppData\Roaming`), and Windows' local data base.
/// A field is `None` when the operating system could not supply that base.
#[derive(Clone, Debug)]
pub struct NativeDirs {
    pub cache: Option<String>,
    pub data: Option<String>,
    pub data_local: Option<String>,
}

pub ghost struct NativeDirsView {
    pub cache: Option<Seq<char>>,
    pub data: Option<Seq<char>>,
    pub data_local: Option<Seq<char>>,
}

impl View for NativeDirs {
    type V = NativeDirsView;

    open spec fn view(&self) -> NativeDirsView {
        NativeDirsView {
            cache: self.cache.deep_view(),
            data: self.data.deep_view(),
            data_local: self.data_local.deep_view(),
        }
    }
}

/// The results of the OS-native well-known-folder queries, one per personal
/// folder. A field is `None` when the native query yields nothing for that
/// folder, in which case resolution falls back to a fixed name under the home
/// directory. The music folder is named `audio` here after the native query
/// that supplies it.
#[derive(Clone, Debug)]
pub struct NativeUserDirs {
    pub desktop: Option<String>,
    pub document: Option<String>,
    pub download: Option<String>,
    pub audio: Option<String>,
    pub picture: Option<String>,
    pub public: Option<String>,
    pub video: Option<String>,
}

pub ghost struct NativeUserDirsView {
    pub desktop: Option<Seq<char>>,
    pub document: Option<Seq<char>>,
    pub download: Option<Seq<char>>,
    pub audio: Option<Seq<char>>,
    pub picture: Option<Seq<char>>,
    pub public: Option<Seq<char>>,
    pub video: Option<Seq<char>>,
}

impl View for NativeUserDirs {
    type V = NativeUserDirsView;

    open spec fn view(&self) -> NativeUserDirsView {
        NativeUserDirsView {
            desktop: self.desktop.deep_view(),
            document: self.document.deep_view(),
            download: self.download.deep_view(),
            audio: self.audio.deep_view(),
            picture: self.picture.deep_view(),
            public: self.public.deep_view(),
            video: self.video.deep_view(),
        }
    }
}

/// Relies on `dirs_next::home_dir`: the invoking user's home directory from
/// the OS profile mechanism, or `None` when the OS cannot determine one. The
/// result depends on the process environment and the user database, so
/// nothing is promised of it.
#[verifier::external_body]
pub fn home_dir() -> Option<String> {
    dirs_next::home_dir().map(|p| p.to_string_lossy().into_owned())
}

/// Relies on `dirs_next::cache_dir`: the OS-native cache base. The result
/// depends on the host platform and the process environment, so nothing is
/// promised of it.
#[verifier::external_body]
pub(crate) fn os_cache_dir() -> Option<String> {
    dirs_next::cache_dir().map(|p| p.to_string_lossy().into_owned())
}

/// Relies on `dirs_next::data_dir`: the OS-native (roaming, on Windows) data
/// base. The result depends on the host platform and the process environment,
/// so nothing is promised of it.
#[verifier::external_body]
pub(crate) fn os_data_dir() -> Option<String> {
    dirs_next::data_dir().map(|p| p.to_string_lossy().into_owned())
}

/// Relies on `dirs_next::data_local_dir`: the OS-native local data base. The
/// result depends on the host platform and the process environment, so
/// nothing is promised of it.
#[verifier::external_body]
pub(crate) fn os_data_local_dir() -> Option<String> {
    dirs_next::data_local_dir().map(|p| p.to_string_lossy().into_owned())
}

/// Relies on `dirs_next::desktop_dir`: the native well-known-folder query for
/// the desktop folder; `None` when the query yields nothing.
#[verifier::external_body]
pub(crate) fn os_desktop_dir() -> Option<String> {
    dirs_next::desktop_dir().map(|p| p.to_string_lossy().into_owned())
}

/// Relies on `dirs_next::document_dir`: the native well-known-folder query
/// for the documents folder; `None` when the query yields nothing.
#[verifier::external_body]
pub(crate) fn os_document_dir() -> Option<String> {
    dirs_next::document_dir().map(|p| p.to_string_lossy().into_owned())
}

/// Relies on `dirs_next::download_dir`: the native well-known-folder query
/// for the downloads folder; `None` when the query yields nothing.
#[verifier::external_body]
pub(crate) fn os_download_dir() -> Option<String> {
    dirs_next::download_dir().map(|p| p.to_string_lossy().into_owned())
}

/// Relies on `dirs_next::audio_dir`: the native well-known-folder query for
/// the music folder; `None` when the query yields nothing.
#[verifier::external_body]
pub(crate) fn os_audio_dir() -> Option<String> {
    dirs_next::audio_dir().map(|p| p.to_string_lossy().into_owned())
}

/// Relies on `dirs_next::picture_dir`: the native well-known-folder query for
/// the pictures folder; `None` when the query yields nothing.
#[verifier::external_body]
pub(crate) fn os_picture_dir() -> Option<String> {
    dirs_next::picture_dir().map(|p| p.to_string_lossy().into_owned())
}

/// Relies on `dirs_next::public_dir`: the native well-known-folder query for
/// the public-share folder; `None` when the query yields nothing.
#[verifier::external_body]
pub(crate) fn os_public_dir() -> Option<String> {
    dirs_next::public_dir().map(|p| p.to_string_lossy().into_owned())
}

/// Relies on `dirs_next::video_dir`: the native well-known-folder query for
/// the videos folder; `None` when the query yields nothing.
#[verifier::external_body]
pub(crate) fn os_video_dir() -> Option<String> {
    dirs_next::video_dir().map(|p| p.to_string_lossy().into_owned())
}

} // verus!
