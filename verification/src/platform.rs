use vstd::prelude::*;

verus! {

/// The directory convention of the host operating system: Apple's Library
/// folders, Windows' AppData folders, or the XDG base directories used
/// everywhere else. It is chosen once from the host platform identity and
/// injected into each resolution call, so that every branch of the decision
/// tree can be exercised on any host.
#[derive(Clone, Copy, Debug, PartialEq, Eq, Structural)]
pub enum Platform {
    Apple,
    Windows,
    Xdg,
}

/// Whether the calling application presents a graphical interface or a
/// command-line one. On Apple platforms a command-line application follows
/// the XDG convention instead of the native Library folders; everywhere else
/// the mode makes no difference.
#[derive(Clone, Copy, Debug, PartialEq, Eq, Structural)]
pub enum UiMode {
    CommandLine,
    Graphical,
}

/// The combinations of platform and UI mode that resolve application
/// directories by the XDG convention: every platform but Windows and the
/// Apple-graphical pairing.
pub open spec fn uses_xdg(platform: Platform, ui_mode: UiMode) -> bool {
    match platform {
        Platform::Apple => ui_mode is CommandLine,
        Platform::Windows => false,
        Platform::Xdg => true,
    }
}

} // verus!
