use vstd::prelude::*;

verus! {

/// The two personalization registry values that control light/dark appearance.
/// They are always written together, with the same numeric value.
#[derive(Clone, Copy, Debug, PartialEq, Eq, Structural)]
pub enum ThemeValueName {
    AppsUseLightTheme,
    SystemUsesLightTheme,
}

/// Errors reported by the desktop-personalization operations.
///
/// Every failure is surfaced immediately as one of these; nothing is retried
/// or logged internally.
#[derive(Clone, Copy, Debug, PartialEq, Eq, Structural)]
pub enum Error {
    /// A caller-supplied path cannot be handed to the platform
    /// (it holds an embedded null byte).
    InvalidPath,
    /// The platform's wallpaper query reported failure.
    PlatformQueryFailed,
    /// The platform's wallpaper update reported failure.
    PlatformUpdateFailed,
    /// The personalization registry key could not be opened.
    RegistryOpenFailed,
    /// One of the two theme registry values could not be written.
    RegistryWriteFailed(ThemeValueName),
    /// The roaming application-data directory could not be resolved.
    EnvironmentLookupFailed,
    /// Copying the transcoded wallpaper cache entry failed.
    CacheCopyFailed,
    /// The platform-reported wallpaper path is not valid UTF-16.
    InvalidEncoding,
    /// The lock-screen image path could not be resolved to a file.
    FileResolutionFailed,
    /// The lock-screen image service reported failure.
    LockScreenUpdateFailed,
}

} // verus!
