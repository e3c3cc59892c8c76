//! The system and the build that the server runs as.

use vstd::prelude::*;

verus! {

/// Operating system.
#[derive(Clone, Copy, Debug, PartialEq, Eq, Structural)]
pub enum Os {
    Windows,
    Linux,
    Macos,
    Android,
    Ios,
}

/// Operating system and build options.
#[derive(Clone, Copy, Debug, PartialEq, Eq, Structural)]
pub struct Target {
    pub os: Os,
    /// The Flutter user interface is built in.
    pub flutter: bool,
    /// The plugin framework is built in.
    pub plugin_framework: bool,
    /// Hardware codecs are built in.
    pub hwcodec: bool,
    /// Copying files through the clipboard is built in on Linux and macOS.
    pub unix_file_copy_paste: bool,
}

impl Target {
    /// Neither Android nor iOS.
    pub open spec fn is_desktop(self) -> bool {
        self.os != Os::Android && self.os != Os::Ios
    }

    /// Plugins run in this build.
    pub open spec fn has_plugins(self) -> bool {
        self.flutter && self.plugin_framework && self.is_desktop()
    }

    /// Files can be copied through the clipboard.
    pub open spec fn has_file_clipboard(self) -> bool {
        self.os == Os::Windows || (self.os == Os::Linux || self.os == Os::Macos)
            && self.unix_file_copy_paste
    }

    /// Neither Android nor iOS.
    pub fn desktop(&self) -> (yes: bool)
        ensures
            yes == self.is_desktop(),
    {
        self.os != Os::Android && self.os != Os::Ios
    }

    /// Plugins run in this build.
    pub fn plugins(&self) -> (yes: bool)
        ensures
            yes == self.has_plugins(),
    {
        self.flutter && self.plugin_framework && self.desktop()
    }

    /// Files can be copied through the clipboard.
    pub fn file_clipboard(&self) -> (yes: bool)
        ensures
            yes == self.has_file_clipboard(),
    {
        self.os == Os::Windows || (self.os == Os::Linux || self.os == Os::Macos)
            && self.unix_file_copy_paste
    }
}

} // verus!
