//! Binary types, platforms, the package-to-directory table and the static
//! package lists used when no manifest can be had.

use vstd::prelude::*;
use crate::text::{same_text, join3};

verus! {

/// A product and platform whose client can be installed.
#[derive(Clone, Copy, Debug, PartialEq, Eq, Structural)]
pub enum BinaryType {
    WindowsPlayer,
    WindowsStudio,
    WindowsStudio64,
    MacPlayer,
    MacStudio,
}

/// The operating system the installer runs on.
#[derive(Clone, Copy, Debug, PartialEq, Eq, Structural)]
pub enum Os {
    Windows,
    Mac,
    Linux,
}

pub open spec fn wire_name_of(b: BinaryType) -> Seq<char> {
    match b {
        BinaryType::WindowsPlayer => "WindowsPlayer"@,
        BinaryType::WindowsStudio => "WindowsStudio"@,
        BinaryType::WindowsStudio64 => "WindowsStudio64"@,
        BinaryType::MacPlayer => "MacPlayer"@,
        BinaryType::MacStudio => "MacStudio"@,
    }
}

/// Whether the binary type belongs to the studio family (else the player).
pub open spec fn is_studio_spec(b: BinaryType) -> bool {
    match b {
        BinaryType::WindowsStudio | BinaryType::WindowsStudio64 | BinaryType::MacStudio => true,
        _ => false,
    }
}

pub open spec fn executable_of(b: BinaryType) -> Seq<char> {
    match b {
        BinaryType::WindowsPlayer => "RobloxPlayerBeta.exe"@,
        BinaryType::WindowsStudio | BinaryType::WindowsStudio64 => "RobloxStudioBeta.exe"@,
        BinaryType::MacPlayer => "RobloxPlayer.app/Contents/MacOS/RobloxPlayer"@,
        BinaryType::MacStudio => "RobloxStudio.app/Contents/MacOS/RobloxStudio"@,
    }
}

pub open spec fn url_prefix_of(b: BinaryType) -> Seq<char> {
    match b {
        BinaryType::MacPlayer => "https://setup.rbxcdn.com/mac"@,
        _ => "https://setup.rbxcdn.com"@,
    }
}

impl BinaryType {
    /// The name the version and package services know this binary type by.
    pub fn wire_name(self) -> (r: &'static str)
        ensures
            r@ == wire_name_of(self),
    {
        match self {
            BinaryType::WindowsPlayer => "WindowsPlayer",
            BinaryType::WindowsStudio => "WindowsStudio",
            BinaryType::WindowsStudio64 => "WindowsStudio64",
            BinaryType::MacPlayer => "MacPlayer",
            BinaryType::MacStudio => "MacStudio",
        }
    }

    /// The binary type whose wire name is `s`, if any.
    pub fn from_wire(s: &str) -> (r: Option<BinaryType>)
        ensures
            r matches Some(b) ==> wire_name_of(b) == s@,
            r is None ==> forall|b: BinaryType| wire_name_of(b) != s@,
    {
        if same_text(s, "WindowsPlayer") {
            Some(BinaryType::WindowsPlayer)
        } else if same_text(s, "WindowsStudio") {
            Some(BinaryType::WindowsStudio)
        } else if same_text(s, "WindowsStudio64") {
            Some(BinaryType::WindowsStudio64)
        } else if same_text(s, "MacPlayer") {
            Some(BinaryType::MacPlayer)
        } else if same_text(s, "MacStudio") {
            Some(BinaryType::MacStudio)
        } else {
            assert forall|b: BinaryType| wire_name_of(b) != s@ by {
                match b {
                    BinaryType::WindowsPlayer => {},
                    BinaryType::WindowsStudio => {},
                    BinaryType::WindowsStudio64 => {},
                    BinaryType::MacPlayer => {},
                    BinaryType::MacStudio => {},
                }
            }
            None
        }
    }

    /// Whether this binary type belongs to the studio family.
    pub fn is_studio(self) -> (r: bool)
        ensures
            r == is_studio_spec(self),
    {
        match self {
            BinaryType::WindowsStudio | BinaryType::WindowsStudio64 | BinaryType::MacStudio => true,
            _ => false,
        }
    }

    /// The executable's path relative to a version directory; it exists
    /// there exactly when the installation is complete.
    pub fn executable_path(self) -> (r: &'static str)
        ensures
            r@ == executable_of(self),
    {
        match self {
            BinaryType::WindowsPlayer => "RobloxPlayerBeta.exe",
            BinaryType::WindowsStudio | BinaryType::WindowsStudio64 => "RobloxStudioBeta.exe",
            BinaryType::MacPlayer => "RobloxPlayer.app/Contents/MacOS/RobloxPlayer",
            BinaryType::MacStudio => "RobloxStudio.app/Contents/MacOS/RobloxStudio",
        }
    }

    /// The base address under which manifests and packages are published.
    pub fn url_prefix(self) -> (r: &'static str)
        ensures
            r@ == url_prefix_of(self),
    {
        match self {
            BinaryType::MacPlayer => "https://setup.rbxcdn.com/mac",
            _ => "https://setup.rbxcdn.com",
        }
    }
}

/// The address of the version service for `b`.
pub fn version_endpoint(b: BinaryType) -> (r: String)
    ensures
        r@ == "https://clientsettings.roblox.com/v2/client-version/"@ + wire_name_of(b),
{
    let mut out = String::from_str("https://clientsettings.roblox.com/v2/client-version/");
    out.append(b.wire_name());
    out
}

/// The address of the file `file` (a manifest or a package) of `version`.
pub fn version_file_url(b: BinaryType, version: &str, file: &str) -> (r: String)
    ensures
        r@ == url_prefix_of(b) + "/"@ + version@ + "-"@ + file@,
{
    join3(b.url_prefix(), "/", version, "-", file)
}

/// The directory, relative to the installation directory, into which the
/// package `name` is extracted; empty for the installation directory itself,
/// which is also where a package that the table does not know goes.
pub open spec fn target_subpath_of(name: Seq<char>) -> Seq<char> {
    if name == "RobloxStudio.zip"@ {
        "RobloxStudio.app"@
    } else if name == "RobloxPlayer.zip"@ {
        "RobloxPlayer.app"@
    } else if name == "shaders.zip"@ {
        "shaders"@
    } else if name == "ssl.zip"@ {
        "ssl"@
    } else if name == "content-avatar.zip"@ {
        "content/avatar"@
    } else if name == "content-configs.zip"@ {
        "content/configs"@
    } else if name == "content-fonts.zip"@ {
        "content/fonts"@
    } else if name == "content-sky.zip"@ {
        "content/sky"@
    } else if name == "content-sounds.zip"@ {
        "content/sounds"@
    } else if name == "content-textures2.zip"@ {
        "content/textures"@
    } else if name == "content-models.zip"@ {
        "content/models"@
    } else if name == "content-textures3.zip"@ {
        "PlatformContent/pc/textures"@
    } else if name == "content-terrain.zip"@ {
        "PlatformContent/pc/terrain"@
    } else if name == "content-platform-fonts.zip"@ {
        "PlatformContent/pc/fonts"@
    } else if name == "content-platform-dictionaries.zip"@ {
        "PlatformContent/pc/shared_compression_dictionaries"@
    } else if name == "extracontent-luapackages.zip"@ {
        "ExtraContent/LuaPackages"@
    } else if name == "extracontent-translations.zip"@ {
        "ExtraContent/translations"@
    } else if name == "extracontent-models.zip"@ {
        "ExtraContent/models"@
    } else if name == "extracontent-textures.zip"@ {
        "ExtraContent/textures"@
    } else if name == "extracontent-places.zip"@ {
        "ExtraContent/places"@
    } else if name == "content-studio_svg_textures.zip"@ {
        "content/studio_svg_textures"@
    } else if name == "content-qt_translations.zip"@ {
        "content/qt_translations"@
    } else if name == "content-api-docs.zip"@ {
        "content/api_docs"@
    } else if name == "BuiltInPlugins.zip"@ {
        "BuiltInPlugins"@
    } else if name == "BuiltInStandalonePlugins.zip"@ {
        "BuiltInStandalonePlugins"@
    } else if name == "StudioFonts.zip"@ {
        "StudioFonts"@
    } else if name == "ApplicationConfig.zip"@ {
        "ApplicationConfig"@
    } else if name == "RibbonConfig.zip"@ {
        "RibbonConfig"@
    } else if name == "Qml.zip"@ {
        "Qml"@
    } else if name == "Plugins.zip"@ {
        "plugins"@
    } else {
        Seq::empty()
    }
}

/// Looks up the extraction directory of a package.
pub fn target_subpath(name: &str) -> (r: &'static str)
    ensures
        r@ == target_subpath_of(name@),
{
    proof {
        reveal_strlit("");
    }
    if same_text(name, "RobloxStudio.zip") {
        "RobloxStudio.app"
    } else if same_text(name, "RobloxPlayer.zip") {
        "RobloxPlayer.app"
    } else if same_text(name, "shaders.zip") {
        "shaders"
    } else if same_text(name, "ssl.zip") {
        "ssl"
    } else if same_text(name, "content-avatar.zip") {
        "content/avatar"
    } else if same_text(name, "content-configs.zip") {
        "content/configs"
    } else if same_text(name, "content-fonts.zip") {
        "content/fonts"
    } else if same_text(name, "content-sky.zip") {
        "content/sky"
    } else if same_text(name, "content-sounds.zip") {
        "content/sounds"
    } else if same_text(name, "content-textures2.zip") {
        "content/textures"
    } else if same_text(name, "content-models.zip") {
        "content/models"
    } else if same_text(name, "content-textures3.zip") {
        "PlatformContent/pc/textures"
    } else if same_text(name, "content-terrain.zip") {
        "PlatformContent/pc/terrain"
    } else if same_text(name, "content-platform-fonts.zip") {
        "PlatformContent/pc/fonts"
    } else if same_text(name, "content-platform-dictionaries.zip") {
        "PlatformContent/pc/shared_compression_dictionaries"
    } else if same_text(name, "extracontent-luapackages.zip") {
        "ExtraContent/LuaPackages"
    } else if same_text(name, "extracontent-translations.zip") {
        "ExtraContent/translations"
    } else if same_text(name, "extracontent-models.zip") {
        "ExtraContent/models"
    } else if same_text(name, "extracontent-textures.zip") {
        "ExtraContent/textures"
    } else if same_text(name, "extracontent-places.zip") {
        "ExtraContent/places"
    } else if same_text(name, "content-studio_svg_textures.zip") {
        "content/studio_svg_textures"
    } else if same_text(name, "content-qt_translations.zip") {
        "content/qt_translations"
    } else if same_text(name, "content-api-docs.zip") {
        "content/api_docs"
    } else if same_text(name, "BuiltInPlugins.zip") {
        "BuiltInPlugins"
    } else if same_text(name, "BuiltInStandalonePlugins.zip") {
        "BuiltInStandalonePlugins"
    } else if same_text(name, "StudioFonts.zip") {
        "StudioFonts"
    } else if same_text(name, "ApplicationConfig.zip") {
        "ApplicationConfig"
    } else if same_text(name, "RibbonConfig.zip") {
        "RibbonConfig"
    } else if same_text(name, "Qml.zip") {
        "Qml"
    } else if same_text(name, "Plugins.zip") {
        "plugins"
    } else {
        ""
    }
}

pub open spec fn studio_packages() -> Seq<Seq<char>> {
    seq![
        "RobloxStudio.zip"@,
        "Libraries.zip"@,
        "LibrariesQt5.zip"@,
        "redist.zip"@,
        "ApplicationConfig.zip"@,
        "RibbonConfig.zip"@,
        "WebView2.zip"@,
        "shaders.zip"@,
        "ssl.zip"@,
        "content-avatar.zip"@,
        "content-configs.zip"@,
        "content-fonts.zip"@,
        "content-models.zip"@,
        "content-qt_translations.zip"@,
        "content-sky.zip"@,
        "content-sounds.zip"@,
        "content-textures2.zip"@,
        "content-textures3.zip"@,
        "content-studio_svg_textures.zip"@,
        "content-terrain.zip"@,
        "content-platform-fonts.zip"@,
        "content-platform-dictionaries.zip"@,
        "content-api-docs.zip"@,
        "extracontent-scripts.zip"@,
        "extracontent-luapackages.zip"@,
        "extracontent-translations.zip"@,
        "extracontent-models.zip"@,
        "extracontent-textures.zip"@,
        "studiocontent-models.zip"@,
        "studiocontent-textures.zip"@,
        "StudioFonts.zip"@,
        "BuiltInPlugins.zip"@,
        "BuiltInStandalonePlugins.zip"@,
        "Plugins.zip"@,
    ]
}

pub open spec fn player_packages() -> Seq<Seq<char>> {
    seq![
        "RobloxApp.zip"@,
        "WebView2.zip"@,
        "ssl.zip"@,
        "shaders.zip"@,
        "content-fonts.zip"@,
        "content-models.zip"@,
        "content-sky.zip"@,
        "content-sounds.zip"@,
        "content-textures2.zip"@,
        "content-textures3.zip"@,
        "content-terrain.zip"@,
        "content-configs.zip"@,
        "content-platform-fonts.zip"@,
        "content-platform-dictionaries.zip"@,
        "content-avatar.zip"@,
        "extracontent-places.zip"@,
        "extracontent-luapackages.zip"@,
        "extracontent-translations.zip"@,
        "extracontent-models.zip"@,
        "extracontent-textures.zip"@,
    ]
}

/// The packages installed when no manifest lists any.
pub open spec fn fallback_of(os: Os, b: BinaryType) -> Seq<Seq<char>> {
    match os {
        Os::Windows => if is_studio_spec(b) {
            studio_packages()
        } else {
            player_packages()
        },
        Os::Mac => seq!["RobloxPlayer.zip"@],
        Os::Linux => Seq::empty(),
    }
}

/// The static package list for `os` and `b`.
pub fn fallback_packages(os: Os, b: BinaryType) -> (r: Vec<&'static str>)
    ensures
        r.deep_view() == fallback_of(os, b),
{
    match os {
        Os::Windows => if b.is_studio() {
            let v = vec![
                "RobloxStudio.zip",
                "Libraries.zip",
                "LibrariesQt5.zip",
                "redist.zip",
                "ApplicationConfig.zip",
                "RibbonConfig.zip",
                "WebView2.zip",
                "shaders.zip",
                "ssl.zip",
                "content-avatar.zip",
                "content-configs.zip",
                "content-fonts.zip",
                "content-models.zip",
                "content-qt_translations.zip",
                "content-sky.zip",
                "content-sounds.zip",
                "content-textures2.zip",
                "content-textures3.zip",
                "content-studio_svg_textures.zip",
                "content-terrain.zip",
                "content-platform-fonts.zip",
                "content-platform-dictionaries.zip",
                "content-api-docs.zip",
                "extracontent-scripts.zip",
                "extracontent-luapackages.zip",
                "extracontent-translations.zip",
                "extracontent-models.zip",
                "extracontent-textures.zip",
                "studiocontent-models.zip",
                "studiocontent-textures.zip",
                "StudioFonts.zip",
                "BuiltInPlugins.zip",
                "BuiltInStandalonePlugins.zip",
                "Plugins.zip",
            ];
            assert(v.deep_view() =~= studio_packages());
            v
        } else {
            let v = vec![
                "RobloxApp.zip",
                "WebView2.zip",
                "ssl.zip",
                "shaders.zip",
                "content-fonts.zip",
                "content-models.zip",
                "content-sky.zip",
                "content-sounds.zip",
                "content-textures2.zip",
                "content-textures3.zip",
                "content-terrain.zip",
                "content-configs.zip",
                "content-platform-fonts.zip",
                "content-platform-dictionaries.zip",
                "content-avatar.zip",
                "extracontent-places.zip",
                "extracontent-luapackages.zip",
                "extracontent-translations.zip",
                "extracontent-models.zip",
                "extracontent-textures.zip",
            ];
            assert(v.deep_view() =~= player_packages());
            v
        },
        Os::Mac => {
            let v = vec!["RobloxPlayer.zip"];
            assert(v.deep_view() =~= seq!["RobloxPlayer.zip"@]);
            v
        },
        Os::Linux => {
            let v: Vec<&'static str> = Vec::new();
            assert(v.deep_view() =~= Seq::<Seq<char>>::empty());
            v
        },
    }
}

} // verus!
