use vstd::prelude::*;

verus! {

/// The subcommands of the command-line tool.
#[derive(Clone, Copy, Debug, PartialEq, Eq, Structural)]
pub enum Commands {
    New,
    Serve,
    Bundle,
    Build,
    Run,
    Init,
    Doctor,
    Translate,
    Autoformat,
    Check,
    Config,
    SelfUpdate,
    Tools,
}

pub open spec fn command_name_spec(c: Commands) -> Seq<char> {
    match c {
        Commands::Build => "build"@,
        Commands::Translate => "translate"@,
        Commands::Serve => "serve"@,
        Commands::New => "create"@,
        Commands::Init => "init"@,
        Commands::Config => "config"@,
        Commands::Autoformat => "fmt"@,
        Commands::Check => "check"@,
        Commands::Bundle => "bundle"@,
        Commands::Run => "run"@,
        Commands::SelfUpdate => "self-update"@,
        Commands::Tools => "tools"@,
        Commands::Doctor => "doctor"@,
    }
}

impl Commands {
    /// The name a subcommand is reported under.
    pub fn name(&self) -> (r: String)
        ensures
            r@ == command_name_spec(*self),
    {
        match self {
            Commands::Build => String::from_str("build"),
            Commands::Translate => String::from_str("translate"),
            Commands::Serve => String::from_str("serve"),
            Commands::New => String::from_str("create"),
            Commands::Init => String::from_str("init"),
            Commands::Config => String::from_str("config"),
            Commands::Autoformat => String::from_str("fmt"),
            Commands::Check => String::from_str("check"),
            Commands::Bundle => String::from_str("bundle"),
            Commands::Run => String::from_str("run"),
            Commands::SelfUpdate => String::from_str("self-update"),
            Commands::Tools => String::from_str("tools"),
            Commands::Doctor => String::from_str("doctor"),
        }
    }
}

/// The build tools the command-line tool can run on their own.
#[derive(Clone, Copy, Debug, PartialEq, Eq, Structural)]
pub enum BuildTools {
    /// Build the assets for a specific target.
    BuildAssets,
}

/// A custom command that signs Windows installers: the program and its arguments.
#[derive(Clone, Debug)]
pub struct CustomSignCommandSettings {
    pub cmd: String,
    pub args: Vec<String>,
}

/// Whether macOS bundles use the hardened runtime when the configuration does not
/// say.
pub fn default_hardened_runtime() -> (r: bool)
    ensures
        r,
{
    true
}

/// How a Windows installer brings the WebView2 runtime.
#[derive(Debug, PartialEq)]
pub enum WebviewInstallMode {
    Skip,
    DownloadBootstrapper { silent: bool },
    EmbedBootstrapper { silent: bool },
    OfflineInstaller { silent: bool },
    FixedRuntime { path: String },
}

impl Default for WebviewInstallMode {
    /// The offline installer, not silent.
    fn default() -> (r: WebviewInstallMode)
        ensures
            r == (WebviewInstallMode::OfflineInstaller { silent: false }),
    {
        WebviewInstallMode::OfflineInstaller { silent: false }
    }
}

/// The kinds of package the bundler produces.
#[derive(Clone, Copy, Debug, PartialEq, Eq, Structural)]
pub enum PackageType {
    MacOsBundle,
    IosBundle,
    WindowsMsi,
    Nsis,
    Deb,
    Rpm,
    AppImage,
    Dmg,
    Updater,
}

/// The package type a name stands for.
pub open spec fn package_type_spec(s: Seq<char>) -> Option<PackageType> {
    if s == "macos"@ {
        Some(PackageType::MacOsBundle)
    } else if s == "ios"@ {
        Some(PackageType::IosBundle)
    } else if s == "msi"@ {
        Some(PackageType::WindowsMsi)
    } else if s == "nsis"@ {
        Some(PackageType::Nsis)
    } else if s == "deb"@ {
        Some(PackageType::Deb)
    } else if s == "rpm"@ {
        Some(PackageType::Rpm)
    } else if s == "appimage"@ {
        Some(PackageType::AppImage)
    } else if s == "dmg"@ {
        Some(PackageType::Dmg)
    } else if s == "updater"@ {
        Some(PackageType::Updater)
    } else {
        None
    }
}

impl PackageType {
    /// Reads a package type from its name; any other text is refused with a
    /// message that quotes it.
    pub fn from_str(s: &str) -> (r: Result<PackageType, String>)
        ensures
            package_type_spec(s@) matches Some(t) ==> r == Ok::<PackageType, String>(t),
            package_type_spec(s@) is None ==> (r matches Err(e) && e@ == s@
                + " is not a valid package type"@),
    {
        if crate::json::str_equal(s, "macos") {
            Ok(PackageType::MacOsBundle)
        } else if crate::json::str_equal(s, "ios") {
            Ok(PackageType::IosBundle)
        } else if crate::json::str_equal(s, "msi") {
            Ok(PackageType::WindowsMsi)
        } else if crate::json::str_equal(s, "nsis") {
            Ok(PackageType::Nsis)
        } else if crate::json::str_equal(s, "deb") {
            Ok(PackageType::Deb)
        } else if crate::json::str_equal(s, "rpm") {
            Ok(PackageType::Rpm)
        } else if crate::json::str_equal(s, "appimage") {
            Ok(PackageType::AppImage)
        } else if crate::json::str_equal(s, "dmg") {
            Ok(PackageType::Dmg)
        } else if crate::json::str_equal(s, "updater") {
            Ok(PackageType::Updater)
        } else {
            Err(String::from_str(s).concat(" is not a valid package type"))
        }
    }
}

} // verus!
