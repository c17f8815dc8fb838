use vstd::prelude::*;

verus! {

/// The kinds of platform that name their library search path differently.
#[derive(Copy, Clone, Debug, PartialEq, Eq, Structural)]
pub enum Platform {
    Windows,
    MacOs,
    Other,
}

/// The name of the environment variable that lists the directories in which
/// the platform looks for dynamic libraries.
pub open spec fn dylib_path_envvar_spec(platform: Platform) -> Seq<char> {
    match platform {
        Platform::Windows => "PATH"@,
        Platform::MacOs => "DYLD_FALLBACK_LIBRARY_PATH"@,
        Platform::Other => "LD_LIBRARY_PATH"@,
    }
}

/// The name of the environment variable that lists the directories in which
/// the platform looks for dynamic libraries.
pub fn dylib_path_envvar(platform: Platform) -> (name: &'static str)
    ensures
        name@ == dylib_path_envvar_spec(platform),
{
    match platform {
        Platform::Windows => "PATH",
        Platform::MacOs => "DYLD_FALLBACK_LIBRARY_PATH",
        Platform::Other => "LD_LIBRARY_PATH",
    }
}

/// The file name under which the platform knows this library.
pub open spec fn dylib_file_name_spec(platform: Platform) -> Seq<char> {
    match platform {
        Platform::Windows => "gloof.dll"@,
        Platform::MacOs => "libgloof.dylib"@,
        Platform::Other => "libgloof.so"@,
    }
}

/// The file name under which the platform knows this library: the
/// platform's prefix for dynamic libraries, the library's name, and the
/// platform's suffix.
pub fn dylib_file_name(platform: Platform) -> (name: &'static str)
    ensures
        name@ == dylib_file_name_spec(platform),
{
    match platform {
        Platform::Windows => "gloof.dll",
        Platform::MacOs => "libgloof.dylib",
        Platform::Other => "libgloof.so",
    }
}

} // verus!
