use gloof::launch::{dylib_file_name, dylib_path_envvar, Platform};

#[test]
fn names_the_search_path_variable_of_each_platform() {
    assert_eq!(dylib_path_envvar(Platform::Windows), "PATH");
    assert_eq!(dylib_path_envvar(Platform::MacOs), "DYLD_FALLBACK_LIBRARY_PATH");
    assert_eq!(dylib_path_envvar(Platform::Other), "LD_LIBRARY_PATH");
}

#[test]
fn names_the_library_file_of_each_platform() {
    assert_eq!(dylib_file_name(Platform::Windows), "gloof.dll");
    assert_eq!(dylib_file_name(Platform::MacOs), "libgloof.dylib");
    assert_eq!(dylib_file_name(Platform::Other), "libgloof.so");
}
