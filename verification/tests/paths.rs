use lumd::paths::decimal_string;
use lumd::paths::ensure_dir_exists;
use lumd::paths::is_absolute_path;
use lumd::paths::join_path;
use lumd::paths::runtime_dir_for;
use lumd::paths::Paths;

fn is_dir_on_disk(path: &str) -> bool {
    match nix::sys::stat::stat(path) {
        Ok(st) => {
            let flags = nix::sys::stat::SFlag::from_bits_truncate(st.st_mode);
            flags & nix::sys::stat::SFlag::S_IFMT == nix::sys::stat::SFlag::S_IFDIR
        }
        Err(_) => false,
    }
}

#[test]
fn runtime_dir_follows_env_base() {
    let dir = runtime_dir_for(Some("/run/user/1000"), 1000);
    assert_eq!(dir.as_str(), "/run/user/1000/lumd");
}

#[test]
fn runtime_dir_fallback_uses_uid() {
    let dir = runtime_dir_for(None, 1000);
    assert_eq!(dir.as_str(), "/tmp/lumd-1000");
}

#[test]
fn decimal_rendering() {
    assert_eq!(decimal_string(0).as_str(), "0");
    assert_eq!(decimal_string(7).as_str(), "7");
    assert_eq!(decimal_string(42).as_str(), "42");
    assert_eq!(decimal_string(1000).as_str(), "1000");
    assert_eq!(decimal_string(4294967295).as_str(), "4294967295");
}

#[test]
fn join_inserts_exactly_one_separator() {
    assert_eq!(join_path("/a", "b").as_str(), "/a/b");
    assert_eq!(join_path("/a/", "b").as_str(), "/a/b");
    assert_eq!(join_path("", "b").as_str(), "/b");
}

#[test]
fn absolute_path_test() {
    assert!(is_absolute_path("/"));
    assert!(is_absolute_path("/tmp"));
    assert!(!is_absolute_path(""));
    assert!(!is_absolute_path("tmp"));
}

#[test]
fn resolution_pins_every_path() {
    let r = Paths::from_bases(
        String::from("/home/u/.config/lumd"),
        String::from("/home/u/.cache/lumd"),
        Some(String::from("/run/user/1000")),
        1000,
    );
    let p = r.unwrap_or_else(|e| panic!("resolution failed: {}", e.message));
    assert_eq!(p.config_dir.as_str(), "/home/u/.config/lumd");
    assert_eq!(p.cache_dir.as_str(), "/home/u/.cache/lumd");
    assert_eq!(p.runtime_dir.as_str(), "/run/user/1000/lumd");
    assert_eq!(p.config_file_path.as_str(), "/home/u/.config/lumd/config.toml");
    assert_eq!(p.socket_path.as_str(), "/run/user/1000/lumd/lumd.sock");
    assert_eq!(p.config_file().as_str(), "/home/u/.config/lumd/config.toml");
    assert_eq!(p.socket_path().as_str(), "/run/user/1000/lumd/lumd.sock");
}

#[test]
fn resolution_without_env_base_uses_fallback() {
    let r = Paths::from_bases(
        String::from("/home/u/.config/lumd"),
        String::from("/home/u/.cache/lumd"),
        None,
        4242,
    );
    let p = r.unwrap_or_else(|e| panic!("resolution failed: {}", e.message));
    assert_eq!(p.runtime_dir.as_str(), "/tmp/lumd-4242");
    assert_eq!(p.socket_path.as_str(), "/tmp/lumd-4242/lumd.sock");
}

#[test]
fn resolution_rejects_relative_directories() {
    let relative_config = Paths::from_bases(
        String::from("home/.config/lumd"),
        String::from("/home/u/.cache/lumd"),
        None,
        1,
    );
    assert!(relative_config.is_err());
    assert!(!relative_config.err().unwrap().message.is_empty());

    let relative_cache = Paths::from_bases(
        String::from("/home/u/.config/lumd"),
        String::from(".cache/lumd"),
        None,
        1,
    );
    assert!(relative_cache.is_err());

    let relative_base = Paths::from_bases(
        String::from("/home/u/.config/lumd"),
        String::from("/home/u/.cache/lumd"),
        Some(String::from("run/user/1000")),
        1,
    );
    assert!(relative_base.is_err());
}

#[test]
fn resolution_is_idempotent_on_equal_inputs() {
    let first = Paths::from_bases(
        String::from("/c/lumd"),
        String::from("/k/lumd"),
        Some(String::from("/run/user/7")),
        7,
    )
    .unwrap_or_else(|e| panic!("resolution failed: {}", e.message));
    let second = Paths::from_bases(
        String::from("/c/lumd"),
        String::from("/k/lumd"),
        Some(String::from("/run/user/7")),
        7,
    )
    .unwrap_or_else(|e| panic!("resolution failed: {}", e.message));
    assert_eq!(first.config_dir, second.config_dir);
    assert_eq!(first.runtime_dir, second.runtime_dir);
    assert_eq!(first.cache_dir, second.cache_dir);
    assert_eq!(first.config_file_path, second.config_file_path);
    assert_eq!(first.socket_path, second.socket_path);
}

#[test]
fn ensure_dir_exists_creates_and_tolerates_existing() {
    let path = "/tmp/lumd_test_tree/inner/leaf";
    assert!(ensure_dir_exists(path).is_ok());
    assert!(is_dir_on_disk(path));
    assert!(is_dir_on_disk("/tmp/lumd_test_tree/inner"));
    // A second call must succeed: an already existing directory is not an
    // error.
    assert!(ensure_dir_exists(path).is_ok());
    assert!(is_dir_on_disk(path));
}

#[test]
fn ensure_dir_exists_fails_under_a_file() {
    let blocker = "/tmp/lumd_test_blocker";
    let fd = nix::fcntl::open(
        blocker,
        nix::fcntl::OFlag::O_CREAT | nix::fcntl::OFlag::O_WRONLY,
        nix::sys::stat::Mode::from_bits_truncate(0o644),
    )
    .expect("creating the blocking file failed");
    drop(fd);
    let r = ensure_dir_exists("/tmp/lumd_test_blocker/lumd");
    assert!(r.is_err());
    assert!(!r.err().unwrap().message.is_empty());
}
