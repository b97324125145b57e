//! Resolution of the daemon's filesystem locations along the XDG
//! base-directory convention: the configuration, runtime and cache
//! directories, the configuration file and the control socket path. Paths are
//! plain strings; a path is modelled as its sequence of characters.

use vstd::prelude::*;
use vstd::string::StrSliceExecFns;
use vstd::string::StringExecFns;

verus! {

/// A path is absolute when it starts with the root separator.
pub open spec fn is_absolute(p: Seq<char>) -> bool {
    p.len() > 0 && p[0] == '/'
}

/// Joining a relative name onto a base path: one separator stands between
/// them, whether or not the base already ends with one.
pub open spec fn spec_join(base: Seq<char>, name: Seq<char>) -> Seq<char> {
    if base.len() > 0 && base[base.len() - 1] == '/' {
        base + name
    } else {
        base + seq!['/'] + name
    }
}

/// The decimal digit characters.
pub open spec fn spec_digit(d: nat) -> char {
    if d == 0 {
        '0'
    } else if d == 1 {
        '1'
    } else if d == 2 {
        '2'
    } else if d == 3 {
        '3'
    } else if d == 4 {
        '4'
    } else if d == 5 {
        '5'
    } else if d == 6 {
        '6'
    } else if d == 7 {
        '7'
    } else if d == 8 {
        '8'
    } else {
        '9'
    }
}

/// The decimal notation of `n`, most significant digit first, without
/// leading zeros (a single `'0'` for zero).
pub open spec fn spec_decimal(n: nat) -> Seq<char>
    decreases n,
{
    if n < 10 {
        seq![spec_digit(n)]
    } else {
        spec_decimal(n / 10).push(spec_digit(n % 10))
    }
}

/// The runtime directory: `<base>/lumd` when the environment supplies a
/// runtime base directory, `/tmp/lumd-<uid>` otherwise.
pub open spec fn spec_runtime_dir(runtime_base: Option<Seq<char>>, uid: u32) -> Seq<char> {
    match runtime_base {
        Some(base) => spec_join(base, "lumd"@),
        None => "/tmp/lumd-"@ + spec_decimal(uid as nat),
    }
}

/// The one failure this component reports: resolution could not complete,
/// with a description of what went wrong.
pub struct ConfigurationError {
    pub message: String,
}

/// Whether `s` starts with the root separator.
pub fn is_absolute_path(s: &str) -> (r: bool)
    ensures
        r == is_absolute(s@),
{
    let len = s.unicode_len();
    if len == 0 {
        false
    } else {
        s.get_char(0) == '/'
    }
}

/// Joins a relative `name` onto `base` with exactly one separator between
/// them.
pub fn join_path(base: &str, name: &str) -> (r: String)
    ensures
        r@ == spec_join(base@, name@),
{
    let len = base.unicode_len();
    let mut r = String::from_str(base);
    if len == 0 || base.get_char(len - 1) != '/' {
        r.append("/");
    }
    r.append(name);
    proof {
        reveal_strlit("/");
        assert(("/")@ =~= seq!['/']);
        assert(r@ =~= spec_join(base@, name@));
    }
    r
}

/// The one-character string for a decimal digit.
fn digit_str(d: u32) -> (r: &'static str)
    requires
        d < 10,
    ensures
        r@ == seq![spec_digit(d as nat)],
{
    proof {
        reveal_strlit("0");
        reveal_strlit("1");
        reveal_strlit("2");
        reveal_strlit("3");
        reveal_strlit("4");
        reveal_strlit("5");
        reveal_strlit("6");
        reveal_strlit("7");
        reveal_strlit("8");
        reveal_strlit("9");
    }
    let r: &'static str = if d == 0 {
        "0"
    } else if d == 1 {
        "1"
    } else if d == 2 {
        "2"
    } else if d == 3 {
        "3"
    } else if d == 4 {
        "4"
    } else if d == 5 {
        "5"
    } else if d == 6 {
        "6"
    } else if d == 7 {
        "7"
    } else if d == 8 {
        "8"
    } else {
        "9"
    };
    proof {
        assert(r@ =~= seq![spec_digit(d as nat)]);
    }
    r
}

/// Renders `n` in decimal notation.
pub fn decimal_string(n: u32) -> (r: String)
    ensures
        r@ == spec_decimal(n as nat),
    decreases n,
{
    if n < 10 {
        String::from_str(digit_str(n))
    } else {
        let mut s = decimal_string(n / 10);
        s.append(digit_str(n % 10));
        proof {
            assert(s@ =~= spec_decimal(n as nat));
        }
        s
    }
}

/// Derives the runtime directory: `<base>/lumd` when the environment
/// supplies a runtime base directory, `/tmp/lumd-<uid>` for the user `uid`
/// otherwise.
pub fn runtime_dir_for(runtime_base: Option<&str>, uid: u32) -> (r: String)
    ensures
        r@ == spec_runtime_dir(runtime_base.deep_view(), uid),
{
    match runtime_base {
        Some(base) => join_path(base, "lumd"),
        None => {
            let mut s = String::from_str("/tmp/lumd-");
            s.append(decimal_string(uid).as_str());
            s
        },
    }
}

/// Whether a runtime base directory handed in from the environment is
/// acceptable: an absent one is (the fallback takes over), a present one must
/// be absolute.
pub open spec fn base_ok(runtime_base: Option<Seq<char>>) -> bool {
    match runtime_base {
        Some(base) => is_absolute(base),
        None => true,
    }
}

/// Whether resolution succeeds on these inputs: both home directories and
/// the runtime base, if one is present, must be absolute.
pub open spec fn bases_ok(
    config_home: Seq<char>,
    cache_home: Seq<char>,
    runtime_base: Option<Seq<char>>,
) -> bool {
    is_absolute(config_home) && is_absolute(cache_home) && base_ok(runtime_base)
}

/// The five locations the daemon needs. Built once at startup; the runtime
/// directory is the only one whose existence on disk resolution itself
/// guarantees.
pub struct Paths {
    pub config_dir: String,
    pub runtime_dir: String,
    pub cache_dir: String,
    pub config_file_path: String,
    pub socket_path: String,
}

impl Paths {
    /// Well-formedness: every path is absolute, the configuration file sits
    /// directly inside the configuration directory, and the socket sits
    /// directly inside the runtime directory.
    pub open spec fn wf(&self) -> bool {
        &&& is_absolute(self.config_dir@)
        &&& is_absolute(self.runtime_dir@)
        &&& is_absolute(self.cache_dir@)
        &&& is_absolute(self.config_file_path@)
        &&& is_absolute(self.socket_path@)
        &&& self.config_file_path@ == spec_join(self.config_dir@, "config.toml"@)
        &&& self.socket_path@ == spec_join(self.runtime_dir@, "lumd.sock"@)
    }

    /// Exactly what a successful resolution from the given inputs returns.
    pub open spec fn resolves_to(
        &self,
        config_home: Seq<char>,
        cache_home: Seq<char>,
        runtime_base: Option<Seq<char>>,
        uid: u32,
    ) -> bool {
        &&& self.config_dir@ == config_home
        &&& self.cache_dir@ == cache_home
        &&& self.runtime_dir@ == spec_runtime_dir(runtime_base, uid)
        &&& self.config_file_path@ == spec_join(config_home, "config.toml"@)
        &&& self.socket_path@ == spec_join(spec_runtime_dir(runtime_base, uid), "lumd.sock"@)
    }
}

/// Joining a relative name onto an absolute base yields an absolute path.
pub proof fn lemma_join_absolute(base: Seq<char>, name: Seq<char>)
    requires
        is_absolute(base),
    ensures
        is_absolute(spec_join(base, name)),
{
}

/// The runtime directory is absolute whenever the runtime base, if present,
/// is.
pub proof fn lemma_runtime_dir_absolute(runtime_base: Option<Seq<char>>, uid: u32)
    requires
        base_ok(runtime_base),
    ensures
        is_absolute(spec_runtime_dir(runtime_base, uid)),
{
    match runtime_base {
        Some(base) => {
            lemma_join_absolute(base, "lumd"@);
        },
        None => {
            reveal_strlit("/tmp/lumd-");
        },
    }
}

impl Paths {
    /// Resolves the five paths from explicit inputs: the configuration and
    /// cache homes, the runtime base directory from the environment if any,
    /// and the invoking user's id. Pure: nothing on disk is read or created.
    /// Succeeds exactly when the homes, and the runtime base if present, are
    /// absolute; the result is then pinned down field by field.
    pub fn from_bases(
        config_home: String,
        cache_home: String,
        runtime_base: Option<String>,
        uid: u32,
    ) -> (r: Result<Paths, ConfigurationError>)
        ensures
            (r is Ok) == bases_ok(config_home@, cache_home@, runtime_base.deep_view()),
            r matches Ok(p) ==> p.resolves_to(
                config_home@,
                cache_home@,
                runtime_base.deep_view(),
                uid,
            ) && p.wf(),
    {
        if !is_absolute_path(config_home.as_str()) {
            return Err(
                ConfigurationError {
                    message: String::from_str("configuration directory is not absolute"),
                },
            );
        }
        if !is_absolute_path(cache_home.as_str()) {
            return Err(
                ConfigurationError { message: String::from_str("cache directory is not absolute") },
            );
        }
        let base_ref: Option<&str> = match &runtime_base {
            Some(base) => {
                if !is_absolute_path(base.as_str()) {
                    return Err(
                        ConfigurationError {
                            message: String::from_str("runtime base directory is not absolute"),
                        },
                    );
                }
                Some(base.as_str())
            },
            None => None,
        };
        let runtime_dir = runtime_dir_for(base_ref, uid);
        let config_file_path = join_path(config_home.as_str(), "config.toml");
        let socket_path = join_path(runtime_dir.as_str(), "lumd.sock");
        proof {
            lemma_runtime_dir_absolute(runtime_base.deep_view(), uid);
            lemma_join_absolute(config_home@, "config.toml"@);
            lemma_join_absolute(runtime_dir@, "lumd.sock"@);
        }
        Ok(
            Paths {
                config_dir: config_home,
                runtime_dir,
                cache_dir: cache_home,
                config_file_path,
                socket_path,
            },
        )
    }
}

/// Creates `path` and every missing parent, one `mkdir(2)` call per
/// component, outermost first. A component that already exists is success,
/// not failure, so the call is idempotent and tolerates another process
/// creating the same directory concurrently. Whether the calls succeed
/// depends on the filesystem alone, so no outcome is promised; every failure
/// is reported as a `ConfigurationError`.
pub fn ensure_dir_exists(path: &str) -> (r: Result<(), ConfigurationError>) {
    let len = path.unicode_len();
    let mut i: usize = 1;
    while i < len
        invariant
            1 <= i,
            len == path@.len(),
        decreases len - i,
    {
        if path.get_char(i) == '/' {
            let prefix = path.substring_char(0, i);
            match crate::sys::mkdir_once(prefix, 0o755) {
                crate::sys::MkdirStatus::Failed(m) => {
                    return Err(
                        ConfigurationError {
                            message: String::from_str("failed to create directory: ").concat(
                                m.as_str(),
                            ),
                        },
                    );
                },
                _ => {},
            }
        }
        i = i + 1;
    }
    match crate::sys::mkdir_once(path, 0o755) {
        crate::sys::MkdirStatus::Failed(m) => Err(
            ConfigurationError {
                message: String::from_str("failed to create directory: ").concat(m.as_str()),
            },
        ),
        _ => Ok(()),
    }
}

impl Paths {
    /// Resolves all five paths and makes sure the runtime and configuration
    /// directories exist on disk. The configuration and cache homes come from
    /// the XDG base-directory convention; `runtime_base` is the runtime base
    /// directory from the environment, if the environment has one, and the
    /// fallback `/tmp/lumd-<uid>` stands in otherwise. A present runtime base
    /// that is not absolute is rejected. Success also needs the convention to
    /// yield absolute homes and the two directory trees to be creatable,
    /// which the environment and the filesystem decide.
    pub fn new(runtime_base: Option<String>) -> (r: Result<Paths, ConfigurationError>)
        ensures
            r matches Ok(p) ==> p.wf(),
            r matches Ok(p) ==> (runtime_base matches Some(base) ==> p.runtime_dir@ == spec_join(
                base@,
                "lumd"@,
            )),
            r matches Ok(p) ==> (runtime_base is None ==> exists|uid: u32|
                p.runtime_dir@ == #[trigger] spec_runtime_dir(None, uid)),
            runtime_base matches Some(base) && !is_absolute(base@) ==> r is Err,
    {
        let bd = crate::sys::base_directories("lumd");
        let config_home = match crate::sys::config_home(&bd) {
            Some(dir) => dir,
            None => {
                return Err(
                    ConfigurationError {
                        message: String::from_str(
                            "no home directory: the configuration directory cannot be determined",
                        ),
                    },
                );
            },
        };
        let cache_home = match crate::sys::cache_home(&bd) {
            Some(dir) => dir,
            None => {
                return Err(
                    ConfigurationError {
                        message: String::from_str(
                            "no home directory: the cache directory cannot be determined",
                        ),
                    },
                );
            },
        };
        let uid = crate::sys::current_uid();
        let paths = match Paths::from_bases(config_home, cache_home, runtime_base, uid) {
            Ok(paths) => paths,
            Err(e) => {
                return Err(e);
            },
        };
        match ensure_dir_exists(paths.runtime_dir.as_str()) {
            Ok(()) => {},
            Err(e) => {
                return Err(e);
            },
        }
        match ensure_dir_exists(paths.config_dir.as_str()) {
            Ok(()) => {},
            Err(e) => {
                return Err(e);
            },
        }
        Ok(paths)
    }

    /// The path of the configuration file, `config.toml` inside the
    /// configuration directory.
    pub fn config_file(&self) -> (r: &String)
        ensures
            r == &self.config_file_path,
    {
        &self.config_file_path
    }

    /// The path of the control socket, `lumd.sock` inside the runtime
    /// directory.
    pub fn socket_path(&self) -> (r: &String)
        ensures
            r == &self.socket_path,
    {
        &self.socket_path
    }
}

/// Every path of a well-formed resolution is absolute.
pub proof fn lemma_resolved_paths_absolute(p: Paths)
    requires
        p.wf(),
    ensures
        is_absolute(p.config_dir@),
        is_absolute(p.runtime_dir@),
        is_absolute(p.cache_dir@),
        is_absolute(p.config_file_path@),
        is_absolute(p.socket_path@),
{
}

/// The socket path is always exactly the runtime directory joined with
/// `lumd.sock`.
pub proof fn lemma_socket_inside_runtime(p: Paths)
    requires
        p.wf(),
    ensures
        p.socket_path@ == spec_join(p.runtime_dir@, "lumd.sock"@),
{
}

/// The configuration file path is always exactly the configuration directory
/// joined with `config.toml`.
pub proof fn lemma_config_file_inside_config(p: Paths)
    requires
        p.wf(),
    ensures
        p.config_file_path@ == spec_join(p.config_dir@, "config.toml"@),
{
}

/// Resolution is deterministic: two resolutions from the same inputs agree
/// on every path, so resolving twice in the same environment is idempotent.
pub proof fn lemma_resolution_deterministic(
    p1: Paths,
    p2: Paths,
    config_home: Seq<char>,
    cache_home: Seq<char>,
    runtime_base: Option<Seq<char>>,
    uid: u32,
)
    requires
        p1.resolves_to(config_home, cache_home, runtime_base, uid),
        p2.resolves_to(config_home, cache_home, runtime_base, uid),
    ensures
        p1.config_dir@ == p2.config_dir@,
        p1.runtime_dir@ == p2.runtime_dir@,
        p1.cache_dir@ == p2.cache_dir@,
        p1.config_file_path@ == p2.config_file_path@,
        p1.socket_path@ == p2.socket_path@,
{
}

} // verus!
