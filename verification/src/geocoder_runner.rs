//! Locating the local resolver: an explicit path, or the first file found on
//! a fixed list of places below the working directory. The file system is an
//! argument, the list of paths that are files, so every search is a function
//! of its inputs.

use crate::geocode_result::opt_text;
use crate::local_error::LocalError;
use crate::text::{
    eq_ignore_ascii_case, find_last, from_chars, last_index_of, list_contains,
    same_ignoring_ascii_case, str_eq, to_chars,
};
use vstd::prelude::*;

verus! {

/// What a search can see of the machine: where it runs, on what platform,
/// and which of the paths it may ask about are files.
#[derive(Debug, Clone, PartialEq, Eq)]
pub struct Environment {
    /// The working directory.
    pub cwd: String,
    /// The processor architecture, such as `x86_64`.
    pub arch: String,
    /// The operating system, such as `linux`.
    pub os: String,
    /// The paths that are regular files.
    pub files: Vec<String>,
}

/// The mathematical content of a [`GeocoderRunner`].
pub enum RunnerModel {
    Binary(Seq<char>),
    PythonScript(Seq<char>),
}

/// How the local resolver is started.
#[derive(Debug, Clone, PartialEq, Eq)]
pub enum GeocoderRunner {
    /// An executable, run directly.
    Binary(String),
    /// A script, run by an interpreter.
    PythonScript(String),
}

impl View for GeocoderRunner {
    type V = RunnerModel;

    open spec fn view(&self) -> RunnerModel {
        match self {
            GeocoderRunner::Binary(p) => RunnerModel::Binary(p@),
            GeocoderRunner::PythonScript(p) => RunnerModel::PythonScript(p@),
        }
    }
}

/// The platform identifier of an architecture and an operating system.
/// A pair that is not listed counts as `aarch64-apple-darwin`.
pub open spec fn host_of(arch: Seq<char>, os: Seq<char>) -> Seq<char> {
    if arch == "aarch64"@ && os == "macos"@ {
        "aarch64-apple-darwin"@
    } else if arch == "x86_64"@ && os == "macos"@ {
        "x86_64-apple-darwin"@
    } else if arch == "x86_64"@ && os == "linux"@ {
        "x86_64-unknown-linux-gnu"@
    } else if arch == "aarch64"@ && os == "linux"@ {
        "aarch64-unknown-linux-gnu"@
    } else if arch == "x86_64"@ && os == "windows"@ {
        "x86_64-pc-windows-msvc"@
    } else {
        "aarch64-apple-darwin"@
    }
}

/// The platform identifier of an architecture and an operating system.
pub fn host_triple(arch: &str, os: &str) -> (r: &'static str)
    ensures
        r@ == host_of(arch@, os@),
{
    let arm: bool = str_eq(arch, "aarch64");
    let intel: bool = str_eq(arch, "x86_64");
    if arm && str_eq(os, "macos") {
        "aarch64-apple-darwin"
    } else if intel && str_eq(os, "macos") {
        "x86_64-apple-darwin"
    } else if intel && str_eq(os, "linux") {
        "x86_64-unknown-linux-gnu"
    } else if arm && str_eq(os, "linux") {
        "aarch64-unknown-linux-gnu"
    } else if intel && str_eq(os, "windows") {
        "x86_64-pc-windows-msvc"
    } else {
        "aarch64-apple-darwin"
    }
}

/// `rel` below `base`: the two joined by one `/`, which is left out where
/// `base` is empty or ends in `/` already.
pub open spec fn joined(base: Seq<char>, rel: Seq<char>) -> Seq<char> {
    if base.len() == 0 || base.last() == '/' {
        base + rel
    } else {
        base + "/"@ + rel
    }
}

/// `rel` below `base`.
pub fn join_path(base: &str, rel: &str) -> (r: String)
    ensures
        r@ == joined(base@, rel@),
{
    let v = to_chars(base);
    let mut r = base.to_owned();
    if v.len() > 0 && v[v.len() - 1] != '/' {
        r.append("/");
    }
    r.append(rel);
    r
}

/// The last component of a path: what follows its last `/`.
pub open spec fn file_name_of(path: Seq<char>) -> Seq<char> {
    match last_index_of(path, '/') {
        Some(i) => path.skip(i + 1),
        None => path,
    }
}

/// The extension of a path: what follows the last `.` of its last component,
/// unless that component has no `.` or only starts with one.
pub open spec fn extension_of(path: Seq<char>) -> Option<Seq<char>> {
    let name = file_name_of(path);
    match last_index_of(name, '.') {
        Some(i) => if i == 0 {
            None
        } else {
            Some(name.skip(i + 1))
        },
        None => None,
    }
}

/// Whether a path names a Python source file: its extension is `py`, in any
/// ASCII letter case.
pub open spec fn is_python_source(path: Seq<char>) -> bool {
    match extension_of(path) {
        Some(ext) => same_ignoring_ascii_case(ext, "py"@),
        None => false,
    }
}

proof fn lemma_last_index_bounds(s: Seq<char>, c: char)
    ensures
        last_index_of(s, c) matches Some(i) ==> 0 <= i < s.len(),
    decreases s.len(),
{
    if s.len() > 0 {
        lemma_last_index_bounds(s.drop_last(), c);
    }
}

/// Within a suffix that holds no `/`, the last `c` of the suffix is the last
/// `c` of the whole, counted from the start of the suffix.
proof fn lemma_last_index_suffix(s: Seq<char>, from: int, c: char)
    requires
        0 <= from <= s.len(),
    ensures
        last_index_of(s.skip(from), c) == match last_index_of(s, c) {
            Some(i) => if i >= from {
                Some(i - from)
            } else {
                None
            },
            None => None,
        },
    decreases s.len(),
{
    lemma_last_index_bounds(s, c);
    if s.len() == from {
        assert(s.skip(from).len() == 0);
    } else {
        let t = s.skip(from);
        assert(t.last() == s.last());
        assert(t.drop_last() == s.drop_last().skip(from));
        lemma_last_index_suffix(s.drop_last(), from, c);
        lemma_last_index_bounds(s.drop_last(), c);
    }
}

/// Whether a path names a Python source file.
pub fn has_python_extension(path: &str) -> (r: bool)
    ensures
        r == is_python_source(path@),
{
    let v = to_chars(path);
    assert(v@.take(v@.len() as int) == v@);
    let start: usize = match find_last(&v, v.len(), '/') {
        Some(i) => i + 1,
        None => 0,
    };
    let ghost name = file_name_of(path@);
    assert(name == v@.skip(start as int));
    proof {
        lemma_last_index_suffix(v@, start as int, '.');
        lemma_last_index_bounds(v@, '.');
    }
    match find_last(&v, v.len(), '.') {
        Some(dot) => {
            if dot <= start {
                false
            } else {
                let ext = from_chars(&v, dot + 1, v.len());
                assert(ext@ == name.skip(dot - start + 1));
                eq_ignore_ascii_case(ext.as_str(), "py")
            }
        },
        None => false,
    }
}

/// The first of `candidates` that is among `files`.
pub open spec fn first_existing(candidates: Seq<Seq<char>>, files: Seq<Seq<char>>) -> Option<
    Seq<char>,
>
    decreases candidates.len(),
{
    if candidates.len() == 0 {
        None
    } else if files.contains(candidates[0]) {
        Some(candidates[0])
    } else {
        first_existing(candidates.drop_first(), files)
    }
}

/// The first of `candidates` that is among `files`.
pub fn find_existing(candidates: &Vec<String>, files: &Vec<String>) -> (r: Option<String>)
    ensures
        opt_text(r) == first_existing(candidates.deep_view(), files.deep_view()),
{
    let mut i: usize = 0;
    assert(candidates.deep_view().skip(0) == candidates.deep_view());
    while i < candidates.len()
        invariant
            i <= candidates.len(),
            first_existing(candidates.deep_view(), files.deep_view()) == first_existing(
                candidates.deep_view().skip(i as int),
                files.deep_view(),
            ),
        decreases candidates.len() - i,
    {
        let ghost rest = candidates.deep_view().skip(i as int);
        assert(rest[0] == candidates[i as int]@);
        assert(rest.drop_first() == candidates.deep_view().skip(i + 1));
        if list_contains(files, candidates[i].as_str()) {
            return Some(candidates[i].clone());
        }
        i += 1;
    }
    None
}

/// Where a resolver script is looked for, in order.
pub open spec fn script_places(cwd: Seq<char>) -> Seq<Seq<char>> {
    seq![
        joined(cwd, "../src-python/spatia-geocoder/main.py"@),
        joined(cwd, "src-python/spatia-geocoder/main.py"@),
    ]
}

/// Where a resolver executable is looked for, in order.
pub open spec fn binary_places(cwd: Seq<char>, host: Seq<char>) -> Seq<Seq<char>> {
    seq![
        joined(cwd, "../src-python/spatia-geocoder/dist/main"@),
        joined(cwd, "src-python/spatia-geocoder/dist/main"@),
        joined(cwd, "binaries/spatia-geocoder-"@ + host),
        joined(cwd, "src-tauri/binaries/spatia-geocoder-"@ + host),
        joined(cwd, "../src-tauri/binaries/spatia-geocoder-"@ + host),
    ]
}

/// Where a Python interpreter is looked for, in order.
pub open spec fn interpreter_places(cwd: Seq<char>) -> Seq<Seq<char>> {
    seq![
        joined(cwd, "../.venv/bin/python"@),
        joined(cwd, ".venv/bin/python"@),
        joined(cwd, "../../.venv/bin/python"@),
    ]
}

/// Where a resolver script is looked for, in order.
pub fn script_candidates(cwd: &str) -> (r: Vec<String>)
    ensures
        r.deep_view() == script_places(cwd@),
{
    let mut r: Vec<String> = Vec::new();
    r.push(join_path(cwd, "../src-python/spatia-geocoder/main.py"));
    r.push(join_path(cwd, "src-python/spatia-geocoder/main.py"));
    assert(r.deep_view() =~= script_places(cwd@));
    r
}

/// Where a resolver executable is looked for, in order.
pub fn binary_candidates(cwd: &str, host: &str) -> (r: Vec<String>)
    ensures
        r.deep_view() == binary_places(cwd@, host@),
{
    let mut plain = "binaries/spatia-geocoder-".to_owned();
    plain.append(host);
    let mut nested = "src-tauri/binaries/spatia-geocoder-".to_owned();
    nested.append(host);
    let mut sibling = "../src-tauri/binaries/spatia-geocoder-".to_owned();
    sibling.append(host);
    let mut r: Vec<String> = Vec::new();
    r.push(join_path(cwd, "../src-python/spatia-geocoder/dist/main"));
    r.push(join_path(cwd, "src-python/spatia-geocoder/dist/main"));
    r.push(join_path(cwd, plain.as_str()));
    r.push(join_path(cwd, nested.as_str()));
    r.push(join_path(cwd, sibling.as_str()));
    assert(r.deep_view() =~= binary_places(cwd@, host@));
    r
}

/// Where a Python interpreter is looked for, in order.
pub fn interpreter_candidates(cwd: &str) -> (r: Vec<String>)
    ensures
        r.deep_view() == interpreter_places(cwd@),
{
    let mut r: Vec<String> = Vec::new();
    r.push(join_path(cwd, "../.venv/bin/python"));
    r.push(join_path(cwd, ".venv/bin/python"));
    r.push(join_path(cwd, "../../.venv/bin/python"));
    assert(r.deep_view() =~= interpreter_places(cwd@));
    r
}

/// The runner that a one-shot call uses. An explicit path decides alone: it
/// must be a file, and is a script exactly when it has the extension `py`.
/// Without one, the first script found is taken, then the first executable.
pub open spec fn runner_of(
    explicit: Option<Seq<char>>,
    cwd: Seq<char>,
    host: Seq<char>,
    files: Seq<Seq<char>>,
) -> Result<RunnerModel, LocalError> {
    match explicit {
        Some(path) => if !files.contains(path) {
            Err(LocalError::ExplicitPathNotAFile)
        } else if is_python_source(path) {
            Ok(RunnerModel::PythonScript(path))
        } else {
            Ok(RunnerModel::Binary(path))
        },
        None => match first_existing(script_places(cwd), files) {
            Some(script) => Ok(RunnerModel::PythonScript(script)),
            None => match first_existing(binary_places(cwd, host), files) {
                Some(binary) => Ok(RunnerModel::Binary(binary)),
                None => Err(LocalError::RunnerNotFound),
            },
        },
    }
}

/// The executable that the daemon is started from. An explicit path decides
/// alone: it must be a file and no script. Without one, the first executable
/// found is taken.
pub open spec fn daemon_binary_of(
    explicit: Option<Seq<char>>,
    cwd: Seq<char>,
    host: Seq<char>,
    files: Seq<Seq<char>>,
) -> Result<Seq<char>, LocalError> {
    match explicit {
        Some(path) => if !files.contains(path) {
            Err(LocalError::ExplicitPathNotAFile)
        } else if is_python_source(path) {
            Err(LocalError::DaemonNeedsBinary)
        } else {
            Ok(path)
        },
        None => match first_existing(binary_places(cwd, host), files) {
            Some(binary) => Ok(binary),
            None => Err(LocalError::DaemonBinaryNotFound),
        },
    }
}

/// The interpreter that runs a resolver script: the explicit one, else the
/// first found in a virtual environment, else the bare name `python3`.
pub open spec fn interpreter_of(explicit: Option<Seq<char>>, cwd: Seq<char>, files: Seq<Seq<char>>) -> Seq<
    char,
> {
    match explicit {
        Some(path) => path,
        None => match first_existing(interpreter_places(cwd), files) {
            Some(path) => path,
            None => "python3"@,
        },
    }
}

impl Environment {
    /// The platform identifier of this environment.
    pub open spec fn host(&self) -> Seq<char> {
        host_of(self.arch@, self.os@)
    }

    /// Every path that a search may ask about, given the explicit resolver
    /// path: the file system has to be probed for these and no others.
    pub fn probe_paths(explicit: &Option<String>, cwd: &str, arch: &str, os: &str) -> (r: Vec<
        String,
    >)
        ensures
            r.deep_view() == (match opt_text(*explicit) {
                Some(p) => seq![p],
                None => Seq::<Seq<char>>::empty(),
            }) + script_places(cwd@) + binary_places(cwd@, host_of(arch@, os@))
                + interpreter_places(cwd@),
    {
        let mut r: Vec<String> = Vec::new();
        match explicit {
            Some(p) => {
                r.push(p.clone());
            },
            None => {},
        }
        let ghost first = r.deep_view();
        assert(first =~= (match opt_text(*explicit) {
            Some(p) => seq![p],
            None => Seq::<Seq<char>>::empty(),
        }));
        let mut scripts = script_candidates(cwd);
        let mut binaries = binary_candidates(cwd, host_triple(arch, os));
        let mut interpreters = interpreter_candidates(cwd);
        let ghost s = scripts.deep_view();
        let ghost b = binaries.deep_view();
        let ghost p = interpreters.deep_view();
        r.append(&mut scripts);
        assert(r.deep_view() =~= first + s);
        r.append(&mut binaries);
        assert(r.deep_view() =~= first + s + b);
        r.append(&mut interpreters);
        assert(r.deep_view() =~= first + s + b + p);
        r
    }
}

/// Finds the runner for a one-shot call.
pub fn resolve_geocoder_runner(explicit: &Option<String>, env: &Environment) -> (r: Result<
    GeocoderRunner,
    LocalError,
>)
    ensures
        match r {
            Ok(runner) => runner_of(opt_text(*explicit), env.cwd@, env.host(), env.files.deep_view())
                == Ok::<RunnerModel, LocalError>(runner@),
            Err(e) => runner_of(opt_text(*explicit), env.cwd@, env.host(), env.files.deep_view())
                == Err::<RunnerModel, LocalError>(e),
        },
{
    match explicit {
        Some(path) => {
            if !list_contains(&env.files, path.as_str()) {
                Err(LocalError::ExplicitPathNotAFile)
            } else if has_python_extension(path.as_str()) {
                Ok(GeocoderRunner::PythonScript(path.clone()))
            } else {
                Ok(GeocoderRunner::Binary(path.clone()))
            }
        },
        None => {
            let scripts = script_candidates(env.cwd.as_str());
            match find_existing(&scripts, &env.files) {
                Some(script) => Ok(GeocoderRunner::PythonScript(script)),
                None => {
                    let host = host_triple(env.arch.as_str(), env.os.as_str());
                    let binaries = binary_candidates(env.cwd.as_str(), host);
                    match find_existing(&binaries, &env.files) {
                        Some(binary) => Ok(GeocoderRunner::Binary(binary)),
                        None => Err(LocalError::RunnerNotFound),
                    }
                },
            }
        },
    }
}

/// Finds the executable that the daemon is started from.
pub fn resolve_geocoder_binary_path(explicit: &Option<String>, env: &Environment) -> (r: Result<
    String,
    LocalError,
>)
    ensures
        match r {
            Ok(path) => daemon_binary_of(
                opt_text(*explicit),
                env.cwd@,
                env.host(),
                env.files.deep_view(),
            ) == Ok::<Seq<char>, LocalError>(path@),
            Err(e) => daemon_binary_of(
                opt_text(*explicit),
                env.cwd@,
                env.host(),
                env.files.deep_view(),
            ) == Err::<Seq<char>, LocalError>(e),
        },
{
    match explicit {
        Some(path) => {
            if !list_contains(&env.files, path.as_str()) {
                Err(LocalError::ExplicitPathNotAFile)
            } else if has_python_extension(path.as_str()) {
                Err(LocalError::DaemonNeedsBinary)
            } else {
                Ok(path.clone())
            }
        },
        None => {
            let host = host_triple(env.arch.as_str(), env.os.as_str());
            let binaries = binary_candidates(env.cwd.as_str(), host);
            match find_existing(&binaries, &env.files) {
                Some(binary) => Ok(binary),
                None => Err(LocalError::DaemonBinaryNotFound),
            }
        },
    }
}

/// Finds the interpreter that runs a resolver script.
pub fn resolve_interpreter(explicit: &Option<String>, env: &Environment) -> (r: String)
    ensures
        r@ == interpreter_of(opt_text(*explicit), env.cwd@, env.files.deep_view()),
{
    match explicit {
        Some(path) => path.clone(),
        None => {
            let places = interpreter_candidates(env.cwd.as_str());
            match find_existing(&places, &env.files) {
                Some(path) => path,
                None => "python3".to_owned(),
            }
        },
    }
}

/// Among no files, no candidate is found.
pub proof fn lemma_nothing_to_find(candidates: Seq<Seq<char>>)
    ensures
        first_existing(candidates, Seq::empty()) is None,
    decreases candidates.len(),
{
    if candidates.len() > 0 {
        lemma_nothing_to_find(candidates.drop_first());
    }
}

/// Where no path is a file, no resolver is found: neither a runner for a
/// one-shot call nor an executable for the daemon, with or without an
/// explicit path.
pub proof fn law_no_files_no_resolver(explicit: Option<Seq<char>>, cwd: Seq<char>, host: Seq<char>)
    ensures
        runner_of(explicit, cwd, host, Seq::empty()) is Err,
        daemon_binary_of(explicit, cwd, host, Seq::empty()) is Err,
{
    lemma_nothing_to_find(script_places(cwd));
    lemma_nothing_to_find(binary_places(cwd, host));
}

} // verus!
