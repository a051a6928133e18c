//! Locating the `audiocpp_server` engine binary.
use vstd::prelude::*;
use vstd::string::*;

use crate::audiocpp::AudiocppError;
use crate::listing::DirListing;
use crate::text::{concat2, join_path, owned, path_join, views};

verus! {

/// The platforms that ship an engine (others have none).
#[derive(Debug, Clone, Copy, PartialEq, Eq, Structural)]
pub enum EngineTarget {
    MacArm64,
    MacX64,
    LinuxX64,
    WindowsX64,
}

/// The target triple in the engine's file name.
pub open spec fn target_triple_of(t: EngineTarget) -> Seq<char> {
    match t {
        EngineTarget::MacArm64 => "aarch64-apple-darwin"@,
        EngineTarget::MacX64 => "x86_64-apple-darwin"@,
        EngineTarget::LinuxX64 => "x86_64-unknown-linux-gnu"@,
        EngineTarget::WindowsX64 => "x86_64-pc-windows-msvc"@,
    }
}

/// The model registry's name of the platform.
pub open spec fn platform_triple_of(t: EngineTarget) -> Seq<char> {
    match t {
        EngineTarget::MacArm64 => "darwin-aarch64"@,
        EngineTarget::MacX64 => "darwin-x86_64"@,
        EngineTarget::LinuxX64 => "linux-x86_64"@,
        EngineTarget::WindowsX64 => "windows-x86_64"@,
    }
}

impl EngineTarget {
    pub fn triple(&self) -> (r: &'static str)
        ensures
            r@ == target_triple_of(*self),
    {
        match self {
            EngineTarget::MacArm64 => "aarch64-apple-darwin",
            EngineTarget::MacX64 => "x86_64-apple-darwin",
            EngineTarget::LinuxX64 => "x86_64-unknown-linux-gnu",
            EngineTarget::WindowsX64 => "x86_64-pc-windows-msvc",
        }
    }

    pub fn platform_triple(&self) -> (r: &'static str)
        ensures
            r@ == platform_triple_of(*self),
    {
        match self {
            EngineTarget::MacArm64 => "darwin-aarch64",
            EngineTarget::MacX64 => "darwin-x86_64",
            EngineTarget::LinuxX64 => "linux-x86_64",
            EngineTarget::WindowsX64 => "windows-x86_64",
        }
    }
}

/// `audiocpp_server-<triple>` (with `.exe` on Windows): the bundled name.
pub open spec fn engine_name_of(t: EngineTarget) -> Seq<char> {
    if t == EngineTarget::WindowsX64 {
        "audiocpp_server-"@ + target_triple_of(t) + ".exe"@
    } else {
        "audiocpp_server-"@ + target_triple_of(t)
    }
}

/// `audiocpp_server` (with `.exe` on Windows): a hand-placed binary.
pub open spec fn plain_name_of(t: EngineTarget) -> Seq<char> {
    if t == EngineTarget::WindowsX64 {
        "audiocpp_server.exe"@
    } else {
        "audiocpp_server"@
    }
}

/// File name of the bundled engine for the target.
pub fn engine_file_name(target: EngineTarget) -> (r: String)
    ensures
        r@ == engine_name_of(target),
{
    let mut r = concat2("audiocpp_server-", target.triple());
    if target == EngineTarget::WindowsX64 {
        r.append(".exe");
    }
    r
}

fn plain_engine_name(target: EngineTarget) -> (r: &'static str)
    ensures
        r@ == plain_name_of(target),
{
    if target == EngineTarget::WindowsX64 {
        "audiocpp_server.exe"
    } else {
        "audiocpp_server"
    }
}

/// A directory to search, with what it holds.
#[derive(Debug)]
pub struct ProbedDir {
    pub path: String,
    pub listing: DirListing,
}

/// The engine in one directory: the bundled name first, then the plain name.
pub open spec fn found_in(d: ProbedDir, t: EngineTarget) -> Option<Seq<char>> {
    if d.listing.file_names().contains(engine_name_of(t)) {
        Some(path_join(d.path@, engine_name_of(t)))
    } else if d.listing.file_names().contains(plain_name_of(t)) {
        Some(path_join(d.path@, plain_name_of(t)))
    } else {
        None
    }
}

/// The engine in the first directory of `ds` that holds one.
pub open spec fn first_found(ds: Seq<ProbedDir>, t: EngineTarget) -> Option<Seq<char>>
    decreases ds.len(),
{
    if ds.len() == 0 {
        None
    } else {
        match found_in(ds[0], t) {
            Some(p) => Some(p),
            None => first_found(ds.drop_first(), t),
        }
    }
}

pub fn find_in_dir(dir: &ProbedDir, target: EngineTarget) -> (r: Option<String>)
    ensures
        opt_str(r) == found_in(*dir, target),
{
    let bundled = engine_file_name(target);
    if dir.listing.has_file(bundled.as_str()) {
        return Some(join_path(dir.path.as_str(), bundled.as_str()));
    }
    let plain = plain_engine_name(target);
    if dir.listing.has_file(plain) {
        return Some(join_path(dir.path.as_str(), plain));
    }
    None
}

pub open spec fn opt_str(o: Option<String>) -> Option<Seq<char>> {
    match o {
        Some(s) => Some(s@),
        None => None,
    }
}

/// The engines directory: `<data_dir>/engines`, or under the settings
/// directory when no data directory is configured.
pub fn engines_dir(data_dir: Option<&str>, settings_dir: &str) -> (r: String)
    ensures
        r@ == path_join(
            match data_dir {
                Some(d) => d@,
                None => settings_dir@,
            },
            "engines"@,
        ),
{
    match data_dir {
        Some(d) => join_path(d, "engines"),
        None => join_path(settings_dir, "engines"),
    }
}

pub open spec fn dir_paths(ds: Seq<ProbedDir>) -> Seq<Seq<char>> {
    ds.map_values(|d: ProbedDir| d.path@)
}

/// First directory holding the engine, and (when none does) all their paths.
fn search_dirs_in_order(dirs: &Vec<ProbedDir>, target: EngineTarget, searched: &mut Vec<String>) -> (r:
    Option<String>)
    ensures
        opt_str(r) == first_found(dirs@, target),
        r is None ==> crate::text::views(final(searched)@) == crate::text::views(old(searched)@)
            + dir_paths(dirs@),
{
    let ghost start = crate::text::views(searched@);
    let mut i: usize = 0;
    assert(dirs@.skip(0) =~= dirs@);
    while i < dirs.len()
        invariant
            0 <= i <= dirs.len(),
            first_found(dirs@, target) == first_found(dirs@.skip(i as int), target),
            crate::text::views(searched@) == start + dir_paths(dirs@.take(i as int)),
        decreases dirs.len() - i,
    {
        let d = &dirs[i];
        assert(dirs@.skip(i as int)[0] == *d);
        if let Some(found) = find_in_dir(d, target) {
            return Some(found);
        }
        assert(dirs@.skip(i as int).drop_first() =~= dirs@.skip(i + 1));
        let ghost before = searched@;
        searched.push(d.path.clone());
        assert(crate::text::views(searched@) =~= crate::text::views(before).push(d.path@));
        assert(dir_paths(dirs@.take(i + 1)) =~= dir_paths(dirs@.take(i as int)).push(d.path@));
        assert(crate::text::views(searched@) =~= start + dir_paths(dirs@.take(i + 1)));
        i = i + 1;
    }
    assert(dirs@.take(dirs.len() as int) =~= dirs@);
    assert(dirs@.skip(i as int).len() == 0);
    None
}

/// Where the engine is searched, in order: the explicit path, the injected
/// directories, the engines directory, then `PATH`. The first hit wins.
pub open spec fn located_engine(
    explicit: Option<Seq<char>>,
    explicit_is_file: bool,
    injected: Option<Seq<ProbedDir>>,
    engines: ProbedDir,
    path_dirs: Seq<ProbedDir>,
    t: EngineTarget,
) -> Option<Seq<char>> {
    if explicit is Some && explicit_is_file {
        explicit
    } else if injected is Some && first_found(injected.unwrap(), t) is Some {
        first_found(injected.unwrap(), t)
    } else if found_in(engines, t) is Some {
        found_in(engines, t)
    } else {
        first_found(path_dirs, t)
    }
}

/// The paths reported when nothing is found (`PATH` entries are not listed).
pub open spec fn searched_paths(
    explicit: Option<Seq<char>>,
    injected: Option<Seq<ProbedDir>>,
    engines: ProbedDir,
) -> Seq<Seq<char>> {
    (if explicit is Some {
        seq![explicit.unwrap()]
    } else {
        seq![]
    }) + (if injected is Some {
        dir_paths(injected.unwrap())
    } else {
        seq![]
    }) + seq![engines.path@]
}

/// Locates the engine binary. `explicit_is_file` tells whether the explicit
/// path names a regular file; the directories come with their listings.
pub fn locate_engine(
    explicit: Option<&str>,
    explicit_is_file: bool,
    injected: Option<&Vec<ProbedDir>>,
    engines: &ProbedDir,
    path_dirs: &Vec<ProbedDir>,
    target: EngineTarget,
) -> (r: Result<String, AudiocppError>)
    ensures
        ({
            let ex = match explicit {
                Some(e) => Some(e@),
                None => None,
            };
            let inj = match injected {
                Some(v) => Some(v@),
                None => None,
            };
            match located_engine(ex, explicit_is_file, inj, *engines, path_dirs@, target) {
                Some(p) => r matches Ok(found) && found@ == p,
                None => r matches Err(AudiocppError::EngineNotFound { searched }) && crate::text::views(
                    searched@,
                ) == searched_paths(ex, inj, *engines),
            }
        }),
{
    let mut searched: Vec<String> = Vec::new();
    let ghost s0 = crate::text::views(searched@);
    assert(s0 =~= Seq::<Seq<char>>::empty());
    if let Some(p) = explicit {
        if explicit_is_file {
            return Ok(owned(p));
        }
        searched.push(owned(p));
    }
    let ghost s1 = crate::text::views(searched@);
    if let Some(dirs) = injected {
        if let Some(found) = search_dirs_in_order(dirs, target, &mut searched) {
            return Ok(found);
        }
    }
    let ghost s2 = crate::text::views(searched@);
    if let Some(found) = find_in_dir(engines, target) {
        return Ok(found);
    }
    searched.push(engines.path.clone());
    let ghost s3 = crate::text::views(searched@);
    assert(s3 =~= s2.push(engines.path@));
    if let Some(found) = search_dirs_in_order(path_dirs, target, &mut Vec::new()) {
        return Ok(found);
    }
    proof {
        let ex = match explicit {
            Some(e) => Some(e@),
            None => None,
        };
        let inj = match injected {
            Some(v) => Some(v@),
            None => None,
        };
        assert(s1 =~= if ex is Some {
            seq![ex.unwrap()]
        } else {
            seq![]
        });
        assert(s3 =~= searched_paths(ex, inj, *engines));
    }
    Err(AudiocppError::EngineNotFound { searched })
}

/// The engine directories that the host injects once per process (the GUI
/// injects its resource directory and the executable's directory; the CLI
/// injects none).
#[derive(Debug)]
pub struct SearchDirs {
    dirs: Option<Vec<String>>,
}

impl SearchDirs {
    /// The injected directories (`None` before the first injection).
    pub closed spec fn injected(&self) -> Option<Seq<Seq<char>>> {
        match self.dirs {
            Some(v) => Some(views(v@)),
            None => None,
        }
    }

    pub fn new() -> (r: Self)
        ensures
            r.injected() is None,
    {
        SearchDirs { dirs: None }
    }
}

/// The directories after an injection: the first one stays for good.
pub open spec fn injected_after(before: Option<Seq<Seq<char>>>, dirs: Seq<Seq<char>>) -> Option<
    Seq<Seq<char>>,
> {
    match before {
        Some(d) => Some(d),
        None => Some(dirs),
    }
}

/// Injects the engine search directories; only the first call takes effect.
pub fn set_search_dirs(registry: &mut SearchDirs, dirs: Vec<String>)
    ensures
        final(registry).injected() == injected_after(old(registry).injected(), views(dirs@)),
{
    if registry.dirs.is_none() {
        registry.dirs = Some(dirs);
    }
}

/// A copy of the injected directories (empty when none were injected).
pub fn search_dirs(registry: &SearchDirs) -> (r: Vec<String>)
    ensures
        views(r@) == match registry.injected() {
            Some(d) => d,
            None => Seq::<Seq<char>>::empty(),
        },
{
    let mut out: Vec<String> = Vec::new();
    match &registry.dirs {
        Some(v) => {
            let mut i: usize = 0;
            while i < v.len()
                invariant
                    0 <= i <= v.len(),
                    views(out@) == views(v@.take(i as int)),
                decreases v.len() - i,
            {
                let ghost before = out@;
                out.push(v[i].clone());
                proof {
                    assert(views(out@) =~= views(before).push(v@[i as int]@));
                    crate::text::lemma_views_take_push(v@, i as int);
                }
                i = i + 1;
            }
            assert(v@.take(v@.len() as int) =~= v@);
        },
        None => {
            assert(views(out@) =~= Seq::<Seq<char>>::empty());
        },
    }
    out
}

/// Injecting twice keeps the first directories.
pub proof fn lemma_first_injection_wins(a: Seq<Seq<char>>, b: Seq<Seq<char>>)
    ensures
        injected_after(injected_after(None, a), b) == Some(a),
{
}


/// The search order: a regular file given explicitly wins; else the first
/// injected directory that holds the engine; else the engines directory;
/// only then `PATH`. A later place is used only when every earlier one has
/// no engine.
pub proof fn lemma_engine_search_priority(
    explicit: Option<Seq<char>>,
    explicit_is_file: bool,
    injected: Option<Seq<ProbedDir>>,
    engines: ProbedDir,
    path_dirs: Seq<ProbedDir>,
    t: EngineTarget,
)
    ensures
        ({
            let r = located_engine(explicit, explicit_is_file, injected, engines, path_dirs, t);
            let no_explicit = !(explicit is Some && explicit_is_file);
            let no_injected = !(injected is Some && first_found(injected.unwrap(), t) is Some);
            &&& !no_explicit ==> r == explicit
            &&& no_explicit && !no_injected ==> r == first_found(injected.unwrap(), t)
            &&& no_explicit && no_injected && found_in(engines, t) is Some ==> r == found_in(engines, t)
            &&& no_explicit && no_injected && found_in(engines, t) is None ==> r == first_found(path_dirs, t)
        }),
{
}

} // verus!
