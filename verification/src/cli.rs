//! The command line of the batch tool: the source mode, and the script paths sorted by their role.
use vstd::prelude::*;

use crate::text::{has_suffix, owned, str_eq};

verus! {

/// Where the batch tool takes its media from and whether it stores them.
#[derive(Debug, Clone, Copy, PartialEq, Eq, Structural)]
pub enum SourceMode {
    Load,
    Save,
    Calculate,
}

/// An argument that the command line does not accept.
#[derive(Debug, Clone, Copy, PartialEq, Eq, Structural)]
pub enum ArgsError {
    /// The source mode is none of `load`, `save` and `calculate`.
    UnknownSourceMode,
}

impl ArgsError {
    /// The message that reports the error.
    pub fn message(&self) -> (r: String)
        ensures
            r@ == "could not match source mode"@,
    {
        owned("could not match source mode")
    }
}

/// The source mode that a command-line word names, if any.
pub open spec fn source_mode_named(s: Seq<char>) -> Option<SourceMode> {
    if s == "load"@ {
        Some(SourceMode::Load)
    } else if s == "save"@ {
        Some(SourceMode::Save)
    } else if s == "calculate"@ {
        Some(SourceMode::Calculate)
    } else {
        None
    }
}

impl SourceMode {
    /// Reads a source mode from its command-line word.
    pub fn from_str(s: &str) -> (r: Result<SourceMode, ArgsError>)
        ensures
            match source_mode_named(s@) {
                Some(m) => r == Ok::<SourceMode, ArgsError>(m),
                None => r == Err::<SourceMode, ArgsError>(ArgsError::UnknownSourceMode),
            },
    {
        if str_eq(s, "load") {
            Ok(SourceMode::Load)
        } else if str_eq(s, "save") {
            Ok(SourceMode::Save)
        } else if str_eq(s, "calculate") {
            Ok(SourceMode::Calculate)
        } else {
            Err(ArgsError::UnknownSourceMode)
        }
    }
}

impl Default for SourceMode {
    /// Without a mode the tool calculates its media afresh.
    fn default() -> (r: SourceMode)
        ensures
            r == SourceMode::Calculate,
    {
        SourceMode::Calculate
    }
}

/// The role of a script, told by its file name.
#[derive(Debug, Clone, Copy, PartialEq, Eq, Structural)]
pub enum Destination {
    Source,
    Transform,
    Filter,
}

/// The parsed command line.
#[derive(Debug)]
pub struct Args {
    pub source_mode: SourceMode,
    pub sources: Vec<String>,
    pub transforms: Vec<String>,
    pub filters: Vec<String>,
}

/// The globs that tell the roles of scripts apart.
pub open spec fn is_role_glob(pattern: Seq<char>) -> bool {
    pattern == "*-source.fnl"@ || pattern == "*-transform.fnl"@ || pattern == "*-filter.fnl"@
}

/// Compiles one of the role globs and tests it against `path`.
///
/// Calls `globset::Glob::new` on the pattern, turns the glob into its matcher
/// (`Glob::compile_matcher`) and calls `GlobMatcher::is_match` on the path.  The pattern is
/// held to the three role globs.  Each is a `*` followed by literal text; with the default
/// options globset compiles it to the regex `(?-u)^.*<text>$` with `.` matching every byte,
/// and `is_match` runs it on the path's bytes (on Windows with `\` turned into `/`, which
/// leaves the literal text alone).  So each compiles, well inside the regex engine's
/// limits, and matches exactly the paths that end with the text after the `*`: that is
/// what the contract claims.
#[verifier::external_body]
fn glob_match(pattern: &str, path: &str) -> (r: bool)
    requires
        is_role_glob(pattern@),
    ensures
        r == has_suffix(path@, pattern@.drop_first()),
{
    match globset::Glob::new(pattern) {
        Ok(glob) => glob.compile_matcher().is_match(path),
        Err(_) => false,
    }
}

/// The role that the three glob tests give a script: the first that matches, in the order
/// source, transform, filter.
pub open spec fn destination_for(source: bool, transform: bool, filter: bool) -> Option<Destination> {
    if source {
        Some(Destination::Source)
    } else if transform {
        Some(Destination::Transform)
    } else if filter {
        Some(Destination::Filter)
    } else {
        None
    }
}

/// Picks the role of a script from the results of its three glob tests.
pub fn destination_from_matches(source: bool, transform: bool, filter: bool) -> (r: Option<
    Destination,
>)
    ensures
        r == destination_for(source, transform, filter),
{
    if source {
        Some(Destination::Source)
    } else if transform {
        Some(Destination::Transform)
    } else if filter {
        Some(Destination::Filter)
    } else {
        None
    }
}

/// The role of the script at `path`: the first of `-source.fnl`, `-transform.fnl` and
/// `-filter.fnl` that its path ends with.
pub open spec fn role_of(path: Seq<char>) -> Option<Destination> {
    destination_for(
        has_suffix(path, "-source.fnl"@),
        has_suffix(path, "-transform.fnl"@),
        has_suffix(path, "-filter.fnl"@),
    )
}

/// Tells the role of a script by matching its path against `*-source.fnl`,
/// `*-transform.fnl` and `*-filter.fnl`.
pub fn classify_path(path: &str) -> (r: Option<Destination>)
    ensures
        r == role_of(path@),
{
    proof {
        reveal_strlit("*-source.fnl");
        reveal_strlit("-source.fnl");
        reveal_strlit("*-transform.fnl");
        reveal_strlit("-transform.fnl");
        reveal_strlit("*-filter.fnl");
        reveal_strlit("-filter.fnl");
        assert("*-source.fnl"@.drop_first() =~= "-source.fnl"@);
        assert("*-transform.fnl"@.drop_first() =~= "-transform.fnl"@);
        assert("*-filter.fnl"@.drop_first() =~= "-filter.fnl"@);
    }
    let source = glob_match("*-source.fnl", path);
    let transform = glob_match("*-transform.fnl", path);
    let filter = glob_match("*-filter.fnl", path);
    destination_from_matches(source, transform, filter)
}

/// The paths among `free` whose role is `d`, in their order.
pub open spec fn paths_with_role(free: Seq<String>, d: Destination) -> Seq<String>
    decreases free.len(),
{
    if free.len() == 0 {
        Seq::empty()
    } else {
        let rest = paths_with_role(free.drop_last(), d);
        if role_of(free.last()@) == Some(d) {
            rest.push(free.last())
        } else {
            rest
        }
    }
}

/// The source mode given by `--source-mode`, else by `-m`, else the default; a value that
/// names no mode counts as not given.
pub open spec fn chosen_source_mode(long: Option<Seq<char>>, short: Option<Seq<char>>) -> SourceMode {
    if long is Some && source_mode_named(long->0) is Some {
        source_mode_named(long->0)->0
    } else if short is Some && source_mode_named(short->0) is Some {
        source_mode_named(short->0)->0
    } else {
        SourceMode::Calculate
    }
}

/// Where `--source-mode` names a mode, that mode is chosen, whether or not `-m` is given and
/// whatever it says.
pub proof fn law_long_source_mode_wins(long: Seq<char>, short: Option<Seq<char>>)
    requires
        source_mode_named(long) is Some,
    ensures
        chosen_source_mode(Some(long), short) == source_mode_named(long)->0,
{
}

/// Where `--source-mode` is missing or names no mode, the mode `-m` names is chosen.
pub proof fn law_short_source_mode_second(long: Option<Seq<char>>, short: Seq<char>)
    requires
        long is None || source_mode_named(long->0) is None,
        source_mode_named(short) is Some,
    ensures
        chosen_source_mode(long, Some(short)) == source_mode_named(short)->0,
{
}

/// Where neither option names a mode, the tool calculates.
pub proof fn law_default_source_mode(long: Option<Seq<char>>, short: Option<Seq<char>>)
    requires
        long is None || source_mode_named(long->0) is None,
        short is None || source_mode_named(short->0) is None,
    ensures
        chosen_source_mode(long, short) == SourceMode::Calculate,
{
}

/// The three words name the three modes.
pub proof fn law_mode_words()
    ensures
        source_mode_named("load"@) == Some(SourceMode::Load),
        source_mode_named("save"@) == Some(SourceMode::Save),
        source_mode_named("calculate"@) == Some(SourceMode::Calculate),
{
    reveal_strlit("load");
    reveal_strlit("save");
    reveal_strlit("calculate");
    assert("save"@ != "load"@) by {
        assert("save"@[0] != "load"@[0]);
    }
    assert("calculate"@ != "load"@) by {
        assert("calculate"@[0] != "load"@[0]);
    }
    assert("calculate"@ != "save"@) by {
        assert("calculate"@[0] != "save"@[0]);
    }
}

/// No word but the three names a mode.
pub proof fn law_only_mode_words(word: Seq<char>)
    requires
        source_mode_named(word) is Some,
    ensures
        word == "load"@ || word == "save"@ || word == "calculate"@,
{
}

/// The view of an optional string.
pub open spec fn opt_view(s: Option<String>) -> Option<Seq<char>> {
    match s {
        Some(x) => Some(x@),
        None => None,
    }
}

/// Picks the source mode from the values given to `--source-mode` and `-m`.
pub fn choose_source_mode(long: Option<String>, short: Option<String>) -> (r: SourceMode)
    ensures
        r == chosen_source_mode(opt_view(long), opt_view(short)),
{
    if let Some(l) = long {
        if let Ok(m) = SourceMode::from_str(l.as_str()) {
            return m;
        }
    }
    if let Some(s) = short {
        if let Ok(m) = SourceMode::from_str(s.as_str()) {
            return m;
        }
    }
    SourceMode::default()
}

/// Builds the command line from the values of `--source-mode` and `-m` and the free
/// arguments in order: each free argument goes to the list of its role, and one with no role
/// is left out.
pub fn parse_args(long_mode: Option<String>, short_mode: Option<String>, free: Vec<String>) -> (r:
    Args)
    ensures
        r.source_mode == chosen_source_mode(opt_view(long_mode), opt_view(short_mode)),
        r.sources@ == paths_with_role(free@, Destination::Source),
        r.transforms@ == paths_with_role(free@, Destination::Transform),
        r.filters@ == paths_with_role(free@, Destination::Filter),
{
    let ghost mode_spec = chosen_source_mode(opt_view(long_mode), opt_view(short_mode));
    let source_mode = choose_source_mode(long_mode, short_mode);
    let mut sources: Vec<String> = Vec::new();
    let mut transforms: Vec<String> = Vec::new();
    let mut filters: Vec<String> = Vec::new();
    let mut i: usize = 0;
    while i < free.len()
        invariant
            i <= free.len(),
            source_mode == mode_spec,
            sources@ == paths_with_role(free@.subrange(0, i as int), Destination::Source),
            transforms@ == paths_with_role(free@.subrange(0, i as int), Destination::Transform),
            filters@ == paths_with_role(free@.subrange(0, i as int), Destination::Filter),
        decreases free.len() - i,
    {
        let path = &free[i];
        assert(free@.subrange(0, i + 1).drop_last() =~= free@.subrange(0, i as int));
        match classify_path(path.as_str()) {
            Some(Destination::Source) => sources.push(path.clone()),
            Some(Destination::Transform) => transforms.push(path.clone()),
            Some(Destination::Filter) => filters.push(path.clone()),
            None => {},
        }
        i = i + 1;
    }
    assert(free@.subrange(0, free.len() as int) =~= free@);
    Args { source_mode, sources, transforms, filters }
}

/// What a run of the batch tool does with the database, by source mode.
#[derive(Debug, Clone, Copy, PartialEq, Eq, Structural)]
pub struct RunPlan {
    /// Create the database file first (where it does not exist yet).
    pub create_db_file: bool,
    /// Connect to the database and create the media table.
    pub use_database: bool,
    /// Take the media from the database rather than from the source scripts.
    pub load_from_database: bool,
    /// Store each transformed media in the database.
    pub save_to_database: bool,
}

/// The database steps of a run in the given source mode.
pub fn run_plan(mode: SourceMode) -> (r: RunPlan)
    ensures
        r.create_db_file == (mode == SourceMode::Save),
        r.use_database == (mode != SourceMode::Calculate),
        r.load_from_database == (mode == SourceMode::Load),
        r.save_to_database == (mode == SourceMode::Save),
{
    match mode {
        SourceMode::Load => RunPlan {
            create_db_file: false,
            use_database: true,
            load_from_database: true,
            save_to_database: false,
        },
        SourceMode::Save => RunPlan {
            create_db_file: true,
            use_database: true,
            load_from_database: false,
            save_to_database: true,
        },
        SourceMode::Calculate => RunPlan {
            create_db_file: false,
            use_database: false,
            load_from_database: false,
            save_to_database: false,
        },
    }
}

} // verus!
