//! The environment handed to the application under test when the driver
//! launches it.

use vstd::prelude::*;
use vstd::string::*;

verus! {

/// Variable the driver reads to learn where the application should write
/// its coverage profile.
pub const DRIVER_PROFILE_FILE_VAR: &'static str = "DINGHY_LLVM_PROFILE_FILE";

/// Variable the application reads for its coverage profile path.
pub const PROFILE_FILE_VAR: &'static str = "LLVM_PROFILE_FILE";

/// Variable that makes the profiling runtime report write errors.
pub const VERBOSE_ERRORS_VAR: &'static str = "LLVM_PROFILE_VERBOSE_ERRORS";

/// Value of the verbosity variable whenever a profile path is forwarded.
pub const VERBOSE_ERRORS_ON: &'static str = "1";

/// A launch environment: variable names and their values, in the order in
/// which they are handed to the launch call.
pub struct LaunchConfiguration {
    pub entries: Vec<(String, String)>,
}

impl View for LaunchConfiguration {
    type V = Seq<(Seq<char>, Seq<char>)>;

    open spec fn view(&self) -> Seq<(Seq<char>, Seq<char>)> {
        self.entries@.map_values(|e: (String, String)| (e.0@, e.1@))
    }
}

/// The entries of the launch environment for an optional coverage path.
pub open spec fn launch_entries(coverage_path: Option<Seq<char>>) -> Seq<(Seq<char>, Seq<char>)> {
    match coverage_path {
        None => Seq::empty(),
        Some(v) => seq![(PROFILE_FILE_VAR@, v), (VERBOSE_ERRORS_VAR@, VERBOSE_ERRORS_ON@)],
    }
}

/// The environment mapping described by a list of entries: the value of a
/// name is the one its first entry gives.
pub open spec fn entries_map(entries: Seq<(Seq<char>, Seq<char>)>) -> Map<Seq<char>, Seq<char>>
    decreases entries.len(),
{
    if entries.len() == 0 {
        Map::empty()
    } else {
        entries_map(entries.drop_first()).insert(entries[0].0, entries[0].1)
    }
}

impl LaunchConfiguration {
    /// The mapping from variable name to value that this configuration sets.
    pub open spec fn as_map(&self) -> Map<Seq<char>, Seq<char>> {
        entries_map(self@)
    }

    /// Number of variables set.
    pub fn len(&self) -> (r: usize)
        ensures
            r == self@.len(),
    {
        self.entries.len()
    }

    /// Whether no variable is set, so that the application launches with
    /// its default environment.
    pub fn is_empty(&self) -> (r: bool)
        ensures
            r == (self@.len() == 0),
    {
        self.entries.len() == 0
    }
}

/// Builds the launch environment from the driver's coverage path, if it has
/// one: empty without a path; with a path, the application's profile
/// variable set to it and its verbosity variable enabled.
pub fn launch_configuration(coverage_path: Option<String>) -> (r: LaunchConfiguration)
    ensures
        r@ == launch_entries(
            match coverage_path {
                None => None,
                Some(v) => Some(v@),
            },
        ),
{
    match coverage_path {
        None => {
            let r = LaunchConfiguration { entries: Vec::new() };
            assert(r@ =~= Seq::empty());
            r
        },
        Some(path) => {
            let mut entries: Vec<(String, String)> = Vec::new();
            entries.push((String::from_str(PROFILE_FILE_VAR), path));
            entries.push((String::from_str(VERBOSE_ERRORS_VAR), String::from_str(VERBOSE_ERRORS_ON)));
            let r = LaunchConfiguration { entries };
            assert(r@ =~= launch_entries(Some(path@)));
            r
        },
    }
}

/// Without a coverage path the launch environment sets nothing; with a path
/// `v` it is exactly the mapping {profile variable: `v`, verbosity
/// variable: "1"}, two distinct names.
pub proof fn lemma_launch_mapping(coverage_path: Option<Seq<char>>)
    ensures
        coverage_path is None ==> entries_map(launch_entries(coverage_path)) == Map::<
            Seq<char>,
            Seq<char>,
        >::empty(),
        coverage_path is Some ==> entries_map(launch_entries(coverage_path)) == map![
            PROFILE_FILE_VAR@ => coverage_path->0,
            VERBOSE_ERRORS_VAR@ => VERBOSE_ERRORS_ON@,
        ],
        coverage_path is Some ==> PROFILE_FILE_VAR@ != VERBOSE_ERRORS_VAR@,
{
    reveal_strlit("LLVM_PROFILE_FILE");
    reveal_strlit("LLVM_PROFILE_VERBOSE_ERRORS");
    assert(PROFILE_FILE_VAR@.len() != VERBOSE_ERRORS_VAR@.len());
    let e = launch_entries(coverage_path);
    if let Some(v) = coverage_path {
        let rest = seq![(VERBOSE_ERRORS_VAR@, VERBOSE_ERRORS_ON@)];
        assert(e.drop_first() =~= rest);
        assert(rest.drop_first() =~= Seq::empty());
        assert(entries_map(rest.drop_first()) == Map::<Seq<char>, Seq<char>>::empty());
        assert(entries_map(e.drop_first()) == Map::<Seq<char>, Seq<char>>::empty().insert(
            VERBOSE_ERRORS_VAR@,
            VERBOSE_ERRORS_ON@,
        ));
        assert(entries_map(e) =~= map![
            PROFILE_FILE_VAR@ => v,
            VERBOSE_ERRORS_VAR@ => VERBOSE_ERRORS_ON@,
        ]);
    } else {
        assert(entries_map(e) =~= Map::empty());
    }
}

} // verus!
