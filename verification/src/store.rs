//! Where the store of flows is kept.

use vstd::prelude::*;

verus! {

/// The environment variable that names the directory of all of the program's files.
pub const HOME_VARIABLE: &'static str = "SNARE_HOME";

/// The program's name, as the platform files its data: qualifier, organization, application.
pub const QUALIFIER: &'static str = "dev";

pub const ORGANIZATION: &'static str = "Snare";

pub const APPLICATION: &'static str = "snare";

/// A path: a directory, or the working directory where none is given, and the names below it.
#[derive(Debug, PartialEq)]
pub struct Location<P> {
    pub base: Option<P>,
    pub parts: Vec<String>,
}

/// The names in a path.
pub open spec fn names(parts: Seq<String>) -> Seq<Seq<char>> {
    parts.map_values(|part: String| part@)
}

/// Finds the store: below the program's home where that is given, else in the directory that the
/// platform keeps for the program's data, else in the working directory.
pub fn db_path<P>(home: Option<P>, data_dir: Option<P>) -> (r: Location<P>)
    ensures
        match home {
            Some(_) => r.base == home && names(r.parts@) == seq!["data"@, "flows.sqlite"@],
            None => r.base == data_dir && names(r.parts@) == seq!["flows.sqlite"@],
        },
{
    match home {
        Some(home) => {
            let parts = vec!["data".to_owned(), "flows.sqlite".to_owned()];
            assert(names(parts@) =~= seq!["data"@, "flows.sqlite"@]);
            Location { base: Some(home), parts }
        },
        None => {
            let parts = vec!["flows.sqlite".to_owned()];
            assert(names(parts@) =~= seq!["flows.sqlite"@]);
            Location { base: data_dir, parts }
        },
    }
}

} // verus!
