//! The settings of one search, taken from the command line.

use vstd::prelude::*;

use crate::search::MatchMode;

verus! {

/// What to search for, where, and how.
pub struct Config {
    pub query: String,
    pub file_path: String,
    pub ignore_case: bool,
}

impl Config {
    /// Reads the query and the file path from `args`, whose first entry is
    /// the program's name and is skipped. `ignore_case` chooses the
    /// case-insensitive comparison.
    pub fn build(args: &Vec<String>, ignore_case: bool) -> (r: Result<Config, &'static str>)
        ensures
            args.len() < 2 ==> r is Err && r->Err_0@ == "Didn't get a query string"@,
            args.len() == 2 ==> r is Err && r->Err_0@ == "Didn't get a file path"@,
            args.len() > 2 <==> r is Ok,
            r is Ok ==> {
                &&& r->Ok_0.query@ == args@[1]@
                &&& r->Ok_0.file_path@ == args@[2]@
                &&& r->Ok_0.ignore_case == ignore_case
            },
    {
        if args.len() < 2 {
            return Err("Didn't get a query string");
        }
        if args.len() < 3 {
            return Err("Didn't get a file path");
        }
        let query = args[1].clone();
        let file_path = args[2].clone();
        Ok(Config { query, file_path, ignore_case })
    }

    /// The comparison that `ignore_case` chooses.
    pub fn mode(&self) -> (r: MatchMode)
        ensures
            r == (if self.ignore_case {
                MatchMode::CaseInsensitive
            } else {
                MatchMode::CaseSensitive
            }),
    {
        if self.ignore_case {
            MatchMode::CaseInsensitive
        } else {
            MatchMode::CaseSensitive
        }
    }
}

} // verus!
