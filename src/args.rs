//! Command-line options of the indexing tool.
use vstd::prelude::*;
use vstd::string::*;

verus! {

/// The configuration file looked for when none is named.
pub open spec fn default_config_file() -> Seq<char> {
    ".tagsinate-config.json"@
}

/// The options the tool runs with.
#[derive(Debug, Clone, PartialEq, Eq)]
pub struct Args {
    /// The configuration file to read.
    pub config_file: String,
    /// Print the indexer's command lines instead of running them.
    pub pretend: bool,
}

/// The options given on the command line, with the default configuration
/// file name put in where none was named.
pub fn parse(config_file: Option<String>, pretend: bool) -> (r: Args)
    ensures
        r.config_file@ == match config_file {
            Some(c) => c@,
            None => default_config_file(),
        },
        r.pretend == pretend,
{
    let config_file = match config_file {
        Some(c) => c,
        None => String::from_str(".tagsinate-config.json"),
    };
    Args { config_file, pretend }
}

} // verus!
