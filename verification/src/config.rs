use vstd::prelude::*;
use crate::digest::{algorithm_of_name, spec_algorithm_of, DigestAlgorithm};
use crate::error::Error;

verus! {

/// The resolved configuration of one run, shared read-only by every
/// component: which algorithm names files, which filters apply, and where to
/// start. That the roots exist on disk is for the caller to check before the
/// walk begins.
#[derive(Debug, Clone)]
pub struct Config {
    pub algorithm: DigestAlgorithm,
    pub process_all: bool,
    pub respect_ignore: bool,
    pub ignore_file: Option<String>,
    pub paths: Vec<String>,
    pub threshold: u64,
}

impl Config {
    /// Resolves a configuration. Fails exactly when the algorithm identifier
    /// is not supported or no root path was given; both are fatal before any
    /// traversal begins.
    pub fn new(
        algorithm_name: &str,
        process_all: bool,
        respect_ignore: bool,
        ignore_file: Option<String>,
        paths: Vec<String>,
        threshold: u64,
    ) -> (r: Result<Config, Error>)
        ensures
            spec_algorithm_of(algorithm_name@) is None ==> (r matches Err(e) && (e matches
            Error::StaticMsg(m) && m@ == "unknown digest algorithm"@)),
            spec_algorithm_of(algorithm_name@) is Some && paths@.len() == 0 ==> (r matches Err(e)
                && (e matches Error::StaticMsg(m) && m@ == "no paths to hash"@)),
            spec_algorithm_of(algorithm_name@) is Some && paths@.len() > 0 ==> (r matches Ok(c)
                && c.algorithm == spec_algorithm_of(algorithm_name@)->Some_0 && c.process_all
                == process_all && c.respect_ignore == respect_ignore && c.ignore_file == ignore_file
                && c.paths == paths && c.threshold == threshold),
    {
        match algorithm_of_name(algorithm_name) {
            None => Err(Error::StaticMsg("unknown digest algorithm")),
            Some(algorithm) => {
                if paths.len() == 0 {
                    Err(Error::StaticMsg("no paths to hash"))
                } else {
                    Ok(
                        Config {
                            algorithm,
                            process_all,
                            respect_ignore,
                            ignore_file,
                            paths,
                            threshold,
                        },
                    )
                }
            },
        }
    }
}

} // verus!
