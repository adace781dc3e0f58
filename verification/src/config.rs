//! The configuration a dispatch works from: the (source, target) pairs to
//! link and the rewrite policy for targets that already exist.

use vstd::prelude::*;

verus! {

/// The ordered list of (source, target) pairs to link.
pub type Links = Vec<(String, String)>;

/// A parsed configuration.
#[derive(Debug)]
pub struct Config {
    /// Whether an already existing target may be removed and rewritten.
    pub rewrite: bool,
    /// The pairs to link, in order.
    pub links: Links,
}

impl Config {
    /// Bundles the given pairs and rewrite policy, unchanged.
    pub fn new(links: Links, rewrite: bool) -> (config: Config)
        ensures
            config.links == links,
            config.rewrite == rewrite,
    {
        Config { links, rewrite }
    }
}

impl Default for Config {
    /// An empty configuration: nothing to link, no rewriting.
    fn default() -> (config: Config)
        ensures
            config.links@.len() == 0,
            !config.rewrite,
    {
        Config { rewrite: false, links: Vec::new() }
    }
}

} // verus!
