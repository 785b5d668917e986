//! The list command: discover the renders and print them.

use crate::cli::args::List;
use crate::config::Config;
use crate::devices::discovery::{default_search, SearchPlan};
use crate::devices::render::Render;
use vstd::prelude::*;

verus! {

/// List command implementation
#[derive(Debug, Clone, Copy)]
pub struct ListCommand<'a> {
    _args: &'a List,
}

impl<'a> ListCommand<'a> {
    /// Create a new list command
    pub fn new(args: &'a List) -> (c: Self) {
        ListCommand { _args: args }
    }

    /// The search the command makes.
    pub fn search(&self, config: &Config) -> (p: SearchPlan)
        ensures
            p == (SearchPlan {
                duration_secs: config.discovery_timeout,
                search_attempts: crate::config::SSDP_SEARCH_ATTEMPTS,
                ttl: Some(crate::config::SSDP_TTL),
            }),
    {
        default_search(config.discovery_timeout)
    }

    /// The lines the command prints: each render written out, in order.
    pub fn lines(&self, renders: &Vec<Render>) -> (r: Vec<String>)
        ensures
            r.len() == renders.len(),
            forall|i: int| 0 <= i < r.len() ==> (#[trigger] r[i])@ == renders[i]@.text(),
    {
        let mut r: Vec<String> = Vec::new();
        let mut i: usize = 0;
        while i < renders.len()
            invariant
                i <= renders.len(),
                r.len() == i,
                forall|k: int| 0 <= k < i ==> (#[trigger] r[k])@ == renders[k]@.text(),
            decreases renders.len() - i,
        {
            r.push(renders[i].to_string());
            i += 1;
        }
        r
    }
}

} // verus!
