use vstd::prelude::*;
use crate::config::Config;
use crate::text::{spec_starts_with, str_starts_with};

verus! {

/// The module-prefix gate: a module path is eligible when no prefix is
/// configured, or when the path starts with the configured prefix.
pub open spec fn spec_enabled(c: Config, path: Seq<char>) -> bool {
    match c.module_prefix {
        None => true,
        Some(p) => spec_starts_with(path, p@),
    }
}

/// Whether a record from `path` passes the module-prefix filter of
/// `config`. A pure predicate: cheap, idempotent, no side effect.
pub fn is_enabled(path: &str, config: &Config) -> (r: bool)
    ensures
        r == spec_enabled(*config, path@),
{
    match &config.module_prefix {
        None => true,
        Some(p) => str_starts_with(path, p.as_str()),
    }
}

/// With no module prefix configured, every module path is eligible,
/// the empty path included.
pub proof fn lemma_no_prefix_enables_all(c: Config, path: Seq<char>)
    requires
        c.module_prefix is None,
    ensures
        spec_enabled(c, path),
{
}

/// With a prefix configured, a module path is eligible exactly when it
/// starts with that prefix, as a literal substring at position 0.
pub proof fn lemma_prefix_gates(c: Config, p: String, path: Seq<char>)
    requires
        c.module_prefix == Some(p),
    ensures
        spec_enabled(c, path) <==> spec_starts_with(path, p@),
{
}

} // verus!
