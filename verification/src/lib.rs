//! A build-time directive processor: given a source-directory path and an
//! optional target-library name, it drives a two-phase native build
//! toolchain (a configure step, then a build step) and produces a linkage
//! descriptor (library search path plus library name) for the enclosing
//! build pipeline.
//!
//! The processor itself is a linear pipeline: directive parsing, workspace
//! resolution, sequential tool invocation, diagnostic translation, and
//! linkage emission. Filesystem and process work is performed by the host
//! through the action/event protocol of [`pipeline::Pipeline`]; every
//! decision along the way is made here.

pub mod directive;
pub mod pipeline;
pub mod workspace;

use vstd::prelude::*;

verus! {

/// A registry of directive names, standing for the extension point of the
/// host system in which directive processors are installed.
pub struct Registry {
    /// The directive names registered so far, in registration order.
    pub directives: Vec<String>,
}

/// Installs this processor in the host's registry under its directive name,
/// `cmake`.
pub fn plugin_registrar(reg: &mut Registry)
    ensures
        final(reg).directives@.len() == old(reg).directives@.len() + 1,
        final(reg).directives@.subrange(0, old(reg).directives@.len() as int) == old(
            reg,
        ).directives@,
        final(reg).directives@.last()@ == "cmake"@,
{
    let name = String::from_str("cmake");
    reg.directives.push(name);
    proof {
        assert(reg.directives@.subrange(0, old(reg).directives@.len() as int)
            =~= old(reg).directives@);
    }
}

} // verus!
