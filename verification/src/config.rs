//! Application-level configuration recognized by the shell.

use vstd::prelude::*;

verus! {

/// Options an application hands to the shell when it starts.
#[derive(Debug, Default, Copy, Clone)]
pub struct AppConfig<'a, 'b> {
    pub enable_raytracing: bool,
    pub required_instance_extensions: &'a [&'b str],
    pub enable_independent_blend: bool,
}

} // verus!
