//! What a module of the daemon says of itself.

use vstd::prelude::*;

verus! {

/// The HTTP method of a route.
#[derive(Debug, Clone, Copy, PartialEq, Eq, Structural)]
pub enum Method {
    Get,
    Post,
}

/// One route that a module serves.
#[derive(Debug, Clone, Copy)]
pub struct Route {
    pub method: Method,
    pub path: &'static str,
}

/// A module: its identity, and what it needs and offers.
#[derive(Debug)]
pub struct ModuleDescriptor {
    pub id: &'static str,
    pub name: &'static str,
    pub version: String,
    pub dependencies: Vec<&'static str>,
    pub operations: Vec<&'static str>,
}

/// The paths of `routes` with their methods.
pub open spec fn paths(routes: Seq<Route>) -> Seq<(Method, Seq<char>)> {
    routes.map_values(|r: Route| (r.method, r.path@))
}

/// A module on top of the inference module that offers no operations of its
/// own: what it serves, it serves over HTTP.
pub fn inference_client(id: &'static str, name: &'static str, version: &str) -> (descriptor:
    ModuleDescriptor)
    ensures
        descriptor.id@ == id@,
        descriptor.name@ == name@,
        descriptor.version@ == version@,
        descriptor.dependencies@.len() == 1,
        descriptor.dependencies@[0]@ == "dev.hologram.live.inference"@,
        descriptor.operations@.len() == 0,
{
    let mut dependencies: Vec<&'static str> = Vec::new();
    dependencies.push("dev.hologram.live.inference");
    ModuleDescriptor {
        id,
        name,
        version: version.to_owned(),
        dependencies,
        operations: Vec::new(),
    }
}

} // verus!
