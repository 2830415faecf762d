//! Routing rules: which sender/recipient pairs a bus lets through.
use crate::text::text_eq;
use vstd::prelude::*;

verus! {

/// A rule admitting messages from shells matching `from_pattern` to shells
/// matching `to_pattern`; `*` matches any name.
#[derive(Debug, Clone)]
pub struct ShellRoute {
    pub from_pattern: String,
    pub to_pattern: String,
    pub enabled: bool,
}

/// A pattern admits a name when it is the wildcard `*` or the name itself.
pub open spec fn pattern_admits(pattern: Seq<char>, name: Seq<char>) -> bool {
    pattern == "*"@ || pattern == name
}

/// An enabled route admits a pair when both of its patterns do.
pub open spec fn route_admits(route: ShellRoute, from: Seq<char>, to: Seq<char>) -> bool {
    route.enabled && pattern_admits(route.from_pattern@, from) && pattern_admits(route.to_pattern@, to)
}

/// A list of routes lets a pair through when it is empty or when some route
/// in it admits the pair.
pub open spec fn routes_allow(routes: Seq<ShellRoute>, from: Seq<char>, to: Seq<char>) -> bool {
    routes.len() == 0 || exists|i: int| 0 <= i < routes.len() && #[trigger] route_admits(routes[i], from, to)
}

impl ShellRoute {
    /// Whether this route admits messages from `from` to `to`.
    pub fn matches(&self, from: &str, to: &str) -> (r: bool)
        ensures
            r == route_admits(*self, from@, to@),
    {
        if !self.enabled {
            return false;
        }
        let from_ok = text_eq(self.from_pattern.as_str(), "*") || text_eq(self.from_pattern.as_str(), from);
        let to_ok = text_eq(self.to_pattern.as_str(), "*") || text_eq(self.to_pattern.as_str(), to);
        from_ok && to_ok
    }
}

/// Whether `routes` let messages from `from` to `to` through.
pub fn routes_permit(routes: &Vec<ShellRoute>, from: &str, to: &str) -> (r: bool)
    ensures
        r == routes_allow(routes@, from@, to@),
{
    if routes.len() == 0 {
        return true;
    }
    let mut i: usize = 0;
    while i < routes.len()
        invariant
            i <= routes@.len(),
            forall|j: int| 0 <= j < i ==> !route_admits(#[trigger] routes@[j], from@, to@),
        decreases routes@.len() - i,
    {
        if routes[i].matches(from, to) {
            return true;
        }
        i = i + 1;
    }
    false
}

/// A disabled route admits nothing.
pub proof fn law_disabled_route_admits_nothing(route: ShellRoute, from: Seq<char>, to: Seq<char>)
    requires
        !route.enabled,
    ensures
        !route_admits(route, from, to),
{
}

/// An enabled route with wildcards on both sides admits every pair.
pub proof fn law_wildcard_route_admits_all(route: ShellRoute, from: Seq<char>, to: Seq<char>)
    requires
        route.enabled,
        route.from_pattern@ == "*"@,
        route.to_pattern@ == "*"@,
    ensures
        route_admits(route, from, to),
{
}

/// Routes are additive: once some route lets a pair through, adding further
/// routes never stops it.
pub proof fn law_routes_are_additive(routes: Seq<ShellRoute>, extra: ShellRoute, from: Seq<char>, to: Seq<char>)
    requires
        routes.len() > 0,
        routes_allow(routes, from, to),
    ensures
        routes_allow(routes.push(extra), from, to),
{
    let i = choose|i: int| 0 <= i < routes.len() && #[trigger] route_admits(routes[i], from, to);
    assert(routes.push(extra)[i] == routes[i]);
}

} // verus!
