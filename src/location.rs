//! Symbolic locations: routes of keys and indices into a workflow document,
//! with a note on what they point at. Resolving a route to a span of text
//! is left to the caller.

use vstd::prelude::*;
use vstd::string::*;

verus! {

/// One step of a route: a mapping key or a sequence index.
#[derive(Debug, PartialEq, Eq)]
pub enum RouteComponent {
    Key(String),
    Index(usize),
}

/// A route step, as a mathematical value.
pub enum RouteStep {
    Key(Seq<char>),
    Index(nat),
}

impl View for RouteComponent {
    type V = RouteStep;

    open spec fn view(&self) -> RouteStep {
        match self {
            RouteComponent::Key(k) => RouteStep::Key(k@),
            RouteComponent::Index(i) => RouteStep::Index(*i as nat),
        }
    }
}

/// The steps of a route.
pub open spec fn route_of(r: Seq<RouteComponent>) -> Seq<RouteStep> {
    r.map_values(|c: RouteComponent| c@)
}

pub open spec fn opt_string(o: Option<String>) -> Option<Seq<char>> {
    match o {
        Some(s) => Some(s@),
        None => None,
    }
}

/// A place in a workflow document, named symbolically.
pub struct SymbolicLocation<'w> {
    /// The file name of the workflow.
    pub name: &'w str,
    /// What the location points at.
    pub annotation: String,
    /// A link that documents the finding, if any.
    pub link: Option<String>,
    /// The keys and indices that lead to the place.
    pub route: Vec<RouteComponent>,
}

impl RouteComponent {
    /// A copy of this component.
    pub fn duplicate(&self) -> (r: RouteComponent)
        ensures
            r@ == self@,
    {
        match self {
            RouteComponent::Key(k) => RouteComponent::Key(k.clone()),
            RouteComponent::Index(i) => RouteComponent::Index(*i),
        }
    }
}

/// The route `base` followed by `keys`.
pub fn join_route(base: &Vec<RouteComponent>, keys: &Vec<RouteComponent>) -> (r: Vec<RouteComponent>)
    ensures
        route_of(r@) == route_of(base@) + route_of(keys@),
{
    let mut r: Vec<RouteComponent> = Vec::new();
    let n = base.len();
    let mut i: usize = 0;
    while i < n
        invariant
            n == base@.len(),
            i <= n,
            r@.len() == i,
            forall|k: int| 0 <= k < i ==> (#[trigger] r@[k])@ == base@[k]@,
        decreases n - i,
    {
        r.push(base[i].duplicate());
        i = i + 1;
    }
    let m = keys.len();
    let mut j: usize = 0;
    while j < m
        invariant
            n == base@.len(),
            m == keys@.len(),
            j <= m,
            r@.len() == n + j,
            forall|k: int| 0 <= k < n ==> (#[trigger] r@[k])@ == base@[k]@,
            forall|k: int| n <= k < n + j ==> (#[trigger] r@[k])@ == keys@[k - n]@,
        decreases m - j,
    {
        r.push(keys[j].duplicate());
        j = j + 1;
    }
    assert(route_of(r@) =~= route_of(base@) + route_of(keys@));
    r
}

fn copy_link(link: &Option<String>) -> (r: Option<String>)
    ensures
        opt_string(r) == opt_string(*link),
{
    match link {
        Some(l) => Some(l.clone()),
        None => None,
    }
}

impl<'w> SymbolicLocation<'w> {
    /// This location with `keys` appended to its route.
    pub fn with_keys(&self, keys: &Vec<RouteComponent>) -> (r: SymbolicLocation<'w>)
        ensures
            r.name == self.name,
            r.annotation@ == self.annotation@,
            opt_string(r.link) == opt_string(self.link),
            route_of(r.route@) == route_of(self.route@) + route_of(keys@),
    {
        SymbolicLocation {
            name: self.name,
            annotation: self.annotation.clone(),
            link: copy_link(&self.link),
            route: join_route(&self.route, keys),
        }
    }

    /// This location with its annotation replaced.
    pub fn annotated(self, annotation: &str) -> (r: SymbolicLocation<'w>)
        ensures
            r.name == self.name,
            r.annotation@ == annotation@,
            opt_string(r.link) == opt_string(self.link),
            r.route == self.route,
    {
        SymbolicLocation {
            name: self.name,
            annotation: String::from_str(annotation),
            link: self.link,
            route: self.route,
        }
    }
}

} // verus!
