use vstd::prelude::*;

verus! {

/// One entry of the routing table: requests whose path starts with `prefix`
/// belong to the logical service `service`.
pub struct Route {
    pub prefix: String,
    pub service: String,
}

impl View for Route {
    type V = (Seq<char>, Seq<char>);

    open spec fn view(&self) -> (Seq<char>, Seq<char>) {
        (self.prefix@, self.service@)
    }
}

/// Route `i` applies to `path`.
pub open spec fn route_matches(routes: Seq<(Seq<char>, Seq<char>)>, path: Seq<char>, i: int) -> bool {
    0 <= i < routes.len() && routes[i].0.is_prefix_of(path)
}

/// Route `i` is the one chosen for `path`: it matches, no matching route has a
/// longer prefix, and every earlier matching route has a strictly shorter one.
pub open spec fn chosen_route(routes: Seq<(Seq<char>, Seq<char>)>, path: Seq<char>, i: int) -> bool {
    &&& route_matches(routes, path, i)
    &&& forall|j: int| #[trigger] route_matches(routes, path, j) ==> routes[j].0.len() <= routes[i].0.len()
    &&& forall|j: int| 0 <= j < i && #[trigger] route_matches(routes, path, j) ==> routes[j].0.len() < routes[i].0.len()
}

/// The logical service name for `path`: the service of the longest matching
/// prefix, or none when no prefix matches.
pub open spec fn identify_spec(routes: Seq<(Seq<char>, Seq<char>)>, path: Seq<char>) -> Option<Seq<char>> {
    if exists|i: int| chosen_route(routes, path, i) {
        Some(routes[choose|i: int| chosen_route(routes, path, i)].1)
    } else {
        None
    }
}

/// At most one route is chosen for a path.
pub proof fn lemma_chosen_unique(routes: Seq<(Seq<char>, Seq<char>)>, path: Seq<char>, i: int, k: int)
    requires
        chosen_route(routes, path, i),
        chosen_route(routes, path, k),
    ensures
        i == k,
{
    if i < k {
        assert(route_matches(routes, path, i));
    } else if k < i {
        assert(route_matches(routes, path, k));
    }
}

/// Whether `prefix` is a prefix of `text`, character by character.
pub fn starts_with(text: &str, prefix: &str) -> (r: bool)
    ensures
        r == prefix@.is_prefix_of(text@),
{
    let n = text.unicode_len();
    let m = prefix.unicode_len();
    if m > n {
        return false;
    }
    let mut i: usize = 0;
    while i < m
        invariant
            m == prefix@.len(),
            n == text@.len(),
            m <= n,
            i <= m,
            forall|k: int| 0 <= k < i ==> prefix@[k] == text@[k],
        decreases m - i,
    {
        if prefix.get_char(i) != text.get_char(i) {
            return false;
        }
        i = i + 1;
    }
    assert(prefix@ =~= text@.subrange(0, m as int));
    true
}

/// The routing table, an ordered mapping from path prefix to service name.
pub struct RouteTable {
    pub routes: Vec<Route>,
}

impl View for RouteTable {
    type V = Seq<(Seq<char>, Seq<char>)>;

    open spec fn view(&self) -> Seq<(Seq<char>, Seq<char>)> {
        self.routes@.map_values(|r: Route| r@)
    }
}

impl RouteTable {
    /// The service for the longest route prefix that `path` starts with, or
    /// `None` when no route applies.
    pub fn identify(&self, path: &String) -> (r: Option<String>)
        ensures
            r is None <==> identify_spec(self@, path@) is None,
            r matches Some(s) ==> identify_spec(self@, path@) == Some(s@),
    {
        let ghost routes = self@;
        let mut best: Option<usize> = None;
        let mut best_len: usize = 0;
        let mut i: usize = 0;
        while i < self.routes.len()
            invariant
                routes == self@,
                routes.len() == self.routes.len(),
                i <= self.routes.len(),
                best is None ==> forall|j: int| 0 <= j < i ==> !route_matches(routes, path@, j),
                best matches Some(b) ==> {
                    &&& b < i
                    &&& route_matches(routes, path@, b as int)
                    &&& best_len == routes[b as int].0.len()
                    &&& forall|j: int| 0 <= j < i && route_matches(routes, path@, j) ==> routes[j].0.len() <= best_len
                    &&& forall|j: int| 0 <= j < b && route_matches(routes, path@, j) ==> routes[j].0.len() < best_len
                },
            decreases self.routes.len() - i,
        {
            let route = &self.routes[i];
            assert(routes[i as int] == route@);
            if starts_with(path.as_str(), route.prefix.as_str()) {
                let l = route.prefix.as_str().unicode_len();
                let better = match best {
                    None => true,
                    Some(_) => l > best_len,
                };
                if better {
                    best = Some(i);
                    best_len = l;
                }
            }
            i = i + 1;
        }
        match best {
            None => {
                proof {
                    if exists|k: int| chosen_route(routes, path@, k) {
                        let k = choose|k: int| chosen_route(routes, path@, k);
                        assert(route_matches(routes, path@, k));
                    }
                }
                None
            },
            Some(b) => {
                proof {
                    assert(chosen_route(routes, path@, b as int));
                    let k = choose|k: int| chosen_route(routes, path@, k);
                    lemma_chosen_unique(routes, path@, b as int, k);
                }
                let s = self.routes[b].service.clone();
                assert(routes[b as int].1 == self.routes@[b as int].service@);
                Some(s)
            },
        }
    }
}

} // verus!
