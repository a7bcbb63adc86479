use path_tree::PathTree;
use vstd::prelude::*;

verus! {

/// The key under which a route is kept: `/METHOD/path`.
pub open spec fn route_key(method: Seq<char>, path: Seq<char>) -> Seq<char> {
    seq!['/'] + method + seq!['/'] + path
}

/// The key of the route of `method` (its name, such as `GET`) at `path`.
pub fn internal_path(method: &str, path: &str) -> (r: String)
    ensures
        r@ == route_key(method@, path@),
{
    let mut r = String::from_str("/");
    r.append(method);
    r.append("/");
    r.append(path);
    proof {
        reveal_strlit("/");
        assert(r@ =~= route_key(method@, path@));
    }
    r
}

/// Routes of different methods or paths never share a key, as long as method
/// names hold no `/`.
pub proof fn lemma_route_keys_distinct(m1: Seq<char>, p1: Seq<char>, m2: Seq<char>, p2: Seq<char>)
    requires
        forall|i: int| 0 <= i < m1.len() ==> m1[i] != '/',
        forall|i: int| 0 <= i < m2.len() ==> m2[i] != '/',
        route_key(m1, p1) == route_key(m2, p2),
    ensures
        m1 == m2,
        p1 == p2,
{
    let k1 = route_key(m1, p1);
    let k2 = route_key(m2, p2);
    if m1.len() < m2.len() {
        assert(k1[m1.len() + 1int] == '/');
        assert(k2[m1.len() + 1int] == m2[m1.len() as int]);
    } else if m2.len() < m1.len() {
        assert(k2[m2.len() + 1int] == '/');
        assert(k1[m2.len() + 1int] == m1[m2.len() as int]);
    }
    assert(m1.len() == m2.len());
    assert forall|i: int| 0 <= i < m1.len() implies m1[i] == m2[i] by {
        assert(k1[i + 1] == m1[i]);
        assert(k2[i + 1] == m2[i]);
    }
    assert(m1 =~= m2);
    assert(k1.len() == m1.len() + 2 + p1.len());
    assert(k2.len() == m2.len() + 2 + p2.len());
    assert(p1.len() == p2.len());
    assert forall|i: int| 0 <= i < p1.len() implies p1[i] == p2[i] by {
        assert(k1[m1.len() + 2 + i] == p1[i]);
        assert(k2[m2.len() + 2 + i] == p2[i]);
    }
    assert(p1 =~= p2);
}

/// The status of a request for which no route is found: 405.
pub fn not_found_status() -> (s: u16)
    ensures
        s == 405,
{
    405
}

#[verifier::external_type_specification]
#[verifier::external_body]
#[verifier::reject_recursive_types(T)]
pub struct ExPathTree<T>(PathTree<T>);

/// The values that the routes of a path tree hold.
pub uninterp spec fn route_values(t: PathTree<usize>) -> Set<usize>;

/// What `PathTree::find` gives for the path `path`: the value of the matching
/// route and the parameters bound by the match (name, text), or `None`. It
/// depends on the tree and the path alone.
pub uninterp spec fn route_lookup(t: PathTree<usize>, path: Seq<char>) -> Option<
    (usize, Seq<(Seq<char>, Seq<char>)>),
>;

/// A route pattern without parameters or escapes: path-tree reads it as one
/// piece of text (`:`, `+` and `*` open parameters, `\\` escapes).
pub open spec fn is_static(path: Seq<char>) -> bool {
    forall|i: int|
        0 <= i < path.len() ==> (#[trigger] path[i]) != ':' && path[i] != '+' && path[i] != '*'
            && path[i] != '\\'
}

/// A pattern without the escape character `\\`.
pub open spec fn no_escape(path: Seq<char>) -> bool {
    forall|i: int| 0 <= i < path.len() ==> (#[trigger] path[i]) != '\\'
}

/// A character that path-tree reads as the start of a parameter or an escape.
pub open spec fn is_route_special(c: char) -> bool {
    c == ':' || c == '+' || c == '*' || c == '\\'
}

/// The characters of `p` up to position `i` are all plain text.
pub open spec fn plain_upto(p: Seq<char>, i: int) -> bool {
    forall|j: int| 0 <= j <= i ==> !is_route_special(#[trigger] p[j])
}

/// `q` begins with the plain text that opens the pattern `p` (everything
/// before its first parameter or escape): the only paths that a route of
/// pattern `p` can match.
pub open spec fn shares_static_part(q: Seq<char>, p: Seq<char>) -> bool {
    forall|i: int| 0 <= i < p.len() && #[trigger] plain_upto(p, i) ==> i < q.len() && q[i] == p[i]
}

/// The texts of a list of parameter bindings.
pub open spec fn params_view(ps: Seq<(String, String)>) -> Seq<(Seq<char>, Seq<char>)> {
    ps.map_values(|p: (String, String)| (p.0@, p.1@))
}

/// `PathTree::new`. Trusted: the new tree holds no route.
#[verifier::external_body]
fn path_tree_new() -> (t: PathTree<usize>)
    ensures
        route_values(t) == Set::<usize>::empty(),
{
    PathTree::new()
}

/// `PathTree::insert`: adds the route `path` with the value `value` (the
/// route id it returns is dropped). A later insertion whose pattern reaches
/// the same node of the tree replaces the value there. Trusted: the values
/// held are those held before and `value`, less any that was replaced; a
/// pattern without parameters is found afterwards with `value` and no
/// parameters; and a pattern without escapes leaves every other
/// parameterless path that was found with no parameters found as before (its
/// node keeps its value, and `find` reaches a node by its text first). More:
/// the insertion only adds nodes along the pattern's own chain and sets a
/// value at its end, so a path whose lookup changes now finds `value` and
/// begins with the pattern's plain opening text; and a pattern without
/// parameters or escapes changes the lookup of no other path (its chain is
/// plain text, and `find` falls back from a branch that fails as before).
#[verifier::external_body]
fn path_tree_insert(t: &mut PathTree<usize>, path: &str, value: usize)
    ensures
        forall|q: Seq<char>|
            #[trigger] route_lookup(*final(t), q) == route_lookup(*old(t), q) || (route_lookup(
                *final(t),
                q,
            ) matches Some(f) && f.0 == value),
        forall|q: Seq<char>|
            #[trigger] route_lookup(*final(t), q) != route_lookup(*old(t), q) ==> shares_static_part(
                q,
                path@,
            ),
        is_static(path@) ==> forall|q: Seq<char>|
            q != path@ ==> #[trigger] route_lookup(*final(t), q) == route_lookup(*old(t), q),
        route_values(*final(t)).subset_of(route_values(*old(t)).insert(value)),
        route_values(*final(t)).contains(value),
        is_static(path@) ==> route_lookup(*final(t), path@) == Some(
            (value, Seq::<(Seq<char>, Seq<char>)>::empty()),
        ),
        no_escape(path@) ==> forall|q: Seq<char>|
            is_static(q) && q != path@ && (route_lookup(*old(t), q) matches Some(f) && f.1.len()
                == 0) ==> #[trigger] route_lookup(*final(t), q) == route_lookup(*old(t), q),
{
    let _ = t.insert(path, value);
}

/// `PathTree::find`, the value copied and the parameters of the match turned
/// into owned strings. Trusted: the result is `route_lookup(*t, path@)`, and
/// the value found is one that the tree holds.
#[verifier::external_body]
fn path_tree_find(t: &PathTree<usize>, path: &str) -> (r: Option<(usize, Vec<(String, String)>)>)
    ensures
        r is Some <==> route_lookup(*t, path@) is Some,
        r matches Some(f) ==> route_lookup(*t, path@) == Some((f.0, params_view(f.1@))),
        r matches Some(f) ==> route_values(*t).contains(f.0),
{
    match t.find(path) {
        Some((h, p)) => Some(
            (*h, p.params().into_iter().map(|(x, y)| (x.to_string(), y.to_string())).collect()),
        ),
        None => None,
    }
}

/// The routes of a server: a path tree from the key of each route (see
/// `internal_path`) to the number of its handler, handlers being numbered in
/// the order in which their routes were added.
pub struct RouteTable {
    tree: PathTree<usize>,
    count: usize,
}

impl RouteTable {
    /// Every route of the table leads to a handler number below the number
    /// of routes added.
    #[verifier::type_invariant]
    closed spec fn numbers_below_count(&self) -> bool {
        forall|v: usize| #[trigger] route_values(self.tree).contains(v) ==> v < self.count
    }

    /// The path tree of the table.
    pub closed spec fn tree(&self) -> PathTree<usize> {
        self.tree
    }

    /// The number of routes added to the table.
    pub closed spec fn count(&self) -> nat {
        self.count as nat
    }

    /// A table with no route.
    pub fn new() -> (t: RouteTable)
        ensures
            route_values(t.tree()) == Set::<usize>::empty(),
            t.count() == 0,
    {
        RouteTable { tree: path_tree_new(), count: 0 }
    }

    /// The number of routes added to the table.
    pub fn len(&self) -> (n: usize)
        ensures
            n == self.count(),
    {
        self.count
    }

    /// `after` is `before` with the route of `method` at `path` added under
    /// the handler number `index`: the next number; a lookup that changes
    /// finds `index`, and only for a path that begins with the plain opening
    /// of the route's key; a route without parameters is found under its key
    /// with `index` and leaves every other key as it was.
    pub open spec fn inserted(
        before: RouteTable,
        after: RouteTable,
        method: Seq<char>,
        path: Seq<char>,
        index: usize,
    ) -> bool {
        let key = route_key(method, path);
        &&& index == before.count()
        &&& after.count() == before.count() + 1
        &&& forall|q: Seq<char>|
            #[trigger] route_lookup(after.tree(), q) == route_lookup(before.tree(), q) || (
            route_lookup(after.tree(), q) matches Some(f) && f.0 == index)
        &&& forall|q: Seq<char>|
            #[trigger] route_lookup(after.tree(), q) != route_lookup(before.tree(), q)
                ==> shares_static_part(q, key)
        &&& is_static(key) ==> route_lookup(after.tree(), key) == Some(
            (index, Seq::<(Seq<char>, Seq<char>)>::empty()),
        )
        &&& is_static(key) ==> forall|q: Seq<char>|
            q != key ==> #[trigger] route_lookup(after.tree(), q) == route_lookup(before.tree(), q)
    }

    /// Adds the route of `method` at `path`; its handler gets the next number,
    /// which is returned. A route without parameters is found afterwards
    /// under its key with that number; adding a route without escapes leaves
    /// every other parameterless key that was found found as before.
    pub fn insert(&mut self, method: &str, path: &str) -> (index: usize)
        requires
            old(self).count() < usize::MAX,
        ensures
            index == old(self).count(),
            final(self).count() == old(self).count() + 1,
            is_static(route_key(method@, path@)) ==> route_lookup(
                final(self).tree(),
                route_key(method@, path@),
            ) == Some((index, Seq::<(Seq<char>, Seq<char>)>::empty())),
            no_escape(route_key(method@, path@)) ==> forall|q: Seq<char>|
                is_static(q) && q != route_key(method@, path@) && (route_lookup(old(self).tree(), q) matches Some(f)
                    && f.1.len() == 0) ==> #[trigger] route_lookup(final(self).tree(), q)
                    == route_lookup(old(self).tree(), q),
            RouteTable::inserted(*old(self), *final(self), method@, path@, index),
    {
        proof {
            use_type_invariant(&*self);
        }
        let index = self.count;
        let key = internal_path(method, path);
        self.count = index + 1;
        let mut tree = path_tree_new();
        std::mem::swap(&mut tree, &mut self.tree);
        path_tree_insert(&mut tree, key.as_str(), index);
        self.tree = tree;
        index
    }
}

/// A method name that path-tree reads as plain text and that holds no `/`.
pub open spec fn plain_method(m: Seq<char>) -> bool {
    forall|i: int| 0 <= i < m.len() ==> !is_route_special(#[trigger] m[i]) && m[i] != '/'
}

/// Adding a route for one method never changes where a request of another
/// method goes: every key of another method is looked up as before.
pub proof fn law_insert_keeps_other_methods(
    before: RouteTable,
    after: RouteTable,
    method: Seq<char>,
    path: Seq<char>,
    index: usize,
    other: Seq<char>,
    uri: Seq<char>,
)
    requires
        RouteTable::inserted(before, after, method, path, index),
        plain_method(method),
        plain_method(other),
        other != method,
    ensures
        route_lookup(after.tree(), route_key(other, uri)) == route_lookup(
            before.tree(),
            route_key(other, uri),
        ),
{
    let key = route_key(method, path);
    let q = route_key(other, uri);
    if route_lookup(after.tree(), q) != route_lookup(before.tree(), q) {
        assert(shares_static_part(q, key));
        assert forall|i: int| 0 <= i <= method.len() + 1 implies #[trigger] plain_upto(key, i) by {
            assert forall|j: int| 0 <= j <= i implies !is_route_special(#[trigger] key[j]) by {
                if 1 <= j <= method.len() {
                    assert(key[j] == method[j - 1]);
                }
            }
        }
        assert forall|i: int| 0 <= i <= method.len() + 1 implies i < q.len() && q[i] == key[i] by {
            assert(plain_upto(key, i));
        }
        if other.len() < method.len() {
            assert(q[other.len() + 1int] == '/');
            assert(key[other.len() + 1int] == method[other.len() as int]);
        } else if method.len() < other.len() {
            assert(key[method.len() + 1int] == '/');
            assert(q[method.len() + 1int] == other[method.len() as int]);
        } else {
            assert forall|i: int| 0 <= i < other.len() implies other[i] == method[i] by {
                assert(q[i + 1] == other[i]);
                assert(key[i + 1] == method[i]);
            }
            assert(other =~= method);
        }
    }
}

/// A route without parameters, once added, is found under its key with its
/// handler number and no parameters, and no other key changes.
pub proof fn law_insert_static_route(
    before: RouteTable,
    after: RouteTable,
    method: Seq<char>,
    path: Seq<char>,
    index: usize,
    q: Seq<char>,
)
    requires
        RouteTable::inserted(before, after, method, path, index),
        is_static(route_key(method, path)),
    ensures
        route_lookup(after.tree(), route_key(method, path)) == Some(
            (index, Seq::<(Seq<char>, Seq<char>)>::empty()),
        ),
        q != route_key(method, path) ==> route_lookup(after.tree(), q) == route_lookup(
            before.tree(),
            q,
        ),
        index == before.count(),
{
}

/// Where a request goes: to no route (answered with `status`), or to the
/// handler numbered `index` with the parameters of the route.
pub enum Dispatch {
    NotFound { status: u16 },
    Handler { index: usize, params: Vec<(String, String)> },
}

/// Finds the route of a request by its method and URI: the handler of the
/// route that the table finds under their key, with its parameters; 405 when
/// there is none.
pub fn dispatch(routes: &RouteTable, method: &str, uri: &str) -> (d: Dispatch)
    ensures
        route_lookup(routes.tree(), route_key(method@, uri@)) is None ==> d == (Dispatch::NotFound {
            status: 405,
        }),
        route_lookup(routes.tree(), route_key(method@, uri@)) matches Some(found) ==> (d matches Dispatch::Handler { index, params } && index == found.0 && params_view(params@) == found.1),
        d matches Dispatch::Handler { index, .. } ==> index < routes.count(),
{
    proof {
        use_type_invariant(routes);
    }
    let key = internal_path(method, uri);
    match path_tree_find(&routes.tree, key.as_str()) {
        Some((index, params)) => Dispatch::Handler { index, params },
        None => Dispatch::NotFound { status: not_found_status() },
    }
}

} // verus!
