//! The route manager's bookkeeping: which routes it was asked to keep, which
//! routes that puts in the system route table given the current default
//! route, and the table operations each command calls for.
use vstd::prelude::*;

verus! {

/// An IP address.
#[derive(Debug, Clone, Copy, PartialEq, Eq, Hash, Structural)]
pub enum IpAddress {
    V4(u32),
    V6(u128),
}

/// A destination: an address and a prefix length.
#[derive(Debug, Clone, Copy, PartialEq, Eq, Hash, Structural)]
pub struct IpPrefix {
    pub addr: IpAddress,
    pub prefix_len: u8,
}

/// A concrete next hop: a gateway address, an interface (by index), or both.
#[derive(Debug, Clone, Copy, PartialEq, Eq, Hash, Structural)]
pub struct Node {
    pub ip: Option<IpAddress>,
    pub device: Option<u32>,
}

/// Where a required route goes: through a concrete node, or through
/// whatever the system's default route is.
#[derive(Debug, Clone, Copy, PartialEq, Eq, Hash, Structural)]
pub enum NetNode {
    DefaultNode,
    RealNode(Node),
}

/// A routing intent.
#[derive(Debug, Clone, Copy, PartialEq, Eq, Hash, Structural)]
pub struct RequiredRoute {
    pub prefix: IpPrefix,
    pub node: NetNode,
}

/// A route as it stands in the system route table.
#[derive(Debug, Clone, Copy, PartialEq, Eq, Hash, Structural)]
pub struct AppliedRoute {
    pub prefix: IpPrefix,
    pub gateway: Node,
}

/// An operation on the system route table.
#[derive(Debug, Clone, Copy, PartialEq, Eq, Hash, Structural)]
pub enum RouteOp {
    Add(AppliedRoute),
    /// Changes the route to its destination in place.
    Replace(AppliedRoute),
    Delete(AppliedRoute),
}

/// Errors of the route manager.
#[derive(Debug, Clone, PartialEq, Eq)]
pub enum Error {
    /// The routing manager thread panicked before it started.
    RoutingManagerThreadPanic,
    /// A platform specific error, with its text.
    PlatformError(String),
    /// Failed to spawn the route manager.
    FailedToSpawnManager,
    /// The route manager is down.
    RouteManagerDown,
}

/// The route that `route` puts in the table while the default route is
/// `default`: none for a default-tracking route while there is no default
/// route.
pub open spec fn applied_of(route: RequiredRoute, default: Option<Node>) -> Option<AppliedRoute> {
    match route.node {
        NetNode::RealNode(node) => Some(AppliedRoute { prefix: route.prefix, gateway: node }),
        NetNode::DefaultNode => match default {
            Some(node) => Some(AppliedRoute { prefix: route.prefix, gateway: node }),
            None => None,
        },
    }
}

/// The routes in the table for the required routes `required`, in order.
pub open spec fn applied_spec(required: Seq<RequiredRoute>, default: Option<Node>) -> Seq<
    AppliedRoute,
>
    decreases required.len(),
{
    if required.len() == 0 {
        Seq::empty()
    } else {
        let rest = applied_spec(required.drop_last(), default);
        match applied_of(required.last(), default) {
            Some(a) => rest.push(a),
            None => rest,
        }
    }
}

pub open spec fn ops_of(applied: Seq<AppliedRoute>, kind: spec_fn(AppliedRoute) -> RouteOp) -> Seq<
    RouteOp,
> {
    applied.map_values(kind)
}

pub open spec fn prefixes_distinct(required: Seq<RequiredRoute>) -> bool {
    forall|i: int, j: int|
        0 <= i < j < required.len() ==> #[trigger] required[i].prefix != #[trigger] required[j].prefix
}

pub open spec fn has_prefix(required: Seq<RequiredRoute>, prefix: IpPrefix) -> bool {
    exists|i: int| 0 <= i < required.len() && #[trigger] required[i].prefix == prefix
}

/// The state of the route manager: the routes it keeps, and the current
/// default route.
pub struct RouteManagerCore {
    required: Vec<RequiredRoute>,
    default_node: Option<Node>,
}

impl RouteManagerCore {
    pub closed spec fn required_spec(&self) -> Seq<RequiredRoute> {
        self.required@
    }

    pub closed spec fn default_spec(&self) -> Option<Node> {
        self.default_node
    }

    /// At most one required route per destination.
    pub open spec fn wf(&self) -> bool {
        prefixes_distinct(self.required_spec())
    }

    /// The routes that the manager has put in the table.
    pub open spec fn applied_view(&self) -> Seq<AppliedRoute> {
        applied_spec(self.required_spec(), self.default_spec())
    }

    /// A manager that keeps no route yet, with the current default route.
    pub fn new(default_node: Option<Node>) -> (r: RouteManagerCore)
        ensures
            r.wf(),
            r.required_spec() == Seq::<RequiredRoute>::empty(),
            r.default_spec() == default_node,
    {
        RouteManagerCore { required: Vec::new(), default_node }
    }

    /// The routes that the manager has put in the table.
    pub fn applied_routes(&self) -> (r: Vec<AppliedRoute>)
        ensures
            r@ == self.applied_view(),
    {
        let mut r: Vec<AppliedRoute> = Vec::new();
        let mut i: usize = 0;
        while i < self.required.len()
            invariant
                i <= self.required@.len(),
                r@ == applied_spec(self.required@.take(i as int), self.default_node),
            decreases self.required.len() - i,
        {
            let route = self.required[i];
            assert(self.required@.take(i + 1).drop_last() =~= self.required@.take(i as int));
            match applied_route(route, self.default_node) {
                Some(a) => r.push(a),
                None => {},
            }
            i = i + 1;
        }
        assert(self.required@.take(i as int) =~= self.required@);
        r
    }
}

fn applied_route(route: RequiredRoute, default: Option<Node>) -> (r: Option<AppliedRoute>)
    ensures
        r == applied_of(route, default),
{
    match route.node {
        NetNode::RealNode(node) => Some(AppliedRoute { prefix: route.prefix, gateway: node }),
        NetNode::DefaultNode => match default {
            Some(node) => Some(AppliedRoute { prefix: route.prefix, gateway: node }),
            None => None,
        },
    }
}

/// The required routes after adding `routes` in turn to `required`; a
/// route whose destination is already kept is left out.
pub open spec fn add_all(required: Seq<RequiredRoute>, routes: Seq<RequiredRoute>) -> Seq<
    RequiredRoute,
>
    decreases routes.len(),
{
    if routes.len() == 0 {
        required
    } else {
        let before = add_all(required, routes.drop_last());
        if has_prefix(before, routes.last().prefix) {
            before
        } else {
            before.push(routes.last())
        }
    }
}

pub open spec fn add_op(a: AppliedRoute) -> RouteOp {
    RouteOp::Add(a)
}

pub open spec fn delete_op(a: AppliedRoute) -> RouteOp {
    RouteOp::Delete(a)
}

/// What a change of the default route from `old` to `new` does to the
/// route in the table for `route`: a default-tracking route is changed in
/// place, added, or deleted; any other route is left alone.
pub open spec fn default_op(route: RequiredRoute, old: Option<Node>, new: Option<Node>) -> Option<
    RouteOp,
> {
    match route.node {
        NetNode::RealNode(_) => None,
        NetNode::DefaultNode => match (old, new) {
            (Some(_), Some(n)) => Some(
                RouteOp::Replace(AppliedRoute { prefix: route.prefix, gateway: n }),
            ),
            (None, Some(n)) => Some(RouteOp::Add(AppliedRoute { prefix: route.prefix, gateway: n })),
            (Some(o), None) => Some(
                RouteOp::Delete(AppliedRoute { prefix: route.prefix, gateway: o }),
            ),
            (None, None) => None,
        },
    }
}

pub open spec fn default_ops(required: Seq<RequiredRoute>, old: Option<Node>, new: Option<Node>) -> Seq<
    RouteOp,
>
    decreases required.len(),
{
    if required.len() == 0 {
        Seq::empty()
    } else {
        let rest = default_ops(required.drop_last(), old, new);
        match default_op(required.last(), old, new) {
            Some(op) => rest.push(op),
            None => rest,
        }
    }
}

fn contains_prefix(required: &Vec<RequiredRoute>, prefix: IpPrefix) -> (r: bool)
    ensures
        r == has_prefix(required@, prefix),
{
    let mut i: usize = 0;
    while i < required.len()
        invariant
            i <= required@.len(),
            forall|k: int| 0 <= k < i ==> #[trigger] required@[k].prefix != prefix,
        decreases required.len() - i,
    {
        if required[i].prefix == prefix {
            return true;
        }
        i = i + 1;
    }
    false
}

proof fn lemma_applied_push(required: Seq<RequiredRoute>, route: RequiredRoute, n: int, default: Option<Node>)
    requires
        0 <= n <= required.len(),
    ensures
        applied_spec(required.push(route).skip(n), default) == match applied_of(route, default) {
            Some(a) => applied_spec(required.skip(n), default).push(a),
            None => applied_spec(required.skip(n), default),
        },
{
    assert(required.push(route).skip(n).drop_last() =~= required.skip(n));
    assert(required.push(route).skip(n).last() == route);
}

impl RouteManagerCore {
    /// Adds `routes` to the kept routes; a route for a destination that is
    /// already kept is left out. The operations add to the table exactly the
    /// routes of the new required routes.
    pub fn add_routes(&mut self, routes: Vec<RequiredRoute>) -> (ops: Vec<RouteOp>)
        requires
            old(self).wf(),
        ensures
            final(self).wf(),
            final(self).required_spec() == add_all(old(self).required_spec(), routes@),
            final(self).required_spec().take(old(self).required_spec().len() as int) == old(
                self,
            ).required_spec(),
            final(self).default_spec() == old(self).default_spec(),
            ops@ == ops_of(
                applied_spec(
                    final(self).required_spec().skip(old(self).required_spec().len() as int),
                    old(self).default_spec(),
                ),
                |a: AppliedRoute| add_op(a),
            ),
    {
        let ghost start = self.required@;
        let ghost n = start.len() as int;
        let mut ops: Vec<RouteOp> = Vec::new();
        let mut i: usize = 0;
        assert(start.skip(n) =~= Seq::<RequiredRoute>::empty());
        assert(routes@.take(0) =~= Seq::<RequiredRoute>::empty());
        while i < routes.len()
            invariant
                i <= routes@.len(),
                n == start.len(),
                self.required@ == add_all(start, routes@.take(i as int)),
                self.required@.len() >= n,
                self.required@.take(n) == start,
                prefixes_distinct(self.required@),
                self.default_node == old(self).default_node,
                ops@ == ops_of(
                    applied_spec(self.required@.skip(n), self.default_node),
                    |a: AppliedRoute| add_op(a),
                ),
            decreases routes.len() - i,
        {
            let route = routes[i];
            assert(routes@.take(i + 1).drop_last() =~= routes@.take(i as int));
            assert(routes@.take(i + 1).last() == route);
            if !contains_prefix(&self.required, route.prefix) {
                proof {
                    lemma_applied_push(self.required@, route, n, self.default_node);
                }
                let ghost before = self.required@;
                self.required.push(route);
                assert(self.required@.take(n) =~= before.take(n));
                match applied_route(route, self.default_node) {
                    Some(a) => {
                        ops.push(RouteOp::Add(a));
                        assert(ops@ =~= ops_of(
                            applied_spec(self.required@.skip(n), self.default_node),
                            |a: AppliedRoute| add_op(a),
                        ));
                    },
                    None => {},
                }
            }
            i = i + 1;
        }
        assert(routes@.take(i as int) =~= routes@);
        ops
    }

    /// Removes every route the manager put in the table, and forgets all
    /// required routes.
    pub fn clear_routes(&mut self) -> (ops: Vec<RouteOp>)
        ensures
            final(self).wf(),
            final(self).required_spec() == Seq::<RequiredRoute>::empty(),
            final(self).default_spec() == old(self).default_spec(),
            final(self).applied_view() == Seq::<AppliedRoute>::empty(),
            ops@ == ops_of(old(self).applied_view(), |a: AppliedRoute| delete_op(a)),
    {
        let applied = self.applied_routes();
        let mut ops: Vec<RouteOp> = Vec::new();
        let mut i: usize = 0;
        while i < applied.len()
            invariant
                i <= applied@.len(),
                ops@ == ops_of(applied@.take(i as int), |a: AppliedRoute| delete_op(a)),
            decreases applied.len() - i,
        {
            ops.push(RouteOp::Delete(applied[i]));
            assert(ops@ =~= ops_of(applied@.take(i + 1), |a: AppliedRoute| delete_op(a)));
            i = i + 1;
        }
        assert(applied@.take(i as int) =~= applied@);
        self.required = Vec::new();
        ops
    }

    /// The system's default route changed to `new_default`. Each
    /// default-tracking route follows it; no other route is touched.
    pub fn default_route_changed(&mut self, new_default: Option<Node>) -> (ops: Vec<RouteOp>)
        ensures
            final(self).required_spec() == old(self).required_spec(),
            final(self).default_spec() == new_default,
            ops@ == default_ops(old(self).required_spec(), old(self).default_spec(), new_default),
    {
        let mut ops: Vec<RouteOp> = Vec::new();
        let mut i: usize = 0;
        while i < self.required.len()
            invariant
                i <= self.required@.len(),
                ops@ == default_ops(self.required@.take(i as int), self.default_node, new_default),
            decreases self.required.len() - i,
        {
            let route = self.required[i];
            assert(self.required@.take(i + 1).drop_last() =~= self.required@.take(i as int));
            assert(self.required@.take(i + 1).last() == route);
            match route.node {
                NetNode::RealNode(_) => {},
                NetNode::DefaultNode => match (self.default_node, new_default) {
                    (Some(_), Some(n)) => ops.push(
                        RouteOp::Replace(AppliedRoute { prefix: route.prefix, gateway: n }),
                    ),
                    (None, Some(n)) => ops.push(
                        RouteOp::Add(AppliedRoute { prefix: route.prefix, gateway: n }),
                    ),
                    (Some(o), None) => ops.push(
                        RouteOp::Delete(AppliedRoute { prefix: route.prefix, gateway: o }),
                    ),
                    (None, None) => {},
                },
            }
            i = i + 1;
        }
        assert(self.required@.take(i as int) =~= self.required@);
        self.default_node = new_default;
        ops
    }
}

/// The system table after `op`. A replace leaves one route to the
/// destination: the new one.
pub open spec fn apply_op(table: Set<AppliedRoute>, op: RouteOp) -> Set<AppliedRoute> {
    match op {
        RouteOp::Add(a) => table.insert(a),
        RouteOp::Delete(a) => table.remove(a),
        RouteOp::Replace(a) => table.filter(|x: AppliedRoute| x.prefix != a.prefix).insert(a),
    }
}

/// The system table after the operations `ops`, in order.
pub open spec fn apply_ops(table: Set<AppliedRoute>, ops: Seq<RouteOp>) -> Set<AppliedRoute>
    decreases ops.len(),
{
    if ops.len() == 0 {
        table
    } else {
        apply_op(apply_ops(table, ops.drop_last()), ops.last())
    }
}

proof fn lemma_to_set_drop_last(s: Seq<AppliedRoute>)
    requires
        s.len() > 0,
    ensures
        forall|x: AppliedRoute| #[trigger] s.to_set().contains(x) <==> (s.drop_last().to_set().contains(x)
            || x == s.last()),
{
    assert forall|x: AppliedRoute| #[trigger] s.to_set().contains(x) <==> (s.drop_last().to_set().contains(x)
        || x == s.last()) by {
        if s.to_set().contains(x) {
            let k = choose|k: int| 0 <= k < s.len() && s[k] == x;
            if k < s.len() - 1 {
                assert(s.drop_last()[k] == x);
            }
        }
        if s.drop_last().to_set().contains(x) {
            let k = choose|k: int| 0 <= k < s.drop_last().len() && s.drop_last()[k] == x;
            assert(s[k] == x);
        }
        if x == s.last() {
            assert(s[s.len() - 1] == x);
        }
    }
}

proof fn lemma_apply_adds(table: Set<AppliedRoute>, added: Seq<AppliedRoute>)
    ensures
        apply_ops(table, ops_of(added, |a: AppliedRoute| add_op(a))) == table.union(
            added.to_set(),
        ),
    decreases added.len(),
{
    let ops = ops_of(added, |a: AppliedRoute| add_op(a));
    if added.len() == 0 {
        assert(table.union(added.to_set()) =~= table);
    } else {
        lemma_apply_adds(table, added.drop_last());
        assert(ops.drop_last() =~= ops_of(added.drop_last(), |a: AppliedRoute| add_op(a)));
        lemma_to_set_drop_last(added);
        assert(table.union(added.to_set()) =~= table.union(added.drop_last().to_set()).insert(
            added.last(),
        ));
    }
}

proof fn lemma_apply_deletes(table: Set<AppliedRoute>, removed: Seq<AppliedRoute>)
    ensures
        apply_ops(table, ops_of(removed, |a: AppliedRoute| delete_op(a))) == table.difference(
            removed.to_set(),
        ),
    decreases removed.len(),
{
    let ops = ops_of(removed, |a: AppliedRoute| delete_op(a));
    if removed.len() == 0 {
        assert(table.difference(removed.to_set()) =~= table);
    } else {
        lemma_apply_deletes(table, removed.drop_last());
        assert(ops.drop_last() =~= ops_of(removed.drop_last(), |a: AppliedRoute| delete_op(a)));
        lemma_to_set_drop_last(removed);
        assert(table.difference(removed.to_set()) =~= table.difference(
            removed.drop_last().to_set(),
        ).remove(removed.last()));
    }
}

proof fn lemma_applied_split(required: Seq<RequiredRoute>, n: int, default: Option<Node>)
    requires
        0 <= n <= required.len(),
    ensures
        applied_spec(required, default) == applied_spec(required.take(n), default) + applied_spec(
            required.skip(n),
            default,
        ),
    decreases required.len(),
{
    if n == required.len() {
        assert(required.take(n) =~= required);
        assert(required.skip(n) =~= Seq::<RequiredRoute>::empty());
        assert(applied_spec(required, default) + Seq::<AppliedRoute>::empty() =~= applied_spec(
            required,
            default,
        ));
    } else {
        lemma_applied_split(required.drop_last(), n, default);
        assert(required.drop_last().take(n) =~= required.take(n));
        assert(required.skip(n).drop_last() =~= required.drop_last().skip(n));
        assert(required.skip(n).last() == required.last());
        let a = applied_spec(required.take(n), default);
        let b = applied_spec(required.drop_last().skip(n), default);
        match applied_of(required.last(), default) {
            Some(x) => {
                assert((a + b).push(x) =~= a + b.push(x));
            },
            None => {},
        }
    }
}

/// Routes added on top of a table leave it holding what it held before and
/// the routes the manager now keeps: where the table held `before` and the
/// routes of `required.take(n)`, the operations of an `add_routes` that
/// grew the kept routes to `required` make it hold `before` and the routes of
/// `required`.
pub proof fn lemma_add_routes_extends_table(
    before: Set<AppliedRoute>,
    required: Seq<RequiredRoute>,
    n: int,
    default: Option<Node>,
)
    requires
        0 <= n <= required.len(),
    ensures
        apply_ops(
            before.union(applied_spec(required.take(n), default).to_set()),
            ops_of(applied_spec(required.skip(n), default), |a: AppliedRoute| add_op(a)),
        ) == before.union(applied_spec(required, default).to_set()),
{
    let a = applied_spec(required.take(n), default);
    let b = applied_spec(required.skip(n), default);
    lemma_apply_adds(before.union(a.to_set()), b);
    lemma_applied_split(required, n, default);
    assert((a + b).to_set() =~= a.to_set().union(b.to_set())) by {
        assert forall|x: AppliedRoute| (a + b).to_set().contains(x) <==> (a.to_set().contains(x) || b.to_set().contains(x)) by {
            if (a + b).to_set().contains(x) {
                let k = choose|k: int| 0 <= k < (a + b).len() && (a + b)[k] == x;
                if k < a.len() {
                    assert(a[k] == x);
                } else {
                    assert(b[k - a.len()] == x);
                }
            }
            if a.to_set().contains(x) {
                let k = choose|k: int| 0 <= k < a.len() && a[k] == x;
                assert((a + b)[k] == x);
            }
            if b.to_set().contains(x) {
                let k = choose|k: int| 0 <= k < b.len() && b[k] == x;
                assert((a + b)[k + a.len()] == x);
            }
        }
    }
    assert(before.union(a.to_set()).union(b.to_set()) =~= before.union((a + b).to_set()));
}

/// Clearing restores the table: where it held `before`, which holds none of
/// the manager's routes, and the routes the manager applied, the operations
/// of `clear_routes` leave exactly `before`.
pub proof fn lemma_clear_routes_restores_table(
    before: Set<AppliedRoute>,
    required: Seq<RequiredRoute>,
    default: Option<Node>,
)
    requires
        forall|a: AppliedRoute| #[trigger] applied_spec(required, default).to_set().contains(a) ==> !before.contains(a),
    ensures
        apply_ops(
            before.union(applied_spec(required, default).to_set()),
            ops_of(applied_spec(required, default), |a: AppliedRoute| delete_op(a)),
        ) == before,
        applied_spec(Seq::<RequiredRoute>::empty(), default) == Seq::<AppliedRoute>::empty(),
{
    let s = applied_spec(required, default).to_set();
    lemma_apply_deletes(before.union(s), applied_spec(required, default));
    assert(before.union(s).difference(s) =~= before);
}

/// Whether the kept routes `b` grew from `a` by additions only.
pub open spec fn extends(a: Seq<RequiredRoute>, b: Seq<RequiredRoute>) -> bool {
    a.len() <= b.len() && b.take(a.len() as int) == a
}

/// The system table after the operations of the additions that took the
/// kept routes through `stages` in turn, from `before`.
pub open spec fn table_after_adds(
    before: Set<AppliedRoute>,
    stages: Seq<Seq<RequiredRoute>>,
    default: Option<Node>,
) -> Set<AppliedRoute>
    decreases stages.len(),
{
    if stages.len() <= 1 {
        before
    } else {
        let prev = stages.drop_last();
        apply_ops(
            table_after_adds(before, prev, default),
            ops_of(
                applied_spec(stages.last().skip(prev.last().len() as int), default),
                |a: AppliedRoute| add_op(a),
            ),
        )
    }
}

pub open spec fn additions_only(stages: Seq<Seq<RequiredRoute>>) -> bool {
    &&& stages.len() >= 1
    &&& stages[0] == Seq::<RequiredRoute>::empty()
    &&& forall|i: int| 0 <= i < stages.len() - 1 ==> extends(#[trigger] stages[i], stages[i + 1])
}

proof fn lemma_table_after_adds(
    before: Set<AppliedRoute>,
    stages: Seq<Seq<RequiredRoute>>,
    default: Option<Node>,
)
    requires
        additions_only(stages),
    ensures
        table_after_adds(before, stages, default) == before.union(
            applied_spec(stages.last(), default).to_set(),
        ),
    decreases stages.len(),
{
    if stages.len() <= 1 {
        assert(applied_spec(stages.last(), default) =~= Seq::<AppliedRoute>::empty());
        assert(before.union(Seq::<AppliedRoute>::empty().to_set()) =~= before);
    } else {
        let prev = stages.drop_last();
        assert forall|i: int| 0 <= i < prev.len() - 1 implies extends(#[trigger] prev[i], prev[i + 1]) by {
            assert(prev[i] == stages[i] && prev[i + 1] == stages[i + 1]);
        }
        lemma_table_after_adds(before, prev, default);
        assert(extends(stages[stages.len() - 2], stages[stages.len() - 1]));
        let n = prev.last().len() as int;
        lemma_add_routes_extends_table(before, stages.last(), n, default);
    }
}

/// A manager made with some routes, given more routes by any number of
/// `add_routes` and then cleared, leaves the system table as it was before
/// the manager was made, where that table held none of the routes the
/// manager applied. `stages` are the kept routes after `new` and each
/// `add_routes`, starting from none.
pub proof fn lemma_routes_restored(
    before: Set<AppliedRoute>,
    stages: Seq<Seq<RequiredRoute>>,
    default: Option<Node>,
)
    requires
        additions_only(stages),
        forall|a: AppliedRoute| #[trigger] applied_spec(stages.last(), default).to_set().contains(a)
            ==> !before.contains(a),
    ensures
        apply_ops(
            table_after_adds(before, stages, default),
            ops_of(applied_spec(stages.last(), default), |a: AppliedRoute| delete_op(a)),
        ) == before,
{
    lemma_table_after_adds(before, stages, default);
    lemma_clear_routes_restores_table(before, stages.last(), default);
}

/// When the default route changes from `a` to `b`, every table operation is
/// an in-place replacement of a default-tracking route by one through `b`:
/// no route is ever deleted, and no route with a concrete next hop is
/// touched.
pub proof fn lemma_default_route_tracking(required: Seq<RequiredRoute>, a: Node, b: Node)
    ensures
        forall|k: int|
            0 <= k < default_ops(required, Some(a), Some(b)).len() ==> exists|i: int|
                0 <= i < required.len() && required[i].node == NetNode::DefaultNode
                    && #[trigger] default_ops(required, Some(a), Some(b))[k] == RouteOp::Replace(
                    AppliedRoute { prefix: required[i].prefix, gateway: b },
                ),
    decreases required.len(),
{
    if required.len() > 0 {
        let rest = required.drop_last();
        lemma_default_route_tracking(rest, a, b);
        let ops = default_ops(required, Some(a), Some(b));
        assert forall|k: int| 0 <= k < ops.len() implies exists|i: int|
            0 <= i < required.len() && required[i].node == NetNode::DefaultNode
                && #[trigger] ops[k] == RouteOp::Replace(
                AppliedRoute { prefix: required[i].prefix, gateway: b },
            ) by {
            let prev = default_ops(rest, Some(a), Some(b));
            if k < prev.len() {
                assert(ops[k] == prev[k]);
                let i = choose|i: int|
                    0 <= i < rest.len() && rest[i].node == NetNode::DefaultNode
                        && #[trigger] prev[k] == RouteOp::Replace(
                        AppliedRoute { prefix: rest[i].prefix, gateway: b },
                    );
                assert(required[i] == rest[i]);
            } else {
                assert(required[required.len() - 1] == required.last());
            }
        }
    }
}

/// The result of a command whose reply came back as `reply`: `None` where
/// the reply channel closed, which counts as done.
pub fn reply_to_result(reply: Option<Result<(), String>>) -> (r: Result<(), Error>)
    ensures
        match reply {
            Some(Ok(())) => r == Ok::<(), Error>(()),
            Some(Err(e)) => r == Err::<(), Error>(Error::PlatformError(e)),
            None => r == Ok::<(), Error>(()),
        },
{
    match reply {
        Some(Ok(())) => Ok(()),
        Some(Err(e)) => Err(Error::PlatformError(e)),
        None => Ok(()),
    }
}

/// The route manager: it applies a set of routes to the route table, and
/// keeps routes through the default node in step with the default route.
/// The table operations it decides on are handed back to be performed.
pub struct RouteManager {
    core: Option<RouteManagerCore>,
}

impl RouteManager {
    pub closed spec fn core_spec(&self) -> Option<RouteManagerCore> {
        self.core
    }

    pub open spec fn running(&self) -> bool {
        self.core_spec() is Some
    }

    pub open spec fn inv(&self) -> bool {
        self.running() ==> self.core_spec().unwrap().wf()
    }

    /// The routes the manager keeps in the table; none once stopped.
    pub open spec fn applied_view(&self) -> Seq<AppliedRoute> {
        match self.core_spec() {
            Some(core) => core.applied_view(),
            None => Seq::empty(),
        }
    }

    /// A manager that applies `required_routes`, given the current default
    /// route; the operations put them in the table.
    pub fn new(required_routes: Vec<RequiredRoute>, default_node: Option<Node>) -> (r: (
        RouteManager,
        Vec<RouteOp>,
    ))
        ensures
            r.0.running(),
            r.0.inv(),
            r.0.core_spec().unwrap().required_spec() == add_all(
                Seq::<RequiredRoute>::empty(),
                required_routes@,
            ),
            r.0.core_spec().unwrap().default_spec() == default_node,
            r.1@ == ops_of(r.0.applied_view(), |a: AppliedRoute| add_op(a)),
    {
        let mut core = RouteManagerCore::new(default_node);
        let ops = core.add_routes(required_routes);
        assert(core.required_spec().skip(0) =~= core.required_spec());
        (RouteManager { core: Some(core) }, ops)
    }

    /// Stops the manager and removes all the routes it applied; stopping a
    /// stopped manager does nothing.
    pub fn stop(&mut self) -> (ops: Vec<RouteOp>)
        ensures
            !final(self).running(),
            final(self).applied_view() == Seq::<AppliedRoute>::empty(),
            ops@ == ops_of(old(self).applied_view(), |a: AppliedRoute| delete_op(a)),
    {
        match self.core.take() {
            Some(mut core) => core.clear_routes(),
            None => {
                let ops: Vec<RouteOp> = Vec::new();
                assert(ops@ =~= ops_of(Seq::<AppliedRoute>::empty(), |a: AppliedRoute| delete_op(a)));
                ops
            },
        }
    }

    /// Applies `routes` as well, until the manager is stopped.
    pub fn add_routes(&mut self, routes: Vec<RequiredRoute>) -> (r: Result<Vec<RouteOp>, Error>)
        requires
            old(self).inv(),
        ensures
            final(self).inv(),
            final(self).running() == old(self).running(),
            !old(self).running() ==> r == Err::<Vec<RouteOp>, Error>(Error::RouteManagerDown),
            old(self).running() ==> r is Ok && final(self).core_spec().unwrap().required_spec()
                == add_all(old(self).core_spec().unwrap().required_spec(), routes@)
                && final(self).core_spec().unwrap().required_spec().take(
                old(self).core_spec().unwrap().required_spec().len() as int,
            ) == old(self).core_spec().unwrap().required_spec()
                && final(self).core_spec().unwrap().default_spec() == old(
                self,
            ).core_spec().unwrap().default_spec() && r.unwrap()@ == ops_of(
                applied_spec(
                    final(self).core_spec().unwrap().required_spec().skip(
                        old(self).core_spec().unwrap().required_spec().len() as int,
                    ),
                    old(self).core_spec().unwrap().default_spec(),
                ),
                |a: AppliedRoute| add_op(a),
            ),
    {
        match &mut self.core {
            Some(core) => Ok(core.add_routes(routes)),
            None => Err(Error::RouteManagerDown),
        }
    }

    /// Removes all routes applied by `new` or `add_routes`.
    pub fn clear_routes(&mut self) -> (r: Result<Vec<RouteOp>, Error>)
        ensures
            final(self).inv(),
            final(self).running() == old(self).running(),
            final(self).applied_view() == Seq::<AppliedRoute>::empty(),
            !old(self).running() ==> r == Err::<Vec<RouteOp>, Error>(Error::RouteManagerDown),
            old(self).running() ==> r is Ok && r.unwrap()@ == ops_of(
                old(self).applied_view(),
                |a: AppliedRoute| delete_op(a),
            ),
    {
        match &mut self.core {
            Some(core) => Ok(core.clear_routes()),
            None => Err(Error::RouteManagerDown),
        }
    }

    /// The system's default route changed; nothing happens once stopped.
    pub fn default_route_changed(&mut self, new_default: Option<Node>) -> (ops: Vec<RouteOp>)
        requires
            old(self).inv(),
        ensures
            final(self).inv(),
            final(self).running() == old(self).running(),
            !old(self).running() ==> ops@.len() == 0,
            old(self).running() ==> final(self).core_spec().unwrap().required_spec() == old(
                self,
            ).core_spec().unwrap().required_spec() && final(self).core_spec().unwrap().default_spec()
                == new_default && ops@ == default_ops(
                old(self).core_spec().unwrap().required_spec(),
                old(self).core_spec().unwrap().default_spec(),
                new_default,
            ),
    {
        match &mut self.core {
            Some(core) => core.default_route_changed(new_default),
            None => Vec::new(),
        }
    }

    /// Whether a command can still be given: `RouteManagerDown` once the
    /// manager is stopped.
    fn ensure_running(&self) -> (r: Result<(), Error>)
        ensures
            self.running() ==> r == Ok::<(), Error>(()),
            !self.running() ==> r == Err::<(), Error>(Error::RouteManagerDown),
    {
        match &self.core {
            Some(_) => Ok(()),
            None => Err(Error::RouteManagerDown),
        }
    }

    /// Accepts the command to route the packets of excluded processes
    /// through the physical interface.
    pub fn enable_exclusions_routes(&mut self) -> (r: Result<(), Error>)
        ensures
            *final(self) == *old(self),
            old(self).running() ==> r == Ok::<(), Error>(()),
            !old(self).running() ==> r == Err::<(), Error>(Error::RouteManagerDown),
    {
        self.ensure_running()
    }

    /// Accepts the command to stop routing the packets of excluded processes
    /// through the physical interface.
    pub fn disable_exclusions_routes(&self) -> (r: Result<(), Error>)
        ensures
            self.running() ==> r == Ok::<(), Error>(()),
            !self.running() ==> r == Err::<(), Error>(Error::RouteManagerDown),
    {
        self.ensure_running()
    }

    /// Accepts the command to route DNS requests to `dns_servers` through
    /// the tunnel interface `tunnel_alias`.
    pub fn route_exclusions_dns(&mut self, tunnel_alias: &str, dns_servers: &[IpAddress]) -> (r:
        Result<(), Error>)
        ensures
            *final(self) == *old(self),
            old(self).running() ==> r == Ok::<(), Error>(()),
            !old(self).running() ==> r == Err::<(), Error>(Error::RouteManagerDown),
    {
        self.ensure_running()
    }
}

} // verus!
