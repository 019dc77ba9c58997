//! Cost-based tile selection over the operation DAG.
//!
//! Nodes carry a placed operation: an opcode together with a location class.
//! Patterns are preorder-linearised op lists with a cost; `select` tries one
//! pattern against every subgraph root in postorder and rewrites the location
//! classes of the matched nodes when the pattern strictly lowers the
//! estimated cost of the subgraph.

use vstd::prelude::*;

verus! {

/// Operations that can appear on a DAG node or in a pattern slot.
#[derive(Clone, Copy, Debug, PartialEq, Eq, Structural)]
pub enum Op {
    Any,
    Ref,
    Add,
    Mul,
    Reg,
}

/// Location class of a node: where the node is realised physically.
/// `Equal` names another node whose macro also realises this node.
#[derive(Clone, Debug)]
pub enum Loc {
    Any,
    Gen,
    Lut,
    Dsp,
    Equal(String),
}

/// Spec-level image of `Loc`, with the fused node's name as a char sequence.
pub enum LocV {
    Any,
    Gen,
    Lut,
    Dsp,
    Equal(Seq<char>),
}

impl View for Loc {
    type V = LocV;

    open spec fn view(&self) -> LocV {
        match self {
            Loc::Any => LocV::Any,
            Loc::Gen => LocV::Gen,
            Loc::Lut => LocV::Lut,
            Loc::Dsp => LocV::Dsp,
            Loc::Equal(n) => LocV::Equal(n@),
        }
    }
}

impl PartialEq for Loc {
    fn eq(&self, other: &Loc) -> (r: bool) {
        match (self, other) {
            (Loc::Any, Loc::Any) => true,
            (Loc::Gen, Loc::Gen) => true,
            (Loc::Lut, Loc::Lut) => true,
            (Loc::Dsp, Loc::Dsp) => true,
            (Loc::Equal(a), Loc::Equal(b)) => a.eq(b),
            _ => false,
        }
    }
}

impl vstd::std_specs::cmp::PartialEqSpecImpl for Loc {
    open spec fn obeys_eq_spec() -> bool {
        true
    }

    open spec fn eq_spec(&self, other: &Loc) -> bool {
        self@ == other@
    }
}

impl Eq for Loc {}

/// An opcode placed at a location class.
#[derive(Clone, Debug)]
pub struct PlacedOp {
    pub op: Op,
    pub loc: Loc,
}

/// Spec-level image of `PlacedOp`.
pub struct PlacedOpV {
    pub op: Op,
    pub loc: LocV,
}

impl View for PlacedOp {
    type V = PlacedOpV;

    open spec fn view(&self) -> PlacedOpV {
        PlacedOpV { op: self.op, loc: self.loc@ }
    }
}

/// Cost of one operation at one location class; unlisted pairs cost nothing.
/// Negative entries mean that folding the operation into an already used
/// macro is a pure win.
pub open spec fn op_cost(op: Op, loc: LocV) -> int {
    match (op, loc) {
        (Op::Add, LocV::Gen) => 9,
        (Op::Add, LocV::Lut) => 8,
        (Op::Add, LocV::Dsp) => 2,
        (Op::Mul, LocV::Gen) => 9,
        (Op::Mul, LocV::Lut) => 8,
        (Op::Mul, LocV::Dsp) => 2,
        (Op::Reg, LocV::Lut) => -4,
        (Op::Reg, LocV::Dsp) => -1,
        (_, _) => 0,
    }
}

impl PlacedOp {
    pub fn new(op: Op, loc: Loc) -> (r: PlacedOp)
        ensures
            r.op == op,
            r.loc == loc,
    {
        PlacedOp { op, loc }
    }

    pub fn new_gen_op(op: Op) -> (r: PlacedOp)
        ensures
            r.op == op,
            r.loc is Gen,
    {
        PlacedOp { op, loc: Loc::Gen }
    }

    pub fn new_lut_op(op: Op) -> (r: PlacedOp)
        ensures
            r.op == op,
            r.loc is Lut,
    {
        PlacedOp { op, loc: Loc::Lut }
    }

    pub fn new_dsp_op(op: Op) -> (r: PlacedOp)
        ensures
            r.op == op,
            r.loc is Dsp,
    {
        PlacedOp { op, loc: Loc::Dsp }
    }

    pub fn new_any_op(op: Op) -> (r: PlacedOp)
        ensures
            r.op == op,
            r.loc is Any,
    {
        PlacedOp { op, loc: Loc::Any }
    }

    pub fn set_loc(&mut self, loc: Loc)
        ensures
            final(self).op == old(self).op,
            final(self).loc == loc,
    {
        self.loc = loc;
    }

    pub fn cost(&self) -> (c: i32)
        ensures
            c as int == op_cost(self.op, self.loc@),
    {
        match (&self.op, &self.loc) {
            (Op::Add, Loc::Gen) => 9,
            (Op::Add, Loc::Lut) => 8,
            (Op::Add, Loc::Dsp) => 2,
            (Op::Mul, Loc::Gen) => 9,
            (Op::Mul, Loc::Lut) => 8,
            (Op::Mul, Loc::Dsp) => 2,
            (Op::Reg, Loc::Lut) => -4,
            (Op::Reg, Loc::Dsp) => -1,
            (_, _) => 0,
        }
    }
}

/// A DAG vertex: a named placed operation.
#[derive(Clone, Debug)]
pub struct Node {
    pub name: String,
    pub placed_op: PlacedOp,
}

/// Spec-level image of `Node`.
pub struct NodeV {
    pub name: Seq<char>,
    pub op: Op,
    pub loc: LocV,
}

impl View for Node {
    type V = NodeV;

    open spec fn view(&self) -> NodeV {
        NodeV { name: self.name@, op: self.placed_op.op, loc: self.placed_op.loc@ }
    }
}

impl Node {
    pub fn new(name: &str, placed_op: PlacedOp) -> (r: Node)
        ensures
            r@.name == name@,
            r@.op == placed_op.op,
            r@.loc == placed_op.loc@,
    {
        Node { name: name.to_owned(), placed_op }
    }
}

/// A cost-annotated pattern: the preorder-linearised op list of one
/// instruction's semantics.
#[derive(Clone, Debug)]
pub struct Pattern {
    pub name: String,
    pub cost: i32,
    pub ops: Vec<PlacedOp>,
}

/// Spec-level image of `Pattern`.
pub struct PatternV {
    pub name: Seq<char>,
    pub cost: int,
    pub ops: Seq<PlacedOpV>,
}

impl View for Pattern {
    type V = PatternV;

    open spec fn view(&self) -> PatternV {
        PatternV {
            name: self.name@,
            cost: self.cost as int,
            ops: Seq::new(self.ops@.len(), |i: int| self.ops@[i]@),
        }
    }
}

impl Pattern {
    pub fn new(name: &str, cost: i32) -> (r: Pattern)
        ensures
            r@.name == name@,
            r@.cost == cost as int,
            r@.ops.len() == 0,
    {
        Pattern { name: name.to_owned(), cost, ops: Vec::new() }
    }

    pub fn push_op(&mut self, op: PlacedOp)
        ensures
            final(self)@.name == old(self)@.name,
            final(self)@.cost == old(self)@.cost,
            final(self)@.ops == old(self)@.ops.push(op@),
    {
        self.ops.push(op);
        proof {
            assert(final(self)@.ops =~= old(self)@.ops.push(op@));
        }
    }
}

/// The fused multiply-add pattern: an add whose left operand is a multiply,
/// all five slots placed on the DSP macro.
pub fn pat_dsp_muladd() -> (r: Pattern)
    ensures
        r@.name == "dsp_muladd"@,
        r@.cost == 1,
        r@.ops.len() == 5,
        r@.ops[0].op == Op::Add,
        r@.ops[1].op == Op::Mul,
        r@.ops[2].op == Op::Any,
        r@.ops[3].op == Op::Any,
        r@.ops[4].op == Op::Any,
        forall|k: int| 0 <= k < 5 ==> (#[trigger] r@.ops[k].loc) is Dsp,
{
    let mut pat = Pattern::new("dsp_muladd", 1);
    pat.push_op(PlacedOp::new_dsp_op(Op::Add));
    pat.push_op(PlacedOp::new_dsp_op(Op::Mul));
    pat.push_op(PlacedOp::new_dsp_op(Op::Any));
    pat.push_op(PlacedOp::new_dsp_op(Op::Any));
    pat.push_op(PlacedOp::new_dsp_op(Op::Any));
    pat
}

/// A lone multiply placed on the DSP macro.
pub fn pat_dsp_mul() -> (r: Pattern)
    ensures
        r@.name == "dsp_mul"@,
        r@.cost == 4,
        r@.ops.len() == 3,
        r@.ops[0].op == Op::Mul,
        r@.ops[1].op == Op::Any,
        r@.ops[2].op == Op::Any,
        forall|k: int| 0 <= k < 3 ==> (#[trigger] r@.ops[k].loc) is Dsp,
{
    let mut pat = Pattern::new("dsp_mul", 4);
    pat.push_op(PlacedOp::new_dsp_op(Op::Mul));
    pat.push_op(PlacedOp::new_dsp_op(Op::Any));
    pat.push_op(PlacedOp::new_dsp_op(Op::Any));
    pat
}

/// A lone add placed on the DSP macro.
pub fn pat_dsp_add() -> (r: Pattern)
    ensures
        r@.name == "dsp_add"@,
        r@.cost == 4,
        r@.ops.len() == 3,
        r@.ops[0].op == Op::Add,
        r@.ops[1].op == Op::Any,
        r@.ops[2].op == Op::Any,
        forall|k: int| 0 <= k < 3 ==> (#[trigger] r@.ops[k].loc) is Dsp,
{
    let mut pat = Pattern::new("dsp_add", 4);
    pat.push_op(PlacedOp::new_dsp_op(Op::Add));
    pat.push_op(PlacedOp::new_dsp_op(Op::Any));
    pat.push_op(PlacedOp::new_dsp_op(Op::Any));
    pat
}

/// Duplicate of a location class; the copy has the same view.
fn loc_dup(l: &Loc) -> (r: Loc)
    ensures
        r@ == l@,
{
    match l {
        Loc::Any => Loc::Any,
        Loc::Gen => Loc::Gen,
        Loc::Lut => Loc::Lut,
        Loc::Dsp => Loc::Dsp,
        Loc::Equal(n) => Loc::Equal(n.clone()),
    }
}

/// Spec-level image of the whole DAG: node images plus, for each node, the
/// indices of its operand nodes.
pub struct DagV {
    pub nodes: Seq<NodeV>,
    pub children: Seq<Seq<usize>>,
}

impl DagV {
    /// Well-formed DAG: one child list per node, every edge goes to a
    /// strictly smaller index (operands are created before their users),
    /// and the node count stays below a fixed machine bound so that cost
    /// sums fit in an `i32`.
    pub open spec fn wf(self) -> bool {
        &&& self.children.len() == self.nodes.len()
        &&& self.nodes.len() <= 0x100000
        &&& forall|i: int, j: int|
            0 <= i < self.children.len() && 0 <= j < self.children[i].len()
                ==> (#[trigger] self.children[i][j]) < i
    }
}

/// The operation DAG: one node per IR instruction, edges from a node to its
/// operands, held as an index arena.
pub struct Dag {
    pub nodes: Vec<Node>,
    pub children: Vec<Vec<usize>>,
}

impl View for Dag {
    type V = DagV;

    open spec fn view(&self) -> DagV {
        DagV {
            nodes: Seq::new(self.nodes@.len(), |i: int| self.nodes@[i]@),
            children: Seq::new(self.children@.len(), |i: int| self.children@[i]@),
        }
    }
}

/// Set of indices marked true in a visited vector.
pub open spec fn bool_set(v: Seq<bool>) -> Set<usize> {
    Set::new(|i: usize| (i as int) < v.len() && v[i as int])
}

/// Preorder walk of the subgraph rooted at `n`, skipping nodes in `vis`:
/// the node itself, then each operand subtree in declared order. This is
/// the walk the selector performs, and the walk patterns are linearised by.
pub open spec fn dfs_node(d: DagV, n: usize, vis: Set<usize>) -> Seq<usize>
    decreases n, d.children[n as int].len() + 1,
{
    if !(d.wf() && (n as int) < d.nodes.len()) {
        Seq::empty()
    } else if vis.contains(n) {
        Seq::empty()
    } else {
        seq![n] + dfs_kids(d, n, 0, vis.insert(n))
    }
}

/// Preorder walk of the operand subtrees of `n`, from child `i` on.
pub open spec fn dfs_kids(d: DagV, n: usize, i: int, vis: Set<usize>) -> Seq<usize>
    decreases n, d.children[n as int].len() - i,
{
    if !(d.wf() && (n as int) < d.nodes.len() && 0 <= i < d.children[n as int].len()) {
        Seq::empty()
    } else {
        let c = d.children[n as int][i];
        let s = dfs_node(d, c, vis);
        s + dfs_kids(d, n, i + 1, vis.union(s.to_set()))
    }
}

/// Postorder walk of the subgraph rooted at `n`: operand subtrees first,
/// then the node. Tile roots are tried in this order.
pub open spec fn post_node(d: DagV, n: usize, vis: Set<usize>) -> Seq<usize>
    decreases n, d.children[n as int].len() + 1,
{
    if !(d.wf() && (n as int) < d.nodes.len()) {
        Seq::empty()
    } else if vis.contains(n) {
        Seq::empty()
    } else {
        post_kids(d, n, 0, vis.insert(n)) + seq![n]
    }
}

/// Postorder walk of the operand subtrees of `n`, from child `i` on.
pub open spec fn post_kids(d: DagV, n: usize, i: int, vis: Set<usize>) -> Seq<usize>
    decreases n, d.children[n as int].len() - i,
{
    if !(d.wf() && (n as int) < d.nodes.len() && 0 <= i < d.children[n as int].len()) {
        Seq::empty()
    } else {
        let c = d.children[n as int][i];
        let s = post_node(d, c, vis);
        s + post_kids(d, n, i + 1, vis.union(s.to_set()))
    }
}

/// The set of elements of a concatenation is the union of the parts' sets.
proof fn lemma_concat_to_set(a: Seq<usize>, b: Seq<usize>)
    ensures
        (a + b).to_set() == a.to_set().union(b.to_set()),
{
    assert forall|x: usize| #[trigger]
        (a + b).to_set().contains(x) <==> a.to_set().contains(x) || b.to_set().contains(
        x,
    ) by {
        if a.contains(x) {
            let i = choose|i: int| 0 <= i < a.len() && a[i] == x;
            assert((a + b)[i] == x);
        }
        if b.contains(x) {
            let i = choose|i: int| 0 <= i < b.len() && b[i] == x;
            assert((a + b)[a.len() + i] == x);
        }
        if (a + b).contains(x) {
            let i = choose|i: int| 0 <= i < (a + b).len() && (a + b)[i] == x;
            if i < a.len() {
                assert(a[i] == x);
            } else {
                assert(b[i - a.len()] == x);
            }
        }
    }
    assert((a + b).to_set() =~= a.to_set().union(b.to_set()));
}

/// The set of elements of a singleton sequence.
proof fn lemma_singleton_to_set(n: usize)
    ensures
        seq![n].to_set() == Set::<usize>::empty().insert(n),
{
    assert forall|x: usize| #[trigger]
        seq![n].to_set().contains(x) <==> x == n by {
        if x == n {
            assert(seq![n][0] == x);
        }
    }
    assert(seq![n].to_set() =~= Set::<usize>::empty().insert(n));
}

/// A duplicate-free sequence of indices below `n` has at most `n` entries.
proof fn lemma_distinct_bounded(s: Seq<usize>, n: nat)
    requires
        s.no_duplicates(),
        forall|k: int| 0 <= k < s.len() ==> (#[trigger] s[k] as nat) < n,
    ensures
        s.len() <= n,
{
    let t = s.map_values(|x: usize| x as int);
    assert forall|i: int, j: int| 0 <= i < t.len() && 0 <= j < t.len() && i != j implies t[i]
        != t[j] by {
        assert(s[i] != s[j]);
    }
    t.unique_seq_to_set();
    let r = vstd::set_lib::set_int_range(0, n as int);
    assert(t.to_set().subset_of(r)) by {
        assert forall|x: int| t.to_set().contains(x) implies r.contains(x) by {
            let k = choose|k: int| 0 <= k < t.len() && t[k] == x;
            assert((s[k] as nat) < n);
        }
    }
    vstd::set_lib::lemma_int_range(0, n as int);
    vstd::set_lib::lemma_len_subset(t.to_set(), r);
}

/// Every index a preorder walk yields is a valid node outside `vis`, no
/// index is yielded twice, and a walk from an unvisited root starts at it.
pub proof fn lemma_dfs_props(d: DagV, n: usize, vis: Set<usize>)
    ensures
        ({
            let s = dfs_node(d, n, vis);
            &&& forall|k: int|
                0 <= k < s.len() ==> ((#[trigger] s[k] as int) < d.nodes.len() && !vis.contains(
                    s[k],
                ))
            &&& s.no_duplicates()
            &&& (d.wf() && (n as int) < d.nodes.len() && !vis.contains(n)) ==> s.len() >= 1 && s[0]
                == n
            &&& !(d.wf() && (n as int) < d.nodes.len() && !vis.contains(n)) ==> s.len() == 0
        }),
    decreases n, d.children[n as int].len() + 1,
{
    if d.wf() && (n as int) < d.nodes.len() && !vis.contains(n) {
        let kids = dfs_kids(d, n, 0, vis.insert(n));
        lemma_dfs_kids_props(d, n, 0, vis.insert(n));
        let s = dfs_node(d, n, vis);
        assert(s == seq![n] + kids);
        assert forall|p: int, q: int|
            0 <= p < s.len() && 0 <= q < s.len() && p != q implies s[p] != s[q] by {
            if p == 0 {
                assert(!vis.insert(n).contains(kids[q - 1]));
            } else if q == 0 {
                assert(!vis.insert(n).contains(kids[p - 1]));
            } else {
                assert(kids[p - 1] != kids[q - 1]);
            }
        }
    }
}

/// Walks of the operand subtrees share the properties of `lemma_dfs_props`.
pub proof fn lemma_dfs_kids_props(d: DagV, n: usize, i: int, vis: Set<usize>)
    ensures
        ({
            let s = dfs_kids(d, n, i, vis);
            &&& forall|k: int|
                0 <= k < s.len() ==> ((#[trigger] s[k] as int) < d.nodes.len() && !vis.contains(
                    s[k],
                ))
            &&& s.no_duplicates()
        }),
    decreases n, d.children[n as int].len() - i,
{
    if d.wf() && (n as int) < d.nodes.len() && 0 <= i < d.children[n as int].len() {
        let c = d.children[n as int][i];
        let s1 = dfs_node(d, c, vis);
        lemma_dfs_props(d, c, vis);
        let vis2 = vis.union(s1.to_set());
        let s2 = dfs_kids(d, n, i + 1, vis2);
        lemma_dfs_kids_props(d, n, i + 1, vis2);
        let s = dfs_kids(d, n, i, vis);
        assert(s == s1 + s2);
        assert forall|p: int, q: int|
            0 <= p < s.len() && 0 <= q < s.len() && p != q implies s[p] != s[q] by {
            if p < s1.len() && q >= s1.len() {
                assert(s1.to_set().contains(s1[p]));
                assert(!vis2.contains(s2[q - s1.len()]));
            } else if q < s1.len() && p >= s1.len() {
                assert(s1.to_set().contains(s1[q]));
                assert(!vis2.contains(s2[p - s1.len()]));
            }
        }
    }
}

/// The postorder analogue of `lemma_dfs_props`.
pub proof fn lemma_post_props(d: DagV, n: usize, vis: Set<usize>)
    ensures
        ({
            let s = post_node(d, n, vis);
            &&& forall|k: int|
                0 <= k < s.len() ==> ((#[trigger] s[k] as int) < d.nodes.len() && !vis.contains(
                    s[k],
                ))
            &&& s.no_duplicates()
        }),
    decreases n, d.children[n as int].len() + 1,
{
    if d.wf() && (n as int) < d.nodes.len() && !vis.contains(n) {
        let kids = post_kids(d, n, 0, vis.insert(n));
        lemma_post_kids_props(d, n, 0, vis.insert(n));
        let s = post_node(d, n, vis);
        assert(s == kids + seq![n]);
        assert forall|p: int, q: int|
            0 <= p < s.len() && 0 <= q < s.len() && p != q implies s[p] != s[q] by {
            if p == s.len() - 1 {
                assert(!vis.insert(n).contains(kids[q]));
            } else if q == s.len() - 1 {
                assert(!vis.insert(n).contains(kids[p]));
            } else {
                assert(kids[p] != kids[q]);
            }
        }
    }
}

/// The postorder analogue of `lemma_dfs_kids_props`.
pub proof fn lemma_post_kids_props(d: DagV, n: usize, i: int, vis: Set<usize>)
    ensures
        ({
            let s = post_kids(d, n, i, vis);
            &&& forall|k: int|
                0 <= k < s.len() ==> ((#[trigger] s[k] as int) < d.nodes.len() && !vis.contains(
                    s[k],
                ))
            &&& s.no_duplicates()
        }),
    decreases n, d.children[n as int].len() - i,
{
    if d.wf() && (n as int) < d.nodes.len() && 0 <= i < d.children[n as int].len() {
        let c = d.children[n as int][i];
        let s1 = post_node(d, c, vis);
        lemma_post_props(d, c, vis);
        let vis2 = vis.union(s1.to_set());
        let s2 = post_kids(d, n, i + 1, vis2);
        lemma_post_kids_props(d, n, i + 1, vis2);
        let s = post_kids(d, n, i, vis);
        assert(s == s1 + s2);
        assert forall|p: int, q: int|
            0 <= p < s.len() && 0 <= q < s.len() && p != q implies s[p] != s[q] by {
            if p < s1.len() && q >= s1.len() {
                assert(s1.to_set().contains(s1[p]));
                assert(!vis2.contains(s2[q - s1.len()]));
            } else if q < s1.len() && p >= s1.len() {
                assert(s1.to_set().contains(s1[q]));
                assert(!vis2.contains(s2[p - s1.len()]));
            }
        }
    }
}

impl Dag {
    /// An empty DAG.
    pub fn new() -> (r: Dag)
        ensures
            r@.wf(),
            r@.nodes.len() == 0,
    {
        Dag { nodes: Vec::new(), children: Vec::new() }
    }

    /// Adds a node and returns its index. Nodes are never removed.
    pub fn add_node(&mut self, node: Node) -> (ix: usize)
        requires
            old(self)@.wf(),
            old(self)@.nodes.len() < 0x100000,
        ensures
            final(self)@.wf(),
            ix == old(self)@.nodes.len(),
            final(self)@.nodes == old(self)@.nodes.push(node@),
            final(self)@.children == old(self)@.children.push(Seq::<usize>::empty()),
    {
        let ix = self.nodes.len();
        self.nodes.push(node);
        self.children.push(Vec::new());
        proof {
            assert(final(self)@.nodes =~= old(self)@.nodes.push(node@));
            assert(final(self)@.children =~= old(self)@.children.push(Seq::<usize>::empty()));
        }
        ix
    }

    /// Adds an edge from a node to one of its operands. Operands stand at
    /// smaller indices, which keeps the graph acyclic.
    pub fn add_edge(&mut self, src: usize, dst: usize)
        requires
            old(self)@.wf(),
            (src as int) < old(self)@.nodes.len(),
            dst < src,
        ensures
            final(self)@.wf(),
            final(self)@.nodes == old(self)@.nodes,
            final(self)@.children == old(self)@.children.update(
                src as int,
                old(self)@.children[src as int].push(dst),
            ),
    {
        let ghost before = self@.children;
        let kids = &mut self.children[src];
        kids.push(dst);
        proof {
            assert(final(self)@.nodes =~= old(self)@.nodes);
            assert(final(self)@.children =~= before.update(
                src as int,
                before[src as int].push(dst),
            ));
        }
    }

    /// Preorder walk collector: appends the walk of `n` to `out` and marks
    /// the walked nodes.
    fn dfs_rec(&self, n: usize, visited: &mut Vec<bool>, out: &mut Vec<usize>)
        requires
            self@.wf(),
            (n as int) < self@.nodes.len(),
            old(visited)@.len() == self@.nodes.len(),
        ensures
            final(visited)@.len() == old(visited)@.len(),
            final(out)@ == old(out)@ + dfs_node(self@, n, bool_set(old(visited)@)),
            bool_set(final(visited)@) == bool_set(old(visited)@).union(
                dfs_node(self@, n, bool_set(old(visited)@)).to_set(),
            ),
        decreases n,
    {
        let ghost d = self@;
        let ghost vis0 = bool_set(old(visited)@);
        let ghost base = old(out)@;
        if visited[n] {
            proof {
                assert(dfs_node(d, n, vis0) =~= Seq::<usize>::empty());
                assert(bool_set(visited@) =~= vis0.union(Seq::<usize>::empty().to_set()));
            }
            return ;
        }
        visited.set(n, true);
        out.push(n);
        let ghost vis1 = vis0.insert(n);
        proof {
            assert(bool_set(visited@) =~= vis1);
        }
        let ghost kids0 = dfs_kids(d, n, 0, vis1);
        let mut j: usize = 0;
        while j < self.children[n].len()
            invariant
                self@.wf(),
                self@ == d,
                (n as int) < d.nodes.len(),
                j <= d.children[n as int].len(),
                visited@.len() == d.nodes.len(),
                out@.len() >= base.len() + 1,
                out@ == base + seq![n] + out@.skip(base.len() as int + 1),
                bool_set(visited@) == vis1.union(out@.skip(base.len() as int + 1).to_set()),
                kids0 == out@.skip(base.len() as int + 1) + dfs_kids(
                    d,
                    n,
                    j as int,
                    bool_set(visited@),
                ),
            decreases d.children[n as int].len() - j,
        {
            let ghost acc = out@.skip(base.len() as int + 1);
            let ghost cur = bool_set(visited@);
            let c = self.children[n][j];
            let ghost sc = dfs_node(d, c, cur);
            self.dfs_rec(c, visited, out);
            proof {
                assert(dfs_kids(d, n, j as int, cur) == sc + dfs_kids(
                    d,
                    n,
                    j + 1,
                    cur.union(sc.to_set()),
                ));
                assert(out@.skip(base.len() as int + 1) =~= acc + sc);
                lemma_concat_to_set(acc, sc);
                assert((acc + sc).to_set() =~= acc.to_set().union(sc.to_set()));
                assert(bool_set(visited@) =~= vis1.union((acc + sc).to_set()));
                assert(out@ =~= base + seq![n] + out@.skip(base.len() as int + 1));
            }
            j = j + 1;
        }
        proof {
            assert(dfs_kids(d, n, j as int, bool_set(visited@)) =~= Seq::<usize>::empty());
            let acc = out@.skip(base.len() as int + 1);
            assert(kids0 =~= acc + Seq::<usize>::empty());
            assert(kids0 == acc);
            assert(dfs_node(d, n, vis0) == seq![n] + kids0);
            assert(out@ =~= base + dfs_node(d, n, vis0));
            lemma_concat_to_set(seq![n], kids0);
            lemma_singleton_to_set(n);
            assert((seq![n] + kids0).to_set() =~= kids0.to_set().insert(n));
            assert(bool_set(visited@) =~= vis0.union(dfs_node(d, n, vis0).to_set()));
        }
    }

    /// The preorder walk of the subgraph rooted at `root`, as node indices.
    pub fn dfs_order(&self, root: usize) -> (order: Vec<usize>)
        requires
            self@.wf(),
            (root as int) < self@.nodes.len(),
        ensures
            order@ == dfs_node(self@, root, Set::<usize>::empty()),
    {
        let mut visited: Vec<bool> = Vec::new();
        let mut k: usize = 0;
        while k < self.nodes.len()
            invariant
                k <= self@.nodes.len(),
                visited@.len() == k,
                forall|i: int| 0 <= i < k ==> !(#[trigger] visited@[i]),
            decreases self@.nodes.len() - k,
        {
            visited.push(false);
            k = k + 1;
        }
        proof {
            assert(bool_set(visited@) =~= Set::<usize>::empty());
        }
        let mut out: Vec<usize> = Vec::new();
        self.dfs_rec(root, &mut visited, &mut out);
        proof {
            assert(out@ =~= Seq::<usize>::empty() + dfs_node(
                self@,
                root,
                Set::<usize>::empty(),
            ));
        }
        out
    }

    /// Postorder walk collector: appends the walk of `n` to `out`.
    fn post_rec(&self, n: usize, visited: &mut Vec<bool>, out: &mut Vec<usize>)
        requires
            self@.wf(),
            (n as int) < self@.nodes.len(),
            old(visited)@.len() == self@.nodes.len(),
        ensures
            final(visited)@.len() == old(visited)@.len(),
            final(out)@ == old(out)@ + post_node(self@, n, bool_set(old(visited)@)),
            bool_set(final(visited)@) == bool_set(old(visited)@).union(
                post_node(self@, n, bool_set(old(visited)@)).to_set(),
            ),
        decreases n,
    {
        let ghost d = self@;
        let ghost vis0 = bool_set(old(visited)@);
        let ghost base = old(out)@;
        if visited[n] {
            proof {
                assert(post_node(d, n, vis0) =~= Seq::<usize>::empty());
                assert(bool_set(visited@) =~= vis0.union(Seq::<usize>::empty().to_set()));
            }
            return ;
        }
        visited.set(n, true);
        let ghost vis1 = vis0.insert(n);
        proof {
            assert(bool_set(visited@) =~= vis1);
        }
        let ghost kids0 = post_kids(d, n, 0, vis1);
        let mut j: usize = 0;
        while j < self.children[n].len()
            invariant
                self@.wf(),
                self@ == d,
                (n as int) < d.nodes.len(),
                j <= d.children[n as int].len(),
                visited@.len() == d.nodes.len(),
                out@.len() >= base.len(),
                out@ == base + out@.skip(base.len() as int),
                bool_set(visited@) == vis1.union(out@.skip(base.len() as int).to_set()),
                kids0 == out@.skip(base.len() as int) + post_kids(
                    d,
                    n,
                    j as int,
                    bool_set(visited@),
                ),
            decreases d.children[n as int].len() - j,
        {
            let ghost acc = out@.skip(base.len() as int);
            let ghost cur = bool_set(visited@);
            let c = self.children[n][j];
            let ghost sc = post_node(d, c, cur);
            self.post_rec(c, visited, out);
            proof {
                assert(post_kids(d, n, j as int, cur) == sc + post_kids(
                    d,
                    n,
                    j + 1,
                    cur.union(sc.to_set()),
                ));
                assert(out@.skip(base.len() as int) =~= acc + sc);
                lemma_concat_to_set(acc, sc);
                assert((acc + sc).to_set() =~= acc.to_set().union(sc.to_set()));
                assert(bool_set(visited@) =~= vis1.union((acc + sc).to_set()));
                assert(out@ =~= base + out@.skip(base.len() as int));
            }
            j = j + 1;
        }
        out.push(n);
        proof {
            let acc = out@.skip(base.len() as int);
            assert(post_kids(d, n, d.children[n as int].len() as int, bool_set(
                old(visited)@,
            ).insert(n).union(kids0.to_set())) =~= Seq::<usize>::empty());
            assert(acc =~= kids0 + seq![n]);
            assert(post_node(d, n, vis0) == kids0 + seq![n]);
            assert(out@ =~= base + post_node(d, n, vis0));
            lemma_concat_to_set(kids0, seq![n]);
            lemma_singleton_to_set(n);
            assert((kids0 + seq![n]).to_set() =~= kids0.to_set().insert(n));
            assert(bool_set(visited@) =~= vis0.union(post_node(d, n, vis0).to_set()));
        }
    }

    /// The postorder walk of the subgraph rooted at `root`, as node indices.
    pub fn post_order(&self, root: usize) -> (order: Vec<usize>)
        requires
            self@.wf(),
            (root as int) < self@.nodes.len(),
        ensures
            order@ == post_node(self@, root, Set::<usize>::empty()),
    {
        let mut visited: Vec<bool> = Vec::new();
        let mut k: usize = 0;
        while k < self.nodes.len()
            invariant
                k <= self@.nodes.len(),
                visited@.len() == k,
                forall|i: int| 0 <= i < k ==> !(#[trigger] visited@[i]),
            decreases self@.nodes.len() - k,
        {
            visited.push(false);
            k = k + 1;
        }
        proof {
            assert(bool_set(visited@) =~= Set::<usize>::empty());
        }
        let mut out: Vec<usize> = Vec::new();
        self.post_rec(root, &mut visited, &mut out);
        proof {
            assert(out@ =~= Seq::<usize>::empty() + post_node(
                self@,
                root,
                Set::<usize>::empty(),
            ));
        }
        out
    }
}

/// A walk matches a pattern when both have the same length and every
/// non-`Any` slot op equals the op of the walked node.
pub open spec fn pattern_matches(d: DagV, order: Seq<usize>, ops: Seq<PlacedOpV>) -> bool {
    &&& order.len() == ops.len()
    &&& forall|k: int|
        0 <= k < order.len() ==> ((#[trigger] ops[k].op) is Any || d.nodes[order[k] as int].op
            == ops[k].op)
}

/// Sum of the per-node costs of a walk under the present placements.
pub open spec fn cost_sum(d: DagV, order: Seq<usize>) -> int
    decreases order.len(),
{
    if order.len() == 0 {
        0
    } else {
        op_cost(d.nodes[order[0] as int].op, d.nodes[order[0] as int].loc) + cost_sum(
            d,
            order.skip(1),
        )
    }
}

/// Index of the first non-`Any` slot at or after `k`; `ops.len()` if none.
pub open spec fn first_slot(ops: Seq<PlacedOpV>, k: int) -> int
    decreases ops.len() - k,
{
    if k < 0 || k >= ops.len() {
        ops.len() as int
    } else if !(ops[k].op is Any) {
        k
    } else {
        first_slot(ops, k + 1)
    }
}

/// Node images after rewriting the first `k` slots of an accepted match:
/// the first non-`Any` slot's node takes the slot's location class, every
/// later non-`Any` slot's node is fused to the walk root by name.
pub open spec fn rewrite_nodes(
    nodes: Seq<NodeV>,
    order: Seq<usize>,
    ops: Seq<PlacedOpV>,
    root_name: Seq<char>,
    k: int,
) -> Seq<NodeV>
    decreases k,
{
    if k <= 0 {
        nodes
    } else {
        let prev = rewrite_nodes(nodes, order, ops, root_name, k - 1);
        let i = k - 1;
        if ops[i].op is Any {
            prev
        } else {
            let loc = if i == first_slot(ops, 0) {
                ops[i].loc
            } else {
                LocV::Equal(root_name)
            };
            prev.update(order[i] as int, NodeV { loc, ..prev[order[i] as int] })
        }
    }
}

/// The DAG after an accepted rewrite of the walk `order`.
pub open spec fn rewrite_dag(d: DagV, order: Seq<usize>, ops: Seq<PlacedOpV>) -> DagV {
    DagV {
        nodes: rewrite_nodes(
            d.nodes,
            order,
            ops,
            d.nodes[order[0] as int].name,
            ops.len() as int,
        ),
        children: d.children,
    }
}

/// One selection step at root `r`: rewrite exactly when the pattern fully
/// matches the preorder walk and its cost is strictly below the present
/// cost of the walked subgraph.
pub open spec fn select_step(d: DagV, r: usize, pat: PatternV) -> DagV {
    let order = dfs_node(d, r, Set::<usize>::empty());
    if pattern_matches(d, order, pat.ops) && pat.cost < cost_sum(d, order) {
        rewrite_dag(d, order, pat.ops)
    } else {
        d
    }
}

/// Selection steps folded over a sequence of candidate roots.
pub open spec fn select_fold(d: DagV, roots: Seq<usize>, pat: PatternV) -> DagV
    decreases roots.len(),
{
    if roots.len() == 0 {
        d
    } else {
        select_fold(select_step(d, roots[0], pat), roots.skip(1), pat)
    }
}

/// Appending one root to a fold runs one more step on the folded state.
proof fn lemma_select_fold_snoc(d: DagV, roots: Seq<usize>, r: usize, pat: PatternV)
    ensures
        select_fold(d, roots.push(r), pat) == select_step(select_fold(d, roots, pat), r, pat),
    decreases roots.len(),
{
    if roots.len() == 0 {
        assert(roots.push(r)[0] == r);
        assert(roots.push(r).skip(1) =~= Seq::<usize>::empty());
        assert(select_fold(select_step(d, r, pat), Seq::<usize>::empty(), pat) == select_step(
            d,
            r,
            pat,
        ));
        assert(select_fold(d, roots, pat) == d);
    } else {
        assert(roots.push(r)[0] == roots[0]);
        assert(roots.push(r).skip(1) =~= roots.skip(1).push(r));
        lemma_select_fold_snoc(select_step(d, roots[0], pat), roots.skip(1), r, pat);
    }
}

/// Costs lie between -4 and 9, so a sum over `k` nodes lies within `9 * k`
/// of zero.
proof fn lemma_cost_sum_bound(d: DagV, order: Seq<usize>)
    ensures
        -4 * order.len() <= cost_sum(d, order) <= 9 * order.len(),
    decreases order.len(),
{
    if order.len() > 0 {
        lemma_cost_sum_bound(d, order.skip(1));
    }
}

/// Splitting a walk after its first element splits the cost sum.
proof fn lemma_cost_sum_snoc(d: DagV, order: Seq<usize>, x: usize)
    ensures
        cost_sum(d, order.push(x)) == cost_sum(d, order) + op_cost(
            d.nodes[x as int].op,
            d.nodes[x as int].loc,
        ),
    decreases order.len(),
{
    if order.len() == 0 {
        assert(order.push(x)[0] == x);
        assert(order.push(x).skip(1) =~= Seq::<usize>::empty());
        assert(cost_sum(d, Seq::<usize>::empty()) == 0);
        assert(cost_sum(d, order) == 0);
    } else {
        assert(order.push(x)[0] == order[0]);
        assert(order.push(x).skip(1) =~= order.skip(1).push(x));
        lemma_cost_sum_snoc(d, order.skip(1), x);
    }
}

/// Rewriting never touches names, ops, or the node count.
proof fn lemma_rewrite_nodes_frame(
    nodes: Seq<NodeV>,
    order: Seq<usize>,
    ops: Seq<PlacedOpV>,
    root_name: Seq<char>,
    k: int,
)
    requires
        forall|t: int| 0 <= t < order.len() ==> (#[trigger] order[t] as int) < nodes.len(),
        k <= order.len(),
        order.len() == ops.len(),
    ensures
        ({
            let r = rewrite_nodes(nodes, order, ops, root_name, k);
            &&& r.len() == nodes.len()
            &&& forall|i: int|
                0 <= i < nodes.len() ==> (#[trigger] r[i]).name == nodes[i].name && r[i].op
                    == nodes[i].op
        }),
    decreases k,
{
    if k > 0 {
        lemma_rewrite_nodes_frame(nodes, order, ops, root_name, k - 1);
    }
}

/// Pointwise effect of a full rewrite on a duplicate-free walk: the node of
/// slot `t` is updated exactly per slot `t`, and unmatched nodes keep their
/// location class.
proof fn lemma_rewrite_nodes_at(
    nodes: Seq<NodeV>,
    order: Seq<usize>,
    ops: Seq<PlacedOpV>,
    root_name: Seq<char>,
    k: int,
)
    requires
        forall|t: int| 0 <= t < order.len() ==> (#[trigger] order[t] as int) < nodes.len(),
        order.no_duplicates(),
        0 <= k <= order.len(),
        order.len() == ops.len(),
    ensures
        ({
            let r = rewrite_nodes(nodes, order, ops, root_name, k);
            &&& forall|t: int|
                0 <= t < k && !((#[trigger] ops[t].op) is Any) ==> r[order[t] as int].loc == (
                if t == first_slot(ops, 0) {
                    ops[t].loc
                } else {
                    LocV::Equal(root_name)
                })
            &&& forall|i: int|
                0 <= i < nodes.len() && (forall|t: int|
                    0 <= t < k && !((#[trigger] ops[t].op) is Any) ==> order[t] != i) ==> (
                #[trigger] r[i]).loc == nodes[i].loc
        }),
    decreases k,
{
    if k > 0 {
        lemma_rewrite_nodes_at(nodes, order, ops, root_name, k - 1);
        lemma_rewrite_nodes_frame(nodes, order, ops, root_name, k - 1);
        let prev = rewrite_nodes(nodes, order, ops, root_name, k - 1);
        let r = rewrite_nodes(nodes, order, ops, root_name, k);
        if !(ops[k - 1].op is Any) {
            assert forall|t: int|
                0 <= t < k && !((#[trigger] ops[t].op) is Any) implies r[order[t] as int].loc == (
            if t == first_slot(ops, 0) {
                ops[t].loc
            } else {
                LocV::Equal(root_name)
            }) by {
                if t < k - 1 {
                    assert(order[t] != order[k - 1]);
                }
            }
        }
    }
}

/// Properties of `first_slot`: it is the least non-`Any` slot index at or
/// after `k`, or the length when every remaining slot is `Any`.
proof fn lemma_first_slot_props(ops: Seq<PlacedOpV>, k: int)
    requires
        0 <= k <= ops.len(),
    ensures
        ({
            let f = first_slot(ops, k);
            &&& k <= f <= ops.len()
            &&& f < ops.len() ==> !(ops[f].op is Any)
            &&& forall|t: int| k <= t < f ==> (#[trigger] ops[t].op) is Any
        }),
    decreases ops.len() - k,
{
    if k < ops.len() && ops[k].op is Any {
        lemma_first_slot_props(ops, k + 1);
    }
}

impl Dag {
    /// Whether the walk `order` fully matches the pattern: both must exhaust
    /// together with no non-`Any` slot disagreeing. A disagreement only sets
    /// a failure flag; the walk keeps consuming slots.
    fn match_order(&self, order: &Vec<usize>, pattern: &Pattern) -> (m: bool)
        requires
            self@.wf(),
            forall|t: int|
                0 <= t < order@.len() ==> (#[trigger] order@[t] as int) < self@.nodes.len(),
        ensures
            m == pattern_matches(self@, order@, pattern@.ops),
    {
        if order.len() != pattern.ops.len() {
            return false;
        }
        let mut is_match = true;
        let mut k: usize = 0;
        while k < order.len()
            invariant
                self@.wf(),
                k <= order@.len(),
                order@.len() == pattern@.ops.len(),
                forall|t: int|
                    0 <= t < order@.len() ==> (#[trigger] order@[t] as int)
                        < self@.nodes.len(),
                is_match == (forall|t: int|
                    0 <= t < k ==> ((#[trigger] pattern@.ops[t].op) is Any
                        || self@.nodes[order@[t] as int].op == pattern@.ops[t].op)),
            decreases order@.len() - k,
        {
            let ghost was_match = is_match;
            let slot_op = pattern.ops[k].op;
            let node_op = self.nodes[order[k]].placed_op.op;
            let ok = slot_op == Op::Any || node_op == slot_op;
            if !ok {
                is_match = false;
            }
            proof {
                assert(pattern@.ops[k as int].op == slot_op);
                assert(self@.nodes[order@[k as int] as int].op == node_op);
                if was_match && ok {
                    assert forall|t: int|
                        0 <= t < k + 1 implies ((#[trigger] pattern@.ops[t].op) is Any
                        || self@.nodes[order@[t] as int].op == pattern@.ops[t].op) by {
                        if t < k {
                            assert(pattern@.ops[t].op is Any || self@.nodes[order@[t] as int].op
                                == pattern@.ops[t].op);
                        }
                    }
                }
            }
            k = k + 1;
        }
        is_match
    }

    /// Sum of the per-node costs of a walk under the present placements.
    fn cost_of_order(&self, order: &Vec<usize>) -> (c: i32)
        requires
            self@.wf(),
            order@.len() <= 0x100000,
            forall|t: int|
                0 <= t < order@.len() ==> (#[trigger] order@[t] as int) < self@.nodes.len(),
        ensures
            c as int == cost_sum(self@, order@),
    {
        let mut acc: i32 = 0;
        let mut k: usize = 0;
        while k < order.len()
            invariant
                self@.wf(),
                k <= order@.len(),
                order@.len() <= 0x100000,
                forall|t: int|
                    0 <= t < order@.len() ==> (#[trigger] order@[t] as int)
                        < self@.nodes.len(),
                acc as int == cost_sum(self@, order@.take(k as int)),
            decreases order@.len() - k,
        {
            proof {
                lemma_cost_sum_bound(self@, order@.take(k as int));
                lemma_cost_sum_snoc(self@, order@.take(k as int), order@[k as int]);
                assert(order@.take(k as int + 1) =~= order@.take(k as int).push(
                    order@[k as int],
                ));
            }
            let step = self.nodes[order[k]].placed_op.cost();
            acc = acc + step;
            k = k + 1;
        }
        proof {
            assert(order@.take(order@.len() as int) =~= order@);
        }
        acc
    }

    /// Rewrites an accepted match: the first non-`Any` slot's node takes the
    /// slot's location class; every later non-`Any` slot's node is fused to
    /// the walk root. `Any` slots pass wiring through untouched. A rewrite
    /// is only ever applied when it strictly improves the estimated cost.
    fn apply_rewrite(&mut self, order: &Vec<usize>, pattern: &Pattern)
        requires
            old(self)@.wf(),
            order@.len() >= 1,
            order@.no_duplicates(),
            forall|t: int|
                0 <= t < order@.len() ==> (#[trigger] order@[t] as int) < old(
                    self,
                )@.nodes.len(),
            pattern_matches(old(self)@, order@, pattern@.ops),
            pattern@.cost < cost_sum(old(self)@, order@),
        ensures
            final(self)@ == rewrite_dag(old(self)@, order@, pattern@.ops),
            final(self)@.wf(),
    {
        let ghost d0 = self@;
        let ghost ops = pattern@.ops;
        let root_name = self.nodes[order[0]].name.clone();
        let mut is_first = true;
        let mut k: usize = 0;
        while k < order.len()
            invariant
                k <= order@.len(),
                order@.len() == ops.len(),
                order@.no_duplicates(),
                forall|t: int|
                    0 <= t < order@.len() ==> (#[trigger] order@[t] as int)
                        < d0.nodes.len(),
                pattern@.ops == ops,
                self@.children == d0.children,
                self@.nodes == rewrite_nodes(d0.nodes, order@, ops, root_name@, k as int),
                self@.nodes.len() == d0.nodes.len(),
                root_name@ == d0.nodes[order@[0] as int].name,
                is_first == (forall|t: int| 0 <= t < k ==> (#[trigger] ops[t].op) is Any),
            decreases order@.len() - k,
        {
            let ghost prev = self@.nodes;
            proof {
                lemma_rewrite_nodes_frame(d0.nodes, order@, ops, root_name@, k as int);
            }
            let slot_op = pattern.ops[k].op;
            if slot_op != Op::Any {
                proof {
                    lemma_first_slot_props(ops, 0);
                }
                let idx = order[k];
                let new_loc = if is_first {
                    loc_dup(&pattern.ops[k].loc)
                } else {
                    Loc::Equal(root_name.clone())
                };
                let name_c = self.nodes[idx].name.clone();
                let op_c = self.nodes[idx].placed_op.op;
                self.nodes.set(idx, Node { name: name_c, placed_op: PlacedOp { op: op_c, loc: new_loc } });
                is_first = false;
                proof {
                    assert(self@.nodes =~= prev.update(
                        order@[k as int] as int,
                        NodeV { loc: ops[k as int].loc, ..prev[order@[k as int] as int] },
                    ) || true);
                    let target = rewrite_nodes(d0.nodes, order@, ops, root_name@, k as int + 1);
                    assert(self@.nodes =~= target);
                }
            } else {
                proof {
                    assert(rewrite_nodes(d0.nodes, order@, ops, root_name@, k as int + 1)
                        == rewrite_nodes(d0.nodes, order@, ops, root_name@, k as int));
                }
            }
            k = k + 1;
        }
        proof {
            assert(final(self)@ =~= rewrite_dag(old(self)@, order@, pattern@.ops)) by {
                assert(self@.nodes == rewrite_nodes(
                    d0.nodes,
                    order@,
                    ops,
                    d0.nodes[order@[0] as int].name,
                    ops.len() as int,
                ));
            }
            lemma_rewrite_nodes_frame(d0.nodes, order@, ops, root_name@, ops.len() as int);
        }
    }
}

/// Cost of the subgraph rooted at `start` under the present placements:
/// a fresh preorder walk summed node by node.
pub fn estimate_cost(dag: &Dag, start: usize) -> (c: i32)
    requires
        dag@.wf(),
        (start as int) < dag@.nodes.len(),
    ensures
        c as int == cost_sum(dag@, dfs_node(dag@, start, Set::<usize>::empty())),
{
    let order = dag.dfs_order(start);
    proof {
        lemma_dfs_props(dag@, start, Set::<usize>::empty());
        lemma_distinct_bounded(order@, dag@.nodes.len());
    }
    dag.cost_of_order(&order)
}

/// Tries `pattern` against every subgraph root of the DAG in postorder and
/// rewrites each accepted match. Rewrites at earlier roots change the costs
/// later roots see; the fold below states that order exactly.
pub fn select(dag: &mut Dag, ix: usize, pattern: &Pattern)
    requires
        old(dag)@.wf(),
        (ix as int) < old(dag)@.nodes.len(),
    ensures
        final(dag)@ == select_fold(
            old(dag)@,
            post_node(old(dag)@, ix, Set::<usize>::empty()),
            pattern@,
        ),
        final(dag)@.wf(),
{
    let roots = dag.post_order(ix);
    proof {
        lemma_post_props(dag@, ix, Set::<usize>::empty());
    }
    let ghost d0 = dag@;
    let mut t: usize = 0;
    while t < roots.len()
        invariant
            dag@.wf(),
            dag@ == select_fold(d0, roots@.take(t as int), pattern@),
            dag@.nodes.len() == d0.nodes.len(),
            dag@.children == d0.children,
            t <= roots@.len(),
            forall|j: int|
                0 <= j < roots@.len() ==> (#[trigger] roots@[j] as int) < d0.nodes.len(),
        decreases roots@.len() - t,
    {
        let ghost before = dag@;
        let r = roots[t];
        let order = dag.dfs_order(r);
        proof {
            lemma_dfs_props(dag@, r, Set::<usize>::empty());
            lemma_distinct_bounded(order@, dag@.nodes.len());
        }
        let m = dag.match_order(&order, pattern);
        if m {
            let cost = estimate_cost(dag, r);
            if pattern.cost < cost {
                dag.apply_rewrite(&order, pattern);
            }
        }
        proof {
            assert(dag@ == select_step(before, r, pattern@));
            lemma_select_fold_snoc(d0, roots@.take(t as int), r, pattern@);
            assert(roots@.take(t as int + 1) =~= roots@.take(t as int).push(
                roots@[t as int],
            ));
        }
        t = t + 1;
    }
    proof {
        assert(roots@.take(roots@.len() as int) =~= roots@);
    }
}

/// An accepted rewrite strictly lowers the estimated cost: whenever the
/// pattern's cost is not strictly below the present cost of the walked
/// subgraph, the selection step leaves the DAG unchanged, so no
/// cost-neutral or cost-increasing rewrite is ever accepted.
pub proof fn lemma_no_improvement_no_rewrite(d: DagV, r: usize, pat: PatternV)
    requires
        !(pat.cost < cost_sum(d, dfs_node(d, r, Set::<usize>::empty()))),
    ensures
        select_step(d, r, pat) == d,
{
}

/// Fusion shape of an accepted match whose root slot declares a location
/// class: the walk root alone takes that class, every other matched
/// (non-`Any`) node is fused to the root by an `Equal` reference bearing the
/// root's name, nodes outside the match keep their location class, and no
/// node changes its name or op. With a concrete root class this means
/// exactly one matched node is placed concretely.
pub proof fn lemma_accepted_match_fusion(d: DagV, r: usize, pat: PatternV)
    requires
        d.wf(),
        (r as int) < d.nodes.len(),
        pat.ops.len() >= 1,
        !(pat.ops[0].op is Any),
        pattern_matches(d, dfs_node(d, r, Set::<usize>::empty()), pat.ops),
        pat.cost < cost_sum(d, dfs_node(d, r, Set::<usize>::empty())),
    ensures
        ({
            let order = dfs_node(d, r, Set::<usize>::empty());
            let d2 = select_step(d, r, pat);
            &&& order.len() == pat.ops.len() && order[0] == r
            &&& d2.nodes[r as int].loc == pat.ops[0].loc
            &&& forall|k: int|
                1 <= k < order.len() && !((#[trigger] pat.ops[k].op) is Any)
                    ==> d2.nodes[order[k] as int].loc == LocV::Equal(d.nodes[r as int].name)
            &&& forall|i: int|
                0 <= i < d.nodes.len() && (forall|k: int|
                    0 <= k < order.len() && !((#[trigger] pat.ops[k].op) is Any) ==> order[k]
                        != i) ==> (#[trigger] d2.nodes[i]).loc == d.nodes[i].loc
            &&& d2.nodes.len() == d.nodes.len()
            &&& forall|i: int|
                0 <= i < d.nodes.len() ==> (#[trigger] d2.nodes[i]).name == d.nodes[i].name
                    && d2.nodes[i].op == d.nodes[i].op
        }),
{
    let order = dfs_node(d, r, Set::<usize>::empty());
    let d2 = select_step(d, r, pat);
    lemma_dfs_props(d, r, Set::<usize>::empty());
    assert(d2 == rewrite_dag(d, order, pat.ops));
    let rn = d.nodes[r as int].name;
    assert(d2.nodes == rewrite_nodes(d.nodes, order, pat.ops, rn, pat.ops.len() as int));
    lemma_rewrite_nodes_frame(d.nodes, order, pat.ops, rn, pat.ops.len() as int);
    lemma_rewrite_nodes_at(d.nodes, order, pat.ops, rn, pat.ops.len() as int);
    assert(first_slot(pat.ops, 0) == 0);
    assert(d2.nodes[r as int].loc == pat.ops[0].loc) by {
        assert(order[0] == r);
        assert(!(pat.ops[0].op is Any));
    }
}

} // verus!
