use vstd::prelude::*;

use crate::params::Params;
use crate::plaintext::Plaintext;

verus! {

/// The operation a graph node performs. Binary operations take their two
/// inputs in order (the order matters for subtraction); the `Plaintext`
/// variants take an encrypted left input and a plaintext right input;
/// literals carry their plaintext payload and have no inputs.
#[derive(Clone, Debug, PartialEq, Eq)]
pub enum Operation {
    InputCiphertext,
    Literal(Plaintext),
    Add,
    AddPlaintext,
    Sub,
    SubPlaintext,
    Multiply,
    MultiplyPlaintext,
    Negate,
}

/// The mathematical image of an `Operation`: the literal payload becomes its
/// coefficient sequences.
pub ghost enum OperationV {
    InputCiphertext,
    Literal(Seq<Seq<u64>>),
    Add,
    AddPlaintext,
    Sub,
    SubPlaintext,
    Multiply,
    MultiplyPlaintext,
    Negate,
}

impl View for Operation {
    type V = OperationV;

    open spec fn view(&self) -> OperationV {
        match self {
            Operation::InputCiphertext => OperationV::InputCiphertext,
            Operation::Literal(p) => OperationV::Literal(p@),
            Operation::Add => OperationV::Add,
            Operation::AddPlaintext => OperationV::AddPlaintext,
            Operation::Sub => OperationV::Sub,
            Operation::SubPlaintext => OperationV::SubPlaintext,
            Operation::Multiply => OperationV::Multiply,
            Operation::MultiplyPlaintext => OperationV::MultiplyPlaintext,
            Operation::Negate => OperationV::Negate,
        }
    }
}

/// The fixed number of input edges each operation takes: none for inputs and
/// literals, one for negation, two for the binary operations.
pub open spec fn op_arity(op: OperationV) -> nat {
    match op {
        OperationV::InputCiphertext => 0,
        OperationV::Literal(_) => 0,
        OperationV::Negate => 1,
        OperationV::Add => 2,
        OperationV::AddPlaintext => 2,
        OperationV::Sub => 2,
        OperationV::SubPlaintext => 2,
        OperationV::Multiply => 2,
        OperationV::MultiplyPlaintext => 2,
    }
}

/// One node of the computation graph: its operation and the ordered
/// identities of the nodes its input edges come from.
#[derive(Clone, Debug, PartialEq, Eq)]
pub struct NodeInfo {
    pub operation: Operation,
    pub inputs: Vec<u64>,
}

/// The mathematical image of a `NodeInfo`.
pub ghost struct NodeInfoV {
    pub operation: OperationV,
    pub inputs: Seq<u64>,
}

impl View for NodeInfo {
    type V = NodeInfoV;

    open spec fn view(&self) -> NodeInfoV {
        NodeInfoV { operation: self.operation@, inputs: self.inputs@ }
    }
}

/// Well-formedness of the node at position `i`: its input-edge count matches
/// its operation's fixed arity, and every input refers to an earlier node,
/// so the graph is acyclic by construction.
pub open spec fn node_wf(n: NodeInfoV, i: int) -> bool {
    &&& n.inputs.len() == op_arity(n.operation)
    &&& forall|j: int| 0 <= j < n.inputs.len() ==> #[trigger] n.inputs[j] < i
}

/// Well-formedness of a whole graph.
pub open spec fn graph_wf(g: Seq<NodeInfoV>) -> bool {
    forall|i: int| 0 <= i < g.len() ==> node_wf(#[trigger] g[i], i)
}

/// The one way a graph grows: a new node is appended at the end, and its
/// identity is the previous length. Every builder method's contract is
/// stated with this function, so a build is a pure function of the sequence
/// of calls made.
pub open spec fn append_node(g: Seq<NodeInfoV>, operation: OperationV, inputs: Seq<u64>) -> Seq<
    NodeInfoV,
> {
    g.push(NodeInfoV { operation, inputs })
}

/// Graph-append determinism: appending the same operation with the same
/// inputs to structurally identical graphs yields structurally identical
/// graphs with the same new identity. Together with the builder methods'
/// contracts (each new state is `append_node` of the old), two builds that
/// make the same calls in the same order produce identical graphs.
pub proof fn lemma_append_deterministic(
    g1: Seq<NodeInfoV>,
    g2: Seq<NodeInfoV>,
    operation: OperationV,
    inputs: Seq<u64>,
)
    requires
        g1 == g2,
    ensures
        append_node(g1, operation, inputs) == append_node(g2, operation, inputs),
        g1.len() == g2.len(),
{
}

/// Node-arity invariant: in a well-formed graph, every node's input-edge
/// count matches its operation's fixed arity.
pub proof fn lemma_node_arity(g: Seq<NodeInfoV>, i: int)
    requires
        graph_wf(g),
        0 <= i < g.len(),
    ensures
        g[i].inputs.len() == op_arity(g[i].operation),
{
}

/// The single active computation graph of one construction scope, together
/// with the parameter set the circuit is being compiled for. Nodes are
/// append-only; identities are assigned in strictly increasing creation
/// order and never reused.
pub struct Context {
    pub params: Params,
    pub nodes: Vec<NodeInfo>,
}

impl View for Context {
    type V = Seq<NodeInfoV>;

    open spec fn view(&self) -> Seq<NodeInfoV> {
        self.nodes@.map_values(|n: NodeInfo| n@)
    }
}

impl Context {
    /// Starts an empty graph for one construction scope.
    pub fn new(params: Params) -> (r: Self)
        ensures
            r@ == Seq::<NodeInfoV>::empty(),
            r.params == params,
            graph_wf(r@),
    {
        let r = Context { params, nodes: Vec::new() };
        proof {
            assert(r@ =~= Seq::<NodeInfoV>::empty());
        }
        r
    }

    /// How many nodes the graph holds.
    pub fn len(&self) -> (n: usize)
        ensures
            n == self@.len(),
    {
        self.nodes.len()
    }

    /// Appends one node; the shared step every entry point reduces to.
    fn push_node(&mut self, operation: Operation, inputs: Vec<u64>) -> (id: u64)
        requires
            graph_wf(old(self)@),
            old(self)@.len() < u64::MAX,
            inputs@.len() == op_arity(operation@),
            forall|j: int| 0 <= j < inputs@.len() ==> #[trigger] inputs@[j] < old(self)@.len(),
        ensures
            id == old(self)@.len(),
            final(self)@ == append_node(old(self)@, operation@, inputs@),
            final(self).params == old(self).params,
            graph_wf(final(self)@),
    {
        let id = self.nodes.len() as u64;
        let node = NodeInfo { operation, inputs };
        self.nodes.push(node);
        proof {
            assert(self@ =~= append_node(old(self)@, node@.operation, node@.inputs));
            assert forall|i: int| 0 <= i < self@.len() implies node_wf(#[trigger] self@[i], i) by {
                if i < old(self)@.len() {
                    assert(node_wf(old(self)@[i], i));
                }
            }
        }
        id
    }

    /// Appends an input node: a slot an encrypted operand is bound to when
    /// the finished circuit runs.
    pub fn add_input(&mut self) -> (id: u64)
        requires
            graph_wf(old(self)@),
            old(self)@.len() < u64::MAX,
        ensures
            id == old(self)@.len(),
            final(self)@ == append_node(old(self)@, OperationV::InputCiphertext, seq![]),
            final(self).params == old(self).params,
            graph_wf(final(self)@),
    {
        let id = self.push_node(Operation::InputCiphertext, Vec::new());
        id
    }

    /// Appends an addition of two encrypted operands.
    pub fn add_addition(&mut self, a: u64, b: u64) -> (id: u64)
        requires
            graph_wf(old(self)@),
            old(self)@.len() < u64::MAX,
            a < old(self)@.len(),
            b < old(self)@.len(),
        ensures
            id == old(self)@.len(),
            final(self)@ == append_node(old(self)@, OperationV::Add, seq![a, b]),
            final(self).params == old(self).params,
            graph_wf(final(self)@),
    {
        self.push_node(Operation::Add, vec![a, b])
    }

    /// Appends a subtraction `a - b` of two encrypted operands.
    pub fn add_subtraction(&mut self, a: u64, b: u64) -> (id: u64)
        requires
            graph_wf(old(self)@),
            old(self)@.len() < u64::MAX,
            a < old(self)@.len(),
            b < old(self)@.len(),
        ensures
            id == old(self)@.len(),
            final(self)@ == append_node(old(self)@, OperationV::Sub, seq![a, b]),
            final(self).params == old(self).params,
            graph_wf(final(self)@),
    {
        self.push_node(Operation::Sub, vec![a, b])
    }

    /// Appends a multiplication of two encrypted operands.
    pub fn add_multiplication(&mut self, a: u64, b: u64) -> (id: u64)
        requires
            graph_wf(old(self)@),
            old(self)@.len() < u64::MAX,
            a < old(self)@.len(),
            b < old(self)@.len(),
        ensures
            id == old(self)@.len(),
            final(self)@ == append_node(old(self)@, OperationV::Multiply, seq![a, b]),
            final(self).params == old(self).params,
            graph_wf(final(self)@),
    {
        self.push_node(Operation::Multiply, vec![a, b])
    }

    /// Appends an addition whose right operand is a plaintext node.
    pub fn add_addition_plaintext(&mut self, a: u64, b: u64) -> (id: u64)
        requires
            graph_wf(old(self)@),
            old(self)@.len() < u64::MAX,
            a < old(self)@.len(),
            b < old(self)@.len(),
        ensures
            id == old(self)@.len(),
            final(self)@ == append_node(old(self)@, OperationV::AddPlaintext, seq![a, b]),
            final(self).params == old(self).params,
            graph_wf(final(self)@),
    {
        self.push_node(Operation::AddPlaintext, vec![a, b])
    }

    /// Appends a subtraction whose right operand is a plaintext node.
    pub fn add_subtraction_plaintext(&mut self, a: u64, b: u64) -> (id: u64)
        requires
            graph_wf(old(self)@),
            old(self)@.len() < u64::MAX,
            a < old(self)@.len(),
            b < old(self)@.len(),
        ensures
            id == old(self)@.len(),
            final(self)@ == append_node(old(self)@, OperationV::SubPlaintext, seq![a, b]),
            final(self).params == old(self).params,
            graph_wf(final(self)@),
    {
        self.push_node(Operation::SubPlaintext, vec![a, b])
    }

    /// Appends a multiplication whose right operand is a plaintext node.
    pub fn add_multiplication_plaintext(&mut self, a: u64, b: u64) -> (id: u64)
        requires
            graph_wf(old(self)@),
            old(self)@.len() < u64::MAX,
            a < old(self)@.len(),
            b < old(self)@.len(),
        ensures
            id == old(self)@.len(),
            final(self)@ == append_node(old(self)@, OperationV::MultiplyPlaintext, seq![a, b]),
            final(self).params == old(self).params,
            graph_wf(final(self)@),
    {
        self.push_node(Operation::MultiplyPlaintext, vec![a, b])
    }

    /// Appends a unary negation node.
    pub fn add_negate(&mut self, a: u64) -> (id: u64)
        requires
            graph_wf(old(self)@),
            old(self)@.len() < u64::MAX,
            a < old(self)@.len(),
        ensures
            id == old(self)@.len(),
            final(self)@ == append_node(old(self)@, OperationV::Negate, seq![a]),
            final(self).params == old(self).params,
            graph_wf(final(self)@),
    {
        let inputs = vec![a];
        proof {
            assert(inputs@ =~= seq![a]);
        }
        self.push_node(Operation::Negate, inputs)
    }

    /// Appends a node carrying a plaintext literal produced by the codec; it
    /// has no inputs.
    pub fn add_plaintext_literal(&mut self, plaintext: Plaintext) -> (id: u64)
        requires
            graph_wf(old(self)@),
            old(self)@.len() < u64::MAX,
        ensures
            id == old(self)@.len(),
            final(self)@ == append_node(old(self)@, OperationV::Literal(plaintext@), seq![]),
            final(self).params == old(self).params,
            graph_wf(final(self)@),
    {
        self.push_node(Operation::Literal(plaintext), Vec::new())
    }
}

/// Runs one graph-building step against the active scope's context. The
/// scope slot must hold a context: a graph-mutating call with no active
/// construction scope is a programming error, which the precondition makes
/// impossible for verified callers; unverified callers must test the slot
/// first and fail fast rather than build an orphan graph.
pub fn with_ctx<F, R>(ctx: &mut Option<Context>, f: F) -> (r: R) where F: FnOnce(Context) -> (
    Context,
    R,
)
    requires
        (*old(ctx)) is Some,
        call_requires(f, ((*old(ctx)).unwrap(),)),
    ensures
        exists|c1: Context|
            #[trigger] call_ensures(f, ((*old(ctx)).unwrap(),), (c1, r)) && *final(ctx) == Some(c1),
{
    let c0 = ctx.take().unwrap();
    let (c1, r) = f(c0);
    *ctx = Some(c1);
    r
}

} // verus!
