//! The node abstraction and the two node kinds: the argument (identity)
//! leaf and the property-access composite, together with the visitor
//! protocol and the laws that hold of every chain.
//!
//! The node abstraction is split over two traits.  `ExpressionCore`
//! carries the mathematical model of a node (its evaluation relation and
//! its label sequence) and direct evaluation; `Expression` adds the
//! traversal entry point.  The split lets the visitor protocol speak of
//! sub-nodes without the two traits referring to each other in a cycle,
//! and the node's `visit` drives the recursion itself, handing the
//! visitor's property-access case the sub-node's already-computed
//! result: traversal is bottom-up accumulation, dispatched statically.

use vstd::prelude::*;
use vstd::pervasive::cloned;

verus! {

/// The property names of a recorded path, viewed as character sequences.
pub open spec fn path_view(path: Seq<&'static str>) -> Seq<Seq<char>> {
    path.map_values(|s: &'static str| s@)
}

/// The evaluation model of a node: a typed, composable unit representing
/// one step of a data-access computation.
///
/// `eval` characterizes `dynamic_call`; `callable` says on which inputs
/// evaluation is defined (on those it never panics); `labels` is the
/// ordered sequence of property names along the chain, innermost first.
pub trait ExpressionCore: Sized {
    type Input;
    type Output;

    /// The inputs on which the chain may be evaluated.
    spec fn callable(&self, input: Self::Input) -> bool;

    /// The evaluation relation: `eval(input, output)` holds exactly of
    /// the values `dynamic_call(input)` may return.
    spec fn eval(&self, input: Self::Input, output: Self::Output) -> bool;

    /// The property names along the chain, innermost first.
    spec fn labels(&self) -> Seq<Seq<char>>;

    fn dynamic_call(&self, input: Self::Input) -> (output: Self::Output)
        requires
            self.callable(input),
        ensures
            self.eval(input, output),
    ;
}

/// A double-dispatch consumer that case-analyzes node kind to produce a
/// caller-defined result type.
///
/// `completes` states, over a node's label sequence (its structural
/// model), which results the visitor may hand back for that node.  Each
/// case consumes the visitor instance by value; the property-access case
/// receives, besides the node, the result that a fresh (equal) instance
/// produced on the sub-node, and combines it with the node's own label —
/// the bottom-up accumulation that a stateless, per-call-site visitor
/// amounts to.  Visitors are `Copy` so that every recursive step can work
/// on such a fresh instance.
pub trait ExpressionVisitor: Sized + Copy {
    type Result;

    /// The results this visitor may produce for a node whose property
    /// names, innermost first, are `labels`.
    spec fn completes(self, labels: Seq<Seq<char>>, r: Self::Result) -> bool;

    fn visit_argument<Input>(self, expr: &ArgumentExpression<Input>) -> (r: Self::Result)
        ensures
            self.completes(Seq::empty(), r),
    ;

    fn visit_property_access<
        SubExpr: ExpressionCore,
        PropType,
        NativeFn: Fn(SubExpr::Output) -> PropType,
    >(
        self,
        expr: &PropertyAccessExpression<SubExpr, PropType, NativeFn>,
        sub_result: Self::Result,
    ) -> (r: Self::Result)
        requires
            self.completes(expr.sub_expr.labels(), sub_result),
        ensures
            self.completes(expr.sub_expr.labels().push(expr.property_name@), r),
    ;
}

/// The full node contract: evaluate directly, or accept a visitor.
///
/// `visit` dispatches statically to the visitor case matching this node's
/// concrete kind; there is no runtime branch on node kind.
pub trait Expression: ExpressionCore {
    fn visit<V: ExpressionVisitor>(&self, visitor: V) -> (r: V::Result)
        ensures
            visitor.completes(self.labels(), r),
    ;
}

/// The identity leaf marking where external input enters a chain.  It
/// carries no runtime state, so copying is free.
#[derive(Debug)]
pub struct ArgumentExpression<Input> {
    _marker: core::marker::PhantomData<Input>,
}

impl<Input> ArgumentExpression<Input> {
    pub fn new() -> (r: Self) {
        Self { _marker: core::marker::PhantomData }
    }
}

impl<Input> Clone for ArgumentExpression<Input> {
    /// The leaf carries no state: its copy equals it.
    fn clone(&self) -> (r: Self)
        ensures
            r == *self,
    {
        *self
    }
}

impl<Input> Copy for ArgumentExpression<Input> {

}

impl<Input> Default for ArgumentExpression<Input> {
    /// The leaf carries no state: the default value is the identity leaf.
    fn default() -> (r: Self)
        ensures
            forall|input: Input, output: Input| r.eval(input, output) <==> output == input,
    {
        ArgumentExpression { _marker: core::marker::PhantomData }
    }
}

impl<Input> ExpressionCore for ArgumentExpression<Input> {
    type Input = Input;
    type Output = Input;

    open spec fn callable(&self, input: Input) -> bool {
        true
    }

    open spec fn eval(&self, input: Input, output: Input) -> bool {
        output == input
    }

    open spec fn labels(&self) -> Seq<Seq<char>> {
        Seq::empty()
    }

    fn dynamic_call(&self, input: Input) -> (output: Input) {
        input
    }
}

impl<Input> Expression for ArgumentExpression<Input> {
    fn visit<V: ExpressionVisitor>(&self, visitor: V) -> (r: V::Result) {
        visitor.visit_argument(self)
    }
}

/// A composite node applying a named, pure accessor to the result of its
/// sub-node.  The accessor is meant to be a context-free function (a
/// plain `fn` item, not a capturing closure), so that every node is a
/// self-contained transformation step; it is therefore kept `Copy`
/// wherever a node is duplicated.
///
/// The property name is informational only: it never takes part in
/// evaluation.
#[verifier::reject_recursive_types(PropType)]
pub struct PropertyAccessExpression<
    SubExpr: ExpressionCore,
    PropType,
    NativeFn: Fn(SubExpr::Output) -> PropType,
> {
    pub sub_expr: SubExpr,
    pub property_name: &'static str,
    pub native_fn: NativeFn,
}

impl<
    SubExpr: ExpressionCore,
    PropType,
    NativeFn: Fn(SubExpr::Output) -> PropType,
> PropertyAccessExpression<SubExpr, PropType, NativeFn> {
    pub fn new(
        sub_expr: SubExpr,
        property_name: &'static str,
        native_fn: NativeFn,
    ) -> (r: Self)
        ensures
            r.sub_expr == sub_expr,
            r.property_name == property_name,
            r.native_fn == native_fn,
    {
        Self { sub_expr, property_name, native_fn }
    }
}

impl<
    SubExpr: ExpressionCore,
    PropType,
    NativeFn: Fn(SubExpr::Output) -> PropType + Copy,
> PropertyAccessExpression<SubExpr, PropType, NativeFn> {
    /// The curried builder: binds the property name and the accessor
    /// first and returns a builder that, given a sub-node, produces the
    /// finished node.
    pub fn prepare(
        property_name: &'static str,
        native_fn: NativeFn,
    ) -> (builder: impl Fn(SubExpr) -> Self)
        ensures
            forall|sub_expr: SubExpr| #[trigger] call_requires(builder, (sub_expr,)),
            forall|sub_expr: SubExpr, node: Self|
                #[trigger] call_ensures(builder, (sub_expr,), node) ==> {
                    &&& node.sub_expr == sub_expr
                    &&& node.property_name == property_name
                    &&& node.native_fn == native_fn
                },
    {
        move |sub_expr: SubExpr| -> (node: Self)
            ensures
                node.sub_expr == sub_expr,
                node.property_name == property_name,
                node.native_fn == native_fn,
            {
                PropertyAccessExpression::new(sub_expr, property_name, native_fn)
            }
    }
}

impl<
    SubExpr: ExpressionCore,
    PropType,
    NativeFn: Fn(SubExpr::Output) -> PropType,
> ExpressionCore for PropertyAccessExpression<SubExpr, PropType, NativeFn> {
    type Input = SubExpr::Input;
    type Output = PropType;

    open spec fn callable(&self, input: SubExpr::Input) -> bool {
        &&& self.sub_expr.callable(input)
        &&& forall|mid: SubExpr::Output|
            self.sub_expr.eval(input, mid) ==> call_requires(self.native_fn, (mid,))
    }

    open spec fn eval(&self, input: SubExpr::Input, output: PropType) -> bool {
        exists|mid: SubExpr::Output|
            #[trigger] self.sub_expr.eval(input, mid) && call_ensures(self.native_fn, (mid,), output)
    }

    open spec fn labels(&self) -> Seq<Seq<char>> {
        self.sub_expr.labels().push(self.property_name@)
    }

    fn dynamic_call(&self, input: SubExpr::Input) -> (output: PropType) {
        let mid = self.sub_expr.dynamic_call(input);
        (self.native_fn)(mid)
    }
}

impl<
    SubExpr: Expression,
    PropType,
    NativeFn: Fn(SubExpr::Output) -> PropType,
> Expression for PropertyAccessExpression<SubExpr, PropType, NativeFn> {
    fn visit<V: ExpressionVisitor>(&self, visitor: V) -> (r: V::Result) {
        let sub_result = self.sub_expr.visit(visitor);
        visitor.visit_property_access(self, sub_result)
    }
}

impl<
    SubExpr: ExpressionCore + Clone,
    PropType,
    NativeFn: Fn(SubExpr::Output) -> PropType + Copy,
> Clone for PropertyAccessExpression<SubExpr, PropType, NativeFn> {
    /// A structural deep copy: the sub-node is cloned, the label and the
    /// accessor are duplicated exactly.  Where the sub-node's own clone
    /// reproduces it exactly, the whole node is reproduced exactly.
    fn clone(&self) -> (r: Self)
        ensures
            cloned::<SubExpr>(self.sub_expr, r.sub_expr),
            r.property_name == self.property_name,
            r.native_fn == self.native_fn,
            r.sub_expr == self.sub_expr ==> r == *self,
    {
        PropertyAccessExpression {
            sub_expr: self.sub_expr.clone(),
            property_name: self.property_name,
            native_fn: self.native_fn,
        }
    }
}

/// The path-recording visitor: traversing a chain with it yields the
/// chain's property names, innermost first.
#[derive(Debug, Clone, Copy)]
pub struct PropertyPathExtractor;

impl ExpressionVisitor for PropertyPathExtractor {
    type Result = Vec<&'static str>;

    open spec fn completes(self, labels: Seq<Seq<char>>, r: Vec<&'static str>) -> bool {
        path_view(r@) == labels
    }

    fn visit_argument<Input>(self, expr: &ArgumentExpression<Input>) -> (r: Vec<&'static str>) {
        let r: Vec<&'static str> = Vec::new();
        proof {
            assert(path_view(r@) =~= Seq::<Seq<char>>::empty());
        }
        r
    }

    fn visit_property_access<
        SubExpr: ExpressionCore,
        PropType,
        NativeFn: Fn(SubExpr::Output) -> PropType,
    >(
        self,
        expr: &PropertyAccessExpression<SubExpr, PropType, NativeFn>,
        sub_result: Vec<&'static str>,
    ) -> (r: Vec<&'static str>) {
        let mut path = sub_result;
        path.push(expr.property_name);
        proof {
            assert(path_view(path@) =~= expr.sub_expr.labels().push(expr.property_name@));
        }
        path
    }
}

/// Path-extraction law: visiting a chain with the path-recording visitor
/// yields exactly the chain's property names, innermost first.
pub fn extract_property_path<E: Expression>(expr: &E) -> (r: Vec<&'static str>)
    ensures
        path_view(r@) == expr.labels(),
{
    expr.visit(PropertyPathExtractor)
}

/// The model of a property-access node, spelled out: it is callable
/// where its sub-node is callable and every value the sub-node may
/// produce is accepted by the accessor; it may return exactly the values
/// the accessor may derive from a value of the sub-node; its labels are
/// the sub-node's labels followed by its own property name.
///
/// (At a fully concrete node type these definitions do not unfold on
/// their own; this lemma hands them to such callers.)
pub proof fn lemma_property_access_model<
    SubExpr: ExpressionCore,
    PropType,
    NativeFn: Fn(SubExpr::Output) -> PropType,
>(
    node: PropertyAccessExpression<SubExpr, PropType, NativeFn>,
    input: SubExpr::Input,
)
    ensures
        node.callable(input) <==> (node.sub_expr.callable(input) && forall|mid: SubExpr::Output|
            node.sub_expr.eval(input, mid) ==> call_requires(node.native_fn, (mid,))),
        forall|output: PropType|
            #[trigger] node.eval(input, output) <==> exists|mid: SubExpr::Output|
                #[trigger] node.sub_expr.eval(input, mid)
                    && call_ensures(node.native_fn, (mid,), output),
        node.labels() == node.sub_expr.labels().push(node.property_name@),
{
}

/// A property-access node is callable wherever its sub-node is callable
/// and the accessor accepts whatever the sub-node may produce there — in
/// particular, wherever the accessor accepts every argument.  This is
/// the way for a caller at a concrete chain type to discharge
/// `dynamic_call`'s precondition, one level at a time.
pub proof fn lemma_property_access_callable<
    SubExpr: ExpressionCore,
    PropType,
    NativeFn: Fn(SubExpr::Output) -> PropType,
>(
    node: PropertyAccessExpression<SubExpr, PropType, NativeFn>,
    input: SubExpr::Input,
)
    requires
        node.sub_expr.callable(input),
        forall|mid: SubExpr::Output|
            node.sub_expr.eval(input, mid) ==> call_requires(node.native_fn, (mid,)),
    ensures
        node.callable(input),
{
}

/// A two-level chain over an argument leaf is callable on an input as
/// soon as the innermost accessor accepts that input and the outermost
/// accepts whatever the innermost may return for it — in particular,
/// whenever both accessors accept every argument.  Spelled out over the
/// chain's own parts so that a caller at the fully concrete chain type
/// can discharge `dynamic_call`'s precondition directly.
pub proof fn lemma_chain_callable<
    Input,
    Mid,
    Out,
    F1: Fn(Input) -> Mid,
    F2: Fn(Mid) -> Out,
>(
    chain: PropertyAccessExpression<
        PropertyAccessExpression<ArgumentExpression<Input>, Mid, F1>,
        Out,
        F2,
    >,
    input: Input,
)
    requires
        call_requires(chain.sub_expr.native_fn, (input,)),
        forall|mid: Mid|
            call_ensures(chain.sub_expr.native_fn, (input,), mid) ==> call_requires(
                chain.native_fn,
                (mid,),
            ),
    ensures
        chain.callable(input),
{
    assert(chain.sub_expr.callable(input));
    assert forall|mid: Mid| chain.sub_expr.eval(input, mid) implies call_requires(
        chain.native_fn,
        (mid,),
    ) by {
        let first = choose|first: Input|
            #[trigger] chain.sub_expr.sub_expr.eval(input, first)
                && call_ensures(chain.sub_expr.native_fn, (first,), mid);
        assert(first == input);
    }
}

/// Identity law: an argument-only node returns its input unchanged, for
/// every input value.
pub proof fn lemma_argument_identity<Input>(
    node: ArgumentExpression<Input>,
    input: Input,
    output: Input,
)
    requires
        node.eval(input, output),
    ensures
        output == input,
{
}

/// Evaluation-order law: a chain of property-access nodes over a single
/// leaf argument node applies the innermost accessor to the chain's
/// input first, and each subsequent accessor to the prior result.
pub proof fn lemma_chain_applies_accessors_in_order<
    Input,
    Mid,
    Out,
    F1: Fn(Input) -> Mid,
    F2: Fn(Mid) -> Out,
>(
    chain: PropertyAccessExpression<
        PropertyAccessExpression<ArgumentExpression<Input>, Mid, F1>,
        Out,
        F2,
    >,
    input: Input,
    output: Out,
)
    requires
        chain.eval(input, output),
    ensures
        exists|mid: Mid|
            #[trigger] call_ensures(chain.sub_expr.native_fn, (input,), mid)
                && call_ensures(chain.native_fn, (mid,), output),
{
    let mid = choose|mid: Mid|
        #[trigger] chain.sub_expr.eval(input, mid) && call_ensures(chain.native_fn, (mid,), output);
    assert(chain.sub_expr.eval(input, mid));
    let first = choose|first: Input|
        #[trigger] chain.sub_expr.sub_expr.eval(input, first)
            && call_ensures(chain.sub_expr.native_fn, (first,), mid);
    assert(first == input);
    assert(call_ensures(chain.sub_expr.native_fn, (input,), mid)
        && call_ensures(chain.native_fn, (mid,), output));
}

/// Composition law: where the two accessors' contracts pin them down as
/// functions (`f1` innermost, `f2` outermost), a two-level chain over an
/// argument leaf returns exactly `f2(f1(input))` — the value that direct
/// nested access computes.
pub proof fn lemma_chain_evaluates_composition<
    Input,
    Mid,
    Out,
    F1: Fn(Input) -> Mid,
    F2: Fn(Mid) -> Out,
>(
    chain: PropertyAccessExpression<
        PropertyAccessExpression<ArgumentExpression<Input>, Mid, F1>,
        Out,
        F2,
    >,
    input: Input,
    output: Out,
    f1: spec_fn(Input) -> Mid,
    f2: spec_fn(Mid) -> Out,
)
    requires
        chain.eval(input, output),
        forall|x: Input, y: Mid|
            call_ensures(chain.sub_expr.native_fn, (x,), y) ==> y == f1(x),
        forall|x: Mid, y: Out| call_ensures(chain.native_fn, (x,), y) ==> y == f2(x),
    ensures
        output == f2(f1(input)),
{
    lemma_chain_applies_accessors_in_order(chain, input, output);
    let mid = choose|mid: Mid|
        #[trigger] call_ensures(chain.sub_expr.native_fn, (input,), mid)
            && call_ensures(chain.native_fn, (mid,), output);
    assert(mid == f1(input));
}

/// Path law: the label sequence of a two-level chain holds the innermost
/// property name first and the outermost last, matching construction
/// order.  Together with the contract of `visit`, traversing such a
/// chain with `PropertyPathExtractor` yields exactly this sequence.
pub proof fn lemma_labels_in_construction_order<
    Input,
    Mid,
    Out,
    F1: Fn(Input) -> Mid,
    F2: Fn(Mid) -> Out,
>(
    chain: PropertyAccessExpression<
        PropertyAccessExpression<ArgumentExpression<Input>, Mid, F1>,
        Out,
        F2,
    >,
)
    ensures
        chain.labels() == seq![chain.sub_expr.property_name@, chain.property_name@],
{
    assert(chain.labels() =~= seq![chain.sub_expr.property_name@, chain.property_name@]);
}

/// Clone law: a copy of a property-access node whose parts equal the
/// original's parts evaluates exactly as the original, is callable on
/// the same inputs, and carries the same labels.  `clone` produces such
/// a copy whenever the sub-node's clone reproduces it exactly (the leaf
/// argument node's copy always does).
pub proof fn lemma_clone_evaluates_alike<
    SubExpr: ExpressionCore,
    PropType,
    NativeFn: Fn(SubExpr::Output) -> PropType,
>(
    node: PropertyAccessExpression<SubExpr, PropType, NativeFn>,
    copy: PropertyAccessExpression<SubExpr, PropType, NativeFn>,
)
    requires
        copy.sub_expr == node.sub_expr,
        copy.property_name == node.property_name,
        copy.native_fn == node.native_fn,
    ensures
        copy == node,
        forall|input: SubExpr::Input, output: PropType|
            copy.eval(input, output) == node.eval(input, output),
        forall|input: SubExpr::Input| copy.callable(input) == node.callable(input),
        copy.labels() == node.labels(),
{
}

} // verus!
