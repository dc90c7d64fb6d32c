//! The traversal engine and the strict-equality rewrite rule.
use vstd::prelude::*;
use crate::ast::{
    span_of, AttrV, BinExpr, BinaryOp, Expr, ExprStmt, ExprV, Ident, JsxAttr, JsxElement, Lit,
    ParenExpr, Program, ProgramV, Span, StmtV, UnaryExpr,
};

verus! {

/// The name given to every identifier that the rule puts in place.
pub open spec fn fixed_name() -> Seq<char> {
    seq!['k', 'd', 'y', '1']
}

/// The identifier that replaces a left operand whose span is `span`.
pub open spec fn fixed_ident(span: Span) -> ExprV {
    ExprV::Ident { span, sym: fixed_name() }
}

/// The rule on a binary expression whose operands have already been
/// transformed: a strict equality gets the fixed identifier as its left
/// operand, with the span of the operand it replaces; any other operator
/// leaves the node as it is.
pub open spec fn rewrite_bin(span: Span, op: BinaryOp, left: ExprV, right: ExprV) -> ExprV {
    if op == BinaryOp::EqEqEq {
        ExprV::Bin { span, op, left: Box::new(fixed_ident(span_of(left))), right: Box::new(right) }
    } else {
        ExprV::Bin { span, op, left: Box::new(left), right: Box::new(right) }
    }
}

/// The whole pass on an expression: children first, then the rule.
pub open spec fn transformed(e: ExprV) -> ExprV
    decreases e,
{
    match e {
        ExprV::Ident { .. } => e,
        ExprV::Lit { .. } => e,
        ExprV::Paren { span, expr } => ExprV::Paren { span, expr: Box::new(transformed(*expr)) },
        ExprV::Unary { span, op, arg } => ExprV::Unary { span, op, arg: Box::new(transformed(*arg)) },
        ExprV::Bin { span, op, left, right } => rewrite_bin(
            span,
            op,
            transformed(*left),
            transformed(*right),
        ),
        ExprV::Jsx { span, name, attrs, children } => ExprV::Jsx {
            span,
            name,
            attrs: Seq::new(
                attrs.len(),
                |i: int|
                    if 0 <= i < attrs.len() {
                        transformed_attr(attrs[i])
                    } else {
                        attrs[i]
                    },
            ),
            children: Seq::new(
                children.len(),
                |i: int|
                    if 0 <= i < children.len() {
                        transformed(children[i])
                    } else {
                        children[i]
                    },
            ),
        },
    }
}

/// The pass on a markup attribute: its value, if any, is transformed.
pub open spec fn transformed_attr(a: AttrV) -> AttrV
    decreases a,
{
    AttrV {
        span: a.span,
        name: a.name,
        value: match a.value {
            Some(e) => Some(transformed(e)),
            None => None,
        },
    }
}

/// The pass on a program: every statement's expression is transformed.
pub open spec fn transformed_program(p: ProgramV) -> ProgramV {
    ProgramV {
        span: p.span,
        body: p.body.map_values(|s: StmtV| StmtV { span: s.span, expr: transformed(s.expr) }),
    }
}

/// The rewrite pass. It has no state of its own.
pub struct TransformVisitor;

impl TransformVisitor {
    /// The identifier that the rule puts in place of the left operand of a
    /// binary expression with operator `op` whose left operand has span
    /// `left_span`, or `None` where the rule does not apply.
    pub fn replacement_left(&self, op: BinaryOp, left_span: Span) -> (r: Option<Ident>)
        ensures
            r is Some <==> op == BinaryOp::EqEqEq,
            r matches Some(id) ==> id.span == left_span && id.sym@ == fixed_name(),
    {
        if op == BinaryOp::EqEqEq {
            let sym = "kdy1".to_owned();
            proof {
                reveal_strlit("kdy1");
            }
            Some(Ident { span: left_span, sym })
        } else {
            None
        }
    }

    /// Applies the rule to a binary expression whose operands have already
    /// been transformed.
    pub fn rewrite(&self, span: Span, op: BinaryOp, left: Expr, right: Expr) -> (r: BinExpr)
        ensures
            r@ == rewrite_bin(span, op, left@, right@),
    {
        let left_span = left.span();
        match self.replacement_left(op, left_span) {
            Some(id) => BinExpr { span, op, left: Box::new(Expr::Ident(id)), right: Box::new(right) },
            None => BinExpr { span, op, left: Box::new(left), right: Box::new(right) },
        }
    }

    /// Transforms an expression: children first, then the rule on the node.
    pub fn fold_expr(&mut self, e: Expr) -> (r: Expr)
        ensures
            r@ == transformed(e@),
        decreases e,
    {
        let ghost e0 = e;
        match e {
            Expr::Ident(i) => Expr::Ident(i),
            Expr::Lit(l) => Expr::Lit(l),
            Expr::Paren(p) => {
                let ParenExpr { span, expr } = p;
                let inner = self.fold_expr(*expr);
                Expr::Paren(ParenExpr { span, expr: Box::new(inner) })
            },
            Expr::Unary(u) => {
                let UnaryExpr { span, op, arg } = u;
                let inner = self.fold_expr(*arg);
                Expr::Unary(UnaryExpr { span, op, arg: Box::new(inner) })
            },
            Expr::Bin(b) => {
                let BinExpr { span, op, left, right } = b;
                let l = self.fold_expr(*left);
                let r = self.fold_expr(*right);
                Expr::Bin(self.rewrite(span, op, l, r))
            },
            Expr::Jsx(j) => {
                let JsxElement { span, name, attrs, children } = j;
                let ghost attrs0 = attrs@;
                let ghost children0 = children@;
                let mut attrs = attrs;
                let mut new_attrs: Vec<JsxAttr> = Vec::new();
                #[verifier::loop_isolation(false)]
                while attrs.len() > 0
                    invariant
                        e == e0,
                        e0 matches Expr::Jsx(j0) && j0.attrs@ == attrs0,
                        new_attrs@.len() + attrs@.len() == attrs0.len(),
                        attrs@ == attrs0.subrange(new_attrs@.len() as int, attrs0.len() as int),
                        forall|k: int|
                            0 <= k < new_attrs@.len() ==> #[trigger] new_attrs@[k]@
                                == transformed_attr(attrs0[k]@),
                    decreases attrs.len(),
                {
                    let ghost k = new_attrs@.len() as int;
                    let a = attrs.remove(0);
                    assert(a == attrs0[k]);
                    let JsxAttr { span: aspan, name: aname, value } = a;
                    let new_value = match value {
                        Some(v) => {
                            proof {
                                assert(decreases_to!(e0 => attrs0[k]));
                                assert(decreases_to!(e0 => v));
                            }
                            Some(self.fold_expr(v))
                        },
                        None => None,
                    };
                    new_attrs.push(JsxAttr { span: aspan, name: aname, value: new_value });
                }
                let mut children = children;
                let mut new_children: Vec<Expr> = Vec::new();
                #[verifier::loop_isolation(false)]
                while children.len() > 0
                    invariant
                        new_attrs@.len() == attrs0.len(),
                        forall|k: int|
                            0 <= k < new_attrs@.len() ==> #[trigger] new_attrs@[k]@
                                == transformed_attr(attrs0[k]@),
                        e == e0,
                        e0 matches Expr::Jsx(j0) && j0.children@ == children0,
                        new_children@.len() + children@.len() == children0.len(),
                        children@ == children0.subrange(
                            new_children@.len() as int,
                            children0.len() as int,
                        ),
                        forall|k: int|
                            0 <= k < new_children@.len() ==> #[trigger] new_children@[k]@
                                == transformed(children0[k]@),
                    decreases children.len(),
                {
                    let ghost k = new_children@.len() as int;
                    let c = children.remove(0);
                    assert(c == children0[k]);
                    proof {
                        assert(decreases_to!(e0 => children0[k]));
                    }
                    new_children.push(self.fold_expr(c));
                }
                let r = Expr::Jsx(JsxElement { span, name, attrs: new_attrs, children: new_children });
                proof {
                    let j0 = e0->Jsx_0;
                    assert(span == j0.span && name@ == j0.name@);
                    if let ExprV::Jsx { attrs: va, children: vc, .. } = e0@ {
                        if let ExprV::Jsx { attrs: ra, children: rc, .. } = r@ {
                            assert forall|i: int| 0 <= i < va.len() implies ra[i] == transformed_attr(va[i]) by {
                                assert(va[i] == attrs0[i]@);
                                assert(ra[i] == new_attrs@[i]@);
                            }
                            assert forall|i: int| 0 <= i < vc.len() implies rc[i] == transformed(vc[i]) by {
                                assert(vc[i] == children0[i]@);
                                assert(rc[i] == new_children@[i]@);
                            }
                            let t = transformed(e0@);
                            assert(t->Jsx_attrs =~= ra);
                            assert(t->Jsx_children =~= rc);
                            assert(r@ == t);
                        }
                    }
                }
                r
            },
        }
    }

    /// Transforms an expression in place.
    pub fn visit_mut_expr(&mut self, e: &mut Expr)
        ensures
            final(e)@ == transformed(old(e)@),
    {
        let mut taken = placeholder();
        std::mem::swap(e, &mut taken);
        let folded = self.fold_expr(taken);
        *e = folded;
    }

    /// Transforms a binary expression in place: both operands first, then
    /// the rule on the node itself.
    pub fn visit_mut_bin_expr(&mut self, e: &mut BinExpr)
        ensures
            final(e)@ == transformed(old(e)@),
    {
        let mut left = Box::new(placeholder());
        let mut right = Box::new(placeholder());
        std::mem::swap(&mut e.left, &mut left);
        std::mem::swap(&mut e.right, &mut right);
        let l = self.fold_expr(*left);
        let r = self.fold_expr(*right);
        *e = self.rewrite(e.span, e.op, l, r);
    }

    /// Transforms every statement of a program in place.
    pub fn visit_mut_program(&mut self, p: &mut Program)
        ensures
            final(p)@ == transformed_program(old(p)@),
    {
        let ghost body0 = old(p).body@;
        let mut body: Vec<ExprStmt> = Vec::new();
        std::mem::swap(&mut p.body, &mut body);
        let mut new_body: Vec<ExprStmt> = Vec::new();
        while body.len() > 0
            invariant
                new_body@.len() + body@.len() == body0.len(),
                body@ == body0.subrange(new_body@.len() as int, body0.len() as int),
                forall|k: int|
                    0 <= k < new_body@.len() ==> #[trigger] new_body@[k]@ == (StmtV {
                        span: body0[k].span,
                        expr: transformed(body0[k]@.expr),
                    }),
            decreases body.len(),
        {
            let ghost k = new_body@.len() as int;
            let s = body.remove(0);
            assert(s == body0[k]);
            let ExprStmt { span, expr } = s;
            let folded = self.fold_expr(*expr);
            new_body.push(ExprStmt { span, expr: Box::new(folded) });
        }
        p.body = new_body;
        assert(p@.body =~= transformed_program(old(p)@).body);
    }
}

/// A node that stands in a slot while its owner is being rebuilt.
fn placeholder() -> (r: Expr) {
    Expr::Lit(Lit { span: Span { lo: 0, hi: 0 }, raw: String::new() })
}

/// The production entry point: runs the pass over a whole program.
pub fn process_transform(program: Program) -> (r: Program)
    ensures
        r@ == transformed_program(program@),
{
    let mut program = program;
    let mut visitor = TransformVisitor;
    visitor.visit_mut_program(&mut program);
    program
}

} // verus!
