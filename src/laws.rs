//! Laws of the rewrite pass, stated over the views and proved.
use vstd::prelude::*;
use crate::ast::{span_of, AttrV, BinaryOp, ExprV, ProgramV, Span};
use crate::transform::{fixed_ident, fixed_name, transformed, transformed_attr, transformed_program};

verus! {

/// Whether a strict-equality expression occurs anywhere in `e`.
pub open spec fn has_strict_eq(e: ExprV) -> bool
    decreases e,
{
    match e {
        ExprV::Ident { .. } => false,
        ExprV::Lit { .. } => false,
        ExprV::Paren { expr, .. } => has_strict_eq(*expr),
        ExprV::Unary { arg, .. } => has_strict_eq(*arg),
        ExprV::Bin { op, left, right, .. } => op == BinaryOp::EqEqEq || has_strict_eq(*left)
            || has_strict_eq(*right),
        ExprV::Jsx { attrs, children, .. } => (exists|i: int|
            0 <= i < attrs.len() && attr_has_strict_eq(#[trigger] attrs[i])) || (exists|i: int|
            0 <= i < children.len() && has_strict_eq(#[trigger] children[i])),
    }
}

/// Whether a strict-equality expression occurs in the value of `a`.
pub open spec fn attr_has_strict_eq(a: AttrV) -> bool
    decreases a,
{
    match a.value {
        Some(e) => has_strict_eq(e),
        None => false,
    }
}

/// The pass keeps the span of every node it visits.
pub proof fn lemma_span_kept(e: ExprV)
    ensures
        span_of(transformed(e)) == span_of(e),
{
}

/// The pass keeps the kind of every node it visits, and every field that is
/// not a child node: names, literals, operators and the number of markup
/// attributes and children.
pub proof fn lemma_shape_kept(e: ExprV)
    ensures
        match (e, transformed(e)) {
            (ExprV::Ident { .. }, t) => t == e,
            (ExprV::Lit { .. }, t) => t == e,
            (ExprV::Paren { span, .. }, ExprV::Paren { span: s, .. }) => s == span,
            (ExprV::Unary { span, op, .. }, ExprV::Unary { span: s, op: o, .. }) => s == span && o
                == op,
            (ExprV::Bin { span, op, .. }, ExprV::Bin { span: s, op: o, .. }) => s == span && o == op,
            (
                ExprV::Jsx { span, name, attrs, children },
                ExprV::Jsx { span: s, name: n, attrs: a, children: c },
            ) => s == span && n == name && a.len() == attrs.len() && c.len() == children.len()
                && forall|i: int|
                0 <= i < attrs.len() ==> #[trigger] a[i].span == attrs[i].span && a[i].name
                    == attrs[i].name,
            _ => false,
        },
{
    if let ExprV::Jsx { attrs, .. } = e {
        let a = transformed(e)->Jsx_attrs;
        assert forall|i: int| 0 <= i < attrs.len() implies #[trigger] a[i].span == attrs[i].span
            && a[i].name == attrs[i].name by {
            assert(a[i] == transformed_attr(attrs[i]));
        }
    }
}

/// A strict-equality expression comes out with the fixed identifier as its
/// left operand, carrying the span of the operand it replaced; its own span
/// and operator are kept, and its right operand is only transformed in turn.
pub proof fn lemma_strict_eq_rewritten(span: Span, left: ExprV, right: ExprV)
    ensures
        transformed(
            ExprV::Bin { span, op: BinaryOp::EqEqEq, left: Box::new(left), right: Box::new(right) },
        ) == (ExprV::Bin {
            span,
            op: BinaryOp::EqEqEq,
            left: Box::new(ExprV::Ident { span: span_of(left), sym: fixed_name() }),
            right: Box::new(transformed(right)),
        }),
{
    lemma_span_kept(left);
}

/// A binary expression with any other operator keeps its operator, its span
/// and both operand slots; only the operands are transformed in turn.
pub proof fn lemma_other_op_kept(span: Span, op: BinaryOp, left: ExprV, right: ExprV)
    requires
        op != BinaryOp::EqEqEq,
    ensures
        transformed(ExprV::Bin { span, op, left: Box::new(left), right: Box::new(right) })
            == (ExprV::Bin {
            span,
            op,
            left: Box::new(transformed(left)),
            right: Box::new(transformed(right)),
        }),
{
}

/// A tree with no strict-equality expression in it comes out unchanged.
pub proof fn lemma_untouched_without_strict_eq(e: ExprV)
    requires
        !has_strict_eq(e),
    ensures
        transformed(e) == e,
    decreases e,
{
    match e {
        ExprV::Paren { expr, .. } => {
            lemma_untouched_without_strict_eq(*expr);
        },
        ExprV::Unary { arg, .. } => {
            lemma_untouched_without_strict_eq(*arg);
        },
        ExprV::Bin { left, right, .. } => {
            lemma_untouched_without_strict_eq(*left);
            lemma_untouched_without_strict_eq(*right);
        },
        ExprV::Jsx { attrs, children, .. } => {
            assert forall|i: int| 0 <= i < attrs.len() implies transformed_attr(attrs[i])
                == attrs[i] by {
                assert(!attr_has_strict_eq(attrs[i]));
                lemma_attr_untouched_without_strict_eq(attrs[i]);
            }
            assert forall|i: int| 0 <= i < children.len() implies transformed(children[i])
                == children[i] by {
                assert(!has_strict_eq(children[i]));
                lemma_untouched_without_strict_eq(children[i]);
            }
            let t = transformed(e);
            assert(t->Jsx_attrs =~= attrs);
            assert(t->Jsx_children =~= children);
        },
        _ => {},
    }
}

/// An attribute with no strict-equality expression in its value comes out
/// unchanged.
pub proof fn lemma_attr_untouched_without_strict_eq(a: AttrV)
    requires
        !attr_has_strict_eq(a),
    ensures
        transformed_attr(a) == a,
    decreases a,
{
    if let Some(v) = a.value {
        lemma_untouched_without_strict_eq(v);
    }
}

/// Running the pass on its own output changes nothing.
pub proof fn lemma_idempotent(e: ExprV)
    ensures
        transformed(transformed(e)) == transformed(e),
    decreases e,
{
    match e {
        ExprV::Paren { expr, .. } => {
            lemma_idempotent(*expr);
        },
        ExprV::Unary { arg, .. } => {
            lemma_idempotent(*arg);
        },
        ExprV::Bin { span, op, left, right } => {
            lemma_idempotent(*left);
            lemma_idempotent(*right);
            if op == BinaryOp::EqEqEq {
                let id = fixed_ident(span_of(transformed(*left)));
                assert(transformed(id) == id);
            }
        },
        ExprV::Jsx { attrs, children, .. } => {
            let t = transformed(e);
            let ta = t->Jsx_attrs;
            let tc = t->Jsx_children;
            assert forall|i: int| 0 <= i < ta.len() implies transformed_attr(ta[i]) == ta[i] by {
                lemma_attr_idempotent(attrs[i]);
            }
            assert forall|i: int| 0 <= i < tc.len() implies transformed(tc[i]) == tc[i] by {
                lemma_idempotent(children[i]);
            }
            let tt = transformed(t);
            assert(tt->Jsx_attrs =~= ta);
            assert(tt->Jsx_children =~= tc);
            assert(tt == t);
        },
        _ => {},
    }
}

/// Running the pass on an attribute it produced changes nothing.
pub proof fn lemma_attr_idempotent(a: AttrV)
    ensures
        transformed_attr(transformed_attr(a)) == transformed_attr(a),
    decreases a,
{
    if let Some(v) = a.value {
        lemma_idempotent(v);
    }
}

/// Running the pass on a program it produced changes nothing.
pub proof fn lemma_program_idempotent(p: ProgramV)
    ensures
        transformed_program(transformed_program(p)) == transformed_program(p),
{
    let t = transformed_program(p);
    let tt = transformed_program(t);
    assert forall|i: int| 0 <= i < t.body.len() implies tt.body[i] == t.body[i] by {
        lemma_idempotent(p.body[i].expr);
    }
    assert(tt.body =~= t.body);
}

/// In a strict equality whose left operand is itself a strict equality, the
/// rewrite of the inner expression is discarded: the outer rule puts the
/// fixed identifier in place of the whole left operand, with that operand's
/// span.
pub proof fn lemma_nested_left_discarded(
    span: Span,
    inner_span: Span,
    a: ExprV,
    b: ExprV,
    c: ExprV,
)
    ensures
        transformed(
            ExprV::Bin {
                span,
                op: BinaryOp::EqEqEq,
                left: Box::new(
                    ExprV::Bin {
                        span: inner_span,
                        op: BinaryOp::EqEqEq,
                        left: Box::new(a),
                        right: Box::new(b),
                    },
                ),
                right: Box::new(c),
            },
        ) == (ExprV::Bin {
            span,
            op: BinaryOp::EqEqEq,
            left: Box::new(fixed_ident(inner_span)),
            right: Box::new(transformed(c)),
        }),
{
    let inner = ExprV::Bin {
        span: inner_span,
        op: BinaryOp::EqEqEq,
        left: Box::new(a),
        right: Box::new(b),
    };
    lemma_strict_eq_rewritten(span, inner, c);
}

} // verus!
