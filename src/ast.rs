//! The syntax-tree model: executable node types and their mathematical views.
use vstd::prelude::*;

verus! {

/// A source-location tag: the byte range of a node in its source text.
#[derive(Clone, Copy, Debug, PartialEq, Eq, Structural)]
pub struct Span {
    pub lo: u32,
    pub hi: u32,
}

/// The binary operators of the expression grammar.
#[derive(Clone, Copy, Debug, PartialEq, Eq, Structural)]
pub enum BinaryOp {
    EqEq,
    NotEq,
    EqEqEq,
    NotEqEq,
    Lt,
    LtEq,
    Gt,
    GtEq,
    LShift,
    RShift,
    ZeroFillRShift,
    Add,
    Sub,
    Mul,
    Div,
    Mod,
    BitOr,
    BitXor,
    BitAnd,
    LogicalOr,
    LogicalAnd,
    In,
    InstanceOf,
    Exp,
    NullishCoalescing,
}

/// The prefix unary operators of the expression grammar.
#[derive(Clone, Copy, Debug, PartialEq, Eq, Structural)]
pub enum UnaryOp {
    Minus,
    Plus,
    Bang,
    Tilde,
    TypeOf,
    Void,
    Delete,
}

/// An identifier reference.
#[derive(Debug)]
pub struct Ident {
    pub span: Span,
    pub sym: String,
}

/// A literal, kept as its source text (`1`, `"s"`, `true`).
#[derive(Debug)]
pub struct Lit {
    pub span: Span,
    pub raw: String,
}

/// A parenthesized expression.
#[derive(Debug)]
pub struct ParenExpr {
    pub span: Span,
    pub expr: Box<Expr>,
}

/// A prefix unary expression.
#[derive(Debug)]
pub struct UnaryExpr {
    pub span: Span,
    pub op: UnaryOp,
    pub arg: Box<Expr>,
}

/// A binary expression `left op right`.
#[derive(Debug)]
pub struct BinExpr {
    pub span: Span,
    pub op: BinaryOp,
    pub left: Box<Expr>,
    pub right: Box<Expr>,
}

/// An attribute of an embedded-markup element: `name` or `name={value}`.
#[derive(Debug)]
pub struct JsxAttr {
    pub span: Span,
    pub name: String,
    pub value: Option<Expr>,
}

/// An embedded-markup element `<name attrs...>children...</name>`; each child
/// is an expression container or a nested element.
#[derive(Debug)]
pub struct JsxElement {
    pub span: Span,
    pub name: String,
    pub attrs: Vec<JsxAttr>,
    pub children: Vec<Expr>,
}

/// An expression node.
#[derive(Debug)]
pub enum Expr {
    Ident(Ident),
    Lit(Lit),
    Paren(ParenExpr),
    Unary(UnaryExpr),
    Bin(BinExpr),
    Jsx(JsxElement),
}

/// An expression statement `expr;`.
#[derive(Debug)]
pub struct ExprStmt {
    pub span: Span,
    pub expr: Box<Expr>,
}

/// A program: its top-level statements in source order.
#[derive(Debug)]
pub struct Program {
    pub span: Span,
    pub body: Vec<ExprStmt>,
}

/// The mathematical value of an expression node.
pub enum ExprV {
    Ident { span: Span, sym: Seq<char> },
    Lit { span: Span, raw: Seq<char> },
    Paren { span: Span, expr: Box<ExprV> },
    Unary { span: Span, op: UnaryOp, arg: Box<ExprV> },
    Bin { span: Span, op: BinaryOp, left: Box<ExprV>, right: Box<ExprV> },
    Jsx { span: Span, name: Seq<char>, attrs: Seq<AttrV>, children: Seq<ExprV> },
}

/// The mathematical value of a markup attribute.
pub struct AttrV {
    pub span: Span,
    pub name: Seq<char>,
    pub value: Option<ExprV>,
}

/// The mathematical value of an expression statement.
pub struct StmtV {
    pub span: Span,
    pub expr: ExprV,
}

/// The mathematical value of a program.
pub struct ProgramV {
    pub span: Span,
    pub body: Seq<StmtV>,
}

/// The span that every node carries.
pub open spec fn span_of(e: ExprV) -> Span {
    match e {
        ExprV::Ident { span, .. } => span,
        ExprV::Lit { span, .. } => span,
        ExprV::Paren { span, .. } => span,
        ExprV::Unary { span, .. } => span,
        ExprV::Bin { span, .. } => span,
        ExprV::Jsx { span, .. } => span,
    }
}

/// The mathematical value of an expression.
pub open spec fn expr_view(e: Expr) -> ExprV
    decreases e,
{
    match e {
        Expr::Ident(i) => ExprV::Ident { span: i.span, sym: i.sym@ },
        Expr::Lit(l) => ExprV::Lit { span: l.span, raw: l.raw@ },
        Expr::Paren(p) => ExprV::Paren { span: p.span, expr: Box::new(expr_view(*p.expr)) },
        Expr::Unary(u) => ExprV::Unary { span: u.span, op: u.op, arg: Box::new(expr_view(*u.arg)) },
        Expr::Bin(b) => ExprV::Bin {
            span: b.span,
            op: b.op,
            left: Box::new(expr_view(*b.left)),
            right: Box::new(expr_view(*b.right)),
        },
        Expr::Jsx(j) => ExprV::Jsx {
            span: j.span,
            name: j.name@,
            attrs: Seq::new(
                j.attrs@.len(),
                |i: int|
                    if 0 <= i < j.attrs@.len() {
                        attr_view(j.attrs@[i])
                    } else {
                        AttrV { span: j.span, name: Seq::empty(), value: None }
                    },
            ),
            children: Seq::new(
                j.children@.len(),
                |i: int|
                    if 0 <= i < j.children@.len() {
                        expr_view(j.children@[i])
                    } else {
                        ExprV::Lit { span: j.span, raw: Seq::empty() }
                    },
            ),
        },
    }
}

/// The mathematical value of a markup attribute.
pub open spec fn attr_view(a: JsxAttr) -> AttrV
    decreases a,
{
    AttrV {
        span: a.span,
        name: a.name@,
        value: match a.value {
            Some(e) => Some(expr_view(e)),
            None => None,
        },
    }
}

impl View for Expr {
    type V = ExprV;

    open spec fn view(&self) -> ExprV {
        expr_view(*self)
    }
}

impl View for JsxAttr {
    type V = AttrV;

    open spec fn view(&self) -> AttrV {
        attr_view(*self)
    }
}

impl Expr {
    /// The span of this node.
    pub fn span(&self) -> (r: Span)
        ensures
            r == span_of(self@),
    {
        match self {
            Expr::Ident(i) => i.span,
            Expr::Lit(l) => l.span,
            Expr::Paren(p) => p.span,
            Expr::Unary(u) => u.span,
            Expr::Bin(b) => b.span,
            Expr::Jsx(j) => j.span,
        }
    }
}

impl View for BinExpr {
    type V = ExprV;

    open spec fn view(&self) -> ExprV {
        ExprV::Bin { span: self.span, op: self.op, left: Box::new((*self.left)@), right: Box::new((*self.right)@) }
    }
}

impl View for ExprStmt {
    type V = StmtV;

    open spec fn view(&self) -> StmtV {
        StmtV { span: self.span, expr: (*self.expr)@ }
    }
}

impl View for Program {
    type V = ProgramV;

    open spec fn view(&self) -> ProgramV {
        ProgramV { span: self.span, body: self.body@.map_values(|s: ExprStmt| s@) }
    }
}

} // verus!
