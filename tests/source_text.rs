use strict_eq_rewrite::ast;
use strict_eq_rewrite::transform::TransformVisitor;
use swc_core::common::{sync::Lrc, BytePos, FileName, SourceMap, Span, Spanned};
use swc_core::ecma::ast::{BinExpr, BinaryOp, Ident};
use swc_core::ecma::codegen::to_code_default;
use swc_core::ecma::parser::{EsSyntax, Parser, StringInput, Syntax};
use swc_core::ecma::visit::{visit_mut_pass, VisitMut, VisitMutWith};

struct Rewriter(TransformVisitor);

impl VisitMut for Rewriter {
    fn visit_mut_bin_expr(&mut self, e: &mut BinExpr) {
        e.visit_mut_children_with(self);
        let op = match e.op {
            BinaryOp::EqEqEq => ast::BinaryOp::EqEqEq,
            BinaryOp::NotEqEq => ast::BinaryOp::NotEqEq,
            BinaryOp::EqEq => ast::BinaryOp::EqEq,
            BinaryOp::NotEq => ast::BinaryOp::NotEq,
            _ => ast::BinaryOp::Add,
        };
        let s = e.left.span();
        let left_span = ast::Span { lo: s.lo.0, hi: s.hi.0 };
        if let Some(id) = self.0.replacement_left(op, left_span) {
            let span = Span::new(BytePos(id.span.lo), BytePos(id.span.hi));
            e.left = Box::new(Ident::new_no_ctxt(id.sym.into(), span).into());
        }
    }
}

fn run(src: &str) -> String {
    let cm: Lrc<SourceMap> = Default::default();
    let fm = cm.new_source_file(Lrc::new(FileName::Anon), src.to_string());
    let syntax = Syntax::Es(EsSyntax { jsx: true, ..Default::default() });
    let mut parser = Parser::new(syntax, StringInput::from(&*fm), None);
    let program = parser.parse_program().expect("input parses");
    let program = program.apply(visit_mut_pass(Rewriter(TransformVisitor)));
    to_code_default(cm, None, &program)
}

#[test]
fn text_strict_equality() {
    assert_eq!(run("a === b;").trim(), "kdy1 === b;");
}

#[test]
fn text_strict_inequality() {
    assert_eq!(run("a !== b;").trim(), "a !== b;");
}

#[test]
fn text_nested_strict_equality() {
    assert_eq!(run("(a === b) === c;").trim(), "kdy1 === c;");
}

#[test]
fn text_markup_attribute() {
    let out = run("<div id={a === b} />;");
    assert!(out.contains("kdy1 === b"), "{}", out);
    assert!(!out.contains("a === b"), "{}", out);
    assert!(out.contains("<div"), "{}", out);
}

#[test]
fn text_second_run_is_fixed_point() {
    let once = run("x === (y === z);\nfoo(a === b, c == d);");
    assert_eq!(run(&once), once);
}
