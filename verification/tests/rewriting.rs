use cofutures::ast::{Block, Expr, NodeList, Stmt};
use cofutures::rewrite::{coasync, FnDef, ReturnTy, RewriteError};

fn suspend_expanded() -> Expr {
    Expr::BlockExpr(Block {
        stmts: NodeList::Cons(
            Stmt::Semi(Box::new(Expr::CtxWake)),
            Box::new(NodeList::Cons(
                Stmt::ExprStmt(Box::new(Expr::PrimYield)),
                Box::new(NodeList::Nil),
            )),
        ),
    })
}

#[test]
fn bare_suspend_becomes_wake_then_pause() {
    let r = Expr::Suspend(None).handle_await();
    assert_eq!(r, Ok(suspend_expanded()));
}

#[test]
fn valued_suspend_is_rejected() {
    let r = Expr::Suspend(Some(Box::new(Expr::Lit(1)))).handle_await();
    assert_eq!(r, Err(RewriteError::ValuedSuspend));
}

#[test]
fn await_becomes_bind_and_poll_loop() {
    let r = Expr::Await(Box::new(Expr::PathExpr(7))).handle_await();
    let expanded = r.expect("await of a plain path rewrites");
    // the expansion is a block that first binds the nested computation,
    // then loops: poll, break out with the value when ready, pause otherwise
    match expanded {
        Expr::BlockExpr(b) => match b.stmts {
            NodeList::Cons(first, rest) => {
                assert_eq!(first, Stmt::Local(Some(Box::new(Expr::PathExpr(7)))));
                match *rest {
                    NodeList::Cons(second, tail) => {
                        assert!(matches!(*tail, NodeList::Nil));
                        match second {
                            Stmt::ExprStmt(e) => match *e {
                                Expr::LoopExpr(lb) => match lb.stmts {
                                    NodeList::Cons(poll_stmt, loop_rest) => {
                                        assert_eq!(
                                            poll_stmt,
                                            Stmt::ExprStmt(Box::new(Expr::IfElse(
                                                Box::new(Expr::CtxPollReady),
                                                Block {
                                                    stmts: NodeList::Cons(
                                                        Stmt::ExprStmt(Box::new(Expr::BreakExpr(
                                                            Some(Box::new(Expr::NestedValue))
                                                        ))),
                                                        Box::new(NodeList::Nil),
                                                    )
                                                },
                                                None,
                                            )))
                                        );
                                        match *loop_rest {
                                            NodeList::Cons(pause, nil) => {
                                                assert_eq!(
                                                    pause,
                                                    Stmt::ExprStmt(Box::new(Expr::PrimYield))
                                                );
                                                assert!(matches!(*nil, NodeList::Nil));
                                            }
                                            NodeList::Nil => panic!("loop must pause"),
                                        }
                                    }
                                    NodeList::Nil => panic!("loop body must poll"),
                                },
                                other => panic!("expected a loop, got {:?}", other),
                            },
                            other => panic!("expected a loop statement, got {:?}", other),
                        }
                    }
                    NodeList::Nil => panic!("expansion must loop after binding"),
                }
            }
            NodeList::Nil => panic!("expansion must bind the nested computation"),
        },
        other => panic!("expected a block, got {:?}", other),
    }
}

#[test]
fn markers_inside_awaited_expression_are_expanded() {
    // a marker nested inside the awaited expression is itself rewritten
    let r = Expr::Await(Box::new(Expr::Suspend(Some(Box::new(Expr::Lit(0)))))).handle_await();
    assert_eq!(r, Err(RewriteError::ValuedSuspend));
}

#[test]
fn nested_pausable_block_is_rejected() {
    let inner = Block { stmts: NodeList::Nil };
    let r = Expr::AsyncBlock(inner).handle_await();
    assert_eq!(r, Err(RewriteError::NestedPausable));
}

#[test]
fn unrecognized_form_is_rejected() {
    let r = Expr::Unrecognized(9).handle_await();
    assert_eq!(r, Err(RewriteError::Unsupported));
}

#[test]
fn errors_surface_from_deep_inside() {
    let e = Expr::Binary(
        Box::new(Expr::Lit(1)),
        Box::new(Expr::Tuple(Box::new(NodeList::Cons(
            Expr::Suspend(Some(Box::new(Expr::Lit(2)))),
            Box::new(NodeList::Nil),
        )))),
    );
    assert_eq!(e.handle_await(), Err(RewriteError::ValuedSuspend));
}

#[test]
fn closure_bodies_are_left_untouched() {
    // a marker inside a closure belongs to another suspension context
    let e = Expr::Closure(Box::new(Expr::Suspend(None)));
    let r = e.handle_await();
    assert_eq!(r, Ok(Expr::Closure(Box::new(Expr::Suspend(None)))));
}

#[test]
fn plain_forms_pass_through_unchanged() {
    let e = Expr::Binary(Box::new(Expr::Lit(1)), Box::new(Expr::PathExpr(2)));
    let r = e.handle_await();
    assert_eq!(
        r,
        Ok(Expr::Binary(Box::new(Expr::Lit(1)), Box::new(Expr::PathExpr(2))))
    );
}

#[test]
fn coasync_rewrites_body_and_keeps_output() {
    let f = FnDef {
        output: ReturnTy::Named(3),
        body: Block {
            stmts: NodeList::Cons(
                Stmt::Semi(Box::new(Expr::Suspend(None))),
                Box::new(NodeList::Cons(
                    Stmt::ExprStmt(Box::new(Expr::Lit(42))),
                    Box::new(NodeList::Nil),
                )),
            ),
        },
    };
    let p = coasync(f).expect("a body of a suspend and a literal rewrites");
    assert_eq!(p.output, ReturnTy::Named(3));
    assert_eq!(
        p.factory_body,
        Block {
            stmts: NodeList::Cons(
                Stmt::Semi(Box::new(suspend_expanded())),
                Box::new(NodeList::Cons(
                    Stmt::ExprStmt(Box::new(Expr::Lit(42))),
                    Box::new(NodeList::Nil),
                )),
            ),
        }
    );
}

#[test]
fn coasync_aborts_on_a_bad_body() {
    let f = FnDef {
        output: ReturnTy::DefaultUnit,
        body: Block {
            stmts: NodeList::Cons(
                Stmt::ExprStmt(Box::new(Expr::AsyncBlock(Block { stmts: NodeList::Nil }))),
                Box::new(NodeList::Nil),
            ),
        },
    };
    assert_eq!(coasync(f), Err(RewriteError::NestedPausable));
}
