use crate::ast::{Arm, Block, Expr, NodeList, Stmt};
use vstd::prelude::*;

verus! {

/// Why a rewrite was aborted.
#[derive(Clone, Copy, PartialEq, Eq, Structural, Debug)]
pub enum RewriteError {
    /// The suspend marker carried a value; only the bare form is supported.
    ValuedSuspend,
    /// A pausable block was nested directly inside another.
    NestedPausable,
    /// An expression form the rewriter cannot recognize.
    Unsupported,
}

/// The expansion of `await(E)`: bind the (already rewritten) inner
/// expression to a local nested computation; then repeatedly ask the waker
/// context to poll it with the current handle, breaking out with the final
/// value once it is ready, and pausing to retry on the next resumption
/// otherwise.
pub open spec fn await_expansion(inner: Expr) -> Expr {
    Expr::BlockExpr(
        Block {
            stmts: NodeList::Cons(
                Stmt::Local(Some(Box::new(inner))),
                Box::new(
                    NodeList::Cons(
                        Stmt::ExprStmt(
                            Box::new(
                                Expr::LoopExpr(
                                    Block {
                                        stmts: NodeList::Cons(
                                            Stmt::ExprStmt(
                                                Box::new(
                                                    Expr::IfElse(
                                                        Box::new(Expr::CtxPollReady),
                                                        Block {
                                                            stmts: NodeList::Cons(
                                                                Stmt::ExprStmt(
                                                                    Box::new(
                                                                        Expr::BreakExpr(
                                                                            Some(
                                                                                Box::new(
                                                                                    Expr::NestedValue,
                                                                                ),
                                                                            ),
                                                                        ),
                                                                    ),
                                                                ),
                                                                Box::new(NodeList::Nil),
                                                            ),
                                                        },
                                                        None,
                                                    ),
                                                ),
                                            ),
                                            Box::new(
                                                NodeList::Cons(
                                                    Stmt::ExprStmt(Box::new(Expr::PrimYield)),
                                                    Box::new(NodeList::Nil),
                                                ),
                                            ),
                                        ),
                                    },
                                ),
                            ),
                        ),
                        Box::new(NodeList::Nil),
                    ),
                ),
            ),
        },
    )
}

/// The expansion of a bare suspend: ask the waker context to notify the
/// current handle to re-run soon, then pause.
pub open spec fn suspend_expansion() -> Expr {
    Expr::BlockExpr(
        Block {
            stmts: NodeList::Cons(
                Stmt::Semi(Box::new(Expr::CtxWake)),
                Box::new(
                    NodeList::Cons(
                        Stmt::ExprStmt(Box::new(Expr::PrimYield)),
                        Box::new(NodeList::Nil),
                    ),
                ),
            ),
        },
    )
}

/// The rewritten form of an expression, or the error that aborts the
/// rewrite. The rules descend, depth first and left to right, into every
/// sub-expression; the first error wins. A closure body is left untouched:
/// markers inside it belong to a different, independent suspension context.
pub open spec fn rewritten(e: Expr) -> Result<Expr, RewriteError>
    decreases e,
{
    match e {
        Expr::Lit(t) => Ok(Expr::Lit(t)),
        Expr::PathExpr(t) => Ok(Expr::PathExpr(t)),
        Expr::Unary(a) => match rewritten(*a) {
            Ok(a2) => Ok(Expr::Unary(Box::new(a2))),
            Err(er) => Err(er),
        },
        Expr::Binary(l, r) => match rewritten(*l) {
            Ok(l2) => match rewritten(*r) {
                Ok(r2) => Ok(Expr::Binary(Box::new(l2), Box::new(r2))),
                Err(er) => Err(er),
            },
            Err(er) => Err(er),
        },
        Expr::Call(f, args) => match rewritten(*f) {
            Ok(f2) => match rewritten_exprs(*args) {
                Ok(a2) => Ok(Expr::Call(Box::new(f2), Box::new(a2))),
                Err(er) => Err(er),
            },
            Err(er) => Err(er),
        },
        Expr::MethodCall(recv, args) => match rewritten(*recv) {
            Ok(r2) => match rewritten_exprs(*args) {
                Ok(a2) => Ok(Expr::MethodCall(Box::new(r2), Box::new(a2))),
                Err(er) => Err(er),
            },
            Err(er) => Err(er),
        },
        Expr::Tuple(elems) => match rewritten_exprs(*elems) {
            Ok(e2) => Ok(Expr::Tuple(Box::new(e2))),
            Err(er) => Err(er),
        },
        Expr::ArrayLit(elems) => match rewritten_exprs(*elems) {
            Ok(e2) => Ok(Expr::ArrayLit(Box::new(e2))),
            Err(er) => Err(er),
        },
        Expr::Repeat(a) => match rewritten(*a) {
            Ok(a2) => Ok(Expr::Repeat(Box::new(a2))),
            Err(er) => Err(er),
        },
        Expr::StructLit(fields, rest) => match rewritten_exprs(*fields) {
            Ok(f2) => match rewritten_opt(rest) {
                Ok(r2) => Ok(Expr::StructLit(Box::new(f2), r2)),
                Err(er) => Err(er),
            },
            Err(er) => Err(er),
        },
        Expr::Cast(a) => match rewritten(*a) {
            Ok(a2) => Ok(Expr::Cast(Box::new(a2))),
            Err(er) => Err(er),
        },
        Expr::Ascription(a) => match rewritten(*a) {
            Ok(a2) => Ok(Expr::Ascription(Box::new(a2))),
            Err(er) => Err(er),
        },
        Expr::LetCond(a) => match rewritten(*a) {
            Ok(a2) => Ok(Expr::LetCond(Box::new(a2))),
            Err(er) => Err(er),
        },
        Expr::IfElse(cond, then, els) => match rewritten(*cond) {
            Ok(c2) => match rewritten_block(then) {
                Ok(t2) => match rewritten_opt(els) {
                    Ok(e2) => Ok(Expr::IfElse(Box::new(c2), t2, e2)),
                    Err(er) => Err(er),
                },
                Err(er) => Err(er),
            },
            Err(er) => Err(er),
        },
        Expr::WhileLoop(cond, body) => match rewritten(*cond) {
            Ok(c2) => match rewritten_block(body) {
                Ok(b2) => Ok(Expr::WhileLoop(Box::new(c2), b2)),
                Err(er) => Err(er),
            },
            Err(er) => Err(er),
        },
        Expr::ForLoop(iter, body) => match rewritten(*iter) {
            Ok(i2) => match rewritten_block(body) {
                Ok(b2) => Ok(Expr::ForLoop(Box::new(i2), b2)),
                Err(er) => Err(er),
            },
            Err(er) => Err(er),
        },
        Expr::LoopExpr(body) => match rewritten_block(body) {
            Ok(b2) => Ok(Expr::LoopExpr(b2)),
            Err(er) => Err(er),
        },
        Expr::MatchExpr(scrut, arms) => match rewritten(*scrut) {
            Ok(s2) => match rewritten_arms(*arms) {
                Ok(a2) => Ok(Expr::MatchExpr(Box::new(s2), Box::new(a2))),
                Err(er) => Err(er),
            },
            Err(er) => Err(er),
        },
        Expr::Closure(body) => Ok(Expr::Closure(body)),
        Expr::UnsafeBlock(b) => match rewritten_block(b) {
            Ok(b2) => Ok(Expr::UnsafeBlock(b2)),
            Err(er) => Err(er),
        },
        Expr::BlockExpr(b) => match rewritten_block(b) {
            Ok(b2) => Ok(Expr::BlockExpr(b2)),
            Err(er) => Err(er),
        },
        Expr::Assign(l, r) => match rewritten(*l) {
            Ok(l2) => match rewritten(*r) {
                Ok(r2) => Ok(Expr::Assign(Box::new(l2), Box::new(r2))),
                Err(er) => Err(er),
            },
            Err(er) => Err(er),
        },
        Expr::AssignOp(l, r) => match rewritten(*l) {
            Ok(l2) => match rewritten(*r) {
                Ok(r2) => Ok(Expr::AssignOp(Box::new(l2), Box::new(r2))),
                Err(er) => Err(er),
            },
            Err(er) => Err(er),
        },
        Expr::FieldAccess(a) => match rewritten(*a) {
            Ok(a2) => Ok(Expr::FieldAccess(Box::new(a2))),
            Err(er) => Err(er),
        },
        Expr::IndexExpr(a, i) => match rewritten(*a) {
            Ok(a2) => match rewritten(*i) {
                Ok(i2) => Ok(Expr::IndexExpr(Box::new(a2), Box::new(i2))),
                Err(er) => Err(er),
            },
            Err(er) => Err(er),
        },
        Expr::RangeExpr(from, to) => match rewritten_opt(from) {
            Ok(f2) => match rewritten_opt(to) {
                Ok(t2) => Ok(Expr::RangeExpr(f2, t2)),
                Err(er) => Err(er),
            },
            Err(er) => Err(er),
        },
        Expr::Reference(a) => match rewritten(*a) {
            Ok(a2) => Ok(Expr::Reference(Box::new(a2))),
            Err(er) => Err(er),
        },
        Expr::BreakExpr(v) => match rewritten_opt(v) {
            Ok(v2) => Ok(Expr::BreakExpr(v2)),
            Err(er) => Err(er),
        },
        Expr::ContinueExpr => Ok(Expr::ContinueExpr),
        Expr::ReturnExpr(v) => match rewritten_opt(v) {
            Ok(v2) => Ok(Expr::ReturnExpr(v2)),
            Err(er) => Err(er),
        },
        Expr::MacroCall(t) => Ok(Expr::MacroCall(t)),
        Expr::TryExpr(a) => match rewritten(*a) {
            Ok(a2) => Ok(Expr::TryExpr(Box::new(a2))),
            Err(er) => Err(er),
        },
        Expr::Await(inner) => match rewritten(*inner) {
            Ok(i2) => Ok(await_expansion(i2)),
            Err(er) => Err(er),
        },
        Expr::Suspend(v) => if v is Some {
            Err(RewriteError::ValuedSuspend)
        } else {
            Ok(suspend_expansion())
        },
        Expr::AsyncBlock(_) => Err(RewriteError::NestedPausable),
        Expr::Unrecognized(_) => Err(RewriteError::Unsupported),
        Expr::CtxPollReady => Ok(Expr::CtxPollReady),
        Expr::NestedValue => Ok(Expr::NestedValue),
        Expr::CtxWake => Ok(Expr::CtxWake),
        Expr::PrimYield => Ok(Expr::PrimYield),
    }
}

/// The rewritten form of an optional sub-expression.
pub open spec fn rewritten_opt(o: Option<Box<Expr>>) -> Result<
    Option<Box<Expr>>,
    RewriteError,
>
    decreases o,
{
    match o {
        None => Ok(None),
        Some(b) => match rewritten(*b) {
            Ok(e2) => Ok(Some(Box::new(e2))),
            Err(er) => Err(er),
        },
    }
}

/// The rewritten form of a list of expressions, left to right.
pub open spec fn rewritten_exprs(l: NodeList<Expr>) -> Result<NodeList<Expr>, RewriteError>
    decreases l,
{
    match l {
        NodeList::Nil => Ok(NodeList::Nil),
        NodeList::Cons(e, rest) => match rewritten(e) {
            Ok(e2) => match rewritten_exprs(*rest) {
                Ok(r2) => Ok(NodeList::Cons(e2, Box::new(r2))),
                Err(er) => Err(er),
            },
            Err(er) => Err(er),
        },
    }
}

/// The rewritten form of a block.
pub open spec fn rewritten_block(b: Block) -> Result<Block, RewriteError>
    decreases b,
{
    match rewritten_stmts(b.stmts) {
        Ok(s2) => Ok(Block { stmts: s2 }),
        Err(er) => Err(er),
    }
}

/// The rewritten form of a list of statements, in order.
pub open spec fn rewritten_stmts(l: NodeList<Stmt>) -> Result<NodeList<Stmt>, RewriteError>
    decreases l,
{
    match l {
        NodeList::Nil => Ok(NodeList::Nil),
        NodeList::Cons(s, rest) => match rewritten_stmt(s) {
            Ok(s2) => match rewritten_stmts(*rest) {
                Ok(r2) => Ok(NodeList::Cons(s2, Box::new(r2))),
                Err(er) => Err(er),
            },
            Err(er) => Err(er),
        },
    }
}

/// The rewritten form of a statement. Nested item declarations are left
/// alone.
pub open spec fn rewritten_stmt(s: Stmt) -> Result<Stmt, RewriteError>
    decreases s,
{
    match s {
        Stmt::Local(o) => match rewritten_opt(o) {
            Ok(o2) => Ok(Stmt::Local(o2)),
            Err(er) => Err(er),
        },
        Stmt::ItemDecl => Ok(Stmt::ItemDecl),
        Stmt::ExprStmt(e) => match rewritten(*e) {
            Ok(e2) => Ok(Stmt::ExprStmt(Box::new(e2))),
            Err(er) => Err(er),
        },
        Stmt::Semi(e) => match rewritten(*e) {
            Ok(e2) => Ok(Stmt::Semi(Box::new(e2))),
            Err(er) => Err(er),
        },
    }
}

/// Build the expansion of `await(E)` around the already rewritten inner
/// expression.
pub fn build_await(inner: Expr) -> (r: Expr)
    ensures
        r == await_expansion(inner),
{
    Expr::BlockExpr(
        Block {
            stmts: NodeList::Cons(
                Stmt::Local(Some(Box::new(inner))),
                Box::new(
                    NodeList::Cons(
                        Stmt::ExprStmt(
                            Box::new(
                                Expr::LoopExpr(
                                    Block {
                                        stmts: NodeList::Cons(
                                            Stmt::ExprStmt(
                                                Box::new(
                                                    Expr::IfElse(
                                                        Box::new(Expr::CtxPollReady),
                                                        Block {
                                                            stmts: NodeList::Cons(
                                                                Stmt::ExprStmt(
                                                                    Box::new(
                                                                        Expr::BreakExpr(
                                                                            Some(
                                                                                Box::new(
                                                                                    Expr::NestedValue,
                                                                                ),
                                                                            ),
                                                                        ),
                                                                    ),
                                                                ),
                                                                Box::new(NodeList::Nil),
                                                            ),
                                                        },
                                                        None,
                                                    ),
                                                ),
                                            ),
                                            Box::new(
                                                NodeList::Cons(
                                                    Stmt::ExprStmt(Box::new(Expr::PrimYield)),
                                                    Box::new(NodeList::Nil),
                                                ),
                                            ),
                                        ),
                                    },
                                ),
                            ),
                        ),
                        Box::new(NodeList::Nil),
                    ),
                ),
            ),
        },
    )
}

/// Build the expansion of a bare suspend.
pub fn build_yield() -> (r: Expr)
    ensures
        r == suspend_expansion(),
{
    Expr::BlockExpr(
        Block {
            stmts: NodeList::Cons(
                Stmt::Semi(Box::new(Expr::CtxWake)),
                Box::new(
                    NodeList::Cons(
                        Stmt::ExprStmt(Box::new(Expr::PrimYield)),
                        Box::new(NodeList::Nil),
                    ),
                ),
            ),
        },
    )
}

impl Expr {
    /// Expand every marker in this expression, or report why the rewrite
    /// was aborted.
    pub fn handle_await(self) -> (r: Result<Expr, RewriteError>)
        ensures
            r == rewritten(self),
        decreases self,
    {
        match self {
            Expr::Lit(t) => Ok(Expr::Lit(t)),
            Expr::PathExpr(t) => Ok(Expr::PathExpr(t)),
            Expr::Unary(a) => match (*a).handle_await() {
                Ok(a2) => Ok(Expr::Unary(Box::new(a2))),
                Err(er) => Err(er),
            },
            Expr::Binary(l, r) => match (*l).handle_await() {
                Ok(l2) => match (*r).handle_await() {
                    Ok(r2) => Ok(Expr::Binary(Box::new(l2), Box::new(r2))),
                    Err(er) => Err(er),
                },
                Err(er) => Err(er),
            },
            Expr::Call(f, args) => match (*f).handle_await() {
                Ok(f2) => match rewrite_exprs(*args) {
                    Ok(a2) => Ok(Expr::Call(Box::new(f2), Box::new(a2))),
                    Err(er) => Err(er),
                },
                Err(er) => Err(er),
            },
            Expr::MethodCall(recv, args) => match (*recv).handle_await() {
                Ok(r2) => match rewrite_exprs(*args) {
                    Ok(a2) => Ok(Expr::MethodCall(Box::new(r2), Box::new(a2))),
                    Err(er) => Err(er),
                },
                Err(er) => Err(er),
            },
            Expr::Tuple(elems) => match rewrite_exprs(*elems) {
                Ok(e2) => Ok(Expr::Tuple(Box::new(e2))),
                Err(er) => Err(er),
            },
            Expr::ArrayLit(elems) => match rewrite_exprs(*elems) {
                Ok(e2) => Ok(Expr::ArrayLit(Box::new(e2))),
                Err(er) => Err(er),
            },
            Expr::Repeat(a) => match (*a).handle_await() {
                Ok(a2) => Ok(Expr::Repeat(Box::new(a2))),
                Err(er) => Err(er),
            },
            Expr::StructLit(fields, rest) => match rewrite_exprs(*fields) {
                Ok(f2) => match rewrite_opt(rest) {
                    Ok(r2) => Ok(Expr::StructLit(Box::new(f2), r2)),
                    Err(er) => Err(er),
                },
                Err(er) => Err(er),
            },
            Expr::Cast(a) => match (*a).handle_await() {
                Ok(a2) => Ok(Expr::Cast(Box::new(a2))),
                Err(er) => Err(er),
            },
            Expr::Ascription(a) => match (*a).handle_await() {
                Ok(a2) => Ok(Expr::Ascription(Box::new(a2))),
                Err(er) => Err(er),
            },
            Expr::LetCond(a) => match (*a).handle_await() {
                Ok(a2) => Ok(Expr::LetCond(Box::new(a2))),
                Err(er) => Err(er),
            },
            Expr::IfElse(cond, then, els) => match (*cond).handle_await() {
                Ok(c2) => match then.handle_await() {
                    Ok(t2) => match rewrite_opt(els) {
                        Ok(e2) => Ok(Expr::IfElse(Box::new(c2), t2, e2)),
                        Err(er) => Err(er),
                    },
                    Err(er) => Err(er),
                },
                Err(er) => Err(er),
            },
            Expr::WhileLoop(cond, body) => match (*cond).handle_await() {
                Ok(c2) => match body.handle_await() {
                    Ok(b2) => Ok(Expr::WhileLoop(Box::new(c2), b2)),
                    Err(er) => Err(er),
                },
                Err(er) => Err(er),
            },
            Expr::ForLoop(iter, body) => match (*iter).handle_await() {
                Ok(i2) => match body.handle_await() {
                    Ok(b2) => Ok(Expr::ForLoop(Box::new(i2), b2)),
                    Err(er) => Err(er),
                },
                Err(er) => Err(er),
            },
            Expr::LoopExpr(body) => match body.handle_await() {
                Ok(b2) => Ok(Expr::LoopExpr(b2)),
                Err(er) => Err(er),
            },
            Expr::MatchExpr(scrut, arms) => match (*scrut).handle_await() {
                Ok(s2) => match rewrite_arms(*arms) {
                    Ok(a2) => Ok(Expr::MatchExpr(Box::new(s2), Box::new(a2))),
                    Err(er) => Err(er),
                },
                Err(er) => Err(er),
            },
            Expr::Closure(body) => Ok(Expr::Closure(body)),
            Expr::UnsafeBlock(b) => match b.handle_await() {
                Ok(b2) => Ok(Expr::UnsafeBlock(b2)),
                Err(er) => Err(er),
            },
            Expr::BlockExpr(b) => match b.handle_await() {
                Ok(b2) => Ok(Expr::BlockExpr(b2)),
                Err(er) => Err(er),
            },
            Expr::Assign(l, r) => match (*l).handle_await() {
                Ok(l2) => match (*r).handle_await() {
                    Ok(r2) => Ok(Expr::Assign(Box::new(l2), Box::new(r2))),
                    Err(er) => Err(er),
                },
                Err(er) => Err(er),
            },
            Expr::AssignOp(l, r) => match (*l).handle_await() {
                Ok(l2) => match (*r).handle_await() {
                    Ok(r2) => Ok(Expr::AssignOp(Box::new(l2), Box::new(r2))),
                    Err(er) => Err(er),
                },
                Err(er) => Err(er),
            },
            Expr::FieldAccess(a) => match (*a).handle_await() {
                Ok(a2) => Ok(Expr::FieldAccess(Box::new(a2))),
                Err(er) => Err(er),
            },
            Expr::IndexExpr(a, i) => match (*a).handle_await() {
                Ok(a2) => match (*i).handle_await() {
                    Ok(i2) => Ok(Expr::IndexExpr(Box::new(a2), Box::new(i2))),
                    Err(er) => Err(er),
                },
                Err(er) => Err(er),
            },
            Expr::RangeExpr(from, to) => match rewrite_opt(from) {
                Ok(f2) => match rewrite_opt(to) {
                    Ok(t2) => Ok(Expr::RangeExpr(f2, t2)),
                    Err(er) => Err(er),
                },
                Err(er) => Err(er),
            },
            Expr::Reference(a) => match (*a).handle_await() {
                Ok(a2) => Ok(Expr::Reference(Box::new(a2))),
                Err(er) => Err(er),
            },
            Expr::BreakExpr(v) => match rewrite_opt(v) {
                Ok(v2) => Ok(Expr::BreakExpr(v2)),
                Err(er) => Err(er),
            },
            Expr::ContinueExpr => Ok(Expr::ContinueExpr),
            Expr::ReturnExpr(v) => match rewrite_opt(v) {
                Ok(v2) => Ok(Expr::ReturnExpr(v2)),
                Err(er) => Err(er),
            },
            Expr::MacroCall(t) => Ok(Expr::MacroCall(t)),
            Expr::TryExpr(a) => match (*a).handle_await() {
                Ok(a2) => Ok(Expr::TryExpr(Box::new(a2))),
                Err(er) => Err(er),
            },
            Expr::Await(inner) => match (*inner).handle_await() {
                Ok(i2) => Ok(build_await(i2)),
                Err(er) => Err(er),
            },
            Expr::Suspend(v) => if v.is_some() {
                Err(RewriteError::ValuedSuspend)
            } else {
                Ok(build_yield())
            },
            Expr::AsyncBlock(_) => Err(RewriteError::NestedPausable),
            Expr::Unrecognized(_) => Err(RewriteError::Unsupported),
            Expr::CtxPollReady => Ok(Expr::CtxPollReady),
            Expr::NestedValue => Ok(Expr::NestedValue),
            Expr::CtxWake => Ok(Expr::CtxWake),
            Expr::PrimYield => Ok(Expr::PrimYield),
        }
    }
}

impl Block {
    /// Expand every marker in the statements of this block.
    pub fn handle_await(self) -> (r: Result<Block, RewriteError>)
        ensures
            r == rewritten_block(self),
        decreases self,
    {
        match rewrite_stmts(self.stmts) {
            Ok(s2) => Ok(Block { stmts: s2 }),
            Err(er) => Err(er),
        }
    }
}

impl Stmt {
    /// Expand every marker in this statement.
    pub fn handle_await(self) -> (r: Result<Stmt, RewriteError>)
        ensures
            r == rewritten_stmt(self),
        decreases self,
    {
        match self {
            Stmt::Local(o) => match rewrite_opt(o) {
                Ok(o2) => Ok(Stmt::Local(o2)),
                Err(er) => Err(er),
            },
            Stmt::ItemDecl => Ok(Stmt::ItemDecl),
            Stmt::ExprStmt(e) => match (*e).handle_await() {
                Ok(e2) => Ok(Stmt::ExprStmt(Box::new(e2))),
                Err(er) => Err(er),
            },
            Stmt::Semi(e) => match (*e).handle_await() {
                Ok(e2) => Ok(Stmt::Semi(Box::new(e2))),
                Err(er) => Err(er),
            },
        }
    }
}

/// Expand every marker in an optional sub-expression.
pub fn rewrite_opt(o: Option<Box<Expr>>) -> (r: Result<Option<Box<Expr>>, RewriteError>)
    ensures
        r == rewritten_opt(o),
    decreases o,
{
    match o {
        None => Ok(None),
        Some(b) => match (*b).handle_await() {
            Ok(e2) => Ok(Some(Box::new(e2))),
            Err(er) => Err(er),
        },
    }
}

/// Expand every marker in a list of expressions, left to right.
pub fn rewrite_exprs(l: NodeList<Expr>) -> (r: Result<NodeList<Expr>, RewriteError>)
    ensures
        r == rewritten_exprs(l),
    decreases l,
{
    match l {
        NodeList::Nil => Ok(NodeList::Nil),
        NodeList::Cons(e, rest) => match e.handle_await() {
            Ok(e2) => match rewrite_exprs(*rest) {
                Ok(r2) => Ok(NodeList::Cons(e2, Box::new(r2))),
                Err(er) => Err(er),
            },
            Err(er) => Err(er),
        },
    }
}

/// Expand every marker in a list of statements, in order.
pub fn rewrite_stmts(l: NodeList<Stmt>) -> (r: Result<NodeList<Stmt>, RewriteError>)
    ensures
        r == rewritten_stmts(l),
    decreases l,
{
    match l {
        NodeList::Nil => Ok(NodeList::Nil),
        NodeList::Cons(s, rest) => match s.handle_await() {
            Ok(s2) => match rewrite_stmts(*rest) {
                Ok(r2) => Ok(NodeList::Cons(s2, Box::new(r2))),
                Err(er) => Err(er),
            },
            Err(er) => Err(er),
        },
    }
}

/// Expand every marker in a list of match arms: each guard, then each body.
pub fn rewrite_arms(l: NodeList<Arm>) -> (r: Result<NodeList<Arm>, RewriteError>)
    ensures
        r == rewritten_arms(l),
    decreases l,
{
    match l {
        NodeList::Nil => Ok(NodeList::Nil),
        NodeList::Cons(a, rest) => match rewrite_opt(a.guard) {
            Ok(g2) => match (*a.body).handle_await() {
                Ok(b2) => match rewrite_arms(*rest) {
                    Ok(r2) => Ok(
                        NodeList::Cons(Arm { guard: g2, body: Box::new(b2) }, Box::new(r2)),
                    ),
                    Err(er) => Err(er),
                },
                Err(er) => Err(er),
            },
            Err(er) => Err(er),
        },
    }
}

/// The rewritten form of a list of match arms: each guard, then each body.
pub open spec fn rewritten_arms(l: NodeList<Arm>) -> Result<NodeList<Arm>, RewriteError>
    decreases l,
{
    match l {
        NodeList::Nil => Ok(NodeList::Nil),
        NodeList::Cons(a, rest) => match rewritten_opt(a.guard) {
            Ok(g2) => match rewritten(*a.body) {
                Ok(b2) => match rewritten_arms(*rest) {
                    Ok(r2) => Ok(
                        NodeList::Cons(Arm { guard: g2, body: Box::new(b2) }, Box::new(r2)),
                    ),
                    Err(er) => Err(er),
                },
                Err(er) => Err(er),
            },
            Err(er) => Err(er),
        },
    }
}

/// The declared return type of a function under rewrite.
#[derive(Clone, Copy, PartialEq, Eq, Structural, Debug)]
pub enum ReturnTy {
    /// No declared return type; the output is the unit value.
    DefaultUnit,
    /// A named return type; the token is opaque.
    Named(u64),
}

/// A function definition as handed to the rewriter: its declared return
/// type and its body.
#[derive(PartialEq, Eq, Debug)]
pub struct FnDef {
    pub output: ReturnTy,
    pub body: Block,
}

/// A function made pausable. Its declared return type `T` has been rewritten
/// into "a future-like type with output `T`" (the `output` field records
/// that `T`), and its original body has been replaced: the rewritten body is
/// wrapped in a two-layer closure -- an outer factory that accepts a waker
/// context and returns an inner zero-argument resumable procedure running
/// `factory_body` -- and the new body merely constructs a coroutine adapter
/// from that factory and returns it at once, so calling the function never
/// blocks.
#[derive(PartialEq, Eq, Debug)]
pub struct PausableFn {
    pub output: ReturnTy,
    pub factory_body: Block,
}

/// The result of making a function pausable.
pub open spec fn coasync_spec(f: FnDef) -> Result<PausableFn, RewriteError> {
    match rewritten_block(f.body) {
        Ok(b2) => Ok(PausableFn { output: f.output, factory_body: b2 }),
        Err(er) => Err(er),
    }
}

/// Make a function pausable: expand the markers in its body and record the
/// output type its poll contract will carry. A failure aborts the whole
/// transformation with its diagnostic.
pub fn coasync(f: FnDef) -> (r: Result<PausableFn, RewriteError>)
    ensures
        r == coasync_spec(f),
{
    match f.body.handle_await() {
        Ok(b2) => Ok(PausableFn { output: f.output, factory_body: b2 }),
        Err(er) => Err(er),
    }
}

/// No marker remains in this expression at an active position (a closure
/// body is not active: markers inside it are deliberately untouched).
pub open spec fn markers_clear(e: Expr) -> bool
    decreases e,
{
    match e {
        Expr::Lit(_) => true,
        Expr::PathExpr(_) => true,
        Expr::Unary(a) => markers_clear(*a),
        Expr::Binary(l, r) => markers_clear(*l) && markers_clear(*r),
        Expr::Call(f, args) => markers_clear(*f) && exprs_clear(*args),
        Expr::MethodCall(recv, args) => markers_clear(*recv) && exprs_clear(*args),
        Expr::Tuple(es) => exprs_clear(*es),
        Expr::ArrayLit(es) => exprs_clear(*es),
        Expr::Repeat(a) => markers_clear(*a),
        Expr::StructLit(fs, rest) => exprs_clear(*fs) && opt_clear(rest),
        Expr::Cast(a) => markers_clear(*a),
        Expr::Ascription(a) => markers_clear(*a),
        Expr::LetCond(a) => markers_clear(*a),
        Expr::IfElse(c, t, e2) => markers_clear(*c) && block_clear(t) && opt_clear(e2),
        Expr::WhileLoop(c, b) => markers_clear(*c) && block_clear(b),
        Expr::ForLoop(i, b) => markers_clear(*i) && block_clear(b),
        Expr::LoopExpr(b) => block_clear(b),
        Expr::MatchExpr(s, arms) => markers_clear(*s) && arms_clear(*arms),
        Expr::Closure(_) => true,
        Expr::UnsafeBlock(b) => block_clear(b),
        Expr::BlockExpr(b) => block_clear(b),
        Expr::Assign(l, r) => markers_clear(*l) && markers_clear(*r),
        Expr::AssignOp(l, r) => markers_clear(*l) && markers_clear(*r),
        Expr::FieldAccess(a) => markers_clear(*a),
        Expr::IndexExpr(a, i) => markers_clear(*a) && markers_clear(*i),
        Expr::RangeExpr(f, t) => opt_clear(f) && opt_clear(t),
        Expr::Reference(a) => markers_clear(*a),
        Expr::BreakExpr(v) => opt_clear(v),
        Expr::ContinueExpr => true,
        Expr::ReturnExpr(v) => opt_clear(v),
        Expr::MacroCall(_) => true,
        Expr::TryExpr(a) => markers_clear(*a),
        Expr::Await(_) => false,
        Expr::Suspend(_) => false,
        Expr::AsyncBlock(b) => block_clear(b),
        Expr::Unrecognized(_) => true,
        Expr::CtxPollReady => true,
        Expr::NestedValue => true,
        Expr::CtxWake => true,
        Expr::PrimYield => true,
    }
}

pub open spec fn opt_clear(o: Option<Box<Expr>>) -> bool
    decreases o,
{
    match o {
        None => true,
        Some(b) => markers_clear(*b),
    }
}

pub open spec fn exprs_clear(l: NodeList<Expr>) -> bool
    decreases l,
{
    match l {
        NodeList::Nil => true,
        NodeList::Cons(e, rest) => markers_clear(e) && exprs_clear(*rest),
    }
}

pub open spec fn block_clear(b: Block) -> bool
    decreases b,
{
    stmts_clear(b.stmts)
}

pub open spec fn stmts_clear(l: NodeList<Stmt>) -> bool
    decreases l,
{
    match l {
        NodeList::Nil => true,
        NodeList::Cons(s, rest) => stmt_clear(s) && stmts_clear(*rest),
    }
}

pub open spec fn stmt_clear(s: Stmt) -> bool
    decreases s,
{
    match s {
        Stmt::Local(o) => opt_clear(o),
        Stmt::ItemDecl => true,
        Stmt::ExprStmt(e) => markers_clear(*e),
        Stmt::Semi(e) => markers_clear(*e),
    }
}

pub open spec fn arms_clear(l: NodeList<Arm>) -> bool
    decreases l,
{
    match l {
        NodeList::Nil => true,
        NodeList::Cons(a, rest) => opt_clear(a.guard) && markers_clear(*a.body) && arms_clear(
            *rest,
        ),
    }
}

/// The await expansion contains no marker, as long as the rewritten inner
/// expression it embeds contains none; the suspend expansion never does.
pub proof fn lemma_expansions_clear(i: Expr)
    requires
        markers_clear(i),
    ensures
        markers_clear(await_expansion(i)),
        markers_clear(suspend_expansion()),
{
    let nil = NodeList::<Stmt>::Nil;
    let yield_stmt = Stmt::ExprStmt(Box::new(Expr::PrimYield));
    let wake_stmt = Stmt::Semi(Box::new(Expr::CtxWake));
    assert(stmts_clear(nil));
    assert(markers_clear(Expr::PrimYield));
    assert(markers_clear(Expr::CtxWake));
    assert(markers_clear(Expr::CtxPollReady));
    assert(markers_clear(Expr::NestedValue));
    assert(stmt_clear(yield_stmt));
    assert(stmt_clear(wake_stmt));
    assert(stmts_clear(NodeList::Cons(yield_stmt, Box::new(nil))));
    let sblk = Block {
        stmts: NodeList::Cons(
            wake_stmt,
            Box::new(NodeList::Cons(yield_stmt, Box::new(nil))),
        ),
    };
    assert(stmts_clear(sblk.stmts));
    assert(block_clear(sblk));
    assert(markers_clear(Expr::BlockExpr(sblk)));
    assert(suspend_expansion() == Expr::BlockExpr(sblk));
    assert(opt_clear(Some(Box::new(Expr::NestedValue))));
    let brk = Expr::BreakExpr(Some(Box::new(Expr::NestedValue)));
    assert(markers_clear(brk));
    let then_blk = Block { stmts: NodeList::Cons(Stmt::ExprStmt(Box::new(brk)), Box::new(nil)) };
    assert(stmt_clear(Stmt::ExprStmt(Box::new(brk))));
    assert(stmts_clear(then_blk.stmts));
    assert(block_clear(then_blk));
    assert(opt_clear(None::<Box<Expr>>));
    let ife = Expr::IfElse(Box::new(Expr::CtxPollReady), then_blk, None);
    assert(markers_clear(ife));
    let loop_blk = Block {
        stmts: NodeList::Cons(
            Stmt::ExprStmt(Box::new(ife)),
            Box::new(NodeList::Cons(yield_stmt, Box::new(nil))),
        ),
    };
    assert(stmt_clear(Stmt::ExprStmt(Box::new(ife))));
    assert(stmts_clear(loop_blk.stmts));
    assert(block_clear(loop_blk));
    let lp = Expr::LoopExpr(loop_blk);
    assert(markers_clear(lp));
    let bind_stmt = Stmt::Local(Some(Box::new(i)));
    assert(opt_clear(Some(Box::new(i))));
    assert(stmt_clear(bind_stmt));
    let outer = Block {
        stmts: NodeList::Cons(
            bind_stmt,
            Box::new(NodeList::Cons(Stmt::ExprStmt(Box::new(lp)), Box::new(nil))),
        ),
    };
    assert(stmt_clear(Stmt::ExprStmt(Box::new(lp))));
    assert(stmts_clear(NodeList::Cons(Stmt::ExprStmt(Box::new(lp)), Box::new(nil))));
    assert(stmts_clear(outer.stmts));
    assert(block_clear(outer));
    assert(markers_clear(Expr::BlockExpr(outer)));
    assert(await_expansion(i) == Expr::BlockExpr(outer));
}

/// Self-wake, on the rewriter's side: a bare suspend expands into exactly
/// "notify the current handle, then pause", in that order, so the
/// scheduler is always told to retry before the computation reports
/// "pending".
pub proof fn lemma_suspend_expands_to_wake_then_pause()
    ensures
        rewritten(Expr::Suspend(None)) == Ok::<Expr, RewriteError>(
            Expr::BlockExpr(
                (Block {
                    stmts: NodeList::Cons(
                        Stmt::Semi(Box::new(Expr::CtxWake)),
                        Box::new(
                            NodeList::Cons(
                                Stmt::ExprStmt(Box::new(Expr::PrimYield)),
                                Box::new(NodeList::Nil),
                            ),
                        ),
                    ),
                }),
            ),
        ),
{
}

} // verus!
