use vstd::prelude::*;

verus! {

/// A list of syntax nodes (call arguments, statements, match arms).
#[derive(PartialEq, Eq, Debug)]
pub enum NodeList<T> {
    Nil,
    Cons(T, Box<NodeList<T>>),
}

/// A statement of a function body.
#[derive(PartialEq, Eq, Debug)]
pub enum Stmt {
    /// A let-binding, with its initializer expression if it has one. The
    /// pattern and type are opaque to the rewriter.
    Local(Option<Box<Expr>>),
    /// A nested item declaration; the rewriter does not descend into items.
    ItemDecl,
    /// An expression statement without a trailing semicolon.
    ExprStmt(Box<Expr>),
    /// An expression statement with a trailing semicolon.
    Semi(Box<Expr>),
}

/// A brace-delimited sequence of statements.
#[derive(PartialEq, Eq, Debug)]
pub struct Block {
    pub stmts: NodeList<Stmt>,
}

/// One arm of a pattern match: an optional guard expression and the arm's
/// body. The pattern itself holds no expressions and is opaque.
#[derive(PartialEq, Eq, Debug)]
pub struct Arm {
    pub guard: Option<Box<Expr>>,
    pub body: Box<Expr>,
}

/// An expression of a function body, as the syntax rewriter sees it.
///
/// Tokens the rewriter never inspects -- literals, paths, macro bodies --
/// are carried as opaque token identifiers. Two marker forms, [`Expr::Await`]
/// and [`Expr::Suspend`], are what the rewriter expands; the four primitive
/// forms at the end occur only in its output.
#[derive(PartialEq, Eq, Debug)]
pub enum Expr {
    /// A literal; the token is opaque.
    Lit(u64),
    /// A path or bare identifier; opaque.
    PathExpr(u64),
    /// A unary operator applied to an operand.
    Unary(Box<Expr>),
    /// A binary (arithmetic, logical, comparison) operator.
    Binary(Box<Expr>, Box<Expr>),
    /// A call: the callee expression and the arguments.
    Call(Box<Expr>, Box<NodeList<Expr>>),
    /// A method call: the receiver and the arguments; the method name is
    /// opaque.
    MethodCall(Box<Expr>, Box<NodeList<Expr>>),
    /// A tuple literal.
    Tuple(Box<NodeList<Expr>>),
    /// An array literal.
    ArrayLit(Box<NodeList<Expr>>),
    /// A repeated-element array; the length is a constant expression and is
    /// left alone.
    Repeat(Box<Expr>),
    /// A struct literal: the field values, and the functional-update base
    /// if there is one.
    StructLit(Box<NodeList<Expr>>, Option<Box<Expr>>),
    /// A cast of an expression to a type (the type is opaque).
    Cast(Box<Expr>),
    /// A type ascription (the type is opaque).
    Ascription(Box<Expr>),
    /// A `let`-in-condition form: the scrutinee expression.
    LetCond(Box<Expr>),
    /// A conditional: condition, then-block, optional else expression.
    IfElse(Box<Expr>, Block, Option<Box<Expr>>),
    /// A while loop: condition and body.
    WhileLoop(Box<Expr>, Block),
    /// A for loop: the iterated expression and the body.
    ForLoop(Box<Expr>, Block),
    /// An unconditional loop.
    LoopExpr(Block),
    /// A pattern match: the scrutinee and the arms.
    MatchExpr(Box<Expr>, Box<NodeList<Arm>>),
    /// A closure. Its body belongs to a different, independent suspension
    /// context: markers inside it are deliberately left untouched.
    Closure(Box<Expr>),
    /// An unsafe block.
    UnsafeBlock(Block),
    /// A block expression.
    BlockExpr(Block),
    /// An assignment: place and value.
    Assign(Box<Expr>, Box<Expr>),
    /// A compound assignment: place and value.
    AssignOp(Box<Expr>, Box<Expr>),
    /// A field access.
    FieldAccess(Box<Expr>),
    /// An indexing expression: base and index.
    IndexExpr(Box<Expr>, Box<Expr>),
    /// A range, with optional start and end.
    RangeExpr(Option<Box<Expr>>, Option<Box<Expr>>),
    /// Taking a reference.
    Reference(Box<Expr>),
    /// `break`, with an optional value.
    BreakExpr(Option<Box<Expr>>),
    /// `continue`.
    ContinueExpr,
    /// `return`, with an optional value.
    ReturnExpr(Option<Box<Expr>>),
    /// An ordinary macro invocation (not the await marker); opaque.
    MacroCall(u64),
    /// The fallible-propagation form `e?`.
    TryExpr(Box<Expr>),
    /// The marker "await an inner computation".
    Await(Box<Expr>),
    /// The marker "suspend now". Only the bare form is supported; a carried
    /// value makes the rewrite fail.
    Suspend(Option<Box<Expr>>),
    /// An attempt to nest another pausable block directly; the rewrite
    /// rejects it.
    AsyncBlock(Block),
    /// A form the rewriter cannot recognize; the rewrite rejects it.
    Unrecognized(u64),
    /// Primitive, output only: ask the waker context to poll the nested
    /// computation bound by the nearest enclosing await expansion with the
    /// current handle; true exactly if it reported a final value.
    CtxPollReady,
    /// Primitive, output only: the final value that the nested computation
    /// reported.
    NestedValue,
    /// Primitive, output only: ask the waker context to notify the current
    /// handle to re-run soon.
    CtxWake,
    /// Primitive, output only: pause here and hand control back to the
    /// adapter, to resume at this point on the next poll.
    PrimYield,
}

} // verus!
