//! The parser's syntax tree, as plain values: what the translator reads of
//! it. Spans are byte positions in the source file; names, literals and the
//! source text of macro calls are given as the parser's text for them.
use crate::ir::Pos;
use crate::tr::{SelfKind, SepToken, VisKind};
use vstd::prelude::*;

verus! {

#[derive(Clone, Copy, Debug)]
pub struct Span {
    pub lo: Pos,
    pub hi: Pos,
}

#[derive(Debug)]
pub struct Ident {
    pub span: Span,
    /// The name; the root of a global path has the name `{{root}}`.
    pub name: String,
}

#[derive(Debug)]
pub struct Crate {
    pub span: Span,
    pub attrs: Vec<Attribute>,
    pub module: Mod,
}

#[derive(Debug)]
pub struct Mod {
    /// The span of the module's contents.
    pub inner: Span,
    pub items: Vec<Item>,
    /// The module is written in place (not `mod name;`).
    pub inline: bool,
}

#[derive(Debug)]
pub struct Attribute {
    pub span: Span,
    pub is_inner: bool,
    pub kind: AttributeKind,
}

#[derive(Debug)]
pub enum AttributeKind {
    /// A doc comment, with its text.
    Doc(String),
    Meta(MetaItem),
}

#[derive(Debug)]
pub struct MetaItem {
    pub span: Span,
    pub path: Path,
    pub kind: MetaItemKind,
}

#[derive(Debug)]
pub enum MetaItemKind {
    Word,
    NameValue(Lit),
    List(Vec<NestedMetaItem>),
}

#[derive(Debug)]
pub enum NestedMetaItem {
    Literal(Lit),
    MetaItem(MetaItem),
}

/// A literal, with its source text.
#[derive(Debug)]
pub struct Lit {
    pub span: Span,
    pub text: String,
}

#[derive(Debug)]
pub struct Item {
    pub span: Span,
    pub attrs: Vec<Attribute>,
    pub vis: VisKind,
    pub ident: Ident,
    pub kind: ItemKind,
}

#[derive(Debug)]
pub enum ItemKind {
    Mod(Mod),
    /// `extern crate`, with the name of the crate where it is renamed.
    ExternCrate(Option<String>),
    Use(UseTree),
    Ty(Ty, Generics),
    TraitAlias(Generics, Vec<GenericBound>),
    Existential(Vec<GenericBound>, Generics),
    Const(Ty, Expr),
    /// A static, whether it is mutable, its value.
    Static(Ty, bool, Expr),
    Struct(VariantData, Generics),
    Union(Vec<FieldDef>, Generics),
    Enum(Vec<Variant>, Generics),
    ForeignMod(ForeignMod),
    Fn(FnDecl, FnHeader, Generics, Block),
    Trait(TraitDef),
    Impl(ImplDef),
    /// A `macro_rules!` definition, with the source text of its body.
    MacroDef(String),
    Mac(Mac),
}

#[derive(Debug)]
pub struct TraitDef {
    pub is_auto: bool,
    pub is_unsafe: bool,
    pub generics: Generics,
    pub bounds: Vec<GenericBound>,
    pub items: Vec<TraitItem>,
}

#[derive(Debug)]
pub struct ImplDef {
    pub is_unsafe: bool,
    pub is_neg: bool,
    pub is_default: bool,
    pub generics: Generics,
    pub trait_ref: Option<Path>,
    pub ty: Ty,
    pub items: Vec<ImplItem>,
}

#[derive(Debug)]
pub struct UseTree {
    pub span: Span,
    pub prefix: Path,
    pub kind: UseTreeKind,
}

#[derive(Debug)]
pub enum UseTreeKind {
    /// A simple tree, renamed where there is a name.
    Simple(Option<Ident>),
    Glob,
    Nested(Vec<UseTree>),
}

#[derive(Debug)]
pub struct Generics {
    pub params: Vec<GenericParam>,
    pub where_predicates: Vec<WherePredicate>,
}

#[derive(Debug)]
pub struct GenericParam {
    pub ident: Ident,
    pub bounds: Vec<GenericBound>,
    pub kind: GenericParamKind,
}

#[derive(Debug)]
pub enum GenericParamKind {
    Lifetime,
    /// A type parameter, with its default.
    Type(Option<Ty>),
    Const(Ty),
}

#[derive(Debug)]
pub enum GenericBound {
    /// A lifetime, by its name.
    Outlives(Ident),
    /// A trait bound; `true` for `?Trait`.
    Trait(PolyTraitRef, bool),
}

#[derive(Debug)]
pub struct PolyTraitRef {
    pub span: Span,
    pub bound_generic_params: Vec<GenericParam>,
    pub trait_ref: Path,
}

#[derive(Debug)]
pub enum WherePredicate {
    Region(WhereRegionPredicate),
    Bound(WhereBoundPredicate),
}

#[derive(Debug)]
pub struct WhereRegionPredicate {
    pub span: Span,
    pub lifetime: Ident,
    pub bounds: Vec<GenericBound>,
}

#[derive(Debug)]
pub struct WhereBoundPredicate {
    pub span: Span,
    pub bound_generic_params: Vec<GenericParam>,
    pub bounded_ty: Ty,
    pub bounds: Vec<GenericBound>,
}

#[derive(Debug)]
pub struct Path {
    pub span: Span,
    pub segments: Vec<PathSegment>,
}

#[derive(Debug)]
pub struct PathSegment {
    pub ident: Ident,
    pub args: Option<GenericArgs>,
}

#[derive(Debug)]
pub enum GenericArgs {
    AngleBracketed(AngleBracketedArgs),
    Parenthesized(ParenthesizedArgs),
}

#[derive(Debug)]
pub struct AngleBracketedArgs {
    pub args: Vec<GenericArg>,
    pub constraints: Vec<AssocTyConstraint>,
}

#[derive(Debug)]
pub enum GenericArg {
    /// A lifetime, by its name.
    Lifetime(Ident),
    Type(Ty),
    Const(Expr),
}

#[derive(Debug)]
pub struct AssocTyConstraint {
    pub span: Span,
    pub ident: Ident,
    pub kind: AssocTyConstraintKind,
}

#[derive(Debug)]
pub enum AssocTyConstraintKind {
    Equality(Ty),
    Bound(Vec<GenericBound>),
}

#[derive(Debug)]
pub struct ParenthesizedArgs {
    pub span: Span,
    pub inputs: Vec<Ty>,
    pub output: Option<Ty>,
}

#[derive(Debug)]
pub struct QSelf {
    pub ty: Box<Ty>,
    pub position: usize,
}

#[derive(Debug)]
pub struct Ty {
    pub span: Span,
    pub kind: TyKind,
}

#[derive(Debug)]
pub enum TyKind {
    Infer,
    Never,
    CVarArgs,
    ImplicitSelf,
    Path(Option<QSelf>, Path),
    /// A raw pointer: whether it is mutable, the type.
    Ptr(bool, Box<Ty>),
    /// A reference: the lifetime, whether it is mutable, the type.
    Rptr(Option<Ident>, bool, Box<Ty>),
    Tup(Vec<Ty>),
    Paren(Box<Ty>),
    Slice(Box<Ty>),
    Array(Box<Ty>, Box<Expr>),
    /// A trait object; `true` where it is written with `dyn`.
    TraitObject(Vec<GenericBound>, bool),
    ImplTrait(Vec<GenericBound>),
    BareFn(Box<BareFnTy>),
    Mac(Mac),
}

#[derive(Debug)]
pub struct BareFnTy {
    pub is_unsafe: bool,
    pub abi: String,
    pub generic_params: Vec<GenericParam>,
    pub decl: FnDecl,
}

#[derive(Debug)]
pub struct FnHeader {
    pub is_unsafe: bool,
    pub is_async: bool,
    pub is_const: bool,
    /// The ABI's name, as the parser spells it.
    pub abi: String,
}

#[derive(Debug)]
pub struct FnDecl {
    pub inputs: Vec<Arg>,
    /// The return type; none for the default.
    pub output: Option<Ty>,
}

#[derive(Debug)]
pub struct Arg {
    pub pat: Pat,
    pub ty: Ty,
    /// How the argument takes `self`, where it is `self`.
    pub self_kind: Option<SelfKind>,
}

#[derive(Debug)]
pub enum VariantData {
    Struct(Vec<FieldDef>),
    Tuple(Vec<TupleFieldDef>),
    Unit,
}

/// A named field.
#[derive(Debug)]
pub struct FieldDef {
    pub span: Span,
    pub attrs: Vec<Attribute>,
    pub vis: VisKind,
    pub ident: Ident,
    pub ty: Ty,
}

/// A field of a tuple struct.
#[derive(Debug)]
pub struct TupleFieldDef {
    pub span: Span,
    pub attrs: Vec<Attribute>,
    pub vis: VisKind,
    pub ty: Ty,
}

#[derive(Debug)]
pub struct Variant {
    pub span: Span,
    pub attrs: Vec<Attribute>,
    pub ident: Ident,
    pub data: VariantData,
    pub disr_expr: Option<Expr>,
}

#[derive(Debug)]
pub struct ForeignMod {
    pub abi: String,
    pub items: Vec<ForeignItem>,
}

#[derive(Debug)]
pub struct ForeignItem {
    pub span: Span,
    pub attrs: Vec<Attribute>,
    pub vis: VisKind,
    pub ident: Ident,
    pub kind: ForeignItemKind,
}

#[derive(Debug)]
pub enum ForeignItemKind {
    Ty,
    /// A static, whether it is mutable.
    Static(Ty, bool),
    Fn(FnDecl, Generics),
    Macro(Mac),
}

#[derive(Debug)]
pub struct TraitItem {
    pub span: Span,
    pub attrs: Vec<Attribute>,
    pub ident: Ident,
    pub generics: Generics,
    pub kind: TraitItemKind,
}

#[derive(Debug)]
pub enum TraitItemKind {
    Const(Ty, Option<Expr>),
    Type(Vec<GenericBound>, Option<Ty>),
    Method(MethodSig, Option<Block>),
    Macro(Mac),
}

#[derive(Debug)]
pub struct MethodSig {
    pub header: FnHeader,
    pub decl: FnDecl,
}

#[derive(Debug)]
pub struct ImplItem {
    pub span: Span,
    pub attrs: Vec<Attribute>,
    pub vis: VisKind,
    pub is_default: bool,
    pub ident: Ident,
    pub generics: Generics,
    pub kind: ImplItemKind,
}

#[derive(Debug)]
pub enum ImplItemKind {
    Const(Ty, Expr),
    Type(Ty),
    Existential(Vec<GenericBound>),
    Method(MethodSig, Block),
    Macro(Mac),
}

/// How a block is checked: `unsafe` written by the user, or inserted by the
/// compiler.
#[derive(Clone, Copy, Debug)]
pub enum BlockCheck {
    Default,
    UserUnsafe,
    CompilerUnsafe,
}

#[derive(Debug)]
pub struct Block {
    pub span: Span,
    pub rules: BlockCheck,
    pub stmts: Vec<Stmt>,
}

#[derive(Debug)]
pub struct Stmt {
    pub span: Span,
    pub kind: StmtKind,
}

#[derive(Debug)]
pub enum StmtKind {
    Item(Item),
    Local(Local),
    Semi(Expr),
    Expr(Expr),
    /// A macro statement: the call, whether a semicolon follows it, its
    /// attributes.
    Mac(Mac, bool, Vec<Attribute>),
}

#[derive(Debug)]
pub struct Local {
    pub span: Span,
    pub attrs: Vec<Attribute>,
    pub pat: Pat,
    pub ty: Option<Ty>,
    pub init: Option<Expr>,
}

#[derive(Debug)]
pub struct Pat {
    pub span: Span,
    pub kind: PatKind,
}

#[derive(Debug)]
pub enum PatKind {
    Wild,
    Lit(Box<Expr>),
    /// A range: start, end, whether the end is included.
    Range(Box<Expr>, Box<Expr>, bool),
    /// A reference pattern, whether it is mutable.
    Ref(Box<Pat>, bool),
    Path(Option<QSelf>, Path),
    /// A binding: by reference, mutable, the name, the sub-pattern.
    Ident(bool, bool, Ident, Option<Box<Pat>>),
    /// A struct pattern: the path, the fields, whether `..` ends it.
    Struct(Path, Vec<FieldPat>, bool),
    TupleStruct(Path, Vec<Pat>),
    Paren(Box<Pat>),
    Tuple(Vec<Pat>),
    Slice(Vec<Pat>),
    /// `..` in a tuple or a slice pattern.
    Rest,
    Mac(Mac),
}

#[derive(Debug)]
pub struct FieldPat {
    pub span: Span,
    pub ident: Ident,
    pub pat: Pat,
    pub is_shorthand: bool,
}

#[derive(Clone, Copy, Debug)]
pub enum UnOp {
    Deref,
    Not,
    Neg,
}

#[derive(Clone, Copy, Debug)]
pub enum BinOpKind {
    Add,
    Sub,
    Mul,
    Div,
    Rem,
    And,
    Or,
    BitXor,
    BitAnd,
    BitOr,
    Shl,
    Shr,
    Eq,
    Lt,
    Le,
    Ne,
    Ge,
    Gt,
}

#[derive(Clone, Copy, Debug)]
pub struct BinOp {
    pub span: Span,
    pub kind: BinOpKind,
}

#[derive(Debug)]
pub struct Expr {
    pub span: Span,
    pub attrs: Vec<Attribute>,
    pub kind: ExprKind,
}

#[derive(Debug)]
pub enum ExprKind {
    Lit(Lit),
    Path(Option<QSelf>, Path),
    /// `&expr`, whether it is mutable.
    AddrOf(bool, Box<Expr>),
    Unary(UnOp, Box<Expr>),
    Try(Box<Expr>),
    Binary(BinOp, Box<Expr>, Box<Expr>),
    Assign(Box<Expr>, Box<Expr>),
    AssignOp(BinOp, Box<Expr>, Box<Expr>),
    Repeat(Box<Expr>, Box<Expr>),
    Array(Vec<Expr>),
    Tup(Vec<Expr>),
    Paren(Box<Expr>),
    Index(Box<Expr>, Box<Expr>),
    Struct(Path, Vec<Field>, Option<Box<Expr>>),
    Field(Box<Expr>, Ident),
    Type(Box<Expr>, Ty),
    Cast(Box<Expr>, Ty),
    /// A range: start, end, whether the end is included.
    Range(Option<Box<Expr>>, Option<Box<Expr>>, bool),
    /// A block, with its label.
    Block(Block, Option<Ident>),
    If(Box<Expr>, Block, Option<Box<Expr>>),
    While(Box<Expr>, Block, Option<Ident>),
    /// `let pats = expr`, in a condition.
    Let(Vec<Pat>, Box<Expr>),
    ForLoop(Pat, Box<Expr>, Block, Option<Ident>),
    Loop(Block, Option<Ident>),
    Break(Option<Ident>, Option<Box<Expr>>),
    Continue(Option<Ident>),
    Match(Box<Expr>, Vec<Arm>),
    Call(Box<Expr>, Vec<Expr>),
    MethodCall(PathSegment, Vec<Expr>),
    Closure(ClosureDef),
    Ret(Option<Box<Expr>>),
    Mac(Mac),
}

#[derive(Debug)]
pub struct ClosureDef {
    pub is_move: bool,
    pub is_async: bool,
    pub is_static: bool,
    pub decl: FnDecl,
    pub body: Box<Expr>,
}

#[derive(Debug)]
pub struct Field {
    pub span: Span,
    pub ident: Ident,
    pub expr: Expr,
}

#[derive(Debug)]
pub struct Arm {
    pub attrs: Vec<Attribute>,
    pub pats: Vec<Pat>,
    pub guard: Option<Expr>,
    pub body: Expr,
}

/// A macro call: its path, its source text, and its arguments as the
/// parser reads them, with the tokens between them.
#[derive(Debug)]
pub struct Mac {
    pub span: Span,
    pub path: Path,
    pub text: String,
    pub exprs: Vec<Expr>,
    pub seps: Vec<SepToken>,
}

} // verus!
