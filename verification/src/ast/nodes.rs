use vstd::prelude::*;

use crate::ast::attrs::{AstAttrs, AttrHandler};

verus! {

/// The operators of a `BinaryOp` expression: arithmetic, comparison and
/// logic, and the three operations that a type can overload: construction,
/// destruction and subscript.
#[derive(Debug, Clone, Copy, PartialEq, Eq, Structural)]
pub enum BinaryOp {
    Add,
    Sub,
    Mul,
    Div,
    Mod,
    Eq,
    Ne,
    Lt,
    Le,
    Gt,
    Ge,
    And,
    Or,
    New,
    Del,
    Index,
}

/// A tree that denotes a type, not a value.
#[derive(Debug, PartialEq)]
pub struct AstType {
    ast: Node,
}

impl AstType {
    /// The tree that denotes the type.
    pub closed spec fn ast(self) -> Node {
        self.ast
    }

    pub fn new(ast: Node) -> (ty: AstType)
        ensures
            ty.ast() == ast,
            ty@ == ast@,
    {
        AstType { ast }
    }

    pub fn get_ast(&self) -> (ast: &Node)
        ensures
            *ast == self.ast(),
            ast@ == self@,
    {
        &self.ast
    }
}

/// One generic parameter: its name, the bounds that an argument has to
/// meet, in the order in which they were written, and the default, if any.
#[derive(Debug, PartialEq)]
pub struct GenericDecl {
    name: String,
    default: Option<AstType>,
    impls: Vec<AstType>,
}

impl GenericDecl {
    pub closed spec fn name(self) -> Seq<char> {
        self.name@
    }

    pub closed spec fn impls(self) -> Seq<AstType> {
        self.impls@
    }

    pub closed spec fn default(self) -> Option<AstType> {
        self.default
    }

    pub fn new(name: String, impls: Vec<AstType>, default: Option<AstType>) -> (decl: GenericDecl)
        ensures
            decl.name() == name@,
            decl.impls() == impls@,
            decl.default() == default,
            decl@ == (GenericDeclView {
                name: name@,
                default: match default {
                    Some(ty) => Some(ty@),
                    None => None,
                },
                impls: types_view(impls),
            }),
    {
        GenericDecl { name, impls, default }
    }

    pub fn get_name(&self) -> (name: &String)
        ensures
            name@ == self.name(),
            name@ == self@.name,
    {
        &self.name
    }

    pub fn get_impls(&self) -> (impls: &Vec<AstType>)
        ensures
            impls@ == self.impls(),
            types_view(*impls) == self@.impls,
    {
        &self.impls
    }

    pub fn get_default(&self) -> (default: Option<&AstType>)
        ensures
            default is Some <==> self.default() is Some,
            default matches Some(ty) ==> self.default() == Some(*ty) && self@.default == Some(
                ty@,
            ),
            default is None ==> self@.default is None,
    {
        self.default.as_ref()
    }
}

/// A field of a class: a name and one type.
#[derive(Debug, PartialEq)]
pub struct ClassMember {
    name: String,
    ty: AstType,
}

impl ClassMember {
    pub closed spec fn name(self) -> Seq<char> {
        self.name@
    }

    pub closed spec fn ty(self) -> AstType {
        self.ty
    }

    pub fn new(name: String, ty: AstType) -> (member: ClassMember)
        ensures
            member.name() == name@,
            member.ty() == ty,
            member@ == (ClassMemberView { name: name@, ty: ty@ }),
    {
        ClassMember { name, ty }
    }

    pub fn get_name(&self) -> (name: &String)
        ensures
            name@ == self.name(),
            name@ == self@.name,
    {
        &self.name
    }

    pub fn get_ty(&self) -> (ty: &AstType)
        ensures
            *ty == self.ty(),
            ty@ == self@.ty,
    {
        &self.ty
    }
}

/// The names of a run of parameters, one for one.
pub open spec fn arg_names(args: Seq<(Seq<char>, NodeView)>) -> Seq<Seq<char>> {
    args.map_values(|arg: (Seq<char>, NodeView)| arg.0)
}

/// The parameters of a function: names with their types, in the order in
/// which they were declared. No name stands twice.
#[derive(Debug, PartialEq)]
pub struct ArgMap {
    entries: Vec<(String, AstType)>,
}

impl View for ArgMap {
    type V = Seq<(Seq<char>, NodeView)>;

    open spec fn view(&self) -> Seq<(Seq<char>, NodeView)> {
        args_view(*self)
    }
}

impl ArgMap {
    #[verifier::type_invariant]
    spec fn names_differ(self) -> bool {
        arg_names(args_view(self)).no_duplicates()
    }

    /// The names of the parameters, in their order.
    pub open spec fn names(self) -> Seq<Seq<char>> {
        arg_names(self@)
    }

    pub fn new() -> (args: ArgMap)
        ensures
            args@ == Seq::<(Seq<char>, NodeView)>::empty(),
    {
        let args = ArgMap { entries: Vec::new() };
        assert(args@ =~= Seq::<(Seq<char>, NodeView)>::empty());
        args
    }

    /// The number of parameters. No two of them have one name.
    pub fn len(&self) -> (n: usize)
        ensures
            n == self@.len(),
            self.names().no_duplicates(),
    {
        proof {
            use_type_invariant(self);
        }
        self.entries.len()
    }

    /// The place of the parameter of this name, if there is one.
    pub fn position(&self, name: &String) -> (place: Option<usize>)
        ensures
            place is Some <==> self.names().contains(name@),
            place matches Some(i) ==> i < self@.len() && self@[i as int].0 == name@,
    {
        let mut i: usize = 0;
        while i < self.entries.len()
            invariant
                i <= self.entries.len(),
                self@.len() == self.entries.len(),
                forall|j: int| 0 <= j < i ==> self.names()[j] != name@,
            decreases self.entries.len() - i,
        {
            if self.entries[i].0 == *name {
                assert(self.names()[i as int] == name@);
                return Some(i);
            }
            i += 1;
        }
        None
    }

    /// The name and the type of the parameter at this place.
    pub fn get_index(&self, i: usize) -> (arg: (&String, &AstType))
        requires
            i < self@.len(),
        ensures
            (arg.0@, arg.1@) == self@[i as int],
    {
        let entry = &self.entries[i];
        (&entry.0, &entry.1)
    }

    /// The type of the parameter of this name, if there is one.
    pub fn get(&self, name: &String) -> (ty: Option<&AstType>)
        ensures
            ty is Some <==> self.names().contains(name@),
            ty matches Some(t) ==> self@.contains((name@, t@)),
    {
        match self.position(name) {
            Some(i) => {
                assert(self@[i as int] == (name@, self.entries@[i as int].1@));
                Some(&self.entries[i].1)
            },
            None => None,
        }
    }

    /// Adds a parameter after those that are there, unless one of them has
    /// its name: then nothing changes. Says whether it was added.
    pub fn insert(&mut self, name: String, ty: AstType) -> (added: bool)
        ensures
            added == !old(self).names().contains(name@),
            added ==> final(self)@ == old(self)@.push((name@, ty@)),
            !added ==> final(self)@ == old(self)@,
    {
        proof {
            use_type_invariant(&*self);
        }
        if self.position(&name).is_some() {
            return false;
        }
        let mut entries: Vec<(String, AstType)> = Vec::new();
        core::mem::swap(&mut self.entries, &mut entries);
        entries.push((name, ty));
        proof {
            let before = old(self)@;
            let after = args_view(ArgMap { entries });
            assert(after =~= before.push((name@, ty@)));
            assert(arg_names(after) =~= arg_names(before).push(name@));
            assert forall|i: int, j: int|
                0 <= i < arg_names(after).len() && 0 <= j < arg_names(after).len() && i
                    != j implies arg_names(after)[i] != arg_names(after)[j] by {
                if i < before.len() && j < before.len() {
                    assert(arg_names(before)[i] != arg_names(before)[j]);
                } else if i < before.len() {
                    assert(arg_names(before).contains(arg_names(before)[i]));
                } else {
                    assert(arg_names(before).contains(arg_names(before)[j]));
                }
            }
        }
        *self = ArgMap { entries };
        true
    }
}

/// A tree: a run of top-level nodes, a statement or an expression. The two
/// parameters are the node types of the statement and the expression
/// trees, so that a later stage of the compiler can have the same shape of
/// tree over nodes of its own.
#[derive(Debug, Clone, PartialEq)]
pub enum AST<T = Node, E = ExprNode> {
    TopLevel(Vec<T>),
    Stmt(Stmt<T>),
    Expr(Expr<E>),
}

/// A statement or a declaration. A declaration without a name is an
/// anonymous one.
#[derive(Debug, Clone, PartialEq)]
pub enum Stmt<T = Node> {
    Return(Option<T>),
    Break,
    Continue,
    /// The condition, the branch taken when it holds, and the branches
    /// after it.
    If(T, T, Vec<T>),
    /// The condition, the body, and whether the body runs before the
    /// condition is first tested.
    While(T, Vec<T>, bool),
    /// The initializer, the condition, the step and the body.
    For(T, T, T, Vec<T>),
    Block(Vec<T>),
    /// The name, the parameters, the return type, the body if there is
    /// one, and the generic parameters if there are any.
    FuncDef(String, ArgMap, AstType, Option<T>, Option<Vec<GenericDecl>>),
    /// The declared type, if there is one, and the initializer.
    VarDef(Option<T>, T),
    /// The name, the members and the generic parameters.
    ClassDef(Option<T>, Vec<ClassMember>, Vec<GenericDecl>),
    /// The name and the body.
    NamespaceDef(Option<T>, Vec<T>),
    /// The path.
    Import(T),
    /// The name, the members and the generic parameters.
    InterfaceDef(Option<T>, Vec<T>, Vec<GenericDecl>),
    /// The name and the variants.
    EnumDef(Option<T>, Vec<T>),
}

/// An expression.
#[derive(Debug, Clone, PartialEq)]
pub enum Expr<T = ExprNode> {
    /// The type and the arguments of its constructor.
    ClassInit(AstType, Vec<T>),
    /// The receiver and the name of the member.
    ClassAccess(T, String),
    /// The receiver and the name of the member.
    NamespaceAccess(T, String),
    /// The name, and the generic arguments if any are written out.
    Ident(String, Option<Vec<AstType>>),
    Int(i64),
    /// A float literal, as the bits of its value in IEEE 754 binary64.
    Float(u64),
    String(String),
    Bool(bool),
    /// The callee and the arguments.
    Call(T, Vec<T>),
    /// The value and the type it is cast to.
    Cast(T, AstType),
    /// The operator, the two operands, and whether the operation is
    /// unary: a unary one has the same shape.
    BinaryOp(BinaryOp, T, T, bool),
    /// The target and the value.
    Assign(T, T),
}

/// A node of a statement or type tree: a boxed `AST` and the attributes
/// attached to it, if any.
#[derive(Debug, PartialEq)]
pub struct Node {
    // Always `Some`: the option gives the tree a leaf to be measured from.
    kind: Option<Box<AST>>,
    attrs: Option<AttrHandler>,
}

/// A node of an expression tree: a boxed `Expr` and the attributes attached
/// to it, if any.
#[derive(Debug, PartialEq)]
pub struct ExprNode {
    // Always `Some`, as in `Node`.
    kind: Option<Box<Expr>>,
    attrs: Option<AttrHandler>,
}

impl Node {
    #[verifier::type_invariant]
    spec fn has_kind(self) -> bool {
        self.kind is Some
    }

    /// The bare node that holds this tree.
    pub closed spec fn bare(kind: AST) -> Node {
        Node { kind: Some(Box::new(kind)), attrs: None }
    }

    /// The node with these attributes in place of any it had.
    pub closed spec fn attached(self, attrs: AttrHandler) -> Node {
        Node { kind: self.kind, attrs: Some(attrs) }
    }

    /// The tree that the node holds.
    pub closed spec fn kind(self) -> AST {
        *self.kind->0
    }

    /// The attributes attached to the node, if any.
    pub closed spec fn attrs(self) -> Option<AttrHandler> {
        self.attrs
    }

    /// A bare node: the given tree, no attributes.
    pub fn new(kind: AST) -> (node: Node)
        ensures
            node == Node::bare(kind),
            node.kind() == kind,
            node.attrs() is None,
            node@ == (NodeView { kind: Box::new(kind@), attrs: None }),
    {
        Node { kind: Some(Box::new(kind)), attrs: None }
    }

    pub fn get_kind(&self) -> (kind: &AST)
        ensures
            *kind == self.kind(),
            kind@ == *self@.kind,
    {
        proof {
            use_type_invariant(self);
        }
        match &self.kind {
            Some(kind) => &**kind,
            None => vstd::pervasive::unreached(),
        }
    }

    /// Attaches the attributes to the node, in place of any it had.
    pub fn with_attrs(&mut self, attrs: AttrHandler) -> (node: &Self)
        ensures
            *final(self) == old(self).attached(attrs),
            final(self).kind() == old(self).kind(),
            final(self).attrs() == Some(attrs),
            final(self)@.kind == old(self)@.kind,
            final(self)@.attrs == Some(attrs@),
            *node == *final(self),
    {
        proof {
            use_type_invariant(&*self);
        }
        self.attrs = Some(attrs);
        self
    }

    pub fn get_attrs(&self) -> (attrs: Option<&AttrHandler>)
        ensures
            attrs is Some <==> self.attrs() is Some,
            attrs matches Some(a) ==> self.attrs() == Some(*a) && self@.attrs == Some(a@),
            attrs is None ==> self@.attrs is None,
    {
        self.attrs.as_ref()
    }

    /// What is put into a node is what is read from it. A bare node holds
    /// the tree it was made of and no attributes. Attaching attributes
    /// leaves the tree as it was and puts these attributes in place of any
    /// that were there: of two attachments the second one stays.
    pub proof fn lemma_round_trip(kind: AST, node: Node, first: AttrHandler, second: AttrHandler)
        ensures
            Node::bare(kind).kind() == kind,
            Node::bare(kind).attrs() is None,
            Node::bare(kind)@ == (NodeView { kind: Box::new(kind@), attrs: None }),
            node.attached(first).kind() == node.kind(),
            node.attached(first).attrs() == Some(first),
            node.attached(first)@ == (NodeView { kind: node@.kind, attrs: Some(first@) }),
            node.attached(first).attached(second) == node.attached(second),
    {
    }
}

impl ExprNode {
    #[verifier::type_invariant]
    spec fn has_kind(self) -> bool {
        self.kind is Some
    }

    /// The bare node that holds this expression.
    pub closed spec fn bare(kind: Expr) -> ExprNode {
        ExprNode { kind: Some(Box::new(kind)), attrs: None }
    }

    /// The node with these attributes in place of any it had.
    pub closed spec fn attached(self, attrs: AttrHandler) -> ExprNode {
        ExprNode { kind: self.kind, attrs: Some(attrs) }
    }

    /// The expression that the node holds.
    pub closed spec fn kind(self) -> Expr {
        *self.kind->0
    }

    /// The attributes attached to the node, if any.
    pub closed spec fn attrs(self) -> Option<AttrHandler> {
        self.attrs
    }

    /// A bare node: the given expression, no attributes.
    pub fn new(kind: Expr) -> (node: ExprNode)
        ensures
            node == ExprNode::bare(kind),
            node.kind() == kind,
            node.attrs() is None,
            node@ == (ExprNodeView { kind: Box::new(kind@), attrs: None }),
    {
        ExprNode { kind: Some(Box::new(kind)), attrs: None }
    }

    pub fn get_kind(&self) -> (kind: &Expr)
        ensures
            *kind == self.kind(),
            kind@ == *self@.kind,
    {
        proof {
            use_type_invariant(self);
        }
        match &self.kind {
            Some(kind) => &**kind,
            None => vstd::pervasive::unreached(),
        }
    }

    /// Attaches the attributes to the node, in place of any it had.
    pub fn with_attrs(&mut self, attrs: AttrHandler) -> (node: &Self)
        ensures
            *final(self) == old(self).attached(attrs),
            final(self).kind() == old(self).kind(),
            final(self).attrs() == Some(attrs),
            final(self)@.kind == old(self)@.kind,
            final(self)@.attrs == Some(attrs@),
            *node == *final(self),
    {
        proof {
            use_type_invariant(&*self);
        }
        self.attrs = Some(attrs);
        self
    }

    pub fn get_attrs(&self) -> (attrs: Option<&AttrHandler>)
        ensures
            attrs is Some <==> self.attrs() is Some,
            attrs matches Some(a) ==> self.attrs() == Some(*a) && self@.attrs == Some(a@),
            attrs is None ==> self@.attrs is None,
    {
        self.attrs.as_ref()
    }

    /// What is put into a node is what is read from it, as for `Node`.
    pub proof fn lemma_round_trip(
        kind: Expr,
        node: ExprNode,
        first: AttrHandler,
        second: AttrHandler,
    )
        ensures
            ExprNode::bare(kind).kind() == kind,
            ExprNode::bare(kind).attrs() is None,
            ExprNode::bare(kind)@ == (ExprNodeView { kind: Box::new(kind@), attrs: None }),
            node.attached(first).kind() == node.kind(),
            node.attached(first).attrs() == Some(first),
            node.attached(first)@ == (ExprNodeView { kind: node@.kind, attrs: Some(first@) }),
            node.attached(first).attached(second) == node.attached(second),
    {
    }
}

/// What a `Node` stands for: the tree it holds and the attributes attached
/// to it, if any.
pub struct NodeView {
    pub kind: Box<AstView>,
    pub attrs: Option<Set<AstAttrs>>,
}

/// What an `ExprNode` stands for.
pub struct ExprNodeView {
    pub kind: Box<ExprView>,
    pub attrs: Option<Set<AstAttrs>>,
}

/// What an `AST` over `Node` and `ExprNode` stands for.
pub enum AstView {
    TopLevel(Seq<NodeView>),
    Stmt(StmtView),
    Expr(ExprView),
}

/// What a `Stmt` over `Node` stands for.
pub enum StmtView {
    Return(Option<NodeView>),
    Break,
    Continue,
    If(NodeView, NodeView, Seq<NodeView>),
    While(NodeView, Seq<NodeView>, bool),
    For(NodeView, NodeView, NodeView, Seq<NodeView>),
    Block(Seq<NodeView>),
    FuncDef(
        Seq<char>,
        Seq<(Seq<char>, NodeView)>,
        NodeView,
        Option<NodeView>,
        Option<Seq<GenericDeclView>>,
    ),
    VarDef(Option<NodeView>, NodeView),
    ClassDef(Option<NodeView>, Seq<ClassMemberView>, Seq<GenericDeclView>),
    NamespaceDef(Option<NodeView>, Seq<NodeView>),
    Import(NodeView),
    InterfaceDef(Option<NodeView>, Seq<NodeView>, Seq<GenericDeclView>),
    EnumDef(Option<NodeView>, Seq<NodeView>),
}

/// What an `Expr` over `ExprNode` stands for.
pub enum ExprView {
    ClassInit(NodeView, Seq<ExprNodeView>),
    ClassAccess(ExprNodeView, Seq<char>),
    NamespaceAccess(ExprNodeView, Seq<char>),
    Ident(Seq<char>, Option<Seq<NodeView>>),
    Int(i64),
    Float(u64),
    String(Seq<char>),
    Bool(bool),
    Call(ExprNodeView, Seq<ExprNodeView>),
    Cast(ExprNodeView, NodeView),
    BinaryOp(BinaryOp, ExprNodeView, ExprNodeView, bool),
    Assign(ExprNodeView, ExprNodeView),
}

/// What a `GenericDecl` stands for.
pub struct GenericDeclView {
    pub name: Seq<char>,
    pub default: Option<NodeView>,
    pub impls: Seq<NodeView>,
}

/// What a `ClassMember` stands for.
pub struct ClassMemberView {
    pub name: Seq<char>,
    pub ty: NodeView,
}

pub open spec fn attrs_view(attrs: Option<AttrHandler>) -> Option<Set<AstAttrs>> {
    match attrs {
        Some(attrs) => Some(attrs@),
        None => None,
    }
}

pub closed spec fn node_view(node: Node) -> NodeView
    decreases node,
{
    NodeView {
        kind: match node.kind {
            Some(kind) => Box::new(ast_view(*kind)),
            None => arbitrary(),
        },
        attrs: attrs_view(node.attrs),
    }
}

pub closed spec fn expr_node_view(node: ExprNode) -> ExprNodeView
    decreases node,
{
    ExprNodeView {
        kind: match node.kind {
            Some(kind) => Box::new(expr_view(*kind)),
            None => arbitrary(),
        },
        attrs: attrs_view(node.attrs),
    }
}

pub open spec fn optional_node_view(node: Option<Node>) -> Option<NodeView>
    decreases node,
{
    match node {
        Some(node) => Some(node_view(node)),
        None => None,
    }
}

pub open spec fn nodes_view(nodes: Vec<Node>) -> Seq<NodeView>
    decreases nodes,
{
    Seq::new(
        nodes.len() as nat,
        |i: int|
            if 0 <= i < nodes.len() {
                node_view(nodes[i])
            } else {
                arbitrary()
            },
    )
}

pub open spec fn expr_nodes_view(nodes: Vec<ExprNode>) -> Seq<ExprNodeView>
    decreases nodes,
{
    Seq::new(
        nodes.len() as nat,
        |i: int|
            if 0 <= i < nodes.len() {
                expr_node_view(nodes[i])
            } else {
                arbitrary()
            },
    )
}

pub closed spec fn type_view(ty: AstType) -> NodeView
    decreases ty,
{
    node_view(ty.ast)
}

pub open spec fn types_view(types: Vec<AstType>) -> Seq<NodeView>
    decreases types,
{
    Seq::new(
        types.len() as nat,
        |i: int|
            if 0 <= i < types.len() {
                type_view(types[i])
            } else {
                arbitrary()
            },
    )
}

pub closed spec fn generic_view(decl: GenericDecl) -> GenericDeclView
    decreases decl,
{
    GenericDeclView {
        name: decl.name@,
        default: match decl.default {
            Some(ty) => Some(type_view(ty)),
            None => None,
        },
        impls: types_view(decl.impls),
    }
}

pub open spec fn generics_view(decls: Vec<GenericDecl>) -> Seq<GenericDeclView>
    decreases decls,
{
    Seq::new(
        decls.len() as nat,
        |i: int|
            if 0 <= i < decls.len() {
                generic_view(decls[i])
            } else {
                arbitrary()
            },
    )
}

pub closed spec fn member_view(member: ClassMember) -> ClassMemberView
    decreases member,
{
    ClassMemberView { name: member.name@, ty: type_view(member.ty) }
}

pub open spec fn members_view(members: Vec<ClassMember>) -> Seq<ClassMemberView>
    decreases members,
{
    Seq::new(
        members.len() as nat,
        |i: int|
            if 0 <= i < members.len() {
                member_view(members[i])
            } else {
                arbitrary()
            },
    )
}

pub closed spec fn args_view(args: ArgMap) -> Seq<(Seq<char>, NodeView)>
    decreases args,
{
    Seq::new(
        args.entries.len() as nat,
        |i: int|
            if 0 <= i < args.entries.len() {
                (args.entries[i].0@, type_view(args.entries[i].1))
            } else {
                arbitrary()
            },
    )
}

pub open spec fn ast_view(ast: AST) -> AstView
    decreases ast,
{
    match ast {
        AST::TopLevel(nodes) => AstView::TopLevel(nodes_view(nodes)),
        AST::Stmt(stmt) => AstView::Stmt(stmt_view(stmt)),
        AST::Expr(expr) => AstView::Expr(expr_view(expr)),
    }
}

pub open spec fn stmt_view(stmt: Stmt) -> StmtView
    decreases stmt,
{
    match stmt {
        Stmt::Return(value) => StmtView::Return(optional_node_view(value)),
        Stmt::Break => StmtView::Break,
        Stmt::Continue => StmtView::Continue,
        Stmt::If(cond, then, elifs) => StmtView::If(
            node_view(cond),
            node_view(then),
            nodes_view(elifs),
        ),
        Stmt::While(cond, body, is_do_while) => StmtView::While(
            node_view(cond),
            nodes_view(body),
            is_do_while,
        ),
        Stmt::For(init, cond, step, body) => StmtView::For(
            node_view(init),
            node_view(cond),
            node_view(step),
            nodes_view(body),
        ),
        Stmt::Block(body) => StmtView::Block(nodes_view(body)),
        Stmt::FuncDef(name, args, ret, body, generics) => StmtView::FuncDef(
            name@,
            args_view(args),
            type_view(ret),
            optional_node_view(body),
            match generics {
                Some(generics) => Some(generics_view(generics)),
                None => None,
            },
        ),
        Stmt::VarDef(ty, init) => StmtView::VarDef(optional_node_view(ty), node_view(init)),
        Stmt::ClassDef(name, members, generics) => StmtView::ClassDef(
            optional_node_view(name),
            members_view(members),
            generics_view(generics),
        ),
        Stmt::NamespaceDef(name, body) => StmtView::NamespaceDef(
            optional_node_view(name),
            nodes_view(body),
        ),
        Stmt::Import(path) => StmtView::Import(node_view(path)),
        Stmt::InterfaceDef(name, members, generics) => StmtView::InterfaceDef(
            optional_node_view(name),
            nodes_view(members),
            generics_view(generics),
        ),
        Stmt::EnumDef(name, variants) => StmtView::EnumDef(
            optional_node_view(name),
            nodes_view(variants),
        ),
    }
}

pub open spec fn expr_view(expr: Expr) -> ExprView
    decreases expr,
{
    match expr {
        Expr::ClassInit(ty, args) => ExprView::ClassInit(type_view(ty), expr_nodes_view(args)),
        Expr::ClassAccess(receiver, member) => ExprView::ClassAccess(
            expr_node_view(receiver),
            member@,
        ),
        Expr::NamespaceAccess(receiver, member) => ExprView::NamespaceAccess(
            expr_node_view(receiver),
            member@,
        ),
        Expr::Ident(name, generics) => ExprView::Ident(
            name@,
            match generics {
                Some(generics) => Some(types_view(generics)),
                None => None,
            },
        ),
        Expr::Int(value) => ExprView::Int(value),
        Expr::Float(bits) => ExprView::Float(bits),
        Expr::String(text) => ExprView::String(text@),
        Expr::Bool(value) => ExprView::Bool(value),
        Expr::Call(callee, args) => ExprView::Call(
            expr_node_view(callee),
            expr_nodes_view(args),
        ),
        Expr::Cast(value, ty) => ExprView::Cast(expr_node_view(value), type_view(ty)),
        Expr::BinaryOp(op, lhs, rhs, is_unary) => ExprView::BinaryOp(
            op,
            expr_node_view(lhs),
            expr_node_view(rhs),
            is_unary,
        ),
        Expr::Assign(target, value) => ExprView::Assign(
            expr_node_view(target),
            expr_node_view(value),
        ),
    }
}

impl View for Node {
    type V = NodeView;

    open spec fn view(&self) -> NodeView {
        node_view(*self)
    }
}

impl View for ExprNode {
    type V = ExprNodeView;

    open spec fn view(&self) -> ExprNodeView {
        expr_node_view(*self)
    }
}

impl View for AstType {
    type V = NodeView;

    open spec fn view(&self) -> NodeView {
        type_view(*self)
    }
}

impl View for GenericDecl {
    type V = GenericDeclView;

    open spec fn view(&self) -> GenericDeclView {
        generic_view(*self)
    }
}

impl View for ClassMember {
    type V = ClassMemberView;

    open spec fn view(&self) -> ClassMemberView {
        member_view(*self)
    }
}

impl View for AST {
    type V = AstView;

    open spec fn view(&self) -> AstView {
        ast_view(*self)
    }
}

impl View for Stmt {
    type V = StmtView;

    open spec fn view(&self) -> StmtView {
        stmt_view(*self)
    }
}

impl View for Expr {
    type V = ExprView;

    open spec fn view(&self) -> ExprView {
        expr_view(*self)
    }
}

fn copy_attrs(attrs: &Option<AttrHandler>) -> (copy: Option<AttrHandler>)
    ensures
        attrs_view(copy) == attrs_view(*attrs),
{
    match attrs {
        Some(attrs) => Some(attrs.clone()),
        None => None,
    }
}

fn copy_node(node: &Node) -> (copy: Node)
    ensures
        node_view(copy) == node_view(*node),
    decreases node,
{
    proof {
        use_type_invariant(node);
    }
    match &node.kind {
        Some(kind) => Node {
            kind: Some(Box::new(copy_ast(&**kind))),
            attrs: copy_attrs(&node.attrs),
        },
        None => vstd::pervasive::unreached(),
    }
}

fn copy_expr_node(node: &ExprNode) -> (copy: ExprNode)
    ensures
        expr_node_view(copy) == expr_node_view(*node),
    decreases node,
{
    proof {
        use_type_invariant(node);
    }
    match &node.kind {
        Some(kind) => ExprNode {
            kind: Some(Box::new(copy_expr(&**kind))),
            attrs: copy_attrs(&node.attrs),
        },
        None => vstd::pervasive::unreached(),
    }
}

fn copy_optional_node(node: &Option<Node>) -> (copy: Option<Node>)
    ensures
        optional_node_view(copy) == optional_node_view(*node),
    decreases node,
{
    match node {
        Some(node) => Some(copy_node(node)),
        None => None,
    }
}

fn copy_type(ty: &AstType) -> (copy: AstType)
    ensures
        type_view(copy) == type_view(*ty),
    decreases ty,
{
    AstType { ast: copy_node(&ty.ast) }
}

fn copy_generic(decl: &GenericDecl) -> (copy: GenericDecl)
    ensures
        generic_view(copy) == generic_view(*decl),
    decreases decl,
{
    GenericDecl {
        name: decl.name.clone(),
        default: match &decl.default {
            Some(ty) => Some(copy_type(ty)),
            None => None,
        },
        impls: copy_types(&decl.impls),
    }
}

fn copy_member(member: &ClassMember) -> (copy: ClassMember)
    ensures
        member_view(copy) == member_view(*member),
    decreases member,
{
    ClassMember { name: member.name.clone(), ty: copy_type(&member.ty) }
}

fn copy_nodes(nodes: &Vec<Node>) -> (copies: Vec<Node>)
    ensures
        nodes_view(copies) == nodes_view(*nodes),
    decreases nodes,
{
    let mut copies: Vec<Node> = Vec::new();
    let mut i: usize = 0;
    while i < nodes.len()
        invariant
            i <= nodes.len(),
            copies.len() == i,
            forall|j: int| 0 <= j < i ==> node_view(copies[j]) == node_view(nodes[j]),
        decreases nodes.len() - i,
    {
        copies.push(copy_node(&nodes[i]));
        i += 1;
    }
    assert(nodes_view(copies) =~= nodes_view(*nodes));
    copies
}

fn copy_expr_nodes(nodes: &Vec<ExprNode>) -> (copies: Vec<ExprNode>)
    ensures
        expr_nodes_view(copies) == expr_nodes_view(*nodes),
    decreases nodes,
{
    let mut copies: Vec<ExprNode> = Vec::new();
    let mut i: usize = 0;
    while i < nodes.len()
        invariant
            i <= nodes.len(),
            copies.len() == i,
            forall|j: int| 0 <= j < i ==> expr_node_view(copies[j]) == expr_node_view(nodes[j]),
        decreases nodes.len() - i,
    {
        copies.push(copy_expr_node(&nodes[i]));
        i += 1;
    }
    assert(expr_nodes_view(copies) =~= expr_nodes_view(*nodes));
    copies
}

fn copy_types(types: &Vec<AstType>) -> (copies: Vec<AstType>)
    ensures
        types_view(copies) == types_view(*types),
    decreases types,
{
    let mut copies: Vec<AstType> = Vec::new();
    let mut i: usize = 0;
    while i < types.len()
        invariant
            i <= types.len(),
            copies.len() == i,
            forall|j: int| 0 <= j < i ==> type_view(copies[j]) == type_view(types[j]),
        decreases types.len() - i,
    {
        copies.push(copy_type(&types[i]));
        i += 1;
    }
    assert(types_view(copies) =~= types_view(*types));
    copies
}

fn copy_generics(decls: &Vec<GenericDecl>) -> (copies: Vec<GenericDecl>)
    ensures
        generics_view(copies) == generics_view(*decls),
    decreases decls,
{
    let mut copies: Vec<GenericDecl> = Vec::new();
    let mut i: usize = 0;
    while i < decls.len()
        invariant
            i <= decls.len(),
            copies.len() == i,
            forall|j: int| 0 <= j < i ==> generic_view(copies[j]) == generic_view(decls[j]),
        decreases decls.len() - i,
    {
        copies.push(copy_generic(&decls[i]));
        i += 1;
    }
    assert(generics_view(copies) =~= generics_view(*decls));
    copies
}

fn copy_members(members: &Vec<ClassMember>) -> (copies: Vec<ClassMember>)
    ensures
        members_view(copies) == members_view(*members),
    decreases members,
{
    let mut copies: Vec<ClassMember> = Vec::new();
    let mut i: usize = 0;
    while i < members.len()
        invariant
            i <= members.len(),
            copies.len() == i,
            forall|j: int| 0 <= j < i ==> member_view(copies[j]) == member_view(members[j]),
        decreases members.len() - i,
    {
        copies.push(copy_member(&members[i]));
        i += 1;
    }
    assert(members_view(copies) =~= members_view(*members));
    copies
}

fn copy_args(args: &ArgMap) -> (copy: ArgMap)
    ensures
        args_view(copy) == args_view(*args),
    decreases args,
{
    proof {
        use_type_invariant(args);
    }
    let mut entries: Vec<(String, AstType)> = Vec::new();
    let mut i: usize = 0;
    while i < args.entries.len()
        invariant
            i <= args.entries.len(),
            entries.len() == i,
            forall|j: int|
                0 <= j < i ==> entries[j].0@ == args.entries[j].0@ && type_view(entries[j].1)
                    == type_view(args.entries[j].1),
        decreases args.entries.len() - i,
    {
        let entry = &args.entries[i];
        entries.push((entry.0.clone(), copy_type(&entry.1)));
        i += 1;
    }
    assert(args_view(ArgMap { entries }) =~= args_view(*args));
    ArgMap { entries }
}

fn copy_ast(ast: &AST) -> (copy: AST)
    ensures
        ast_view(copy) == ast_view(*ast),
    decreases ast,
{
    match ast {
        AST::TopLevel(nodes) => AST::TopLevel(copy_nodes(nodes)),
        AST::Stmt(stmt) => AST::Stmt(copy_stmt(stmt)),
        AST::Expr(expr) => AST::Expr(copy_expr(expr)),
    }
}

fn copy_stmt(stmt: &Stmt) -> (copy: Stmt)
    ensures
        stmt_view(copy) == stmt_view(*stmt),
    decreases stmt,
{
    match stmt {
        Stmt::Return(value) => Stmt::Return(copy_optional_node(value)),
        Stmt::Break => Stmt::Break,
        Stmt::Continue => Stmt::Continue,
        Stmt::If(cond, then, elifs) => Stmt::If(
            copy_node(cond),
            copy_node(then),
            copy_nodes(elifs),
        ),
        Stmt::While(cond, body, is_do_while) => Stmt::While(
            copy_node(cond),
            copy_nodes(body),
            *is_do_while,
        ),
        Stmt::For(init, cond, step, body) => Stmt::For(
            copy_node(init),
            copy_node(cond),
            copy_node(step),
            copy_nodes(body),
        ),
        Stmt::Block(body) => Stmt::Block(copy_nodes(body)),
        Stmt::FuncDef(name, args, ret, body, generics) => Stmt::FuncDef(
            name.clone(),
            copy_args(args),
            copy_type(ret),
            copy_optional_node(body),
            match generics {
                Some(generics) => Some(copy_generics(generics)),
                None => None,
            },
        ),
        Stmt::VarDef(ty, init) => Stmt::VarDef(copy_optional_node(ty), copy_node(init)),
        Stmt::ClassDef(name, members, generics) => Stmt::ClassDef(
            copy_optional_node(name),
            copy_members(members),
            copy_generics(generics),
        ),
        Stmt::NamespaceDef(name, body) => Stmt::NamespaceDef(
            copy_optional_node(name),
            copy_nodes(body),
        ),
        Stmt::Import(path) => Stmt::Import(copy_node(path)),
        Stmt::InterfaceDef(name, members, generics) => Stmt::InterfaceDef(
            copy_optional_node(name),
            copy_nodes(members),
            copy_generics(generics),
        ),
        Stmt::EnumDef(name, variants) => Stmt::EnumDef(
            copy_optional_node(name),
            copy_nodes(variants),
        ),
    }
}

fn copy_expr(expr: &Expr) -> (copy: Expr)
    ensures
        expr_view(copy) == expr_view(*expr),
    decreases expr,
{
    match expr {
        Expr::ClassInit(ty, args) => Expr::ClassInit(copy_type(ty), copy_expr_nodes(args)),
        Expr::ClassAccess(receiver, member) => Expr::ClassAccess(
            copy_expr_node(receiver),
            member.clone(),
        ),
        Expr::NamespaceAccess(receiver, member) => Expr::NamespaceAccess(
            copy_expr_node(receiver),
            member.clone(),
        ),
        Expr::Ident(name, generics) => Expr::Ident(
            name.clone(),
            match generics {
                Some(generics) => Some(copy_types(generics)),
                None => None,
            },
        ),
        Expr::Int(value) => Expr::Int(*value),
        Expr::Float(bits) => Expr::Float(*bits),
        Expr::String(text) => Expr::String(text.clone()),
        Expr::Bool(value) => Expr::Bool(*value),
        Expr::Call(callee, args) => Expr::Call(copy_expr_node(callee), copy_expr_nodes(args)),
        Expr::Cast(value, ty) => Expr::Cast(copy_expr_node(value), copy_type(ty)),
        Expr::BinaryOp(op, lhs, rhs, is_unary) => Expr::BinaryOp(
            *op,
            copy_expr_node(lhs),
            copy_expr_node(rhs),
            *is_unary,
        ),
        Expr::Assign(target, value) => Expr::Assign(
            copy_expr_node(target),
            copy_expr_node(value),
        ),
    }
}

impl Clone for Node {
    /// A copy of the whole tree.
    fn clone(&self) -> (copy: Node)
        ensures
            copy@ == self@,
    {
        copy_node(self)
    }
}

impl Clone for ExprNode {
    /// A copy of the whole tree.
    fn clone(&self) -> (copy: ExprNode)
        ensures
            copy@ == self@,
    {
        copy_expr_node(self)
    }
}

impl Clone for AstType {
    fn clone(&self) -> (copy: AstType)
        ensures
            copy@ == self@,
    {
        copy_type(self)
    }
}

impl Clone for GenericDecl {
    fn clone(&self) -> (copy: GenericDecl)
        ensures
            copy@ == self@,
    {
        copy_generic(self)
    }
}

impl Clone for ClassMember {
    fn clone(&self) -> (copy: ClassMember)
        ensures
            copy@ == self@,
    {
        copy_member(self)
    }
}

impl Clone for ArgMap {
    fn clone(&self) -> (copy: ArgMap)
        ensures
            copy@ == self@,
    {
        copy_args(self)
    }
}

} // verus!
