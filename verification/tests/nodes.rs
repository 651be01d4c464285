use snowball::ast::attrs::{AstAttrs, AttrHandler, ExternalLinkage};
use snowball::ast::nodes::{
    ArgMap, AstType, BinaryOp, ClassMember, Expr, ExprNode, GenericDecl, Node, Stmt, AST,
};

fn ident(name: &str) -> ExprNode {
    ExprNode::new(Expr::Ident(name.to_string(), None))
}

fn leaf(name: &str) -> Node {
    Node::new(AST::Expr(Expr::Ident(name.to_string(), None)))
}

fn ty(name: &str) -> AstType {
    AstType::new(leaf(name))
}

fn generic(name: &str) -> GenericDecl {
    GenericDecl::new(name.to_string(), vec![ty("Sized")], Some(ty("i32")))
}

fn statements() -> Vec<Stmt> {
    let mut args = ArgMap::new();
    assert!(args.insert("a".to_string(), ty("i32")));
    assert!(args.insert("b".to_string(), ty("bool")));
    vec![
        Stmt::Return(None),
        Stmt::Return(Some(leaf("x"))),
        Stmt::Break,
        Stmt::Continue,
        Stmt::If(leaf("c"), leaf("t"), vec![leaf("e1"), leaf("e2")]),
        Stmt::While(leaf("c"), vec![leaf("body")], true),
        Stmt::For(leaf("i"), leaf("c"), leaf("s"), vec![leaf("body")]),
        Stmt::Block(vec![leaf("a"), leaf("b")]),
        Stmt::FuncDef(
            "main".to_string(),
            args,
            ty("void"),
            Some(leaf("body")),
            Some(vec![generic("T")]),
        ),
        Stmt::VarDef(Some(leaf("i32")), leaf("init")),
        Stmt::ClassDef(
            None,
            vec![ClassMember::new("x".to_string(), ty("i32"))],
            vec![generic("T")],
        ),
        Stmt::NamespaceDef(Some(leaf("ns")), vec![leaf("item")]),
        Stmt::Import(leaf("path")),
        Stmt::InterfaceDef(None, vec![leaf("method")], vec![]),
        Stmt::EnumDef(Some(leaf("Color")), vec![leaf("Red"), leaf("Green")]),
    ]
}

fn expressions() -> Vec<Expr> {
    vec![
        Expr::ClassInit(ty("Point"), vec![ident("x"), ident("y")]),
        Expr::ClassAccess(ident("p"), "x".to_string()),
        Expr::NamespaceAccess(ident("std"), "io".to_string()),
        Expr::Ident("v".to_string(), Some(vec![ty("i32")])),
        Expr::Int(-7),
        Expr::Float(1.5f64.to_bits()),
        Expr::String("text".to_string()),
        Expr::Bool(true),
        Expr::Call(ident("f"), vec![ident("a")]),
        Expr::Cast(ident("v"), ty("i64")),
        Expr::BinaryOp(BinaryOp::Add, ident("a"), ident("b"), false),
        Expr::BinaryOp(BinaryOp::Sub, ident("a"), ident("a"), true),
        Expr::Assign(ident("a"), ident("b")),
    ]
}

fn some_attrs() -> AttrHandler {
    let mut attrs = AttrHandler::new();
    attrs.add_attr(AstAttrs::Privacy(true));
    attrs.add_attr(AstAttrs::External(ExternalLinkage::C));
    attrs
}

#[test]
fn node_gives_back_every_statement() {
    for (made, expected) in statements().into_iter().zip(statements()) {
        let node = Node::new(AST::Stmt(made));
        assert_eq!(node.get_kind(), &AST::Stmt(expected));
        assert!(node.get_attrs().is_none());
    }
}

#[test]
fn node_gives_back_every_expression() {
    for (made, expected) in expressions().into_iter().zip(expressions()) {
        let node = Node::new(AST::Expr(made));
        assert_eq!(node.get_kind(), &AST::Expr(expected));
        assert!(node.get_attrs().is_none());
    }
}

#[test]
fn node_gives_back_a_top_level() {
    let node = Node::new(AST::TopLevel(vec![leaf("a"), Node::new(AST::Stmt(Stmt::Break))]));
    assert_eq!(
        node.get_kind(),
        &AST::TopLevel(vec![leaf("a"), Node::new(AST::Stmt(Stmt::Break))])
    );
    let empty = Node::new(AST::TopLevel(Vec::new()));
    assert_eq!(empty.get_kind(), &AST::TopLevel(Vec::new()));
}

#[test]
fn different_trees_are_told_apart() {
    let node = Node::new(AST::Stmt(Stmt::Break));
    assert_ne!(node.get_kind(), &AST::Stmt(Stmt::Continue));
    assert_ne!(leaf("a"), leaf("b"));
    assert_ne!(
        Node::new(AST::Expr(Expr::Int(1))),
        Node::new(AST::Expr(Expr::Float(1.0f64.to_bits())))
    );
}

#[test]
fn expr_node_gives_back_every_expression() {
    for (made, expected) in expressions().into_iter().zip(expressions()) {
        let node = ExprNode::new(made);
        assert_eq!(node.get_kind(), &expected);
        assert!(node.get_attrs().is_none());
    }
}

#[test]
fn float_literal_keeps_its_bits() {
    let node = ExprNode::new(Expr::Float(2.75f64.to_bits()));
    match node.get_kind() {
        Expr::Float(bits) => assert_eq!(f64::from_bits(*bits), 2.75),
        other => panic!("not a float: {:?}", other),
    }
}

#[test]
fn attached_attrs_are_read_back() {
    let mut node = leaf("x");
    {
        let same = node.with_attrs(some_attrs());
        assert!(same.get_attrs() == Some(&some_attrs()));
    }
    assert!(node.get_attrs() == Some(&some_attrs()));
    assert_eq!(node.get_kind(), leaf("x").get_kind());
}

#[test]
fn attaching_twice_keeps_the_second() {
    let mut second = AttrHandler::new();
    second.add_attr(AstAttrs::Final);
    let mut node = leaf("x");
    node.with_attrs(some_attrs());
    node.with_attrs(second.clone());
    let kept = node.get_attrs().expect("attrs were attached");
    assert!(kept == &second);
    assert!(kept.has_attr(AstAttrs::Final));
    assert!(!kept.has_attr(AstAttrs::Privacy(true)));
    assert!(!kept.has_attr(AstAttrs::External(ExternalLinkage::C)));
    assert_eq!(node.get_kind(), leaf("x").get_kind());
}

#[test]
fn expr_node_attrs_are_read_back_and_overwritten() {
    let mut second = AttrHandler::new();
    second.add_attr(AstAttrs::Inline);
    let mut node = ident("x");
    node.with_attrs(some_attrs());
    assert!(node.get_attrs() == Some(&some_attrs()));
    node.with_attrs(second.clone());
    assert!(node.get_attrs() == Some(&second));
    assert_eq!(node.get_kind(), ident("x").get_kind());
}

#[test]
fn ast_type_wraps_its_node() {
    let wrapped = ty("List");
    assert_eq!(wrapped.get_ast(), &leaf("List"));
}

#[test]
fn generic_decl_keeps_name_bounds_and_default() {
    let decl = GenericDecl::new("T".to_string(), vec![ty("Eq"), ty("Hash")], Some(ty("i32")));
    assert_eq!(decl.get_name(), "T");
    assert_eq!(decl.get_impls(), &vec![ty("Eq"), ty("Hash")]);
    assert_eq!(decl.get_default(), Some(&ty("i32")));
    let plain = GenericDecl::new("U".to_string(), Vec::new(), None);
    assert_eq!(plain.get_name(), "U");
    assert!(plain.get_impls().is_empty());
    assert_eq!(plain.get_default(), None);
}

#[test]
fn class_member_keeps_name_and_type() {
    let member = ClassMember::new("count".to_string(), ty("usize"));
    assert_eq!(member.get_name(), "count");
    assert_eq!(member.get_ty(), &ty("usize"));
}

#[test]
fn arg_map_keeps_order_and_refuses_a_second_name() {
    let mut args = ArgMap::new();
    assert_eq!(args.len(), 0);
    assert!(args.insert("b".to_string(), ty("i32")));
    assert!(args.insert("a".to_string(), ty("bool")));
    assert!(!args.insert("b".to_string(), ty("String")));
    assert_eq!(args.len(), 2);
    assert_eq!(args.get_index(0), (&"b".to_string(), &ty("i32")));
    assert_eq!(args.get_index(1), (&"a".to_string(), &ty("bool")));
    assert_eq!(args.position(&"b".to_string()), Some(0));
    assert_eq!(args.position(&"a".to_string()), Some(1));
    assert_eq!(args.position(&"c".to_string()), None);
    assert_eq!(args.get(&"b".to_string()), Some(&ty("i32")));
    assert_eq!(args.get(&"a".to_string()), Some(&ty("bool")));
    assert_eq!(args.get(&"c".to_string()), None);
}

#[test]
fn binary_ops_are_sixteen_different_tags() {
    let ops = vec![
        BinaryOp::Add,
        BinaryOp::Sub,
        BinaryOp::Mul,
        BinaryOp::Div,
        BinaryOp::Mod,
        BinaryOp::Eq,
        BinaryOp::Ne,
        BinaryOp::Lt,
        BinaryOp::Le,
        BinaryOp::Gt,
        BinaryOp::Ge,
        BinaryOp::And,
        BinaryOp::Or,
        BinaryOp::New,
        BinaryOp::Del,
        BinaryOp::Index,
    ];
    assert_eq!(ops.len(), 16);
    for (i, a) in ops.iter().enumerate() {
        for (j, b) in ops.iter().enumerate() {
            assert_eq!(a == b, i == j);
        }
    }
}

#[test]
fn cloned_trees_are_equal() {
    for stmt in statements() {
        let node = Node::new(AST::Stmt(stmt));
        assert_eq!(node.clone(), node);
        assert_eq!(node.get_kind().clone(), *node.get_kind());
    }
    for expr in expressions() {
        let node = ExprNode::new(expr);
        assert_eq!(node.clone(), node);
        let wrapped = Node::new(AST::Expr(node.get_kind().clone()));
        assert_eq!(wrapped.clone(), wrapped);
    }
    let top = Node::new(AST::TopLevel(vec![leaf("a"), leaf("b")]));
    assert_eq!(top.clone(), top);
}

#[test]
fn clone_keeps_attached_attrs() {
    let mut node = leaf("x");
    node.with_attrs(some_attrs());
    let copy = node.clone();
    assert!(copy.get_attrs() == Some(&some_attrs()));
    assert_eq!(copy, node);
    let mut expr = ident("y");
    expr.with_attrs(some_attrs());
    assert!(expr.clone().get_attrs() == Some(&some_attrs()));
}

#[test]
fn cloned_parts_are_equal() {
    assert_eq!(ty("T").clone(), ty("T"));
    assert_eq!(generic("T").clone(), generic("T"));
    let member = ClassMember::new("x".to_string(), ty("i32"));
    assert_eq!(member.clone(), member);
    let mut args = ArgMap::new();
    args.insert("a".to_string(), ty("i32"));
    args.insert("b".to_string(), ty("bool"));
    let copy = args.clone();
    assert_eq!(copy, args);
    assert_eq!(copy.len(), 2);
    assert_eq!(copy.get_index(0), (&"a".to_string(), &ty("i32")));
    assert_eq!(copy.get_index(1), (&"b".to_string(), &ty("bool")));
}
