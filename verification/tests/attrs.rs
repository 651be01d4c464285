use snowball::ast::attrs::{AstAttrs, AttrHandler, ExternalLinkage};

fn all_attrs() -> Vec<AstAttrs> {
    vec![
        AstAttrs::Privacy(true),
        AstAttrs::Privacy(false),
        AstAttrs::Static,
        AstAttrs::Inline,
        AstAttrs::External(ExternalLinkage::C),
        AstAttrs::External(ExternalLinkage::Snowball),
        AstAttrs::External(ExternalLinkage::System),
        AstAttrs::Abstract,
        AstAttrs::Final,
    ]
}

#[test]
fn new_handler_holds_nothing() {
    let handler = AttrHandler::new();
    assert!(handler.is_empty());
    for attr in all_attrs() {
        assert!(!handler.has_attr(attr));
    }
}

#[test]
fn added_attr_is_found_and_no_other() {
    for attr in all_attrs() {
        let mut handler = AttrHandler::new();
        handler.add_attr(attr);
        assert!(!handler.is_empty());
        for other in all_attrs() {
            assert_eq!(handler.has_attr(other), other == attr);
        }
    }
}

#[test]
fn handlers_compare_as_sets() {
    let mut one = AttrHandler::new();
    one.add_attr(AstAttrs::Privacy(true));
    one.add_attr(AstAttrs::Static);
    one.add_attr(AstAttrs::Inline);
    let mut other = AttrHandler::new();
    other.add_attr(AstAttrs::Inline);
    other.add_attr(AstAttrs::Static);
    other.add_attr(AstAttrs::Privacy(true));
    other.add_attr(AstAttrs::Static);
    assert!(one == other);
    other.add_attr(AstAttrs::Final);
    assert!(one != other);
    assert!(other != one);
    assert!(AttrHandler::new() == AttrHandler::new());
    assert!(AttrHandler::new() != one);
}

#[test]
fn contradictory_attrs_are_both_kept() {
    let mut handler = AttrHandler::new();
    handler.add_attr(AstAttrs::Privacy(true));
    handler.add_attr(AstAttrs::Privacy(false));
    assert!(handler.has_attr(AstAttrs::Privacy(true)));
    assert!(handler.has_attr(AstAttrs::Privacy(false)));
}

#[test]
fn handler_clone_is_equal() {
    let mut handler = AttrHandler::new();
    handler.add_attr(AstAttrs::External(ExternalLinkage::System));
    handler.add_attr(AstAttrs::Abstract);
    assert!(handler.clone() == handler);
}
