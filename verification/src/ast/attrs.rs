use vstd::prelude::*;
use vstd::std_specs::cmp::PartialEqSpecImpl;

verus! {

/// How a declaration is linked with code from outside the language.
#[derive(Clone, Copy, Debug, PartialEq, Eq, Structural)]
pub enum ExternalLinkage {
    C,
    Snowball,
    System,
}

/// A qualifier of a declaration.
#[derive(Clone, Copy, Debug, PartialEq, Eq, Structural)]
pub enum AstAttrs {
    /// Visibility: `true` for public, `false` for private.
    Privacy(bool),
    Static,
    Inline,
    External(ExternalLinkage),
    Abstract,
    Final,
}

/// The qualifiers gathered for one declaration. What counts is which
/// qualifiers were added, not how often or in what order: the view is a set.
#[derive(Debug)]
pub struct AttrHandler {
    attrs: Vec<AstAttrs>,
}

impl View for AttrHandler {
    type V = Set<AstAttrs>;

    closed spec fn view(&self) -> Set<AstAttrs> {
        self.attrs@.to_set()
    }
}

impl AttrHandler {
    pub fn new() -> (handler: AttrHandler)
        ensures
            handler@ == Set::<AstAttrs>::empty(),
    {
        let handler = AttrHandler { attrs: Vec::new() };
        assert(handler.attrs@.to_set() =~= Set::<AstAttrs>::empty());
        handler
    }

    /// Adds one qualifier. Adding one that is there already changes nothing.
    pub fn add_attr(&mut self, attr: AstAttrs)
        ensures
            final(self)@ == old(self)@.insert(attr),
    {
        self.attrs.push(attr);
        assert(self.attrs@.to_set() =~= old(self).attrs@.to_set().insert(attr)) by {
            let before = old(self).attrs@;
            let after = self.attrs@;
            assert(after == before.push(attr));
            assert forall|a: AstAttrs| after.contains(a) <==> (before.contains(a) || a == attr) by {
                if before.contains(a) {
                    let i = choose|i: int| 0 <= i < before.len() && before[i] == a;
                    assert(after[i] == a);
                }
                if a == attr {
                    assert(after[before.len() as int] == a);
                }
            }
        }
    }

    /// Whether the qualifier was added.
    pub fn has_attr(&self, attr: AstAttrs) -> (found: bool)
        ensures
            found == self@.contains(attr),
    {
        let mut i: usize = 0;
        while i < self.attrs.len()
            invariant
                i <= self.attrs.len(),
                forall|j: int| 0 <= j < i ==> self.attrs@[j] != attr,
            decreases self.attrs.len() - i,
        {
            if self.attrs[i] == attr {
                return true;
            }
            i += 1;
        }
        false
    }

    /// Whether no qualifier was added.
    pub fn is_empty(&self) -> (empty: bool)
        ensures
            empty == (self@ == Set::<AstAttrs>::empty()),
    {
        let empty = self.attrs.len() == 0;
        proof {
            if empty {
                assert(self.attrs@.to_set() =~= Set::<AstAttrs>::empty());
            } else {
                assert(self.attrs@.to_set().contains(self.attrs@[0]));
            }
        }
        empty
    }

    /// Whether every qualifier of `self` is one of `other` too.
    fn within(&self, other: &AttrHandler) -> (all: bool)
        ensures
            all == self@.subset_of(other@),
    {
        let mut i: usize = 0;
        while i < self.attrs.len()
            invariant
                i <= self.attrs.len(),
                forall|j: int| 0 <= j < i ==> other@.contains(self.attrs@[j]),
            decreases self.attrs.len() - i,
        {
            if !other.has_attr(self.attrs[i]) {
                assert(self@.contains(self.attrs@[i as int]));
                return false;
            }
            i += 1;
        }
        true
    }
}

impl Clone for AttrHandler {
    fn clone(&self) -> (res: AttrHandler)
        ensures
            res@ == self@,
    {
        let res = AttrHandler { attrs: self.attrs.clone() };
        assert(res.attrs@ =~= self.attrs@);
        res
    }
}

impl PartialEq for AttrHandler {
    /// Two handlers are equal when they hold the same qualifiers.
    fn eq(&self, other: &AttrHandler) -> (r: bool) {
        let r = self.within(other) && other.within(self);
        assert(r == (self@ =~= other@));
        r
    }
}

impl PartialEqSpecImpl for AttrHandler {
    open spec fn obeys_eq_spec() -> bool {
        true
    }

    open spec fn eq_spec(&self, other: &AttrHandler) -> bool {
        self@ == other@
    }
}

impl Eq for AttrHandler {

}

} // verus!
