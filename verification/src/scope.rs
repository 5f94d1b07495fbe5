//! A declaration together with the chain of declarations that enclose it.

use vstd::prelude::*;
use vstd::std_specs::cmp::PartialEqSpec;
use crate::kind::Type;
use crate::text::texts;

verus! {

/// One declaration of a scope chain, as plain values: its kind, its name and
/// the raw tokens that follow the name.
pub struct Segment {
    pub ty: Type,
    pub name: Seq<char>,
    pub args: Seq<Seq<char>>,
}

/// A declaration and, through `parent`, the declarations that enclose it.
///
/// Each node owns its parent, so a chain is finite, has no cycle, and shares
/// nothing with another chain.
pub struct TypeStruct {
    pub ty: Type,
    pub parent: Option<Box<TypeStruct>>,
    pub name: String,
    pub args: Vec<String>,
}

impl View for TypeStruct {
    type V = Seq<Segment>;

    /// The scope chain from the outermost enclosing declaration down to this
    /// declaration itself, which comes last.
    open spec fn view(&self) -> Seq<Segment> {
        self.chain()
    }
}

impl TypeStruct {
    /// This declaration alone, without those that enclose it.
    pub open spec fn segment(&self) -> Segment {
        Segment { ty: self.ty, name: self.name@, args: texts(self.args@) }
    }

    /// The declarations from the outermost enclosing one down to this one.
    pub open spec fn chain(&self) -> Seq<Segment>
        decreases self,
    {
        match self.parent {
            None => seq![self.segment()],
            Some(p) => p.chain().push(self.segment()),
        }
    }

    /// The number of declarations that enclose this one.
    pub open spec fn depth(&self) -> nat
        decreases self,
    {
        match self.parent {
            None => 0,
            Some(p) => p.depth() + 1,
        }
    }

    /// A declaration at the top level, with nothing after its name.
    pub fn new(ty: Type, name: &str) -> (node: TypeStruct)
        ensures
            node.ty == ty,
            node.name@ == name@,
            node.args@.len() == 0,
            node.parent is None,
            node@ == seq![Segment { ty, name: name@, args: Seq::empty() }],
    {
        let node = TypeStruct { ty: ty, name: name.to_owned(), args: Vec::new(), parent: None };
        assert(texts(node.args@) =~= Seq::empty());
        node
    }

    /// The placeholder for a declaration that is not known yet: kind `Unknown`,
    /// no name, nothing after it, at the top level.
    pub fn empty() -> (node: TypeStruct)
        ensures
            node.ty == Type::Unknown,
            node.name@.len() == 0,
            node.args@.len() == 0,
            node.parent is None,
            node@ == seq![Segment { ty: Type::Unknown, name: Seq::empty(), args: Seq::empty() }],
    {
        let node = TypeStruct {
            ty: Type::Unknown,
            name: String::new(),
            args: Vec::new(),
            parent: None,
        };
        assert(texts(node.args@) =~= Seq::empty());
        assert(node.name@ =~= Seq::empty());
        node
    }

    /// Whether two lists of trailing tokens hold the same texts in the same
    /// order.
    fn same_args(a: &Vec<String>, b: &Vec<String>) -> (same: bool)
        ensures
            same == (texts(a@) == texts(b@)),
    {
        if a.len() != b.len() {
            assert(texts(a@).len() != texts(b@).len());
            return false;
        }
        let mut i: usize = 0;
        while i < a.len()
            invariant
                i <= a.len(),
                a.len() == b.len(),
                forall|k: int| 0 <= k < i ==> a@[k]@ == b@[k]@,
            decreases a.len() - i,
        {
            if a[i] != b[i] {
                assert(texts(a@)[i as int] != texts(b@)[i as int]);
                return false;
            }
            i += 1;
        }
        assert(texts(a@) =~= texts(b@));
        true
    }

    /// Whether two chains hold the same declarations: the same kind, name and
    /// trailing tokens at every level, and the same number of levels.
    fn same_chain(&self, other: &TypeStruct) -> (same: bool)
        ensures
            same == (self@ == other@),
        decreases self,
    {
        proof {
            lemma_chain_unfolds(self);
            lemma_chain_unfolds(other);
        }
        let here = self.ty == other.ty && self.name == other.name && Self::same_args(
            &self.args,
            &other.args,
        );
        if !here {
            return false;
        }
        assert(self.segment() == other.segment());
        match (&self.parent, &other.parent) {
            (None, None) => true,
            (Some(p), Some(q)) => p.same_chain(q),
            _ => false,
        }
    }
}

impl PartialEq for TypeStruct {
    /// Two nodes are equal when their chains are: equal kind, name and
    /// trailing tokens, and equal parents, all the way up.
    fn eq(&self, other: &TypeStruct) -> (same: bool) {
        self.same_chain(other)
    }
}

impl vstd::std_specs::cmp::PartialEqSpecImpl for TypeStruct {
    open spec fn obeys_eq_spec() -> bool {
        true
    }

    open spec fn eq_spec(&self, other: &TypeStruct) -> bool {
        self@ == other@
    }
}

impl Clone for TypeStruct {
    /// A copy of the whole chain: every level is copied, none is shared.
    fn clone(&self) -> (copy: TypeStruct)
        ensures
            copy@ == self@,
            copy.depth() == self.depth(),
            copy.ty == self.ty,
            copy.name@ == self.name@,
            texts(copy.args@) == texts(self.args@),
        decreases self,
    {
        let copy = TypeStruct {
            ty: self.ty,
            name: self.name.clone(),
            args: self.args.clone(),
            parent: match &self.parent {
                Some(p) => Some(Box::new((&**p).clone())),
                None => None,
            },
        };
        assert(texts(copy.args@) =~= texts(self.args@));
        copy
    }

    /// Makes `self` a copy of the whole chain of `source`.
    fn clone_from(&mut self, source: &TypeStruct)
        ensures
            final(self)@ == source@,
            final(self).depth() == source.depth(),
    {
        self.ty = source.ty;
        self.name = source.name.clone();
        self.args = source.args.clone();
        self.parent = match &source.parent {
            Some(p) => Some(Box::new((&**p).clone())),
            None => None,
        };
        assert(texts(self.args@) =~= texts(source.args@));
    }
}

/// A chain holds its own declaration and one more for each enclosing one.
pub proof fn lemma_chain_unfolds(node: &TypeStruct)
    ensures
        node@.len() == node.depth() + 1,
        node@.last() == node.segment(),
        node.parent matches Some(p) ==> node@.drop_last() == p@,
    decreases node,
{
    match node.parent {
        None => {},
        Some(p) => {
            lemma_chain_unfolds(&*p);
            assert(p@.push(node.segment()).drop_last() =~= p@);
        },
    }
}

/// Equal chains are equal level by level: two nodes are equal exactly when
/// they have the same kind, name and trailing tokens, and either both have no
/// parent or both have one and the parents are equal.
pub proof fn lemma_eq_unfolds(a: &TypeStruct, b: &TypeStruct)
    ensures
        a.eq_spec(b) <==> {
            &&& a.ty == b.ty
            &&& a.name@ == b.name@
            &&& texts(a.args@) == texts(b.args@)
            &&& match (a.parent, b.parent) {
                (None, None) => true,
                (Some(p), Some(q)) => (*p).eq_spec(&*q),
                _ => false,
            }
        },
{
    lemma_chain_unfolds(a);
    lemma_chain_unfolds(b);
    if a.segment() == b.segment() {
        match (a.parent, b.parent) {
            (Some(p), Some(q)) => {
                if p@ == q@ {
                    assert(a@ == b@);
                }
            },
            _ => {},
        }
    }
}

/// Equality of nodes is an equivalence: every node equals itself, and
/// equality can be turned round and chained.
pub proof fn lemma_eq_equivalence(a: &TypeStruct, b: &TypeStruct, c: &TypeStruct)
    ensures
        a.eq_spec(a),
        a.eq_spec(b) ==> b.eq_spec(a),
        a.eq_spec(b) && b.eq_spec(c) ==> a.eq_spec(c),
{
}

/// A node equals every copy that `clone` makes of it.
pub proof fn lemma_clone_equal(node: TypeStruct, copy: TypeStruct)
    requires
        cloned::<TypeStruct>(node, copy),
    ensures
        node.eq_spec(&copy),
        copy.eq_spec(&node),
{
}

/// A copy that `clone` makes has as many enclosing declarations as the node
/// it was made from, and each level of the copy equals the same level there.
pub proof fn lemma_clone_keeps_chain(node: TypeStruct, copy: TypeStruct)
    requires
        cloned::<TypeStruct>(node, copy),
    ensures
        copy.depth() == node.depth(),
        copy@.len() == node@.len(),
        forall|i: int| 0 <= i < node@.len() ==> copy@[i] == node@[i],
        copy.segment() == node.segment(),
        node.parent is None <==> copy.parent is None,
        node.parent matches Some(p) ==> copy.parent matches Some(q) && q@ == p@,
{
    lemma_chain_unfolds(&node);
    lemma_chain_unfolds(&copy);
}

} // verus!
