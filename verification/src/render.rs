//! The rendering of a scope chain as one line of text.
//!
//! A chain is written from the outermost enclosing declaration inward. Each
//! declaration reads `<keyword> <name><tokens>`, the tokens joined by single
//! spaces and set directly behind the name; each enclosing declaration is
//! closed by `§`. An enclosing declaration that is a macro is left out.

use vstd::prelude::*;
use vstd::string::StringExecFns;
use crate::kind::Type;
use crate::scope::{lemma_chain_unfolds, Segment, TypeStruct};
use crate::text::{append_joined, joined};

verus! {

impl Segment {
    /// The text of one declaration: keyword, a space, the name, and the
    /// trailing tokens joined by spaces.
    pub open spec fn text(self) -> Seq<char> {
        self.ty.keyword() + " "@ + self.name + joined(self.args)
    }

    /// The text of a declaration that encloses the one being rendered: nothing
    /// for a macro, else its text closed by the separator.
    pub open spec fn enclosing_text(self) -> Seq<char> {
        if self.ty == Type::Macro {
            Seq::empty()
        } else {
            self.text() + "§"@
        }
    }
}

/// The texts of the enclosing declarations `scopes`, outermost first, macros
/// left out.
pub open spec fn enclosing_path(scopes: Seq<Segment>) -> Seq<char>
    decreases scopes.len(),
{
    if scopes.len() == 0 {
        Seq::empty()
    } else {
        enclosing_path(scopes.drop_last()) + scopes.last().enclosing_text()
    }
}

/// The rendering of a chain: its enclosing declarations, then the declaration
/// itself, which is written whatever its kind.
pub open spec fn scope_path(chain: Seq<Segment>) -> Seq<char> {
    enclosing_path(chain.drop_last()) + chain.last().text()
}

/// The rendering of a chain that leaves nothing out: every declaration,
/// outermost first, with the separator between neighbours.
pub open spec fn full_path(chain: Seq<Segment>) -> Seq<char>
    decreases chain.len(),
{
    if chain.len() <= 1 {
        chain.last().text()
    } else {
        full_path(chain.drop_last()) + "§"@ + chain.last().text()
    }
}

/// The text of the declarations that enclose `node`: the enclosing path of its
/// parent's chain, and nothing at the top level.
pub open spec fn outer_path(node: &TypeStruct) -> Seq<char> {
    match node.parent {
        Some(p) => enclosing_path(p@),
        None => Seq::empty(),
    }
}

/// The declarations of a chain that its scope path shows: the enclosing ones
/// that are no macro, in their order, and the declaration itself.
pub open spec fn shown_scopes(chain: Seq<Segment>) -> Seq<Segment> {
    chain.drop_last().filter(|s: Segment| s.ty != Type::Macro).push(chain.last())
}

/// Appends the text of the declaration `t` alone to `buf`, closed by the
/// separator where `t` is written as an enclosing declaration.
pub fn show(buf: &mut String, t: &TypeStruct, is_parent: bool)
    ensures
        final(buf)@ == old(buf)@ + t.segment().text() + if is_parent {
            "§"@
        } else {
            Seq::empty()
        },
{
    buf.append(t.ty.as_str());
    buf.append(" ");
    buf.append(t.name.as_str());
    append_joined(buf, &t.args);
    if is_parent {
        buf.append("§");
    }
    assert(buf@ =~= old(buf)@ + t.segment().text() + if is_parent {
        "§"@
    } else {
        Seq::empty()
    });
}

/// Appends the rendering of the chain of `t` to `buf`. With `is_parent` the
/// node is written as an enclosing declaration: closed by the separator, and
/// left out if it is a macro.
pub fn sub_call(buf: &mut String, t: &TypeStruct, is_parent: bool)
    ensures
        final(buf)@ == old(buf)@ + if is_parent {
            enclosing_path(t@)
        } else {
            scope_path(t@)
        },
    decreases t,
{
    proof {
        lemma_path_unfolds(t);
    }
    if t.ty == Type::Macro && is_parent {
        match &t.parent {
            Some(p) => {
                sub_call(buf, p, true);
                assert(buf@ =~= old(buf)@ + enclosing_path(t@));
            },
            None => {
                assert(buf@ =~= old(buf)@ + enclosing_path(t@));
            },
        }
    } else {
        match &t.parent {
            Some(p) => {
                sub_call(buf, p, true);
                show(buf, t, is_parent);
            },
            None => show(buf, t, is_parent),
        }
        assert(is_parent ==> buf@ =~= old(buf)@ + enclosing_path(t@));
        assert(!is_parent ==> buf@ =~= old(buf)@ + scope_path(t@));
    }
}

/// Appends the unabridged rendering of the chain of `t` to `buf`.
fn append_full_path(buf: &mut String, t: &TypeStruct)
    ensures
        final(buf)@ == old(buf)@ + full_path(t@),
    decreases t,
{
    proof {
        lemma_chain_unfolds(t);
    }
    match &t.parent {
        Some(p) => {
            append_full_path(buf, p);
            buf.append("§");
        },
        None => {},
    }
    show(buf, t, false);
    assert(buf@ =~= old(buf)@ + full_path(t@));
}

impl TypeStruct {
    /// The unabridged path of this declaration, for diagnostics: every
    /// enclosing declaration is written, macros too.
    pub fn debug_string(&self) -> (path: String)
        ensures
            path@ == full_path(self@),
    {
        let mut path = String::new();
        append_full_path(&mut path, self);
        path
    }

    /// The scope path of this declaration: the declarations that enclose it,
    /// outermost first and macros left out, then the declaration itself.
    pub fn to_string(&self) -> (path: String)
        ensures
            path@ == scope_path(self@),
    {
        let mut path = String::new();
        sub_call(&mut path, self, false);
        path
    }
}

/// The enclosing declarations of a chain are written one after the other:
/// the text of two runs of scopes is the text of the first, then that of the
/// second.
pub proof fn lemma_enclosing_path_concat(outer: Seq<Segment>, inner: Seq<Segment>)
    ensures
        enclosing_path(outer + inner) == enclosing_path(outer) + enclosing_path(inner),
    decreases inner.len(),
{
    if inner.len() == 0 {
        assert(outer + inner =~= outer);
    } else {
        lemma_enclosing_path_concat(outer, inner.drop_last());
        assert((outer + inner).drop_last() =~= outer + inner.drop_last());
    }
}

/// A declaration at the top level is rendered as its own text, whatever its
/// kind.
pub proof fn lemma_top_level_path(node: Segment)
    ensures
        scope_path(seq![node]) == node.text(),
{
    assert(seq![node].drop_last() =~= Seq::<Segment>::empty());
}

/// How the rendering of a node builds on that of its parent: the enclosing
/// path of the parent's chain, nothing at the top level, is followed by the
/// node's own text, written as an enclosing declaration or as the last one.
pub proof fn lemma_path_unfolds(node: &TypeStruct)
    ensures
        enclosing_path(node@) == outer_path(node) + node.segment().enclosing_text(),
        scope_path(node@) == outer_path(node) + node.segment().text(),
{
    lemma_chain_unfolds(node);
    let outer = node@.drop_last();
    assert(enclosing_path(node@) == enclosing_path(outer) + node.segment().enclosing_text());
    if node.parent is None {
        assert(outer =~= Seq::<Segment>::empty());
        assert(enclosing_path(outer) =~= Seq::<char>::empty());
    }
    assert(enclosing_path(outer) == outer_path(node));
}

/// A macro among the enclosing declarations leaves no trace in the scope
/// path: the chain without it is rendered the same.
pub proof fn lemma_macro_scope_elided(chain: Seq<Segment>, i: int)
    requires
        0 <= i < chain.len() - 1,
        chain[i].ty == Type::Macro,
    ensures
        scope_path(chain) == scope_path(chain.remove(i)),
{
    let scopes = chain.drop_last();
    let before = scopes.take(i);
    let after = scopes.skip(i + 1);
    assert(scopes =~= (before + seq![scopes[i]]) + after);
    assert(chain.remove(i).drop_last() =~= before + after);
    assert(enclosing_path(seq![scopes[i]]) =~= Seq::<char>::empty()) by {
        assert(seq![scopes[i]].drop_last() =~= Seq::<Segment>::empty());
        assert(enclosing_path(Seq::<Segment>::empty()) =~= Seq::<char>::empty());
    }
    assert(chain.remove(i).last() == chain.last());
    lemma_enclosing_path_concat(before, seq![scopes[i]]);
    lemma_enclosing_path_concat(before + seq![scopes[i]], after);
    lemma_enclosing_path_concat(before, after);
    assert(enclosing_path(scopes) =~= enclosing_path(before + after));
}

/// Where no enclosing declaration is a macro, the scope path leaves nothing
/// out: it is the unabridged path.
pub proof fn lemma_full_path_without_macros(chain: Seq<Segment>)
    requires
        chain.len() > 0,
        forall|i: int| 0 <= i < chain.len() - 1 ==> chain[i].ty != Type::Macro,
    ensures
        scope_path(chain) == full_path(chain),
    decreases chain.len(),
{
    if chain.len() == 1 {
        assert(chain.drop_last() =~= Seq::<Segment>::empty());
    } else {
        let scopes = chain.drop_last();
        lemma_full_path_without_macros(scopes);
        assert(scope_path(chain) =~= full_path(chain));
    }
}

/// Enclosing macros add nothing to the text of the enclosing declarations.
proof fn lemma_enclosing_path_filter(scopes: Seq<Segment>)
    ensures
        enclosing_path(scopes) == enclosing_path(scopes.filter(|s: Segment| s.ty != Type::Macro)),
    decreases scopes.len(),
{
    let kept = |s: Segment| s.ty != Type::Macro;
    reveal(Seq::filter);
    if scopes.len() > 0 {
        let outer = scopes.drop_last();
        lemma_enclosing_path_filter(outer);
        if kept(scopes.last()) {
            assert(outer.filter(kept).push(scopes.last()).drop_last() =~= outer.filter(kept));
        } else {
            assert(enclosing_path(scopes) =~= enclosing_path(outer));
        }
    }
}

/// The scope path of a chain is the unabridged path of what it shows: the
/// enclosing declarations that are no macro, then the declaration itself, with
/// the separator between neighbours.
pub proof fn lemma_scope_path_shows_non_macros(chain: Seq<Segment>)
    requires
        chain.len() > 0,
    ensures
        scope_path(chain) == full_path(shown_scopes(chain)),
{
    let kept = chain.drop_last().filter(|s: Segment| s.ty != Type::Macro);
    let shown = shown_scopes(chain);
    lemma_enclosing_path_filter(chain.drop_last());
    assert(shown.drop_last() =~= kept);
    assert forall|i: int| 0 <= i < shown.len() - 1 implies shown[i].ty != Type::Macro by {
        chain.drop_last().lemma_filter_pred(|s: Segment| s.ty != Type::Macro, i);
        assert(shown[i] == kept[i]);
    }
    lemma_full_path_without_macros(shown);
}

} // verus!
