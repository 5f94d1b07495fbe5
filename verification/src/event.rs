//! What a scanner reports while it walks a source file.

use vstd::prelude::*;
use vstd::string::StringExecFns;
use crate::render::scope_path;
use crate::scope::TypeStruct;

verus! {

/// One report of the scanner, in the order of the file.
pub enum EventType {
    /// A comment that belongs to no declaration.
    Comment(String),
    /// A comment on the file as a whole.
    FileComment(String),
    /// A declaration, with the chain of those that enclose it.
    Type(TypeStruct),
    /// The scanner has entered the scope of the last declaration.
    InScope,
    /// The scanner has left the innermost scope.
    OutScope,
}

impl EventType {
    /// What `debug_string` writes: the scope path of a declaration on a line of
    /// its own, and nothing for any other event.
    pub open spec fn debug_text(&self) -> Seq<char> {
        match self {
            EventType::Type(t) => scope_path(t@) + "\n"@,
            _ => Seq::empty(),
        }
    }

    /// The text of an event for diagnostics.
    pub fn debug_string(&self) -> (line: String)
        ensures
            line@ == self.debug_text(),
    {
        match self {
            EventType::Type(t) => {
                let mut line = t.to_string();
                line.append("\n");
                line
            },
            _ => String::new(),
        }
    }

    /// The number of the variant of an event, in the order of declaration.
    pub open spec fn variant_index(&self) -> nat {
        match self {
            EventType::Comment(_) => 0,
            EventType::FileComment(_) => 1,
            EventType::Type(_) => 2,
            EventType::InScope => 3,
            EventType::OutScope => 4,
        }
    }
}

/// What is put into a variant is what is read back from it, and an event made
/// as one variant is of that variant and of no other.
pub proof fn lemma_event_round_trip(text: String, node: TypeStruct)
    ensures
        EventType::Comment(text) matches EventType::Comment(t) && t == text,
        EventType::FileComment(text) matches EventType::FileComment(t) && t == text,
        EventType::Type(node) matches EventType::Type(n) && n == node,
        EventType::InScope is InScope,
        EventType::OutScope is OutScope,
        EventType::Comment(text).variant_index() == 0,
        EventType::FileComment(text).variant_index() == 1,
        EventType::Type(node).variant_index() == 2,
        EventType::InScope.variant_index() == 3,
        EventType::OutScope.variant_index() == 4,
{
}

/// Every event is of exactly one of the five variants, and is the event that
/// its variant makes of its payload.
pub proof fn lemma_event_one_variant(e: EventType)
    ensures
        e.variant_index() < 5,
        e is Comment <==> e.variant_index() == 0,
        e is FileComment <==> e.variant_index() == 1,
        e is Type <==> e.variant_index() == 2,
        e is InScope <==> e.variant_index() == 3,
        e is OutScope <==> e.variant_index() == 4,
        e is Comment ==> e == EventType::Comment(e->Comment_0),
        e is FileComment ==> e == EventType::FileComment(e->FileComment_0),
        e is Type ==> e == EventType::Type(e->Type_0),
        e is InScope ==> e == EventType::InScope,
        e is OutScope ==> e == EventType::OutScope,
{
}

} // verus!
