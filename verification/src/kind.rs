//! The kinds of declaration that a scope chain can hold.

use vstd::prelude::*;
use crate::text::same_text;

verus! {

/// The kind of a declaration.
#[derive(Debug, Clone, Copy, PartialEq, Eq, Structural)]
pub enum Type {
    Struct,
    Mod,
    Enum,
    Fn,
    Const,
    Static,
    Type,
    Variant,
    Impl,
    Use,
    Macro,
    Trait,
    Unknown,
}

impl Type {
    /// Whether `token` is one of the keywords that open a declaration.
    pub open spec fn is_keyword(token: Seq<char>) -> bool {
        ||| token == "struct"@
        ||| token == "mod"@
        ||| token == "enum"@
        ||| token == "fn"@
        ||| token == "const"@
        ||| token == "static"@
        ||| token == "type"@
        ||| token == "impl"@
        ||| token == "use"@
        ||| token == "trait"@
        ||| token == "macro"@
        ||| token == "macro_rules"@
        ||| token == "macro_rules!"@
    }

    /// The kind that a raw token announces. A token that is no keyword is taken
    /// for the name of an enum's variant.
    pub open spec fn classify(token: Seq<char>) -> Type {
        if token == "struct"@ {
            Type::Struct
        } else if token == "mod"@ {
            Type::Mod
        } else if token == "enum"@ {
            Type::Enum
        } else if token == "fn"@ {
            Type::Fn
        } else if token == "const"@ {
            Type::Const
        } else if token == "static"@ {
            Type::Static
        } else if token == "type"@ {
            Type::Type
        } else if token == "impl"@ {
            Type::Impl
        } else if token == "use"@ {
            Type::Use
        } else if token == "trait"@ {
            Type::Trait
        } else if token == "macro"@ || token == "macro_rules"@ || token == "macro_rules!"@ {
            Type::Macro
        } else {
            Type::Variant
        }
    }

    /// The keyword that stands for a kind in a rendered scope path.
    pub open spec fn keyword(self) -> Seq<char> {
        match self {
            Type::Struct => "struct"@,
            Type::Mod => "mod"@,
            Type::Enum => "enum"@,
            Type::Fn => "fn"@,
            Type::Const => "const"@,
            Type::Static => "static"@,
            Type::Type => "type"@,
            Type::Variant => "variant"@,
            Type::Impl => "impl"@,
            Type::Use => "use"@,
            Type::Macro => "macro"@,
            Type::Trait => "trait"@,
            Type::Unknown => "?"@,
        }
    }

    /// Classifies a raw token. Every token has a kind: one that is no keyword
    /// is a `Variant`, and no token is `Unknown`.
    pub fn from(s: &str) -> (kind: Type)
        ensures
            kind == Type::classify(s@),
            kind != Type::Unknown,
            kind == Type::Variant <==> !Type::is_keyword(s@),
    {
        if same_text(s, "struct") {
            Type::Struct
        } else if same_text(s, "mod") {
            Type::Mod
        } else if same_text(s, "enum") {
            Type::Enum
        } else if same_text(s, "fn") {
            Type::Fn
        } else if same_text(s, "const") {
            Type::Const
        } else if same_text(s, "static") {
            Type::Static
        } else if same_text(s, "type") {
            Type::Type
        } else if same_text(s, "impl") {
            Type::Impl
        } else if same_text(s, "use") {
            Type::Use
        } else if same_text(s, "trait") {
            Type::Trait
        } else if same_text(s, "macro") {
            Type::Macro
        } else if same_text(s, "macro_rules") {
            Type::Macro
        } else if same_text(s, "macro_rules!") {
            Type::Macro
        } else {
            Type::Variant
        }
    }

    /// The keyword of a kind, `"?"` for a kind that is not known.
    pub fn as_str(&self) -> (text: &'static str)
        ensures
            text@ == self.keyword(),
    {
        match self {
            Type::Struct => "struct",
            Type::Mod => "mod",
            Type::Enum => "enum",
            Type::Fn => "fn",
            Type::Const => "const",
            Type::Static => "static",
            Type::Type => "type",
            Type::Variant => "variant",
            Type::Impl => "impl",
            Type::Use => "use",
            Type::Macro => "macro",
            Type::Trait => "trait",
            Type::Unknown => "?",
        }
    }

    /// The keyword of a kind as a string of its own.
    pub fn to_string(&self) -> (text: String)
        ensures
            text@ == self.keyword(),
    {
        self.as_str().to_owned()
    }
}

/// Every token has exactly one kind, which is never `Unknown`, and the tokens
/// that are no keyword are exactly those of kind `Variant`.
pub proof fn lemma_classify_total(token: Seq<char>)
    ensures
        Type::classify(token) != Type::Unknown,
        Type::classify(token) == Type::Variant <==> !Type::is_keyword(token),
{
}

/// The lengths of the keywords, and a letter apart for those of one length.
proof fn lemma_keywords_differ()
    ensures
        "?"@.len() == 1,
        "fn"@.len() == 2,
        "mod"@.len() == 3 && "mod"@[0] == 'm',
        "use"@.len() == 3 && "use"@[0] == 'u',
        "enum"@.len() == 4 && "enum"@[0] == 'e',
        "type"@.len() == 4 && "type"@[0] == 't',
        "impl"@.len() == 4 && "impl"@[0] == 'i',
        "const"@.len() == 5 && "const"@[0] == 'c',
        "trait"@.len() == 5 && "trait"@[0] == 't',
        "macro"@.len() == 5 && "macro"@[0] == 'm',
        "struct"@.len() == 6 && "struct"@[2] == 'r',
        "static"@.len() == 6 && "static"@[2] == 'a',
        "variant"@.len() == 7,
        "macro_rules"@.len() == 11,
        "macro_rules!"@.len() == 12,
{
    reveal_strlit("?");
    reveal_strlit("fn");
    reveal_strlit("mod");
    reveal_strlit("use");
    reveal_strlit("enum");
    reveal_strlit("type");
    reveal_strlit("impl");
    reveal_strlit("const");
    reveal_strlit("trait");
    reveal_strlit("macro");
    reveal_strlit("struct");
    reveal_strlit("static");
    reveal_strlit("variant");
    reveal_strlit("macro_rules");
    reveal_strlit("macro_rules!");
}

/// Classifying the keyword of a kind gives the kind back, for every kind but
/// `Unknown`.
pub proof fn lemma_keyword_inverse(kind: Type)
    requires
        kind != Type::Unknown,
    ensures
        Type::classify(kind.keyword()) == kind,
{
    lemma_keywords_differ();
}

/// The placeholder of the kind `Unknown` is no keyword: it classifies as a
/// `Variant`, so `Unknown` is the one kind that its own text does not give back.
pub proof fn lemma_unknown_not_recovered()
    ensures
        Type::classify(Type::Unknown.keyword()) == Type::Variant,
{
    lemma_keywords_differ();
}

} // verus!
