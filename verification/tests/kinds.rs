use scope_chain::Type;

#[test]
fn classifies_each_keyword() {
    assert_eq!(Type::from("struct"), Type::Struct);
    assert_eq!(Type::from("mod"), Type::Mod);
    assert_eq!(Type::from("enum"), Type::Enum);
    assert_eq!(Type::from("fn"), Type::Fn);
    assert_eq!(Type::from("const"), Type::Const);
    assert_eq!(Type::from("static"), Type::Static);
    assert_eq!(Type::from("type"), Type::Type);
    assert_eq!(Type::from("impl"), Type::Impl);
    assert_eq!(Type::from("use"), Type::Use);
    assert_eq!(Type::from("trait"), Type::Trait);
}

#[test]
fn classifies_the_three_macro_spellings() {
    assert_eq!(Type::from("macro"), Type::Macro);
    assert_eq!(Type::from("macro_rules"), Type::Macro);
    assert_eq!(Type::from("macro_rules!"), Type::Macro);
}

#[test]
fn classifies_anything_else_as_variant() {
    assert_eq!(Type::from(""), Type::Variant);
    assert_eq!(Type::from("Red"), Type::Variant);
    assert_eq!(Type::from("variant"), Type::Variant);
    assert_eq!(Type::from("?"), Type::Variant);
    assert_eq!(Type::from("Struct"), Type::Variant);
    assert_eq!(Type::from("struct "), Type::Variant);
    assert_eq!(Type::from(" struct"), Type::Variant);
    assert_eq!(Type::from("structs"), Type::Variant);
    assert_eq!(Type::from("struc"), Type::Variant);
    assert_eq!(Type::from("macro_rules!!"), Type::Variant);
    assert_eq!(Type::from("macro!"), Type::Variant);
    assert_eq!(Type::from("f\u{00f1}"), Type::Variant);
    assert_eq!(Type::from("unknown"), Type::Variant);
}

#[test]
fn classification_never_gives_unknown() {
    let tokens = [
        "", "?", "unknown", "Unknown", "struct", "mod", "enum", "fn", "const", "static", "type",
        "impl", "use", "trait", "macro", "macro_rules", "macro_rules!", "variant", "x",
    ];
    for token in tokens {
        assert_ne!(Type::from(token), Type::Unknown);
    }
}

#[test]
fn writes_the_keyword_of_each_kind() {
    assert_eq!(Type::Struct.to_string(), "struct");
    assert_eq!(Type::Mod.to_string(), "mod");
    assert_eq!(Type::Enum.to_string(), "enum");
    assert_eq!(Type::Fn.to_string(), "fn");
    assert_eq!(Type::Const.to_string(), "const");
    assert_eq!(Type::Static.to_string(), "static");
    assert_eq!(Type::Type.to_string(), "type");
    assert_eq!(Type::Variant.to_string(), "variant");
    assert_eq!(Type::Impl.to_string(), "impl");
    assert_eq!(Type::Use.to_string(), "use");
    assert_eq!(Type::Macro.to_string(), "macro");
    assert_eq!(Type::Trait.to_string(), "trait");
    assert_eq!(Type::Unknown.to_string(), "?");
}

#[test]
fn keyword_of_a_kind_classifies_as_that_kind() {
    let kinds = [
        Type::Struct,
        Type::Mod,
        Type::Enum,
        Type::Fn,
        Type::Const,
        Type::Static,
        Type::Type,
        Type::Variant,
        Type::Impl,
        Type::Use,
        Type::Macro,
        Type::Trait,
    ];
    for kind in kinds {
        assert_eq!(Type::from(&kind.to_string()), kind);
    }
}

#[test]
fn placeholder_of_unknown_classifies_as_variant() {
    assert_eq!(Type::from(&Type::Unknown.to_string()), Type::Variant);
}

#[test]
fn kinds_compare_by_variant_and_copy() {
    let a = Type::Macro;
    let b = a;
    assert_eq!(a, b);
    assert_ne!(Type::Macro, Type::Mod);
    assert_ne!(Type::Type, Type::Variant);
}

#[test]
fn borrowed_keyword_is_the_written_one() {
    let kinds = [
        Type::Struct,
        Type::Mod,
        Type::Enum,
        Type::Fn,
        Type::Const,
        Type::Static,
        Type::Type,
        Type::Variant,
        Type::Impl,
        Type::Use,
        Type::Macro,
        Type::Trait,
        Type::Unknown,
    ];
    for kind in kinds {
        assert_eq!(kind.as_str(), kind.to_string());
    }
    assert_eq!(Type::Type.as_str(), "type");
    assert_eq!(Type::Unknown.as_str(), "?");
}
