use lang_types::{Language, LanguageError};

#[test]
fn extension_lookup_python() {
    assert_eq!(Language::from_extension("py"), Some(Language::Python));
    assert_eq!(Language::from_extension(".py"), Some(Language::Python));
}

#[test]
fn name_lookup_cpp() {
    assert_eq!(Language::from_name("c++"), Some(Language::Cpp));
    assert_eq!(Language::Cpp.name(), "C++");
}

#[test]
fn alias_resolves_to_canonical_identity() {
    assert_eq!(Language::from_name("golang"), Some(Language::Go));
    assert_eq!(Language::from_name("nodejs"), Some(Language::JavaScript));
    assert_eq!(Language::from_name("bash"), Some(Language::Shell));
}

#[test]
fn unknown_extension_is_none() {
    assert_eq!(Language::from_extension("xyz123"), None);
    assert_eq!(Language::from_extension("notarealext"), None);
}

#[test]
fn unknown_name_is_none() {
    assert_eq!(Language::from_name("not-a-language"), None);
    assert_eq!(Language::from_name(""), None);
}

#[test]
fn parse_error_carries_exact_input() {
    match Language::parse("not-a-language") {
        Err(LanguageError::UnknownLanguage(s)) => assert_eq!(s, "not-a-language"),
        other => panic!("expected UnknownLanguage, got {:?}", other),
    }
}

#[test]
fn parse_agrees_with_from_name() {
    assert_eq!(Language::parse("Python"), Ok(Language::Python));
    assert_eq!(Language::parse("rust"), Ok(Language::Rust));
    for l in Language::all() {
        assert_eq!(Language::parse(l.name()), Ok(l));
    }
}

#[test]
fn name_lookup_is_case_insensitive() {
    assert_eq!(Language::from_name("Python"), Some(Language::Python));
    assert_eq!(Language::from_name("python"), Some(Language::Python));
    assert_eq!(Language::from_name("PYTHON"), Some(Language::Python));
    assert_eq!(Language::from_name("JaVaScRiPt"), Some(Language::JavaScript));
    assert_eq!(Language::from_name("C#"), Some(Language::CSharp));
}

#[test]
fn canonical_name_round_trips_for_every_language() {
    for l in Language::all() {
        assert_eq!(Language::from_name(l.name()), Some(l));
    }
}

#[test]
fn every_extension_maps_back_to_its_language() {
    for l in Language::all() {
        for e in l.extensions() {
            assert_eq!(Language::from_extension(e), Some(l));
            assert_eq!(Language::from_extension(&format!(".{}", e)), Some(l));
        }
    }
}

#[test]
fn extensions_of_cpp() {
    assert_eq!(
        Language::Cpp.extensions(),
        vec!["cpp", "cc", "cxx", "hpp", "hh", "h++", "hxx"]
    );
}

#[test]
fn extensions_of_python() {
    assert_eq!(Language::Python.extensions(), vec!["py", "pyi", "pyc", "pyw", "pyx"]);
}

#[test]
fn extension_lookup_is_case_sensitive() {
    assert_eq!(Language::from_extension("r"), Some(Language::R));
    assert_eq!(Language::from_extension("R"), Some(Language::R));
    assert_eq!(Language::from_extension("Rmd"), Some(Language::R));
    assert_eq!(Language::from_extension("rmd"), None);
    assert_eq!(Language::from_extension("PY"), None);
}

#[test]
fn only_one_leading_separator_is_stripped() {
    assert_eq!(Language::from_extension(""), None);
    assert_eq!(Language::from_extension("."), None);
    assert_eq!(Language::from_extension("..py"), None);
    assert_eq!(Language::from_extension(".h++"), Some(Language::Cpp));
}

#[test]
fn all_is_stable_and_complete() {
    let first = Language::all();
    let second = Language::all();
    assert_eq!(first, second);
    assert_eq!(first.len(), 27);
    assert_eq!(first[0], Language::C);
    assert_eq!(first[26], Language::Zig);
    for (i, a) in first.iter().enumerate() {
        for (j, b) in first.iter().enumerate() {
            if i != j {
                assert_ne!(a, b);
            }
        }
    }
}

#[test]
fn display_names_are_canonical() {
    assert_eq!(Language::C.name(), "C");
    assert_eq!(Language::CSharp.name(), "C#");
    assert_eq!(Language::Html.name(), "HTML");
    assert_eq!(Language::Php.name(), "PHP");
    assert_eq!(Language::OCaml.name(), "OCaml");
    assert_eq!(Language::JavaScript.name(), "JavaScript");
}

#[test]
fn non_ascii_input_is_rejected_not_folded() {
    assert_eq!(Language::from_name("pythön"), None);
    assert_eq!(Language::from_extension("p\u{00ff}"), None);
}

#[test]
fn error_exposes_offending_input() {
    let err = Language::parse("Fortran77?").unwrap_err();
    let LanguageError::UnknownLanguage(s) = &err;
    assert_eq!(s, "Fortran77?");
    assert_eq!(err.input(), "Fortran77?");
}
