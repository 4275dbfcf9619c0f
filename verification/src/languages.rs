//! The closed set of supported languages and the two lookup tables:
//! extension string to language, and lowercased name/alias string to
//! language. Both tables are fixed data; the specification functions
//! [`ext_lookup`] and [`name_lookup`] state them entry by entry, in
//! authoring order, and every query function is proved against them.

use vstd::prelude::*;

use crate::tables::{eq_str, eq_str_folded, lower, strip_dot, strip_leading_dot};

verus! {

/// One supported programming language.
///
/// A value of this type is a closed, finite tag: the set of variants is
/// fixed and each carries exactly one canonical display name
/// ([`spec_name`], returned by [`Language::name`]).
#[derive(Debug, Clone, Copy, PartialEq, Eq, Hash, Structural)]
pub enum Language {
    C,
    CSharp,
    Cpp,
    Clojure,
    Dart,
    Elixir,
    Erlang,
    Go,
    Html,
    Haskell,
    Java,
    JavaScript,
    Julia,
    Kotlin,
    Lua,
    OCaml,
    Php,
    Perl,
    Python,
    R,
    Ruby,
    Rust,
    Scala,
    Shell,
    Swift,
    TypeScript,
    Zig,
}

/// The one error of this crate: a name/alias string that resolves to no
/// language, carrying the offending input verbatim.
#[derive(Debug, PartialEq, Eq)]
pub enum LanguageError {
    UnknownLanguage(String),
}

/// The extension table: maps an extension key (no leading separator,
/// case-sensitive) to its language. Keys are listed in authoring order;
/// they are pairwise distinct, so the first match is the only match.
pub open spec fn ext_lookup(e: Seq<char>) -> Option<Language> {
    if e == "c"@ {
        Some(Language::C)
    } else if e == "h"@ {
        Some(Language::C)
    } else if e == "cs"@ {
        Some(Language::CSharp)
    } else if e == "csx"@ {
        Some(Language::CSharp)
    } else if e == "cpp"@ {
        Some(Language::Cpp)
    } else if e == "cc"@ {
        Some(Language::Cpp)
    } else if e == "cxx"@ {
        Some(Language::Cpp)
    } else if e == "hpp"@ {
        Some(Language::Cpp)
    } else if e == "hh"@ {
        Some(Language::Cpp)
    } else if e == "h++"@ {
        Some(Language::Cpp)
    } else if e == "hxx"@ {
        Some(Language::Cpp)
    } else if e == "clj"@ {
        Some(Language::Clojure)
    } else if e == "cljs"@ {
        Some(Language::Clojure)
    } else if e == "cljc"@ {
        Some(Language::Clojure)
    } else if e == "edn"@ {
        Some(Language::Clojure)
    } else if e == "dart"@ {
        Some(Language::Dart)
    } else if e == "ex"@ {
        Some(Language::Elixir)
    } else if e == "exs"@ {
        Some(Language::Elixir)
    } else if e == "erl"@ {
        Some(Language::Erlang)
    } else if e == "hrl"@ {
        Some(Language::Erlang)
    } else if e == "go"@ {
        Some(Language::Go)
    } else if e == "html"@ {
        Some(Language::Html)
    } else if e == "htm"@ {
        Some(Language::Html)
    } else if e == "xhtml"@ {
        Some(Language::Html)
    } else if e == "hs"@ {
        Some(Language::Haskell)
    } else if e == "lhs"@ {
        Some(Language::Haskell)
    } else if e == "hsc"@ {
        Some(Language::Haskell)
    } else if e == "java"@ {
        Some(Language::Java)
    } else if e == "class"@ {
        Some(Language::Java)
    } else if e == "jar"@ {
        Some(Language::Java)
    } else if e == "js"@ {
        Some(Language::JavaScript)
    } else if e == "mjs"@ {
        Some(Language::JavaScript)
    } else if e == "cjs"@ {
        Some(Language::JavaScript)
    } else if e == "jsx"@ {
        Some(Language::JavaScript)
    } else if e == "jl"@ {
        Some(Language::Julia)
    } else if e == "kt"@ {
        Some(Language::Kotlin)
    } else if e == "kts"@ {
        Some(Language::Kotlin)
    } else if e == "lua"@ {
        Some(Language::Lua)
    } else if e == "luau"@ {
        Some(Language::Lua)
    } else if e == "ml"@ {
        Some(Language::OCaml)
    } else if e == "mli"@ {
        Some(Language::OCaml)
    } else if e == "mll"@ {
        Some(Language::OCaml)
    } else if e == "mly"@ {
        Some(Language::OCaml)
    } else if e == "php"@ {
        Some(Language::Php)
    } else if e == "php3"@ {
        Some(Language::Php)
    } else if e == "php4"@ {
        Some(Language::Php)
    } else if e == "php5"@ {
        Some(Language::Php)
    } else if e == "phtml"@ {
        Some(Language::Php)
    } else if e == "pl"@ {
        Some(Language::Perl)
    } else if e == "pm"@ {
        Some(Language::Perl)
    } else if e == "t"@ {
        Some(Language::Perl)
    } else if e == "pod"@ {
        Some(Language::Perl)
    } else if e == "py"@ {
        Some(Language::Python)
    } else if e == "pyi"@ {
        Some(Language::Python)
    } else if e == "pyc"@ {
        Some(Language::Python)
    } else if e == "pyw"@ {
        Some(Language::Python)
    } else if e == "pyx"@ {
        Some(Language::Python)
    } else if e == "r"@ {
        Some(Language::R)
    } else if e == "R"@ {
        Some(Language::R)
    } else if e == "Rmd"@ {
        Some(Language::R)
    } else if e == "rb"@ {
        Some(Language::Ruby)
    } else if e == "rake"@ {
        Some(Language::Ruby)
    } else if e == "gemspec"@ {
        Some(Language::Ruby)
    } else if e == "rs"@ {
        Some(Language::Rust)
    } else if e == "scala"@ {
        Some(Language::Scala)
    } else if e == "sc"@ {
        Some(Language::Scala)
    } else if e == "sh"@ {
        Some(Language::Shell)
    } else if e == "bash"@ {
        Some(Language::Shell)
    } else if e == "swift"@ {
        Some(Language::Swift)
    } else if e == "ts"@ {
        Some(Language::TypeScript)
    } else if e == "tsx"@ {
        Some(Language::TypeScript)
    } else if e == "zig"@ {
        Some(Language::Zig)
    } else {
        None
    }
}

/// The name table: maps a lowercased canonical name or alias to its
/// language. Keys are listed in authoring order and are already ASCII
/// lowercase; callers fold the query string before looking it up.
pub open spec fn name_lookup(n: Seq<char>) -> Option<Language> {
    if n == "c"@ {
        Some(Language::C)
    } else if n == "c#"@ {
        Some(Language::CSharp)
    } else if n == "csharp"@ {
        Some(Language::CSharp)
    } else if n == "cs"@ {
        Some(Language::CSharp)
    } else if n == "c++"@ {
        Some(Language::Cpp)
    } else if n == "cpp"@ {
        Some(Language::Cpp)
    } else if n == "cxx"@ {
        Some(Language::Cpp)
    } else if n == "clojure"@ {
        Some(Language::Clojure)
    } else if n == "clj"@ {
        Some(Language::Clojure)
    } else if n == "dart"@ {
        Some(Language::Dart)
    } else if n == "elixir"@ {
        Some(Language::Elixir)
    } else if n == "ex"@ {
        Some(Language::Elixir)
    } else if n == "erlang"@ {
        Some(Language::Erlang)
    } else if n == "erl"@ {
        Some(Language::Erlang)
    } else if n == "go"@ {
        Some(Language::Go)
    } else if n == "golang"@ {
        Some(Language::Go)
    } else if n == "html"@ {
        Some(Language::Html)
    } else if n == "haskell"@ {
        Some(Language::Haskell)
    } else if n == "hs"@ {
        Some(Language::Haskell)
    } else if n == "java"@ {
        Some(Language::Java)
    } else if n == "javascript"@ {
        Some(Language::JavaScript)
    } else if n == "js"@ {
        Some(Language::JavaScript)
    } else if n == "node"@ {
        Some(Language::JavaScript)
    } else if n == "nodejs"@ {
        Some(Language::JavaScript)
    } else if n == "julia"@ {
        Some(Language::Julia)
    } else if n == "julia-lang"@ {
        Some(Language::Julia)
    } else if n == "kotlin"@ {
        Some(Language::Kotlin)
    } else if n == "lua"@ {
        Some(Language::Lua)
    } else if n == "lua-lang"@ {
        Some(Language::Lua)
    } else if n == "ocaml"@ {
        Some(Language::OCaml)
    } else if n == "ml"@ {
        Some(Language::OCaml)
    } else if n == "php"@ {
        Some(Language::Php)
    } else if n == "perl"@ {
        Some(Language::Perl)
    } else if n == "pl"@ {
        Some(Language::Perl)
    } else if n == "perl5"@ {
        Some(Language::Perl)
    } else if n == "perl6"@ {
        Some(Language::Perl)
    } else if n == "python"@ {
        Some(Language::Python)
    } else if n == "py"@ {
        Some(Language::Python)
    } else if n == "python3"@ {
        Some(Language::Python)
    } else if n == "r"@ {
        Some(Language::R)
    } else if n == "ruby"@ {
        Some(Language::Ruby)
    } else if n == "rust"@ {
        Some(Language::Rust)
    } else if n == "scala"@ {
        Some(Language::Scala)
    } else if n == "shell"@ {
        Some(Language::Shell)
    } else if n == "bash"@ {
        Some(Language::Shell)
    } else if n == "sh"@ {
        Some(Language::Shell)
    } else if n == "swift"@ {
        Some(Language::Swift)
    } else if n == "typescript"@ {
        Some(Language::TypeScript)
    } else if n == "ts"@ {
        Some(Language::TypeScript)
    } else if n == "zig"@ {
        Some(Language::Zig)
    } else if n == "zig-lang"@ {
        Some(Language::Zig)
    } else {
        None
    }
}

/// What `from_extension` returns: the table entry of the query with at
/// most one leading `.` stripped, or `None` when no entry matches.
pub open spec fn spec_from_extension(s: Seq<char>) -> Option<Language> {
    ext_lookup(strip_dot(s))
}

/// What `from_name` returns: the name-table entry of the ASCII-lowercased
/// query, or `None` when no entry matches.
pub open spec fn spec_from_name(s: Seq<char>) -> Option<Language> {
    name_lookup(lower(s))
}

/// The canonical display name of each language.
pub open spec fn spec_name(l: Language) -> Seq<char> {
    match l {
        Language::C => "C"@,
        Language::CSharp => "C#"@,
        Language::Cpp => "C++"@,
        Language::Clojure => "Clojure"@,
        Language::Dart => "Dart"@,
        Language::Elixir => "Elixir"@,
        Language::Erlang => "Erlang"@,
        Language::Go => "Go"@,
        Language::Html => "HTML"@,
        Language::Haskell => "Haskell"@,
        Language::Java => "Java"@,
        Language::JavaScript => "JavaScript"@,
        Language::Julia => "Julia"@,
        Language::Kotlin => "Kotlin"@,
        Language::Lua => "Lua"@,
        Language::OCaml => "OCaml"@,
        Language::Php => "PHP"@,
        Language::Perl => "Perl"@,
        Language::Python => "Python"@,
        Language::R => "R"@,
        Language::Ruby => "Ruby"@,
        Language::Rust => "Rust"@,
        Language::Scala => "Scala"@,
        Language::Shell => "Shell"@,
        Language::Swift => "Swift"@,
        Language::TypeScript => "TypeScript"@,
        Language::Zig => "Zig"@,
    }
}

/// Every language, in authoring order.
pub open spec fn spec_all() -> Seq<Language> {
    seq![
        Language::C,
        Language::CSharp,
        Language::Cpp,
        Language::Clojure,
        Language::Dart,
        Language::Elixir,
        Language::Erlang,
        Language::Go,
        Language::Html,
        Language::Haskell,
        Language::Java,
        Language::JavaScript,
        Language::Julia,
        Language::Kotlin,
        Language::Lua,
        Language::OCaml,
        Language::Php,
        Language::Perl,
        Language::Python,
        Language::R,
        Language::Ruby,
        Language::Rust,
        Language::Scala,
        Language::Shell,
        Language::Swift,
        Language::TypeScript,
        Language::Zig,
    ]
}

/// The extension keys of each language: exactly the entries of
/// [`ext_lookup`] carrying that language, in table order.
pub open spec fn spec_extensions(l: Language) -> Seq<Seq<char>> {
    match l {
        Language::C => seq!["c"@, "h"@],
        Language::CSharp => seq!["cs"@, "csx"@],
        Language::Cpp => seq!["cpp"@, "cc"@, "cxx"@, "hpp"@, "hh"@, "h++"@, "hxx"@],
        Language::Clojure => seq!["clj"@, "cljs"@, "cljc"@, "edn"@],
        Language::Dart => seq!["dart"@],
        Language::Elixir => seq!["ex"@, "exs"@],
        Language::Erlang => seq!["erl"@, "hrl"@],
        Language::Go => seq!["go"@],
        Language::Html => seq!["html"@, "htm"@, "xhtml"@],
        Language::Haskell => seq!["hs"@, "lhs"@, "hsc"@],
        Language::Java => seq!["java"@, "class"@, "jar"@],
        Language::JavaScript => seq!["js"@, "mjs"@, "cjs"@, "jsx"@],
        Language::Julia => seq!["jl"@],
        Language::Kotlin => seq!["kt"@, "kts"@],
        Language::Lua => seq!["lua"@, "luau"@],
        Language::OCaml => seq!["ml"@, "mli"@, "mll"@, "mly"@],
        Language::Php => seq!["php"@, "php3"@, "php4"@, "php5"@, "phtml"@],
        Language::Perl => seq!["pl"@, "pm"@, "t"@, "pod"@],
        Language::Python => seq!["py"@, "pyi"@, "pyc"@, "pyw"@, "pyx"@],
        Language::R => seq!["r"@, "R"@, "Rmd"@],
        Language::Ruby => seq!["rb"@, "rake"@, "gemspec"@],
        Language::Rust => seq!["rs"@],
        Language::Scala => seq!["scala"@, "sc"@],
        Language::Shell => seq!["sh"@, "bash"@],
        Language::Swift => seq!["swift"@],
        Language::TypeScript => seq!["ts"@, "tsx"@],
        Language::Zig => seq!["zig"@],
    }
}

impl Language {
    /// The language registered for a file extension. A single leading `.`
    /// is tolerated and stripped; the remainder is matched case-sensitively
    /// against the extension table. Absence is an expected outcome, not an
    /// error.
    pub fn from_extension(ext: &str) -> (r: Option<Language>)
        ensures
            r == spec_from_extension(ext@),
    {
        let e = strip_leading_dot(ext);
        if eq_str(e, "c") {
            Some(Language::C)
        } else if eq_str(e, "h") {
            Some(Language::C)
        } else if eq_str(e, "cs") {
            Some(Language::CSharp)
        } else if eq_str(e, "csx") {
            Some(Language::CSharp)
        } else if eq_str(e, "cpp") {
            Some(Language::Cpp)
        } else if eq_str(e, "cc") {
            Some(Language::Cpp)
        } else if eq_str(e, "cxx") {
            Some(Language::Cpp)
        } else if eq_str(e, "hpp") {
            Some(Language::Cpp)
        } else if eq_str(e, "hh") {
            Some(Language::Cpp)
        } else if eq_str(e, "h++") {
            Some(Language::Cpp)
        } else if eq_str(e, "hxx") {
            Some(Language::Cpp)
        } else if eq_str(e, "clj") {
            Some(Language::Clojure)
        } else if eq_str(e, "cljs") {
            Some(Language::Clojure)
        } else if eq_str(e, "cljc") {
            Some(Language::Clojure)
        } else if eq_str(e, "edn") {
            Some(Language::Clojure)
        } else if eq_str(e, "dart") {
            Some(Language::Dart)
        } else if eq_str(e, "ex") {
            Some(Language::Elixir)
        } else if eq_str(e, "exs") {
            Some(Language::Elixir)
        } else if eq_str(e, "erl") {
            Some(Language::Erlang)
        } else if eq_str(e, "hrl") {
            Some(Language::Erlang)
        } else if eq_str(e, "go") {
            Some(Language::Go)
        } else if eq_str(e, "html") {
            Some(Language::Html)
        } else if eq_str(e, "htm") {
            Some(Language::Html)
        } else if eq_str(e, "xhtml") {
            Some(Language::Html)
        } else if eq_str(e, "hs") {
            Some(Language::Haskell)
        } else if eq_str(e, "lhs") {
            Some(Language::Haskell)
        } else if eq_str(e, "hsc") {
            Some(Language::Haskell)
        } else if eq_str(e, "java") {
            Some(Language::Java)
        } else if eq_str(e, "class") {
            Some(Language::Java)
        } else if eq_str(e, "jar") {
            Some(Language::Java)
        } else if eq_str(e, "js") {
            Some(Language::JavaScript)
        } else if eq_str(e, "mjs") {
            Some(Language::JavaScript)
        } else if eq_str(e, "cjs") {
            Some(Language::JavaScript)
        } else if eq_str(e, "jsx") {
            Some(Language::JavaScript)
        } else if eq_str(e, "jl") {
            Some(Language::Julia)
        } else if eq_str(e, "kt") {
            Some(Language::Kotlin)
        } else if eq_str(e, "kts") {
            Some(Language::Kotlin)
        } else if eq_str(e, "lua") {
            Some(Language::Lua)
        } else if eq_str(e, "luau") {
            Some(Language::Lua)
        } else if eq_str(e, "ml") {
            Some(Language::OCaml)
        } else if eq_str(e, "mli") {
            Some(Language::OCaml)
        } else if eq_str(e, "mll") {
            Some(Language::OCaml)
        } else if eq_str(e, "mly") {
            Some(Language::OCaml)
        } else if eq_str(e, "php") {
            Some(Language::Php)
        } else if eq_str(e, "php3") {
            Some(Language::Php)
        } else if eq_str(e, "php4") {
            Some(Language::Php)
        } else if eq_str(e, "php5") {
            Some(Language::Php)
        } else if eq_str(e, "phtml") {
            Some(Language::Php)
        } else if eq_str(e, "pl") {
            Some(Language::Perl)
        } else if eq_str(e, "pm") {
            Some(Language::Perl)
        } else if eq_str(e, "t") {
            Some(Language::Perl)
        } else if eq_str(e, "pod") {
            Some(Language::Perl)
        } else if eq_str(e, "py") {
            Some(Language::Python)
        } else if eq_str(e, "pyi") {
            Some(Language::Python)
        } else if eq_str(e, "pyc") {
            Some(Language::Python)
        } else if eq_str(e, "pyw") {
            Some(Language::Python)
        } else if eq_str(e, "pyx") {
            Some(Language::Python)
        } else if eq_str(e, "r") {
            Some(Language::R)
        } else if eq_str(e, "R") {
            Some(Language::R)
        } else if eq_str(e, "Rmd") {
            Some(Language::R)
        } else if eq_str(e, "rb") {
            Some(Language::Ruby)
        } else if eq_str(e, "rake") {
            Some(Language::Ruby)
        } else if eq_str(e, "gemspec") {
            Some(Language::Ruby)
        } else if eq_str(e, "rs") {
            Some(Language::Rust)
        } else if eq_str(e, "scala") {
            Some(Language::Scala)
        } else if eq_str(e, "sc") {
            Some(Language::Scala)
        } else if eq_str(e, "sh") {
            Some(Language::Shell)
        } else if eq_str(e, "bash") {
            Some(Language::Shell)
        } else if eq_str(e, "swift") {
            Some(Language::Swift)
        } else if eq_str(e, "ts") {
            Some(Language::TypeScript)
        } else if eq_str(e, "tsx") {
            Some(Language::TypeScript)
        } else if eq_str(e, "zig") {
            Some(Language::Zig)
        } else {
            None
        }
    }

    /// The language registered for a name or alias, matched after ASCII
    /// case folding of the query. Absence is an expected outcome, not an
    /// error.
    pub fn from_name(name: &str) -> (r: Option<Language>)
        ensures
            r == spec_from_name(name@),
    {
        proof {
            name_keys_are_folded_a();
            name_keys_are_folded_b();
            name_keys_are_folded_c();
        }
        if eq_str_folded(name, "c") {
            Some(Language::C)
        } else if eq_str_folded(name, "c#") {
            Some(Language::CSharp)
        } else if eq_str_folded(name, "csharp") {
            Some(Language::CSharp)
        } else if eq_str_folded(name, "cs") {
            Some(Language::CSharp)
        } else if eq_str_folded(name, "c++") {
            Some(Language::Cpp)
        } else if eq_str_folded(name, "cpp") {
            Some(Language::Cpp)
        } else if eq_str_folded(name, "cxx") {
            Some(Language::Cpp)
        } else if eq_str_folded(name, "clojure") {
            Some(Language::Clojure)
        } else if eq_str_folded(name, "clj") {
            Some(Language::Clojure)
        } else if eq_str_folded(name, "dart") {
            Some(Language::Dart)
        } else if eq_str_folded(name, "elixir") {
            Some(Language::Elixir)
        } else if eq_str_folded(name, "ex") {
            Some(Language::Elixir)
        } else if eq_str_folded(name, "erlang") {
            Some(Language::Erlang)
        } else if eq_str_folded(name, "erl") {
            Some(Language::Erlang)
        } else if eq_str_folded(name, "go") {
            Some(Language::Go)
        } else if eq_str_folded(name, "golang") {
            Some(Language::Go)
        } else if eq_str_folded(name, "html") {
            Some(Language::Html)
        } else if eq_str_folded(name, "haskell") {
            Some(Language::Haskell)
        } else if eq_str_folded(name, "hs") {
            Some(Language::Haskell)
        } else if eq_str_folded(name, "java") {
            Some(Language::Java)
        } else if eq_str_folded(name, "javascript") {
            Some(Language::JavaScript)
        } else if eq_str_folded(name, "js") {
            Some(Language::JavaScript)
        } else if eq_str_folded(name, "node") {
            Some(Language::JavaScript)
        } else if eq_str_folded(name, "nodejs") {
            Some(Language::JavaScript)
        } else if eq_str_folded(name, "julia") {
            Some(Language::Julia)
        } else if eq_str_folded(name, "julia-lang") {
            Some(Language::Julia)
        } else if eq_str_folded(name, "kotlin") {
            Some(Language::Kotlin)
        } else if eq_str_folded(name, "lua") {
            Some(Language::Lua)
        } else if eq_str_folded(name, "lua-lang") {
            Some(Language::Lua)
        } else if eq_str_folded(name, "ocaml") {
            Some(Language::OCaml)
        } else if eq_str_folded(name, "ml") {
            Some(Language::OCaml)
        } else if eq_str_folded(name, "php") {
            Some(Language::Php)
        } else if eq_str_folded(name, "perl") {
            Some(Language::Perl)
        } else if eq_str_folded(name, "pl") {
            Some(Language::Perl)
        } else if eq_str_folded(name, "perl5") {
            Some(Language::Perl)
        } else if eq_str_folded(name, "perl6") {
            Some(Language::Perl)
        } else if eq_str_folded(name, "python") {
            Some(Language::Python)
        } else if eq_str_folded(name, "py") {
            Some(Language::Python)
        } else if eq_str_folded(name, "python3") {
            Some(Language::Python)
        } else if eq_str_folded(name, "r") {
            Some(Language::R)
        } else if eq_str_folded(name, "ruby") {
            Some(Language::Ruby)
        } else if eq_str_folded(name, "rust") {
            Some(Language::Rust)
        } else if eq_str_folded(name, "scala") {
            Some(Language::Scala)
        } else if eq_str_folded(name, "shell") {
            Some(Language::Shell)
        } else if eq_str_folded(name, "bash") {
            Some(Language::Shell)
        } else if eq_str_folded(name, "sh") {
            Some(Language::Shell)
        } else if eq_str_folded(name, "swift") {
            Some(Language::Swift)
        } else if eq_str_folded(name, "typescript") {
            Some(Language::TypeScript)
        } else if eq_str_folded(name, "ts") {
            Some(Language::TypeScript)
        } else if eq_str_folded(name, "zig") {
            Some(Language::Zig)
        } else if eq_str_folded(name, "zig-lang") {
            Some(Language::Zig)
        } else {
            None
        }
    }

    /// Like [`Language::from_name`], but for call sites that require a
    /// hard failure: an unresolvable input yields
    /// [`LanguageError::UnknownLanguage`] carrying the input verbatim.
    pub fn parse(name: &str) -> (r: Result<Language, LanguageError>)
        ensures
            match spec_from_name(name@) {
                Some(l) => r == Ok::<Language, LanguageError>(l),
                None => r matches Err(LanguageError::UnknownLanguage(s)) && s@ == name@,
            },
    {
        match Self::from_name(name) {
            Some(l) => Ok(l),
            None => Err(LanguageError::UnknownLanguage(name.to_owned())),
        }
    }

    /// The canonical display name. Total: every language has exactly one.
    pub fn name(&self) -> (r: &'static str)
        ensures
            r@ == spec_name(*self),
    {
        match self {
            Language::C => "C",
            Language::CSharp => "C#",
            Language::Cpp => "C++",
            Language::Clojure => "Clojure",
            Language::Dart => "Dart",
            Language::Elixir => "Elixir",
            Language::Erlang => "Erlang",
            Language::Go => "Go",
            Language::Html => "HTML",
            Language::Haskell => "Haskell",
            Language::Java => "Java",
            Language::JavaScript => "JavaScript",
            Language::Julia => "Julia",
            Language::Kotlin => "Kotlin",
            Language::Lua => "Lua",
            Language::OCaml => "OCaml",
            Language::Php => "PHP",
            Language::Perl => "Perl",
            Language::Python => "Python",
            Language::R => "R",
            Language::Ruby => "Ruby",
            Language::Rust => "Rust",
            Language::Scala => "Scala",
            Language::Shell => "Shell",
            Language::Swift => "Swift",
            Language::TypeScript => "TypeScript",
            Language::Zig => "Zig",
        }
    }

    /// The extension keys registered for this language, in table order.
    pub fn extensions(&self) -> (r: Vec<&'static str>)
        ensures
            r@.map_values(|s: &str| s@) == spec_extensions(*self),
    {
        let mut v: Vec<&'static str> = Vec::new();
        match self {
            Language::C => {
                v.push("c");
                v.push("h");
            },
            Language::CSharp => {
                v.push("cs");
                v.push("csx");
            },
            Language::Cpp => {
                v.push("cpp");
                v.push("cc");
                v.push("cxx");
                v.push("hpp");
                v.push("hh");
                v.push("h++");
                v.push("hxx");
            },
            Language::Clojure => {
                v.push("clj");
                v.push("cljs");
                v.push("cljc");
                v.push("edn");
            },
            Language::Dart => {
                v.push("dart");
            },
            Language::Elixir => {
                v.push("ex");
                v.push("exs");
            },
            Language::Erlang => {
                v.push("erl");
                v.push("hrl");
            },
            Language::Go => {
                v.push("go");
            },
            Language::Html => {
                v.push("html");
                v.push("htm");
                v.push("xhtml");
            },
            Language::Haskell => {
                v.push("hs");
                v.push("lhs");
                v.push("hsc");
            },
            Language::Java => {
                v.push("java");
                v.push("class");
                v.push("jar");
            },
            Language::JavaScript => {
                v.push("js");
                v.push("mjs");
                v.push("cjs");
                v.push("jsx");
            },
            Language::Julia => {
                v.push("jl");
            },
            Language::Kotlin => {
                v.push("kt");
                v.push("kts");
            },
            Language::Lua => {
                v.push("lua");
                v.push("luau");
            },
            Language::OCaml => {
                v.push("ml");
                v.push("mli");
                v.push("mll");
                v.push("mly");
            },
            Language::Php => {
                v.push("php");
                v.push("php3");
                v.push("php4");
                v.push("php5");
                v.push("phtml");
            },
            Language::Perl => {
                v.push("pl");
                v.push("pm");
                v.push("t");
                v.push("pod");
            },
            Language::Python => {
                v.push("py");
                v.push("pyi");
                v.push("pyc");
                v.push("pyw");
                v.push("pyx");
            },
            Language::R => {
                v.push("r");
                v.push("R");
                v.push("Rmd");
            },
            Language::Ruby => {
                v.push("rb");
                v.push("rake");
                v.push("gemspec");
            },
            Language::Rust => {
                v.push("rs");
            },
            Language::Scala => {
                v.push("scala");
                v.push("sc");
            },
            Language::Shell => {
                v.push("sh");
                v.push("bash");
            },
            Language::Swift => {
                v.push("swift");
            },
            Language::TypeScript => {
                v.push("ts");
                v.push("tsx");
            },
            Language::Zig => {
                v.push("zig");
            },
        }
        proof {
            assert(v@.map_values(|s: &str| s@) =~= spec_extensions(*self));
        }
        v
    }

    /// Every supported language, in authoring order; the order is the
    /// same on every call.
    pub fn all() -> (r: Vec<Language>)
        ensures
            r@ == spec_all(),
    {
        let mut v: Vec<Language> = Vec::new();
        v.push(Language::C);
        v.push(Language::CSharp);
        v.push(Language::Cpp);
        v.push(Language::Clojure);
        v.push(Language::Dart);
        v.push(Language::Elixir);
        v.push(Language::Erlang);
        v.push(Language::Go);
        v.push(Language::Html);
        v.push(Language::Haskell);
        v.push(Language::Java);
        v.push(Language::JavaScript);
        v.push(Language::Julia);
        v.push(Language::Kotlin);
        v.push(Language::Lua);
        v.push(Language::OCaml);
        v.push(Language::Php);
        v.push(Language::Perl);
        v.push(Language::Python);
        v.push(Language::R);
        v.push(Language::Ruby);
        v.push(Language::Rust);
        v.push(Language::Scala);
        v.push(Language::Shell);
        v.push(Language::Swift);
        v.push(Language::TypeScript);
        v.push(Language::Zig);
        proof {
            assert(v@ =~= spec_all());
        }
        v
    }
}

impl LanguageError {
    /// The offending input carried by the error.
    pub fn input(&self) -> (r: &str)
        ensures
            self matches LanguageError::UnknownLanguage(s) && r@ == s@,
    {
        match self {
            LanguageError::UnknownLanguage(s) => s.as_str(),
        }
    }
}

/// The name-table keys are already ASCII lowercase (first third).
proof fn name_keys_are_folded_a()
    ensures
        lower("c"@) == "c"@,
        lower("c#"@) == "c#"@,
        lower("csharp"@) == "csharp"@,
        lower("cs"@) == "cs"@,
        lower("c++"@) == "c++"@,
        lower("cpp"@) == "cpp"@,
        lower("cxx"@) == "cxx"@,
        lower("clojure"@) == "clojure"@,
        lower("clj"@) == "clj"@,
        lower("dart"@) == "dart"@,
        lower("elixir"@) == "elixir"@,
        lower("ex"@) == "ex"@,
        lower("erlang"@) == "erlang"@,
        lower("erl"@) == "erl"@,
        lower("go"@) == "go"@,
        lower("golang"@) == "golang"@,
        lower("html"@) == "html"@,
{
    reveal_strlit("c");
    reveal_strlit("c#");
    reveal_strlit("csharp");
    reveal_strlit("cs");
    reveal_strlit("c++");
    reveal_strlit("cpp");
    reveal_strlit("cxx");
    reveal_strlit("clojure");
    reveal_strlit("clj");
    reveal_strlit("dart");
    reveal_strlit("elixir");
    reveal_strlit("ex");
    reveal_strlit("erlang");
    reveal_strlit("erl");
    reveal_strlit("go");
    reveal_strlit("golang");
    reveal_strlit("html");
    assert(lower("c"@) =~= "c"@);
    assert(lower("c#"@) =~= "c#"@);
    assert(lower("csharp"@) =~= "csharp"@);
    assert(lower("cs"@) =~= "cs"@);
    assert(lower("c++"@) =~= "c++"@);
    assert(lower("cpp"@) =~= "cpp"@);
    assert(lower("cxx"@) =~= "cxx"@);
    assert(lower("clojure"@) =~= "clojure"@);
    assert(lower("clj"@) =~= "clj"@);
    assert(lower("dart"@) =~= "dart"@);
    assert(lower("elixir"@) =~= "elixir"@);
    assert(lower("ex"@) =~= "ex"@);
    assert(lower("erlang"@) =~= "erlang"@);
    assert(lower("erl"@) =~= "erl"@);
    assert(lower("go"@) =~= "go"@);
    assert(lower("golang"@) =~= "golang"@);
    assert(lower("html"@) =~= "html"@);
}

/// The name-table keys are already ASCII lowercase (second third).
proof fn name_keys_are_folded_b()
    ensures
        lower("haskell"@) == "haskell"@,
        lower("hs"@) == "hs"@,
        lower("java"@) == "java"@,
        lower("javascript"@) == "javascript"@,
        lower("js"@) == "js"@,
        lower("node"@) == "node"@,
        lower("nodejs"@) == "nodejs"@,
        lower("julia"@) == "julia"@,
        lower("julia-lang"@) == "julia-lang"@,
        lower("kotlin"@) == "kotlin"@,
        lower("lua"@) == "lua"@,
        lower("lua-lang"@) == "lua-lang"@,
        lower("ocaml"@) == "ocaml"@,
        lower("ml"@) == "ml"@,
        lower("php"@) == "php"@,
        lower("perl"@) == "perl"@,
        lower("pl"@) == "pl"@,
{
    reveal_strlit("haskell");
    reveal_strlit("hs");
    reveal_strlit("java");
    reveal_strlit("javascript");
    reveal_strlit("js");
    reveal_strlit("node");
    reveal_strlit("nodejs");
    reveal_strlit("julia");
    reveal_strlit("julia-lang");
    reveal_strlit("kotlin");
    reveal_strlit("lua");
    reveal_strlit("lua-lang");
    reveal_strlit("ocaml");
    reveal_strlit("ml");
    reveal_strlit("php");
    reveal_strlit("perl");
    reveal_strlit("pl");
    assert(lower("haskell"@) =~= "haskell"@);
    assert(lower("hs"@) =~= "hs"@);
    assert(lower("java"@) =~= "java"@);
    assert(lower("javascript"@) =~= "javascript"@);
    assert(lower("js"@) =~= "js"@);
    assert(lower("node"@) =~= "node"@);
    assert(lower("nodejs"@) =~= "nodejs"@);
    assert(lower("julia"@) =~= "julia"@);
    assert(lower("julia-lang"@) =~= "julia-lang"@);
    assert(lower("kotlin"@) =~= "kotlin"@);
    assert(lower("lua"@) =~= "lua"@);
    assert(lower("lua-lang"@) =~= "lua-lang"@);
    assert(lower("ocaml"@) =~= "ocaml"@);
    assert(lower("ml"@) =~= "ml"@);
    assert(lower("php"@) =~= "php"@);
    assert(lower("perl"@) =~= "perl"@);
    assert(lower("pl"@) =~= "pl"@);
}

/// The name-table keys are already ASCII lowercase (last third).
proof fn name_keys_are_folded_c()
    ensures
        lower("perl5"@) == "perl5"@,
        lower("perl6"@) == "perl6"@,
        lower("python"@) == "python"@,
        lower("py"@) == "py"@,
        lower("python3"@) == "python3"@,
        lower("r"@) == "r"@,
        lower("ruby"@) == "ruby"@,
        lower("rust"@) == "rust"@,
        lower("scala"@) == "scala"@,
        lower("shell"@) == "shell"@,
        lower("bash"@) == "bash"@,
        lower("sh"@) == "sh"@,
        lower("swift"@) == "swift"@,
        lower("typescript"@) == "typescript"@,
        lower("ts"@) == "ts"@,
        lower("zig"@) == "zig"@,
        lower("zig-lang"@) == "zig-lang"@,
{
    reveal_strlit("perl5");
    reveal_strlit("perl6");
    reveal_strlit("python");
    reveal_strlit("py");
    reveal_strlit("python3");
    reveal_strlit("r");
    reveal_strlit("ruby");
    reveal_strlit("rust");
    reveal_strlit("scala");
    reveal_strlit("shell");
    reveal_strlit("bash");
    reveal_strlit("sh");
    reveal_strlit("swift");
    reveal_strlit("typescript");
    reveal_strlit("ts");
    reveal_strlit("zig");
    reveal_strlit("zig-lang");
    assert(lower("perl5"@) =~= "perl5"@);
    assert(lower("perl6"@) =~= "perl6"@);
    assert(lower("python"@) =~= "python"@);
    assert(lower("py"@) =~= "py"@);
    assert(lower("python3"@) =~= "python3"@);
    assert(lower("r"@) =~= "r"@);
    assert(lower("ruby"@) =~= "ruby"@);
    assert(lower("rust"@) =~= "rust"@);
    assert(lower("scala"@) =~= "scala"@);
    assert(lower("shell"@) =~= "shell"@);
    assert(lower("bash"@) =~= "bash"@);
    assert(lower("sh"@) =~= "sh"@);
    assert(lower("swift"@) =~= "swift"@);
    assert(lower("typescript"@) =~= "typescript"@);
    assert(lower("ts"@) =~= "ts"@);
    assert(lower("zig"@) =~= "zig"@);
    assert(lower("zig-lang"@) =~= "zig-lang"@);
}

} // verus!
