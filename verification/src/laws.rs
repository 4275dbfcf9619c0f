//! Library-wide laws relating the query functions to one another. Each
//! proof function here is part of the crate's stated behaviour: callers
//! may rely on these facts without re-proving them.

use vstd::prelude::*;

use crate::languages::{ext_lookup, spec_all, spec_extensions, spec_from_extension,
    spec_from_name, spec_name, Language};
use crate::tables::{lemma_lower_idempotent, lower, strip_dot};

verus! {

/// Name lookup is case-insensitive: folding the query to ASCII lowercase
/// beforehand never changes the result.
pub proof fn lemma_from_name_case_insensitive(s: Seq<char>)
    ensures
        spec_from_name(lower(s)) == spec_from_name(s),
{
    lemma_lower_idempotent(s);
}

/// Extension lookup tolerates one leading separator: prefixing `.` to a
/// query that does not itself start with `.` never changes the result.
pub proof fn lemma_separator_tolerated(e: Seq<char>)
    requires
        e.len() == 0 || e[0] != '.',
    ensures
        spec_from_extension(seq!['.'] + e) == spec_from_extension(e),
{
    assert(strip_dot(seq!['.'] + e) =~= e);
}

/// The characters of each name-table key, spelled out so that distinct keys of equal length are distinguishable (part 1 of 4).
proof fn name_key_chars_a()
    ensures
        "c"@.len() == 1,
        "c"@[0] == 'c',
        "c#"@.len() == 2,
        "c#"@[0] == 'c',
        "c#"@[1] == '#',
        "csharp"@.len() == 6,
        "csharp"@[0] == 'c',
        "csharp"@[1] == 's',
        "csharp"@[2] == 'h',
        "csharp"@[3] == 'a',
        "csharp"@[4] == 'r',
        "csharp"@[5] == 'p',
        "cs"@.len() == 2,
        "cs"@[0] == 'c',
        "cs"@[1] == 's',
        "c++"@.len() == 3,
        "c++"@[0] == 'c',
        "c++"@[1] == '+',
        "c++"@[2] == '+',
        "cpp"@.len() == 3,
        "cpp"@[0] == 'c',
        "cpp"@[1] == 'p',
        "cpp"@[2] == 'p',
        "cxx"@.len() == 3,
        "cxx"@[0] == 'c',
        "cxx"@[1] == 'x',
        "cxx"@[2] == 'x',
        "clojure"@.len() == 7,
        "clojure"@[0] == 'c',
        "clojure"@[1] == 'l',
        "clojure"@[2] == 'o',
        "clojure"@[3] == 'j',
        "clojure"@[4] == 'u',
        "clojure"@[5] == 'r',
        "clojure"@[6] == 'e',
        "clj"@.len() == 3,
        "clj"@[0] == 'c',
        "clj"@[1] == 'l',
        "clj"@[2] == 'j',
        "dart"@.len() == 4,
        "dart"@[0] == 'd',
        "dart"@[1] == 'a',
        "dart"@[2] == 'r',
        "dart"@[3] == 't',
        "elixir"@.len() == 6,
        "elixir"@[0] == 'e',
        "elixir"@[1] == 'l',
        "elixir"@[2] == 'i',
        "elixir"@[3] == 'x',
        "elixir"@[4] == 'i',
        "elixir"@[5] == 'r',
        "ex"@.len() == 2,
        "ex"@[0] == 'e',
        "ex"@[1] == 'x',
        "erlang"@.len() == 6,
        "erlang"@[0] == 'e',
        "erlang"@[1] == 'r',
        "erlang"@[2] == 'l',
        "erlang"@[3] == 'a',
        "erlang"@[4] == 'n',
        "erlang"@[5] == 'g',
{
    reveal_strlit("c");
    reveal_strlit("c#");
    reveal_strlit("csharp");
    reveal_strlit("cs");
    reveal_strlit("c++");
    reveal_strlit("cpp");
    reveal_strlit("cxx");
    reveal_strlit("clojure");
    reveal_strlit("clj");
    reveal_strlit("dart");
    reveal_strlit("elixir");
    reveal_strlit("ex");
    reveal_strlit("erlang");
}

/// The characters of each name-table key, spelled out so that distinct keys of equal length are distinguishable (part 2 of 4).
proof fn name_key_chars_b()
    ensures
        "erl"@.len() == 3,
        "erl"@[0] == 'e',
        "erl"@[1] == 'r',
        "erl"@[2] == 'l',
        "go"@.len() == 2,
        "go"@[0] == 'g',
        "go"@[1] == 'o',
        "golang"@.len() == 6,
        "golang"@[0] == 'g',
        "golang"@[1] == 'o',
        "golang"@[2] == 'l',
        "golang"@[3] == 'a',
        "golang"@[4] == 'n',
        "golang"@[5] == 'g',
        "html"@.len() == 4,
        "html"@[0] == 'h',
        "html"@[1] == 't',
        "html"@[2] == 'm',
        "html"@[3] == 'l',
        "haskell"@.len() == 7,
        "haskell"@[0] == 'h',
        "haskell"@[1] == 'a',
        "haskell"@[2] == 's',
        "haskell"@[3] == 'k',
        "haskell"@[4] == 'e',
        "haskell"@[5] == 'l',
        "haskell"@[6] == 'l',
        "hs"@.len() == 2,
        "hs"@[0] == 'h',
        "hs"@[1] == 's',
        "java"@.len() == 4,
        "java"@[0] == 'j',
        "java"@[1] == 'a',
        "java"@[2] == 'v',
        "java"@[3] == 'a',
        "javascript"@.len() == 10,
        "javascript"@[0] == 'j',
        "javascript"@[1] == 'a',
        "javascript"@[2] == 'v',
        "javascript"@[3] == 'a',
        "javascript"@[4] == 's',
        "javascript"@[5] == 'c',
        "javascript"@[6] == 'r',
        "javascript"@[7] == 'i',
        "javascript"@[8] == 'p',
        "javascript"@[9] == 't',
        "js"@.len() == 2,
        "js"@[0] == 'j',
        "js"@[1] == 's',
        "node"@.len() == 4,
        "node"@[0] == 'n',
        "node"@[1] == 'o',
        "node"@[2] == 'd',
        "node"@[3] == 'e',
        "nodejs"@.len() == 6,
        "nodejs"@[0] == 'n',
        "nodejs"@[1] == 'o',
        "nodejs"@[2] == 'd',
        "nodejs"@[3] == 'e',
        "nodejs"@[4] == 'j',
        "nodejs"@[5] == 's',
        "julia"@.len() == 5,
        "julia"@[0] == 'j',
        "julia"@[1] == 'u',
        "julia"@[2] == 'l',
        "julia"@[3] == 'i',
        "julia"@[4] == 'a',
        "julia-lang"@.len() == 10,
        "julia-lang"@[0] == 'j',
        "julia-lang"@[1] == 'u',
        "julia-lang"@[2] == 'l',
        "julia-lang"@[3] == 'i',
        "julia-lang"@[4] == 'a',
        "julia-lang"@[5] == '-',
        "julia-lang"@[6] == 'l',
        "julia-lang"@[7] == 'a',
        "julia-lang"@[8] == 'n',
        "julia-lang"@[9] == 'g',
{
    reveal_strlit("erl");
    reveal_strlit("go");
    reveal_strlit("golang");
    reveal_strlit("html");
    reveal_strlit("haskell");
    reveal_strlit("hs");
    reveal_strlit("java");
    reveal_strlit("javascript");
    reveal_strlit("js");
    reveal_strlit("node");
    reveal_strlit("nodejs");
    reveal_strlit("julia");
    reveal_strlit("julia-lang");
}

/// The characters of each name-table key, spelled out so that distinct keys of equal length are distinguishable (part 3 of 4).
proof fn name_key_chars_c()
    ensures
        "kotlin"@.len() == 6,
        "kotlin"@[0] == 'k',
        "kotlin"@[1] == 'o',
        "kotlin"@[2] == 't',
        "kotlin"@[3] == 'l',
        "kotlin"@[4] == 'i',
        "kotlin"@[5] == 'n',
        "lua"@.len() == 3,
        "lua"@[0] == 'l',
        "lua"@[1] == 'u',
        "lua"@[2] == 'a',
        "lua-lang"@.len() == 8,
        "lua-lang"@[0] == 'l',
        "lua-lang"@[1] == 'u',
        "lua-lang"@[2] == 'a',
        "lua-lang"@[3] == '-',
        "lua-lang"@[4] == 'l',
        "lua-lang"@[5] == 'a',
        "lua-lang"@[6] == 'n',
        "lua-lang"@[7] == 'g',
        "ocaml"@.len() == 5,
        "ocaml"@[0] == 'o',
        "ocaml"@[1] == 'c',
        "ocaml"@[2] == 'a',
        "ocaml"@[3] == 'm',
        "ocaml"@[4] == 'l',
        "ml"@.len() == 2,
        "ml"@[0] == 'm',
        "ml"@[1] == 'l',
        "php"@.len() == 3,
        "php"@[0] == 'p',
        "php"@[1] == 'h',
        "php"@[2] == 'p',
        "perl"@.len() == 4,
        "perl"@[0] == 'p',
        "perl"@[1] == 'e',
        "perl"@[2] == 'r',
        "perl"@[3] == 'l',
        "pl"@.len() == 2,
        "pl"@[0] == 'p',
        "pl"@[1] == 'l',
        "perl5"@.len() == 5,
        "perl5"@[0] == 'p',
        "perl5"@[1] == 'e',
        "perl5"@[2] == 'r',
        "perl5"@[3] == 'l',
        "perl5"@[4] == '5',
        "perl6"@.len() == 5,
        "perl6"@[0] == 'p',
        "perl6"@[1] == 'e',
        "perl6"@[2] == 'r',
        "perl6"@[3] == 'l',
        "perl6"@[4] == '6',
        "python"@.len() == 6,
        "python"@[0] == 'p',
        "python"@[1] == 'y',
        "python"@[2] == 't',
        "python"@[3] == 'h',
        "python"@[4] == 'o',
        "python"@[5] == 'n',
        "py"@.len() == 2,
        "py"@[0] == 'p',
        "py"@[1] == 'y',
        "python3"@.len() == 7,
        "python3"@[0] == 'p',
        "python3"@[1] == 'y',
        "python3"@[2] == 't',
        "python3"@[3] == 'h',
        "python3"@[4] == 'o',
        "python3"@[5] == 'n',
        "python3"@[6] == '3',
{
    reveal_strlit("kotlin");
    reveal_strlit("lua");
    reveal_strlit("lua-lang");
    reveal_strlit("ocaml");
    reveal_strlit("ml");
    reveal_strlit("php");
    reveal_strlit("perl");
    reveal_strlit("pl");
    reveal_strlit("perl5");
    reveal_strlit("perl6");
    reveal_strlit("python");
    reveal_strlit("py");
    reveal_strlit("python3");
}

/// The characters of each name-table key, spelled out so that distinct keys of equal length are distinguishable (part 4 of 4).
proof fn name_key_chars_d()
    ensures
        "r"@.len() == 1,
        "r"@[0] == 'r',
        "ruby"@.len() == 4,
        "ruby"@[0] == 'r',
        "ruby"@[1] == 'u',
        "ruby"@[2] == 'b',
        "ruby"@[3] == 'y',
        "rust"@.len() == 4,
        "rust"@[0] == 'r',
        "rust"@[1] == 'u',
        "rust"@[2] == 's',
        "rust"@[3] == 't',
        "scala"@.len() == 5,
        "scala"@[0] == 's',
        "scala"@[1] == 'c',
        "scala"@[2] == 'a',
        "scala"@[3] == 'l',
        "scala"@[4] == 'a',
        "shell"@.len() == 5,
        "shell"@[0] == 's',
        "shell"@[1] == 'h',
        "shell"@[2] == 'e',
        "shell"@[3] == 'l',
        "shell"@[4] == 'l',
        "bash"@.len() == 4,
        "bash"@[0] == 'b',
        "bash"@[1] == 'a',
        "bash"@[2] == 's',
        "bash"@[3] == 'h',
        "sh"@.len() == 2,
        "sh"@[0] == 's',
        "sh"@[1] == 'h',
        "swift"@.len() == 5,
        "swift"@[0] == 's',
        "swift"@[1] == 'w',
        "swift"@[2] == 'i',
        "swift"@[3] == 'f',
        "swift"@[4] == 't',
        "typescript"@.len() == 10,
        "typescript"@[0] == 't',
        "typescript"@[1] == 'y',
        "typescript"@[2] == 'p',
        "typescript"@[3] == 'e',
        "typescript"@[4] == 's',
        "typescript"@[5] == 'c',
        "typescript"@[6] == 'r',
        "typescript"@[7] == 'i',
        "typescript"@[8] == 'p',
        "typescript"@[9] == 't',
        "ts"@.len() == 2,
        "ts"@[0] == 't',
        "ts"@[1] == 's',
        "zig"@.len() == 3,
        "zig"@[0] == 'z',
        "zig"@[1] == 'i',
        "zig"@[2] == 'g',
        "zig-lang"@.len() == 8,
        "zig-lang"@[0] == 'z',
        "zig-lang"@[1] == 'i',
        "zig-lang"@[2] == 'g',
        "zig-lang"@[3] == '-',
        "zig-lang"@[4] == 'l',
        "zig-lang"@[5] == 'a',
        "zig-lang"@[6] == 'n',
        "zig-lang"@[7] == 'g',
{
    reveal_strlit("r");
    reveal_strlit("ruby");
    reveal_strlit("rust");
    reveal_strlit("scala");
    reveal_strlit("shell");
    reveal_strlit("bash");
    reveal_strlit("sh");
    reveal_strlit("swift");
    reveal_strlit("typescript");
    reveal_strlit("ts");
    reveal_strlit("zig");
    reveal_strlit("zig-lang");
}

/// The characters of each extension-table key, spelled out so that distinct keys of equal length are distinguishable (part 1 of 5).
proof fn ext_key_chars_a()
    ensures
        "c"@.len() == 1,
        "c"@[0] == 'c',
        "h"@.len() == 1,
        "h"@[0] == 'h',
        "cs"@.len() == 2,
        "cs"@[0] == 'c',
        "cs"@[1] == 's',
        "csx"@.len() == 3,
        "csx"@[0] == 'c',
        "csx"@[1] == 's',
        "csx"@[2] == 'x',
        "cpp"@.len() == 3,
        "cpp"@[0] == 'c',
        "cpp"@[1] == 'p',
        "cpp"@[2] == 'p',
        "cc"@.len() == 2,
        "cc"@[0] == 'c',
        "cc"@[1] == 'c',
        "cxx"@.len() == 3,
        "cxx"@[0] == 'c',
        "cxx"@[1] == 'x',
        "cxx"@[2] == 'x',
        "hpp"@.len() == 3,
        "hpp"@[0] == 'h',
        "hpp"@[1] == 'p',
        "hpp"@[2] == 'p',
        "hh"@.len() == 2,
        "hh"@[0] == 'h',
        "hh"@[1] == 'h',
        "h++"@.len() == 3,
        "h++"@[0] == 'h',
        "h++"@[1] == '+',
        "h++"@[2] == '+',
        "hxx"@.len() == 3,
        "hxx"@[0] == 'h',
        "hxx"@[1] == 'x',
        "hxx"@[2] == 'x',
        "clj"@.len() == 3,
        "clj"@[0] == 'c',
        "clj"@[1] == 'l',
        "clj"@[2] == 'j',
        "cljs"@.len() == 4,
        "cljs"@[0] == 'c',
        "cljs"@[1] == 'l',
        "cljs"@[2] == 'j',
        "cljs"@[3] == 's',
        "cljc"@.len() == 4,
        "cljc"@[0] == 'c',
        "cljc"@[1] == 'l',
        "cljc"@[2] == 'j',
        "cljc"@[3] == 'c',
        "edn"@.len() == 3,
        "edn"@[0] == 'e',
        "edn"@[1] == 'd',
        "edn"@[2] == 'n',
{
    reveal_strlit("c");
    reveal_strlit("h");
    reveal_strlit("cs");
    reveal_strlit("csx");
    reveal_strlit("cpp");
    reveal_strlit("cc");
    reveal_strlit("cxx");
    reveal_strlit("hpp");
    reveal_strlit("hh");
    reveal_strlit("h++");
    reveal_strlit("hxx");
    reveal_strlit("clj");
    reveal_strlit("cljs");
    reveal_strlit("cljc");
    reveal_strlit("edn");
}

/// The characters of each extension-table key, spelled out so that distinct keys of equal length are distinguishable (part 2 of 5).
proof fn ext_key_chars_b()
    ensures
        "dart"@.len() == 4,
        "dart"@[0] == 'd',
        "dart"@[1] == 'a',
        "dart"@[2] == 'r',
        "dart"@[3] == 't',
        "ex"@.len() == 2,
        "ex"@[0] == 'e',
        "ex"@[1] == 'x',
        "exs"@.len() == 3,
        "exs"@[0] == 'e',
        "exs"@[1] == 'x',
        "exs"@[2] == 's',
        "erl"@.len() == 3,
        "erl"@[0] == 'e',
        "erl"@[1] == 'r',
        "erl"@[2] == 'l',
        "hrl"@.len() == 3,
        "hrl"@[0] == 'h',
        "hrl"@[1] == 'r',
        "hrl"@[2] == 'l',
        "go"@.len() == 2,
        "go"@[0] == 'g',
        "go"@[1] == 'o',
        "html"@.len() == 4,
        "html"@[0] == 'h',
        "html"@[1] == 't',
        "html"@[2] == 'm',
        "html"@[3] == 'l',
        "htm"@.len() == 3,
        "htm"@[0] == 'h',
        "htm"@[1] == 't',
        "htm"@[2] == 'm',
        "xhtml"@.len() == 5,
        "xhtml"@[0] == 'x',
        "xhtml"@[1] == 'h',
        "xhtml"@[2] == 't',
        "xhtml"@[3] == 'm',
        "xhtml"@[4] == 'l',
        "hs"@.len() == 2,
        "hs"@[0] == 'h',
        "hs"@[1] == 's',
        "lhs"@.len() == 3,
        "lhs"@[0] == 'l',
        "lhs"@[1] == 'h',
        "lhs"@[2] == 's',
        "hsc"@.len() == 3,
        "hsc"@[0] == 'h',
        "hsc"@[1] == 's',
        "hsc"@[2] == 'c',
        "java"@.len() == 4,
        "java"@[0] == 'j',
        "java"@[1] == 'a',
        "java"@[2] == 'v',
        "java"@[3] == 'a',
        "class"@.len() == 5,
        "class"@[0] == 'c',
        "class"@[1] == 'l',
        "class"@[2] == 'a',
        "class"@[3] == 's',
        "class"@[4] == 's',
        "jar"@.len() == 3,
        "jar"@[0] == 'j',
        "jar"@[1] == 'a',
        "jar"@[2] == 'r',
{
    reveal_strlit("dart");
    reveal_strlit("ex");
    reveal_strlit("exs");
    reveal_strlit("erl");
    reveal_strlit("hrl");
    reveal_strlit("go");
    reveal_strlit("html");
    reveal_strlit("htm");
    reveal_strlit("xhtml");
    reveal_strlit("hs");
    reveal_strlit("lhs");
    reveal_strlit("hsc");
    reveal_strlit("java");
    reveal_strlit("class");
    reveal_strlit("jar");
}

/// The characters of each extension-table key, spelled out so that distinct keys of equal length are distinguishable (part 3 of 5).
proof fn ext_key_chars_c()
    ensures
        "js"@.len() == 2,
        "js"@[0] == 'j',
        "js"@[1] == 's',
        "mjs"@.len() == 3,
        "mjs"@[0] == 'm',
        "mjs"@[1] == 'j',
        "mjs"@[2] == 's',
        "cjs"@.len() == 3,
        "cjs"@[0] == 'c',
        "cjs"@[1] == 'j',
        "cjs"@[2] == 's',
        "jsx"@.len() == 3,
        "jsx"@[0] == 'j',
        "jsx"@[1] == 's',
        "jsx"@[2] == 'x',
        "jl"@.len() == 2,
        "jl"@[0] == 'j',
        "jl"@[1] == 'l',
        "kt"@.len() == 2,
        "kt"@[0] == 'k',
        "kt"@[1] == 't',
        "kts"@.len() == 3,
        "kts"@[0] == 'k',
        "kts"@[1] == 't',
        "kts"@[2] == 's',
        "lua"@.len() == 3,
        "lua"@[0] == 'l',
        "lua"@[1] == 'u',
        "lua"@[2] == 'a',
        "luau"@.len() == 4,
        "luau"@[0] == 'l',
        "luau"@[1] == 'u',
        "luau"@[2] == 'a',
        "luau"@[3] == 'u',
        "ml"@.len() == 2,
        "ml"@[0] == 'm',
        "ml"@[1] == 'l',
        "mli"@.len() == 3,
        "mli"@[0] == 'm',
        "mli"@[1] == 'l',
        "mli"@[2] == 'i',
        "mll"@.len() == 3,
        "mll"@[0] == 'm',
        "mll"@[1] == 'l',
        "mll"@[2] == 'l',
        "mly"@.len() == 3,
        "mly"@[0] == 'm',
        "mly"@[1] == 'l',
        "mly"@[2] == 'y',
        "php"@.len() == 3,
        "php"@[0] == 'p',
        "php"@[1] == 'h',
        "php"@[2] == 'p',
        "php3"@.len() == 4,
        "php3"@[0] == 'p',
        "php3"@[1] == 'h',
        "php3"@[2] == 'p',
        "php3"@[3] == '3',
{
    reveal_strlit("js");
    reveal_strlit("mjs");
    reveal_strlit("cjs");
    reveal_strlit("jsx");
    reveal_strlit("jl");
    reveal_strlit("kt");
    reveal_strlit("kts");
    reveal_strlit("lua");
    reveal_strlit("luau");
    reveal_strlit("ml");
    reveal_strlit("mli");
    reveal_strlit("mll");
    reveal_strlit("mly");
    reveal_strlit("php");
    reveal_strlit("php3");
}

/// The characters of each extension-table key, spelled out so that distinct keys of equal length are distinguishable (part 4 of 5).
proof fn ext_key_chars_d()
    ensures
        "php4"@.len() == 4,
        "php4"@[0] == 'p',
        "php4"@[1] == 'h',
        "php4"@[2] == 'p',
        "php4"@[3] == '4',
        "php5"@.len() == 4,
        "php5"@[0] == 'p',
        "php5"@[1] == 'h',
        "php5"@[2] == 'p',
        "php5"@[3] == '5',
        "phtml"@.len() == 5,
        "phtml"@[0] == 'p',
        "phtml"@[1] == 'h',
        "phtml"@[2] == 't',
        "phtml"@[3] == 'm',
        "phtml"@[4] == 'l',
        "pl"@.len() == 2,
        "pl"@[0] == 'p',
        "pl"@[1] == 'l',
        "pm"@.len() == 2,
        "pm"@[0] == 'p',
        "pm"@[1] == 'm',
        "t"@.len() == 1,
        "t"@[0] == 't',
        "pod"@.len() == 3,
        "pod"@[0] == 'p',
        "pod"@[1] == 'o',
        "pod"@[2] == 'd',
        "py"@.len() == 2,
        "py"@[0] == 'p',
        "py"@[1] == 'y',
        "pyi"@.len() == 3,
        "pyi"@[0] == 'p',
        "pyi"@[1] == 'y',
        "pyi"@[2] == 'i',
        "pyc"@.len() == 3,
        "pyc"@[0] == 'p',
        "pyc"@[1] == 'y',
        "pyc"@[2] == 'c',
        "pyw"@.len() == 3,
        "pyw"@[0] == 'p',
        "pyw"@[1] == 'y',
        "pyw"@[2] == 'w',
        "pyx"@.len() == 3,
        "pyx"@[0] == 'p',
        "pyx"@[1] == 'y',
        "pyx"@[2] == 'x',
        "r"@.len() == 1,
        "r"@[0] == 'r',
        "R"@.len() == 1,
        "R"@[0] == 'R',
        "Rmd"@.len() == 3,
        "Rmd"@[0] == 'R',
        "Rmd"@[1] == 'm',
        "Rmd"@[2] == 'd',
{
    reveal_strlit("php4");
    reveal_strlit("php5");
    reveal_strlit("phtml");
    reveal_strlit("pl");
    reveal_strlit("pm");
    reveal_strlit("t");
    reveal_strlit("pod");
    reveal_strlit("py");
    reveal_strlit("pyi");
    reveal_strlit("pyc");
    reveal_strlit("pyw");
    reveal_strlit("pyx");
    reveal_strlit("r");
    reveal_strlit("R");
    reveal_strlit("Rmd");
}

/// The characters of each extension-table key, spelled out so that distinct keys of equal length are distinguishable (part 5 of 5).
proof fn ext_key_chars_e()
    ensures
        "rb"@.len() == 2,
        "rb"@[0] == 'r',
        "rb"@[1] == 'b',
        "rake"@.len() == 4,
        "rake"@[0] == 'r',
        "rake"@[1] == 'a',
        "rake"@[2] == 'k',
        "rake"@[3] == 'e',
        "gemspec"@.len() == 7,
        "gemspec"@[0] == 'g',
        "gemspec"@[1] == 'e',
        "gemspec"@[2] == 'm',
        "gemspec"@[3] == 's',
        "gemspec"@[4] == 'p',
        "gemspec"@[5] == 'e',
        "gemspec"@[6] == 'c',
        "rs"@.len() == 2,
        "rs"@[0] == 'r',
        "rs"@[1] == 's',
        "scala"@.len() == 5,
        "scala"@[0] == 's',
        "scala"@[1] == 'c',
        "scala"@[2] == 'a',
        "scala"@[3] == 'l',
        "scala"@[4] == 'a',
        "sc"@.len() == 2,
        "sc"@[0] == 's',
        "sc"@[1] == 'c',
        "sh"@.len() == 2,
        "sh"@[0] == 's',
        "sh"@[1] == 'h',
        "bash"@.len() == 4,
        "bash"@[0] == 'b',
        "bash"@[1] == 'a',
        "bash"@[2] == 's',
        "bash"@[3] == 'h',
        "swift"@.len() == 5,
        "swift"@[0] == 's',
        "swift"@[1] == 'w',
        "swift"@[2] == 'i',
        "swift"@[3] == 'f',
        "swift"@[4] == 't',
        "ts"@.len() == 2,
        "ts"@[0] == 't',
        "ts"@[1] == 's',
        "tsx"@.len() == 3,
        "tsx"@[0] == 't',
        "tsx"@[1] == 's',
        "tsx"@[2] == 'x',
        "zig"@.len() == 3,
        "zig"@[0] == 'z',
        "zig"@[1] == 'i',
        "zig"@[2] == 'g',
{
    reveal_strlit("rb");
    reveal_strlit("rake");
    reveal_strlit("gemspec");
    reveal_strlit("rs");
    reveal_strlit("scala");
    reveal_strlit("sc");
    reveal_strlit("sh");
    reveal_strlit("bash");
    reveal_strlit("swift");
    reveal_strlit("ts");
    reveal_strlit("tsx");
    reveal_strlit("zig");
}

/// The canonical name of every language round-trips through name lookup.
pub proof fn lemma_canonical_name_round_trip(l: Language)
    ensures
        spec_from_name(spec_name(l)) == Some(l),
{
    name_key_chars_a();
    name_key_chars_b();
    name_key_chars_c();
    name_key_chars_d();
    match l {
        Language::C => {
            reveal_strlit("C");
            assert(lower("C"@) =~= "c"@);
            assert(spec_from_name(spec_name(l)) == Some(l));
        },
        Language::CSharp => {
            reveal_strlit("C#");
            assert(lower("C#"@) =~= "c#"@);
            assert(spec_from_name(spec_name(l)) == Some(l));
        },
        Language::Cpp => {
            reveal_strlit("C++");
            assert(lower("C++"@) =~= "c++"@);
            assert(spec_from_name(spec_name(l)) == Some(l));
        },
        Language::Clojure => {
            reveal_strlit("Clojure");
            assert(lower("Clojure"@) =~= "clojure"@);
            assert(spec_from_name(spec_name(l)) == Some(l));
        },
        Language::Dart => {
            reveal_strlit("Dart");
            assert(lower("Dart"@) =~= "dart"@);
            assert(spec_from_name(spec_name(l)) == Some(l));
        },
        Language::Elixir => {
            reveal_strlit("Elixir");
            assert(lower("Elixir"@) =~= "elixir"@);
            assert(spec_from_name(spec_name(l)) == Some(l));
        },
        Language::Erlang => {
            reveal_strlit("Erlang");
            assert(lower("Erlang"@) =~= "erlang"@);
            assert(spec_from_name(spec_name(l)) == Some(l));
        },
        Language::Go => {
            reveal_strlit("Go");
            assert(lower("Go"@) =~= "go"@);
            assert(spec_from_name(spec_name(l)) == Some(l));
        },
        Language::Html => {
            reveal_strlit("HTML");
            assert(lower("HTML"@) =~= "html"@);
            assert(spec_from_name(spec_name(l)) == Some(l));
        },
        Language::Haskell => {
            reveal_strlit("Haskell");
            assert(lower("Haskell"@) =~= "haskell"@);
            assert(spec_from_name(spec_name(l)) == Some(l));
        },
        Language::Java => {
            reveal_strlit("Java");
            assert(lower("Java"@) =~= "java"@);
            assert(spec_from_name(spec_name(l)) == Some(l));
        },
        Language::JavaScript => {
            reveal_strlit("JavaScript");
            assert(lower("JavaScript"@) =~= "javascript"@);
            assert(spec_from_name(spec_name(l)) == Some(l));
        },
        Language::Julia => {
            reveal_strlit("Julia");
            assert(lower("Julia"@) =~= "julia"@);
            assert(spec_from_name(spec_name(l)) == Some(l));
        },
        Language::Kotlin => {
            reveal_strlit("Kotlin");
            assert(lower("Kotlin"@) =~= "kotlin"@);
            assert(spec_from_name(spec_name(l)) == Some(l));
        },
        Language::Lua => {
            reveal_strlit("Lua");
            assert(lower("Lua"@) =~= "lua"@);
            assert(spec_from_name(spec_name(l)) == Some(l));
        },
        Language::OCaml => {
            reveal_strlit("OCaml");
            assert(lower("OCaml"@) =~= "ocaml"@);
            assert(spec_from_name(spec_name(l)) == Some(l));
        },
        Language::Php => {
            reveal_strlit("PHP");
            assert(lower("PHP"@) =~= "php"@);
            assert(spec_from_name(spec_name(l)) == Some(l));
        },
        Language::Perl => {
            reveal_strlit("Perl");
            assert(lower("Perl"@) =~= "perl"@);
            assert(spec_from_name(spec_name(l)) == Some(l));
        },
        Language::Python => {
            reveal_strlit("Python");
            assert(lower("Python"@) =~= "python"@);
            assert(spec_from_name(spec_name(l)) == Some(l));
        },
        Language::R => {
            reveal_strlit("R");
            assert(lower("R"@) =~= "r"@);
            assert(spec_from_name(spec_name(l)) == Some(l));
        },
        Language::Ruby => {
            reveal_strlit("Ruby");
            assert(lower("Ruby"@) =~= "ruby"@);
            assert(spec_from_name(spec_name(l)) == Some(l));
        },
        Language::Rust => {
            reveal_strlit("Rust");
            assert(lower("Rust"@) =~= "rust"@);
            assert(spec_from_name(spec_name(l)) == Some(l));
        },
        Language::Scala => {
            reveal_strlit("Scala");
            assert(lower("Scala"@) =~= "scala"@);
            assert(spec_from_name(spec_name(l)) == Some(l));
        },
        Language::Shell => {
            reveal_strlit("Shell");
            assert(lower("Shell"@) =~= "shell"@);
            assert(spec_from_name(spec_name(l)) == Some(l));
        },
        Language::Swift => {
            reveal_strlit("Swift");
            assert(lower("Swift"@) =~= "swift"@);
            assert(spec_from_name(spec_name(l)) == Some(l));
        },
        Language::TypeScript => {
            reveal_strlit("TypeScript");
            assert(lower("TypeScript"@) =~= "typescript"@);
            assert(spec_from_name(spec_name(l)) == Some(l));
        },
        Language::Zig => {
            reveal_strlit("Zig");
            assert(lower("Zig"@) =~= "zig"@);
            assert(spec_from_name(spec_name(l)) == Some(l));
        },
    }
}

/// Each extension-table entry looked up concretely, bare and with a
/// leading separator (part 1 of 5).
proof fn ext_facts_a()
    ensures
        spec_from_extension("c"@) == Some(Language::C),
        spec_from_extension(seq!['.'] + "c"@) == Some(Language::C),
        spec_from_extension("h"@) == Some(Language::C),
        spec_from_extension(seq!['.'] + "h"@) == Some(Language::C),
        spec_from_extension("cs"@) == Some(Language::CSharp),
        spec_from_extension(seq!['.'] + "cs"@) == Some(Language::CSharp),
        spec_from_extension("csx"@) == Some(Language::CSharp),
        spec_from_extension(seq!['.'] + "csx"@) == Some(Language::CSharp),
        spec_from_extension("cpp"@) == Some(Language::Cpp),
        spec_from_extension(seq!['.'] + "cpp"@) == Some(Language::Cpp),
        spec_from_extension("cc"@) == Some(Language::Cpp),
        spec_from_extension(seq!['.'] + "cc"@) == Some(Language::Cpp),
        spec_from_extension("cxx"@) == Some(Language::Cpp),
        spec_from_extension(seq!['.'] + "cxx"@) == Some(Language::Cpp),
        spec_from_extension("hpp"@) == Some(Language::Cpp),
        spec_from_extension(seq!['.'] + "hpp"@) == Some(Language::Cpp),
        spec_from_extension("hh"@) == Some(Language::Cpp),
        spec_from_extension(seq!['.'] + "hh"@) == Some(Language::Cpp),
        spec_from_extension("h++"@) == Some(Language::Cpp),
        spec_from_extension(seq!['.'] + "h++"@) == Some(Language::Cpp),
        spec_from_extension("hxx"@) == Some(Language::Cpp),
        spec_from_extension(seq!['.'] + "hxx"@) == Some(Language::Cpp),
        spec_from_extension("clj"@) == Some(Language::Clojure),
        spec_from_extension(seq!['.'] + "clj"@) == Some(Language::Clojure),
        spec_from_extension("cljs"@) == Some(Language::Clojure),
        spec_from_extension(seq!['.'] + "cljs"@) == Some(Language::Clojure),
        spec_from_extension("cljc"@) == Some(Language::Clojure),
        spec_from_extension(seq!['.'] + "cljc"@) == Some(Language::Clojure),
        spec_from_extension("edn"@) == Some(Language::Clojure),
        spec_from_extension(seq!['.'] + "edn"@) == Some(Language::Clojure),
{
    ext_key_chars_a();
    ext_key_chars_b();
    ext_key_chars_c();
    ext_key_chars_d();
    ext_key_chars_e();
    assert(strip_dot(seq!['.'] + "c"@) =~= "c"@);
    assert(ext_lookup("c"@) == Some(Language::C));
    assert(strip_dot(seq!['.'] + "h"@) =~= "h"@);
    assert(ext_lookup("h"@) == Some(Language::C));
    assert(strip_dot(seq!['.'] + "cs"@) =~= "cs"@);
    assert(ext_lookup("cs"@) == Some(Language::CSharp));
    assert(strip_dot(seq!['.'] + "csx"@) =~= "csx"@);
    assert(ext_lookup("csx"@) == Some(Language::CSharp));
    assert(strip_dot(seq!['.'] + "cpp"@) =~= "cpp"@);
    assert(ext_lookup("cpp"@) == Some(Language::Cpp));
    assert(strip_dot(seq!['.'] + "cc"@) =~= "cc"@);
    assert(ext_lookup("cc"@) == Some(Language::Cpp));
    assert(strip_dot(seq!['.'] + "cxx"@) =~= "cxx"@);
    assert(ext_lookup("cxx"@) == Some(Language::Cpp));
    assert(strip_dot(seq!['.'] + "hpp"@) =~= "hpp"@);
    assert(ext_lookup("hpp"@) == Some(Language::Cpp));
    assert(strip_dot(seq!['.'] + "hh"@) =~= "hh"@);
    assert(ext_lookup("hh"@) == Some(Language::Cpp));
    assert(strip_dot(seq!['.'] + "h++"@) =~= "h++"@);
    assert(ext_lookup("h++"@) == Some(Language::Cpp));
    assert(strip_dot(seq!['.'] + "hxx"@) =~= "hxx"@);
    assert(ext_lookup("hxx"@) == Some(Language::Cpp));
    assert(strip_dot(seq!['.'] + "clj"@) =~= "clj"@);
    assert(ext_lookup("clj"@) == Some(Language::Clojure));
    assert(strip_dot(seq!['.'] + "cljs"@) =~= "cljs"@);
    assert(ext_lookup("cljs"@) == Some(Language::Clojure));
    assert(strip_dot(seq!['.'] + "cljc"@) =~= "cljc"@);
    assert(ext_lookup("cljc"@) == Some(Language::Clojure));
    assert(strip_dot(seq!['.'] + "edn"@) =~= "edn"@);
    assert(ext_lookup("edn"@) == Some(Language::Clojure));
}

/// Each extension-table entry looked up concretely, bare and with a
/// leading separator (part 2 of 5).
proof fn ext_facts_b()
    ensures
        spec_from_extension("dart"@) == Some(Language::Dart),
        spec_from_extension(seq!['.'] + "dart"@) == Some(Language::Dart),
        spec_from_extension("ex"@) == Some(Language::Elixir),
        spec_from_extension(seq!['.'] + "ex"@) == Some(Language::Elixir),
        spec_from_extension("exs"@) == Some(Language::Elixir),
        spec_from_extension(seq!['.'] + "exs"@) == Some(Language::Elixir),
        spec_from_extension("erl"@) == Some(Language::Erlang),
        spec_from_extension(seq!['.'] + "erl"@) == Some(Language::Erlang),
        spec_from_extension("hrl"@) == Some(Language::Erlang),
        spec_from_extension(seq!['.'] + "hrl"@) == Some(Language::Erlang),
        spec_from_extension("go"@) == Some(Language::Go),
        spec_from_extension(seq!['.'] + "go"@) == Some(Language::Go),
        spec_from_extension("html"@) == Some(Language::Html),
        spec_from_extension(seq!['.'] + "html"@) == Some(Language::Html),
        spec_from_extension("htm"@) == Some(Language::Html),
        spec_from_extension(seq!['.'] + "htm"@) == Some(Language::Html),
        spec_from_extension("xhtml"@) == Some(Language::Html),
        spec_from_extension(seq!['.'] + "xhtml"@) == Some(Language::Html),
        spec_from_extension("hs"@) == Some(Language::Haskell),
        spec_from_extension(seq!['.'] + "hs"@) == Some(Language::Haskell),
        spec_from_extension("lhs"@) == Some(Language::Haskell),
        spec_from_extension(seq!['.'] + "lhs"@) == Some(Language::Haskell),
        spec_from_extension("hsc"@) == Some(Language::Haskell),
        spec_from_extension(seq!['.'] + "hsc"@) == Some(Language::Haskell),
        spec_from_extension("java"@) == Some(Language::Java),
        spec_from_extension(seq!['.'] + "java"@) == Some(Language::Java),
        spec_from_extension("class"@) == Some(Language::Java),
        spec_from_extension(seq!['.'] + "class"@) == Some(Language::Java),
        spec_from_extension("jar"@) == Some(Language::Java),
        spec_from_extension(seq!['.'] + "jar"@) == Some(Language::Java),
{
    ext_key_chars_a();
    ext_key_chars_b();
    ext_key_chars_c();
    ext_key_chars_d();
    ext_key_chars_e();
    assert(strip_dot(seq!['.'] + "dart"@) =~= "dart"@);
    assert(ext_lookup("dart"@) == Some(Language::Dart));
    assert(strip_dot(seq!['.'] + "ex"@) =~= "ex"@);
    assert(ext_lookup("ex"@) == Some(Language::Elixir));
    assert(strip_dot(seq!['.'] + "exs"@) =~= "exs"@);
    assert(ext_lookup("exs"@) == Some(Language::Elixir));
    assert(strip_dot(seq!['.'] + "erl"@) =~= "erl"@);
    assert(ext_lookup("erl"@) == Some(Language::Erlang));
    assert(strip_dot(seq!['.'] + "hrl"@) =~= "hrl"@);
    assert(ext_lookup("hrl"@) == Some(Language::Erlang));
    assert(strip_dot(seq!['.'] + "go"@) =~= "go"@);
    assert(ext_lookup("go"@) == Some(Language::Go));
    assert(strip_dot(seq!['.'] + "html"@) =~= "html"@);
    assert(ext_lookup("html"@) == Some(Language::Html));
    assert(strip_dot(seq!['.'] + "htm"@) =~= "htm"@);
    assert(ext_lookup("htm"@) == Some(Language::Html));
    assert(strip_dot(seq!['.'] + "xhtml"@) =~= "xhtml"@);
    assert(ext_lookup("xhtml"@) == Some(Language::Html));
    assert(strip_dot(seq!['.'] + "hs"@) =~= "hs"@);
    assert(ext_lookup("hs"@) == Some(Language::Haskell));
    assert(strip_dot(seq!['.'] + "lhs"@) =~= "lhs"@);
    assert(ext_lookup("lhs"@) == Some(Language::Haskell));
    assert(strip_dot(seq!['.'] + "hsc"@) =~= "hsc"@);
    assert(ext_lookup("hsc"@) == Some(Language::Haskell));
    assert(strip_dot(seq!['.'] + "java"@) =~= "java"@);
    assert(ext_lookup("java"@) == Some(Language::Java));
    assert(strip_dot(seq!['.'] + "class"@) =~= "class"@);
    assert(ext_lookup("class"@) == Some(Language::Java));
    assert(strip_dot(seq!['.'] + "jar"@) =~= "jar"@);
    assert(ext_lookup("jar"@) == Some(Language::Java));
}

/// Each extension-table entry looked up concretely, bare and with a
/// leading separator (part 3 of 5).
proof fn ext_facts_c()
    ensures
        spec_from_extension("js"@) == Some(Language::JavaScript),
        spec_from_extension(seq!['.'] + "js"@) == Some(Language::JavaScript),
        spec_from_extension("mjs"@) == Some(Language::JavaScript),
        spec_from_extension(seq!['.'] + "mjs"@) == Some(Language::JavaScript),
        spec_from_extension("cjs"@) == Some(Language::JavaScript),
        spec_from_extension(seq!['.'] + "cjs"@) == Some(Language::JavaScript),
        spec_from_extension("jsx"@) == Some(Language::JavaScript),
        spec_from_extension(seq!['.'] + "jsx"@) == Some(Language::JavaScript),
        spec_from_extension("jl"@) == Some(Language::Julia),
        spec_from_extension(seq!['.'] + "jl"@) == Some(Language::Julia),
        spec_from_extension("kt"@) == Some(Language::Kotlin),
        spec_from_extension(seq!['.'] + "kt"@) == Some(Language::Kotlin),
        spec_from_extension("kts"@) == Some(Language::Kotlin),
        spec_from_extension(seq!['.'] + "kts"@) == Some(Language::Kotlin),
        spec_from_extension("lua"@) == Some(Language::Lua),
        spec_from_extension(seq!['.'] + "lua"@) == Some(Language::Lua),
        spec_from_extension("luau"@) == Some(Language::Lua),
        spec_from_extension(seq!['.'] + "luau"@) == Some(Language::Lua),
        spec_from_extension("ml"@) == Some(Language::OCaml),
        spec_from_extension(seq!['.'] + "ml"@) == Some(Language::OCaml),
        spec_from_extension("mli"@) == Some(Language::OCaml),
        spec_from_extension(seq!['.'] + "mli"@) == Some(Language::OCaml),
        spec_from_extension("mll"@) == Some(Language::OCaml),
        spec_from_extension(seq!['.'] + "mll"@) == Some(Language::OCaml),
        spec_from_extension("mly"@) == Some(Language::OCaml),
        spec_from_extension(seq!['.'] + "mly"@) == Some(Language::OCaml),
        spec_from_extension("php"@) == Some(Language::Php),
        spec_from_extension(seq!['.'] + "php"@) == Some(Language::Php),
        spec_from_extension("php3"@) == Some(Language::Php),
        spec_from_extension(seq!['.'] + "php3"@) == Some(Language::Php),
{
    ext_key_chars_a();
    ext_key_chars_b();
    ext_key_chars_c();
    ext_key_chars_d();
    ext_key_chars_e();
    assert(strip_dot(seq!['.'] + "js"@) =~= "js"@);
    assert(ext_lookup("js"@) == Some(Language::JavaScript));
    assert(strip_dot(seq!['.'] + "mjs"@) =~= "mjs"@);
    assert(ext_lookup("mjs"@) == Some(Language::JavaScript));
    assert(strip_dot(seq!['.'] + "cjs"@) =~= "cjs"@);
    assert(ext_lookup("cjs"@) == Some(Language::JavaScript));
    assert(strip_dot(seq!['.'] + "jsx"@) =~= "jsx"@);
    assert(ext_lookup("jsx"@) == Some(Language::JavaScript));
    assert(strip_dot(seq!['.'] + "jl"@) =~= "jl"@);
    assert(ext_lookup("jl"@) == Some(Language::Julia));
    assert(strip_dot(seq!['.'] + "kt"@) =~= "kt"@);
    assert(ext_lookup("kt"@) == Some(Language::Kotlin));
    assert(strip_dot(seq!['.'] + "kts"@) =~= "kts"@);
    assert(ext_lookup("kts"@) == Some(Language::Kotlin));
    assert(strip_dot(seq!['.'] + "lua"@) =~= "lua"@);
    assert(ext_lookup("lua"@) == Some(Language::Lua));
    assert(strip_dot(seq!['.'] + "luau"@) =~= "luau"@);
    assert(ext_lookup("luau"@) == Some(Language::Lua));
    assert(strip_dot(seq!['.'] + "ml"@) =~= "ml"@);
    assert(ext_lookup("ml"@) == Some(Language::OCaml));
    assert(strip_dot(seq!['.'] + "mli"@) =~= "mli"@);
    assert(ext_lookup("mli"@) == Some(Language::OCaml));
    assert(strip_dot(seq!['.'] + "mll"@) =~= "mll"@);
    assert(ext_lookup("mll"@) == Some(Language::OCaml));
    assert(strip_dot(seq!['.'] + "mly"@) =~= "mly"@);
    assert(ext_lookup("mly"@) == Some(Language::OCaml));
    assert(strip_dot(seq!['.'] + "php"@) =~= "php"@);
    assert(ext_lookup("php"@) == Some(Language::Php));
    assert(strip_dot(seq!['.'] + "php3"@) =~= "php3"@);
    assert(ext_lookup("php3"@) == Some(Language::Php));
}

/// Each extension-table entry looked up concretely, bare and with a
/// leading separator (part 4 of 5).
proof fn ext_facts_d()
    ensures
        spec_from_extension("php4"@) == Some(Language::Php),
        spec_from_extension(seq!['.'] + "php4"@) == Some(Language::Php),
        spec_from_extension("php5"@) == Some(Language::Php),
        spec_from_extension(seq!['.'] + "php5"@) == Some(Language::Php),
        spec_from_extension("phtml"@) == Some(Language::Php),
        spec_from_extension(seq!['.'] + "phtml"@) == Some(Language::Php),
        spec_from_extension("pl"@) == Some(Language::Perl),
        spec_from_extension(seq!['.'] + "pl"@) == Some(Language::Perl),
        spec_from_extension("pm"@) == Some(Language::Perl),
        spec_from_extension(seq!['.'] + "pm"@) == Some(Language::Perl),
        spec_from_extension("t"@) == Some(Language::Perl),
        spec_from_extension(seq!['.'] + "t"@) == Some(Language::Perl),
        spec_from_extension("pod"@) == Some(Language::Perl),
        spec_from_extension(seq!['.'] + "pod"@) == Some(Language::Perl),
        spec_from_extension("py"@) == Some(Language::Python),
        spec_from_extension(seq!['.'] + "py"@) == Some(Language::Python),
        spec_from_extension("pyi"@) == Some(Language::Python),
        spec_from_extension(seq!['.'] + "pyi"@) == Some(Language::Python),
        spec_from_extension("pyc"@) == Some(Language::Python),
        spec_from_extension(seq!['.'] + "pyc"@) == Some(Language::Python),
        spec_from_extension("pyw"@) == Some(Language::Python),
        spec_from_extension(seq!['.'] + "pyw"@) == Some(Language::Python),
        spec_from_extension("pyx"@) == Some(Language::Python),
        spec_from_extension(seq!['.'] + "pyx"@) == Some(Language::Python),
        spec_from_extension("r"@) == Some(Language::R),
        spec_from_extension(seq!['.'] + "r"@) == Some(Language::R),
        spec_from_extension("R"@) == Some(Language::R),
        spec_from_extension(seq!['.'] + "R"@) == Some(Language::R),
        spec_from_extension("Rmd"@) == Some(Language::R),
        spec_from_extension(seq!['.'] + "Rmd"@) == Some(Language::R),
{
    ext_key_chars_a();
    ext_key_chars_b();
    ext_key_chars_c();
    ext_key_chars_d();
    ext_key_chars_e();
    assert(strip_dot(seq!['.'] + "php4"@) =~= "php4"@);
    assert(ext_lookup("php4"@) == Some(Language::Php));
    assert(strip_dot(seq!['.'] + "php5"@) =~= "php5"@);
    assert(ext_lookup("php5"@) == Some(Language::Php));
    assert(strip_dot(seq!['.'] + "phtml"@) =~= "phtml"@);
    assert(ext_lookup("phtml"@) == Some(Language::Php));
    assert(strip_dot(seq!['.'] + "pl"@) =~= "pl"@);
    assert(ext_lookup("pl"@) == Some(Language::Perl));
    assert(strip_dot(seq!['.'] + "pm"@) =~= "pm"@);
    assert(ext_lookup("pm"@) == Some(Language::Perl));
    assert(strip_dot(seq!['.'] + "t"@) =~= "t"@);
    assert(ext_lookup("t"@) == Some(Language::Perl));
    assert(strip_dot(seq!['.'] + "pod"@) =~= "pod"@);
    assert(ext_lookup("pod"@) == Some(Language::Perl));
    assert(strip_dot(seq!['.'] + "py"@) =~= "py"@);
    assert(ext_lookup("py"@) == Some(Language::Python));
    assert(strip_dot(seq!['.'] + "pyi"@) =~= "pyi"@);
    assert(ext_lookup("pyi"@) == Some(Language::Python));
    assert(strip_dot(seq!['.'] + "pyc"@) =~= "pyc"@);
    assert(ext_lookup("pyc"@) == Some(Language::Python));
    assert(strip_dot(seq!['.'] + "pyw"@) =~= "pyw"@);
    assert(ext_lookup("pyw"@) == Some(Language::Python));
    assert(strip_dot(seq!['.'] + "pyx"@) =~= "pyx"@);
    assert(ext_lookup("pyx"@) == Some(Language::Python));
    assert(strip_dot(seq!['.'] + "r"@) =~= "r"@);
    assert(ext_lookup("r"@) == Some(Language::R));
    assert(strip_dot(seq!['.'] + "R"@) =~= "R"@);
    assert(ext_lookup("R"@) == Some(Language::R));
    assert(strip_dot(seq!['.'] + "Rmd"@) =~= "Rmd"@);
    assert(ext_lookup("Rmd"@) == Some(Language::R));
}

/// Each extension-table entry looked up concretely, bare and with a
/// leading separator (part 5 of 5).
proof fn ext_facts_e()
    ensures
        spec_from_extension("rb"@) == Some(Language::Ruby),
        spec_from_extension(seq!['.'] + "rb"@) == Some(Language::Ruby),
        spec_from_extension("rake"@) == Some(Language::Ruby),
        spec_from_extension(seq!['.'] + "rake"@) == Some(Language::Ruby),
        spec_from_extension("gemspec"@) == Some(Language::Ruby),
        spec_from_extension(seq!['.'] + "gemspec"@) == Some(Language::Ruby),
        spec_from_extension("rs"@) == Some(Language::Rust),
        spec_from_extension(seq!['.'] + "rs"@) == Some(Language::Rust),
        spec_from_extension("scala"@) == Some(Language::Scala),
        spec_from_extension(seq!['.'] + "scala"@) == Some(Language::Scala),
        spec_from_extension("sc"@) == Some(Language::Scala),
        spec_from_extension(seq!['.'] + "sc"@) == Some(Language::Scala),
        spec_from_extension("sh"@) == Some(Language::Shell),
        spec_from_extension(seq!['.'] + "sh"@) == Some(Language::Shell),
        spec_from_extension("bash"@) == Some(Language::Shell),
        spec_from_extension(seq!['.'] + "bash"@) == Some(Language::Shell),
        spec_from_extension("swift"@) == Some(Language::Swift),
        spec_from_extension(seq!['.'] + "swift"@) == Some(Language::Swift),
        spec_from_extension("ts"@) == Some(Language::TypeScript),
        spec_from_extension(seq!['.'] + "ts"@) == Some(Language::TypeScript),
        spec_from_extension("tsx"@) == Some(Language::TypeScript),
        spec_from_extension(seq!['.'] + "tsx"@) == Some(Language::TypeScript),
        spec_from_extension("zig"@) == Some(Language::Zig),
        spec_from_extension(seq!['.'] + "zig"@) == Some(Language::Zig),
{
    ext_key_chars_a();
    ext_key_chars_b();
    ext_key_chars_c();
    ext_key_chars_d();
    ext_key_chars_e();
    assert(strip_dot(seq!['.'] + "rb"@) =~= "rb"@);
    assert(ext_lookup("rb"@) == Some(Language::Ruby));
    assert(strip_dot(seq!['.'] + "rake"@) =~= "rake"@);
    assert(ext_lookup("rake"@) == Some(Language::Ruby));
    assert(strip_dot(seq!['.'] + "gemspec"@) =~= "gemspec"@);
    assert(ext_lookup("gemspec"@) == Some(Language::Ruby));
    assert(strip_dot(seq!['.'] + "rs"@) =~= "rs"@);
    assert(ext_lookup("rs"@) == Some(Language::Rust));
    assert(strip_dot(seq!['.'] + "scala"@) =~= "scala"@);
    assert(ext_lookup("scala"@) == Some(Language::Scala));
    assert(strip_dot(seq!['.'] + "sc"@) =~= "sc"@);
    assert(ext_lookup("sc"@) == Some(Language::Scala));
    assert(strip_dot(seq!['.'] + "sh"@) =~= "sh"@);
    assert(ext_lookup("sh"@) == Some(Language::Shell));
    assert(strip_dot(seq!['.'] + "bash"@) =~= "bash"@);
    assert(ext_lookup("bash"@) == Some(Language::Shell));
    assert(strip_dot(seq!['.'] + "swift"@) =~= "swift"@);
    assert(ext_lookup("swift"@) == Some(Language::Swift));
    assert(strip_dot(seq!['.'] + "ts"@) =~= "ts"@);
    assert(ext_lookup("ts"@) == Some(Language::TypeScript));
    assert(strip_dot(seq!['.'] + "tsx"@) =~= "tsx"@);
    assert(ext_lookup("tsx"@) == Some(Language::TypeScript));
    assert(strip_dot(seq!['.'] + "zig"@) =~= "zig"@);
    assert(ext_lookup("zig"@) == Some(Language::Zig));
}

/// Every extension-table pair round-trips: looking up the bare key, or
/// the key with a leading separator, yields the language that owns it.
#[verifier::rlimit(50)]
pub proof fn lemma_extension_round_trip(l: Language, j: int)
    requires
        0 <= j < spec_extensions(l).len(),
    ensures
        spec_from_extension(spec_extensions(l)[j]) == Some(l),
        spec_from_extension(seq!['.'] + spec_extensions(l)[j]) == Some(l),
{
    ext_facts_a();
    ext_facts_b();
    ext_facts_c();
    ext_facts_d();
    ext_facts_e();
    match l {
        Language::C => {
            assert(spec_extensions(l)[0] == "c"@);
            assert(spec_extensions(l)[1] == "h"@);
        },
        Language::CSharp => {
            assert(spec_extensions(l)[0] == "cs"@);
            assert(spec_extensions(l)[1] == "csx"@);
        },
        Language::Cpp => {
            assert(spec_extensions(l)[0] == "cpp"@);
            assert(spec_extensions(l)[1] == "cc"@);
            assert(spec_extensions(l)[2] == "cxx"@);
            assert(spec_extensions(l)[3] == "hpp"@);
            assert(spec_extensions(l)[4] == "hh"@);
            assert(spec_extensions(l)[5] == "h++"@);
            assert(spec_extensions(l)[6] == "hxx"@);
        },
        Language::Clojure => {
            assert(spec_extensions(l)[0] == "clj"@);
            assert(spec_extensions(l)[1] == "cljs"@);
            assert(spec_extensions(l)[2] == "cljc"@);
            assert(spec_extensions(l)[3] == "edn"@);
        },
        Language::Dart => {
            assert(spec_extensions(l)[0] == "dart"@);
        },
        Language::Elixir => {
            assert(spec_extensions(l)[0] == "ex"@);
            assert(spec_extensions(l)[1] == "exs"@);
        },
        Language::Erlang => {
            assert(spec_extensions(l)[0] == "erl"@);
            assert(spec_extensions(l)[1] == "hrl"@);
        },
        Language::Go => {
            assert(spec_extensions(l)[0] == "go"@);
        },
        Language::Html => {
            assert(spec_extensions(l)[0] == "html"@);
            assert(spec_extensions(l)[1] == "htm"@);
            assert(spec_extensions(l)[2] == "xhtml"@);
        },
        Language::Haskell => {
            assert(spec_extensions(l)[0] == "hs"@);
            assert(spec_extensions(l)[1] == "lhs"@);
            assert(spec_extensions(l)[2] == "hsc"@);
        },
        Language::Java => {
            assert(spec_extensions(l)[0] == "java"@);
            assert(spec_extensions(l)[1] == "class"@);
            assert(spec_extensions(l)[2] == "jar"@);
        },
        Language::JavaScript => {
            assert(spec_extensions(l)[0] == "js"@);
            assert(spec_extensions(l)[1] == "mjs"@);
            assert(spec_extensions(l)[2] == "cjs"@);
            assert(spec_extensions(l)[3] == "jsx"@);
        },
        Language::Julia => {
            assert(spec_extensions(l)[0] == "jl"@);
        },
        Language::Kotlin => {
            assert(spec_extensions(l)[0] == "kt"@);
            assert(spec_extensions(l)[1] == "kts"@);
        },
        Language::Lua => {
            assert(spec_extensions(l)[0] == "lua"@);
            assert(spec_extensions(l)[1] == "luau"@);
        },
        Language::OCaml => {
            assert(spec_extensions(l)[0] == "ml"@);
            assert(spec_extensions(l)[1] == "mli"@);
            assert(spec_extensions(l)[2] == "mll"@);
            assert(spec_extensions(l)[3] == "mly"@);
        },
        Language::Php => {
            assert(spec_extensions(l)[0] == "php"@);
            assert(spec_extensions(l)[1] == "php3"@);
            assert(spec_extensions(l)[2] == "php4"@);
            assert(spec_extensions(l)[3] == "php5"@);
            assert(spec_extensions(l)[4] == "phtml"@);
        },
        Language::Perl => {
            assert(spec_extensions(l)[0] == "pl"@);
            assert(spec_extensions(l)[1] == "pm"@);
            assert(spec_extensions(l)[2] == "t"@);
            assert(spec_extensions(l)[3] == "pod"@);
        },
        Language::Python => {
            assert(spec_extensions(l)[0] == "py"@);
            assert(spec_extensions(l)[1] == "pyi"@);
            assert(spec_extensions(l)[2] == "pyc"@);
            assert(spec_extensions(l)[3] == "pyw"@);
            assert(spec_extensions(l)[4] == "pyx"@);
        },
        Language::R => {
            assert(spec_extensions(l)[0] == "r"@);
            assert(spec_extensions(l)[1] == "R"@);
            assert(spec_extensions(l)[2] == "Rmd"@);
        },
        Language::Ruby => {
            assert(spec_extensions(l)[0] == "rb"@);
            assert(spec_extensions(l)[1] == "rake"@);
            assert(spec_extensions(l)[2] == "gemspec"@);
        },
        Language::Rust => {
            assert(spec_extensions(l)[0] == "rs"@);
        },
        Language::Scala => {
            assert(spec_extensions(l)[0] == "scala"@);
            assert(spec_extensions(l)[1] == "sc"@);
        },
        Language::Shell => {
            assert(spec_extensions(l)[0] == "sh"@);
            assert(spec_extensions(l)[1] == "bash"@);
        },
        Language::Swift => {
            assert(spec_extensions(l)[0] == "swift"@);
        },
        Language::TypeScript => {
            assert(spec_extensions(l)[0] == "ts"@);
            assert(spec_extensions(l)[1] == "tsx"@);
        },
        Language::Zig => {
            assert(spec_extensions(l)[0] == "zig"@);
        },
    }
}

/// Extension lookup yields nothing outside the table: a successful
/// lookup always returns a language that lists the queried key among
/// its extensions.
pub proof fn lemma_extensions_exhaustive(e: Seq<char>)
    ensures
        ext_lookup(e) matches Some(l) ==> spec_extensions(l).contains(e),
{
    if e == "c"@ {
        assert(spec_extensions(Language::C)[0] == e);
        assert(spec_extensions(Language::C).contains(e));
    } else if e == "h"@ {
        assert(spec_extensions(Language::C)[1] == e);
        assert(spec_extensions(Language::C).contains(e));
    } else if e == "cs"@ {
        assert(spec_extensions(Language::CSharp)[0] == e);
        assert(spec_extensions(Language::CSharp).contains(e));
    } else if e == "csx"@ {
        assert(spec_extensions(Language::CSharp)[1] == e);
        assert(spec_extensions(Language::CSharp).contains(e));
    } else if e == "cpp"@ {
        assert(spec_extensions(Language::Cpp)[0] == e);
        assert(spec_extensions(Language::Cpp).contains(e));
    } else if e == "cc"@ {
        assert(spec_extensions(Language::Cpp)[1] == e);
        assert(spec_extensions(Language::Cpp).contains(e));
    } else if e == "cxx"@ {
        assert(spec_extensions(Language::Cpp)[2] == e);
        assert(spec_extensions(Language::Cpp).contains(e));
    } else if e == "hpp"@ {
        assert(spec_extensions(Language::Cpp)[3] == e);
        assert(spec_extensions(Language::Cpp).contains(e));
    } else if e == "hh"@ {
        assert(spec_extensions(Language::Cpp)[4] == e);
        assert(spec_extensions(Language::Cpp).contains(e));
    } else if e == "h++"@ {
        assert(spec_extensions(Language::Cpp)[5] == e);
        assert(spec_extensions(Language::Cpp).contains(e));
    } else if e == "hxx"@ {
        assert(spec_extensions(Language::Cpp)[6] == e);
        assert(spec_extensions(Language::Cpp).contains(e));
    } else if e == "clj"@ {
        assert(spec_extensions(Language::Clojure)[0] == e);
        assert(spec_extensions(Language::Clojure).contains(e));
    } else if e == "cljs"@ {
        assert(spec_extensions(Language::Clojure)[1] == e);
        assert(spec_extensions(Language::Clojure).contains(e));
    } else if e == "cljc"@ {
        assert(spec_extensions(Language::Clojure)[2] == e);
        assert(spec_extensions(Language::Clojure).contains(e));
    } else if e == "edn"@ {
        assert(spec_extensions(Language::Clojure)[3] == e);
        assert(spec_extensions(Language::Clojure).contains(e));
    } else if e == "dart"@ {
        assert(spec_extensions(Language::Dart)[0] == e);
        assert(spec_extensions(Language::Dart).contains(e));
    } else if e == "ex"@ {
        assert(spec_extensions(Language::Elixir)[0] == e);
        assert(spec_extensions(Language::Elixir).contains(e));
    } else if e == "exs"@ {
        assert(spec_extensions(Language::Elixir)[1] == e);
        assert(spec_extensions(Language::Elixir).contains(e));
    } else if e == "erl"@ {
        assert(spec_extensions(Language::Erlang)[0] == e);
        assert(spec_extensions(Language::Erlang).contains(e));
    } else if e == "hrl"@ {
        assert(spec_extensions(Language::Erlang)[1] == e);
        assert(spec_extensions(Language::Erlang).contains(e));
    } else if e == "go"@ {
        assert(spec_extensions(Language::Go)[0] == e);
        assert(spec_extensions(Language::Go).contains(e));
    } else if e == "html"@ {
        assert(spec_extensions(Language::Html)[0] == e);
        assert(spec_extensions(Language::Html).contains(e));
    } else if e == "htm"@ {
        assert(spec_extensions(Language::Html)[1] == e);
        assert(spec_extensions(Language::Html).contains(e));
    } else if e == "xhtml"@ {
        assert(spec_extensions(Language::Html)[2] == e);
        assert(spec_extensions(Language::Html).contains(e));
    } else if e == "hs"@ {
        assert(spec_extensions(Language::Haskell)[0] == e);
        assert(spec_extensions(Language::Haskell).contains(e));
    } else if e == "lhs"@ {
        assert(spec_extensions(Language::Haskell)[1] == e);
        assert(spec_extensions(Language::Haskell).contains(e));
    } else if e == "hsc"@ {
        assert(spec_extensions(Language::Haskell)[2] == e);
        assert(spec_extensions(Language::Haskell).contains(e));
    } else if e == "java"@ {
        assert(spec_extensions(Language::Java)[0] == e);
        assert(spec_extensions(Language::Java).contains(e));
    } else if e == "class"@ {
        assert(spec_extensions(Language::Java)[1] == e);
        assert(spec_extensions(Language::Java).contains(e));
    } else if e == "jar"@ {
        assert(spec_extensions(Language::Java)[2] == e);
        assert(spec_extensions(Language::Java).contains(e));
    } else if e == "js"@ {
        assert(spec_extensions(Language::JavaScript)[0] == e);
        assert(spec_extensions(Language::JavaScript).contains(e));
    } else if e == "mjs"@ {
        assert(spec_extensions(Language::JavaScript)[1] == e);
        assert(spec_extensions(Language::JavaScript).contains(e));
    } else if e == "cjs"@ {
        assert(spec_extensions(Language::JavaScript)[2] == e);
        assert(spec_extensions(Language::JavaScript).contains(e));
    } else if e == "jsx"@ {
        assert(spec_extensions(Language::JavaScript)[3] == e);
        assert(spec_extensions(Language::JavaScript).contains(e));
    } else if e == "jl"@ {
        assert(spec_extensions(Language::Julia)[0] == e);
        assert(spec_extensions(Language::Julia).contains(e));
    } else if e == "kt"@ {
        assert(spec_extensions(Language::Kotlin)[0] == e);
        assert(spec_extensions(Language::Kotlin).contains(e));
    } else if e == "kts"@ {
        assert(spec_extensions(Language::Kotlin)[1] == e);
        assert(spec_extensions(Language::Kotlin).contains(e));
    } else if e == "lua"@ {
        assert(spec_extensions(Language::Lua)[0] == e);
        assert(spec_extensions(Language::Lua).contains(e));
    } else if e == "luau"@ {
        assert(spec_extensions(Language::Lua)[1] == e);
        assert(spec_extensions(Language::Lua).contains(e));
    } else if e == "ml"@ {
        assert(spec_extensions(Language::OCaml)[0] == e);
        assert(spec_extensions(Language::OCaml).contains(e));
    } else if e == "mli"@ {
        assert(spec_extensions(Language::OCaml)[1] == e);
        assert(spec_extensions(Language::OCaml).contains(e));
    } else if e == "mll"@ {
        assert(spec_extensions(Language::OCaml)[2] == e);
        assert(spec_extensions(Language::OCaml).contains(e));
    } else if e == "mly"@ {
        assert(spec_extensions(Language::OCaml)[3] == e);
        assert(spec_extensions(Language::OCaml).contains(e));
    } else if e == "php"@ {
        assert(spec_extensions(Language::Php)[0] == e);
        assert(spec_extensions(Language::Php).contains(e));
    } else if e == "php3"@ {
        assert(spec_extensions(Language::Php)[1] == e);
        assert(spec_extensions(Language::Php).contains(e));
    } else if e == "php4"@ {
        assert(spec_extensions(Language::Php)[2] == e);
        assert(spec_extensions(Language::Php).contains(e));
    } else if e == "php5"@ {
        assert(spec_extensions(Language::Php)[3] == e);
        assert(spec_extensions(Language::Php).contains(e));
    } else if e == "phtml"@ {
        assert(spec_extensions(Language::Php)[4] == e);
        assert(spec_extensions(Language::Php).contains(e));
    } else if e == "pl"@ {
        assert(spec_extensions(Language::Perl)[0] == e);
        assert(spec_extensions(Language::Perl).contains(e));
    } else if e == "pm"@ {
        assert(spec_extensions(Language::Perl)[1] == e);
        assert(spec_extensions(Language::Perl).contains(e));
    } else if e == "t"@ {
        assert(spec_extensions(Language::Perl)[2] == e);
        assert(spec_extensions(Language::Perl).contains(e));
    } else if e == "pod"@ {
        assert(spec_extensions(Language::Perl)[3] == e);
        assert(spec_extensions(Language::Perl).contains(e));
    } else if e == "py"@ {
        assert(spec_extensions(Language::Python)[0] == e);
        assert(spec_extensions(Language::Python).contains(e));
    } else if e == "pyi"@ {
        assert(spec_extensions(Language::Python)[1] == e);
        assert(spec_extensions(Language::Python).contains(e));
    } else if e == "pyc"@ {
        assert(spec_extensions(Language::Python)[2] == e);
        assert(spec_extensions(Language::Python).contains(e));
    } else if e == "pyw"@ {
        assert(spec_extensions(Language::Python)[3] == e);
        assert(spec_extensions(Language::Python).contains(e));
    } else if e == "pyx"@ {
        assert(spec_extensions(Language::Python)[4] == e);
        assert(spec_extensions(Language::Python).contains(e));
    } else if e == "r"@ {
        assert(spec_extensions(Language::R)[0] == e);
        assert(spec_extensions(Language::R).contains(e));
    } else if e == "R"@ {
        assert(spec_extensions(Language::R)[1] == e);
        assert(spec_extensions(Language::R).contains(e));
    } else if e == "Rmd"@ {
        assert(spec_extensions(Language::R)[2] == e);
        assert(spec_extensions(Language::R).contains(e));
    } else if e == "rb"@ {
        assert(spec_extensions(Language::Ruby)[0] == e);
        assert(spec_extensions(Language::Ruby).contains(e));
    } else if e == "rake"@ {
        assert(spec_extensions(Language::Ruby)[1] == e);
        assert(spec_extensions(Language::Ruby).contains(e));
    } else if e == "gemspec"@ {
        assert(spec_extensions(Language::Ruby)[2] == e);
        assert(spec_extensions(Language::Ruby).contains(e));
    } else if e == "rs"@ {
        assert(spec_extensions(Language::Rust)[0] == e);
        assert(spec_extensions(Language::Rust).contains(e));
    } else if e == "scala"@ {
        assert(spec_extensions(Language::Scala)[0] == e);
        assert(spec_extensions(Language::Scala).contains(e));
    } else if e == "sc"@ {
        assert(spec_extensions(Language::Scala)[1] == e);
        assert(spec_extensions(Language::Scala).contains(e));
    } else if e == "sh"@ {
        assert(spec_extensions(Language::Shell)[0] == e);
        assert(spec_extensions(Language::Shell).contains(e));
    } else if e == "bash"@ {
        assert(spec_extensions(Language::Shell)[1] == e);
        assert(spec_extensions(Language::Shell).contains(e));
    } else if e == "swift"@ {
        assert(spec_extensions(Language::Swift)[0] == e);
        assert(spec_extensions(Language::Swift).contains(e));
    } else if e == "ts"@ {
        assert(spec_extensions(Language::TypeScript)[0] == e);
        assert(spec_extensions(Language::TypeScript).contains(e));
    } else if e == "tsx"@ {
        assert(spec_extensions(Language::TypeScript)[1] == e);
        assert(spec_extensions(Language::TypeScript).contains(e));
    } else if e == "zig"@ {
        assert(spec_extensions(Language::Zig)[0] == e);
        assert(spec_extensions(Language::Zig).contains(e));
    }
}

/// The enumeration is complete: every language occurs in `spec_all`.
pub proof fn lemma_all_complete(l: Language)
    ensures
        spec_all().contains(l),
{
    match l {
        Language::C => {
            assert(spec_all()[0] == l);
        },
        Language::CSharp => {
            assert(spec_all()[1] == l);
        },
        Language::Cpp => {
            assert(spec_all()[2] == l);
        },
        Language::Clojure => {
            assert(spec_all()[3] == l);
        },
        Language::Dart => {
            assert(spec_all()[4] == l);
        },
        Language::Elixir => {
            assert(spec_all()[5] == l);
        },
        Language::Erlang => {
            assert(spec_all()[6] == l);
        },
        Language::Go => {
            assert(spec_all()[7] == l);
        },
        Language::Html => {
            assert(spec_all()[8] == l);
        },
        Language::Haskell => {
            assert(spec_all()[9] == l);
        },
        Language::Java => {
            assert(spec_all()[10] == l);
        },
        Language::JavaScript => {
            assert(spec_all()[11] == l);
        },
        Language::Julia => {
            assert(spec_all()[12] == l);
        },
        Language::Kotlin => {
            assert(spec_all()[13] == l);
        },
        Language::Lua => {
            assert(spec_all()[14] == l);
        },
        Language::OCaml => {
            assert(spec_all()[15] == l);
        },
        Language::Php => {
            assert(spec_all()[16] == l);
        },
        Language::Perl => {
            assert(spec_all()[17] == l);
        },
        Language::Python => {
            assert(spec_all()[18] == l);
        },
        Language::R => {
            assert(spec_all()[19] == l);
        },
        Language::Ruby => {
            assert(spec_all()[20] == l);
        },
        Language::Rust => {
            assert(spec_all()[21] == l);
        },
        Language::Scala => {
            assert(spec_all()[22] == l);
        },
        Language::Shell => {
            assert(spec_all()[23] == l);
        },
        Language::Swift => {
            assert(spec_all()[24] == l);
        },
        Language::TypeScript => {
            assert(spec_all()[25] == l);
        },
        Language::Zig => {
            assert(spec_all()[26] == l);
        },
    }
}


} // verus!
