//! Classification of a path: a reserved file name decides first, then the
//! extension, and anything else is `Language::Unknown`.
use crate::language::Language;
use crate::path::{extension, extension_of, file_name, file_name_of};
use vstd::prelude::*;
use vstd::string::StrSliceExecFns;

verus! {

/// The lowercase form of a text, as `str::to_lowercase` computes it.
pub uninterp spec fn lower_of(s: Seq<char>) -> Seq<char>;

/// Relies on `str::to_lowercase`: its result depends on the characters of
/// the input alone.
#[verifier::external_body]
fn lowercase(s: &str) -> (r: String)
    ensures
        r@ == lower_of(s@),
{
    s.to_lowercase()
}

/// The language that a lowercase file name is reserved for, or `Unknown`.
pub open spec fn reserved_label(name: Seq<char>) -> Language {
    if name == "cargo.toml"@ {
        Language::Cargo
    } else if name == "cargo.lock"@ {
        Language::Cargolock
    } else if name == "cmakelists.txt"@ {
        Language::CMake
    } else if name == "docker-compose.yml"@ {
        Language::DockerCompose
    } else if name == "dockerfile"@ {
        Language::Dockerfile
    } else if name == ".dockerignore"@ {
        Language::DockerIgnore
    } else if name == ".gitignore"@ {
        Language::GitIgnore
    } else if name == "makefile"@ {
        Language::Makefile
    } else if name == "readme.md"@ {
        Language::ReadMe
    } else {
        Language::Unknown
    }
}

/// The language that a lowercase extension stands for, or `Unknown`.
pub open spec fn extension_label(ext: Seq<char>) -> Language {
    if ext == "asm"@ {
        Language::Assembly
    } else if ext == "bash"@ {
        Language::Bash
    } else if ext == "bat"@ {
        Language::Batch
    } else if ext == "cmd"@ {
        Language::Batch
    } else if ext == "c"@ {
        Language::C
    } else if ext == "c++"@ {
        Language::CPP
    } else if ext == "cpp"@ {
        Language::CPP
    } else if ext == "cxx"@ {
        Language::CPP
    } else if ext == "css"@ {
        Language::CSS
    } else if ext == "ex"@ {
        Language::Elixir
    } else if ext == "elm"@ {
        Language::Elm
    } else if ext == "env"@ {
        Language::Env
    } else if ext == "erl"@ {
        Language::Erlang
    } else if ext == "go"@ {
        Language::Go
    } else if ext == "h"@ {
        Language::H
    } else if ext == "hs"@ {
        Language::Haskell
    } else if ext == "hpp"@ {
        Language::HPP
    } else if ext == "html"@ {
        Language::HTML
    } else if ext == "java"@ {
        Language::Java
    } else if ext == "js"@ {
        Language::JavaScript
    } else if ext == "json"@ {
        Language::Json
    } else if ext == "ipynb"@ {
        Language::Jupyter
    } else if ext == "kt"@ {
        Language::Kotlin
    } else if ext == "lisp"@ {
        Language::Lisp
    } else if ext == "lua"@ {
        Language::Lua
    } else if ext == "nix"@ {
        Language::Nix
    } else if ext == "md"@ {
        Language::Markdown
    } else if ext == "ml"@ {
        Language::OCaml
    } else if ext == "perl"@ {
        Language::Perl
    } else if ext == "php"@ {
        Language::PHP
    } else if ext == "ps1"@ {
        Language::PowerShell
    } else if ext == "py"@ {
        Language::Python
    } else if ext == "r"@ {
        Language::R
    } else if ext == "rkt"@ {
        Language::Racket
    } else if ext == "rb"@ {
        Language::Ruby
    } else if ext == "rs"@ {
        Language::Rust
    } else if ext == "sh"@ {
        Language::Shell
    } else if ext == "sql"@ {
        Language::SQL
    } else if ext == "svelte"@ {
        Language::Svelte
    } else if ext == "svg"@ {
        Language::SVG
    } else if ext == "swift"@ {
        Language::Swift
    } else if ext == "txt"@ {
        Language::Text
    } else if ext == "toml"@ {
        Language::Toml
    } else if ext == "ts"@ {
        Language::Typescript
    } else if ext == "vue"@ {
        Language::Vue
    } else if ext == "xaml"@ {
        Language::XAML
    } else if ext == "xml"@ {
        Language::XML
    } else if ext == "yaml"@ {
        Language::Yaml
    } else if ext == "yml"@ {
        Language::Yaml
    } else if ext == "zig"@ {
        Language::Zig
    } else if ext == "zsh"@ {
        Language::Zsh
    } else {
        Language::Unknown
    }
}

/// The classification of a path: a reserved file name, compared without
/// regard to case, decides first; otherwise the extension, compared the
/// same way; a path without a file name, or without a known one, is
/// `Unknown`.
pub open spec fn classify_spec(p: Seq<char>) -> Language {
    match file_name_of(p) {
        None => Language::Unknown,
        Some(name) => {
            let by_name = reserved_label(lower_of(name));
            if by_name != Language::Unknown {
                by_name
            } else {
                match extension_of(name) {
                    None => Language::Unknown,
                    Some(ext) => extension_label(lower_of(ext)),
                }
            }
        },
    }
}

/// Whether two texts hold the same characters.
fn same_text(a: &str, b: &str) -> (r: bool)
    ensures
        r == (a@ == b@),
{
    let n: usize = a.unicode_len();
    if n != b.unicode_len() {
        return false;
    }
    let mut i: usize = 0;
    while i < n
        invariant
            i <= n == a@.len() == b@.len(),
            forall|k: int| 0 <= k < i ==> a@[k] == b@[k],
        decreases n - i,
    {
        if a.get_char(i) != b.get_char(i) {
            return false;
        }
        i = i + 1;
    }
    assert(a@ =~= b@);
    true
}

/// The language that an already lowercase file name is reserved for.
pub fn reserved_label_of(name: &str) -> (r: Language)
    ensures
        r == reserved_label(name@),
{
    if same_text(name, "cargo.toml") {
        Language::Cargo
    } else if same_text(name, "cargo.lock") {
        Language::Cargolock
    } else if same_text(name, "cmakelists.txt") {
        Language::CMake
    } else if same_text(name, "docker-compose.yml") {
        Language::DockerCompose
    } else if same_text(name, "dockerfile") {
        Language::Dockerfile
    } else if same_text(name, ".dockerignore") {
        Language::DockerIgnore
    } else if same_text(name, ".gitignore") {
        Language::GitIgnore
    } else if same_text(name, "makefile") {
        Language::Makefile
    } else if same_text(name, "readme.md") {
        Language::ReadMe
    } else {
        Language::Unknown
    }
}

/// The language that an already lowercase extension stands for.
pub fn extension_label_of(ext: &str) -> (r: Language)
    ensures
        r == extension_label(ext@),
{
    if same_text(ext, "asm") {
        Language::Assembly
    } else if same_text(ext, "bash") {
        Language::Bash
    } else if same_text(ext, "bat") {
        Language::Batch
    } else if same_text(ext, "cmd") {
        Language::Batch
    } else if same_text(ext, "c") {
        Language::C
    } else if same_text(ext, "c++") {
        Language::CPP
    } else if same_text(ext, "cpp") {
        Language::CPP
    } else if same_text(ext, "cxx") {
        Language::CPP
    } else if same_text(ext, "css") {
        Language::CSS
    } else if same_text(ext, "ex") {
        Language::Elixir
    } else if same_text(ext, "elm") {
        Language::Elm
    } else if same_text(ext, "env") {
        Language::Env
    } else if same_text(ext, "erl") {
        Language::Erlang
    } else if same_text(ext, "go") {
        Language::Go
    } else if same_text(ext, "h") {
        Language::H
    } else if same_text(ext, "hs") {
        Language::Haskell
    } else if same_text(ext, "hpp") {
        Language::HPP
    } else if same_text(ext, "html") {
        Language::HTML
    } else if same_text(ext, "java") {
        Language::Java
    } else if same_text(ext, "js") {
        Language::JavaScript
    } else if same_text(ext, "json") {
        Language::Json
    } else if same_text(ext, "ipynb") {
        Language::Jupyter
    } else if same_text(ext, "kt") {
        Language::Kotlin
    } else if same_text(ext, "lisp") {
        Language::Lisp
    } else if same_text(ext, "lua") {
        Language::Lua
    } else if same_text(ext, "nix") {
        Language::Nix
    } else if same_text(ext, "md") {
        Language::Markdown
    } else if same_text(ext, "ml") {
        Language::OCaml
    } else if same_text(ext, "perl") {
        Language::Perl
    } else if same_text(ext, "php") {
        Language::PHP
    } else if same_text(ext, "ps1") {
        Language::PowerShell
    } else if same_text(ext, "py") {
        Language::Python
    } else if same_text(ext, "r") {
        Language::R
    } else if same_text(ext, "rkt") {
        Language::Racket
    } else if same_text(ext, "rb") {
        Language::Ruby
    } else if same_text(ext, "rs") {
        Language::Rust
    } else if same_text(ext, "sh") {
        Language::Shell
    } else if same_text(ext, "sql") {
        Language::SQL
    } else if same_text(ext, "svelte") {
        Language::Svelte
    } else if same_text(ext, "svg") {
        Language::SVG
    } else if same_text(ext, "swift") {
        Language::Swift
    } else if same_text(ext, "txt") {
        Language::Text
    } else if same_text(ext, "toml") {
        Language::Toml
    } else if same_text(ext, "ts") {
        Language::Typescript
    } else if same_text(ext, "vue") {
        Language::Vue
    } else if same_text(ext, "xaml") {
        Language::XAML
    } else if same_text(ext, "xml") {
        Language::XML
    } else if same_text(ext, "yaml") {
        Language::Yaml
    } else if same_text(ext, "yml") {
        Language::Yaml
    } else if same_text(ext, "zig") {
        Language::Zig
    } else if same_text(ext, "zsh") {
        Language::Zsh
    } else {
        Language::Unknown
    }
}

/// The language that a file name is reserved for, compared without regard
/// to case, or `Unknown`.
pub fn reserved_filename(filename: &str) -> (r: Language)
    ensures
        r == reserved_label(lower_of(filename@)),
{
    let lowered = lowercase(filename);
    reserved_label_of(lowered.as_str())
}

/// The language that an extension stands for, compared without regard to
/// case, or `Unknown`.
pub fn extension_filename(ext: &str) -> (r: Language)
    ensures
        r == extension_label(lower_of(ext@)),
{
    let lowered = lowercase(ext);
    extension_label_of(lowered.as_str())
}

/// Classifies a '/'-separated path by its file name and extension.
pub fn classify(path: &str) -> (r: Language)
    ensures
        r == classify_spec(path@),
{
    let name = match file_name(path) {
        Some(n) => n,
        None => return Language::Unknown,
    };
    let by_name = reserved_filename(name);
    if by_name != Language::Unknown {
        return by_name;
    }
    match extension(name) {
        Some(ext) => extension_filename(ext),
        None => Language::Unknown,
    }
}

/// A reserved file name decides the classification whatever its extension.
pub proof fn lemma_reserved_name_takes_precedence(p: Seq<char>, name: Seq<char>)
    requires
        file_name_of(p) == Some(name),
        reserved_label(lower_of(name)) != Language::Unknown,
    ensures
        classify_spec(p) == reserved_label(lower_of(name)),
{
}

/// A path without a file name (empty, a root, or ending in "..") is
/// `Unknown`, whatever else it holds.
pub proof fn lemma_no_file_name_is_unknown(p: Seq<char>)
    requires
        file_name_of(p) is None,
    ensures
        classify_spec(p) == Language::Unknown,
{
}

/// A file name that is not reserved and has no extension is `Unknown`.
pub proof fn lemma_plain_name_without_extension_is_unknown(p: Seq<char>, name: Seq<char>)
    requires
        file_name_of(p) == Some(name),
        reserved_label(lower_of(name)) == Language::Unknown,
        extension_of(name) is None,
    ensures
        classify_spec(p) == Language::Unknown,
{
}

/// The empty path has no file name and is `Unknown`.
pub proof fn lemma_empty_path_is_unknown()
    ensures
        file_name_of(Seq::<char>::empty()) is None,
        classify_spec(Seq::<char>::empty()) == Language::Unknown,
{
}

} // verus!
