use vstd::prelude::*;

verus! {

/// Every language or file kind that a path can be classified as.
#[derive(Debug, Clone, Copy, PartialEq, Eq, Structural)]
pub enum Language {
    Assembly,
    Bash,
    Batch,
    C,
    Cargo,
    Cargolock,
    CMake,
    CPP,
    CSS,
    DockerCompose,
    Dockerfile,
    DockerIgnore,
    Elixir,
    Elm,
    Env,
    Erlang,
    GitIgnore,
    Go,
    H,
    Haskell,
    HPP,
    HTML,
    Java,
    JavaScript,
    Json,
    Jupyter,
    Kotlin,
    Lisp,
    Lua,
    Makefile,
    Markdown,
    Nix,
    OCaml,
    Perl,
    PHP,
    PowerShell,
    Python,
    R,
    Racket,
    ReadMe,
    Ruby,
    Rust,
    Shell,
    SQL,
    Svelte,
    SVG,
    Swift,
    Text,
    Toml,
    Typescript,
    Vue,
    XAML,
    XML,
    Yaml,
    Zig,
    Zsh,
    Unknown,
}

/// The display string reported for each language. Related languages may
/// share one (all shell dialects report "bash").
pub open spec fn canonical_extension(l: Language) -> Seq<char> {
    match l {
        Language::Assembly => "asm"@,
        Language::Shell | Language::Zsh | Language::Bash => "bash"@,
        Language::Batch => "bat"@,
        Language::H | Language::C => "c"@,
        Language::Cargolock => "lock"@,
        Language::CMake => "cmake"@,
        Language::HPP | Language::CPP => "cpp"@,
        Language::CSS => "css"@,
        Language::DockerCompose => "yaml"@,
        Language::Dockerfile | Language::DockerIgnore => "dockerfile"@,
        Language::Elixir => "elixir"@,
        Language::Elm => "elm"@,
        Language::Env => "dotenv"@,
        Language::Erlang => "erlang"@,
        Language::GitIgnore => "git"@,
        Language::Go => "go"@,
        Language::Haskell => "haskell"@,
        Language::HTML => "html"@,
        Language::Java => "java"@,
        Language::JavaScript => "javascript"@,
        Language::Json => "json"@,
        Language::Jupyter => "jupyter"@,
        Language::Kotlin => "kotlin"@,
        Language::Lisp => "lisp"@,
        Language::Lua => "lua"@,
        Language::Makefile => "makefile"@,
        Language::Markdown | Language::ReadMe => "markdown"@,
        Language::Nix => "nix"@,
        Language::OCaml => "ocaml"@,
        Language::Perl => "perl"@,
        Language::PHP => "php"@,
        Language::PowerShell => "powershell"@,
        Language::Python => "python"@,
        Language::R => "r"@,
        Language::Racket => "racket"@,
        Language::Ruby => "ruby"@,
        Language::Rust => "rust"@,
        Language::SQL => "sql"@,
        Language::Svelte => "svelte"@,
        Language::SVG => "svg"@,
        Language::Swift => "swift"@,
        Language::Text => "txt"@,
        Language::Cargo | Language::Toml => "toml"@,
        Language::Typescript => "typescript"@,
        Language::Vue => "vue"@,
        Language::XAML | Language::XML => "xml"@,
        Language::Yaml => "yaml"@,
        Language::Zig => "zig"@,
        Language::Unknown => "unknown"@,
    }
}

impl Language {
    /// The canonical display string of this language.
    pub fn extension_as_str(&self) -> (r: &'static str)
        ensures
            r@ == canonical_extension(*self),
    {
        match self {
            Language::Assembly => "asm",
            Language::Shell | Language::Zsh | Language::Bash => "bash",
            Language::Batch => "bat",
            Language::H | Language::C => "c",
            Language::Cargolock => "lock",
            Language::CMake => "cmake",
            Language::HPP | Language::CPP => "cpp",
            Language::CSS => "css",
            Language::DockerCompose => "yaml",
            Language::Dockerfile | Language::DockerIgnore => "dockerfile",
            Language::Elixir => "elixir",
            Language::Elm => "elm",
            Language::Env => "dotenv",
            Language::Erlang => "erlang",
            Language::GitIgnore => "git",
            Language::Go => "go",
            Language::Haskell => "haskell",
            Language::HTML => "html",
            Language::Java => "java",
            Language::JavaScript => "javascript",
            Language::Json => "json",
            Language::Jupyter => "jupyter",
            Language::Kotlin => "kotlin",
            Language::Lisp => "lisp",
            Language::Lua => "lua",
            Language::Makefile => "makefile",
            Language::Markdown | Language::ReadMe => "markdown",
            Language::Nix => "nix",
            Language::OCaml => "ocaml",
            Language::Perl => "perl",
            Language::PHP => "php",
            Language::PowerShell => "powershell",
            Language::Python => "python",
            Language::R => "r",
            Language::Racket => "racket",
            Language::Ruby => "ruby",
            Language::Rust => "rust",
            Language::SQL => "sql",
            Language::Svelte => "svelte",
            Language::SVG => "svg",
            Language::Swift => "swift",
            Language::Text => "txt",
            Language::Cargo | Language::Toml => "toml",
            Language::Typescript => "typescript",
            Language::Vue => "vue",
            Language::XAML | Language::XML => "xml",
            Language::Yaml => "yaml",
            Language::Zig => "zig",
            Language::Unknown => "unknown",
        }
    }
}

/// The canonical display string is a function of the language alone: two
/// calls on the same language report the same string.
pub proof fn lemma_canonical_extension_deterministic(a: Language, b: Language)
    requires
        a == b,
    ensures
        canonical_extension(a) == canonical_extension(b),
{
}

} // verus!
