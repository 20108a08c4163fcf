use lang_classify::classify::{
    classify, extension_filename, extension_label_of, reserved_filename, reserved_label_of,
};
use lang_classify::language::Language;
use lang_classify::path::{extension, file_name};

#[test]
fn cargo_manifest_is_reserved_in_any_case() {
    assert_eq!(classify("Cargo.toml"), Language::Cargo);
    assert_eq!(classify("cargo.TOML"), Language::Cargo);
    assert_eq!(classify("project/CARGO.toml"), Language::Cargo);
}

#[test]
fn dockerfile_names() {
    assert_eq!(classify("Dockerfile"), Language::Dockerfile);
    assert_eq!(classify("Dockerfile.dockerignore"), Language::Unknown);
    assert_eq!(classify(".dockerignore"), Language::DockerIgnore);
    assert_eq!(classify(".gitignore"), Language::GitIgnore);
}

#[test]
fn rust_extension_in_any_case() {
    assert_eq!(classify("main.rs"), Language::Rust);
    assert_eq!(classify("main.RS"), Language::Rust);
    assert_eq!(classify("src/bin/main.rs"), Language::Rust);
}

#[test]
fn only_final_suffix_is_extension() {
    assert_eq!(extension("archive.tar.gz"), Some("gz"));
    assert_eq!(classify("archive.tar.gz"), Language::Unknown);
    assert_eq!(classify("notes.tar.md"), Language::Markdown);
}

#[test]
fn name_without_extension_is_unknown() {
    assert_eq!(classify("noextension"), Language::Unknown);
    assert_eq!(extension("noextension"), None);
}

#[test]
fn no_file_name_is_unknown() {
    assert_eq!(classify(""), Language::Unknown);
    assert_eq!(classify("/"), Language::Unknown);
    assert_eq!(classify("."), Language::Unknown);
    assert_eq!(classify("src/.."), Language::Unknown);
    assert_eq!(file_name(""), None);
    assert_eq!(file_name("/"), None);
    assert_eq!(file_name("a/.."), None);
}

#[test]
fn reserved_match_is_exact_not_prefix() {
    assert_eq!(classify("makefile.py"), Language::Python);
    assert_eq!(classify("Makefile"), Language::Makefile);
    assert_eq!(classify("readme.md.bak"), Language::Unknown);
}

#[test]
fn reserved_name_beats_extension() {
    assert_eq!(classify("README.md"), Language::ReadMe);
    assert_eq!(classify("docker-compose.yml"), Language::DockerCompose);
    assert_eq!(classify("CMakeLists.txt"), Language::CMake);
    assert_eq!(classify("Cargo.lock"), Language::Cargolock);
}

#[test]
fn file_name_skips_separators_and_current_dir() {
    assert_eq!(file_name("a/b.rs"), Some("b.rs"));
    assert_eq!(file_name("a/b.rs/"), Some("b.rs"));
    assert_eq!(file_name("a/b.rs/."), Some("b.rs"));
    assert_eq!(file_name("./lib.rs"), Some("lib.rs"));
    assert_eq!(file_name("..."), Some("..."));
    assert_eq!(classify("src/main.rs/"), Language::Rust);
}

#[test]
fn extension_rules() {
    assert_eq!(extension(".gitignore"), None);
    assert_eq!(extension(".config.yml"), Some("yml"));
    assert_eq!(extension("trailing."), Some(""));
    assert_eq!(classify("trailing."), Language::Unknown);
    assert_eq!(classify(".config.yml"), Language::Yaml);
}

#[test]
fn extension_table_entries() {
    let cases = [
        ("asm", Language::Assembly),
        ("bash", Language::Bash),
        ("bat", Language::Batch),
        ("cmd", Language::Batch),
        ("c", Language::C),
        ("c++", Language::CPP),
        ("cpp", Language::CPP),
        ("cxx", Language::CPP),
        ("css", Language::CSS),
        ("ex", Language::Elixir),
        ("elm", Language::Elm),
        ("env", Language::Env),
        ("erl", Language::Erlang),
        ("go", Language::Go),
        ("h", Language::H),
        ("hs", Language::Haskell),
        ("hpp", Language::HPP),
        ("html", Language::HTML),
        ("java", Language::Java),
        ("js", Language::JavaScript),
        ("json", Language::Json),
        ("ipynb", Language::Jupyter),
        ("kt", Language::Kotlin),
        ("lisp", Language::Lisp),
        ("lua", Language::Lua),
        ("nix", Language::Nix),
        ("md", Language::Markdown),
        ("ml", Language::OCaml),
        ("perl", Language::Perl),
        ("php", Language::PHP),
        ("ps1", Language::PowerShell),
        ("py", Language::Python),
        ("r", Language::R),
        ("rkt", Language::Racket),
        ("rb", Language::Ruby),
        ("rs", Language::Rust),
        ("sh", Language::Shell),
        ("sql", Language::SQL),
        ("svelte", Language::Svelte),
        ("svg", Language::SVG),
        ("swift", Language::Swift),
        ("txt", Language::Text),
        ("toml", Language::Toml),
        ("ts", Language::Typescript),
        ("vue", Language::Vue),
        ("xaml", Language::XAML),
        ("xml", Language::XML),
        ("yaml", Language::Yaml),
        ("yml", Language::Yaml),
        ("zig", Language::Zig),
        ("zsh", Language::Zsh),
    ];
    for (ext, lang) in cases {
        assert_eq!(extension_label_of(ext), lang);
        assert_eq!(extension_filename(&ext.to_uppercase()), lang);
        assert_eq!(classify(&format!("dir/file.{}", ext)), lang);
    }
    assert_eq!(extension_label_of("gz"), Language::Unknown);
    assert_eq!(extension_label_of("RS"), Language::Unknown);
}

#[test]
fn lowercase_is_applied_before_lookup() {
    assert_eq!(reserved_label_of("Cargo.toml"), Language::Unknown);
    assert_eq!(reserved_filename("Cargo.toml"), Language::Cargo);
    assert_eq!(reserved_filename("MAKEFILE"), Language::Makefile);
    assert_eq!(extension_filename("Py"), Language::Python);
    assert_eq!(reserved_filename("main.rs"), Language::Unknown);
}

#[test]
fn non_ascii_names_are_unknown_or_by_extension() {
    assert_eq!(classify("données/été.rs"), Language::Rust);
    assert_eq!(classify("日本語"), Language::Unknown);
}
