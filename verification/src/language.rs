//! The language tags that the service recognizes and the launch profile of
//! each.

use vstd::prelude::*;
use vstd::string::*;
use crate::text::{push_text, str_eq, texts};

verus! {

/// A recognized language, or `Unspecified` for every other tag.
#[derive(Clone, Copy, Debug, PartialEq, Eq, Structural)]
pub enum Language {
    Unspecified,
    Python,
    Javascript,
    Typescript,
    Rust,
    Go,
    Java,
    Cpp,
    Csharp,
    Ruby,
    Php,
    Shell,
}

/// The language that a tag names.
pub open spec fn language_of(tag: Seq<char>) -> Language {
    if tag == "python"@ {
        Language::Python
    } else if tag == "javascript"@ {
        Language::Javascript
    } else if tag == "typescript"@ {
        Language::Typescript
    } else if tag == "rust"@ {
        Language::Rust
    } else if tag == "go"@ {
        Language::Go
    } else if tag == "java"@ {
        Language::Java
    } else if tag == "cpp"@ {
        Language::Cpp
    } else if tag == "csharp"@ {
        Language::Csharp
    } else if tag == "ruby"@ {
        Language::Ruby
    } else if tag == "php"@ {
        Language::Php
    } else if tag == "shell"@ {
        Language::Shell
    } else {
        Language::Unspecified
    }
}

impl Language {
    /// The tag of a language; `unknown` for `Unspecified`.
    pub open spec fn tag(self) -> Seq<char> {
        match self {
            Language::Unspecified => "unknown"@,
            Language::Python => "python"@,
            Language::Javascript => "javascript"@,
            Language::Typescript => "typescript"@,
            Language::Rust => "rust"@,
            Language::Go => "go"@,
            Language::Java => "java"@,
            Language::Cpp => "cpp"@,
            Language::Csharp => "csharp"@,
            Language::Ruby => "ruby"@,
            Language::Php => "php"@,
            Language::Shell => "shell"@,
        }
    }

    /// The container image in which code of a language runs.
    pub open spec fn image(self) -> Seq<char> {
        match self {
            Language::Python => "python:3.11-slim"@,
            Language::Javascript => "node:20-slim"@,
            Language::Typescript => "node:20-slim"@,
            Language::Rust => "rust:1.75-slim"@,
            Language::Go => "golang:1.21-alpine"@,
            Language::Java => "openjdk:17-slim"@,
            Language::Ruby => "ruby:3.2-slim"@,
            Language::Php => "php:8.2-cli"@,
            _ => "ubuntu:22.04"@,
        }
    }

    /// The name of the file that the code is written to.
    pub open spec fn source_filename(self) -> Seq<char> {
        match self {
            Language::Python => "main.py"@,
            Language::Javascript => "main.js"@,
            Language::Typescript => "main.ts"@,
            Language::Rust => "main.rs"@,
            Language::Go => "main.go"@,
            Language::Java => "Main.java"@,
            Language::Ruby => "main.rb"@,
            Language::Php => "main.php"@,
            Language::Shell => "main.sh"@,
            _ => "main.txt"@,
        }
    }

    /// The command that runs the file, before the arguments of the request.
    pub open spec fn launch_command(self) -> Seq<Seq<char>> {
        match self {
            Language::Python => seq!["python"@, "main.py"@],
            Language::Javascript => seq!["node"@, "main.js"@],
            Language::Typescript => seq!["npx"@, "tsx"@, "main.ts"@],
            Language::Rust => seq!["cargo"@, "run"@],
            Language::Go => seq!["go"@, "run"@, "main.go"@],
            Language::Java => seq!["java"@, "Main.java"@],
            Language::Ruby => seq!["ruby"@, "main.rb"@],
            Language::Php => seq!["php"@, "main.php"@],
            Language::Shell => seq!["sh"@, "main.sh"@],
            _ => seq!["sh"@, "-c"@],
        }
    }

    /// Reads a tag.
    pub fn from_tag(tag: &str) -> (language: Language)
        ensures
            language == language_of(tag@),
    {
        if str_eq(tag, "python") {
            Language::Python
        } else if str_eq(tag, "javascript") {
            Language::Javascript
        } else if str_eq(tag, "typescript") {
            Language::Typescript
        } else if str_eq(tag, "rust") {
            Language::Rust
        } else if str_eq(tag, "go") {
            Language::Go
        } else if str_eq(tag, "java") {
            Language::Java
        } else if str_eq(tag, "cpp") {
            Language::Cpp
        } else if str_eq(tag, "csharp") {
            Language::Csharp
        } else if str_eq(tag, "ruby") {
            Language::Ruby
        } else if str_eq(tag, "php") {
            Language::Php
        } else if str_eq(tag, "shell") {
            Language::Shell
        } else {
            Language::Unspecified
        }
    }

    /// The tag of the language.
    pub fn tag_name(&self) -> (name: &'static str)
        ensures
            name@ == self.tag(),
    {
        match self {
            Language::Unspecified => "unknown",
            Language::Python => "python",
            Language::Javascript => "javascript",
            Language::Typescript => "typescript",
            Language::Rust => "rust",
            Language::Go => "go",
            Language::Java => "java",
            Language::Cpp => "cpp",
            Language::Csharp => "csharp",
            Language::Ruby => "ruby",
            Language::Php => "php",
            Language::Shell => "shell",
        }
    }

    /// The container image in which code of the language runs.
    pub fn image_name(&self) -> (name: &'static str)
        ensures
            name@ == self.image(),
    {
        match self {
            Language::Python => "python:3.11-slim",
            Language::Javascript => "node:20-slim",
            Language::Typescript => "node:20-slim",
            Language::Rust => "rust:1.75-slim",
            Language::Go => "golang:1.21-alpine",
            Language::Java => "openjdk:17-slim",
            Language::Ruby => "ruby:3.2-slim",
            Language::Php => "php:8.2-cli",
            _ => "ubuntu:22.04",
        }
    }

    /// The name of the file that the code is written to.
    pub fn filename(&self) -> (name: &'static str)
        ensures
            name@ == self.source_filename(),
    {
        match self {
            Language::Python => "main.py",
            Language::Javascript => "main.js",
            Language::Typescript => "main.ts",
            Language::Rust => "main.rs",
            Language::Go => "main.go",
            Language::Java => "Main.java",
            Language::Ruby => "main.rb",
            Language::Php => "main.php",
            Language::Shell => "main.sh",
            _ => "main.txt",
        }
    }

    /// The command that runs the file.
    pub fn command(&self) -> (words: Vec<String>)
        ensures
            texts(words@) == self.launch_command(),
    {
        let mut words: Vec<String> = Vec::new();
        match self {
            Language::Python => {
                push_text(&mut words, "python");
                push_text(&mut words, "main.py");
            },
            Language::Javascript => {
                push_text(&mut words, "node");
                push_text(&mut words, "main.js");
            },
            Language::Typescript => {
                push_text(&mut words, "npx");
                push_text(&mut words, "tsx");
                push_text(&mut words, "main.ts");
            },
            Language::Rust => {
                push_text(&mut words, "cargo");
                push_text(&mut words, "run");
            },
            Language::Go => {
                push_text(&mut words, "go");
                push_text(&mut words, "run");
                push_text(&mut words, "main.go");
            },
            Language::Java => {
                push_text(&mut words, "java");
                push_text(&mut words, "Main.java");
            },
            Language::Ruby => {
                push_text(&mut words, "ruby");
                push_text(&mut words, "main.rb");
            },
            Language::Php => {
                push_text(&mut words, "php");
                push_text(&mut words, "main.php");
            },
            Language::Shell => {
                push_text(&mut words, "sh");
                push_text(&mut words, "main.sh");
            },
            _ => {
                push_text(&mut words, "sh");
                push_text(&mut words, "-c");
            },
        }
        words
    }
}

/// Reading the tag of a recognized language gives that language back; the
/// tag of `Unspecified` is no recognized tag.
pub proof fn lemma_tag_round_trip(language: Language)
    ensures
        language_of(language.tag()) == language,
{
    reveal_strlit("unknown");
    reveal_strlit("python");
    reveal_strlit("javascript");
    reveal_strlit("typescript");
    reveal_strlit("rust");
    reveal_strlit("go");
    reveal_strlit("java");
    reveal_strlit("cpp");
    reveal_strlit("csharp");
    reveal_strlit("ruby");
    reveal_strlit("php");
    reveal_strlit("shell");
    assert("javascript"@.len() == 10 && "typescript"@.len() == 10 && "javascript"@[0] == 'j'
        && "typescript"@[0] == 't');
    assert("rust"@.len() == 4 && "java"@.len() == 4 && "ruby"@.len() == 4 && "rust"@[2] == 's'
        && "java"@[2] == 'v' && "ruby"@[2] == 'b');
    assert("go"@.len() == 2 && "cpp"@.len() == 3 && "php"@.len() == 3 && "cpp"@[0] == 'c'
        && "php"@[0] == 'p');
    assert("csharp"@.len() == 6 && "python"@.len() == 6 && "csharp"@[0] == 'c');
    assert("shell"@.len() == 5 && "unknown"@.len() == 7);
}

} // verus!
