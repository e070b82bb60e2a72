//! Repository scanning rules for target packs: which directories and files
//! are skipped, which files are markers, how languages are counted, and the
//! summary a scan produces.
use vstd::prelude::*;
use crate::text::{
    ascii_lower_chars, ascii_lower_seq, chars_of, contains_exec, contains_seq, ends_with,
    ends_with_exec, lemma_text_lt_total, lemma_text_lt_transitive, owned, seq_eq, starts_with,
    starts_with_exec, str_eq, text_less, text_lt,
};

verus! {

broadcast use vstd::string::group_string_axioms;

/// The most files one scan records.
pub const SCAN_LIMIT: usize = 5000;

/// The deepest directory level a scan enters.
pub const MAX_SCAN_DEPTH: usize = 5;

/// How many sample file paths a scan keeps.
pub const MAX_SAMPLE_FILES: usize = 80;

/// Directory names a scan never enters (besides dot-directories).
pub open spec fn ignored_dir_name(name: Seq<char>) -> bool {
    ||| name == "__pycache__"@
    ||| name == "build"@
    ||| name == "coverage"@
    ||| name == "dist"@
    ||| name == "logs"@
    ||| name == "node_modules"@
    ||| name == "out"@
    ||| name == "output"@
    ||| name == "playwright-report"@
    ||| name == "target"@
    ||| name == "tmp"@
    ||| name == "vendor"@
}

/// Whether a scan skips a directory: hidden directories other than
/// `.github`, and build, cache and dependency directories.
pub open spec fn is_ignored_dir(name: Seq<char>) -> bool {
    (name.len() > 0 && name[0] == '.' && name != ".github"@) || ignored_dir_name(name)
}

fn eq_any(s: &str, options: &Vec<&str>) -> (r: bool)
    ensures
        r == exists|k: int| 0 <= k < options@.len() && options@[k]@ == s@,
{
    let mut k: usize = 0;
    while k < options.len()
        invariant
            k <= options.len(),
            forall|m: int| 0 <= m < k ==> options@[m]@ != s@,
        decreases options.len() - k,
    {
        if str_eq(options[k], s) {
            return true;
        }
        k = k + 1;
    }
    false
}

/// Whether a scan skips directory `name`; see [`is_ignored_dir`].
pub fn is_ignored_scan_dir(name: &str) -> (r: bool)
    ensures
        r == is_ignored_dir(name@),
{
    let v = chars_of(name);
    if v.len() > 0 && v[0] == '.' && !str_eq(name, ".github") {
        return true;
    }
    let options = vec![
        "__pycache__",
        "build",
        "coverage",
        "dist",
        "logs",
        "node_modules",
        "out",
        "output",
        "playwright-report",
        "target",
        "tmp",
        "vendor",
    ];
    let r = eq_any(name, &options);
    proof {
        if ignored_dir_name(name@) {
            if name@ == "__pycache__"@ { assert(options@[0]@ == name@); }
            else if name@ == "build"@ { assert(options@[1]@ == name@); }
            else if name@ == "coverage"@ { assert(options@[2]@ == name@); }
            else if name@ == "dist"@ { assert(options@[3]@ == name@); }
            else if name@ == "logs"@ { assert(options@[4]@ == name@); }
            else if name@ == "node_modules"@ { assert(options@[5]@ == name@); }
            else if name@ == "out"@ { assert(options@[6]@ == name@); }
            else if name@ == "output"@ { assert(options@[7]@ == name@); }
            else if name@ == "playwright-report"@ { assert(options@[8]@ == name@); }
            else if name@ == "target"@ { assert(options@[9]@ == name@); }
            else if name@ == "tmp"@ { assert(options@[10]@ == name@); }
            else { assert(options@[11]@ == name@); }
        }
        if r {
            let k = choose|k: int| 0 <= k < options@.len() && options@[k]@ == name@;
            assert(0 <= k < 12);
        }
    }
    r
}

/// File names, lower-cased, that a scan never reads.
pub open spec fn sensitive_exact_name(n: Seq<char>) -> bool {
    ||| n == ".env"@
    ||| n == "token.json"@
    ||| n == "tokens.json"@
    ||| n == "credentials.json"@
    ||| n == "credentials.db"@
    ||| n == "access_tokens.db"@
}

/// Endings, lower-cased, of file names that a scan never reads.
pub open spec fn sensitive_suffix(n: Seq<char>) -> bool {
    ||| ends_with(n, ".env"@)
    ||| ends_with(n, ".env.example"@)
    ||| ends_with(n, ".env.sample"@)
    ||| ends_with(n, ".pem"@)
    ||| ends_with(n, ".key"@)
    ||| ends_with(n, ".p12"@)
    ||| ends_with(n, ".pfx"@)
    ||| ends_with(n, ".pyc"@)
    ||| ends_with(n, ".sqlite"@)
    ||| ends_with(n, ".sqlite3"@)
    ||| ends_with(n, ".db"@)
}

/// Whether a scan skips a file, judged on its lower-cased name and
/// relative path: hidden files, env files, keys and certificates, compiled
/// Python, databases, token and credential files, and anything under an
/// env, `.runtime` or `.backup` path.
pub open spec fn is_sensitive_file(name: Seq<char>, relative_path: Seq<char>) -> bool {
    let n = ascii_lower_seq(name);
    let p = ascii_lower_seq(relative_path);
    ||| starts_with(n, "."@)
    ||| starts_with(n, ".env."@)
    ||| sensitive_exact_name(n)
    ||| sensitive_suffix(n)
    ||| contains_seq(p, "/.env."@)
    ||| contains_seq(p, "/.runtime/"@)
    ||| contains_seq(p, "/.backup/"@)
}

fn lit(s: &str) -> (v: Vec<char>)
    ensures
        v@ == s@,
{
    chars_of(s)
}

/// Whether a scan skips file `name` at `relative_path`; see
/// [`is_sensitive_file`].
pub fn is_sensitive_scan_file(name: &str, relative_path: &str) -> (r: bool)
    ensures
        r == is_sensitive_file(name@, relative_path@),
{
    let n = ascii_lower_chars(&chars_of(name));
    let p = ascii_lower_chars(&chars_of(relative_path));
    let exact = starts_with_exec(&n, &lit(".")) || starts_with_exec(&n, &lit(".env."))
        || seq_eq(&n, &lit(".env")) || seq_eq(&n, &lit("token.json")) || seq_eq(
        &n,
        &lit("tokens.json"),
    ) || seq_eq(&n, &lit("credentials.json")) || seq_eq(&n, &lit("credentials.db")) || seq_eq(
        &n,
        &lit("access_tokens.db"),
    );
    let suffix = ends_with_exec(&n, &lit(".env")) || ends_with_exec(&n, &lit(".env.example"))
        || ends_with_exec(&n, &lit(".env.sample")) || ends_with_exec(&n, &lit(".pem"))
        || ends_with_exec(&n, &lit(".key")) || ends_with_exec(&n, &lit(".p12")) || ends_with_exec(
        &n,
        &lit(".pfx"),
    ) || ends_with_exec(&n, &lit(".pyc")) || ends_with_exec(&n, &lit(".sqlite"))
        || ends_with_exec(&n, &lit(".sqlite3")) || ends_with_exec(&n, &lit(".db"));
    let path = contains_exec(&p, &lit("/.env.")) || contains_exec(&p, &lit("/.runtime/"))
        || contains_exec(&p, &lit("/.backup/"));
    exact || suffix || path
}

/// The languages a scan counts.
#[derive(Debug, Clone, Copy, PartialEq, Eq, Structural)]
pub enum Language {
    Docs,
    Dotnet,
    Go,
    Jvm,
    Php,
    Python,
    Ruby,
    Rust,
    Sql,
    Swift,
    TypescriptJavascript,
}

/// The name of a language, as target packs report it. The variants are
/// declared in the order of their names.
pub open spec fn language_text(l: Language) -> Seq<char> {
    match l {
        Language::Docs => "docs"@,
        Language::Dotnet => "dotnet"@,
        Language::Go => "go"@,
        Language::Jvm => "jvm"@,
        Language::Php => "php"@,
        Language::Python => "python"@,
        Language::Ruby => "ruby"@,
        Language::Rust => "rust"@,
        Language::Sql => "sql"@,
        Language::Swift => "swift"@,
        Language::TypescriptJavascript => "typescript-javascript"@,
    }
}

/// A language's position among the counters.
pub open spec fn language_index(l: Language) -> int {
    match l {
        Language::Docs => 0,
        Language::Dotnet => 1,
        Language::Go => 2,
        Language::Jvm => 3,
        Language::Php => 4,
        Language::Python => 5,
        Language::Ruby => 6,
        Language::Rust => 7,
        Language::Sql => 8,
        Language::Swift => 9,
        Language::TypescriptJavascript => 10,
    }
}

/// The language at counter position `i`.
pub open spec fn language_at(i: int) -> Language {
    if i == 0 {
        Language::Docs
    } else if i == 1 {
        Language::Dotnet
    } else if i == 2 {
        Language::Go
    } else if i == 3 {
        Language::Jvm
    } else if i == 4 {
        Language::Php
    } else if i == 5 {
        Language::Python
    } else if i == 6 {
        Language::Ruby
    } else if i == 7 {
        Language::Rust
    } else if i == 8 {
        Language::Sql
    } else if i == 9 {
        Language::Swift
    } else {
        Language::TypescriptJavascript
    }
}

impl Language {
    pub fn as_str(&self) -> (r: &'static str)
        ensures
            r@ == language_text(*self),
    {
        match self {
            Language::Docs => "docs",
            Language::Dotnet => "dotnet",
            Language::Go => "go",
            Language::Jvm => "jvm",
            Language::Php => "php",
            Language::Python => "python",
            Language::Ruby => "ruby",
            Language::Rust => "rust",
            Language::Sql => "sql",
            Language::Swift => "swift",
            Language::TypescriptJavascript => "typescript-javascript",
        }
    }

    pub fn index(&self) -> (r: usize)
        ensures
            r as int == language_index(*self),
            language_at(r as int) == *self,
            r < 11,
    {
        match self {
            Language::Docs => 0,
            Language::Dotnet => 1,
            Language::Go => 2,
            Language::Jvm => 3,
            Language::Php => 4,
            Language::Python => 5,
            Language::Ruby => 6,
            Language::Rust => 7,
            Language::Sql => 8,
            Language::Swift => 9,
            Language::TypescriptJavascript => 10,
        }
    }

    pub fn at(i: usize) -> (l: Language)
        requires
            i < 11,
        ensures
            l == language_at(i as int),
            language_index(l) == i,
    {
        if i == 0 {
            Language::Docs
        } else if i == 1 {
            Language::Dotnet
        } else if i == 2 {
            Language::Go
        } else if i == 3 {
            Language::Jvm
        } else if i == 4 {
            Language::Php
        } else if i == 5 {
            Language::Python
        } else if i == 6 {
            Language::Ruby
        } else if i == 7 {
            Language::Rust
        } else if i == 8 {
            Language::Sql
        } else if i == 9 {
            Language::Swift
        } else {
            Language::TypescriptJavascript
        }
    }
}

/// The language of a file extension (without the dot).
pub open spec fn language_of(ext: Seq<char>) -> Option<Language> {
    if ext == "rs"@ {
        Some(Language::Rust)
    } else if ext == "py"@ {
        Some(Language::Python)
    } else if ext == "ts"@ || ext == "tsx"@ || ext == "js"@ || ext == "jsx"@ || ext == "mjs"@
        || ext == "cjs"@ {
        Some(Language::TypescriptJavascript)
    } else if ext == "go"@ {
        Some(Language::Go)
    } else if ext == "java"@ || ext == "kt"@ {
        Some(Language::Jvm)
    } else if ext == "rb"@ {
        Some(Language::Ruby)
    } else if ext == "php"@ {
        Some(Language::Php)
    } else if ext == "cs"@ {
        Some(Language::Dotnet)
    } else if ext == "swift"@ {
        Some(Language::Swift)
    } else if ext == "sql"@ {
        Some(Language::Sql)
    } else if ext == "md"@ || ext == "mdx"@ {
        Some(Language::Docs)
    } else {
        None
    }
}

/// The languages that file extensions count towards, by the names target
/// packs report: `rs` is rust; `py` python; `ts`, `tsx`, `js`, `jsx`, `mjs`
/// and `cjs` typescript-javascript; `go` go; `java` and `kt` jvm; `rb` ruby;
/// `php` php; `cs` dotnet; `swift` swift; `sql` sql; `md` and `mdx` docs.
/// Every language has an extension, and an extension names at most one
/// language.
pub proof fn law_extension_languages()
    ensures
        language_of("rs"@) matches Some(l) && language_text(l) == "rust"@,
        language_of("py"@) matches Some(l) && language_text(l) == "python"@,
        language_of("ts"@) matches Some(l) && language_text(l) == "typescript-javascript"@,
        language_of("tsx"@) matches Some(l) && language_text(l) == "typescript-javascript"@,
        language_of("js"@) matches Some(l) && language_text(l) == "typescript-javascript"@,
        language_of("jsx"@) matches Some(l) && language_text(l) == "typescript-javascript"@,
        language_of("mjs"@) matches Some(l) && language_text(l) == "typescript-javascript"@,
        language_of("cjs"@) matches Some(l) && language_text(l) == "typescript-javascript"@,
        language_of("go"@) matches Some(l) && language_text(l) == "go"@,
        language_of("java"@) matches Some(l) && language_text(l) == "jvm"@,
        language_of("kt"@) matches Some(l) && language_text(l) == "jvm"@,
        language_of("rb"@) matches Some(l) && language_text(l) == "ruby"@,
        language_of("php"@) matches Some(l) && language_text(l) == "php"@,
        language_of("cs"@) matches Some(l) && language_text(l) == "dotnet"@,
        language_of("swift"@) matches Some(l) && language_text(l) == "swift"@,
        language_of("sql"@) matches Some(l) && language_text(l) == "sql"@,
        language_of("md"@) matches Some(l) && language_text(l) == "docs"@,
        language_of("mdx"@) matches Some(l) && language_text(l) == "docs"@,
        forall|l: Language| #![trigger language_index(l)] exists|e: Seq<char>| #[trigger] language_of(e) == Some(l),
{
    assert(language_of("rs"@) == Some(Language::Rust)) by {
        reveal_strlit("rs");
    }
    assert(language_of("py"@) == Some(Language::Python)) by {
        reveal_strlit("rs");
        reveal_strlit("py");
        assert("py"@ != "rs"@) by {
            assert("py"@[0] != "rs"@[0]);
        }
    }
    assert(language_of("ts"@) == Some(Language::TypescriptJavascript)) by {
        reveal_strlit("rs");
        reveal_strlit("py");
        reveal_strlit("ts");
        assert("ts"@ != "rs"@) by {
            assert("ts"@[0] != "rs"@[0]);
        }
        assert("ts"@ != "py"@) by {
            assert("ts"@[0] != "py"@[0]);
        }
    }
    assert(language_of("tsx"@) == Some(Language::TypescriptJavascript)) by {
        reveal_strlit("rs");
        reveal_strlit("py");
        reveal_strlit("ts");
        reveal_strlit("tsx");
        assert("tsx"@ != "rs"@) by {
            assert("tsx"@.len() != "rs"@.len());
        }
        assert("tsx"@ != "py"@) by {
            assert("tsx"@.len() != "py"@.len());
        }
        assert("tsx"@ != "ts"@) by {
            assert("tsx"@.len() != "ts"@.len());
        }
    }
    assert(language_of("js"@) == Some(Language::TypescriptJavascript)) by {
        reveal_strlit("rs");
        reveal_strlit("py");
        reveal_strlit("ts");
        reveal_strlit("tsx");
        reveal_strlit("js");
        assert("js"@ != "rs"@) by {
            assert("js"@[0] != "rs"@[0]);
        }
        assert("js"@ != "py"@) by {
            assert("js"@[0] != "py"@[0]);
        }
        assert("js"@ != "ts"@) by {
            assert("js"@[0] != "ts"@[0]);
        }
        assert("js"@ != "tsx"@) by {
            assert("js"@.len() != "tsx"@.len());
        }
    }
    assert(language_of("jsx"@) == Some(Language::TypescriptJavascript)) by {
        reveal_strlit("rs");
        reveal_strlit("py");
        reveal_strlit("ts");
        reveal_strlit("tsx");
        reveal_strlit("js");
        reveal_strlit("jsx");
        assert("jsx"@ != "rs"@) by {
            assert("jsx"@.len() != "rs"@.len());
        }
        assert("jsx"@ != "py"@) by {
            assert("jsx"@.len() != "py"@.len());
        }
        assert("jsx"@ != "ts"@) by {
            assert("jsx"@.len() != "ts"@.len());
        }
        assert("jsx"@ != "tsx"@) by {
            assert("jsx"@[0] != "tsx"@[0]);
        }
        assert("jsx"@ != "js"@) by {
            assert("jsx"@.len() != "js"@.len());
        }
    }
    assert(language_of("mjs"@) == Some(Language::TypescriptJavascript)) by {
        reveal_strlit("rs");
        reveal_strlit("py");
        reveal_strlit("ts");
        reveal_strlit("tsx");
        reveal_strlit("js");
        reveal_strlit("jsx");
        reveal_strlit("mjs");
        assert("mjs"@ != "rs"@) by {
            assert("mjs"@.len() != "rs"@.len());
        }
        assert("mjs"@ != "py"@) by {
            assert("mjs"@.len() != "py"@.len());
        }
        assert("mjs"@ != "ts"@) by {
            assert("mjs"@.len() != "ts"@.len());
        }
        assert("mjs"@ != "tsx"@) by {
            assert("mjs"@[0] != "tsx"@[0]);
        }
        assert("mjs"@ != "js"@) by {
            assert("mjs"@.len() != "js"@.len());
        }
        assert("mjs"@ != "jsx"@) by {
            assert("mjs"@[0] != "jsx"@[0]);
        }
    }
    assert(language_of("cjs"@) == Some(Language::TypescriptJavascript)) by {
        reveal_strlit("rs");
        reveal_strlit("py");
        reveal_strlit("ts");
        reveal_strlit("tsx");
        reveal_strlit("js");
        reveal_strlit("jsx");
        reveal_strlit("mjs");
        reveal_strlit("cjs");
        assert("cjs"@ != "rs"@) by {
            assert("cjs"@.len() != "rs"@.len());
        }
        assert("cjs"@ != "py"@) by {
            assert("cjs"@.len() != "py"@.len());
        }
        assert("cjs"@ != "ts"@) by {
            assert("cjs"@.len() != "ts"@.len());
        }
        assert("cjs"@ != "tsx"@) by {
            assert("cjs"@[0] != "tsx"@[0]);
        }
        assert("cjs"@ != "js"@) by {
            assert("cjs"@.len() != "js"@.len());
        }
        assert("cjs"@ != "jsx"@) by {
            assert("cjs"@[0] != "jsx"@[0]);
        }
        assert("cjs"@ != "mjs"@) by {
            assert("cjs"@[0] != "mjs"@[0]);
        }
    }
    assert(language_of("go"@) == Some(Language::Go)) by {
        reveal_strlit("rs");
        reveal_strlit("py");
        reveal_strlit("ts");
        reveal_strlit("tsx");
        reveal_strlit("js");
        reveal_strlit("jsx");
        reveal_strlit("mjs");
        reveal_strlit("cjs");
        reveal_strlit("go");
        assert("go"@ != "rs"@) by {
            assert("go"@[0] != "rs"@[0]);
        }
        assert("go"@ != "py"@) by {
            assert("go"@[0] != "py"@[0]);
        }
        assert("go"@ != "ts"@) by {
            assert("go"@[0] != "ts"@[0]);
        }
        assert("go"@ != "tsx"@) by {
            assert("go"@.len() != "tsx"@.len());
        }
        assert("go"@ != "js"@) by {
            assert("go"@[0] != "js"@[0]);
        }
        assert("go"@ != "jsx"@) by {
            assert("go"@.len() != "jsx"@.len());
        }
        assert("go"@ != "mjs"@) by {
            assert("go"@.len() != "mjs"@.len());
        }
        assert("go"@ != "cjs"@) by {
            assert("go"@.len() != "cjs"@.len());
        }
    }
    assert(language_of("java"@) == Some(Language::Jvm)) by {
        reveal_strlit("rs");
        reveal_strlit("py");
        reveal_strlit("ts");
        reveal_strlit("tsx");
        reveal_strlit("js");
        reveal_strlit("jsx");
        reveal_strlit("mjs");
        reveal_strlit("cjs");
        reveal_strlit("go");
        reveal_strlit("java");
        assert("java"@ != "rs"@) by {
            assert("java"@.len() != "rs"@.len());
        }
        assert("java"@ != "py"@) by {
            assert("java"@.len() != "py"@.len());
        }
        assert("java"@ != "ts"@) by {
            assert("java"@.len() != "ts"@.len());
        }
        assert("java"@ != "tsx"@) by {
            assert("java"@.len() != "tsx"@.len());
        }
        assert("java"@ != "js"@) by {
            assert("java"@.len() != "js"@.len());
        }
        assert("java"@ != "jsx"@) by {
            assert("java"@.len() != "jsx"@.len());
        }
        assert("java"@ != "mjs"@) by {
            assert("java"@.len() != "mjs"@.len());
        }
        assert("java"@ != "cjs"@) by {
            assert("java"@.len() != "cjs"@.len());
        }
        assert("java"@ != "go"@) by {
            assert("java"@.len() != "go"@.len());
        }
    }
    assert(language_of("kt"@) == Some(Language::Jvm)) by {
        reveal_strlit("rs");
        reveal_strlit("py");
        reveal_strlit("ts");
        reveal_strlit("tsx");
        reveal_strlit("js");
        reveal_strlit("jsx");
        reveal_strlit("mjs");
        reveal_strlit("cjs");
        reveal_strlit("go");
        reveal_strlit("java");
        reveal_strlit("kt");
        assert("kt"@ != "rs"@) by {
            assert("kt"@[0] != "rs"@[0]);
        }
        assert("kt"@ != "py"@) by {
            assert("kt"@[0] != "py"@[0]);
        }
        assert("kt"@ != "ts"@) by {
            assert("kt"@[0] != "ts"@[0]);
        }
        assert("kt"@ != "tsx"@) by {
            assert("kt"@.len() != "tsx"@.len());
        }
        assert("kt"@ != "js"@) by {
            assert("kt"@[0] != "js"@[0]);
        }
        assert("kt"@ != "jsx"@) by {
            assert("kt"@.len() != "jsx"@.len());
        }
        assert("kt"@ != "mjs"@) by {
            assert("kt"@.len() != "mjs"@.len());
        }
        assert("kt"@ != "cjs"@) by {
            assert("kt"@.len() != "cjs"@.len());
        }
        assert("kt"@ != "go"@) by {
            assert("kt"@[0] != "go"@[0]);
        }
        assert("kt"@ != "java"@) by {
            assert("kt"@.len() != "java"@.len());
        }
    }
    assert(language_of("rb"@) == Some(Language::Ruby)) by {
        reveal_strlit("rs");
        reveal_strlit("py");
        reveal_strlit("ts");
        reveal_strlit("tsx");
        reveal_strlit("js");
        reveal_strlit("jsx");
        reveal_strlit("mjs");
        reveal_strlit("cjs");
        reveal_strlit("go");
        reveal_strlit("java");
        reveal_strlit("kt");
        reveal_strlit("rb");
        assert("rb"@ != "rs"@) by {
            assert("rb"@[1] != "rs"@[1]);
        }
        assert("rb"@ != "py"@) by {
            assert("rb"@[0] != "py"@[0]);
        }
        assert("rb"@ != "ts"@) by {
            assert("rb"@[0] != "ts"@[0]);
        }
        assert("rb"@ != "tsx"@) by {
            assert("rb"@.len() != "tsx"@.len());
        }
        assert("rb"@ != "js"@) by {
            assert("rb"@[0] != "js"@[0]);
        }
        assert("rb"@ != "jsx"@) by {
            assert("rb"@.len() != "jsx"@.len());
        }
        assert("rb"@ != "mjs"@) by {
            assert("rb"@.len() != "mjs"@.len());
        }
        assert("rb"@ != "cjs"@) by {
            assert("rb"@.len() != "cjs"@.len());
        }
        assert("rb"@ != "go"@) by {
            assert("rb"@[0] != "go"@[0]);
        }
        assert("rb"@ != "java"@) by {
            assert("rb"@.len() != "java"@.len());
        }
        assert("rb"@ != "kt"@) by {
            assert("rb"@[0] != "kt"@[0]);
        }
    }
    assert(language_of("php"@) == Some(Language::Php)) by {
        reveal_strlit("rs");
        reveal_strlit("py");
        reveal_strlit("ts");
        reveal_strlit("tsx");
        reveal_strlit("js");
        reveal_strlit("jsx");
        reveal_strlit("mjs");
        reveal_strlit("cjs");
        reveal_strlit("go");
        reveal_strlit("java");
        reveal_strlit("kt");
        reveal_strlit("rb");
        reveal_strlit("php");
        assert("php"@ != "rs"@) by {
            assert("php"@.len() != "rs"@.len());
        }
        assert("php"@ != "py"@) by {
            assert("php"@.len() != "py"@.len());
        }
        assert("php"@ != "ts"@) by {
            assert("php"@.len() != "ts"@.len());
        }
        assert("php"@ != "tsx"@) by {
            assert("php"@[0] != "tsx"@[0]);
        }
        assert("php"@ != "js"@) by {
            assert("php"@.len() != "js"@.len());
        }
        assert("php"@ != "jsx"@) by {
            assert("php"@[0] != "jsx"@[0]);
        }
        assert("php"@ != "mjs"@) by {
            assert("php"@[0] != "mjs"@[0]);
        }
        assert("php"@ != "cjs"@) by {
            assert("php"@[0] != "cjs"@[0]);
        }
        assert("php"@ != "go"@) by {
            assert("php"@.len() != "go"@.len());
        }
        assert("php"@ != "java"@) by {
            assert("php"@.len() != "java"@.len());
        }
        assert("php"@ != "kt"@) by {
            assert("php"@.len() != "kt"@.len());
        }
        assert("php"@ != "rb"@) by {
            assert("php"@.len() != "rb"@.len());
        }
    }
    assert(language_of("cs"@) == Some(Language::Dotnet)) by {
        reveal_strlit("rs");
        reveal_strlit("py");
        reveal_strlit("ts");
        reveal_strlit("tsx");
        reveal_strlit("js");
        reveal_strlit("jsx");
        reveal_strlit("mjs");
        reveal_strlit("cjs");
        reveal_strlit("go");
        reveal_strlit("java");
        reveal_strlit("kt");
        reveal_strlit("rb");
        reveal_strlit("php");
        reveal_strlit("cs");
        assert("cs"@ != "rs"@) by {
            assert("cs"@[0] != "rs"@[0]);
        }
        assert("cs"@ != "py"@) by {
            assert("cs"@[0] != "py"@[0]);
        }
        assert("cs"@ != "ts"@) by {
            assert("cs"@[0] != "ts"@[0]);
        }
        assert("cs"@ != "tsx"@) by {
            assert("cs"@.len() != "tsx"@.len());
        }
        assert("cs"@ != "js"@) by {
            assert("cs"@[0] != "js"@[0]);
        }
        assert("cs"@ != "jsx"@) by {
            assert("cs"@.len() != "jsx"@.len());
        }
        assert("cs"@ != "mjs"@) by {
            assert("cs"@.len() != "mjs"@.len());
        }
        assert("cs"@ != "cjs"@) by {
            assert("cs"@.len() != "cjs"@.len());
        }
        assert("cs"@ != "go"@) by {
            assert("cs"@[0] != "go"@[0]);
        }
        assert("cs"@ != "java"@) by {
            assert("cs"@.len() != "java"@.len());
        }
        assert("cs"@ != "kt"@) by {
            assert("cs"@[0] != "kt"@[0]);
        }
        assert("cs"@ != "rb"@) by {
            assert("cs"@[0] != "rb"@[0]);
        }
        assert("cs"@ != "php"@) by {
            assert("cs"@.len() != "php"@.len());
        }
    }
    assert(language_of("swift"@) == Some(Language::Swift)) by {
        reveal_strlit("rs");
        reveal_strlit("py");
        reveal_strlit("ts");
        reveal_strlit("tsx");
        reveal_strlit("js");
        reveal_strlit("jsx");
        reveal_strlit("mjs");
        reveal_strlit("cjs");
        reveal_strlit("go");
        reveal_strlit("java");
        reveal_strlit("kt");
        reveal_strlit("rb");
        reveal_strlit("php");
        reveal_strlit("cs");
        reveal_strlit("swift");
        assert("swift"@ != "rs"@) by {
            assert("swift"@.len() != "rs"@.len());
        }
        assert("swift"@ != "py"@) by {
            assert("swift"@.len() != "py"@.len());
        }
        assert("swift"@ != "ts"@) by {
            assert("swift"@.len() != "ts"@.len());
        }
        assert("swift"@ != "tsx"@) by {
            assert("swift"@.len() != "tsx"@.len());
        }
        assert("swift"@ != "js"@) by {
            assert("swift"@.len() != "js"@.len());
        }
        assert("swift"@ != "jsx"@) by {
            assert("swift"@.len() != "jsx"@.len());
        }
        assert("swift"@ != "mjs"@) by {
            assert("swift"@.len() != "mjs"@.len());
        }
        assert("swift"@ != "cjs"@) by {
            assert("swift"@.len() != "cjs"@.len());
        }
        assert("swift"@ != "go"@) by {
            assert("swift"@.len() != "go"@.len());
        }
        assert("swift"@ != "java"@) by {
            assert("swift"@.len() != "java"@.len());
        }
        assert("swift"@ != "kt"@) by {
            assert("swift"@.len() != "kt"@.len());
        }
        assert("swift"@ != "rb"@) by {
            assert("swift"@.len() != "rb"@.len());
        }
        assert("swift"@ != "php"@) by {
            assert("swift"@.len() != "php"@.len());
        }
        assert("swift"@ != "cs"@) by {
            assert("swift"@.len() != "cs"@.len());
        }
    }
    assert(language_of("sql"@) == Some(Language::Sql)) by {
        reveal_strlit("rs");
        reveal_strlit("py");
        reveal_strlit("ts");
        reveal_strlit("tsx");
        reveal_strlit("js");
        reveal_strlit("jsx");
        reveal_strlit("mjs");
        reveal_strlit("cjs");
        reveal_strlit("go");
        reveal_strlit("java");
        reveal_strlit("kt");
        reveal_strlit("rb");
        reveal_strlit("php");
        reveal_strlit("cs");
        reveal_strlit("swift");
        reveal_strlit("sql");
        assert("sql"@ != "rs"@) by {
            assert("sql"@.len() != "rs"@.len());
        }
        assert("sql"@ != "py"@) by {
            assert("sql"@.len() != "py"@.len());
        }
        assert("sql"@ != "ts"@) by {
            assert("sql"@.len() != "ts"@.len());
        }
        assert("sql"@ != "tsx"@) by {
            assert("sql"@[0] != "tsx"@[0]);
        }
        assert("sql"@ != "js"@) by {
            assert("sql"@.len() != "js"@.len());
        }
        assert("sql"@ != "jsx"@) by {
            assert("sql"@[0] != "jsx"@[0]);
        }
        assert("sql"@ != "mjs"@) by {
            assert("sql"@[0] != "mjs"@[0]);
        }
        assert("sql"@ != "cjs"@) by {
            assert("sql"@[0] != "cjs"@[0]);
        }
        assert("sql"@ != "go"@) by {
            assert("sql"@.len() != "go"@.len());
        }
        assert("sql"@ != "java"@) by {
            assert("sql"@.len() != "java"@.len());
        }
        assert("sql"@ != "kt"@) by {
            assert("sql"@.len() != "kt"@.len());
        }
        assert("sql"@ != "rb"@) by {
            assert("sql"@.len() != "rb"@.len());
        }
        assert("sql"@ != "php"@) by {
            assert("sql"@[0] != "php"@[0]);
        }
        assert("sql"@ != "cs"@) by {
            assert("sql"@.len() != "cs"@.len());
        }
        assert("sql"@ != "swift"@) by {
            assert("sql"@.len() != "swift"@.len());
        }
    }
    assert(language_of("md"@) == Some(Language::Docs)) by {
        reveal_strlit("rs");
        reveal_strlit("py");
        reveal_strlit("ts");
        reveal_strlit("tsx");
        reveal_strlit("js");
        reveal_strlit("jsx");
        reveal_strlit("mjs");
        reveal_strlit("cjs");
        reveal_strlit("go");
        reveal_strlit("java");
        reveal_strlit("kt");
        reveal_strlit("rb");
        reveal_strlit("php");
        reveal_strlit("cs");
        reveal_strlit("swift");
        reveal_strlit("sql");
        reveal_strlit("md");
        assert("md"@ != "rs"@) by {
            assert("md"@[0] != "rs"@[0]);
        }
        assert("md"@ != "py"@) by {
            assert("md"@[0] != "py"@[0]);
        }
        assert("md"@ != "ts"@) by {
            assert("md"@[0] != "ts"@[0]);
        }
        assert("md"@ != "tsx"@) by {
            assert("md"@.len() != "tsx"@.len());
        }
        assert("md"@ != "js"@) by {
            assert("md"@[0] != "js"@[0]);
        }
        assert("md"@ != "jsx"@) by {
            assert("md"@.len() != "jsx"@.len());
        }
        assert("md"@ != "mjs"@) by {
            assert("md"@.len() != "mjs"@.len());
        }
        assert("md"@ != "cjs"@) by {
            assert("md"@.len() != "cjs"@.len());
        }
        assert("md"@ != "go"@) by {
            assert("md"@[0] != "go"@[0]);
        }
        assert("md"@ != "java"@) by {
            assert("md"@.len() != "java"@.len());
        }
        assert("md"@ != "kt"@) by {
            assert("md"@[0] != "kt"@[0]);
        }
        assert("md"@ != "rb"@) by {
            assert("md"@[0] != "rb"@[0]);
        }
        assert("md"@ != "php"@) by {
            assert("md"@.len() != "php"@.len());
        }
        assert("md"@ != "cs"@) by {
            assert("md"@[0] != "cs"@[0]);
        }
        assert("md"@ != "swift"@) by {
            assert("md"@.len() != "swift"@.len());
        }
        assert("md"@ != "sql"@) by {
            assert("md"@.len() != "sql"@.len());
        }
    }
    assert(language_of("mdx"@) == Some(Language::Docs)) by {
        reveal_strlit("rs");
        reveal_strlit("py");
        reveal_strlit("ts");
        reveal_strlit("tsx");
        reveal_strlit("js");
        reveal_strlit("jsx");
        reveal_strlit("mjs");
        reveal_strlit("cjs");
        reveal_strlit("go");
        reveal_strlit("java");
        reveal_strlit("kt");
        reveal_strlit("rb");
        reveal_strlit("php");
        reveal_strlit("cs");
        reveal_strlit("swift");
        reveal_strlit("sql");
        reveal_strlit("md");
        reveal_strlit("mdx");
        assert("mdx"@ != "rs"@) by {
            assert("mdx"@.len() != "rs"@.len());
        }
        assert("mdx"@ != "py"@) by {
            assert("mdx"@.len() != "py"@.len());
        }
        assert("mdx"@ != "ts"@) by {
            assert("mdx"@.len() != "ts"@.len());
        }
        assert("mdx"@ != "tsx"@) by {
            assert("mdx"@[0] != "tsx"@[0]);
        }
        assert("mdx"@ != "js"@) by {
            assert("mdx"@.len() != "js"@.len());
        }
        assert("mdx"@ != "jsx"@) by {
            assert("mdx"@[0] != "jsx"@[0]);
        }
        assert("mdx"@ != "mjs"@) by {
            assert("mdx"@[1] != "mjs"@[1]);
        }
        assert("mdx"@ != "cjs"@) by {
            assert("mdx"@[0] != "cjs"@[0]);
        }
        assert("mdx"@ != "go"@) by {
            assert("mdx"@.len() != "go"@.len());
        }
        assert("mdx"@ != "java"@) by {
            assert("mdx"@.len() != "java"@.len());
        }
        assert("mdx"@ != "kt"@) by {
            assert("mdx"@.len() != "kt"@.len());
        }
        assert("mdx"@ != "rb"@) by {
            assert("mdx"@.len() != "rb"@.len());
        }
        assert("mdx"@ != "php"@) by {
            assert("mdx"@[0] != "php"@[0]);
        }
        assert("mdx"@ != "cs"@) by {
            assert("mdx"@.len() != "cs"@.len());
        }
        assert("mdx"@ != "swift"@) by {
            assert("mdx"@.len() != "swift"@.len());
        }
        assert("mdx"@ != "sql"@) by {
            assert("mdx"@[0] != "sql"@[0]);
        }
        assert("mdx"@ != "md"@) by {
            assert("mdx"@.len() != "md"@.len());
        }
    }
    assert forall|l: Language| #![trigger language_index(l)] exists|e: Seq<char>| #[trigger] language_of(e) == Some(l) by {
        let e = match l {
            Language::Docs => "md"@,
            Language::Dotnet => "cs"@,
            Language::Go => "go"@,
            Language::Jvm => "java"@,
            Language::Php => "php"@,
            Language::Python => "py"@,
            Language::Ruby => "rb"@,
            Language::Rust => "rs"@,
            Language::Sql => "sql"@,
            Language::Swift => "swift"@,
            Language::TypescriptJavascript => "ts"@,
        };
        assert(language_of(e) == Some(l));
    }
}

/// The language of extension `ext`; see [`language_of`].
pub fn language_for_extension(ext: &str) -> (r: Option<Language>)
    ensures
        r == language_of(ext@),
{
    if str_eq(ext, "rs") {
        Some(Language::Rust)
    } else if str_eq(ext, "py") {
        Some(Language::Python)
    } else if str_eq(ext, "ts") || str_eq(ext, "tsx") || str_eq(ext, "js") || str_eq(ext, "jsx")
        || str_eq(ext, "mjs") || str_eq(ext, "cjs") {
        Some(Language::TypescriptJavascript)
    } else if str_eq(ext, "go") {
        Some(Language::Go)
    } else if str_eq(ext, "java") || str_eq(ext, "kt") {
        Some(Language::Jvm)
    } else if str_eq(ext, "rb") {
        Some(Language::Ruby)
    } else if str_eq(ext, "php") {
        Some(Language::Php)
    } else if str_eq(ext, "cs") {
        Some(Language::Dotnet)
    } else if str_eq(ext, "swift") {
        Some(Language::Swift)
    } else if str_eq(ext, "sql") {
        Some(Language::Sql)
    } else if str_eq(ext, "md") || str_eq(ext, "mdx") {
        Some(Language::Docs)
    } else {
        None
    }
}

/// File names that mark a repository's build, docs or agent setup.
pub open spec fn marker_name(name: Seq<char>) -> bool {
    ||| name == "AGENTS.md"@
    ||| name == "Cargo.toml"@
    ||| name == "Dockerfile"@
    ||| name == "Makefile"@
    ||| name == "README.md"@
    ||| name == "docker-compose.yml"@
    ||| name == "package.json"@
    ||| name == "pnpm-workspace.yaml"@
    ||| name == "pyproject.toml"@
    ||| name == "requirements.txt"@
}

/// Whether a file is a marker: a marker name, a CI workflow, or a
/// migration.
pub open spec fn is_marker(name: Seq<char>, rel: Seq<char>) -> bool {
    marker_name(name) || starts_with(rel, ".github/workflows/"@) || contains_seq(
        rel,
        "/migrations/"@,
    )
}

/// Whether file `name` at `rel` is a marker; see [`is_marker`].
pub fn is_marker_file(name: &str, rel: &str) -> (r: bool)
    ensures
        r == is_marker(name@, rel@),
{
    let named = str_eq(name, "AGENTS.md") || str_eq(name, "Cargo.toml") || str_eq(
        name,
        "Dockerfile",
    ) || str_eq(name, "Makefile") || str_eq(name, "README.md") || str_eq(
        name,
        "docker-compose.yml",
    ) || str_eq(name, "package.json") || str_eq(name, "pnpm-workspace.yaml") || str_eq(
        name,
        "pyproject.toml",
    ) || str_eq(name, "requirements.txt");
    let r = chars_of(rel);
    named || starts_with_exec(&r, &lit(".github/workflows/")) || contains_exec(
        &r,
        &lit("/migrations/"),
    )
}

/// Whether a file path looks like a test: its lower-cased path holds
/// `test` or `spec`.
pub open spec fn looks_like_test(rel: Seq<char>) -> bool {
    contains_seq(ascii_lower_seq(rel), "test"@) || contains_seq(ascii_lower_seq(rel), "spec"@)
}

/// Whether `s` is strictly increasing in text order.
pub open spec fn strictly_sorted(s: Seq<String>) -> bool {
    forall|i: int, j: int| 0 <= i < j < s.len() ==> text_lt(#[trigger] s[i]@, #[trigger] s[j]@)
}

/// The texts of the strings in `s`, as a set.
pub open spec fn text_set(s: Seq<String>) -> Set<Seq<char>> {
    Set::new(|t: Seq<char>| exists|i: int| 0 <= i < s.len() && s[i]@ == t)
}

/// Inserts `x` into a strictly sorted list, keeping it strictly sorted and
/// without duplicates.
pub fn insert_sorted_unique(v: &mut Vec<String>, x: String)
    requires
        strictly_sorted(old(v)@),
    ensures
        strictly_sorted(final(v)@),
        text_set(final(v)@) == text_set(old(v)@).insert(x@),
{
    let ghost x_view = x@;
    let ghost old_v = v@;
    let mut i: usize = 0;
    while i < v.len() && text_less(v[i].as_str(), x.as_str())
        invariant
            i <= v.len(),
            v@ == old_v,
            x@ == x_view,
            strictly_sorted(v@),
            forall|k: int| 0 <= k < i ==> text_lt(#[trigger] v@[k]@, x@),
        decreases v.len() - i,
    {
        i = i + 1;
    }
    if i < v.len() && str_eq(v[i].as_str(), x.as_str()) {
        assert(text_set(v@) =~= text_set(v@).insert(x@)) by {
            assert(v@[i as int]@ == x@);
        }
        return;
    }
    proof {
        if i < v.len() {
            lemma_text_lt_total(v@[i as int]@, x@);
        }
    }
    v.insert(i, x);
    proof {
        let nv = v@;
        assert forall|a: int, b: int| 0 <= a < b < nv.len() implies text_lt(
            #[trigger] nv[a]@,
            #[trigger] nv[b]@,
        ) by {
            if b < i {
                assert(nv[a] == old_v[a] && nv[b] == old_v[b]);
            } else if b == i {
                assert(nv[a] == old_v[a]);
            } else if a == i {
                assert(nv[b] == old_v[b - 1]);
                if b - 1 > i {
                    assert(text_lt(old_v[i as int]@, old_v[b - 1]@));
                    lemma_text_lt_transitive(x_view, old_v[i as int]@, old_v[b - 1]@);
                }
            } else if a < i {
                assert(nv[a] == old_v[a] && nv[b] == old_v[b - 1]);
                if a < b - 1 {
                } else {
                }
                assert(text_lt(old_v[a]@, x_view));
                if b - 1 >= i {
                    if b - 1 == i as int {
                        lemma_text_lt_transitive(old_v[a]@, x_view, old_v[b - 1]@);
                    } else {
                        assert(text_lt(old_v[a]@, old_v[b - 1]@));
                    }
                }
            } else {
                assert(nv[a] == old_v[a - 1] && nv[b] == old_v[b - 1]);
            }
        }
        assert forall|t: Seq<char>| text_set(nv).contains(t) == text_set(old_v).insert(
            x_view,
        ).contains(t) by {
            if text_set(nv).contains(t) {
                let k = choose|k: int| 0 <= k < nv.len() && nv[k]@ == t;
                if k < i {
                    assert(old_v[k]@ == t);
                } else if k > i {
                    assert(old_v[k - 1]@ == t);
                }
            }
            if text_set(old_v).contains(t) {
                let k = choose|k: int| 0 <= k < old_v.len() && old_v[k]@ == t;
                if k < i {
                    assert(nv[k]@ == t);
                } else {
                    assert(nv[k + 1]@ == t);
                }
            }
            if t == x_view {
                assert(nv[i as int]@ == t);
            }
        }
        assert(text_set(nv) =~= text_set(old_v).insert(x_view));
    }
}

/// The running state of a repository scan.
#[derive(Debug)]
pub struct ScanState {
    /// Files recorded per language, indexed as [`language_index`] says.
    pub language_counts: Vec<u64>,
    /// Marker paths, sorted and without duplicates.
    pub markers: Vec<String>,
    /// The first recorded file paths, in scan order.
    pub sample_files: Vec<String>,
    /// How many more files the scan may record.
    pub remaining: usize,
    pub has_tests: bool,
}

impl ScanState {
    /// Whether the counters are consistent: one counter per language, none
    /// larger than the number of files recorded so far.
    pub open spec fn wf(&self) -> bool {
        &&& self.language_counts@.len() == 11
        &&& self.remaining <= SCAN_LIMIT
        &&& forall|k: int|
            0 <= k < 11 ==> #[trigger] self.language_counts@[k] + self.remaining <= SCAN_LIMIT
        &&& self.sample_files@.len() <= MAX_SAMPLE_FILES
        &&& strictly_sorted(self.markers@)
    }

    /// A scan that has recorded nothing.
    pub fn new() -> (s: ScanState)
        ensures
            s.wf(),
            s.remaining == SCAN_LIMIT,
            forall|k: int| 0 <= k < 11 ==> #[trigger] s.language_counts@[k] == 0,
            s.markers@.len() == 0,
            s.sample_files@.len() == 0,
            !s.has_tests,
    {
        let mut counts: Vec<u64> = Vec::new();
        let mut k: usize = 0;
        while k < 11
            invariant
                k <= 11,
                counts@.len() == k,
                forall|m: int| 0 <= m < k ==> #[trigger] counts@[m] == 0,
            decreases 11 - k,
        {
            counts.push(0);
            k = k + 1;
        }
        ScanState {
            language_counts: counts,
            markers: Vec::new(),
            sample_files: Vec::new(),
            remaining: SCAN_LIMIT,
            has_tests: false,
        }
    }

    /// Whether a scan enters a directory at `depth` (the root is 0): not
    /// below the depth limit, and only while the file budget lasts.
    pub fn should_scan_dir(&self, depth: usize) -> (r: bool)
        ensures
            r == (depth <= MAX_SCAN_DEPTH && self.remaining > 0),
    {
        depth <= MAX_SCAN_DEPTH && self.remaining > 0
    }

    /// Records one file named `name` at `rel` with extension `extension`.
    /// Sensitive files are skipped (returns `false`) and use no budget.
    /// Otherwise the file uses one unit of budget, marks the scan as having
    /// tests when its path looks like a test, joins the samples while fewer
    /// than the limit are kept, joins the markers when it is one, and counts
    /// toward its language.
    pub fn record_file(&mut self, name: &str, rel: &str, extension: Option<&str>) -> (recorded: bool)
        requires
            old(self).wf(),
            old(self).remaining > 0,
        ensures
            final(self).wf(),
            recorded == !is_sensitive_file(name@, rel@),
            !recorded ==> *final(self) == *old(self),
            recorded ==> {
                &&& final(self).remaining == old(self).remaining - 1
                &&& final(self).has_tests == (old(self).has_tests || looks_like_test(rel@))
                &&& final(self).sample_files@ == if old(self).sample_files@.len() < MAX_SAMPLE_FILES {
                    old(self).sample_files@.push(final(self).sample_files@.last())
                } else {
                    old(self).sample_files@
                }
                &&& old(self).sample_files@.len() < MAX_SAMPLE_FILES
                    ==> final(self).sample_files@.last()@ == rel@
                &&& text_set(final(self).markers@) == if is_marker(name@, rel@) {
                    text_set(old(self).markers@).insert(rel@)
                } else {
                    text_set(old(self).markers@)
                }
                &&& forall|k: int|
                    0 <= k < 11 ==> #[trigger] final(self).language_counts@[k] == old(
                        self,
                    ).language_counts@[k] + if extension is Some && language_of(
                        extension->0@,
                    ) == Some(language_at(k)) {
                        1int
                    } else {
                        0int
                    }
            },
    {
        if is_sensitive_scan_file(name, rel) {
            return false;
        }
        self.remaining = self.remaining - 1;
        let lower = ascii_lower_chars(&chars_of(rel));
        if contains_exec(&lower, &lit("test")) || contains_exec(&lower, &lit("spec")) {
            self.has_tests = true;
        }
        if self.sample_files.len() < MAX_SAMPLE_FILES {
            self.sample_files.push(owned(rel));
        }
        if is_marker_file(name, rel) {
            insert_sorted_unique(&mut self.markers, owned(rel));
        }
        match extension {
            Some(ext) => match language_for_extension(ext) {
                Some(language) => {
                    let k = language.index();
                    let c = self.language_counts[k];
                    assert(c + self.remaining + 1 <= SCAN_LIMIT);
                    self.language_counts.set(k, c + 1);
                    proof {
                        assert forall|m: int| 0 <= m < 11 && m != k implies (language_at(m)
                            != language) by {
                            if language_at(m) == language {
                                assert(language_index(language_at(m)) == m);
                            }
                        }
                    }
                },
                None => {},
            },
            None => {},
        }
        true
    }

    /// The number of languages seen.
    pub fn language_count(&self) -> (n: usize)
        requires
            self.wf(),
        ensures
            n == seen_languages(self.language_counts@, 11),
    {
        let mut n: usize = 0;
        let mut k: usize = 0;
        while k < 11
            invariant
                self.language_counts@.len() == 11,
                k <= 11,
                n == seen_languages(self.language_counts@, k as int),
                n <= k,
            decreases 11 - k,
        {
            if self.language_counts[k] > 0 {
                n = n + 1;
            }
            k = k + 1;
        }
        n
    }

    /// The language with the lowest position that was seen, if any.
    fn first_seen_language(&self) -> (r: Option<Language>)
        requires
            self.wf(),
        ensures
            match r {
                Some(l) => self.language_counts@[language_index(l)] > 0 && forall|k: int|
                    0 <= k < language_index(l) ==> #[trigger] self.language_counts@[k] == 0,
                None => forall|k: int| 0 <= k < 11 ==> #[trigger] self.language_counts@[k] == 0,
            },
    {
        let mut k: usize = 0;
        while k < 11
            invariant
                self.language_counts@.len() == 11,
                k <= 11,
                forall|m: int| 0 <= m < k ==> #[trigger] self.language_counts@[m] == 0,
            decreases 11 - k,
        {
            if self.language_counts[k] > 0 {
                return Some(Language::at(k));
            }
            k = k + 1;
        }
        None
    }

    /// The dominant profile: `unknown` when no language was seen, the one
    /// language when exactly one was, and `mixed` otherwise.
    pub fn dominant_profile(&self) -> (r: String)
        requires
            self.wf(),
        ensures
            r@ == dominant_profile_spec(self.language_counts@),
    {
        let n = self.language_count();
        if n == 0 {
            owned("unknown")
        } else if n == 1 {
            match self.first_seen_language() {
                Some(l) => {
                    proof {
                        lemma_single_language(self.language_counts@, language_index(l));
                    }
                    owned(l.as_str())
                },
                None => {
                    proof {
                        lemma_none_seen(self.language_counts@, 11);
                    }
                    owned("unknown")
                },
            }
        } else {
            owned("mixed")
        }
    }

    /// Whether the scan stopped at its file budget.
    pub fn scan_limit_reached(&self) -> (r: bool)
        ensures
            r == (self.remaining == 0),
    {
        self.remaining == 0
    }

    /// The workers a target pack suggests: a release manager only for
    /// repositories with tests.
    pub fn suggested_workers(&self) -> (r: Vec<&'static str>)
        ensures
            r@.len() == if self.has_tests {
                3int
            } else {
                2int
            },
            r@[0]@ == "repo-maintainer"@,
            r@[1]@ == "ops-analyst"@,
            self.has_tests ==> r@[2]@ == "release-manager"@,
    {
        let mut r: Vec<&'static str> = Vec::new();
        r.push("repo-maintainer");
        r.push("ops-analyst");
        if self.has_tests {
            r.push("release-manager");
        }
        r
    }
}

/// How many of the first `k` counters are non-zero.
pub open spec fn seen_languages(counts: Seq<u64>, k: int) -> nat
    decreases k,
{
    if k <= 0 {
        0
    } else {
        seen_languages(counts, k - 1) + if counts[k - 1] > 0 {
            1nat
        } else {
            0nat
        }
    }
}

/// The dominant profile of a scan; see [`ScanState::dominant_profile`].
pub open spec fn dominant_profile_spec(counts: Seq<u64>) -> Seq<char> {
    if seen_languages(counts, 11) == 0 {
        "unknown"@
    } else if seen_languages(counts, 11) == 1 {
        language_text(language_at(choose|k: int| 0 <= k < 11 && counts[k] > 0))
    } else {
        "mixed"@
    }
}

proof fn lemma_none_seen(counts: Seq<u64>, k: int)
    requires
        0 <= k <= 11,
        forall|m: int| 0 <= m < k ==> #[trigger] counts[m] == 0,
    ensures
        seen_languages(counts, k) == 0,
    decreases k,
{
    if k > 0 {
        lemma_none_seen(counts, k - 1);
    }
}

proof fn lemma_seen_positive(counts: Seq<u64>, k: int, j: int)
    requires
        0 <= j < k <= 11,
        counts[j] > 0,
    ensures
        seen_languages(counts, k) >= 1,
    decreases k,
{
    if k - 1 != j {
        lemma_seen_positive(counts, k - 1, j);
    }
}

proof fn lemma_seen_two(counts: Seq<u64>, k: int, i: int, j: int)
    requires
        0 <= i < j < k <= 11,
        counts[i] > 0,
        counts[j] > 0,
    ensures
        seen_languages(counts, k) >= 2,
    decreases k,
{
    if k - 1 != j {
        lemma_seen_two(counts, k - 1, i, j);
    } else {
        lemma_seen_positive(counts, k - 1, i);
    }
}

/// With exactly one language seen, the first seen language is the only one.
proof fn lemma_single_language(counts: Seq<u64>, first: int)
    requires
        0 <= first < 11,
        counts.len() == 11,
        counts[first] > 0,
        seen_languages(counts, 11) == 1,
    ensures
        language_text(language_at(choose|k: int| 0 <= k < 11 && counts[k] > 0)) == language_text(
            language_at(first),
        ),
{
    let c = choose|k: int| 0 <= k < 11 && counts[k] > 0;
    if c != first {
        if c < first {
            lemma_seen_two(counts, 11, c, first);
        } else {
            lemma_seen_two(counts, 11, first, c);
        }
    }
}

} // verus!
