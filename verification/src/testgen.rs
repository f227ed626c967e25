//! Test generation support: language and framework detection, test
//! locations, prompts, and the scan of source text for function names.
use vstd::prelude::*;
use crate::text::{
    chars_of, contains, contains_exec, matches_at, eq_str, find, find_exec, find_from, find_from_exec,
    lemma_find, lemma_find_from, lines, lines_exec, lower, lower_vec, push_all, push_str, slice,
    string_of, trim, trim_exec, utf8_len, utf8_len_exec, views, lemma_views_push,
};
use crate::paths::{extension, extension_exec, file_stem, file_stem_exec, join_path, join_path_exec};

verus! {

/// Programming languages the test generator knows.
#[derive(Debug, Clone, Copy, PartialEq, Eq, Structural)]
pub enum Language {
    Rust,
    JavaScript,
    TypeScript,
    Python,
    Go,
    Java,
    CSharp,
    Unknown,
}

/// The language of a lower-case file extension.
pub open spec fn language_of_lower_ext(e: Seq<char>) -> Language {
    if e == "rs"@ {
        Language::Rust
    } else if e == "js"@ || e == "jsx"@ || e == "mjs"@ || e == "cjs"@ {
        Language::JavaScript
    } else if e == "ts"@ || e == "tsx"@ || e == "mts"@ || e == "cts"@ {
        Language::TypeScript
    } else if e == "py"@ {
        Language::Python
    } else if e == "go"@ {
        Language::Go
    } else if e == "java"@ {
        Language::Java
    } else if e == "cs"@ {
        Language::CSharp
    } else {
        Language::Unknown
    }
}

pub open spec fn language_display(l: Language) -> Seq<char> {
    match l {
        Language::Rust => "Rust"@,
        Language::JavaScript => "JavaScript"@,
        Language::TypeScript => "TypeScript"@,
        Language::Python => "Python"@,
        Language::Go => "Go"@,
        Language::Java => "Java"@,
        Language::CSharp => "C#"@,
        Language::Unknown => "Unknown"@,
    }
}

impl Language {
    /// The language of a file extension, compared case-insensitively.
    pub fn from_extension(ext: &str) -> (r: Language)
        ensures
            r == language_of_lower_ext(lower(ext@)),
    {
        let e = lower_vec(&chars_of(ext));
        if eq_str(&e, "rs") {
            Language::Rust
        } else if eq_str(&e, "js") || eq_str(&e, "jsx") || eq_str(&e, "mjs") || eq_str(&e, "cjs") {
            Language::JavaScript
        } else if eq_str(&e, "ts") || eq_str(&e, "tsx") || eq_str(&e, "mts") || eq_str(&e, "cts") {
            Language::TypeScript
        } else if eq_str(&e, "py") {
            Language::Python
        } else if eq_str(&e, "go") {
            Language::Go
        } else if eq_str(&e, "java") {
            Language::Java
        } else if eq_str(&e, "cs") {
            Language::CSharp
        } else {
            Language::Unknown
        }
    }

    pub fn display_name(&self) -> (r: &'static str)
        ensures
            r@ == language_display(*self),
    {
        match self {
            Language::Rust => "Rust",
            Language::JavaScript => "JavaScript",
            Language::TypeScript => "TypeScript",
            Language::Python => "Python",
            Language::Go => "Go",
            Language::Java => "Java",
            Language::CSharp => "C#",
            Language::Unknown => "Unknown",
        }
    }

    pub fn is_supported(&self) -> (r: bool)
        ensures
            r == (*self != Language::Unknown),
    {
        !matches!(self, Language::Unknown)
    }
}

/// Test frameworks the generator can target.
#[allow(non_camel_case_types)]
#[derive(Debug, Clone, Copy, PartialEq, Eq, Structural)]
pub enum TestFramework {
    RustNative,
    TokioTest,
    Jest,
    Vitest,
    Pytest,
    Unittest,
    GoTesting,
    JUnit4,
    JUnit5,
    xUnit,
    NUnit,
    Unknown,
}

pub open spec fn framework_display(f: TestFramework) -> Seq<char> {
    match f {
        TestFramework::RustNative => "Rust Native (#[test])"@,
        TestFramework::TokioTest => "Tokio Test (#[tokio::test])"@,
        TestFramework::Jest => "Jest"@,
        TestFramework::Vitest => "Vitest"@,
        TestFramework::Pytest => "pytest"@,
        TestFramework::Unittest => "unittest"@,
        TestFramework::GoTesting => "Go testing"@,
        TestFramework::JUnit4 => "JUnit 4"@,
        TestFramework::JUnit5 => "JUnit 5"@,
        TestFramework::xUnit => "xUnit"@,
        TestFramework::NUnit => "NUnit"@,
        TestFramework::Unknown => "Unknown"@,
    }
}

pub open spec fn framework_keyword(f: TestFramework) -> Seq<char> {
    match f {
        TestFramework::RustNative => "#[test]"@,
        TestFramework::TokioTest => "#[tokio::test]"@,
        TestFramework::Jest | TestFramework::Vitest => "test"@,
        TestFramework::Pytest | TestFramework::Unittest => "def test_"@,
        TestFramework::GoTesting => "func Test"@,
        TestFramework::JUnit4 | TestFramework::JUnit5 => "@Test"@,
        TestFramework::xUnit => "[Fact]"@,
        TestFramework::NUnit => "[Test]"@,
        TestFramework::Unknown => "# test"@,
    }
}

impl TestFramework {
    pub fn display_name(&self) -> (r: &'static str)
        ensures
            r@ == framework_display(*self),
    {
        match self {
            TestFramework::RustNative => "Rust Native (#[test])",
            TestFramework::TokioTest => "Tokio Test (#[tokio::test])",
            TestFramework::Jest => "Jest",
            TestFramework::Vitest => "Vitest",
            TestFramework::Pytest => "pytest",
            TestFramework::Unittest => "unittest",
            TestFramework::GoTesting => "Go testing",
            TestFramework::JUnit4 => "JUnit 4",
            TestFramework::JUnit5 => "JUnit 5",
            TestFramework::xUnit => "xUnit",
            TestFramework::NUnit => "NUnit",
            TestFramework::Unknown => "Unknown",
        }
    }

    /// The marker that introduces a test in this framework.
    pub fn test_keyword(&self) -> (r: &'static str)
        ensures
            r@ == framework_keyword(*self),
    {
        match self {
            TestFramework::RustNative => "#[test]",
            TestFramework::TokioTest => "#[tokio::test]",
            TestFramework::Jest | TestFramework::Vitest => "test",
            TestFramework::Pytest | TestFramework::Unittest => "def test_",
            TestFramework::GoTesting => "func Test",
            TestFramework::JUnit4 | TestFramework::JUnit5 => "@Test",
            TestFramework::xUnit => "[Fact]",
            TestFramework::NUnit => "[Test]",
            TestFramework::Unknown => "# test",
        }
    }
}

/// A directory that holds tests.
#[derive(Debug, Clone)]
pub struct TestLocation {
    pub path: String,
    pub exists: bool,
    pub is_directory: bool,
    pub test_files: Vec<String>,
}

/// What is known of one source file when generating its tests.
#[derive(Debug, Clone)]
pub struct SourceFileInfo {
    pub path: String,
    pub language: Language,
    pub framework: TestFramework,
    pub functions: Vec<String>,
    pub existing_tests: Vec<TestLocation>,
    pub suggested_location: String,
}

/// Options of a test-generation request.
#[derive(Debug, Clone)]
pub struct TestOptions {
    /// `"unit"` or `"integration"`.
    pub test_type: String,
    pub framework: Option<String>,
    pub output_path: Option<String>,
    pub preview_only: bool,
}

impl Default for TestOptions {
    fn default() -> (r: Self)
        ensures
            r.test_type@ == "unit"@,
            r.framework is None,
            r.output_path is None,
            !r.preview_only,
    {
        TestOptions {
            test_type: String::from_str("unit"),
            framework: None,
            output_path: None,
            preview_only: false,
        }
    }
}

/// The language of a path, from its extension.
pub open spec fn language_of_path(p: Seq<char>) -> Language {
    match extension(p) {
        Some(e) => language_of_lower_ext(lower(e)),
        None => Language::Unknown,
    }
}

/// The names found in the readable files among the first three entries,
/// from entry `i` on.
pub open spec fn existing_test_names(files: Seq<(String, Option<String>)>, i: int) -> Seq<Seq<char>>
    decreases 3 - i,
{
    if i < 0 || i >= 3 || i >= files.len() {
        seq![]
    } else {
        let here = match files[i].1 {
            Some(c) => all_names(lines(c@), test_file_patterns(language_of_path(files[i].0@)), false),
            None => seq![],
        };
        here + existing_test_names(files, i + 1)
    }
}

/// The file extension used for generated tests.
pub open spec fn test_file_ext(l: Language) -> Seq<char> {
    match l {
        Language::Rust => "rs"@,
        Language::JavaScript => "js"@,
        Language::TypeScript => "ts"@,
        Language::Python => "py"@,
        Language::Go => "go"@,
        Language::Java => "java"@,
        Language::CSharp => "cs"@,
        Language::Unknown => "txt"@,
    }
}

/// The directory tests go to when none exists yet.
pub open spec fn default_test_dir(l: Language) -> Seq<char> {
    match l {
        Language::Rust => "tests"@,
        Language::JavaScript | Language::TypeScript => "__tests__"@,
        Language::Python => "tests"@,
        Language::Go => ""@,
        Language::Java => "src/test/java"@,
        Language::CSharp => "Tests"@,
        Language::Unknown => "."@,
    }
}

/// Where the tests of `source` should go.
pub open spec fn suggested_location(l: Language, source: Seq<char>, existing: Seq<TestLocation>) -> Seq<char> {
    let stem = match file_stem(source) {
        Some(s) => s,
        None => seq![],
    };
    if existing.len() > 0 {
        existing[0].path@ + "/"@ + stem + ".test."@ + test_file_ext(l)
    } else if default_test_dir(l).len() == 0 {
        stem + "_test."@ + test_file_ext(l)
    } else {
        default_test_dir(l) + "/"@ + stem + "_test."@ + test_file_ext(l)
    }
}

pub fn test_file_ext_exec(l: Language) -> (r: &'static str)
    ensures
        r@ == test_file_ext(l),
{
    match l {
        Language::Rust => "rs",
        Language::JavaScript => "js",
        Language::TypeScript => "ts",
        Language::Python => "py",
        Language::Go => "go",
        Language::Java => "java",
        Language::CSharp => "cs",
        Language::Unknown => "txt",
    }
}

pub fn default_test_dir_exec(l: Language) -> (r: &'static str)
    ensures
        r@ == default_test_dir(l),
{
    match l {
        Language::Rust => "tests",
        Language::JavaScript | Language::TypeScript => "__tests__",
        Language::Python => "tests",
        Language::Go => "",
        Language::Java => "src/test/java",
        Language::CSharp => "Tests",
        Language::Unknown => ".",
    }
}

/// The text between the first and second occurrences of `p` in `line`
/// (or to its end): `line.split(p).nth(1)` when `p` occurs.
pub open spec fn second_piece(line: Seq<char>, p: Seq<char>) -> Seq<char> {
    let i = find(line, p).unwrap();
    let start = i + p.len();
    match find_from(line, p, start) {
        Some(j) => line.subrange(start, j),
        None => line.subrange(start, line.len() as int),
    }
}

/// The text before the first `(` (`s.split('(').next()`).
pub open spec fn before_paren(s: Seq<char>) -> Seq<char> {
    match find(s, seq!['(']) {
        Some(i) => s.take(i),
        None => s,
    }
}

/// The function name a line yields for one pattern: the text after the
/// pattern up to `(`, trimmed, when non-empty and not starting with `_`
/// (and, when `bounded`, shorter than 50 bytes).
pub open spec fn name_candidate(line: Seq<char>, p: Seq<char>, bounded: bool) -> Option<Seq<char>> {
    if contains(line, p) && contains(line, seq!['(']) {
        let name = trim(before_paren(second_piece(line, p)));
        if name.len() > 0 && name[0] != '_' && (!bounded || utf8_len(name) < 50) {
            Some(name)
        } else {
            None
        }
    } else {
        None
    }
}

pub open spec fn opt_seq(o: Option<Seq<char>>) -> Seq<Seq<char>> {
    match o {
        Some(x) => seq![x],
        None => seq![],
    }
}

/// The names one line yields, pattern by pattern.
pub open spec fn line_names(line: Seq<char>, pats: Seq<Seq<char>>, bounded: bool) -> Seq<Seq<char>>
    decreases pats.len(),
{
    if pats.len() == 0 {
        seq![]
    } else {
        line_names(line, pats.drop_last(), bounded) + opt_seq(name_candidate(line, pats.last(), bounded))
    }
}

/// The names all lines yield, line by line.
pub open spec fn all_names(ls: Seq<Seq<char>>, pats: Seq<Seq<char>>, bounded: bool) -> Seq<Seq<char>>
    decreases ls.len(),
{
    if ls.len() == 0 {
        seq![]
    } else {
        all_names(ls.drop_last(), pats, bounded) + line_names(ls.last(), pats, bounded)
    }
}

/// `Vec::dedup`: consecutive repeats removed.
pub open spec fn dedup(s: Seq<Seq<char>>) -> Seq<Seq<char>>
    decreases s.len(),
{
    if s.len() <= 1 {
        s
    } else if s.last() == s[s.len() - 2] {
        dedup(s.drop_last())
    } else {
        dedup(s.drop_last()).push(s.last())
    }
}

/// The declaration keywords searched for in source files.
pub open spec fn source_patterns(l: Language) -> Seq<Seq<char>> {
    match l {
        Language::Rust => seq!["fn "@, "async fn "@],
        Language::JavaScript | Language::TypeScript => seq!["function "@, "const "@, "let "@],
        Language::Python => seq!["def "@],
        Language::Go => seq!["func "@],
        Language::Java => seq!["public "@, "private "@],
        Language::CSharp => seq!["public "@, "private "@, "protected "@],
        Language::Unknown => seq!["fn "@, "function "@, "def "@, "func "@],
    }
}

/// The declaration keywords searched for in existing test files.
pub open spec fn test_file_patterns(l: Language) -> Seq<Seq<char>> {
    match l {
        Language::Rust => seq!["fn "@, "async fn "@],
        Language::JavaScript | Language::TypeScript => seq!["function "@, "const "@, "let "@, "async "@],
        Language::Python => seq!["def "@],
        Language::Go => seq!["func "@],
        Language::Java => seq!["public "@, "private "@, "protected "@],
        Language::CSharp => seq!["public "@, "private "@, "void "@],
        Language::Unknown => seq!["fn "@, "function "@, "def "@, "func "@],
    }
}

pub open spec fn string_views(v: Seq<String>) -> Seq<Seq<char>> {
    v.map_values(|x: String| x@)
}

pub fn strs_to_vecs(v: &Vec<&str>) -> (r: Vec<Vec<char>>)
    ensures
        views(r@) == v@.map_values(|x: &str| x@),
{
    let mut r: Vec<Vec<char>> = Vec::new();
    let mut i: usize = 0;
    while i < v.len()
        invariant
            i <= v.len(),
            views(r@) == v@.take(i as int).map_values(|x: &str| x@),
        decreases v.len() - i,
    {
        let c = chars_of(v[i]);
        proof {
            lemma_views_push(r@, c);
        }
        r.push(c);
        i = i + 1;
        assert(views(r@) =~= v@.take(i as int).map_values(|x: &str| x@));
    }
    assert(v@.take(v.len() as int) =~= v@);
    r
}

pub fn source_patterns_exec(l: Language) -> (r: Vec<Vec<char>>)
    ensures
        views(r@) == source_patterns(l),
{
    let v: Vec<&str> = match l {
        Language::Rust => vec!["fn ", "async fn "],
        Language::JavaScript | Language::TypeScript => vec!["function ", "const ", "let "],
        Language::Python => vec!["def "],
        Language::Go => vec!["func "],
        Language::Java => vec!["public ", "private "],
        Language::CSharp => vec!["public ", "private ", "protected "],
        Language::Unknown => vec!["fn ", "function ", "def ", "func "],
    };
    let r = strs_to_vecs(&v);
    assert(views(r@) =~= source_patterns(l));
    r
}

pub fn test_file_patterns_exec(l: Language) -> (r: Vec<Vec<char>>)
    ensures
        views(r@) == test_file_patterns(l),
{
    let v: Vec<&str> = match l {
        Language::Rust => vec!["fn ", "async fn "],
        Language::JavaScript | Language::TypeScript => vec!["function ", "const ", "let ", "async "],
        Language::Python => vec!["def "],
        Language::Go => vec!["func "],
        Language::Java => vec!["public ", "private ", "protected "],
        Language::CSharp => vec!["public ", "private ", "void "],
        Language::Unknown => vec!["fn ", "function ", "def ", "func "],
    };
    let r = strs_to_vecs(&v);
    assert(views(r@) =~= test_file_patterns(l));
    r
}

pub fn name_candidate_exec(line: &Vec<char>, p: &Vec<char>, bounded: bool) -> (r: Option<Vec<char>>)
    ensures
        r matches Some(v) ==> name_candidate(line@, p@, bounded) == Some(v@),
        r is None ==> name_candidate(line@, p@, bounded) is None,
{
    let paren: Vec<char> = vec!['('];
    let i = match find_exec(line, p) {
        Some(i) => i,
        None => {
            return None;
        },
    };
    assert(paren@ =~= seq!['(']);
    proof {
        lemma_find(line@, p@);
    }
    if !contains_exec(line, &paren) {
        return None;
    }
    assert(find(line@, p@) == Some(i as int));
    assert(matches_at(line@, p@, i as int));
    assert(i + p.len() <= line.len());
    let start = i + p.len();
    proof {
        lemma_find_from(line@, p@, start as int);
    }
    let piece = match find_from_exec(line, p, start) {
        Some(j) => slice(line, start, j),
        None => slice(line, start, line.len()),
    };
    proof {
        lemma_find(piece@, paren@);
    }
    let head = match find_exec(&piece, &paren) {
        Some(k) => slice(&piece, 0, k),
        None => piece,
    };
    let name = trim_exec(&head);
    if name.len() > 0 && name[0] != '_' && (!bounded || utf8_len_exec(&name) < 50) {
        Some(name)
    } else {
        None
    }
}

/// The names found in `content`, line by line and pattern by pattern, with
/// consecutive repeats removed.
pub open spec fn scan_names(content: Seq<char>, pats: Seq<Seq<char>>, bounded: bool) -> Seq<Seq<char>> {
    dedup(all_names(lines(content), pats, bounded))
}

pub fn collect_names(
    out: &mut Vec<Vec<char>>,
    content: &Vec<char>,
    pats: &Vec<Vec<char>>,
    bounded: bool,
)
    ensures
        views(final(out)@) == views(old(out)@) + all_names(lines(content@), views(pats@), bounded),
{
    let ls = lines_exec(content);
    let ghost out0 = views(out@);
    let mut i: usize = 0;
    while i < ls.len()
        invariant
            i <= ls.len(),
            views(out@) == out0 + all_names(views(ls@).take(i as int), views(pats@), bounded),
        decreases ls.len() - i,
    {
        let ghost mid = views(out@);
        let mut k: usize = 0;
        while k < pats.len()
            invariant
                k <= pats.len(),
                i < ls.len(),
                views(out@) == mid + line_names(ls@[i as int]@, views(pats@).take(k as int), bounded),
            decreases pats.len() - k,
        {
            let ghost before = views(out@);
            match name_candidate_exec(&ls[i], &pats[k], bounded) {
                Some(n) => {
                    proof {
                        lemma_views_push(out@, n);
                    }
                    out.push(n);
                },
                None => {},
            }
            proof {
                let ps = views(pats@);
                assert(ps.take(k + 1).drop_last() =~= ps.take(k as int));
                assert(ps.take(k + 1).last() == pats@[k as int]@);
                assert(views(out@) =~= mid + line_names(ls@[i as int]@, ps.take(k + 1), bounded));
            }
            k = k + 1;
        }
        proof {
            let vl = views(ls@);
            assert(views(pats@).take(pats.len() as int) =~= views(pats@));
            assert(vl.take(i + 1).drop_last() =~= vl.take(i as int));
            assert(vl.take(i + 1).last() == ls@[i as int]@);
            assert(views(out@) =~= out0 + all_names(vl.take(i + 1), views(pats@), bounded));
        }
        i = i + 1;
    }
    assert(views(ls@).take(ls.len() as int) =~= views(ls@));
}

/// Consecutive repeats removed (`Vec::dedup`), as `String`s.
pub fn dedup_to_strings(v: &Vec<Vec<char>>) -> (r: Vec<String>)
    ensures
        string_views(r@) == dedup(views(v@)),
{
    let mut r: Vec<String> = Vec::new();
    let mut i: usize = 0;
    while i < v.len()
        invariant
            i <= v.len(),
            string_views(r@) == dedup(views(v@).take(i as int)),
        decreases v.len() - i,
    {
        let ghost vs = views(v@);
        let ghost r0 = string_views(r@);
        assert(vs.take(i + 1).drop_last() =~= vs.take(i as int));
        if i == 0 || !crate::text::eq_vec(&v[i], &v[i - 1]) {
            let s = string_of(&v[i]);
            r.push(s);
            assert(string_views(r@) =~= r0.push(v@[i as int]@));
            proof {
                if i == 0 {
                    assert(vs.take(1) =~= seq![v@[0]@]);
                    assert(r0 =~= seq![]);
                }
            }
        }
        i = i + 1;
    }
    assert(views(v@).take(v.len() as int) =~= views(v@));
    r
}

/// What the file system shows of a project directory, as framework
/// detection reads it. A file's content is present when the file exists and
/// could be read.
#[derive(Debug, Clone)]
pub struct ProjectProbe {
    pub cargo_toml: Option<String>,
    pub vite_config_ts: bool,
    pub vitest_config_ts: bool,
    pub jest_config_js: bool,
    pub jest_config_ts: bool,
    pub jest_config_json: bool,
    pub package_json: Option<String>,
    pub pytest_ini: bool,
    pub pyproject_toml: bool,
    pub conftest_py: bool,
    pub pom_xml: Option<String>,
    pub has_csproj: bool,
}

pub open spec fn opt_contains(o: Option<String>, p: Seq<char>) -> bool {
    match o {
        Some(c) => contains(c@, p),
        None => false,
    }
}

/// The test framework a project of the given language uses.
pub open spec fn detected_framework(l: Language, p: ProjectProbe) -> TestFramework {
    match l {
        Language::Rust => if opt_contains(p.cargo_toml, "tokio"@) {
            TestFramework::TokioTest
        } else {
            TestFramework::RustNative
        },
        Language::JavaScript | Language::TypeScript => if p.vite_config_ts || p.vitest_config_ts {
            TestFramework::Vitest
        } else if p.jest_config_js || p.jest_config_ts || p.jest_config_json {
            TestFramework::Jest
        } else if opt_contains(p.package_json, "\"vitest\""@) {
            TestFramework::Vitest
        } else {
            TestFramework::Jest
        },
        Language::Python => TestFramework::Pytest,
        Language::Go => TestFramework::GoTesting,
        Language::Java => TestFramework::JUnit5,
        Language::CSharp => TestFramework::xUnit,
        Language::Unknown => TestFramework::Unknown,
    }
}

pub fn opt_contains_exec(o: &Option<String>, p: &str) -> (r: bool)
    ensures
        r == opt_contains(*o, p@),
{
    match o {
        Some(c) => contains_exec(&chars_of(c.as_str()), &chars_of(p)),
        None => false,
    }
}

/// The framework named by a `--framework` option (case-insensitive).
pub open spec fn framework_of_name(n: Seq<char>) -> TestFramework {
    if n == "jest"@ {
        TestFramework::Jest
    } else if n == "vitest"@ {
        TestFramework::Vitest
    } else if n == "pytest"@ {
        TestFramework::Pytest
    } else if n == "unittest"@ {
        TestFramework::Unittest
    } else if n == "junit4"@ {
        TestFramework::JUnit4
    } else if n == "junit5"@ {
        TestFramework::JUnit5
    } else if n == "xunit"@ {
        TestFramework::xUnit
    } else if n == "nunit"@ {
        TestFramework::NUnit
    } else if n == "tokio"@ {
        TestFramework::TokioTest
    } else if n == "native"@ || n == "rust"@ {
        TestFramework::RustNative
    } else {
        TestFramework::Unknown
    }
}

/// The directories searched for existing tests, relative to the project.
pub open spec fn test_dirs(l: Language) -> Seq<Seq<char>> {
    match l {
        Language::Rust => seq!["tests"@, "src"@],
        Language::JavaScript | Language::TypeScript => seq!["__tests__"@, "tests"@, "spec"@, "."@, "."@],
        Language::Python => seq!["tests"@, "."@, "."@],
        Language::Go => seq![""@],
        Language::Java => seq!["src/test/java"@, "test"@],
        Language::CSharp => seq!["Tests"@, "test"@, "."@],
        Language::Unknown => seq![],
    }
}

/// A searched directory: the project path itself for an empty relative
/// directory, else the project path joined with it.
pub open spec fn search_dir(project: Seq<char>, dir: Seq<char>) -> Seq<char> {
    if dir.len() == 0 {
        project
    } else {
        join_path(project, dir)
    }
}

/// Whether a file name marks a test file (it mentions `test` or `spec`,
/// ignoring case).
pub open spec fn is_test_name(name: Seq<char>) -> bool {
    contains(lower(name), "test"@) || contains(lower(name), "spec"@)
}

/// One directory as the file system showed it: whether it exists and is a
/// directory, and each entry of a walk two levels deep (the directory itself
/// included) as its file name and its path.
#[derive(Debug, Clone)]
pub struct DirListing {
    pub path: String,
    pub exists: bool,
    pub is_dir: bool,
    pub entries: Vec<(String, String)>,
}

/// The paths of the entries whose names mark test files, in walk order.
pub open spec fn test_entry_paths(entries: Seq<(String, String)>) -> Seq<Seq<char>>
    decreases entries.len(),
{
    if entries.len() == 0 {
        seq![]
    } else {
        let rest = test_entry_paths(entries.drop_last());
        if is_test_name(entries.last().0@) {
            rest.push(entries.last().1@)
        } else {
            rest
        }
    }
}

/// Whether `loc` records the listing `d` as a test location.
pub open spec fn location_of(d: DirListing, loc: TestLocation) -> bool {
    &&& loc.path@ == d.path@
    &&& loc.exists
    &&& loc.is_directory == d.is_dir
    &&& string_views(loc.test_files@) == test_entry_paths(d.entries@)
}

/// The listings that exist and hold at least one test file.
pub open spec fn keeps(d: DirListing) -> bool {
    d.exists && test_entry_paths(d.entries@).len() > 0
}

pub open spec fn kept_listings(ds: Seq<DirListing>) -> Seq<DirListing>
    decreases ds.len(),
{
    if ds.len() == 0 {
        seq![]
    } else if keeps(ds.last()) {
        kept_listings(ds.drop_last()).push(ds.last())
    } else {
        kept_listings(ds.drop_last())
    }
}

/// The instructions given to the AI for generating tests.
pub open spec fn test_system_prompt(l: Language, f: TestFramework, t: Seq<char>) -> Seq<char> {
    "You are an expert test engineer. Generate comprehensive, idiomatic "@ + t + " "@
        + language_display(l) + " tests.\n\nRequirements:\n1. Use "@ + framework_display(f)
        + " testing framework\n2. Cover edge cases and error conditions\n3. Follow best practices: naming, assertions, setup/teardown\n4. Output ONLY the test file content - no explanations, no markdown code blocks\n5. If "@
        + t + " tests already exist in the file, append new tests rather than duplicating"@
        + language_advice(l)
}

pub open spec fn language_advice(l: Language) -> Seq<char> {
    match l {
        Language::Rust => "\n\nFor Rust: Use proper error handling, avoid unwrap() in tests, use assert! and assert_eq! macros."@,
        Language::JavaScript | Language::TypeScript => "\n\nFor JS/TS: Use describe/it blocks, expect assertions, handle async properly with async/await."@,
        Language::Python => "\n\nFor Python: Use descriptive test names starting with test_, use pytest assertions, handle exceptions with pytest.raises."@,
        Language::Go => "\n\nFor Go: Use testify package if available, t.Fatal/t.Error for failures, table-driven tests when appropriate."@,
        Language::Java => "\n\nFor Java: Use JUnit annotations (@Test, @Before, @After), assertions from Assert class."@,
        Language::CSharp => "\n\nFor C#: Use [Fact] or [Theory] attributes, Assert class for assertions."@,
        Language::Unknown => ""@,
    }
}

pub fn language_advice_exec(l: Language) -> (r: &'static str)
    ensures
        r@ == language_advice(l),
{
    match l {
        Language::Rust => "\n\nFor Rust: Use proper error handling, avoid unwrap() in tests, use assert! and assert_eq! macros.",
        Language::JavaScript | Language::TypeScript => "\n\nFor JS/TS: Use describe/it blocks, expect assertions, handle async properly with async/await.",
        Language::Python => "\n\nFor Python: Use descriptive test names starting with test_, use pytest assertions, handle exceptions with pytest.raises.",
        Language::Go => "\n\nFor Go: Use testify package if available, t.Fatal/t.Error for failures, table-driven tests when appropriate.",
        Language::Java => "\n\nFor Java: Use JUnit annotations (@Test, @Before, @After), assertions from Assert class.",
        Language::CSharp => "\n\nFor C#: Use [Fact] or [Theory] attributes, Assert class for assertions.",
        Language::Unknown => "",
    }
}

/// The request sent to the AI for a file's tests.
pub open spec fn generation_prompt(t: Seq<char>, l: Language, f: TestFramework, content: Seq<char>) -> Seq<char> {
    "Generate "@ + t + " tests for the following source file.\nLanguage: "@ + language_display(l)
        + "\nFramework: "@ + framework_display(f) + "\n\nSOURCE FILE:\n```"@ + lower(language_display(l))
        + "\n"@ + content + "\n```"@
}

pub struct TestGenerator;

impl TestGenerator {
    /// The language of a source file, from its extension.
    pub fn detect_language(file_path: &str) -> (r: Language)
        ensures
            r == language_of_path(file_path@),
    {
        match extension_exec(&chars_of(file_path)) {
            Some(e) => Language::from_extension(&string_of(&e).as_str()),
            None => Language::Unknown,
        }
    }

    /// The test framework of a project, from what its directory holds.
    pub fn detect_framework(language: &Language, probe: &ProjectProbe) -> (r: TestFramework)
        ensures
            r == detected_framework(*language, *probe),
    {
        match language {
            Language::Rust => {
                if opt_contains_exec(&probe.cargo_toml, "tokio") {
                    return TestFramework::TokioTest;
                }
                TestFramework::RustNative
            },
            Language::JavaScript | Language::TypeScript => {
                if probe.vite_config_ts || probe.vitest_config_ts {
                    return TestFramework::Vitest;
                }
                if probe.jest_config_js || probe.jest_config_ts || probe.jest_config_json {
                    return TestFramework::Jest;
                }
                if opt_contains_exec(&probe.package_json, "\"vitest\"") {
                    return TestFramework::Vitest;
                }
                if opt_contains_exec(&probe.package_json, "\"jest\"") {
                    return TestFramework::Jest;
                }
                TestFramework::Jest
            },
            Language::Python => TestFramework::Pytest,
            Language::Go => TestFramework::GoTesting,
            Language::Java => TestFramework::JUnit5,
            Language::CSharp => TestFramework::xUnit,
            Language::Unknown => TestFramework::Unknown,
        }
    }

    /// The framework a `--framework` value names, ignoring case.
    pub fn framework_from_name(name: &str) -> (r: TestFramework)
        ensures
            r == framework_of_name(lower(name@)),
    {
        let n = lower_vec(&chars_of(name));
        if eq_str(&n, "jest") {
            TestFramework::Jest
        } else if eq_str(&n, "vitest") {
            TestFramework::Vitest
        } else if eq_str(&n, "pytest") {
            TestFramework::Pytest
        } else if eq_str(&n, "unittest") {
            TestFramework::Unittest
        } else if eq_str(&n, "junit4") {
            TestFramework::JUnit4
        } else if eq_str(&n, "junit5") {
            TestFramework::JUnit5
        } else if eq_str(&n, "xunit") {
            TestFramework::xUnit
        } else if eq_str(&n, "nunit") {
            TestFramework::NUnit
        } else if eq_str(&n, "tokio") {
            TestFramework::TokioTest
        } else if eq_str(&n, "native") || eq_str(&n, "rust") {
            TestFramework::RustNative
        } else {
            TestFramework::Unknown
        }
    }

    /// The directories to search for existing tests of a project.
    pub fn test_search_dirs(language: &Language, project_path: &str) -> (r: Vec<String>)
        ensures
            string_views(r@) == test_dirs(*language).map_values(|d: Seq<char>| search_dir(project_path@, d)),
    {
        let dirs: Vec<&str> = match language {
            Language::Rust => vec!["tests", "src"],
            Language::JavaScript | Language::TypeScript => vec!["__tests__", "tests", "spec", ".", "."],
            Language::Python => vec!["tests", ".", "."],
            Language::Go => vec![""],
            Language::Java => vec!["src/test/java", "test"],
            Language::CSharp => vec!["Tests", "test", "."],
            Language::Unknown => vec![],
        };
        let ghost ds = dirs@.map_values(|x: &str| x@);
        assert(ds =~= test_dirs(*language));
        let project = chars_of(project_path);
        let mut r: Vec<String> = Vec::new();
        let mut i: usize = 0;
        while i < dirs.len()
            invariant
                i <= dirs.len(),
                ds == dirs@.map_values(|x: &str| x@),
                project@ == project_path@,
                string_views(r@) == ds.take(i as int).map_values(|d: Seq<char>| search_dir(project_path@, d)),
            decreases dirs.len() - i,
        {
            let d = chars_of(dirs[i]);
            let full = if d.len() == 0 {
                slice(&project, 0, project.len())
            } else {
                join_path_exec(&project, &d)
            };
            proof {
                assert(full@ == search_dir(project_path@, ds[i as int])) by {
                    if d.len() == 0 {
                        assert(project@.subrange(0, project@.len() as int) =~= project@);
                    }
                }
            }
            let ghost r0 = string_views(r@);
            r.push(string_of(&full));
            assert(string_views(r@) =~= r0.push(full@));
            assert(ds.take(i + 1).map_values(|d: Seq<char>| search_dir(project_path@, d)) =~= ds.take(i as int).map_values(|d: Seq<char>| search_dir(project_path@, d)).push(search_dir(project_path@, ds[i as int])));
            i = i + 1;
        }
        assert(ds.take(dirs.len() as int) =~= ds);
        r
    }

    /// Whether a file name marks a test file.
    pub fn is_test_file_name(name: &str) -> (r: bool)
        ensures
            r == is_test_name(name@),
    {
        let n = lower_vec(&chars_of(name));
        contains_exec(&n, &chars_of("test")) || contains_exec(&n, &chars_of("spec"))
    }

    /// The existing test locations among the searched directories: each
    /// directory that exists and holds a file whose name marks a test, with
    /// those files' paths in walk order.
    pub fn find_existing_tests(listings: &Vec<DirListing>) -> (r: Vec<TestLocation>)
        ensures
            r@.len() == kept_listings(listings@).len(),
            forall|i: int| 0 <= i < r@.len() ==> location_of(kept_listings(listings@)[i], #[trigger] r@[i]),
    {
        let mut r: Vec<TestLocation> = Vec::new();
        let mut i: usize = 0;
        while i < listings.len()
            invariant
                i <= listings.len(),
                r@.len() == kept_listings(listings@.take(i as int)).len(),
                forall|k: int| 0 <= k < r@.len() ==> location_of(kept_listings(listings@.take(i as int))[k], #[trigger] r@[k]),
            decreases listings.len() - i,
        {
            let d = &listings[i];
            assert(listings@.take(i + 1).drop_last() =~= listings@.take(i as int));
            if d.exists {
                let mut files: Vec<String> = Vec::new();
                let mut j: usize = 0;
                while j < d.entries.len()
                    invariant
                        j <= d.entries.len(),
                        string_views(files@) == test_entry_paths(d.entries@.take(j as int)),
                    decreases d.entries.len() - j,
                {
                    assert(d.entries@.take(j + 1).drop_last() =~= d.entries@.take(j as int));
                    let ghost f0 = string_views(files@);
                    if Self::is_test_file_name(d.entries[j].0.as_str()) {
                        let p = string_of(&chars_of(d.entries[j].1.as_str()));
                        files.push(p);
                        assert(string_views(files@) =~= f0.push(d.entries@[j as int].1@));
                    }
                    j = j + 1;
                }
                assert(d.entries@.take(d.entries.len() as int) =~= d.entries@);
                if files.len() > 0 {
                    let loc = TestLocation {
                        path: string_of(&chars_of(d.path.as_str())),
                        exists: true,
                        is_directory: d.is_dir,
                        test_files: files,
                    };
                    r.push(loc);
                }
            }
            i = i + 1;
        }
        assert(listings@.take(listings.len() as int) =~= listings@);
        r
    }

    /// The instructions given to the AI for generating tests.
    pub fn get_system_prompt(language: &Language, framework: &TestFramework, test_type: &str) -> (r: String)
        ensures
            r@ == test_system_prompt(*language, *framework, test_type@),
    {
        let mut out: Vec<char> = Vec::new();
        push_str(&mut out, "You are an expert test engineer. Generate comprehensive, idiomatic ");
        push_str(&mut out, test_type);
        push_str(&mut out, " ");
        push_str(&mut out, language.display_name());
        push_str(&mut out, " tests.\n\nRequirements:\n1. Use ");
        push_str(&mut out, framework.display_name());
        push_str(&mut out, " testing framework\n2. Cover edge cases and error conditions\n3. Follow best practices: naming, assertions, setup/teardown\n4. Output ONLY the test file content - no explanations, no markdown code blocks\n5. If ");
        push_str(&mut out, test_type);
        push_str(&mut out, " tests already exist in the file, append new tests rather than duplicating");
        push_str(&mut out, language_advice_exec(*language));
        assert(out@ =~= test_system_prompt(*language, *framework, test_type@));
        string_of(&out)
    }

    /// The request sent to the AI for the tests of a file with `content`.
    pub fn generation_prompt(
        test_type: &str,
        language: &Language,
        framework: &TestFramework,
        content: &str,
    ) -> (r: String)
        ensures
            r@ == generation_prompt(test_type@, *language, *framework, content@),
    {
        let mut out: Vec<char> = Vec::new();
        push_str(&mut out, "Generate ");
        push_str(&mut out, test_type);
        push_str(&mut out, " tests for the following source file.\nLanguage: ");
        push_str(&mut out, language.display_name());
        push_str(&mut out, "\nFramework: ");
        push_str(&mut out, framework.display_name());
        push_str(&mut out, "\n\nSOURCE FILE:\n```");
        let lname = lower_vec(&chars_of(language.display_name()));
        push_all(&mut out, &lname);
        push_str(&mut out, "\n");
        push_str(&mut out, content);
        push_str(&mut out, "\n```");
        assert(out@ =~= generation_prompt(test_type@, *language, *framework, content@));
        string_of(&out)
    }

    /// The function names declared in `content`, found line by line with the
    /// language's declaration keywords; names are the text after a keyword up
    /// to `(`, trimmed, kept when non-empty, not starting with `_`, and under
    /// 50 bytes; consecutive repeats are dropped.
    pub fn analyze_source_functions(content: &str, language: &Language) -> (r: Vec<String>)
        ensures
            string_views(r@) == scan_names(content@, source_patterns(*language), true),
    {
        let pats = source_patterns_exec(*language);
        let mut all: Vec<Vec<char>> = Vec::new();
        collect_names(&mut all, &chars_of(content), &pats, true);
        assert(views(all@) =~= all_names(lines(content@), source_patterns(*language), true));
        dedup_to_strings(&all)
    }

    /// The function names declared in existing test files. Each entry is a
    /// file's path and, when it could be read, its content; only the first
    /// three entries are scanned, each with the keywords of the language its
    /// extension names, and consecutive repeats are dropped at the end.
    pub fn analyze_existing_tests(test_files: &Vec<(String, Option<String>)>) -> (r: Vec<String>)
        ensures
            string_views(r@) == dedup(existing_test_names(test_files@, 0)),
    {
        let mut all: Vec<Vec<char>> = Vec::new();
        let n: usize = if test_files.len() < 3 {
            test_files.len()
        } else {
            3
        };
        let mut i: usize = 0;
        assert(views(all@) =~= seq![]);
        while i < n
            invariant
                i <= n <= 3,
                n <= test_files.len(),
                n == if test_files.len() < 3 { test_files.len() as int } else { 3 },
                views(all@) + existing_test_names(test_files@, i as int) == existing_test_names(test_files@, 0),
            decreases n - i,
        {
            let ghost before = views(all@);
            match &test_files[i].1 {
                Some(content) => {
                    let lang = Self::detect_language(test_files[i].0.as_str());
                    let pats = test_file_patterns_exec(lang);
                    collect_names(&mut all, &chars_of(content.as_str()), &pats, false);
                },
                None => {},
            }
            assert(views(all@) + existing_test_names(test_files@, i + 1) =~= before + existing_test_names(test_files@, i as int));
            i = i + 1;
        }
        assert(existing_test_names(test_files@, i as int) =~= seq![]);
        assert(views(all@) =~= existing_test_names(test_files@, 0));
        dedup_to_strings(&all)
    }

    /// The path for the tests of `source_file`: next to the first existing
    /// test location if there is one, else in the language's usual place.
    pub fn suggest_test_location(
        language: &Language,
        source_file: &str,
        existing_tests: &[TestLocation],
    ) -> (r: String)
        ensures
            r@ == suggested_location(*language, source_file@, existing_tests@),
    {
        let stem: Vec<char> = match file_stem_exec(&chars_of(source_file)) {
            Some(s) => s,
            None => Vec::new(),
        };
        let ext = test_file_ext_exec(*language);
        let mut out: Vec<char> = Vec::new();
        if existing_tests.len() > 0 {
            push_str(&mut out, existing_tests[0].path.as_str());
            push_str(&mut out, "/");
            push_all(&mut out, &stem);
            push_str(&mut out, ".test.");
            push_str(&mut out, ext);
        } else {
            let dir = default_test_dir_exec(*language);
            if dir.is_empty() {
                push_all(&mut out, &stem);
                push_str(&mut out, "_test.");
                push_str(&mut out, ext);
            } else {
                push_str(&mut out, dir);
                push_str(&mut out, "/");
                push_all(&mut out, &stem);
                push_str(&mut out, "_test.");
                push_str(&mut out, ext);
            }
        }
        assert(out@ =~= suggested_location(*language, source_file@, existing_tests@));
        string_of(&out)
    }
}

/// The test file suggested for a source file is in the same language: its
/// extension names that language again.
pub proof fn lemma_suggested_location_language(l: Language, source: Seq<char>, existing: Seq<TestLocation>)
    ensures
        language_of_path(suggested_location(l, source, existing)) == l,
{
    reveal_strlit("rs");
    reveal_strlit("js");
    reveal_strlit("jsx");
    reveal_strlit("mjs");
    reveal_strlit("cjs");
    reveal_strlit("ts");
    reveal_strlit("tsx");
    reveal_strlit("mts");
    reveal_strlit("cts");
    reveal_strlit("py");
    reveal_strlit("go");
    reveal_strlit("java");
    reveal_strlit("cs");
    reveal_strlit("txt");
    reveal_strlit(".test.");
    reveal_strlit("_test.");
    reveal_strlit("/");
    let stem = match file_stem(source) {
        Some(s) => s,
        None => seq![],
    };
    let e = test_file_ext(l);
    assert(e.len() > 0);
    assert(forall|i: int| 0 <= i < e.len() ==> e[i] != '/' && e[i] != '.');
    assert(lower(e) =~= e);
    let a = if existing.len() > 0 {
        existing[0].path@ + "/"@ + stem + ".test"@
    } else if default_test_dir(l).len() == 0 {
        stem + "_test"@
    } else {
        default_test_dir(l) + "/"@ + stem + "_test"@
    };
    reveal_strlit(".test");
    reveal_strlit("_test");
    assert(a.last() == 't');
    if existing.len() > 0 {
        assert(suggested_location(l, source, existing) =~= a + seq!['.'] + e);
    } else if default_test_dir(l).len() == 0 {
        assert(suggested_location(l, source, existing) =~= a + seq!['.'] + e);
    } else {
        assert(suggested_location(l, source, existing) =~= a + seq!['.'] + e);
    }
    crate::paths::lemma_extension_of(a, e);
    assert(extension(suggested_location(l, source, existing)) == Some(e));
    match l {
        Language::Rust => assert(language_of_lower_ext(e) == l),
        Language::JavaScript => {
            assert(e[0] != "rs"@[0]);
            assert(language_of_lower_ext(e) == l);
        },
        Language::TypeScript => {
            assert(e[0] != "rs"@[0] && e[0] != "js"@[0]);
            assert(e.len() != "jsx"@.len() && e.len() != "mjs"@.len() && e.len() != "cjs"@.len());
            assert(language_of_lower_ext(e) == l);
        },
        Language::Python => {
            assert(e != "rs"@ && e != "js"@ && e != "ts"@);
            assert(language_of_lower_ext(e) == l);
        },
        Language::Go => {
            assert(e != "rs"@ && e != "js"@ && e != "ts"@ && e != "py"@);
            assert(language_of_lower_ext(e) == l);
        },
        Language::Java => {
            assert(e != "jsx"@ && e != "mjs"@ && e != "cjs"@ && e != "tsx"@ && e != "mts"@ && e != "cts"@);
            assert(language_of_lower_ext(e) == l);
        },
        Language::CSharp => {
            assert(e[0] != "rs"@[0] && e[0] != "js"@[0] && e[0] != "ts"@[0] && e[0] != "py"@[0] && e[0] != "go"@[0]);
            assert(language_of_lower_ext(e) == l);
        },
        Language::Unknown => {
            assert(e != "jsx"@ && e != "mjs"@ && e != "cjs"@ && e != "tsx"@ && e != "mts"@ && e != "cts"@ && e != "java"@);
            assert(language_of_lower_ext(e) == l);
        },
    }
}

/// The function names reported never repeat one right after another, and
/// the last name found is kept.
pub proof fn lemma_dedup_no_repeats(s: Seq<Seq<char>>)
    ensures
        s.len() > 0 ==> dedup(s).len() > 0 && dedup(s).last() == s.last(),
        forall|i: int| 0 <= i < dedup(s).len() - 1 ==> #[trigger] dedup(s)[i] != dedup(s)[i + 1],
    decreases s.len(),
{
    if s.len() > 1 {
        let prev = dedup(s.drop_last());
        lemma_dedup_no_repeats(s.drop_last());
        assert(s.drop_last().last() == s[s.len() - 2]);
        let cur = dedup(s);
        if s.last() != s[s.len() - 2] {
            assert forall|i: int| 0 <= i < cur.len() - 1 implies #[trigger] cur[i] != cur[i + 1] by {
                if i < prev.len() - 1 {
                    assert(cur[i] == prev[i] && cur[i + 1] == prev[i + 1]);
                } else {
                    assert(cur[i] == prev.last());
                }
            }
        }
    }
}

/// Each listed extension, in any case, names its language, and every other
/// extension names none.
pub proof fn lemma_extension_languages(ext: Seq<char>)
    ensures
        lower(ext) == "rs"@ ==> language_of_lower_ext(lower(ext)) == Language::Rust,
        (lower(ext) == "js"@ || lower(ext) == "jsx"@ || lower(ext) == "mjs"@ || lower(ext) == "cjs"@)
            ==> language_of_lower_ext(lower(ext)) == Language::JavaScript,
        (lower(ext) == "ts"@ || lower(ext) == "tsx"@ || lower(ext) == "mts"@ || lower(ext) == "cts"@)
            ==> language_of_lower_ext(lower(ext)) == Language::TypeScript,
        lower(ext) == "py"@ ==> language_of_lower_ext(lower(ext)) == Language::Python,
        lower(ext) == "go"@ ==> language_of_lower_ext(lower(ext)) == Language::Go,
        lower(ext) == "java"@ ==> language_of_lower_ext(lower(ext)) == Language::Java,
        lower(ext) == "cs"@ ==> language_of_lower_ext(lower(ext)) == Language::CSharp,
        !(lower(ext) == "rs"@ || lower(ext) == "js"@ || lower(ext) == "jsx"@ || lower(ext) == "mjs"@
            || lower(ext) == "cjs"@ || lower(ext) == "ts"@ || lower(ext) == "tsx"@ || lower(ext) == "mts"@
            || lower(ext) == "cts"@ || lower(ext) == "py"@ || lower(ext) == "go"@ || lower(ext) == "java"@
            || lower(ext) == "cs"@) ==> language_of_lower_ext(lower(ext)) == Language::Unknown,
{
    reveal_strlit("rs");
    reveal_strlit("js");
    reveal_strlit("jsx");
    reveal_strlit("mjs");
    reveal_strlit("cjs");
    reveal_strlit("ts");
    reveal_strlit("tsx");
    reveal_strlit("mts");
    reveal_strlit("cts");
    reveal_strlit("py");
    reveal_strlit("go");
    reveal_strlit("java");
    reveal_strlit("cs");
    assert("rs"@[0] == 'r' && "js"@[0] == 'j' && "jsx"@[0] == 'j' && "mjs"@[0] == 'm' && "cjs"@[0] == 'c');
    assert("ts"@[0] == 't' && "tsx"@[0] == 't' && "mts"@[0] == 'm' && "cts"@[0] == 'c' && "py"@[0] == 'p');
    assert("go"@[0] == 'g' && "java"@[0] == 'j' && "cs"@[0] == 'c' && "java"@[1] == 'a' && "js"@[1] == 's');
    assert("jsx"@[1] == 's');
    assert("mjs"@[1] == 'j' && "cjs"@[1] == 'j' && "mts"@[1] == 't' && "cts"@[1] == 't' && "cs"@[1] == 's');
}

} // verus!
