//! The template catalog: the fixed list of directories every project gets,
//! and the fixed list of starter files with their embedded contents.

use vstd::prelude::*;
use vstd::string::StringExecFns;

use crate::path::{PathModel, ProjectPath};

verus! {

/// How many directories the scaffold creates.
pub const PROJECT_DIR_COUNT: usize = 4;

/// How many starter files the scaffold creates.
pub const PROJECT_FILE_COUNT: usize = 4;

/// The segments, relative to the project root, of the i-th scaffold directory.
pub open spec fn spec_dir_rel(i: int) -> Seq<Seq<char>> {
    if i == 0 {
        seq!["src"@]
    } else if i == 1 {
        seq!["lib"@]
    } else if i == 2 {
        seq!["tests"@]
    } else {
        seq!["tests"@, "unit"@]
    }
}

/// The segments, relative to the project root, of the i-th starter file.
pub open spec fn spec_file_rel(i: int) -> Seq<Seq<char>> {
    if i == 0 {
        seq!["src"@, "main.c"@]
    } else if i == 1 {
        seq!["tests"@, "run.c"@]
    } else if i == 2 {
        seq!["tests"@, "test_all.c"@]
    } else {
        seq!["tests"@, "unit"@, "it_works.c"@]
    }
}

/// The embedded text of the i-th starter file.
pub open spec fn spec_file_text(i: int) -> Seq<char> {
    if i == 0 {
        "#include <stdio.h>\n\nint main(void) {\n    printf(\"Hello, world!\\n\");\n    return 0;\n}\n"@
    } else if i == 1 {
        "#include <stdio.h>\n\nint test_all(void);\n\nint main(void) {\n    int failed = test_all();\n    printf(\"%d test(s) failed\\n\", failed);\n    return failed;\n}\n"@
    } else if i == 2 {
        "int it_works(void);\n\nint test_all(void) {\n    int failed = 0;\n    failed += it_works();\n    return failed;\n}\n"@
    } else {
        "int it_works(void) {\n    return 0;\n}\n"@
    }
}

fn seg1(a: &str) -> (r: Vec<String>)
    ensures
        r.deep_view() == seq![a@],
{
    let mut r: Vec<String> = Vec::new();
    r.push(String::from_str(a));
    proof {
        assert(r.deep_view() =~= seq![a@]);
    }
    r
}

fn seg2(a: &str, b: &str) -> (r: Vec<String>)
    ensures
        r.deep_view() == seq![a@, b@],
{
    let mut r: Vec<String> = Vec::new();
    r.push(String::from_str(a));
    r.push(String::from_str(b));
    proof {
        assert(r.deep_view() =~= seq![a@, b@]);
    }
    r
}

fn seg3(a: &str, b: &str, c: &str) -> (r: Vec<String>)
    ensures
        r.deep_view() == seq![a@, b@, c@],
{
    let mut r: Vec<String> = Vec::new();
    r.push(String::from_str(a));
    r.push(String::from_str(b));
    r.push(String::from_str(c));
    proof {
        assert(r.deep_view() =~= seq![a@, b@, c@]);
    }
    r
}

/// The relative segments of the i-th scaffold directory.
pub fn dir_rel(i: usize) -> (r: Vec<String>)
    requires
        i < PROJECT_DIR_COUNT,
    ensures
        r.deep_view() == spec_dir_rel(i as int),
{
    if i == 0 {
        seg1("src")
    } else if i == 1 {
        seg1("lib")
    } else if i == 2 {
        seg1("tests")
    } else {
        seg2("tests", "unit")
    }
}

/// The relative segments of the i-th starter file.
pub fn file_rel(i: usize) -> (r: Vec<String>)
    requires
        i < PROJECT_FILE_COUNT,
    ensures
        r.deep_view() == spec_file_rel(i as int),
{
    if i == 0 {
        seg2("src", "main.c")
    } else if i == 1 {
        seg2("tests", "run.c")
    } else if i == 2 {
        seg2("tests", "test_all.c")
    } else {
        seg3("tests", "unit", "it_works.c")
    }
}

/// The embedded text of the i-th starter file.
pub fn file_text(i: usize) -> (r: String)
    requires
        i < PROJECT_FILE_COUNT,
    ensures
        r@ == spec_file_text(i as int),
{
    if i == 0 {
        String::from_str(
            "#include <stdio.h>\n\nint main(void) {\n    printf(\"Hello, world!\\n\");\n    return 0;\n}\n",
        )
    } else if i == 1 {
        String::from_str(
            "#include <stdio.h>\n\nint test_all(void);\n\nint main(void) {\n    int failed = test_all();\n    printf(\"%d test(s) failed\\n\", failed);\n    return failed;\n}\n",
        )
    } else if i == 2 {
        String::from_str(
            "int it_works(void);\n\nint test_all(void) {\n    int failed = 0;\n    failed += it_works();\n    return failed;\n}\n",
        )
    } else {
        String::from_str("int it_works(void) {\n    return 0;\n}\n")
    }
}

/// The directory, relative to a source tree's root, where the template files
/// conventionally live.
pub fn template_dir() -> (r: ProjectPath)
    ensures
        r@ == (PathModel { absolute: false, segments: seq!["template"@] }),
{
    let mut r = ProjectPath::new_relative();
    r.push(String::from_str("template"));
    proof {
        assert(Seq::<Seq<char>>::empty().push("template"@) =~= seq!["template"@]);
    }
    r
}

} // verus!
