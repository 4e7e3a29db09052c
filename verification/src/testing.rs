//! The small file tree used to try the indexer out: which files it holds and
//! what they contain (three of them are copies of one another).
use vstd::prelude::*;

verus! {

/// One file of the tree: an optional sub-directory, a name and its content.
pub struct TestFile {
    pub dir: Option<&'static str>,
    pub name: &'static str,
    pub content: &'static str,
}

pub open spec fn test_file_view(f: TestFile) -> (Option<Seq<char>>, Seq<char>, Seq<char>) {
    (
        match f.dir {
            Some(d) => Some(d@),
            None => None,
        },
        f.name@,
        f.content@,
    )
}

/// The directory the tree's nested file lives in.
pub open spec fn sub_dir() -> Seq<char> {
    "subfolder"@
}

/// The content shared by the three copies.
pub open spec fn duplicate_content() -> Seq<char> {
    "Контент для поиска дубликатов"@
}

/// The tree, in the order its files are written and checked.
pub open spec fn test_tree() -> Seq<(Option<Seq<char>>, Seq<char>, Seq<char>)> {
    seq![
        (None, "unique.txt"@, "Уникальный контент"@),
        (None, "original.txt"@, duplicate_content()),
        (None, "copy_of_original.txt"@, duplicate_content()),
        (Some(sub_dir()), "another_copy.txt"@, duplicate_content()),
        (None, "debug.log"@, "мусор для фильтра"@),
    ]
}

pub fn sub_dir_name() -> (r: &'static str)
    ensures
        r@ == sub_dir(),
{
    "subfolder"
}

pub fn test_files() -> (r: Vec<TestFile>)
    ensures
        r@.map_values(|f: TestFile| test_file_view(f)) == test_tree(),
{
    let copy = "Контент для поиска дубликатов";
    let mut v: Vec<TestFile> = Vec::new();
    v.push(TestFile { dir: None, name: "unique.txt", content: "Уникальный контент" });
    v.push(TestFile { dir: None, name: "original.txt", content: copy });
    v.push(TestFile { dir: None, name: "copy_of_original.txt", content: copy });
    v.push(TestFile { dir: Some("subfolder"), name: "another_copy.txt", content: copy });
    v.push(TestFile { dir: None, name: "debug.log", content: "мусор для фильтра" });
    assert(v@.map_values(|f: TestFile| test_file_view(f)) =~= test_tree());
    v
}

} // verus!
