//! Where articles live: the store abstraction and the local-directory backend.

use vstd::prelude::*;

verus! {

/// Extension of an article file in the local backend.
pub const MD_SUFFIX: &'static str = ".md";

/// Separator between the storage root and a file name.
pub const PATH_SEPARATOR: &'static str = "/";

/// Characters an identifier may not hold: they would let a path leave the
/// storage root.
pub open spec fn is_id_char(c: char) -> bool {
    c != '/' && c != '\\' && c != '\0'
}

pub open spec fn valid_id(id: Seq<char>) -> bool {
    forall|i: int| 0 <= i < id.len() ==> is_id_char(#[trigger] id[i])
}

/// Name of the file that holds the article `id`.
pub open spec fn file_name_of(id: Seq<char>) -> Seq<char> {
    id + MD_SUFFIX@
}

/// Identifier that a file name stands for, if any.
pub open spec fn id_of_file_name(name: Seq<char>) -> Option<Seq<char>> {
    if name.len() >= 3 && name.subrange(name.len() - 3, name.len() as int) == MD_SUFFIX@
        && valid_id(name.subrange(0, name.len() - 3)) {
        Some(name.subrange(0, name.len() - 3))
    } else {
        None
    }
}

/// Identifiers of a directory holding `names`, in enumeration order.
pub open spec fn listed_ids(names: Seq<Seq<char>>) -> Seq<Seq<char>>
    decreases names.len(),
{
    if names.len() == 0 {
        Seq::empty()
    } else {
        let rest = listed_ids(names.drop_last());
        match id_of_file_name(names.last()) {
            Some(id) => rest.push(id),
            None => rest,
        }
    }
}

/// Path of the file that holds the article `id` under `dir`.
pub open spec fn path_of(dir: Seq<char>, id: Seq<char>) -> Seq<char> {
    dir + PATH_SEPARATOR@ + file_name_of(id)
}

proof fn lemma_id_of_file_name_of(name: Seq<char>, id: Seq<char>)
    ensures
        id_of_file_name(name) == Some(id) <==> valid_id(id) && name == file_name_of(id),
{
    reveal_strlit(".md");
    if valid_id(id) && name == file_name_of(id) {
        assert(name.subrange(name.len() - 3, name.len() as int) =~= MD_SUFFIX@);
        assert(name.subrange(0, name.len() - 3) =~= id);
    }
    if id_of_file_name(name) == Some(id) {
        assert(name =~= name.subrange(0, name.len() - 3) + name.subrange(
            name.len() - 3,
            name.len() as int,
        ));
    }
}

proof fn lemma_listed_ids_contains(names: Seq<Seq<char>>, id: Seq<char>)
    ensures
        listed_ids(names).contains(id) <==> valid_id(id) && names.contains(file_name_of(id)),
    decreases names.len(),
{
    if names.len() > 0 {
        let init = names.drop_last();
        lemma_listed_ids_contains(init, id);
        lemma_id_of_file_name_of(names.last(), id);
        assert(names =~= init.push(names.last()));
        if names.contains(file_name_of(id)) && !init.contains(file_name_of(id)) {
            let k = choose|k: int| 0 <= k < names.len() && names[k] == file_name_of(id);
            if k < init.len() {
                assert(init[k] == names[k]);
            }
        }
        if init.contains(file_name_of(id)) {
            let k = choose|k: int| 0 <= k < init.len() && init[k] == file_name_of(id);
            assert(names[k] == init[k]);
        }
        match id_of_file_name(names.last()) {
            Some(last) => {
                let rest = listed_ids(init);
                assert(listed_ids(names) == rest.push(last));
                if rest.push(last).contains(id) && !rest.contains(id) {
                    let k = choose|k: int| 0 <= k < rest.len() + 1 && rest.push(last)[k] == id;
                    if k < rest.len() {
                        assert(rest[k] == rest.push(last)[k]);
                    }
                }
                if rest.contains(id) {
                    let k = choose|k: int| 0 <= k < rest.len() && rest[k] == id;
                    assert(rest.push(last)[k] == rest[k]);
                }
                if id == last {
                    assert(rest.push(last)[rest.len() as int] == id);
                }
            },
            None => {},
        }
    }
}

/// Every identifier that a directory listing yields resolves: it is a valid
/// identifier, so `article_path` accepts it, and the file it maps to is one of
/// the directory's entries.
pub proof fn lemma_listed_article_resolves(names: Seq<Seq<char>>, id: Seq<char>)
    requires
        listed_ids(names).contains(id),
    ensures
        valid_id(id),
        names.contains(file_name_of(id)),
{
    lemma_listed_ids_contains(names, id);
}

/// An identifier that the listing does not yield cannot be read: either
/// `article_path` refuses it, or the file it maps to is not in the directory.
pub proof fn lemma_unlisted_article_absent(names: Seq<Seq<char>>, id: Seq<char>)
    requires
        !listed_ids(names).contains(id),
    ensures
        !valid_id(id) || !names.contains(file_name_of(id)),
{
    lemma_listed_ids_contains(names, id);
}

pub struct ArticleInfo {
    title: String,
}

/// A backend that articles are read from. Any failure to list is one opaque
/// error; any failure to read an article is one not-found error.
pub trait ArticleProvider {
    fn list_articles(&self) -> Result<Vec<String>, ()>;

    fn show_article(&self, id: &str) -> Result<String, ()>;
}

/// Provides articles from a directory on the local filesystem
pub struct LocalArticleProvider {
    pub dir: String,
}

impl LocalArticleProvider {
    pub fn new(dir: String) -> (r: Self)
        ensures
            r.dir@ == dir@,
    {
        Self { dir }
    }

    /// The file to read for `id`, or `None` where `id` would leave the directory.
    pub fn article_path(&self, id: &str) -> (r: Option<String>)
        ensures
            r is Some <==> valid_id(id@),
            r is Some ==> r->0@ == path_of(self.dir@, id@),
    {
        if !is_valid_id(id) {
            return None;
        }
        let mut path = self.dir.clone();
        path.append(PATH_SEPARATOR);
        path.append(id);
        path.append(MD_SUFFIX);
        Some(path)
    }
}

pub fn is_valid_id(id: &str) -> (r: bool)
    ensures
        r == valid_id(id@),
{
    let n = id.unicode_len();
    let mut i: usize = 0;
    while i < n
        invariant
            n == id@.len(),
            i <= n,
            forall|j: int| 0 <= j < i ==> is_id_char(#[trigger] id@[j]),
        decreases n - i,
    {
        let c = id.get_char(i);
        if c == '/' || c == '\\' || c == '\0' {
            return false;
        }
        i += 1;
    }
    true
}

/// The identifier that the file `file_name` stands for: its name without the
/// markdown extension, where it has that extension and the rest is a valid
/// identifier.
pub fn article_id(file_name: &str) -> (r: Option<String>)
    ensures
        match r {
            Some(s) => id_of_file_name(file_name@) == Some(s@),
            None => id_of_file_name(file_name@) is None,
        },
{
    proof {
        reveal_strlit(".md");
    }
    let n = file_name.unicode_len();
    if n < 3 {
        return None;
    }
    if file_name.get_char(n - 3) != '.' || file_name.get_char(n - 2) != 'm' || file_name.get_char(
        n - 1,
    ) != 'd' {
        assert(file_name@.subrange(n - 3, n as int) != MD_SUFFIX@) by {
            let t = file_name@.subrange(n - 3, n as int);
            assert(t[0] == file_name@[n - 3]);
            assert(t[1] == file_name@[n - 2]);
            assert(t[2] == file_name@[n - 1]);
        }
        return None;
    }
    assert(file_name@.subrange(n - 3, n as int) =~= MD_SUFFIX@);
    let stem = file_name.substring_char(0, n - 3);
    if is_valid_id(stem) {
        Some(String::from_str(stem))
    } else {
        None
    }
}

/// The identifiers of a directory whose entries are named `names`, in the
/// same order: one for each markdown file with a valid stem.
pub fn ids_from_file_names(names: &Vec<String>) -> (r: Vec<String>)
    ensures
        r@.map_values(|s: String| s@) == listed_ids(names@.map_values(|s: String| s@)),
{
    let mut ids: Vec<String> = Vec::new();
    let mut i: usize = 0;
    while i < names.len()
        invariant
            i <= names@.len(),
            ids@.map_values(|s: String| s@) == listed_ids(
                names@.subrange(0, i as int).map_values(|s: String| s@),
            ),
        decreases names@.len() - i,
    {
        let ghost before = names@.subrange(0, i as int).map_values(|s: String| s@);
        let ghost after = names@.subrange(0, i + 1).map_values(|s: String| s@);
        assert(after.drop_last() =~= before);
        assert(after.last() == names@[i as int]@);
        match article_id(names[i].as_str()) {
            Some(id) => {
                ids.push(id);
            },
            None => {},
        }
        assert(ids@.map_values(|s: String| s@) =~= listed_ids(after));
        i += 1;
    }
    assert(names@.subrange(0, names@.len() as int) =~= names@);
    ids
}

} // verus!
