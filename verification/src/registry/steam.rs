//! Steam's own files: the list of library folders, and the manifest of an
//! installed title.

use crate::text::split::{field, lines, nth_field, split_lines, views};
use crate::text::{chars_of, has_prefix, starts_with, string_of, string_views, trim, trim_chars};
use vstd::prelude::*;

verus! {

/// What stands between the third and the fourth quotation mark of a line,
/// without the white space round the line: the value of a line of the form
/// `"key" "value"`.
pub open spec fn quoted_value(line: Seq<char>) -> Option<Seq<char>> {
    field(trim(line), '"', 3)
}

/// Whether a line, without the white space round it, begins with `key` in
/// quotation marks.
pub open spec fn has_key(line: Seq<char>, key: Seq<char>) -> bool {
    starts_with(trim(line), seq!['"'] + key + seq!['"'])
}

/// The library folders that the lines name: the value of every line with
/// the key `path`, in order.
pub open spec fn folders_in(ls: Seq<Seq<char>>) -> Seq<Seq<char>>
    decreases ls.len(),
{
    if ls.len() == 0 {
        Seq::empty()
    } else if has_key(ls[0], "path"@) && quoted_value(ls[0]) is Some {
        seq![quoted_value(ls[0])->Some_0] + folders_in(ls.drop_first())
    } else {
        folders_in(ls.drop_first())
    }
}

/// The name and the directory of a title after the lines are read, given
/// what was read before them: the last line with the key `name` gives the
/// name, the last with the key `installdir` the directory.
pub open spec fn manifest_fields(
    ls: Seq<Seq<char>>,
    name: Option<Seq<char>>,
    dir: Option<Seq<char>>,
) -> (Option<Seq<char>>, Option<Seq<char>>)
    decreases ls.len(),
{
    if ls.len() == 0 {
        (name, dir)
    } else if has_key(ls[0], "name"@) {
        manifest_fields(
            ls.drop_first(),
            if quoted_value(ls[0]) is Some {
                quoted_value(ls[0])
            } else {
                name
            },
            dir,
        )
    } else if has_key(ls[0], "installdir"@) {
        manifest_fields(
            ls.drop_first(),
            name,
            if quoted_value(ls[0]) is Some {
                quoted_value(ls[0])
            } else {
                dir
            },
        )
    } else {
        manifest_fields(ls.drop_first(), name, dir)
    }
}

/// A key in quotation marks.
fn quoted(key: &str) -> (q: Vec<char>)
    ensures
        q@ == seq!['"'] + key@ + seq!['"'],
{
    let mut q: Vec<char> = Vec::new();
    q.push('"');
    let mut k = chars_of(key);
    q.append(&mut k);
    q.push('"');
    assert(q@ =~= seq!['"'] + key@ + seq!['"']);
    q
}

/// The library folders that the text of Steam's list of libraries names.
pub fn parse_vdf_file(content: &str) -> (folders: Vec<String>)
    ensures
        string_views(folders@) == folders_in(lines(content@)),
{
    let ls = split_lines(&chars_of(content));
    let key = quoted("path");
    let mut folders: Vec<String> = Vec::new();
    let mut i: usize = 0;
    assert(views(ls@).skip(0) =~= views(ls@));
    assert(string_views(folders@) + folders_in(views(ls@)) =~= folders_in(
        views(ls@),
    ));
    while i < ls.len()
        invariant
            i <= ls.len(),
            views(ls@) == lines(content@),
            key@ == seq!['"'] + "path"@ + seq!['"'],
            string_views(folders@) + folders_in(views(ls@).skip(i as int))
                == folders_in(lines(content@)),
        decreases ls.len() - i,
    {
        let ghost rest = views(ls@).skip(i as int);
        let ghost before = string_views(folders@);
        assert(rest[0] == ls@[i as int]@);
        assert(rest.drop_first() =~= views(ls@).skip(i + 1));
        let line = trim_chars(&ls[i]);
        if has_prefix(&line, &key) {
            match nth_field(&line, '"', 3) {
                Some(value) => {
                    folders.push(string_of(&value));
                    proof {
                        assert(string_views(folders@) =~= before
                            + seq![value@]);
                        assert(string_views(folders@) + folders_in(
                            rest.drop_first(),
                        ) =~= before + folders_in(rest));
                    }
                },
                None => {},
            }
        }
        i += 1;
    }
    assert(views(ls@).skip(i as int).len() == 0);
    assert(string_views(folders@) + folders_in(views(ls@).skip(i as int))
        =~= string_views(folders@));
    folders
}

/// The name and the installation directory that the text of a title's
/// manifest gives, where it gives both.
pub fn parse_acf_file(content: &str) -> (found: Option<(String, String)>)
    ensures
        match manifest_fields(lines(content@), None, None) {
            (Some(name), Some(dir)) => found matches Some(pair) && pair.0@ == name && pair.1@
                == dir,
            _ => found is None,
        },
{
    let ls = split_lines(&chars_of(content));
    let name_key = quoted("name");
    let dir_key = quoted("installdir");
    let mut name: Option<Vec<char>> = None;
    let mut dir: Option<Vec<char>> = None;
    let mut i: usize = 0;
    assert(views(ls@).skip(0) =~= views(ls@));
    while i < ls.len()
        invariant
            i <= ls.len(),
            views(ls@) == lines(content@),
            name_key@ == seq!['"'] + "name"@ + seq!['"'],
            dir_key@ == seq!['"'] + "installdir"@ + seq!['"'],
            manifest_fields(views(ls@).skip(i as int), chars_view(name), chars_view(dir))
                == manifest_fields(lines(content@), None, None),
        decreases ls.len() - i,
    {
        let ghost rest = views(ls@).skip(i as int);
        assert(rest[0] == ls@[i as int]@);
        assert(rest.drop_first() =~= views(ls@).skip(i + 1));
        let line = trim_chars(&ls[i]);
        if has_prefix(&line, &name_key) {
            match nth_field(&line, '"', 3) {
                Some(value) => {
                    name = Some(value);
                },
                None => {},
            }
        } else if has_prefix(&line, &dir_key) {
            match nth_field(&line, '"', 3) {
                Some(value) => {
                    dir = Some(value);
                },
                None => {},
            }
        }
        i += 1;
    }
    assert(views(ls@).skip(i as int).len() == 0);
    match (name, dir) {
        (Some(n), Some(d)) => Some((string_of(&n), string_of(&d))),
        _ => None,
    }
}

/// What an optional vector of characters holds.
pub open spec fn chars_view(o: Option<Vec<char>>) -> Option<Seq<char>> {
    match o {
        Some(v) => Some(v@),
        None => None,
    }
}

} // verus!
