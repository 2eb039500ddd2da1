//! Where the settings file is looked for, and what a save folder must hold.
use vstd::prelude::*;
use crate::paths::push_char;
use crate::text::is_white_space;

verus! {

/// The places the settings file is looked for, nearest first.
pub open spec fn env_candidates() -> Seq<Seq<char>> {
    seq![".env"@, "../.env"@, "../../.env"@]
}

/// Whether one of `names` reads `want`.
pub open spec fn names_contain(names: Seq<String>, want: Seq<char>) -> bool {
    exists|i: int| 0 <= i < names.len() && #[trigger] names[i]@ == want
}

/// The first candidate marked present, if any.
pub open spec fn first_present(present: Seq<bool>, from: int) -> Option<int>
    decreases 3 - from,
{
    if from >= 3 || from >= present.len() {
        None
    } else if present[from] {
        Some(from)
    } else {
        first_present(present, from + 1)
    }
}

/// The places the settings file is looked for, nearest first.
pub fn env_file_candidates() -> (r: Vec<String>)
    ensures
        r@.map_values(|s: String| s@) == env_candidates(),
{
    let mut r: Vec<String> = Vec::new();
    r.push(".env".to_owned());
    r.push("../.env".to_owned());
    r.push("../../.env".to_owned());
    assert(r@.map_values(|s: String| s@) =~= env_candidates());
    r
}

/// Picks the settings file: the first of `env_file_candidates` that
/// `present` marks as existing (the flags follow the candidates' order).
pub fn find_env_file(present: &Vec<bool>) -> (r: Result<String, String>)
    ensures
        match first_present(present@, 0) {
            Some(i) => (r matches Ok(p) && p@ == env_candidates()[i]),
            None => (r matches Err(m) && m@ == "没有找到 .env 文件"@),
        },
{
    let candidates = env_file_candidates();
    assert(candidates@.map_values(|s: String| s@).len() == 3);
    let mut i: usize = 0;
    while i < 3 && i < present.len()
        invariant
            i <= 3,
            candidates@.len() == 3,
            candidates@.map_values(|s: String| s@) == env_candidates(),
            first_present(present@, 0) == first_present(present@, i as int),
        decreases 3 - i,
    {
        if present[i] {
            let c = candidates[i].clone();
            assert(candidates@.map_values(|s: String| s@)[i as int] == candidates@[i as int]@);
            return Ok(c);
        }
        i = i + 1;
    }
    Err("没有找到 .env 文件".to_owned())
}

/// Whether `want` is among `names`.
fn contains_name(names: &Vec<String>, want: &str) -> (r: bool)
    ensures
        r == names_contain(names@, want@),
{
    let w = want.to_owned();
    let mut i: usize = 0;
    while i < names.len()
        invariant
            i <= names@.len(),
            w@ == want@,
            forall|j: int| 0 <= j < i ==> #[trigger] names@[j]@ != want@,
        decreases names@.len() - i,
    {
        if names[i] == w {
            return true;
        }
        i = i + 1;
    }
    false
}

/// Whether the sub-directories of a folder make it a save folder: each of
/// `persistent`, `stats` and `world` is among them.
pub fn has_save_layout(subdirs: &Vec<String>) -> (r: bool)
    ensures
        r == (names_contain(subdirs@, "persistent"@) && names_contain(subdirs@, "stats"@)
            && names_contain(subdirs@, "world"@)),
{
    let a = contains_name(subdirs, "persistent");
    let b = contains_name(subdirs, "stats");
    let c = contains_name(subdirs, "world");
    a && b && c
}

/// The pieces of `s` between line feeds, in order; there is always one more
/// piece than there are line feeds.
pub open spec fn pieces(s: Seq<char>) -> Seq<Seq<char>>
    decreases s.len(),
{
    if s.len() == 0 {
        seq![Seq::empty()]
    } else {
        let p = pieces(s.drop_last());
        if s.last() == '\n' {
            p.push(Seq::empty())
        } else {
            p.update(p.len() - 1, p.last().push(s.last()))
        }
    }
}

/// A line without the carriage return that ended it, if one did.
pub open spec fn strip_cr(l: Seq<char>) -> Seq<char> {
    if l.len() > 0 && l.last() == '\r' {
        l.drop_last()
    } else {
        l
    }
}

/// The lines of a text: ended by `\n` or `\r\n`, the last one's ending
/// optional, and no empty line after a final line ending.
pub open spec fn text_lines(s: Seq<char>) -> Seq<Seq<char>> {
    let p = pieces(s);
    let ended = p.drop_last().map_values(|l: Seq<char>| strip_cr(l));
    if p.last().len() == 0 {
        ended
    } else {
        ended.push(p.last())
    }
}

/// `s` without leading white space.
pub open spec fn trim_start_ws(s: Seq<char>) -> Seq<char>
    decreases s.len(),
{
    if s.len() > 0 && is_white_space(s[0]) {
        trim_start_ws(s.drop_first())
    } else {
        s
    }
}

/// `s` without trailing white space.
pub open spec fn trim_end_ws(s: Seq<char>) -> Seq<char>
    decreases s.len(),
{
    if s.len() > 0 && is_white_space(s.last()) {
        trim_end_ws(s.drop_last())
    } else {
        s
    }
}

/// `s` without leading or trailing white space.
pub open spec fn trim_ws(s: Seq<char>) -> Seq<char> {
    trim_end_ws(trim_start_ws(s))
}

/// The key that marks the save path in the settings file.
pub open spec fn save_path_key() -> Seq<char> {
    "SAVE_PATH="@
}

/// Whether `s` begins with `p`.
pub open spec fn begins_with(s: Seq<char>, p: Seq<char>) -> bool {
    p.len() <= s.len() && s.take(p.len() as int) == p
}

/// The save path a line sets: the trimmed text after the key, when the
/// trimmed line starts with the key and the value is not empty.
pub open spec fn save_path_in_line(line: Seq<char>) -> Option<Seq<char>> {
    let t = trim_ws(line);
    if begins_with(t, save_path_key()) {
        let v = trim_ws(t.skip(save_path_key().len() as int));
        if v.len() > 0 {
            Some(v)
        } else {
            None
        }
    } else {
        None
    }
}

/// The save path that the first line setting one sets.
pub open spec fn first_save_path(lines: Seq<Seq<char>>) -> Option<Seq<char>>
    decreases lines.len(),
{
    if lines.len() == 0 {
        None
    } else {
        match save_path_in_line(lines[0]) {
            Some(v) => Some(v),
            None => first_save_path(lines.drop_first()),
        }
    }
}

/// The lines joined by line feeds.
pub open spec fn join_lines(lines: Seq<Seq<char>>) -> Seq<char>
    decreases lines.len(),
{
    if lines.len() == 0 {
        Seq::empty()
    } else if lines.len() == 1 {
        lines[0]
    } else {
        join_lines(lines.drop_last()) + seq!['\n'] + lines.last()
    }
}

/// The lines that do not set the save path (as written, untrimmed).
pub open spec fn other_lines(lines: Seq<Seq<char>>) -> Seq<Seq<char>>
    decreases lines.len(),
{
    if lines.len() == 0 {
        Seq::empty()
    } else {
        let rest = other_lines(lines.drop_last());
        if begins_with(lines.last(), save_path_key()) {
            rest
        } else {
            rest.push(lines.last())
        }
    }
}

/// A settings file with its save path replaced by `path`: the other lines
/// kept in order, then the key and the path on a line of their own.
pub open spec fn with_save_path(content: Seq<char>, path: Seq<char>) -> Seq<char> {
    let kept = join_lines(other_lines(text_lines(content)));
    let head = if kept.len() > 0 {
        kept + seq!['\n']
    } else {
        kept
    };
    head + save_path_key() + path
}

/// Relies on `str::trim`: the text without leading and trailing characters
/// of the Unicode White_Space property.
#[verifier::external_body]
fn trim(s: &str) -> (r: &str)
    ensures
        r@ == trim_ws(s@),
{
    s.trim()
}

/// Relies on `str::strip_prefix`: the rest of the text after `p`, when the
/// text starts with `p`.
#[verifier::external_body]
fn strip_prefix<'a>(s: &'a str, p: &str) -> (r: Option<&'a str>)
    ensures
        r is Some <==> begins_with(s@, p@),
        r matches Some(rest) ==> rest@ == s@.skip(p@.len() as int),
{
    s.strip_prefix(p)
}

/// A string holding the characters of `cs`.
fn string_of(cs: &Vec<char>) -> (r: String)
    ensures
        r@ == cs@,
{
    let mut out = String::new();
    let mut i: usize = 0;
    while i < cs.len()
        invariant
            i <= cs@.len(),
            out@ == cs@.subrange(0, i as int),
        decreases cs@.len() - i,
    {
        push_char(&mut out, cs[i]);
        assert(cs@.subrange(0, i + 1) =~= cs@.subrange(0, i as int).push(cs@[i as int]));
        i = i + 1;
    }
    assert(cs@.subrange(0, i as int) =~= cs@);
    out
}

/// A line without the carriage return that ended it.
fn line_without_cr(cs: &Vec<char>) -> (r: String)
    ensures
        r@ == strip_cr(cs@),
{
    if cs.len() > 0 && cs[cs.len() - 1] == '\r' {
        let mut out = String::new();
        let mut i: usize = 0;
        while i < cs.len() - 1
            invariant
                cs@.len() > 0,
                i + 1 <= cs@.len(),
                out@ == cs@.subrange(0, i as int),
            decreases cs@.len() - i,
        {
            push_char(&mut out, cs[i]);
            assert(cs@.subrange(0, i + 1) =~= cs@.subrange(0, i as int).push(cs@[i as int]));
            i = i + 1;
        }
        assert(cs@.subrange(0, i as int) =~= cs@.drop_last());
        out
    } else {
        string_of(cs)
    }
}

/// Splits a text into its lines, as `str::lines` does.
pub fn lines_of(s: &str) -> (r: Vec<String>)
    ensures
        r@.map_values(|l: String| l@) == text_lines(s@),
{
    let mut done: Vec<String> = Vec::new();
    let mut cur: Vec<char> = Vec::new();
    for c in it: s.chars()
        invariant
            it.seq() == s@,
            it.index() <= s@.len(),
            done@.map_values(|l: String| l@) == pieces(s@.subrange(0, it.index() as int)).drop_last().map_values(
                |l: Seq<char>| strip_cr(l),
            ),
            cur@ == pieces(s@.subrange(0, it.index() as int)).last(),
            pieces(s@.subrange(0, it.index() as int)).len() > 0,
    {
        let ghost k = it.index() as int;
        let ghost pre = s@.subrange(0, k);
        let ghost post = s@.subrange(0, k + 1);
        assert(post.drop_last() =~= pre);
        assert(post.last() == c);
        let ghost done_before = done@;
        if c == '\n' {
            let line = line_without_cr(&cur);
            done.push(line);
            cur = Vec::new();
            assert(pieces(post).drop_last() =~= pieces(pre));
            assert(pieces(pre) =~= pieces(pre).drop_last().push(pieces(pre).last()));
            assert(done@.map_values(|l: String| l@) =~= done_before.map_values(|l: String| l@).push(
                strip_cr(pieces(pre).last()),
            ));
            assert(cur@ =~= pieces(post).last());
        } else {
            cur.push(c);
            assert(pieces(post).drop_last() =~= pieces(pre).drop_last());
        }
    }
    let ghost p = pieces(s@);
    assert(s@.subrange(0, s@.len() as int) =~= s@);
    if cur.len() > 0 {
        let last = string_of(&cur);
        let ghost done_before = done@;
        done.push(last);
        assert(done@.map_values(|l: String| l@) =~= done_before.map_values(|l: String| l@).push(
            p.last(),
        ));
    }
    done
}

/// The save path that a settings file sets: the trimmed value of the first
/// line whose trimmed text starts with `SAVE_PATH=` and has a value.
pub fn save_path_from_env(content: &str) -> (r: Option<String>)
    ensures
        match first_save_path(text_lines(content@)) {
            Some(v) => (r matches Some(p) && p@ == v),
            None => r is None,
        },
{
    let lines = lines_of(content);
    let ghost ls = text_lines(content@);
    assert(ls.skip(0) =~= ls);
    let mut i: usize = 0;
    while i < lines.len()
        invariant
            i <= lines@.len(),
            lines@.map_values(|l: String| l@) == ls,
            ls == text_lines(content@),
            first_save_path(ls) == first_save_path(ls.skip(i as int)),
        decreases lines@.len() - i,
    {
        let line = trim(lines[i].as_str());
        assert(ls[i as int] == lines@[i as int]@);
        assert(ls.skip(i as int)[0] == ls[i as int]);
        assert(ls.skip(i as int).drop_first() =~= ls.skip(i + 1));
        assert(first_save_path(ls.skip(i as int)) == match save_path_in_line(ls[i as int]) {
            Some(v) => Some(v),
            None => first_save_path(ls.skip(i + 1)),
        });
        match strip_prefix(line, "SAVE_PATH=") {
            Some(rest) => {
                let value = trim(rest);
                if !value.is_empty() {
                    let owned = value.to_owned();
                    assert(save_path_in_line(ls[i as int]) == Some(value@));
                    return Some(owned);
                }
            },
            None => {},
        }
        i = i + 1;
    }
    assert(ls.skip(i as int) =~= Seq::<Seq<char>>::empty());
    None
}

/// The settings file rewritten to set the save path to `path`: lines that
/// set it are dropped, the others kept, and `SAVE_PATH=<path>` appended.
pub fn env_with_save_path(content: &str, path: &str) -> (r: String)
    ensures
        r@ == with_save_path(content@, path@),
{
    let lines = lines_of(content);
    let ghost ls = text_lines(content@);
    let mut out = String::new();
    let mut kept: usize = 0;
    let mut i: usize = 0;
    while i < lines.len()
        invariant
            i <= lines@.len(),
            lines@.map_values(|l: String| l@) == ls,
            out@ == join_lines(other_lines(ls.take(i as int))),
            kept as int == other_lines(ls.take(i as int)).len(),
            kept <= i,
        decreases lines@.len() - i,
    {
        let ghost pre = ls.take(i as int);
        let ghost post = ls.take(i + 1);
        assert(post.drop_last() =~= pre);
        assert(post.last() == lines@[i as int]@);
        let ghost l = lines@[i as int]@;
        let ghost x = other_lines(pre);
        match strip_prefix(lines[i].as_str(), "SAVE_PATH=") {
            Some(_) => {
                assert(other_lines(post) == x);
            },
            None => {
                assert(other_lines(post) == x.push(l));
                assert(x.push(l).drop_last() =~= x);
                if kept > 0 {
                    push_char(&mut out, '\n');
                }
                out.append(lines[i].as_str());
                kept = kept + 1;
            },
        }
        i = i + 1;
    }
    assert(ls.take(i as int) =~= ls);
    let ghost joined = out@;
    if !out.as_str().is_empty() {
        push_char(&mut out, '\n');
    }
    out.append("SAVE_PATH=");
    out.append(path);
    assert(out@ =~= with_save_path(content@, path@));
    out
}

} // verus!
