//! Paths as text: `/`-separated, joined and normalised without touching the
//! file system.
use vstd::prelude::*;

verus! {

/// `rel` placed under `root`, with one `/` between them.
pub open spec fn join_path(root: Seq<char>, rel: Seq<char>) -> Seq<char> {
    if root.len() == 0 {
        rel
    } else if root.last() == '/' {
        root + rel
    } else {
        root + seq!['/'] + rel
    }
}

/// `s` with every `\` turned into `/`.
pub open spec fn forward_slashes(s: Seq<char>) -> Seq<char> {
    s.map_values(|c: char| if c == '\\' { '/' } else { c })
}

/// Relies on `String::push`: appends one character.
#[verifier::external_body]
pub(crate) fn push_char(s: &mut String, c: char)
    ensures
        final(s)@ == old(s)@.push(c),
{
    s.push(c);
}

/// Whether the text ends in `/`.
pub fn ends_with_slash(s: &str) -> (r: bool)
    ensures
        r == (s@.len() > 0 && s@.last() == '/'),
{
    let mut last: Option<char> = None;
    for c in it: s.chars()
        invariant
            it.seq() == s@,
            it.index() <= s@.len(),
            last == (if it.index() == 0 {
                None::<char>
            } else {
                Some(s@[it.index() - 1])
            }),
    {
        last = Some(c);
    }
    match last {
        Some(c) => c == '/',
        None => false,
    }
}

/// Joins a relative path onto a root.
pub fn join(root: &String, rel: &String) -> (r: String)
    ensures
        r@ == join_path(root@, rel@),
{
    let mut out = root.clone();
    if root.as_str().is_empty() || ends_with_slash(root.as_str()) {
        out.append(rel.as_str());
    } else {
        push_char(&mut out, '/');
        out.append(rel.as_str());
    }
    out
}

/// Rewrites Windows separators as `/`, the form tree entries use.
pub fn normalize_separators(s: &str) -> (r: String)
    ensures
        r@ == forward_slashes(s@),
{
    let mut out = String::new();
    for c in it: s.chars()
        invariant
            it.seq() == s@,
            it.index() <= s@.len(),
            out@ == forward_slashes(s@.subrange(0, it.index() as int)),
    {
        let ghost k = it.index();
        push_char(&mut out, if c == '\\' { '/' } else { c });
        assert(s@.subrange(0, k + 1) =~= s@.subrange(0, k as int).push(c));
        assert(forward_slashes(s@.subrange(0, k + 1)) =~= forward_slashes(
            s@.subrange(0, k as int),
        ).push(if c == '\\' { '/' } else { c }));
    }
    assert(s@.subrange(0, s@.len() as int) =~= s@);
    out
}

} // verus!
