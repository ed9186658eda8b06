use vstd::prelude::*;

use crate::text::{chars_of, string_of};

verus! {

/// The pane of the stock layout that gets replaced by the editor's pane.
pub const PLACEHOLDER: &'static str = "pane command=\"nvim\"";

/// A character as it stands inside a KDL string: a backslash or a double
/// quote gets a backslash before it.
pub open spec fn escape_char(c: char) -> Seq<char> {
    if c == '\\' {
        seq!['\\', '\\']
    } else if c == '"' {
        seq!['\\', '"']
    } else {
        seq![c]
    }
}

/// The text `s` escaped for the inside of a KDL string.
pub open spec fn escaped(s: Seq<char>) -> Seq<char>
    decreases s.len(),
{
    if s.len() == 0 {
        Seq::empty()
    } else {
        escaped(s.drop_last()) + escape_char(s.last())
    }
}

/// Each argument as a KDL string of its own, each one after a space.
pub open spec fn quoted(args: Seq<Seq<char>>) -> Seq<char>
    decreases args.len(),
{
    if args.len() == 0 {
        Seq::empty()
    } else {
        quoted(args.drop_last()) + seq![' ', '"'] + escaped(args.last()) + seq!['"']
    }
}

/// The text of each argument.
pub open spec fn views_of(args: Seq<String>) -> Seq<Seq<char>> {
    args.map_values(|a: String| a@)
}

/// The KDL pane that runs `editor`, handing it each argument after `--`
/// when there are any.
pub open spec fn pane_text(editor: Seq<char>, args: Seq<Seq<char>>) -> Seq<char> {
    if args.len() > 0 {
        "pane {\n    command \""@ + editor + "\"\n    args \"--\""@ + quoted(args)
            + "\n    focus true\n}"@
    } else {
        "pane {\n    command \""@ + editor + "\"\n    focus true\n}"@
    }
}

/// Every occurrence of `pat` in `s`, taken from left to right without
/// overlap, replaced by `rep`.
pub open spec fn replace_all(s: Seq<char>, pat: Seq<char>, rep: Seq<char>) -> Seq<char>
    decreases s.len(),
{
    if s.len() == 0 || pat.len() == 0 {
        s
    } else if pat.len() <= s.len() && s.subrange(0, pat.len() as int) == pat {
        rep + replace_all(s.skip(pat.len() as int), pat, rep)
    } else {
        seq![s[0]] + replace_all(s.skip(1), pat, rep)
    }
}

/// Appends `s`, escaped for the inside of a KDL string, to `out`.
fn push_escaped(s: &str, out: &mut Vec<char>)
    ensures
        final(out)@ == old(out)@ + escaped(s@),
{
    let v = chars_of(s);
    let ghost o0 = out@;
    let mut i: usize = 0;
    assert(v@.take(0) =~= Seq::<char>::empty());
    assert(out@ =~= o0 + escaped(v@.take(0)));
    while i < v.len()
        invariant
            i <= v.len(),
            out@ == o0 + escaped(v@.take(i as int)),
        decreases v.len() - i,
    {
        let c = v[i];
        if c == '\\' {
            out.push('\\');
            out.push('\\');
        } else if c == '"' {
            out.push('\\');
            out.push('"');
        } else {
            out.push(c);
        }
        assert(v@.take(i + 1).drop_last() =~= v@.take(i as int));
        assert(out@ =~= o0 + escaped(v@.take(i + 1)));
        i = i + 1;
    }
    assert(v@.take(v.len() as int) =~= s@);
}

/// The arguments as KDL strings, each after a space, as the pane hands
/// them on.
pub fn quote_args(args: &[String]) -> (r: String)
    ensures
        r@ == quoted(views_of(args@)),
{
    let mut out: Vec<char> = Vec::new();
    let mut i: usize = 0;
    assert(views_of(args@).take(0) =~= Seq::<Seq<char>>::empty());
    while i < args.len()
        invariant
            i <= args.len(),
            out@ == quoted(views_of(args@).take(i as int)),
        decreases args.len() - i,
    {
        let ghost before = views_of(args@).take(i as int);
        let ghost after = views_of(args@).take(i + 1);
        assert(after.drop_last() =~= before);
        out.push(' ');
        out.push('"');
        push_escaped(args[i].as_str(), &mut out);
        out.push('"');
        assert(out@ =~= quoted(after));
        i = i + 1;
    }
    assert(views_of(args@).take(args.len() as int) =~= views_of(args@));
    string_of(&out)
}

/// The KDL pane that starts `editor` on `args`.
pub fn pane_block(editor: &str, args: &[String]) -> (r: String)
    ensures
        r@ == pane_text(editor@, views_of(args@)),
{
    let mut r = String::from_str("pane {\n    command \"");
    r.append(editor);
    if args.len() > 0 {
        let quoted_args = quote_args(args);
        r.append("\"\n    args \"--\"");
        r.append(quoted_args.as_str());
        r.append("\n    focus true\n}");
    } else {
        r.append("\"\n    focus true\n}");
    }
    r
}

/// Whether `pat` occurs in `s` at position `i`.
fn occurs_at(s: &Vec<char>, pat: &Vec<char>, i: usize) -> (r: bool)
    requires
        i <= s.len(),
    ensures
        r == (i + pat.len() <= s.len() && s@.subrange(i as int, i + pat.len()) == pat@),
{
    if pat.len() > s.len() - i {
        return false;
    }
    let mut j: usize = 0;
    while j < pat.len()
        invariant
            j <= pat.len(),
            i + pat.len() <= s.len(),
            forall|k: int| 0 <= k < j ==> s@[i + k] == pat@[k],
        decreases pat.len() - j,
    {
        if s[i + j] != pat[j] {
            assert(s@.subrange(i as int, i + pat.len())[j as int] != pat@[j as int]);
            return false;
        }
        j = j + 1;
    }
    assert(s@.subrange(i as int, i + pat.len()) =~= pat@);
    true
}

/// `s` with every occurrence of `pat` replaced by `rep`.
fn replace_chars(s: &Vec<char>, pat: &Vec<char>, rep: &Vec<char>) -> (r: Vec<char>)
    requires
        pat.len() > 0,
    ensures
        r@ == replace_all(s@, pat@, rep@),
{
    let mut r: Vec<char> = Vec::new();
    let mut i: usize = 0;
    assert(s@.skip(0) =~= s@);
    assert(r@ + replace_all(s@.skip(0), pat@, rep@) =~= replace_all(s@, pat@, rep@));
    while i < s.len()
        invariant
            i <= s.len(),
            pat.len() > 0,
            r@ + replace_all(s@.skip(i as int), pat@, rep@) == replace_all(s@, pat@, rep@),
        decreases s.len() - i,
    {
        let ghost rest = s@.skip(i as int);
        if occurs_at(s, pat, i) {
            assert(rest.subrange(0, pat.len() as int) =~= s@.subrange(i as int, i + pat.len()));
            assert(rest.skip(pat.len() as int) =~= s@.skip(i + pat.len()));
            let ghost r0 = r@;
            let mut k: usize = 0;
            while k < rep.len()
                invariant
                    k <= rep.len(),
                    r@ == r0 + rep@.take(k as int),
                decreases rep.len() - k,
            {
                r.push(rep[k]);
                assert(r@ =~= r0 + rep@.take(k + 1));
                k = k + 1;
            }
            assert(rep@.take(rep.len() as int) =~= rep@);
            assert(r0 + replace_all(rest, pat@, rep@) =~= r@ + replace_all(
                s@.skip(i + pat.len()),
                pat@,
                rep@,
            ));
            i = i + pat.len();
        } else {
            assert(!(pat.len() <= rest.len() && rest.subrange(0, pat.len() as int) == pat@)) by {
                if pat.len() <= rest.len() {
                    assert(rest.subrange(0, pat.len() as int) =~= s@.subrange(
                        i as int,
                        i + pat.len(),
                    ));
                }
            }
            assert(rest.skip(1) =~= s@.skip(i + 1));
            let ghost r0 = r@;
            r.push(s[i]);
            assert(r0 + replace_all(rest, pat@, rep@) =~= r@ + replace_all(
                s@.skip(i + 1),
                pat@,
                rep@,
            ));
            i = i + 1;
        }
    }
    assert(s@.skip(i as int) =~= Seq::<char>::empty());
    assert(r@ + replace_all(s@.skip(i as int), pat@, rep@) =~= r@);
    r
}

/// The layout with each placeholder pane replaced by `pane`.
pub fn replace_placeholder(layout: &str, pane: &str) -> (r: String)
    ensures
        r@ == replace_all(layout@, PLACEHOLDER@, pane@),
{
    let s = chars_of(layout);
    let pat = chars_of(PLACEHOLDER);
    let rep = chars_of(pane);
    proof {
        reveal_strlit("pane command=\"nvim\"");
    }
    let r = replace_chars(&s, &pat, &rep);
    string_of(&r)
}

/// The layout with its placeholder pane replaced by one that starts
/// `editor` on `args`.
pub fn modify_existing_layout(layout: &str, editor: &str, args: &[String]) -> (r: String)
    ensures
        r@ == replace_all(layout@, PLACEHOLDER@, pane_text(editor@, views_of(args@))),
{
    let pane = pane_block(editor, args);
    replace_placeholder(layout, pane.as_str())
}

/// Where the stock layout lives under the home directory `home`.
pub fn layout_path(home: &str) -> (r: String)
    ensures
        r@ == home@ + "/.config/zellij/layout.kdl"@,
{
    let mut r = String::from_str(home);
    r.append("/.config/zellij/layout.kdl");
    r
}

/// Where the rewritten layout is written under the home directory `home`.
pub fn temp_layout_path(home: &str) -> (r: String)
    ensures
        r@ == home@ + "/.config/zellij/temp_layout.kdl"@,
{
    let mut r = String::from_str(home);
    r.append("/.config/zellij/temp_layout.kdl");
    r
}

} // verus!
