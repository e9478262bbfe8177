//! The documentation lines and trait lists the renderer emits.

use vstd::prelude::*;

use crate::text::{find_char, lemma_find_char, split_once_char, trailing_ws_start, char_is_white_space};

verus! {

/// The lines of `s`: the parts between the line feeds (as `str::split('\n')`).
pub open spec fn split_lines(s: Seq<char>) -> Seq<Seq<char>>
    decreases s.len(),
{
    let i = find_char(s, '\n', 0);
    if i >= s.len() {
        seq![s]
    } else {
        proof {
            lemma_find_char(s, '\n', 0);
        }
        seq![s.take(i)] + split_lines(s.skip(i + 1))
    }
}

/// `s` without trailing white space (as `str::trim_end`).
pub open spec fn trim_end_spec(s: Seq<char>) -> Seq<char> {
    s.take(trailing_ws_start(s, 0, s.len() as int))
}

/// The trimmed lines of the text `s`.
pub open spec fn doc_lines_of(s: Seq<char>) -> Seq<Seq<char>> {
    split_lines(s).map_values(|l: Seq<char>| trim_end_spec(l))
}

/// The documentation lines of the texts `docs`: each text is split into lines, and each
/// line is trimmed at its end.
pub open spec fn doc_lines_spec(docs: Seq<Seq<char>>) -> Seq<Seq<char>>
    decreases docs.len(),
{
    if docs.len() == 0 {
        Seq::empty()
    } else {
        doc_lines_spec(docs.drop_last()) + doc_lines_of(docs.last())
    }
}

/// The views of the strings `v`.
pub open spec fn strings_view(v: Seq<String>) -> Seq<Seq<char>> {
    v.map_values(|x: String| x@)
}

/// The trait list `traits` as it is written in a bound: joined by ` + `.
pub open spec fn traits_joined(traits: Seq<Seq<char>>) -> Seq<char>
    decreases traits.len(),
{
    if traits.len() == 0 {
        Seq::empty()
    } else if traits.len() == 1 {
        traits[0]
    } else {
        traits_joined(traits.drop_last()) + " + "@ + traits.last()
    }
}

/// Returns `s` without trailing white space.
pub fn trim_end(s: &str) -> (r: String)
    ensures
        r@ == trim_end_spec(s@),
{
    let n = s.unicode_len();
    let mut j: usize = n;
    while j > 0 && char_is_white_space(s.get_char(j - 1))
        invariant
            j <= n,
            n == s@.len(),
            trailing_ws_start(s@, 0, n as int) == trailing_ws_start(s@, 0, j as int),
        decreases j,
    {
        j = j - 1;
    }
    s.substring_char(0, j).to_string()
}

/// Appends the trimmed lines of `s` to `out`.
fn push_lines(out: &mut Vec<String>, s: &str)
    ensures
        strings_view(final(out)@) == strings_view(old(out)@) + doc_lines_of(s@),
{
    let mut rest = s;
    loop
        invariant
            strings_view(out@) + doc_lines_of(rest@) == strings_view(old(out)@) + doc_lines_of(s@),
        decreases rest@.len(),
    {
        proof {
            lemma_find_char(rest@, '\n', 0);
        }
        match split_once_char(rest, '\n') {
            Some((line, tail)) => {
                let ghost before = out@;
                out.push(trim_end(line));
                proof {
                    let i = find_char(rest@, '\n', 0);
                    assert(split_lines(rest@) == seq![rest@.take(i)] + split_lines(rest@.skip(i + 1)));
                    assert(doc_lines_of(rest@) =~= seq![trim_end_spec(line@)] + doc_lines_of(tail@));
                    assert(strings_view(out@) =~= strings_view(before).push(trim_end_spec(line@)));
                    assert(strings_view(out@) + doc_lines_of(tail@) =~= strings_view(before)
                        + doc_lines_of(rest@));
                }
                rest = tail;
            },
            None => {
                let ghost before = out@;
                out.push(trim_end(rest));
                proof {
                    assert(doc_lines_of(rest@) =~= seq![trim_end_spec(rest@)]);
                    assert(strings_view(out@) =~= strings_view(before) + doc_lines_of(rest@));
                }
                return;
            },
        }
    }
}

/// Returns the documentation lines of the texts `docs` if documentation is rendered
/// (`enabled`), else `None`: each text is split at its line feeds and each line is trimmed at
/// its end.
pub fn render_docs(enabled: bool, docs: &Vec<String>) -> (r: Option<Vec<String>>)
    ensures
        r is Some <==> enabled,
        r matches Some(lines) ==> strings_view(lines@) == doc_lines_spec(strings_view(docs@)),
{
    if !enabled {
        return None;
    }
    let mut lines: Vec<String> = Vec::new();
    let mut i: usize = 0;
    while i < docs.len()
        invariant
            i <= docs@.len(),
            strings_view(lines@) == doc_lines_spec(strings_view(docs@.take(i as int))),
        decreases docs@.len() - i,
    {
        push_lines(&mut lines, docs[i].as_str());
        proof {
            let t = strings_view(docs@.take(i + 1));
            assert(t.drop_last() =~= strings_view(docs@.take(i as int)));
            assert(t.last() == docs@[i as int]@);
        }
        i = i + 1;
    }
    assert(docs@.take(docs@.len() as int) =~= docs@);
    Some(lines)
}

/// Returns the traits `traits` joined by ` + `, as they are written in a bound.
pub fn format_traits(traits: &Vec<String>) -> (r: String)
    ensures
        r@ == traits_joined(strings_view(traits@)),
{
    let mut s = String::new();
    let mut i: usize = 0;
    while i < traits.len()
        invariant
            i <= traits@.len(),
            s@ == traits_joined(strings_view(traits@.take(i as int))),
        decreases traits@.len() - i,
    {
        let ghost t = strings_view(traits@.take(i + 1));
        if i > 0 {
            s.append(" + ");
        }
        s.append(traits[i].as_str());
        proof {
            assert(t.drop_last() =~= strings_view(traits@.take(i as int)));
            assert(t.last() == traits@[i as int]@);
            if i == 0 {
                assert(s@ =~= t[0]);
            }
        }
        i = i + 1;
    }
    assert(traits@.take(traits@.len() as int) =~= traits@);
    s
}

} // verus!
