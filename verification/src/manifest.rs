//! The package-manifest edit: the build-script fragment is spliced into the
//! manifest text directly after its first line.  The edit is a positional
//! text edit, not a structured one; its exact (and fragile) textual policy
//! is pinned down here and kept for output compatibility.

use vstd::prelude::*;

verus! {

/// Index of the first line feed in `s`, or -1 when there is none.
pub open spec fn first_newline(s: Seq<char>) -> int
    decreases s.len(),
{
    if s.len() == 0 {
        -1
    } else if s[0] == '\n' {
        0
    } else if first_newline(s.drop_first()) < 0 {
        -1
    } else {
        first_newline(s.drop_first()) + 1
    }
}

/// What the first line feed's index means: it is a position in `s`, it
/// holds a line feed and nothing before it does; a negative index means `s`
/// has no line feed at all.
pub proof fn lemma_first_newline(s: Seq<char>)
    ensures
        first_newline(s) >= 0 ==> first_newline(s) < s.len() && s[first_newline(s)] == '\n'
            && (forall|j: int| 0 <= j < first_newline(s) ==> s[j] != '\n'),
        first_newline(s) < 0 ==> (forall|j: int| 0 <= j < s.len() ==> s[j] != '\n'),
    decreases s.len(),
{
    if s.len() > 0 && s[0] != '\n' {
        lemma_first_newline(s.drop_first());
        let t = s.drop_first();
        if first_newline(s) >= 0 {
            assert forall|j: int| 0 <= j < first_newline(s) implies s[j] != '\n' by {
                if j > 0 {
                    assert(s[j] == t[j - 1]);
                }
            }
        } else {
            assert forall|j: int| 0 <= j < s.len() implies s[j] != '\n' by {
                if j > 0 {
                    assert(s[j] == t[j - 1]);
                }
            }
        }
    }
}

/// A line whose line feed followed a carriage return has the carriage
/// return stripped, as the line enumeration of the original edit strips it.
pub open spec fn strip_cr(l: Seq<char>) -> Seq<char> {
    if l.len() > 0 && l.last() == '\r' {
        l.drop_last()
    } else {
        l
    }
}

/// The lines of a text: segments ended by a line feed, a carriage return
/// directly before the line feed stripped.  The final line needs no line
/// feed, and a trailing line feed adds no empty final line.
pub open spec fn lines_of(s: Seq<char>) -> Seq<Seq<char>>
    decreases s.len(),
    via lines_of_decreases
{
    if s.len() == 0 {
        Seq::empty()
    } else if first_newline(s) < 0 {
        seq![s]
    } else {
        seq![strip_cr(s.subrange(0, first_newline(s)))] + lines_of(
            s.subrange(first_newline(s) + 1, s.len() as int),
        )
    }
}

#[via_fn]
proof fn lines_of_decreases(s: Seq<char>) {
    lemma_first_newline(s);
}

/// The result of the manifest edit: the first line, the fragment, then the
/// remaining lines joined with their line endings dropped.  An empty
/// manifest stays empty and receives no fragment.
pub open spec fn inject_text(manifest: Seq<char>, fragment: Seq<char>) -> Seq<char> {
    let ls = lines_of(manifest);
    if ls.len() == 0 {
        Seq::empty()
    } else {
        ls[0] + fragment + ls.drop_first().flatten()
    }
}

/// Scans for the first line feed of `s`.
fn find_newline(s: &str) -> (r: Option<usize>)
    ensures
        match r {
            Some(i) => i == first_newline(s@),
            None => first_newline(s@) < 0,
        },
{
    let n = s.unicode_len();
    let mut i: usize = 0;
    while i < n
        invariant
            0 <= i <= n,
            n == s@.len(),
            forall|j: int| 0 <= j < i ==> s@[j] != '\n',
        decreases n - i,
    {
        if s.get_char(i) == '\n' {
            proof {
                lemma_first_newline(s@);
                let k = first_newline(s@);
                if k < 0 {
                    assert(false);
                } else if k < i as int {
                    assert(s@[k] == '\n');
                    assert(false);
                } else if k > i as int {
                    assert(s@[i as int] != '\n');
                    assert(false);
                }
            }
            return Some(i);
        }
        i = i + 1;
    }
    proof {
        lemma_first_newline(s@);
    }
    None
}

/// Joins the lines of `s`, dropping every line ending, by recursing on the
/// text after the first line feed.
fn join_lines(s: &str) -> (r: String)
    ensures
        r@ == lines_of(s@).flatten(),
    decreases s@.len(),
{
    let n = s.unicode_len();
    match find_newline(s) {
        None => {
            if n == 0 {
                proof {
                    assert(lines_of(s@).flatten() =~= Seq::<char>::empty());
                }
                String::new()
            } else {
                proof {
                    lines_of(s@).lemma_flatten_one_element();
                }
                String::from_str(s)
            }
        },
        Some(i) => {
            proof {
                lemma_first_newline(s@);
            }
            let line_end = if i > 0 && s.get_char(i - 1) == '\r' {
                i - 1
            } else {
                i
            };
            let mut r = String::from_str(s.substring_char(0, line_end));
            let rest = s.substring_char(i + 1, n);
            let tail = join_lines(rest);
            r.append(tail.as_str());
            proof {
                let l0 = strip_cr(s@.subrange(0, i as int));
                assert(l0 == s@.subrange(0, line_end as int)) by {
                    if line_end < i {
                        assert(s@.subrange(0, i as int).last() == '\r');
                        assert(s@.subrange(0, i as int).drop_last() =~= s@.subrange(
                            0,
                            line_end as int,
                        ));
                    } else if i > 0 {
                        assert(s@.subrange(0, i as int).last() == s@[i - 1]);
                    }
                }
                vstd::seq_lib::lemma_flatten_concat(seq![l0], lines_of(rest@));
                seq![l0].lemma_flatten_one_element();
                assert(r@ == lines_of(s@).flatten());
            }
            r
        },
    }
}

/// Splices the build-script fragment into the package manifest directly
/// after the manifest's first line, reproducing the original positional
/// text edit exactly: later lines lose their line endings, and an empty
/// manifest comes back empty.
pub fn inject_after_first_line(manifest: &str, fragment: &str) -> (r: String)
    ensures
        r@ == inject_text(manifest@, fragment@),
{
    let n = manifest.unicode_len();
    if n == 0 {
        return String::new();
    }
    match find_newline(manifest) {
        None => {
            let mut r = String::from_str(manifest);
            r.append(fragment);
            proof {
                let ls = lines_of(manifest@);
                assert(ls.drop_first() =~= Seq::<Seq<char>>::empty());
                assert(ls.drop_first().flatten() =~= Seq::<char>::empty());
                assert(r@ =~= inject_text(manifest@, fragment@));
            }
            r
        },
        Some(i) => {
            proof {
                lemma_first_newline(manifest@);
            }
            let line_end = if i > 0 && manifest.get_char(i - 1) == '\r' {
                i - 1
            } else {
                i
            };
            let mut r = String::from_str(manifest.substring_char(0, line_end));
            r.append(fragment);
            let tail = join_lines(manifest.substring_char(i + 1, n));
            r.append(tail.as_str());
            proof {
                let m = manifest@;
                let l0 = strip_cr(m.subrange(0, i as int));
                assert(l0 == m.subrange(0, line_end as int)) by {
                    if line_end < i {
                        assert(m.subrange(0, i as int).last() == '\r');
                        assert(m.subrange(0, i as int).drop_last() =~= m.subrange(
                            0,
                            line_end as int,
                        ));
                    } else if i > 0 {
                        assert(m.subrange(0, i as int).last() == m[i - 1]);
                    }
                }
                let ls = lines_of(m);
                assert(ls.drop_first() =~= lines_of(m.subrange(i + 1, m.len() as int)));
                assert(r@ == inject_text(manifest@, fragment@));
            }
            r
        },
    }
}

} // verus!
