//! The line codec: how a file's content is split into buffer lines when it
//! is loaded, and how buffer lines are joined back into content when it is
//! saved.

use vstd::prelude::*;

verus! {

/// One trailing carriage return is dropped from a line that was terminated by
/// a line feed, mirroring how `str::lines` treats Windows line endings.
pub open spec fn strip_cr(l: Seq<char>) -> Seq<char> {
    if l.len() > 0 && l.last() == '\r' {
        l.drop_last()
    } else {
        l
    }
}

/// The lines of `rest`, given that `cur` holds the part of the current line
/// read so far. A line feed ends the current line (dropping one carriage
/// return just before it); a final line without a terminator is kept unless
/// it is empty.
pub open spec fn lines_tail(cur: Seq<char>, rest: Seq<char>) -> Seq<Seq<char>>
    decreases rest.len(),
{
    if rest.len() == 0 {
        if cur.len() == 0 {
            Seq::empty()
        } else {
            seq![cur]
        }
    } else if rest[0] == '\n' {
        seq![strip_cr(cur)] + lines_tail(Seq::empty(), rest.skip(1))
    } else {
        lines_tail(cur.push(rest[0]), rest.skip(1))
    }
}

/// The line sequence a file's content is split into when it is loaded.
pub open spec fn lines_spec(content: Seq<char>) -> Seq<Seq<char>> {
    lines_tail(Seq::empty(), content)
}

/// The content a line sequence is joined into when it is saved: the lines
/// separated by single line feeds.
pub open spec fn join_spec(lines: Seq<Seq<char>>) -> Seq<char>
    decreases lines.len(),
{
    if lines.len() == 0 {
        Seq::empty()
    } else if lines.len() == 1 {
        lines[0]
    } else {
        lines[0] + seq!['\n'] + join_spec(lines.skip(1))
    }
}

/// An empty line sequence is replaced by a single empty line, so that a
/// freshly loaded buffer always has a line for the cursor to sit on.
pub open spec fn seed_lines(lines: Seq<Seq<char>>) -> Seq<Seq<char>> {
    if lines.len() == 0 {
        seq![Seq::<char>::empty()]
    } else {
        lines
    }
}

/// Splits content into lines: each line feed ends a line, a carriage return
/// directly before a line feed is dropped, and content ending in a line feed
/// yields no extra empty line.
pub fn split_lines(content: &Vec<char>) -> (r: Vec<Vec<char>>)
    ensures
        r@.map_values(|l: Vec<char>| l@) == lines_spec(content@),
{
    let mut acc: Vec<Vec<char>> = Vec::new();
    let mut cur: Vec<char> = Vec::new();
    let mut i: usize = 0;
    proof {
        assert(content@.skip(0) =~= content@);
        assert(acc@.map_values(|l: Vec<char>| l@) =~= Seq::<Seq<char>>::empty());
        assert(acc@.map_values(|l: Vec<char>| l@) + lines_tail(cur@, content@) =~= lines_tail(
            cur@,
            content@,
        ));
    }
    while i < content.len()
        invariant
            i <= content@.len(),
            lines_spec(content@) == acc@.map_values(|l: Vec<char>| l@) + lines_tail(
                cur@,
                content@.skip(i as int),
            ),
        decreases content@.len() - i,
    {
        let c = content[i];
        proof {
            assert(content@.skip(i as int)[0] == content@[i as int]);
            assert(content@.skip(i as int).skip(1) =~= content@.skip(i as int + 1));
        }
        if c == '\n' {
            let ghost prev = cur@;
            if cur.len() > 0 && cur[cur.len() - 1] == '\r' {
                cur.pop();
            }
            proof {
                assert(cur@ =~= strip_cr(prev));
            }
            let ghost acc_map = acc@.map_values(|l: Vec<char>| l@);
            acc.push(cur);
            cur = Vec::new();
            proof {
                assert(acc@.map_values(|l: Vec<char>| l@) =~= acc_map.push(strip_cr(prev)));
                assert(acc_map.push(strip_cr(prev)) + lines_tail(cur@, content@.skip(i as int + 1))
                    =~= acc_map + (seq![strip_cr(prev)] + lines_tail(
                    Seq::empty(),
                    content@.skip(i as int + 1),
                )));
            }
        } else {
            cur.push(c);
        }
        i = i + 1;
    }
    proof {
        assert(content@.skip(content@.len() as int) =~= Seq::<char>::empty());
    }
    let ghost acc_map = acc@.map_values(|l: Vec<char>| l@);
    if cur.len() > 0 {
        acc.push(cur);
        proof {
            assert(acc@.map_values(|l: Vec<char>| l@) =~= acc_map.push(cur@));
            assert(acc_map.push(cur@) =~= acc_map + seq![cur@]);
        }
    } else {
        proof {
            assert(acc_map + lines_tail(cur@, Seq::empty()) =~= acc_map);
        }
    }
    acc
}

/// Joining a sequence of lines extended by one more line appends a line feed
/// (unless the sequence was empty) and then the new line.
pub proof fn lemma_join_push(lines: Seq<Seq<char>>, l: Seq<char>)
    ensures
        join_spec(lines.push(l)) == if lines.len() == 0 {
            l
        } else {
            join_spec(lines) + seq!['\n'] + l
        },
    decreases lines.len(),
{
    if lines.len() == 0 {
        assert(lines.push(l).len() == 1);
        assert(lines.push(l)[0] == l);
    } else {
        lemma_join_push(lines.skip(1), l);
        assert(lines.push(l).skip(1) =~= lines.skip(1).push(l));
        assert(lines.push(l)[0] == lines[0]);
        if lines.len() == 1 {
            assert(lines.skip(1).len() == 0);
            assert(join_spec(lines.push(l)) == lines[0] + seq!['\n'] + l);
        } else {
            assert(lines[0] + seq!['\n'] + (join_spec(lines.skip(1)) + seq!['\n'] + l) =~= (
            lines[0] + seq!['\n'] + join_spec(lines.skip(1))) + seq!['\n'] + l);
        }
    }
}

/// Joins lines with single line feeds, the exact inverse of `split_lines` on
/// content in normal form.
pub fn join_lines(lines: &Vec<Vec<char>>) -> (r: Vec<char>)
    ensures
        r@ == join_spec(lines@.map_values(|l: Vec<char>| l@)),
{
    let ghost lv = lines@.map_values(|l: Vec<char>| l@);
    let mut out: Vec<char> = Vec::new();
    let mut i: usize = 0;
    while i < lines.len()
        invariant
            i <= lines@.len(),
            lv == lines@.map_values(|l: Vec<char>| l@),
            out@ == join_spec(lv.take(i as int)),
        decreases lines@.len() - i,
    {
        if i > 0 {
            out.push('\n');
        }
        let line = &lines[i];
        out.extend_from_slice(line.as_slice());
        proof {
            lemma_join_push(lv.take(i as int), lv[i as int]);
            assert(lv.take(i as int + 1) =~= lv.take(i as int).push(lv[i as int]));
            if i > 0 {
                assert(join_spec(lv.take(i as int)) + seq!['\n'] + lv[i as int] =~= out@);
            } else {
                assert(out@ =~= lv[0]);
            }
        }
        i = i + 1;
    }
    proof {
        assert(lv.take(lines@.len() as int) =~= lv);
    }
    out
}

/// The number of lines content splits into, as a status bar reports it.
pub fn count_lines(content: &Vec<char>) -> (r: usize)
    ensures
        r == lines_spec(content@).len(),
{
    let ls = split_lines(content);
    proof {
        assert(ls@.map_values(|l: Vec<char>| l@).len() == ls@.len());
    }
    ls.len()
}

/// Relies on `String`'s `FromIterator<char>` impl: collecting characters
/// yields the string of exactly those characters, in order.
#[verifier::external_body]
pub(crate) fn chars_to_string(v: &Vec<char>) -> (r: String)
    ensures
        r@ == v@,
{
    v.iter().collect()
}

/// Content is in normal form when it ends in no line feed and contains no
/// carriage return directly before a line feed: exactly the content the line
/// codec itself produces.
pub open spec fn normal_form(content: Seq<char>) -> bool {
    &&& content.len() > 0 ==> content.last() != '\n'
    &&& forall|j: int|
        0 <= j < content.len() - 1 ==> !(#[trigger] content[j] == '\r' && content[j + 1] == '\n')
}

/// Splitting and rejoining restores non-empty normal-form content: line by
/// line, the joined lines spell out `cur` followed by `rest`.
pub proof fn lemma_split_then_join(cur: Seq<char>, rest: Seq<char>)
    requires
        forall|j: int| 0 <= j < cur.len() ==> cur[j] != '\n',
        normal_form(cur + rest),
        cur.len() + rest.len() > 0,
    ensures
        join_spec(lines_tail(cur, rest)) == cur + rest,
    decreases rest.len(),
{
    let u = cur + rest;
    if rest.len() == 0 {
        assert(cur =~= u);
        assert(lines_tail(cur, rest) == seq![cur]);
        assert(join_spec(seq![cur]) == cur);
    } else if rest[0] == '\n' {
        let tail = rest.skip(1);
        assert(strip_cr(cur) == cur) by {
            if cur.len() > 0 {
                assert(u[cur.len() - 1] == cur.last());
                assert(u[cur.len() as int] == '\n');
            }
        }
        assert(tail.len() > 0) by {
            if tail.len() == 0 {
                assert(u.last() == rest[0]);
            }
        }
        assert(Seq::<char>::empty() + tail =~= tail);
        assert(normal_form(tail)) by {
            assert(tail.last() == u.last());
            assert forall|j: int| 0 <= j < tail.len() - 1 implies !(#[trigger] tail[j] == '\r'
                && tail[j + 1] == '\n') by {
                let k = j + cur.len() + 1;
                assert(u[k] == tail[j]);
                assert(u[k + 1] == tail[j + 1]);
            }
        }
        lemma_split_then_join(Seq::empty(), tail);
        let t = lines_tail(Seq::empty(), tail);
        assert(join_spec(t) == tail);
        assert(t.len() > 0) by {
            if t.len() == 0 {
                assert(join_spec(t).len() == 0);
            }
        }
        let whole = seq![cur] + t;
        assert(lines_tail(cur, rest) == whole);
        assert(whole.len() >= 2);
        assert(whole[0] == cur);
        assert(whole.skip(1) =~= t);
        assert(join_spec(whole) == cur + seq!['\n'] + join_spec(t));
        assert(cur + seq!['\n'] + tail =~= cur + rest);
    } else {
        let cur2 = cur.push(rest[0]);
        let tail = rest.skip(1);
        assert(cur2 + tail =~= u);
        assert(forall|j: int| 0 <= j < cur2.len() ==> cur2[j] != '\n');
        lemma_split_then_join(cur2, tail);
        assert(lines_tail(cur, rest) == lines_tail(cur2, tail));
    }
}

/// Loading content and immediately saving it reproduces the content exactly,
/// for every content in normal form; other content differs only by the
/// line-separator normalization the codec performs.
pub proof fn lemma_load_then_save(content: Seq<char>)
    requires
        normal_form(content),
    ensures
        join_spec(seed_lines(lines_spec(content))) == content,
{
    if content.len() == 0 {
        assert(lines_spec(content) == Seq::<Seq<char>>::empty());
        assert(seed_lines(lines_spec(content)) == seq![Seq::<char>::empty()]);
        assert(join_spec(seq![Seq::<char>::empty()]) =~= content);
    } else {
        assert(Seq::<char>::empty() + content =~= content);
        lemma_split_then_join(Seq::empty(), content);
        assert(join_spec(lines_spec(content)) == content);
        assert(lines_spec(content).len() > 0) by {
            if lines_spec(content).len() == 0 {
                assert(join_spec(lines_spec(content)).len() == 0);
            }
        }
    }
}

} // verus!
