//! Cleaning subtitle text: inline italics markup is taken out and white
//! space at both ends is cut off.

use crate::text::{chars_of, string_of};
use vstd::prelude::*;
use vstd::string::*;

verus! {

/// Whether a character is white space.
pub open spec fn is_space(c: char) -> bool {
    let u = c as u32;
    (0x09 <= u <= 0x0d) || u == 0x20 || u == 0x85 || u == 0xa0 || u == 0x1680 || (0x2000 <= u
        <= 0x200a) || u == 0x2028 || u == 0x2029 || u == 0x202f || u == 0x205f || u == 0x3000
}

/// A text without the white space at its start.
pub open spec fn trim_start(s: Seq<char>) -> Seq<char>
    decreases s.len(),
{
    if s.len() > 0 && is_space(s[0]) {
        trim_start(s.drop_first())
    } else {
        s
    }
}

/// A text without the white space at its end.
pub open spec fn trim_end(s: Seq<char>) -> Seq<char>
    decreases s.len(),
{
    if s.len() > 0 && is_space(s.last()) {
        trim_end(s.drop_last())
    } else {
        s
    }
}

/// A text without the white space at either end.
pub open spec fn trimmed(s: Seq<char>) -> Seq<char> {
    trim_end(trim_start(s))
}

/// A text without the occurrences of `tag`, found from the left, each
/// search going on behind the occurrence before.
pub open spec fn without(s: Seq<char>, tag: Seq<char>) -> Seq<char>
    decreases s.len(),
{
    if tag.len() == 0 || s.len() < tag.len() {
        s
    } else if s.take(tag.len() as int) == tag {
        without(s.skip(tag.len() as int), tag)
    } else {
        seq![s[0]] + without(s.drop_first(), tag)
    }
}

/// Subtitle text as it is shown: without `<i>` and `</i>`, and trimmed.
pub open spec fn cleaned(text: Seq<char>) -> Seq<char> {
    trimmed(without(without(text, "<i>"@), "</i>"@))
}

fn is_space_char(c: char) -> (r: bool)
    ensures
        r == is_space(c),
{
    let u = c as u32;
    (0x09 <= u && u <= 0x0d) || u == 0x20 || u == 0x85 || u == 0xa0 || u == 0x1680 || (0x2000 <= u
        && u <= 0x200a) || u == 0x2028 || u == 0x2029 || u == 0x202f || u == 0x205f || u
        == 0x3000
}

fn starts_at(v: &Vec<char>, at: usize, tag: &Vec<char>) -> (r: bool)
    requires
        at + tag.len() <= v.len(),
    ensures
        r == (v@.skip(at as int).take(tag.len() as int) == tag@),
{
    let ghost window = v@.skip(at as int).take(tag.len() as int);
    let mut k: usize = 0;
    while k < tag.len()
        invariant
            k <= tag.len(),
            at + tag.len() <= v.len(),
            window == v@.skip(at as int).take(tag.len() as int),
            forall|j: int| 0 <= j < k ==> window[j] == tag@[j],
        decreases tag.len() - k,
    {
        if v[at + k] != tag[k] {
            assert(window[k as int] != tag@[k as int]);
            return false;
        }
        k += 1;
    }
    assert(window =~= tag@);
    true
}

/// Takes the occurrences of `tag` out of `v`; an empty tag leaves `v` as it
/// is.
pub fn remove_all(v: &Vec<char>, tag: &Vec<char>) -> (r: Vec<char>)
    ensures
        r@ == without(v@, tag@),
{
    let mut out: Vec<char> = Vec::new();
    if tag.len() == 0 {
        crate::text::push_chars(&mut out, v);
        assert(out@ == v@);
        return out;
    }
    let mut i: usize = 0;
    assert(v@.skip(0) == v@);
    assert(Seq::<char>::empty() + without(v@, tag@) == without(v@, tag@));
    while i < v.len()
        invariant
            i <= v.len(),
            tag.len() > 0,
            out@ + without(v@.skip(i as int), tag@) == without(v@, tag@),
        decreases v.len() - i,
    {
        let ghost rest = v@.skip(i as int);
        if v.len() - i >= tag.len() && starts_at(v, i, tag) {
            proof {
                assert(rest.skip(tag.len() as int) == v@.skip(i + tag.len()));
            }
            i += tag.len();
        } else {
            proof {
                assert(rest.drop_first() == v@.skip(i + 1));
                assert(rest[0] == v@[i as int]);
                if rest.len() >= tag.len() {
                    assert(without(rest, tag@) == seq![rest[0]] + without(rest.drop_first(), tag@));
                    assert(out@.push(v@[i as int]) + without(v@.skip(i + 1), tag@) == out@ + (
                    seq![rest[0]] + without(rest.drop_first(), tag@)));
                } else {
                    lemma_without_short(rest, tag@);
                    lemma_without_short(rest.drop_first(), tag@);
                    assert(rest == seq![rest[0]] + rest.drop_first());
                    assert(out@.push(v@[i as int]) + rest.drop_first() == out@ + rest);
                }
            }
            out.push(v[i]);
            i += 1;
        }
    }
    proof {
        assert(v@.skip(v.len() as int).len() == 0);
        assert(out@ + Seq::<char>::empty() == out@);
    }
    out
}

proof fn lemma_without_short(s: Seq<char>, tag: Seq<char>)
    requires
        s.len() < tag.len(),
    ensures
        without(s, tag) == s,
{
}

/// Cuts the white space off both ends of `v`.
pub fn trim_chars(v: &Vec<char>) -> (r: Vec<char>)
    ensures
        r@ == trimmed(v@),
{
    let mut from: usize = 0;
    assert(v@.skip(0) == v@);
    while from < v.len() && is_space_char(v[from])
        invariant
            from <= v.len(),
            trim_start(v@) == trim_start(v@.skip(from as int)),
        decreases v.len() - from,
    {
        proof {
            assert(v@.skip(from as int)[0] == v@[from as int]);
            assert(v@.skip(from as int).drop_first() == v@.skip(from + 1));
        }
        from += 1;
    }
    proof {
        if from < v.len() {
            assert(v@.skip(from as int)[0] == v@[from as int]);
        }
        assert(trim_start(v@) == v@.skip(from as int));
    }
    let ghost body = v@.skip(from as int);
    let mut to: usize = v.len();
    assert(v@.subrange(from as int, to as int) == body);
    while to > from && is_space_char(v[to - 1])
        invariant
            from <= to <= v.len(),
            body == v@.skip(from as int),
            trim_end(body) == trim_end(v@.subrange(from as int, to as int)),
        decreases to - from,
    {
        proof {
            let cur = v@.subrange(from as int, to as int);
            assert(cur.last() == v@[to - 1]);
            assert(cur.drop_last() == v@.subrange(from as int, to - 1));
        }
        to -= 1;
    }
    proof {
        let cur = v@.subrange(from as int, to as int);
        if to > from {
            assert(cur.last() == v@[to - 1]);
        }
        assert(trim_end(body) == cur);
    }
    let mut r: Vec<char> = Vec::new();
    let mut i: usize = from;
    while i < to
        invariant
            from <= i <= to <= v.len(),
            r@ == v@.subrange(from as int, i as int),
        decreases to - i,
    {
        r.push(v[i]);
        i += 1;
    }
    r
}

/// Cleans subtitle text by removing formatting tags and extra whitespace
pub fn clean_subtitle_text(text: &str) -> (r: String)
    ensures
        r@ == cleaned(text@),
{
    proof {
        reveal_strlit("<i>");
        reveal_strlit("</i>");
    }
    let v = chars_of(text);
    let open = chars_of("<i>");
    let close = chars_of("</i>");
    let a = remove_all(&v, &open);
    let b = remove_all(&a, &close);
    let c = trim_chars(&b);
    string_of(&c)
}

} // verus!
