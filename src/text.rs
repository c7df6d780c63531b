use vstd::prelude::*;

verus! {

/// Relies on `String::push`: appends one character at the end.
pub assume_specification[ String::push ](s: &mut String, ch: char)
    ensures
        final(s)@ == old(s)@.push(ch),
;

/// The characters of `s`, in order.
pub fn chars_of(s: &str) -> (r: Vec<char>)
    ensures
        r@ == s@,
{
    let mut r: Vec<char> = Vec::new();
    for ch in it: s.chars()
        invariant
            r@ == it.seq().take(it.index() as int),
    {
        r.push(ch);
    }
    r
}

/// A line without the carriage return that ended it, if one did.
pub open spec fn strip_cr(l: Seq<char>) -> Seq<char> {
    if l.len() > 0 && l.last() == '\r' {
        l.drop_last()
    } else {
        l
    }
}

/// The lines finished so far and the line in progress after reading `s`
/// from the start: a `'\n'` ends a line (with a `'\r'` just before it).
pub open spec fn scan_lines(s: Seq<char>) -> (Seq<Seq<char>>, Seq<char>)
    decreases s.len(),
{
    if s.len() == 0 {
        (seq![], seq![])
    } else {
        let (done, cur) = scan_lines(s.drop_last());
        if s.last() == '\n' {
            (done.push(strip_cr(cur)), seq![])
        } else {
            (done, cur.push(s.last()))
        }
    }
}

/// The lines of a text: split at each `'\n'` or `"\r\n"`, without the
/// terminators; a final line without a terminator counts, an empty one
/// after the last terminator does not.
pub open spec fn lines_of(s: Seq<char>) -> Seq<Seq<char>> {
    let (done, cur) = scan_lines(s);
    if cur.len() == 0 {
        done
    } else {
        done.push(cur)
    }
}

/// The character sequences held by a list of lines.
pub open spec fn line_views(v: Seq<Vec<char>>) -> Seq<Seq<char>> {
    v.map_values(|l: Vec<char>| l@)
}

/// Splits `text` into its lines, each as a sequence of characters.
pub fn split_lines(text: &str) -> (r: Vec<Vec<char>>)
    ensures
        line_views(r@) == lines_of(text@),
{
    let mut done: Vec<Vec<char>> = Vec::new();
    let mut cur: Vec<char> = Vec::new();
    for ch in it: text.chars()
        invariant
            it.seq() == text@,
            (line_views(done@), cur@) == scan_lines(text@.take(it.index() as int)),
    {
        let ghost prefix = text@.take(it.index() as int);
        let ghost next = text@.take(it.index() + 1);
        assert(next.drop_last() == prefix);
        assert(next.last() == ch);
        if ch == '\n' {
            let n = cur.len();
            if n > 0 && cur[n - 1] == '\r' {
                cur.pop();
            }
            assert(cur@ == strip_cr(scan_lines(prefix).1));
            let ghost before = line_views(done@);
            let line = cur;
            cur = Vec::new();
            done.push(line);
            assert(line_views(done@) =~= before.push(line@));
        } else {
            cur.push(ch);
        }
    }
    assert(text@.take(text@.len() as int) == text@);
    if cur.len() > 0 {
        let ghost before = line_views(done@);
        let ghost last = cur@;
        done.push(cur);
        assert(line_views(done@) =~= before.push(last));
    }
    done
}

/// `s` left-justified in a field of exactly `width` characters: cut after
/// `width` characters, or padded on the right with spaces.
pub open spec fn fit(s: Seq<char>, width: nat) -> Seq<char> {
    Seq::new(width, |i: int| if i < s.len() { s[i] } else { ' ' })
}

/// Builds the text of `chars` left-justified in exactly `width` characters.
pub fn fit_width(chars: &Vec<char>, width: usize) -> (r: String)
    ensures
        r@ == fit(chars@, width as nat),
{
    let mut r = String::new();
    let n = chars.len();
    for i in 0..width
        invariant
            n == chars@.len(),
            r@ =~= fit(chars@, width as nat).take(i as int),
    {
        let ch = if i < n {
            chars[i]
        } else {
            ' '
        };
        r.push(ch);
    }
    assert(fit(chars@, width as nat).take(width as int) =~= fit(chars@, width as nat));
    r
}

} // verus!
