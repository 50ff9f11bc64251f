//! Character-level text helpers: line splitting, joining, trimming, prefix
//! tests and decimal formatting.
//!
//! Commit messages are handled as sequences of characters.  The functions
//! here are the shared vocabulary of the parser and the changelog renderer;
//! each has an exact contract over its `Seq<char>` model.

use vstd::prelude::*;

verus! {

/// ASCII whitespace, the set this crate trims and tests blankness with.
pub open spec fn ws_char(c: char) -> bool {
    c == ' ' || c == '\t' || c == '\r' || c == '\n'
}

/// Executable test for [`ws_char`].
pub fn is_ws(c: char) -> (r: bool)
    ensures
        r == ws_char(c),
{
    c == ' ' || c == '\t' || c == '\r' || c == '\n'
}

/// A line is blank when every character in it is whitespace.
pub open spec fn is_blank_line(l: Seq<char>) -> bool {
    forall|i: int| 0 <= i < l.len() ==> ws_char(l[i])
}

/// Executable test for [`is_blank_line`].
pub fn is_blank(l: &Vec<char>) -> (r: bool)
    ensures
        r == is_blank_line(l@),
{
    let mut i: usize = 0;
    while i < l.len()
        invariant
            0 <= i <= l@.len(),
            forall|j: int| 0 <= j < i ==> ws_char(l@[j]),
        decreases l@.len() - i,
    {
        if !is_ws(l[i]) {
            return false;
        }
        i += 1;
    }
    true
}

/// `p` is a prefix of `s`.
pub open spec fn has_prefix(s: Seq<char>, p: Seq<char>) -> bool {
    p.len() <= s.len() && s.subrange(0, p.len() as int) == p
}

/// The characters of `s`, in order.
pub fn str_to_chars(s: &str) -> (v: Vec<char>)
    ensures
        v@ == s@,
{
    let len = s.unicode_len();
    let mut v: Vec<char> = Vec::new();
    let mut i: usize = 0;
    while i < len
        invariant
            len == s@.len(),
            0 <= i <= len,
            v@ == s@.subrange(0, i as int),
        decreases len - i,
    {
        v.push(s.get_char(i));
        assert(v@ =~= s@.subrange(0, i + 1 as int));
        i += 1;
    }
    assert(v@ =~= s@);
    v
}

/// Collects characters back into a `String`.
///
/// Relies on `String: FromIterator<char>` (`Iterator::collect`): the string
/// built from a character iterator holds exactly those characters in order.
#[verifier::external_body]
pub fn string_from_chars(v: &Vec<char>) -> (s: String)
    ensures
        s@ == v@,
{
    v.iter().collect()
}

/// Does `v` start with the characters of `p`?
pub fn starts_with_str(v: &Vec<char>, p: &str) -> (r: bool)
    ensures
        r == has_prefix(v@, p@),
{
    let pc = str_to_chars(p);
    if pc.len() > v.len() {
        return false;
    }
    let mut i: usize = 0;
    while i < pc.len()
        invariant
            pc@ == p@,
            pc@.len() <= v@.len(),
            0 <= i <= pc@.len(),
            forall|j: int| 0 <= j < i ==> v@[j] == pc@[j],
        decreases pc@.len() - i,
    {
        if v[i] != pc[i] {
            assert(!has_prefix(v@, p@)) by {
                assert(v@.subrange(0, p@.len() as int)[i as int] == v@[i as int]);
            }
            return false;
        }
        i += 1;
    }
    assert(v@.subrange(0, p@.len() as int) =~= p@);
    true
}

/// The copy of `v[from..to]`.
pub fn subvec(v: &Vec<char>, from: usize, to: usize) -> (r: Vec<char>)
    requires
        0 <= from <= to <= v@.len(),
    ensures
        r@ == v@.subrange(from as int, to as int),
{
    let mut r: Vec<char> = Vec::new();
    let mut i = from;
    while i < to
        invariant
            from <= i <= to <= v@.len(),
            r@ == v@.subrange(from as int, i as int),
        decreases to - i,
    {
        r.push(v[i]);
        assert(r@ =~= v@.subrange(from as int, i + 1 as int));
        i += 1;
    }
    r
}

/// Appends the characters of `p` to `acc`.
pub fn push_all(acc: &mut Vec<char>, p: &Vec<char>)
    ensures
        final(acc)@ == old(acc)@ + p@,
{
    let mut i: usize = 0;
    while i < p.len()
        invariant
            0 <= i <= p@.len(),
            acc@ == old(acc)@ + p@.subrange(0, i as int),
        decreases p@.len() - i,
    {
        acc.push(p[i]);
        assert(acc@ =~= old(acc)@ + p@.subrange(0, i + 1 as int));
        i += 1;
    }
    assert(acc@ =~= old(acc)@ + p@);
}

/// Index of the first occurrence of `c` in `s` at or after `from`;
/// `s.len()` when there is none.
pub open spec fn find_from(s: Seq<char>, c: char, from: int) -> int
    recommends
        0 <= from <= s.len(),
    decreases s.len() - from,
{
    if from < 0 || from >= s.len() {
        s.len() as int
    } else if s[from] == c {
        from
    } else {
        find_from(s, c, from + 1)
    }
}

/// Where `c` occurs at `j`, the first occurrence from `from` is at or
/// before `j`.
pub proof fn lemma_find_from_found(s: Seq<char>, c: char, from: int, j: int)
    requires
        0 <= from <= j < s.len(),
        s[j] == c,
    ensures
        from <= find_from(s, c, from) <= j,
    decreases j - from,
{
    if from < j && s[from] != c {
        lemma_find_from_found(s, c, from + 1, j);
    }
}

/// The first occurrence lies between the start of the search and the end
/// of the text, and really is an occurrence when it is inside.
pub proof fn lemma_find_bounds(s: Seq<char>, c: char, p: int)
    requires
        0 <= p <= s.len(),
    ensures
        p <= find_from(s, c, p) <= s.len(),
        find_from(s, c, p) < s.len() ==> s[find_from(s, c, p)] == c,
    decreases s.len() - p,
{
    if p < s.len() && s[p] != c {
        lemma_find_bounds(s, c, p + 1);
    }
}

/// When nothing between the search start and `k` is an occurrence, and `k`
/// (when inside) is one, the search lands exactly on `k` — or on the end
/// when `k` is the end.
pub proof fn lemma_find_from_first(s: Seq<char>, c: char, p: int, k: int)
    requires
        0 <= p <= k <= s.len(),
        forall|j: int| p <= j < k ==> s[j] != c,
        k < s.len() ==> s[k] == c,
    ensures
        find_from(s, c, p) == k,
    decreases k - p,
{
    if p < k {
        lemma_find_from_first(s, c, p + 1, k);
    }
}

/// Searching a suffix finds the same occurrence, shifted by the cut.
pub proof fn lemma_find_shift(s: Seq<char>, c: char, p: int, q: int)
    requires
        0 <= p <= q <= s.len(),
    ensures
        find_from(s, c, q) == p + find_from(s.subrange(p, s.len() as int), c, q - p),
    decreases s.len() - q,
{
    let suffix = s.subrange(p, s.len() as int);
    if q >= s.len() {
        assert(find_from(suffix, c, q - p) == suffix.len());
    } else if s[q] == c {
        assert(suffix[q - p] == c);
    } else {
        assert(suffix[q - p] != c);
        lemma_find_shift(s, c, p, q + 1);
    }
}

/// A line with a trailing carriage return loses it; used when splitting on
/// line feeds so that CRLF endings behave like plain LF.
pub open spec fn strip_cr(l: Seq<char>) -> Seq<char> {
    if l.len() > 0 && l.last() == '\r' {
        l.drop_last()
    } else {
        l
    }
}

/// The lines of `s[pos..]`, split at `'\n'`, each stripped of a trailing
/// `'\r'`; a final line terminator produces no empty last line.
pub open spec fn lines_from(s: Seq<char>, pos: int) -> Seq<Seq<char>>
    recommends
        0 <= pos <= s.len(),
    decreases s.len() - pos,
{
    if pos < 0 || pos >= s.len() {
        seq![]
    } else {
        let i = find_from(s, '\n', pos);
        if i < pos {
            seq![]
        } else if i >= s.len() {
            seq![s.subrange(pos, s.len() as int)]
        } else {
            seq![strip_cr(s.subrange(pos, i))] + lines_from(s, i + 1)
        }
    }
}

/// The lines of `s`, in the sense of [`lines_from`] taken from the start.
pub open spec fn lines_of(s: Seq<char>) -> Seq<Seq<char>> {
    lines_from(s, 0)
}

/// The lines from position `p` on are the lines of the suffix cut there.
pub proof fn lemma_lines_from_suffix(s: Seq<char>, p: int)
    requires
        0 <= p <= s.len(),
    ensures
        lines_from(s, p) == lines_of(s.subrange(p, s.len() as int)),
    decreases s.len() - p,
{
    let suffix = s.subrange(p, s.len() as int);
    if p >= s.len() {
        assert(suffix.len() == 0);
    } else {
        let i = find_from(s, '\n', p);
        lemma_find_bounds(s, '\n', p);
        lemma_find_shift(s, '\n', p, p);
        let si = find_from(suffix, '\n', 0);
        assert(i == p + si);
        if i >= s.len() {
            assert(suffix.subrange(0, suffix.len() as int) =~= suffix);
            assert(s.subrange(p, s.len() as int) == suffix);
        } else {
            assert(suffix[si] == s[i]);
            assert(suffix.subrange(0, si) =~= s.subrange(p, i));
            lemma_lines_from_suffix(s, i + 1);
            lemma_lines_from_suffix(suffix, si + 1);
            assert(suffix.subrange(si + 1, suffix.len() as int) =~= s.subrange(
                i + 1,
                s.len() as int,
            ));
        }
    }
}

/// The character sequences that a list of character vectors holds.
pub open spec fn views_of(parts: Seq<Vec<char>>) -> Seq<Seq<char>> {
    Seq::new(parts.len(), |i: int| parts[i]@)
}

/// The character sequences that a list of strings holds.
pub open spec fn str_views(l: Seq<String>) -> Seq<Seq<char>> {
    Seq::new(l.len(), |i: int| l[i]@)
}

/// The text behind an optional string.
pub open spec fn opt_text(o: Option<String>) -> Option<Seq<char>> {
    match o {
        Some(s) => Some(s@),
        None => None,
    }
}

/// Index of the first occurrence of `c` in `v` at or after `from`;
/// see [`find_from`].
pub fn find_char_from(v: &Vec<char>, c: char, from: usize) -> (r: usize)
    requires
        0 <= from <= v@.len(),
    ensures
        r == find_from(v@, c, from as int),
        from <= r <= v@.len(),
{
    let mut i = from;
    while i < v.len()
        invariant
            from <= i <= v@.len(),
            find_from(v@, c, from as int) == find_from(v@, c, i as int),
        decreases v@.len() - i,
    {
        if v[i] == c {
            return i;
        }
        i += 1;
    }
    i
}

/// Index of the first non-whitespace character of `s` at or after `i`.
pub open spec fn skip_ws_from(s: Seq<char>, i: int) -> int
    recommends
        0 <= i <= s.len(),
    decreases s.len() - i,
{
    if 0 <= i < s.len() && ws_char(s[i]) {
        skip_ws_from(s, i + 1)
    } else {
        i
    }
}

/// Executable counterpart of [`skip_ws_from`].
pub fn skip_ws(v: &Vec<char>, from: usize) -> (r: usize)
    requires
        0 <= from <= v@.len(),
    ensures
        r == skip_ws_from(v@, from as int),
        from <= r <= v@.len(),
{
    let mut i = from;
    while i < v.len()
        invariant
            from <= i <= v@.len(),
            skip_ws_from(v@, from as int) == skip_ws_from(v@, i as int),
        decreases v@.len() - i,
    {
        if !is_ws(v[i]) {
            return i;
        }
        i += 1;
    }
    i
}

/// Splits `v` into its lines; see [`lines_of`].
pub fn split_lines(v: &Vec<char>) -> (r: Vec<Vec<char>>)
    ensures
        views_of(r@) == lines_of(v@),
{
    let mut acc: Vec<Vec<char>> = Vec::new();
    let mut pos: usize = 0;
    while pos < v.len()
        invariant
            0 <= pos <= v@.len(),
            lines_of(v@) == views_of(acc@) + lines_from(v@, pos as int),
        decreases v@.len() - pos,
    {
        let i = find_char_from(v, '\n', pos);
        if i >= v.len() {
            let line = subvec(v, pos, v.len());
            acc.push(line);
            assert(views_of(acc@) =~= views_of(acc@.drop_last()) + seq![
                v@.subrange(pos as int, v@.len() as int),
            ]);
            assert(lines_of(v@) =~= views_of(acc@) + lines_from(v@, v@.len() as int));
            pos = v.len();
        } else {
            let mut line = subvec(v, pos, i);
            if line.len() > 0 && line[line.len() - 1] == '\r' {
                line.pop();
                assert(line@ =~= strip_cr(v@.subrange(pos as int, i as int)));
            } else {
                assert(line@ =~= strip_cr(v@.subrange(pos as int, i as int)));
            }
            acc.push(line);
            assert(views_of(acc@) =~= views_of(acc@.drop_last()) + seq![
                strip_cr(v@.subrange(pos as int, i as int)),
            ]);
            assert(lines_of(v@) =~= views_of(acc@) + lines_from(v@, i + 1 as int));
            pos = i + 1;
        }
    }
    assert(lines_of(v@) =~= views_of(acc@));
    acc
}

/// The stretches of `s[pos..]` between occurrences of `c`: one part more
/// than there are separators, empty parts kept.
pub open spec fn split_plain_from(s: Seq<char>, c: char, pos: int) -> Seq<Seq<char>>
    recommends
        0 <= pos <= s.len(),
    decreases s.len() - pos,
{
    if pos < 0 || pos > s.len() {
        seq![]
    } else {
        let i = find_from(s, c, pos);
        if i < pos {
            seq![]
        } else if i >= s.len() {
            seq![s.subrange(pos, s.len() as int)]
        } else {
            seq![s.subrange(pos, i)] + split_plain_from(s, c, i + 1)
        }
    }
}

/// The texts of a comma-separated configuration list: the stretches
/// between commas, each trimmed of surrounding whitespace.
pub open spec fn comma_list_of(s: Seq<char>) -> Seq<Seq<char>> {
    split_plain_from(s, ',', 0).map_values(|p: Seq<char>| trim_ws(p))
}

/// Splits a comma-separated configuration list into its trimmed entries;
/// see [`comma_list_of`].
pub fn parse_type_list(s: &str) -> (r: Vec<String>)
    ensures
        str_views(r@) == comma_list_of(s@),
{
    let chars = str_to_chars(s);
    let mut r: Vec<String> = Vec::new();
    let mut pos: usize = 0;
    loop
        invariant
            0 <= pos <= chars@.len(),
            chars@ == s@,
            comma_list_of(s@) =~= str_views(r@) + split_plain_from(s@, ',', pos as int).map_values(
                |p: Seq<char>| trim_ws(p),
            ),
        decreases chars@.len() - pos,
    {
        let i = find_char_from(&chars, ',', pos);
        let ghost rest = split_plain_from(s@, ',', pos as int);
        let part = subvec(&chars, pos, i);
        let trimmed = trim_chars(&part);
        let entry = string_from_chars(&trimmed);
        let ghost prev = r@;
        r.push(entry);
        proof {
            assert(r@ == prev.push(r@.last()));
            assert(r@.last()@ == trim_ws(rest[0]));
            assert(forall|k: int| 0 <= k < prev.len() ==> str_views(r@)[k] == str_views(prev)[k]);
            if (i as int) >= s@.len() {
                assert(rest =~= seq![s@.subrange(pos as int, s@.len() as int)]);
                assert(rest.map_values(|p: Seq<char>| trim_ws(p)) =~= seq![trim_ws(rest[0])]);
                assert(str_views(r@) =~= str_views(prev) + seq![trim_ws(rest[0])]);
                assert(split_plain_from(s@, ',', i as int).len()
                    == if (i as int) > s@.len() { 0int } else { 1int });
            } else {
                assert(rest.map_values(|p: Seq<char>| trim_ws(p)) =~= seq![trim_ws(rest[0])]
                    + split_plain_from(s@, ',', i + 1 as int).map_values(
                    |p: Seq<char>| trim_ws(p),
                ));
                assert(str_views(r@) =~= str_views(prev) + seq![trim_ws(rest[0])]);
            }
        }
        if i >= chars.len() {
            proof {
                assert(str_views(r@) =~= comma_list_of(s@));
            }
            return r;
        }
        pos = i + 1;
    }
}

/// The lines joined back with `'\n'` between them.
pub open spec fn join_lines(ls: Seq<Seq<char>>) -> Seq<char>
    decreases ls.len(),
{
    if ls.len() == 0 {
        seq![]
    } else if ls.len() == 1 {
        ls[0]
    } else {
        ls[0] + seq!['\n'] + join_lines(ls.drop_first())
    }
}

/// Joining one more line appends a separator (unless nothing was joined yet)
/// and the line.
pub proof fn lemma_join_push(ls: Seq<Seq<char>>, x: Seq<char>)
    ensures
        join_lines(ls.push(x)) == if ls.len() == 0 {
            x
        } else {
            join_lines(ls) + seq!['\n'] + x
        },
    decreases ls.len(),
{
    if ls.len() == 0 {
        assert(ls.push(x).len() == 1);
        assert(ls.push(x)[0] == x);
    } else {
        lemma_join_push(ls.drop_first(), x);
        assert(ls.push(x).drop_first() =~= ls.drop_first().push(x));
        assert(ls.push(x)[0] == ls[0]);
        if ls.len() == 1 {
            assert(join_lines(ls) == ls[0]);
            assert(join_lines(ls.push(x)) =~= ls[0] + seq!['\n'] + x);
        } else {
            assert(join_lines(ls.push(x)) =~= join_lines(ls) + seq!['\n'] + x);
        }
    }
}

/// Joins the lines of `parts` from index `from` on with `'\n'`;
/// see [`join_lines`].
pub fn join_lines_from(parts: &Vec<Vec<char>>, from: usize) -> (r: Vec<char>)
    requires
        0 <= from <= parts@.len(),
    ensures
        r@ == join_lines(views_of(parts@).subrange(from as int, parts@.len() as int)),
{
    let ghost vs = views_of(parts@);
    let mut acc: Vec<char> = Vec::new();
    let mut i: usize = from;
    while i < parts.len()
        invariant
            from <= i <= parts@.len(),
            vs == views_of(parts@),
            acc@ == join_lines(vs.subrange(from as int, i as int)),
        decreases parts@.len() - i,
    {
        if i > from {
            acc.push('\n');
        }
        push_all(&mut acc, &parts[i]);
        proof {
            assert(vs.subrange(from as int, i + 1 as int) =~= vs.subrange(
                from as int,
                i as int,
            ).push(vs[i as int]));
            lemma_join_push(vs.subrange(from as int, i as int), vs[i as int]);
            assert(parts@[i as int]@ == vs[i as int]);
            assert(acc@ =~= join_lines(vs.subrange(from as int, i + 1 as int)));
        }
        i += 1;
    }
    acc
}

/// The sequence of lines with every leading blank line removed.
pub open spec fn drop_blank_prefix(ls: Seq<Seq<char>>) -> Seq<Seq<char>>
    decreases ls.len(),
{
    if ls.len() > 0 && is_blank_line(ls[0]) {
        drop_blank_prefix(ls.drop_first())
    } else {
        ls
    }
}

/// If the first `k` lines are blank and line `k` (when present) is not,
/// dropping the blank prefix keeps exactly the lines from `k` on.
pub proof fn lemma_drop_blank_prefix_at(ls: Seq<Seq<char>>, k: int)
    requires
        0 <= k <= ls.len(),
        forall|j: int| 0 <= j < k ==> is_blank_line(ls[j]),
        k < ls.len() ==> !is_blank_line(ls[k]),
    ensures
        drop_blank_prefix(ls) == ls.subrange(k, ls.len() as int),
    decreases ls.len(),
{
    if k == 0 {
        if ls.len() > 0 && is_blank_line(ls[0]) {
            assert(false);
        }
        assert(ls.subrange(0, ls.len() as int) =~= ls);
    } else {
        assert(is_blank_line(ls[0]));
        lemma_drop_blank_prefix_at(ls.drop_first(), k - 1);
        assert(ls.drop_first().subrange(k - 1, ls.drop_first().len() as int) =~= ls.subrange(
            k,
            ls.len() as int,
        ));
    }
}

/// Index of the first non-blank line of `parts` at or after `from`, or the
/// number of lines when everything from `from` on is blank.  The blank
/// stretch it skips is exactly what [`drop_blank_prefix`] removes from the
/// lines taken from `from`.
pub fn first_non_blank(parts: &Vec<Vec<char>>, from: usize) -> (k: usize)
    requires
        0 <= from <= parts@.len(),
    ensures
        from <= k <= parts@.len(),
        k < parts@.len() ==> !is_blank_line(views_of(parts@)[k as int]),
        drop_blank_prefix(views_of(parts@).subrange(from as int, parts@.len() as int))
            == views_of(parts@).subrange(k as int, parts@.len() as int),
{
    let ghost vs = views_of(parts@);
    let mut k: usize = from;
    while k < parts.len()
        invariant
            from <= k <= parts@.len(),
            vs == views_of(parts@),
            forall|j: int| from <= j < k ==> is_blank_line(vs[j]),
        decreases parts@.len() - k,
    {
        if !is_blank(&parts[k]) {
            proof {
                assert(parts@[k as int]@ == vs[k as int]);
                let tail = vs.subrange(from as int, parts@.len() as int);
                lemma_drop_blank_prefix_at(tail, k - from);
                assert(tail.subrange(k - from, tail.len() as int) =~= vs.subrange(
                    k as int,
                    parts@.len() as int,
                ));
            }
            return k;
        }
        assert(parts@[k as int]@ == vs[k as int]);
        k += 1;
    }
    proof {
        let tail = vs.subrange(from as int, parts@.len() as int);
        lemma_drop_blank_prefix_at(tail, k - from);
        assert(tail.subrange(k - from, tail.len() as int) =~= vs.subrange(
            k as int,
            parts@.len() as int,
        ));
    }
    k
}

/// `s` with trailing whitespace removed.
pub open spec fn trim_end_ws(s: Seq<char>) -> Seq<char>
    decreases s.len(),
{
    if s.len() > 0 && ws_char(s.last()) {
        trim_end_ws(s.drop_last())
    } else {
        s
    }
}

/// `s` with leading whitespace removed.
pub open spec fn trim_start_ws(s: Seq<char>) -> Seq<char>
    decreases s.len(),
{
    if s.len() > 0 && ws_char(s[0]) {
        trim_start_ws(s.drop_first())
    } else {
        s
    }
}

/// `s` with whitespace removed at both ends.
pub open spec fn trim_ws(s: Seq<char>) -> Seq<char> {
    trim_start_ws(trim_end_ws(s))
}

/// If everything from index `k` on is whitespace and the character before `k`
/// (when there is one) is not, trimming the end keeps exactly `s[..k]`.
pub proof fn lemma_trim_end_at(s: Seq<char>, k: int)
    requires
        0 <= k <= s.len(),
        forall|j: int| k <= j < s.len() ==> ws_char(s[j]),
        k > 0 ==> !ws_char(s[k - 1]),
    ensures
        trim_end_ws(s) == s.subrange(0, k),
    decreases s.len(),
{
    if s.len() == k {
        if s.len() > 0 && ws_char(s.last()) {
            assert(false);
        }
        assert(s.subrange(0, k) =~= s);
    } else {
        assert(ws_char(s.last()));
        lemma_trim_end_at(s.drop_last(), k);
        assert(s.drop_last().subrange(0, k) =~= s.subrange(0, k));
    }
}

/// If everything before index `k` is whitespace and the character at `k`
/// (when there is one) is not, trimming the start keeps exactly `s[k..]`.
pub proof fn lemma_trim_start_at(s: Seq<char>, k: int)
    requires
        0 <= k <= s.len(),
        forall|j: int| 0 <= j < k ==> ws_char(s[j]),
        k < s.len() ==> !ws_char(s[k]),
    ensures
        trim_start_ws(s) == s.subrange(k, s.len() as int),
    decreases s.len(),
{
    if k == 0 {
        if s.len() > 0 && ws_char(s[0]) {
            assert(false);
        }
        assert(s.subrange(0, s.len() as int) =~= s);
    } else {
        assert(ws_char(s[0]));
        lemma_trim_start_at(s.drop_first(), k - 1);
        assert(s.drop_first().subrange(k - 1, s.drop_first().len() as int) =~= s.subrange(
            k,
            s.len() as int,
        ));
    }
}

/// Removes trailing whitespace of `v`; see [`trim_end_ws`].
pub fn trim_end_chars(v: &Vec<char>) -> (r: Vec<char>)
    ensures
        r@ == trim_end_ws(v@),
{
    let mut end: usize = v.len();
    while end > 0 && is_ws(v[end - 1])
        invariant
            0 <= end <= v@.len(),
            forall|j: int| end <= j < v@.len() ==> ws_char(v@[j]),
        decreases end,
    {
        end -= 1;
    }
    proof {
        lemma_trim_end_at(v@, end as int);
    }
    subvec(v, 0, end)
}

/// Removes whitespace at both ends of `v`; see [`trim_ws`].
pub fn trim_chars(v: &Vec<char>) -> (r: Vec<char>)
    ensures
        r@ == trim_ws(v@),
{
    let mut end: usize = v.len();
    while end > 0 && is_ws(v[end - 1])
        invariant
            0 <= end <= v@.len(),
            forall|j: int| end <= j < v@.len() ==> ws_char(v@[j]),
        decreases end,
    {
        end -= 1;
    }
    proof {
        lemma_trim_end_at(v@, end as int);
    }
    let mut start: usize = 0;
    while start < end && is_ws(v[start])
        invariant
            0 <= start <= end <= v@.len(),
            forall|j: int| 0 <= j < start ==> ws_char(v@[j]),
        decreases end - start,
    {
        start += 1;
    }
    let r = subvec(v, start, end);
    proof {
        let te = v@.subrange(0, end as int);
        assert(forall|j: int| 0 <= j < start ==> te[j] == v@[j]);
        if (start as int) < (end as int) {
            assert(te[start as int] == v@[start as int]);
        }
        lemma_trim_start_at(te, start as int);
        assert(te.subrange(start as int, te.len() as int) =~= v@.subrange(
            start as int,
            end as int,
        ));
    }
    r
}

/// A decimal digit as a character.
pub open spec fn digit_char(d: int) -> char
    recommends
        0 <= d <= 9,
{
    if d == 0 {
        '0'
    } else if d == 1 {
        '1'
    } else if d == 2 {
        '2'
    } else if d == 3 {
        '3'
    } else if d == 4 {
        '4'
    } else if d == 5 {
        '5'
    } else if d == 6 {
        '6'
    } else if d == 7 {
        '7'
    } else if d == 8 {
        '8'
    } else {
        '9'
    }
}

/// The decimal representation of `n`, most significant digit first, with no
/// leading zeros (`0` is written as one digit).
pub open spec fn dec_rep(n: int) -> Seq<char>
    recommends
        n >= 0,
    decreases n,
{
    if n < 10 {
        seq![digit_char(n)]
    } else {
        dec_rep(n / 10).push(digit_char(n % 10))
    }
}

/// One digit as a string slice.
fn digit_str(d: u64) -> (r: &'static str)
    requires
        d < 10,
    ensures
        r@ == seq![digit_char(d as int)],
{
    proof {
        reveal_strlit("0");
        reveal_strlit("1");
        reveal_strlit("2");
        reveal_strlit("3");
        reveal_strlit("4");
        reveal_strlit("5");
        reveal_strlit("6");
        reveal_strlit("7");
        reveal_strlit("8");
        reveal_strlit("9");
    }
    let r = if d == 0 {
        "0"
    } else if d == 1 {
        "1"
    } else if d == 2 {
        "2"
    } else if d == 3 {
        "3"
    } else if d == 4 {
        "4"
    } else if d == 5 {
        "5"
    } else if d == 6 {
        "6"
    } else if d == 7 {
        "7"
    } else if d == 8 {
        "8"
    } else {
        "9"
    };
    assert(r@ =~= seq![digit_char(d as int)]);
    r
}

/// Writes `n` in decimal; see [`dec_rep`].
pub fn decimal_string(n: u64) -> (s: String)
    ensures
        s@ == dec_rep(n as int),
    decreases n,
{
    if n < 10 {
        String::from_str(digit_str(n))
    } else {
        let high = decimal_string(n / 10);
        let s = high.concat(digit_str(n % 10));
        assert(s@ =~= dec_rep(n as int));
        s
    }
}

} // verus!
