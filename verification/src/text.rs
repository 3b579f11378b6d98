//! Small verified helpers on text.
use vstd::prelude::*;
use vstd::string::StringExecFns;
use convert_case::{Case, Casing};

verus! {

broadcast use vstd::string::group_string_axioms;

/// Whether two string slices hold the same characters.
pub(crate) fn str_eq(a: &str, b: &str) -> (res: bool)
    ensures
        res == (a@ == b@),
{
    let x = chars_of(a);
    let y = chars_of(b);
    if x.len() != y.len() {
        return false;
    }
    let mut i: usize = 0;
    while i < x.len()
        invariant
            x@ == a@,
            y@ == b@,
            x.len() == y.len(),
            i <= x.len(),
            forall|k: int| 0 <= k < i ==> x@[k] == y@[k],
        decreases x.len() - i,
    {
        if x[i] != y[i] {
            return false;
        }
        i += 1;
    }
    assert(a@ =~= b@);
    true
}

/// Appends one character with std's `String::push`; the string grows by that character.
#[verifier::external_body]
pub(crate) fn push_char(s: &mut String, c: char)
    ensures
        final(s)@ == old(s)@.push(c),
{
    s.push(c)
}

/// Appends a string slice to a string.
pub fn push_str(s: &mut String, t: &str)
    ensures
        final(s)@ == old(s)@ + t@,
{
    s.append(t);
}

/// The characters of a string slice, in order.
pub fn chars_of(s: &str) -> (res: Vec<char>)
    ensures
        res@ == s@,
{
    let mut res: Vec<char> = Vec::new();
    for c in it: s.chars()
        invariant
            res@ == it.seq().take(it.index() as int),
            it.seq() == s@,
    {
        res.push(c);
    }
    res
}


/// The views of a sequence of strings.
pub open spec fn views(v: Seq<String>) -> Seq<Seq<char>> {
    v.map_values(|x: String| x@)
}

/// A string made of the given characters.
pub fn string_of(cs: &[char]) -> (res: String)
    ensures
        res@ == cs@,
{
    let mut res = String::new();
    let mut i: usize = 0;
    while i < cs.len()
        invariant
            i <= cs.len(),
            res@ == cs@.take(i as int),
        decreases cs.len() - i,
    {
        push_char(&mut res, cs[i]);
        assert(cs@.take(i + 1) == cs@.take(i as int).push(cs@[i as int]));
        i += 1;
    }
    assert(cs@.take(cs@.len() as int) == cs@);
    res
}

/// Splitting `s` at every `sep`, where the piece under construction is `cur`.
pub open spec fn split_from(s: Seq<char>, sep: char, cur: Seq<char>) -> Seq<Seq<char>>
    decreases s.len(),
{
    if s.len() == 0 {
        seq![cur]
    } else if s[0] == sep {
        seq![cur] + split_from(s.drop_first(), sep, seq![])
    } else {
        split_from(s.drop_first(), sep, cur.push(s[0]))
    }
}

/// The pieces of `s` between occurrences of `sep`, empty pieces included
/// (what `str::split` with a character pattern yields).
pub open spec fn split_spec(s: Seq<char>, sep: char) -> Seq<Seq<char>> {
    split_from(s, sep, seq![])
}

/// Splits a string at every occurrence of a character.
pub fn split_on(s: &str, sep: char) -> (res: Vec<String>)
    ensures
        views(res@) == split_spec(s@, sep),
{
    let cs = chars_of(s);
    let mut res: Vec<String> = Vec::new();
    let mut cur = String::new();
    let mut i: usize = 0;
    assert(cs@.skip(0) == cs@);
    while i < cs.len()
        invariant
            i <= cs.len(),
            cs@ == s@,
            split_spec(s@, sep) == views(res@) + split_from(cs@.skip(i as int), sep, cur@),
        decreases cs.len() - i,
    {
        let c = cs[i];
        let ghost rest = cs@.skip(i as int);
        assert(rest.drop_first() == cs@.skip(i + 1));
        if c == sep {
            let piece = cur;
            cur = String::new();
            let ghost before = res@;
            res.push(piece);
            assert(views(res@) == views(before) + seq![piece@]);
            assert(views(res@) + split_from(cs@.skip(i + 1), sep, cur@) =~= views(before) + (seq![piece@] + split_from(cs@.skip(i + 1), sep, seq![])));
        } else {
            push_char(&mut cur, c);
        }
        i += 1;
    }
    let ghost before = res@;
    res.push(cur);
    assert(views(res@) =~= views(before) + seq![cur@]);
    res
}

/// Whether a character has the Unicode `White_Space` property, by which
/// `char::is_whitespace` and `str::trim` go.
pub open spec fn is_white_space(c: char) -> bool {
    let u = c as u32;
    ||| 0x9 <= u <= 0xd
    ||| u == 0x20
    ||| u == 0x85
    ||| u == 0xa0
    ||| u == 0x1680
    ||| 0x2000 <= u <= 0x200a
    ||| u == 0x2028
    ||| u == 0x2029
    ||| u == 0x202f
    ||| u == 0x205f
    ||| u == 0x3000
}

/// A text without its leading white space.
pub open spec fn trimmed_start(s: Seq<char>) -> Seq<char>
    decreases s.len(),
{
    if s.len() > 0 && is_white_space(s[0]) {
        trimmed_start(s.drop_first())
    } else {
        s
    }
}

/// A text without its trailing white space.
pub open spec fn trimmed_end(s: Seq<char>) -> Seq<char>
    decreases s.len(),
{
    if s.len() > 0 && is_white_space(s.last()) {
        trimmed_end(s.drop_last())
    } else {
        s
    }
}

/// A text without its leading and trailing white space.
pub open spec fn trimmed(s: Seq<char>) -> Seq<char> {
    trimmed_end(trimmed_start(s))
}

/// Whether a character has the `White_Space` property.
fn is_white_space_char(c: char) -> (res: bool)
    ensures
        res == is_white_space(c),
{
    let u = c as u32;
    (0x9 <= u && u <= 0xd) || u == 0x20 || u == 0x85 || u == 0xa0 || u == 0x1680
        || (0x2000 <= u && u <= 0x200a) || u == 0x2028 || u == 0x2029 || u == 0x202f
        || u == 0x205f || u == 0x3000
}

/// Leading white space can be dropped before trimming the start.
proof fn lemma_trimmed_start_skip(s: Seq<char>, k: int)
    requires
        0 <= k <= s.len(),
        forall|j: int| 0 <= j < k ==> is_white_space(#[trigger] s[j]),
    ensures
        trimmed_start(s) == trimmed_start(s.skip(k)),
    decreases k,
{
    if k == 0 {
        assert(s.skip(0) =~= s);
    } else {
        assert(is_white_space(s[0]));
        let t = s.drop_first();
        assert forall|j: int| 0 <= j < k - 1 implies is_white_space(#[trigger] t[j]) by {
            assert(t[j] == s[j + 1]);
        }
        lemma_trimmed_start_skip(t, k - 1);
        assert(t.skip(k - 1) =~= s.skip(k));
    }
}

/// Trailing white space can be dropped before trimming the end.
proof fn lemma_trimmed_end_take(t: Seq<char>, k: int)
    requires
        0 <= k <= t.len(),
        forall|j: int| k <= j < t.len() ==> is_white_space(#[trigger] t[j]),
    ensures
        trimmed_end(t) == trimmed_end(t.take(k)),
    decreases t.len() - k,
{
    if k == t.len() {
        assert(t.take(k) =~= t);
    } else {
        assert(is_white_space(t[t.len() - 1]));
        let u = t.drop_last();
        lemma_trimmed_end_take(u, k);
        assert(u.take(k) =~= t.take(k));
    }
}

/// Trims white space at both ends, as std's `str::trim` does: the leading and
/// trailing characters with the `White_Space` property are removed.
pub(crate) fn trim(s: &str) -> (res: String)
    ensures
        res@ == trimmed(s@),
{
    let cs = chars_of(s);
    let n = cs.len();
    let mut start: usize = 0;
    while start < n && is_white_space_char(cs[start])
        invariant
            cs@ == s@,
            n == cs@.len(),
            start <= n,
            forall|j: int| 0 <= j < start ==> is_white_space(#[trigger] cs@[j]),
        decreases n - start,
    {
        start += 1;
    }
    let mut end: usize = n;
    while end > start && is_white_space_char(cs[end - 1])
        invariant
            cs@ == s@,
            n == cs@.len(),
            start <= end <= n,
            forall|j: int| end <= j < n ==> is_white_space(#[trigger] cs@[j]),
        decreases end - start,
    {
        end -= 1;
    }
    let mut res = String::new();
    let mut i: usize = start;
    while i < end
        invariant
            cs@ == s@,
            start <= i <= end <= n,
            n == cs@.len(),
            res@ == s@.subrange(start as int, i as int),
        decreases end - i,
    {
        push_char(&mut res, cs[i]);
        assert(s@.subrange(start as int, i + 1) =~= s@.subrange(start as int, i as int).push(s@[i as int]));
        i += 1;
    }
    proof {
        let ss = s@;
        lemma_trimmed_start_skip(ss, start as int);
        let t = ss.skip(start as int);
        if (start as int) < ss.len() {
            assert(t[0] == ss[start as int]);
            assert(!is_white_space(t[0]));
        } else {
            assert(t.len() == 0);
        }
        assert(trimmed_start(t) == t);
        let k = end - start;
        assert forall|j: int| k <= j < t.len() implies is_white_space(#[trigger] t[j]) by {
            assert(t[j] == ss[j + start]);
        }
        lemma_trimmed_end_take(t, k);
        let r = t.take(k);
        if k > 0 {
            assert(r.last() == ss[end - 1]);
            assert(!is_white_space(r.last()));
        }
        assert(trimmed_end(r) == r);
        assert(r =~= ss.subrange(start as int, end as int));
    }
    res
}

/// Whether `needle` occurs in `hay` at position `i`.
pub open spec fn occurs_at(hay: Seq<char>, needle: Seq<char>, i: int) -> bool {
    0 <= i && i + needle.len() <= hay.len() && hay.subrange(i, i + needle.len()) == needle
}

/// Whether `needle` occurs anywhere in `hay`.
pub open spec fn contains_text(hay: Seq<char>, needle: Seq<char>) -> bool {
    exists|i: int| occurs_at(hay, needle, i)
}

/// Whether `s` ends with `suffix`.
pub open spec fn ends_with_text(s: Seq<char>, suffix: Seq<char>) -> bool {
    suffix.len() <= s.len() && s.subrange(s.len() - suffix.len(), s.len() as int) == suffix
}

/// Whether `s` ends with `suffix`.
pub fn ends_with(s: &str, suffix: &str) -> (res: bool)
    ensures
        res == ends_with_text(s@, suffix@),
{
    let h = chars_of(s);
    let n = chars_of(suffix);
    if n.len() > h.len() {
        return false;
    }
    let off = h.len() - n.len();
    let mut j: usize = 0;
    while j < n.len()
        invariant
            h@ == s@,
            n@ == suffix@,
            off == h.len() - n.len(),
            j <= n.len(),
            forall|k: int| 0 <= k < j ==> h@[off + k] == n@[k],
        decreases n.len() - j,
    {
        if h[off + j] != n[j] {
            assert(s@.subrange(off as int, s@.len() as int)[j as int] != suffix@[j as int]);
            return false;
        }
        j += 1;
    }
    assert(s@.subrange(off as int, s@.len() as int) =~= suffix@);
    true
}

/// Whether `needle` is a piece of `hay`.
pub fn contains(hay: &str, needle: &str) -> (res: bool)
    ensures
        res == contains_text(hay@, needle@),
{
    let h = chars_of(hay);
    let n = chars_of(needle);
    if n.len() > h.len() {
        assert forall|i: int| !occurs_at(hay@, needle@, i) by {}
        return false;
    }
    let last = h.len() - n.len();
    let mut i: usize = 0;
    while i <= last
        invariant
            h@ == hay@,
            n@ == needle@,
            n.len() <= h.len(),
            last == h.len() - n.len(),
            i <= last + 1,
            forall|k: int| 0 <= k < i ==> !occurs_at(hay@, needle@, k),
        decreases last + 1 - i,
    {
        let mut j: usize = 0;
        let mut same = true;
        while j < n.len()
            invariant
                h@ == hay@,
                n@ == needle@,
                i <= last,
                last == h.len() - n.len(),
                j <= n.len(),
                same == (forall|k: int| 0 <= k < j ==> h@[i + k] == n@[k]),
            decreases n.len() - j,
        {
            if h[i + j] != n[j] {
                same = false;
            }
            j += 1;
        }
        if same {
            assert(hay@.subrange(i as int, i + needle@.len()) =~= needle@);
            assert(occurs_at(hay@, needle@, i as int));
            return true;
        }
        assert(!occurs_at(hay@, needle@, i as int)) by {
            let k = choose|k: int| 0 <= k < n.len() && h@[i + k] != n@[k];
            assert(hay@.subrange(i as int, i + needle@.len())[k] != needle@[k]);
        }
        i += 1;
    }
    assert forall|i: int| !occurs_at(hay@, needle@, i) by {
        if 0 <= i && i + needle@.len() <= hay@.len() {
            assert(i <= last);
        }
    }
    false
}

/// The decimal digit for `d`.
pub open spec fn digit(d: nat) -> char {
    if d == 0 { '0' } else if d == 1 { '1' } else if d == 2 { '2' } else if d == 3 { '3' }
    else if d == 4 { '4' } else if d == 5 { '5' } else if d == 6 { '6' } else if d == 7 { '7' }
    else if d == 8 { '8' } else { '9' }
}

/// The decimal text of a natural number.
pub open spec fn decimal(n: nat) -> Seq<char>
    decreases n,
{
    if n < 10 { seq![digit(n)] } else { decimal(n / 10).push(digit(n % 10)) }
}

fn digit_char(d: usize) -> (c: char)
    requires
        d < 10,
    ensures
        c == digit(d as nat),
{
    if d == 0 { '0' } else if d == 1 { '1' } else if d == 2 { '2' } else if d == 3 { '3' }
    else if d == 4 { '4' } else if d == 5 { '5' } else if d == 6 { '6' } else if d == 7 { '7' }
    else if d == 8 { '8' } else { '9' }
}

/// The decimal text of a number.
pub fn decimal_string(n: usize) -> (res: String)
    ensures
        res@ == decimal(n as nat),
    decreases n,
{
    if n < 10 {
        let mut s = String::new();
        push_char(&mut s, digit_char(n));
        assert(s@ =~= seq![digit(n as nat)]);
        s
    } else {
        let mut s = decimal_string(n / 10);
        push_char(&mut s, digit_char(n % 10));
        s
    }
}

/// Joining pieces with a separator between neighbours.
pub open spec fn join_spec(parts: Seq<Seq<char>>, sep: Seq<char>) -> Seq<char>
    decreases parts.len(),
{
    if parts.len() == 0 {
        seq![]
    } else if parts.len() == 1 {
        parts[0]
    } else {
        join_spec(parts.drop_last(), sep) + sep + parts.last()
    }
}

/// Joins strings with a separator.
pub fn join(parts: &Vec<String>, sep: &str) -> (res: String)
    ensures
        res@ == join_spec(views(parts@), sep@),
{
    let mut res = String::new();
    let mut i: usize = 0;
    while i < parts.len()
        invariant
            i <= parts.len(),
            res@ == join_spec(views(parts@).take(i as int), sep@),
        decreases parts.len() - i,
    {
        assert(views(parts@).take(i + 1).drop_last() =~= views(parts@).take(i as int));
        if i > 0 {
            push_str(&mut res, sep);
        } else {
            assert(views(parts@).take(1) =~= seq![parts@[0]@]);
        }
        push_str(&mut res, parts[i].as_str());
        i += 1;
    }
    assert(views(parts@).take(parts@.len() as int) =~= views(parts@));
    res
}

} // verus!

verus! {

/// convert_case's `to_case(Case::Camel)` of a text (`my_field_a` becomes `myFieldA`).
pub uninterp spec fn camel_case_of(s: Seq<char>) -> Seq<char>;

/// Converts a name to camel case with convert_case's `Casing::to_case(Case::Camel)`;
/// the result is the named function of the input.
#[verifier::external_body]
pub(crate) fn to_camel_case(s: &str) -> (res: String)
    ensures
        res@ == camel_case_of(s@),
{
    s.to_case(Case::Camel)
}

} // verus!

verus! {

/// std's `Path::parent` of a path text, as text (`None` for a root or an empty path).
pub uninterp spec fn path_parent_of(s: Seq<char>) -> Option<Seq<char>>;

/// std's `Path::file_name` of a path text, as text.
pub uninterp spec fn path_file_name_of(s: Seq<char>) -> Option<Seq<char>>;

/// The index of the last dot of a text, or -1 where there is none.
pub open spec fn last_dot(s: Seq<char>) -> int
    decreases s.len(),
{
    if s.len() == 0 {
        -1
    } else if s.last() == '.' {
        s.len() - 1
    } else {
        last_dot(s.drop_last())
    }
}

/// The extension of a file name as std's `Path::extension` documents it: none
/// without a dot, none where the only dot begins the name, otherwise the text
/// after the last dot.
pub open spec fn name_extension(name: Seq<char>) -> Option<Seq<char>> {
    let d = last_dot(name);
    if d <= 0 {
        None
    } else {
        Some(name.subrange(d + 1, name.len() as int))
    }
}

/// std's `Path::extension` of a path text: none without a file name, otherwise
/// the extension of the file name.
pub open spec fn path_extension_of(s: Seq<char>) -> Option<Seq<char>> {
    match path_file_name_of(s) {
        Some(name) => name_extension(name),
        None => None,
    }
}

/// The parent directory of a path, with std's `Path::parent`.
#[verifier::external_body]
pub(crate) fn path_parent(s: &str) -> (res: Option<String>)
    ensures
        opt_text(res) == path_parent_of(s@),
{
    std::path::Path::new(s).parent().map(|p| p.to_string_lossy().to_string())
}

/// The last component of a path, with std's `Path::file_name`.
#[verifier::external_body]
pub(crate) fn path_file_name(s: &str) -> (res: Option<String>)
    ensures
        opt_text(res) == path_file_name_of(s@),
{
    std::path::Path::new(s).file_name().map(|p| p.to_string_lossy().to_string())
}

/// The extension of a path, with std's `Path::extension`: what
/// [`name_extension`] gives of its file name, none without a file name.
#[verifier::external_body]
pub(crate) fn path_extension(s: &str) -> (res: Option<String>)
    ensures
        opt_text(res) == path_extension_of(s@),
{
    std::path::Path::new(s).extension().map(|p| p.to_string_lossy().to_string())
}

/// The view of an optional string.
pub open spec fn opt_text(o: Option<String>) -> Option<Seq<char>> {
    match o {
        Some(s) => Some(s@),
        None => None,
    }
}

} // verus!
