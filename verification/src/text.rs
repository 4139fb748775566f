//! Operations on decoded message text: dropping NUL characters, trimming
//! white space and splitting at a separator.

use vstd::prelude::*;
use vstd::string::*;

verus! {

/// Whether `c` is white space: the code points that Unicode gives the
/// property `White_Space`.
pub open spec fn is_whitespace(c: char) -> bool {
    let u = c as u32;
    ||| 0x09 <= u <= 0x0D
    ||| u == 0x20
    ||| u == 0x85
    ||| u == 0xA0
    ||| u == 0x1680
    ||| 0x2000 <= u <= 0x200A
    ||| u == 0x2028
    ||| u == 0x2029
    ||| u == 0x202F
    ||| u == 0x205F
    ||| u == 0x3000
}

/// The test that keeps every character but NUL.
pub open spec fn not_nul() -> spec_fn(char) -> bool {
    |c: char| c != '\0'
}

/// `s` with every NUL character taken out.
pub open spec fn without_nuls(s: Seq<char>) -> Seq<char> {
    s.filter(not_nul())
}

/// `s` without the white space it starts with.
pub open spec fn trim_start(s: Seq<char>) -> Seq<char>
    decreases s.len(),
{
    if s.len() > 0 && is_whitespace(s.first()) {
        trim_start(s.drop_first())
    } else {
        s
    }
}

/// `s` without the white space it ends with.
pub open spec fn trim_end(s: Seq<char>) -> Seq<char>
    decreases s.len(),
{
    if s.len() > 0 && is_whitespace(s.last()) {
        trim_end(s.drop_last())
    } else {
        s
    }
}

/// `s` without the white space around it.
pub open spec fn trim(s: Seq<char>) -> Seq<char> {
    trim_end(trim_start(s))
}

/// The index of the first `sep` in `s`, or the length of `s` if there is none.
pub open spec fn first_index_of(s: Seq<char>, sep: char) -> int
    decreases s.len(),
{
    if s.len() == 0 || s.first() == sep {
        0
    } else {
        1 + first_index_of(s.drop_first(), sep)
    }
}

/// The pieces of `s` between occurrences of `sep`, in order. There is one
/// piece more than there are separators; a piece may be empty.
pub open spec fn split(s: Seq<char>, sep: char) -> Seq<Seq<char>>
    decreases s.len(),
{
    let i = first_index_of(s, sep);
    if 0 <= i < s.len() {
        seq![s.take(i)] + split(s.skip(i + 1), sep)
    } else {
        seq![s]
    }
}

/// What each vector of `parts` holds.
pub open spec fn contents(parts: Seq<Vec<char>>) -> Seq<Seq<char>> {
    Seq::new(parts.len(), |i: int| parts[i]@)
}

/// The first separator sits where nothing before it is one.
pub proof fn lemma_first_index_of(s: Seq<char>, sep: char, k: int)
    requires
        0 <= k <= s.len(),
        forall|j: int| 0 <= j < k ==> s[j] != sep,
        k < s.len() ==> s[k] == sep,
    ensures
        first_index_of(s, sep) == k,
    decreases s.len(),
{
    if s.len() == 0 || s.first() == sep {
    } else {
        let rest = s.drop_first();
        assert forall|j: int| 0 <= j < k - 1 implies rest[j] != sep by {
            assert(rest[j] == s[j + 1]);
        }
        lemma_first_index_of(rest, sep, k - 1);
    }
}

/// Text that holds no separator is a single piece.
pub proof fn lemma_split_without_separator(s: Seq<char>, sep: char)
    requires
        forall|j: int| 0 <= j < s.len() ==> s[j] != sep,
    ensures
        split(s, sep) == seq![s],
{
    lemma_first_index_of(s, sep, s.len() as int);
}

/// Text whose first separator is at `k` splits into what stands before
/// `k` and the pieces of what stands after it.
pub proof fn lemma_split_at_first_separator(s: Seq<char>, sep: char, k: int)
    requires
        0 <= k < s.len(),
        forall|j: int| 0 <= j < k ==> s[j] != sep,
        s[k] == sep,
    ensures
        split(s, sep) == seq![s.take(k)] + split(s.skip(k + 1), sep),
{
    lemma_first_index_of(s, sep, k);
}

/// Leading white space ends at the first character that is none.
pub proof fn lemma_trim_start(s: Seq<char>, k: int)
    requires
        0 <= k <= s.len(),
        forall|j: int| 0 <= j < k ==> is_whitespace(s[j]),
        k < s.len() ==> !is_whitespace(s[k]),
    ensures
        trim_start(s) == s.skip(k),
    decreases k,
{
    if k == 0 {
        assert(s.skip(0) =~= s);
    } else {
        let rest = s.drop_first();
        assert forall|j: int| 0 <= j < k - 1 implies is_whitespace(rest[j]) by {
            assert(rest[j] == s[j + 1]);
        }
        lemma_trim_start(rest, k - 1);
        assert(rest.skip(k - 1) =~= s.skip(k));
    }
}

/// Trailing white space begins after the last character that is none.
pub proof fn lemma_trim_end(s: Seq<char>, k: int)
    requires
        0 <= k <= s.len(),
        forall|j: int| k <= j < s.len() ==> is_whitespace(s[j]),
        0 < k ==> !is_whitespace(s[k - 1]),
    ensures
        trim_end(s) == s.take(k),
    decreases s.len() - k,
{
    if k == s.len() {
        assert(s.take(k) =~= s);
    } else {
        let rest = s.drop_last();
        lemma_trim_end(rest, k);
        assert(rest.take(k) =~= s.take(k));
    }
}

/// The number of white-space characters that `s` starts with.
pub open spec fn leading_whitespace(s: Seq<char>) -> nat
    decreases s.len(),
{
    if s.len() > 0 && is_whitespace(s.first()) {
        1 + leading_whitespace(s.drop_first())
    } else {
        0
    }
}

/// The number of white-space characters that `s` ends with.
pub open spec fn trailing_whitespace(s: Seq<char>) -> nat
    decreases s.len(),
{
    if s.len() > 0 && is_whitespace(s.last()) {
        1 + trailing_whitespace(s.drop_last())
    } else {
        0
    }
}

/// Trimming at the start skips exactly the leading white space.
pub proof fn lemma_leading_whitespace(s: Seq<char>)
    ensures
        leading_whitespace(s) <= s.len(),
        forall|j: int| 0 <= j < leading_whitespace(s) ==> is_whitespace(s[j]),
        leading_whitespace(s) < s.len() ==> !is_whitespace(s[leading_whitespace(s) as int]),
        trim_start(s) == s.skip(leading_whitespace(s) as int),
    decreases s.len(),
{
    if s.len() > 0 && is_whitespace(s.first()) {
        let rest = s.drop_first();
        lemma_leading_whitespace(rest);
        let k = leading_whitespace(rest) as int;
        assert forall|j: int| 0 <= j < k + 1 implies is_whitespace(s[j]) by {
            if j > 0 {
                assert(rest[j - 1] == s[j]);
            }
        }
        if k + 1 < s.len() {
            assert(rest[k] == s[k + 1]);
        }
        assert(rest.skip(k) =~= s.skip(k + 1));
    } else {
        assert(s.skip(0) =~= s);
    }
}

/// Trimming at the end cuts off exactly the trailing white space.
pub proof fn lemma_trailing_whitespace(s: Seq<char>)
    ensures
        trailing_whitespace(s) <= s.len(),
        forall|j: int| s.len() - trailing_whitespace(s) <= j < s.len() ==> is_whitespace(s[j]),
        trailing_whitespace(s) < s.len() ==> !is_whitespace(
            s[s.len() - trailing_whitespace(s) - 1],
        ),
        trim_end(s) == s.take(s.len() - trailing_whitespace(s)),
    decreases s.len(),
{
    if s.len() > 0 && is_whitespace(s.last()) {
        let rest = s.drop_last();
        lemma_trailing_whitespace(rest);
        let k = rest.len() - trailing_whitespace(rest);
        assert forall|j: int| k <= j < s.len() implies is_whitespace(s[j]) by {
            if j < rest.len() {
                assert(rest[j] == s[j]);
            }
        }
        if k > 0 {
            assert(rest[k - 1] == s[k - 1]);
        }
        assert(rest.take(k) =~= s.take(k));
    } else {
        assert(s.take(s.len() as int) =~= s);
    }
}

/// Trimming at the start never reaches past a character that is no white
/// space: what follows it stays as it is.
pub proof fn lemma_trim_start_stops(a: Seq<char>, b: Seq<char>)
    requires
        b.len() > 0,
        !is_whitespace(b.first()),
    ensures
        trim_start(a + b) == trim_start(a) + b,
{
    lemma_leading_whitespace(a);
    let k = leading_whitespace(a) as int;
    let whole = a + b;
    assert forall|j: int| 0 <= j < k implies is_whitespace(whole[j]) by {
        assert(whole[j] == a[j]);
    }
    if k < a.len() {
        assert(whole[k] == a[k]);
    } else {
        assert(whole[k] == b[0]);
    }
    lemma_trim_start(whole, k);
    assert(whole.skip(k) =~= a.skip(k) + b);
}

/// Trimming at the end never reaches past a character that is no white
/// space: what stands before it stays as it is.
pub proof fn lemma_trim_end_stops(a: Seq<char>, b: Seq<char>)
    requires
        a.len() > 0,
        !is_whitespace(a.last()),
    ensures
        trim_end(a + b) == a + trim_end(b),
{
    lemma_trailing_whitespace(b);
    let k = b.len() - trailing_whitespace(b);
    let whole = a + b;
    assert forall|j: int| a.len() + k <= j < whole.len() implies is_whitespace(whole[j]) by {
        assert(whole[j] == b[j - a.len()]);
    }
    if k > 0 {
        assert(whole[a.len() + k - 1] == b[k - 1]);
    } else {
        assert(whole[a.len() + k - 1] == a.last());
    }
    lemma_trim_end(whole, a.len() + k);
    assert(whole.take(a.len() + k) =~= a + b.take(k));
}

/// Text that was trimmed at the end trims to the same as the text itself.
pub proof fn lemma_trim_after_trim_end(s: Seq<char>)
    ensures
        trim(trim_end(s)) == trim(s),
{
    lemma_leading_whitespace(s);
    lemma_trailing_whitespace(s);
    let a = leading_whitespace(s) as int;
    let b = s.len() - trailing_whitespace(s);
    let cut = s.take(b);
    let tail = s.skip(a);
    if a < b {
        let middle = s.subrange(a, b);
        assert forall|j: int| 0 <= j < a implies is_whitespace(cut[j]) by {
            assert(cut[j] == s[j]);
        }
        assert(cut[a] == s[a]);
        lemma_trim_start(cut, a);
        assert(cut.skip(a) =~= middle);
        assert(middle.last() == s[b - 1]);
        lemma_trim_end(middle, middle.len() as int);
        assert(middle.take(middle.len() as int) =~= middle);
        assert forall|j: int| b - a <= j < tail.len() implies is_whitespace(tail[j]) by {
            assert(tail[j] == s[j + a]);
        }
        assert(tail[b - a - 1] == s[b - 1]);
        lemma_trim_end(tail, b - a);
        assert(tail.take(b - a) =~= middle);
    } else {
        assert(b == 0);
        assert(a == s.len());
        assert(cut =~= Seq::<char>::empty());
        assert(tail =~= Seq::<char>::empty());
    }
}

/// `String::push` appends the character to the end of the string.
pub assume_specification[ String::push ](text: &mut String, c: char)
    ensures
        final(text)@ == old(text)@.push(c),
;

/// The characters of `text`, in order.
pub fn chars_of(text: &str) -> (chars: Vec<char>)
    ensures
        chars@ == text@,
{
    let mut chars: Vec<char> = Vec::new();
    for c in it: text.chars()
        invariant
            it.seq() == text@,
            chars@ == it.seq().take(it.index()),
    {
        chars.push(c);
    }
    assert(text@.take(text@.len() as int) =~= text@);
    chars
}

/// The string made of `chars`, in order.
pub fn string_of(chars: &Vec<char>) -> (text: String)
    ensures
        text@ == chars@,
{
    let mut text = String::new();
    let mut i: usize = 0;
    assert(chars@.take(0) =~= Seq::<char>::empty());
    while i < chars.len()
        invariant
            i <= chars.len(),
            text@ == chars@.take(i as int),
        decreases chars.len() - i,
    {
        text.push(chars[i]);
        assert(chars@.take(i + 1) =~= chars@.take(i as int).push(chars@[i as int]));
        i += 1;
    }
    assert(chars@.take(chars.len() as int) =~= chars@);
    text
}

/// Whether `c` is white space.
pub fn is_whitespace_char(c: char) -> (white: bool)
    ensures
        white == is_whitespace(c),
{
    let u: u32 = c as u32;
    (0x09 <= u && u <= 0x0D) || u == 0x20 || u == 0x85 || u == 0xA0 || u == 0x1680 || (0x2000 <= u
        && u <= 0x200A) || u == 0x2028 || u == 0x2029 || u == 0x202F || u == 0x205F || u == 0x3000
}

/// Copies `text` without its NUL characters.
pub fn strip_nuls(text: &Vec<char>) -> (stripped: Vec<char>)
    ensures
        stripped@ == without_nuls(text@),
{
    let mut stripped: Vec<char> = Vec::new();
    let mut i: usize = 0;
    proof {
        assert(text@.take(0) =~= Seq::<char>::empty());
        reveal(Seq::filter);
    }
    while i < text.len()
        invariant
            i <= text.len(),
            stripped@ == text@.take(i as int).filter(not_nul()),
        decreases text.len() - i,
    {
        let c = text[i];
        proof {
            assert(text@.take(i + 1) =~= text@.take(i as int).push(c));
            text@.take(i as int).lemma_filter_push(c, not_nul());
        }
        if c != '\0' {
            stripped.push(c);
        }
        i += 1;
    }
    proof {
        assert(text@.take(text.len() as int) =~= text@);
    }
    stripped
}

/// Copies `text` without the white space around it.
pub fn trim_chars(text: &Vec<char>) -> (trimmed: Vec<char>)
    ensures
        trimmed@ == trim(text@),
{
    let len = text.len();
    let mut start: usize = 0;
    while start < len && is_whitespace_char(text[start])
        invariant
            len == text.len(),
            start <= len,
            forall|j: int| 0 <= j < start ==> is_whitespace(text@[j]),
        decreases len - start,
    {
        start += 1;
    }
    let mut end: usize = len;
    while end > start && is_whitespace_char(text[end - 1])
        invariant
            len == text.len(),
            start <= end <= len,
            forall|j: int| end <= j < len ==> is_whitespace(text@[j]),
        decreases end,
    {
        end -= 1;
    }
    let mut trimmed: Vec<char> = Vec::new();
    let mut i: usize = start;
    while i < end
        invariant
            start <= i <= end <= text.len(),
            trimmed@ == text@.subrange(start as int, i as int),
        decreases end - i,
    {
        trimmed.push(text[i]);
        assert(text@.subrange(start as int, i + 1) =~= text@.subrange(start as int, i as int).push(
            text@[i as int],
        ));
        i += 1;
    }
    proof {
        let tail = text@.skip(start as int);
        lemma_trim_start(text@, start as int);
        assert forall|j: int| end - start <= j < tail.len() implies is_whitespace(tail[j]) by {
            assert(tail[j] == text@[j + start]);
        }
        if end > start {
            assert(tail[end - start - 1] == text@[end - 1]);
        }
        lemma_trim_end(tail, end - start);
        assert(tail.take(end - start) =~= text@.subrange(start as int, end as int));
    }
    trimmed
}

/// Splits `text` at every `sep`.
pub fn split_chars(text: &Vec<char>, sep: char) -> (parts: Vec<Vec<char>>)
    ensures
        contents(parts@) == split(text@, sep),
{
    let mut parts: Vec<Vec<char>> = Vec::new();
    let mut current: Vec<char> = Vec::new();
    let ghost mut start: int = 0;
    let mut i: usize = 0;
    proof {
        assert(text@.skip(0) =~= text@);
        assert(contents(parts@) + split(text@, sep) =~= split(text@, sep));
    }
    while i < text.len()
        invariant
            0 <= start <= i <= text.len(),
            current@ == text@.subrange(start, i as int),
            forall|j: int| start <= j < i ==> text@[j] != sep,
            split(text@, sep) == contents(parts@) + split(text@.skip(start), sep),
        decreases text.len() - i,
    {
        let c = text[i];
        if c == sep {
            proof {
                let rest = text@.skip(start);
                assert forall|j: int| 0 <= j < i - start implies rest[j] != sep by {
                    assert(rest[j] == text@[j + start]);
                }
                lemma_split_at_first_separator(rest, sep, i - start);
                assert(rest.take(i - start) =~= current@);
                assert(rest.skip(i - start + 1) =~= text@.skip(i + 1));
                assert(contents(parts@.push(current)) =~= contents(parts@) + seq![current@]);
            }
            parts.push(current);
            current = Vec::new();
            proof {
                start = i + 1;
                assert(text@.subrange(start, i + 1) =~= Seq::<char>::empty());
            }
        } else {
            current.push(c);
            assert(text@.subrange(start, i + 1) =~= text@.subrange(start, i as int).push(c));
        }
        i += 1;
    }
    proof {
        let rest = text@.skip(start);
        assert forall|j: int| 0 <= j < rest.len() implies rest[j] != sep by {
            assert(rest[j] == text@[j + start]);
        }
        lemma_split_without_separator(rest, sep);
        assert(rest =~= current@);
        assert(contents(parts@.push(current)) =~= contents(parts@) + seq![current@]);
    }
    parts.push(current);
    parts
}

} // verus!
