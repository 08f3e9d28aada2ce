//! Text primitives: trimming, searching, splitting and number formatting, all
//! stated over the sequence of characters that a string holds.
use vstd::prelude::*;

verus! {

/// `String::push` appends one character to the end of the string.
pub assume_specification[ String::push ](s: &mut String, c: char)
    ensures
        final(s)@ == old(s)@.push(c),
;

/// The characters that Unicode gives the property White_Space.
pub open spec fn spec_is_whitespace(c: char) -> bool {
    let n = c as int;
    ||| 0x9 <= n <= 0xd
    ||| n == 0x20
    ||| n == 0x85
    ||| n == 0xa0
    ||| n == 0x1680
    ||| 0x2000 <= n <= 0x200a
    ||| n == 0x2028
    ||| n == 0x2029
    ||| n == 0x202f
    ||| n == 0x205f
    ||| n == 0x3000
}

/// Tells whether `c` is white space.
pub fn is_whitespace(c: char) -> (r: bool)
    ensures
        r == spec_is_whitespace(c),
{
    let n: u32 = c as u32;
    (0x9 <= n && n <= 0xd) || n == 0x20 || n == 0x85 || n == 0xa0 || n == 0x1680 || (0x2000 <= n
        && n <= 0x200a) || n == 0x2028 || n == 0x2029 || n == 0x202f || n == 0x205f || n == 0x3000
}

/// The characters of `s` in order.
pub fn to_chars(s: &str) -> (r: Vec<char>)
    ensures
        r@ == s@,
{
    broadcast use vstd::string::group_string_axioms;
    let mut out: Vec<char> = Vec::new();
    for c in it: s.chars()
        invariant
            out@.len() == it.index(),
            it.seq() == s@,
            forall|i: int| 0 <= i < out@.len() ==> out@[i] == s@[i],
    {
        out.push(c);
    }
    out
}

/// The string that holds `chars[from..to]`.
pub fn substring(chars: &Vec<char>, from: usize, to: usize) -> (r: String)
    requires
        from <= to <= chars@.len(),
    ensures
        r@ == chars@.subrange(from as int, to as int),
{
    let mut out = String::new();
    let mut i: usize = from;
    while i < to
        invariant
            from <= i <= to <= chars@.len(),
            out@ == chars@.subrange(from as int, i as int),
        decreases to - i,
    {
        out.push(chars[i]);
        i = i + 1;
        proof {
            assert(chars@.subrange(from as int, i as int) =~= chars@.subrange(
                from as int,
                i - 1,
            ).push(chars@[i - 1]));
        }
    }
    out
}

/// What an optional string holds.
pub open spec fn opt_view(s: Option<&str>) -> Option<Seq<char>> {
    match s {
        Some(s) => Some(s@),
        None => None,
    }
}

/// What an optional string holds.
pub open spec fn opt_string(s: Option<String>) -> Option<Seq<char>> {
    match s {
        Some(s) => Some(s@),
        None => None,
    }
}

/// Tells whether the two strings hold the same characters.
pub fn str_eq(a: &str, b: &str) -> (r: bool)
    ensures
        r == (a@ == b@),
{
    let x = a.to_owned();
    let y = b.to_owned();
    x == y
}

/// The two strings in a row.
pub fn concat(a: &str, b: &str) -> (r: String)
    ensures
        r@ == a@ + b@,
{
    let mut r = a.to_owned();
    r.append(b);
    r
}

/// The three strings in a row.
pub fn concat3(a: &str, b: &str, c: &str) -> (r: String)
    ensures
        r@ == a@ + b@ + c@,
{
    let mut r = a.to_owned();
    r.append(b);
    r.append(c);
    r
}

// ── Trimming ────────────────────────────────────────────────────────────

/// `s` without white space at its start.
pub open spec fn spec_trim_start(s: Seq<char>) -> Seq<char>
    decreases s.len(),
{
    if s.len() > 0 && spec_is_whitespace(s[0]) {
        spec_trim_start(s.skip(1))
    } else {
        s
    }
}

/// `s` without white space at its end.
pub open spec fn spec_trim_end(s: Seq<char>) -> Seq<char>
    decreases s.len(),
{
    if s.len() > 0 && spec_is_whitespace(s.last()) {
        spec_trim_end(s.drop_last())
    } else {
        s
    }
}

/// `s` without white space at either end.
pub open spec fn spec_trim(s: Seq<char>) -> Seq<char> {
    spec_trim_end(spec_trim_start(s))
}

/// `s` without white space at either end.
pub fn trim(s: &str) -> (r: String)
    ensures
        r@ == spec_trim(s@),
{
    let chars = to_chars(s);
    let mut from: usize = 0;
    assert(chars@.skip(0) =~= chars@);
    while from < chars.len() && is_whitespace(chars[from])
        invariant
            from <= chars@.len(),
            spec_trim_start(chars@) == spec_trim_start(chars@.skip(from as int)),
        decreases chars@.len() - from,
    {
        assert(chars@.skip(from as int).skip(1) =~= chars@.skip(from + 1));
        from = from + 1;
    }
    let ghost rest = chars@.skip(from as int);
    assert(spec_trim_start(chars@) == rest);
    let mut to: usize = chars.len();
    assert(chars@.subrange(from as int, to as int) =~= rest);
    while to > from && is_whitespace(chars[to - 1])
        invariant
            from <= to <= chars@.len(),
            spec_trim_end(rest) == spec_trim_end(chars@.subrange(from as int, to as int)),
        decreases to,
    {
        assert(chars@.subrange(from as int, to as int).drop_last() =~= chars@.subrange(
            from as int,
            to - 1,
        ));
        to = to - 1;
    }
    substring(&chars, from, to)
}

/// What is trimmed has no white space left at either end.
pub proof fn lemma_trim_ends(s: Seq<char>)
    ensures
        spec_trim(s).len() > 0 ==> !spec_is_whitespace(spec_trim(s)[0]) && !spec_is_whitespace(
            spec_trim(s).last(),
        ),
        spec_trim(spec_trim(s)) == spec_trim(s),
{
    let a = spec_trim_start(s);
    lemma_trim_start(s);
    lemma_trim_end(a);
}

proof fn lemma_trim_start(s: Seq<char>)
    ensures
        spec_trim_start(s).len() > 0 ==> !spec_is_whitespace(spec_trim_start(s)[0]),
    decreases s.len(),
{
    if s.len() > 0 && spec_is_whitespace(s[0]) {
        lemma_trim_start(s.skip(1));
    }
}

proof fn lemma_trim_end(s: Seq<char>)
    ensures
        spec_trim_end(s).len() > 0 ==> !spec_is_whitespace(spec_trim_end(s).last()),
        spec_trim_end(s).len() > 0 ==> spec_trim_end(s)[0] == s[0],
    decreases s.len(),
{
    if s.len() > 0 && spec_is_whitespace(s.last()) {
        lemma_trim_end(s.drop_last());
    }
}

// ── Searching ───────────────────────────────────────────────────────────

/// `pattern` stands in `s` at position `i`.
pub open spec fn stands_at(s: Seq<char>, pattern: Seq<char>, i: int) -> bool {
    0 <= i && i + pattern.len() <= s.len() && s.subrange(i, i + pattern.len()) == pattern
}

/// `pattern` stands somewhere in `s`.
pub open spec fn spec_contains(s: Seq<char>, pattern: Seq<char>) -> bool {
    exists|i: int| stands_at(s, pattern, i)
}

/// `s` starts with `pattern`.
pub open spec fn spec_starts_with(s: Seq<char>, pattern: Seq<char>) -> bool {
    stands_at(s, pattern, 0)
}

/// Tells whether `pattern` stands in `chars` at position `i`.
fn matches_at(chars: &Vec<char>, pattern: &Vec<char>, i: usize) -> (r: bool)
    requires
        i + pattern@.len() <= chars@.len(),
    ensures
        r == stands_at(chars@, pattern@, i as int),
{
    let len: usize = chars.len();
    let mut k: usize = 0;
    while k < pattern.len()
        invariant
            len == chars@.len(),
            k <= pattern@.len(),
            i + pattern@.len() <= chars@.len(),
            forall|j: int| 0 <= j < k ==> chars@[i + j] == pattern@[j],
        decreases pattern@.len() - k,
    {
        if chars[i + k] != pattern[k] {
            assert(chars@.subrange(i as int, i + pattern@.len())[k as int] != pattern@[k as int]);
            return false;
        }
        k = k + 1;
    }
    assert(chars@.subrange(i as int, i + pattern@.len()) =~= pattern@);
    true
}

/// Tells whether `pattern` stands somewhere in `s`.
pub fn contains(s: &str, pattern: &str) -> (r: bool)
    ensures
        r == spec_contains(s@, pattern@),
{
    let chars = to_chars(s);
    let wanted = to_chars(pattern);
    if wanted.len() > chars.len() {
        return false;
    }
    let end: usize = chars.len() - wanted.len();
    let mut i: usize = 0;
    while i <= end
        invariant
            chars@ == s@,
            wanted@ == pattern@,
            end + wanted@.len() == chars@.len(),
            i <= end + 1,
            forall|j: int| 0 <= j < i ==> !stands_at(s@, pattern@, j),
        decreases end + 1 - i,
    {
        if matches_at(&chars, &wanted, i) {
            return true;
        }
        if i == end {
            assert forall|j: int| !stands_at(s@, pattern@, j) by {}
            return false;
        }
        i = i + 1;
    }
    false
}

/// Tells whether `s` starts with `pattern`.
pub fn starts_with(s: &str, pattern: &str) -> (r: bool)
    ensures
        r == spec_starts_with(s@, pattern@),
{
    let chars = to_chars(s);
    let wanted = to_chars(pattern);
    if wanted.len() > chars.len() {
        return false;
    }
    matches_at(&chars, &wanted, 0)
}

/// Tells whether the character stands in `s`.
pub fn contains_char(s: &str, c: char) -> (r: bool)
    ensures
        r == s@.contains(c),
{
    let chars = to_chars(s);
    let mut i: usize = 0;
    while i < chars.len()
        invariant
            i <= chars@.len(),
            chars@ == s@,
            forall|j: int| 0 <= j < i ==> s@[j] != c,
        decreases chars@.len() - i,
    {
        if chars[i] == c {
            assert(s@[i as int] == c);
            return true;
        }
        i = i + 1;
    }
    false
}

// ── Splitting ───────────────────────────────────────────────────────────

/// The pieces of `s` between the occurrences of `c`: one more than there are
/// occurrences.
pub open spec fn spec_split(s: Seq<char>, c: char) -> Seq<Seq<char>>
    decreases s.len(),
{
    if s.len() == 0 {
        seq![Seq::<char>::empty()]
    } else {
        let before = spec_split(s.drop_last(), c);
        if s.last() == c {
            before.push(Seq::<char>::empty())
        } else {
            before.drop_last().push(before.last().push(s.last()))
        }
    }
}

/// What the strings hold.
pub open spec fn views(strings: Seq<String>) -> Seq<Seq<char>> {
    strings.map_values(|s: String| s@)
}

/// The pieces of `s` between the occurrences of `c`.
pub fn split(s: &str, c: char) -> (r: Vec<String>)
    ensures
        views(r@) == spec_split(s@, c),
        r@.len() > 0,
{
    let chars = to_chars(s);
    let mut out: Vec<String> = Vec::new();
    let mut piece = String::new();
    let mut i: usize = 0;
    assert(chars@.take(0) =~= Seq::<char>::empty());
    assert(views(out@).push(piece@) =~= spec_split(chars@.take(0), c));
    while i < chars.len()
        invariant
            i <= chars@.len(),
            views(out@).push(piece@) == spec_split(chars@.take(i as int), c),
        decreases chars@.len() - i,
    {
        let ghost before = views(out@).push(piece@);
        proof {
            assert(chars@.take(i + 1).drop_last() =~= chars@.take(i as int));
            assert(before.drop_last() =~= views(out@));
        }
        if chars[i] == c {
            out.push(piece);
            assert(views(out@) =~= before);
            piece = String::new();
        } else {
            piece.push(chars[i]);
        }
        i = i + 1;
        assert(views(out@).push(piece@) =~= spec_split(chars@.take(i as int), c));
    }
    assert(chars@.take(i as int) =~= s@);
    let ghost before = views(out@).push(piece@);
    out.push(piece);
    assert(views(out@) =~= before);
    out
}

/// The longest pieces of `s` without white space.
pub open spec fn spec_words(s: Seq<char>) -> Seq<Seq<char>>
    decreases s.len(),
{
    if s.len() == 0 {
        seq![]
    } else {
        let before = spec_words(s.drop_last());
        if spec_is_whitespace(s.last()) {
            before
        } else if s.len() > 1 && !spec_is_whitespace(s[s.len() - 2]) {
            before.drop_last().push(before.last().push(s.last()))
        } else {
            before.push(seq![s.last()])
        }
    }
}

/// The longest pieces of `s` without white space.
pub fn words(s: &str) -> (r: Vec<String>)
    ensures
        views(r@) == spec_words(s@),
{
    let chars = to_chars(s);
    let mut out: Vec<String> = Vec::new();
    let mut word = String::new();
    let mut in_word: bool = false;
    let mut i: usize = 0;
    assert(chars@.take(0) =~= Seq::<char>::empty());
    assert(views(out@) =~= spec_words(chars@.take(0)));
    while i < chars.len()
        invariant
            i <= chars@.len(),
            in_word == (i > 0 && !spec_is_whitespace(chars@[i - 1])),
            !in_word ==> word@ =~= Seq::<char>::empty(),
            spec_words(chars@.take(i as int)) == if in_word {
                views(out@).push(word@)
            } else {
                views(out@)
            },
        decreases chars@.len() - i,
    {
        let ghost before = views(out@);
        proof {
            assert(chars@.take(i + 1).drop_last() =~= chars@.take(i as int));
        }
        let c: char = chars[i];
        if is_whitespace(c) {
            if in_word {
                let ghost whole = before.push(word@);
                out.push(word);
                assert(views(out@) =~= whole);
                word = String::new();
                in_word = false;
            }
        } else {
            let ghost whole = before.push(word@);
            word.push(c);
            proof {
                if in_word {
                    assert(whole.drop_last() =~= before);
                    assert(whole.last().push(c) =~= word@);
                } else {
                    assert(word@ =~= seq![c]);
                }
            }
            in_word = true;
        }
        i = i + 1;
    }
    assert(chars@.take(i as int) =~= s@);
    if in_word {
        let ghost whole = views(out@).push(word@);
        out.push(word);
        assert(views(out@) =~= whole);
    }
    out
}

// ── Replacing ───────────────────────────────────────────────────────────

/// `s` with `with` in place of each `c`.
pub open spec fn spec_replace(s: Seq<char>, c: char, with: Seq<char>) -> Seq<char>
    decreases s.len(),
{
    if s.len() == 0 {
        s
    } else {
        spec_replace(s.drop_last(), c, with) + (if s.last() == c {
            with
        } else {
            seq![s.last()]
        })
    }
}

/// `s` with `with` in place of each `c`.
pub fn replace(s: &str, c: char, with: &str) -> (r: String)
    ensures
        r@ == spec_replace(s@, c, with@),
{
    let chars = to_chars(s);
    let mut out = String::new();
    let mut i: usize = 0;
    assert(chars@.take(0) =~= Seq::<char>::empty());
    while i < chars.len()
        invariant
            i <= chars@.len(),
            out@ == spec_replace(chars@.take(i as int), c, with@),
        decreases chars@.len() - i,
    {
        assert(chars@.take(i + 1).drop_last() =~= chars@.take(i as int));
        let ghost before = out@;
        if chars[i] == c {
            out.append(with);
        } else {
            out.push(chars[i]);
            assert(out@ =~= before + seq![chars@[i as int]]);
        }
        i = i + 1;
    }
    assert(chars@.take(i as int) =~= s@);
    out
}

/// The ASCII lower case of a character.
pub open spec fn spec_lower(c: char) -> char {
    if 'A' <= c <= 'Z' {
        (c as u32 + 32) as char
    } else {
        c
    }
}

/// The ASCII lower case of a character.
pub fn lower(c: char) -> (r: char)
    ensures
        r == spec_lower(c),
{
    if 'A' <= c && c <= 'Z' {
        let b: u8 = c as u8;
        (b + 32) as char
    } else {
        c
    }
}

/// `s` with the ASCII capitals in lower case.
pub open spec fn spec_ascii_lowercase(s: Seq<char>) -> Seq<char> {
    s.map_values(|c: char| spec_lower(c))
}

/// `s` with the ASCII capitals in lower case.
pub fn ascii_lowercase(s: &str) -> (r: String)
    ensures
        r@ == spec_ascii_lowercase(s@),
{
    let chars = to_chars(s);
    let ghost wanted = spec_ascii_lowercase(s@);
    let mut out = String::new();
    let mut i: usize = 0;
    while i < chars.len()
        invariant
            i <= chars@.len(),
            chars@ == s@,
            wanted == spec_ascii_lowercase(s@),
            out@ == wanted.take(i as int),
        decreases chars@.len() - i,
    {
        out.push(lower(chars[i]));
        assert(wanted.take(i + 1) =~= wanted.take(i as int).push(wanted[i as int]));
        i = i + 1;
    }
    assert(wanted.take(i as int) =~= wanted);
    out
}

// ── Numbers ─────────────────────────────────────────────────────────────

/// The decimal digit for `n`.
pub open spec fn digit_char(n: nat) -> char {
    ('0' as u32 + n) as char
}

/// `n` in decimal.
pub open spec fn spec_decimal(n: nat) -> Seq<char>
    decreases n,
{
    if n < 10 {
        seq![digit_char(n)]
    } else {
        spec_decimal(n / 10).push(digit_char(n % 10))
    }
}

/// `n` in decimal.
pub fn decimal(n: u64) -> (r: String)
    ensures
        r@ == spec_decimal(n as nat),
    decreases n,
{
    let digit: u8 = (n % 10) as u8;
    let c: char = (48u8 + digit) as char;
    if n < 10 {
        let mut r = String::new();
        r.push(c);
        assert(r@ =~= seq![digit_char(n as nat)]);
        r
    } else {
        let mut r = decimal(n / 10);
        r.push(c);
        r
    }
}

/// `n` in decimal.
pub fn decimal_wide(n: u128) -> (r: String)
    ensures
        r@ == spec_decimal(n as nat),
    decreases n,
{
    let digit: u8 = (n % 10) as u8;
    let c: char = (48u8 + digit) as char;
    if n < 10 {
        let mut r = String::new();
        r.push(c);
        assert(r@ =~= seq![digit_char(n as nat)]);
        r
    } else {
        let mut r = decimal_wide(n / 10);
        r.push(c);
        r
    }
}

/// `n` in decimal, with a zero before a single digit.
pub open spec fn spec_pad2(n: nat) -> Seq<char> {
    if n < 10 {
        seq!['0'] + spec_decimal(n)
    } else {
        spec_decimal(n)
    }
}

/// `n` in decimal, with a zero before a single digit.
pub fn pad2(n: u64) -> (r: String)
    ensures
        r@ == spec_pad2(n as nat),
{
    let digits = decimal(n);
    if n < 10 {
        let mut r = String::new();
        r.push('0');
        r.append(digits.as_str());
        assert(r@ =~= seq!['0'] + digits@);
        r
    } else {
        digits
    }
}

// ── Laws ────────────────────────────────────────────────────────────────

/// Blanks, tabs and the ends of lines are white space; what is printed in ASCII
/// is not.
pub proof fn law_white_space(c: char)
    ensures
        c == ' ' || c == '\t' || c == '\n' || c == '\r' ==> spec_is_whitespace(c),
        '!' <= c <= '~' ==> !spec_is_whitespace(c),
{
}

/// All of it is white space.
pub open spec fn is_blank(s: Seq<char>) -> bool {
    forall|i: int| 0 <= i < s.len() ==> spec_is_whitespace(#[trigger] s[i])
}

/// White space around a text goes, and the text stays, whatever is inside it.
pub proof fn law_trimming_takes_the_white_space_around(
    before: Seq<char>,
    s: Seq<char>,
    after: Seq<char>,
)
    requires
        is_blank(before),
        is_blank(after),
        s.len() > 0 ==> !spec_is_whitespace(s[0]) && !spec_is_whitespace(s.last()),
    ensures
        spec_trim(before + s + after) == s,
    decreases before.len() + after.len(),
{
    let all = before + s + after;
    if before.len() > 0 {
        assert(all[0] == before[0]);
        assert(all.skip(1) =~= before.skip(1) + s + after);
        law_trimming_takes_the_white_space_around(before.skip(1), s, after);
    } else if s.len() > 0 {
        assert(all[0] == s[0]);
        assert(spec_trim_start(all) == all);
        lemma_trim_end_blank(s, after);
        assert(all =~= s + after);
    } else {
        assert(all =~= after);
        lemma_trim_start_blank(after);
    }
}

proof fn lemma_trim_start_blank(s: Seq<char>)
    requires
        is_blank(s),
    ensures
        spec_trim_start(s) == Seq::<char>::empty(),
    decreases s.len(),
{
    if s.len() > 0 {
        lemma_trim_start_blank(s.skip(1));
    } else {
        assert(s =~= Seq::<char>::empty());
    }
}

proof fn lemma_trim_end_blank(s: Seq<char>, after: Seq<char>)
    requires
        is_blank(after),
        s.len() > 0,
        !spec_is_whitespace(s.last()),
    ensures
        spec_trim_end(s + after) == s,
    decreases after.len(),
{
    let all = s + after;
    if after.len() > 0 {
        assert(all.last() == after.last());
        assert(all.drop_last() =~= s + after.drop_last());
        lemma_trim_end_blank(s, after.drop_last());
    } else {
        assert(all =~= s);
    }
}

/// A text is split at each occurrence of a character and nowhere else.
pub proof fn law_splitting(a: Seq<char>, c: char, b: Seq<char>)
    ensures
        spec_split(a.push(c) + b, c) == spec_split(a, c) + spec_split(b, c),
        !a.contains(c) ==> spec_split(a, c) == seq![a],
        spec_split(a, c).len() > 0,
    decreases a.len() + b.len(),
{
    if b.len() == 0 {
        assert(a.push(c) + b =~= a.push(c));
        assert(a.push(c).drop_last() =~= a);
        assert(spec_split(a, c) + spec_split(b, c) =~= spec_split(a, c).push(Seq::<char>::empty()));
    } else {
        let all = a.push(c) + b;
        assert(all.last() == b.last());
        assert(all.drop_last() =~= a.push(c) + b.drop_last());
        law_splitting(a, c, b.drop_last());
        lemma_split_some(b.drop_last(), c);
        let left = spec_split(a, c);
        let right = spec_split(b.drop_last(), c);
        assert((left + right).last() == right.last());
        assert((left + right).drop_last() =~= left + right.drop_last());
        if b.last() == c {
            assert((left + right).push(Seq::<char>::empty()) =~= left + right.push(
                Seq::<char>::empty(),
            ));
        } else {
            let piece = right.last().push(b.last());
            assert((left + right.drop_last()).push(piece) =~= left + right.drop_last().push(piece));
        }
    }
    lemma_split_some(a, c);
    if !a.contains(c) {
        lemma_split_none(a, c);
    }
}

proof fn lemma_split_some(s: Seq<char>, c: char)
    ensures
        spec_split(s, c).len() > 0,
    decreases s.len(),
{
    if s.len() > 0 {
        lemma_split_some(s.drop_last(), c);
    }
}

proof fn lemma_split_none(s: Seq<char>, c: char)
    requires
        !s.contains(c),
    ensures
        spec_split(s, c) == seq![s],
    decreases s.len(),
{
    if s.len() > 0 {
        let t = s.drop_last();
        assert(s[s.len() - 1] == s.last());
        if t.contains(c) {
            let i = t.index_of(c);
            assert(s[i] == c);
        }
        lemma_split_none(t, c);
        assert(t.push(s.last()) =~= s);
        assert(spec_split(s, c) =~= seq![s]);
    } else {
        assert(s =~= Seq::<char>::empty());
    }
}

/// The words on both sides of white space are the words of the whole, and what
/// has no white space in it is one word.
pub proof fn law_words(a: Seq<char>, c: char, b: Seq<char>)
    requires
        spec_is_whitespace(c),
    ensures
        spec_words(a.push(c) + b) == spec_words(a) + spec_words(b),
        a.len() > 0 && (forall|i: int| 0 <= i < a.len() ==> !spec_is_whitespace(#[trigger] a[i]))
            ==> spec_words(a) == seq![a],
    decreases a.len() + b.len(),
{
    let all = a.push(c) + b;
    if b.len() == 0 {
        assert(all =~= a.push(c));
        assert(all.drop_last() =~= a);
        assert(spec_words(a) + spec_words(b) =~= spec_words(a));
    } else {
        assert(all.last() == b.last());
        assert(all.drop_last() =~= a.push(c) + b.drop_last());
        law_words(a, c, b.drop_last());
        let left = spec_words(a);
        let right = spec_words(b.drop_last());
        if spec_is_whitespace(b.last()) {
        } else if b.len() > 1 && !spec_is_whitespace(b[b.len() - 2]) {
            assert(all[all.len() - 2] == b[b.len() - 2]);
            lemma_words_some(b.drop_last());
            let word = right.last().push(b.last());
            assert((left + right).last() == right.last());
            assert((left + right).drop_last() =~= left + right.drop_last());
            assert((left + right.drop_last()).push(word) =~= left + right.drop_last().push(word));
        } else {
            assert(spec_is_whitespace(all[all.len() - 2]));
            assert((left + right).push(seq![b.last()]) =~= left + right.push(seq![b.last()]));
        }
    }
    if a.len() > 0 && (forall|i: int| 0 <= i < a.len() ==> !spec_is_whitespace(#[trigger] a[i])) {
        lemma_one_word(a);
    }
}

proof fn lemma_words_some(s: Seq<char>)
    requires
        s.len() > 0,
        !spec_is_whitespace(s.last()),
    ensures
        spec_words(s).len() > 0,
{
}

proof fn lemma_one_word(s: Seq<char>)
    requires
        s.len() > 0,
        forall|i: int| 0 <= i < s.len() ==> !spec_is_whitespace(#[trigger] s[i]),
    ensures
        spec_words(s) == seq![s],
    decreases s.len(),
{
    let t = s.drop_last();
    assert(s[s.len() - 1] == s.last());
    if s.len() > 1 {
        assert forall|i: int| 0 <= i < t.len() implies !spec_is_whitespace(#[trigger] t[i]) by {
            assert(t[i] == s[i]);
        }
        lemma_one_word(t);
        assert(t.push(s.last()) =~= s);
        assert(spec_words(s) =~= seq![s]);
    } else {
        assert(s =~= seq![s.last()]);
        assert(t =~= Seq::<char>::empty());
        assert(spec_words(t) =~= Seq::<Seq<char>>::empty());
        assert(spec_words(s) =~= seq![s]);
    }
}

/// Each occurrence of a character makes way for the replacement, and all else
/// stays.
pub proof fn law_replacing(a: Seq<char>, c: char, b: Seq<char>, with: Seq<char>)
    ensures
        spec_replace(a.push(c) + b, c, with) == spec_replace(a, c, with) + with + spec_replace(
            b,
            c,
            with,
        ),
        !a.contains(c) ==> spec_replace(a, c, with) == a,
    decreases a.len() + b.len(),
{
    let all = a.push(c) + b;
    if b.len() == 0 {
        assert(all =~= a.push(c));
        assert(all.drop_last() =~= a);
        assert(spec_replace(a, c, with) + with + spec_replace(b, c, with) =~= spec_replace(
            a,
            c,
            with,
        ) + with);
    } else {
        assert(all.last() == b.last());
        assert(all.drop_last() =~= a.push(c) + b.drop_last());
        law_replacing(a, c, b.drop_last(), with);
        let end = if b.last() == c {
            with
        } else {
            seq![b.last()]
        };
        assert(spec_replace(all, c, with) =~= spec_replace(a, c, with) + with + (spec_replace(
            b.drop_last(),
            c,
            with,
        ) + end));
    }
    if a.len() > 0 && !a.contains(c) {
        let t = a.drop_last();
        assert(a[a.len() - 1] == a.last());
        if t.contains(c) {
            let i = t.index_of(c);
            assert(a[i] == c);
        }
        law_replacing(t, c, Seq::empty(), with);
        assert(t + seq![a.last()] =~= a);
    }
}

/// The number that decimal digits stand for.
pub open spec fn number(digits: Seq<char>) -> int
    decreases digits.len(),
{
    if digits.len() == 0 {
        0
    } else {
        10 * number(digits.drop_last()) + (digits.last() as int - '0' as int)
    }
}

/// A number is written with decimal digits alone, none of them a zero before
/// others, and reads as the number.
pub proof fn law_decimals_read_back(n: nat)
    ensures
        spec_decimal(n).len() > 0,
        forall|i: int| 0 <= i < spec_decimal(n).len() ==> '0' <= #[trigger] spec_decimal(n)[i] <= '9',
        number(spec_decimal(n)) == n,
        spec_decimal(n)[0] == '0' ==> n == 0,
    decreases n,
{
    assert('0' as u32 == 48);
    let d = digit_char(n % 10);
    assert(d as int == 48 + n % 10);
    if n < 10 {
        assert(spec_decimal(n).drop_last() =~= Seq::<char>::empty());
        assert(spec_decimal(n).last() == d);
        assert(number(Seq::<char>::empty()) == 0);
    } else {
        law_decimals_read_back(n / 10);
        let before = spec_decimal(n / 10);
        assert(spec_decimal(n).drop_last() =~= before);
        assert(spec_decimal(n)[0] == before[0]);
        assert(n == 10 * (n / 10) + n % 10);
        assert forall|i: int| 0 <= i < spec_decimal(n).len() implies '0' <= #[trigger] spec_decimal(
            n,
        )[i] <= '9' by {
            if i < before.len() {
                assert(spec_decimal(n)[i] == before[i]);
            }
        }
    }
}

/// A number below a hundred is written with two digits, and reads as the number.
pub proof fn law_two_digits(n: nat)
    requires
        n < 100,
    ensures
        spec_pad2(n).len() == 2,
        number(spec_pad2(n)) == n,
{
    law_decimals_read_back(n);
    assert('0' as u32 == 48);
    let s = spec_pad2(n);
    if n < 10 {
        assert(s.drop_last() =~= seq!['0']);
        assert(seq!['0'].drop_last() =~= Seq::<char>::empty());
        assert(number(Seq::<char>::empty()) == 0);
        assert(number(seq!['0']) == 0);
        assert(s.last() == digit_char(n));
    } else {
        assert(n / 10 < 10);
        assert(spec_decimal(n / 10).len() == 1);
    }
}

/// Capitals of ASCII become the small letters that they are capitals of, and
/// all else stays.
pub proof fn law_lower_case(c: char)
    ensures
        c == 'A' ==> spec_lower(c) == 'a',
        c == 'Z' ==> spec_lower(c) == 'z',
        'A' <= c <= 'Z' ==> 'a' <= spec_lower(c) <= 'z' && spec_lower(c) as int - 'a' as int
            == c as int - 'A' as int,
        !('A' <= c <= 'Z') ==> spec_lower(c) == c,
{
}

/// A pattern is found where it stands, whatever is around it; nothing is found
/// where it does not.
pub proof fn law_searching(before: Seq<char>, pattern: Seq<char>, after: Seq<char>, s: Seq<char>)
    ensures
        spec_contains(before + pattern + after, pattern),
        spec_starts_with(pattern + after, pattern),
        spec_contains(s, pattern) ==> exists|x: Seq<char>, y: Seq<char>| s == #[trigger] (x + pattern
            + y),
        spec_starts_with(s, pattern) ==> exists|y: Seq<char>| s == #[trigger] (pattern + y),
{
    let all = before + pattern + after;
    assert(all.subrange(before.len() as int, (before.len() + pattern.len()) as int) =~= pattern);
    assert(stands_at(all, pattern, before.len() as int));
    assert((pattern + after).subrange(0, pattern.len() as int) =~= pattern);
    if spec_contains(s, pattern) {
        let i = choose|i: int| stands_at(s, pattern, i);
        let x = s.take(i);
        let y = s.skip((i + pattern.len()) as int);
        assert forall|j: int| 0 <= j < pattern.len() implies s[i + j] == pattern[j] by {
            assert(s.subrange(i, i + pattern.len())[j] == s[i + j]);
        }
        assert(s =~= x + pattern + y);
    }
    if spec_starts_with(s, pattern) {
        let y = s.skip(pattern.len() as int);
        assert forall|j: int| 0 <= j < pattern.len() implies s[j] == pattern[j] by {
            assert(s.subrange(0, pattern.len() as int)[j] == s[j]);
        }
        assert(s =~= pattern + y);
    }
}

} // verus!
