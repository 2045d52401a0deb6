//! Text helpers shared by the parsers and the statement builders. Texts are
//! taken apart as sequences of characters.

use vstd::prelude::*;
use vstd::std_specs::iter::IteratorSpec;
use vstd::string::*;

verus! {

/// `str`'s `==` from the standard library: two string slices are equal exactly
/// when they hold the same characters.
pub assume_specification[ <str as PartialEq>::eq ](a: &str, b: &str) -> (r: bool)
    ensures
        r == (a@ == b@),
;

/// `String::push` from the standard library: the character is appended.
pub assume_specification[ String::push ](s: &mut String, ch: char)
    ensures
        final(s)@ == old(s)@.push(ch),
;

/// The characters of an optional text.
pub open spec fn opt_view(text: Option<String>) -> Option<Seq<char>> {
    match text {
        Some(t) => Some(t@),
        None => None,
    }
}

/// The character sequences of a list of texts.
pub open spec fn views(texts: Seq<String>) -> Seq<Seq<char>> {
    texts.map_values(|t: String| t@)
}

/// The character sequences of a list of character vectors.
pub open spec fn rows(pieces: Seq<Vec<char>>) -> Seq<Seq<char>> {
    pieces.map_values(|p: Vec<char>| p@)
}

/// `n / d` rounded toward zero, as integer division does on the machine.
pub open spec fn trunc_div(n: int, d: int) -> int {
    if n >= 0 {
        n / d
    } else {
        -((-n) / d)
    }
}

/// The characters of a text, in order.
pub fn chars_of(s: &str) -> (r: Vec<char>)
    ensures
        r@ == s@,
{
    broadcast use vstd::string::group_string_axioms;

    let mut it = s.chars();
    let mut v: Vec<char> = Vec::new();
    loop
        invariant
            v@ + it.remaining() == s@,
            it.decrease() is Some,
        ensures
            v@ == s@,
        decreases it.decrease()->0,
    {
        match it.next() {
            Some(c) => {
                v.push(c);
            },
            None => {
                break ;
            },
        }
    }
    v
}

/// The text made of the given characters.
pub fn string_of(chars: &Vec<char>) -> (r: String)
    ensures
        r@ == chars@,
{
    let mut s = String::new();
    let mut i: usize = 0;
    while i < chars.len()
        invariant
            i <= chars@.len(),
            s@ == chars@.take(i as int),
        decreases chars@.len() - i,
    {
        s.push(chars[i]);
        assert(chars@.take(i + 1) == chars@.take(i as int).push(chars@[i as int]));
        i += 1;
    }
    assert(chars@.take(i as int) == chars@);
    s
}

/// The decimal digit for a value below ten.
pub open spec fn digit(d: nat) -> char {
    if d == 0 {
        '0'
    } else if d == 1 {
        '1'
    } else if d == 2 {
        '2'
    } else if d == 3 {
        '3'
    } else if d == 4 {
        '4'
    } else if d == 5 {
        '5'
    } else if d == 6 {
        '6'
    } else if d == 7 {
        '7'
    } else if d == 8 {
        '8'
    } else {
        '9'
    }
}

/// A number in decimal, without sign or leading zeros.
pub open spec fn decimal(n: nat) -> Seq<char>
    decreases n,
{
    if n < 10 {
        seq![digit(n)]
    } else {
        decimal(n / 10).push(digit(n % 10))
    }
}

fn digit_of(d: u128) -> (c: char)
    requires
        d < 10,
    ensures
        c == digit(d as nat),
{
    if d == 0 {
        '0'
    } else if d == 1 {
        '1'
    } else if d == 2 {
        '2'
    } else if d == 3 {
        '3'
    } else if d == 4 {
        '4'
    } else if d == 5 {
        '5'
    } else if d == 6 {
        '6'
    } else if d == 7 {
        '7'
    } else if d == 8 {
        '8'
    } else {
        '9'
    }
}

/// The texts joined, with `sep` between each two neighbours.
pub open spec fn join(parts: Seq<Seq<char>>, sep: Seq<char>) -> Seq<char>
    decreases parts.len(),
{
    if parts.len() == 0 {
        Seq::empty()
    } else if parts.len() == 1 {
        parts[0]
    } else {
        join(parts.drop_last(), sep) + sep + parts.last()
    }
}

/// Computes [`join`].
pub fn join_texts(parts: &Vec<String>, sep: &str) -> (r: String)
    ensures
        r@ == join(views(parts@), sep@),
{
    let mut out = String::new();
    let mut i: usize = 0;
    assert(views(parts@).take(0) == Seq::<Seq<char>>::empty());
    while i < parts.len()
        invariant
            i <= parts@.len(),
            out@ == join(views(parts@).take(i as int), sep@),
        decreases parts@.len() - i,
    {
        proof {
            let next = views(parts@).take(i + 1);
            assert(next.drop_last() == views(parts@).take(i as int));
            assert(next.last() == parts@[i as int]@);
            if i == 0 {
                assert(next[0] == parts@[0]@);
                assert(Seq::<char>::empty() + parts@[0]@ == parts@[0]@);
            }
        }
        if i > 0 {
            out.append(sep);
        }
        out.append(parts[i].as_str());
        i += 1;
    }
    assert(views(parts@).take(i as int) == views(parts@));
    out
}

/// Appends a number in decimal to a text.
pub fn push_decimal(out: &mut String, n: u128)
    ensures
        final(out)@ == old(out)@ + decimal(n as nat),
    decreases n,
{
    if n >= 10 {
        push_decimal(out, n / 10);
    }
    out.push(digit_of(n % 10));
}

/// Whether the character is Unicode white space.
pub open spec fn is_space(c: char) -> bool {
    let u = c as u32;
    ||| 0x09 <= u <= 0x0D
    ||| u == 0x20
    ||| u == 0x85
    ||| u == 0xA0
    ||| u == 0x1680
    ||| 0x2000 <= u <= 0x200A
    ||| u == 0x2028
    ||| u == 0x2029
    ||| u == 0x202F
    ||| u == 0x205F
    ||| u == 0x3000
}

/// Computes [`is_space`].
pub fn char_is_space(c: char) -> (r: bool)
    ensures
        r == is_space(c),
{
    let u: u32 = c as u32;
    (0x09 <= u && u <= 0x0D) || u == 0x20 || u == 0x85 || u == 0xA0 || u == 0x1680 || (0x2000 <= u
        && u <= 0x200A) || u == 0x2028 || u == 0x2029 || u == 0x202F || u == 0x205F || u == 0x3000
}

/// The pieces between the occurrences of a separator. There is always at
/// least one piece; a text without separator is its own single piece.
pub open spec fn split_at(s: Seq<char>, sep: char) -> Seq<Seq<char>>
    decreases s.len(),
{
    if s.len() == 0 {
        seq![Seq::<char>::empty()]
    } else {
        let before = split_at(s.drop_last(), sep);
        if s.last() == sep {
            before.push(Seq::<char>::empty())
        } else {
            before.drop_last().push(before.last().push(s.last()))
        }
    }
}

/// The pieces between white-space characters, empty pieces included.
pub open spec fn split_spaces(s: Seq<char>) -> Seq<Seq<char>>
    decreases s.len(),
{
    if s.len() == 0 {
        seq![Seq::<char>::empty()]
    } else {
        let before = split_spaces(s.drop_last());
        if is_space(s.last()) {
            before.push(Seq::<char>::empty())
        } else {
            before.drop_last().push(before.last().push(s.last()))
        }
    }
}

/// The pieces that are not empty, in order.
pub open spec fn nonempty(pieces: Seq<Seq<char>>) -> Seq<Seq<char>>
    decreases pieces.len(),
{
    if pieces.len() == 0 {
        Seq::empty()
    } else if pieces.last().len() > 0 {
        nonempty(pieces.drop_last()).push(pieces.last())
    } else {
        nonempty(pieces.drop_last())
    }
}

/// The words of a text: its maximal runs of characters that are not white
/// space.
pub open spec fn words(s: Seq<char>) -> Seq<Seq<char>> {
    nonempty(split_spaces(s))
}

/// The lines of a text: the pieces between its line feeds.
pub open spec fn lines(s: Seq<char>) -> Seq<Seq<char>> {
    split_at(s, '\n')
}

/// A split has at least one piece.
pub proof fn lemma_split_at_nonempty(s: Seq<char>, sep: char)
    ensures
        split_at(s, sep).len() >= 1,
    decreases s.len(),
{
    if s.len() > 0 {
        lemma_split_at_nonempty(s.drop_last(), sep);
    }
}

/// A split at white space has at least one piece.
pub proof fn lemma_split_spaces_nonempty(s: Seq<char>)
    ensures
        split_spaces(s).len() >= 1,
    decreases s.len(),
{
    if s.len() > 0 {
        lemma_split_spaces_nonempty(s.drop_last());
    }
}

/// Every word has at least one character, and none of them is white space.
pub proof fn lemma_words_are_solid(s: Seq<char>)
    ensures
        forall|k: int|
            0 <= k < words(s).len() ==> (#[trigger] words(s)[k]).len() > 0 && forall|j: int|
                0 <= j < words(s)[k].len() ==> !is_space(#[trigger] words(s)[k][j]),
{
    lemma_pieces_are_solid(s);
    lemma_nonempty_keeps(split_spaces(s));
}

/// No piece of a split at white space holds white space.
proof fn lemma_pieces_are_solid(s: Seq<char>)
    ensures
        forall|k: int, j: int|
            0 <= k < split_spaces(s).len() && 0 <= j < split_spaces(s)[k].len() ==> !is_space(
                #[trigger] split_spaces(s)[k][j],
            ),
    decreases s.len(),
{
    if s.len() > 0 {
        lemma_pieces_are_solid(s.drop_last());
        lemma_split_spaces_nonempty(s.drop_last());
    }
}

/// What [`nonempty`] keeps are pieces of the list given, none of them empty.
proof fn lemma_nonempty_keeps(pieces: Seq<Seq<char>>)
    ensures
        forall|k: int|
            0 <= k < nonempty(pieces).len() ==> (#[trigger] nonempty(pieces)[k]).len() > 0
                && pieces.contains(nonempty(pieces)[k]),
    decreases pieces.len(),
{
    if pieces.len() > 0 {
        let earlier = pieces.drop_last();
        lemma_nonempty_keeps(earlier);
        assert forall|k: int| 0 <= k < nonempty(pieces).len() implies (#[trigger] nonempty(
            pieces,
        )[k]).len() > 0 && pieces.contains(nonempty(pieces)[k]) by {
            if k < nonempty(earlier).len() {
                let piece = nonempty(earlier)[k];
                assert(earlier.contains(piece));
                let at = choose|at: int| 0 <= at < earlier.len() && earlier[at] == piece;
                assert(pieces[at] == piece);
            } else {
                assert(pieces[pieces.len() - 1] == pieces.last());
            }
        }
    }
}

/// The characters of `text` from `from` up to `to`.
pub fn copy_range(text: &Vec<char>, from: usize, to: usize) -> (r: Vec<char>)
    requires
        from <= to <= text@.len(),
    ensures
        r@ == text@.subrange(from as int, to as int),
{
    let mut out: Vec<char> = Vec::new();
    let mut i: usize = from;
    while i < to
        invariant
            from <= i <= to <= text@.len(),
            out@ == text@.subrange(from as int, i as int),
        decreases to - i,
    {
        out.push(text[i]);
        assert(text@.subrange(from as int, i + 1) == text@.subrange(from as int, i as int).push(
            text@[i as int],
        ));
        i += 1;
    }
    out
}

/// Splits a text at every occurrence of a separator.
pub fn split_at_char(text: &Vec<char>, sep: char) -> (r: Vec<Vec<char>>)
    ensures
        rows(r@) == split_at(text@, sep),
        r@.len() >= 1,
{
    let mut done: Vec<Vec<char>> = Vec::new();
    let mut current: Vec<char> = Vec::new();
    let mut i: usize = 0;
    assert(text@.take(0) == Seq::<char>::empty());
    assert(rows(done@).push(current@) == split_at(text@.take(0), sep));
    while i < text.len()
        invariant
            i <= text@.len(),
            rows(done@).push(current@) == split_at(text@.take(i as int), sep),
        decreases text@.len() - i,
    {
        let c = text[i];
        proof {
            let next = text@.take(i + 1);
            assert(next.drop_last() == text@.take(i as int));
            assert(next.last() == c);
            let before = split_at(text@.take(i as int), sep);
            assert(before.drop_last() == rows(done@));
            assert(before.last() == current@);
        }
        if c == sep {
            let ghost earlier = rows(done@);
            done.push(current);
            assert(rows(done@) == earlier.push(current@));
            current = Vec::new();
        } else {
            current.push(c);
        }
        i += 1;
    }
    assert(text@.take(i as int) == text@);
    let ghost earlier = rows(done@);
    done.push(current);
    assert(rows(done@) == earlier.push(current@));
    done
}

/// Splits a text into its words.
pub fn words_of(text: &Vec<char>) -> (r: Vec<Vec<char>>)
    ensures
        rows(r@) == words(text@),
{
    let mut done: Vec<Vec<char>> = Vec::new();
    let mut current: Vec<char> = Vec::new();
    let mut i: usize = 0;
    assert(text@.take(0) == Seq::<char>::empty());
    assert(split_spaces(text@.take(0)).drop_last() == Seq::<Seq<char>>::empty());
    assert(rows(done@) == nonempty(split_spaces(text@.take(0)).drop_last()));
    while i < text.len()
        invariant
            i <= text@.len(),
            rows(done@) == nonempty(split_spaces(text@.take(i as int)).drop_last()),
            current@ == split_spaces(text@.take(i as int)).last(),
        decreases text@.len() - i,
    {
        let c = text[i];
        proof {
            let next = text@.take(i + 1);
            assert(next.drop_last() == text@.take(i as int));
            assert(next.last() == c);
            lemma_split_spaces_nonempty(text@.take(i as int));
            let before = split_spaces(text@.take(i as int));
            if is_space(c) {
                assert(split_spaces(next).drop_last() == before);
            } else {
                assert(split_spaces(next).drop_last() == before.drop_last());
            }
        }
        if char_is_space(c) {
            if current.len() > 0 {
                let ghost earlier = rows(done@);
                done.push(current);
                assert(rows(done@) == earlier.push(current@));
            }
            current = Vec::new();
        } else {
            current.push(c);
        }
        i += 1;
    }
    assert(text@.take(i as int) == text@);
    proof {
        lemma_split_spaces_nonempty(text@);
    }
    if current.len() > 0 {
        let ghost earlier = rows(done@);
        done.push(current);
        assert(rows(done@) == earlier.push(current@));
    }
    done
}

/// The text without its leading white space.
pub open spec fn trim_start(s: Seq<char>) -> Seq<char>
    decreases s.len(),
{
    if s.len() > 0 && is_space(s[0]) {
        trim_start(s.drop_first())
    } else {
        s
    }
}

/// The text without its trailing white space.
pub open spec fn trim_end(s: Seq<char>) -> Seq<char>
    decreases s.len(),
{
    if s.len() > 0 && is_space(s.last()) {
        trim_end(s.drop_last())
    } else {
        s
    }
}

/// The text without leading and trailing white space.
pub open spec fn trim(s: Seq<char>) -> Seq<char> {
    trim_end(trim_start(s))
}

/// Computes [`trim`].
pub fn trimmed(text: &Vec<char>) -> (r: Vec<char>)
    ensures
        r@ == trim(text@),
{
    let mut from: usize = 0;
    assert(text@.skip(0) == text@);
    while from < text.len() && char_is_space(text[from])
        invariant
            from <= text@.len(),
            trim_start(text@) == trim_start(text@.skip(from as int)),
        decreases text@.len() - from,
    {
        assert(text@.skip(from as int).drop_first() == text@.skip(from + 1));
        from += 1;
    }
    let ghost tail = text@.skip(from as int);
    assert(trim_start(text@) == tail);
    let mut to: usize = text.len();
    assert(tail.take(to - from) == tail);
    while to > from && char_is_space(text[to - 1])
        invariant
            from <= to <= text@.len(),
            tail == text@.skip(from as int),
            trim_end(tail) == trim_end(tail.take(to - from)),
        decreases to,
    {
        assert(tail.take(to - from).last() == text@[to - 1]);
        assert(tail.take(to - from).drop_last() == tail.take(to - 1 - from));
        to -= 1;
    }
    proof {
        let kept = tail.take(to - from);
        if kept.len() > 0 {
            assert(kept.last() == text@[to - 1]);
        }
        assert(trim_end(tail) == kept);
        assert(kept == text@.subrange(from as int, to as int));
    }
    copy_range(text, from, to)
}

/// Whether `s` begins with `prefix`.
pub open spec fn starts_with(s: Seq<char>, prefix: Seq<char>) -> bool {
    prefix.len() <= s.len() && s.take(prefix.len() as int) == prefix
}

/// Whether `needle` occurs somewhere in `s`.
pub open spec fn contains(s: Seq<char>, needle: Seq<char>) -> bool {
    exists|i: int| 0 <= i <= s.len() && starts_with(#[trigger] s.skip(i), needle)
}

/// `s` with every leading repetition of `prefix` removed.
pub open spec fn strip_all(s: Seq<char>, prefix: Seq<char>) -> Seq<char>
    decreases s.len(),
{
    if prefix.len() > 0 && starts_with(s, prefix) {
        strip_all(s.skip(prefix.len() as int), prefix)
    } else {
        s
    }
}

/// Whether `prefix` stands in `text` at position `from`.
pub fn has_prefix_at(text: &Vec<char>, from: usize, prefix: &Vec<char>) -> (r: bool)
    requires
        from <= text@.len(),
    ensures
        r == starts_with(text@.skip(from as int), prefix@),
{
    if prefix.len() > text.len() - from {
        return false;
    }
    let ghost tail = text@.skip(from as int);
    let mut k: usize = 0;
    while k < prefix.len()
        invariant
            from + prefix.len() <= text.len(),
            k <= prefix.len(),
            tail == text@.skip(from as int),
            forall|j: int| 0 <= j < k ==> tail[j] == prefix@[j],
        decreases prefix@.len() - k,
    {
        if text[from + k] != prefix[k] {
            assert(tail.take(prefix@.len() as int)[k as int] != prefix@[k as int]);
            return false;
        }
        k += 1;
    }
    assert(tail.take(prefix@.len() as int) =~= prefix@);
    true
}

/// Computes [`contains`].
pub fn has_infix(text: &Vec<char>, needle: &Vec<char>) -> (r: bool)
    ensures
        r == contains(text@, needle@),
{
    let mut i: usize = 0;
    while i < text.len()
        invariant
            i <= text@.len(),
            forall|j: int| 0 <= j < i ==> !starts_with(#[trigger] text@.skip(j), needle@),
        decreases text@.len() - i,
    {
        if has_prefix_at(text, i, needle) {
            return true;
        }
        i += 1;
    }
    has_prefix_at(text, i, needle)
}

/// Computes [`strip_all`].
pub fn strip_all_of(text: &Vec<char>, prefix: &Vec<char>) -> (r: Vec<char>)
    ensures
        r@ == strip_all(text@, prefix@),
{
    let mut from: usize = 0;
    assert(text@.skip(0) == text@);
    if prefix.len() > 0 {
        loop
            invariant
                from <= text@.len(),
                prefix@.len() > 0,
                strip_all(text@, prefix@) == strip_all(text@.skip(from as int), prefix@),
            ensures
                from <= text@.len(),
                strip_all(text@, prefix@) == text@.skip(from as int),
            decreases text@.len() - from,
        {
            if !has_prefix_at(text, from, prefix) {
                break ;
            }
            assert(text@.skip(from as int).len() == text@.len() - from);
            assert(from + prefix.len() <= text.len());
            assert(text@.skip(from as int).skip(prefix@.len() as int) == text@.skip(
                from + prefix@.len(),
            ));
            from += prefix.len();
        }
    }
    assert(text@.skip(from as int) == text@.subrange(from as int, text@.len() as int));
    copy_range(text, from, text.len())
}

/// The value of a run of decimal digits, or nothing if another character
/// stands among them. The empty run has the value zero.
pub open spec fn digits_value(s: Seq<char>) -> Option<nat>
    decreases s.len(),
{
    if s.len() == 0 {
        Some(0)
    } else if '0' <= s.last() <= '9' {
        match digits_value(s.drop_last()) {
            Some(v) => Some(v * 10 + (s.last() as u32 - '0' as u32) as nat),
            None => None,
        }
    } else {
        None
    }
}

/// The number that a text spells in decimal: digits only, after an optional
/// plus sign, at least one of them, and a value that fits in 32 bits.
pub open spec fn parse_u32(s: Seq<char>) -> Option<u32> {
    let body = if s.len() > 0 && s[0] == '+' {
        s.drop_first()
    } else {
        s
    };
    if body.len() == 0 {
        None
    } else {
        match digits_value(body) {
            Some(v) => if v <= u32::MAX {
                Some(v as u32)
            } else {
                None
            },
            None => None,
        }
    }
}

/// A run of digits is worth at least as much as any run it begins with.
proof fn lemma_digits_grow(s: Seq<char>, n: int)
    requires
        0 <= n <= s.len(),
        digits_value(s) is Some,
    ensures
        digits_value(s.take(n)) is Some,
        digits_value(s.take(n))->0 <= digits_value(s)->0,
    decreases s.len(),
{
    if n == s.len() {
        assert(s.take(n) == s);
    } else {
        assert(s.drop_last().take(n) == s.take(n));
        lemma_digits_grow(s.drop_last(), n);
    }
}

/// Computes [`parse_u32`].
pub fn parse_u32_of(text: &Vec<char>) -> (r: Option<u32>)
    ensures
        r == parse_u32(text@),
{
    let start: usize = if text.len() > 0 && text[0] == '+' {
        1
    } else {
        0
    };
    if start == text.len() {
        return None;
    }
    let ghost body = text@.skip(start as int);
    assert(start == 1 ==> body == text@.drop_first());
    assert(start == 0 ==> body == text@);
    let mut value: u64 = 0;
    let mut i: usize = start;
    assert(body.take(0) == Seq::<char>::empty());
    while i < text.len()
        invariant
            start <= i <= text@.len(),
            body == text@.skip(start as int),
            body.len() > 0,
            body == if text@.len() > 0 && text@[0] == '+' {
                text@.drop_first()
            } else {
                text@
            },
            digits_value(body.take(i - start)) == Some(value as nat),
            value <= u32::MAX,
        decreases text@.len() - i,
    {
        let c = text[i];
        proof {
            let next = body.take(i + 1 - start);
            assert(next.drop_last() == body.take(i - start));
            assert(next.last() == c);
            if digits_value(body) is Some {
                lemma_digits_grow(body, i + 1 - start);
            }
        }
        if !('0' <= c && c <= '9') {
            return None;
        }
        let d: u64 = (c as u32 - '0' as u32) as u64;
        let next: u64 = value * 10 + d;
        if next > u32::MAX as u64 {
            return None;
        }
        value = next;
        i += 1;
    }
    assert(body.take(i - start) == body);
    Some(value as u32)
}

} // verus!
