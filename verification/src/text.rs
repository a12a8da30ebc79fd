//! Strings as sequences of characters.

use vstd::prelude::*;
use vstd::string::*;

verus! {

/// `String::push` appends one character and changes nothing else.
pub assume_specification[ String::push ](s: &mut String, c: char)
    ensures
        final(s)@ == old(s)@.push(c),
;

/// Whether two strings hold the same characters.
pub fn same(a: &str, b: &str) -> (r: bool)
    ensures
        r == (a@ == b@),
{
    a.to_owned() == b.to_owned()
}

/// The characters of a string, in order.
pub fn chars_of(s: &str) -> (chars: Vec<char>)
    ensures
        chars@ == s@,
{
    let mut chars: Vec<char> = Vec::new();
    for c in it: s.chars()
        invariant
            chars@ == s@.take(it.index()),
            it.seq() == s@,
    {
        chars.push(c);
        assert(s@.take(it.index()).push(c) =~= s@.take(it.index() + 1));
    }
    assert(s@.take(s@.len() as int) =~= s@);
    chars
}

/// The string made of the characters `from..to`.
pub fn string_of(chars: &Vec<char>, from: usize, to: usize) -> (s: String)
    requires
        from <= to <= chars@.len(),
    ensures
        s@ == chars@.subrange(from as int, to as int),
{
    let mut s = String::new();
    let mut i: usize = from;
    while i < to
        invariant
            from <= i <= to <= chars@.len(),
            s@ == chars@.subrange(from as int, i as int),
        decreases to - i,
    {
        s.push(chars[i]);
        i = i + 1;
    }
    s
}

/// Two strings, one after the other.
pub fn joined(a: &str, b: &str) -> (r: String)
    ensures
        r@ == a@ + b@,
{
    let mut r = a.to_owned();
    r.append(b);
    r
}

/// The characters with the Unicode property White_Space.
pub open spec fn white_space(c: char) -> bool {
    let code = c as u32;
    ||| 0x09 <= code <= 0x0D
    ||| code == 0x20
    ||| code == 0x85
    ||| code == 0xA0
    ||| code == 0x1680
    ||| 0x2000 <= code <= 0x200A
    ||| code == 0x2028
    ||| code == 0x2029
    ||| code == 0x202F
    ||| code == 0x205F
    ||| code == 0x3000
}

/// Whether a character is white space.
pub fn is_white_space(c: char) -> (r: bool)
    ensures
        r == white_space(c),
{
    let code: u32 = c as u32;
    (0x09 <= code && code <= 0x0D) || code == 0x20 || code == 0x85 || code == 0xA0 || code == 0x1680
        || (0x2000 <= code && code <= 0x200A) || code == 0x2028 || code == 0x2029 || code == 0x202F
        || code == 0x205F || code == 0x3000
}

/// A text without the white space at its start.
pub open spec fn trimmed_start(s: Seq<char>) -> Seq<char>
    decreases s.len(),
{
    if s.len() > 0 && white_space(s[0]) {
        trimmed_start(s.skip(1))
    } else {
        s
    }
}

/// A text without the white space at its end.
pub open spec fn trimmed_end(s: Seq<char>) -> Seq<char>
    decreases s.len(),
{
    if s.len() > 0 && white_space(s.last()) {
        trimmed_end(s.drop_last())
    } else {
        s
    }
}

/// A text without the white space around it.
pub open spec fn trimmed(s: Seq<char>) -> Seq<char> {
    trimmed_end(trimmed_start(s))
}

/// Removes the white space around a text.
pub fn trim(s: &str) -> (r: String)
    ensures
        r@ == trimmed(s@),
{
    let chars = chars_of(s);
    let mut from: usize = 0;
    assert(chars@.skip(0) =~= chars@);
    while from < chars.len() && is_white_space(chars[from])
        invariant
            from <= chars@.len(),
            trimmed_start(chars@.skip(from as int)) == trimmed_start(chars@),
        decreases chars@.len() - from,
    {
        assert(chars@.skip(from as int).skip(1) =~= chars@.skip(from + 1));
        from = from + 1;
    }
    let mut to: usize = chars.len();
    proof {
        assert(chars@.skip(from as int) =~= chars@.subrange(from as int, to as int));
        assert(trimmed_start(chars@) == chars@.skip(from as int));
    }
    while from < to && is_white_space(chars[to - 1])
        invariant
            from <= to <= chars@.len(),
            trimmed_end(chars@.subrange(from as int, to as int)) == trimmed(chars@),
        decreases to - from,
    {
        assert(chars@.subrange(from as int, to as int).drop_last() =~= chars@.subrange(
            from as int, to - 1));
        to = to - 1;
    }
    string_of(&chars, from, to)
}

/// Whether a text is empty or only white space.
pub open spec fn blank(s: Seq<char>) -> bool {
    forall|i: int| 0 <= i < s.len() ==> white_space(#[trigger] s[i])
}

/// Whether a text is empty or only white space.
pub fn is_blank(s: &str) -> (r: bool)
    ensures
        r == blank(s@),
{
    let chars = chars_of(s);
    let mut i: usize = 0;
    while i < chars.len()
        invariant
            i <= chars@.len(),
            chars@ == s@,
            forall|j: int| 0 <= j < i ==> white_space(#[trigger] chars@[j]),
        decreases chars@.len() - i,
    {
        if !is_white_space(chars[i]) {
            return false;
        }
        i = i + 1;
    }
    true
}

/// A text is blank exactly when trimming leaves nothing of it.
pub proof fn blank_is_trimmed_to_nothing(s: Seq<char>)
    ensures
        blank(s) <==> trimmed(s).len() == 0,
    decreases s.len(),
{
    if s.len() > 0 {
        if white_space(s[0]) {
            blank_is_trimmed_to_nothing(s.skip(1));
            assert(blank(s) <==> blank(s.skip(1))) by {
                if blank(s.skip(1)) {
                    assert forall|i: int| 0 <= i < s.len() implies white_space(#[trigger] s[i]) by {
                        if i > 0 {
                            assert(s.skip(1)[i - 1] == s[i]);
                        }
                    }
                }
            }
        } else {
            trimmed_end_keeps_a_word(s);
        }
    }
}

/// What trimming leaves is not blank, if it leaves anything.
pub proof fn trimmed_is_not_blank(s: Seq<char>)
    requires
        !blank(s),
    ensures
        !blank(trimmed(s)),
{
    blank_is_trimmed_to_nothing(s);
    trimmed_end_ends_in_a_word(trimmed_start(s));
    let t = trimmed(s);
    assert(t[t.len() - 1] == t.last());
}

proof fn trimmed_end_ends_in_a_word(s: Seq<char>)
    ensures
        trimmed_end(s).len() > 0 ==> !white_space(trimmed_end(s).last()),
    decreases s.len(),
{
    if s.len() > 0 && white_space(s.last()) {
        trimmed_end_ends_in_a_word(s.drop_last());
    }
}

proof fn trimmed_end_keeps_a_word(s: Seq<char>)
    requires
        s.len() > 0,
        !white_space(s[0]),
    ensures
        trimmed_end(s).len() > 0,
    decreases s.len(),
{
    if white_space(s.last()) {
        trimmed_end_keeps_a_word(s.drop_last());
    }
}

/// The decimal digits of a number, without leading zeros.
pub open spec fn decimal_digits(n: nat) -> Seq<char>
    decreases n,
{
    if n < 10 {
        seq![digit(n)]
    } else {
        decimal_digits(n / 10).push(digit(n % 10))
    }
}

/// The character of a digit below ten.
pub open spec fn digit(n: nat) -> char {
    (('0' as u32) + n) as u8 as char
}

/// Different numbers have different digits.
pub proof fn decimal_digits_are_faithful(a: nat, b: nat)
    requires
        decimal_digits(a) == decimal_digits(b),
    ensures
        a == b,
    decreases a,
{
    assert(decimal_digits(a).last() == digit(a % 10));
    assert(decimal_digits(b).last() == digit(b % 10));
    assert(a % 10 == b % 10);
    has_a_digit(a / 10);
    has_a_digit(b / 10);
    if a >= 10 && b >= 10 {
        assert(decimal_digits(a).drop_last() =~= decimal_digits(a / 10));
        assert(decimal_digits(b).drop_last() =~= decimal_digits(b / 10));
        decimal_digits_are_faithful(a / 10, b / 10);
    }
}

proof fn has_a_digit(n: nat)
    ensures
        decimal_digits(n).len() >= 1,
    decreases n,
{
    if n >= 10 {
        has_a_digit(n / 10);
    }
}

/// The character of a digit below ten.
fn digit_char(n: u64) -> (c: char)
    requires
        n < 10,
    ensures
        c == digit(n as nat),
{
    (48 + n as u8) as char
}

/// A number in decimal.
pub fn decimal(n: u64) -> (s: String)
    ensures
        s@ == decimal_digits(n as nat),
    decreases n,
{
    let mut s = if n < 10 { String::new() } else { decimal(n / 10) };
    s.push(digit_char(n % 10));
    s
}

/// A text filled up on the left with zeros to `width` characters.
pub open spec fn zero_padded(s: Seq<char>, width: nat) -> Seq<char>
    decreases width - s.len(),
{
    if s.len() < width {
        zero_padded(seq!['0'] + s, width)
    } else {
        s
    }
}

/// A number in decimal, with leading zeros up to `width` digits.
pub fn padded_decimal(n: u64, width: usize) -> (s: String)
    ensures
        s@ == zero_padded(decimal_digits(n as nat), width as nat),
{
    let digits = decimal(n);
    let mut s = String::new();
    let len: usize = digits.as_str().unicode_len();
    let mut missing: usize = width.saturating_sub(len);
    let ghost whole = zero_padded(digits@, width as nat);
    while missing > 0
        invariant
            len == digits@.len(),
            missing == if len + s@.len() < width { width - len - s@.len() } else { 0 },
            zero_padded(s@ + digits@, width as nat) == whole,
            forall|i: int| 0 <= i < s@.len() ==> s@[i] == '0',
        decreases missing,
    {
        let ghost before = s@;
        s.push('0');
        proof {
            assert(seq!['0'] + (before + digits@) =~= s@ + digits@);
        }
        missing = missing - 1;
    }
    s.append(digits.as_str());
    s
}

/// A character with an ASCII capital replaced by its small letter.
pub open spec fn ascii_lower(c: char) -> char {
    if 'A' <= c <= 'Z' {
        ((c as u8) + 32) as u8 as char
    } else {
        c
    }
}

/// A text with its ASCII capitals replaced by small letters.
pub open spec fn lowered(s: Seq<char>) -> Seq<char> {
    Seq::new(s.len(), |i: int| ascii_lower(s[i]))
}

fn lower(c: char) -> (r: char)
    ensures
        r == ascii_lower(c),
{
    if 'A' <= c && c <= 'Z' {
        (c as u8 + 32) as char
    } else {
        c
    }
}

/// Whether two texts are the same up to the case of ASCII letters.
pub fn same_ignoring_ascii_case(a: &str, b: &str) -> (r: bool)
    ensures
        r == (lowered(a@) == lowered(b@)),
{
    let left = chars_of(a);
    let right = chars_of(b);
    if left.len() != right.len() {
        assert(lowered(a@).len() != lowered(b@).len());
        return false;
    }
    let mut i: usize = 0;
    while i < left.len()
        invariant
            left@ == a@,
            right@ == b@,
            left@.len() == right@.len(),
            i <= left@.len(),
            forall|j: int| 0 <= j < i ==> ascii_lower(#[trigger] left@[j]) == ascii_lower(right@[j]),
        decreases left@.len() - i,
    {
        if lower(left[i]) != lower(right[i]) {
            assert(lowered(a@)[i as int] != lowered(b@)[i as int]);
            return false;
        }
        i = i + 1;
    }
    assert(lowered(a@) =~= lowered(b@));
    true
}

/// What a list of strings stands for.
pub open spec fn views(strings: Seq<String>) -> Seq<Seq<char>> {
    Seq::new(strings.len(), |i: int| strings[i]@)
}

/// A character with an ASCII small letter replaced by its capital.
pub open spec fn ascii_upper(c: char) -> char {
    if 'a' <= c <= 'z' {
        ((c as u8) - 32) as u8 as char
    } else {
        c
    }
}

/// A text with its ASCII small letters replaced by capitals.
pub open spec fn raised(s: Seq<char>) -> Seq<char> {
    Seq::new(s.len(), |i: int| ascii_upper(s[i]))
}

/// Replaces ASCII small letters by capitals.
pub fn to_ascii_upper(s: &str) -> (r: String)
    ensures
        r@ == raised(s@),
{
    let chars = chars_of(s);
    let mut r = String::new();
    let mut i: usize = 0;
    while i < chars.len()
        invariant
            i <= chars@.len(),
            r@ == raised(chars@.take(i as int)),
        decreases chars@.len() - i,
    {
        let c: char = chars[i];
        if 'a' <= c && c <= 'z' {
            r.push((c as u8 - 32) as char);
        } else {
            r.push(c);
        }
        i = i + 1;
        assert(raised(chars@.take(i as int)) =~= raised(chars@.take(i - 1)).push(
            ascii_upper(chars@[i - 1])));
    }
    assert(chars@.take(i as int) =~= chars@);
    r
}

/// Replaces ASCII capitals by small letters.
pub fn to_ascii_lower(s: &str) -> (r: String)
    ensures
        r@ == lowered(s@),
{
    let chars = chars_of(s);
    let mut r = String::new();
    let mut i: usize = 0;
    while i < chars.len()
        invariant
            i <= chars@.len(),
            r@ == lowered(chars@.take(i as int)),
        decreases chars@.len() - i,
    {
        r.push(lower(chars[i]));
        i = i + 1;
        assert(lowered(chars@.take(i as int)) =~= lowered(chars@.take(i - 1)).push(
            ascii_lower(chars@[i - 1])));
    }
    assert(chars@.take(i as int) =~= chars@);
    r
}

/// `part` stands in `s` at position `i`.
pub open spec fn stands_at(s: Seq<char>, part: Seq<char>, i: int) -> bool {
    0 <= i && i + part.len() <= s.len() && s.subrange(i, i + part.len()) == part
}

/// `part` stands somewhere in `s`.
pub open spec fn contains(s: Seq<char>, part: Seq<char>) -> bool {
    exists|i: int| stands_at(s, part, i)
}

fn matches_at(chars: &Vec<char>, part: &Vec<char>, at: usize) -> (r: bool)
    requires
        at + part@.len() <= chars@.len(),
    ensures
        r == stands_at(chars@, part@, at as int),
{
    let total: usize = chars.len();
    let mut i: usize = 0;
    while i < part.len()
        invariant
            at + part@.len() <= chars@.len(),
            chars@.len() == total,
            i <= part@.len(),
            forall|j: int| 0 <= j < i ==> chars@[at + j] == part@[j],
        decreases part@.len() - i,
    {
        if chars[at + i] != part[i] {
            assert(chars@.subrange(at as int, at + part@.len())[i as int] != part@[i as int]);
            return false;
        }
        i = i + 1;
    }
    assert(chars@.subrange(at as int, at + part@.len()) =~= part@);
    true
}

/// Whether `part` stands somewhere in `s`.
pub fn has_part(s: &str, part: &str) -> (r: bool)
    ensures
        r == contains(s@, part@),
{
    let chars = chars_of(s);
    let wanted = chars_of(part);
    if wanted.len() > chars.len() {
        return false;
    }
    let total: usize = chars.len();
    let last: usize = total - wanted.len();
    let mut i: usize = 0;
    while i <= last
        invariant
            chars@ == s@,
            wanted@ == part@,
            last + wanted@.len() == chars@.len(),
            chars@.len() == total,
            i <= last + 1,
            forall|j: int| 0 <= j < i ==> !#[trigger] stands_at(s@, part@, j),
        decreases last + 1 - i,
    {
        if matches_at(&chars, &wanted, i) {
            return true;
        }
        if i == last {
            return false;
        }
        i = i + 1;
    }
    false
}

/// The capital hexadecimal digit of a number below sixteen.
pub open spec fn hex_digit(n: nat) -> char {
    if n < 10 {
        (48 + n) as u8 as char
    } else {
        (55 + n) as u8 as char
    }
}

/// Bytes in capital hexadecimal digits, two for each.
pub open spec fn hex(bytes: Seq<u8>) -> Seq<char> {
    Seq::new(
        2 * bytes.len(),
        |i: int| if i % 2 == 0 {
            hex_digit(bytes[i / 2] as nat / 16)
        } else {
            hex_digit(bytes[i / 2] as nat % 16)
        },
    )
}

fn hex_char(n: u8) -> (c: char)
    requires
        n < 16,
    ensures
        c == hex_digit(n as nat),
{
    if n < 10 {
        (48 + n) as char
    } else {
        (55 + n) as char
    }
}

/// Writes bytes in capital hexadecimal digits.
pub fn to_hex(bytes: &Vec<u8>) -> (s: String)
    ensures
        s@ == hex(bytes@),
{
    let mut s = String::new();
    let mut i: usize = 0;
    while i < bytes.len()
        invariant
            i <= bytes@.len(),
            s@ == hex(bytes@.take(i as int)),
        decreases bytes@.len() - i,
    {
        let ghost before = s@;
        s.push(hex_char(bytes[i] / 16));
        s.push(hex_char(bytes[i] % 16));
        i = i + 1;
        assert(hex(bytes@.take(i as int)) =~= before.push(
            hex_digit(bytes@[i - 1] as nat / 16)).push(hex_digit(bytes@[i - 1] as nat % 16)));
    }
    assert(bytes@.take(i as int) =~= bytes@);
    s
}

/// Copies a list of strings.
pub fn clone_strings(strings: &Vec<String>) -> (r: Vec<String>)
    ensures
        r@ == strings@,
{
    let mut r: Vec<String> = Vec::new();
    let mut i: usize = 0;
    while i < strings.len()
        invariant
            i <= strings@.len(),
            r@ == strings@.take(i as int),
        decreases strings@.len() - i,
    {
        r.push(strings[i].clone());
        i = i + 1;
        assert(strings@.take(i as int) =~= strings@.take(i - 1).push(strings@[i - 1]));
    }
    assert(strings@.take(i as int) =~= strings@);
    r
}

/// Dictionary order by character codes: the order of the strings' bytes.
pub open spec fn precedes(a: Seq<char>, b: Seq<char>) -> bool
    decreases a.len(),
{
    if a.len() == 0 {
        true
    } else if b.len() == 0 {
        false
    } else if a[0] == b[0] {
        precedes(a.skip(1), b.skip(1))
    } else {
        a[0] < b[0]
    }
}

/// Whether a string comes before another or is the same.
pub fn comes_first(a: &str, b: &str) -> (r: bool)
    ensures
        r == precedes(a@, b@),
{
    let left = chars_of(a);
    let right = chars_of(b);
    let mut i: usize = 0;
    assert(a@.skip(0) =~= a@);
    assert(b@.skip(0) =~= b@);
    while i < left.len() && i < right.len() && left[i] == right[i]
        invariant
            left@ == a@,
            right@ == b@,
            i <= left@.len(),
            i <= right@.len(),
            precedes(a@, b@) == precedes(a@.skip(i as int), b@.skip(i as int)),
        decreases left@.len() - i,
    {
        assert(a@.skip(i as int).skip(1) =~= a@.skip(i + 1));
        assert(b@.skip(i as int).skip(1) =~= b@.skip(i + 1));
        i = i + 1;
    }
    if i >= left.len() {
        return true;
    }
    if i >= right.len() {
        return false;
    }
    left[i] < right[i]
}

/// Of two strings one precedes the other.
pub proof fn precedes_is_total(a: Seq<char>, b: Seq<char>)
    ensures
        precedes(a, b) || precedes(b, a),
    decreases a.len(),
{
    if a.len() > 0 && b.len() > 0 && a[0] == b[0] {
        precedes_is_total(a.skip(1), b.skip(1));
    }
}

/// What precedes a string precedes all that follow it.
pub proof fn precedes_is_transitive(a: Seq<char>, b: Seq<char>, c: Seq<char>)
    requires
        precedes(a, b),
        precedes(b, c),
    ensures
        precedes(a, c),
    decreases a.len(),
{
    if a.len() > 0 && b.len() > 0 && c.len() > 0 && a[0] == b[0] && b[0] == c[0] {
        precedes_is_transitive(a.skip(1), b.skip(1), c.skip(1));
    }
}

/// Strings in dictionary order.
pub open spec fn in_order(strings: Seq<String>) -> bool {
    forall|i: int, j: int|
        0 <= i < j < strings.len() ==> precedes(
            (#[trigger] strings[i])@, (#[trigger] strings[j])@)
}

/// Puts strings in dictionary order.
pub fn sort_strings(strings: Vec<String>) -> (sorted: Vec<String>)
    ensures
        in_order(sorted@),
        sorted@.to_multiset() == strings@.to_multiset(),
{
    let mut sorted: Vec<String> = Vec::new();
    let mut i: usize = 0;
    assert(strings@.take(0) =~= Seq::empty());
    while i < strings.len()
        invariant
            i <= strings@.len(),
            in_order(sorted@),
            sorted@.to_multiset() == strings@.take(i as int).to_multiset(),
        decreases strings@.len() - i,
    {
        let item = strings[i].clone();
        let mut at: usize = sorted.len();
        while at > 0 && !comes_first(sorted[at - 1].as_str(), item.as_str())
            invariant
                at <= sorted@.len(),
                in_order(sorted@),
                forall|k: int| at <= k < sorted@.len() ==> precedes(
                    item@, (#[trigger] sorted@[k])@),
            decreases at,
        {
            proof {
                precedes_is_total(sorted@[at - 1]@, item@);
            }
            at = at - 1;
        }
        let ghost before = sorted@;
        sorted.insert(at, item);
        proof {
            assert(strings@.take(i + 1) =~= strings@.take(i as int).push(strings@[i as int]));
            assert(sorted@ =~= before.insert(at as int, item));
            assert(sorted@.to_multiset() == strings@.take(i + 1).to_multiset()) by {
                broadcast use vstd::seq_lib::group_to_multiset_ensures;

            }
            assert forall|a: int, b: int| 0 <= a < b < sorted@.len() implies precedes(
                (#[trigger] sorted@[a])@, (#[trigger] sorted@[b])@) by {
                if b < at {
                    assert(sorted@[a] == before[a] && sorted@[b] == before[b]);
                } else if b == at {
                    assert(sorted@[a] == before[a]);
                    if a < at - 1 {
                        assert(precedes(before[a]@, before[at - 1]@));
                        precedes_is_transitive(before[a]@, before[at - 1]@, item@);
                    }
                } else if a < at {
                    assert(sorted@[a] == before[a] && sorted@[b] == before[b - 1]);
                } else if a == at {
                    assert(sorted@[b] == before[b - 1]);
                } else {
                    assert(sorted@[a] == before[a - 1] && sorted@[b] == before[b - 1]);
                }
            }
        }
        i = i + 1;
    }
    assert(strings@.take(i as int) =~= strings@);
    sorted
}

/// Law: trimming takes away white space and nothing else, and leaves none at either end.
pub proof fn trimming_takes_only_white_space(s: Seq<char>) -> (r: (Seq<char>, Seq<char>))
    ensures
        s == r.0 + trimmed(s) + r.1,
        blank(r.0),
        blank(r.1),
        trimmed(s).len() > 0 ==> !white_space(trimmed(s)[0]) && !white_space(trimmed(s).last()),
{
    let head = start_is_white_space(s);
    let rest = trimmed_start(s);
    let tail = end_is_white_space(rest);
    assert(s =~= head + trimmed(s) + tail);
    trimmed_end_ends_in_a_word(rest);
    if trimmed(s).len() > 0 {
        assert(trimmed(s)[0] == rest[0]);
    }
    (head, tail)
}

proof fn start_is_white_space(s: Seq<char>) -> (head: Seq<char>)
    ensures
        s == head + trimmed_start(s),
        blank(head),
        trimmed_start(s).len() > 0 ==> !white_space(trimmed_start(s)[0]),
    decreases s.len(),
{
    if s.len() > 0 && white_space(s[0]) {
        let head = start_is_white_space(s.skip(1));
        let more = seq![s[0]] + head;
        assert(s =~= more + trimmed_start(s)) by {
            assert(s =~= seq![s[0]] + s.skip(1));
        }
        assert forall|i: int| 0 <= i < more.len() implies white_space(#[trigger] more[i]) by {
            if i > 0 {
                assert(more[i] == head[i - 1]);
            }
        }
        more
    } else {
        assert(s =~= Seq::<char>::empty() + s);
        Seq::empty()
    }
}

proof fn end_is_white_space(s: Seq<char>) -> (tail: Seq<char>)
    ensures
        s == trimmed_end(s) + tail,
        blank(tail),
        trimmed_end(s).len() > 0 ==> trimmed_end(s)[0] == s[0],
    decreases s.len(),
{
    if s.len() > 0 && white_space(s.last()) {
        let tail = end_is_white_space(s.drop_last());
        let more = tail.push(s.last());
        assert(trimmed_end(s) == trimmed_end(s.drop_last()));
        assert(s =~= s.drop_last().push(s.last()));
        assert(s =~= trimmed_end(s) + more);
        assert forall|i: int| 0 <= i < more.len() implies white_space(#[trigger] more[i]) by {
            if i < tail.len() {
                assert(more[i] == tail[i]);
            }
        }
        more
    } else {
        assert(s =~= s + Seq::<char>::empty());
        Seq::empty()
    }
}

/// Different numbers have different digits, also with zeros before them.
pub proof fn padded_digits_are_faithful(a: nat, b: nat, width: nat)
    requires
        zero_padded(decimal_digits(a), width) == zero_padded(decimal_digits(b), width),
    ensures
        a == b,
{
    padding_keeps_the_value(decimal_digits(a), width);
    padding_keeps_the_value(decimal_digits(b), width);
    digits_have_their_value(a);
    digits_have_their_value(b);
}

/// The number that decimal digits stand for.
pub open spec fn value_of(digits: Seq<char>) -> int
    decreases digits.len(),
{
    if digits.len() == 0 {
        0
    } else {
        value_of(digits.drop_last()) * 10 + (digits.last() as u32 - '0' as u32)
    }
}

/// Law: the decimal digits of a number stand for that number.
pub proof fn digits_have_their_value(n: nat)
    ensures
        value_of(decimal_digits(n)) == n,
        forall|i: int| 0 <= i < decimal_digits(n).len() ==> '0' <= #[trigger] decimal_digits(n)[i]
            <= '9',
    decreases n,
{
    let digits = decimal_digits(n);
    if n < 10 {
        assert(digits.drop_last() =~= Seq::empty());
        assert(value_of(digits.drop_last()) == 0);
        assert(digits.last() as u32 == 48 + n);
    } else {
        digits_have_their_value(n / 10);
        assert(digits.drop_last() =~= decimal_digits(n / 10));
        assert(digits.last() as u32 == 48 + n % 10);
    }
}

proof fn padding_keeps_the_value(digits: Seq<char>, width: nat)
    ensures
        value_of(zero_padded(digits, width)) == value_of(digits),
    decreases width - digits.len(),
{
    if digits.len() < width {
        leading_zero_counts_nothing(digits);
        padding_keeps_the_value(seq!['0'] + digits, width);
    }
}

proof fn leading_zero_counts_nothing(digits: Seq<char>)
    ensures
        value_of(seq!['0'] + digits) == value_of(digits),
    decreases digits.len(),
{
    let padded = seq!['0'] + digits;
    if digits.len() == 0 {
        assert(padded.drop_last() =~= Seq::empty());
        assert(value_of(padded.drop_last()) == 0);
    } else {
        leading_zero_counts_nothing(digits.drop_last());
        assert(padded.drop_last() =~= seq!['0'] + digits.drop_last());
    }
}

/// A space behind a trimmed text is trimmed away.
pub proof fn one_space_is_trimmed(s: Seq<char>)
    requires
        trimmed(s) == s,
        s.len() > 0,
    ensures
        trimmed(s.push(' ')) == s,
{
    let space = trimming_takes_only_white_space(s);
    let more = s.push(' ');
    assert(more[0] == s[0]);
    assert(trimmed_start(more) == more);
    assert(more.last() == ' ');
    assert(white_space(' '));
    assert(more.drop_last() =~= s);
    assert(trimmed_end(more) == trimmed_end(s));
    assert(trimmed_end(s) == s);
}

/// Law: a text contains another exactly where that stands between what comes before and after it.
pub proof fn contained_text_stands_inside(before: Seq<char>, part: Seq<char>, after: Seq<char>)
    ensures
        contains(before + part + after, part),
        contains(part, part),
        part.len() < before.len() ==> !contains(part, before),
{
    let s = before + part + after;
    assert(s.subrange(before.len() as int, before.len() as int + part.len()) =~= part);
    assert(stands_at(s, part, before.len() as int));
    assert(part.subrange(0, part.len() as int) =~= part);
    assert(stands_at(part, part, 0));
}

/// Law: only ASCII letters change their case, to that of the same letter, and capitals written
/// small and large again are the same.
pub proof fn only_letters_change_their_case(s: Seq<char>, i: int)
    requires
        0 <= i < s.len(),
    ensures
        lowered(s).len() == s.len() && raised(s).len() == s.len(),
        'A' <= s[i] <= 'Z' ==> lowered(s)[i] as u32 == s[i] as u32 + 32 && raised(s)[i] == s[i],
        'a' <= s[i] <= 'z' ==> raised(s)[i] as u32 == s[i] as u32 - 32 && lowered(s)[i] == s[i],
        !('A' <= s[i] <= 'Z') && !('a' <= s[i] <= 'z') ==> lowered(s)[i] == s[i] && raised(s)[i]
            == s[i],
        lowered(lowered(s))[i] == lowered(s)[i],
        raised(lowered(s))[i] == raised(s)[i],
{
}

/// Law: a byte is written as two hexadecimal digits, the higher one first, with capitals.
pub proof fn bytes_are_two_digits(bytes: Seq<u8>, i: int)
    requires
        0 <= i < bytes.len(),
    ensures
        hex(bytes).len() == 2 * bytes.len(),
        ({
            let high = hex(bytes)[2 * i] as u32 as int;
            let low = hex(bytes)[2 * i + 1] as u32 as int;
            let h = if high < 58 { high - 48 } else { high - 55 };
            let l = if low < 58 { low - 48 } else { low - 55 };
            &&& bytes[i] == 16 * h + l
            &&& 48 <= high <= 57 || 65 <= high <= 70
            &&& 48 <= low <= 57 || 65 <= low <= 70
        }),
{
    let h = bytes[i] as nat / 16;
    let l = bytes[i] as nat % 16;
    assert(hex(bytes)[2 * i] == hex_digit(h));
    assert(hex(bytes)[2 * i + 1] == hex_digit(l));
    assert(hex_digit(h) as u32 == if h < 10 { 48 + h } else { 55 + h });
    assert(hex_digit(l) as u32 == if l < 10 { 48 + l } else { 55 + l });
}

/// A number below a hundred has two digits, with a zero before it where it needs one.
pub proof fn two_digits_stand_for_their_number(n: nat)
    requires
        n < 100,
    ensures
        zero_padded(decimal_digits(n), 2).len() == 2,
        value_of(zero_padded(decimal_digits(n), 2)) == n,
{
    padding_keeps_the_value(decimal_digits(n), 2);
    digits_have_their_value(n);
    if n < 10 {
        assert(decimal_digits(n).len() == 1);
        assert(zero_padded(decimal_digits(n), 2) == zero_padded(seq!['0'] + decimal_digits(n), 2));
        assert((seq!['0'] + decimal_digits(n)).len() == 2);
    } else {
        assert(decimal_digits(n / 10).len() == 1);
        assert(decimal_digits(n).len() == 2);
    }
}

/// Law: of strings in order none precedes one before it, and dictionary order goes by the first
/// character that differs; a string precedes all that begin with it.
pub proof fn dictionary_order_goes_by_the_first_difference(
    start: Seq<char>,
    a: char,
    b: char,
    rest: Seq<char>,
    other: Seq<char>,
)
    ensures
        precedes(start, start + rest),
        a < b ==> precedes(start.push(a) + rest, start.push(b) + other),
        a < b ==> !precedes(start.push(b) + other, start.push(a) + rest),
    decreases start.len(),
{
    if start.len() > 0 {
        let fewer = start.skip(1);
        dictionary_order_goes_by_the_first_difference(fewer, a, b, rest, other);
        assert((start + rest).skip(1) =~= fewer + rest);
        assert((start.push(a) + rest).skip(1) =~= fewer.push(a) + rest);
        assert((start.push(b) + other).skip(1) =~= fewer.push(b) + other);
        assert((start + rest)[0] == start[0]);
        assert((start.push(a) + rest)[0] == start[0]);
        assert((start.push(b) + other)[0] == start[0]);
    } else {
        assert((start.push(a) + rest)[0] == a);
        assert((start.push(b) + other)[0] == b);
    }
}

/// Law: spaces, tabs, line breaks and the wide space are white space, and no character that is
/// printed from ASCII is.
pub proof fn printed_characters_are_not_white_space(c: char)
    ensures
        white_space(' ') && white_space('\t') && white_space('\n') && white_space('\r')
            && white_space('\u{3000}') && white_space('\u{a0}'),
        '!' <= c <= '~' ==> !white_space(c),
        '\u{4e00}' <= c <= '\u{9fff}' ==> !white_space(c),
        white_space(c) ==> blank(seq![c]),
        !white_space(c) ==> !blank(seq![c]),
{
    if !white_space(c) {
        assert(!white_space(seq![c][0]));
    }
}

/// Law: padding puts zeros before a text until it is wide enough, and changes nothing else.
pub proof fn padding_puts_zeros_before(s: Seq<char>, width: nat)
    ensures
        zero_padded(s, width).len() == if s.len() < width { width } else { s.len() },
        zero_padded(s, width).skip(zero_padded(s, width).len() - s.len()) == s,
        forall|i: int|
            0 <= i < zero_padded(s, width).len() - s.len() ==> #[trigger] zero_padded(s, width)[i]
                == '0',
    decreases width - s.len(),
{
    if s.len() < width {
        let more = seq!['0'] + s;
        padding_puts_zeros_before(more, width);
        let padded = zero_padded(s, width);
        let n = padded.len() - s.len();
        assert(padded.skip(n - 1) == more);
        assert(padded.skip(n) =~= s) by {
            assert forall|i: int| 0 <= i < s.len() implies padded.skip(n)[i] == s[i] by {
                assert(padded.skip(n - 1)[i + 1] == more[i + 1]);
            }
        }
        assert forall|i: int| 0 <= i < n implies #[trigger] padded[i] == '0' by {
            if i == n - 1 {
                assert(padded.skip(n - 1)[0] == more[0]);
            }
        }
    } else {
        assert(s.skip(0) =~= s);
    }
}

} // verus!
