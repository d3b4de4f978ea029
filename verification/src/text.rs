//! Text helpers over the characters of a string.

use vstd::prelude::*;
use vstd::string::*;

verus! {

/// A character with the Unicode `White_Space` property.
pub open spec fn is_space(c: char) -> bool {
    let n = c as u32;
    ||| 0x9 <= n <= 0xd
    ||| n == 0x20
    ||| n == 0x85
    ||| n == 0xa0
    ||| n == 0x1680
    ||| 0x2000 <= n <= 0x200a
    ||| n == 0x2028
    ||| n == 0x2029
    ||| n == 0x202f
    ||| n == 0x205f
    ||| n == 0x3000
}

/// `s` without its leading white space.
pub open spec fn trim_start(s: Seq<char>) -> Seq<char>
    decreases s.len(),
{
    if s.len() > 0 && is_space(s.first()) {
        trim_start(s.drop_first())
    } else {
        s
    }
}

/// `s` without its trailing white space.
pub open spec fn trim_end(s: Seq<char>) -> Seq<char>
    decreases s.len(),
{
    if s.len() > 0 && is_space(s.last()) {
        trim_end(s.drop_last())
    } else {
        s
    }
}

/// `s` without white space at both ends.
pub open spec fn trim(s: Seq<char>) -> Seq<char> {
    trim_end(trim_start(s))
}

/// `c` with an ASCII capital letter made small.
pub open spec fn small(c: char) -> char {
    if 'A' <= c <= 'Z' {
        (c as u32 + 32) as char
    } else {
        c
    }
}

/// `s` with every ASCII capital letter made small.
pub open spec fn lowercase(s: Seq<char>) -> Seq<char> {
    Seq::new(s.len(), |i: int| small(s[i]))
}

/// `part` occurs in `s` from index `i` on.
pub open spec fn occurs_at(s: Seq<char>, part: Seq<char>, i: int) -> bool {
    &&& 0 <= i <= s.len() - part.len()
    &&& s.subrange(i, i + part.len()) == part
}

/// `part` occurs in `s`.
pub open spec fn occurs(s: Seq<char>, part: Seq<char>) -> bool {
    exists|i: int| occurs_at(s, part, i)
}

/// The decimal digit of `n`, which is below ten.
pub open spec fn digit(n: nat) -> char {
    (n + 48) as u32 as char
}

/// `n` in decimal digits, with no leading zero.
pub open spec fn decimal(n: nat) -> Seq<char>
    decreases n,
{
    if n < 10 {
        seq![digit(n)]
    } else {
        decimal(n / 10).push(digit(n % 10))
    }
}

/// `n` in decimal digits, with a minus sign when it is negative.
pub open spec fn signed_decimal(n: int) -> Seq<char> {
    if n < 0 {
        "-"@ + decimal((-n) as nat)
    } else {
        decimal(n as nat)
    }
}

/// Every character of `s` is a decimal digit.
pub open spec fn all_digits(s: Seq<char>) -> bool {
    forall|i: int| 0 <= i < s.len() ==> '0' <= #[trigger] s[i] <= '9'
}

/// The number that the decimal digits of `s` write.
pub open spec fn digits_value(s: Seq<char>) -> nat
    decreases s.len(),
{
    if s.len() == 0 {
        0
    } else {
        digits_value(s.drop_last()) * 10 + (s.last() as nat - 48) as nat
    }
}

/// The `i64` that `s` writes: an optional sign and at least one digit, in range.
pub open spec fn integer_of(s: Seq<char>) -> Option<int> {
    let signed = s.len() > 0 && (s[0] == '-' || s[0] == '+');
    let digits = if signed { s.drop_first() } else { s };
    let value: int = if s.len() > 0 && s[0] == '-' {
        -(digits_value(digits) as int)
    } else {
        digits_value(digits) as int
    };
    if digits.len() > 0 && all_digits(digits) && i64::MIN <= value <= i64::MAX {
        Some(value)
    } else {
        None
    }
}

/// What stands behind the last `mark` of `s`, or all of `s` when it has none.
pub open spec fn after_last(s: Seq<char>, mark: char) -> Seq<char>
    decreases s.len(),
{
    if s.len() == 0 || s.last() == mark {
        Seq::empty()
    } else {
        after_last(s.drop_last(), mark).push(s.last())
    }
}

/// The two texts are equal.
pub fn same_text(a: &str, b: &str) -> (r: bool)
    ensures
        r == (a@ == b@),
{
    a.to_owned() == b.to_owned()
}

/// The characters of `s`.
pub fn chars_of(s: &str) -> (r: Vec<char>)
    ensures
        r@ == s@,
{
    let mut r: Vec<char> = Vec::new();
    for c in it: s.chars()
        invariant
            it.seq() == s@,
            r@ == s@.take(it.index() as int),
    {
        proof {
            assert(s@.take(it.index() + 1) =~= s@.take(it.index() as int).push(s@[it.index() as int]));
        }
        r.push(c);
    }
    assert(s@.take(s@.len() as int) =~= s@);
    r
}

/// True for a character with the Unicode `White_Space` property.
pub fn is_white(c: char) -> (r: bool)
    ensures
        r == is_space(c),
{
    let n: u32 = c as u32;
    (0x9 <= n && n <= 0xd) || n == 0x20 || n == 0x85 || n == 0xa0 || n == 0x1680 || (0x2000 <= n
        && n <= 0x200a) || n == 0x2028 || n == 0x2029 || n == 0x202f || n == 0x205f || n == 0x3000
}

/// `s` without white space at both ends.
pub fn trimmed(s: &str) -> (r: &str)
    ensures
        r@ == trim(s@),
{
    let chars = chars_of(s);
    let mut from: usize = 0;
    assert(s@.skip(0) =~= s@);
    while from < chars.len() && is_white(chars[from])
        invariant
            from <= chars.len(),
            chars@ == s@,
            trim_start(s@) == trim_start(s@.skip(from as int)),
        decreases chars.len() - from,
    {
        proof {
            let rest = s@.skip(from as int);
            assert(rest.first() == s@[from as int]);
            assert(rest.drop_first() =~= s@.skip(from + 1));
        }
        from = from + 1;
    }
    proof {
        let rest = s@.skip(from as int);
        assert(rest.len() > 0 ==> rest.first() == s@[from as int]);
        assert(trim_start(s@) == rest);
        assert(s@.subrange(from as int, s@.len() as int) =~= rest);
    }
    let mut to: usize = chars.len();
    while from < to && is_white(chars[to - 1])
        invariant
            from <= to <= chars.len(),
            chars@ == s@,
            trim(s@) == trim_end(s@.subrange(from as int, to as int)),
        decreases to - from,
    {
        proof {
            let rest = s@.subrange(from as int, to as int);
            assert(rest.last() == s@[to - 1]);
            assert(rest.drop_last() =~= s@.subrange(from as int, to - 1));
        }
        to = to - 1;
    }
    proof {
        let rest = s@.subrange(from as int, to as int);
        assert(rest.len() > 0 ==> rest.last() == s@[to - 1]);
    }
    s.substring_char(from, to)
}

/// True when `s` holds nothing but white space.
pub fn is_blank(s: &str) -> (r: bool)
    ensures
        r == (trim(s@).len() == 0),
{
    trimmed(s).is_empty()
}

/// `c` with an ASCII capital letter made small.
fn small_char(c: char) -> (r: char)
    ensures
        r == small(c),
{
    match c {
        'A' => 'a', 'B' => 'b', 'C' => 'c', 'D' => 'd', 'E' => 'e', 'F' => 'f', 'G' => 'g',
        'H' => 'h', 'I' => 'i', 'J' => 'j', 'K' => 'k', 'L' => 'l', 'M' => 'm', 'N' => 'n',
        'O' => 'o', 'P' => 'p', 'Q' => 'q', 'R' => 'r', 'S' => 's', 'T' => 't', 'U' => 'u',
        'V' => 'v', 'W' => 'w', 'X' => 'x', 'Y' => 'y', 'Z' => 'z',
        _ => c,
    }
}

/// The characters of `s` with every ASCII capital letter made small.
pub fn lowercase_chars(s: &str) -> (r: Vec<char>)
    ensures
        r@ == lowercase(s@),
{
    let chars = chars_of(s);
    let mut r: Vec<char> = Vec::new();
    let mut i: usize = 0;
    while i < chars.len()
        invariant
            i <= chars.len(),
            chars@ == s@,
            r@ == lowercase(s@).take(i as int),
        decreases chars.len() - i,
    {
        r.push(small_char(chars[i]));
        i = i + 1;
        proof {
            assert(r@ =~= lowercase(s@).take(i as int));
        }
    }
    assert(lowercase(s@).take(i as int) =~= lowercase(s@));
    r
}

/// True when `part` stands in `s` from index `at` on.
fn stands_at(s: &Vec<char>, part: &Vec<char>, at: usize) -> (r: bool)
    requires
        at + part.len() <= s.len(),
    ensures
        r == occurs_at(s@, part@, at as int),
{
    let mut i: usize = 0;
    while i < part.len()
        invariant
            i <= part.len(),
            at + part.len() <= s.len(),
            forall|j: int| 0 <= j < i ==> s@[at + j] == part@[j],
        decreases part.len() - i,
    {
        if s[at + i] != part[i] {
            proof {
                assert(s@.subrange(at as int, at + part@.len())[i as int] == s@[at + i]);
            }
            return false;
        }
        i = i + 1;
    }
    assert(s@.subrange(at as int, at + part@.len()) =~= part@);
    true
}

/// True when `part` occurs in `s`.
pub fn chars_contain(s: &Vec<char>, part: &Vec<char>) -> (r: bool)
    ensures
        r == occurs(s@, part@),
{
    if part.len() > s.len() {
        return false;
    }
    let last: usize = s.len() - part.len();
    let mut at: usize = 0;
    while at <= last
        invariant
            at <= last + 1,
            last + part.len() == s.len(),
            s.len() <= usize::MAX,
            forall|i: int| 0 <= i < at ==> !occurs_at(s@, part@, i),
        decreases last + 1 - at,
    {
        if stands_at(s, part, at) {
            return true;
        }
        if at == last {
            assert forall|i: int| !occurs_at(s@, part@, i) by {
                if occurs_at(s@, part@, i) {
                    assert(0 <= i <= last);
                    assert(i < at || i == at);
                }
            }
            return false;
        }
        at = at + 1;
    }
    false
}

/// The digit `n` as a text of one character.
fn digit_text(n: u64) -> (r: &'static str)
    requires
        n < 10,
    ensures
        r@ == seq![digit(n as nat)],
{
    proof {
        reveal_strlit("0");
        reveal_strlit("1");
        reveal_strlit("2");
        reveal_strlit("3");
        reveal_strlit("4");
        reveal_strlit("5");
        reveal_strlit("6");
        reveal_strlit("7");
        reveal_strlit("8");
        reveal_strlit("9");
    }
    let r: &'static str = match n {
        0 => "0",
        1 => "1",
        2 => "2",
        3 => "3",
        4 => "4",
        5 => "5",
        6 => "6",
        7 => "7",
        8 => "8",
        _ => "9",
    };
    assert(r@ =~= seq![digit(n as nat)]);
    r
}

/// `n` in decimal digits.
pub fn decimal_text(n: u64) -> (r: String)
    ensures
        r@ == decimal(n as nat),
    decreases n,
{
    if n < 10 {
        return digit_text(n).to_owned();
    }
    let mut r = decimal_text(n / 10);
    r.append(digit_text(n % 10));
    proof {
        let low = digit((n % 10) as nat);
        assert(decimal((n / 10) as nat) + seq![low] =~= decimal((n / 10) as nat).push(low));
    }
    r
}

/// `n` in decimal digits, with a minus sign when it is negative.
pub fn signed_decimal_text(n: i32) -> (r: String)
    ensures
        r@ == signed_decimal(n as int),
{
    if n < 0 {
        let mut r = "-".to_owned();
        let size: u64 = (-(n as i64)) as u64;
        r.append(decimal_text(size).as_str());
        r
    } else {
        decimal_text(n as u64)
    }
}

/// The digits before `i` never write more than the whole.
proof fn lemma_digits_grow(s: Seq<char>, i: int)
    requires
        0 <= i <= s.len(),
        all_digits(s),
    ensures
        digits_value(s.take(i)) <= digits_value(s),
    decreases s.len() - i,
{
    if i < s.len() {
        lemma_digits_grow(s, i + 1);
        let longer = s.take(i + 1);
        assert(longer.drop_last() =~= s.take(i));
        assert(digits_value(longer) == digits_value(s.take(i)) * 10 + (longer.last() as nat
            - 48) as nat);
    } else {
        assert(s.take(i) =~= s);
    }
}

/// The `i64` that `s` writes, if it writes one.
pub fn parse_integer(s: &str) -> (r: Option<i64>)
    ensures
        integer_of(s@) == (match r {
            Some(n) => Some(n as int),
            None => None,
        }),
{
    let chars = chars_of(s);
    let negative = chars.len() > 0 && chars[0] == '-';
    let signed = negative || (chars.len() > 0 && chars[0] == '+');
    let start: usize = if signed { 1 } else { 0 };
    let ghost digits = if signed { s@.drop_first() } else { s@ };
    if start == chars.len() {
        return None;
    }
    let mut value: i128 = 0;
    let mut i: usize = start;
    proof {
        assert(digits.take(0) =~= Seq::empty());
    }
    while i < chars.len()
        invariant
            start <= i <= chars.len(),
            chars@ == s@,
            start == (if signed { 1int } else { 0int }),
            signed == (s@.len() > 0 && (s@[0] == '-' || s@[0] == '+')),
            negative == (s@.len() > 0 && s@[0] == '-'),
            digits == (if signed { s@.drop_first() } else { s@ }),
            forall|j: int| 0 <= j < i - start ==> '0' <= #[trigger] digits[j] <= '9',
            value == digits_value(digits.take(i - start)),
            0 <= value <= 9_223_372_036_854_775_808,
        decreases chars.len() - i,
    {
        let c = chars[i];
        proof {
            assert(digits[i - start] == c);
        }
        if c < '0' || c > '9' {
            assert(!all_digits(digits));
            return None;
        }
        let ghost before = value;
        value = value * 10 + (c as u32 as i128 - 48);
        i = i + 1;
        proof {
            let now = digits.take(i - start);
            assert(now.drop_last() =~= digits.take(i - start - 1));
            assert(now.last() == c);
            assert(digits_value(now) == digits_value(now.drop_last()) * 10 + (now.last() as nat
                - 48) as nat);
        }
        if value > 9_223_372_036_854_775_808 {
            proof {
                if all_digits(digits) {
                    lemma_digits_grow(digits, i - start);
                }
            }
            return None;
        }
    }
    proof {
        assert(digits.take(i - start) =~= digits);
    }
    if negative {
        let low: i128 = -value;
        Some(low as i64)
    } else if value <= 9_223_372_036_854_775_807 {
        Some(value as i64)
    } else {
        None
    }
}

/// What stands behind the last `mark` of `s`, or all of `s` when it has none.
pub fn tail_after(s: &str, mark: char) -> (r: &str)
    ensures
        r@ == after_last(s@, mark),
{
    let chars = chars_of(s);
    let mut from: usize = chars.len();
    let ghost full = s@.len() as int;
    proof {
        assert(s@.take(full) =~= s@);
        assert(after_last(s@, mark) + s@.skip(full) =~= after_last(s@, mark));
    }
    while from > 0 && chars[from - 1] != mark
        invariant
            from <= chars.len(),
            chars@ == s@,
            full == s@.len(),
            after_last(s@, mark) == after_last(s@.take(from as int), mark) + s@.skip(from as int),
        decreases from,
    {
        proof {
            let part = s@.take(from as int);
            assert(part.last() == s@[from - 1]);
            assert(part.drop_last() =~= s@.take(from - 1));
            let rest = after_last(s@.take(from - 1), mark);
            assert(rest.push(s@[from - 1]) + s@.skip(from as int) =~= rest + s@.skip(from - 1));
        }
        from = from - 1;
    }
    proof {
        let part = s@.take(from as int);
        assert(from > 0 ==> part.last() == s@[from - 1]);
        assert(after_last(part, mark) =~= Seq::empty());
        assert(Seq::empty() + s@.skip(from as int) =~= s@.skip(from as int));
        assert(s@.subrange(from as int, full) =~= s@.skip(from as int));
    }
    s.substring_char(from, chars.len())
}

/// White space goes from both ends only once.
pub proof fn law_trim_twice(s: Seq<char>)
    ensures
        trim(trim(s)) == trim(s),
{
    lemma_trim_start_done(s);
    lemma_trim_end_done(trim_start(s));
    lemma_trim_end_keeps_start(trim_start(s));
}

proof fn lemma_trim_start_done(s: Seq<char>)
    ensures
        ({
            let r = trim_start(s);
            r.len() == 0 || !is_space(r.first())
        }),
    decreases s.len(),
{
    if s.len() > 0 && is_space(s.first()) {
        lemma_trim_start_done(s.drop_first());
    }
}

proof fn lemma_trim_end_done(s: Seq<char>)
    ensures
        ({
            let r = trim_end(s);
            r.len() == 0 || !is_space(r.last())
        }),
    decreases s.len(),
{
    if s.len() > 0 && is_space(s.last()) {
        lemma_trim_end_done(s.drop_last());
    }
}

proof fn lemma_trim_end_keeps_start(s: Seq<char>)
    ensures
        trim_end(s).len() > 0 ==> trim_end(s).first() == s.first(),
        trim_end(s).len() <= s.len(),
    decreases s.len(),
{
    if s.len() > 0 && is_space(s.last()) {
        lemma_trim_end_keeps_start(s.drop_last());
    }
}

/// `part` is `s` from index `lead` on, and only white space stands before it
/// and behind it.
pub open spec fn middle_of(s: Seq<char>, part: Seq<char>, lead: int) -> bool {
    &&& 0 <= lead
    &&& lead + part.len() <= s.len()
    &&& forall|k: int| 0 <= k < part.len() ==> #[trigger] part[k] == s[lead + k]
    &&& forall|k: int| 0 <= k < lead ==> is_space(#[trigger] s[k])
    &&& forall|k: int| lead + part.len() <= k < s.len() ==> is_space(#[trigger] s[k])
}

proof fn lemma_trim_start_is(s: Seq<char>)
    ensures
        trim_start(s).len() <= s.len(),
        trim_start(s) == s.skip(s.len() - trim_start(s).len()),
        forall|k: int| 0 <= k < s.len() - trim_start(s).len() ==> is_space(#[trigger] s[k]),
    decreases s.len(),
{
    if s.len() > 0 && is_space(s.first()) {
        let rest = s.drop_first();
        lemma_trim_start_is(rest);
        let lead = rest.len() - trim_start(rest).len();
        assert(rest.skip(lead) =~= s.skip(lead + 1));
        assert forall|k: int| 0 <= k < s.len() - trim_start(s).len() implies is_space(
            #[trigger] s[k],
        ) by {
            if k > 0 {
                assert(rest[k - 1] == s[k]);
            }
        }
    } else {
        assert(s.skip(0) =~= s);
    }
}

proof fn lemma_trim_end_is(s: Seq<char>)
    ensures
        trim_end(s).len() <= s.len(),
        trim_end(s) == s.take(trim_end(s).len() as int),
        forall|k: int| trim_end(s).len() <= k < s.len() ==> is_space(#[trigger] s[k]),
    decreases s.len(),
{
    if s.len() > 0 && is_space(s.last()) {
        let rest = s.drop_last();
        lemma_trim_end_is(rest);
        let n = trim_end(rest).len() as int;
        assert(rest.take(n) =~= s.take(n));
        assert forall|k: int| n <= k < s.len() implies is_space(#[trigger] s[k]) by {
            if k < rest.len() {
                assert(rest[k] == s[k]);
            }
        }
    } else {
        assert(s.take(s.len() as int) =~= s);
    }
}

/// Trimming drops white space at the two ends and nothing else: what is left is
/// a part of the text, character by character, it neither starts nor ends with
/// white space, and nothing but white space stood around it.
pub proof fn law_trim_drops_only_the_ends(s: Seq<char>)
    ensures
        exists|lead: int| #[trigger] middle_of(s, trim(s), lead),
        trim(s).len() > 0 ==> !is_space(trim(s)[0]) && !is_space(trim(s)[trim(s).len() - 1]),
        (exists|k: int| 0 <= k < s.len() && !is_space(#[trigger] s[k])) ==> trim(s).len() > 0,
{
    let start = trim_start(s);
    let all = trim(s);
    let lead = s.len() - start.len();
    lemma_trim_start_is(s);
    lemma_trim_end_is(start);
    lemma_trim_start_done(s);
    lemma_trim_end_done(start);
    lemma_trim_end_keeps_start(start);
    assert forall|k: int| lead + all.len() <= k < s.len() implies is_space(#[trigger] s[k]) by {
        assert(start[k - lead] == s[k]);
    }
    assert(middle_of(s, all, lead));
}

/// A text that neither starts nor ends with white space stays as it is.
pub proof fn law_trim_keeps_a_bare_text(s: Seq<char>)
    requires
        s.len() > 0,
        !is_space(s[0]),
        !is_space(s[s.len() - 1]),
    ensures
        trim(s) == s,
{
}

/// White space is the space, the tab, the line ends, and the Unicode blanks. No
/// letter, digit, or sign of ASCII is.
pub proof fn law_white_space(c: char)
    ensures
        0x21 <= c as u32 <= 0x7e ==> !is_space(c),
        c == ' ' || c == '\t' || c == '\n' || c == '\r' ==> is_space(c),
        is_space(c) && c as u32 > 0x7f ==> (c as u32 == 0x85 || c as u32 == 0xa0 || c as u32
            >= 0x1680),
        is_space(c) ==> c as u32 <= 0x3000,
        0x2000 <= c as u32 <= 0x200a ==> is_space(c),
{
}

/// A lower-case text has the same length and no ASCII capital letter. Each
/// capital letter became its small one, and every other character stays.
pub proof fn law_lowercase_changes_capitals_only(s: Seq<char>, i: int)
    requires
        0 <= i < s.len(),
    ensures
        lowercase(s).len() == s.len(),
        !('A' <= lowercase(s)[i] <= 'Z'),
        !('A' <= s[i] <= 'Z') ==> lowercase(s)[i] == s[i],
        'A' <= s[i] <= 'Z' ==> lowercase(s)[i] as u32 - 'a' as u32 == s[i] as u32 - 'A' as u32,
        lowercase(lowercase(s)) == lowercase(s),
{
    assert forall|k: int| 0 <= k < s.len() implies #[trigger] lowercase(lowercase(s))[k]
        == lowercase(s)[k] by {}
    assert(lowercase(lowercase(s)) =~= lowercase(s));
}

/// A part occurs in every text that is written with it.
pub proof fn law_part_occurs(front: Seq<char>, part: Seq<char>, back: Seq<char>)
    ensures
        occurs(front + part + back, part),
{
    let s = front + part + back;
    assert(s.subrange(front.len() as int, (front.len() + part.len()) as int) =~= part);
    assert(occurs_at(s, part, front.len() as int));
}

/// The characters of `part` stand in `s` from index `i` on.
pub open spec fn is_part_at(s: Seq<char>, part: Seq<char>, i: int) -> bool {
    &&& 0 <= i <= s.len() - part.len()
    &&& forall|k: int| 0 <= k < part.len() ==> #[trigger] part[k] == s[i + k]
}

/// A part occurs exactly where it stands character by character.
pub proof fn law_part_occurs_where_it_stands(s: Seq<char>, part: Seq<char>)
    ensures
        occurs(s, part) == exists|i: int| #[trigger] is_part_at(s, part, i),
{
    if occurs(s, part) {
        let i = choose|i: int| occurs_at(s, part, i);
        assert forall|k: int| 0 <= k < part.len() implies #[trigger] part[k] == s[i + k] by {
            assert(s.subrange(i, i + part.len())[k] == part[k]);
        }
        assert(is_part_at(s, part, i));
    }
    if exists|i: int| #[trigger] is_part_at(s, part, i) {
        let i = choose|i: int| #[trigger] is_part_at(s, part, i);
        assert(s.subrange(i, i + part.len()) =~= part);
        assert(occurs_at(s, part, i));
    }
}

/// A number in decimal digits reads back as that number. It has no leading
/// zero.
pub proof fn law_decimal_reads_back(n: nat)
    ensures
        digits_value(decimal(n)) == n,
        all_digits(decimal(n)),
        decimal(n).len() > 0,
        decimal(n).len() > 1 ==> decimal(n)[0] != '0',
        n > 0 ==> decimal(n)[0] != '0',
    decreases n,
{
    if n < 10 {
        let one = seq![digit(n)];
        assert(one.drop_last() =~= Seq::empty());
        assert(digits_value(Seq::<char>::empty()) == 0);
        assert(one.last() as nat - 48 == n);
    } else {
        law_decimal_reads_back(n / 10);
        let front = decimal(n / 10);
        let d = digit(n % 10);
        assert(front.push(d).drop_last() =~= front);
        assert(d as nat - 48 == n % 10);
        assert(n == (n / 10) * 10 + n % 10);
    }
}

/// Digits count from the right: one more digit makes ten times the number, and
/// adds its own value.
pub proof fn law_digits_count_by_ten(s: Seq<char>, d: char)
    requires
        '0' <= d <= '9',
    ensures
        digits_value(s.push(d)) == 10 * digits_value(s) + (d as int - '0' as int),
{
    assert(s.push(d).drop_last() =~= s);
}

/// Every whole number of 64 bits reads back from its decimal text.
pub proof fn law_integer_reads_back(n: int)
    requires
        i64::MIN <= n <= i64::MAX,
    ensures
        integer_of(signed_decimal(n)) == Some(n),
{
    reveal_strlit("-");
    if n < 0 {
        let digits = decimal((-n) as nat);
        law_decimal_reads_back((-n) as nat);
        let s = "-"@ + digits;
        assert(s[0] == '-');
        assert(s.drop_first() =~= digits);
    } else {
        let digits = decimal(n as nat);
        law_decimal_reads_back(n as nat);
        assert('0' <= digits[0] <= '9');
    }
}

/// What stands behind the last mark holds no mark, and it ends the text. Before
/// it stands the mark, or nothing.
pub proof fn law_after_last_ends_the_text(s: Seq<char>, mark: char)
    ensures
        ({
            let end = after_last(s, mark);
            let cut = s.len() - end.len();
            &&& 0 <= cut
            &&& s.skip(cut) == end
            &&& forall|k: int| 0 <= k < end.len() ==> #[trigger] end[k] != mark
            &&& cut > 0 ==> s[cut - 1] == mark
        }),
    decreases s.len(),
{
    if s.len() > 0 && s.last() != mark {
        let rest = s.drop_last();
        law_after_last_ends_the_text(rest, mark);
        let end = after_last(rest, mark);
        let cut = rest.len() - end.len();
        assert(s.skip(cut) =~= rest.skip(cut).push(s.last()));
        if cut > 0 {
            assert(rest[cut - 1] == s[cut - 1]);
        }
    } else {
        assert(s.skip(s.len() as int) =~= Seq::<char>::empty());
    }
}

/// A text without the mark, behind a mark, is what stands behind the last one.
pub proof fn law_after_last_is_the_tail(front: Seq<char>, mark: char, end: Seq<char>)
    requires
        forall|k: int| 0 <= k < end.len() ==> #[trigger] end[k] != mark,
    ensures
        after_last(front.push(mark) + end, mark) == end,
        after_last(end, mark) == end,
    decreases end.len(),
{
    let s = front.push(mark) + end;
    if end.len() == 0 {
        assert(s.last() == mark);
        assert(end =~= Seq::<char>::empty());
    } else {
        let less = end.drop_last();
        assert forall|k: int| 0 <= k < less.len() implies #[trigger] less[k] != mark by {
            assert(end[k] != mark);
        }
        law_after_last_is_the_tail(front, mark, less);
        assert(s.drop_last() =~= front.push(mark) + less);
        assert(end[end.len() - 1] != mark);
        assert(s.last() == end.last());
        assert(less.push(end.last()) =~= end);
    }
}

/// A text as std's `Debug` writes it: in double quotes, with what std escapes.
pub uninterp spec fn quoted(text: Seq<char>) -> Seq<char>;

/// Calls the `Debug` of `str` through `format!`. The contract says only that
/// the result depends on the text alone: which characters std escapes, and how,
/// is not stated.
#[verifier::external_body]
pub(crate) fn quoted_text(text: &str) -> (r: String)
    ensures
        r@ == quoted(text@),
{
    format!("{text:?}")
}

} // verus!
