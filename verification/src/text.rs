//! Text primitives shared by the engine: comparison, concatenation and
//! decimal rendering, each with a contract over sequences of characters.
use vstd::prelude::*;

verus! {

/// `String::push` appends exactly one character.
///
/// Trusted: the standard library documents that the given `char` is appended
/// to the end of the string.
pub assume_specification[ std::string::String::push ](s: &mut std::string::String, c: char)
    ensures
        final(s)@ == old(s)@.push(c),
;

/// The characters of a string slice, in order.
pub fn chars_of(s: &str) -> (r: Vec<char>)
    ensures
        r@ == s@,
{
    let mut out: Vec<char> = Vec::new();
    for c in it: s.chars()
        invariant
            it.seq() == s@,
            out@ == it.seq().take(it.index() as int),
    {
        proof {
            it.seq().lemma_take_succ_push(it.index() as int);
        }
        out.push(c);
    }
    out
}

/// Whether two string slices hold the same characters.
pub fn same_text(a: &str, b: &str) -> (r: bool)
    ensures
        r == (a@ == b@),
{
    let x = chars_of(a);
    let y = chars_of(b);
    if x.len() != y.len() {
        return false;
    }
    let mut i: usize = 0;
    while i < x.len()
        invariant
            i <= x.len(),
            x.len() == y.len(),
            x@ == a@,
            y@ == b@,
            forall|j: int| 0 <= j < i ==> x@[j] == y@[j],
        decreases x.len() - i,
    {
        if x[i] != y[i] {
            return false;
        }
        i += 1;
    }
    proof {
        assert(x@ =~= y@);
    }
    true
}

/// The decimal digit for `d` in `0..10`.
pub open spec fn digit(d: int) -> char {
    if d == 0 {
        '0'
    } else if d == 1 {
        '1'
    } else if d == 2 {
        '2'
    } else if d == 3 {
        '3'
    } else if d == 4 {
        '4'
    } else if d == 5 {
        '5'
    } else if d == 6 {
        '6'
    } else if d == 7 {
        '7'
    } else if d == 8 {
        '8'
    } else {
        '9'
    }
}

/// Decimal digits of a natural number, most significant first, without
/// leading zeros.
pub open spec fn decimal_nat(n: nat) -> Seq<char>
    decreases n,
{
    if n < 10 {
        seq![digit(n as int)]
    } else {
        decimal_nat(n / 10).push(digit((n % 10) as int))
    }
}

/// Decimal rendering of an integer: a minus sign for negatives, then the
/// digits of the magnitude.
pub open spec fn decimal(n: int) -> Seq<char> {
    if n < 0 {
        seq!['-'] + decimal_nat((-n) as nat)
    } else {
        decimal_nat(n as nat)
    }
}

/// The decimal digit for `d` in `0..10`.
fn digit_char(d: u8) -> (c: char)
    requires
        d < 10,
    ensures
        c == digit(d as int),
{
    if d == 0 {
        '0'
    } else if d == 1 {
        '1'
    } else if d == 2 {
        '2'
    } else if d == 3 {
        '3'
    } else if d == 4 {
        '4'
    } else if d == 5 {
        '5'
    } else if d == 6 {
        '6'
    } else if d == 7 {
        '7'
    } else if d == 8 {
        '8'
    } else {
        '9'
    }
}

/// Appends the decimal digits of `n` to `out`.
fn push_decimal(out: &mut String, n: u128)
    ensures
        final(out)@ == old(out)@ + decimal_nat(n as nat),
    decreases n,
{
    if n >= 10 {
        push_decimal(out, n / 10);
    }
    out.push(digit_char((n % 10) as u8));
    proof {
        if n >= 10 {
            assert(out@ =~= old(out)@ + decimal_nat((n / 10) as nat).push(digit((n % 10) as int)));
        } else {
            assert(out@ =~= old(out)@ + seq![digit(n as int)]);
        }
    }
}

/// Renders an integer in decimal.
pub fn decimal_string(n: i128) -> (r: String)
    ensures
        r@ == decimal(n as int),
{
    let mut out = String::new();
    if n < 0 {
        out.push('-');
        let magnitude: u128 = (-(n + 1)) as u128 + 1;
        push_decimal(&mut out, magnitude);
        proof {
            assert(out@ =~= seq!['-'] + decimal_nat((-n) as nat));
        }
    } else {
        push_decimal(&mut out, n as u128);
        proof {
            assert(out@ =~= decimal_nat(n as nat));
        }
    }
    out
}

/// Renders a count in decimal.
pub fn decimal_count(n: usize) -> (r: String)
    ensures
        r@ == decimal(n as int),
{
    decimal_string(n as i128)
}

/// An owned copy of a string slice.
pub fn owned(s: &str) -> (r: String)
    ensures
        r@ == s@,
{
    String::from_str(s)
}

/// The concatenation of two string slices.
pub fn join2(a: &str, b: &str) -> (r: String)
    ensures
        r@ == a@ + b@,
{
    let mut out = String::from_str(a);
    out.append(b);
    out
}

/// The concatenation of three string slices.
pub fn join3(a: &str, b: &str, c: &str) -> (r: String)
    ensures
        r@ == a@ + b@ + c@,
{
    let mut out = String::from_str(a);
    out.append(b);
    out.append(c);
    out
}

/// Builds a string from a vector of characters.
pub fn from_chars(v: &Vec<char>) -> (r: String)
    ensures
        r@ == v@,
{
    let mut out = String::new();
    let mut i: usize = 0;
    while i < v.len()
        invariant
            i <= v.len(),
            out@ == v@.take(i as int),
        decreases v.len() - i,
    {
        out.push(v[i]);
        proof {
            v@.lemma_take_succ_push(i as int);
        }
        i += 1;
    }
    proof {
        v@.lemma_take_len();
    }
    out
}

/// The views of a sequence of values, element by element.
pub open spec fn views<T: View>(s: Seq<T>) -> Seq<T::V> {
    s.map_values(|t: T| t@)
}

/// The sequence with every occurrence of `id` taken out.
pub open spec fn without(s: Seq<Seq<char>>, id: Seq<char>) -> Seq<Seq<char>>
    decreases s.len(),
{
    if s.len() == 0 {
        s
    } else if s.last() == id {
        without(s.drop_last(), id)
    } else {
        without(s.drop_last(), id).push(s.last())
    }
}

/// What taking `id` out of a list leaves: nothing equal to `id`, nothing that
/// was not there, and everything else that was.
pub proof fn lemma_without(s: Seq<Seq<char>>, id: Seq<char>)
    ensures
        !without(s, id).contains(id),
        without(s, id).len() <= s.len(),
        forall|k: int| 0 <= k < without(s, id).len() ==> s.contains(#[trigger] without(s, id)[k]),
        forall|j: int|
            0 <= j < s.len() && s[j] != id ==> without(s, id).contains(#[trigger] s[j]),
    decreases s.len(),
{
    if s.len() > 0 {
        let head = s.drop_last();
        let out = without(s, id);
        lemma_without(head, id);
        assert forall|k: int| 0 <= k < out.len() implies s.contains(#[trigger] out[k]) by {
            if k < without(head, id).len() {
                assert(head.contains(without(head, id)[k]));
                let j = choose|j: int| 0 <= j < head.len() && head[j] == without(head, id)[k];
                assert(s[j] == out[k]);
            } else {
                assert(s[s.len() - 1] == out[k]);
            }
        }
        assert forall|j: int| 0 <= j < s.len() && s[j] != id implies out.contains(
            #[trigger] s[j],
        ) by {
            if j < head.len() {
                assert(head[j] == s[j]);
                assert(without(head, id).contains(head[j]));
                let k = choose|k: int|
                    0 <= k < without(head, id).len() && without(head, id)[k] == head[j];
                assert(out[k] == s[j]);
            } else {
                assert(out[out.len() - 1] == s[j]);
            }
        }
        if out.contains(id) {
            let k = choose|k: int| 0 <= k < out.len() && out[k] == id;
            if k < without(head, id).len() {
                assert(without(head, id)[k] == id);
                assert(without(head, id).contains(id));
            }
        }
    }
}

/// Copies a list of strings.
pub fn clone_strings(v: &Vec<String>) -> (r: Vec<String>)
    ensures
        views(r@) == views(v@),
{
    let mut out: Vec<String> = Vec::new();
    let mut i: usize = 0;
    while i < v.len()
        invariant
            i <= v.len(),
            views(out@) == views(v@.take(i as int)),
        decreases v.len() - i,
    {
        out.push(v[i].clone());
        proof {
            v@.lemma_take_succ_push(i as int);
            assert(views(v@.take(i + 1)) =~= views(v@.take(i as int)).push(v@[i as int]@));
            assert(views(out@) =~= views(v@.take(i as int)).push(v@[i as int]@));
        }
        i += 1;
    }
    proof {
        v@.lemma_take_len();
    }
    out
}

/// Whether `v` holds a string equal to `s`.
pub fn contains_text(v: &Vec<String>, s: &str) -> (r: bool)
    ensures
        r == views(v@).contains(s@),
{
    let mut i: usize = 0;
    while i < v.len()
        invariant
            i <= v.len(),
            forall|j: int| 0 <= j < i ==> views(v@)[j] != s@,
        decreases v.len() - i,
    {
        if same_text(v[i].as_str(), s) {
            assert(views(v@)[i as int] == s@);
            return true;
        }
        i += 1;
    }
    false
}

/// Removes from `v` every string equal to `s`, keeping the others in order.
pub fn remove_text(v: &mut Vec<String>, s: &str)
    ensures
        views(final(v)@) == without(views(old(v)@), s@),
{
    let mut out: Vec<String> = Vec::new();
    let mut i: usize = 0;
    proof {
        assert(views(v@.take(0)) =~= Seq::<Seq<char>>::empty());
    }
    while i < v.len()
        invariant
            i <= v.len(),
            views(out@) == without(views(v@.take(i as int)), s@),
        decreases v.len() - i,
    {
        proof {
            v@.lemma_take_succ_push(i as int);
            let before = views(v@.take(i as int));
            assert(views(v@.take(i + 1)) =~= before.push(v@[i as int]@));
            assert(before.push(v@[i as int]@).drop_last() =~= before);
        }
        if !same_text(v[i].as_str(), s) {
            out.push(v[i].clone());
            proof {
                assert(views(out@) =~= without(views(v@.take(i as int)), s@).push(v@[i as int]@));
            }
        }
        i += 1;
    }
    proof {
        v@.lemma_take_len();
    }
    *v = out;
}

/// The texts of a list in one line, `sep` between neighbours.
pub open spec fn joined(list: Seq<Seq<char>>, sep: Seq<char>) -> Seq<char>
    decreases list.len(),
{
    if list.len() == 0 {
        Seq::empty()
    } else if list.len() == 1 {
        list[0]
    } else {
        joined(list.drop_last(), sep) + sep + list.last()
    }
}

/// Writes the texts of a list in one line, `sep` between neighbours.
pub fn join_list(list: &Vec<String>, sep: &str) -> (r: String)
    ensures
        r@ == joined(views(list@), sep@),
{
    let mut out = String::new();
    let mut i: usize = 0;
    proof {
        assert(views(list@).take(0) =~= Seq::<Seq<char>>::empty());
    }
    while i < list.len()
        invariant
            i <= list.len(),
            out@ == joined(views(list@).take(i as int), sep@),
        decreases list.len() - i,
    {
        proof {
            let all = views(list@);
            all.lemma_take_succ_push(i as int);
            assert(all.take(i + 1).drop_last() =~= all.take(i as int));
            assert(all.take(i + 1).last() == list@[i as int]@);
            if i == 0 {
                assert(all.take(1)[0] == list@[0]@);
                assert(Seq::<char>::empty() + list@[0]@ =~= list@[0]@);
            }
        }
        if i > 0 {
            out.append(sep);
        }
        out.append(list[i].as_str());
        i += 1;
    }
    proof {
        assert(views(list@).take(i as int) =~= views(list@));
    }
    out
}

// ---------------------------------------------------------------------------
// White space
// ---------------------------------------------------------------------------
/// Whether a character is white space.
pub open spec fn is_space(c: char) -> bool {
    let n = c as int;
    (0x09 <= n <= 0x0D) || n == 0x20 || n == 0x85 || n == 0xA0 || n == 0x1680 || (0x2000 <= n
        <= 0x200A) || n == 0x2028 || n == 0x2029 || n == 0x202F || n == 0x205F || n == 0x3000
}

/// The code point of a character.
pub fn code_point(c: char) -> (n: u32)
    ensures
        n as int == c as int,
{
    c as u32
}

/// Whether a character is white space.
pub fn char_is_space(c: char) -> (r: bool)
    ensures
        r == is_space(c),
{
    let n = code_point(c);
    (0x09 <= n && n <= 0x0D) || n == 0x20 || n == 0x85 || n == 0xA0 || n == 0x1680 || (0x2000 <= n
        && n <= 0x200A) || n == 0x2028 || n == 0x2029 || n == 0x202F || n == 0x205F || n == 0x3000
}

/// A text without the white space at its start.
pub open spec fn trim_start(s: Seq<char>) -> Seq<char>
    decreases s.len(),
{
    if s.len() > 0 && is_space(s[0]) {
        trim_start(s.drop_first())
    } else {
        s
    }
}

/// A text without the white space at its end.
pub open spec fn trim_end(s: Seq<char>) -> Seq<char>
    decreases s.len(),
{
    if s.len() > 0 && is_space(s.last()) {
        trim_end(s.drop_last())
    } else {
        s
    }
}

/// A text without the white space at its start and at its end.
pub open spec fn trimmed(s: Seq<char>) -> Seq<char> {
    trim_end(trim_start(s))
}

/// The characters from `from` up to, not including, `to`.
pub fn slice_chars(chars: &Vec<char>, from: usize, to: usize) -> (r: Vec<char>)
    requires
        from <= to <= chars.len(),
    ensures
        r@ == chars@.subrange(from as int, to as int),
{
    let mut out: Vec<char> = Vec::new();
    let mut i: usize = from;
    while i < to
        invariant
            from <= i <= to <= chars.len(),
            out@ == chars@.subrange(from as int, i as int),
        decreases to - i,
    {
        out.push(chars[i]);
        proof {
            assert(out@ =~= chars@.subrange(from as int, i + 1));
        }
        i += 1;
    }
    out
}

/// Takes the white space off both ends of a list of characters.
pub fn trim_chars(chars: &Vec<char>) -> (r: Vec<char>)
    ensures
        r@ == trimmed(chars@),
{
    let mut a: usize = 0;
    proof {
        assert(chars@.skip(0) =~= chars@);
    }
    while a < chars.len() && char_is_space(chars[a])
        invariant
            a <= chars.len(),
            trim_start(chars@) == trim_start(chars@.skip(a as int)),
        decreases chars.len() - a,
    {
        proof {
            assert(chars@.skip(a as int).drop_first() =~= chars@.skip(a + 1));
        }
        a += 1;
    }
    let ghost rest = chars@.skip(a as int);
    proof {
        assert(trim_start(chars@) == rest) by {
            if a < chars.len() {
                assert(rest[0] == chars@[a as int]);
            }
        }
        assert(rest =~= chars@.subrange(a as int, chars@.len() as int));
    }
    let mut b: usize = chars.len();
    while b > a && char_is_space(chars[b - 1])
        invariant
            a <= b <= chars.len(),
            rest == chars@.skip(a as int),
            trim_end(rest) == trim_end(chars@.subrange(a as int, b as int)),
        decreases b,
    {
        proof {
            let cur = chars@.subrange(a as int, b as int);
            assert(cur.last() == chars@[b - 1]);
            assert(cur.drop_last() =~= chars@.subrange(a as int, b - 1));
        }
        b -= 1;
    }
    proof {
        let cur = chars@.subrange(a as int, b as int);
        if b > a {
            assert(cur.last() == chars@[b - 1]);
        }
        assert(trim_end(cur) == cur);
    }
    slice_chars(chars, a, b)
}

/// The text without the white space at its start and at its end.
pub fn trim_text(s: &str) -> (r: String)
    ensures
        r@ == trimmed(s@),
{
    let chars = chars_of(s);
    let cut = trim_chars(&chars);
    from_chars(&cut)
}

// ---------------------------------------------------------------------------
// Case and numbers
// ---------------------------------------------------------------------------
/// A text in lower case: what `str::to_lowercase` makes of it.
pub uninterp spec fn lowercased(s: Seq<char>) -> Seq<char>;

/// A text in lower case.
///
/// Trusted: wraps `str::to_lowercase`, whose result depends on the text
/// alone. The contract gives that result its name.
#[verifier::external_body]
pub(crate) fn lowercase(s: &str) -> (r: String)
    ensures
        r@ == lowercased(s@),
{
    s.to_lowercase()
}

/// A text as the standard debug form shows it: in double quotes, with
/// quotes, backslashes and what does not print escaped. What `{:?}` makes of
/// a `str`.
pub uninterp spec fn debug_quoted(s: Seq<char>) -> Seq<char>;

/// A text in its debug form.
///
/// Trusted: wraps the standard `Debug` formatting of `str`, whose result
/// depends on the text alone. The contract gives that result its name.
#[verifier::external_body]
pub(crate) fn quoted(s: &str) -> (r: String)
    ensures
        r@ == debug_quoted(s@),
{
    format!("{:?}", s)
}

/// The value of a decimal digit.
pub open spec fn digit_value(c: char) -> Option<nat> {
    if 48 <= c as int <= 57 {
        Some((c as int - 48) as nat)
    } else {
        None
    }
}

/// The value of a text that is made of decimal digits only; the empty text
/// counts as zero.
pub open spec fn digits_value(s: Seq<char>) -> Option<nat>
    decreases s.len(),
{
    if s.len() == 0 {
        Some(0)
    } else {
        match (digits_value(s.drop_last()), digit_value(s.last())) {
            (Some(v), Some(d)) => Some(v * 10 + d),
            _ => None,
        }
    }
}

/// The number that a text writes: decimal digits, at least one, after an
/// optional plus sign, and within the range of `usize`.
pub open spec fn parsed_usize(s: Seq<char>) -> Option<usize> {
    let body = if s.len() > 0 && s[0] == '+' {
        s.drop_first()
    } else {
        s
    };
    if body.len() == 0 {
        None
    } else {
        match digits_value(body) {
            Some(v) => if v <= usize::MAX {
                Some(v as usize)
            } else {
                None
            },
            None => None,
        }
    }
}

/// The value of a text of digits is at least that of each of its beginnings,
/// and a text has a value only if each of its beginnings has one.
proof fn lemma_digits_prefix(s: Seq<char>, n: int)
    requires
        0 <= n <= s.len(),
    ensures
        digits_value(s) is Some ==> digits_value(s.take(n)) is Some && digits_value(s.take(n))->0
            <= digits_value(s)->0,
    decreases s.len(),
{
    if n == s.len() {
        assert(s.take(n) =~= s);
    } else {
        lemma_digits_prefix(s.drop_last(), n);
        assert(s.drop_last().take(n) =~= s.take(n));
    }
}

/// Reads the value of the digits from index `start` on, where there are only
/// digits and the value fits.
pub fn parse_digits(chars: &Vec<char>, start: usize) -> (r: Option<usize>)
    requires
        start <= chars.len(),
    ensures
        r == (match digits_value(chars@.skip(start as int)) {
            Some(v) => if v <= usize::MAX {
                Some(v as usize)
            } else {
                None
            },
            None => None,
        }),
{
    let ghost body = chars@.skip(start as int);
    let mut value: usize = 0;
    let mut i: usize = start;
    proof {
        assert(body.take(0) =~= Seq::<char>::empty());
    }
    while i < chars.len()
        invariant
            start <= i <= chars.len(),
            body == chars@.skip(start as int),
            digits_value(body.take(i - start)) == Some(value as nat),
        decreases chars.len() - i,
    {
        let c: char = chars[i];
        let n = code_point(c);
        proof {
            lemma_digits_prefix(body, i - start + 1);
            assert(body.take(i - start + 1).drop_last() =~= body.take(i - start));
            assert(body.take(i - start + 1).last() == chars@[i as int]);
        }
        if n < 48 || n > 57 {
            return None;
        }
        let d: usize = (n - 48) as usize;
        proof {
            assert(digit_value(chars@[i as int]) == Some(d as nat));
            assert(digits_value(body.take(i - start + 1)) == Some((value * 10 + d) as nat));
        }
        let next = match value.checked_mul(10) {
            Some(tens) => tens.checked_add(d),
            None => None,
        };
        match next {
            Some(v) => {
                assert(v == value * 10 + d);
                value = v;
            },
            None => {
                return None;
            },
        }
        i += 1;
    }
    proof {
        assert(body.take(i - start) =~= body);
    }
    Some(value)
}

/// Reads the number that a list of characters writes.
pub fn parse_usize_chars(chars: &Vec<char>) -> (r: Option<usize>)
    ensures
        r == parsed_usize(chars@),
{
    let start: usize = if chars.len() > 0 && chars[0] == '+' {
        1
    } else {
        0
    };
    proof {
        if start == 1 {
            assert(chars@.drop_first() =~= chars@.skip(1));
        } else {
            assert(chars@ =~= chars@.skip(0));
        }
    }
    if start == chars.len() {
        return None;
    }
    parse_digits(chars, start)
}

/// The number that a text writes: decimal digits, at least one, after an
/// optional sign, and within the range of `i32`.
pub open spec fn parsed_i32(s: Seq<char>) -> Option<i32> {
    if s.len() > 0 && s[0] == '-' {
        match digits_value(s.drop_first()) {
            Some(v) => if s.len() > 1 && v <= 0x8000_0000 {
                Some((-v) as i32)
            } else {
                None
            },
            None => None,
        }
    } else {
        let body = if s.len() > 0 && s[0] == '+' {
            s.drop_first()
        } else {
            s
        };
        match digits_value(body) {
            Some(v) => if body.len() > 0 && v <= 0x7fff_ffff {
                Some(v as i32)
            } else {
                None
            },
            None => None,
        }
    }
}

/// Reads the number that a list of characters writes.
pub fn parse_i32_chars(chars: &Vec<char>) -> (r: Option<i32>)
    ensures
        r == parsed_i32(chars@),
{
    let negative = chars.len() > 0 && chars[0] == '-';
    let start: usize = if chars.len() > 0 && (chars[0] == '-' || chars[0] == '+') {
        1
    } else {
        0
    };
    proof {
        if start == 1 {
            assert(chars@.drop_first() =~= chars@.skip(1));
        } else {
            assert(chars@ =~= chars@.skip(0));
        }
    }
    if start == chars.len() {
        proof {
            assert(chars@.skip(start as int).len() == 0);
        }
        return None;
    }
    match parse_digits(chars, start) {
        Some(v) => {
            if negative {
                if v <= 0x8000_0000 {
                    let m: i64 = v as i64;
                    Some((0 - m) as i32)
                } else {
                    None
                }
            } else if v <= 0x7fff_ffff {
                Some(v as i32)
            } else {
                None
            }
        },
        None => None,
    }
}

/// The digits of a number are digits, and their value is the number.
pub proof fn lemma_decimal_nat(n: nat)
    ensures
        decimal_nat(n).len() >= 1,
        digits_value(decimal_nat(n)) == Some(n),
        forall|i: int| 0 <= i < decimal_nat(n).len() ==> digit_value(#[trigger] decimal_nat(n)[i]) is Some,
    decreases n,
{
    if n >= 10 {
        lemma_decimal_nat(n / 10);
        let head = decimal_nat(n / 10);
        let all = head.push(digit((n % 10) as int));
        assert(all.drop_last() =~= head);
        assert(all.last() == digit((n % 10) as int));
        assert(digit_value(digit((n % 10) as int)) == Some(n % 10));
        assert(digits_value(all) == Some((n / 10) * 10 + n % 10));
        assert forall|i: int| 0 <= i < all.len() implies digit_value(#[trigger] all[i]) is Some by {
            if i < head.len() {
                assert(all[i] == head[i]);
            }
        }
    } else {
        let all = seq![digit(n as int)];
        assert(all.drop_last() =~= Seq::<char>::empty());
        assert(all.last() == digit(n as int));
        assert(digits_value(all.drop_last()) == Some(0nat));
        assert(digit_value(digit(n as int)) == Some(n));
        assert(digits_value(all) == Some(n));
    }
}

/// What is written of a number in `i32` is read back as that number.
pub proof fn lemma_decimal_round_trip(n: i32)
    ensures
        parsed_i32(decimal(n as int)) == Some(n),
        forall|i: int| 0 <= i < decimal(n as int).len() ==> (#[trigger] decimal(n as int)[i]) != ',',
{
    let text = decimal(n as int);
    if n < 0 {
        let m = (-n) as nat;
        lemma_decimal_nat(m);
        assert(text.drop_first() =~= decimal_nat(m));
        assert forall|i: int| 0 <= i < text.len() implies (#[trigger] text[i]) != ',' by {
            if i > 0 {
                assert(text[i] == decimal_nat(m)[i - 1]);
                assert(digit_value(decimal_nat(m)[i - 1]) is Some);
            }
        }
    } else {
        lemma_decimal_nat(n as nat);
        assert(digit_value(text[0]) is Some);
        assert forall|i: int| 0 <= i < text.len() implies (#[trigger] text[i]) != ',' by {
            assert(digit_value(text[i]) is Some);
        }
    }
}

// ---------------------------------------------------------------------------
// Bounded logs
// ---------------------------------------------------------------------------
/// How many entries a log keeps.
pub const LOG_CAPACITY: usize = 100;

/// A log after one more entry: the oldest entry makes room where the log
/// would grow past its capacity.
pub open spec fn logged_entry(log: Seq<Seq<char>>, entry: Seq<char>) -> Seq<Seq<char>> {
    if log.len() + 1 > LOG_CAPACITY {
        log.push(entry).drop_first()
    } else {
        log.push(entry)
    }
}

/// Adds an entry to a bounded log.
pub fn push_bounded(log: &mut Vec<String>, entry: String)
    ensures
        views(final(log)@) == logged_entry(views(old(log)@), entry@),
{
    log.push(entry);
    proof {
        assert(views(log@) =~= views(old(log)@).push(entry@));
    }
    if log.len() > LOG_CAPACITY {
        let ghost before = views(log@);
        log.remove(0);
        proof {
            assert(views(log@) =~= before.drop_first());
        }
    }
}

// ---------------------------------------------------------------------------
// Lengths and parts
// ---------------------------------------------------------------------------
/// The number of bytes that a character takes in UTF-8.
pub open spec fn char_bytes(c: char) -> nat {
    if (c as int) < 0x80 {
        1
    } else if (c as int) < 0x800 {
        2
    } else if (c as int) < 0x10000 {
        3
    } else {
        4
    }
}

/// The number of bytes that a text takes in UTF-8.
pub open spec fn utf8_len(s: Seq<char>) -> nat
    decreases s.len(),
{
    if s.len() == 0 {
        0
    } else {
        utf8_len(s.drop_last()) + char_bytes(s.last())
    }
}

proof fn lemma_utf8_len_prefix(s: Seq<char>, n: int)
    requires
        0 <= n <= s.len(),
    ensures
        utf8_len(s.take(n)) <= utf8_len(s),
    decreases s.len(),
{
    if n == s.len() {
        assert(s.take(n) =~= s);
    } else {
        lemma_utf8_len_prefix(s.drop_last(), n);
        assert(s.drop_last().take(n) =~= s.take(n));
    }
}

/// The number of bytes that a text takes in UTF-8.
pub fn byte_length(chars: &Vec<char>) -> (r: u128)
    ensures
        r == utf8_len(chars@),
        r <= 4 * chars@.len(),
{
    let mut total: u128 = 0;
    let mut i: usize = 0;
    proof {
        assert(chars@.take(0) =~= Seq::<char>::empty());
    }
    while i < chars.len()
        invariant
            i <= chars.len(),
            total == utf8_len(chars@.take(i as int)),
            total <= 4 * i,
        decreases chars.len() - i,
    {
        let n = code_point(chars[i]);
        let width: u128 = if n < 0x80 {
            1
        } else if n < 0x800 {
            2
        } else if n < 0x10000 {
            3
        } else {
            4
        };
        proof {
            assert(chars@.take(i + 1).drop_last() =~= chars@.take(i as int));
            assert(chars@.take(i + 1).last() == chars@[i as int]);
        }
        total = total + width;
        i += 1;
    }
    proof {
        assert(chars@.take(i as int) =~= chars@);
    }
    total
}

/// The longest beginning of a text that takes at most `limit` bytes in
/// UTF-8.
pub open spec fn byte_prefix(s: Seq<char>, limit: nat) -> Seq<char>
    decreases s.len(),
{
    if s.len() == 0 || utf8_len(s) <= limit {
        s
    } else {
        byte_prefix(s.drop_last(), limit)
    }
}

/// The beginning that fits and cannot be extended is the longest.
proof fn lemma_byte_prefix(s: Seq<char>, limit: nat, i: int)
    requires
        0 <= i <= s.len(),
        utf8_len(s.take(i)) <= limit,
        i < s.len() ==> utf8_len(s.take(i + 1)) > limit,
    ensures
        byte_prefix(s, limit) == s.take(i),
    decreases s.len(),
{
    if i == s.len() {
        assert(s.take(i) =~= s);
    } else {
        lemma_utf8_len_prefix(s, i + 1);
        assert(s.drop_last().take(i) =~= s.take(i));
        if i < s.len() - 1 {
            assert(s.drop_last().take(i + 1) =~= s.take(i + 1));
        }
        lemma_byte_prefix(s.drop_last(), limit, i);
    }
}

/// Takes the longest beginning of a text that takes at most `limit` bytes.
pub fn take_bytes(chars: &Vec<char>, limit: usize) -> (r: Vec<char>)
    ensures
        r@ == byte_prefix(chars@, limit as nat),
{
    let mut total: usize = 0;
    let mut i: usize = 0;
    proof {
        assert(chars@.take(0) =~= Seq::<char>::empty());
    }
    while i < chars.len()
        invariant
            i <= chars.len(),
            total == utf8_len(chars@.take(i as int)),
            total <= limit,
        decreases chars.len() - i,
    {
        let n = code_point(chars[i]);
        let width: usize = if n < 0x80 {
            1
        } else if n < 0x800 {
            2
        } else if n < 0x10000 {
            3
        } else {
            4
        };
        proof {
            assert(chars@.take(i + 1).drop_last() =~= chars@.take(i as int));
            assert(chars@.take(i + 1).last() == chars@[i as int]);
        }
        if width > limit - total {
            proof {
                lemma_byte_prefix(chars@, limit as nat, i as int);
            }
            return slice_chars(chars, 0, i);
        }
        total = total + width;
        i += 1;
    }
    proof {
        lemma_byte_prefix(chars@, limit as nat, i as int);
    }
    slice_chars(chars, 0, i)
}

/// Whether a text takes fewer than `limit` bytes in UTF-8.
pub fn shorter_than(chars: &Vec<char>, limit: usize) -> (r: bool)
    ensures
        r == (utf8_len(chars@) < limit),
{
    if limit == 0 {
        return false;
    }
    let mut total: usize = 0;
    let mut i: usize = 0;
    proof {
        assert(chars@.take(0) =~= Seq::<char>::empty());
    }
    while i < chars.len()
        invariant
            i <= chars.len(),
            total == utf8_len(chars@.take(i as int)),
            total < limit,
        decreases chars.len() - i,
    {
        let n = code_point(chars[i]);
        let width: usize = if n < 0x80 {
            1
        } else if n < 0x800 {
            2
        } else if n < 0x10000 {
            3
        } else {
            4
        };
        proof {
            assert(chars@.take(i + 1).drop_last() =~= chars@.take(i as int));
            assert(chars@.take(i + 1).last() == chars@[i as int]);
            lemma_utf8_len_prefix(chars@, i + 1);
        }
        if width >= limit - total {
            return false;
        }
        total = total + width;
        i += 1;
    }
    proof {
        assert(chars@.take(i as int) =~= chars@);
    }
    true
}

/// Whether `s` begins with `prefix`.
pub open spec fn starts_with(s: Seq<char>, prefix: Seq<char>) -> bool {
    s.len() >= prefix.len() && s.subrange(0, prefix.len() as int) == prefix
}

/// Whether `s` ends in `suffix`.
pub open spec fn ends_with(s: Seq<char>, suffix: Seq<char>) -> bool {
    s.len() >= suffix.len() && s.subrange(s.len() - suffix.len(), s.len() as int) == suffix
}

/// Whether `part` stands in `s` at index `at`.
pub open spec fn occurs_at(s: Seq<char>, part: Seq<char>, at: int) -> bool {
    0 <= at && at + part.len() <= s.len() && s.subrange(at, at + part.len()) == part
}

/// Whether `part` stands somewhere in `s`.
pub open spec fn has_part(s: Seq<char>, part: Seq<char>) -> bool {
    exists|at: int| occurs_at(s, part, at)
}

/// Whether `part` stands in `s` at index `at`.
pub fn chars_occur_at(s: &Vec<char>, part: &Vec<char>, at: usize) -> (r: bool)
    ensures
        r == occurs_at(s@, part@, at as int),
{
    if at > s.len() || part.len() > s.len() - at {
        return false;
    }
    let mut i: usize = 0;
    while i < part.len()
        invariant
            i <= part.len(),
            at + part.len() <= s.len(),
            forall|j: int| 0 <= j < i ==> s@[at + j] == part@[j],
        decreases part.len() - i,
    {
        if s[at + i] != part[i] {
            proof {
                assert(s@.subrange(at as int, at + part@.len())[i as int] == s@[at + i]);
            }
            return false;
        }
        i += 1;
    }
    proof {
        assert(s@.subrange(at as int, at + part@.len()) =~= part@);
    }
    true
}

/// Whether one list of characters begins with another.
pub fn chars_start_with(s: &Vec<char>, prefix: &Vec<char>) -> (r: bool)
    ensures
        r == starts_with(s@, prefix@),
{
    chars_occur_at(s, prefix, 0)
}

/// Whether one list of characters ends in another.
pub fn chars_end_with(s: &Vec<char>, suffix: &Vec<char>) -> (r: bool)
    ensures
        r == ends_with(s@, suffix@),
{
    if s.len() < suffix.len() {
        return false;
    }
    chars_occur_at(s, suffix, s.len() - suffix.len())
}

/// Whether one list of characters holds another.
pub fn chars_contain(s: &Vec<char>, part: &Vec<char>) -> (r: bool)
    ensures
        r == has_part(s@, part@),
{
    if part.len() > s.len() {
        proof {
            assert(forall|at: int| !occurs_at(s@, part@, at));
        }
        return false;
    }
    let last = s.len() - part.len();
    let mut at: usize = 0;
    while at < last
        invariant
            at <= last,
            last + part.len() == s.len(),
            forall|k: int| 0 <= k < at ==> !occurs_at(s@, part@, k),
        decreases last - at,
    {
        if chars_occur_at(s, part, at) {
            return true;
        }
        at += 1;
    }
    let found = chars_occur_at(s, part, last);
    proof {
        if !found {
            assert(forall|k: int| !occurs_at(s@, part@, k));
        }
    }
    found
}

// ---------------------------------------------------------------------------
// Finding characters
// ---------------------------------------------------------------------------
/// The first index at which `c` stands in `s`.
pub open spec fn first_index(s: Seq<char>, c: char) -> Option<int>
    decreases s.len(),
{
    if s.len() == 0 {
        None
    } else {
        match first_index(s.drop_last(), c) {
            Some(i) => Some(i),
            None => if s.last() == c {
                Some(s.len() - 1)
            } else {
                None
            },
        }
    }
}

/// The last index at which `c` stands in `s`.
pub open spec fn last_index(s: Seq<char>, c: char) -> Option<int>
    decreases s.len(),
{
    if s.len() == 0 {
        None
    } else if s.last() == c {
        Some(s.len() - 1)
    } else {
        last_index(s.drop_last(), c)
    }
}

pub proof fn lemma_first_index(s: Seq<char>, c: char)
    ensures
        match first_index(s, c) {
            Some(i) => 0 <= i < s.len() && s[i] == c && forall|j: int| 0 <= j < i ==> s[j] != c,
            None => forall|j: int| 0 <= j < s.len() ==> s[j] != c,
        },
    decreases s.len(),
{
    if s.len() > 0 {
        lemma_first_index(s.drop_last(), c);
        assert(forall|j: int| 0 <= j < s.len() - 1 ==> s.drop_last()[j] == s[j]);
    }
}

pub proof fn lemma_last_index(s: Seq<char>, c: char)
    ensures
        match last_index(s, c) {
            Some(i) => 0 <= i < s.len() && s[i] == c && forall|j: int|
                i < j < s.len() ==> s[j] != c,
            None => forall|j: int| 0 <= j < s.len() ==> s[j] != c,
        },
    decreases s.len(),
{
    if s.len() > 0 {
        lemma_last_index(s.drop_last(), c);
        assert(forall|j: int| 0 <= j < s.len() - 1 ==> s.drop_last()[j] == s[j]);
    }
}

/// The first index at which `c` stands.
pub fn find_first(chars: &Vec<char>, c: char) -> (r: Option<usize>)
    ensures
        match r {
            Some(i) => first_index(chars@, c) == Some(i as int) && i < chars.len(),
            None => first_index(chars@, c) is None,
        },
{
    let mut i: usize = 0;
    while i < chars.len()
        invariant
            i <= chars.len(),
            forall|j: int| 0 <= j < i ==> chars@[j] != c,
        decreases chars.len() - i,
    {
        if chars[i] == c {
            proof {
                lemma_first_index(chars@, c);
            }
            return Some(i);
        }
        i += 1;
    }
    proof {
        lemma_first_index(chars@, c);
    }
    None
}

/// The last index at which `c` stands.
pub fn find_last(chars: &Vec<char>, c: char) -> (r: Option<usize>)
    ensures
        match r {
            Some(i) => last_index(chars@, c) == Some(i as int) && i < chars.len(),
            None => last_index(chars@, c) is None,
        },
{
    let mut i: usize = chars.len();
    while i > 0
        invariant
            i <= chars.len(),
            forall|j: int| i <= j < chars.len() ==> chars@[j] != c,
        decreases i,
    {
        i -= 1;
        if chars[i] == c {
            proof {
                lemma_last_index(chars@, c);
            }
            return Some(i);
        }
    }
    proof {
        lemma_last_index(chars@, c);
    }
    None
}

/// The characters from index `a` up to, not including, index `b`, as text.
pub fn text_between(chars: &Vec<char>, a: usize, b: usize) -> (r: String)
    requires
        a <= b <= chars.len(),
    ensures
        r@ == chars@.subrange(a as int, b as int),
{
    let mut out = String::new();
    let mut i: usize = a;
    while i < b
        invariant
            a <= i <= b <= chars.len(),
            out@ == chars@.subrange(a as int, i as int),
        decreases b - i,
    {
        out.push(chars[i]);
        proof {
            assert(chars@.subrange(a as int, i + 1) =~= chars@.subrange(a as int, i as int).push(
                chars@[i as int],
            ));
        }
        i += 1;
    }
    out
}


// ---------------------------------------------------------------------------
// Notes with the time of day
// ---------------------------------------------------------------------------
/// The time of day as the local clock shows it, in hours, minutes and
/// seconds.
///
/// Trusted: wraps `chrono::Local::now()` and its `format("%H:%M:%S")`.
/// Nothing is claimed of the text: it depends on the clock and the time
/// zone.
#[verifier::external_body]
pub(crate) fn time_of_day() -> String {
    chrono::Local::now().format("%H:%M:%S").to_string()
}

/// A message with the stamp of its time in front.
pub open spec fn stamped(stamp: Seq<char>, message: Seq<char>) -> Seq<char> {
    "["@ + stamp + "] "@ + message
}

/// Whether `after` is the log `before` with `message` noted at some time.
pub open spec fn noted(before: Seq<Seq<char>>, message: Seq<char>, after: Seq<Seq<char>>) -> bool {
    exists|stamp: Seq<char>| after == #[trigger] logged_entry(before, stamped(stamp, message))
}

/// Whether `after` is the log `before` with the messages noted one after
/// the other, each at some time.
pub open spec fn noted_all(
    before: Seq<Seq<char>>,
    messages: Seq<Seq<char>>,
    after: Seq<Seq<char>>,
) -> bool
    decreases messages.len(),
{
    if messages.len() == 0 {
        after == before
    } else {
        exists|mid: Seq<Seq<char>>|
            noted_all(before, messages.drop_last(), mid) && #[trigger] noted(
                mid,
                messages.last(),
                after,
            )
    }
}

/// One more note extends the notes before it.
pub proof fn lemma_noted_more(
    before: Seq<Seq<char>>,
    messages: Seq<Seq<char>>,
    mid: Seq<Seq<char>>,
    message: Seq<char>,
    after: Seq<Seq<char>>,
)
    requires
        noted_all(before, messages, mid),
        noted(mid, message, after),
    ensures
        noted_all(before, messages.push(message), after),
{
    let all = messages.push(message);
    assert(all.drop_last() =~= messages);
    assert(noted_all(before, all.drop_last(), mid) && noted(mid, all.last(), after));
}

/// Adds `message` to a bounded log, with the stamp `stamp` in front.
pub fn note_at(log: &mut Vec<String>, stamp: &str, message: &str)
    ensures
        views(final(log)@) == logged_entry(views(old(log)@), stamped(stamp@, message@)),
{
    let mut entry = join3("[", stamp, "] ");
    entry.append(message);
    push_bounded(log, entry);
}

/// Adds `message` to a bounded log, with the time of day in front.
pub fn note(log: &mut Vec<String>, message: &str)
    ensures
        noted(views(old(log)@), message@, views(final(log)@)),
{
    let stamp = time_of_day();
    note_at(log, stamp.as_str(), message);
}

/// The log `log` after the messages were added one after the other, each
/// with `tag` in front.
pub open spec fn logged_all(log: Seq<Seq<char>>, tag: Seq<char>, messages: Seq<Seq<char>>) -> Seq<
    Seq<char>,
>
    decreases messages.len(),
{
    if messages.len() == 0 {
        log
    } else {
        logged_entry(logged_all(log, tag, messages.drop_last()), tag + messages.last())
    }
}

/// One more entry extends the entries before it.
pub proof fn lemma_logged_more(
    log: Seq<Seq<char>>,
    tag: Seq<char>,
    messages: Seq<Seq<char>>,
    message: Seq<char>,
)
    ensures
        logged_all(log, tag, messages.push(message)) == logged_entry(
            logged_all(log, tag, messages),
            tag + message,
        ),
{
    assert(messages.push(message).drop_last() =~= messages);
}

/// Entries added in two runs are the entries added in one.
pub proof fn lemma_logged_joined(
    log: Seq<Seq<char>>,
    tag: Seq<char>,
    first: Seq<Seq<char>>,
    second: Seq<Seq<char>>,
)
    ensures
        logged_all(log, tag, first + second) == logged_all(
            logged_all(log, tag, first),
            tag,
            second,
        ),
    decreases second.len(),
{
    if second.len() == 0 {
        assert(first + second =~= first);
    } else {
        lemma_logged_joined(log, tag, first, second.drop_last());
        assert((first + second).drop_last() =~= first + second.drop_last());
        assert((first + second).last() == second.last());
    }
}

} // verus!
