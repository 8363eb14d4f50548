use vstd::prelude::*;
use vstd::string::*;
use crate::config::Rect;

verus! {

/// The views of a list of strings.
pub open spec fn views(v: Seq<String>) -> Seq<Seq<char>> {
    v.map_values(|s: String| s@)
}

// ---------------------------------------------------------------- characters

/// The Unicode White_Space property, the one that `char::is_whitespace` and
/// `str::trim` go by.
pub open spec fn is_white_space(c: char) -> bool {
    let u = c as u32;
    (0x9 <= u <= 0xd) || u == 0x20 || u == 0x85 || u == 0xa0 || u == 0x1680 || (0x2000 <= u
        <= 0x200a) || u == 0x2028 || u == 0x2029 || u == 0x202f || u == 0x205f || u == 0x3000
}

fn white_space(c: char) -> (r: bool)
    ensures
        r == is_white_space(c),
{
    let u = c as u32;
    (0x9 <= u && u <= 0xd) || u == 0x20 || u == 0x85 || u == 0xa0 || u == 0x1680 || (0x2000 <= u
        && u <= 0x200a) || u == 0x2028 || u == 0x2029 || u == 0x202f || u == 0x205f || u == 0x3000
}

/// `s` without its leading white space.
pub open spec fn trim_start(s: Seq<char>) -> Seq<char>
    decreases s.len(),
{
    if s.len() > 0 && is_white_space(s[0]) {
        trim_start(s.drop_first())
    } else {
        s
    }
}

/// `s` without its trailing white space.
pub open spec fn trim_end(s: Seq<char>) -> Seq<char>
    decreases s.len(),
{
    if s.len() > 0 && is_white_space(s.last()) {
        trim_end(s.drop_last())
    } else {
        s
    }
}

/// `s` without leading and trailing white space.
pub open spec fn trimmed(s: Seq<char>) -> Seq<char> {
    trim_end(trim_start(s))
}

/// Removes leading and trailing white space.
pub fn trim(s: &str) -> (r: &str)
    ensures
        r@ == trimmed(s@),
{
    let n = s.unicode_len();
    assert(s@.subrange(0, n as int) =~= s@);
    let mut a: usize = 0;
    while a < n && white_space(s.get_char(a))
        invariant
            n == s@.len(),
            a <= n,
            trim_start(s@) == trim_start(s@.subrange(a as int, n as int)),
        decreases n - a,
    {
        assert(s@.subrange(a as int, n as int).drop_first() =~= s@.subrange(a + 1, n as int));
        a = a + 1;
    }
    assert(trim_start(s@.subrange(a as int, n as int)) == s@.subrange(a as int, n as int));
    let mut b: usize = n;
    while b > a && white_space(s.get_char(b - 1))
        invariant
            n == s@.len(),
            a <= b <= n,
            trim_end(s@.subrange(a as int, n as int)) == trim_end(s@.subrange(a as int, b as int)),
        decreases b - a,
    {
        assert(s@.subrange(a as int, b as int).drop_last() =~= s@.subrange(a as int, b - 1));
        b = b - 1;
    }
    s.substring_char(a, b)
}

// ---------------------------------------------------------------- integers

/// The value of a string of decimal digits.
pub open spec fn digits_value(d: Seq<char>) -> nat
    decreases d.len(),
{
    if d.len() == 0 {
        0
    } else {
        digits_value(d.drop_last()) * 10 + ((d.last() as u32) - ('0' as u32)) as nat
    }
}

/// Every character is an ASCII digit.
pub open spec fn all_digits(d: Seq<char>) -> bool {
    forall|i: int| 0 <= i < d.len() ==> '0' <= #[trigger] d[i] <= '9'
}

/// The digits of an unsigned number: what follows an optional `+`.
pub open spec fn unsigned_digits(s: Seq<char>) -> Seq<char> {
    if s.len() > 0 && s[0] == '+' {
        s.drop_first()
    } else {
        s
    }
}

/// A `u32` written in decimal, as `str::parse::<u32>` reads it: an optional
/// `+`, then one or more digits, with a value that fits.
pub open spec fn parse_u32(s: Seq<char>) -> Option<u32> {
    let d = unsigned_digits(s);
    if d.len() > 0 && all_digits(d) && digits_value(d) <= u32::MAX {
        Some(digits_value(d) as u32)
    } else {
        None
    }
}

const VALUE_CAP: u64 = 0x1_0000_0000;

/// Reads a `u32` in decimal.
pub fn read_u32(s: &str) -> (r: Option<u32>)
    ensures
        r == parse_u32(s@),
{
    let n = s.unicode_len();
    let start: usize = if n > 0 && s.get_char(0) == '+' {
        1
    } else {
        0
    };
    let ghost d = s@.subrange(start as int, n as int);
    assert(d =~= unsigned_digits(s@));
    if start == n {
        assert(d.len() == 0);
        return None;
    }
    let mut acc: u64 = 0;
    let mut i: usize = start;
    while i < n
        invariant
            n == s@.len(),
            start <= i <= n,
            d == s@.subrange(start as int, n as int),
            d == unsigned_digits(s@),
            all_digits(d.subrange(0, i - start)),
            acc == if digits_value(d.subrange(0, i - start)) < VALUE_CAP {
                digits_value(d.subrange(0, i - start))
            } else {
                VALUE_CAP as nat
            },
        decreases n - i,
    {
        let c = s.get_char(i);
        if c < '0' || c > '9' {
            assert(d[i - start] == c);
            assert(!all_digits(d));
            assert(d == unsigned_digits(s@));
            assert(parse_u32(s@) is None);
            return None;
        }
        let dig: u64 = ((c as u32) - ('0' as u32)) as u64;
        let ghost prev = d.subrange(0, i - start);
        let ghost next = d.subrange(0, i + 1 - start);
        assert(next.drop_last() =~= prev);
        assert(next.last() == c);
        assert(digits_value(next) == digits_value(prev) * 10 + dig);
        let v = acc * 10 + dig;
        proof {
            if digits_value(prev) >= VALUE_CAP {
                assert(digits_value(prev) * 10 + dig >= VALUE_CAP) by (nonlinear_arith)
                    requires
                        digits_value(prev) >= VALUE_CAP,
                ;
            }
        }
        acc = if v < VALUE_CAP {
            v
        } else {
            VALUE_CAP
        };
        i = i + 1;
        assert(all_digits(next)) by {
            assert forall|j: int| 0 <= j < next.len() implies '0' <= #[trigger] next[j] <= '9' by {
                if j < prev.len() {
                    assert(next[j] == prev[j]);
                }
            }
        }
    }
    assert(d.subrange(0, n - start) =~= d);
    if acc < VALUE_CAP {
        Some(acc as u32)
    } else {
        None
    }
}

// ---------------------------------------------------------------- tuples

/// A comma always separates parts; a line break does where `at_newline`.
pub open spec fn is_separator(c: char, at_newline: bool) -> bool {
    c == ',' || (at_newline && c == '\n')
}

/// `s` cut at every separator; a string without one is one part.
pub open spec fn split_parts(s: Seq<char>, at_newline: bool) -> Seq<Seq<char>>
    decreases s.len(),
{
    if s.len() == 0 {
        seq![Seq::empty()]
    } else {
        let init = split_parts(s.drop_last(), at_newline);
        if is_separator(s.last(), at_newline) {
            init.push(Seq::empty())
        } else {
            init.update(init.len() - 1, init.last().push(s.last()))
        }
    }
}

/// `s` cut at every comma.
pub open spec fn split_commas(s: Seq<char>) -> Seq<Seq<char>> {
    split_parts(s, false)
}

proof fn lemma_split_parts_nonempty(s: Seq<char>, at_newline: bool)
    ensures
        split_parts(s, at_newline).len() >= 1,
    decreases s.len(),
{
    if s.len() > 0 {
        lemma_split_parts_nonempty(s.drop_last(), at_newline);
    }
}

/// The parts of `s` that a list of character ranges selects.
pub open spec fn range_parts(s: Seq<char>, ranges: Seq<(usize, usize)>) -> Seq<Seq<char>> {
    ranges.map_values(|r: (usize, usize)| s.subrange(r.0 as int, r.1 as int))
}

fn separator(c: char, at_newline: bool) -> (r: bool)
    ensures
        r == is_separator(c, at_newline),
{
    c == ',' || (at_newline && c == '\n')
}

/// The character ranges of the separated parts of `s`.
pub(crate) fn part_ranges(s: &str, at_newline: bool) -> (r: Vec<(usize, usize)>)
    ensures
        range_parts(s@, r@) == split_parts(s@, at_newline),
        forall|k: int| 0 <= k < r@.len() ==> (#[trigger] r@[k]).0 <= r@[k].1 <= s@.len(),
{
    let n = s.unicode_len();
    let mut ranges: Vec<(usize, usize)> = Vec::new();
    let mut cur: usize = 0;
    let mut i: usize = 0;
    assert(range_parts(s@, ranges@) =~= Seq::<Seq<char>>::empty());
    assert(s@.subrange(0, 0) =~= Seq::<char>::empty());
    while i < n
        invariant
            n == s@.len(),
            cur <= i <= n,
            forall|k: int| 0 <= k < ranges@.len() ==> (#[trigger] ranges@[k]).0 <= ranges@[k].1 <= s@.len(),
            range_parts(s@, ranges@).push(s@.subrange(cur as int, i as int)) == split_parts(
                s@.subrange(0, i as int),
                at_newline,
            ),
        decreases n - i,
    {
        let c = s.get_char(i);
        let ghost pre = s@.subrange(0, i as int);
        let ghost parts = range_parts(s@, ranges@);
        assert(s@.subrange(0, i + 1).drop_last() =~= pre);
        assert(s@.subrange(0, i + 1).last() == c);
        proof {
            lemma_split_parts_nonempty(pre, at_newline);
        }
        if separator(c, at_newline) {
            ranges.push((cur, i));
            cur = i + 1;
            assert(range_parts(s@, ranges@) =~= parts.push(s@.subrange(ranges@.last().0 as int, i as int)));
            assert(s@.subrange(cur as int, i + 1) =~= Seq::<char>::empty());
        } else {
            assert(s@.subrange(cur as int, i + 1) =~= s@.subrange(cur as int, i as int).push(c));
            assert(parts.push(s@.subrange(cur as int, i + 1)) =~= split_parts(pre, at_newline).update(
                split_parts(pre, at_newline).len() - 1,
                split_parts(pre, at_newline).last().push(c),
            ));
        }
        i = i + 1;
    }
    ranges.push((cur, n));
    assert(s@.subrange(0, n as int) =~= s@);
    assert(range_parts(s@, ranges@) =~= range_parts(s@, ranges@.drop_last()).push(
        s@.subrange(cur as int, n as int),
    ));
    ranges
}

/// The text of a position counted from 1, for positions 1 to 4.
pub open spec fn position_text(k: int) -> Seq<char> {
    if k == 0 {
        "1"@
    } else if k == 1 {
        "2"@
    } else if k == 2 {
        "3"@
    } else {
        "4"@
    }
}

/// The error for a list that is not four parts long.
pub open spec fn count_error() -> Seq<char> {
    "Must be four unsigned integers separated by commas, e.g. \"10,20,31,42\""@
}

/// The error for the part at index `k` that is no `u32`.
pub open spec fn part_error(k: int, part: Seq<char>) -> Seq<char> {
    "Failed to parse integer at position "@ + position_text(k) + ": '"@ + part + "'"@
}

/// The number of part `k` of a tuple, if it reads as one.
pub open spec fn part_value(parts: Seq<Seq<char>>, k: int) -> Option<u32> {
    parse_u32(trimmed(parts[k]))
}

/// The tuple that `s` writes: four comma-separated `u32`s, each with optional
/// surrounding white space; else the error for the wrong count or for the
/// first part that is no number.
pub open spec fn tuple_of(s: Seq<char>) -> Result<Seq<u32>, Seq<char>> {
    let parts = split_commas(s);
    if parts.len() != 4 {
        Err(count_error())
    } else if part_value(parts, 0) is None {
        Err(part_error(0, parts[0]))
    } else if part_value(parts, 1) is None {
        Err(part_error(1, parts[1]))
    } else if part_value(parts, 2) is None {
        Err(part_error(2, parts[2]))
    } else if part_value(parts, 3) is None {
        Err(part_error(3, parts[3]))
    } else {
        Ok(
            seq![
                part_value(parts, 0)->Some_0,
                part_value(parts, 1)->Some_0,
                part_value(parts, 2)->Some_0,
                part_value(parts, 3)->Some_0,
            ],
        )
    }
}

fn position_str(k: usize) -> (r: &'static str)
    requires
        k < 4,
    ensures
        r@ == position_text(k as int),
{
    if k == 0 {
        "1"
    } else if k == 1 {
        "2"
    } else if k == 2 {
        "3"
    } else {
        "4"
    }
}

/// Parses a blur rectangle written `x,y,width,height`.
pub fn parse_tuple(s: &str) -> (r: Result<Rect, String>)
    ensures
        match r {
            Ok(t) => tuple_of(s@) == Ok::<Seq<u32>, Seq<char>>(t@),
            Err(e) => tuple_of(s@) == Err::<Seq<u32>, Seq<char>>(e@),
        },
{
    let ranges = part_ranges(s, false);
    let ghost parts = split_commas(s@);
    if ranges.len() != 4 {
        return Err(
            String::from_str(
                "Must be four unsigned integers separated by commas, e.g. \"10,20,31,42\"",
            ),
        );
    }
    let mut nums: Rect = [0u32; 4];
    let mut k: usize = 0;
    while k < 4
        invariant
            ranges@.len() == 4,
            range_parts(s@, ranges@) == parts,
            parts == split_commas(s@),
            forall|j: int| 0 <= j < 4 ==> (#[trigger] ranges@[j]).0 <= ranges@[j].1 <= s@.len(),
            k <= 4,
            forall|j: int| 0 <= j < k ==> #[trigger] part_value(parts, j) == Some(nums@[j]),
        decreases 4 - k,
    {
        let (a, b) = ranges[k];
        assert(parts[k as int] == s@.subrange(a as int, b as int));
        let part = s.substring_char(a, b);
        match read_u32(trim(part)) {
            Some(v) => {
                nums[k] = v;
            },
            None => {
                assert(part_value(parts, k as int) is None);
                assert(k > 0 ==> part_value(parts, 0) is Some);
                assert(k > 1 ==> part_value(parts, 1) is Some);
                assert(k > 2 ==> part_value(parts, 2) is Some);
                let msg = String::from_str("Failed to parse integer at position ").concat(
                    position_str(k),
                ).concat(": '").concat(part).concat("'");
                return Err(msg);
            },
        }
        k = k + 1;
    }
    assert(nums@ =~= seq![
        part_value(parts, 0)->Some_0,
        part_value(parts, 1)->Some_0,
        part_value(parts, 2)->Some_0,
        part_value(parts, 3)->Some_0,
    ]);
    Ok(nums)
}

// ---------------------------------------------------------------- file names

/// The code point of `c` with ASCII upper case letters taken to lower case.
pub open spec fn lower_code(c: char) -> u32 {
    let u = c as u32;
    if 0x41 <= u <= 0x5a {
        (u + 32) as u32
    } else {
        u
    }
}

/// The code points of `s`.
pub open spec fn codes(s: Seq<char>) -> Seq<u32> {
    s.map_values(|c: char| c as u32)
}

/// The code points of `s` with ASCII letters in lower case.
pub open spec fn lowered(s: Seq<char>) -> Seq<u32> {
    s.map_values(|c: char| lower_code(c))
}

fn lower_char_code(c: char) -> (r: u32)
    ensures
        r == lower_code(c),
{
    let u = c as u32;
    if 0x41 <= u && u <= 0x5a {
        u + 32
    } else {
        u
    }
}

/// Whether `s`, read without regard to ASCII case, is `lit`.
fn lower_eq(s: &str, lit: &str) -> (r: bool)
    ensures
        r == (lowered(s@) == codes(lit@)),
{
    let n = s.unicode_len();
    let m = lit.unicode_len();
    if n != m {
        assert(lowered(s@).len() != codes(lit@).len());
        return false;
    }
    let mut i: usize = 0;
    while i < n
        invariant
            n == s@.len(),
            m == lit@.len(),
            n == m,
            i <= n,
            forall|j: int| 0 <= j < i ==> lower_code(s@[j]) == lit@[j] as u32,
        decreases n - i,
    {
        if lower_char_code(s.get_char(i)) != lit.get_char(i) as u32 {
            assert(lowered(s@)[i as int] != codes(lit@)[i as int]);
            return false;
        }
        i = i + 1;
    }
    assert(lowered(s@) =~= codes(lit@));
    true
}

/// The extensions of the image formats a batch takes, in lower case.
pub open spec fn image_extension(ext: Seq<char>) -> bool {
    let e = lowered(ext);
    e == codes("jpg"@) || e == codes("jpeg"@) || e == codes("png"@) || e == codes("webp"@)
}

/// Whether `ext` names an image format a batch takes (jpg, jpeg, png, webp),
/// in any ASCII case.
pub fn is_image_extension(ext: &str) -> (r: bool)
    ensures
        r == image_extension(ext@),
{
    lower_eq(ext, "jpg") || lower_eq(ext, "jpeg") || lower_eq(ext, "png") || lower_eq(ext, "webp")
}

/// Whether a file is an image a batch takes, going by its extension as the
/// platform's path rules read it (`None`: the file name has none).
pub fn is_image_file(extension: Option<&str>) -> (r: bool)
    ensures
        r == match extension {
            Some(e) => image_extension(e@),
            None => false,
        },
{
    match extension {
        Some(e) => is_image_extension(e),
        None => false,
    }
}

/// The name under which an executable is found: on Windows a name without
/// an extension (as the platform's path rules read it) gets `.exe`; otherwise
/// the name stays as it is.
pub fn adjust_extension(file_name: &str, has_extension: bool, windows: bool) -> (r: String)
    ensures
        r@ == if !has_extension && windows {
            file_name@ + ".exe"@
        } else {
            file_name@
        },
{
    if !has_extension && windows {
        file_name.to_owned().concat(".exe")
    } else {
        file_name.to_owned()
    }
}

} // verus!
