//! File names: where the extension of a name starts, how it is replaced, and
//! how a number is put in front of it.

use vstd::prelude::*;
use vstd::string::*;

verus! {

/// Index of the last occurrence of `c` in `s`, or -1 where there is none.
pub open spec fn last_pos(s: Seq<char>, c: char) -> int
    decreases s.len(),
{
    if s.len() == 0 {
        -1
    } else if s.last() == c {
        s.len() - 1
    } else {
        last_pos(s.drop_last(), c)
    }
}

/// `last_pos` is an index of `c` with no `c` behind it, or -1 with no `c` at all.
pub proof fn lemma_last_pos(s: Seq<char>, c: char)
    ensures
        -1 <= last_pos(s, c) < s.len(),
        last_pos(s, c) >= 0 ==> s[last_pos(s, c)] == c,
        forall|j: int| last_pos(s, c) < j < s.len() ==> s[j] != c,
    decreases s.len(),
{
    if s.len() > 0 && s.last() != c {
        lemma_last_pos(s.drop_last(), c);
        assert forall|j: int| last_pos(s, c) < j < s.len() implies s[j] != c by {
            if j < s.len() - 1 {
                assert(s.drop_last()[j] == s[j]);
            }
        }
    }
}

/// Scans `s` for the last occurrence of `c`.
pub fn find_last(s: &str, c: char) -> (r: Option<usize>)
    ensures
        match r {
            Some(k) => k as int == last_pos(s@, c),
            None => last_pos(s@, c) == -1,
        },
{
    let n: usize = s.unicode_len();
    let mut found: Option<usize> = None;
    let mut i: usize = 0;
    while i < n
        invariant
            i <= n,
            n == s@.len(),
            match found {
                Some(k) => k as int == last_pos(s@.subrange(0, i as int), c),
                None => last_pos(s@.subrange(0, i as int), c) == -1,
            },
        decreases n - i,
    {
        proof {
            assert(s@.subrange(0, i + 1).drop_last() == s@.subrange(0, i as int));
        }
        if s.get_char(i) == c {
            found = Some(i);
        }
        i = i + 1;
    }
    proof {
        assert(s@.subrange(0, n as int) == s@);
    }
    found
}

/// Index at which the file part of `p` starts: behind its last `/`.
pub open spec fn file_start(p: Seq<char>) -> int {
    last_pos(p, '/') + 1
}

/// The part of `p` behind its last `/`.
pub open spec fn file_part(p: Seq<char>) -> Seq<char> {
    p.subrange(file_start(p), p.len() as int)
}

/// Whether `p` names a file: its file part is not empty, `.` or `..`.
pub open spec fn has_file_name(p: Seq<char>) -> bool {
    let f = file_part(p);
    &&& f.len() > 0
    &&& !(f.len() == 1 && f[0] == '.')
    &&& !(f.len() == 2 && f[0] == '.' && f[1] == '.')
}

/// Whether `p` has an extension: its file part holds a `.` behind its first
/// character. A leading dot alone starts no extension.
pub open spec fn has_extension(p: Seq<char>) -> bool {
    has_file_name(p) && last_pos(p, '.') > file_start(p)
}

/// Where the stem of `p` ends: at the dot of the extension, or at the end.
pub open spec fn stem_end(p: Seq<char>) -> int {
    if has_extension(p) {
        last_pos(p, '.')
    } else {
        p.len() as int
    }
}

/// The extension of `p`: what stands behind the last dot of its file part.
pub open spec fn extension_of(p: Seq<char>) -> Option<Seq<char>> {
    if has_extension(p) {
        Some(p.subrange(last_pos(p, '.') + 1, p.len() as int))
    } else {
        None
    }
}

/// `p` with its extension replaced by `ext`, or removed where `ext` is empty.
/// A `p` that names no file stays as it is.
pub open spec fn with_extension(p: Seq<char>, ext: Seq<char>) -> Seq<char> {
    if !has_file_name(p) {
        p
    } else if ext.len() == 0 {
        p.subrange(0, stem_end(p))
    } else {
        p.subrange(0, stem_end(p)) + seq!['.'] + ext
    }
}

/// `ext` without its leading dots.
pub open spec fn trim_dots(ext: Seq<char>) -> Seq<char>
    decreases ext.len(),
{
    if ext.len() > 0 && ext[0] == '.' {
        trim_dots(ext.drop_first())
    } else {
        ext
    }
}

/// `name` with its last extension replaced by `ext`, which may be written
/// with or without leading dots.
pub open spec fn replace_ext(name: Seq<char>, ext: Seq<char>) -> Seq<char> {
    with_extension(name, trim_dots(ext))
}

/// The character of a decimal digit.
pub open spec fn digit_char(d: int) -> char {
    if d == 0 {
        '0'
    } else if d == 1 {
        '1'
    } else if d == 2 {
        '2'
    } else if d == 3 {
        '3'
    } else if d == 4 {
        '4'
    } else if d == 5 {
        '5'
    } else if d == 6 {
        '6'
    } else if d == 7 {
        '7'
    } else if d == 8 {
        '8'
    } else {
        '9'
    }
}

/// The decimal digits of `n`, without leading zeros.
pub open spec fn decimal_nat(n: nat) -> Seq<char>
    decreases n,
{
    if n < 10 {
        seq![digit_char(n as int)]
    } else {
        decimal_nat(n / 10).push(digit_char((n % 10) as int))
    }
}

/// `n` in decimal, with a minus sign where it is negative.
pub open spec fn decimal(n: int) -> Seq<char> {
    if n < 0 {
        seq!['-'] + decimal_nat((-n) as nat)
    } else {
        decimal_nat(n as nat)
    }
}

/// The `num`-th candidate for `name`: `name` itself for 0, else `name` with
/// `num` put in front of its extension (`file.wav`, `file.1.wav`, ...).
pub open spec fn numbered_name(name: Seq<char>, num: int) -> Seq<char> {
    if num == 0 {
        name
    } else {
        match extension_of(name) {
            Some(e) => with_extension(name, decimal(num) + seq!['.'] + e),
            None => with_extension(name, decimal(num)),
        }
    }
}

/// `base`, `folder` and `name` joined by `/`.
pub open spec fn joined(base: Seq<char>, folder: Seq<char>, name: Seq<char>) -> Seq<char> {
    base + seq!['/'] + folder + seq!['/'] + name
}

fn digit_str(d: u64) -> (r: &'static str)
    requires
        d < 10,
    ensures
        r@ == seq![digit_char(d as int)],
{
    proof {
        reveal_strlit("0");
        reveal_strlit("1");
        reveal_strlit("2");
        reveal_strlit("3");
        reveal_strlit("4");
        reveal_strlit("5");
        reveal_strlit("6");
        reveal_strlit("7");
        reveal_strlit("8");
        reveal_strlit("9");
    }
    let r = if d == 0 {
        "0"
    } else if d == 1 {
        "1"
    } else if d == 2 {
        "2"
    } else if d == 3 {
        "3"
    } else if d == 4 {
        "4"
    } else if d == 5 {
        "5"
    } else if d == 6 {
        "6"
    } else if d == 7 {
        "7"
    } else if d == 8 {
        "8"
    } else {
        "9"
    };
    assert(r@ =~= seq![digit_char(d as int)]);
    r
}

/// Writes `n` in decimal.
pub fn decimal_digits(n: u64) -> (r: String)
    ensures
        r@ == decimal_nat(n as nat),
    decreases n,
{
    if n < 10 {
        String::from_str(digit_str(n))
    } else {
        let mut r = decimal_digits(n / 10);
        r.append(digit_str(n % 10));
        assert(r@ =~= decimal_nat((n / 10) as nat).push(digit_char((n % 10) as int)));
        r
    }
}

/// Writes `num` in decimal, with a minus sign where it is negative.
pub fn to_decimal(num: i32) -> (r: String)
    ensures
        r@ == decimal(num as int),
{
    if num < 0 {
        let wide: i64 = num as i64;
        let m: u64 = (0 - wide) as u64;
        let mut r = String::from_str("-");
        let digits = decimal_digits(m);
        r.append(digits.as_str());
        proof {
            reveal_strlit("-");
            assert("-"@ =~= seq!['-']);
        }
        r
    } else {
        decimal_digits(num as u64)
    }
}

/// Tells whether the part of `s` from `start` on names a file.
fn names_file(s: &str, start: usize, n: usize) -> (r: bool)
    requires
        n == s@.len(),
        start as int == file_start(s@),
        start <= n,
    ensures
        r == has_file_name(s@),
{
    let len: usize = n - start;
    if len == 0 {
        false
    } else if len == 1 {
        s.get_char(start) != '.'
    } else if len == 2 {
        !(s.get_char(start) == '.' && s.get_char(start + 1) == '.')
    } else {
        true
    }
}

/// Whether `s` names a file, where its stem ends, and how long `s` is.
fn split_points(s: &str) -> (r: (bool, usize, usize))
    ensures
        r.0 == has_file_name(s@),
        r.1 as int == stem_end(s@),
        r.2 == s@.len(),
        r.1 <= r.2,
        r.1 < r.2 <==> has_extension(s@),
{
    let n: usize = s.unicode_len();
    proof {
        lemma_last_pos(s@, '/');
        lemma_last_pos(s@, '.');
    }
    let start: usize = match find_last(s, '/') {
        Some(k) => k + 1,
        None => 0,
    };
    let is_file = names_file(s, start, n);
    let end: usize = match find_last(s, '.') {
        Some(d) => if is_file && d > start {
            d
        } else {
            n
        },
        None => n,
    };
    (is_file, end, n)
}

/// Tells whether `name` names a file: its part behind the last `/` is not
/// empty, `.` or `..`.
pub fn is_file_name(name: &str) -> (r: bool)
    ensures
        r == has_file_name(name@),
{
    let (is_file, _end, _n) = split_points(name);
    is_file
}

/// The file name of a path: its part behind the last `/`, where that names a
/// file.
pub fn file_name(path: &str) -> (r: Option<String>)
    ensures
        has_file_name(path@) ==> r is Some && r->0@ == file_part(path@),
        !has_file_name(path@) ==> r is None,
{
    let n: usize = path.unicode_len();
    proof {
        lemma_last_pos(path@, '/');
    }
    let start: usize = match find_last(path, '/') {
        Some(k) => k + 1,
        None => 0,
    };
    if names_file(path, start, n) {
        Some(String::from_str(path.substring_char(start, n)))
    } else {
        None
    }
}

/// Replaces the extension of `name` by `ext`, taken as it is.
pub fn set_extension(name: &str, ext: &str) -> (r: String)
    ensures
        r@ == with_extension(name@, ext@),
{
    let (is_file, end, n) = split_points(name);
    if !is_file {
        return String::from_str(name);
    }
    let mut r = String::from_str(name.substring_char(0, end));
    if ext.unicode_len() > 0 {
        r.append(".");
        r.append(ext);
        proof {
            reveal_strlit(".");
            assert("."@ =~= seq!['.']);
        }
    }
    r
}

/// The extension of `name`, where it has one.
pub fn extension(name: &str) -> (r: Option<String>)
    ensures
        match r {
            Some(e) => extension_of(name@) == Some(e@),
            None => extension_of(name@) is None,
        },
{
    let (_is_file, end, n) = split_points(name);
    if end < n {
        Some(String::from_str(name.substring_char(end + 1, n)))
    } else {
        None
    }
}

/// Takes the leading dots from `ext`.
pub fn trim_leading_dots(ext: &str) -> (r: &str)
    ensures
        r@ == trim_dots(ext@),
{
    let n: usize = ext.unicode_len();
    let mut i: usize = 0;
    proof {
        assert(ext@.subrange(0, n as int) == ext@);
    }
    while i < n && ext.get_char(i) == '.'
        invariant
            i <= n,
            n == ext@.len(),
            trim_dots(ext@) == trim_dots(ext@.subrange(i as int, n as int)),
        decreases n - i,
    {
        proof {
            assert(ext@.subrange(i as int, n as int).drop_first() == ext@.subrange(
                i + 1,
                n as int,
            ));
        }
        i = i + 1;
    }
    ext.substring_char(i, n)
}

/// Replaces only the last extension of `f_name` by `ext`: `archive.tar.gz`
/// with `.lat` gives `archive.tar.lat`.
pub fn make_name(f_name: &str, ext: &str) -> (r: String)
    ensures
        r@ == replace_ext(f_name@, ext@),
{
    set_extension(f_name, trim_leading_dots(ext))
}

/// The `num`-th candidate name for `f_name`: the name itself for 0, else the
/// number goes in front of the last extension (`file.1.wav`).
pub fn make_new_name(f_name: &str, num: i32) -> (r: String)
    ensures
        r@ == numbered_name(f_name@, num as int),
{
    if num == 0 {
        return String::from_str(f_name);
    }
    let mut new_ext = to_decimal(num);
    match extension(f_name) {
        Some(e) => {
            new_ext.append(".");
            new_ext.append(e.as_str());
            proof {
                reveal_strlit(".");
                assert("."@ =~= seq!['.']);
            }
        },
        None => {},
    }
    set_extension(f_name, new_ext.as_str())
}

/// Joins a base directory, a stage directory and a file name by `/`.
pub fn join_path(base: &str, folder: &str, name: &str) -> (r: String)
    ensures
        r@ == joined(base@, folder@, name@),
{
    let mut r = String::from_str(base);
    r.append("/");
    r.append(folder);
    r.append("/");
    r.append(name);
    proof {
        reveal_strlit("/");
        assert("/"@ =~= seq!['/']);
    }
    r
}

} // verus!
