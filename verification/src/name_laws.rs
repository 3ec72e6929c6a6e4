//! What holds of the names that the library makes: a numbered name keeps the
//! extension of the name it was made from, and the companion of a numbered
//! name never takes the place of the audio.

use vstd::prelude::*;
use crate::names::{
    decimal, decimal_nat, digit_char, extension_of, file_start, has_extension, has_file_name,
    last_pos, lemma_last_pos, numbered_name, replace_ext, stem_end, trim_dots, with_extension,
};

verus! {

/// Whether `c` may stand in a number: a digit or the minus sign.
pub open spec fn is_number_char(c: char) -> bool {
    c == '-' || c == '0' || c == '1' || c == '2' || c == '3' || c == '4' || c == '5' || c == '6'
        || c == '7' || c == '8' || c == '9'
}

/// An index that holds `c` with no `c` behind it is the last position of `c`.
pub proof fn lemma_last_pos_is(s: Seq<char>, c: char, i: int)
    requires
        -1 <= i < s.len(),
        i >= 0 ==> s[i] == c,
        forall|j: int| i < j < s.len() ==> s[j] != c,
    ensures
        last_pos(s, c) == i,
{
    lemma_last_pos(s, c);
}

/// The digits of a number are digits, and there is at least one.
pub proof fn lemma_decimal_nat_chars(n: nat)
    ensures
        decimal_nat(n).len() >= 1,
        forall|i: int| 0 <= i < decimal_nat(n).len() ==> is_number_char(#[trigger] decimal_nat(n)[i]),
    decreases n,
{
    if n >= 10 {
        lemma_decimal_nat_chars(n / 10);
    }
}

/// A number in decimal is made of digits and the minus sign, and is not empty.
pub proof fn lemma_decimal_chars(n: int)
    ensures
        decimal(n).len() >= 1,
        forall|i: int| 0 <= i < decimal(n).len() ==> is_number_char(#[trigger] decimal(n)[i]),
{
    if n < 0 {
        lemma_decimal_nat_chars((-n) as nat);
    } else {
        lemma_decimal_nat_chars(n as nat);
    }
}

/// The shape of a numbered name. For a name of a file and a number other
/// than 0, the numbered name is again the name of a file, in the same
/// directory; it has an extension, which is that of the name where the name
/// has one and the number where it has none; and it is its stem, a dot and
/// that extension.
pub proof fn lemma_numbered_shape(name: Seq<char>, k: int)
    requires
        has_file_name(name),
        k != 0,
    ensures
        has_file_name(numbered_name(name, k)),
        has_extension(numbered_name(name, k)),
        file_start(numbered_name(name, k)) == file_start(name),
        extension_of(name) is Some ==> extension_of(numbered_name(name, k)) == extension_of(name),
        extension_of(name) is None ==> extension_of(numbered_name(name, k)) == Some(decimal(k)),
        extension_of(name) is None ==> numbered_name(name, k).subrange(
            0,
            stem_end(numbered_name(name, k)),
        ) == name,
        numbered_name(name, k) == numbered_name(name, k).subrange(
            0,
            stem_end(numbered_name(name, k)),
        ) + seq!['.'] + extension_of(numbered_name(name, k))->0,
        extension_of(name) is Some ==> name == name.subrange(0, stem_end(name)) + seq!['.']
            + extension_of(name)->0,
{
    let n = numbered_name(name, k);
    let dec = decimal(k);
    let q = last_pos(name, '/');
    let d = last_pos(name, '.');
    let len = name.len() as int;
    lemma_decimal_chars(k);
    lemma_last_pos(name, '/');
    lemma_last_pos(name, '.');
    if has_extension(name) {
        let stem = name.subrange(0, d);
        let e = name.subrange(d + 1, len);
        let x = dec + seq!['.'] + e;
        assert(x.len() > 0);
        assert(n == stem + seq!['.'] + x);
        let p = d + 1 + dec.len();
        assert(n.len() == p + 1 + e.len());
        assert(n[p] == '.');
        assert forall|j: int| p < j < n.len() implies n[j] != '.' by {
            assert(n[j] == name[d + 1 + (j - p - 1)]);
        }
        lemma_last_pos_is(n, '.', p);
        assert forall|j: int| q < j < n.len() implies n[j] != '/' by {
            if j < d {
                assert(n[j] == name[j]);
            } else if j == d {
            } else if j < p {
                assert(n[j] == dec[j - d - 1]);
                assert(is_number_char(dec[j - d - 1]));
            } else if j == p {
            } else {
                assert(n[j] == name[d + 1 + (j - p - 1)]);
            }
        }
        if q >= 0 {
            assert(n[q] == name[q]);
        }
        lemma_last_pos_is(n, '/', q);
        assert(n.subrange(p + 1, n.len() as int) =~= e);
        assert(n =~= n.subrange(0, p) + seq!['.'] + e);
        assert(name =~= stem + seq!['.'] + e);
    } else {
        assert(name.subrange(0, len) =~= name);
        assert(n == name + seq!['.'] + dec);
        assert(n[len] == '.');
        assert forall|j: int| len < j < n.len() implies n[j] != '.' by {
            assert(n[j] == dec[j - len - 1]);
            assert(is_number_char(dec[j - len - 1]));
        }
        lemma_last_pos_is(n, '.', len);
        assert forall|j: int| q < j < n.len() implies n[j] != '/' by {
            if j < len {
                assert(n[j] == name[j]);
            } else if j == len {
            } else {
                assert(n[j] == dec[j - len - 1]);
                assert(is_number_char(dec[j - len - 1]));
            }
        }
        if q >= 0 {
            assert(n[q] == name[q]);
        }
        lemma_last_pos_is(n, '/', q);
        assert(n.subrange(len + 1, n.len() as int) =~= dec);
        assert(n.subrange(0, len) =~= name);
        assert(n =~= n.subrange(0, len) + seq!['.'] + dec);
    }
}

/// The stem of a numbered name, for a name with an extension: the stem of
/// the name, a dot and the number.
pub proof fn lemma_numbered_stem(name: Seq<char>, k: int)
    requires
        has_file_name(name),
        extension_of(name) is Some,
        k != 0,
    ensures
        numbered_name(name, k).subrange(0, stem_end(numbered_name(name, k))) == name.subrange(
            0,
            stem_end(name),
        ) + seq!['.'] + decimal(k),
{
    let n = numbered_name(name, k);
    let stem = name.subrange(0, stem_end(name));
    let e = extension_of(name)->0;
    let x = decimal(k) + seq!['.'] + e;
    lemma_numbered_shape(name, k);
    lemma_decimal_chars(k);
    lemma_last_pos(name, '.');
    lemma_last_pos(n, '.');
    assert(x.len() > 0);
    assert(n == stem + seq!['.'] + x);
    let p = stem_end(n);
    assert(n.subrange(0, p).len() == p);
    assert(n.len() == p + 1 + e.len());
    assert(n.subrange(0, p) =~= stem + seq!['.'] + decimal(k));
}

/// The value of a digit.
pub open spec fn digit_value(c: char) -> nat {
    if c == '1' {
        1
    } else if c == '2' {
        2
    } else if c == '3' {
        3
    } else if c == '4' {
        4
    } else if c == '5' {
        5
    } else if c == '6' {
        6
    } else if c == '7' {
        7
    } else if c == '8' {
        8
    } else if c == '9' {
        9
    } else {
        0
    }
}

/// The number that a sequence of digits stands for.
pub open spec fn number_of(s: Seq<char>) -> nat
    decreases s.len(),
{
    if s.len() == 0 {
        0
    } else {
        number_of(s.drop_last()) * 10 + digit_value(s.last())
    }
}

/// The digits of a number stand for that number, and none of them is a
/// minus sign.
pub proof fn lemma_decimal_nat_reads_back(n: nat)
    ensures
        number_of(decimal_nat(n)) == n,
        decimal_nat(n).len() >= 1,
        decimal_nat(n)[0] != '-',
    decreases n,
{
    let s = decimal_nat(n);
    if n < 10 {
        assert(s.drop_last() =~= Seq::<char>::empty());
        assert(number_of(s.drop_last()) == 0);
        assert(s.last() == digit_char(n as int));
    } else {
        lemma_decimal_nat_reads_back(n / 10);
        assert(s.drop_last() =~= decimal_nat(n / 10));
        assert(s.last() == digit_char((n % 10) as int));
        assert(s[0] == decimal_nat(n / 10)[0]);
    }
}

/// Two numbers that are written alike are the same number.
pub proof fn lemma_decimal_is_injective(a: int, b: int)
    requires
        decimal(a) == decimal(b),
    ensures
        a == b,
{
    let da = decimal_nat((if a < 0 {
        -a
    } else {
        a
    }) as nat);
    let db = decimal_nat((if b < 0 {
        -b
    } else {
        b
    }) as nat);
    lemma_decimal_nat_reads_back((if a < 0 {
        -a
    } else {
        a
    }) as nat);
    lemma_decimal_nat_reads_back((if b < 0 {
        -b
    } else {
        b
    }) as nat);
    if a < 0 && b < 0 {
        assert((seq!['-'] + da).drop_first() =~= da);
        assert((seq!['-'] + db).drop_first() =~= db);
    } else if a < 0 {
        assert(decimal(a)[0] == '-');
    } else if b < 0 {
        assert(decimal(b)[0] == '-');
    }
}

/// The candidates for the name of a file are all different: two numbers that
/// give the same numbered name are the same number.
pub proof fn lemma_numbered_is_injective(name: Seq<char>, j: int, k: int)
    requires
        has_file_name(name),
        numbered_name(name, j) == numbered_name(name, k),
    ensures
        j == k,
{
    lemma_decimal_chars(j);
    lemma_decimal_chars(k);
    if j != 0 {
        lemma_numbered_shape(name, j);
    }
    if k != 0 {
        lemma_numbered_shape(name, k);
    }
    if j != 0 && k != 0 {
        let n = numbered_name(name, j);
        if extension_of(name) is Some {
            lemma_numbered_stem(name, j);
            lemma_numbered_stem(name, k);
            let stem = name.subrange(0, stem_end(name));
            let sj = stem + seq!['.'] + decimal(j);
            let sk = stem + seq!['.'] + decimal(k);
            assert(sj == sk);
            assert(sj.subrange(stem.len() as int + 1, sj.len() as int) =~= decimal(j));
            assert(sk.subrange(stem.len() as int + 1, sk.len() as int) =~= decimal(k));
        }
        lemma_decimal_is_injective(j, k);
    } else if j != 0 || k != 0 {
        let m = if j != 0 {
            j
        } else {
            k
        };
        let n = numbered_name(name, m);
        lemma_last_pos(name, '.');
        assert(n == name);
        assert(n.len() == stem_end(n) + 1 + extension_of(n)->0.len());
        if extension_of(name) is Some {
            lemma_numbered_stem(name, m);
            assert(n.subrange(0, stem_end(n)).len() == stem_end(name) + 1 + decimal(m).len());
            assert(name.len() == stem_end(name) + 1 + extension_of(name)->0.len());
        } else {
            assert(n.subrange(0, stem_end(n)).len() == name.len());
        }
    }
}

/// A numbered name keeps the extension of the name it was made from.
pub proof fn lemma_numbered_keeps_extension(name: Seq<char>, k: int)
    requires
        extension_of(name) is Some,
    ensures
        extension_of(numbered_name(name, k)) == extension_of(name),
{
    if k != 0 {
        lemma_numbered_shape(name, k);
    }
}

/// Where replacing the extension of a numbered name by `ext` gives that
/// numbered name again, replacing the extension of the name it was made from
/// gives that name again, unless `ext` is the number itself.
pub proof fn lemma_same_extension_as_source(name: Seq<char>, k: int, ext: Seq<char>)
    requires
        ext != decimal(k),
        with_extension(numbered_name(name, k), ext) == numbered_name(name, k),
    ensures
        with_extension(name, ext) == name,
{
    if has_file_name(name) && k != 0 {
        let n = numbered_name(name, k);
        lemma_numbered_shape(name, k);
        lemma_last_pos(n, '.');
        let p = stem_end(n);
        let stem = n.subrange(0, p);
        let e = extension_of(n)->0;
        if ext.len() == 0 {
            assert(with_extension(n, ext).len() == p);
        } else {
            let w = with_extension(n, ext);
            assert(w == stem + seq!['.'] + ext);
            assert(w.subrange(p + 1, w.len() as int) =~= ext);
            assert(n.subrange(p + 1, n.len() as int) =~= e);
            assert(ext == e);
        }
    }
}

/// The companion of a numbered name never takes the place of the audio: if
/// the companion's new name is the audio's new name, the companion is the
/// audio.
pub proof fn lemma_companion_keeps_clear(file: Seq<char>, k: int)
    ensures
        replace_ext(numbered_name(file, k), ".meta"@) == numbered_name(file, k) ==> replace_ext(
            file,
            ".meta"@,
        ) == file,
{
    reveal_strlit(".meta");
    let ext = ".meta"@;
    assert(ext.drop_first().len() == 4);
    assert(ext.drop_first()[0] == 'm');
    assert(trim_dots(ext.drop_first()) == ext.drop_first());
    assert(trim_dots(ext) == ext.drop_first());
    lemma_decimal_chars(k);
    assert(is_number_char(decimal(k)[0]));
    assert(ext.drop_first() != decimal(k));
    if replace_ext(numbered_name(file, k), ext) == numbered_name(file, k) {
        lemma_same_extension_as_source(file, k, ext.drop_first());
    }
}

} // verus!
