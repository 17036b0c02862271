use vstd::prelude::*;
use vstd::string::{StrSliceExecFns, StringExecFns};

verus! {

/// The decimal digit `d` (0 to 9) as a character.
pub open spec fn digit_char(d: int) -> char {
    if d == 0 {
        '0'
    } else if d == 1 {
        '1'
    } else if d == 2 {
        '2'
    } else if d == 3 {
        '3'
    } else if d == 4 {
        '4'
    } else if d == 5 {
        '5'
    } else if d == 6 {
        '6'
    } else if d == 7 {
        '7'
    } else if d == 8 {
        '8'
    } else {
        '9'
    }
}

/// `n` in decimal, padded on the left with zeros to at least `width` digits
/// (`padded_decimal(42, 6)` is `000042`; wider numbers keep all their digits).
pub open spec fn padded_decimal(n: nat, width: nat) -> Seq<char>
    decreases n + width,
{
    if n == 0 && width == 0 {
        Seq::empty()
    } else {
        padded_decimal(n / 10, if width > 0 { (width - 1) as nat } else { 0 }).push(
            digit_char((n % 10) as int),
        )
    }
}

/// The file extension for a container format name: `.mp4` for `mp4`, `.ts`
/// for `mpegts`, and `dat` (without a dot) for any other or no name.
pub open spec fn ext_of_format_spec(format: Option<Seq<char>>) -> Seq<char> {
    match format {
        Some(f) => if f == "mp4"@ {
            ".mp4"@
        } else if f == "mpegts"@ {
            ".ts"@
        } else {
            "dat"@
        },
        None => "dat"@,
    }
}

/// The default name of fragment `index`: `MED`, the index padded to six
/// digits, then the format's extension (`MED000100.ts`).
pub open spec fn default_location(index: nat, format: Option<Seq<char>>) -> Seq<char> {
    "MED"@ + padded_decimal(index, 6) + ext_of_format_spec(format)
}

fn digit_str(d: usize) -> (r: &'static str)
    requires
        d < 10,
    ensures
        r@ == seq![digit_char(d as int)],
{
    proof {
        reveal_strlit("0");
        reveal_strlit("1");
        reveal_strlit("2");
        reveal_strlit("3");
        reveal_strlit("4");
        reveal_strlit("5");
        reveal_strlit("6");
        reveal_strlit("7");
        reveal_strlit("8");
        reveal_strlit("9");
    }
    if d == 0 {
        "0"
    } else if d == 1 {
        "1"
    } else if d == 2 {
        "2"
    } else if d == 3 {
        "3"
    } else if d == 4 {
        "4"
    } else if d == 5 {
        "5"
    } else if d == 6 {
        "6"
    } else if d == 7 {
        "7"
    } else if d == 8 {
        "8"
    } else {
        "9"
    }
}

/// Appends `n` in decimal, zero-padded to `width` digits, to `s`.
pub fn append_padded(s: &mut String, n: usize, width: usize)
    ensures
        final(s)@ == old(s)@ + padded_decimal(n as nat, width as nat),
    decreases n + width,
{
    if n == 0 && width == 0 {
        assert(old(s)@ + Seq::<char>::empty() =~= old(s)@);
        return;
    }
    let w: usize = if width > 0 { width - 1 } else { 0 };
    append_padded(s, n / 10, w);
    s.append(digit_str(n % 10));
    assert(s@ =~= old(s)@ + padded_decimal(n as nat, width as nat));
}

/// Whether two strings hold the same characters.
pub fn str_eq(a: &str, b: &str) -> (r: bool)
    ensures
        r == (a@ == b@),
{
    let n = a.unicode_len();
    if n != b.unicode_len() {
        return false;
    }
    let mut i: usize = 0;
    while i < n
        invariant
            n == a@.len(),
            n == b@.len(),
            i <= n,
            forall|j: int| 0 <= j < i ==> a@[j] == b@[j],
        decreases n - i,
    {
        if a.get_char(i) != b.get_char(i) {
            return false;
        }
        i = i + 1;
    }
    assert(a@ =~= b@);
    true
}

/// The file extension for a container format name.
pub fn ext_of_format(format: Option<&str>) -> (r: &'static str)
    ensures
        r@ == ext_of_format_spec(
            match format {
                Some(f) => Some(f@),
                None => None,
            },
        ),
{
    match format {
        Some(f) => if str_eq(f, "mp4") {
            ".mp4"
        } else if str_eq(f, "mpegts") {
            ".ts"
        } else {
            "dat"
        },
        None => "dat",
    }
}

/// The default file name of fragment `index` for `format`.
pub fn default_file_name(index: usize, format: Option<&str>) -> (r: String)
    ensures
        r@ == default_location(
            index as nat,
            match format {
                Some(f) => Some(f@),
                None => None,
            },
        ),
{
    let mut s = String::from_str("MED");
    append_padded(&mut s, index, 6);
    s.append(ext_of_format(format));
    assert(s@ =~= default_location(
        index as nat,
        match format {
            Some(f) => Some(f@),
            None => None,
        },
    ));
    s
}

} // verus!
