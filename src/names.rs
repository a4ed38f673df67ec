//! Names of the resources in project storage.
use vstd::prelude::*;

verus! {

/// The character of a decimal digit.
pub open spec fn digit_char(d: nat) -> char
    recommends
        d < 10,
{
    seq!['0', '1', '2', '3', '4', '5', '6', '7', '8', '9'][d as int]
}

/// The decimal digits of `n`, most significant first, without leading zeros.
pub open spec fn decimal(n: nat) -> Seq<char>
    decreases n,
{
    if n < 10 {
        seq![digit_char(n)]
    } else {
        decimal(n / 10).push(digit_char(n % 10))
    }
}

/// How an integer is written in decimal, with a leading `-` when negative.
pub open spec fn signed_decimal(v: int) -> Seq<char> {
    if v < 0 {
        seq!['-'] + decimal((-v) as nat)
    } else {
        decimal(v as nat)
    }
}

/// `s` with `'0'` added in front until it is `width` characters long.
pub open spec fn zero_padded(s: Seq<char>, width: nat) -> Seq<char> {
    if s.len() < width {
        Seq::new((width - s.len()) as nat, |_i: int| '0') + s
    } else {
        s
    }
}

/// The name under which the map `id` is stored: `Map` and the id, padded
/// with zeros to three characters, then `.ron`.
pub open spec fn map_name_of(id: i32) -> Seq<char> {
    seq!['M', 'a', 'p'] + zero_padded(signed_decimal(id as int), 3) + seq!['.', 'r', 'o', 'n']
}

fn digit_str(d: u32) -> (r: &'static str)
    requires
        d < 10,
    ensures
        r@ == seq![digit_char(d as nat)],
{
    proof {
        reveal_strlit("0");
        reveal_strlit("1");
        reveal_strlit("2");
        reveal_strlit("3");
        reveal_strlit("4");
        reveal_strlit("5");
        reveal_strlit("6");
        reveal_strlit("7");
        reveal_strlit("8");
        reveal_strlit("9");
    }
    if d == 0 {
        "0"
    } else if d == 1 {
        "1"
    } else if d == 2 {
        "2"
    } else if d == 3 {
        "3"
    } else if d == 4 {
        "4"
    } else if d == 5 {
        "5"
    } else if d == 6 {
        "6"
    } else if d == 7 {
        "7"
    } else if d == 8 {
        "8"
    } else {
        "9"
    }
}

fn append_decimal(s: &mut String, n: u32)
    ensures
        final(s)@ == old(s)@ + decimal(n as nat),
    decreases n,
{
    if n >= 10 {
        append_decimal(s, n / 10);
    }
    s.append(digit_str(n % 10));
    assert(final(s)@ =~= old(s)@ + decimal(n as nat)) by {
        if n >= 10 {
            assert(decimal(n as nat) == decimal((n / 10) as nat).push(digit_char((n % 10) as nat)));
        }
    }
}

/// The storage name of map `id`, as `map_name_of` gives it (`Map001.ron`).
pub fn map_file_name(id: i32) -> (r: String)
    ensures
        r@ == map_name_of(id),
{
    proof {
        reveal_strlit("-");
        reveal_strlit("0");
        reveal_strlit("Map");
        reveal_strlit(".ron");
    }
    let mut number = String::new();
    let magnitude: u32;
    if id < 0 {
        number.append("-");
        magnitude = (0i64 - id as i64) as u32;
    } else {
        magnitude = id as u32;
    }
    append_decimal(&mut number, magnitude);
    assert(number@ =~= signed_decimal(id as int));
    let start: usize = number.as_str().unicode_len();
    let mut len: usize = start;
    let mut r = String::from_str("Map");
    while len < 3
        invariant
            start <= len,
            start < 3 ==> len <= 3,
            start >= 3 ==> len == start,
            r@ =~= seq!['M', 'a', 'p'] + Seq::new((len - start) as nat, |_i: int| '0'),
        decreases 3 - len,
    {
        proof {
            reveal_strlit("0");
        }
        r.append("0");
        len = len + 1;
        assert(r@ =~= seq!['M', 'a', 'p'] + Seq::new((len - start) as nat, |_i: int| '0')) by {
            assert(Seq::new((len - start) as nat, |_i: int| '0') =~= Seq::new(
                (len - 1 - start) as nat,
                |_i: int| '0',
            ).push('0'));
        }
    }
    let ghost zeros = r@;
    r.append(number.as_str());
    r.append(".ron");
    assert(zeros + number@ =~= seq!['M', 'a', 'p'] + zero_padded(number@, 3)) by {
        if start >= 3 {
            assert(zeros =~= seq!['M', 'a', 'p']);
        }
    }
    assert(r@ =~= map_name_of(id));
    r
}

} // verus!
