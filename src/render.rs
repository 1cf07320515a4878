use vstd::prelude::*;
use vstd::string::*;

verus! {

/// Width of the right-aligned AS-number column.
pub const ASN_WIDTH: usize = 6;

/// Width of the left-aligned prefix column.
pub const PREFIX_WIDTH: usize = 20;

/// Width that each AS number of a path is padded to.
pub const HOP_WIDTH: usize = 6;

/// The character of a decimal digit.
pub open spec fn digit_char(d: nat) -> char {
    seq!['0', '1', '2', '3', '4', '5', '6', '7', '8', '9'][d as int]
}

/// The decimal text of a number, without leading zeros.
pub open spec fn decimal(n: nat) -> Seq<char>
    decreases n,
{
    if n < 10 {
        seq![digit_char(n)]
    } else {
        decimal(n / 10).push(digit_char(n % 10))
    }
}

pub open spec fn spaces(n: nat) -> Seq<char> {
    Seq::new(n, |i: int| ' ')
}

/// `s` right-aligned in a column of `w` characters; never cut.
pub open spec fn pad_left(s: Seq<char>, w: nat) -> Seq<char> {
    if s.len() >= w {
        s
    } else {
        spaces((w - s.len()) as nat) + s
    }
}

/// `s` left-aligned in a column of `w` characters; never cut.
pub open spec fn pad_right(s: Seq<char>, w: nat) -> Seq<char> {
    if s.len() >= w {
        s
    } else {
        s + spaces((w - s.len()) as nat)
    }
}

/// The AS path as padded decimal numbers joined by single spaces.
pub open spec fn path_text(path: Seq<u32>) -> Seq<char>
    decreases path.len(),
{
    if path.len() == 0 {
        seq![]
    } else if path.len() == 1 {
        pad_right(decimal(path[0] as nat), HOP_WIDTH as nat)
    } else {
        path_text(path.drop_last()) + seq![' '] + pad_right(
            decimal(path.last() as nat),
            HOP_WIDTH as nat,
        )
    }
}

/// The line for one announced prefix, given the prefix's text.
pub open spec fn announce_line_spec(asn: u32, prefix: Seq<char>, path: Seq<u32>) -> Seq<char> {
    pad_left(decimal(asn as nat), ASN_WIDTH as nat) + seq!['|', 'A', ' '] + pad_right(
        prefix,
        PREFIX_WIDTH as nat,
    ) + seq!['|'] + path_text(path)
}

/// The line for one withdrawn prefix, given the prefix's text.
pub open spec fn withdraw_line_spec(asn: u32, prefix: Seq<char>) -> Seq<char> {
    pad_left(decimal(asn as nat), ASN_WIDTH as nat) + seq!['|', 'W', ' '] + pad_right(
        prefix,
        PREFIX_WIDTH as nat,
    )
}

fn digit_str(d: u32) -> (r: &'static str)
    requires
        d < 10,
    ensures
        r@ == seq![digit_char(d as nat)],
{
    if d == 0 {
        proof { reveal_strlit("0"); }
        assert("0"@ =~= seq!['0']);
        "0"
    } else if d == 1 {
        proof { reveal_strlit("1"); }
        assert("1"@ =~= seq!['1']);
        "1"
    } else if d == 2 {
        proof { reveal_strlit("2"); }
        assert("2"@ =~= seq!['2']);
        "2"
    } else if d == 3 {
        proof { reveal_strlit("3"); }
        assert("3"@ =~= seq!['3']);
        "3"
    } else if d == 4 {
        proof { reveal_strlit("4"); }
        assert("4"@ =~= seq!['4']);
        "4"
    } else if d == 5 {
        proof { reveal_strlit("5"); }
        assert("5"@ =~= seq!['5']);
        "5"
    } else if d == 6 {
        proof { reveal_strlit("6"); }
        assert("6"@ =~= seq!['6']);
        "6"
    } else if d == 7 {
        proof { reveal_strlit("7"); }
        assert("7"@ =~= seq!['7']);
        "7"
    } else if d == 8 {
        proof { reveal_strlit("8"); }
        assert("8"@ =~= seq!['8']);
        "8"
    } else {
        proof { reveal_strlit("9"); }
        assert("9"@ =~= seq!['9']);
        "9"
    }
}

/// Appends the decimal text of `n`.
pub fn push_decimal(out: &mut String, n: u32)
    ensures
        final(out)@ == old(out)@ + decimal(n as nat),
    decreases n,
{
    if n < 10 {
        out.append(digit_str(n));
        assert(decimal(n as nat) == seq![digit_char(n as nat)]);
    } else {
        push_decimal(out, n / 10);
        out.append(digit_str(n % 10));
        assert(decimal(n as nat) == decimal((n / 10) as nat).push(digit_char((n % 10) as nat)));
        assert(final(out)@ =~= old(out)@ + decimal(n as nat));
    }
}

/// The decimal text of `n`.
pub fn decimal_text(n: u32) -> (r: String)
    ensures
        r@ == decimal(n as nat),
{
    let mut s = String::new();
    push_decimal(&mut s, n);
    assert(s@ =~= decimal(n as nat));
    s
}

fn push_spaces(out: &mut String, n: usize)
    ensures
        final(out)@ == old(out)@ + spaces(n as nat),
{
    proof { reveal_strlit(" "); }
    assert(" "@ =~= seq![' ']);
    let ghost start = out@;
    let mut i: usize = 0;
    assert(out@ =~= start + spaces(0));
    while i < n
        invariant
            i <= n,
            out@ == start + spaces(i as nat),
            " "@ == seq![' '],
        decreases n - i,
    {
        out.append(" ");
        assert(spaces((i + 1) as nat) =~= spaces(i as nat) + seq![' ']);
        assert(out@ =~= start + spaces((i + 1) as nat));
        i = i + 1;
    }
}

/// Appends `s` right-aligned in a column of `w` characters.
fn push_padded_left(out: &mut String, s: &str, w: usize)
    ensures
        final(out)@ == old(out)@ + pad_left(s@, w as nat),
{
    let n = s.unicode_len();
    if n < w {
        push_spaces(out, w - n);
    }
    out.append(s);
    assert(out@ =~= old(out)@ + pad_left(s@, w as nat));
}

/// Appends `s` left-aligned in a column of `w` characters.
fn push_padded_right(out: &mut String, s: &str, w: usize)
    ensures
        final(out)@ == old(out)@ + pad_right(s@, w as nat),
{
    let n = s.unicode_len();
    out.append(s);
    if n < w {
        push_spaces(out, w - n);
    }
    assert(out@ =~= old(out)@ + pad_right(s@, w as nat));
}

/// Appends the text of an AS path.
fn push_path(out: &mut String, path: &Vec<u32>)
    ensures
        final(out)@ == old(out)@ + path_text(path@),
{
    proof { reveal_strlit(" "); }
    assert(" "@ =~= seq![' ']);
    let ghost start = out@;
    let mut i: usize = 0;
    assert(path@.take(0) =~= seq![]);
    assert(out@ =~= start + path_text(path@.take(0)));
    while i < path.len()
        invariant
            i <= path@.len(),
            out@ == start + path_text(path@.take(i as int)),
            " "@ == seq![' '],
        decreases path.len() - i,
    {
        let ghost before = out@;
        let hop = decimal_text(path[i]);
        if i > 0 {
            out.append(" ");
        }
        push_padded_right(out, hop.as_str(), HOP_WIDTH);
        proof {
            let t = path@.take(i + 1);
            assert(t.drop_last() =~= path@.take(i as int));
            assert(t.last() == path@[i as int]);
            if i == 0 {
                assert(path_text(t) == pad_right(decimal(path@[0] as nat), HOP_WIDTH as nat));
            } else {
                assert(path_text(t) == path_text(path@.take(i as int)) + seq![' '] + pad_right(
                    decimal(path@[i as int] as nat),
                    HOP_WIDTH as nat,
                ));
            }
        }
        i = i + 1;
        assert(out@ =~= start + path_text(path@.take(i as int)));
    }
    assert(path@.take(path@.len() as int) =~= path@);
}

/// The line for one announced prefix, given the prefix's text: the AS
/// number right-aligned in six columns, `|A `, the prefix left-aligned in
/// twenty, `|`, and the path.
pub fn announce_line(asn: u32, prefix: &str, path: &Vec<u32>) -> (r: String)
    ensures
        r@ == announce_line_spec(asn, prefix@, path@),
{
    proof {
        reveal_strlit("|A ");
        reveal_strlit("|");
    }
    assert("|A "@ =~= seq!['|', 'A', ' ']);
    assert("|"@ =~= seq!['|']);
    let mut out = String::new();
    let a = decimal_text(asn);
    push_padded_left(&mut out, a.as_str(), ASN_WIDTH);
    out.append("|A ");
    push_padded_right(&mut out, prefix, PREFIX_WIDTH);
    out.append("|");
    push_path(&mut out, path);
    assert(out@ =~= announce_line_spec(asn, prefix@, path@));
    out
}

/// The line for one withdrawn prefix, given the prefix's text: the AS
/// number right-aligned in six columns, `|W `, and the prefix left-aligned
/// in twenty.
pub fn withdraw_line(asn: u32, prefix: &str) -> (r: String)
    ensures
        r@ == withdraw_line_spec(asn, prefix@),
{
    proof {
        reveal_strlit("|W ");
    }
    assert("|W "@ =~= seq!['|', 'W', ' ']);
    let mut out = String::new();
    let a = decimal_text(asn);
    push_padded_left(&mut out, a.as_str(), ASN_WIDTH);
    out.append("|W ");
    push_padded_right(&mut out, prefix, PREFIX_WIDTH);
    assert(out@ =~= withdraw_line_spec(asn, prefix@));
    out
}

} // verus!
