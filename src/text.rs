//! Text building blocks: decimal rendering and the indexed text of an issue.
use vstd::prelude::*;

verus! {

/// The character of a decimal digit.
pub open spec fn digit_char(d: nat) -> char {
    if d == 0 {
        '0'
    } else if d == 1 {
        '1'
    } else if d == 2 {
        '2'
    } else if d == 3 {
        '3'
    } else if d == 4 {
        '4'
    } else if d == 5 {
        '5'
    } else if d == 6 {
        '6'
    } else if d == 7 {
        '7'
    } else if d == 8 {
        '8'
    } else {
        '9'
    }
}

/// Decimal digits of a natural number, most significant first, no leading zeros.
pub open spec fn digits_of(n: nat) -> Seq<char>
    decreases n,
{
    if n < 10 {
        seq![digit_char(n)]
    } else {
        digits_of(n / 10).push(digit_char(n % 10))
    }
}

/// Decimal rendering of an integer, with a leading `-` for negatives.
pub open spec fn decimal_of(n: int) -> Seq<char> {
    if n < 0 {
        seq!['-'] + digits_of((-n) as nat)
    } else {
        digits_of(n as nat)
    }
}

fn digit_str(d: u64) -> (r: &'static str)
    requires
        d < 10,
    ensures
        r@ == seq![digit_char(d as nat)],
{
    proof {
        reveal_strlit("0");
        reveal_strlit("1");
        reveal_strlit("2");
        reveal_strlit("3");
        reveal_strlit("4");
        reveal_strlit("5");
        reveal_strlit("6");
        reveal_strlit("7");
        reveal_strlit("8");
        reveal_strlit("9");
    }
    if d == 0 {
        "0"
    } else if d == 1 {
        "1"
    } else if d == 2 {
        "2"
    } else if d == 3 {
        "3"
    } else if d == 4 {
        "4"
    } else if d == 5 {
        "5"
    } else if d == 6 {
        "6"
    } else if d == 7 {
        "7"
    } else if d == 8 {
        "8"
    } else {
        "9"
    }
}

fn append_digits(r: &mut String, m: u64)
    ensures
        final(r)@ == old(r)@ + digits_of(m as nat),
    decreases m,
{
    if m < 10 {
        r.append(digit_str(m));
    } else {
        append_digits(r, m / 10);
        r.append(digit_str(m % 10));
        assert(digits_of(m as nat) == digits_of((m / 10) as nat).push(digit_char((m % 10) as nat)));
    }
}

/// Decimal rendering of an integer, with a leading `-` for negatives.
pub fn i64_to_string(n: i64) -> (r: String)
    ensures
        r@ == decimal_of(n as int),
{
    let mut r = String::new();
    if n < 0 {
        r.append("-");
        proof {
            reveal_strlit("-");
        }
        let m: u64 = (0i128 - n as i128) as u64;
        append_digits(&mut r, m);
        assert(r@ =~= seq!['-'] + digits_of((-n) as nat));
    } else {
        append_digits(&mut r, n as u64);
        assert(r@ =~= digits_of(n as nat));
    }
    r
}

/// Separator put in front of every comment in the indexed text of an issue.
pub open spec fn comment_separator() -> Seq<char> {
    "\n----\nComment: "@
}

/// The comment bodies, each preceded by the separator.
pub open spec fn comments_text(comments: Seq<Seq<char>>) -> Seq<char>
    decreases comments.len(),
{
    if comments.len() == 0 {
        Seq::empty()
    } else {
        comments_text(comments.drop_last()) + comment_separator() + comments.last()
    }
}

/// The text that is embedded for an issue: a title line, the body, then every
/// comment body behind a separator line.
pub open spec fn issue_text_spec(title: Seq<char>, body: Seq<char>, comments: Seq<Seq<char>>) -> Seq<char> {
    "# "@ + title + "\n"@ + body + comments_text(comments)
}

/// The views of a list of strings.
pub open spec fn views_of(v: Seq<String>) -> Seq<Seq<char>> {
    v.map_values(|s: String| s@)
}

/// Builds the indexed text of an issue from its title, body and comment bodies.
pub fn issue_text(title: &str, body: &str, comments: &Vec<String>) -> (r: String)
    ensures
        r@ == issue_text_spec(title@, body@, views_of(comments@)),
{
    let mut r = String::from_str("# ");
    r.append(title);
    r.append("\n");
    r.append(body);
    let mut i: usize = 0;
    while i < comments.len()
        invariant
            i <= comments.len(),
            r@ == issue_text_spec(title@, body@, views_of(comments@.subrange(0, i as int))),
        decreases comments.len() - i,
    {
        r.append("\n----\nComment: ");
        r.append(comments[i].as_str());
        proof {
            let prev = comments@.subrange(0, i as int);
            let next = comments@.subrange(0, i as int + 1);
            assert(next.drop_last() =~= prev);
            assert(views_of(next).drop_last() =~= views_of(prev));
            assert(views_of(next).last() == comments@[i as int]@);
        }
        i = i + 1;
    }
    proof {
        assert(comments@.subrange(0, comments.len() as int) =~= comments@);
    }
    r
}

} // verus!
