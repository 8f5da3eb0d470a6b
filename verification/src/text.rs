//! The text of labels: indentation, decimal indices and quoting.

use vstd::prelude::*;
use vstd::string::StringExecFns;

verus! {

/// The indentation of a label at nesting level `depth`: two spaces per level.
pub open spec fn indent(depth: nat) -> Seq<char> {
    Seq::new(2 * depth, |i: int| ' ')
}

/// The character that writes the decimal digit `d`.
pub open spec fn digit_char(d: nat) -> char
    recommends
        d < 10,
{
    if d == 0 {
        '0'
    } else if d == 1 {
        '1'
    } else if d == 2 {
        '2'
    } else if d == 3 {
        '3'
    } else if d == 4 {
        '4'
    } else if d == 5 {
        '5'
    } else if d == 6 {
        '6'
    } else if d == 7 {
        '7'
    } else if d == 8 {
        '8'
    } else {
        '9'
    }
}

/// The decimal numeral of `n`, most significant digit first, without leading
/// zeros.
pub open spec fn decimal(n: nat) -> Seq<char>
    decreases n,
{
    if n < 10 {
        seq![digit_char(n)]
    } else {
        decimal(n / 10).push(digit_char(n % 10))
    }
}

/// The label of the array element at `index`: the index in square brackets.
pub open spec fn index_label(index: nat) -> Seq<char> {
    seq!['['] + decimal(index) + seq![']']
}

/// The text of a string scalar: the string between two quotation marks, with
/// nothing escaped.
pub open spec fn quoted(s: Seq<char>) -> Seq<char> {
    seq!['"'] + s + seq!['"']
}

/// The text of a boolean scalar.
pub open spec fn bool_text(b: bool) -> Seq<char> {
    if b {
        seq!['t', 'r', 'u', 'e']
    } else {
        seq!['f', 'a', 'l', 's', 'e']
    }
}

/// The text of the null scalar.
pub open spec fn null_text() -> Seq<char> {
    seq!['n', 'u', 'l', 'l']
}

/// One more level of indentation is two more spaces.
pub proof fn lemma_indent_step(depth: nat)
    ensures
        indent(depth + 1) == indent(depth) + seq![' ', ' '],
{
    assert(indent(depth + 1) =~= indent(depth) + seq![' ', ' ']);
}

/// The indentation at `depth` is `2 * depth` characters long and holds
/// nothing but spaces.
pub proof fn lemma_indent_shape(depth: nat)
    ensures
        indent(depth).len() == 2 * depth,
        forall|i: int| 0 <= i < 2 * depth ==> indent(depth)[i] == ' ',
{
}

fn digit_str(d: usize) -> (s: &'static str)
    requires
        d < 10,
    ensures
        s@ == seq![digit_char(d as nat)],
{
    proof {
        reveal_strlit("0");
        reveal_strlit("1");
        reveal_strlit("2");
        reveal_strlit("3");
        reveal_strlit("4");
        reveal_strlit("5");
        reveal_strlit("6");
        reveal_strlit("7");
        reveal_strlit("8");
        reveal_strlit("9");
    }
    let s = if d == 0 {
        "0"
    } else if d == 1 {
        "1"
    } else if d == 2 {
        "2"
    } else if d == 3 {
        "3"
    } else if d == 4 {
        "4"
    } else if d == 5 {
        "5"
    } else if d == 6 {
        "6"
    } else if d == 7 {
        "7"
    } else if d == 8 {
        "8"
    } else {
        "9"
    };
    assert(s@ =~= seq![digit_char(d as nat)]);
    s
}

/// Appends the decimal numeral of `n` to `out`.
pub fn push_decimal(out: &mut String, n: usize)
    ensures
        final(out)@ == old(out)@ + decimal(n as nat),
    decreases n,
{
    if n >= 10 {
        push_decimal(out, n / 10);
    }
    out.append(digit_str(n % 10));
    proof {
        if n >= 10 {
            assert(old(out)@ + decimal(n as nat / 10) + seq![digit_char(n as nat % 10)] =~= old(out)@
                + decimal(n as nat));
        }
    }
}

/// The indentation of a label at nesting level `depth`.
pub fn indentation(depth: usize) -> (s: String)
    ensures
        s@ == indent(depth as nat),
{
    let mut s = String::new();
    let mut level: usize = 0;
    while level < depth
        invariant
            level <= depth,
            s@ == indent(level as nat),
        decreases depth - level,
    {
        proof {
            reveal_strlit("  ");
            lemma_indent_step(level as nat);
            assert("  "@ =~= seq![' ', ' ']);
        }
        s.append("  ");
        level = level + 1;
    }
    s
}

/// The indentation one level deeper than `prefix`: two more spaces.
pub fn indent_further(prefix: &str) -> (deeper: String)
    ensures
        deeper@ == prefix@ + seq![' ', ' '],
{
    let mut deeper = String::from_str(prefix);
    deeper.append("  ");
    proof {
        reveal_strlit("  ");
        assert("  "@ =~= seq![' ', ' ']);
    }
    deeper
}

/// Appends the label of the array element at `index`.
pub fn push_index_label(out: &mut String, index: usize)
    ensures
        final(out)@ == old(out)@ + index_label(index as nat),
{
    out.append("[");
    push_decimal(out, index);
    out.append("]");
    proof {
        reveal_strlit("[");
        reveal_strlit("]");
        assert(out@ =~= old(out)@ + index_label(index as nat));
    }
}

/// Appends the text of the string scalar `s`.
pub fn push_quoted(out: &mut String, s: &str)
    ensures
        final(out)@ == old(out)@ + quoted(s@),
{
    out.append("\"");
    out.append(s);
    out.append("\"");
    proof {
        reveal_strlit("\"");
        assert(out@ =~= old(out)@ + quoted(s@));
    }
}

/// Appends the text of the boolean scalar `b`.
pub fn push_bool(out: &mut String, b: bool)
    ensures
        final(out)@ == old(out)@ + bool_text(b),
{
    if b {
        out.append("true");
    } else {
        out.append("false");
    }
    proof {
        reveal_strlit("true");
        reveal_strlit("false");
        assert(out@ =~= old(out)@ + bool_text(b));
    }
}

/// Appends the text of the null scalar.
pub fn push_null(out: &mut String)
    ensures
        final(out)@ == old(out)@ + null_text(),
{
    out.append("null");
    proof {
        reveal_strlit("null");
        assert(out@ =~= old(out)@ + null_text());
    }
}

} // verus!
