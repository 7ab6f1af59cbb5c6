use vstd::prelude::*;

verus! {

/// The capability to describe a value in a line of text.
pub trait Summary {
    /// The text that `summarize` returns.
    spec fn summary(&self) -> Seq<char>;

    fn summarize(&self) -> (r: String)
        ensures
            r@ == self.summary(),
    ;
}

/// A person is summarized by their name.
pub struct Person {
    pub name: String,
}

impl Person {
    pub fn new(name: String) -> (r: Person)
        ensures
            r.name@ == name@,
    {
        Person { name }
    }
}

impl Summary for Person {
    open spec fn summary(&self) -> Seq<char> {
        self.name@
    }

    fn summarize(&self) -> (r: String) {
        self.name.clone()
    }
}

/// The character of the decimal digit `d`.
pub open spec fn digit_char(d: nat) -> char {
    seq!['0', '1', '2', '3', '4', '5', '6', '7', '8', '9'][d as int]
}

/// The decimal digits of `n`, most significant first, with no leading zero.
pub open spec fn digits(n: nat) -> Seq<char>
    decreases n,
{
    if n < 10 {
        seq![digit_char(n)]
    } else {
        digits(n / 10).push(digit_char(n % 10))
    }
}

/// `n` written in decimal, with a leading minus sign where it is negative.
pub open spec fn decimal(n: int) -> Seq<char> {
    if n < 0 {
        seq!['-'] + digits((-n) as nat)
    } else {
        digits(n as nat)
    }
}

/// The one-character string of the decimal digit `d`.
fn digit_str(d: u32) -> (r: &'static str)
    requires
        d < 10,
    ensures
        r@ == seq![digit_char(d as nat)],
{
    proof {
        reveal_strlit("0");
        reveal_strlit("1");
        reveal_strlit("2");
        reveal_strlit("3");
        reveal_strlit("4");
        reveal_strlit("5");
        reveal_strlit("6");
        reveal_strlit("7");
        reveal_strlit("8");
        reveal_strlit("9");
    }
    if d == 0 {
        "0"
    } else if d == 1 {
        "1"
    } else if d == 2 {
        "2"
    } else if d == 3 {
        "3"
    } else if d == 4 {
        "4"
    } else if d == 5 {
        "5"
    } else if d == 6 {
        "6"
    } else if d == 7 {
        "7"
    } else if d == 8 {
        "8"
    } else {
        "9"
    }
}

/// Appends the decimal digits of `m` to `s`.
fn append_digits(s: &mut String, m: u32)
    ensures
        final(s)@ == old(s)@ + digits(m as nat),
    decreases m,
{
    if m >= 10 {
        append_digits(s, m / 10);
    }
    s.append(digit_str(m % 10));
    assert(final(s)@ =~= old(s)@ + digits(m as nat));
}

impl Summary for i32 {
    open spec fn summary(&self) -> Seq<char> {
        "I'm an i32: "@ + decimal(*self as int) + "!"@
    }

    fn summarize(&self) -> (r: String) {
        let mut s = String::from_str("I'm an i32: ");
        let m: u32;
        if *self < 0 {
            s.append("-");
            m = (0 - (*self as i64)) as u32;
        } else {
            m = *self as u32;
        }
        let ghost head = s@;
        append_digits(&mut s, m);
        s.append("!");
        proof {
            reveal_strlit("-");
            assert(head + digits(m as nat) == "I'm an i32: "@ + decimal(*self as int));
        }
        s
    }
}

} // verus!
