use vstd::prelude::*;

verus! {

/// What one line typed at the move prompt asks for.
#[derive(Clone, Copy, Debug, PartialEq, Eq, Structural)]
pub enum MoveInput {
    /// Leave the game.
    Quit,
    /// Not a position from 1 to 9.
    Invalid,
    /// A board position from 1 to 9.
    Position(u8),
}

/// Whether `c` is white space in the sense of Unicode's `White_Space` property.
pub open spec fn is_white_space(c: char) -> bool {
    ('\u{9}' <= c && c <= '\u{d}') || c == ' ' || c == '\u{85}' || c == '\u{a0}' || c
        == '\u{1680}' || ('\u{2000}' <= c && c <= '\u{200a}') || c == '\u{2028}' || c
        == '\u{2029}' || c == '\u{202f}' || c == '\u{205f}' || c == '\u{3000}'
}

/// `s` without its leading white space.
pub open spec fn trim_start(s: Seq<char>) -> Seq<char>
    decreases s.len(),
{
    if s.len() > 0 && is_white_space(s[0]) {
        trim_start(s.drop_first())
    } else {
        s
    }
}

/// `s` without its trailing white space.
pub open spec fn trim_end(s: Seq<char>) -> Seq<char>
    decreases s.len(),
{
    if s.len() > 0 && is_white_space(s.last()) {
        trim_end(s.drop_last())
    } else {
        s
    }
}

/// `s` without white space at either end.
pub open spec fn trimmed(s: Seq<char>) -> Seq<char> {
    trim_end(trim_start(s))
}

/// Whether `c` is an ASCII decimal digit.
pub open spec fn is_digit(c: char) -> bool {
    '0' <= c && c <= '9'
}

/// Whether `s` is one or more ASCII decimal digits.
pub open spec fn all_digits(s: Seq<char>) -> bool {
    s.len() > 0 && forall|i: int| 0 <= i < s.len() ==> #[trigger] is_digit(s[i])
}

/// The number that the decimal digits `s` write.
pub open spec fn digits_value(s: Seq<char>) -> int
    decreases s.len(),
{
    if s.len() == 0 {
        0
    } else {
        10 * digits_value(s.drop_last()) + (s.last() as int - '0' as int)
    }
}

/// The digits of a number written with an optional leading `+`.
pub open spec fn unsigned_digits(s: Seq<char>) -> Seq<char> {
    if s.len() > 0 && s[0] == '+' {
        s.drop_first()
    } else {
        s
    }
}

/// Whether `s` writes a whole number from 1 to 9, in decimal with an optional
/// leading `+` (leading zeros allowed).
pub open spec fn writes_position(s: Seq<char>) -> bool {
    let d = unsigned_digits(s);
    all_digits(d) && 1 <= digits_value(d) <= 9
}

/// The command that the line `s` gives once white space is trimmed from both
/// ends: "q" or "quit" leave, a number from 1 to 9 is a position, anything
/// else is invalid.
pub open spec fn input_command(s: Seq<char>) -> MoveInput {
    let t = trimmed(s);
    if t == "q"@ || t == "quit"@ {
        MoveInput::Quit
    } else if writes_position(t) {
        MoveInput::Position(digits_value(unsigned_digits(t)) as u8)
    } else {
        MoveInput::Invalid
    }
}

fn is_white_space_char(c: char) -> (r: bool)
    ensures
        r == is_white_space(c),
{
    ('\u{9}' <= c && c <= '\u{d}') || c == ' ' || c == '\u{85}' || c == '\u{a0}' || c
        == '\u{1680}' || ('\u{2000}' <= c && c <= '\u{200a}') || c == '\u{2028}' || c
        == '\u{2029}' || c == '\u{202f}' || c == '\u{205f}' || c == '\u{3000}'
}

/// `line` without white space at either end.
fn trim_line(line: &str) -> (r: &str)
    ensures
        r@ == trimmed(line@),
{
    let n = line.unicode_len();
    let ghost s = line@;
    let mut lo: usize = 0;
    assert(s.subrange(0, n as int) =~= s);
    while lo < n && is_white_space_char(line.get_char(lo))
        invariant
            s == line@,
            n == s.len(),
            lo <= n,
            trim_start(s.subrange(lo as int, n as int)) == trim_start(s),
        decreases n - lo,
    {
        assert(s.subrange(lo as int, n as int).drop_first() =~= s.subrange(lo + 1, n as int));
        lo += 1;
    }
    let ghost t = s.subrange(lo as int, n as int);
    assert(trim_start(s) == t);
    let mut hi: usize = n;
    assert(t.subrange(0, t.len() as int) =~= t);
    while hi > lo && is_white_space_char(line.get_char(hi - 1))
        invariant
            s == line@,
            n == s.len(),
            lo <= hi <= n,
            t == s.subrange(lo as int, n as int),
            trim_end(s.subrange(lo as int, hi as int)) == trim_end(t),
        decreases hi - lo,
    {
        assert(s.subrange(lo as int, hi as int).drop_last() =~= s.subrange(
            lo as int,
            hi - 1,
        ));
        hi -= 1;
    }
    assert(s.subrange(lo as int, hi as int) =~= t.subrange(0, hi - lo));
    line.substring_char(lo, hi)
}


/// Reads one line typed at the move prompt: "q" or "quit" leave, a whole
/// number from 1 to 9 is a position, anything else is invalid. White space at
/// either end is ignored.
pub fn parse_move_input(line: &str) -> (r: MoveInput)
    ensures
        r == input_command(line@),
{
    let t = trim_line(line);
    let n = t.unicode_len();
    proof {
        reveal_strlit("q");
        reveal_strlit("quit");
    }
    if n == 1 && t.get_char(0) == 'q' {
        assert(t@ =~= "q"@);
        return MoveInput::Quit;
    }
    if n == 4 && t.get_char(0) == 'q' && t.get_char(1) == 'u' && t.get_char(2) == 'i'
        && t.get_char(3) == 't' {
        assert(t@ =~= "quit"@);
        return MoveInput::Quit;
    }
    assert(t@ != "q"@ && t@ != "quit"@) by {
        if t@ == "q"@ {
            assert(t@[0] == 'q');
        }
        if t@ == "quit"@ {
            assert(t@[0] == 'q' && t@[1] == 'u' && t@[2] == 'i' && t@[3] == 't');
        }
    }
    let start: usize = if n > 0 && t.get_char(0) == '+' {
        1
    } else {
        0
    };
    let ghost d = t@.subrange(start as int, n as int);
    assert(d =~= unsigned_digits(t@));
    if start == n {
        return MoveInput::Invalid;
    }
    let mut capped: u8 = 0;
    let mut i: usize = start;
    assert(t@.subrange(start as int, start as int) =~= Seq::<char>::empty());
    while i < n
        invariant
            start < n,
            n == t@.len(),
            d == t@.subrange(start as int, n as int),
            d == unsigned_digits(t@),
            t@ == trimmed(line@),
            t@ != "q"@ && t@ != "quit"@,
            start <= i <= n,
            forall|j: int| start <= j < i ==> #[trigger] is_digit(t@[j]),
            capped <= 10,
            capped as int == if digits_value(t@.subrange(start as int, i as int)) < 10 {
                digits_value(t@.subrange(start as int, i as int))
            } else {
                10
            },
        decreases n - i,
    {
        let c = t.get_char(i);
        if !('0' <= c && c <= '9') {
            assert(d[i - start] == c);
            assert(!is_digit(d[i - start]));
            assert(!all_digits(d));
            assert(!writes_position(t@));
            return MoveInput::Invalid;
        }
        let ghost prefix = t@.subrange(start as int, i + 1);
        assert(prefix.drop_last() =~= t@.subrange(start as int, i as int));
        assert(prefix.last() == c);
        let digit: u8 = (c as u32 - '0' as u32) as u8;
        let next: u8 = 10 * capped + digit;
        capped = if next >= 10 {
            10
        } else {
            next
        };
        i += 1;
    }
    assert(t@.subrange(start as int, n as int) == d);
    assert(all_digits(d)) by {
        assert forall|j: int| 0 <= j < d.len() implies #[trigger] is_digit(d[j]) by {
            assert(is_digit(t@[start + j]));
        }
    }
    if 1 <= capped && capped <= 9 {
        MoveInput::Position(capped)
    } else {
        MoveInput::Invalid
    }
}

} // verus!
