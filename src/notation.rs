use vstd::prelude::*;

verus! {

/// The file letters, in column order.
pub open spec fn file_letters() -> Seq<char> {
    seq!['A', 'B', 'C', 'D', 'E', 'F', 'G', 'H']
}

/// The rank digits, from rank 1 to rank 8. Row 0 is rank 8 and row 7 is
/// rank 1.
pub open spec fn rank_digits() -> Seq<char> {
    seq!['1', '2', '3', '4', '5', '6', '7', '8']
}

/// The name of square `i`: its file letter (upper case) and its rank digit,
/// rank 8 on row 0 and rank 1 on row 7.
pub open spec fn notation_of(i: int) -> Seq<char> {
    seq![file_letters()[i % 8], rank_digits()[7 - i / 8]]
}

/// The column that a file letter names, in either case.
pub open spec fn file_value(c: char) -> Option<int> {
    if 'a' <= c && c <= 'h' {
        Some(c as int - 'a' as int)
    } else if 'A' <= c && c <= 'H' {
        Some(c as int - 'A' as int)
    } else {
        None
    }
}

/// The row that a rank digit names: rank 8 is row 0, rank 1 is row 7.
pub open spec fn rank_value(c: char) -> Option<int> {
    if '1' <= c && c <= '8' {
        Some('8' as int - c as int)
    } else {
        None
    }
}

/// The square that a two-character name denotes, if it is well formed.
pub open spec fn parse_notation(s: Seq<char>) -> Option<int> {
    if s.len() == 2 && file_value(s[0]) is Some && rank_value(s[1]) is Some {
        Some(rank_value(s[1])->Some_0 * 8 + file_value(s[0])->Some_0)
    } else {
        None
    }
}

/// The square named by `position`, or `None` where the name is malformed.
pub fn an_to_index(position: &str) -> (r: Option<usize>)
    ensures
        r matches Some(i) ==> i < 64,
        r is Some <==> parse_notation(position@) is Some,
        r matches Some(i) ==> parse_notation(position@) == Some(i as int),
{
    if position.unicode_len() != 2 {
        return None;
    }
    let f = position.get_char(0);
    let k = position.get_char(1);
    let column: u32 = if 'a' <= f && f <= 'h' {
        f as u32 - 'a' as u32
    } else if 'A' <= f && f <= 'H' {
        f as u32 - 'A' as u32
    } else {
        return None;
    };
    if !('1' <= k && k <= '8') {
        return None;
    }
    let row: u32 = '8' as u32 - k as u32;
    Some((row * 8 + column) as usize)
}

/// The file letter of column `c`, as a one-character string.
fn file_name(c: usize) -> (r: &'static str)
    requires
        c < 8,
    ensures
        r@ == seq![file_letters()[c as int]],
{
    match c {
        0 => {
            proof {
                reveal_strlit("A");
            }
            "A"
        },
        1 => {
            proof {
                reveal_strlit("B");
            }
            "B"
        },
        2 => {
            proof {
                reveal_strlit("C");
            }
            "C"
        },
        3 => {
            proof {
                reveal_strlit("D");
            }
            "D"
        },
        4 => {
            proof {
                reveal_strlit("E");
            }
            "E"
        },
        5 => {
            proof {
                reveal_strlit("F");
            }
            "F"
        },
        6 => {
            proof {
                reveal_strlit("G");
            }
            "G"
        },
        _ => {
            proof {
                reveal_strlit("H");
            }
            "H"
        },
    }
}

/// The digit of rank `rank + 1`, as a one-character string.
fn rank_name(rank: usize) -> (r: &'static str)
    requires
        rank < 8,
    ensures
        r@ == seq![rank_digits()[rank as int]],
{
    match rank {
        0 => {
            proof {
                reveal_strlit("1");
            }
            "1"
        },
        1 => {
            proof {
                reveal_strlit("2");
            }
            "2"
        },
        2 => {
            proof {
                reveal_strlit("3");
            }
            "3"
        },
        3 => {
            proof {
                reveal_strlit("4");
            }
            "4"
        },
        4 => {
            proof {
                reveal_strlit("5");
            }
            "5"
        },
        5 => {
            proof {
                reveal_strlit("6");
            }
            "6"
        },
        6 => {
            proof {
                reveal_strlit("7");
            }
            "7"
        },
        _ => {
            proof {
                reveal_strlit("8");
            }
            "8"
        },
    }
}

/// The name of square `position`, file letter in upper case (`32` is "A4",
/// `0` is "A8").
pub fn index_to_an(position: usize) -> (r: String)
    requires
        position < 64,
    ensures
        r@ == notation_of(position as int),
{
    let mut s = String::from_str(file_name(position % 8));
    s.append(rank_name(7 - position / 8));
    proof {
        assert(s@ =~= notation_of(position as int));
    }
    s
}

/// Naming a square and reading the name back gives the same square.
pub proof fn lemma_notation_round_trip(i: int)
    requires
        0 <= i < 64,
    ensures
        parse_notation(notation_of(i)) == Some(i),
{
    let s = notation_of(i);
    assert(file_value(s[0]) == Some(i % 8));
    assert(rank_value(s[1]) == Some(i / 8));
}

} // verus!
