//! A plain-text picture of the board.
use vstd::prelude::*;

use crate::piece::{Color, Piece, PieceType};
use crate::rules::Board;

verus! {

/// The letter for a side.
pub open spec fn color_tag(c: Color) -> Seq<char> {
    match c {
        Color::White => "w"@,
        Color::Black => "b"@,
    }
}

/// The code for a kind of piece, padded to three characters.
pub open spec fn kind_tag(k: PieceType) -> Seq<char> {
    match k {
        PieceType::Pawn => "P  "@,
        PieceType::Rook => "R  "@,
        PieceType::Knight => "Kn "@,
        PieceType::Bishop => "B  "@,
        PieceType::Queen => "Q  "@,
        PieceType::King => "K  "@,
    }
}

/// The text of one square: `*` for an empty one, else side and kind.
pub open spec fn cell_text(sq: Option<Piece>) -> Seq<char> {
    match sq {
        None => "*   "@,
        Some(p) => color_tag(p.color) + kind_tag(p.piece_type),
    }
}

/// The text of the first `n` squares of row `r`.
pub open spec fn cells_text(b: Seq<Option<Piece>>, r: int, n: nat) -> Seq<char>
    decreases n,
{
    if n == 0 {
        seq![]
    } else {
        cells_text(b, r, (n - 1) as nat) + cell_text(b[r * 8 + n - 1])
    }
}

/// The text of the first `n` rows, each framed and on a line of its own.
pub open spec fn rows_text(b: Seq<Option<Piece>>, n: nat) -> Seq<char>
    decreases n,
{
    if n == 0 {
        seq![]
    } else {
        rows_text(b, (n - 1) as nat) + "|  "@ + cells_text(b, n - 1, 8) + "|\n"@
    }
}

/// The picture of a board: a frame line, the eight rows from row 0, and a
/// closing frame line.
pub open spec fn board_text(b: Seq<Option<Piece>>) -> Seq<char> {
    "|:--------------------------------:|\n"@ + rows_text(b, 8) + "|:--------------------------------:|"@
}

/// The letter for a side.
fn color_name(c: Color) -> (r: &'static str)
    ensures
        r@ == color_tag(c),
{
    match c {
        Color::White => "w",
        Color::Black => "b",
    }
}

/// The code for a kind of piece.
fn kind_name(k: PieceType) -> (r: &'static str)
    ensures
        r@ == kind_tag(k),
{
    match k {
        PieceType::Pawn => "P  ",
        PieceType::Rook => "R  ",
        PieceType::Knight => "Kn ",
        PieceType::Bishop => "B  ",
        PieceType::Queen => "Q  ",
        PieceType::King => "K  ",
    }
}

/// The picture of board `b`.
pub fn board_picture(b: &Board) -> (r: String)
    ensures
        r@ == board_text(b@),
{
    let mut s = String::from_str("|:--------------------------------:|\n");
    let mut row: usize = 0;
    while row < 8
        invariant
            row <= 8,
            s@ == "|:--------------------------------:|\n"@ + rows_text(b@, row as nat),
        decreases 8 - row,
    {
        let ghost before = s@;
        s.append("|  ");
        let mut col: usize = 0;
        while col < 8
            invariant
                row < 8,
                col <= 8,
                s@ == before + "|  "@ + cells_text(b@, row as int, col as nat),
            decreases 8 - col,
        {
            match b[row * 8 + col] {
                None => s.append("*   "),
                Some(p) => {
                    s.append(color_name(p.color));
                    s.append(kind_name(p.piece_type));
                },
            }
            col += 1;
            assert(s@ =~= before + "|  "@ + cells_text(b@, row as int, col as nat));
        }
        s.append("|\n");
        row += 1;
        assert(s@ =~= "|:--------------------------------:|\n"@ + rows_text(b@, row as nat));
    }
    s.append("|:--------------------------------:|");
    s
}

} // verus!
