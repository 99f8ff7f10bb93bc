use vstd::prelude::*;
use vstd::string::StringExecFns;

use crate::alg::{is_move_item, Alg, AlgItem, Move};
use crate::random::random_range;

verus! {

/// The number of lines of a random-move megaminx scramble.
pub const RANDOM_MOVE_SCRAMBLE_NUM_LINES: usize = 7;

/// The number of `R`/`D` move pairs on each line.
pub const RANDOM_MOVE_SCRAMBLE_NUM_MOVE_PAIRS_PER_LINE: usize = 5;

/// `cubing`'s line break node (`Newline::default()` turned into an alg node). Nothing is
/// stated of the node: the scramble logic only places it.
#[verifier::external_body]
fn newline_node() -> (r: cubing::alg::AlgNode) {
    cubing::alg::Newline::default().into()
}

/// The move at index `j` (0 to 10) of line `line`: `R++`/`R--` at even indices below 10,
/// `D++`/`D--` at odd ones (the `--` form where the choice is set), and at index 10 `U` after a
/// final `D++` or `U'` after a final `D--`. As (family, amount).
pub open spec fn megaminx_line_move(choices: Seq<bool>, line: int, j: int) -> (Seq<char>, i32) {
    if j < 10 {
        (
            if j % 2 == 0 {
                "R_PLUSPLUS_"@
            } else {
                "D_PLUSPLUS_"@
            },
            if choices[line * 10 + j] {
                -1i32
            } else {
                1i32
            },
        )
    } else {
        ("U"@, if choices[line * 10 + 9] {
            -1i32
        } else {
            1i32
        })
    }
}

/// The node at `i` of a random-move megaminx scramble with the given choices: eleven moves
/// per line, with a line break (any node that is not a move) between lines.
pub open spec fn megaminx_node_ok(nodes: Seq<AlgItem>, choices: Seq<bool>, i: int) -> bool {
    let line = i / 12;
    let j = i % 12;
    if j == 11 {
        nodes[i] is Other
    } else {
        is_move_item(
            nodes[i],
            megaminx_line_move(choices, line, j).0,
            megaminx_line_move(choices, line, j).1,
        )
    }
}

/// A random-move megaminx scramble with the given choices (70 of them, two per move pair).
pub open spec fn is_megaminx_scramble_with(nodes: Seq<AlgItem>, choices: Seq<bool>) -> bool {
    &&& nodes.len() == 83
    &&& forall|i: int| 0 <= i < 83 ==> #[trigger] megaminx_node_ok(nodes, choices, i)
}

fn megaminx_move(family: &str, amount: i32) -> (r: AlgItem)
    ensures
        is_move_item(r, family@, amount),
{
    AlgItem::Move(Move { family: String::from_str(family), prefix: None, amount })
}

/// The random-move megaminx scramble for the given choices: seven lines of five `R`/`D` pairs,
/// each line ending with `U` after a `D++` or `U'` after a `D--`.
pub fn megaminx_scramble_from_choices(choices: &[bool]) -> (r: Alg)
    requires
        choices@.len() == 70,
    ensures
        is_megaminx_scramble_with(r.nodes@, choices@),
{
    let mut nodes: Vec<AlgItem> = Vec::new();
    let mut line: usize = 0;
    while line < RANDOM_MOVE_SCRAMBLE_NUM_LINES
        invariant
            0 <= line <= 7,
            choices@.len() == 70,
            line < 7 ==> nodes@.len() == 12 * line,
            line == 7 ==> nodes@.len() == 83,
            forall|i: int| 0 <= i < nodes@.len() ==> #[trigger] megaminx_node_ok(nodes@, choices@, i),
        decreases 7 - line,
    {
        let ghost start = nodes@;
        let mut j: usize = 0;
        while j < 10
            invariant
                0 <= j <= 10,
                0 <= line < 7,
                choices@.len() == 70,
                nodes@.len() == 12 * line + j,
                forall|i: int| 0 <= i < nodes@.len() ==> #[trigger] megaminx_node_ok(nodes@, choices@, i),
            decreases 10 - j,
        {
            let minus = choices[line * 10 + j];
            let amount: i32 = if minus {
                -1
            } else {
                1
            };
            let item = if j % 2 == 0 {
                megaminx_move("R_PLUSPLUS_", amount)
            } else {
                megaminx_move("D_PLUSPLUS_", amount)
            };
            let ghost before = nodes@;
            nodes.push(item);
            proof {
                let n = (12 * line + j) as int;
                assert(n / 12 == line && n % 12 == j) by (nonlinear_arith)
                    requires
                        n == 12 * line + j,
                        j < 10,
                ;
                assert forall|i: int| 0 <= i < nodes@.len() implies #[trigger] megaminx_node_ok(nodes@, choices@, i) by {
                    if i < n {
                        assert(megaminx_node_ok(before, choices@, i));
                    }
                }
            }
            j += 1;
        }
        let last_minus = choices[line * 10 + 9];
        let u_amount: i32 = if last_minus {
            -1
        } else {
            1
        };
        let ghost before_u = nodes@;
        nodes.push(megaminx_move("U", u_amount));
        proof {
            let n = (12 * line + 10) as int;
            assert(n / 12 == line && n % 12 == 10) by (nonlinear_arith)
                requires
                    n == 12 * line + 10,
            ;
            assert forall|i: int| 0 <= i < nodes@.len() implies #[trigger] megaminx_node_ok(nodes@, choices@, i) by {
                if i < n {
                    assert(megaminx_node_ok(before_u, choices@, i));
                }
            }
        }
        if line + 1 < RANDOM_MOVE_SCRAMBLE_NUM_LINES {
            let ghost before_newline = nodes@;
            nodes.push(AlgItem::Other(newline_node()));
            proof {
                let n = (12 * line + 11) as int;
                assert(n / 12 == line && n % 12 == 11) by (nonlinear_arith)
                    requires
                        n == 12 * line + 11,
                ;
                assert forall|i: int| 0 <= i < nodes@.len() implies #[trigger] megaminx_node_ok(nodes@, choices@, i) by {
                    if i < n {
                        assert(megaminx_node_ok(before_newline, choices@, i));
                    }
                }
            }
        }
        line += 1;
    }
    Alg { nodes }
}

/// A random-move megaminx scramble: every `R`/`D` move turns one way or the other at random.
///
/// This is the random-move form that the project keeps disabled in its `scramble_megaminx`:
/// that scrambler, as it stands, applies a fixed alg, runs a search for the centers (a search
/// that lies outside this library) and returns an empty alg. Nothing in this library calls
/// the builder here in its place.
pub fn megaminx_random_move_scramble() -> (r: Alg)
    ensures
        exists|choices: Seq<bool>| choices.len() == 70 && is_megaminx_scramble_with(r.nodes@, choices),
{
    let mut choices: Vec<bool> = Vec::new();
    while choices.len() < 70
        invariant
            choices@.len() <= 70,
        decreases 70 - choices@.len(),
    {
        choices.push(random_range(0, 2) == 1);
    }
    let r = megaminx_scramble_from_choices(choices.as_slice());
    assert(is_megaminx_scramble_with(r.nodes@, choices@));
    r
}

} // verus!
