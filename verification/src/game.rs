//! The crossword game state: a five-by-five board of typed letters, the
//! current selection, and the editing rules — clicking to select or flip
//! direction, structural keys to move and erase, letters to fill, and the
//! completion check against the answer square.

use vstd::prelude::*;

use crate::events::WidgetEvent;
use crate::events::WidgetId;
use crate::geometry::UIRect;
use crate::input::Input;
use crate::input::Key;
use crate::puzzle::Square;

verus! {

/// The cell the player edits next and the direction of travel.
pub struct Selection {
    pub x: usize,
    pub y: usize,
    pub across: bool,
}

/// One game in progress: whether it is solved, the board of typed
/// letters (rows indexed first), and the selection.
pub struct State {
    pub completed: bool,
    pub board: Vec<Vec<Option<char>>>,
    pub selection: Selection,
}

/// A well-formed game state: a five-by-five board and a selection on it.
pub open spec fn state_wf(s: State) -> bool {
    &&& s.board@.len() == 5
    &&& forall|r: int| 0 <= r < 5 ==> (#[trigger] s.board@[r])@.len() == 5
    &&& s.selection.x < 5
    &&& s.selection.y < 5
}

/// The mathematical content of a game state: solved flag, board cells,
/// selection coordinates and direction.
pub struct StateModel {
    pub completed: bool,
    pub board: Seq<Seq<Option<char>>>,
    pub sel_x: int,
    pub sel_y: int,
    pub across: bool,
}

/// The board as a sequence of rows of cells.
pub open spec fn board_view(b: Vec<Vec<Option<char>>>) -> Seq<Seq<Option<char>>> {
    Seq::new(b@.len(), |r: int| b@[r]@)
}

/// A word list as character sequences.
pub open spec fn words_view(v: Vec<String>) -> Seq<Seq<char>> {
    Seq::new(v@.len(), |i: int| v@[i]@)
}

/// The model of a game state.
pub open spec fn state_model(s: State) -> StateModel {
    StateModel {
        completed: s.completed,
        board: board_view(s.board),
        sel_x: s.selection.x as int,
        sel_y: s.selection.y as int,
        across: s.selection.across,
    }
}

/// The board with the cell at column `x` of row `y` replaced.
pub open spec fn board_set(
    b: Seq<Seq<Option<char>>>,
    x: int,
    y: int,
    v: Option<char>,
) -> Seq<Seq<Option<char>>> {
    b.update(y, b[y].update(x, v))
}

/// The fresh game state: an empty board, the selection at the origin
/// travelling across, not solved.
pub open spec fn initial_state() -> StateModel {
    StateModel {
        completed: false,
        board: Seq::new(5, |r: int| Seq::new(5, |c: int| None::<char>)),
        sel_x: 0,
        sel_y: 0,
        across: true,
    }
}

/// The board is solved against the given across words: every cell is
/// filled and each of the five rows reads exactly the corresponding word.
pub open spec fn finished(board: Seq<Seq<Option<char>>>, across: Seq<Seq<char>>) -> bool {
    &&& forall|x: int, y: int| 0 <= x < 5 && 0 <= y < 5 ==> (#[trigger] board[x][y]) is Some
    &&& across.len() == 5
    &&& forall|x: int|
        0 <= x < 5 ==> #[trigger] across[x] == Seq::new(5, |y: int| board[x][y].unwrap())
}

/// Selecting a cell: clicking the selected cell flips the direction of
/// travel; clicking another moves the selection there.
pub open spec fn click_step(m: StateModel, gx: int, gy: int) -> StateModel {
    if gx == m.sel_x && gy == m.sel_y {
        StateModel { across: !m.across, ..m }
    } else {
        StateModel { sel_x: gx, sel_y: gy, ..m }
    }
}

/// One structural key applied to the state. Backspace steps back along
/// the direction of travel when the selected cell is already empty, then
/// erases the (possibly new) selected cell and clears the solved flag.
/// Enter wraps to the start of the next line of travel; Tab flips the
/// direction; the arrows move the selection, saturating at the board's
/// edges.
pub open spec fn key_step(m: StateModel, key: Key) -> StateModel {
    match key {
        Key::Backspace => {
            let moved = if m.board[m.sel_y][m.sel_x] is None {
                if m.across {
                    StateModel { sel_x: if m.sel_x >= 1 { m.sel_x - 1 } else { 0 }, ..m }
                } else {
                    StateModel { sel_y: if m.sel_y >= 1 { m.sel_y - 1 } else { 0 }, ..m }
                }
            } else {
                m
            };
            StateModel {
                completed: false,
                board: board_set(moved.board, moved.sel_x, moved.sel_y, None),
                ..moved
            }
        },
        Key::Enter => if m.across {
            StateModel { sel_x: 0, sel_y: if m.sel_y + 1 <= 4 { m.sel_y + 1 } else { 4 }, ..m }
        } else {
            StateModel { sel_x: if m.sel_x + 1 <= 4 { m.sel_x + 1 } else { 4 }, sel_y: 0, ..m }
        },
        Key::Tab => StateModel { across: !m.across, ..m },
        Key::Left => StateModel { sel_x: if m.sel_x >= 1 { m.sel_x - 1 } else { 0 }, ..m },
        Key::Right => StateModel { sel_x: if m.sel_x + 1 <= 4 { m.sel_x + 1 } else { 4 }, ..m },
        Key::Up => StateModel { sel_y: if m.sel_y >= 1 { m.sel_y - 1 } else { 0 }, ..m },
        Key::Down => StateModel { sel_y: if m.sel_y + 1 <= 4 { m.sel_y + 1 } else { 4 }, ..m },
    }
}

/// The event tag a structural key produces: Backspace changes the board,
/// every other key only the selection.
pub open spec fn key_event_tag(key: Key) -> Seq<char> {
    match key {
        Key::Backspace => "board_changed"@,
        _ => "selection_changed"@,
    }
}

/// A typed letter applied to the state: it fills the selected cell,
/// advances the selection along the direction of travel (saturating at
/// the edge), and, when the answers are at hand, re-derives the solved
/// flag from the new board.
pub open spec fn char_step(m: StateModel, c: char, answers: Option<Seq<Seq<char>>>) -> StateModel {
    let filled = StateModel { board: board_set(m.board, m.sel_x, m.sel_y, Some(c)), ..m };
    let moved = if m.across {
        StateModel { sel_x: if m.sel_x + 1 <= 4 { m.sel_x + 1 } else { 4 }, ..filled }
    } else {
        StateModel { sel_y: if m.sel_y + 1 <= 4 { m.sel_y + 1 } else { 4 }, ..filled }
    };
    match answers {
        Option::Some(across) => StateModel { completed: finished(moved.board, across), ..moved },
        Option::None => moved,
    }
}

/// The first character in the frame's typed characters that is a lower
/// case letter, if any; other characters are skipped.
pub open spec fn first_alpha(chars: Seq<char>) -> Option<char>
    decreases chars.len(),
{
    if chars.len() == 0 {
        None
    } else if 'a' <= chars[0] <= 'z' {
        Some(chars[0])
    } else {
        first_alpha(chars.drop_first())
    }
}

/// The across words of the answer square, when one is at hand.
pub open spec fn answers_model(a: Option<Square>) -> Option<Seq<Seq<char>>> {
    match a {
        Option::Some(sq) => Some(words_view(sq.across)),
        Option::None => None,
    }
}

impl State {
    /// Start a new game: an empty board, the selection at the origin.
    pub fn new() -> (r: State)
        ensures
            state_model(r) == initial_state(),
            state_wf(r),
    {
        let mut board: Vec<Vec<Option<char>>> = Vec::new();
        let mut r: usize = 0;
        while r < 5
            invariant
                r <= 5,
                board@.len() == r,
                forall|i: int| 0 <= i < r ==> (#[trigger] board@[i])@ == Seq::new(5, |c: int| None::<char>),
            decreases 5 - r,
        {
            let row: Vec<Option<char>> = vec![None, None, None, None, None];
            proof {
                assert(row@ =~= Seq::new(5, |c: int| None::<char>));
            }
            board.push(row);
            r += 1;
        }
        let s = State { completed: false, board, selection: Selection { x: 0, y: 0, across: true } };
        proof {
            assert(board_view(s.board) =~~= initial_state().board);
        }
        s
    }
}

/// Write one cell of the board.
fn set_cell(board: &mut Vec<Vec<Option<char>>>, x: usize, y: usize, v: Option<char>)
    requires
        y < old(board)@.len(),
        x < old(board)@[y as int]@.len(),
    ensures
        board_view(*final(board)) == board_set(board_view(*old(board)), x as int, y as int, v),
        final(board)@.len() == old(board)@.len(),
        forall|r: int|
            0 <= r < old(board)@.len() ==> (#[trigger] final(board)@[r])@.len() == old(
                board,
            )@[r]@.len(),
{
    let row = &mut board[y];
    row[x] = v;
    proof {
        assert(board_view(*board) =~~= board_set(board_view(*old(board)), x as int, y as int, v));
    }
}

/// Does the board solve the puzzle? True exactly when every cell is
/// filled and the five rows read the five across answers.
#[verifier::loop_isolation(false)]
pub fn check_puzzle_finished(state: &State, answers: &Square) -> (b: bool)
    requires
        state_wf(*state),
    ensures
        b == finished(board_view(state.board), words_view(answers.across)),
{
    if answers.across.len() != 5 {
        return false;
    }
    let mut x: usize = 0;
    while x < 5
        invariant
            x <= 5,
            forall|r: int, c: int|
                0 <= r < x && 0 <= c < 5 ==> (#[trigger] board_view(state.board)[r][c]) is Some,
            forall|r: int|
                0 <= r < x ==> #[trigger] words_view(answers.across)[r] == Seq::new(
                    5,
                    |c: int| board_view(state.board)[r][c].unwrap(),
                ),
        decreases 5 - x,
    {
        let word = &answers.across[x];
        if word.unicode_len() != 5 {
            proof {
                assert(words_view(answers.across)[x as int] != Seq::new(
                    5,
                    |c: int| board_view(state.board)[x as int][c].unwrap(),
                ));
            }
            return false;
        }
        let mut y: usize = 0;
        while y < 5
            invariant
                y <= 5,
                x < 5,
                word == &answers.across@[x as int],
                word@.len() == 5,
                forall|c: int|
                    0 <= c < y ==> (#[trigger] board_view(state.board)[x as int][c]) is Some
                        && word@[c] == board_view(state.board)[x as int][c].unwrap(),
            decreases 5 - y,
        {
            let row = &state.board[x];
            match row[y] {
                Option::None => {
                    proof {
                        assert(board_view(state.board)[x as int][y as int] is None);
                    }
                    return false;
                },
                Option::Some(c) => {
                    if word.get_char(y) != c {
                        proof {
                            let target = Seq::new(
                                5,
                                |cc: int| board_view(state.board)[x as int][cc].unwrap(),
                            );
                            assert(words_view(answers.across)[x as int] == word@);
                            assert(board_view(state.board)[x as int][y as int] == Some(c));
                            assert(word@[y as int] != target[y as int]);
                        }
                        return false;
                    }
                },
            }
            y += 1;
        }
        proof {
            assert(words_view(answers.across)[x as int] =~= Seq::new(
                5,
                |c: int| board_view(state.board)[x as int][c].unwrap(),
            ));
        }
        x += 1;
    }
    true
}

/// Handle a pointer click at `(mouse_x, mouse_y)` on a grid whose
/// top-left corner is the origin of `bounds` and whose cells are
/// `cell_size` wide and tall: clicking inside the five-by-five grid
/// selects the cell (or flips the direction of travel on the already
/// selected cell) and reports the selection change; clicking outside it
/// changes nothing.
pub fn handle_grid_click(
    state: &mut State,
    bounds: UIRect,
    cell_size: i32,
    mouse_x: i32,
    mouse_y: i32,
    id: WidgetId,
) -> (e: Option<WidgetEvent>)
    requires
        state_wf(*old(state)),
        1 <= cell_size,
        bounds.spec_contains(mouse_x as int, mouse_y as int),
    ensures
        ({
            let gx = (mouse_x - bounds.x) / (cell_size as int);
            let gy = (mouse_y - bounds.y) / (cell_size as int);
            if gx < 5 && gy < 5 {
                &&& state_model(*final(state)) == click_step(state_model(*old(state)), gx, gy)
                &&& e matches Some(WidgetEvent::Custom(t, eid)) && t@ == "grid_selection_changed"@
                    && eid == id
            } else {
                &&& *final(state) == *old(state)
                &&& e is None
            }
        }),
        state_wf(*final(state)),
{
    let rel_x: i64 = mouse_x as i64 - bounds.x as i64;
    let rel_y: i64 = mouse_y as i64 - bounds.y as i64;
    let gx: i64 = rel_x / (cell_size as i64);
    let gy: i64 = rel_y / (cell_size as i64);
    if gx < 5 && gy < 5 {
        let gxu: usize = gx as usize;
        let gyu: usize = gy as usize;
        if state.selection.x == gxu && state.selection.y == gyu {
            state.selection.across = !state.selection.across;
        } else {
            state.selection.x = gxu;
            state.selection.y = gyu;
        }
        Some(WidgetEvent::Custom("grid_selection_changed".to_owned(), id))
    } else {
        None
    }
}

/// Handle one frame's input on the grid: the first structural key acts
/// (and reports whether it changed the board or only the selection);
/// with no structural key, the first typed letter fills the selected
/// cell, advances the selection, re-derives the solved flag when the
/// answers are at hand, and reports a board change; otherwise nothing
/// happens.
#[verifier::loop_isolation(false)]
pub fn handle_input(
    state: &mut State,
    answers: &Option<Square>,
    input: &Input,
    id: WidgetId,
) -> (e: Option<WidgetEvent>)
    requires
        state_wf(*old(state)),
    ensures
        input.keys_pressed@.len() > 0 ==> {
            &&& state_model(*final(state)) == key_step(
                state_model(*old(state)),
                input.keys_pressed@[0],
            )
            &&& e matches Some(WidgetEvent::Custom(t, eid)) && t@ == key_event_tag(
                input.keys_pressed@[0],
            ) && eid == id
        },
        input.keys_pressed@.len() == 0 && first_alpha(input.chars_pressed@) is Some ==> {
            &&& state_model(*final(state)) == char_step(
                state_model(*old(state)),
                first_alpha(input.chars_pressed@).unwrap(),
                answers_model(*answers),
            )
            &&& e matches Some(WidgetEvent::Custom(t, eid)) && t@ == "board_changed"@ && eid == id
        },
        input.keys_pressed@.len() == 0 && first_alpha(input.chars_pressed@) is None ==> {
            &&& *final(state) == *old(state)
            &&& e is None
        },
        state_wf(*final(state)),
{
    if input.keys_pressed.len() > 0 {
        let key = input.keys_pressed[0];
        match key {
            Key::Backspace => {
                let row = &state.board[state.selection.y];
                if row[state.selection.x].is_none() {
                    if state.selection.across {
                        if state.selection.x >= 1 {
                            state.selection.x = state.selection.x - 1;
                        }
                    } else {
                        if state.selection.y >= 1 {
                            state.selection.y = state.selection.y - 1;
                        }
                    }
                }
                set_cell(&mut state.board, state.selection.x, state.selection.y, None);
                state.completed = false;
                Some(WidgetEvent::Custom("board_changed".to_owned(), id))
            },
            Key::Enter => {
                if state.selection.across {
                    state.selection.x = 0;
                    if state.selection.y + 1 <= 4 {
                        state.selection.y = state.selection.y + 1;
                    } else {
                        state.selection.y = 4;
                    }
                } else {
                    if state.selection.x + 1 <= 4 {
                        state.selection.x = state.selection.x + 1;
                    } else {
                        state.selection.x = 4;
                    }
                    state.selection.y = 0;
                }
                Some(WidgetEvent::Custom("selection_changed".to_owned(), id))
            },
            Key::Tab => {
                state.selection.across = !state.selection.across;
                Some(WidgetEvent::Custom("selection_changed".to_owned(), id))
            },
            Key::Left => {
                if state.selection.x >= 1 {
                    state.selection.x = state.selection.x - 1;
                }
                Some(WidgetEvent::Custom("selection_changed".to_owned(), id))
            },
            Key::Right => {
                if state.selection.x + 1 <= 4 {
                    state.selection.x = state.selection.x + 1;
                } else {
                    state.selection.x = 4;
                }
                Some(WidgetEvent::Custom("selection_changed".to_owned(), id))
            },
            Key::Up => {
                if state.selection.y >= 1 {
                    state.selection.y = state.selection.y - 1;
                }
                Some(WidgetEvent::Custom("selection_changed".to_owned(), id))
            },
            Key::Down => {
                if state.selection.y + 1 <= 4 {
                    state.selection.y = state.selection.y + 1;
                } else {
                    state.selection.y = 4;
                }
                Some(WidgetEvent::Custom("selection_changed".to_owned(), id))
            },
        }
    } else {
        let n = input.chars_pressed.len();
        let mut i: usize = 0;
        proof {
            assert(input.chars_pressed@.skip(0) =~= input.chars_pressed@);
        }
        while i < n
            invariant
                i <= n,
                *state == *old(state),
                first_alpha(input.chars_pressed@) == first_alpha(input.chars_pressed@.skip(i as int)),
            decreases n - i,
        {
            let c = input.chars_pressed[i];
            if 'a' <= c && c <= 'z' {
                proof {
                    assert(first_alpha(input.chars_pressed@) == Some(c));
                }
                set_cell(&mut state.board, state.selection.x, state.selection.y, Some(c));
                if state.selection.across {
                    if state.selection.x + 1 <= 4 {
                        state.selection.x = state.selection.x + 1;
                    } else {
                        state.selection.x = 4;
                    }
                } else {
                    if state.selection.y + 1 <= 4 {
                        state.selection.y = state.selection.y + 1;
                    } else {
                        state.selection.y = 4;
                    }
                }
                if let Some(answer_square) = answers {
                    let done = check_puzzle_finished(state, answer_square);
                    state.completed = done;
                }
                return Some(WidgetEvent::Custom("board_changed".to_owned(), id));
            }
            proof {
                let suffix = input.chars_pressed@.skip(i as int);
                assert(suffix.drop_first() =~= input.chars_pressed@.skip(i as int + 1));
            }
            i += 1;
        }
        proof {
            assert(input.chars_pressed@.skip(n as int) =~= Seq::<char>::empty());
        }
        None
    }
}

/// One frame of the direct game loop: a click (already mapped to a board
/// cell) selects or flips; then Backspace erases (stepping back first
/// when the cell was already empty), or Enter wraps to the next line of
/// travel, or a typed letter fills the cell, advances the selection, and
/// re-derives the solved flag from the answers.
pub fn update(
    state: &mut State,
    answers: &Square,
    clicked: Option<(usize, usize)>,
    backspace: bool,
    enter: bool,
    typed: Option<char>,
)
    requires
        state_wf(*old(state)),
        clicked matches Some(cell) ==> cell.0 < 5 && cell.1 < 5,
    ensures
        ({
            let m0 = state_model(*old(state));
            let m1 = match clicked {
                Option::Some(cell) => click_step(m0, cell.0 as int, cell.1 as int),
                Option::None => m0,
            };
            let m2 = if backspace {
                key_step(m1, Key::Backspace)
            } else if enter {
                key_step(m1, Key::Enter)
            } else {
                match typed {
                    Option::Some(c) => if 'a' <= c <= 'z' {
                        char_step(m1, c, Some(words_view(answers.across)))
                    } else {
                        m1
                    },
                    Option::None => m1,
                }
            };
            state_model(*final(state)) == m2
        }),
        state_wf(*final(state)),
{
    if let Some(cell) = clicked {
        let (cx, cy) = cell;
        if state.selection.x == cx && state.selection.y == cy {
            state.selection.across = !state.selection.across;
        } else {
            state.selection.x = cx;
            state.selection.y = cy;
        }
    }
    if backspace {
        let row = &state.board[state.selection.y];
        if row[state.selection.x].is_none() {
            if state.selection.across {
                if state.selection.x >= 1 {
                    state.selection.x = state.selection.x - 1;
                }
            } else {
                if state.selection.y >= 1 {
                    state.selection.y = state.selection.y - 1;
                }
            }
        }
        set_cell(&mut state.board, state.selection.x, state.selection.y, None);
        state.completed = false;
    } else if enter {
        if state.selection.across {
            state.selection.x = 0;
            if state.selection.y + 1 <= 4 {
                state.selection.y = state.selection.y + 1;
            } else {
                state.selection.y = 4;
            }
        } else {
            if state.selection.x + 1 <= 4 {
                state.selection.x = state.selection.x + 1;
            } else {
                state.selection.x = 4;
            }
            state.selection.y = 0;
        }
    } else if let Some(c) = typed {
        if 'a' <= c && c <= 'z' {
            set_cell(&mut state.board, state.selection.x, state.selection.y, Some(c));
            if state.selection.across {
                if state.selection.x + 1 <= 4 {
                    state.selection.x = state.selection.x + 1;
                } else {
                    state.selection.x = 4;
                }
            } else {
                if state.selection.y + 1 <= 4 {
                    state.selection.y = state.selection.y + 1;
                } else {
                    state.selection.y = 4;
                }
            }
            let done = check_puzzle_finished(state, answers);
            state.completed = done;
        }
    }
}

} // verus!
