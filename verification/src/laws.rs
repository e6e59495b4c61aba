//! What holds of the grid and of the machine on every input, proved from
//! the definitions in [`crate::codebox`], [`crate::text`] and [`crate::state`].

use crate::codebox::{
    as_char, as_printable, cell, in_bounds, is_printable, lemma_widest_bounds, load, pad_row,
    rectangular, render, render_row, store, widest, SPACE,
};
use crate::position::{Direction, Position};
use crate::state::{decode, lemma_walk_length, Event, Fault, Opcode, State};
use crate::text::{line_end, lines, strip_cr};
use vstd::prelude::*;

verus! {

/// A line as the text of the grid shows it: every printable character as it
/// is, every other one as a space.
pub open spec fn shown(line: Seq<char>) -> Seq<char> {
    Seq::new(line.len(), |i: int| as_printable(line[i] as i32))
}

/// `n` spaces.
pub open spec fn spaces(n: nat) -> Seq<char> {
    Seq::new(n, |i: int| ' ')
}

/// The lines `ls` as shown, each filled with spaces up to `width` characters
/// and closed by one line feed.
pub open spec fn layout(ls: Seq<Seq<char>>, width: nat) -> Seq<char>
    decreases ls.len(),
{
    if ls.len() == 0 {
        Seq::empty()
    } else {
        layout(ls.drop_last(), width) + shown(ls.last()) + spaces(
            (width - ls.last().len()) as nat,
        ) + seq!['\n']
    }
}

/// Whether no two rows of `before` and `after` differ in length, and neither
/// grid has more rows than the other.
pub open spec fn same_shape(before: Seq<Seq<i32>>, after: Seq<Seq<i32>>) -> bool {
    &&& before.len() == after.len()
    &&& forall|y: int| 0 <= y < before.len() ==> before[y].len() == after[y].len()
}

/// The first line of a text ends at its first line feed: `line_end` lies
/// within the text, no line feed stands before it, and one stands at it
/// unless the text ends there.
pub proof fn lemma_line_end(text: Seq<char>)
    ensures
        line_end(text) <= text.len(),
        forall|j: int| 0 <= j < line_end(text) ==> text[j] != '\n',
        line_end(text) < text.len() ==> text[line_end(text) as int] == '\n',
    decreases text.len(),
{
    if text.len() == 0 || text[0] == '\n' {
    } else {
        let rest = text.drop_first();
        lemma_line_end(rest);
        assert forall|j: int| 0 <= j < line_end(text) implies text[j] != '\n' by {
            if j > 0 {
                assert(text[j] == rest[j - 1]);
            }
        }
    }
}

/// The widest line is a line, unless there is none.
pub proof fn lemma_widest_is_attained(ls: Seq<Seq<char>>)
    requires
        ls.len() > 0,
    ensures
        exists|i: int| 0 <= i < ls.len() && #[trigger] ls[i].len() == widest(ls),
    decreases ls.len(),
{
    if ls.last().len() > widest(ls.drop_last()) || ls.len() == 1 {
        assert(ls[ls.len() - 1].len() == widest(ls));
    } else {
        lemma_widest_is_attained(ls.drop_last());
        let shorter = ls.drop_last();
        let i = choose|i: int|
            0 <= i < shorter.len() && #[trigger] shorter[i].len() == widest(shorter);
        assert(ls[i].len() == widest(ls));
    }
}

/// Loading pads every row to the length of the longest line with spaces: the
/// grid has one row for each line, every row is as long as the longest line,
/// starts with the codepoints of its line, and holds spaces from there on.
pub proof fn lemma_load_pads(text: Seq<char>)
    ensures
        ({
            let ls = lines(text);
            let grid = load(text);
            &&& rectangular(grid)
            &&& grid.len() == ls.len()
            &&& forall|y: int| 0 <= y < ls.len() ==> #[trigger] ls[y].len() <= widest(ls)
            &&& ls.len() > 0 ==> exists|y: int|
                0 <= y < ls.len() && #[trigger] ls[y].len() == widest(ls)
            &&& forall|y: int| 0 <= y < grid.len() ==> #[trigger] grid[y].len() == widest(ls)
            &&& forall|y: int, x: int|
                0 <= y < grid.len() && 0 <= x < widest(ls) ==> #[trigger] grid[y][x] == (if x
                    < ls[y].len() {
                    ls[y][x] as i32
                } else {
                    SPACE
                })
        }),
{
    let ls = lines(text);
    assert forall|y: int| 0 <= y < ls.len() implies #[trigger] ls[y].len() <= widest(ls) by {
        lemma_widest_bounds(ls, y);
    }
    if ls.len() > 0 {
        lemma_widest_is_attained(ls);
    }
}

/// A loaded row as text is its line as shown, then the padding, then a line
/// feed.
proof fn lemma_render_padded_row(line: Seq<char>, width: nat)
    requires
        line.len() <= width,
    ensures
        render_row(pad_row(line, width)) == shown(line) + spaces((width - line.len()) as nat)
            + seq!['\n'],
{
    let padding = spaces((width - line.len()) as nat);
    assert(as_printable(SPACE) == ' ');
    assert(render_row(pad_row(line, width)) =~= shown(line) + padding + seq!['\n']);
}

/// The first `n` loaded rows as text are the first `n` lines laid out.
proof fn lemma_render_rows(ls: Seq<Seq<char>>, width: nat, n: nat)
    requires
        n <= ls.len(),
        forall|y: int| 0 <= y < ls.len() ==> #[trigger] ls[y].len() <= width,
    ensures
        render(Seq::new(n, |y: int| pad_row(ls[y], width))) == layout(ls.take(n as int), width),
    decreases n,
{
    let rows = Seq::new(n, |y: int| pad_row(ls[y], width));
    if n > 0 {
        let shorter = (n - 1) as nat;
        lemma_render_rows(ls, width, shorter);
        assert(rows.drop_last() == Seq::new(shorter, |y: int| pad_row(ls[y], width)));
        assert(ls.take(n as int).drop_last() == ls.take(shorter as int));
        lemma_render_padded_row(ls[n - 1], width);
    }
}

/// The text of a freshly loaded grid is the program text line by line, with
/// spaces added to the short lines and one line feed after each line.
/// Characters that are not printable come out as spaces.
pub proof fn lemma_render_of_load(text: Seq<char>)
    ensures
        render(load(text)) == layout(lines(text), widest(lines(text))),
{
    let ls = lines(text);
    assert forall|y: int| 0 <= y < ls.len() implies #[trigger] ls[y].len() <= widest(ls) by {
        lemma_widest_bounds(ls, y);
    }
    lemma_render_rows(ls, widest(ls), ls.len());
    assert(ls.take(ls.len() as int) == ls);
}

/// A line of printable characters, those with codepoints from 32 to 126 and
/// from 160 to 254, is shown as it is.
pub proof fn lemma_shown_plain(line: Seq<char>)
    requires
        forall|i: int|
            0 <= i < line.len() ==> {
                let code = #[trigger] line[i] as int;
                32 <= code <= 126 || 160 <= code <= 254
            },
    ensures
        shown(line) == line,
{
    assert forall|i: int| 0 <= i < line.len() implies shown(line)[i] == line[i] by {
        let c = line[i];
        assert(32 <= (c as int) && (c as int) <= 254);
        assert(is_printable(c as i32));
        assert(as_printable(c as i32) == c);
    }
    assert(shown(line) =~= line);
}

/// A cell without a printable character shows as a space: so do the control
/// codes, zero, negative values and values above 254. A grid of one such cell
/// is, as text, a space and a line feed.
pub proof fn lemma_unprintable_shows_as_space(value: i32)
    requires
        value <= 31 || 127 <= value <= 159 || value >= 255,
    ensures
        as_printable(value) == ' ',
        render(seq![seq![value]]) == seq![' ', '\n'],
{
    let grid = seq![seq![value]];
    assert(render(grid.drop_last()) == Seq::<char>::empty());
    assert(render_row(grid.last()) =~= seq![' ', '\n']);
}

/// Writing a cell changes that cell and nothing else: a read of the same
/// position gives the new value, every other position reads as before, and
/// the grid keeps its shape.
pub proof fn lemma_store_then_cell(
    grid: Seq<Seq<i32>>,
    position: Position,
    value: i32,
    other: Position,
)
    requires
        in_bounds(grid, position),
    ensures
        cell(store(grid, position, value), position) == Some(value),
        other != position ==> cell(store(grid, position, value), other) == cell(grid, other),
        same_shape(grid, store(grid, position, value)),
        rectangular(grid) ==> rectangular(store(grid, position, value)),
{
}

/// A machine whose instruction pointer stands on the halt opcode halts at
/// once: the step and every run with a budget report the halt, ask for no
/// output, and leave grid, stack, input, heading and instruction pointer as
/// they were.
pub proof fn lemma_quit_halts(state: State, value: i32, budget: nat)
    requires
        state.running,
        state.fetch() == Some(value),
        decode(as_char(value)) == Some(Opcode::Quit),
        budget > 0,
    ensures
        state.step() == (State { running: false, ..state }, Ok::<Event, Fault>(Event::Halted)),
        state.run(budget) == state.step(),
{
}

/// A program text that begins with `q` halts at once, with an empty stack
/// and the grid as it was loaded.
pub proof fn lemma_q_program_halts(text: Seq<char>, budget: nat)
    requires
        text.len() > 0,
        text[0] == 'q',
        budget > 0,
    ensures
        State::initial(load(text)).run(budget) == (
            State { running: false, ..State::initial(load(text)) },
            Ok::<Event, Fault>(Event::Halted),
        ),
{
    let ls = lines(text);
    let n = line_end(text) as int;
    lemma_line_end(text);
    assert(n >= 1);
    assert(ls.len() > 0 && ls[0].len() >= 1 && ls[0][0] == 'q') by {
        if n < text.len() {
            let first = text.take(n);
            assert(first[0] == 'q');
            assert(ls[0] == strip_cr(first));
        }
    }
    lemma_widest_bounds(ls, 0);
    let start = State::initial(load(text));
    assert(start.fetch() == Some('q' as i32));
    assert(as_char('q' as i32) == 'q');
    lemma_quit_halts(start, 'q' as i32, budget);
}

/// A cell that holds no opcode is fatal where the instruction pointer
/// reaches it: the step and every run with a budget fail with
/// `UnknownInstruction`, and nothing is executed.
pub proof fn lemma_unknown_instruction_is_fatal(state: State, value: i32, budget: nat)
    requires
        state.running,
        state.fetch() == Some(value),
        decode(as_char(value)) is None,
        budget > 0,
    ensures
        state.step() == (state, Err::<Event, Fault>(Fault::UnknownInstruction)),
        state.run(budget) == state.step(),
{
}

/// An instruction pointer outside the grid is fatal: the step and every run
/// with a budget fail with `IllegalPosition`, and nothing is executed.
pub proof fn lemma_fetch_outside_is_fatal(state: State, budget: nat)
    requires
        state.running,
        state.off_grid || !in_bounds(state.grid, state.position),
        budget > 0,
    ensures
        state.step() == (state, Err::<Event, Fault>(Fault::IllegalPosition)),
        state.run(budget) == state.step(),
{
}

/// A halted machine stays halted, and as it is.
pub proof fn lemma_halted_is_final(state: State, budget: nat)
    requires
        !state.running,
        budget > 0,
    ensures
        state.step() == (state, Ok::<Event, Fault>(Event::Halted)),
        state.run(budget) == state.step(),
{
}

/// The budget cuts a run into slices and changes nothing else: a run that
/// ends on anything but a spent budget ends the same way on every larger
/// budget, and a run that spends its budget goes on, when run again, as if
/// the budget had been that much larger.
#[verifier::rlimit(40)]
pub proof fn lemma_run_in_slices(state: State, first: nat, second: nat)
    ensures
        state.run(first).1 == Ok::<Event, Fault>(Event::Continue) ==> state.run(first + second)
            == state.run(first).0.run(second),
        state.run(first).1 != Ok::<Event, Fault>(Event::Continue) ==> state.run(first + second)
            == state.run(first),
    decreases first,
{
    if first > 0 {
        let (next, result) = state.step();
        if result == Ok::<Event, Fault>(Event::Continue) {
            lemma_run_in_slices(next, (first - 1) as nat, second);
            assert(state.run(first + second) == next.run((first + second - 1) as nat));
        }
    }
}

/// An opcode leaves the machine halted exactly when it reports a halt, and
/// only the halt opcode does so.
pub proof fn lemma_execute_halts_only_by_quit(state: State, opcode: Opcode)
    requires
        state.running,
    ensures
        !state.execute(opcode).0.running <==> state.execute(opcode).1 == Ok::<Event, Fault>(
            Event::Halted,
        ),
        !state.execute(opcode).0.running <==> opcode == Opcode::Quit,
{
    match opcode {
        Opcode::Move(_) => {},
        Opcode::MoveUntil(_) => {},
        Opcode::Add(_) => {},
        Opcode::Reduce(_) => {},
        Opcode::Dupe => {},
        Opcode::Drop => {},
        Opcode::Push(_) => {},
        Opcode::Alter(_) => {},
        Opcode::PlaceEof(_) => {},
        Opcode::GetInput(_) => {},
        Opcode::Print(_) => {},
        Opcode::TurnRight => {},
        Opcode::TurnLeft => {},
        Opcode::Quit => {},
    }
}

/// Only the halt opcode halts a running machine, and a step reports a halt
/// exactly when it leaves the machine halted.
pub proof fn lemma_halt_only_by_quit(state: State)
    requires
        state.running,
    ensures
        !state.step().0.running <==> state.step().1 == Ok::<Event, Fault>(Event::Halted),
        !state.step().0.running ==> (state.fetch() matches Some(value)
            && decode(as_char(value)) == Some(Opcode::Quit)),
{
    match state.fetch() {
        Some(value) => match decode(as_char(value)) {
            Some(opcode) => {
                lemma_execute_halts_only_by_quit(state, opcode);
            },
            None => {},
        },
        None => {},
    }
}

/// No opcode resizes the grid.
pub proof fn lemma_execute_keeps_shape(state: State, opcode: Opcode)
    ensures
        same_shape(state.grid, state.execute(opcode).0.grid),
        rectangular(state.grid) ==> rectangular(state.execute(opcode).0.grid),
{
    match opcode {
        Opcode::Move(_) => {},
        Opcode::MoveUntil(_) => {},
        Opcode::Add(_) => {},
        Opcode::Reduce(_) => {},
        Opcode::Dupe => {},
        Opcode::Drop => {},
        Opcode::Push(_) => {},
        Opcode::Alter(d) => {
            if state.stack.len() > 0 {
                match state.neighbor(d) {
                    Some(p) => {
                        lemma_store_then_cell(state.grid, p, state.stack.last(), p);
                    },
                    None => {},
                }
            }
        },
        Opcode::PlaceEof(d) => {
            match state.neighbor(d) {
                Some(p) => {
                    lemma_store_then_cell(state.grid, p, 0, p);
                },
                None => {},
            }
        },
        Opcode::GetInput(d) => {
            match state.input {
                Some(unread) => {
                    if unread.len() > 0 {
                        match state.neighbor(d) {
                            Some(p) => {
                                lemma_store_then_cell(state.grid, p, unread[0] as i32, p);
                            },
                            None => {},
                        }
                    }
                },
                None => {},
            }
        },
        Opcode::Print(_) => {},
        Opcode::TurnRight => {},
        Opcode::TurnLeft => {},
        Opcode::Quit => {},
    }
}

/// No step resizes the grid.
pub proof fn lemma_step_keeps_shape(state: State)
    ensures
        same_shape(state.grid, state.step().0.grid),
        rectangular(state.grid) ==> rectangular(state.step().0.grid),
{
    if state.running {
        match state.fetch() {
            Some(value) => match decode(as_char(value)) {
                Some(opcode) => {
                    lemma_execute_keeps_shape(state, opcode);
                },
                None => {},
            },
            None => {},
        }
    }
}

/// No run resizes the grid.
pub proof fn lemma_run_keeps_shape(state: State, budget: nat)
    ensures
        same_shape(state.grid, state.run(budget).0.grid),
        rectangular(state.grid) ==> rectangular(state.run(budget).0.grid),
    decreases budget,
{
    if budget > 0 {
        lemma_step_keeps_shape(state);
        let (next, result) = state.step();
        if result == Ok::<Event, Fault>(Event::Continue) {
            lemma_run_keeps_shape(next, (budget - 1) as nat);
        }
    }
}

/// If a walk does not go on beyond some cell, it ends there or before.
proof fn lemma_walk_ends_by(state: State, direction: Direction, target: i32, limit: nat)
    requires
        limit >= 1,
        !state.passes(direction, target, limit),
    ensures
        exists|steps: nat| steps <= limit && state.walk_ends_at(direction, target, steps),
    decreases limit,
{
    if forall|j: nat| 1 <= j < limit ==> state.passes(direction, target, j) {
        assert(state.walk_ends_at(direction, target, limit));
    } else {
        let j = choose|j: nat| 1 <= j < limit && !state.passes(direction, target, j);
        lemma_walk_ends_by(state, direction, target, j);
    }
}

/// Every walk ends: the grid is finite, and so is the range of positions.
pub proof fn lemma_walk_ends(state: State, direction: Direction, target: i32)
    ensures
        state.walk_ends_at(direction, target, state.walk_length(direction, target)),
{
    let far: nat = 0x1_0000_0000;
    assert(state.ahead(direction, far) is None);
    lemma_walk_ends_by(state, direction, target, far);
}

/// A walk stops at the nearest cell that equals the stack top, however many
/// such cells lie beyond it: if the cell `steps` steps ahead holds the top
/// and every nearer cell ahead exists and holds another value, the walk ends
/// on that cell with the new heading, and the stack is as it was.
pub proof fn lemma_move_until_stops_at_nearest(state: State, direction: Direction, steps: nat)
    requires
        state.stack.len() > 0,
        steps >= 1,
        state.probe(direction, steps) == Some(state.stack.last()),
        forall|j: nat| 1 <= j < steps ==> state.passes(direction, state.stack.last(), j),
    ensures
        state.ahead(direction, steps) is Some,
        state.move_until(direction) == (
            State { direction, position: state.ahead(direction, steps).unwrap(), ..state },
            Ok::<(), Fault>(()),
        ),
{
    lemma_walk_length(state, direction, state.stack.last(), steps);
}

/// A walk that reaches the edge of the grid before a cell that equals the
/// stack top fails, and moves nothing.
pub proof fn lemma_move_until_fails_at_edge(state: State, direction: Direction, steps: nat)
    requires
        state.stack.len() > 0,
        steps >= 1,
        state.probe(direction, steps) is None,
        forall|j: nat| 1 <= j < steps ==> state.passes(direction, state.stack.last(), j),
    ensures
        state.move_until(direction) == (state, Err::<(), Fault>(Fault::IllegalPosition)),
{
    lemma_walk_length(state, direction, state.stack.last(), steps);
}

/// A position is found illegal only where the grid is consulted. A step
/// whose cell holds an opcode ends as that opcode ends, with its event or its
/// fault: the move after it changes neither, and an event that asks for
/// output is handed out wherever the move leads.
pub proof fn lemma_step_ends_as_its_opcode(state: State, value: i32, opcode: Opcode)
    requires
        state.running,
        state.fetch() == Some(value),
        decode(as_char(value)) == Some(opcode),
    ensures
        state.step().1 == state.execute(opcode).1,
{
}

/// A character that a print opcode yields is handed out by the step, even
/// where the move after it carries the instruction pointer off the grid.
pub proof fn lemma_print_is_handed_out(state: State, value: i32, direction: Direction, c: char)
    requires
        state.running,
        state.fetch() == Some(value),
        decode(as_char(value)) == Some(Opcode::Print(direction)),
        state.print(direction) == Ok::<char, Fault>(c),
    ensures
        state.step() == (state.advance(), Ok::<Event, Fault>(Event::Output(c))),
{
}

/// On a grid with at most `i32::MAX` rows and columns, a move from a cell of
/// the grid leads to the neighbouring position and never off the positions
/// that can be addressed.
pub proof fn lemma_advance_from_cell(state: State)
    requires
        !state.off_grid,
        in_bounds(state.grid, state.position),
        state.grid.len() <= i32::MAX,
        state.grid[state.position.y as int].len() <= i32::MAX,
    ensures
        state.advance() == (State {
            position: Position {
                x: (state.position.x + state.direction.dx()) as i32,
                y: (state.position.y + state.direction.dy()) as i32,
            },
            ..state
        }),
{
}

/// A pointer that is off the grid stays there through every move, whatever
/// the heading, and every fetch fails.
pub proof fn lemma_off_grid_stays(state: State, direction: Direction)
    requires
        state.off_grid,
    ensures
        state.fetch() is None,
        state.advance() == state,
        state.set_direction(direction).advance() == state.set_direction(direction),
{
}

/// On a grid with at most `i32::MAX` rows and columns no step carries the
/// instruction pointer off the positions that can be addressed.
pub proof fn lemma_step_keeps_pointer(state: State)
    requires
        !state.off_grid,
        state.grid.len() <= i32::MAX,
        forall|y: int| 0 <= y < state.grid.len() ==> #[trigger] state.grid[y].len() <= i32::MAX,
    ensures
        !state.step().0.off_grid,
{
    if state.running {
        match state.fetch() {
            Some(value) => match decode(as_char(value)) {
                Some(opcode) => {
                    let (after, result) = state.execute(opcode);
                    lemma_execute_keeps_shape(state, opcode);
                    lemma_execute_keeps_pointer(state, opcode);
                    if result is Ok {
                        lemma_advance_from_cell(after);
                    }
                },
                None => {},
            },
            None => {},
        }
    }
}

/// An opcode leaves the instruction pointer where it was or, after a walk,
/// on a cell of the grid.
pub proof fn lemma_execute_keeps_pointer(state: State, opcode: Opcode)
    requires
        !state.off_grid,
        in_bounds(state.grid, state.position),
    ensures
        !state.execute(opcode).0.off_grid,
        in_bounds(state.grid, state.execute(opcode).0.position),
{
    match opcode {
        Opcode::Move(_) => {},
        Opcode::MoveUntil(_) => {},
        Opcode::Add(_) => {},
        Opcode::Reduce(_) => {},
        Opcode::Dupe => {},
        Opcode::Drop => {},
        Opcode::Push(_) => {},
        Opcode::Alter(_) => {},
        Opcode::PlaceEof(_) => {},
        Opcode::GetInput(_) => {},
        Opcode::Print(_) => {},
        Opcode::TurnRight => {},
        Opcode::TurnLeft => {},
        Opcode::Quit => {},
    }
}

/// On a grid with at most `i32::MAX` rows and columns no run carries the
/// instruction pointer off the positions that can be addressed.
pub proof fn lemma_run_keeps_pointer(state: State, budget: nat)
    requires
        !state.off_grid,
        state.grid.len() <= i32::MAX,
        forall|y: int| 0 <= y < state.grid.len() ==> #[trigger] state.grid[y].len() <= i32::MAX,
    ensures
        !state.run(budget).0.off_grid,
    decreases budget,
{
    if budget > 0 {
        lemma_step_keeps_pointer(state);
        lemma_step_keeps_shape(state);
        let (next, result) = state.step();
        if result == Ok::<Event, Fault>(Event::Continue) {
            lemma_run_keeps_pointer(next, (budget - 1) as nat);
        }
    }
}

} // verus!
