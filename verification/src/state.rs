//! The machine as a mathematical object: its state, its opcodes, and what one
//! opcode, one step and a bounded run make of a state.
//!
//! Every function here that can fail returns the state together with the
//! result. A failed opcode leaves the state as it found it.

use crate::codebox::{as_char, cell, in_bounds, render, store};
use crate::position::{Direction, Position};
use vstd::prelude::*;
use vstd::wrapping::i32_specs::{wrapping_add, wrapping_sub};

verus! {

/// Why the machine stopped without reaching a halt. Every fault is final.
#[derive(Clone, Copy, Debug, PartialEq, Eq, Structural)]
pub enum Fault {
    /// The instruction pointer, or a cell that an opcode refers to, lies
    /// outside the grid.
    IllegalPosition,
    /// The cell under the instruction pointer holds no opcode.
    UnknownInstruction,
    /// An opcode needed a value from an empty stack.
    StackUnderflow,
    /// A line of input could not be read.
    InputReadFailure,
}

/// What a step asks of the machine's surroundings.
#[derive(Clone, Copy, Debug, PartialEq, Eq, Structural)]
pub enum Event {
    /// Nothing: the machine can go on.
    Continue,
    /// This character is to be written out, at once.
    Output(char),
    /// A line of input is to be read and supplied before the next step.
    NeedInput,
    /// The machine has halted.
    Halted,
}

/// The instruction set. An opcode that refers to a neighbouring cell names
/// the side on which that cell lies.
#[derive(Clone, Copy, Debug, PartialEq, Eq, Structural)]
pub enum Opcode {
    /// Set the heading.
    Move(Direction),
    /// Set the heading, then walk to the nearest cell that equals the stack top.
    MoveUntil(Direction),
    /// Replace the stack top by the neighbour plus the top.
    Add(Direction),
    /// Replace the stack top by the top minus the neighbour.
    Reduce(Direction),
    /// Push a copy of the stack top.
    Dupe,
    /// Pop the stack top.
    Drop,
    /// Push the neighbour.
    Push(Direction),
    /// Pop the stack top into the neighbour.
    Alter(Direction),
    /// Write codepoint zero into the neighbour.
    PlaceEof(Direction),
    /// Write the next character of input into the neighbour.
    GetInput(Direction),
    /// Write the neighbour out as a character.
    Print(Direction),
    /// Turn clockwise if the stack top is positive.
    TurnRight,
    /// Turn counter-clockwise if the stack top is negative.
    TurnLeft,
    /// Halt.
    Quit,
}

/// The opcode that a character stands for: the one table from letters to
/// opcodes and headings. A lower-case letter refers to the cell south of the
/// instruction pointer, its upper-case twin to the cell north of it.
pub open spec fn decode(c: char) -> Option<Opcode> {
    if c == 'h' {
        Some(Opcode::Move(Direction::East))
    } else if c == 'H' {
        Some(Opcode::MoveUntil(Direction::East))
    } else if c == 'j' {
        Some(Opcode::Move(Direction::South))
    } else if c == 'J' {
        Some(Opcode::MoveUntil(Direction::South))
    } else if c == 'k' {
        Some(Opcode::Move(Direction::North))
    } else if c == 'K' {
        Some(Opcode::MoveUntil(Direction::North))
    } else if c == 'l' {
        Some(Opcode::Move(Direction::West))
    } else if c == 'L' {
        Some(Opcode::MoveUntil(Direction::West))
    } else if c == 'a' {
        Some(Opcode::Add(Direction::South))
    } else if c == 'A' {
        Some(Opcode::Add(Direction::North))
    } else if c == 'r' {
        Some(Opcode::Reduce(Direction::South))
    } else if c == 'R' {
        Some(Opcode::Reduce(Direction::North))
    } else if c == 'd' {
        Some(Opcode::Dupe)
    } else if c == 'D' {
        Some(Opcode::Drop)
    } else if c == 's' {
        Some(Opcode::Push(Direction::South))
    } else if c == 'S' {
        Some(Opcode::Push(Direction::North))
    } else if c == 'f' {
        Some(Opcode::Alter(Direction::South))
    } else if c == 'F' {
        Some(Opcode::Alter(Direction::North))
    } else if c == 'e' {
        Some(Opcode::PlaceEof(Direction::South))
    } else if c == 'E' {
        Some(Opcode::PlaceEof(Direction::North))
    } else if c == 'g' {
        Some(Opcode::GetInput(Direction::South))
    } else if c == 'G' {
        Some(Opcode::GetInput(Direction::North))
    } else if c == 'p' {
        Some(Opcode::Print(Direction::South))
    } else if c == 'P' {
        Some(Opcode::Print(Direction::North))
    } else if c == 'x' {
        Some(Opcode::TurnRight)
    } else if c == 'X' {
        Some(Opcode::TurnLeft)
    } else if c == 'q' {
        Some(Opcode::Quit)
    } else {
        None
    }
}

impl Opcode {
    /// The opcode that `c` stands for, if any.
    pub fn decode(c: char) -> (r: Option<Opcode>)
        ensures
            r == decode(c),
    {
        match c {
            'h' => Some(Opcode::Move(Direction::East)),
            'H' => Some(Opcode::MoveUntil(Direction::East)),
            'j' => Some(Opcode::Move(Direction::South)),
            'J' => Some(Opcode::MoveUntil(Direction::South)),
            'k' => Some(Opcode::Move(Direction::North)),
            'K' => Some(Opcode::MoveUntil(Direction::North)),
            'l' => Some(Opcode::Move(Direction::West)),
            'L' => Some(Opcode::MoveUntil(Direction::West)),
            'a' => Some(Opcode::Add(Direction::South)),
            'A' => Some(Opcode::Add(Direction::North)),
            'r' => Some(Opcode::Reduce(Direction::South)),
            'R' => Some(Opcode::Reduce(Direction::North)),
            'd' => Some(Opcode::Dupe),
            'D' => Some(Opcode::Drop),
            's' => Some(Opcode::Push(Direction::South)),
            'S' => Some(Opcode::Push(Direction::North)),
            'f' => Some(Opcode::Alter(Direction::South)),
            'F' => Some(Opcode::Alter(Direction::North)),
            'e' => Some(Opcode::PlaceEof(Direction::South)),
            'E' => Some(Opcode::PlaceEof(Direction::North)),
            'g' => Some(Opcode::GetInput(Direction::South)),
            'G' => Some(Opcode::GetInput(Direction::North)),
            'p' => Some(Opcode::Print(Direction::South)),
            'P' => Some(Opcode::Print(Direction::North)),
            'x' => Some(Opcode::TurnRight),
            'X' => Some(Opcode::TurnLeft),
            'q' => Some(Opcode::Quit),
            _ => None,
        }
    }
}

/// Everything the machine holds at one moment.
pub struct State {
    /// The program grid, row by row.
    pub grid: Seq<Seq<i32>>,
    /// The heading of the instruction pointer.
    pub direction: Direction,
    /// The instruction pointer.
    pub position: Position,
    /// Whether a move has carried the instruction pointer beyond the
    /// positions that a pair of `i32` can address. Such a pointer lies outside
    /// every grid, and no move brings it back; `position` is then the last
    /// position that it had.
    pub off_grid: bool,
    /// The stack, its top last.
    pub stack: Seq<i32>,
    /// The characters of the current input line that are still unread. `None`
    /// means that no line is buffered; `Some` of the empty sequence means
    /// that only the end of the line is left of it.
    pub input: Option<Seq<char>>,
    /// Whether the machine has not halted yet.
    pub running: bool,
}

impl State {
    /// The state in which a machine starts on `grid`: at the origin, heading
    /// `West`, with an empty stack and no input.
    pub open spec fn initial(grid: Seq<Seq<i32>>) -> State {
        State {
            grid,
            direction: Direction::West,
            position: Position { x: 0, y: 0 },
            off_grid: false,
            stack: Seq::empty(),
            input: None,
            running: true,
        }
    }

    /// The state as text, for diagnostics: the grid, then the instruction
    /// pointer and the heading.
    pub open spec fn text(self) -> Seq<char> {
        render(self.grid) + "\nPosition: "@ + self.position.text() + "\nDirection: "@
            + self.direction.name()
    }

    /// The value of the cell under the instruction pointer, if the pointer
    /// stands on a cell of the grid.
    pub open spec fn fetch(self) -> Option<i32> {
        if self.off_grid {
            None
        } else {
            cell(self.grid, self.position)
        }
    }

    /// The position `steps` steps from the instruction pointer in
    /// `direction`, if it can be addressed.
    pub open spec fn ahead(self, direction: Direction, steps: nat) -> Option<Position> {
        if self.off_grid {
            None
        } else {
            self.position.ahead(direction, steps)
        }
    }

    /// The cell next to the instruction pointer on the side `direction`, if
    /// the grid has it.
    pub open spec fn neighbor(self, direction: Direction) -> Option<Position> {
        match self.ahead(direction, 1) {
            Some(p) => if in_bounds(self.grid, p) {
                Some(p)
            } else {
                None
            },
            None => None,
        }
    }

    /// The value of the cell `steps` steps from the instruction pointer in
    /// `direction`, if the grid has that cell.
    pub open spec fn probe(self, direction: Direction, steps: nat) -> Option<i32> {
        match self.ahead(direction, steps) {
            Some(p) => cell(self.grid, p),
            None => None,
        }
    }

    /// Whether a walk in `direction` in search of `target` goes on beyond the
    /// cell `steps` steps away: that cell exists and holds another value.
    pub open spec fn passes(self, direction: Direction, target: i32, steps: nat) -> bool {
        match self.probe(direction, steps) {
            Some(value) => value != target,
            None => false,
        }
    }

    /// Whether a walk in `direction` in search of `target` ends after exactly
    /// `steps` steps: it takes at least one, goes on beyond every nearer cell,
    /// and not beyond this one.
    pub open spec fn walk_ends_at(self, direction: Direction, target: i32, steps: nat) -> bool {
        &&& steps >= 1
        &&& forall|j: nat| 1 <= j < steps ==> self.passes(direction, target, j)
        &&& !self.passes(direction, target, steps)
    }

    /// The number of steps that a walk in `direction` in search of `target`
    /// takes.
    pub open spec fn walk_length(self, direction: Direction, target: i32) -> nat {
        choose|steps: nat| self.walk_ends_at(direction, target, steps)
    }

    /// Moves the instruction pointer one cell along the heading, on the grid
    /// or off it. A move never fails: where a coordinate would leave the
    /// range of `i32` the pointer is marked as off the grid, and the next
    /// fetch fails.
    pub open spec fn advance(self) -> State {
        if self.off_grid {
            self
        } else {
            match self.position.neighbor(self.direction) {
                Some(p) => State { position: p, ..self },
                None => State { off_grid: true, ..self },
            }
        }
    }

    /// Puts the instruction pointer on `position`.
    pub open spec fn set_position(self, position: Position) -> State {
        State { position, off_grid: false, ..self }
    }

    /// Sets the heading.
    pub open spec fn set_direction(self, direction: Direction) -> State {
        State { direction, ..self }
    }

    /// Sets the heading and walks to the nearest cell ahead that equals the
    /// stack top, which stays on the stack. Fails on an empty stack, and where
    /// the walk leaves the grid before it finds such a cell.
    pub open spec fn move_until(self, direction: Direction) -> (State, Result<(), Fault>) {
        if self.stack.len() == 0 {
            (self, Err(Fault::StackUnderflow))
        } else {
            let steps = self.walk_length(direction, self.stack.last());
            match self.ahead(direction, steps) {
                Some(p) => if in_bounds(self.grid, p) {
                    (State { direction, position: p, ..self }, Ok(()))
                } else {
                    (self, Err(Fault::IllegalPosition))
                },
                None => (self, Err(Fault::IllegalPosition)),
            }
        }
    }

    /// Replaces the stack top by the neighbour plus the top, wrapping at the
    /// bounds of `i32`. Fails where the grid has no such neighbour, else on an
    /// empty stack.
    pub open spec fn stack_add(self, direction: Direction) -> (State, Result<(), Fault>) {
        match self.neighbor(direction) {
            None => (self, Err(Fault::IllegalPosition)),
            Some(p) => if self.stack.len() == 0 {
                (self, Err(Fault::StackUnderflow))
            } else {
                let sum = wrapping_add(self.grid[p.y as int][p.x as int], self.stack.last());
                (State { stack: self.stack.drop_last().push(sum), ..self }, Ok(()))
            },
        }
    }

    /// Replaces the stack top by the top minus the neighbour, wrapping at the
    /// bounds of `i32`. Fails where the grid has no such neighbour, else on an
    /// empty stack.
    pub open spec fn stack_reduce(self, direction: Direction) -> (State, Result<(), Fault>) {
        match self.neighbor(direction) {
            None => (self, Err(Fault::IllegalPosition)),
            Some(p) => if self.stack.len() == 0 {
                (self, Err(Fault::StackUnderflow))
            } else {
                let difference = wrapping_sub(
                    self.stack.last(),
                    self.grid[p.y as int][p.x as int],
                );
                (State { stack: self.stack.drop_last().push(difference), ..self }, Ok(()))
            },
        }
    }

    /// Pushes a copy of the stack top. Fails on an empty stack.
    pub open spec fn stack_dupe(self) -> (State, Result<(), Fault>) {
        if self.stack.len() == 0 {
            (self, Err(Fault::StackUnderflow))
        } else {
            (State { stack: self.stack.push(self.stack.last()), ..self }, Ok(()))
        }
    }

    /// Pops the stack top. Fails on an empty stack.
    pub open spec fn stack_drop(self) -> (State, Result<(), Fault>) {
        if self.stack.len() == 0 {
            (self, Err(Fault::StackUnderflow))
        } else {
            (State { stack: self.stack.drop_last(), ..self }, Ok(()))
        }
    }

    /// Pushes the neighbour. Fails where the grid has no such neighbour.
    pub open spec fn stack_push(self, direction: Direction) -> (State, Result<(), Fault>) {
        match self.neighbor(direction) {
            None => (self, Err(Fault::IllegalPosition)),
            Some(p) => (
                State { stack: self.stack.push(self.grid[p.y as int][p.x as int]), ..self },
                Ok(()),
            ),
        }
    }

    /// Pops the stack top into the neighbour. Fails on an empty stack, else
    /// where the grid has no such neighbour.
    pub open spec fn alter_codebox(self, direction: Direction) -> (State, Result<(), Fault>) {
        if self.stack.len() == 0 {
            (self, Err(Fault::StackUnderflow))
        } else {
            match self.neighbor(direction) {
                None => (self, Err(Fault::IllegalPosition)),
                Some(p) => (
                    State {
                        grid: store(self.grid, p, self.stack.last()),
                        stack: self.stack.drop_last(),
                        ..self
                    },
                    Ok(()),
                ),
            }
        }
    }

    /// Writes codepoint zero into the neighbour. Fails where the grid has no
    /// such neighbour.
    pub open spec fn place_eof(self, direction: Direction) -> (State, Result<(), Fault>) {
        match self.neighbor(direction) {
            None => (self, Err(Fault::IllegalPosition)),
            Some(p) => (State { grid: store(self.grid, p, 0), ..self }, Ok(())),
        }
    }

    /// Moves one character of input into the neighbour.
    ///
    /// With no line buffered it changes nothing and asks for one. With a line
    /// read to its end it drops the buffer and writes nothing. Otherwise it
    /// writes the codepoint of the first unread character into the neighbour
    /// and takes it off the buffer, and fails where the grid has no such
    /// neighbour.
    pub open spec fn get_input(self, direction: Direction) -> (State, Result<Event, Fault>) {
        match self.input {
            None => (self, Ok(Event::NeedInput)),
            Some(unread) => if unread.len() == 0 {
                (State { input: None, ..self }, Ok(Event::Continue))
            } else {
                match self.neighbor(direction) {
                    None => (self, Err(Fault::IllegalPosition)),
                    Some(p) => (
                        State {
                            grid: store(self.grid, p, unread[0] as i32),
                            input: Some(unread.drop_first()),
                            ..self
                        },
                        Ok(Event::Continue),
                    ),
                }
            },
        }
    }

    /// The character that the neighbour stands for. Fails where the grid has
    /// no such neighbour.
    pub open spec fn print(self, direction: Direction) -> Result<char, Fault> {
        match self.neighbor(direction) {
            None => Err(Fault::IllegalPosition),
            Some(p) => Ok(as_char(self.grid[p.y as int][p.x as int])),
        }
    }

    /// Turns the heading clockwise if the stack top is positive. Fails on an
    /// empty stack.
    pub open spec fn turn_right(self) -> (State, Result<(), Fault>) {
        if self.stack.len() == 0 {
            (self, Err(Fault::StackUnderflow))
        } else if self.stack.last() > 0 {
            (State { direction: self.direction.clockwise(), ..self }, Ok(()))
        } else {
            (self, Ok(()))
        }
    }

    /// Turns the heading counter-clockwise if the stack top is negative. Fails
    /// on an empty stack.
    pub open spec fn turn_left(self) -> (State, Result<(), Fault>) {
        if self.stack.len() == 0 {
            (self, Err(Fault::StackUnderflow))
        } else if self.stack.last() < 0 {
            (State { direction: self.direction.counter_clockwise(), ..self }, Ok(()))
        } else {
            (self, Ok(()))
        }
    }

    /// Halts the machine.
    pub open spec fn quit(self) -> State {
        State { running: false, ..self }
    }

    /// Buffers a line of input in place of whatever was buffered.
    pub open spec fn supply_input(self, line: Seq<char>) -> State {
        State { input: Some(line), ..self }
    }

    /// The effect of one opcode, without the move that follows it.
    pub open spec fn execute(self, opcode: Opcode) -> (State, Result<Event, Fault>) {
        match opcode {
            Opcode::Move(d) => (self.set_direction(d), Ok(Event::Continue)),
            Opcode::MoveUntil(d) => quiet(self.move_until(d)),
            Opcode::Add(d) => quiet(self.stack_add(d)),
            Opcode::Reduce(d) => quiet(self.stack_reduce(d)),
            Opcode::Dupe => quiet(self.stack_dupe()),
            Opcode::Drop => quiet(self.stack_drop()),
            Opcode::Push(d) => quiet(self.stack_push(d)),
            Opcode::Alter(d) => quiet(self.alter_codebox(d)),
            Opcode::PlaceEof(d) => quiet(self.place_eof(d)),
            Opcode::GetInput(d) => self.get_input(d),
            Opcode::Print(d) => match self.print(d) {
                Ok(c) => (self, Ok(Event::Output(c))),
                Err(fault) => (self, Err(fault)),
            },
            Opcode::TurnRight => quiet(self.turn_right()),
            Opcode::TurnLeft => quiet(self.turn_left()),
            Opcode::Quit => (self.quit(), Ok(Event::Halted)),
        }
    }

    /// One cycle of the machine: fetch the cell under the instruction pointer,
    /// decode it, execute it, and move one cell along the heading.
    ///
    /// A halted machine stays as it is. An instruction pointer outside the
    /// grid and a cell that holds no opcode are faults. The move is left out
    /// after a halt and after a request for input, so that the same opcode
    /// runs again once a line has been supplied. A position is found illegal
    /// only where the grid is consulted: the move itself never fails.
    pub open spec fn step(self) -> (State, Result<Event, Fault>) {
        if !self.running {
            (self, Ok(Event::Halted))
        } else {
            match self.fetch() {
                None => (self, Err(Fault::IllegalPosition)),
                Some(value) => match decode(as_char(value)) {
                    None => (self, Err(Fault::UnknownInstruction)),
                    Some(opcode) => {
                        let (after, result) = self.execute(opcode);
                        match result {
                            Ok(Event::Continue) | Ok(Event::Output(_)) => (after.advance(), result),
                            _ => (after, result),
                        }
                    },
                },
            }
        }
    }

    /// Steps until something other than `Continue` comes of a step, for at
    /// most `budget` steps. `Continue` as the result means that the budget
    /// ran out on a machine that can go on.
    pub open spec fn run(self, budget: nat) -> (State, Result<Event, Fault>)
        decreases budget,
    {
        if budget == 0 {
            (self, Ok(Event::Continue))
        } else {
            let (next, result) = self.step();
            match result {
                Ok(Event::Continue) => next.run((budget - 1) as nat),
                _ => (next, result),
            }
        }
    }
}

/// One more step from the position `steps` steps ahead leads to the position
/// `steps + 1` steps ahead.
pub proof fn lemma_ahead_next(origin: Position, direction: Direction, steps: nat)
    ensures
        origin.ahead(direction, 0) == Some(origin),
        match origin.ahead(direction, steps) {
            Some(p) => origin.ahead(direction, steps + 1) == p.neighbor(direction),
            None => origin.ahead(direction, steps + 1) is None,
        },
{
    match direction {
        Direction::North => {},
        Direction::South => {},
        Direction::West => {},
        Direction::East => {},
    }
}

/// A walk has one length: the place where it ends is the number of steps it
/// takes.
pub proof fn lemma_walk_length(state: State, direction: Direction, target: i32, steps: nat)
    requires
        state.walk_ends_at(direction, target, steps),
    ensures
        state.walk_length(direction, target) == steps,
{
    let chosen = state.walk_length(direction, target);
    assert(state.walk_ends_at(direction, target, chosen));
    if chosen < steps {
        assert(state.passes(direction, target, chosen));
    } else if steps < chosen {
        assert(state.passes(direction, target, steps));
    }
}

/// An opcode's outcome as a step sees it: success asks nothing of the
/// surroundings.
pub open spec fn quiet(outcome: (State, Result<(), Fault>)) -> (State, Result<Event, Fault>) {
    match outcome.1 {
        Ok(_) => (outcome.0, Ok(Event::Continue)),
        Err(fault) => (outcome.0, Err(fault)),
    }
}

} // verus!
