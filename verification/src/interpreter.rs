//! The running machine: a grid, an instruction pointer with its heading, a
//! stack and a line of pending input.
//!
//! Every method says what it does in terms of the state, through the
//! function of the same name in [`crate::state`]. The interpreter performs
//! no input or output: `step` and `run` hand an [`Event`] to the caller, who
//! prints the character or supplies the line and then goes on.

use crate::codebox::{in_bounds, rectangular, store, Codebox};
use crate::position::{Direction, Position};
pub use crate::state::{Event, Fault, Opcode};
use crate::state::{lemma_ahead_next, lemma_walk_length, State};
use crate::text::chars_of;
use std::ops::AddAssign;
use vstd::prelude::*;
use vstd::string::StringExecFns;

verus! {

/// The machine.
pub struct Interpreter {
    codebox: Codebox,
    direction: Direction,
    position: Position,
    off_grid: bool,
    stack: Vec<i32>,
    input: Option<Vec<char>>,
    running: bool,
}

impl View for Interpreter {
    type V = State;

    closed spec fn view(&self) -> State {
        State {
            grid: self.codebox@,
            direction: self.direction,
            position: self.position,
            off_grid: self.off_grid,
            stack: self.stack@,
            input: match self.input {
                Some(unread) => Some(unread@),
                None => None,
            },
            running: self.running,
        }
    }
}

impl Interpreter {
    /// Whether the grid is rectangular. It is from `new` on, given a
    /// rectangular grid, and no method changes that.
    pub open spec fn wf(&self) -> bool {
        rectangular(self@.grid)
    }

    /// A machine at the start of the program in `codebox`.
    pub fn new(codebox: Codebox) -> (interpreter: Interpreter)
        ensures
            interpreter@ == State::initial(codebox@),
            codebox.wf() ==> interpreter.wf(),
    {
        Interpreter {
            codebox: codebox,
            direction: Direction::West,
            position: Position { x: 0, y: 0 },
            off_grid: false,
            stack: Vec::new(),
            input: None,
            running: true,
        }
    }

    /// The grid as it is now.
    pub fn codebox(&self) -> (codebox: &Codebox)
        ensures
            codebox@ == self@.grid,
    {
        &self.codebox
    }

    /// The heading.
    pub fn direction(&self) -> (direction: Direction)
        ensures
            direction == self@.direction,
    {
        self.direction
    }

    /// The instruction pointer, or the last position it had before a move
    /// carried it beyond the positions that can be addressed.
    pub fn position(&self) -> (position: Position)
        ensures
            position == self@.position,
    {
        self.position
    }

    /// Whether a move has carried the instruction pointer beyond the
    /// positions that can be addressed.
    pub fn is_off_grid(&self) -> (off_grid: bool)
        ensures
            off_grid == self@.off_grid,
    {
        self.off_grid
    }

    /// The stack, its top last.
    pub fn stack(&self) -> (stack: &Vec<i32>)
        ensures
            stack@ == self@.stack,
    {
        &self.stack
    }

    /// Whether the machine has not halted yet.
    pub fn is_running(&self) -> (running: bool)
        ensures
            running == self@.running,
    {
        self.running
    }

    /// Whether a line of input is buffered, read to its end or not.
    pub fn has_input(&self) -> (buffered: bool)
        ensures
            buffered == self@.input is Some,
    {
        self.input.is_some()
    }

    /// The value of the neighbour on the side `direction`.
    fn neighbor_value(&self, direction: Direction) -> (r: Option<i32>)
        ensures
            r == match self@.neighbor(direction) {
                Some(p) => Some(self@.grid[p.y as int][p.x as int]),
                None => None,
            },
    {
        if self.off_grid {
            return None;
        }
        match self.position.checked_add(direction) {
            None => None,
            Some(p) => match self.codebox.get_instruction(&p) {
                None => None,
                Some(value) => Some(*value),
            },
        }
    }

    /// Writes `value` into the neighbour on the side `direction`.
    fn set_neighbor(&mut self, direction: Direction, value: i32) -> (r: Result<(), Fault>)
        ensures
            (final(self)@, r) == match old(self)@.neighbor(direction) {
                Some(p) => (
                    State { grid: store(old(self)@.grid, p, value), ..old(self)@ },
                    Ok::<(), Fault>(()),
                ),
                None => (old(self)@, Err::<(), Fault>(Fault::IllegalPosition)),
            },
            old(self).wf() ==> final(self).wf(),
    {
        if self.off_grid {
            return Err(Fault::IllegalPosition);
        }
        match self.position.checked_add(direction) {
            None => Err(Fault::IllegalPosition),
            Some(p) => match self.codebox.set_instruction(&p, value) {
                Ok(_) => Ok(()),
                Err(_) => Err(Fault::IllegalPosition),
            },
        }
    }

    /// Moves the instruction pointer one cell along the heading, on the grid
    /// or off it.
    pub fn advance(&mut self)
        ensures
            final(self)@ == old(self)@.advance(),
            old(self).wf() ==> final(self).wf(),
    {
        if !self.off_grid {
            if self.position.fits(self.direction) {
                self.position.add_assign(self.direction);
            } else {
                self.off_grid = true;
            }
        }
    }

    /// Puts the instruction pointer on `position`.
    pub fn set_position(&mut self, position: Position)
        ensures
            final(self)@ == old(self)@.set_position(position),
            old(self).wf() ==> final(self).wf(),
    {
        self.position = position;
        self.off_grid = false;
    }

    /// Sets the heading.
    pub fn set_direction(&mut self, direction: Direction)
        ensures
            final(self)@ == old(self)@.set_direction(direction),
            old(self).wf() ==> final(self).wf(),
    {
        self.direction = direction;
    }

    /// Sets the heading and walks to the nearest cell ahead that equals the
    /// stack top. The walk always ends: on such a cell, or where it leaves the
    /// grid, which is a fault.
    pub fn move_until(&mut self, direction: Direction) -> (r: Result<(), Fault>)
        ensures
            (final(self)@, r) == old(self)@.move_until(direction),
            old(self)@.stack.len() > 0 ==> old(self)@.walk_ends_at(
                direction,
                old(self)@.stack.last(),
                old(self)@.walk_length(direction, old(self)@.stack.last()),
            ),
            old(self).wf() ==> final(self).wf(),
    {
        let target = match self.stack.last() {
            None => return Err(Fault::StackUnderflow),
            Some(top) => *top,
        };
        if self.off_grid {
            proof {
                lemma_walk_length(self@, direction, target, 1);
            }
            return Err(Fault::IllegalPosition);
        }
        let mut position = self.position;
        let ghost mut steps: nat = 0;
        proof {
            lemma_ahead_next(self.position, direction, 0);
        }
        loop
            invariant_except_break
                forall|j: nat| 1 <= j <= steps ==> self@.passes(direction, target, j),
            invariant
                self@ == old(self)@,
                self@.stack.len() > 0,
                target == self@.stack.last(),
                self@.ahead(direction, steps) == Some(position),
            ensures
                self@.walk_ends_at(direction, target, steps),
                in_bounds(self@.grid, position),
            decreases
                match direction {
                    Direction::North => position.y - i32::MIN,
                    Direction::South => i32::MAX - position.y,
                    Direction::West => i32::MAX - position.x,
                    Direction::East => position.x - i32::MIN,
                },
        {
            proof {
                lemma_ahead_next(self@.position, direction, steps);
                steps = steps + 1;
            }
            position = match position.checked_add(direction) {
                None => {
                    proof {
                        lemma_walk_length(self@, direction, target, steps);
                    }
                    return Err(Fault::IllegalPosition);
                },
                Some(p) => p,
            };
            match self.codebox.get_instruction(&position) {
                None => {
                    proof {
                        lemma_walk_length(self@, direction, target, steps);
                    }
                    return Err(Fault::IllegalPosition);
                },
                Some(value) => {
                    if *value == target {
                        break ;
                    }
                },
            }
        }
        proof {
            lemma_walk_length(self@, direction, target, steps);
        }
        self.direction = direction;
        self.position = position;
        Ok(())
    }

    /// Replaces the stack top by the neighbour plus the top.
    pub fn stack_add(&mut self, direction: Direction) -> (r: Result<(), Fault>)
        ensures
            (final(self)@, r) == old(self)@.stack_add(direction),
            old(self).wf() ==> final(self).wf(),
    {
        let value = match self.neighbor_value(direction) {
            None => return Err(Fault::IllegalPosition),
            Some(value) => value,
        };
        match self.stack.pop() {
            None => Err(Fault::StackUnderflow),
            Some(top) => {
                self.stack.push(value.wrapping_add(top));
                Ok(())
            },
        }
    }

    /// Replaces the stack top by the top minus the neighbour.
    pub fn stack_reduce(&mut self, direction: Direction) -> (r: Result<(), Fault>)
        ensures
            (final(self)@, r) == old(self)@.stack_reduce(direction),
            old(self).wf() ==> final(self).wf(),
    {
        let value = match self.neighbor_value(direction) {
            None => return Err(Fault::IllegalPosition),
            Some(value) => value,
        };
        match self.stack.pop() {
            None => Err(Fault::StackUnderflow),
            Some(top) => {
                self.stack.push(top.wrapping_sub(value));
                Ok(())
            },
        }
    }

    /// Pushes a copy of the stack top.
    pub fn stack_dupe(&mut self) -> (r: Result<(), Fault>)
        ensures
            (final(self)@, r) == old(self)@.stack_dupe(),
            old(self).wf() ==> final(self).wf(),
    {
        let top = match self.stack.last() {
            None => return Err(Fault::StackUnderflow),
            Some(top) => *top,
        };
        self.stack.push(top);
        Ok(())
    }

    /// Pops the stack top.
    pub fn stack_drop(&mut self) -> (r: Result<(), Fault>)
        ensures
            (final(self)@, r) == old(self)@.stack_drop(),
            old(self).wf() ==> final(self).wf(),
    {
        match self.stack.pop() {
            None => Err(Fault::StackUnderflow),
            Some(_) => Ok(()),
        }
    }

    /// Pushes the neighbour.
    pub fn stack_push(&mut self, direction: Direction) -> (r: Result<(), Fault>)
        ensures
            (final(self)@, r) == old(self)@.stack_push(direction),
            old(self).wf() ==> final(self).wf(),
    {
        match self.neighbor_value(direction) {
            None => Err(Fault::IllegalPosition),
            Some(value) => {
                self.stack.push(value);
                Ok(())
            },
        }
    }

    /// Pops the stack top into the neighbour.
    pub fn alter_codebox(&mut self, direction: Direction) -> (r: Result<(), Fault>)
        ensures
            (final(self)@, r) == old(self)@.alter_codebox(direction),
            old(self).wf() ==> final(self).wf(),
    {
        let top = match self.stack.last() {
            None => return Err(Fault::StackUnderflow),
            Some(top) => *top,
        };
        self.set_neighbor(direction, top)?;
        self.stack.pop();
        Ok(())
    }

    /// Writes codepoint zero into the neighbour.
    pub fn place_eof(&mut self, direction: Direction) -> (r: Result<(), Fault>)
        ensures
            (final(self)@, r) == old(self)@.place_eof(direction),
            old(self).wf() ==> final(self).wf(),
    {
        self.set_neighbor(direction, 0)
    }

    /// Turns the heading clockwise if the stack top is positive.
    pub fn turn_right(&mut self) -> (r: Result<(), Fault>)
        ensures
            (final(self)@, r) == old(self)@.turn_right(),
            old(self).wf() ==> final(self).wf(),
    {
        match self.stack.last() {
            None => Err(Fault::StackUnderflow),
            Some(top) => {
                if *top > 0 {
                    self.direction = self.direction.turn_right();
                }
                Ok(())
            },
        }
    }

    /// Turns the heading counter-clockwise if the stack top is negative.
    pub fn turn_left(&mut self) -> (r: Result<(), Fault>)
        ensures
            (final(self)@, r) == old(self)@.turn_left(),
            old(self).wf() ==> final(self).wf(),
    {
        match self.stack.last() {
            None => Err(Fault::StackUnderflow),
            Some(top) => {
                if *top < 0 {
                    self.direction = self.direction.turn_left();
                }
                Ok(())
            },
        }
    }

    /// Halts the machine.
    pub fn quit(&mut self)
        ensures
            final(self)@ == old(self)@.quit(),
            old(self).wf() ==> final(self).wf(),
    {
        self.running = false;
    }

    /// Moves one character of input into the neighbour, or asks for a line.
    pub fn get_input(&mut self, direction: Direction) -> (r: Result<Event, Fault>)
        ensures
            (final(self)@, r) == old(self)@.get_input(direction),
            old(self).wf() ==> final(self).wf(),
    {
        let first = match &self.input {
            None => return Ok(Event::NeedInput),
            Some(unread) => if unread.len() == 0 {
                None
            } else {
                Some(unread[0])
            },
        };
        match first {
            None => {
                self.input = None;
                Ok(Event::Continue)
            },
            Some(c) => {
                self.set_neighbor(direction, c as i32)?;
                match &mut self.input {
                    Some(unread) => {
                        unread.remove(0);
                    },
                    None => {},
                }
                Ok(Event::Continue)
            },
        }
    }

    /// Buffers the line that was read in answer to `Event::NeedInput`, or
    /// reports that none could be read. The line is taken as it was read,
    /// with its line ending if it has one.
    pub fn supply_input(&mut self, line: Option<&str>) -> (r: Result<(), Fault>)
        ensures
            (final(self)@, r) == match line {
                Some(text) => (old(self)@.supply_input(text@), Ok::<(), Fault>(())),
                None => (old(self)@, Err::<(), Fault>(Fault::InputReadFailure)),
            },
            old(self).wf() ==> final(self).wf(),
    {
        match line {
            None => Err(Fault::InputReadFailure),
            Some(text) => {
                self.input = Some(chars_of(text));
                Ok(())
            },
        }
    }

    /// The character that the neighbour stands for, to be written out.
    pub fn print(&self, direction: Direction) -> (r: Result<char, Fault>)
        ensures
            r == self@.print(direction),
    {
        match self.neighbor_value(direction) {
            None => Err(Fault::IllegalPosition),
            Some(value) => Ok(Codebox::i32_as_char(value)),
        }
    }

    /// The machine as text, for diagnostics.
    pub fn to_string(&self) -> (s: String)
        ensures
            s@ == self@.text(),
    {
        let mut s = self.codebox.to_string();
        s.append("\nPosition: ");
        s.append(self.position.to_string().as_str());
        s.append("\nDirection: ");
        s.append(self.direction.to_string().as_str());
        s
    }

    /// One cycle of the machine: fetch, decode, execute, move.
    pub fn step(&mut self) -> (r: Result<Event, Fault>)
        ensures
            (final(self)@, r) == old(self)@.step(),
            old(self).wf() ==> final(self).wf(),
    {
        if !self.running {
            return Ok(Event::Halted);
        }
        if self.off_grid {
            return Err(Fault::IllegalPosition);
        }
        let value = match self.codebox.get_instruction(&self.position) {
            None => return Err(Fault::IllegalPosition),
            Some(value) => *value,
        };
        let opcode = match Opcode::decode(Codebox::i32_as_char(value)) {
            None => return Err(Fault::UnknownInstruction),
            Some(opcode) => opcode,
        };
        let event = match opcode {
            Opcode::Move(d) => {
                self.set_direction(d);
                Event::Continue
            },
            Opcode::MoveUntil(d) => {
                self.move_until(d)?;
                Event::Continue
            },
            Opcode::Add(d) => {
                self.stack_add(d)?;
                Event::Continue
            },
            Opcode::Reduce(d) => {
                self.stack_reduce(d)?;
                Event::Continue
            },
            Opcode::Dupe => {
                self.stack_dupe()?;
                Event::Continue
            },
            Opcode::Drop => {
                self.stack_drop()?;
                Event::Continue
            },
            Opcode::Push(d) => {
                self.stack_push(d)?;
                Event::Continue
            },
            Opcode::Alter(d) => {
                self.alter_codebox(d)?;
                Event::Continue
            },
            Opcode::PlaceEof(d) => {
                self.place_eof(d)?;
                Event::Continue
            },
            Opcode::GetInput(d) => match self.get_input(d)? {
                Event::Continue => Event::Continue,
                event => return Ok(event),
            },
            Opcode::Print(d) => Event::Output(self.print(d)?),
            Opcode::TurnRight => {
                self.turn_right()?;
                Event::Continue
            },
            Opcode::TurnLeft => {
                self.turn_left()?;
                Event::Continue
            },
            Opcode::Quit => {
                self.quit();
                return Ok(Event::Halted);
            },
        };
        self.advance();
        Ok(event)
    }

    /// Steps until a step yields something other than `Event::Continue`, for
    /// at most `budget` steps. `Ok(Event::Continue)` means that the budget ran
    /// out; the machine can be run again from where it stands.
    pub fn run(&mut self, budget: u64) -> (r: Result<Event, Fault>)
        ensures
            (final(self)@, r) == old(self)@.run(budget as nat),
            old(self).wf() ==> final(self).wf(),
    {
        let mut left: u64 = budget;
        while left > 0
            invariant
                self@.run(left as nat) == old(self)@.run(budget as nat),
                old(self).wf() ==> self.wf(),
            decreases left,
        {
            match self.step() {
                Ok(Event::Continue) => {
                    left = left - 1;
                },
                result => return result,
            }
        }
        Ok(Event::Continue)
    }
}

} // verus!
