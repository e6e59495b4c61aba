use argh::codebox::Codebox;
use argh::interpreter::{Event, Fault, Interpreter, Opcode};
use argh::position::{Direction, Position};

fn machine(text: &str) -> Interpreter {
    Interpreter::new(Codebox::new(&String::from(text)))
}

fn at(x: i32, y: i32) -> Position {
    Position { x, y }
}

fn cell(m: &Interpreter, x: i32, y: i32) -> Option<i32> {
    m.codebox().get_instruction(&at(x, y)).copied()
}

/// A machine in the middle of three one-cell rows, `above` and `below` being
/// the values of its two neighbours.
fn between(above: i32, below: i32) -> Interpreter {
    let mut grid = Codebox::new(&String::from(" \n \n "));
    assert_eq!(grid.set_instruction(&at(0, 0), above), Ok(0));
    assert_eq!(grid.set_instruction(&at(0, 2), below), Ok(0));
    let mut m = Interpreter::new(grid);
    m.set_direction(Direction::South);
    m.advance();
    assert_eq!(m.position(), at(0, 1));
    m
}

#[test]
fn a_new_machine_stands_at_the_origin_heading_west() {
    let m = machine("q");
    assert_eq!(m.position(), at(0, 0));
    assert_eq!(m.direction(), Direction::West);
    assert!(m.stack().is_empty());
    assert!(!m.has_input());
    assert!(m.is_running());
    assert_eq!(m.codebox().to_string(), "q\n");
}

#[test]
fn decode_knows_every_opcode_letter() {
    let table = [
        ('h', Opcode::Move(Direction::East)),
        ('H', Opcode::MoveUntil(Direction::East)),
        ('j', Opcode::Move(Direction::South)),
        ('J', Opcode::MoveUntil(Direction::South)),
        ('k', Opcode::Move(Direction::North)),
        ('K', Opcode::MoveUntil(Direction::North)),
        ('l', Opcode::Move(Direction::West)),
        ('L', Opcode::MoveUntil(Direction::West)),
        ('a', Opcode::Add(Direction::South)),
        ('A', Opcode::Add(Direction::North)),
        ('r', Opcode::Reduce(Direction::South)),
        ('R', Opcode::Reduce(Direction::North)),
        ('d', Opcode::Dupe),
        ('D', Opcode::Drop),
        ('s', Opcode::Push(Direction::South)),
        ('S', Opcode::Push(Direction::North)),
        ('f', Opcode::Alter(Direction::South)),
        ('F', Opcode::Alter(Direction::North)),
        ('e', Opcode::PlaceEof(Direction::South)),
        ('E', Opcode::PlaceEof(Direction::North)),
        ('g', Opcode::GetInput(Direction::South)),
        ('G', Opcode::GetInput(Direction::North)),
        ('p', Opcode::Print(Direction::South)),
        ('P', Opcode::Print(Direction::North)),
        ('x', Opcode::TurnRight),
        ('X', Opcode::TurnLeft),
        ('q', Opcode::Quit),
    ];
    for (letter, opcode) in table {
        assert_eq!(Opcode::decode(letter), Some(opcode));
    }
    let mut known = 0;
    for code in 0u32..0x300 {
        if let Some(c) = char::from_u32(code) {
            if Opcode::decode(c).is_some() {
                known += 1;
            }
        }
    }
    assert_eq!(known, table.len());
    assert_eq!(Opcode::decode('Q'), None);
    assert_eq!(Opcode::decode(' '), None);
    assert_eq!(Opcode::decode('\0'), None);
}

#[test]
fn dupe_then_drop() {
    let mut m = between(0, 5);
    assert_eq!(m.stack_push(Direction::South), Ok(()));
    assert_eq!(m.stack(), &vec![5]);
    assert_eq!(m.stack_dupe(), Ok(()));
    assert_eq!(m.stack(), &vec![5, 5]);
    assert_eq!(m.stack_drop(), Ok(()));
    assert_eq!(m.stack(), &vec![5]);
}

#[test]
fn dupe_and_drop_need_a_value() {
    let mut m = machine("q");
    assert_eq!(m.stack_dupe(), Err(Fault::StackUnderflow));
    assert_eq!(m.stack_drop(), Err(Fault::StackUnderflow));
    assert!(m.stack().is_empty());
}

#[test]
fn stack_add_adds_the_neighbour_to_the_top() {
    let mut m = between(4, 3);
    assert_eq!(m.stack_push(Direction::North), Ok(()));
    assert_eq!(m.stack(), &vec![4]);
    assert_eq!(m.stack_add(Direction::South), Ok(()));
    assert_eq!(m.stack(), &vec![7]);
    assert_eq!(m.stack_add(Direction::North), Ok(()));
    assert_eq!(m.stack(), &vec![11]);
}

#[test]
fn stack_reduce_takes_the_neighbour_from_the_top() {
    let mut m = between(4, 3);
    assert_eq!(m.stack_push(Direction::North), Ok(()));
    assert_eq!(m.stack(), &vec![4]);
    assert_eq!(m.stack_reduce(Direction::South), Ok(()));
    assert_eq!(m.stack(), &vec![1]);
    assert_eq!(m.stack_reduce(Direction::North), Ok(()));
    assert_eq!(m.stack(), &vec![-3]);
}

#[test]
fn arithmetic_touches_only_the_top() {
    let mut m = between(10, 3);
    assert_eq!(m.stack_push(Direction::North), Ok(()));
    assert_eq!(m.stack_push(Direction::South), Ok(()));
    assert_eq!(m.stack(), &vec![10, 3]);
    assert_eq!(m.stack_add(Direction::North), Ok(()));
    assert_eq!(m.stack(), &vec![10, 13]);
    assert_eq!(m.stack_reduce(Direction::South), Ok(()));
    assert_eq!(m.stack(), &vec![10, 10]);
}

#[test]
fn arithmetic_wraps_at_the_bounds_of_i32() {
    let mut m = between(i32::MAX, i32::MIN);
    assert_eq!(m.stack_push(Direction::North), Ok(()));
    assert_eq!(m.stack_add(Direction::North), Ok(()));
    assert_eq!(m.stack(), &vec![-2]);
    assert_eq!(m.stack_reduce(Direction::South), Ok(()));
    assert_eq!(m.stack(), &vec![i32::MAX - 1]);
    assert_eq!(m.stack_reduce(Direction::South), Ok(()));
    assert_eq!(m.stack(), &vec![-2]);
}

#[test]
fn arithmetic_needs_a_neighbour_and_a_value() {
    let mut m = machine("a");
    assert_eq!(m.stack_add(Direction::South), Err(Fault::IllegalPosition));
    assert_eq!(m.stack_reduce(Direction::North), Err(Fault::IllegalPosition));
    let mut m = between(1, 2);
    assert_eq!(m.stack_add(Direction::South), Err(Fault::StackUnderflow));
    assert_eq!(m.stack_reduce(Direction::North), Err(Fault::StackUnderflow));
    assert!(m.stack().is_empty());
    assert_eq!(m.stack_push(Direction::South), Ok(()));
    m.set_direction(Direction::West);
    m.advance();
    assert_eq!(m.stack_add(Direction::South), Err(Fault::IllegalPosition));
    assert_eq!(m.stack(), &vec![2]);
}

#[test]
fn push_reads_the_neighbour_on_the_named_side() {
    let mut m = between(65, 66);
    assert_eq!(m.stack_push(Direction::South), Ok(()));
    assert_eq!(m.stack_push(Direction::North), Ok(()));
    assert_eq!(m.stack(), &vec![66, 65]);
    let mut m = machine("s");
    assert_eq!(m.stack_push(Direction::South), Err(Fault::IllegalPosition));
    assert_eq!(m.stack_push(Direction::North), Err(Fault::IllegalPosition));
    assert!(m.stack().is_empty());
}

#[test]
fn alter_pops_the_top_into_the_neighbour() {
    let mut m = between(70, 71);
    assert_eq!(m.stack_push(Direction::North), Ok(()));
    assert_eq!(m.stack_push(Direction::South), Ok(()));
    assert_eq!(m.alter_codebox(Direction::North), Ok(()));
    assert_eq!(m.stack(), &vec![70]);
    assert_eq!(cell(&m, 0, 0), Some(71));
    assert_eq!(cell(&m, 0, 1), Some(32));
    assert_eq!(cell(&m, 0, 2), Some(71));
    assert_eq!(m.alter_codebox(Direction::South), Ok(()));
    assert!(m.stack().is_empty());
    assert_eq!(cell(&m, 0, 2), Some(70));
    assert_eq!(m.alter_codebox(Direction::South), Err(Fault::StackUnderflow));
}

#[test]
fn alter_outside_the_grid_keeps_the_stack() {
    let mut m = machine("s\n!");
    assert_eq!(m.stack_push(Direction::South), Ok(()));
    assert_eq!(m.alter_codebox(Direction::North), Err(Fault::IllegalPosition));
    assert_eq!(m.stack(), &vec![33]);
    assert_eq!(m.codebox().to_string(), "s\n!\n");
}

#[test]
fn place_eof_writes_zero() {
    let mut m = between(70, 71);
    assert_eq!(m.place_eof(Direction::South), Ok(()));
    assert_eq!(cell(&m, 0, 2), Some(0));
    assert_eq!(cell(&m, 0, 0), Some(70));
    assert_eq!(m.place_eof(Direction::North), Ok(()));
    assert_eq!(cell(&m, 0, 0), Some(0));
    let mut m = machine("e");
    assert_eq!(m.place_eof(Direction::South), Err(Fault::IllegalPosition));
    assert_eq!(m.codebox().to_string(), "e\n");
}

#[test]
fn print_yields_the_character_of_the_neighbour() {
    let m = between(72, 300);
    assert_eq!(m.print(Direction::North), Ok('H'));
    assert_eq!(m.print(Direction::South), Ok(' '));
    let m = machine("p");
    assert_eq!(m.print(Direction::South), Err(Fault::IllegalPosition));
}

#[test]
fn turn_right_on_a_positive_top() {
    let mut m = between(5, 0);
    assert_eq!(m.turn_right(), Err(Fault::StackUnderflow));
    assert_eq!(m.direction(), Direction::South);
    assert_eq!(m.stack_push(Direction::North), Ok(()));
    assert_eq!(m.turn_right(), Ok(()));
    assert_eq!(m.direction(), Direction::East);
    assert_eq!(m.turn_right(), Ok(()));
    assert_eq!(m.direction(), Direction::North);
    assert_eq!(m.turn_left(), Ok(()));
    assert_eq!(m.direction(), Direction::North);
    assert_eq!(m.stack_push(Direction::South), Ok(()));
    assert_eq!(m.turn_right(), Ok(()));
    assert_eq!(m.direction(), Direction::North);
    assert_eq!(m.stack(), &vec![5, 0]);
}

#[test]
fn turn_left_on_a_negative_top() {
    let mut m = between(-5, 0);
    assert_eq!(m.turn_left(), Err(Fault::StackUnderflow));
    assert_eq!(m.stack_push(Direction::North), Ok(()));
    assert_eq!(m.turn_right(), Ok(()));
    assert_eq!(m.direction(), Direction::South);
    assert_eq!(m.turn_left(), Ok(()));
    assert_eq!(m.direction(), Direction::West);
    assert_eq!(m.turn_left(), Ok(()));
    assert_eq!(m.direction(), Direction::North);
    assert_eq!(m.stack_push(Direction::South), Ok(()));
    assert_eq!(m.turn_left(), Ok(()));
    assert_eq!(m.direction(), Direction::North);
    assert_eq!(m.stack(), &vec![-5, 0]);
}

#[test]
fn advance_follows_the_heading() {
    let mut m = machine("abc\ndef\nghi");
    m.advance();
    assert_eq!(m.position(), at(1, 0));
    m.set_direction(Direction::South);
    m.advance();
    assert_eq!(m.position(), at(1, 1));
    m.set_direction(Direction::East);
    m.advance();
    assert_eq!(m.position(), at(0, 1));
    m.set_direction(Direction::North);
    m.advance();
    assert_eq!(m.position(), at(0, 0));
    m.advance();
    assert_eq!(m.position(), at(0, -1));
    assert_eq!(m.step(), Err(Fault::IllegalPosition));
    assert_eq!(m.position(), at(0, -1));
}

#[test]
fn a_move_beyond_the_range_of_positions_fails_at_the_next_fetch() {
    let mut m = machine("lq");
    m.set_position(at(i32::MAX, 0));
    assert!(!m.is_off_grid());
    m.advance();
    assert!(m.is_off_grid());
    assert_eq!(m.position(), at(i32::MAX, 0));
    assert_eq!(m.step(), Err(Fault::IllegalPosition));
    assert_eq!(m.run(10), Err(Fault::IllegalPosition));
    m.set_direction(Direction::East);
    m.advance();
    assert!(m.is_off_grid());
    assert_eq!(m.stack_push(Direction::South), Err(Fault::IllegalPosition));
    assert_eq!(m.place_eof(Direction::North), Err(Fault::IllegalPosition));
    assert_eq!(m.print(Direction::South), Err(Fault::IllegalPosition));
    m.set_position(at(1, 0));
    assert!(!m.is_off_grid());
    assert_eq!(m.step(), Ok(Event::Halted));
}

#[test]
fn a_move_off_the_grid_is_no_fault_by_itself() {
    let mut m = machine("lp\n Z");
    assert_eq!(m.step(), Ok(Event::Continue));
    assert_eq!(m.step(), Ok(Event::Output('Z')));
    assert_eq!(m.position(), at(2, 0));
    assert!(!m.is_off_grid());
    assert_eq!(m.step(), Err(Fault::IllegalPosition));
    for (x, y, d) in [
        (i32::MIN, 0, Direction::East),
        (0, i32::MIN, Direction::North),
        (0, i32::MAX, Direction::South),
    ] {
        let mut m = machine("q");
        m.set_position(at(x, y));
        m.set_direction(d);
        m.advance();
        assert!(m.is_off_grid());
        assert_eq!(m.move_until(d), Err(Fault::StackUnderflow));
        assert_eq!(m.step(), Err(Fault::IllegalPosition));
    }
}

#[test]
fn set_position_puts_the_pointer_anywhere() {
    let mut m = machine("ab\ncq");
    m.set_position(at(1, 1));
    assert_eq!(m.position(), at(1, 1));
    assert_eq!(m.direction(), Direction::West);
    assert_eq!(m.step(), Ok(Event::Halted));
    m.set_position(at(-3, 7));
    assert_eq!(m.position(), at(-3, 7));
    assert_eq!(m.to_string(), "ab\ncq\n\nPosition: x: -3, y: 7\nDirection: West");
}

#[test]
fn move_until_stops_at_the_nearest_match() {
    let mut m = machine("sLab5cd5q\n5");
    assert_eq!(m.step(), Ok(Event::Continue));
    assert_eq!(m.stack(), &vec![53]);
    assert_eq!(m.position(), at(1, 0));
    assert_eq!(m.move_until(Direction::West), Ok(()));
    assert_eq!(m.position(), at(4, 0));
    assert_eq!(m.direction(), Direction::West);
    assert_eq!(m.stack(), &vec![53]);
    assert_eq!(m.move_until(Direction::West), Ok(()));
    assert_eq!(m.position(), at(7, 0));
    assert_eq!(m.move_until(Direction::East), Ok(()));
    assert_eq!(m.position(), at(4, 0));
    assert_eq!(m.direction(), Direction::East);
}

#[test]
fn move_until_as_an_opcode_moves_on_past_the_match() {
    let mut m = machine("sLab5qd5q\n5");
    assert_eq!(m.step(), Ok(Event::Continue));
    assert_eq!(m.step(), Ok(Event::Continue));
    assert_eq!(m.position(), at(5, 0));
    assert_eq!(m.direction(), Direction::West);
    assert_eq!(m.step(), Ok(Event::Halted));
    assert_eq!(m.position(), at(5, 0));
}

#[test]
fn move_until_walks_rows_and_columns() {
    let mut m = machine("s..\nx.x\n...\n..x");
    assert_eq!(m.stack_push(Direction::South), Ok(()));
    assert_eq!(m.move_until(Direction::South), Ok(()));
    assert_eq!(m.position(), at(0, 1));
    assert_eq!(m.move_until(Direction::West), Ok(()));
    assert_eq!(m.position(), at(2, 1));
    assert_eq!(m.move_until(Direction::South), Ok(()));
    assert_eq!(m.position(), at(2, 3));
    assert_eq!(m.move_until(Direction::North), Ok(()));
    assert_eq!(m.position(), at(2, 1));
    assert_eq!(m.move_until(Direction::East), Ok(()));
    assert_eq!(m.position(), at(0, 1));
    assert_eq!(m.direction(), Direction::East);
}

#[test]
fn move_until_without_a_match_leaves_the_grid() {
    let mut m = machine("sLabc\n5");
    assert_eq!(m.step(), Ok(Event::Continue));
    assert_eq!(m.move_until(Direction::West), Err(Fault::IllegalPosition));
    assert_eq!(m.position(), at(1, 0));
    assert_eq!(m.direction(), Direction::West);
    assert_eq!(m.move_until(Direction::North), Err(Fault::IllegalPosition));
    assert_eq!(m.step(), Err(Fault::IllegalPosition));
    assert_eq!(m.position(), at(1, 0));
    assert_eq!(m.stack(), &vec![53]);
}

#[test]
fn move_until_needs_a_value() {
    let mut m = machine("Lq");
    assert_eq!(m.move_until(Direction::West), Err(Fault::StackUnderflow));
    assert_eq!(m.step(), Err(Fault::StackUnderflow));
    assert_eq!(m.position(), at(0, 0));
}

#[test]
fn a_program_of_q_halts_at_once() {
    let mut m = machine("q");
    assert_eq!(m.run(1), Ok(Event::Halted));
    assert!(!m.is_running());
    assert!(m.stack().is_empty());
    assert_eq!(m.position(), at(0, 0));
    assert_eq!(m.direction(), Direction::West);
    assert_eq!(m.codebox().to_string(), "q\n");
    assert_eq!(m.run(1000), Ok(Event::Halted));
    assert_eq!(m.step(), Ok(Event::Halted));
    assert_eq!(m.position(), at(0, 0));
}

#[test]
fn quit_keeps_the_stack() {
    let mut m = machine("sdq\n7");
    assert_eq!(m.run(u64::MAX), Ok(Event::Halted));
    assert_eq!(m.stack(), &vec![55, 55]);
    assert_eq!(m.position(), at(2, 0));
}

#[test]
fn an_unknown_character_is_fatal() {
    let mut m = machine("l?sq\n 11");
    assert_eq!(m.run(1000), Err(Fault::UnknownInstruction));
    assert_eq!(m.position(), at(1, 0));
    assert!(m.stack().is_empty());
    assert!(m.is_running());
    assert_eq!(m.step(), Err(Fault::UnknownInstruction));
    assert_eq!(m.position(), at(1, 0));
    assert!(m.stack().is_empty());
}

#[test]
fn a_cell_that_shows_as_a_space_is_no_opcode() {
    let mut grid = Codebox::new(&String::from("q"));
    assert_eq!(grid.set_instruction(&at(0, 0), 113 + 256), Ok(0));
    let mut m = Interpreter::new(grid);
    assert_eq!(m.step(), Err(Fault::UnknownInstruction));
    let mut m = machine(" q");
    assert_eq!(m.step(), Err(Fault::UnknownInstruction));
}

#[test]
fn running_off_the_grid_is_fatal() {
    let mut m = machine("ll");
    assert_eq!(m.run(1000), Err(Fault::IllegalPosition));
    assert_eq!(m.position(), at(2, 0));
    let mut m = machine("");
    assert_eq!(m.run(1000), Err(Fault::IllegalPosition));
    assert_eq!(m.position(), at(0, 0));
    let mut m = machine("h");
    assert_eq!(m.step(), Ok(Event::Continue));
    assert_eq!(m.position(), at(-1, 0));
    assert_eq!(m.step(), Err(Fault::IllegalPosition));
}

#[test]
fn run_stops_when_the_budget_is_spent() {
    let mut m = machine("lh");
    assert_eq!(m.run(0), Ok(Event::Continue));
    assert_eq!(m.position(), at(0, 0));
    assert_eq!(m.direction(), Direction::West);
    assert_eq!(m.run(10), Ok(Event::Continue));
    assert_eq!(m.position(), at(0, 0));
    assert_eq!(m.direction(), Direction::East);
    assert_eq!(m.run(3), Ok(Event::Continue));
    assert_eq!(m.position(), at(1, 0));
    assert_eq!(m.direction(), Direction::West);
    assert!(m.is_running());
}

#[test]
fn run_in_slices_is_run_at_once() {
    let text = "sj\njx\nq";
    let mut whole = machine(text);
    let at_once = whole.run(1000);
    for slice in 1..6 {
        let mut m = machine(text);
        let mut result = m.run(slice);
        while result == Ok(Event::Continue) {
            result = m.run(slice);
        }
        assert_eq!(result, at_once);
        assert_eq!(m.position(), whole.position());
        assert_eq!(m.direction(), whole.direction());
        assert_eq!(m.stack(), whole.stack());
    }
    assert_eq!(at_once, Ok(Event::Halted));
    assert_eq!(whole.position(), at(0, 2));
    assert_eq!(whole.stack(), &vec![106]);
}

#[test]
fn run_hands_out_each_character_to_print() {
    let mut m = machine("lppPq\n Hi");
    assert_eq!(m.run(100), Ok(Event::Output('H')));
    assert_eq!(m.position(), at(2, 0));
    assert_eq!(m.run(100), Ok(Event::Output('i')));
    assert_eq!(m.run(100), Err(Fault::IllegalPosition));
    assert_eq!(m.position(), at(3, 0));
}

#[test]
fn run_follows_headings_through_the_grid() {
    let mut m = machine("j  \nlpj\nqhh");
    let mut out = String::new();
    loop {
        match m.run(5) {
            Ok(Event::Output(c)) => out.push(c),
            Ok(Event::Continue) => {}
            other => {
                assert_eq!(other, Ok(Event::Halted));
                break;
            }
        }
    }
    assert_eq!(out, "h");
    assert_eq!(m.position(), at(0, 2));
    assert_eq!(m.direction(), Direction::East);
}

#[test]
fn upper_case_opcodes_look_north() {
    let mut m = machine("123\n SA\n   \n");
    m.advance();
    m.set_direction(Direction::South);
    m.advance();
    m.set_direction(Direction::West);
    assert_eq!(m.position(), at(1, 1));
    assert_eq!(m.step(), Ok(Event::Continue));
    assert_eq!(m.stack(), &vec![50]);
    assert_eq!(m.step(), Ok(Event::Continue));
    assert_eq!(m.stack(), &vec![101]);
    assert_eq!(m.position(), at(3, 1));
}

#[test]
fn self_modifying_code_runs_what_it_wrote() {
    let mut m = machine("sfj\nq?h");
    assert_eq!(m.run(100), Ok(Event::Halted));
    assert_eq!(m.codebox().to_string(), "sfj\nqqh\n");
    assert!(m.stack().is_empty());
    assert_eq!(m.position(), at(1, 1));
}

#[test]
fn get_input_writes_a_line_character_by_character() {
    let mut m = machine("g\n.");
    assert_eq!(m.get_input(Direction::South), Ok(Event::NeedInput));
    assert!(!m.has_input());
    assert_eq!(m.supply_input(Some("AB\n")), Ok(()));
    assert!(m.has_input());
    assert_eq!(m.get_input(Direction::South), Ok(Event::Continue));
    assert_eq!(cell(&m, 0, 1), Some(65));
    assert_eq!(m.get_input(Direction::South), Ok(Event::Continue));
    assert_eq!(cell(&m, 0, 1), Some(66));
    assert_eq!(m.get_input(Direction::South), Ok(Event::Continue));
    assert_eq!(cell(&m, 0, 1), Some(10));
    assert!(m.has_input());
    assert_eq!(m.get_input(Direction::South), Ok(Event::Continue));
    assert_eq!(cell(&m, 0, 1), Some(10));
    assert!(!m.has_input());
    assert_eq!(m.get_input(Direction::South), Ok(Event::NeedInput));
    assert_eq!(cell(&m, 0, 1), Some(10));
    assert_eq!(m.position(), at(0, 0));
    assert_eq!(m.codebox().to_string(), "g\n \n");
    assert_eq!(m.print(Direction::South), Ok('\n'));
}

#[test]
fn get_input_at_the_end_of_input_writes_nothing() {
    let mut m = machine("g\n.");
    assert_eq!(m.supply_input(Some("")), Ok(()));
    assert!(m.has_input());
    assert_eq!(m.get_input(Direction::South), Ok(Event::Continue));
    assert_eq!(cell(&m, 0, 1), Some(46));
    assert!(!m.has_input());
}

#[test]
fn get_input_outside_the_grid_keeps_the_line() {
    let mut m = machine("g\n.");
    assert_eq!(m.supply_input(Some("A")), Ok(()));
    assert_eq!(m.get_input(Direction::North), Err(Fault::IllegalPosition));
    assert!(m.has_input());
    assert_eq!(m.get_input(Direction::South), Ok(Event::Continue));
    assert_eq!(cell(&m, 0, 1), Some(65));
    assert_eq!(m.get_input(Direction::North), Ok(Event::Continue));
    assert!(!m.has_input());
}

#[test]
fn get_input_takes_any_character() {
    let mut m = machine("g\n.");
    assert_eq!(m.supply_input(Some("\0\u{20ac}")), Ok(()));
    assert_eq!(m.get_input(Direction::South), Ok(Event::Continue));
    assert_eq!(cell(&m, 0, 1), Some(0));
    assert_eq!(m.get_input(Direction::South), Ok(Event::Continue));
    assert_eq!(cell(&m, 0, 1), Some(0x20ac));
}

#[test]
fn a_step_waits_on_the_input_opcode_until_a_line_comes() {
    let mut m = machine("lgGpq\n .");
    assert_eq!(m.run(100), Ok(Event::NeedInput));
    assert_eq!(m.position(), at(1, 0));
    assert_eq!(m.step(), Ok(Event::NeedInput));
    assert_eq!(m.position(), at(1, 0));
    assert_eq!(m.supply_input(Some("Z")), Ok(()));
    assert_eq!(m.step(), Ok(Event::Continue));
    assert_eq!(m.position(), at(2, 0));
    assert_eq!(cell(&m, 1, 1), Some(90));
    assert_eq!(m.step(), Ok(Event::Continue));
    assert_eq!(m.position(), at(3, 0));
    assert!(!m.has_input());
    assert_eq!(m.run(100), Ok(Event::Output(' ')));
    assert_eq!(m.run(100), Ok(Event::Halted));
}

#[test]
fn a_failed_read_is_a_fault() {
    let mut m = machine("g\n.");
    assert_eq!(m.run(1), Ok(Event::NeedInput));
    assert_eq!(m.supply_input(None), Err(Fault::InputReadFailure));
    assert!(!m.has_input());
    assert_eq!(m.position(), at(0, 0));
    assert_eq!(m.codebox().to_string(), "g\n.\n");
}

#[test]
fn supplying_a_line_replaces_the_buffer() {
    let mut m = machine("g\n.");
    assert_eq!(m.supply_input(Some("AB")), Ok(()));
    assert_eq!(m.supply_input(Some("C")), Ok(()));
    assert_eq!(m.get_input(Direction::South), Ok(Event::Continue));
    assert_eq!(cell(&m, 0, 1), Some(67));
    assert_eq!(m.get_input(Direction::South), Ok(Event::Continue));
    assert!(!m.has_input());
}

#[test]
fn quit_stops_the_machine() {
    let mut m = machine("lq");
    assert!(m.is_running());
    m.quit();
    assert!(!m.is_running());
    assert_eq!(m.run(10), Ok(Event::Halted));
    assert_eq!(m.position(), at(0, 0));
}

#[test]
fn machine_to_string_shows_grid_pointer_and_heading() {
    let mut m = machine("lj\n q");
    assert_eq!(m.to_string(), "lj\n q\n\nPosition: x: 0, y: 0\nDirection: West");
    assert_eq!(m.run(2), Ok(Event::Continue));
    assert_eq!(m.to_string(), "lj\n q\n\nPosition: x: 1, y: 1\nDirection: South");
    m.set_direction(Direction::North);
    m.advance();
    m.advance();
    assert_eq!(m.to_string(), "lj\n q\n\nPosition: x: 1, y: -1\nDirection: North");
}
