use brainfuck::brainfuck::{RuntimeError, VirtualMachine, VmError};

fn run_and_assert(program: &str, expect: &str) {
    let mut vm = VirtualMachine::new(Vec::new());
    vm.run(program).unwrap();
    let output = String::from_utf8(vm.output().clone()).unwrap();
    assert_eq!(output, expect);
}

#[test]
fn hello_world() {
    let program = "++++++++++[>+++++++>++++++++++>+++>+<<<<-]>++.>+.+++++++..+++.>++.<<+++++++++++++++.>.+++.------.--------.>+.>.";
    let expect = "Hello World!\n";
    run_and_assert(program, expect);
}

#[test]
fn adder() {
    let program = "++++++++++++++++++++++++++++++>+++[-<+>]<.";
    let expect = "!";
    run_and_assert(program, expect)
}

#[test]
fn zero_cell_loop_runs_zero_times() {
    let mut vm = VirtualMachine::new(Vec::new());
    vm.run("[.]").unwrap();
    assert!(vm.output().is_empty());
}

#[test]
fn comments_and_whitespace_have_no_effect() {
    let mut plain = VirtualMachine::new(Vec::new());
    plain.run("+++.").unwrap();
    let mut noisy = VirtualMachine::new(Vec::new());
    noisy.run("// noise\n + +\t+ .").unwrap();
    assert_eq!(plain.output(), noisy.output());
    assert_eq!(plain.output().clone(), vec![3u8]);
}

#[test]
fn wraparound_round_trips() {
    let mut vm = VirtualMachine::new(Vec::new());
    vm.run("-.+.").unwrap();
    assert_eq!(vm.output().clone(), vec![255u8, 0u8]);
}

#[test]
fn moving_left_of_origin_grows_the_tape() {
    let mut vm = VirtualMachine::new(Vec::new());
    vm.run("+<.>.").unwrap();
    assert_eq!(vm.output().clone(), vec![0u8, 1u8]);
}

#[test]
fn moving_right_past_the_end_grows_the_tape() {
    let mut vm = VirtualMachine::new(Vec::new());
    vm.run("+>>>>>>>>>>>.").unwrap();
    assert_eq!(vm.output().clone(), vec![0u8]);
}

#[test]
fn input_stores_one_byte_per_comma() {
    let mut vm = VirtualMachine::new(vec![b'h', b'i']);
    vm.run(",.,.").unwrap();
    assert_eq!(vm.output().clone(), vec![b'h', b'i']);
}

#[test]
fn input_skips_newline_bytes() {
    let mut vm = VirtualMachine::new(vec![b'\n', b'\n', b'a']);
    vm.run(",.").unwrap();
    assert_eq!(vm.output().clone(), vec![b'a']);
}

#[test]
fn exhausted_input_is_a_runtime_error() {
    let mut vm = VirtualMachine::new(Vec::new());
    let result = vm.run(",");
    assert!(matches!(
        result,
        Err(VmError::Runtime(RuntimeError::InputExhausted))
    ));
}

#[test]
fn malformed_program_executes_nothing() {
    let mut vm = VirtualMachine::new(Vec::new());
    let result = vm.run("+.]");
    assert!(matches!(result, Err(VmError::Parse(_))));
    assert!(vm.output().is_empty());
}

#[test]
fn debug_mode_traces_each_instruction() {
    let mut vm = VirtualMachine::new_debug(Vec::new());
    vm.run("+.").unwrap();
    let text = String::from_utf8(vm.output().clone()).unwrap();
    assert_eq!(text, "tape: 0\nsymbol: +\ntape: 1\nsymbol: .\n\u{1}");
}
