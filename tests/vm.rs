use rlox::chunk::Chunk;
use rlox::operation::Operation;
use rlox::vm::{InterpretError, RuntimeFault, Step, STACK_MAX, VM};

fn run_numbers(vm: &mut VM<f64>, chunk: &Chunk<f64>) -> Result<f64, InterpretError> {
    let mut step = vm.interpret(chunk);
    loop {
        match step? {
            Step::Continue => step = vm.step(chunk),
            Step::Negate(v) => step = vm.resume(chunk, -v),
            Step::Binary(op, first, second) => {
                let r = match op {
                    Operation::Add => first + second,
                    Operation::Subtract => first - second,
                    Operation::Multiply => first * second,
                    Operation::Divide => first / second,
                    _ => panic!("not a binary operation"),
                };
                step = vm.resume(chunk, r);
            }
            Step::Return(v) => return Ok(v),
        }
    }
}

fn load(c: &mut Chunk<f64>, value: f64, line: usize) {
    let index = c.add_constant(value);
    c.write(Operation::Constant.to_byte(), line);
    c.write(index, line);
}

#[test]
fn end_to_end_arithmetic() {
    let mut c = Chunk::new();
    load(&mut c, 1.2, 123);
    load(&mut c, 3.4, 123);
    c.write(Operation::Add.to_byte(), 123);
    load(&mut c, 5.6, 123);
    c.write(Operation::Divide.to_byte(), 123);
    c.write(Operation::Negate.to_byte(), 123);
    c.write(Operation::Return.to_byte(), 123);
    let mut vm = VM::new();
    let r = run_numbers(&mut vm, &c).unwrap();
    // Divide receives (first popped, second popped) = (5.6, 3.4 + 1.2).
    assert_eq!(r, -(5.6 / (3.4 + 1.2)));
    assert_eq!(vm.stack().count(), 0);
}

#[test]
fn subtract_uses_first_popped_minus_second_popped() {
    let mut c = Chunk::new();
    load(&mut c, 10.0, 1);
    load(&mut c, 3.0, 1);
    c.write(Operation::Subtract.to_byte(), 1);
    c.write(Operation::Return.to_byte(), 1);
    let mut vm = VM::new();
    assert_eq!(run_numbers(&mut vm, &c), Ok(-7.0));
}

#[test]
fn binary_step_hands_out_last_pushed_first() {
    let mut c = Chunk::new();
    load(&mut c, 10.0, 1);
    load(&mut c, 3.0, 1);
    c.write(Operation::Subtract.to_byte(), 1);
    let mut vm = VM::new();
    assert_eq!(vm.step(&c), Ok(Step::Continue));
    assert_eq!(vm.step(&c), Ok(Step::Continue));
    assert_eq!(vm.stack().count(), 2);
    assert_eq!(vm.step(&c), Ok(Step::Binary(Operation::Subtract, 3.0, 10.0)));
    assert_eq!(vm.ip(), 5);
    assert_eq!(vm.stack().count(), 0);
    let mut vm = VM::new();
    assert_eq!(vm.interpret(&c), Ok(Step::Binary(Operation::Subtract, 3.0, 10.0)));
    assert_eq!(vm.ip(), 5);
}

#[test]
fn return_on_empty_stack_is_runtime_error() {
    let mut c = Chunk::<f64>::new();
    c.write(Operation::Return.to_byte(), 1);
    let mut vm = VM::new();
    assert_eq!(
        vm.interpret(&c),
        Err(InterpretError::RuntimeError(RuntimeFault::StackUnderflow))
    );
    assert_eq!(vm.stack().count(), 0);
    assert_eq!(vm.ip(), 0);
}

#[test]
fn binary_with_one_value_is_underflow_and_keeps_stack() {
    let mut c = Chunk::new();
    load(&mut c, 2.0, 1);
    c.write(Operation::Add.to_byte(), 1);
    let mut vm = VM::new();
    assert_eq!(
        vm.interpret(&c),
        Err(InterpretError::RuntimeError(RuntimeFault::StackUnderflow))
    );
    assert_eq!(vm.stack().count(), 1);
    assert_eq!(*vm.stack().get(0), 2.0);
    assert_eq!(vm.ip(), 2);
}

#[test]
fn unknown_opcode_is_runtime_error() {
    let mut c = Chunk::<f64>::new();
    c.write(9, 1);
    let mut vm = VM::new();
    assert_eq!(
        vm.interpret(&c),
        Err(InterpretError::RuntimeError(RuntimeFault::UnknownOpcode(9)))
    );
    assert_eq!(vm.stack().count(), 0);
}

#[test]
fn running_off_the_end_is_runtime_error() {
    let c = Chunk::<f64>::new();
    let mut vm = VM::new();
    assert_eq!(
        vm.interpret(&c),
        Err(InterpretError::RuntimeError(RuntimeFault::CodeOverrun))
    );
    let mut c = Chunk::<f64>::new();
    c.write(Operation::Constant.to_byte(), 1);
    assert_eq!(
        vm.run(&c, 0),
        Err(InterpretError::RuntimeError(RuntimeFault::CodeOverrun))
    );
}

#[test]
fn missing_constant_is_runtime_error() {
    let mut c = Chunk::<f64>::new();
    c.write(Operation::Constant.to_byte(), 1);
    c.write(3, 1);
    let mut vm = VM::new();
    assert_eq!(
        vm.interpret(&c),
        Err(InterpretError::RuntimeError(RuntimeFault::MissingConstant(3)))
    );
}

#[test]
fn pushing_past_the_limit_is_overflow() {
    let mut c = Chunk::new();
    load(&mut c, 1.0, 1);
    load(&mut c, 2.0, 1);
    let mut vm = VM::with_stack_max(1);
    assert_eq!(
        vm.interpret(&c),
        Err(InterpretError::RuntimeError(RuntimeFault::StackOverflow))
    );
    assert_eq!(vm.stack().count(), 1);
    assert_eq!(vm.ip(), 2);
}

#[test]
fn negate_hands_out_top_value() {
    let mut c = Chunk::new();
    load(&mut c, 4.5, 1);
    c.write(Operation::Negate.to_byte(), 1);
    c.write(Operation::Return.to_byte(), 1);
    let mut vm = VM::new();
    assert_eq!(vm.interpret(&c), Ok(Step::Negate(4.5)));
    assert_eq!(vm.resume(&c, -4.5), Ok(Step::Return(-4.5)));
}

#[test]
fn resume_past_the_limit_is_overflow() {
    let mut c = Chunk::new();
    load(&mut c, 1.0, 1);
    c.write(Operation::Return.to_byte(), 1);
    let mut vm = VM::with_stack_max(0);
    assert_eq!(
        vm.resume(&c, 2.0),
        Err(InterpretError::RuntimeError(RuntimeFault::StackOverflow))
    );
    assert_eq!(vm.stack().count(), 0);
    assert_eq!(vm.push(2.0), Err(InterpretError::RuntimeError(RuntimeFault::StackOverflow)));
}

#[test]
fn default_stack_limit() {
    let vm = VM::<f64>::new();
    assert_eq!(STACK_MAX, 265);
    assert_eq!(vm.stack().count(), 0);
    assert_eq!(vm.ip(), 0);
}
