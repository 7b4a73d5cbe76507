use iron_oxide::error::{Fault, RuntimeError};
use iron_oxide::floats::Floats;
use iron_oxide::logger::{Level, Logger};
use iron_oxide::machine::run_main;
use iron_oxide::tree::{ArithmeticOp, BinaryOp, RelationalOp};
use iron_oxide::value::Value;

fn number(value: &Value) -> f32 {
    match value {
        Value::F32(numeral) => numeral.parse().unwrap(),
        Value::I32(i) => *i as f32,
        other => panic!("{:?}", other),
    }
}

fn worked_out(op: BinaryOp, left: &Value, right: &Value) -> Value {
    let a = number(left);
    let b = number(right);
    match op {
        BinaryOp::Arithmetic(ArithmeticOp::Add) => Value::F32((a + b).to_string()),
        BinaryOp::Arithmetic(ArithmeticOp::Sub) => Value::F32((a - b).to_string()),
        BinaryOp::Arithmetic(ArithmeticOp::Mul) => Value::F32((a * b).to_string()),
        BinaryOp::Arithmetic(ArithmeticOp::Div) => Value::F32((a / b).to_string()),
        BinaryOp::Relational(RelationalOp::Equal) => Value::Bool(a == b),
        BinaryOp::Relational(RelationalOp::LessThan) => Value::Bool(a < b),
        BinaryOp::Relational(RelationalOp::GreaterThan) => Value::Bool(a > b),
        BinaryOp::Relational(RelationalOp::NotEqual) => Value::Bool(a != b),
        BinaryOp::Relational(RelationalOp::LessThanEqual) => Value::Bool(a <= b),
        BinaryOp::Relational(RelationalOp::GreaterThanEqual) => Value::Bool(a >= b),
        BinaryOp::EqualTo => Value::Bool(a == b),
    }
}

fn run(source: &str) -> (Result<Value, Fault>, Vec<String>, usize) {
    let mut floats = Floats::new();
    loop {
        let mut logger = Logger::new(Level::Off);
        match run_main(source.to_string(), &floats, &mut logger, 1000) {
            Err(Fault::Runtime(RuntimeError::FloatPending(op, left, right))) => {
                let result = worked_out(op, &left, &right);
                floats.record(op, left, right, result);
            },
            other => return (other, logger.output, floats.answers.len()),
        }
    }
}

#[test]
fn a_run_without_answers_stops_at_the_first_operation() {
    let mut logger = Logger::new(Level::Off);
    let source = "func main(argc) [ print 1; print 1.5 + 2; print 2; ]";
    let result = run_main(source.to_string(), &Floats::new(), &mut logger, 10);
    match result {
        Err(Fault::Runtime(RuntimeError::FloatPending(op, left, right))) => {
            assert_eq!(op, BinaryOp::Arithmetic(ArithmeticOp::Add));
            assert_eq!(left, Value::F32("1.5".to_string()));
            assert_eq!(right, Value::I32(2));
        },
        other => panic!("{:?}", other),
    }
    assert_eq!(logger.output, vec!["1"]);
}

#[test]
fn a_run_with_the_answers_goes_on() {
    let source = "func main(argc) [ let x; let y;
          x = 1.5 + 2; print x;
          print x * 2.0;
          print x < 4;
          print 4 > x;
          y = 0.1 + 0.2; print y; print y == 0.3; print y != 0.3;
          print 1.0 == 1.00;
          print 2.5 - 0.5 - 1;
          print \"x=\" + x;
          if x >= 3.5 [ print \"yes\"; ] else [ print \"no\"; ]
        ]";
    let (result, output, answers) = run(source);
    assert!(result.is_ok(), "{:?}", result);
    assert_eq!(
        output,
        vec!["3.5", "7", "true", "true", "0.3", "true", "false", "true", "3", "x=3.5", "yes"]
    );
    assert_eq!(answers, 11);
}

#[test]
fn an_integer_is_widened() {
    let (result, output, _) = run("func main(argc) [ print 16777217 + 0.0; print 0.5 * 3; return 1 - 0.25; ]");
    assert_eq!(result.unwrap(), Value::F32("0.75".to_string()));
    assert_eq!(output, vec!["16777216", "1.5"]);
}

#[test]
fn a_loop_over_single_precision_numbers_ends() {
    let source = "func main(argc) [ let x; x = 0.0; while x < 1.0 [ x = x + 0.25; print x; ] ]";
    let (result, output, answers) = run(source);
    assert!(result.is_ok());
    assert_eq!(output, vec!["0.25", "0.5", "0.75", "1"]);
    assert_eq!(answers, 9);
}
