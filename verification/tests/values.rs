use std::cmp::Ordering;

use iron_oxide::frame::Frame;
use iron_oxide::logger::{Level, Logger};
use iron_oxide::symbols::{Scope, Symbol, Symbols};
use iron_oxide::tree::Parameter;
use iron_oxide::value::{FuncRef, Value};

fn function(name: &str, arity: usize) -> Value {
    Value::Func(FuncRef { name: name.to_string(), index: 3 }, arity)
}

fn key(name: &str) -> String {
    name.to_string()
}

#[test]
fn a_value_equals_itself_unless_it_is_a_function() {
    let values = vec![
        Value::Nil,
        Value::Bool(true),
        Value::Bool(false),
        Value::I32(0),
        Value::I32(i32::MIN),
        Value::F32("1.5".to_string()),
        Value::Chars("".to_string()),
        Value::Chars("text".to_string()),
    ];
    for value in &values {
        assert!(value == value, "{:?}", value);
        assert!(*value == value.clone());
    }
    for (i, a) in values.iter().enumerate() {
        for (j, b) in values.iter().enumerate() {
            assert_eq!(a == b, i == j);
        }
    }
    let f = function("f", 1);
    assert!(f != f);
    assert!(f != f.clone());
    assert!(f != Value::Nil);
}

#[test]
fn values_have_a_textual_form() {
    assert_eq!(Value::Nil.to_text(), "nil");
    assert_eq!(Value::Bool(true).to_text(), "true");
    assert_eq!(Value::Bool(false).to_text(), "false");
    assert_eq!(Value::I32(0).to_text(), "0");
    assert_eq!(Value::I32(7).to_text(), "7");
    assert_eq!(Value::I32(10).to_text(), "10");
    assert_eq!(Value::I32(-1).to_text(), "-1");
    assert_eq!(Value::I32(1234567890).to_text(), "1234567890");
    assert_eq!(Value::I32(i32::MAX).to_text(), "2147483647");
    assert_eq!(Value::I32(i32::MIN).to_text(), "-2147483648");
    assert_eq!(Value::F32("3.14".to_string()).to_text(), "3.14");
    assert_eq!(Value::Chars("raw \"text\"".to_string()).to_text(), "raw \"text\"");
    assert_eq!(function("add", 2).to_text(), "<func add 2>");
    assert_eq!(function("main", 0).to_text(), "<func main 0>");
    assert_eq!(function("many", 12).to_text(), "<func many 12>");
}

#[test]
fn print_writes_one_line() {
    let mut logger = Logger::new(Level::Off);
    Value::I32(5).print(&mut logger);
    Value::Nil.print(&mut logger);
    function("f", 1).print(&mut logger);
    assert_eq!(logger.output, vec!["5", "nil", "<func f 1>"]);
}

#[test]
fn the_logger_shows_what_its_setting_allows() {
    let lines = |level: Level| {
        let mut logger = Logger::new(level);
        logger.info("i");
        logger.debug("d");
        logger.warn("w");
        logger.log(Level::Off, "n");
        logger.output
    };
    assert_eq!(lines(Level::Info), vec!["[INFO] i"]);
    assert_eq!(lines(Level::Debug), vec!["[INFO] i", "[DEBUG] d"]);
    assert_eq!(lines(Level::Warn), vec!["[INFO] i", "[DEBUG] d", "[WARN] w"]);
    assert!(lines(Level::Off).is_empty());
    let mut logger = Logger::new(Level::Off);
    logger.print("line".to_string());
    logger.info("hidden");
    assert_eq!(logger.output, vec!["line"]);
    assert_eq!(logger.level, Level::Off);
}

#[test]
fn a_frame_looks_up_locally_then_in_its_parent_then_globally() {
    let mut globals = Frame::new(None, None);
    globals.assign(&key("g"), Value::I32(1));
    globals.assign(&key("both"), Value::I32(2));
    globals.assign(&key("all"), Value::I32(3));
    let mut parent = Frame::new(None, None);
    parent.assign(&key("p"), Value::I32(10));
    parent.assign(&key("all"), Value::I32(30));
    let mut frame = Frame::new(Some(&globals), Some(&parent));
    frame.assign(&key("l"), Value::I32(100));
    frame.assign(&key("both"), Value::I32(200));
    frame.assign(&key("all"), Value::I32(300));

    assert_eq!(frame.lookup(&key("l")), Value::I32(100));
    assert_eq!(frame.lookup(&key("both")), Value::I32(200));
    assert_eq!(frame.lookup(&key("all")), Value::I32(300));
    assert_eq!(frame.lookup(&key("p")), Value::I32(10));
    assert_eq!(frame.lookup(&key("g")), Value::I32(1));
    assert_eq!(frame.lookup(&key("none")), Value::Nil);
    assert_eq!(frame.lookup_parent(&key("all")), Value::I32(30));
    assert_eq!(frame.lookup_parent(&key("g")), Value::Nil);
    assert_eq!(frame.lookup_global(&key("all")), Value::I32(3));
    assert_eq!(frame.lookup_global(&key("l")), Value::Nil);
    assert_eq!(globals.lookup_global(&key("g")), Value::Nil);
    assert_eq!(globals.lookup_parent(&key("g")), Value::Nil);
    assert_eq!(globals.lookup(&key("g")), Value::I32(1));
    assert!(frame.get_globals().is_some());
    assert!(globals.get_globals().is_none());
    assert_eq!(frame.get_globals().unwrap().lookup(&key("both")), Value::I32(2));
}

#[test]
fn an_assignment_replaces_the_value() {
    let mut frame = Frame::new(None, None);
    assert_eq!(frame.lookup(&key("x")), Value::Nil);
    frame.assign(&key("x"), Value::I32(1));
    frame.assign(&key("y"), Value::Bool(true));
    frame.assign(&key("x"), Value::Chars("s".to_string()));
    assert_eq!(frame.lookup(&key("x")), Value::Chars("s".to_string()));
    assert_eq!(frame.lookup(&key("y")), Value::Bool(true));
}

#[test]
fn parameters_are_bound_in_order() {
    let mut frame = Frame::new(None, None);
    let parameters = vec![Parameter::new(key("a")), Parameter::new(key("b")), Parameter::new(key("a"))];
    frame.init_parameters(&parameters, vec![Value::I32(1), Value::I32(2), Value::I32(3)]);
    assert_eq!(frame.lookup(&key("a")), Value::I32(3));
    assert_eq!(frame.lookup(&key("b")), Value::I32(2));
    let mut empty = Frame::new(None, None);
    empty.init_parameters(&Vec::new(), Vec::new());
    assert_eq!(empty.lookup(&key("a")), Value::Nil);
    assert_eq!(Parameter::new(key("name")).name, "name");
}

#[test]
fn a_frame_is_seeded_from_a_symbol_table() {
    let mut symbols = Symbols::new(None);
    assert!(symbols.insert(Symbol::new(key("f"), function("f", 2), 2)));
    assert!(symbols.insert(Symbol::new(key("g"), Value::Nil, 0)));
    let mut frame = Frame::new(None, None);
    frame.assign(&key("kept"), Value::I32(1));
    frame.assign(&key("g"), Value::I32(2));
    frame.init_symbols(&symbols);
    assert_eq!(frame.lookup(&key("f")).to_text(), "<func f 2>");
    assert_eq!(frame.lookup(&key("g")), Value::Nil);
    assert_eq!(frame.lookup(&key("kept")), Value::I32(1));
}

#[test]
fn a_symbol_table_holds_each_name_once() {
    let mut symbols = Symbols::new(Some(Scope::Program));
    assert_eq!(symbols.parent, Some(Scope::Program));
    assert!(!symbols.contains("a"));
    assert!(symbols.insert(Symbol::new(key("a"), Value::Nil, 0)));
    assert!(symbols.insert(Symbol::new(key("b"), Value::I32(1), 0)));
    assert!(!symbols.insert(Symbol::new(key("a"), Value::I32(9), 3)));
    assert_eq!(symbols.entries.len(), 2);
    assert_eq!(symbols.find("a"), Some(0));
    assert_eq!(symbols.find("b"), Some(1));
    assert_eq!(symbols.find("c"), None);
    assert_eq!(symbols.entries[0].value, Value::Nil);
    assert_eq!(symbols.entries[0].signature, 0);
    assert!(!symbols.entries[0].is_used);
    assert!(symbols.mark_used("b"));
    assert!(!symbols.mark_used("c"));
    assert!(!symbols.entries[0].is_used);
    assert!(symbols.entries[1].is_used);
    let copy = symbols.entries[1].clone();
    assert_eq!(copy.name, "b");
    assert!(copy.is_used);
}

#[test]
fn values_of_one_variant_are_ordered() {
    let chars = |text: &str| Value::Chars(text.to_string());
    assert_eq!(Value::Nil.partial_cmp(&Value::Nil), Some(Ordering::Equal));
    assert_eq!(Value::Bool(false).partial_cmp(&Value::Bool(true)), Some(Ordering::Less));
    assert_eq!(Value::Bool(true).partial_cmp(&Value::Bool(false)), Some(Ordering::Greater));
    assert_eq!(Value::Bool(true).partial_cmp(&Value::Bool(true)), Some(Ordering::Equal));
    assert_eq!(Value::I32(-1).partial_cmp(&Value::I32(1)), Some(Ordering::Less));
    assert_eq!(Value::I32(2).partial_cmp(&Value::I32(2)), Some(Ordering::Equal));
    assert_eq!(chars("b").partial_cmp(&chars("ab")), Some(Ordering::Greater));
    assert_eq!(chars("ab").partial_cmp(&chars("abc")), Some(Ordering::Less));
    assert!(Value::I32(1) < Value::I32(2));
    assert!(chars("a") <= chars("a"));
    assert!(!(Value::I32(1) < chars("2")));
    assert_eq!(Value::I32(1).partial_cmp(&Value::Bool(true)), None);
    assert_eq!(Value::Nil.partial_cmp(&Value::I32(0)), None);
    assert_eq!(function("f", 0).partial_cmp(&function("f", 0)), None);
    let float = |numeral: &str| Value::F32(numeral.to_string());
    assert_eq!(float("1.5").partial_cmp(&float("1.5")), Some(Ordering::Equal));
    assert_eq!(float("1.5").partial_cmp(&float("2.5")), None);
}
