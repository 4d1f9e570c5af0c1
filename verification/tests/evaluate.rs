use ruscal::{run, statements_finish, Answers, ArithOp, BinaryMath, BreakResult, Expression, Fault, Report, Request, Statement, UnaryMath, Value};

fn number(bits: u64) -> f64 {
    f64::from_bits(bits)
}

fn answer_number(request: &Request) -> u64 {
    match request {
        Request::Literal(text) => std::str::from_utf8(text).unwrap().parse::<f64>().unwrap().to_bits(),
        Request::FromInteger(n) => (*n as f64).to_bits(),
        Request::Arith(op, a, b) => {
            let (a, b) = (number(*a), number(*b));
            match op {
                ArithOp::Add => a + b,
                ArithOp::Sub => a - b,
                ArithOp::Mul => a * b,
                ArithOp::Div => a / b,
            }
            .to_bits()
        }
        Request::Unary(f, a) => {
            let a = number(*a);
            match f {
                UnaryMath::Sqrt => a.sqrt(),
                UnaryMath::Sin => a.sin(),
                UnaryMath::Cos => a.cos(),
                UnaryMath::Tan => a.tan(),
                UnaryMath::Asin => a.asin(),
                UnaryMath::Acos => a.acos(),
                UnaryMath::Atan => a.atan(),
                UnaryMath::Exp => a.exp(),
                UnaryMath::Log10 => a.log10(),
                UnaryMath::Floor => a.floor(),
            }
            .to_bits()
        }
        Request::Binary(f, a, b) => {
            let (a, b) = (number(*a), number(*b));
            match f {
                BinaryMath::Atan2 => a.atan2(b),
                BinaryMath::Pow => a.powf(b),
                BinaryMath::Log => a.log(b),
            }
            .to_bits()
        }
        Request::Truncate(a) => (number(*a) as i64) as u64,
        Request::Compare(a, b) => match number(*a).partial_cmp(&number(*b)) {
            Some(std::cmp::Ordering::Less) => 0,
            Some(std::cmp::Ordering::Equal) => 1,
            Some(std::cmp::Ordering::Greater) => 2,
            None => 3,
        },
        Request::Display(_) | Request::Debug(_) => unreachable!(),
    }
}

fn answer_text(request: &Request) -> Vec<u8> {
    match request {
        Request::Display(a) => format!("{}", number(*a)).into_bytes(),
        Request::Debug(a) => format!("{:?}", number(*a)).into_bytes(),
        _ => unreachable!(),
    }
}

fn drive(program: &Vec<Statement>, depth: usize) -> Report {
    let mut answers = Answers { numbers: vec![], texts: vec![] };
    loop {
        let report = run(program, &answers, depth);
        match &report.result {
            Err(BreakResult::Pending(request)) => {
                if request.wants_text() {
                    answers.texts.push(answer_text(request));
                } else {
                    answers.numbers.push(answer_number(request));
                }
            }
            _ => return report,
        }
    }
}

fn run_text(text: &str) -> Report {
    let program = statements_finish(text).expect("the program parses");
    drive(&program, 64)
}

fn printed(text: &str) -> String {
    String::from_utf8(run_text(text).output).unwrap()
}

fn value_of(text: &str) -> Value {
    match run_text(text).result {
        Ok(v) => v,
        other => panic!("no value: {:?}", other),
    }
}

fn fault_of(text: &str) -> Fault {
    match run_text(text).result {
        Err(BreakResult::Fault(f)) => f,
        other => panic!("no fault: {:?}", other),
    }
}

fn float(x: f64) -> Value {
    Value::Float(x.to_bits())
}

#[test]
fn hand_built_loop_prints_each_round() {
    let program = vec![Statement::For {
        loop_var: b"i".to_vec(),
        start: Expression::NumLiteral(b"0".to_vec()),
        end: Expression::NumLiteral(b"5".to_vec()),
        step: None,
        stmts: vec![Statement::Expression(Expression::FnInvoke(b"puts".to_vec(), vec![Expression::Ident(b"i".to_vec())]))],
    }];
    let report = drive(&program, 16);
    assert_eq!(report.output, b"01234".to_vec());
    assert_eq!(report.result, Ok(float(0.0)));
}

#[test]
fn loop_counts_up_to_its_end() {
    assert_eq!(printed("for i in 0 to 5 { puts(i); }"), "01234");
}

#[test]
fn loop_counts_by_its_step() {
    assert_eq!(printed("for i in 0 to 10 step 3 { puts(i); }"), "0369");
}

#[test]
fn loop_without_rounds() {
    assert_eq!(printed("for i in 5 to 5 { puts(i); }"), "");
    assert_eq!(printed("for i in 5 to 0 { puts(i); }"), "");
    assert_eq!(printed("for i in 0 to 5 step 0 { puts(i); }"), "");
    assert_eq!(printed("for i in 0 to 5 step 0 - 1 { puts(i); }"), "");
}

#[test]
fn loop_variable_outlives_the_loop() {
    assert_eq!(value_of("for i in 0 to 3 { } i"), Value::Integer(2));
    assert_eq!(value_of("let x = 0; for i in 0 to 4 { x = x + i; } x"), float(6.0));
}

#[test]
fn loop_bounds_are_made_integers() {
    assert_eq!(printed("for i in \"1\" to 3.9 { puts(i); }"), "12");
    assert_eq!(fault_of("for i in \"a\" to 3 { puts(i); }"), Fault::TypeMismatch);
    assert_eq!(fault_of("for i in [1] to 3 { puts(i); }"), Fault::TypeMismatch);
}

#[test]
fn loop_value_is_that_of_its_last_round() {
    assert_eq!(value_of("for i in 0 to 3 { i + 10 }"), float(12.0));
    assert_eq!(value_of("7; for i in 0 to 0 { 1 }"), float(7.0));
}

#[test]
fn break_ends_the_loop_and_continue_the_round() {
    assert_eq!(printed("for i in 0 to 5 { if i > 2 { break; }; puts(i); }"), "012");
    assert_eq!(printed("for i in 0 to 5 { if i < 2 { continue; }; puts(i); }"), "234");
    assert_eq!(printed("for i in 0 to 2 { for j in 0 to 3 { if j > 0 { break; }; puts(i, j); } }"), "0010");
}

#[test]
fn return_passes_through_a_loop() {
    assert_eq!(value_of("func f() { for i in 0 to 5 { if i > 1 { return i; }; } return 9; } f()"), Value::Integer(2));
}

#[test]
fn declared_function_adds() {
    assert_eq!(value_of("func add(a, b) { return a + b; } add(i64(2), i64(3))"), Value::Integer(5));
    assert_eq!(value_of("func add(a, b) { return a + b; } add(2.0, i64(3))"), float(5.0));
}

#[test]
fn literals_are_numbers() {
    assert_eq!(value_of("func add(a, b) { return a + b; } add(2, 3)"), float(5.0));
    assert_eq!(value_of("2"), float(2.0));
    assert_eq!(value_of("1.5e2"), float(150.0));
}

#[test]
fn function_value_without_return() {
    assert_eq!(value_of("func f(a) { a * 2 } f(4)"), float(8.0));
    assert_eq!(value_of("func f() { } f()"), Value::Integer(0));
}

#[test]
fn extra_arguments_are_dropped_and_missing_ones_unbound() {
    assert_eq!(value_of("func f(a) { return a; } f(1, 2, 3)"), float(1.0));
    assert_eq!(fault_of("func f(a, b) { return b; } f(1)"), Fault::UndefinedVariable);
}

#[test]
fn break_outside_a_loop_is_a_fault() {
    assert_eq!(fault_of("func f() { break; } f()"), Fault::IllegalControlFlow);
    assert_eq!(fault_of("func f() { continue; } f()"), Fault::IllegalControlFlow);
    assert_eq!(fault_of("func f() { puts(1); if 1 { break; }; puts(2); } f()"), Fault::IllegalControlFlow);
    assert_eq!(printed("func f() { puts(1); if 1 { break; }; puts(2); } f()"), "1");
}

#[test]
fn break_in_a_callee_does_not_end_the_callers_loop() {
    assert_eq!(fault_of("func f() { break; } for i in 0 to 3 { f(); }"), Fault::IllegalControlFlow);
}

#[test]
fn signals_at_the_top_end_the_program() {
    assert_eq!(run_text("puts(1); return 5; puts(2);").result, Err(BreakResult::Return(float(5.0))));
    assert_eq!(printed("puts(1); return 5; puts(2);"), "1");
    assert_eq!(run_text("break;").result, Err(BreakResult::Break));
    assert_eq!(run_text("continue;").result, Err(BreakResult::Continue));
}

#[test]
fn assignment_needs_a_declaration() {
    assert_eq!(fault_of("x = 1;"), Fault::UndeclaredAssignment);
    assert_eq!(value_of("let x = 1; x = 2; x"), float(2.0));
    assert_eq!(fault_of("let x = 1; func f() { x = 2; } f()"), Fault::UndeclaredAssignment);
}

#[test]
fn assignment_checks_the_name_before_the_value() {
    assert_eq!(printed("x = puts(1);"), "");
}

#[test]
fn constants_are_read_before_variables() {
    assert_eq!(value_of("let pi = 1; pi = 2; pi"), float(std::f64::consts::PI));
    match value_of("nan") {
        Value::Float(bits) => assert!(f64::from_bits(bits).is_nan()),
        other => panic!("{:?}", other),
    }
}

#[test]
fn variables_are_read_in_the_current_frame_only() {
    assert_eq!(fault_of("let x = 1; func f() { return x; } f()"), Fault::UndefinedVariable);
    assert_eq!(fault_of("y"), Fault::UndefinedVariable);
}

#[test]
fn functions_are_found_along_the_chain() {
    assert_eq!(value_of("func g() { return 1; } func f() { return g(); } f()"), float(1.0));
    assert_eq!(value_of("func f() { func g() { return 2; } return g(); } f()"), float(2.0));
    assert_eq!(fault_of("func f() { func g() { return 2; } return g(); } f(); g()"), Fault::UndefinedFunction);
    assert_eq!(fault_of("h()"), Fault::UndefinedFunction);
}

#[test]
fn later_declarations_shadow_earlier_ones() {
    assert_eq!(value_of("func f() { return 1; } func f() { return 2; } f()"), float(2.0));
    assert_eq!(value_of("func sqrt(x) { return 7; } sqrt(4)"), float(7.0));
    assert_eq!(value_of("let x = 1; let x = \"a\"; x"), Value::Text(b"a".to_vec()));
}

#[test]
fn arguments_are_evaluated_before_the_function_is_looked_up() {
    assert_eq!(printed("h(puts(1))"), "1");
    assert_eq!(fault_of("h(puts(1))"), Fault::UndefinedFunction);
}

#[test]
fn calls_nest_to_a_depth() {
    let program = statements_finish("func f(n) { return f(n); } f(1)").unwrap();
    assert_eq!(drive(&program, 16).result, Err(BreakResult::Fault(Fault::DepthExceeded)));
    let program = statements_finish("puts(1)").unwrap();
    assert_eq!(drive(&program, 0).result, Err(BreakResult::Fault(Fault::DepthExceeded)));
    let program = statements_finish("func f() { return 1; } f()").unwrap();
    assert_eq!(drive(&program, 1).result, Ok(float(1.0)));
    let program = statements_finish("func f() { return sqrt(4); } f()").unwrap();
    assert_eq!(drive(&program, 1).result, Err(BreakResult::Fault(Fault::DepthExceeded)));
    assert_eq!(drive(&program, 2).result, Ok(float(2.0)));
}

#[test]
fn arrays_are_indexed_within_their_bounds() {
    assert_eq!(value_of("let arr = [1, 2, 3]; arr[1]"), float(2.0));
    assert_eq!(fault_of("let arr = [1, 2, 3]; arr[5]"), Fault::IndexOutOfBounds);
    assert_eq!(fault_of("let arr = [1, 2, 3]; arr[3]"), Fault::IndexOutOfBounds);
    assert_eq!(fault_of("let arr = [1, 2, 3]; arr[0 - 1]"), Fault::IndexOutOfBounds);
    assert_eq!(value_of("let arr = [1, 2, 3]; arr[0]"), float(1.0));
    assert_eq!(value_of("let arr = [1, 2, 3]; arr[\"2\"]"), float(3.0));
    assert_eq!(fault_of("let arr = 1; arr[0]"), Fault::TypeMismatch);
    assert_eq!(fault_of("arr[0]"), Fault::UndefinedVariable);
    assert_eq!(fault_of("let arr = [1]; arr[[0]]"), Fault::TypeMismatch);
}

#[test]
fn array_literals() {
    assert_eq!(value_of("[]"), Value::Array(vec![]));
    assert_eq!(value_of("[1, \"a\", [i64(2)]]"), Value::Array(vec![float(1.0), Value::Text(b"a".to_vec()), Value::Array(vec![Value::Integer(2)])]));
}

#[test]
fn texts_join_and_nothing_else() {
    assert_eq!(value_of("\"ab\" + \"cd\""), Value::Text(b"abcd".to_vec()));
    assert_eq!(fault_of("\"a\" - \"b\""), Fault::TypeMismatch);
    assert_eq!(fault_of("\"a\" * \"b\""), Fault::TypeMismatch);
    assert_eq!(fault_of("\"a\" / \"b\""), Fault::TypeMismatch);
    assert_eq!(fault_of("\"a\" + 1"), Fault::TypeMismatch);
    assert_eq!(fault_of("1 + \"a\""), Fault::TypeMismatch);
    assert_eq!(fault_of("[1] + [2]"), Fault::TypeMismatch);
}

#[test]
fn arithmetic_of_integers_and_numbers() {
    assert_eq!(value_of("i64(7) + i64(2)"), Value::Integer(9));
    assert_eq!(value_of("i64(7) - i64(2)"), Value::Integer(5));
    assert_eq!(value_of("i64(7) * i64(2)"), Value::Integer(14));
    assert_eq!(value_of("i64(7) / i64(2)"), Value::Integer(3));
    assert_eq!(value_of("i64(0 - 7) / i64(2)"), Value::Integer(-3));
    assert_eq!(fault_of("i64(7) / i64(0)"), Fault::IntegerDivision);
    assert_eq!(value_of("i64(7) / 2"), float(3.5));
    assert_eq!(value_of("7 / i64(2)"), float(3.5));
    assert_eq!(value_of("1 / 0"), float(f64::INFINITY));
    assert_eq!(value_of("1 + 2 * 3 - 4 / 8"), float(6.5));
    assert_eq!(value_of("(1 + 2) * 3"), float(9.0));
    assert_eq!(value_of("10 - 3 - 2"), float(5.0));
    assert_eq!(value_of("16 / 4 / 2"), float(2.0));
}

#[test]
fn comparisons() {
    assert_eq!(value_of("1 < 2"), Value::Integer(1));
    assert_eq!(value_of("1 > 2"), Value::Integer(0));
    assert_eq!(value_of("2 > 1"), Value::Integer(1));
    assert_eq!(value_of("2 < 2"), Value::Integer(0));
    assert_eq!(value_of("i64(1) < i64(2)"), Value::Integer(1));
    assert_eq!(value_of("i64(3) > 2.5"), Value::Integer(1));
    assert_eq!(value_of("2.5 > i64(3)"), Value::Integer(0));
    assert_eq!(value_of("\"a\" < \"b\""), Value::Integer(1));
    assert_eq!(value_of("\"b\" < \"a\""), Value::Integer(0));
    assert_eq!(value_of("\"a\" < \"ab\""), Value::Integer(1));
    assert_eq!(value_of("nan < 1"), Value::Integer(0));
    assert_eq!(value_of("nan > 1"), Value::Integer(0));
    assert_eq!(fault_of("\"a\" < 1"), Fault::TypeMismatch);
    assert_eq!(fault_of("[1] < [2]"), Fault::TypeMismatch);
}

#[test]
fn conditionals() {
    assert_eq!(value_of("if 1 { 10 } else { 20 }"), float(10.0));
    assert_eq!(value_of("if 0 { 10 } else { 20 }"), float(20.0));
    assert_eq!(value_of("if 0 { 10 }"), Value::Integer(0));
    assert_eq!(value_of("if 0 { 10 } else if 0 { 20 } else { 30 }"), float(30.0));
    assert_eq!(value_of("if 0 { 10 } else if 1 { 20 } else { 30 }"), float(20.0));
    assert_eq!(value_of("if 0.5 { 10 } else { 20 }"), float(10.0));
    assert_eq!(value_of("if i64(0) { 10 } else { 20 }"), float(20.0));
    assert_eq!(value_of("if nan { 10 } else { 20 }"), float(10.0));
    assert_eq!(value_of("if 1 < 2 { \"yes\" } else { \"no\" }"), Value::Text(b"yes".to_vec()));
    assert_eq!(fault_of("if \"a\" { 10 }"), Fault::TypeMismatch);
    assert_eq!(fault_of("if [1] { 10 }"), Fault::TypeMismatch);
    assert_eq!(value_of("let x = 1; if 1 { x = 5; }; x"), float(5.0));
}

#[test]
fn built_in_mathematics() {
    assert_eq!(value_of("sqrt(16)"), float(4.0));
    assert_eq!(value_of("sqrt(i64(16))"), float(4.0));
    assert_eq!(value_of("pow(2, 10)"), float(1024.0));
    assert_eq!(value_of("floor(2.7)"), float(2.0));
    assert_eq!(value_of("log10(1000)"), float(3.0));
    assert_eq!(value_of("log(8, 2)"), float(3.0));
    assert_eq!(value_of("atan2(0, 1)"), float(0.0));
    assert_eq!(value_of("exp(0)"), float(1.0));
    assert_eq!(value_of("sin(0)"), float(0.0));
    assert_eq!(value_of("cos(0)"), float(1.0));
    assert_eq!(value_of("tan(0)"), float(0.0));
    assert_eq!(value_of("asin(0)"), float(0.0));
    assert_eq!(value_of("acos(1)"), float(0.0));
    assert_eq!(value_of("atan(0)"), float(0.0));
    assert_eq!(value_of("pi"), float(std::f64::consts::PI));
    assert_eq!(fault_of("sqrt()"), Fault::MissingArgument);
    assert_eq!(fault_of("pow(2)"), Fault::MissingArgument);
    assert_eq!(fault_of("pow(\"a\")"), Fault::TypeMismatch);
    assert_eq!(fault_of("sqrt(\"a\")"), Fault::TypeMismatch);
    assert_eq!(value_of("sqrt(4, \"ignored\")"), float(2.0));
}

#[test]
fn built_in_conversions() {
    assert_eq!(value_of("i64(2.9)"), Value::Integer(2));
    assert_eq!(value_of("i64(0 - 2.9)"), Value::Integer(-2));
    assert_eq!(value_of("i64(\"12\")"), Value::Integer(12));
    assert_eq!(fault_of("i64(\"x\")"), Fault::TypeMismatch);
    assert_eq!(fault_of("i64([1])"), Fault::TypeMismatch);
    assert_eq!(fault_of("i64()"), Fault::MissingArgument);
    assert_eq!(value_of("f64(i64(3))"), float(3.0));
    assert_eq!(value_of("f64(3.5)"), float(3.5));
    assert_eq!(fault_of("f64(\"3\")"), Fault::TypeMismatch);
    assert_eq!(fault_of("f64()"), Fault::MissingArgument);
    assert_eq!(value_of("str(1.5)"), Value::Text(b"1.5".to_vec()));
    assert_eq!(value_of("str(2)"), Value::Text(b"2".to_vec()));
    assert_eq!(value_of("str(i64(0 - 3))"), Value::Text(b"-3".to_vec()));
    assert_eq!(value_of("str(\"a\")"), Value::Text(b"a".to_vec()));
    assert_eq!(fault_of("str([1])"), Fault::TypeMismatch);
    assert_eq!(fault_of("str()"), Fault::MissingArgument);
    assert_eq!(value_of("is_nan(nan)"), float(1.0));
    assert_eq!(value_of("is_nan(1)"), float(0.0));
    assert_eq!(value_of("is_nan(i64(1))"), float(0.0));
    assert_eq!(value_of("is_nan(1 / 0)"), float(0.0));
    assert_eq!(fault_of("is_nan()"), Fault::MissingArgument);
}

#[test]
fn built_in_output() {
    assert_eq!(printed("print(5);"), "print: 5\n");
    assert_eq!(value_of("print(5)"), Value::Integer(0));
    assert_eq!(printed("print(1.5, 2);"), "print: 1.5\n");
    assert_eq!(fault_of("print()"), Fault::MissingArgument);
    assert_eq!(printed("puts(1, \"a\", i64(2), [1, \"b\"]);"), "1a2[1, b]");
    assert_eq!(value_of("puts()"), float(0.0));
    assert_eq!(printed("puts();"), "");
    assert_eq!(printed("dbg(5);"), "dbg: F64(5.0)\n");
    assert_eq!(printed("dbg(i64(5));"), "dbg: I64(5)\n");
    assert_eq!(printed("dbg(\"a\\nb\");"), "dbg: Str(\"a\\nb\")\n");
    assert_eq!(printed("dbg(\"a\");"), "dbg: Str(\"a\")\n");
    assert_eq!(printed("dbg([1, i64(2), \"c\", []]);"), "dbg: Array([F64(1.0), I64(2), Str(\"c\"), Array([])])\n");
    assert_eq!(value_of("dbg(1)"), Value::Integer(0));
    assert_eq!(fault_of("dbg()"), Fault::MissingArgument);
}

#[test]
fn output_before_a_fault_stays() {
    let report = run_text("puts(1); puts(2); x = 1; puts(3);");
    assert_eq!(report.output, b"12".to_vec());
    assert_eq!(report.result, Err(BreakResult::Fault(Fault::UndeclaredAssignment)));
}

#[test]
fn text_escapes() {
    assert_eq!(value_of("\"a\\nb\""), Value::Text(b"a\nb".to_vec()));
    assert_eq!(value_of("\"a\\\\b\""), Value::Text(b"a\\b".to_vec()));
    assert_eq!(value_of("\"a\\\\nb\""), Value::Text(b"a\nb".to_vec()));
    assert_eq!(value_of("\"a\\tb\""), Value::Text(b"a\\tb".to_vec()));
    assert_eq!(value_of("\"h\u{e9}\""), Value::Text("h\u{e9}".as_bytes().to_vec()));
}

#[test]
fn displayed_array_does_not_read_back() {
    assert_eq!(printed("puts([1, \"a\"]);"), "[1, a]");
    assert_eq!(value_of("[1, \"a\"]"), Value::Array(vec![float(1.0), Value::Text(b"a".to_vec())]));
    assert_eq!(fault_of("[1, a]"), Fault::UndefinedVariable);
    assert_eq!(printed("puts([\"1, 2\"]);"), "[1, 2]");
    assert_eq!(value_of("[1, 2]"), Value::Array(vec![float(1.0), float(2.0)]));
}

#[test]
fn a_run_pends_on_what_it_was_not_told() {
    let program = statements_finish("1 + 2").unwrap();
    let mut answers = Answers { numbers: vec![], texts: vec![] };
    assert_eq!(run(&program, &answers, 8).result, Err(BreakResult::Pending(Request::Literal(b"1".to_vec()))));
    answers.numbers.push(1.0f64.to_bits());
    assert_eq!(run(&program, &answers, 8).result, Err(BreakResult::Pending(Request::Literal(b"2".to_vec()))));
    answers.numbers.push(2.0f64.to_bits());
    assert_eq!(
        run(&program, &answers, 8).result,
        Err(BreakResult::Pending(Request::Arith(ArithOp::Add, 1.0f64.to_bits(), 2.0f64.to_bits())))
    );
    answers.numbers.push(3.0f64.to_bits());
    assert_eq!(run(&program, &answers, 8).result, Ok(float(3.0)));
    let program = statements_finish("puts(1.5)").unwrap();
    let answers = Answers { numbers: vec![1.5f64.to_bits()], texts: vec![] };
    let report = run(&program, &answers, 8);
    assert_eq!(report.result, Err(BreakResult::Pending(Request::Display(1.5f64.to_bits()))));
    assert_eq!(report.output, b"".to_vec());
    let answers = Answers { numbers: vec![1.5f64.to_bits()], texts: vec![b"one and a half".to_vec()] };
    assert_eq!(run(&program, &answers, 8).output, b"one and a half".to_vec());
}

#[test]
fn requests_carry_what_the_unit_needs() {
    let program = statements_finish("i64(2.5)").unwrap();
    let answers = Answers { numbers: vec![2.5f64.to_bits()], texts: vec![] };
    assert_eq!(run(&program, &answers, 8).result, Err(BreakResult::Pending(Request::Truncate(2.5f64.to_bits()))));
    let program = statements_finish("1 < 2").unwrap();
    let answers = Answers { numbers: vec![1, 2], texts: vec![] };
    assert_eq!(run(&program, &answers, 8).result, Err(BreakResult::Pending(Request::Compare(1, 2))));
    let answers = Answers { numbers: vec![1, 2, 0], texts: vec![] };
    assert_eq!(run(&program, &answers, 8).result, Ok(Value::Integer(1)));
    let answers = Answers { numbers: vec![1, 2, 77], texts: vec![] };
    assert_eq!(run(&program, &answers, 8).result, Ok(Value::Integer(0)));
    let program = statements_finish("sqrt(i64(4))").unwrap();
    let answers = Answers { numbers: vec![4, (-4i64) as u64], texts: vec![] };
    assert_eq!(run(&program, &answers, 8).result, Err(BreakResult::Pending(Request::FromInteger(-4))));
    let answers = Answers { numbers: vec![4, (-4i64) as u64, 9], texts: vec![] };
    assert_eq!(run(&program, &answers, 8).result, Err(BreakResult::Pending(Request::Unary(UnaryMath::Sqrt, 9))));
    let program = statements_finish("pow(1, 2)").unwrap();
    let answers = Answers { numbers: vec![10, 20], texts: vec![] };
    assert_eq!(run(&program, &answers, 8).result, Err(BreakResult::Pending(Request::Binary(BinaryMath::Pow, 10, 20))));
    let program = statements_finish("dbg(1)").unwrap();
    let answers = Answers { numbers: vec![10], texts: vec![] };
    assert_eq!(run(&program, &answers, 8).result, Err(BreakResult::Pending(Request::Debug(10))));
    assert!(Request::Debug(1).wants_text());
    assert!(Request::Display(1).wants_text());
    assert!(!Request::Truncate(1).wants_text());
    assert!(!Request::Literal(vec![]).wants_text());
}

#[test]
fn long_loops_finish() {
    let report = run_text("let s = 0; for i in 0 to 300 { s = s + i * 2; } s");
    assert_eq!(report.result, Ok(float(89700.0)));
}
