use ruscal::frame::{binary_fn, unary_fn};
use ruscal::stmts::eval_stmts;
use ruscal::table::Table;
use ruscal::{Answers, BinaryMath, BreakResult, Expression, Fault, FnDef, NativeFn, Session, StackFrame, Statement, UnaryMath, UserFn, Value};

fn native_of(frame: &StackFrame, name: &str) -> Option<NativeFn> {
    match frame.get_fn(name.as_bytes()) {
        Some(FnDef::Native(code)) => Some(code),
        _ => None,
    }
}

#[test]
fn tables_keep_the_last_item_of_a_key() {
    let mut table: Table<Value> = Table::new();
    assert_eq!(table.get(b"a"), None);
    table.insert(b"a".to_vec(), Value::Integer(1));
    table.insert(b"b".to_vec(), Value::Integer(2));
    assert_eq!(table.get(b"a"), Some(&Value::Integer(1)));
    assert_eq!(table.get(b"b"), Some(&Value::Integer(2)));
    assert_eq!(table.get(b"c"), None);
    assert_eq!(table.get(b""), None);
    table.insert(b"a".to_vec(), Value::Integer(3));
    assert_eq!(table.get(b"a"), Some(&Value::Integer(3)));
    assert_eq!(table.get(b"b"), Some(&Value::Integer(2)));
    table.insert(b"".to_vec(), Value::Integer(4));
    assert_eq!(table.get(b""), Some(&Value::Integer(4)));
}

#[test]
fn the_first_frame_has_the_built_in_functions() {
    let frame = StackFrame::new();
    assert_eq!(native_of(&frame, "sqrt"), Some(NativeFn::Unary(UnaryMath::Sqrt)));
    assert_eq!(native_of(&frame, "sin"), Some(NativeFn::Unary(UnaryMath::Sin)));
    assert_eq!(native_of(&frame, "cos"), Some(NativeFn::Unary(UnaryMath::Cos)));
    assert_eq!(native_of(&frame, "tan"), Some(NativeFn::Unary(UnaryMath::Tan)));
    assert_eq!(native_of(&frame, "asin"), Some(NativeFn::Unary(UnaryMath::Asin)));
    assert_eq!(native_of(&frame, "acos"), Some(NativeFn::Unary(UnaryMath::Acos)));
    assert_eq!(native_of(&frame, "atan"), Some(NativeFn::Unary(UnaryMath::Atan)));
    assert_eq!(native_of(&frame, "atan2"), Some(NativeFn::Binary(BinaryMath::Atan2)));
    assert_eq!(native_of(&frame, "pow"), Some(NativeFn::Binary(BinaryMath::Pow)));
    assert_eq!(native_of(&frame, "exp"), Some(NativeFn::Unary(UnaryMath::Exp)));
    assert_eq!(native_of(&frame, "log"), Some(NativeFn::Binary(BinaryMath::Log)));
    assert_eq!(native_of(&frame, "log10"), Some(NativeFn::Unary(UnaryMath::Log10)));
    assert_eq!(native_of(&frame, "floor"), Some(NativeFn::Unary(UnaryMath::Floor)));
    assert_eq!(native_of(&frame, "print"), Some(NativeFn::Print));
    assert_eq!(native_of(&frame, "puts"), Some(NativeFn::Puts));
    assert_eq!(native_of(&frame, "dbg"), Some(NativeFn::Dbg));
    assert_eq!(native_of(&frame, "i64"), Some(NativeFn::ToInteger));
    assert_eq!(native_of(&frame, "f64"), Some(NativeFn::ToFloat));
    assert_eq!(native_of(&frame, "str"), Some(NativeFn::ToText));
    assert_eq!(native_of(&frame, "is_nan"), Some(NativeFn::IsNan));
    assert!(frame.get_fn(b"sqr").is_none());
    assert!(frame.get_fn(b"").is_none());
    assert!(frame.vars.get(b"pi").is_none());
    assert!(frame.uplevel.is_none());
}

#[test]
fn makers_of_built_in_functions() {
    assert!(matches!(unary_fn(UnaryMath::Exp), FnDef::Native(NativeFn::Unary(UnaryMath::Exp))));
    assert!(matches!(binary_fn(BinaryMath::Pow), FnDef::Native(NativeFn::Binary(BinaryMath::Pow))));
}

#[test]
fn frames_find_functions_outward() {
    let args: Vec<Vec<u8>> = vec![];
    let body: Vec<Statement> = vec![];
    let mut top = StackFrame::new();
    top.funcs.insert(b"f".to_vec(), FnDef::User(UserFn { args: &args, stmts: &body }));
    top.vars.insert(b"x".to_vec(), Value::Integer(1));
    let mut inner = StackFrame::push_stack(&top);
    assert!(inner.vars.get(b"x").is_none());
    assert!(matches!(inner.get_fn(b"f"), Some(FnDef::User(_))));
    assert!(matches!(inner.get_fn(b"sqrt"), Some(FnDef::Native(_))));
    assert!(inner.get_fn(b"g").is_none());
    inner.funcs.insert(b"sqrt".to_vec(), FnDef::Native(NativeFn::Puts));
    assert!(matches!(inner.get_fn(b"sqrt"), Some(FnDef::Native(NativeFn::Puts))));
    let innermost = StackFrame::push_stack(&inner);
    assert!(matches!(innermost.get_fn(b"sqrt"), Some(FnDef::Native(NativeFn::Puts))));
    assert!(matches!(innermost.get_fn(b"f"), Some(FnDef::User(_))));
    assert!(matches!(top.get_fn(b"sqrt"), Some(FnDef::Native(NativeFn::Unary(UnaryMath::Sqrt)))));
}

#[test]
fn calls_bind_parameters_in_a_frame_of_their_own() {
    let args: Vec<Vec<u8>> = vec![b"a".to_vec(), b"b".to_vec()];
    let body = vec![Statement::Return(Expression::Ident(b"b".to_vec()))];
    let func = FnDef::User(UserFn { args: &args, stmts: &body });
    let answers = Answers { numbers: vec![], texts: vec![] };
    let mut session = Session::new(&answers);
    let top = StackFrame::new();
    assert_eq!(func.call(&vec![Value::Integer(1), Value::Integer(2), Value::Integer(3)], &top, &mut session, 4), Ok(Value::Integer(2)));
    assert_eq!(func.call(&vec![Value::Integer(1)], &top, &mut session, 4), Err(BreakResult::Fault(Fault::UndefinedVariable)));
    assert!(top.vars.get(b"a").is_none());
    let twice: Vec<Vec<u8>> = vec![b"b".to_vec(), b"b".to_vec()];
    let func = FnDef::User(UserFn { args: &twice, stmts: &body });
    assert_eq!(func.call(&vec![Value::Integer(1), Value::Integer(2)], &top, &mut session, 0), Ok(Value::Integer(2)));
    let broken = vec![Statement::Break];
    let func = FnDef::User(UserFn { args: &args, stmts: &broken });
    assert_eq!(func.call(&vec![], &top, &mut session, 4), Err(BreakResult::Fault(Fault::IllegalControlFlow)));
    let skipped = vec![Statement::Continue];
    let func = FnDef::User(UserFn { args: &args, stmts: &skipped });
    assert_eq!(func.call(&vec![], &top, &mut session, 4), Err(BreakResult::Fault(Fault::IllegalControlFlow)));
    let native = FnDef::Native(NativeFn::ToText);
    assert_eq!(native.call(&vec![Value::Integer(5)], &top, &mut session, 0), Ok(Value::Text(b"5".to_vec())));
}

#[test]
fn statements_change_the_frame_they_run_in() {
    let program = vec![
        Statement::LetDef(b"x".to_vec(), Expression::StrLiteral(b"a".to_vec())),
        Statement::FnDef { name: b"f".to_vec(), args: vec![], stmts: vec![] },
        Statement::LetAssign(b"x".to_vec(), Expression::StrLiteral(b"b".to_vec())),
    ];
    let answers = Answers { numbers: vec![], texts: vec![] };
    let mut session = Session::new(&answers);
    let mut frame = StackFrame::new();
    assert_eq!(eval_stmts(&program, &mut frame, &mut session, 4), Ok(Value::Integer(0)));
    assert_eq!(frame.vars.get(b"x"), Some(&Value::Text(b"b".to_vec())));
    assert!(matches!(frame.get_fn(b"f"), Some(FnDef::User(_))));
    let again = vec![Statement::LetAssign(b"y".to_vec(), Expression::StrLiteral(b"b".to_vec()))];
    assert_eq!(eval_stmts(&again, &mut frame, &mut session, 4), Err(BreakResult::Fault(Fault::UndeclaredAssignment)));
    assert!(frame.vars.get(b"y").is_none());
}
