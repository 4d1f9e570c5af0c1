use ruscal::lex::{char_at, find_quote, float_at, identifier, multispace0, replace, tag, token, unescape, Lexeme};
use ruscal::native::{call_binary, call_native, call_unary, convert, p_dbg, print, puts_fn};
use ruscal::ops::{
    binary_op_str, coerce_f64, coerce_str, integer_arith, is_nan, item_at, label_text, relation, truthy, NAN_BITS, ONE_BITS, PI_BITS,
    ZERO_BITS,
};
use ruscal::text::{append, copy_range, decimal, joined, parse_integer, same_bytes, text_order, Order};
use ruscal::{Answers, ArithOp, BinaryMath, BreakResult, CompareOp, Fault, NativeFn, Request, Session, UnaryMath, Value};

fn none() -> Answers {
    Answers { numbers: vec![], texts: vec![] }
}

fn text(s: &str) -> Value {
    Value::Text(s.as_bytes().to_vec())
}

fn fault<T>(f: Fault) -> Result<T, BreakResult> {
    Err(BreakResult::Fault(f))
}

#[test]
fn integers_wrap_around() {
    assert_eq!(integer_arith(ArithOp::Add, 2, 3), Ok(Value::Integer(5)));
    assert_eq!(integer_arith(ArithOp::Add, i64::MAX, 1), Ok(Value::Integer(i64::MIN)));
    assert_eq!(integer_arith(ArithOp::Sub, i64::MIN, 1), Ok(Value::Integer(i64::MAX)));
    assert_eq!(integer_arith(ArithOp::Mul, i64::MAX, 2), Ok(Value::Integer(-2)));
    assert_eq!(integer_arith(ArithOp::Sub, 2, 3), Ok(Value::Integer(-1)));
    assert_eq!(integer_arith(ArithOp::Mul, -4, 3), Ok(Value::Integer(-12)));
}

#[test]
fn integer_quotients_are_cut_toward_zero() {
    assert_eq!(integer_arith(ArithOp::Div, 7, 2), Ok(Value::Integer(3)));
    assert_eq!(integer_arith(ArithOp::Div, -7, 2), Ok(Value::Integer(-3)));
    assert_eq!(integer_arith(ArithOp::Div, 7, -2), Ok(Value::Integer(-3)));
    assert_eq!(integer_arith(ArithOp::Div, -7, -2), Ok(Value::Integer(3)));
    assert_eq!(integer_arith(ArithOp::Div, i64::MIN, 1), Ok(Value::Integer(i64::MIN)));
    assert_eq!(integer_arith(ArithOp::Div, i64::MIN, 2), Ok(Value::Integer(i64::MIN / 2)));
    assert_eq!(integer_arith(ArithOp::Div, i64::MAX, -1), Ok(Value::Integer(-i64::MAX)));
    assert_eq!(integer_arith(ArithOp::Div, 0, 5), Ok(Value::Integer(0)));
    assert_eq!(integer_arith(ArithOp::Div, 1, 0), fault(Fault::IntegerDivision));
    assert_eq!(integer_arith(ArithOp::Div, i64::MIN, -1), fault(Fault::IntegerDivision));
}

#[test]
fn operators_choose_by_the_kinds_of_their_operands() {
    let answers = none();
    let mut session = Session::new(&answers);
    assert_eq!(binary_op_str(ArithOp::Add, &Value::Integer(1), &Value::Integer(2), &mut session), Ok(Value::Integer(3)));
    assert_eq!(binary_op_str(ArithOp::Add, &text("ab"), &text("cd"), &mut session), Ok(text("abcd")));
    assert_eq!(binary_op_str(ArithOp::Sub, &text("a"), &text("b"), &mut session), fault(Fault::TypeMismatch));
    assert_eq!(binary_op_str(ArithOp::Mul, &text("a"), &text("b"), &mut session), fault(Fault::TypeMismatch));
    assert_eq!(binary_op_str(ArithOp::Div, &text("a"), &text("b"), &mut session), fault(Fault::TypeMismatch));
    assert_eq!(binary_op_str(ArithOp::Add, &text("a"), &Value::Integer(1), &mut session), fault(Fault::TypeMismatch));
    assert_eq!(binary_op_str(ArithOp::Add, &Value::Array(vec![]), &Value::Array(vec![]), &mut session), fault(Fault::TypeMismatch));
    assert_eq!(binary_op_str(ArithOp::Add, &Value::Float(1), &text("a"), &mut session), fault(Fault::TypeMismatch));
    assert_eq!(binary_op_str(ArithOp::Add, &text("a"), &Value::Float(1), &mut session), fault(Fault::TypeMismatch));
    assert_eq!(
        binary_op_str(ArithOp::Mul, &Value::Float(1), &Value::Float(2), &mut session),
        Err(BreakResult::Pending(Request::Arith(ArithOp::Mul, 1, 2)))
    );
    assert_eq!(
        binary_op_str(ArithOp::Mul, &Value::Float(1), &Value::Integer(2), &mut session),
        Err(BreakResult::Pending(Request::FromInteger(2)))
    );
    assert_eq!(session.numbers_used, 0);
}

#[test]
fn a_number_on_either_side_makes_a_number() {
    let answers = Answers { numbers: vec![20, 30, 40, 50], texts: vec![] };
    let mut session = Session::new(&answers);
    assert_eq!(binary_op_str(ArithOp::Sub, &Value::Float(1), &Value::Float(2), &mut session), Ok(Value::Float(20)));
    assert_eq!(session.numbers_used, 1);
    assert_eq!(binary_op_str(ArithOp::Sub, &Value::Integer(7), &Value::Float(2), &mut session), Ok(Value::Float(40)));
    assert_eq!(session.numbers_used, 3);
    assert_eq!(
        binary_op_str(ArithOp::Sub, &Value::Float(9), &Value::Integer(7), &mut session),
        Err(BreakResult::Pending(Request::Arith(ArithOp::Sub, 9, 50)))
    );
}

#[test]
fn operator_methods() {
    let answers = none();
    let mut session = Session::new(&answers);
    assert_eq!(Value::Integer(6).add(&Value::Integer(3), &mut session), Ok(Value::Integer(9)));
    assert_eq!(Value::Integer(6).sub(&Value::Integer(3), &mut session), Ok(Value::Integer(3)));
    assert_eq!(Value::Integer(6).mul(&Value::Integer(3), &mut session), Ok(Value::Integer(18)));
    assert_eq!(Value::Integer(6).div(&Value::Integer(3), &mut session), Ok(Value::Integer(2)));
    assert_eq!(text("a").add(&text("b"), &mut session), Ok(text("ab")));
    assert_eq!(text("a").sub(&text("b"), &mut session), fault(Fault::TypeMismatch));
}

#[test]
fn values_compare() {
    let answers = Answers { numbers: vec![2, 1, 0, 9], texts: vec![] };
    let mut session = Session::new(&answers);
    assert_eq!(Value::Integer(1).compare(&Value::Integer(2), &mut session), Ok(Order::Less));
    assert_eq!(Value::Integer(2).compare(&Value::Integer(2), &mut session), Ok(Order::Equal));
    assert_eq!(Value::Integer(3).compare(&Value::Integer(2), &mut session), Ok(Order::Greater));
    assert_eq!(text("a").compare(&text("b"), &mut session), Ok(Order::Less));
    assert_eq!(text("b").compare(&text("a"), &mut session), Ok(Order::Greater));
    assert_eq!(text("a").compare(&text("a"), &mut session), Ok(Order::Equal));
    assert_eq!(text("").compare(&text("a"), &mut session), Ok(Order::Less));
    assert_eq!(text("a").compare(&Value::Integer(1), &mut session), fault(Fault::TypeMismatch));
    assert_eq!(Value::Array(vec![]).compare(&Value::Array(vec![]), &mut session), fault(Fault::TypeMismatch));
    assert_eq!(Value::Float(5).compare(&Value::Float(6), &mut session), Ok(Order::Greater));
    assert_eq!(Value::Float(5).compare(&Value::Float(6), &mut session), Ok(Order::Equal));
    assert_eq!(Value::Float(5).compare(&Value::Float(6), &mut session), Ok(Order::Less));
    assert_eq!(Value::Float(5).compare(&Value::Float(6), &mut session), Ok(Order::Unordered));
    assert_eq!(Value::Float(5).compare(&Value::Float(6), &mut session), Err(BreakResult::Pending(Request::Compare(5, 6))));
}

#[test]
fn relations_are_integers() {
    let answers = Answers { numbers: vec![3, 3], texts: vec![] };
    let mut session = Session::new(&answers);
    assert_eq!(relation(CompareOp::Lt, &Value::Integer(1), &Value::Integer(2), &mut session), Ok(Value::Integer(1)));
    assert_eq!(relation(CompareOp::Gt, &Value::Integer(1), &Value::Integer(2), &mut session), Ok(Value::Integer(0)));
    assert_eq!(relation(CompareOp::Gt, &Value::Integer(2), &Value::Integer(2), &mut session), Ok(Value::Integer(0)));
    assert_eq!(relation(CompareOp::Lt, &Value::Integer(2), &Value::Integer(2), &mut session), Ok(Value::Integer(0)));
    assert_eq!(relation(CompareOp::Lt, &Value::Float(1), &Value::Float(2), &mut session), Ok(Value::Integer(0)));
    assert_eq!(relation(CompareOp::Gt, &Value::Float(1), &Value::Float(2), &mut session), Ok(Value::Integer(0)));
    assert_eq!(relation(CompareOp::Gt, &text("a"), &Value::Float(2), &mut session), fault(Fault::TypeMismatch));
}

#[test]
fn texts_are_read_as_integers() {
    let answers = none();
    let mut session = Session::new(&answers);
    assert_eq!(text("12").as_i64(&mut session), Ok(12));
    assert_eq!(text("+5").as_i64(&mut session), Ok(5));
    assert_eq!(text("-5").as_i64(&mut session), Ok(-5));
    assert_eq!(text("007").as_i64(&mut session), Ok(7));
    assert_eq!(text("0").as_i64(&mut session), Ok(0));
    assert_eq!(text("-0").as_i64(&mut session), Ok(0));
    assert_eq!(text("9223372036854775807").as_i64(&mut session), Ok(i64::MAX));
    assert_eq!(text("-9223372036854775808").as_i64(&mut session), Ok(i64::MIN));
    assert_eq!(text("9223372036854775808").as_i64(&mut session), fault(Fault::TypeMismatch));
    assert_eq!(text("-9223372036854775809").as_i64(&mut session), fault(Fault::TypeMismatch));
    assert_eq!(text("").as_i64(&mut session), fault(Fault::TypeMismatch));
    assert_eq!(text("+").as_i64(&mut session), fault(Fault::TypeMismatch));
    assert_eq!(text("-").as_i64(&mut session), fault(Fault::TypeMismatch));
    assert_eq!(text(" 5").as_i64(&mut session), fault(Fault::TypeMismatch));
    assert_eq!(text("5 ").as_i64(&mut session), fault(Fault::TypeMismatch));
    assert_eq!(text("1.5").as_i64(&mut session), fault(Fault::TypeMismatch));
    assert_eq!(text("1_000").as_i64(&mut session), fault(Fault::TypeMismatch));
    assert_eq!(text("+-5").as_i64(&mut session), fault(Fault::TypeMismatch));
    assert_eq!(Value::Text(vec![0x31, 0xff]).as_i64(&mut session), fault(Fault::TypeMismatch));
    assert_eq!(Value::Integer(-3).as_i64(&mut session), Ok(-3));
    assert_eq!(Value::Array(vec![]).as_i64(&mut session), fault(Fault::TypeMismatch));
    assert_eq!(Value::Float(8).as_i64(&mut session), Err(BreakResult::Pending(Request::Truncate(8))));
    let answers = Answers { numbers: vec![(-2i64) as u64], texts: vec![] };
    let mut session = Session::new(&answers);
    assert_eq!(Value::Float(8).as_i64(&mut session), Ok(-2));
}

#[test]
fn integers_display_in_decimal() {
    let answers = none();
    let mut session = Session::new(&answers);
    assert_eq!(Value::Integer(0).fmt(&mut session), Ok(b"0".to_vec()));
    assert_eq!(Value::Integer(7).fmt(&mut session), Ok(b"7".to_vec()));
    assert_eq!(Value::Integer(-12).fmt(&mut session), Ok(b"-12".to_vec()));
    assert_eq!(Value::Integer(1000).fmt(&mut session), Ok(b"1000".to_vec()));
    assert_eq!(Value::Integer(i64::MAX).fmt(&mut session), Ok(b"9223372036854775807".to_vec()));
    assert_eq!(Value::Integer(i64::MIN).fmt(&mut session), Ok(b"-9223372036854775808".to_vec()));
}

#[test]
fn values_display() {
    let answers = Answers { numbers: vec![], texts: vec![b"1.5".to_vec(), b"x".to_vec()] };
    let mut session = Session::new(&answers);
    assert_eq!(text("a b").fmt(&mut session), Ok(b"a b".to_vec()));
    assert_eq!(Value::Array(vec![]).fmt(&mut session), Ok(b"[]".to_vec()));
    assert_eq!(Value::Array(vec![Value::Integer(1)]).fmt(&mut session), Ok(b"[1]".to_vec()));
    let nested = Value::Array(vec![Value::Float(3), text("a"), Value::Array(vec![Value::Integer(2), Value::Float(4)]), Value::Array(vec![])]);
    assert_eq!(nested.fmt(&mut session), Ok(b"[1.5, a, [2, x], []]".to_vec()));
    assert_eq!(session.texts_used, 2);
    assert_eq!(nested.fmt(&mut session), Err(BreakResult::Pending(Request::Display(3))));
}

#[test]
fn values_show_how_they_are_built() {
    let answers = Answers { numbers: vec![], texts: vec![b"1.5".to_vec()] };
    let mut session = Session::new(&answers);
    assert_eq!(Value::Integer(-3).fmt_debug(&mut session), Ok(b"I64(-3)".to_vec()));
    assert_eq!(text("a").fmt_debug(&mut session), Ok(b"Str(\"a\")".to_vec()));
    assert_eq!(text("a\"b\n\\").fmt_debug(&mut session), Ok(b"Str(\"a\\\"b\\n\\\\\")".to_vec()));
    assert_eq!(text("h\u{e9}").fmt_debug(&mut session), Ok("Str(\"h\u{e9}\")".as_bytes().to_vec()));
    assert_eq!(Value::Text(vec![0x61, 0xff]).fmt_debug(&mut session), Ok(b"Str([97, 255])".to_vec()));
    assert_eq!(Value::Array(vec![]).fmt_debug(&mut session), Ok(b"Array([])".to_vec()));
    let nested = Value::Array(vec![Value::Float(3), text("a"), Value::Array(vec![Value::Integer(2)])]);
    assert_eq!(nested.fmt_debug(&mut session), Ok(b"Array([F64(1.5), Str(\"a\"), Array([I64(2)])])".to_vec()));
    assert_eq!(Value::Float(3).fmt_debug(&mut session), Err(BreakResult::Pending(Request::Debug(3))));
    assert_eq!(label_text(b"q"), b"Str(q)".to_vec());
    assert_eq!(label_text(b""), b"Str()".to_vec());
}

#[test]
fn truth_of_values() {
    assert_eq!(truthy(&Value::Integer(0)), Ok(false));
    assert_eq!(truthy(&Value::Integer(-1)), Ok(true));
    assert_eq!(truthy(&Value::Float(0.0f64.to_bits())), Ok(false));
    assert_eq!(truthy(&Value::Float((-0.0f64).to_bits())), Ok(false));
    assert_eq!(truthy(&Value::Float(0.5f64.to_bits())), Ok(true));
    assert_eq!(truthy(&Value::Float(f64::NAN.to_bits())), Ok(true));
    assert_eq!(truthy(&Value::Float(f64::MIN_POSITIVE.to_bits())), Ok(true));
    assert_eq!(truthy(&text("")), fault(Fault::TypeMismatch));
    assert_eq!(truthy(&Value::Array(vec![])), fault(Fault::TypeMismatch));
}

#[test]
fn bits_of_numbers() {
    assert_eq!(PI_BITS, std::f64::consts::PI.to_bits());
    assert_eq!(NAN_BITS, f64::NAN.to_bits());
    assert_eq!(ONE_BITS, 1.0f64.to_bits());
    assert_eq!(ZERO_BITS, 0.0f64.to_bits());
    for x in [0.0f64, -0.0, 1.0, -1.5, f64::INFINITY, f64::NEG_INFINITY, f64::MAX, f64::MIN_POSITIVE, f64::NAN, -f64::NAN] {
        assert_eq!(is_nan(x.to_bits()), x.is_nan());
    }
    assert!(is_nan(0x7FF0_0000_0000_0001));
    assert!(is_nan(0xFFFF_FFFF_FFFF_FFFF));
    assert!(!is_nan(0x7FF0_0000_0000_0000));
    assert!(!is_nan(0xFFF0_0000_0000_0000));
}

#[test]
fn items_of_arrays() {
    let array = Value::Array(vec![Value::Integer(1), Value::Integer(2), Value::Integer(3)]);
    assert_eq!(item_at(&array, 0), Ok(Value::Integer(1)));
    assert_eq!(item_at(&array, 1), Ok(Value::Integer(2)));
    assert_eq!(item_at(&array, 2), Ok(Value::Integer(3)));
    assert_eq!(item_at(&array, 3), fault(Fault::IndexOutOfBounds));
    assert_eq!(item_at(&array, 5), fault(Fault::IndexOutOfBounds));
    assert_eq!(item_at(&array, -1), fault(Fault::IndexOutOfBounds));
    assert_eq!(item_at(&array, i64::MIN), fault(Fault::IndexOutOfBounds));
    assert_eq!(item_at(&array, i64::MAX), fault(Fault::IndexOutOfBounds));
    assert_eq!(item_at(&Value::Array(vec![]), 0), fault(Fault::IndexOutOfBounds));
    assert_eq!(item_at(&Value::Integer(1), 0), fault(Fault::TypeMismatch));
    assert_eq!(item_at(&text("abc"), 0), fault(Fault::TypeMismatch));
}

#[test]
fn coercions() {
    let answers = Answers { numbers: vec![77], texts: vec![b"2.5".to_vec()] };
    let mut session = Session::new(&answers);
    assert_eq!(coerce_f64(&Value::Float(5), &mut session), Ok(5));
    assert_eq!(coerce_f64(&text("5"), &mut session), fault(Fault::TypeMismatch));
    assert_eq!(coerce_f64(&Value::Array(vec![]), &mut session), fault(Fault::TypeMismatch));
    assert_eq!(coerce_f64(&Value::Integer(5), &mut session), Ok(77));
    assert_eq!(coerce_f64(&Value::Integer(5), &mut session), Err(BreakResult::Pending(Request::FromInteger(5))));
    assert_eq!(coerce_str(&Value::Integer(5), &mut session), Ok(b"5".to_vec()));
    assert_eq!(coerce_str(&text("x"), &mut session), Ok(b"x".to_vec()));
    assert_eq!(coerce_str(&Value::Array(vec![]), &mut session), fault(Fault::TypeMismatch));
    assert_eq!(coerce_str(&Value::Float(9), &mut session), Ok(b"2.5".to_vec()));
    assert_eq!(coerce_str(&Value::Float(9), &mut session), Err(BreakResult::Pending(Request::Display(9))));
}

#[test]
fn copies_are_equal() {
    let v = Value::Array(vec![Value::Float(3), text("a"), Value::Array(vec![Value::Integer(2)])]);
    assert_eq!(v.copy(), v);
    assert_eq!(v.clone(), v);
    assert_eq!(ruscal::value::copy_values(&vec![Value::Integer(1), text("b")]), vec![Value::Integer(1), text("b")]);
}

#[test]
fn built_in_functions_by_hand() {
    let answers = Answers { numbers: vec![10, 20, 30, 40], texts: vec![] };
    let mut session = Session::new(&answers);
    assert_eq!(call_unary(UnaryMath::Sin, &vec![Value::Float(1)], &mut session), Ok(Value::Float(10)));
    assert_eq!(call_unary(UnaryMath::Sin, &vec![], &mut session), fault(Fault::MissingArgument));
    assert_eq!(call_binary(BinaryMath::Log, &vec![Value::Float(1), Value::Float(2)], &mut session), Ok(Value::Float(20)));
    assert_eq!(call_binary(BinaryMath::Log, &vec![], &mut session), fault(Fault::MissingArgument));
    assert_eq!(call_binary(BinaryMath::Log, &vec![text("a")], &mut session), fault(Fault::TypeMismatch));
    assert_eq!(call_binary(BinaryMath::Log, &vec![Value::Integer(1)], &mut session), fault(Fault::MissingArgument));
    assert_eq!(session.numbers_used, 3);
    assert_eq!(call_native(NativeFn::Unary(UnaryMath::Floor), &vec![Value::Float(1)], &mut session), Ok(Value::Float(40)));
    assert_eq!(
        call_native(NativeFn::Binary(BinaryMath::Atan2), &vec![Value::Float(1), Value::Float(2)], &mut session),
        Err(BreakResult::Pending(Request::Binary(BinaryMath::Atan2, 1, 2)))
    );
    assert_eq!(convert(NativeFn::ToInteger, &vec![text("4")], &mut session), Ok(Value::Integer(4)));
    assert_eq!(convert(NativeFn::ToText, &vec![Value::Integer(4)], &mut session), Ok(text("4")));
    assert_eq!(convert(NativeFn::ToFloat, &vec![Value::Float(4)], &mut session), Ok(Value::Float(4)));
    assert_eq!(convert(NativeFn::IsNan, &vec![Value::Float(NAN_BITS)], &mut session), Ok(Value::Float(ONE_BITS)));
    assert_eq!(convert(NativeFn::IsNan, &vec![Value::Float(ONE_BITS)], &mut session), Ok(Value::Float(ZERO_BITS)));
    assert_eq!(session.output, b"".to_vec());
    assert_eq!(print(&vec![Value::Integer(1), Value::Integer(2)], &mut session), Ok(Value::Integer(0)));
    assert_eq!(session.output, b"print: 1\n".to_vec());
    assert_eq!(puts_fn(&vec![Value::Integer(1), text("x"), Value::Integer(2)], &mut session), Ok(Value::Float(0)));
    assert_eq!(session.output, b"print: 1\n1x2".to_vec());
    assert_eq!(p_dbg(&vec![text("x")], &mut session), Ok(Value::Integer(0)));
    assert_eq!(session.output, b"print: 1\n1x2dbg: Str(\"x\")\n".to_vec());
    assert_eq!(call_native(NativeFn::Puts, &vec![], &mut session), Ok(Value::Float(0)));
    assert_eq!(call_native(NativeFn::Print, &vec![], &mut session), fault(Fault::MissingArgument));
    assert_eq!(call_native(NativeFn::Dbg, &vec![], &mut session), fault(Fault::MissingArgument));
}

#[test]
fn sessions_hand_out_answers_in_order() {
    let answers = Answers { numbers: vec![1, 2], texts: vec![b"a".to_vec()] };
    let mut session = Session::new(&answers);
    assert_eq!(session.ask_number(Request::Truncate(0)), Ok(1));
    assert_eq!(session.ask_text(Request::Display(0)), Ok(b"a".to_vec()));
    assert_eq!(session.ask_number(Request::Truncate(0)), Ok(2));
    assert_eq!(session.ask_number(Request::Truncate(5)), Err(BreakResult::Pending(Request::Truncate(5))));
    assert_eq!(session.ask_text(Request::Debug(6)), Err(BreakResult::Pending(Request::Debug(6))));
    assert_eq!((session.numbers_used, session.texts_used), (2, 1));
    session.write(b"ab");
    session.write(b"");
    session.write(b"c");
    assert_eq!(session.output, b"abc".to_vec());
}

#[test]
fn byte_strings() {
    assert!(same_bytes(b"abc", b"abc"));
    assert!(same_bytes(b"", b""));
    assert!(!same_bytes(b"abc", b"abd"));
    assert!(!same_bytes(b"abc", b"ab"));
    assert_eq!(copy_range(b"hello", 1, 3), b"el".to_vec());
    assert_eq!(copy_range(b"hello", 2, 2), b"".to_vec());
    assert_eq!(joined(b"ab", b"cd"), b"abcd".to_vec());
    assert_eq!(joined(b"", b""), b"".to_vec());
    let mut out = b"x".to_vec();
    append(&mut out, b"yz");
    assert_eq!(out, b"xyz".to_vec());
    assert_eq!(text_order(b"a", b"b"), Order::Less);
    assert_eq!(text_order(b"b", b"a"), Order::Greater);
    assert_eq!(text_order(b"ab", b"ab"), Order::Equal);
    assert_eq!(text_order(b"ab", b"abc"), Order::Less);
    assert_eq!(text_order(b"abc", b"ab"), Order::Greater);
    assert_eq!(text_order(b"", b""), Order::Equal);
    assert_eq!(text_order(b"Z", b"a"), Order::Less);
    assert_eq!(text_order(&[0xff], b"a"), Order::Greater);
}

#[test]
fn lexical_pieces() {
    assert_eq!(multispace0(b"  \t\r\n x", 0), 6);
    assert_eq!(multispace0(b"x ", 0), 0);
    assert_eq!(multispace0(b"x ", 1), 2);
    assert_eq!(multispace0(b"x ", 2), 2);
    assert_eq!(find_quote(b"ab\"c", 0), 2);
    assert_eq!(find_quote(b"abc", 1), 3);
    assert!(char_at(b"abc", 1, 'b'));
    assert!(!char_at(b"abc", 3, 'b'));
    assert!(!char_at(b"abc", 0, 'b'));
    assert_eq!(tag(b"let x", 0, "let"), Some(3));
    assert_eq!(tag(b"le", 0, "let"), None);
    assert_eq!(tag(b"a let", 2, "let"), Some(5));
    assert_eq!(tag(b"abc", 3, ""), Some(3));
    assert_eq!(token(b"  if  x", 0, "if"), Some(6));
    assert_eq!(token(b"  of  x", 0, "if"), None);
    assert_eq!(identifier(b"abc_1 x", 0), Some(5));
    assert_eq!(identifier(b"_a", 0), Some(2));
    assert_eq!(identifier(b"_", 0), Some(1));
    assert_eq!(identifier(b"1a", 0), None);
    assert_eq!(identifier(b"a", 1), None);
    assert_eq!(identifier("h\u{e9}".as_bytes(), 0), Some(1));
    assert_eq!(replace(b"a--b-", b'-', b'-', b'+'), b"a+b-".to_vec());
    assert_eq!(replace(b"---", b'-', b'-', b'+'), b"+-".to_vec());
    assert_eq!(replace(b"", b'-', b'-', b'+'), b"".to_vec());
    assert_eq!(unescape(b"a\\nb"), b"a\nb".to_vec());
    assert_eq!(unescape(b"a\\\\b"), b"a\\b".to_vec());
    assert_eq!(unescape(b"a\\\\nb"), b"a\nb".to_vec());
    assert_eq!(unescape(b"\\\\\\n"), b"\\\n".to_vec());
    assert_eq!(unescape(b"\\"), b"\\".to_vec());
}

#[test]
fn numbers_are_recognized() {
    assert_eq!(float_at(b"12.5e3x", 0), Lexeme::Taken(6));
    assert_eq!(float_at(b"x12", 1), Lexeme::Taken(2));
    assert_eq!(float_at(b"1.", 0), Lexeme::Taken(2));
    assert_eq!(float_at(b".5", 0), Lexeme::Taken(2));
    assert_eq!(float_at(b"-1", 0), Lexeme::Taken(2));
    assert_eq!(float_at(b"+1E-2 ", 0), Lexeme::Taken(5));
    assert_eq!(float_at(b"1 2", 0), Lexeme::Taken(1));
    assert_eq!(float_at(b"abc", 0), Lexeme::Absent);
    assert_eq!(float_at(b".", 0), Lexeme::Absent);
    assert_eq!(float_at(b"", 0), Lexeme::Absent);
    assert_eq!(float_at(b"1", 1), Lexeme::Absent);
    assert_eq!(float_at(b"1e", 0), Lexeme::Broken);
    assert_eq!(float_at(b"1ex", 0), Lexeme::Broken);
    assert_eq!(float_at(b"1e+", 0), Lexeme::Broken);
}

#[test]
fn integers_read_and_written() {
    for n in [0i64, 1, -1, 9, 10, 11, 99, 100, -100, 12345, i64::MAX, i64::MIN, i64::MAX - 1, i64::MIN + 1] {
        assert_eq!(decimal(n), n.to_string().into_bytes());
        assert_eq!(parse_integer(&decimal(n)), Some(n));
    }
    for t in [
        "",
        "+",
        "-",
        "1",
        "+1",
        "-1",
        "00",
        "-00",
        "1a",
        "a1",
        "12 ",
        " 12",
        "99999999999999999999",
        "-99999999999999999999",
        "9223372036854775807",
        "9223372036854775808",
        "-9223372036854775808",
        "-9223372036854775809",
        "1-",
        "--1",
        "0x10",
        "1e3",
        "\u{663}",
    ] {
        assert_eq!(parse_integer(t.as_bytes()), t.parse::<i64>().ok());
    }
}
