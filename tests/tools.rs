use chat_agent::math::{
    Add, AddArgs, ArithmeticError, Divide, DivideArgs, Multiply, MultiplyArgs, Subtract,
    SubtractArgs,
};
use chat_agent::web::{check_status, endpoint, WebToolError, EXTRACT_PATH, SEARCH_PATH};

#[test]
fn arithmetic_tools_compute_exact_results() {
    assert_eq!(Add.call(AddArgs { lhs: 2, rhs: 3 }), Ok(5));
    assert_eq!(Subtract.call(SubtractArgs { lhs: 2, rhs: 3 }), Ok(-1));
    assert_eq!(Multiply.call(MultiplyArgs { lhs: -4, rhs: 3 }), Ok(-12));
    assert_eq!(Divide.call(DivideArgs { lhs: 7, rhs: 2 }), Ok(3));
    assert_eq!(Divide.call(DivideArgs { lhs: -7, rhs: 2 }), Ok(-3));
    assert_eq!(Divide.call(DivideArgs { lhs: 7, rhs: -2 }), Ok(-3));
}

#[test]
fn arithmetic_tools_report_overflow() {
    assert_eq!(Add.call(AddArgs { lhs: i64::MAX, rhs: 1 }), Err(ArithmeticError::Overflow));
    assert_eq!(Subtract.call(SubtractArgs { lhs: i64::MIN, rhs: 1 }), Err(ArithmeticError::Overflow));
    assert_eq!(Multiply.call(MultiplyArgs { lhs: i64::MAX, rhs: 2 }), Err(ArithmeticError::Overflow));
    assert_eq!(Divide.call(DivideArgs { lhs: i64::MIN, rhs: -1 }), Err(ArithmeticError::Overflow));
}

#[test]
fn division_by_zero_is_an_error() {
    assert_eq!(Divide.call(DivideArgs { lhs: 1, rhs: 0 }), Err(ArithmeticError::DivisionByZero));
}

#[test]
fn endpoints_join_the_base_address() {
    assert_eq!(endpoint(SEARCH_PATH).unwrap().as_str(), "https://api.tavily.com/search");
    assert_eq!(endpoint(EXTRACT_PATH).unwrap().as_str(), "https://api.tavily.com/extract");
}

#[test]
fn only_success_status_is_accepted() {
    assert_eq!(check_status(200), Ok(()));
    assert_eq!(check_status(401), Err(WebToolError::Status(401)));
    assert_eq!(check_status(500), Err(WebToolError::Status(500)));
}
