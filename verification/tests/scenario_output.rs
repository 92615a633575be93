use ownership_demo::scenarios::about_dangle;
use ownership_demo::scenarios::function_with_return;
use ownership_demo::scenarios::general_string_slice;
use ownership_demo::scenarios::multiple_variables_complex;
use ownership_demo::scenarios::multiple_variables_simple;
use ownership_demo::scenarios::mutable_string;
use ownership_demo::scenarios::other_slices;
use ownership_demo::scenarios::passing_function_params;
use ownership_demo::scenarios::print_integer;
use ownership_demo::scenarios::print_string;
use ownership_demo::scenarios::rules_of_mutable_references;
use ownership_demo::scenarios::run_all;
use ownership_demo::scenarios::using_clone;
use ownership_demo::scenarios::using_mutable_reference;
use ownership_demo::scenarios::using_reference;
use ownership_demo::scenarios::using_slice;
use ownership_demo::scenarios::using_slice_function;

#[test]
fn run_all_is_deterministic() {
    let first = run_all();
    let second = run_all();
    assert_eq!(first, second);
}

#[test]
fn run_all_concatenates_in_declaration_order() {
    let mut expected = String::new();
    expected.push_str(&mutable_string());
    expected.push_str(&multiple_variables_simple());
    expected.push_str(&multiple_variables_complex());
    expected.push_str(&using_clone());
    expected.push_str(&passing_function_params());
    expected.push_str(&function_with_return());
    expected.push_str(&using_reference());
    expected.push_str(&using_mutable_reference());
    expected.push_str(&rules_of_mutable_references());
    expected.push_str(&about_dangle());
    expected.push_str(&using_slice());
    expected.push_str(&using_slice_function());
    expected.push_str(&general_string_slice());
    expected.push_str(&other_slices());
    assert_eq!(run_all(), expected);
}

#[test]
fn mutable_string_output() {
    assert_eq!(mutable_string(), "Mutable string...\nhello, world~\n");
}

#[test]
fn multiple_variables_simple_output() {
    assert_eq!(
        multiple_variables_simple(),
        "Multiple variables simple...\nx = 5, y = 5\n"
    );
}

#[test]
fn multiple_variables_complex_output() {
    assert_eq!(
        multiple_variables_complex(),
        "Multiple variables complex...\nhello, world\n"
    );
}

#[test]
fn using_clone_output() {
    assert_eq!(using_clone(), "Clone complex data...\ns1 = hello, s2 = hello\n");
}

#[test]
fn print_string_output() {
    assert_eq!(
        print_string(String::from("hello")),
        "This is a string:  hello\n"
    );
}

#[test]
fn print_integer_output() {
    assert_eq!(print_integer(5), "This is an integer: 5\n");
    assert_eq!(print_integer(-7), "This is an integer: -7\n");
}

#[test]
fn passing_function_params_output() {
    assert_eq!(
        passing_function_params(),
        "Passing function params...\nThis is a string:  hello\nThis is an integer: 5\nCheck validity of x: 5\n"
    );
}

#[test]
fn function_with_return_output() {
    assert_eq!(
        function_with_return(),
        "Function with return...\nGetting back s and store in s2: hello\n"
    );
}

#[test]
fn using_reference_output() {
    assert_eq!(
        using_reference(),
        "Using reference...\nThe length of 'hello' is 5.\n"
    );
}

#[test]
fn using_mutable_reference_output() {
    assert_eq!(
        using_mutable_reference(),
        "Using mutable referance...\nThe final result is: hello, world\n"
    );
}

#[test]
fn rules_of_mutable_references_output() {
    assert_eq!(
        rules_of_mutable_references(),
        "Rules of mutable references...\nr1: hello\nr2: hello\nr1: hello, r2: hello\n"
    );
}

#[test]
fn about_dangle_output() {
    assert_eq!(about_dangle(), "About dangle...\nNo dangle: hello\n");
}

#[test]
fn using_slice_output() {
    assert_eq!(
        using_slice(),
        "Using slice...\nSlice 1: hello\nSlice 2: hello\nSlice 3: world\nSlice 4: world\n"
    );
}

#[test]
fn using_slice_function_output() {
    assert_eq!(
        using_slice_function(),
        "Using slice function...\nFirst word is hello\n"
    );
}

#[test]
fn general_string_slice_output() {
    assert_eq!(
        general_string_slice(),
        "General string slice...\nOutput: hello hello hello hello hello hello\n"
    );
}

#[test]
fn other_slices_output() {
    assert_eq!(other_slices(), "Other slices...\n2\n3\n");
}
