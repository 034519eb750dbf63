use demo_runner::script::{counting_line, counting_lines, greeting, run, sparky, COUNT};

#[test]
fn greeting_is_hello_world() {
    assert_eq!(greeting(), "Hello, world!");
}

#[test]
fn counting_line_shows_the_counter() {
    assert_eq!(counting_line(0), "i is: 0");
    assert_eq!(counting_line(9), "i is: 9");
    assert_eq!(counting_line(10), "i is: 10");
    assert_eq!(counting_line(-3), "i is: -3");
}

#[test]
fn counting_loop_emits_ten_lines() {
    let lines = counting_lines();
    assert_eq!(COUNT, 10);
    assert_eq!(lines.len(), 10);
    assert_eq!(lines[0], "i is: 0");
    assert_eq!(lines[9], "i is: 9");
}

#[test]
fn counting_loop_counts_up_by_one() {
    let lines = counting_lines();
    for (i, line) in lines.iter().enumerate() {
        assert_eq!(*line, format!("i is: {}", i));
    }
}

#[test]
fn sparky_is_a_four_year_old_chihuahua() {
    let dog = sparky();
    assert_eq!(dog.breed, "Chihuahua");
    assert_eq!(dog.age, 4);
    assert_eq!(dog.bark(), "bark!");
}

#[test]
fn run_emits_the_fourteen_lines() {
    let outcome = run();
    let expected = vec![
        "Hello, world!",
        "i is: 0",
        "i is: 1",
        "i is: 2",
        "i is: 3",
        "i is: 4",
        "i is: 5",
        "i is: 6",
        "i is: 7",
        "i is: 8",
        "i is: 9",
        "0",
        "bark!",
        "9",
    ];
    assert_eq!(outcome.lines.len(), 14);
    assert_eq!(outcome.lines, expected);
}

#[test]
fn run_prints_the_sum_of_four_and_five_last() {
    let outcome = run();
    assert_eq!(outcome.lines[13], "9");
    assert_eq!(outcome.lines[13], demo_runner::arith::add(4, 5).to_string());
}

#[test]
fn run_counts_between_the_greeting_and_the_zero() {
    let outcome = run();
    assert_eq!(outcome.lines[0], "Hello, world!");
    assert_eq!(outcome.lines[1..11].to_vec(), counting_lines());
    assert_eq!(outcome.lines[1], "i is: 0");
    assert_eq!(outcome.lines[10], "i is: 9");
    assert_eq!(outcome.lines[11], "0");
    assert_eq!(outcome.lines[12], "bark!");
}

#[test]
fn run_computes_six_and_does_not_print_it() {
    let outcome = run();
    assert_eq!(outcome.magnitude, 6);
    assert!(outcome.lines.iter().all(|line| line != "6" && line != "5"));
}

#[test]
fn run_is_the_same_every_time() {
    let first = run();
    let second = run();
    assert_eq!(first.lines, second.lines);
    assert_eq!(first.magnitude, second.magnitude);
}

#[test]
fn output_ends_every_line_with_a_line_feed() {
    let expected = "Hello, world!\ni is: 0\ni is: 1\ni is: 2\ni is: 3\ni is: 4\ni is: 5\n\
                    i is: 6\ni is: 7\ni is: 8\ni is: 9\n0\nbark!\n9\n";
    assert_eq!(run().output(), expected);
}

#[test]
fn output_of_no_lines_is_empty() {
    let mut outcome = run();
    outcome.lines.clear();
    assert_eq!(outcome.output(), "");
}

#[test]
fn output_keeps_empty_lines() {
    let mut outcome = run();
    outcome.lines = vec![String::new(), "a".to_string(), String::new()];
    assert_eq!(outcome.output(), "\na\n\n");
}
