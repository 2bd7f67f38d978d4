use noise_explorer::export::{export_attempt_warns, export_file_name, EXPORT_WARN_AFTER};

#[test]
fn first_name_carries_the_date_alone() {
    assert_eq!(export_file_name("2021-03-14", 0), "2021-03-14-vector-field-visualization.svg");
}

#[test]
fn later_names_carry_the_number_of_the_attempt() {
    assert_eq!(export_file_name("2021-03-14", 1), "2021-03-14-vector-field-visualization-1.svg");
    assert_eq!(export_file_name("2021-03-14", 9), "2021-03-14-vector-field-visualization-9.svg");
    assert_eq!(export_file_name("2021-03-14", 10), "2021-03-14-vector-field-visualization-10.svg");
    assert_eq!(
        export_file_name("2021-03-14", 101),
        "2021-03-14-vector-field-visualization-101.svg"
    );
    assert_eq!(
        export_file_name("2021-03-14", 9007),
        "2021-03-14-vector-field-visualization-9007.svg"
    );
}

#[test]
fn attempt_number_is_written_in_full() {
    assert_eq!(
        export_file_name("", usize::MAX),
        format!("-vector-field-visualization-{}.svg", usize::MAX)
    );
    for attempt in 1..2000 {
        assert_eq!(
            export_file_name("d", attempt),
            format!("d-vector-field-visualization-{}.svg", attempt)
        );
    }
}

#[test]
fn names_of_different_attempts_differ() {
    let mut names = Vec::new();
    for attempt in 0..300 {
        let name = export_file_name("2021-03-14", attempt);
        assert!(!names.contains(&name));
        names.push(name);
    }
}

#[test]
fn warning_starts_after_a_hundred_attempts() {
    assert_eq!(EXPORT_WARN_AFTER, 100);
    assert!(!export_attempt_warns(0));
    assert!(!export_attempt_warns(1));
    assert!(!export_attempt_warns(100));
    assert!(export_attempt_warns(101));
    assert!(export_attempt_warns(usize::MAX));
}
