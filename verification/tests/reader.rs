use scrolls::lines::split_into_lines;

fn split_to_strings(input: &str) -> Vec<String> {
    split_into_lines(input.as_bytes())
        .into_iter()
        .map(|l| String::from_utf8(l).unwrap())
        .collect()
}

#[test]
fn single_line() {
    let input = "This is a single line";
    let result: Vec<String> = split_to_strings(input);
    assert_eq!(result, vec!["This is a single line"]);
}

#[test]
fn multiple_lines() {
    let input = "Line 1\nLine 2\nLine 3\n";
    let result: Vec<String> = split_to_strings(input);
    assert_eq!(result, vec!["Line 1", "Line 2", "Line 3"]);
}

#[test]
fn empty_input() {
    let input = "";
    let result: Vec<String> = split_to_strings(input);
    assert!(result.is_empty());
}

#[test]
fn mixed_newlines() {
    let input = "Line 1\r\nLine 2\nLine 3\r\n";
    let result: Vec<String> = split_to_strings(input);
    assert_eq!(result, vec!["Line 1", "Line 2", "Line 3"]);
}

#[test]
fn unterminated_last_line() {
    let result: Vec<String> = split_to_strings("a\nb");
    assert_eq!(result, vec!["a", "b"]);
}

#[test]
fn empty_lines_kept() {
    let result: Vec<String> = split_to_strings("\n\n");
    assert_eq!(result, vec!["", ""]);
}

#[test]
fn lone_carriage_return_is_content() {
    // A carriage return is stripped only as part of a `\r\n` terminator.
    let result = split_into_lines(b"a\rb\nc\r");
    assert_eq!(result, vec![b"a\rb".to_vec(), b"c\r".to_vec()]);
}
