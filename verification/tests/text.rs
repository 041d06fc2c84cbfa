use exo::text::{join_text, split_text};

fn strings(lines: &[&str]) -> Vec<String> {
    lines.iter().map(|l| l.to_string()).collect()
}

#[test]
fn the_empty_text_is_one_empty_line() {
    assert_eq!(split_text(""), strings(&[""]));
}

#[test]
fn a_text_without_line_feed_is_one_line() {
    assert_eq!(split_text("select 1;"), strings(&["select 1;"]));
}

#[test]
fn a_text_is_split_at_each_line_feed() {
    assert_eq!(split_text("select 1\nfrom t\nwhere x"), strings(&["select 1", "from t", "where x"]));
}

#[test]
fn a_trailing_line_feed_gives_a_last_empty_line() {
    assert_eq!(split_text("a\n"), strings(&["a", ""]));
    assert_eq!(split_text("\n"), strings(&["", ""]));
    assert_eq!(split_text("\n\n"), strings(&["", "", ""]));
}

#[test]
fn carriage_returns_stay_in_their_lines() {
    assert_eq!(split_text("a\r\nb"), strings(&["a\r", "b"]));
}

#[test]
fn characters_of_several_bytes_are_kept_whole() {
    assert_eq!(split_text("é→\n🙂"), strings(&["é→", "🙂"]));
}

#[test]
fn no_lines_join_to_the_empty_text() {
    assert_eq!(join_text(&Vec::new()), "");
}

#[test]
fn one_line_joins_to_itself() {
    assert_eq!(join_text(&strings(&["select 1;"])), "select 1;");
}

#[test]
fn lines_are_joined_by_single_line_feeds() {
    assert_eq!(join_text(&strings(&["a", "b", "c"])), "a\nb\nc");
    assert_eq!(join_text(&strings(&["a", ""])), "a\n");
    assert_eq!(join_text(&strings(&["", ""])), "\n");
}

#[test]
fn joining_the_lines_of_a_text_gives_the_text_back() {
    for text in ["", "a", "a\nb", "a\n", "\n", "\n\na\n\n", "x\r\ny\r\n", "select 1;\n-- é\n"] {
        assert_eq!(join_text(&split_text(text)), text);
    }
}

#[test]
fn splitting_joined_lines_gives_the_lines_back() {
    for lines in [strings(&[""]), strings(&["a"]), strings(&["a", "", "b"]), strings(&["", ""])] {
        assert_eq!(split_text(&join_text(&lines)), lines);
    }
}

#[test]
fn splitting_agrees_with_the_standard_split() {
    for text in ["", "a", "a\nb", "a\n", "\n", "\n\na\n\n", "x\r\ny\r\n"] {
        let expected: Vec<String> = text.split('\n').map(|l| l.to_string()).collect();
        assert_eq!(split_text(text), expected);
    }
}
