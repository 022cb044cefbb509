use shell_todo::list_tasks;
use shell_todo::render::{
    index_label, priority_cell, priority_label, render_rows, visible_text,
};
use shell_todo::Task;

fn task(description: &str, priority: u8) -> Task {
    Task { description: String::from(description), priority }
}

fn width(line: &str) -> usize {
    line.chars().count()
}

fn without_styles(text: &str) -> String {
    let mut plain = String::new();
    let mut inside = false;
    for c in text.chars() {
        if inside {
            if c == 'm' {
                inside = false;
            }
        } else if c == '\u{1b}' {
            inside = true;
        } else {
            plain.push(c);
        }
    }
    plain
}

#[test]
fn row_numbers_are_decimal() {
    assert_eq!(index_label(0), "0");
    assert_eq!(index_label(7), "7");
    assert_eq!(index_label(9), "9");
    assert_eq!(index_label(10), "10");
    assert_eq!(index_label(42), "42");
    assert_eq!(index_label(100), "100");
    assert_eq!(index_label(1234567890), "1234567890");
    assert_eq!(index_label(usize::MAX), usize::MAX.to_string());
}

#[test]
fn priority_levels_have_their_names() {
    assert_eq!(priority_label(0), "low");
    assert_eq!(priority_label(1), "normal");
    assert_eq!(priority_label(2), "high");
    assert_eq!(priority_label(3), "urgent");
    assert_eq!(priority_label(4), "");
    assert_eq!(priority_label(255), "");
}

#[test]
fn priority_cells_without_colour_are_the_names() {
    assert_eq!(priority_cell(0, true), "low");
    assert_eq!(priority_cell(1, true), "normal");
    assert_eq!(priority_cell(2, true), "high");
    assert_eq!(priority_cell(3, true), "urgent");
    assert_eq!(priority_cell(9, true), "");
}

#[test]
fn priority_cells_with_colour_are_styled() {
    assert_eq!(priority_cell(0, false), "\u{1b}[2mlow\u{1b}[0m");
    assert_eq!(priority_cell(1, false), "\u{1b}[37mnormal\u{1b}[0m");
    assert_eq!(priority_cell(2, false), "\u{1b}[33mhigh\u{1b}[0m");
    assert_eq!(priority_cell(3, false), "\u{1b}[1;31murgent\u{1b}[0m");
    assert_eq!(priority_cell(4, false), "");
    assert_eq!(priority_cell(200, false), "");
}

#[test]
fn table_of_two_tasks_without_colour() {
    let text = list_tasks(&vec![task("a", 0), task("b", 3)], true);
    let expected = "\
┌───┬──────────┬───┐
│ 0 │ urgent   │ b │
├───┼──────────┼───┤
│ 1 │ low      │ a │
└───┴──────────┴───┘";
    assert_eq!(text, expected);
}

#[test]
fn table_rows_follow_the_given_order() {
    let text = render_rows(&vec![task("a", 0), task("b", 3)], true);
    let expected = "\
┌───┬──────────┬───┐
│ 0 │ low      │ a │
├───┼──────────┼───┤
│ 1 │ urgent   │ b │
└───┴──────────┴───┘";
    assert_eq!(text, expected);
}

#[test]
fn table_of_no_tasks_is_empty() {
    assert_eq!(list_tasks(&Vec::new(), true), "");
    assert_eq!(list_tasks(&Vec::new(), false), "");
}

#[test]
fn table_is_a_stable_sort_by_priority() {
    let tasks = vec![
        task("first normal", 1),
        task("first urgent", 3),
        task("second normal", 1),
        task("only high", 2),
        task("second urgent", 3),
    ];
    let text = list_tasks(&tasks, true);
    let expected = "\
┌───┬──────────┬───────────────┐
│ 0 │ urgent   │ first urgent  │
├───┼──────────┼───────────────┤
│ 1 │ urgent   │ second urgent │
├───┼──────────┼───────────────┤
│ 2 │ high     │ only high     │
├───┼──────────┼───────────────┤
│ 3 │ normal   │ first normal  │
├───┼──────────┼───────────────┤
│ 4 │ normal   │ second normal │
└───┴──────────┴───────────────┘";
    assert_eq!(text, expected);
}

#[test]
fn table_without_colour_holds_no_escape() {
    let tasks = vec![task("a", 3), task("b", 0), task("c", 1), task("d", 2), task("e", 9)];
    let text = list_tasks(&tasks, true);
    assert!(text.contains("urgent"));
    assert!(text.contains("low"));
    assert!(!text.bytes().any(|b| b == 0x1b));
}

#[test]
fn table_with_colour_styles_the_priorities() {
    let tasks = vec![task("a", 3), task("b", 0), task("c", 1), task("d", 2)];
    let text = list_tasks(&tasks, false);
    assert!(text.contains("\u{1b}[1;31murgent\u{1b}[0m"));
    assert!(text.contains("\u{1b}[33mhigh\u{1b}[0m"));
    assert!(text.contains("\u{1b}[37mnormal\u{1b}[0m"));
    assert!(text.contains("\u{1b}[2mlow\u{1b}[0m"));
}

#[test]
fn colour_does_not_change_the_layout() {
    let tasks = vec![task("a", 3), task("b", 0), task("c", 1), task("d", 2), task("e", 77)];
    let plain = list_tasks(&tasks, true);
    let styled = list_tasks(&tasks, false);
    assert_ne!(plain, styled);
    assert_eq!(without_styles(&styled), plain);
}

#[test]
fn level_without_a_name_has_an_empty_cell() {
    let text = list_tasks(&vec![task("odd", 7)], false);
    let expected = "\
┌───┬──────────┬─────┐
│ 0 │          │ odd │
└───┴──────────┴─────┘";
    assert_eq!(text, expected);
}

#[test]
fn long_text_wraps_at_sixty_characters() {
    let long = "0123456789".repeat(13);
    let text = list_tasks(&vec![task(&long, 1)], true);
    let lines: Vec<&str> = text.lines().collect();
    assert_eq!(lines.len(), 5);
    for line in &lines {
        assert_eq!(width(line), 79);
    }
    assert_eq!(
        lines[1],
        "│ 0 │ normal   │ 012345678901234567890123456789012345678901234567890123456789 │"
    );
    assert_eq!(
        lines[2],
        "│   │          │ 012345678901234567890123456789012345678901234567890123456789 │"
    );
    assert_eq!(
        lines[3],
        "│   │          │ 0123456789                                                   │"
    );
}

#[test]
fn text_of_sixty_characters_does_not_wrap() {
    let exact = "x".repeat(60);
    let text = list_tasks(&vec![task(&exact, 2)], true);
    let lines: Vec<&str> = text.lines().collect();
    assert_eq!(lines.len(), 3);
    for line in &lines {
        assert_eq!(width(line), 79);
    }
}

#[test]
fn table_width_stays_within_its_bound() {
    let mut tasks = Vec::new();
    for i in 0..12u8 {
        tasks.push(task(&"word ".repeat(usize::from(i) * 5), i % 5));
    }
    let text = list_tasks(&tasks, true);
    for line in text.lines() {
        assert_eq!(width(line), 80);
    }
}

#[test]
fn row_numbers_count_from_zero() {
    let mut tasks = Vec::new();
    for _ in 0..11 {
        tasks.push(task("t", 1));
    }
    let text = list_tasks(&tasks, true);
    let lines: Vec<&str> = text.lines().collect();
    assert_eq!(lines.len(), 23);
    assert_eq!(lines[1], "│ 0  │ normal   │ t │");
    assert_eq!(lines[19], "│ 9  │ normal   │ t │");
    assert_eq!(lines[21], "│ 10 │ normal   │ t │");
}

#[test]
fn odd_texts_are_laid_out() {
    let texts = [
        "",
        " ",
        "tab\there",
        "two\nlines",
        "carriage\r\nreturn",
        "\u{1b}[31mred\u{1b}[0m and \u{1b}[1mbold",
        "\u{1b}",
        "\u{65e5}\u{672c}\u{8a9e}\u{306e}\u{30bf}\u{30b9}\u{30af}",
        "\u{1f600}\u{1f468}\u{200d}\u{1f469}\u{200d}\u{1f467}",
        "e\u{301}\u{301}\u{301}",
        "\u{1b}[ 0m\u{20ac}\u{20ac}\u{1b}",
        "\u{1b}[ 0m\u{20ac}aa\u{1b}\u{1b}[1m",
        "\u{1b}[ !0m\u{20ac}\u{1b}]8;;http://a\u{1b}\\\u{20ac}\u{1b}]8;;\u{1b}\\",
        "\u{9b}31m\u{20ac}\u{7f}\u{0}\u{85}",
    ];
    for text in texts {
        for level in [0u8, 3, 9] {
            for no_colour in [true, false] {
                let short = list_tasks(&vec![task(text, level)], no_colour);
                assert!(short.starts_with('┌'));
                assert!(short.ends_with('┘'));
                let long = list_tasks(&vec![task(&text.repeat(40), level)], no_colour);
                assert!(long.starts_with('┌'));
                assert!(long.ends_with('┘'));
            }
        }
    }
}

#[test]
fn escape_characters_are_shown_by_their_symbol() {
    assert_eq!(visible_text(""), "");
    assert_eq!(visible_text("plain text"), "plain text");
    assert_eq!(visible_text("\u{1b}"), "\u{241b}");
    assert_eq!(visible_text("a\u{1b}[31mred\u{1b}[0m"), "a\u{241b}[31mred\u{241b}[0m");
    assert_eq!(visible_text("\u{20ac}\u{1b}\u{1b}\u{1f600}\n"), "\u{20ac}\u{241b}\u{241b}\u{1f600}\n");
    assert_eq!(visible_text("\u{241b}"), "\u{241b}");
}

#[test]
fn text_with_escapes_is_laid_out_with_their_symbols() {
    let text = list_tasks(&vec![task("a\u{1b}[31mb", 2)], true);
    let expected = "\
┌───┬──────────┬─────────┐
│ 0 │ high     │ a␛[31mb │
└───┴──────────┴─────────┘";
    assert_eq!(text, expected);
    let styled = list_tasks(&vec![task("a\u{1b}[31mb", 2)], false);
    assert_eq!(without_styles(&styled), expected);
    assert_eq!(styled.matches('\u{1b}').count(), 2);
}

#[test]
fn escape_sequences_that_are_dropped_are_laid_out() {
    let first = "\u{1b}[ 0m\u{20ac}\u{20ac}\u{1b}";
    let text = list_tasks(&vec![task(first, 1)], true);
    assert_eq!(text.lines().nth(1).unwrap(), "│ 0 │ normal   │ ␛[ 0m€€␛ │");
    let mut second = String::from("\u{1b}[ 0m\u{20ac}aa\u{1b}\u{1b}[1m");
    second.push_str(&"a".repeat(70));
    let text = list_tasks(&vec![task(&second, 1)], false);
    let lines: Vec<&str> = text.lines().collect();
    assert_eq!(lines.len(), 4);
    assert!(lines[1].contains("␛[ 0m€aa␛␛[1maaaa"));
    for line in &lines {
        assert_eq!(width(&without_styles(line)), 79);
    }
}

#[test]
fn table_without_colour_holds_no_escape_whatever_the_texts() {
    let tasks = vec![
        task("\u{1b}[31mred\u{1b}[0m", 3),
        task("\u{1b}", 0),
        task("\u{1b}]8;;http://example.com\u{1b}\\link\u{1b}]8;;\u{1b}\\", 1),
        task(&"\u{1b}[1m\u{20ac}".repeat(30), 200),
    ];
    let text = list_tasks(&tasks, true);
    assert!(!text.contains('\u{1b}'));
    assert!(text.contains("␛[31mred␛[0m"));
}

#[test]
fn mixed_texts_are_laid_out() {
    let alphabet = [
        '\u{1b}', '[', ']', ';', '0', '1', '8', 'm', ' ', '!', '\\', '\n', '\r', '\t', '\u{0}',
        '\u{7}', '\u{7f}', '\u{85}', '\u{9b}', '\u{9d}', 'a', '\u{e9}', '\u{20ac}', '\u{65e5}',
        '\u{1f600}', '\u{200d}', '\u{301}', '\u{241b}', '\u{fffd}', 'P', '_', '^',
    ];
    let mut seed: u64 = 2024;
    for round in 0..1500 {
        let mut text = String::new();
        let length = 1 + round % 90;
        for _ in 0..length {
            seed = seed.wrapping_mul(6364136223846793005).wrapping_add(1442695040888963407);
            let pick = usize::try_from((seed >> 33) % 32).unwrap();
            text.push(alphabet[pick]);
        }
        let level = u8::try_from(round % 6).unwrap();
        let plain = list_tasks(&vec![task(&text, level), task("b", 1)], true);
        assert!(plain.starts_with('┌'));
        assert!(plain.ends_with('┘'));
        assert!(!plain.contains('\u{1b}'));
        let styled = list_tasks(&vec![task(&text, level), task("b", 1)], false);
        assert_eq!(without_styles(&styled), plain);
    }
}
