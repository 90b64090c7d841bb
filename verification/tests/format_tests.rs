use emergence_client::decode::{decode, Decoded, Property, Record};
use emergence_client::format::{
    field_value, render, render_block, render_record, terminal_width, usable_width, wrap_column,
};
use emergence_client::listener::{acknowledgement, handle_push};

fn record(pairs: &[(&str, &str)]) -> Record {
    Record {
        properties: pairs
            .iter()
            .map(|(n, v)| Property { name: n.to_string(), value: v.to_string() })
            .collect(),
    }
}

#[test]
fn last_duplicate_field_wins() {
    let r = record(&[("url", "first"), ("resume", "r1"), ("url", "second"), ("x", "y")]);
    assert_eq!(field_value(&r, "url"), "second");
    assert_eq!(field_value(&r, "resume"), "r1");
    assert_eq!(emergence_client::format::format(&r, 80), "second\n\tr1");
}

#[test]
fn absent_field_is_empty() {
    let r = record(&[("x", "y")]);
    assert_eq!(field_value(&r, "url"), "");
    assert_eq!(field_value(&record(&[]), "resume"), "");
}

#[test]
fn wrap_column_leaves_room_for_the_marker() {
    assert_eq!(wrap_column(0), 1);
    assert_eq!(wrap_column(1), 1);
    assert_eq!(wrap_column(2), 1);
    assert_eq!(wrap_column(3), 2);
    assert_eq!(wrap_column(80), 79);
    assert_eq!(wrap_column(usize::MAX), usize::MAX - 1);
}

#[test]
fn usable_width_reserves_columns() {
    assert_eq!(usable_width(None), 80);
    assert_eq!(usable_width(Some((100, 40))), 90);
    assert_eq!(usable_width(Some((10, 1))), 0);
    assert_eq!(usable_width(Some((5, 1))), 0);
}

#[test]
fn terminal_width_is_a_usable_width() {
    let w = terminal_width();
    assert!(w == 80 || w <= usize::MAX - 10);
}

#[test]
fn format_wraps_and_indents() {
    let r = record(&[("url", "http://x"), ("resume", "aaa bbb ccc")]);
    assert_eq!(emergence_client::format::format(&r, 5), "http://x\n\taaa\n\tbbb\n\tccc");
    assert_eq!(emergence_client::format::format(&r, 8), "http://x\n\taaa bbb\n\tccc");
    assert_eq!(emergence_client::format::format(&r, 80), "http://x\n\taaa bbb ccc");
}

#[test]
fn format_breaks_long_words_at_narrow_widths() {
    let r = record(&[("url", "u"), ("resume", "abcdef")]);
    assert_eq!(emergence_client::format::format(&r, 4), "u\n\tabc\n\tdef");
    assert_eq!(emergence_client::format::format(&r, 2), "u\n\ta\n\tb\n\tc\n\td\n\te\n\tf");
    assert_eq!(emergence_client::format::format(&r, 0), "u\n\ta\n\tb\n\tc\n\td\n\te\n\tf");
}

#[test]
fn format_agrees_with_the_wrapping_engine() {
    let resume = "A very long resume text that goes on and on about many different things";
    let r = record(&[("url", "http://x"), ("resume", resume)]);
    for width in 2..60usize {
        let lines: Vec<String> =
            textwrap::wrap(resume, width - 1).iter().map(|l| format!("\t{}", l)).collect();
        assert_eq!(emergence_client::format::format(&r, width), format!("http://x\n{}", lines.join("\n")));
    }
}

#[test]
fn wrapped_lines_keep_to_the_width_and_carry_the_marker() {
    let resume = "A very long resume text that goes on and on about many different things";
    let r = record(&[("url", ""), ("resume", resume)]);
    for width in 2..60usize {
        let out = emergence_client::format::format(&r, width);
        let mut lines = out.split('\n');
        assert_eq!(lines.next(), Some(""));
        for line in lines {
            assert!(line.starts_with('\t'));
            assert!(line.chars().count() - 1 <= width - 1);
        }
    }
}

#[test]
fn render_block_joins_indented_lines() {
    assert_eq!(render_block(&vec![]), "");
    assert_eq!(render_block(&vec!["a".to_string()]), "\ta");
    assert_eq!(render_block(&vec!["a".to_string(), "".to_string(), "b".to_string()]), "\ta\n\t\n\tb");
}

#[test]
fn render_record_puts_the_url_first() {
    assert_eq!(render_record("u", &vec!["a".to_string(), "b".to_string()]), "u\n\ta\n\tb");
    assert_eq!(render_record("", &vec![]), "\n");
}

#[test]
fn render_shows_a_scalar_verbatim() {
    assert_eq!(render(&Decoded::Scalar("http://y".to_string()), 80), vec!["http://y".to_string()]);
    assert_eq!(render(&Decoded::Scalar(String::new()), 1), vec![String::new()]);
}

#[test]
fn render_shows_each_record() {
    let d = Decoded::Records(vec![
        record(&[("url", "a"), ("resume", "x")]),
        record(&[("url", "b"), ("resume", "y")]),
    ]);
    assert_eq!(render(&d, 80), vec!["a\n\tx".to_string(), "b\n\ty".to_string()]);
    assert_eq!(render(&Decoded::Records(vec![]), 80), Vec::<String>::new());
}

#[test]
fn structured_response_end_to_end() {
    let body = "{\"embryo_list\":[{\"properties\":[{\"name\":\"url\",\"value\":\"http://x\"},{\"name\":\"resume\",\"value\":\"A very long resume text...\"}]}]}";
    assert_eq!(
        render(&decode(body), 80),
        vec!["http://x\n\tA very long resume text...".to_string()]
    );
    assert_eq!(
        handle_push(body, 8),
        vec!["http://x\n\tA very\n\tlong\n\tresume\n\ttext...".to_string()]
    );
}

#[test]
fn bare_string_end_to_end() {
    assert_eq!(handle_push("\"http://y\"", 80), vec!["http://y".to_string()]);
}

#[test]
fn listener_acknowledges_with_a_fixed_body() {
    assert_eq!(acknowledgement(), "Embox OK");
}
