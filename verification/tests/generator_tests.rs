use log_generator::calendar::get_days_in_month;
use log_generator::config::{DailyRemarkConfig, CHANCE_DENOM};
use log_generator::generator::LogGenerator;

fn blocks(text: &str) -> Vec<String> {
    // Day blocks are separated by one blank line, i.e. by "\n\n".
    text.split("\n\n").map(|b| b.to_string()).collect()
}

fn is_digits(s: &str) -> bool {
    !s.is_empty() && s.chars().all(|c| c.is_ascii_digit())
}

#[test]
fn single_item_day_has_one_wake_up_line() {
    let mut g = LogGenerator::new(1, vec!["read".to_string()], None);
    let text = g.generate_for_month(3, 7);
    let bs = blocks(&text);
    assert_eq!(bs.len(), 7);
    for (d, b) in bs.iter().enumerate() {
        let lines: Vec<&str> = b.lines().collect();
        assert_eq!(lines.len(), 2);
        assert_eq!(lines[0], format!("03{:02}", d + 1));
        assert!(lines[1].starts_with("06"));
        assert!(lines[1].ends_with("wake up"));
        assert_eq!(lines[1].len(), 4 + "wake up".len());
        let minute: u32 = lines[1][2..4].parse().unwrap();
        assert!(minute <= 59);
    }
}

#[test]
fn first_and_last_item_hours() {
    let mut g = LogGenerator::new(3, vec!["read".to_string()], None);
    let text = g.generate_for_month(5, 10);
    for b in blocks(&text) {
        let lines: Vec<&str> = b.lines().collect();
        assert_eq!(lines.len(), 4);
        // First item: hour 6 with the wake-up label.
        assert!(lines[1].starts_with("06"));
        assert!(lines[1].ends_with("wake up"));
        // Middle item: progress 1/2, hour 6 + round(9.5) = 16.
        assert!(lines[2].starts_with("16"));
        assert!(lines[2].ends_with("read"));
        // Last item: progress 1, logical hour 25, shown as 1.
        assert!(lines[3].starts_with("01"));
        assert!(lines[3].ends_with("read"));
    }
}

#[test]
fn headers_are_four_zero_padded_digits() {
    let mut g = LogGenerator::new(2, vec!["walk".to_string()], None);
    let days = get_days_in_month(2021, 1);
    assert_eq!(days, 31);
    let text = g.generate_for_month(1, days);
    let bs = blocks(&text);
    assert_eq!(bs.len(), 31);
    for (d, b) in bs.iter().enumerate() {
        let header = b.lines().next().unwrap();
        assert_eq!(header.len(), 4);
        assert!(is_digits(header));
        assert_eq!(header, format!("01{:02}", d + 1));
    }
}

#[test]
fn day_blocks_separated_by_exactly_one_blank_line() {
    let mut g = LogGenerator::new(2, vec!["walk".to_string()], None);
    let text = g.generate_for_month(12, 31);
    assert!(!text.starts_with('\n'));
    assert!(text.ends_with('\n'));
    assert!(!text.ends_with("\n\n"));
    // No blank line inside a block means never three newlines in a row.
    assert!(!text.contains("\n\n\n"));
    assert_eq!(text.matches("\n\n").count(), 30);
}

#[test]
fn leap_february_has_29_blocks() {
    let mut g = LogGenerator::new(3, vec!["read".to_string(), "walk".to_string()], None);
    let days = get_days_in_month(2020, 2);
    assert_eq!(days, 29);
    let text = g.generate_for_month(2, days);
    assert_eq!(blocks(&text).len(), 29);
}

#[test]
fn activity_lines_use_the_pool() {
    let pool = vec!["read".to_string(), "walk".to_string()];
    let mut g = LogGenerator::new(4, pool.clone(), None);
    let text = g.generate_for_month(6, 30);
    for b in blocks(&text) {
        let lines: Vec<&str> = b.lines().collect();
        assert_eq!(lines.len(), 5);
        for line in &lines[2..] {
            assert!(is_digits(&line[..4]));
            let label = &line[4..];
            assert!(pool.iter().any(|p| p == label));
            let minute: u32 = line[2..4].parse().unwrap();
            assert!(minute <= 59);
        }
    }
}

#[test]
fn certain_chance_puts_one_remark_in_every_day() {
    let rc = DailyRemarkConfig {
        prefix: "note: ".to_string(),
        contents: vec!["fine day".to_string(), "slow day".to_string()],
        chance_num: CHANCE_DENOM,
    };
    let mut g = LogGenerator::new(2, vec!["read".to_string()], Some(rc));
    let text = g.generate_for_month(4, 30);
    for b in blocks(&text) {
        let lines: Vec<&str> = b.lines().collect();
        // Header, remark, two activity lines.
        assert_eq!(lines.len(), 4);
        assert!(lines[1].starts_with("note: "));
        let content = &lines[1]["note: ".len()..];
        assert!(content == "fine day" || content == "slow day");
        // The remark stands between the header and the first activity line,
        // and is the only such line.
        assert!(is_digits(&lines[0]));
        assert!(lines[2].starts_with("06"));
        assert!(!lines[2].contains("note: "));
        assert!(!lines[3].contains("note: "));
    }
}

#[test]
fn zero_chance_never_puts_a_remark() {
    let rc = DailyRemarkConfig {
        prefix: "note: ".to_string(),
        contents: vec!["fine day".to_string()],
        chance_num: 0,
    };
    let mut g = LogGenerator::new(2, vec!["read".to_string()], Some(rc));
    let text = g.generate_for_month(4, 30);
    assert!(!text.contains("note: "));
    for b in blocks(&text) {
        assert_eq!(b.lines().count(), 3);
    }
}

#[test]
fn zero_days_give_empty_text() {
    let mut g = LogGenerator::new(2, vec!["read".to_string()], None);
    let text = g.generate_for_month(1, 0);
    assert_eq!(text, "");
}

#[test]
fn generator_is_reusable_across_months() {
    let mut g = LogGenerator::new(1, vec!["read".to_string()], None);
    for month in 1..=12u32 {
        let days = get_days_in_month(2020, month);
        let text = g.generate_for_month(month, days);
        assert_eq!(blocks(&text).len(), days as usize);
    }
}
