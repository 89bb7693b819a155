use proctime::output::{render, Durations};

fn figures(real_time: &str, user_time: &str, sys_time: &str) -> Durations {
    Durations {
        real_time: real_time.to_string(),
        user_time: user_time.to_string(),
        sys_time: sys_time.to_string(),
    }
}

#[test]
fn render_lays_out_the_peak_and_the_durations() {
    let text = render("4.32", &Some(figures("2.500", "2.000", "0.125")));
    assert_eq!(text, "\npeak\t4.32MiB\nreal\t2.500s\nuser\t2.000s\nsys\t0.125s\n\n");
}

#[test]
fn render_without_durations_has_only_the_peak() {
    let text = render("0.00", &None);
    assert_eq!(text, "\npeak\t0.00MiB\n");
    assert!(!text.contains("real"));
    assert!(!text.contains("user"));
    assert!(!text.contains("sys"));
}

#[test]
fn render_parts_label_and_figure_with_a_tab() {
    let text = render("12.50", &Some(figures("0.001", "0.000", "0.000")));
    let lines: Vec<&str> = text.lines().collect();
    assert_eq!(lines, vec!["", "peak\t12.50MiB", "real\t0.001s", "user\t0.000s", "sys\t0.000s", ""]);
}

#[test]
fn render_keeps_the_figures_as_they_come() {
    let text = render("", &Some(figures("-0.000", "", "1e3")));
    assert_eq!(text, "\npeak\tMiB\nreal\t-0.000s\nuser\ts\nsys\t1e3s\n\n");
}
