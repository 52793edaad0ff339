use repeatable::scheduler::{next_loop, LoopMode};
use repeatable::text::{sanitize_file_name, same_text, trim};
use repeatable::ui::{loop_label, speed_label, truncate_chars};

#[test]
fn trim_removes_unicode_white_space_at_both_ends() {
    assert_eq!(trim("  hello world \t\n"), "hello world");
    assert_eq!(trim("\u{3000}x\u{2009}"), "x");
    assert_eq!(trim("   "), "");
    assert_eq!(trim(""), "");
    assert_eq!(trim("a b"), "a b");
}

#[test]
fn same_text_compares_characters() {
    assert!(same_text("F8", "F8"));
    assert!(!same_text("F8", "F80"));
    assert!(!same_text("F8", "f8"));
    assert!(same_text("", ""));
}

#[test]
fn sanitize_replaces_reserved_characters() {
    assert_eq!(sanitize_file_name("a<b>c:d\"e/f\\g|h?i*j"), "a_b_c_d_e_f_g_h_i_j");
    assert_eq!(sanitize_file_name("My Macro"), "My Macro");
}

#[test]
fn sanitize_blank_name_becomes_macro() {
    assert_eq!(sanitize_file_name("   "), "macro");
    assert_eq!(sanitize_file_name(""), "macro");
    assert_eq!(sanitize_file_name("**"), "__");
}

#[test]
fn speed_labels() {
    assert_eq!(speed_label(25), "0.25×");
    assert_eq!(speed_label(50), "0.5×");
    assert_eq!(speed_label(100), "1×");
    assert_eq!(speed_label(200), "2×");
    assert_eq!(speed_label(400), "4×");
    assert_eq!(speed_label(150), "1×");
}

#[test]
fn loop_labels() {
    assert_eq!(loop_label(&LoopMode::Once), "×1");
    assert_eq!(loop_label(&LoopMode::Count(5)), "×5");
    assert_eq!(loop_label(&LoopMode::Count(0)), "×0");
    assert_eq!(loop_label(&LoopMode::Infinite), "∞");
}

#[test]
fn truncate_keeps_short_names() {
    assert_eq!(truncate_chars("short", 10), "short");
    assert_eq!(truncate_chars("exact", 5), "exact");
}

#[test]
fn truncate_cuts_long_names_with_ellipsis() {
    assert_eq!(truncate_chars("a long macro name", 6), "a lon…");
    assert_eq!(truncate_chars("äöüß", 3), "äö…");
    assert_eq!(truncate_chars("abc", 0), "…");
    assert_eq!(truncate_chars("abc", 1), "…");
}

#[test]
fn next_loop_counts_passes() {
    let mut once = LoopMode::Once;
    assert!(!next_loop(&mut once));
    assert_eq!(once, LoopMode::Once);

    let mut forever = LoopMode::Infinite;
    assert!(next_loop(&mut forever));
    assert_eq!(forever, LoopMode::Infinite);

    let mut three = LoopMode::Count(3);
    assert!(next_loop(&mut three));
    assert_eq!(three, LoopMode::Count(2));
    assert!(next_loop(&mut three));
    assert_eq!(three, LoopMode::Count(1));
    assert!(!next_loop(&mut three));
    assert_eq!(three, LoopMode::Count(0));
    assert!(!next_loop(&mut three));
    assert_eq!(three, LoopMode::Count(0));
}

#[test]
fn count_of_three_gives_three_passes() {
    let mut mode = LoopMode::Count(3);
    let answers: Vec<bool> = (0..5).map(|_| next_loop(&mut mode)).collect();
    assert_eq!(answers, vec![true, true, false, false, false]);
    assert_eq!(mode, LoopMode::Count(0));
}
