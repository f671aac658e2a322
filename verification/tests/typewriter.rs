use stoned::typewriter::DialogueTypewriter;

#[test]
fn reveals_three_characters_after_a_second_and_a_half() {
    let mut tw = DialogueTypewriter::new(2);
    let visible = tw.tick("hello", 1_500);
    assert_eq!(visible, "hel");
}

#[test]
fn reveal_accumulates_across_ticks() {
    let mut tw = DialogueTypewriter::new(2);
    let first = tw.tick("hello", 1_000);
    assert_eq!(first, "he");
    // the display now shows the prefix; the captured text is unchanged
    let second = tw.tick(&first, 500);
    assert_eq!(second, "hel");
}

#[test]
fn reveal_is_monotonic_and_clamps_at_the_full_text() {
    let mut tw = DialogueTypewriter::new(1_000);
    let mut last_len = 0;
    let mut display = String::from("hi there");
    for _ in 0..20 {
        display = tw.tick(&display, 1);
        assert!(display.chars().count() >= last_len);
        last_len = display.chars().count();
    }
    let done = tw.tick(&display, 60_000);
    assert_eq!(done, "hi there");
    let still = tw.tick(&done, 60_000);
    assert_eq!(still, "hi there");
}

#[test]
fn prefix_never_splits_a_multibyte_character() {
    let mut tw = DialogueTypewriter::new(1);
    let visible = tw.tick("αβγδ", 2_500);
    assert_eq!(visible, "αβ");
    assert_eq!(visible.chars().count(), 2);
}

#[test]
fn full_text_is_captured_once_not_recaptured() {
    let mut tw = DialogueTypewriter::new(1);
    let first = tw.tick("stone", 1_000);
    assert_eq!(first, "s");
    // even if the display were overwritten, later ticks reveal the captured text
    let second = tw.tick("XXXXX", 1_000);
    assert_eq!(second, "st");
}

#[test]
fn sub_character_progress_is_kept_exactly() {
    let mut tw = DialogueTypewriter::new(3);
    // 3 chars/sec for 100 ms is 0.3 characters: nothing visible yet
    let none_yet = tw.tick("abc", 100);
    assert_eq!(none_yet, "");
    // nine more such ticks complete the first three characters exactly
    let mut visible = String::new();
    for _ in 0..9 {
        visible = tw.tick(&visible, 100);
    }
    assert_eq!(visible, "abc");
}

#[test]
fn zero_rate_reveals_nothing() {
    let mut tw = DialogueTypewriter::new(0);
    let visible = tw.tick("hello", 1_000_000);
    assert_eq!(visible, "");
}
