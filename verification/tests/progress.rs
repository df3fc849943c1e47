use watchso::progress::{bar_template, outcome_template, Progress, SPINNER_TEMPLATE};

#[test]
fn new_progress_has_no_messages() {
    let progress = Progress::new();
    assert_eq!(progress.start_message(), None);
    let finish = progress.finish(true);
    assert_eq!(finish.message, None);
    assert!(!finish.clear);
    let finish = progress.finish(false);
    assert_eq!(finish.message, None);
}

#[test]
fn default_progress_is_new_progress() {
    let progress = Progress::default();
    assert_eq!(progress.start_message(), None);
    assert_eq!(progress.finish(true).message, None);
    assert!(!progress.finish(true).clear);
}

#[test]
fn builder_sets_each_message() {
    let mut progress = Progress::new();
    progress
        .message("Building...")
        .success_message("Built programs")
        .error_message("Couldn't build programs")
        .clear(true);
    assert_eq!(progress.start_message(), Some("Building..."));
    let finish = progress.finish(true);
    assert_eq!(finish.message, Some("Built programs"));
    assert_eq!(finish.color, "green");
    assert_eq!(finish.prefix, "✔");
    assert_eq!(finish.fallback, "+");
    assert!(finish.clear);
    let finish = progress.finish(false);
    assert_eq!(finish.message, Some("Couldn't build programs"));
    assert_eq!(finish.color, "red");
    assert_eq!(finish.prefix, "✖");
    assert_eq!(finish.fallback, "X");
    assert!(finish.clear);
}

#[test]
fn later_settings_replace_earlier_ones() {
    let mut progress = Progress::new();
    progress.message("one").message("two").clear(true).clear(false);
    assert_eq!(progress.start_message(), Some("two"));
    assert!(!progress.finish(true).clear);
}

#[test]
fn bar_template_pads_to_the_digits_of_the_length() {
    assert_eq!(bar_template(0), "[{pos:>1}/{len:1}] {bar:.blue/white} {msg}");
    assert_eq!(bar_template(9), "[{pos:>1}/{len:1}] {bar:.blue/white} {msg}");
    assert_eq!(bar_template(10), "[{pos:>2}/{len:2}] {bar:.blue/white} {msg}");
    assert_eq!(bar_template(12345), "[{pos:>5}/{len:5}] {bar:.blue/white} {msg}");
    assert_eq!(bar_template(1_000_000_000), "[{pos:>10}/{len:10}] {bar:.blue/white} {msg}");
}

#[test]
fn outcome_template_uses_the_colour_twice() {
    assert_eq!(outcome_template("green"), "{prefix:.green} {msg:.green}");
    assert_eq!(outcome_template("red"), "{prefix:.red} {msg:.red}");
}

#[test]
fn spinner_template_is_fixed() {
    assert_eq!(SPINNER_TEMPLATE, " {spinner:.green} {msg}");
}
