use power_menu::label::{header_markup, markup_escape};

#[test]
fn escape_replaces_each_sensitive_character() {
    assert_eq!(markup_escape("&"), "&amp;");
    assert_eq!(markup_escape("<"), "&lt;");
    assert_eq!(markup_escape(">"), "&gt;");
    assert_eq!(markup_escape("'"), "&#39;");
    assert_eq!(markup_escape("\""), "&quot;");
}

#[test]
fn escape_keeps_plain_text_unchanged() {
    assert_eq!(markup_escape("Power menu"), "Power menu");
    assert_eq!(markup_escape(""), "");
}

#[test]
fn escape_handles_mixed_text() {
    assert_eq!(markup_escape("a<b & c>d"), "a&lt;b &amp; c&gt;d");
}

#[test]
fn heading_escapes_the_title() {
    let markup = header_markup("Power <&> menu", "systemd");
    assert_eq!(
        markup,
        "<big><b>Power &lt;&amp;&gt; menu</b></big>\n<small>Backend: systemd</small>"
    );
    assert_eq!(markup.chars().filter(|c| *c == '\n').count(), 1);
}

#[test]
fn heading_with_empty_title_is_still_two_lines() {
    let markup = header_markup("", "unix");
    assert_eq!(markup, "<big><b></b></big>\n<small>Backend: unix</small>");
    assert_eq!(markup.lines().count(), 2);
}

#[test]
fn heading_is_pure_for_a_given_input() {
    let first = header_markup("Power menu", "custom");
    let second = header_markup("Power menu", "custom");
    assert_eq!(first, second);
}
