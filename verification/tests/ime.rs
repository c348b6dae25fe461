use ime_compose::event::ImeEvent;
use ime_compose::field::{EditUpdate, ImeText};
use ime_compose::registry::ImeManager;
use ime_compose::splice::splice_at;

fn update(edited: &str, has_focus: bool, cursor: Option<usize>) -> EditUpdate {
    EditUpdate { edited_text: String::from(edited), has_focus, cursor }
}

fn preedit(value: &str) -> ImeEvent {
    ImeEvent::Preedit { value: String::from(value), has_cursor: true }
}

fn commit(value: &str) -> ImeEvent {
    ImeEvent::Commit { value: String::from(value) }
}

#[test]
fn splice_in_middle() {
    assert_eq!(splice_at("ab", "X", 1), "aXb");
}

#[test]
fn splice_at_end_appends() {
    assert_eq!(splice_at("ab", "X", 2), "abX");
}

#[test]
fn splice_cursor_beyond_end_appends() {
    assert_eq!(splice_at("ab", "X", 9), "abX");
}

#[test]
fn splice_empty_insert_changes_nothing() {
    assert_eq!(splice_at("\u{65e5}\u{672c}\u{8a9e}", "", 1), "\u{65e5}\u{672c}\u{8a9e}");
}

#[test]
fn splice_multibyte_adds_char_counts() {
    let text = "\u{65e5}\u{672c}";
    let ins = "\u{8a9e}x";
    let out = splice_at(text, ins, 1);
    assert_eq!(out, "\u{65e5}\u{8a9e}x\u{672c}");
    assert_eq!(
        out.chars().count(),
        text.chars().count() + ins.chars().count()
    );
}

#[test]
fn splice_empty_text() {
    assert_eq!(splice_at("", "\u{3042}", 0), "\u{3042}");
}

#[test]
fn preedit_shows_highlighted_at_cursor() {
    let mut t = ImeText::new();
    t.text = String::from("ab");
    t.cursor_index = 1;
    t.is_focus = true;
    t.listen_ime_event(&preedit("\u{3042}"));

    let display = t.begin_edit(false);
    assert_eq!(display, "a\u{3042}b");

    let job = t.get_layoutjob();
    assert_eq!(job.text, "a\u{3042}b");
    assert!(!job.break_on_newline);
    assert!(job.wrap);
    assert_eq!(job.sections.len(), 3);
    assert_eq!(job.sections[0].start, 0);
    assert_eq!(job.sections[0].end, 1);
    assert!(!job.sections[0].highlight);
    assert_eq!(job.sections[1].start, 1);
    assert_eq!(job.sections[1].end, 4);
    assert!(job.sections[1].highlight);
    assert_eq!(job.sections[2].start, 4);
    assert_eq!(job.sections[2].end, 5);
    assert!(!job.sections[2].highlight);
}

#[test]
fn commit_splices_and_advances_cursor() {
    let mut t = ImeText::new();
    t.text = String::from("ab");
    t.cursor_index = 1;
    t.is_focus = true;
    t.is_ime = true;
    t.listen_ime_event(&preedit("\u{3042}"));
    t.listen_ime_event(&commit("\u{3042}"));
    assert_eq!(t.text, "a\u{3042}b");
    assert!(t.ime_string.is_empty());

    // the frame after the commit: the widget reports its cursor, the field
    // asks the host to advance it past the committed preedit
    t.begin_edit(false);
    let d = t.finish_edit(&update("a\u{3042}b", true, Some(1)));
    assert!(d.mark_changed);
    assert_eq!(d.advance_chars, Some(1));

    // the host moves the caret; the widget reports the corrected position
    let corrected = 1 + d.advance_chars.unwrap();
    t.begin_edit(false);
    t.finish_edit(&update("a\u{3042}b", true, Some(corrected)));
    assert_eq!(t.cursor_index, 2);
}

#[test]
fn empty_commit_keeps_text_and_cursor() {
    let mut t = ImeText::new();
    t.text = String::from("ab");
    t.cursor_index = 1;
    t.is_focus = true;
    t.is_ime = true;
    t.listen_ime_event(&preedit("\u{3042}"));
    t.listen_ime_event(&commit(""));
    assert_eq!(t.text, "ab");
    assert_eq!(t.cursor_index, 1);

    t.begin_edit(false);
    let d = t.finish_edit(&update("ab", true, Some(1)));
    assert!(d.mark_changed);
    assert_eq!(d.advance_chars, None);
    assert_eq!(t.cursor_index, 1);
}

#[test]
fn empty_commit_suppresses_advance_of_following_commit() {
    let mut t = ImeText::new();
    t.text = String::from("ab");
    t.cursor_index = 2;
    t.is_focus = true;
    t.listen_ime_event(&preedit("\u{3042}"));
    t.listen_ime_event(&commit(""));
    t.listen_ime_event(&commit("\u{3042}"));
    assert_eq!(t.text, "ab\u{3042}");

    t.begin_edit(false);
    let d = t.finish_edit(&update("ab\u{3042}", true, Some(2)));
    assert!(d.mark_changed);
    assert_eq!(d.advance_chars, None);
}

#[test]
fn unfocused_field_ignores_events() {
    let mut t = ImeText::new();
    t.text = String::from("ab");
    t.listen_ime_event(&preedit("\u{3042}"));
    t.listen_ime_event(&commit("X"));
    t.listen_ime_event(&ImeEvent::Enabled);
    assert_eq!(t.text, "ab");
    assert!(t.ime_string.is_empty());
    assert!(!t.is_ime);
}

#[test]
fn preedit_without_cursor_is_ignored() {
    let mut t = ImeText::new();
    t.is_focus = true;
    t.listen_ime_event(&ImeEvent::Preedit {
        value: String::from("\u{3042}"),
        has_cursor: false,
    });
    assert!(t.ime_string.is_empty());
}

#[test]
fn enable_and_disable_toggle_ime() {
    let mut t = ImeText::new();
    t.is_focus = true;
    t.listen_ime_event(&ImeEvent::Enabled);
    assert!(t.is_ime);
    t.listen_ime_event(&ImeEvent::Disabled);
    assert!(!t.is_ime);
}

#[test]
fn ime_disabled_adopts_widget_text() {
    let mut t = ImeText::new();
    t.text = String::from("ab");
    t.begin_edit(false);
    t.finish_edit(&update("abc", true, Some(3)));
    assert_eq!(t.text, "abc");
    assert_eq!(t.cursor_index, 3);
}

#[test]
fn ime_enabled_keeps_committed_text() {
    let mut t = ImeText::new();
    t.text = String::from("ab");
    t.is_ime = true;
    t.begin_edit(false);
    t.finish_edit(&update("zz", true, None));
    assert_eq!(t.text, "ab");
}

#[test]
fn plain_layout_is_one_run() {
    let mut t = ImeText::new();
    t.text = String::from("ab\ncd");
    t.multiline = true;
    let job = t.get_layoutjob();
    assert_eq!(job.text, "ab\ncd");
    assert!(job.break_on_newline);
    assert!(job.wrap);
    assert_eq!(job.sections.len(), 1);
    assert_eq!(job.sections[0].start, 0);
    assert_eq!(job.sections[0].end, 5);
    assert!(!job.sections[0].highlight);

    t.multiline = false;
    let single = t.get_layoutjob();
    assert!(!single.break_on_newline);
    assert!(!single.wrap);
}

#[test]
fn preedit_update_replaces_previous_preedit() {
    let mut t = ImeText::new();
    t.text = String::from("ab");
    t.cursor_index = 2;
    t.is_focus = true;
    t.listen_ime_event(&preedit("\u{3042}"));
    t.listen_ime_event(&preedit("\u{3042}\u{3044}"));
    let display = t.begin_edit(false);
    assert_eq!(display, "ab\u{3042}\u{3044}");
    assert_eq!(t.ime_string_index, 2);
}

#[test]
fn composing_multiline_layout_breaks_on_newline() {
    let mut t = ImeText::new();
    t.text = String::from("a\nb");
    t.cursor_index = 0;
    t.is_focus = true;
    t.listen_ime_event(&preedit("\u{3042}"));
    t.begin_edit(true);
    let job = t.get_layoutjob();
    assert_eq!(job.text, "\u{3042}a\nb");
    assert!(job.break_on_newline);
    assert!(job.wrap);
    assert_eq!(job.sections.len(), 3);
    assert_eq!(job.sections[0].start, 0);
    assert_eq!(job.sections[0].end, 0);
    assert_eq!(job.sections[1].end, 3);
    assert!(job.sections[1].highlight);
    assert_eq!(job.sections[2].end, 6);
}

#[test]
fn commit_only_mutates_focused_field() {
    let mut mgr = ImeManager::new();
    let mut a = String::from("aa");
    let mut b = String::from("bb");

    mgr.begin_frame();
    mgr.begin_edit(&a, false);
    mgr.finish_edit(&mut a, "field-a", &update("aa", false, Some(0)));
    mgr.begin_edit(&b, false);
    mgr.finish_edit(&mut b, "field-b", &update("bb", true, Some(0)));
    mgr.end_frame();

    mgr.begin_frame();
    mgr.listen_ime_event(&commit("X"));
    let da = mgr.begin_edit(&a, false);
    mgr.finish_edit(&mut a, "field-a", &update(&da, false, Some(0)));
    let db = mgr.begin_edit(&b, false);
    mgr.finish_edit(&mut b, "field-b", &update(&db, true, Some(0)));
    mgr.end_frame();

    assert_eq!(a, "aa");
    assert_eq!(b, "Xbb");
}

#[test]
fn undrawn_field_is_reclaimed_and_restarts_fresh() {
    let mut mgr = ImeManager::new();
    let mut a = String::from("aa");
    let mut b = String::from("bb");

    mgr.begin_frame();
    mgr.begin_edit(&a, false);
    mgr.finish_edit(&mut a, "field-a", &update("aa", false, None));
    mgr.begin_edit(&b, false);
    mgr.finish_edit(&mut b, "field-b", &update("bb", true, None));
    mgr.end_frame();
    assert_eq!(mgr.ime_texts.len(), 2);

    mgr.begin_frame();
    mgr.begin_edit(&a, false);
    mgr.finish_edit(&mut a, "field-a", &update("aa", false, None));
    mgr.end_frame();
    assert_eq!(mgr.ime_texts.len(), 1);

    let mut fresh = String::from("fresh");
    mgr.begin_frame();
    mgr.begin_edit(&a, false);
    mgr.finish_edit(&mut a, "field-a", &update("aa", false, None));
    let display = mgr.begin_edit(&fresh, false);
    assert_eq!(display, "fresh");
    mgr.finish_edit(&mut fresh, "field-b", &update(&display, true, None));
    mgr.end_frame();
    assert_eq!(mgr.ime_texts.len(), 2);
    assert_eq!(fresh, "fresh");
}

#[test]
fn set_text_then_edit_shows_injected_text() {
    let mut mgr = ImeManager::new();
    let mut a = String::from("aa");

    mgr.begin_frame();
    mgr.begin_edit(&a, false);
    mgr.finish_edit(&mut a, "field-a", &update("aa", true, Some(0)));
    mgr.end_frame();

    mgr.set_text("field-a", "X");

    mgr.begin_frame();
    let display = mgr.begin_edit(&a, false);
    assert_eq!(display, "X");
    mgr.finish_edit(&mut a, "field-a", &update(&display, true, Some(0)));
    mgr.end_frame();
    assert_eq!(a, "X");
}

#[test]
fn set_text_unknown_identity_is_ignored() {
    let mut mgr = ImeManager::new();
    let mut a = String::from("aa");

    mgr.begin_frame();
    mgr.begin_edit(&a, false);
    mgr.finish_edit(&mut a, "field-a", &update("aa", true, None));
    mgr.end_frame();

    mgr.set_text("no-such-field", "X");
    assert_eq!(mgr.ime_texts.len(), 1);
    assert_eq!(mgr.ime_texts[0].text, "aa");
}

#[test]
fn finish_edit_without_begin_edit_is_none() {
    let mut mgr = ImeManager::new();
    let mut a = String::from("aa");
    mgr.begin_frame();
    let d = mgr.finish_edit(&mut a, "field-a", &update("aa", true, None));
    assert!(d.is_none());
    assert_eq!(a, "aa");
}

#[test]
fn full_composition_scenario() {
    // committed "ab", cursor 1; preedit then commit of a multi-byte character
    let mut mgr = ImeManager::new();
    let mut text = String::from("ab");

    mgr.begin_frame();
    let display = mgr.begin_edit(&text, false);
    assert_eq!(display, "ab");
    mgr.finish_edit(&mut text, "f", &update(&display, true, Some(1)));
    mgr.end_frame();

    mgr.begin_frame();
    mgr.listen_ime_event(&ImeEvent::Enabled);
    mgr.listen_ime_event(&preedit("\u{3042}"));
    let display = mgr.begin_edit(&text, false);
    assert_eq!(display, "a\u{3042}b");
    mgr.finish_edit(&mut text, "f", &update(&display, true, Some(1)));
    mgr.end_frame();
    assert_eq!(text, "ab");

    mgr.begin_frame();
    mgr.listen_ime_event(&commit("\u{3042}"));
    let display = mgr.begin_edit(&text, false);
    assert_eq!(display, "a\u{3042}b");
    let d = mgr
        .finish_edit(&mut text, "f", &update(&display, true, Some(1)))
        .unwrap();
    assert!(d.mark_changed);
    assert_eq!(d.advance_chars, Some(1));
    mgr.end_frame();
    assert_eq!(text, "a\u{3042}b");
}
