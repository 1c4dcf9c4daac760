use dialog::{Color, Confirmation, Dialog, Enumerable, Style};

fn strings(items: &[&str]) -> Vec<String> {
    items.iter().map(|s| s.to_string()).collect()
}

#[test]
fn style_unset_boldness_is_accent_and_bold() {
    let s = Style::resolve(None, None);
    assert_eq!(s, Style { color: Color::Cyan, bold: true });
}

#[test]
fn style_unset_boldness_ignores_requested_color() {
    let s = Style::resolve(Some(Color::Red), None);
    assert_eq!(s, Style { color: Color::Cyan, bold: true });
}

#[test]
fn style_not_bold_without_color_keeps_accent() {
    let s = Style::resolve(None, Some(false));
    assert_eq!(s, Style { color: Color::Cyan, bold: false });
}

#[test]
fn style_bold_with_red_is_bold_and_red() {
    let s = Style::resolve(Some(Color::Red), Some(true));
    assert_eq!(s, Style { color: Color::Red, bold: true });
}

#[test]
fn styled_label_keeps_the_text() {
    let label = Dialog::styled_label("Name", Some(Color::Green), Some(true));
    assert!(label.contains("Name"));
}

#[test]
fn confirmation_variants_in_declaration_order() {
    let v = Confirmation::variants();
    assert_eq!(v, vec![Confirmation::Yes, Confirmation::No, Confirmation::Cancel]);
    assert_eq!(v[0].label(), "Yes");
    assert_eq!(v[1].label(), "No");
    assert_eq!(v[2].label(), "Cancel");
}

#[test]
fn select_highlights_the_default_variant() {
    let plan = Dialog::select_plan::<Confirmation>(
        "Proceed?",
        Some(Confirmation::No),
        None,
        None,
    );
    assert_eq!(plan.options, Confirmation::variants());
    assert_eq!(plan.items, vec!["Yes", "No", "Cancel"]);
    assert_eq!(plan.default_index, 1);
}

#[test]
fn select_without_default_highlights_first() {
    let plan = Dialog::select_plan::<Confirmation>("Proceed?", None, None, None);
    assert_eq!(plan.default_index, 0);
}

#[test]
fn select_with_unlisted_default_highlights_first() {
    let options = vec![Confirmation::Yes, Confirmation::No];
    let i = Dialog::default_index(&options, &Some(Confirmation::Cancel));
    assert_eq!(i, 0);
}

#[test]
fn multi_select_checks_exactly_the_members() {
    let plan = Dialog::multi_select_plan::<Confirmation>(
        "Pick",
        Some(vec![Confirmation::Cancel, Confirmation::Yes]),
        None,
        None,
    );
    assert_eq!(plan.checked, vec![true, false, true]);
}

#[test]
fn multi_select_without_checked_set_checks_nothing() {
    let plan = Dialog::multi_select_plan::<Confirmation>("Pick", None, None, None);
    assert_eq!(plan.checked, vec![false, false, false]);
}

#[test]
fn select_str_moves_default_to_front() {
    let plan = Dialog::select_str_plan("Pick", &strings(&["a", "b", "c"]), Some(2), None, None);
    assert_eq!(plan.items, strings(&["c", "a", "b"]));
    assert_eq!(plan.default_index, 0);
}

#[test]
fn select_str_without_default_keeps_order() {
    let plan = Dialog::select_str_plan("Pick", &strings(&["a", "b", "c"]), None, None, None);
    assert_eq!(plan.items, strings(&["a", "b", "c"]));
    assert_eq!(plan.default_index, 0);
}

#[test]
fn select_str_out_of_range_default_keeps_order() {
    let plan = Dialog::select_str_plan("Pick", &strings(&["a", "b", "c"]), Some(7), None, None);
    assert_eq!(plan.items, strings(&["a", "b", "c"]));
    assert_eq!(plan.default_index, 0);
}

#[test]
fn multi_select_str_keeps_order_and_checks_members() {
    let plan = Dialog::multi_select_str_plan(
        "Pick",
        &strings(&["a", "b", "c"]),
        Some(strings(&["b", "c"])),
        None,
        None,
    );
    assert_eq!(plan.items, strings(&["a", "b", "c"]));
    assert_eq!(plan.checked, vec![false, true, true]);
}

#[test]
fn pick_maps_the_reported_index() {
    let options = Confirmation::variants();
    assert_eq!(Dialog::pick(&options, 2), Confirmation::Cancel);
}

#[test]
fn pick_many_keeps_the_reported_order() {
    let options = Confirmation::variants();
    let chosen = Dialog::pick_many(&options, &vec![2, 0]);
    assert_eq!(chosen, vec![Confirmation::Cancel, Confirmation::Yes]);
}

#[test]
fn pick_str_maps_the_reported_index() {
    let options = strings(&["a", "b", "c"]);
    assert_eq!(Dialog::pick_str(&options, 1), "b");
}

#[test]
fn pick_many_str_keeps_the_reported_order() {
    let options = strings(&["a", "b", "c"]);
    let chosen = Dialog::pick_many_str(&options, &vec![2, 1]);
    assert_eq!(chosen, strings(&["c", "b"]));
}

#[test]
fn empty_submission_returns_the_default() {
    let r = Dialog::resolve_submission(String::new(), Some("Bob".to_string()));
    assert_eq!(r, Some("Bob".to_string()));
}

#[test]
fn nonempty_submission_wins_over_the_default() {
    let r = Dialog::resolve_submission("Alice".to_string(), Some("Bob".to_string()));
    assert_eq!(r, Some("Alice".to_string()));
}

#[test]
fn empty_submission_without_default_is_rejected() {
    let r = Dialog::resolve_submission(String::new(), None);
    assert_eq!(r, None);
}

#[test]
fn repeated_calls_agree() {
    let opts = strings(&["a", "b", "c"]);
    let p1 = Dialog::select_str_plan("Pick", &opts, Some(1), None, None);
    let p2 = Dialog::select_str_plan("Pick", &opts, Some(1), None, None);
    assert_eq!(p1.items, p2.items);
    assert_eq!(p1.default_index, p2.default_index);
    let i1 = Dialog::default_index(&Confirmation::variants(), &Some(Confirmation::No));
    let i2 = Dialog::default_index(&Confirmation::variants(), &Some(Confirmation::No));
    assert_eq!(i1, i2);
}
