//! Style transitions, scale factors and the atom-spacing table.

use rex::layout::Style;
use rex::layout::spacing::{atom_spacing, Spacing};
use rex::dimensions::AnyUnit;
use rex::parser::AtomType;

#[test]
fn cramped_is_idempotent() {
    let styles = [
        Style::Display,
        Style::DisplayCramped,
        Style::Text,
        Style::TextCramped,
        Style::Script,
        Style::ScriptCramped,
        Style::ScriptScript,
        Style::ScriptScriptCramped,
    ];
    for s in styles {
        assert_eq!(s.cramped().cramped(), s.cramped());
    }
}

#[test]
fn cramped_variants() {
    assert_eq!(Style::Display.cramped(), Style::DisplayCramped);
    assert_eq!(Style::Text.cramped(), Style::TextCramped);
    assert_eq!(Style::Script.cramped(), Style::ScriptCramped);
    assert_eq!(Style::ScriptScript.cramped(), Style::ScriptScriptCramped);
}

#[test]
fn script_transitions() {
    assert_eq!(Style::Display.superscript_variant(), Style::Script);
    assert_eq!(Style::Text.superscript_variant(), Style::Script);
    assert_eq!(Style::Script.superscript_variant(), Style::ScriptScript);
    assert_eq!(Style::ScriptScript.superscript_variant(), Style::ScriptScript);
    assert_eq!(Style::DisplayCramped.superscript_variant(), Style::ScriptCramped);
    assert_eq!(Style::Display.subscript_variant(), Style::ScriptCramped);
    assert_eq!(Style::Script.subscript_variant(), Style::ScriptScriptCramped);
}

#[test]
fn numerator_and_denominator_step_down() {
    assert_eq!(Style::Display.numerator(), Style::Text);
    assert_eq!(Style::Display.denominator(), Style::TextCramped);
    assert_eq!(Style::TextCramped.numerator(), Style::ScriptCramped);
    assert_eq!(Style::Text.denominator(), Style::ScriptCramped);
    assert_eq!(Style::ScriptScript.numerator(), Style::ScriptScript);
    assert_eq!(Style::ScriptScript.denominator(), Style::ScriptScriptCramped);
}

#[test]
fn scale_percent_is_flat_then_decreasing() {
    // 100 percent at the Display and Text levels, cramped or not.
    for s in [Style::Display, Style::DisplayCramped, Style::Text, Style::TextCramped] {
        assert_eq!(s.scale_percent(70, 50), 100);
    }
    // Strictly decreasing towards the script sizes.
    assert_eq!(Style::Script.scale_percent(70, 50), 70);
    assert_eq!(Style::ScriptCramped.scale_percent(70, 50), 70);
    assert_eq!(Style::ScriptScript.scale_percent(70, 50), 50);
    assert!(100 > 70 && 70 > 50);
}

#[test]
fn relation_pair_is_thick_in_text() {
    let sp = atom_spacing(AtomType::Relation, AtomType::Relation, Style::Text);
    assert_eq!(sp, Spacing::Thick);
    assert_eq!(sp.to_unit(), AnyUnit::Em(320));
}

#[test]
fn spacing_collapses_in_script_styles() {
    assert_eq!(
        atom_spacing(AtomType::Relation, AtomType::Relation, Style::Script),
        Spacing::Zero
    );
    assert_eq!(
        atom_spacing(AtomType::Alpha, AtomType::Binary, Style::ScriptScriptCramped),
        Spacing::Zero
    );
}

#[test]
fn spacing_table_entries() {
    assert_eq!(atom_spacing(AtomType::Alpha, AtomType::Binary, Style::Text), Spacing::Medium);
    assert_eq!(atom_spacing(AtomType::Alpha, AtomType::Relation, Style::Display), Spacing::Thick);
    assert_eq!(atom_spacing(AtomType::Alpha, AtomType::Operator(false), Style::Text), Spacing::Thin);
    assert_eq!(atom_spacing(AtomType::Alpha, AtomType::Alpha, Style::Text), Spacing::Zero);
    assert_eq!(atom_spacing(AtomType::Open, AtomType::Alpha, Style::Text), Spacing::Zero);
    assert_eq!(atom_spacing(AtomType::Transparent, AtomType::Relation, Style::Text), Spacing::Zero);
    assert_eq!(
        atom_spacing(AtomType::Punctuation, AtomType::Alpha, Style::Text),
        Spacing::Thin
    );
}

#[test]
fn spacing_units() {
    assert_eq!(Spacing::Zero.to_unit(), AnyUnit::Em(0));
    assert_eq!(Spacing::Thin.to_unit(), AnyUnit::Em(192));
    assert_eq!(Spacing::Medium.to_unit(), AnyUnit::Em(256));
    assert_eq!(Spacing::Thick.to_unit(), AnyUnit::Em(320));
}
