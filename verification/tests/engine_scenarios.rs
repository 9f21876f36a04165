//! End-to-end layout scenarios over a small synthetic font.
//!
//! The font uses 1000 units per em and the contexts use a font size of
//! 2560 q units per em (10 px at 256 q per px), so one font unit scales
//! to 2.56 q at full size.

use rex::font::{
    Glyph, GlyphKernInfo, GlyphPart, GlyphVariants, KernRecord, MathConstants, MathFont,
    VariantGlyph, VariantRecord,
};
use rex::layout::convert::{AsLayoutNode, Scaled};
use rex::layout::engine::{enforce_script_gap, frac_kerns, layout, reclassify_binary};
use rex::layout::{Alignment, LayoutSettings, LayoutVariant, Style};
use rex::parser::nodes::{
    Accent, BarThickness, Color, Delimited, GenFraction, MathStyle, NodeList, ParseNode, Radical,
    Rule, Scripts,
};
use rex::parser::color::RGBA;
use rex::parser::{AtomType, Symbol};
use rex::dimensions::AnyUnit;
use rex::LayoutError;

fn glyph(unicode: u32, gid: u16, height: i64, depth: i64, advance: i64) -> Glyph {
    Glyph {
        unicode,
        gid,
        height,
        depth,
        advance,
        italics: 0,
        attachment: 0,
        bbox_xmin: 0,
        bbox_xmax: advance,
    }
}

fn test_font() -> MathFont {
    let constants = MathConstants {
        script_percent_scale_down: 70,
        script_script_percent_scale_down: 50,
        delimited_sub_formula_min_height: 1300,
        display_operator_min_height: 1200,
        axis_height: 250,
        accent_base_height: 450,
        superscript_shift_up: 360,
        superscript_shift_up_cramped: 280,
        superscript_baseline_drop_max: 80,
        superscript_bottom_min: 120,
        subscript_shift_down: 210,
        subscript_baseline_drop_min: 170,
        subscript_top_max: 340,
        sub_superscript_gap_min: 150,
        upper_limit_baseline_rise_min: 110,
        upper_limit_gap_min: 80,
        lower_limit_baseline_drop_min: 120,
        lower_limit_gap_min: 90,
        fraction_rule_thickness: 40,
        fraction_numerator_display_style_shift_up: 580,
        fraction_numerator_shift_up: 390,
        fraction_num_display_style_gap_min: 120,
        fraction_numerator_gap_min: 40,
        fraction_denominator_display_style_shift_down: 580,
        fraction_denominator_shift_down: 390,
        fraction_denom_display_style_gap_min: 120,
        fraction_denominator_gap_min: 40,
        radical_display_style_vertical_gap: 180,
        radical_vertical_gap: 60,
        radical_rule_thickness: 40,
        radical_extra_ascender: 60,
        delimiter_factor_permille: 901,
        delimiter_short_fall: 100,
        null_delimiter_space: 256,
        units_per_em: 1000,
    };
    MathFont {
        constants,
        glyphs: vec![
            glyph(0x61, 1, 450, 0, 500),    // a
            glyph(0x78, 2, 450, 0, 500),    // x
            glyph(0x3D, 3, 350, -50, 778),  // =
            glyph(0x2B, 4, 500, 0, 722),    // +
            glyph(0x77, 5, 450, 0, 4000),   // w, 40 px wide
            glyph(0x6E, 6, 450, 0, 2000),   // n, 20 px wide
            glyph(0x28, 7, 700, -200, 400), // (
            glyph(0x29, 8, 700, -200, 400), // )
            glyph(0x2211, 9, 600, -100, 1000), // summation operator
            glyph(0x221A, 10, 800, -200, 700), // radical
            glyph(0, 11, 700, -100, 700),   // radical variant, size 800
            glyph(0, 12, 1400, -200, 700),  // radical variant, size 1600
            glyph(0, 13, 900, -300, 1000),  // operator variant
            glyph(0x54, 15, 900, -300, 600), // T, tall enough to extend
            glyph(0, 16, 1200, -300, 400),  // parenthesis variant
            glyph(0x5E, 17, 600, -50, 312), // circumflex accent
            glyph(0, 21, 400, 0, 700),      // assembly part
            glyph(0, 22, 400, 0, 700),      // assembly part
        ],
        vert_variants: vec![
            GlyphVariants {
                gid: 10,
                variants: vec![
                    VariantRecord { gid: 11, size: 800 },
                    VariantRecord { gid: 12, size: 1600 },
                ],
                parts: vec![],
            },
            GlyphVariants {
                gid: 9,
                variants: vec![VariantRecord { gid: 13, size: 1200 }],
                parts: vec![],
            },
            GlyphVariants {
                gid: 7,
                variants: vec![VariantRecord { gid: 16, size: 1500 }],
                parts: vec![],
            },
            GlyphVariants {
                gid: 8,
                variants: vec![VariantRecord { gid: 16, size: 1500 }],
                parts: vec![],
            },
            GlyphVariants {
                gid: 20,
                variants: vec![],
                parts: vec![
                    GlyphPart { gid: 21, overlap: 0 },
                    GlyphPart { gid: 22, overlap: 100 },
                ],
            },
        ],
        horz_variants: vec![GlyphVariants {
            gid: 23,
            variants: vec![],
            parts: vec![
                GlyphPart { gid: 21, overlap: 0 },
                GlyphPart { gid: 22, overlap: 50 },
            ],
        }],
        kerning: vec![GlyphKernInfo {
            gid: 1,
            top_right: vec![KernRecord { height: 0, kern: 50 }],
            top_left: vec![],
            bottom_right: vec![],
            bottom_left: vec![],
        }],
    }
}

fn sym(c: char, at: AtomType) -> ParseNode {
    ParseNode::Symbol(Symbol { codepoint: c, atom_type: at })
}

fn alpha(c: char) -> ParseNode {
    sym(c, AtomType::Alpha)
}

#[test]
fn single_symbol_becomes_one_scaled_glyph_node() {
    let font = test_font();
    let config = LayoutSettings::new(&font, 2560, Style::Display);
    let l = layout(&[alpha('a')], config).unwrap();
    assert_eq!(l.contents.len(), 1);
    let node = &l.contents[0];
    // advance 500 fu at 2560 q/em over 1000 upem with scale 1.0.
    assert_eq!(node.width, 1280);
    assert_eq!(node.height, 1152);
    assert_eq!(node.depth, 0);
    assert_eq!(l.width, 1280);
    match node.node {
        LayoutVariant::Glyph(lg) => {
            assert_eq!(lg.unicode, 0x61);
            assert_eq!(lg.gid, 1);
            assert_eq!(lg.size, 2560);
            assert_eq!(lg.offset, 0);
        },
        _ => panic!("expected a glyph node"),
    }
}

#[test]
fn script_style_scales_down() {
    let font = test_font();
    let config = LayoutSettings::new(&font, 2560, Style::Text).with_style(Style::Script);
    let l = layout(&[alpha('a')], config).unwrap();
    // 500 fu * 2560 * 70% / 1000 = 896 q.
    assert_eq!(l.contents[0].width, 896);
}

#[test]
fn adjacent_relations_get_a_thick_kern() {
    let font = test_font();
    let config = LayoutSettings::new(&font, 2560, Style::Text);
    let rel = sym('=', AtomType::Relation);
    let rel2 = sym('=', AtomType::Relation);
    let l = layout(&[rel, rel2], config).unwrap();
    assert_eq!(l.contents.len(), 3);
    // 5/18 em = 320 subunits of 1/1152 em; 320 * 2560 / 1152 = 711 q.
    assert_eq!(l.contents[1].width, 711);
    assert!(matches!(l.contents[1].node, LayoutVariant::Kern));
}

#[test]
fn binary_between_letters_keeps_medium_spaces() {
    let font = test_font();
    let config = LayoutSettings::new(&font, 2560, Style::Text);
    let l = layout(
        &[alpha('a'), sym('+', AtomType::Binary), alpha('a')],
        config,
    )
    .unwrap();
    // a, medium kern, +, medium kern, a.
    assert_eq!(l.contents.len(), 5);
    // 4/18 em = 256 subunits; 256 * 2560 / 1152 = 568 q.
    assert_eq!(l.contents[1].width, 568);
    assert_eq!(l.contents[3].width, 568);
}

#[test]
fn leading_binary_is_reclassified() {
    let font = test_font();
    let config = LayoutSettings::new(&font, 2560, Style::Text);
    let l = layout(&[sym('+', AtomType::Binary), alpha('a')], config).unwrap();
    // The plus behaves as an ordinary atom: no medium space appears.
    assert_eq!(l.contents.len(), 2);
}

#[test]
fn binary_before_relation_is_reclassified() {
    let font = test_font();
    let config = LayoutSettings::new(&font, 2560, Style::Text);
    let l = layout(
        &[alpha('a'), sym('+', AtomType::Binary), sym('=', AtomType::Relation)],
        config,
    )
    .unwrap();
    // a + behaves as two ordinary atoms, then a thick space before =.
    assert_eq!(l.contents.len(), 4);
    assert_eq!(l.contents[2].width, 711);
}

#[test]
fn reclassification_truth_table() {
    for prev in [
        AtomType::Transparent,
        AtomType::Binary,
        AtomType::Relation,
        AtomType::Open,
        AtomType::Punctuation,
        AtomType::Operator(false),
        AtomType::Operator(true),
    ] {
        assert_eq!(reclassify_binary(prev, AtomType::Binary, AtomType::Alpha), AtomType::Alpha);
    }
    for next in [AtomType::Relation, AtomType::Close, AtomType::Punctuation] {
        assert_eq!(reclassify_binary(AtomType::Alpha, AtomType::Binary, next), AtomType::Alpha);
    }
    assert_eq!(
        reclassify_binary(AtomType::Alpha, AtomType::Binary, AtomType::Alpha),
        AtomType::Binary
    );
    assert_eq!(
        reclassify_binary(AtomType::Close, AtomType::Binary, AtomType::Open),
        AtomType::Binary
    );
    assert_eq!(
        reclassify_binary(AtomType::Alpha, AtomType::Relation, AtomType::Alpha),
        AtomType::Relation
    );
}

#[test]
fn fraction_centers_narrow_denominator() {
    let font = test_font();
    // Display style, so the numerator keeps full size (its style is one
    // level down, Text) and the display parameter set is used.
    let config = LayoutSettings::new(&font, 2560, Style::Display);
    let frac = ParseNode::GenFraction(GenFraction {
        numerator: vec![alpha('w')],
        denominator: vec![alpha('n')],
        bar_thickness: BarThickness::Default,
        left_delimiter: None,
        right_delimiter: None,
        style: MathStyle::NoChange,
    });
    let l = layout(&[frac], config).unwrap();
    assert_eq!(l.contents.len(), 3);
    // Null-delimiter kerns flank the stack.
    assert_eq!(l.contents[0].width, 256);
    assert_eq!(l.contents[2].width, 256);
    match &l.contents[1].node {
        LayoutVariant::VerticalBox(vb) => {
            assert_eq!(vb.contents.len(), 5);
            let numer = &vb.contents[0];
            let denom = &vb.contents[4];
            // The numerator is 40 px wide; the denominator reports the
            // same width, centered around its natural 20 px.
            assert_eq!(numer.width, 10240);
            assert_eq!(denom.width, 10240);
            match &denom.node {
                LayoutVariant::HorizontalBox(hb) => {
                    assert_eq!(hb.alignment, Alignment::Centered(5120));
                },
                _ => panic!("expected the denominator to be a horizontal box"),
            }
            match &numer.node {
                LayoutVariant::HorizontalBox(hb) => {
                    assert_eq!(hb.alignment, Alignment::Default);
                },
                _ => panic!("expected the numerator to be a horizontal box"),
            }
            // The bar is the configured rule: 40 fu -> 102 q.
            assert_eq!(vb.contents[2].height, 102);
            // Gaps on both sides of the bar meet the display-style
            // minimum of 120 fu -> 307 q.
            assert!(vb.contents[1].height + vb.contents[0].depth >= 307);
            assert!(vb.contents[3].height >= 307);
        },
        _ => panic!("expected a fraction stack"),
    }
}

#[test]
fn fraction_kerns_meet_minimum_gaps() {
    // Text-style parameters from the font, in q units.
    let (kern_num, kern_den, offset) = frac_kerns(998, 998, 640, 102, 102, 102, -50, 1152);
    assert!(kern_num + (-50) >= 102);
    assert!(kern_den >= 102);
    // The offset puts the bar's center on the axis.
    assert_eq!(offset, 1152 + kern_den + 51 - 640);
}

#[test]
fn script_gap_enforcement() {
    // Already wide enough: unchanged.
    assert_eq!(enforce_script_gap(500, 400, -10, 30, 100), (500, 400));
    // Too close: both adjustments grow by the same amount and the gap is
    // restored.
    let (up, down) = enforce_script_gap(100, 50, -10, 30, 200);
    assert_eq!(up - 100, down - 50);
    assert!((up + (-10)) - (30 - down) >= 200);
    assert_eq!(up, 145);
    assert_eq!(down, 95);
}

#[test]
fn radical_covers_content_with_gap() {
    let font = test_font();
    let config = LayoutSettings::new(&font, 2560, Style::Text);
    let rad = ParseNode::Radical(Radical { inner: vec![alpha('x')] });
    let l = layout(&[rad], config).unwrap();
    assert_eq!(l.contents.len(), 2);
    let glyph_box = &l.contents[0];
    let body = &l.contents[1];
    assert!(matches!(glyph_box.node, LayoutVariant::VerticalBox(_)));
    match &body.node {
        LayoutVariant::VerticalBox(vb) => {
            assert_eq!(vb.contents.len(), 4);
            // The bar spans exactly the content width.
            assert!(matches!(vb.contents[1].node, LayoutVariant::Rule));
            assert_eq!(vb.contents[1].width, vb.contents[3].width);
            assert_eq!(vb.contents[3].width, 1280);
        },
        _ => panic!("expected the radical body"),
    }
    // The chosen radical variant (size 800 fu) covers the content
    // (450 fu) plus the minimum gap (60 fu): in q units,
    // glyph extent 2048 >= content 1152 + gap 153.
    match &glyph_box.node {
        LayoutVariant::VerticalBox(vb) => {
            let g = &vb.contents[0];
            assert!(g.height - g.depth >= 1152 + 153);
        },
        _ => unreachable!(),
    }
}

#[test]
fn small_delimiters_stay_plain() {
    let font = test_font();
    let config = LayoutSettings::new(&font, 2560, Style::Text);
    let d = ParseNode::Delimited(Delimited::new(
        vec![
            Symbol { codepoint: '(', atom_type: AtomType::Open },
            Symbol { codepoint: ')', atom_type: AtomType::Close },
        ],
        vec![NodeList { nodes: vec![alpha('a')] }],
    ));
    let l = layout(&[d], config).unwrap();
    assert_eq!(l.contents.len(), 3);
    assert!(matches!(l.contents[0].node, LayoutVariant::Glyph(_)));
    assert!(matches!(l.contents[2].node, LayoutVariant::Glyph(_)));
}

#[test]
fn tall_delimiters_extend_and_center() {
    let font = test_font();
    let config = LayoutSettings::new(&font, 2560, Style::Text);
    let d = ParseNode::Delimited(Delimited::new(
        vec![
            Symbol { codepoint: '(', atom_type: AtomType::Open },
            Symbol { codepoint: ')', atom_type: AtomType::Close },
        ],
        vec![NodeList { nodes: vec![sym('T', AtomType::Alpha)] }],
    ));
    let l = layout(&[d], config).unwrap();
    assert_eq!(l.contents.len(), 3);
    // The sized delimiters are wrapped in centering vertical boxes.
    assert!(matches!(l.contents[0].node, LayoutVariant::VerticalBox(_)));
    assert!(matches!(l.contents[2].node, LayoutVariant::VerticalBox(_)));
}

#[test]
fn period_stands_for_no_delimiter() {
    let font = test_font();
    let config = LayoutSettings::new(&font, 2560, Style::Text);
    let d = ParseNode::Delimited(Delimited::new(
        vec![
            Symbol { codepoint: '.', atom_type: AtomType::Open },
            Symbol { codepoint: '.', atom_type: AtomType::Close },
        ],
        vec![NodeList { nodes: vec![alpha('a')] }],
    ));
    let l = layout(&[d], config).unwrap();
    assert_eq!(l.contents.len(), 3);
    assert!(matches!(l.contents[0].node, LayoutVariant::Kern));
    assert_eq!(l.contents[0].width, 256);
}

#[test]
fn scripts_attach_to_base() {
    let font = test_font();
    let config = LayoutSettings::new(&font, 2560, Style::Text);
    let scripts = ParseNode::Scripts(Scripts {
        base: Some(Box::new(alpha('a'))),
        superscript: Some(vec![alpha('x')]),
        subscript: Some(vec![alpha('x')]),
    });
    let l = layout(&[scripts], config).unwrap();
    // Base node followed by the script stack.
    assert_eq!(l.contents.len(), 2);
    // The base is the laid-out single symbol at full size.
    assert_eq!(l.contents[0].width, 1280);
    match &l.contents[1].node {
        LayoutVariant::VerticalBox(vb) => {
            // Superscript, separating kern, subscript.
            assert_eq!(vb.contents.len(), 3);
            // The superscript's bottom clears the subscript's top by at
            // least the configured minimum: 150 fu -> 384 q.
            assert!(vb.contents[1].height + vb.contents[0].depth >= 384);
        },
        _ => panic!("expected a script stack"),
    }
    // Scripts are set at the script size (500 fu * 70% -> 896 q), and
    // the superscript carries the base's 50 fu top-right corner kern
    // (128 q at full size) in front.
    assert_eq!(l.contents[1].width, 1024);
}

#[test]
fn operator_with_limits_stacks_vertically() {
    let font = test_font();
    let config = LayoutSettings::new(&font, 2560, Style::Display);
    let scripts = ParseNode::Scripts(Scripts {
        base: Some(Box::new(sym('\u{2211}', AtomType::Operator(true)))),
        superscript: Some(vec![alpha('a')]),
        subscript: Some(vec![alpha('a')]),
    });
    let l = layout(&[scripts], config).unwrap();
    assert_eq!(l.contents.len(), 1);
    match &l.contents[0].node {
        LayoutVariant::VerticalBox(vb) => {
            // Upper limit, kern, base, kern, lower limit.
            assert_eq!(vb.contents.len(), 5);
            // The upper limit rises by at least its minimum: 110 fu ->
            // 281 q; the lower kern clears the base's depth by at least
            // the 90 fu -> 230 q gap.
            assert!(vb.contents[1].height >= 281);
            assert!(vb.contents[3].height >= 230 - vb.contents[2].depth);
            // The offset restores the base's baseline.
            assert_eq!(vb.offset, vb.contents[4].height + vb.contents[3].height);
        },
        _ => panic!("expected a limits stack"),
    }
}

#[test]
fn display_operator_grows_and_centers() {
    let font = test_font();
    let config = LayoutSettings::new(&font, 2560, Style::Display);
    let l = layout(&[sym('\u{2211}', AtomType::Operator(false))], config).unwrap();
    assert_eq!(l.contents.len(), 1);
    // The display variant is wrapped in an axis-centering vertical box.
    assert!(matches!(l.contents[0].node, LayoutVariant::VerticalBox(_)));
    let config_text = LayoutSettings::new(&font, 2560, Style::Text);
    let l2 = layout(&[sym('\u{2211}', AtomType::Operator(false))], config_text).unwrap();
    assert!(matches!(l2.contents[0].node, LayoutVariant::Glyph(_)));
}

#[test]
fn accent_preserves_baseline() {
    let font = test_font();
    let config = LayoutSettings::new(&font, 2560, Style::Text);
    let acc = ParseNode::Accent(Accent {
        symbol: Symbol { codepoint: '^', atom_type: AtomType::Accent },
        nucleus: vec![alpha('a')],
    });
    let l = layout(&[acc], config).unwrap();
    assert_eq!(l.contents.len(), 1);
    match &l.contents[0].node {
        LayoutVariant::VerticalBox(vb) => {
            assert_eq!(vb.contents.len(), 3);
            assert_eq!(vb.offset, 0);
        },
        _ => panic!("expected an accent stack"),
    }
    // The nucleus keeps its baseline: the whole box has the nucleus's
    // depth.
    assert_eq!(l.contents[0].depth, 0);
}

#[test]
fn color_wraps_children() {
    let font = test_font();
    let config = LayoutSettings::new(&font, 2560, Style::Text);
    let clr = ParseNode::Color(Color {
        color: RGBA(0xff, 0, 0, 0xff),
        inner: vec![alpha('a')],
    });
    let l = layout(&[clr], config).unwrap();
    assert_eq!(l.contents.len(), 1);
    assert_eq!(l.contents[0].width, 1280);
    match &l.contents[0].node {
        LayoutVariant::Color(cc) => {
            assert_eq!(cc.color, RGBA(0xff, 0, 0, 0xff));
            assert_eq!(cc.inner.len(), 1);
        },
        _ => panic!("expected a color region"),
    }
}

#[test]
fn style_directive_changes_following_siblings() {
    let font = test_font();
    let config = LayoutSettings::new(&font, 2560, Style::Text);
    let l = layout(
        &[ParseNode::Style(Style::Script), alpha('a')],
        config,
    )
    .unwrap();
    assert_eq!(l.contents.len(), 1);
    assert_eq!(l.contents[0].width, 896);
}

#[test]
fn kerning_and_rule_literals() {
    let font = test_font();
    let config = LayoutSettings::new(&font, 2560, Style::Text);
    let l = layout(
        &[
            ParseNode::Kerning(AnyUnit::Em(1152)),
            ParseNode::Rule(Rule { width: AnyUnit::Px(512), height: AnyUnit::Px(256) }),
        ],
        config,
    )
    .unwrap();
    assert_eq!(l.contents.len(), 2);
    // One em at 2560 q/em.
    assert_eq!(l.contents[0].width, 2560);
    assert_eq!(l.contents[1].width, 512);
    assert_eq!(l.contents[1].height, 256);
    assert_eq!(l.contents[1].depth, 0);
    assert!(matches!(l.contents[1].node, LayoutVariant::Rule));
}

#[test]
fn missing_glyph_fails_the_layout() {
    let font = test_font();
    let config = LayoutSettings::new(&font, 2560, Style::Text);
    let r = layout(&[alpha('z')], config);
    assert_eq!(r.unwrap_err(), LayoutError::MissingGlyph(0x7A));
}

#[test]
fn nesting_past_the_budget_fails_fast() {
    let font = test_font();
    let config = LayoutSettings::new(&font, 2560, Style::Text);
    let mut node = alpha('a');
    for _ in 0..80 {
        node = ParseNode::Group(vec![node]);
    }
    let r = layout(core::slice::from_ref(&node), config);
    assert_eq!(r.unwrap_err(), LayoutError::TooDeep);
}

#[test]
fn group_embeds_inner_layout() {
    let font = test_font();
    let config = LayoutSettings::new(&font, 2560, Style::Text);
    let g = ParseNode::Group(vec![alpha('a'), alpha('a')]);
    let l = layout(&[g], config).unwrap();
    assert_eq!(l.contents.len(), 1);
    assert_eq!(l.contents[0].width, 2560);
    assert!(matches!(l.contents[0].node, LayoutVariant::HorizontalBox(_)));
}

#[test]
fn variant_selection_rules() {
    let font = test_font();
    // First fitting variant.
    assert_eq!(font.vert_variant(10, 570), VariantGlyph::Replacement(11));
    assert_eq!(font.vert_variant(10, 900), VariantGlyph::Replacement(12));
    // Past the largest variant with no assembly: the largest stays.
    assert_eq!(font.vert_variant(10, 5000), VariantGlyph::Replacement(12));
    // No table at all: the glyph itself.
    assert_eq!(font.vert_variant(3, 5000), VariantGlyph::Replacement(3));
    // An assembly is used when no variant is large enough.
    match font.vert_variant(20, 5000) {
        VariantGlyph::Constructable(_, parts) => assert_eq!(parts.len(), 2),
        _ => panic!("expected an assembly"),
    }
}

#[test]
fn vertical_assembly_fuses_parts_with_negative_kerns() {
    let font = test_font();
    let config = LayoutSettings::new(&font, 2560, Style::Text);
    let variant = font.vert_variant(20, 5000);
    let node = variant.as_layout(config).unwrap();
    match &node.node {
        LayoutVariant::VerticalBox(vb) => {
            // Two part glyphs with the overlap kern fused between them.
            assert_eq!(vb.contents.len(), 3);
            assert!(matches!(vb.contents[0].node, LayoutVariant::Glyph(_)));
            assert!(matches!(vb.contents[1].node, LayoutVariant::Kern));
            assert!(matches!(vb.contents[2].node, LayoutVariant::Glyph(_)));
            // 100 fu of overlap becomes a -256 q kern.
            assert_eq!(vb.contents[1].height, -256);
            // 400 fu + 400 fu - 100 fu of parts: 1792 q in all.
            assert_eq!(node.height, 1792);
        },
        _ => panic!("expected an assembled vertical box"),
    }
}

#[test]
fn horizontal_assembly_fuses_parts_with_negative_kerns() {
    let font = test_font();
    let config = LayoutSettings::new(&font, 2560, Style::Text);
    let variant = font.horz_variant(23, 5000);
    let node = variant.as_layout(config).unwrap();
    match &node.node {
        LayoutVariant::HorizontalBox(hb) => {
            assert_eq!(hb.contents.len(), 3);
            // 700 fu + 700 fu - 50 fu of parts: 3456 q in all.
            assert_eq!(node.width, 3456);
        },
        _ => panic!("expected an assembled horizontal box"),
    }
}

#[test]
fn corner_kern_lookup() {
    let font = test_font();
    // Base glyph 1 contributes its top-right step, the script none.
    assert_eq!(font.superscript_kern(1, 2, 100), 50);
    // Below the first step nothing applies.
    assert_eq!(font.superscript_kern(1, 2, -10), 0);
    assert_eq!(font.subscript_kern(1, 2, 100), 0);
}

#[test]
fn glyph_lookup_errors() {
    let font = test_font();
    assert!(font.glyph_metrics(0x61).is_ok());
    assert_eq!(
        font.glyph_metrics(0x7A).unwrap_err(),
        LayoutError::MissingGlyph(0x7A)
    );
    assert_eq!(
        font.glyph_from_gid(200).unwrap_err(),
        LayoutError::MissingGlyphId(200)
    );
}

#[test]
fn oversized_kern_literal_is_rejected() {
    let font = test_font();
    let config = LayoutSettings::new(&font, 2560, Style::Text);
    let r = layout(&[ParseNode::Kerning(AnyUnit::Em(i64::MAX))], config);
    assert_eq!(r.unwrap_err(), LayoutError::DimensionTooLarge);
}

#[test]
fn invalid_context_is_rejected() {
    let font = test_font();
    assert!(LayoutSettings::try_new(&font, 2560, Style::Text).is_ok());
    assert_eq!(
        LayoutSettings::try_new(&font, 1, Style::Text).unwrap_err(),
        LayoutError::InvalidContext
    );
    let mut bad = test_font();
    bad.constants.units_per_em = 1;
    assert_eq!(
        LayoutSettings::try_new(&bad, 2560, Style::Text).unwrap_err(),
        LayoutError::InvalidContext
    );
    assert!(font.is_well_formed());
}

#[test]
fn empty_input_gives_empty_layout() {
    let font = test_font();
    let config = LayoutSettings::new(&font, 2560, Style::Text);
    let l = layout(&[], config).unwrap();
    assert_eq!(l.contents.len(), 0);
    assert_eq!(l.width, 0);
    assert_eq!(l.height, 0);
    assert_eq!(l.depth, 0);
}

#[test]
fn fraction_without_bar_has_zero_thickness() {
    let font = test_font();
    let config = LayoutSettings::new(&font, 2560, Style::Text);
    let frac = ParseNode::GenFraction(GenFraction {
        numerator: vec![alpha('a')],
        denominator: vec![alpha('a')],
        bar_thickness: BarThickness::NoBar,
        left_delimiter: None,
        right_delimiter: None,
        style: MathStyle::NoChange,
    });
    let l = layout(&[frac], config).unwrap();
    match &l.contents[1].node {
        LayoutVariant::VerticalBox(vb) => {
            assert_eq!(vb.contents[2].height, 0);
        },
        _ => panic!("expected a fraction stack"),
    }
}

#[test]
fn unrecognized_node_kinds_are_skipped() {
    let font = test_font();
    let config = LayoutSettings::new(&font, 2560, Style::Text);
    let text = ParseNode::PlainText(rex::parser::nodes::PlainText {
        text: String::from("hello"),
    });
    let l = layout(&[text, alpha('a')], config).unwrap();
    // The unsupported node contributes nothing; the rest still lays out.
    assert_eq!(l.contents.len(), 1);
    assert_eq!(l.contents[0].width, 1280);
}

#[test]
fn scripts_without_marks_keep_the_base() {
    let font = test_font();
    let config = LayoutSettings::new(&font, 2560, Style::Text);
    let scripts = ParseNode::Scripts(Scripts {
        base: Some(Box::new(alpha('a'))),
        superscript: None,
        subscript: None,
    });
    let l = layout(&[scripts], config).unwrap();
    assert_eq!(l.contents.len(), 2);
    assert_eq!(l.contents[0].width, 1280);
    // The script stack is empty and adds no width.
    assert_eq!(l.contents[1].width, 0);
}

#[test]
fn superscript_only_is_raised() {
    let font = test_font();
    let config = LayoutSettings::new(&font, 2560, Style::Text);
    let scripts = ParseNode::Scripts(Scripts {
        base: Some(Box::new(alpha('a'))),
        superscript: Some(vec![alpha('x')]),
        subscript: None,
    });
    let l = layout(&[scripts], config).unwrap();
    assert_eq!(l.contents.len(), 2);
    // The script box rises above the base: its height exceeds the
    // superscript's own height.
    assert!(l.contents[1].height > 0);
    assert!(l.contents[1].height > l.contents[1].depth);
}

#[test]
fn unit_conversions_are_exact() {
    let font = test_font();
    let config = LayoutSettings::new(&font, 2560, Style::Text);
    // 500 font units at 2560 q/em over 1000 upem.
    assert_eq!(config.px_from_font(500), 1280);
    // And back again.
    assert_eq!(config.to_font(1280), 500);
    // A thin space: 192 em subunits of 1/1152 em.
    assert_eq!(AnyUnit::Em(192).scaled(config).unwrap(), 426);
    // Pixel literals pass through unscaled at full size.
    assert_eq!(AnyUnit::Px(512).scaled(config).unwrap(), 512);
    // In script style everything shrinks to 70 percent.
    let script = config.with_style(Style::Script);
    assert_eq!(script.px_from_font(500), 896);
    assert_eq!(AnyUnit::Px(512).scaled(script).unwrap(), 358);
    // Conversions truncate toward zero, symmetrically.
    assert_eq!(config.px_from_font(-500), -1280);
    assert_eq!(script.px_from_font(-500), -896);
}

#[test]
fn layout_centered_retargets_width() {
    let mut l = rex::layout::Layout::new();
    l.add_node(rex::layout::kern_horizontal(100)).unwrap();
    let c = l.centered(400);
    assert_eq!(c.width, 400);
    assert_eq!(c.alignment, Alignment::Centered(100));
}

#[test]
fn three_relations_get_two_thick_kerns() {
    let font = test_font();
    let config = LayoutSettings::new(&font, 2560, Style::Text);
    let l = layout(
        &[
            sym('=', AtomType::Relation),
            sym('=', AtomType::Relation),
            sym('=', AtomType::Relation),
        ],
        config,
    )
    .unwrap();
    // Glyph, thick kern, glyph, thick kern, glyph.
    assert_eq!(l.contents.len(), 5);
    assert_eq!(l.contents[1].width, 711);
    assert_eq!(l.contents[3].width, 711);
    assert!(matches!(l.contents[0].node, LayoutVariant::Glyph(_)));
    assert!(matches!(l.contents[2].node, LayoutVariant::Glyph(_)));
    assert!(matches!(l.contents[4].node, LayoutVariant::Glyph(_)));
}
