//! The eight math styles and their transition functions.
//!
//! Styles are totally ordered by level, Display > Text > Script >
//! ScriptScript; a cramped variant sits at the same level as its uncramped
//! counterpart.  The transitions are pure functions of the current style:
//! taking a superscript or subscript steps down the script chain, a
//! numerator or denominator steps down one level, and cramping forces the
//! cramped variant of the current level.

use vstd::prelude::*;

verus! {

/// One of the eight math styles.
#[derive(Debug, Clone, Copy, PartialEq, Eq, Structural)]
pub enum Style {
    /// Formula set on its own line.
    Display,
    /// Display with the extra superscript room suppressed.
    DisplayCramped,
    /// Formula set in running text.
    Text,
    /// Text with the extra superscript room suppressed.
    TextCramped,
    /// First-order scripts.
    Script,
    /// Cramped first-order scripts.
    ScriptCramped,
    /// Scripts of scripts, the smallest size.
    ScriptScript,
    /// Cramped scripts of scripts.
    ScriptScriptCramped,
}

impl Style {
    /// Position in the style order: Display is 3, Text 2, Script 1,
    /// ScriptScript 0.  A cramped variant shares the level of its
    /// uncramped counterpart.
    pub open spec fn level(self) -> int {
        match self {
            Style::Display | Style::DisplayCramped => 3,
            Style::Text | Style::TextCramped => 2,
            Style::Script | Style::ScriptCramped => 1,
            Style::ScriptScript | Style::ScriptScriptCramped => 0,
        }
    }

    /// Whether this is one of the cramped variants.
    pub open spec fn is_cramped_spec(self) -> bool {
        match self {
            Style::DisplayCramped
            | Style::TextCramped
            | Style::ScriptCramped
            | Style::ScriptScriptCramped => true,
            _ => false,
        }
    }

    /// The cramped variant at the given level.
    pub open spec fn cramped_of_level(level: int) -> Style {
        if level >= 3 {
            Style::DisplayCramped
        } else if level == 2 {
            Style::TextCramped
        } else if level == 1 {
            Style::ScriptCramped
        } else {
            Style::ScriptScriptCramped
        }
    }

    /// The style at the given level with the given crampedness.
    pub open spec fn of_level(level: int, cramped: bool) -> Style {
        if cramped {
            Style::cramped_of_level(level)
        } else if level >= 3 {
            Style::Display
        } else if level == 2 {
            Style::Text
        } else if level == 1 {
            Style::Script
        } else {
            Style::ScriptScript
        }
    }

    /// Whether this is one of the cramped variants.
    pub fn is_cramped(self) -> (r: bool)
        ensures
            r == self.is_cramped_spec(),
    {
        match self {
            Style::DisplayCramped
            | Style::TextCramped
            | Style::ScriptCramped
            | Style::ScriptScriptCramped => true,
            _ => false,
        }
    }

    /// Whether the style sits at the Display level (Display or
    /// DisplayCramped); large operators, fractions and radicals pick
    /// their display-size parameters exactly here.
    pub fn is_display_level(self) -> (r: bool)
        ensures
            r == (self.level() == 3),
    {
        match self {
            Style::Display | Style::DisplayCramped => true,
            _ => false,
        }
    }

    /// Whether the style sits at the Text level or above, where
    /// inter-atom spacing applies.
    pub fn level_at_least_text(self) -> (r: bool)
        ensures
            r == (self.level() >= 2),
    {
        match self {
            Style::Display | Style::DisplayCramped | Style::Text | Style::TextCramped => true,
            _ => false,
        }
    }

    /// The cramped variant of the current level.
    pub fn cramped(self) -> (r: Style)
        ensures
            r == Style::cramped_of_level(self.level()),
            r.level() == self.level(),
            r.is_cramped_spec(),
    {
        match self {
            Style::Display | Style::DisplayCramped => Style::DisplayCramped,
            Style::Text | Style::TextCramped => Style::TextCramped,
            Style::Script | Style::ScriptCramped => Style::ScriptCramped,
            Style::ScriptScript | Style::ScriptScriptCramped => Style::ScriptScriptCramped,
        }
    }

    /// The style used for a superscript: step down the script chain
    /// (Display/Text to Script, Script/ScriptScript to ScriptScript),
    /// keeping the crampedness.
    pub fn superscript_variant(self) -> (r: Style)
        ensures
            r == Style::of_level(if self.level() >= 2 { 1int } else { 0int }, self.is_cramped_spec()),
    {
        match self {
            Style::Display | Style::Text => Style::Script,
            Style::DisplayCramped | Style::TextCramped => Style::ScriptCramped,
            Style::Script | Style::ScriptScript => Style::ScriptScript,
            Style::ScriptCramped | Style::ScriptScriptCramped => Style::ScriptScriptCramped,
        }
    }

    /// The style used for a subscript: step down the script chain and
    /// force the cramped variant.
    pub fn subscript_variant(self) -> (r: Style)
        ensures
            r == Style::cramped_of_level(if self.level() >= 2 { 1int } else { 0int }),
            r.is_cramped_spec(),
    {
        match self {
            Style::Display | Style::Text | Style::DisplayCramped | Style::TextCramped => {
                Style::ScriptCramped
            },
            _ => Style::ScriptScriptCramped,
        }
    }

    /// The style used for a numerator: one level down, crampedness kept.
    pub fn numerator(self) -> (r: Style)
        ensures
            r == Style::of_level(
                if self.level() >= 1 { self.level() - 1 } else { 0int },
                self.is_cramped_spec(),
            ),
    {
        match self {
            Style::Display => Style::Text,
            Style::DisplayCramped => Style::TextCramped,
            Style::Text => Style::Script,
            Style::TextCramped => Style::ScriptCramped,
            Style::Script | Style::ScriptScript => Style::ScriptScript,
            Style::ScriptCramped | Style::ScriptScriptCramped => Style::ScriptScriptCramped,
        }
    }

    /// The style used for a denominator: one level down, cramped forced.
    pub fn denominator(self) -> (r: Style)
        ensures
            r == Style::cramped_of_level(if self.level() >= 1 { self.level() - 1 } else { 0int }),
            r.is_cramped_spec(),
    {
        match self {
            Style::Display | Style::DisplayCramped => Style::TextCramped,
            Style::Text | Style::TextCramped => Style::ScriptCramped,
            _ => Style::ScriptScriptCramped,
        }
    }

    /// The scale factor of the style, in percent.  Display and Text sizes
    /// are unscaled; the two script levels use the font's script and
    /// script-script percentages.
    pub fn scale_percent(self, script_percent: u16, script_script_percent: u16) -> (r: u16)
        ensures
            r == self.scale_percent_spec(script_percent as int, script_script_percent as int),
    {
        match self {
            Style::Display | Style::DisplayCramped | Style::Text | Style::TextCramped => 100,
            Style::Script | Style::ScriptCramped => script_percent,
            Style::ScriptScript | Style::ScriptScriptCramped => script_script_percent,
        }
    }

    /// Scale factor in percent, at the specification level.
    pub open spec fn scale_percent_spec(self, script_percent: int, script_script_percent: int) -> int {
        if self.level() >= 2 {
            100
        } else if self.level() == 1 {
            script_percent
        } else {
            script_script_percent
        }
    }
}

/// Cramping is idempotent: cramping an already cramped style changes
/// nothing, so `cramped(cramped(s)) == cramped(s)` for every style.
pub proof fn lemma_cramped_idempotent(s: Style)
    ensures
        Style::cramped_of_level(Style::cramped_of_level(s.level()).level())
            == Style::cramped_of_level(s.level()),
{
}

/// The scale factor is 100 percent at the Display and Text levels,
/// cramped or not, and strictly decreases from Display to Script to
/// ScriptScript whenever the font's two script percentages do.
pub proof fn lemma_scale_percent_ordering(
    s: Style,
    script_percent: int,
    script_script_percent: int,
)
    requires
        0 < script_script_percent < script_percent < 100,
    ensures
        s.level() >= 2 ==> s.scale_percent_spec(script_percent, script_script_percent) == 100,
        Style::Display.scale_percent_spec(script_percent, script_script_percent)
            > Style::Script.scale_percent_spec(script_percent, script_script_percent)
            > Style::ScriptScript.scale_percent_spec(script_percent, script_script_percent),
{
}

} // verus!
