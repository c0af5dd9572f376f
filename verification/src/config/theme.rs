//! From the colours named in a configuration to the theme that is drawn.

use vstd::prelude::*;
use crate::config::env::{apply_theme_spec, theme_spec_applied};
use crate::config::schema::{ThemeConfig, ThemeConfigView};
use crate::text::{join, joined, list_text, opt_text};

verus! {

/// The colours of the interface, component by component, by name. A
/// component without a colour is drawn in the terminal's own.
#[derive(Debug, Clone)]
pub struct Theme {
    pub colors: ThemeConfig,
}

impl View for Theme {
    type V = ThemeConfigView;

    open spec fn view(&self) -> ThemeConfigView {
        self.colors@
    }
}

impl Default for Theme {
    fn default() -> (r: Self)
        ensures
            r@ == ThemeConfigView::defaults(),
    {
        Theme { colors: ThemeConfig::default() }
    }
}

impl Theme {
    /// Read a theme from a specification such as `border=red;text=blue`:
    /// directives between `;`, each a component, `=` and a colour. What
    /// names no component is passed over, and of two directives for one
    /// component the later counts.
    pub fn parse(spec: &str) -> (theme: Theme)
        ensures
            theme@ == theme_spec_applied(ThemeConfigView::defaults(), spec@),
    {
        let mut colors = ThemeConfig::default();
        let _ = apply_theme_spec(&mut colors, spec);
        Theme { colors }
    }
}

/// No directive, or the one that gives `component` its colour.
pub open spec fn directive_for(component: Seq<char>, color: Option<Seq<char>>) -> Seq<Seq<char>> {
    match color {
        Some(c) => seq![component + seq!['='] + c],
        None => Seq::empty(),
    }
}

/// The directives that spell out a theme configuration, in the order in
/// which the components are listed.
pub open spec fn directives_of(c: ThemeConfigView) -> Seq<Seq<char>> {
    Seq::<Seq<char>>::empty() + directive_for("border"@, c.border) + directive_for(
        "text"@,
        c.text,
    ) + directive_for("time"@, c.time) + directive_for("container"@, c.container)
        + directive_for("title"@, c.title) + directive_for("greet"@, c.greet) + directive_for(
        "prompt"@,
        c.prompt,
    ) + directive_for("input"@, c.input) + directive_for("action"@, c.action) + directive_for(
        "button"@,
        c.button,
    )
}

/// The theme that a theme configuration stands for: the defaults if it
/// names no colour, else what its directives, joined by `;`, are read as.
pub open spec fn theme_of(c: ThemeConfigView) -> ThemeConfigView {
    if directives_of(c).len() == 0 {
        ThemeConfigView::defaults()
    } else {
        theme_spec_applied(ThemeConfigView::defaults(), joined(directives_of(c), ";"@))
    }
}

fn push_directive(parts: &mut Vec<String>, component: &str, color: &Option<String>)
    ensures
        list_text(final(parts)@) == list_text(old(parts)@) + directive_for(
            component@,
            opt_text(*color),
        ),
{
    match color {
        Some(c) => {
            proof {
                reveal_strlit("=");
            }
            let mut directive = String::from_str(component);
            directive.append("=");
            directive.append(c.as_str());
            assert("="@ =~= seq!['=']);
            assert(directive@ =~= component@ + seq!['='] + c@);
            parts.push(directive);
            assert(list_text(parts@) =~= list_text(old(parts)@) + seq![
                component@ + seq!['='] + c@,
            ]);
        },
        None => {
            assert(list_text(parts@) =~= list_text(old(parts)@) + Seq::<Seq<char>>::empty());
        },
    }
}

/// Parse theme from configuration.
pub fn theme_from_config(theme_config: &ThemeConfig) -> (theme: Theme)
    ensures
        theme@ == theme_of(theme_config@),
{
    // Build theme spec string from config
    let mut spec_parts: Vec<String> = Vec::new();
    assert(list_text(spec_parts@) =~= Seq::<Seq<char>>::empty());
    push_directive(&mut spec_parts, "border", &theme_config.border);
    push_directive(&mut spec_parts, "text", &theme_config.text);
    push_directive(&mut spec_parts, "time", &theme_config.time);
    push_directive(&mut spec_parts, "container", &theme_config.container);
    push_directive(&mut spec_parts, "title", &theme_config.title);
    push_directive(&mut spec_parts, "greet", &theme_config.greet);
    push_directive(&mut spec_parts, "prompt", &theme_config.prompt);
    push_directive(&mut spec_parts, "input", &theme_config.input);
    push_directive(&mut spec_parts, "action", &theme_config.action);
    push_directive(&mut spec_parts, "button", &theme_config.button);

    if spec_parts.len() > 0 {
        let spec = join(&spec_parts, ";");
        Theme::parse(spec.as_str())
    } else {
        Theme::default()
    }
}

/// Apply CLI theme string over config theme: where one is given, it
/// replaces the configured theme as a whole.
pub fn apply_cli_theme(base_theme: Theme, cli_theme_spec: Option<&str>) -> (theme: Theme)
    ensures
        theme@ == match cli_theme_spec {
            Some(spec) => theme_spec_applied(ThemeConfigView::defaults(), spec@),
            None => base_theme@,
        },
{
    match cli_theme_spec {
        Some(spec) => Theme::parse(spec),
        None => base_theme,
    }
}

} // verus!
