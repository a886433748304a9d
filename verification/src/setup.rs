//! The lines that a shell has to run at start-up so that it follows the active
//! theme: it sources the theme's per-shell script once, and again whenever the
//! configured signal arrives.

use vstd::prelude::*;
use crate::context::SkinnerApp;
use crate::error::SkinnerError;

verus! {

/// What the lines for bash and zsh hold before the name of the signal.
pub const BASH_HEAD: &'static str = r#"# --- Added by skinner ---
_skinner_activate_theme() {
  if [[ -f "$HOME/.config/skinner/current_theme" ]]; then
    theme=$(cat ~/.config/skinner/current_theme)
    if [ "$theme" != "off" ]; then
        if [[ -f "$HOME/.config/skinner/themes/off/off-per-shell.sh" ]]; then
            source "$HOME/.config/skinner/themes/off/off-per-shell.sh"
        fi
    fi
    if [[ -f "$HOME/.config/skinner/themes/$theme/$theme-per-shell.sh" ]]; then
      source "$HOME/.config/skinner/themes/$theme/$theme-per-shell.sh"
    fi
  fi
}
_skinner_activate_theme
trap _skinner_activate_theme "#;

/// What the lines for bash and zsh hold after the name of the signal.
pub const BASH_TAIL: &'static str = r#"
# --- End skinner ---"#;

/// What the lines for fish hold before the name of the signal.
pub const FISH_HEAD: &'static str = r#"# --- Added by skinner ---
function _skinner_activate_theme --on-signal "#;

/// What the lines for fish hold after the name of the signal.
pub const FISH_TAIL: &'static str = r#"
  if test -f "$HOME/.config/skinner/current_theme"
    set theme (cat ~/.config/skinner/current_theme)
    if test "$theme" != "off"
        if test -f "$HOME/.config/skinner/themes/off/off-per-shell.sh"
            source "$HOME/.config/skinner/themes/off/off-per-shell.sh"
        end
    end
    if test -f "$HOME/.config/skinner/themes/$theme/$theme-per-shell.sh"
      source "$HOME/.config/skinner/themes/$theme/$theme-per-shell.sh"
    end
  end
end
_skinner_activate_theme
# --- End skinner ---"#;

/// The lines for bash and zsh, with the trap set on `signal`.
pub open spec fn bash_setup(signal: Seq<char>) -> Seq<char> {
    BASH_HEAD@ + signal + BASH_TAIL@
}

/// The lines for fish, with the function bound to `signal`.
pub open spec fn fish_setup(signal: Seq<char>) -> Seq<char> {
    FISH_HEAD@ + signal + FISH_TAIL@
}

impl SkinnerApp {
    /// The lines to add to the start-up file of bash or zsh. They define a
    /// function that sources the per-shell script of the `off` theme, unless
    /// the active theme is `off`, and then that of the active theme; they run
    /// it once and trap `signal` to run it again.
    pub fn setup_bash(&self, signal: String) -> (lines: Result<String, SkinnerError>)
        ensures
            lines is Ok,
            lines->Ok_0@ == bash_setup(signal@),
    {
        let mut text = BASH_HEAD.to_owned();
        text.append(signal.as_str());
        text.append(BASH_TAIL);
        Ok(text)
    }

    /// The lines to add to the start-up file of fish: the same function as for
    /// bash, bound to `signal` by fish's own means, and run once.
    pub fn setup_fish(&self, signal: String) -> (lines: Result<String, SkinnerError>)
        ensures
            lines is Ok,
            lines->Ok_0@ == fish_setup(signal@),
    {
        let mut text = FISH_HEAD.to_owned();
        text.append(signal.as_str());
        text.append(FISH_TAIL);
        Ok(text)
    }
}

} // verus!
