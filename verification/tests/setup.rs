use skinner::context::SkinnerApp;
use skinner::setup::{BASH_HEAD, BASH_TAIL, FISH_HEAD, FISH_TAIL};

fn app() -> SkinnerApp {
    SkinnerApp::new(Some("/home/u".to_string())).unwrap()
}

#[test]
fn bash_setup_traps_the_signal() {
    let text = app().setup_bash("URG".to_string()).unwrap();
    assert!(text.starts_with("# --- Added by skinner ---\n_skinner_activate_theme() {\n"));
    assert!(text.ends_with("}\n_skinner_activate_theme\ntrap _skinner_activate_theme URG\n# --- End skinner ---"));
    assert_eq!(text, format!("{}URG{}", BASH_HEAD, BASH_TAIL));
}

#[test]
fn bash_setup_is_the_known_text() {
    let expected = "# --- Added by skinner ---
_skinner_activate_theme() {
  if [[ -f \"$HOME/.config/skinner/current_theme\" ]]; then
    theme=$(cat ~/.config/skinner/current_theme)
    if [ \"$theme\" != \"off\" ]; then
        if [[ -f \"$HOME/.config/skinner/themes/off/off-per-shell.sh\" ]]; then
            source \"$HOME/.config/skinner/themes/off/off-per-shell.sh\"
        fi
    fi
    if [[ -f \"$HOME/.config/skinner/themes/$theme/$theme-per-shell.sh\" ]]; then
      source \"$HOME/.config/skinner/themes/$theme/$theme-per-shell.sh\"
    fi
  fi
}
_skinner_activate_theme
trap _skinner_activate_theme USR1
# --- End skinner ---";
    assert_eq!(app().setup_bash("USR1".to_string()).unwrap(), expected);
}

#[test]
fn fish_setup_binds_the_signal() {
    let text = app().setup_fish("URG".to_string()).unwrap();
    assert!(text.starts_with(
        "# --- Added by skinner ---\nfunction _skinner_activate_theme --on-signal URG\n  if test -f"
    ));
    assert!(text.ends_with("  end\nend\n_skinner_activate_theme\n# --- End skinner ---"));
    assert_eq!(text, format!("{}URG{}", FISH_HEAD, FISH_TAIL));
}

#[test]
fn fish_setup_is_the_known_text() {
    let expected = "# --- Added by skinner ---
function _skinner_activate_theme --on-signal USR2
  if test -f \"$HOME/.config/skinner/current_theme\"
    set theme (cat ~/.config/skinner/current_theme)
    if test \"$theme\" != \"off\"
        if test -f \"$HOME/.config/skinner/themes/off/off-per-shell.sh\"
            source \"$HOME/.config/skinner/themes/off/off-per-shell.sh\"
        end
    end
    if test -f \"$HOME/.config/skinner/themes/$theme/$theme-per-shell.sh\"
      source \"$HOME/.config/skinner/themes/$theme/$theme-per-shell.sh\"
    end
  end
end
_skinner_activate_theme
# --- End skinner ---";
    assert_eq!(app().setup_fish("USR2".to_string()).unwrap(), expected);
}
