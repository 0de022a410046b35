use ftui::locale::{normalize_locale, normalize_locale_raw, LocaleContext};
use ftui::terminal_session::{SessionOptions, SessionStep, TerminalSession};

#[test]
fn session_options_default_is_minimal() {
    let opts = SessionOptions::default();
    assert!(!opts.alternate_screen);
    assert!(!opts.mouse_capture);
    assert!(!opts.bracketed_paste);
    assert!(!opts.focus_events);
}

#[test]
fn locale_context_switching_updates_version() {
    let mut ctx = LocaleContext::new("en");
    let v0 = ctx.version();
    ctx.set_locale("en");
    assert_eq!(ctx.version(), v0);
    ctx.set_locale("es");
    assert!(ctx.version() > v0);
    assert_eq!(ctx.current_locale(), "es");
}

#[test]
fn locale_override_is_scoped() {
    let mut ctx = LocaleContext::new("en");
    assert_eq!(ctx.current_locale(), "en");
    ctx.push_override("fr");
    assert_eq!(ctx.current_locale(), "fr");
    assert_eq!(ctx.pop_override(), Some("fr".to_string()));
    assert_eq!(ctx.current_locale(), "en");
}

#[test]
fn locale_normal_form() {
    assert_eq!(normalize_locale_raw("fr_FR.UTF-8"), Some("fr-FR".to_string()));
    assert_eq!(normalize_locale_raw("de_DE.UTF-8@euro"), Some("de-DE".to_string()));
    assert_eq!(normalize_locale_raw("  en_US  "), Some("en-US".to_string()));
    assert_eq!(normalize_locale_raw("sr_RS@latin"), Some("sr-RS".to_string()));
    assert_eq!(normalize_locale_raw("C"), Some("en".to_string()));
    assert_eq!(normalize_locale_raw("POSIX"), Some("en".to_string()));
    assert_eq!(normalize_locale_raw("posix.UTF-8"), Some("en".to_string()));
    assert_eq!(normalize_locale_raw("c "), Some("en".to_string()));
    assert_eq!(normalize_locale_raw("pt_BR .UTF-8"), Some("pt-BR".to_string()));
    assert_eq!(normalize_locale_raw(""), None);
    assert_eq!(normalize_locale_raw("   "), None);
    assert_eq!(normalize_locale_raw(".UTF-8"), None);
    assert_eq!(normalize_locale_raw("@x"), None);
    assert_eq!(normalize_locale_raw(" \t.x"), None);
    assert_eq!(normalize_locale(""), "en");
    assert_eq!(normalize_locale("ja_JP"), "ja-JP");
}

#[test]
fn nested_overrides_and_base() {
    let mut ctx = LocaleContext::new("de_DE.UTF-8");
    assert_eq!(ctx.base_locale(), "de-DE");
    assert_eq!(ctx.version(), 0);
    ctx.push_override("fr");
    ctx.push_override("it_IT");
    assert_eq!(ctx.current_locale(), "it-IT");
    ctx.set_locale("C");
    assert_eq!(ctx.base_locale(), "en");
    assert_eq!(ctx.version(), 1);
    assert_eq!(ctx.current_locale(), "it-IT");
    assert_eq!(ctx.pop_override(), Some("it-IT".to_string()));
    assert_eq!(ctx.current_locale(), "fr");
    assert_eq!(ctx.pop_override(), Some("fr".to_string()));
    assert_eq!(ctx.pop_override(), None);
    assert_eq!(ctx.current_locale(), "en");
}

#[test]
fn session_steps_in_order() {
    let mut session = TerminalSession::with_options(SessionOptions {
        alternate_screen: true,
        mouse_capture: true,
        bracketed_paste: false,
        focus_events: true,
    });
    assert!(session.options().alternate_screen);
    let steps = session.startup_steps();
    assert_eq!(
        steps,
        vec![
            SessionStep::EnableRawMode,
            SessionStep::EnterAlternateScreen,
            SessionStep::EnableMouseCapture,
            SessionStep::EnableFocusChange,
        ]
    );
    session.record(steps[0]);
    session.record(steps[1]);
    session.record(steps[2]);
    assert_eq!(
        session.cleanup(),
        vec![
            SessionStep::DisableMouseCapture,
            SessionStep::ShowCursor,
            SessionStep::LeaveAlternateScreen,
            SessionStep::DisableRawMode,
            SessionStep::Flush,
        ]
    );
    assert_eq!(
        session.cleanup(),
        vec![SessionStep::ShowCursor, SessionStep::DisableRawMode, SessionStep::Flush]
    );
    let mut minimal = TerminalSession::minimal();
    assert_eq!(minimal.startup_steps(), vec![SessionStep::EnableRawMode]);
    for step in [
        SessionStep::EnableFocusChange,
        SessionStep::EnableBracketedPaste,
        SessionStep::EnableMouseCapture,
        SessionStep::EnterAlternateScreen,
    ] {
        minimal.record(step);
    }
    assert_eq!(
        minimal.cleanup(),
        vec![
            SessionStep::DisableFocusChange,
            SessionStep::DisableBracketedPaste,
            SessionStep::DisableMouseCapture,
            SessionStep::ShowCursor,
            SessionStep::LeaveAlternateScreen,
            SessionStep::DisableRawMode,
            SessionStep::Flush,
        ]
    );
}
