use lemmy_ui_core::app::App;
use lemmy_ui_core::mutation::{LoginEvent, LogoutEvent, MutationStatus};
use lemmy_ui_core::resource::Phase;
use lemmy_ui_core::signals::{nav_account_view, user_is_logged_in, NavAccount};
use lemmy_ui_core::site::{SiteState, UserSummary};
use lemmy_ui_core::theme::Theme;

/// What a fetch against the remote API answers: the viewer is resolved from
/// the session the request ran under. The model grants `<name>-token` at
/// login, so the token names its account.
fn serve_site(session: &Option<String>) -> SiteState {
    let viewer = session.as_ref().map(|token| UserSummary {
        username: token.trim_end_matches("-token").to_string(),
        display_name: None,
    });
    SiteState {
        site_name: String::from("voyager"),
        backend_version: String::from("0.19.3"),
        viewer,
    }
}

#[test]
fn unauthenticated_page_load_shows_login_and_signup() {
    let mut app = App::new(false);
    // Page load: the site entry issues its first fetch.
    let id = app.site.refetch();
    assert!(!user_is_logged_in(&app.site));
    let snapshot = serve_site(&app.session);
    assert!(app.site_fetch_done(id, Ok(snapshot)));
    // The snapshot resolved with no viewer: login/signup links, no user menu.
    assert!(!user_is_logged_in(&app.site));
    assert!(matches!(nav_account_view(&app.site), NavAccount::LoginSignup));
}

#[test]
fn successful_login_renders_the_user_menu() {
    let mut app = App::new(false);
    let id = app.site.refetch();
    let snapshot = serve_site(&app.session);
    app.site_fetch_done(id, Ok(snapshot));

    // alice submits correct credentials; the remote API grants a token.
    let fetch = app
        .submit_login(LoginEvent::Granted { jwt: Some(String::from("alice-token")) })
        .expect("a settled login refetches the site state");
    assert_eq!(app.login_action.status, MutationStatus::Success);
    assert_eq!(app.login_action.version, 1);
    assert_eq!(app.session.as_deref(), Some("alice-token"));

    // The invalidation refetch resolves against the new session.
    let snapshot = serve_site(&app.session);
    assert!(app.site_fetch_done(fetch, Ok(snapshot)));
    match nav_account_view(&app.site) {
        NavAccount::UserMenu(label) => assert_eq!(label, "alice"),
        NavAccount::LoginSignup => panic!("alice is logged in"),
    }
}

#[test]
fn failed_login_changes_nothing_but_the_version() {
    let mut app = App::new(false);
    let id = app.site.refetch();
    let snapshot = serve_site(&app.session);
    app.site_fetch_done(id, Ok(snapshot));

    let fetch = app.submit_login(LoginEvent::Rejected).expect("failures invalidate too");
    assert_eq!(app.login_action.status, MutationStatus::Failure);
    assert_eq!(app.login_action.version, 1);
    assert!(app.session.is_none());

    let snapshot = serve_site(&app.session);
    assert!(app.site_fetch_done(fetch, Ok(snapshot)));
    assert!(matches!(nav_account_view(&app.site), NavAccount::LoginSignup));
}

#[test]
fn logout_purges_the_session_and_reverts_the_nav() {
    let mut app = App::new(false);
    let fetch = app
        .submit_login(LoginEvent::Granted { jwt: Some(String::from("alice-token")) })
        .unwrap();
    let snapshot = serve_site(&app.session);
    app.site_fetch_done(fetch, Ok(snapshot));
    assert!(user_is_logged_in(&app.site));

    // alice logs out; the remote call completes and the session is purged.
    let fetch = app.submit_logout(LogoutEvent::RemoteOk).expect("logout refetches the site state");
    assert!(app.session.is_none());
    assert_eq!(app.logout_action.status, MutationStatus::Success);

    let snapshot = serve_site(&app.session);
    assert!(app.site_fetch_done(fetch, Ok(snapshot)));
    assert!(!user_is_logged_in(&app.site));
    assert!(matches!(nav_account_view(&app.site), NavAccount::LoginSignup));
}

#[test]
fn theme_cookie_is_written_before_the_refetch_completes() {
    let mut app = App::new(false);
    let fetch = app.submit_change_theme(Theme::Dark).expect("theme changes invalidate the theme");
    // The cookie already reads Dark while the cache entry is still loading.
    assert_eq!(app.theme_cookie, Some(Theme::Dark));
    assert_eq!(app.serve_theme(), Theme::Dark);
    assert_eq!(app.theme.phase, Phase::Loading);
    // The refetch answers from the cookie and converges.
    let served = app.serve_theme();
    assert!(app.theme_fetch_done(fetch, Ok(served)));
    assert_eq!(app.theme.phase, Phase::Ready);
    assert_eq!(app.theme.ready_value(), Some(&Theme::Dark));
}

#[test]
fn rapid_theme_changes_commit_the_last_issued_choice() {
    let mut app = App::new(false);
    let dark_fetch = app.submit_change_theme(Theme::Dark).unwrap();
    let dark_answer = app.serve_theme();
    let light_fetch = app.submit_change_theme(Theme::Light).unwrap();
    let light_answer = app.serve_theme();

    // Light's response arrives first and commits; Dark's arrives after and
    // is discarded: the committed preference is Light, never Dark.
    assert!(app.theme_fetch_done(light_fetch, Ok(light_answer)));
    assert_eq!(app.theme.ready_value(), Some(&Theme::Light));
    assert!(!app.theme_fetch_done(dark_fetch, Ok(dark_answer)));
    assert_eq!(app.theme.ready_value(), Some(&Theme::Light));
    assert_eq!(app.theme_cookie, Some(Theme::Light));
}

#[test]
fn rapid_theme_changes_in_arrival_order_still_commit_the_second() {
    let mut app = App::new(false);
    let dark_fetch = app.submit_change_theme(Theme::Dark).unwrap();
    let dark_answer = app.serve_theme();
    let light_fetch = app.submit_change_theme(Theme::Light).unwrap();
    let light_answer = app.serve_theme();

    // Responses arrive in issuance order: Dark's is already superseded.
    assert!(!app.theme_fetch_done(dark_fetch, Ok(dark_answer)));
    assert_eq!(app.theme.phase, Phase::Loading);
    assert!(app.theme_fetch_done(light_fetch, Ok(light_answer)));
    assert_eq!(app.theme.ready_value(), Some(&Theme::Light));
}

#[test]
fn each_mutation_invalidates_only_its_own_entry() {
    let mut app = App::new(false);
    let site_before = app.site.issued;
    let theme_before = app.theme.issued;
    app.submit_change_theme(Theme::Retro).unwrap();
    // The theme rule refetches the theme entry, not the site entry, and a
    // theme change never touches the session.
    assert_eq!(app.site.issued, site_before);
    assert_eq!(app.theme.issued, theme_before + 1);
    assert!(app.session.is_none());
    app.submit_login(LoginEvent::Granted { jwt: None }).unwrap();
    assert_eq!(app.site.issued, site_before + 1);
    assert_eq!(app.theme.issued, theme_before + 1);
}
