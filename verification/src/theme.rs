//! The theme preference and its persistence: a site-wide cookie written by
//! the theme-change mutation and read back by the theme query. There is no
//! remote call; the cookie is the authoritative store.

use vstd::prelude::*;

verus! {

/// The selectable color themes.
#[derive(Clone, Copy, Debug, PartialEq, Eq, Structural)]
pub enum Theme {
    Dark,
    Light,
    Retro,
}

impl Default for Theme {
    /// The theme assumed while no cookie is set.
    fn default() -> (t: Theme)
        ensures
            t == Theme::Light,
    {
        Theme::Light
    }
}

impl Theme {
    /// The cookie value this theme is persisted as.
    pub fn as_str(&self) -> (r: &'static str)
        ensures
            r@ == self.spec_str(),
    {
        match self {
            Theme::Dark => "dark",
            Theme::Light => "light",
            Theme::Retro => "retro",
        }
    }

    pub open spec fn spec_str(self) -> Seq<char> {
        match self {
            Theme::Dark => "dark"@,
            Theme::Light => "light"@,
            Theme::Retro => "retro"@,
        }
    }

    /// The themes in the order the theme menu offers them.
    pub fn all() -> (r: Vec<Theme>)
        ensures
            r@ == seq![Theme::Dark, Theme::Light, Theme::Retro],
    {
        let mut v: Vec<Theme> = Vec::new();
        v.push(Theme::Dark);
        v.push(Theme::Light);
        v.push(Theme::Retro);
        assert(v@ =~= seq![Theme::Dark, Theme::Light, Theme::Retro]);
        v
    }
}

/// The attributes of the persisted theme cookie, ready for the HTTP layer
/// to serialize into a `Set-Cookie` header.
pub struct ThemeCookie {
    /// Always the cookie named `theme`.
    pub name: String,
    /// The selected theme.
    pub value: Theme,
    /// Always the whole site: `/`.
    pub path: String,
    /// Set outside local development builds.
    pub secure: bool,
    /// Always `SameSite=Strict`.
    pub same_site_strict: bool,
}

/// The theme-change mutation's local side effect: the cookie that records
/// `theme` for the whole site, strict same-site, secure outside local
/// development. It touches neither the session nor the remote API.
pub fn change_theme(theme: Theme, dev_build: bool) -> (c: ThemeCookie)
    ensures
        c.name@ == "theme"@,
        c.value == theme,
        c.path@ == "/"@,
        c.secure == !dev_build,
        c.same_site_strict,
{
    ThemeCookie {
        name: String::from_str("theme"),
        value: theme,
        path: String::from_str("/"),
        secure: !dev_build,
        same_site_strict: true,
    }
}

/// Persist a freshly built theme cookie into the browser's cookie store,
/// replacing whatever theme was recorded before.
pub fn store_cookie(jar: &mut Option<Theme>, c: &ThemeCookie)
    ensures
        *final(jar) == Some(c.value),
{
    *jar = Some(c.value);
}

/// What the theme query computes: the recorded cookie value, or the default
/// theme while no cookie is set.
pub fn read_theme(jar: &Option<Theme>) -> (t: Theme)
    ensures
        t == spec_read_theme(*jar),
{
    match jar {
        Some(t) => *t,
        None => Theme::Light,
    }
}

pub open spec fn spec_read_theme(jar: Option<Theme>) -> Theme {
    match jar {
        Some(t) => t,
        None => Theme::Light,
    }
}

} // verus!
