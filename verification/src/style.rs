//! Role assignment: which style tag a column's value cell carries.
//!
//! Styles are data.  The layout attaches a tag to every cell and leaves the
//! conversion of tags into terminal escape codes to the rendering step.

use vstd::prelude::*;

verus! {

/// The style tag of a cell.
#[derive(Clone, Copy, Debug, PartialEq, Eq, Structural)]
pub enum Style {
    /// Every header cell, whatever role its column has.
    Header,
    /// The value of the column named by the `primary` role.
    Primary,
    /// The value of the column named by the `highlight` role.
    Highlight,
    /// The value of the column named by the `yellow` role.
    RoleYellow,
    /// The value of the column named by the `green` role.
    RoleGreen,
    /// The value of the column named by the `magenta` role.
    RoleMagenta,
    /// The value of the column named by the `red` role.
    RoleRed,
    /// The value of a column that no role names.
    Default,
}

/// The column keys that the roles are bound to.
pub struct Roles {
    pub primary: String,
    pub highlight: String,
    pub yellow: Option<String>,
    pub green: Option<String>,
    pub magenta: Option<String>,
    pub red: Option<String>,
}

/// The mathematical model of [`Roles`].
pub struct RolesView {
    pub primary: Seq<char>,
    pub highlight: Seq<char>,
    pub yellow: Option<Seq<char>>,
    pub green: Option<Seq<char>>,
    pub magenta: Option<Seq<char>>,
    pub red: Option<Seq<char>>,
}

/// The model of an optional key.
pub open spec fn optional_key(key: Option<String>) -> Option<Seq<char>> {
    match key {
        Some(k) => Some(k@),
        None => None,
    }
}

impl View for Roles {
    type V = RolesView;

    open spec fn view(&self) -> RolesView {
        RolesView {
            primary: self.primary@,
            highlight: self.highlight@,
            yellow: optional_key(self.yellow),
            green: optional_key(self.green),
            magenta: optional_key(self.magenta),
            red: optional_key(self.red),
        }
    }
}

/// The style of the value cell of the column `key`: the first role, in the
/// order primary, highlight, yellow, green, magenta, red, that names `key`,
/// and `Default` when none does.
pub open spec fn role_style(key: Seq<char>, roles: RolesView) -> Style {
    if key == roles.primary {
        Style::Primary
    } else if key == roles.highlight {
        Style::Highlight
    } else if roles.yellow == Some(key) {
        Style::RoleYellow
    } else if roles.green == Some(key) {
        Style::RoleGreen
    } else if roles.magenta == Some(key) {
        Style::RoleMagenta
    } else if roles.red == Some(key) {
        Style::RoleRed
    } else {
        Style::Default
    }
}

/// Whether the optional role `role` names `key`.
fn names(role: &Option<String>, key: &String) -> (b: bool)
    ensures
        b == (optional_key(*role) == Some(key@)),
{
    match role {
        Some(k) => *k == *key,
        None => false,
    }
}

impl Roles {
    /// The roles of a fresh configuration: `id` is primary, `name` is
    /// highlighted, and no colour role is bound.
    pub fn standard() -> (roles: Roles)
        ensures
            roles@ == (RolesView {
                primary: "id"@,
                highlight: "name"@,
                yellow: None,
                green: None,
                magenta: None,
                red: None,
            }),
    {
        Roles {
            primary: String::from_str("id"),
            highlight: String::from_str("name"),
            yellow: None,
            green: None,
            magenta: None,
            red: None,
        }
    }

    /// The style tag for the value cell of the column `key`.
    pub fn style_for(&self, key: &String) -> (style: Style)
        ensures
            style == role_style(key@, self@),
    {
        if *key == self.primary {
            Style::Primary
        } else if *key == self.highlight {
            Style::Highlight
        } else if names(&self.yellow, key) {
            Style::RoleYellow
        } else if names(&self.green, key) {
            Style::RoleGreen
        } else if names(&self.magenta, key) {
            Style::RoleMagenta
        } else if names(&self.red, key) {
            Style::RoleRed
        } else {
            Style::Default
        }
    }
}

/// A key that the primary role names is styled `Primary`, whatever other
/// roles name the same key.
pub proof fn lemma_primary_outranks_all(key: Seq<char>, roles: RolesView)
    requires
        key == roles.primary,
    ensures
        role_style(key, roles) == Style::Primary,
{
}

/// Exactly one style is chosen, and each role's style is chosen exactly
/// when that role names the key and no role of higher priority does.
pub proof fn lemma_first_role_wins(key: Seq<char>, roles: RolesView)
    ensures
        role_style(key, roles) != Style::Header,
        role_style(key, roles) == Style::Primary <==> key == roles.primary,
        role_style(key, roles) == Style::Highlight <==> key != roles.primary && key
            == roles.highlight,
        role_style(key, roles) == Style::RoleYellow <==> key != roles.primary && key
            != roles.highlight && roles.yellow == Some(key),
        role_style(key, roles) == Style::RoleGreen <==> key != roles.primary && key
            != roles.highlight && roles.yellow != Some(key) && roles.green == Some(key),
        role_style(key, roles) == Style::RoleMagenta <==> key != roles.primary && key
            != roles.highlight && roles.yellow != Some(key) && roles.green != Some(key)
            && roles.magenta == Some(key),
        role_style(key, roles) == Style::RoleRed <==> key != roles.primary && key
            != roles.highlight && roles.yellow != Some(key) && roles.green != Some(key)
            && roles.magenta != Some(key) && roles.red == Some(key),
        role_style(key, roles) == Style::Default <==> key != roles.primary && key
            != roles.highlight && roles.yellow != Some(key) && roles.green != Some(key)
            && roles.magenta != Some(key) && roles.red != Some(key),
{
}

} // verus!
