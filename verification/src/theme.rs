use vstd::prelude::*;

verus! {

/// The two colour schemes the user interface offers.
#[derive(Clone, Copy, PartialEq, Eq, Structural, Debug)]
pub enum Theme {
    Dark,
    Light,
}

/// The palette of a colour scheme, one CSS colour string per role.
#[derive(Debug)]
pub struct ThemeStyle {
    pub primary: String,
    pub on_primary: String,
    pub primary_container: String,
    pub on_primary_container: String,
    pub background: String,
    pub on_background: String,
    pub surface: String,
    pub on_surface: String,
    pub outline: String,
    pub error: String,
    pub on_error: String,
    pub secondary: String,
    pub on_secondary: String,
    pub tertiary: String,
    pub on_tertiary: String,
}

impl Theme {
    /// The palette of this scheme.
    pub fn get_theme(&self) -> (r: ThemeStyle)
        ensures
            *self is Dark ==> {
                &&& r.primary@ == "#4cd9e3"@
                &&& r.on_primary@ == "#00363a"@
                &&& r.primary_container@ == "#004f54"@
                &&& r.on_primary_container@ == "#72f5ff"@
                &&& r.background@ == "#191c1c"@
                &&& r.on_background@ == "#e0e3e3"@
                &&& r.surface@ == "#191c1c"@
                &&& r.on_surface@ == "#e0e3e3"@
                &&& r.outline@ == "#899393"@
                &&& r.error@ == "#ffb4ab"@
                &&& r.on_error@ == "#690005"@
                &&& r.secondary@ == "#b1cbce"@
                &&& r.on_secondary@ == "#1b3436"@
                &&& r.tertiary@ == "#b6c7ea"@
                &&& r.on_tertiary@ == "#20314c"@
            },
            *self is Light ==> {
                &&& r.primary@ == "#00696f"@
                &&& r.on_primary@ == "#ffffff"@
                &&& r.primary_container@ == "#72f5ff"@
                &&& r.on_primary_container@ == "#002022"@
                &&& r.background@ == "#fafdfc"@
                &&& r.on_background@ == "#191c1c"@
                &&& r.surface@ == "#fafdfc"@
                &&& r.on_surface@ == "#191c1c"@
                &&& r.outline@ == "#6f797a"@
                &&& r.error@ == "#ba1a1a"@
                &&& r.on_error@ == "#ffffff"@
                &&& r.secondary@ == "#4a6365"@
                &&& r.on_secondary@ == "#ffffff"@
                &&& r.tertiary@ == "#4f5f7d"@
                &&& r.on_tertiary@ == "#ffffff"@
            },
    {
        match self {
            Theme::Dark => ThemeStyle {
                primary: "#4cd9e3".to_owned(),
                on_primary: "#00363a".to_owned(),
                primary_container: "#004f54".to_owned(),
                on_primary_container: "#72f5ff".to_owned(),
                background: "#191c1c".to_owned(),
                on_background: "#e0e3e3".to_owned(),
                surface: "#191c1c".to_owned(),
                on_surface: "#e0e3e3".to_owned(),
                outline: "#899393".to_owned(),
                error: "#ffb4ab".to_owned(),
                on_error: "#690005".to_owned(),
                secondary: "#b1cbce".to_owned(),
                on_secondary: "#1b3436".to_owned(),
                tertiary: "#b6c7ea".to_owned(),
                on_tertiary: "#20314c".to_owned(),
            },
            Theme::Light => ThemeStyle {
                primary: "#00696f".to_owned(),
                on_primary: "#ffffff".to_owned(),
                primary_container: "#72f5ff".to_owned(),
                on_primary_container: "#002022".to_owned(),
                background: "#fafdfc".to_owned(),
                on_background: "#191c1c".to_owned(),
                surface: "#fafdfc".to_owned(),
                on_surface: "#191c1c".to_owned(),
                outline: "#6f797a".to_owned(),
                error: "#ba1a1a".to_owned(),
                on_error: "#ffffff".to_owned(),
                secondary: "#4a6365".to_owned(),
                on_secondary: "#ffffff".to_owned(),
                tertiary: "#4f5f7d".to_owned(),
                on_tertiary: "#ffffff".to_owned(),
            },
        }
    }
}

} // verus!
