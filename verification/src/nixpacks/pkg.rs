//! References into the package catalog.

use vstd::prelude::*;
use vstd::string::*;

verus! {

/// One package of the catalog, optionally with an override expression.
#[derive(Debug, PartialEq, Eq)]
pub struct Pkg {
    pub name: String,
    pub overrides: Option<String>,
}

/// The mathematical content of a [`Pkg`].
pub struct PkgView {
    pub name: Seq<char>,
    pub overrides: Option<Seq<char>>,
}

impl View for Pkg {
    type V = PkgView;

    open spec fn view(&self) -> PkgView {
        PkgView { name: self.name@, overrides: self.overrides.deep_view() }
    }
}

impl DeepView for Pkg {
    type V = PkgView;

    open spec fn deep_view(&self) -> PkgView {
        self@
    }
}

/// How a package is written in the environment descriptor: its bare name,
/// or, with an override, `(name.override { expression })`.
pub open spec fn nix_string(pkg: PkgView) -> Seq<char> {
    match pkg.overrides {
        Some(expression) => "("@ + pkg.name + ".override { "@ + expression + " })"@,
        None => pkg.name,
    }
}

impl Clone for Pkg {
    fn clone(&self) -> (r: Pkg)
        ensures
            r@ == self@,
    {
        let overrides = match &self.overrides {
            Some(expression) => Some(expression.clone()),
            None => None,
        };
        Pkg { name: self.name.clone(), overrides }
    }
}

impl Pkg {
    /// The package called `name`, without an override.
    pub fn new(name: &str) -> (r: Pkg)
        ensures
            r@ == (PkgView { name: name@, overrides: None }),
    {
        Pkg { name: String::from_str(name), overrides: None }
    }

    /// This package with `expression` as its override.
    pub fn set_override(self, expression: &str) -> (r: Pkg)
        ensures
            r@ == (PkgView { name: self@.name, overrides: Some(expression@) }),
    {
        Pkg { name: self.name, overrides: Some(String::from_str(expression)) }
    }

    /// The package as the environment descriptor spells it.
    pub fn to_nix_string(&self) -> (r: String)
        ensures
            r@ == nix_string(self@),
    {
        match &self.overrides {
            Some(expression) => {
                let mut out = String::from_str("(");
                out.append(self.name.as_str());
                out.append(".override { ");
                out.append(expression.as_str());
                out.append(" })");
                out
            },
            None => self.name.clone(),
        }
    }
}

} // verus!
