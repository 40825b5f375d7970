//! Fixture documents: one structured resource definition per file, carrying
//! its type coordinates, name, optional namespace, and the raw document text.

use vstd::prelude::*;
use crate::gvk::{GroupVersionKind, GvkView, gvk_of};

verus! {

/// The fields a YAML resource document hands back before any validation:
/// each may be absent in the text.
pub struct FixtureFields {
    pub api_version: Option<String>,
    pub kind: Option<String>,
    pub name: Option<String>,
    pub generate_name: Option<String>,
    pub namespace: Option<String>,
}

/// Mathematical image of `FixtureFields`.
pub struct FixtureFieldsView {
    pub api_version: Option<Seq<char>>,
    pub kind: Option<Seq<char>>,
    pub name: Option<Seq<char>>,
    pub generate_name: Option<Seq<char>>,
    pub namespace: Option<Seq<char>>,
}

pub open spec fn opt_str_view(s: Option<String>) -> Option<Seq<char>> {
    match s {
        Option::Some(x) => Option::Some(x@),
        Option::None => Option::None,
    }
}

impl View for FixtureFields {
    type V = FixtureFieldsView;

    open spec fn view(&self) -> FixtureFieldsView {
        FixtureFieldsView {
            api_version: opt_str_view(self.api_version),
            kind: opt_str_view(self.kind),
            name: opt_str_view(self.name),
            generate_name: opt_str_view(self.generate_name),
            namespace: opt_str_view(self.namespace),
        }
    }
}

pub open spec fn opt_fields_view(r: Option<FixtureFields>) -> Option<FixtureFieldsView> {
    match r {
        Option::Some(f) => Option::Some(f@),
        Option::None => Option::None,
    }
}

/// What deserializing a text as a single dynamic resource document yields:
/// `None` when the text is not one well-formed document, otherwise the type
/// fields and object metadata it declares. A function of the text alone.
pub uninterp spec fn yaml_fixture_of(s: Seq<char>) -> Option<FixtureFieldsView>;

/// Relies on `serde_yaml::from_str` deserializing into kube's
/// `DynamicObject`: the outcome is a pure function of the text; on success
/// the body copies out the declared apiVersion and kind and the metadata
/// name, generateName and namespace.
#[verifier::external_body]
fn deserialize_fixture(text: &str) -> (r: Option<FixtureFields>)
    ensures
        opt_fields_view(r) == yaml_fixture_of(text@),
{
    match serde_yaml::from_str::<kube::api::DynamicObject>(text) {
        Ok(doc) => Some(FixtureFields {
            api_version: doc.types.as_ref().map(|t| t.api_version.clone()),
            kind: doc.types.as_ref().map(|t| t.kind.clone()),
            name: doc.metadata.name.clone(),
            generate_name: doc.metadata.generate_name.clone(),
            namespace: doc.metadata.namespace.clone(),
        }),
        Err(_) => None,
    }
}

/// Why a fixture text was rejected.
#[derive(Clone, Copy, Debug, PartialEq, Eq, Structural)]
pub enum ParseFault {
    /// The file could not be read at all.
    Unreadable,
    /// The text is not one well-formed structured document.
    Syntax,
    /// The document declares no recognizable apiVersion/kind pair.
    MissingTypeCoords,
}

/// A parsed fixture document: its coordinates plus the raw text that will be
/// committed to the server.
#[derive(Debug)]
pub struct FixtureDocument {
    pub gvk: GroupVersionKind,
    pub name: String,
    pub namespace: Option<String>,
    pub body: String,
}

/// Mathematical image of a `FixtureDocument`.
pub struct FixtureDocView {
    pub gvk: GvkView,
    pub name: Seq<char>,
    pub namespace: Option<Seq<char>>,
    pub body: Seq<char>,
}

impl View for FixtureDocument {
    type V = FixtureDocView;

    open spec fn view(&self) -> FixtureDocView {
        FixtureDocView {
            gvk: self.gvk@,
            name: self.name@,
            namespace: opt_str_view(self.namespace),
            body: self.body@,
        }
    }
}

/// The one parse outcome a fixture text admits: rejected for a syntax fault
/// when it is not one well-formed document, rejected for missing type
/// coordinates when apiVersion or kind is absent, and otherwise accepted
/// with its coordinates split out and the name falling back to the
/// generateName field, or to empty when both are absent.
pub open spec fn parsed_fixture(text: Seq<char>) -> Result<FixtureDocView, ParseFault> {
    match yaml_fixture_of(text) {
        Option::None => Result::Err(ParseFault::Syntax),
        Option::Some(f) => {
            if f.api_version is None || f.kind is None {
                Result::Err(ParseFault::MissingTypeCoords)
            } else {
                Result::Ok(FixtureDocView {
                    gvk: gvk_of(f.api_version.unwrap(), f.kind.unwrap()),
                    name: if f.name is Some {
                        f.name.unwrap()
                    } else if f.generate_name is Some {
                        f.generate_name.unwrap()
                    } else {
                        Seq::<char>::empty()
                    },
                    namespace: f.namespace,
                    body: text,
                })
            }
        },
    }
}

pub open spec fn parse_result_view(r: Result<FixtureDocument, ParseFault>) -> Result<
    FixtureDocView,
    ParseFault,
> {
    match r {
        Result::Ok(d) => Result::Ok(d@),
        Result::Err(f) => Result::Err(f),
    }
}

/// Parse one fixture text into a typed document, or say exactly why it is
/// rejected.
pub fn parse_fixture(text: String) -> (r: Result<FixtureDocument, ParseFault>)
    ensures
        parse_result_view(r) == parsed_fixture(text@),
{
    match deserialize_fixture(text.as_str()) {
        None => Err(ParseFault::Syntax),
        Some(f) => {
            match (f.api_version, f.kind) {
                (Some(av), Some(k)) => {
                    let gvk = GroupVersionKind::from_type_fields(av.as_str(), k.as_str());
                    let name = match f.name {
                        Some(n) => n,
                        None => match f.generate_name {
                            Some(n) => n,
                            None => String::new(),
                        },
                    };
                    Ok(FixtureDocument { gvk, name, namespace: f.namespace, body: text })
                },
                _ => Err(ParseFault::MissingTypeCoords),
            }
        },
    }
}

} // verus!
