//! How a shared module is consumed: under which key and scope it is looked
//! up, which version is asked for, and what is used where none is shared.

use crate::contract::copy_opt;
use crate::contract::opt_text;
use vstd::prelude::*;

verus! {

/// The version of a shared module that a consumer asks for.
#[derive(Debug, Clone, PartialEq, Eq)]
pub enum ConsumeVersion {
    /// A version range, as a description file writes it.
    Version(String),
    /// Any version will do.
    False,
}

/// The mathematical content of a [`ConsumeVersion`].
pub ghost enum VersionModel {
    Version(Seq<char>),
    False,
}

impl View for ConsumeVersion {
    type V = VersionModel;

    open spec fn view(&self) -> VersionModel {
        match *self {
            ConsumeVersion::Version(v) => VersionModel::Version(v@),
            ConsumeVersion::False => VersionModel::False,
        }
    }
}

impl VersionModel {
    /// How the version is written out: the range itself, or `*` for any.
    pub open spec fn text(self) -> Seq<char> {
        match self {
            VersionModel::Version(v) => v,
            VersionModel::False => "*"@,
        }
    }
}

impl ConsumeVersion {
    pub fn to_string(&self) -> (s: String)
        ensures
            s@ == self@.text(),
    {
        match self {
            ConsumeVersion::Version(v) => v.clone(),
            ConsumeVersion::False => String::from_str("*"),
        }
    }

    pub fn copy(&self) -> (c: ConsumeVersion)
        ensures
            c == *self,
    {
        match self {
            ConsumeVersion::Version(v) => ConsumeVersion::Version(v.clone()),
            ConsumeVersion::False => ConsumeVersion::False,
        }
    }
}

/// The content of an optional version.
pub open spec fn opt_version(v: Option<ConsumeVersion>) -> Option<VersionModel> {
    match v {
        Some(v) => Some(v@),
        None => None,
    }
}

/// A copy of an optional version.
pub fn copy_opt_version(v: &Option<ConsumeVersion>) -> (c: Option<ConsumeVersion>)
    ensures
        c == *v,
{
    match v {
        Some(v) => Some(v.copy()),
        None => None,
    }
}

/// How one shared module is consumed.
#[derive(Debug, Clone, PartialEq, Eq)]
pub struct ConsumeOptions {
    /// The request of the module to use where none is shared.
    pub import: Option<String>,
    /// Where that request resolved to.
    pub import_resolved: Option<String>,
    pub share_key: String,
    pub share_scope: String,
    pub required_version: Option<ConsumeVersion>,
    pub package_name: Option<String>,
    pub strict_version: bool,
    pub singleton: bool,
    pub eager: bool,
}

/// The mathematical content of a [`ConsumeOptions`].
pub ghost struct ConsumeModel {
    pub import: Option<Seq<char>>,
    pub import_resolved: Option<Seq<char>>,
    pub share_key: Seq<char>,
    pub share_scope: Seq<char>,
    pub required_version: Option<VersionModel>,
    pub package_name: Option<Seq<char>>,
    pub strict_version: bool,
    pub singleton: bool,
    pub eager: bool,
}

impl View for ConsumeOptions {
    type V = ConsumeModel;

    open spec fn view(&self) -> ConsumeModel {
        ConsumeModel {
            import: opt_text(self.import),
            import_resolved: opt_text(self.import_resolved),
            share_key: self.share_key@,
            share_scope: self.share_scope@,
            required_version: opt_version(self.required_version),
            package_name: opt_text(self.package_name),
            strict_version: self.strict_version,
            singleton: self.singleton,
            eager: self.eager,
        }
    }
}

impl ConsumeOptions {
    pub fn copy(&self) -> (c: ConsumeOptions)
        ensures
            c == *self,
    {
        ConsumeOptions {
            import: copy_opt(&self.import),
            import_resolved: copy_opt(&self.import_resolved),
            share_key: self.share_key.clone(),
            share_scope: self.share_scope.clone(),
            required_version: copy_opt_version(&self.required_version),
            package_name: copy_opt(&self.package_name),
            strict_version: self.strict_version,
            singleton: self.singleton,
            eager: self.eager,
        }
    }
}

impl ConsumeModel {
    /// The options for a request below a prefix: `rest` is what the request
    /// holds after the prefix, and it is added to the share key and, where
    /// there is one, to the request to fall back on.
    pub open spec fn below(self, rest: Seq<char>) -> ConsumeModel {
        ConsumeModel {
            import: match self.import {
                Some(i) => Some(i + rest),
                None => None,
            },
            share_key: self.share_key + rest,
            ..self
        }
    }
}

} // verus!
