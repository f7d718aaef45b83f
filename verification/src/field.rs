//! The structural description of a record, as the host hands it over.
//!
//! Field names are identifiers; field types and visibilities are opaque
//! source text, propagated verbatim into the generated methods.  Each field
//! carries its annotations as raw token runs: the library itself decides
//! which of them are `get` or `set` annotations and what their arguments
//! mean.

use vstd::prelude::*;

use crate::tokens::Tok;

verus! {

/// One annotation attached to a field.
#[derive(Debug, PartialEq, Eq)]
pub struct Attr {
    /// The annotation's name (the path of the attribute).
    pub name: String,
    /// `None` for a bare annotation; `Some` carries the token run between
    /// the annotation's parentheses (or after `=`, for a name-value form).
    pub args: Option<Vec<Tok>>,
}

/// The mathematical value of an annotation.
pub ghost struct AttrView {
    pub name: Seq<char>,
    pub args: Option<Seq<Tok>>,
}

impl View for Attr {
    type V = AttrView;

    open spec fn view(&self) -> AttrView {
        AttrView {
            name: self.name@,
            args: match self.args {
                Option::None => None,
                Option::Some(v) => Some(v@),
            },
        }
    }
}

impl DeepView for Attr {
    type V = AttrView;

    open spec fn deep_view(&self) -> AttrView {
        self.view()
    }
}

/// One named field of a record.
#[derive(Debug, PartialEq, Eq)]
pub struct FieldDesc {
    /// The field's identifier.
    pub name: String,
    /// The field's declared type, as opaque source text.
    pub ty: String,
    /// The field's visibility, as opaque source text (possibly empty).
    pub vis: String,
    /// The field's annotations, in source order.
    pub attrs: Vec<Attr>,
}

/// The mathematical value of a field description.
pub ghost struct FieldView {
    pub name: Seq<char>,
    pub ty: Seq<char>,
    pub vis: Seq<char>,
    pub attrs: Seq<AttrView>,
}

impl View for FieldDesc {
    type V = FieldView;

    open spec fn view(&self) -> FieldView {
        FieldView {
            name: self.name@,
            ty: self.ty@,
            vis: self.vis@,
            attrs: self.attrs.deep_view(),
        }
    }
}

impl DeepView for FieldDesc {
    type V = FieldView;

    open spec fn deep_view(&self) -> FieldView {
        self.view()
    }
}

/// A whole record: its type name and its fields in declaration order.
#[derive(Debug, PartialEq, Eq)]
pub struct RecordDesc {
    /// The name of the record type, used to head the emitted block.
    pub name: String,
    /// The fields, in declaration order.
    pub fields: Vec<FieldDesc>,
}

/// The mathematical value of a record description.
pub ghost struct RecordView {
    pub name: Seq<char>,
    pub fields: Seq<FieldView>,
}

impl View for RecordDesc {
    type V = RecordView;

    open spec fn view(&self) -> RecordView {
        RecordView { name: self.name@, fields: self.fields.deep_view() }
    }
}

} // verus!
