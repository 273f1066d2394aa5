//! TOML documents of the shape a configuration file has: named sections of
//! keyed values. The text itself is read and written by the `toml` crate.

use vstd::prelude::*;

verus! {

/// A value of one of the two kinds that a configuration holds.
#[derive(Debug)]
pub enum Scalar {
    Text(String),
    Integer(i64),
}

/// A keyed value of a section. The value is `None` where the document holds
/// one of another kind under the key.
#[derive(Debug)]
pub struct Field {
    pub key: String,
    pub value: Option<Scalar>,
}

/// A top-level entry of a document. The fields are `None` where the document
/// holds something other than a table under the name.
#[derive(Debug)]
pub struct Section {
    pub name: String,
    pub fields: Option<Vec<Field>>,
}

/// Mathematical value of a [`Scalar`].
pub enum ScalarView {
    Text(Seq<char>),
    Integer(i64),
}

/// Mathematical value of a [`Field`].
pub struct FieldView {
    pub key: Seq<char>,
    pub value: Option<ScalarView>,
}

/// Mathematical value of a [`Section`].
pub struct SectionView {
    pub name: Seq<char>,
    pub fields: Option<Seq<FieldView>>,
}

impl View for Scalar {
    type V = ScalarView;

    open spec fn view(&self) -> ScalarView {
        match self {
            Scalar::Text(text) => ScalarView::Text(text@),
            Scalar::Integer(number) => ScalarView::Integer(*number),
        }
    }
}

impl View for Field {
    type V = FieldView;

    open spec fn view(&self) -> FieldView {
        FieldView {
            key: self.key@,
            value: match self.value {
                Some(scalar) => Some(scalar@),
                None => None,
            },
        }
    }
}

/// Mathematical value of a list of fields.
pub open spec fn fields_view(fields: &Vec<Field>) -> Seq<FieldView> {
    Seq::new(fields.len() as nat, |i: int| fields[i]@)
}

impl View for Section {
    type V = SectionView;

    open spec fn view(&self) -> SectionView {
        SectionView {
            name: self.name@,
            fields: match self.fields {
                Some(fields) => Some(fields_view(&fields)),
                None => None,
            },
        }
    }
}

/// Mathematical value of a document.
pub open spec fn document_view(document: &Vec<Section>) -> Seq<SectionView> {
    Seq::new(document.len() as nat, |i: int| document[i]@)
}

/// Every entry is a table, and every value of it a text or an integer.
pub open spec fn writable(document: Seq<SectionView>) -> bool {
    forall|i: int|
        0 <= i < document.len() ==> {
            &&& (#[trigger] document[i]).fields matches Some(fields)
            &&& forall|j: int| 0 <= j < fields.len() ==> (#[trigger] fields[j]).value is Some
        }
}

/// `toml::de::Error`, carried from the parser to [`parse_failure_text`] as
/// it is.
#[verifier::external_type_specification]
#[verifier::external_body]
pub struct ExDeError(toml::de::Error);

/// `toml::ser::Error`, carried from the serializer to
/// [`render_failure_text`] as it is.
#[verifier::external_type_specification]
#[verifier::external_body]
pub struct ExSerError(toml::ser::Error);

/// The document that `text` holds, entries and fields in the order of the
/// parser's tables; `None` where `text` is not TOML.
pub uninterp spec fn parsed(text: Seq<char>) -> Option<Seq<SectionView>>;

/// The TOML text of a document; `None` where the serializer refuses it.
pub uninterp spec fn rendered(document: Seq<SectionView>) -> Option<Seq<char>>;

/// Reads TOML text.
///
/// Calls `toml::from_str` for a `toml::Table` and hands its entries out as
/// sections: a table becomes the list of its fields, a string or an integer
/// becomes a scalar, anything else is marked by `None`. Trusted: the outcome
/// is the one that `parsed` names, an error exactly where the text is refused.
#[verifier::external_body]
pub(crate) fn parse_document(text: &str) -> (outcome: Result<Vec<Section>, toml::de::Error>)
    ensures
        outcome matches Ok(document) ==> parsed(text@) == Some(document_view(&document)),
        outcome is Err ==> parsed(text@) is None,
{
    let table: toml::Table = toml::from_str(text)?;
    Ok(table.into_iter().map(|(name, value)| Section { name, fields: match value {
        toml::Value::Table(inner) => Some(inner.into_iter().map(|(key, value)| Field {
            key,
            value: match value {
                toml::Value::String(text) => Some(Scalar::Text(text)),
                toml::Value::Integer(number) => Some(Scalar::Integer(number)),
                _ => None,
            },
        }).collect()),
        _ => None,
    } }).collect())
}

/// Writes a document as TOML text.
///
/// Collects the sections into a `toml::Table` of tables and calls
/// `toml::to_string_pretty` on it. Trusted: the outcome is the one that
/// `rendered` names, an error exactly where the serializer refuses.
#[verifier::external_body]
pub(crate) fn render_document(document: &Vec<Section>) -> (outcome: Result<
    String,
    toml::ser::Error,
>)
    requires
        writable(document_view(document)),
    ensures
        outcome matches Ok(text) ==> rendered(document_view(document)) == Some(text@),
        outcome is Err ==> rendered(document_view(document)) is None,
{
    let table: toml::Table = document.iter().map(|section| (section.name.clone(), toml::Value::Table(
        section.fields.as_ref().unwrap().iter().map(|field| (field.key.clone(),
            match field.value.as_ref().unwrap() {
                Scalar::Text(text) => toml::Value::String(text.clone()),
                Scalar::Integer(number) => toml::Value::Integer(*number),
            })).collect(),
    ))).collect();
    toml::to_string_pretty(&table)
}

/// The parser's report of why a text was refused.
///
/// Formats a `toml::de::Error` with its `Display`. Nothing is stated of the
/// wording.
#[verifier::external_body]
pub(crate) fn parse_failure_text(error: &toml::de::Error) -> (text: String) {
    format!("{}", error)
}

/// The serializer's report of why a document was refused.
///
/// Formats a `toml::ser::Error` with its `Display`. Nothing is stated of the
/// wording.
#[verifier::external_body]
pub(crate) fn render_failure_text(error: &toml::ser::Error) -> (text: String) {
    format!("{}", error)
}

} // verus!
